use rusqlite::{Connection, Error};
use triple_store::backend::{NODE_TABLE, TRIPLE_TABLE};
use triple_store::store::{is_declaration, is_setting, is_uri_name};
use triple_store::{build_database, Node, Policy, Store, StoreError};

/// A database at `path` that holds nothing of the two tables.
fn emptied(path: &str) -> Connection {
    let raw = Connection::open(path).unwrap();
    raw.execute_batch(
        "DROP TABLE IF EXISTS triple; DROP TABLE IF EXISTS node; DROP TABLE IF EXISTS other;",
    )
    .unwrap();
    raw
}

fn refused(path: &str) -> bool {
    let strict = Policy { unique_labels: true, referential_integrity: true };
    matches!(build_database(Some(path)), Err(StoreError::StorageUnavailable))
        && matches!(Store::open(Some(path), strict), Err(StoreError::StorageUnavailable))
}

#[test]
fn declarations_are_kept_as_they_are_made() {
    let path = "/tmp/triple_store_declared_as_made.db";
    let raw = emptied(path);
    drop(build_database(Some(path)).unwrap());
    let kept = |name: &str| {
        raw.query_row(
            "SELECT sql FROM sqlite_master WHERE type = 'table' AND name = ?1",
            (name,),
            |row| row.get::<_, String>(0),
        )
        .unwrap()
    };
    assert_eq!(kept("node"), NODE_TABLE);
    assert_eq!(kept("triple"), TRIPLE_TABLE);
    // What was declared once is taken again.
    assert!(build_database(Some(path)).is_ok());
}

#[test]
fn tables_made_by_hand_with_the_same_declarations_are_taken() {
    let path = "/tmp/triple_store_declared_by_hand.db";
    let raw = emptied(path);
    raw.execute_batch(NODE_TABLE).unwrap();
    raw.execute_batch(TRIPLE_TABLE).unwrap();
    raw.execute("INSERT INTO node (id, data) VALUES (?1, ?2)", (3, "by hand")).unwrap();
    let store = build_database(Some(path)).unwrap();
    assert_eq!(Node::get(&store, 3), Ok(Some(Node { id: Some(3), data: "by hand".to_string() })));
}

#[test]
fn labels_that_compare_without_case_are_refused() {
    let path = "/tmp/triple_store_declared_nocase.db";
    let raw = emptied(path);
    raw.execute_batch(
        "CREATE TABLE node (id INTEGER PRIMARY KEY AUTOINCREMENT, data BLOB COLLATE NOCASE)",
    )
    .unwrap();
    raw.execute("INSERT INTO node (id, data) VALUES (?1, ?2)", (1, "Mickey")).unwrap();
    assert!(refused(path));
}

#[test]
fn labels_that_are_kept_as_numbers_are_refused() {
    let path = "/tmp/triple_store_declared_numeric.db";
    let raw = emptied(path);
    raw.execute_batch(
        "CREATE TABLE node (id INTEGER PRIMARY KEY AUTOINCREMENT, data NUMERIC)",
    )
    .unwrap();
    assert!(refused(path));
}

#[test]
fn triggers_are_refused() {
    let path = "/tmp/triple_store_declared_trigger.db";
    let raw = emptied(path);
    drop(build_database(Some(path)).unwrap());
    raw.execute_batch(
        "CREATE TRIGGER echo AFTER INSERT ON triple BEGIN
           INSERT INTO node (data) VALUES ('echo');
         END",
    )
    .unwrap();
    assert!(refused(path));
    raw.execute_batch("DROP TRIGGER echo").unwrap();
    assert!(build_database(Some(path)).is_ok());
}

#[test]
fn triggers_on_other_tables_are_refused_too() {
    let path = "/tmp/triple_store_declared_other_trigger.db";
    let raw = emptied(path);
    drop(build_database(Some(path)).unwrap());
    raw.execute_batch(
        "CREATE TABLE other (x);
         CREATE TRIGGER aside AFTER INSERT ON other BEGIN
           DELETE FROM node;
         END",
    )
    .unwrap();
    assert!(refused(path));
}

#[test]
fn a_declaration_that_differs_in_layout_alone_is_refused() {
    let path = "/tmp/triple_store_declared_layout.db";
    let raw = emptied(path);
    raw.execute_batch(
        "CREATE TABLE node (
           id INTEGER PRIMARY KEY AUTOINCREMENT,
           data BLOB)",
    )
    .unwrap();
    assert!(refused(path));
}

#[test]
fn a_triple_table_without_its_constraints_is_refused() {
    let path = "/tmp/triple_store_declared_loose_triple.db";
    let raw = emptied(path);
    raw.execute_batch(NODE_TABLE).unwrap();
    raw.execute_batch(
        "CREATE TABLE triple (id INTEGER PRIMARY KEY AUTOINCREMENT, subject_id INTEGER, \
         predicate_id INTEGER, object_id INTEGER)",
    )
    .unwrap();
    assert!(refused(path));
}

#[test]
fn a_view_under_the_name_of_a_table_is_refused() {
    let path = "/tmp/triple_store_declared_as_view.db";
    let raw = Connection::open(path).unwrap();
    raw.execute_batch(
        "DROP VIEW IF EXISTS node; CREATE VIEW node AS SELECT 1 AS id, 'x' AS data",
    )
    .unwrap();
    assert!(refused(path));
}

#[test]
fn a_table_named_in_capitals_is_refused() {
    let path = "/tmp/triple_store_declared_capitals.db";
    let raw = emptied(path);
    raw.execute_batch("DROP TABLE IF EXISTS NODE").unwrap();
    raw.execute_batch(
        "CREATE TABLE NODE (id INTEGER PRIMARY KEY AUTOINCREMENT, data BLOB)",
    )
    .unwrap();
    assert!(refused(path));
}

#[test]
fn the_connection_enforces_what_the_policy_checks() {
    let path = "/tmp/triple_store_declared_enforced.db";
    let raw = emptied(path);
    let strict = Policy { unique_labels: false, referential_integrity: true };
    let loose = Policy { unique_labels: false, referential_integrity: false };
    assert!(Store::open(Some(path), strict).is_ok());
    assert!(Store::open(Some(path), loose).is_ok());
    drop(raw);
}

#[test]
fn only_the_expected_text_is_a_declaration() {
    assert!(is_declaration(Ok(Some(NODE_TABLE.to_string())), NODE_TABLE));
    assert!(is_declaration(Ok(Some(TRIPLE_TABLE.to_string())), TRIPLE_TABLE));
    assert!(!is_declaration(Ok(Some(TRIPLE_TABLE.to_string())), NODE_TABLE));
    assert!(!is_declaration(Ok(Some(NODE_TABLE.to_lowercase())), NODE_TABLE));
    assert!(!is_declaration(Ok(Some(format!("{} ", NODE_TABLE))), NODE_TABLE));
    assert!(!is_declaration(Ok(Some(String::new())), NODE_TABLE));
    assert!(!is_declaration(Ok(None), NODE_TABLE));
    assert!(!is_declaration(Err(Error::InvalidQuery), NODE_TABLE));
    assert!(!is_declaration(Err(Error::QueryReturnedNoRows), NODE_TABLE));
}

#[test]
fn names_that_begin_with_file_and_a_colon_are_uris() {
    assert!(is_uri_name("file:"));
    assert!(is_uri_name("file:x"));
    assert!(is_uri_name("file:/tmp/x.db?mode=ro"));
    assert!(is_uri_name("file::memory:?cache=shared"));
    assert!(!is_uri_name(""));
    assert!(!is_uri_name("file"));
    assert!(!is_uri_name("File:x"));
    assert!(!is_uri_name("FILE:x"));
    assert!(!is_uri_name(" file:x"));
    assert!(!is_uri_name("files:x"));
    assert!(!is_uri_name("/tmp/file:x"));
    assert!(!is_uri_name(":memory:"));
    assert!(!is_uri_name("fïle:x"));
}

#[test]
fn a_database_in_another_encoding_is_refused() {
    let path = "/tmp/triple_store_declared_utf16.db";
    let raw = Connection::open(path).unwrap();
    // The encoding is taken when the file is first written, and stays.
    raw.execute_batch("PRAGMA encoding = 'UTF-16le'").unwrap();
    raw.execute_batch("DROP TABLE IF EXISTS triple; DROP TABLE IF EXISTS node;").unwrap();
    raw.execute_batch(NODE_TABLE).unwrap();
    raw.execute_batch(TRIPLE_TABLE).unwrap();
    let encoding: String =
        raw.pragma_query_value(None, "encoding", |row| row.get(0)).unwrap();
    assert_eq!(encoding, "UTF-16le");
    // A text of two units that are no pair: read, it is one character that
    // no comparison in the database finds.
    raw.execute("INSERT INTO node (id, data) VALUES (1, CAST(x'00D84100' AS TEXT))", ()).unwrap();
    let read: String =
        raw.query_row("SELECT data FROM node WHERE id = 1", (), |row| row.get(0)).unwrap();
    let found: bool = raw
        .query_row("SELECT EXISTS (SELECT 1 FROM node WHERE data = ?1)", (read.as_str(),), |row| {
            row.get(0)
        })
        .unwrap();
    assert!(!found);
    assert!(refused(path));
}

#[test]
fn a_database_in_utf8_is_taken() {
    let path = "/tmp/triple_store_declared_utf8.db";
    let raw = emptied(path);
    let encoding: String =
        raw.pragma_query_value(None, "encoding", |row| row.get(0)).unwrap();
    assert_eq!(encoding, "UTF-8");
    assert!(build_database(Some(path)).is_ok());
}

#[test]
fn only_the_expected_text_is_a_setting() {
    assert!(is_setting(Ok("exclusive".to_string()), "exclusive"));
    assert!(is_setting(Ok("UTF-8".to_string()), "UTF-8"));
    assert!(!is_setting(Ok("normal".to_string()), "exclusive"));
    assert!(!is_setting(Ok("EXCLUSIVE".to_string()), "exclusive"));
    assert!(!is_setting(Ok("UTF-16le".to_string()), "UTF-8"));
    assert!(!is_setting(Ok("utf-8".to_string()), "UTF-8"));
    assert!(!is_setting(Ok(String::new()), "UTF-8"));
    assert!(!is_setting(Err(Error::InvalidQuery), "UTF-8"));
    assert!(!is_setting(Err(Error::QueryReturnedNoRows), "exclusive"));
}
