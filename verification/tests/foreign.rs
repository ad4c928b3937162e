use rusqlite::Connection;
use triple_store::{build_database, Node, Policy, Store, StoreError, Triple};

/// Removes what an earlier run left at `path`, and has a store declare the
/// tables anew.
fn fresh(path: &str) -> Connection {
    let raw = Connection::open(path).unwrap();
    raw.execute_batch("DROP TABLE IF EXISTS triple; DROP TABLE IF EXISTS node;").unwrap();
    drop(build_database(Some(path)).unwrap());
    raw
}

#[test]
fn identities_go_on_above_the_largest_stored() {
    let path = "/tmp/triple_store_foreign_go_on.db";
    let raw = fresh(path);
    raw.execute("INSERT INTO node (id, data) VALUES (?1, ?2)", (40, "forty")).unwrap();
    raw.execute("INSERT INTO node (id, data) VALUES (?1, ?2)", (7, "seven")).unwrap();
    drop(raw);
    let mut store = build_database(Some(path)).unwrap();
    assert_eq!(Node::get(&store, 7), Ok(Some(Node { id: Some(7), data: "seven".to_string() })));
    let next = Node::create(&mut store, "next".to_string()).unwrap();
    assert_eq!(next.id, Some(41));
    let first = Triple::create(&mut store, 7, 40, 41).unwrap();
    assert_eq!(first.id, Some(1));
}

#[test]
fn identities_start_at_one_above_rows_below_one() {
    let path = "/tmp/triple_store_foreign_start_at_one.db";
    let raw = fresh(path);
    raw.execute("INSERT INTO node (id, data) VALUES (?1, ?2)", (-7, "below")).unwrap();
    raw.execute("INSERT INTO node (id, data) VALUES (?1, ?2)", (0, "zero")).unwrap();
    drop(raw);
    let mut store = build_database(Some(path)).unwrap();
    assert_eq!(Node::get(&store, 0), Ok(Some(Node { id: Some(0), data: "zero".to_string() })));
    let next = Node::create(&mut store, "one".to_string()).unwrap();
    assert_eq!(next.id, Some(1));
}

#[test]
fn no_node_is_created_once_the_last_identity_is_taken() {
    let path = "/tmp/triple_store_foreign_last_identity.db";
    let raw = fresh(path);
    raw.execute("INSERT INTO node (id, data) VALUES (?1, ?2)", (4_294_967_294i64, "last but one"))
        .unwrap();
    drop(raw);
    let mut store = build_database(Some(path)).unwrap();
    let last = Node::create(&mut store, "last".to_string()).unwrap();
    assert_eq!(last.id, Some(u32::MAX));
    assert_eq!(
        Node::create(&mut store, "one too many".to_string()),
        Err(StoreError::StorageUnavailable)
    );
    assert_eq!(Node::get(&store, u32::MAX), Ok(Some(last)));
}

#[test]
fn no_triple_is_created_above_the_identity_type() {
    let path = "/tmp/triple_store_foreign_triple_above.db";
    let raw = fresh(path);
    raw.execute("INSERT INTO node (id, data) VALUES (?1, ?2)", (1, "a")).unwrap();
    raw.execute(
        "INSERT INTO triple (id, subject_id, predicate_id, object_id) VALUES (?1, ?2, ?3, ?4)",
        (5_000_000_000i64, 1, 1, 1),
    )
    .unwrap();
    drop(raw);
    let mut store = build_database(Some(path)).unwrap();
    Node::create(&mut store, "b".to_string()).unwrap();
    assert_eq!(Triple::create(&mut store, 1, 1, 2), Err(StoreError::StorageUnavailable));
    // The edge that is stored is still found to be in use.
    assert_eq!(Triple::create(&mut store, 1, 1, 1), Err(StoreError::Conflict));
}

#[test]
fn rows_that_hold_no_text_are_no_labels() {
    let path = "/tmp/triple_store_foreign_without_text.db";
    let raw = fresh(path);
    raw.execute("INSERT INTO node (id, data) VALUES (?1, ?2)", (10, vec![0x34u8, 0x32u8])).unwrap();
    raw.execute("INSERT INTO node (id, data) VALUES (?1, ?2)", (11, None::<String>)).unwrap();
    raw.execute("INSERT INTO node (id, data) VALUES (?1, ?2)", (12, 42)).unwrap();
    drop(raw);
    let policy = Policy { unique_labels: true, referential_integrity: true };
    let mut store = Store::open(Some(path), policy).unwrap();
    assert_eq!(Node::get(&store, 10), Err(StoreError::StorageUnavailable));
    assert_eq!(Node::get(&store, 11), Err(StoreError::StorageUnavailable));
    assert_eq!(Node::get(&store, 12), Err(StoreError::StorageUnavailable));
    // The text "42" is in no row, though its bytes and its number are.
    let created = Node::create(&mut store, "42".to_string()).unwrap();
    assert_eq!(created.id, Some(13));
    assert_eq!(Node::create(&mut store, "42".to_string()), Err(StoreError::Conflict));
    // Such rows are rows all the same: a triple may name them.
    assert!(Triple::create(&mut store, 10, 11, 12).is_ok());
}

#[test]
fn references_beyond_the_identity_type_are_not_read() {
    let path = "/tmp/triple_store_foreign_references_beyond.db";
    let raw = fresh(path);
    raw.execute(
        "INSERT INTO triple (id, subject_id, predicate_id, object_id) VALUES (?1, ?2, ?3, ?4)",
        (1, 5_000_000_000i64, 2, 3),
    )
    .unwrap();
    raw.execute(
        "INSERT INTO triple (id, subject_id, predicate_id, object_id) VALUES (?1, ?2, ?3, ?4)",
        (2, 1, -2, 3),
    )
    .unwrap();
    drop(raw);
    let policy = Policy { unique_labels: false, referential_integrity: false };
    let mut store = Store::open(Some(path), policy).unwrap();
    assert_eq!(Triple::get(&store, 1), Err(StoreError::StorageUnavailable));
    assert_eq!(Triple::get(&store, 2), Err(StoreError::StorageUnavailable));
    assert_eq!(Triple::get(&store, 3), Ok(None));
    let created = Triple::create(&mut store, 1, 2, 3).unwrap();
    assert_eq!(created.id, Some(3));
}

#[test]
fn the_database_itself_refuses_what_the_schema_forbids() {
    let path = "/tmp/triple_store_foreign_schema_forbids.db";
    let raw = fresh(path);
    let mut store = build_database(Some(path)).unwrap();
    for label in ["s", "p", "o"] {
        Node::create(&mut store, label.to_string()).unwrap();
    }
    Triple::create(&mut store, 1, 2, 3).unwrap();
    drop(store);
    raw.pragma_update(None, "foreign_keys", true).unwrap();
    let twice = raw.execute(
        "INSERT INTO triple (subject_id, predicate_id, object_id) VALUES (?1, ?2, ?3)",
        (1, 2, 3),
    );
    assert!(twice.is_err());
    let dangling = raw.execute(
        "INSERT INTO triple (subject_id, predicate_id, object_id) VALUES (?1, ?2, ?3)",
        (1, 2, 9),
    );
    assert!(dangling.is_err());
    assert!(raw.execute("DELETE FROM node WHERE id = ?1", (3,)).is_err());
    assert!(raw.execute("UPDATE node SET id = 30 WHERE id = ?1", (3,)).is_err());
}
