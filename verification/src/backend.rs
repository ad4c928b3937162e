//! The SQLite connection behind a store, and the statements run on it.
//!
//! Nothing in this module is proved. Each function makes one call into
//! `rusqlite`, and its contract records what that call is trusted to do to
//! the two tables, which the rest of the library sees only through
//! [`node_rows`] and [`triple_rows`].
//!
//! The contracts read each statement as SQL defines it. Those that read or
//! write rows hold of a database that is declared as this library declares
//! it, and of a connection that keeps its lock, and say so in a `requires`
//! over [`as_declared`] and [`held`]; a store checks both when it is opened.
//!
//! The names speak of the database behind a connection as of a value of that
//! connection. That is sound where the rows change through this connection
//! alone: the two functions that open one give it a cache of its own and are
//! never handed a name that SQLite would read as a URI, and a connection
//! that keeps its lock keeps every other writer off the file.

use crate::model::{edge_of, edge_taken, label_taken};
use crate::store::Store;
use rusqlite::{Connection, Error, OpenFlags, OptionalExtension};
use vstd::prelude::*;

verus! {

/// `rusqlite::Connection`: an open database. Opaque to the verifier.
#[verifier::external_type_specification]
#[verifier::external_body]
pub struct ExConnection(rusqlite::Connection);

/// `rusqlite::Error`: why a call into SQLite failed. Opaque to the verifier.
#[verifier::external_type_specification]
#[verifier::external_body]
pub struct ExError(rusqlite::Error);

/// The rows of table `node`: the `data` of each row, by its `id`. Empty
/// while the table does not exist.
///
/// A row whose `data` is not text counts as carrying a label that no string
/// equals.
pub uninterp spec fn node_rows(db: Connection) -> Map<int, Seq<char>>;

/// The rows of table `triple`: `(subject_id, predicate_id, object_id)` of
/// each row, by its `id`. Empty while the table does not exist.
pub uninterp spec fn triple_rows(db: Connection) -> Map<int, (int, int, int)>;

/// The declarations of the tables of the database: the `sql` that
/// `sqlite_master` keeps for each row of type `table`, by its `name`.
pub uninterp spec fn table_declarations(db: Connection) -> Map<Seq<char>, Seq<char>>;

/// The names of the triggers of the database: the `name` of each row of
/// type `trigger` in `sqlite_master`.
pub uninterp spec fn trigger_names(db: Connection) -> Set<Seq<char>>;

/// Whether the connection has SQLite enforce foreign keys: what
/// `PRAGMA foreign_keys` answers.
pub uninterp spec fn foreign_keys_enforced(db: Connection) -> bool;

/// The text encoding of the database: what `PRAGMA encoding` answers.
pub uninterp spec fn text_encoding(db: Connection) -> Seq<char>;

/// The locking mode of the connection: what `PRAGMA locking_mode` answers.
pub uninterp spec fn locking_mode(db: Connection) -> Seq<char>;

/// Where the connection was opened: the name it was given, `None` for a
/// database in memory that was given none.
pub uninterp spec fn opened_at(db: Connection) -> Option<Seq<char>>;

/// The declaration of table `node`, as this library makes it and as
/// `sqlite_master` keeps it.
pub const NODE_TABLE: &'static str =
    "CREATE TABLE node (id INTEGER PRIMARY KEY AUTOINCREMENT, data BLOB)";

/// The declaration of table `triple`, as this library makes it and as
/// `sqlite_master` keeps it: an edge is unique, and its three references
/// name nodes, which can then neither be deleted nor renumbered.
pub const TRIPLE_TABLE: &'static str =
    "CREATE TABLE triple (id INTEGER PRIMARY KEY AUTOINCREMENT, \
subject_id INTEGER NOT NULL REFERENCES node(id) ON DELETE RESTRICT ON UPDATE RESTRICT, \
predicate_id INTEGER NOT NULL REFERENCES node(id) ON DELETE RESTRICT ON UPDATE RESTRICT, \
object_id INTEGER NOT NULL REFERENCES node(id) ON DELETE RESTRICT ON UPDATE RESTRICT, \
CONSTRAINT only_unique_triples UNIQUE (subject_id, predicate_id, object_id))";

/// `path` begins with `file:`. SQLite can be built to read such a name as a
/// URI whatever flags it is opened with, and a URI can ask for a cache
/// shared with other connections or switch file locking off.
pub open spec fn uri_name(path: Seq<char>) -> bool {
    &&& path.len() >= 5
    &&& path[0] == 'f'
    &&& path[1] == 'i'
    &&& path[2] == 'l'
    &&& path[3] == 'e'
    &&& path[4] == ':'
}

/// The database keeps its texts in UTF-8, holds tables `node` and `triple`
/// declared as this library declares them, and no trigger.
pub open spec fn as_declared(db: Connection) -> bool {
    &&& text_encoding(db) == "UTF-8"@
    &&& table_declarations(db).contains_key("node"@)
    &&& table_declarations(db)["node"@] == NODE_TABLE@
    &&& table_declarations(db).contains_key("triple"@)
    &&& table_declarations(db)["triple"@] == TRIPLE_TABLE@
    &&& forall|name: Seq<char>| !trigger_names(db).contains(name)
}

/// The connection keeps the lock on its database from its first access on:
/// a lock to read keeps every other writer off, a lock to write every other
/// connection.
pub open spec fn held(db: Connection) -> bool {
    locking_mode(db) == "exclusive"@
}

/// `Connection::open_with_flags` on `path`, to read, write and create, with
/// a cache of its own and without the flag that has names read as URIs; a
/// name that could be read as one all the same is left out. Trusted: the
/// connection is one to the database of that name. Nothing is claimed of
/// what the database holds.
#[verifier::external_body]
pub(crate) fn open_file(path: &str) -> (r: Result<Connection, Error>)
    requires
        !uri_name(path@),
    ensures
        r matches Ok(db) ==> opened_at(db) == Option::<Seq<char>>::Some(path@),
{
    Connection::open_with_flags(
        path,
        OpenFlags::SQLITE_OPEN_READ_WRITE | OpenFlags::SQLITE_OPEN_CREATE
            | OpenFlags::SQLITE_OPEN_NO_MUTEX | OpenFlags::SQLITE_OPEN_PRIVATE_CACHE,
    )
}

/// `Connection::open_in_memory_with_flags`, with the flags of [`open_file`].
/// Trusted: the database it opens is new, so both tables are empty.
#[verifier::external_body]
pub(crate) fn open_memory() -> (r: Result<Connection, Error>)
    ensures
        r matches Ok(db) ==> opened_at(db) is None,
        r matches Ok(db) ==> forall|k: int|
            !node_rows(db).contains_key(k) && !triple_rows(db).contains_key(k),
{
    Connection::open_in_memory_with_flags(
        OpenFlags::SQLITE_OPEN_READ_WRITE | OpenFlags::SQLITE_OPEN_CREATE
            | OpenFlags::SQLITE_OPEN_NO_MUTEX | OpenFlags::SQLITE_OPEN_PRIVATE_CACHE,
    )
}

/// `Connection::pragma_update_and_check` of `locking_mode` to `EXCLUSIVE`,
/// which answers with the mode that the connection is in after it. Trusted:
/// the answer is the mode of the connection, and no row changes.
#[verifier::external_body]
pub(crate) fn hold_exclusively(db: &mut Connection) -> (r: Result<String, Error>)
    ensures
        node_rows(*final(db)) == node_rows(*old(db)),
        triple_rows(*final(db)) == triple_rows(*old(db)),
        opened_at(*final(db)) == opened_at(*old(db)),
        r matches Ok(mode) ==> locking_mode(*final(db)) == mode@,
{
    db.pragma_update_and_check(None, "locking_mode", "EXCLUSIVE", |row| row.get::<_, String>(0))
}

/// `Connection::pragma_update` of `foreign_keys` to `on`. Trusted: no row
/// changes, and the connection stays where and as it is held. Whether the setting took is for [`foreign_keys_setting`] to
/// tell: SQLite accepts the statement also where it cannot enforce.
#[verifier::external_body]
pub(crate) fn enforce_foreign_keys(db: &mut Connection, on: bool) -> (r: Result<(), Error>)
    ensures
        node_rows(*final(db)) == node_rows(*old(db)),
        triple_rows(*final(db)) == triple_rows(*old(db)),
        opened_at(*final(db)) == opened_at(*old(db)),
        locking_mode(*final(db)) == locking_mode(*old(db)),
{
    db.pragma_update(None, "foreign_keys", on)
}

/// `Connection::execute_batch` of one of the two declarations. Trusted: to
/// declare a table changes no row, and the connection stays where and as it
/// is held.
#[verifier::external_body]
pub(crate) fn declare_table(db: &mut Connection, declaration: &str) -> (r: Result<(), Error>)
    requires
        declaration@ == NODE_TABLE@ || declaration@ == TRIPLE_TABLE@,
    ensures
        node_rows(*final(db)) == node_rows(*old(db)),
        triple_rows(*final(db)) == triple_rows(*old(db)),
        opened_at(*final(db)) == opened_at(*old(db)),
        locking_mode(*final(db)) == locking_mode(*old(db)),
{
    db.execute_batch(declaration)
}

/// `Connection::query_row` of the `SELECT` of the `sql` that `sqlite_master`
/// keeps for the table `name`, with `optional` for the query without a row.
/// Trusted: the answer is that declaration, `None` when there is no such
/// table.
#[verifier::external_body]
pub(crate) fn table_declaration(db: &Connection, name: &str) -> (r: Result<Option<String>, Error>)
    ensures
        r matches Ok(None) ==> !table_declarations(*db).contains_key(name@),
        r matches Ok(Some(sql)) ==> table_declarations(*db).contains_key(name@)
            && table_declarations(*db)[name@] == sql@,
{
    db.query_row(
        "SELECT sql FROM sqlite_master WHERE type = 'table' AND name = ?1",
        (name,),
        |row| row.get::<_, String>(0),
    ).optional()
}

/// `Connection::query_row` of a `SELECT EXISTS` for a row of type `trigger`
/// in `sqlite_master`. Trusted: the answer says whether the database has a
/// trigger.
#[verifier::external_body]
pub(crate) fn has_trigger(db: &Connection) -> (r: Result<bool, Error>)
    ensures
        r matches Ok(found) ==> found == exists|name: Seq<char>| trigger_names(*db).contains(name),
{
    db.query_row(
        "SELECT EXISTS (SELECT 1 FROM sqlite_master WHERE type = 'trigger')",
        (),
        |row| row.get::<_, bool>(0),
    )
}

/// `Connection::pragma_query_value` of `foreign_keys`. Trusted: the answer
/// is the setting of the connection.
#[verifier::external_body]
pub(crate) fn foreign_keys_setting(db: &Connection) -> (r: Result<bool, Error>)
    ensures
        r matches Ok(on) ==> on == foreign_keys_enforced(*db),
{
    db.pragma_query_value(None, "foreign_keys", |row| row.get::<_, bool>(0))
}

/// `Connection::pragma_query_value` of `encoding`. Trusted: the answer is
/// the text encoding of the database.
#[verifier::external_body]
pub(crate) fn encoding_setting(db: &Connection) -> (r: Result<String, Error>)
    ensures
        r matches Ok(encoding) ==> encoding@ == text_encoding(*db),
{
    db.pragma_query_value(None, "encoding", |row| row.get::<_, String>(0))
}

/// `Connection::query_row` of `SELECT MAX(id) FROM node`. Trusted: the
/// answer is the largest `id` of the table, `None` when it has no row.
#[verifier::external_body]
pub(crate) fn largest_node_id(db: &Connection) -> (r: Result<Option<i64>, Error>)
    requires
        as_declared(*db),
        held(*db),
    ensures
        r matches Ok(None) ==> forall|k: int| !node_rows(*db).contains_key(k),
        r matches Ok(Some(top)) ==> node_rows(*db).contains_key(top as int)
            && forall|k: int| node_rows(*db).contains_key(k) ==> k <= top,
{
    db.query_row("SELECT MAX(id) FROM node", (), |row| row.get::<_, Option<i64>>(0))
}

/// `Connection::query_row` of a `SELECT EXISTS` for a row of `node` whose
/// `data` equals `label`. Trusted: on the column as it is declared, which
/// compares texts byte by byte, and in a database that keeps them in UTF-8,
/// as they are bound and read, the answer says whether there is one.
#[verifier::external_body]
pub(crate) fn label_in_use(db: &Connection, label: &str) -> (r: Result<bool, Error>)
    requires
        as_declared(*db),
        held(*db),
    ensures
        r matches Ok(found) ==> found == label_taken(node_rows(*db), label@),
{
    db.query_row(
        "SELECT EXISTS (SELECT 1 FROM node WHERE data = ?1)",
        (label,),
        |row| row.get::<_, bool>(0),
    )
}

/// `Connection::query_row` of a `SELECT EXISTS` for the row of `node` under
/// `id`. Trusted: the answer says whether there is one.
#[verifier::external_body]
pub(crate) fn node_in_use(db: &Connection, id: u32) -> (r: Result<bool, Error>)
    requires
        as_declared(*db),
        held(*db),
    ensures
        r matches Ok(found) ==> found == node_rows(*db).contains_key(id as int),
{
    db.query_row(
        "SELECT EXISTS (SELECT 1 FROM node WHERE id = ?1)",
        (id,),
        |row| row.get::<_, bool>(0),
    )
}

/// `Connection::query_row` of `SELECT data FROM node WHERE id = ?1`, with
/// `optional` for the query without a row. Trusted: the answer is the text
/// stored under `id`, `None` when the table has no such row.
#[verifier::external_body]
pub(crate) fn select_node(db: &Connection, id: u32) -> (r: Result<Option<String>, Error>)
    requires
        as_declared(*db),
        held(*db),
    ensures
        r matches Ok(None) ==> !node_rows(*db).contains_key(id as int),
        r matches Ok(Some(data)) ==> node_rows(*db).contains_key(id as int)
            && node_rows(*db)[id as int] == data@,
{
    db.query_row("SELECT data FROM node WHERE id = ?1", (id,), |row| row.get::<_, String>(0))
        .optional()
}

/// `Connection::execute`, on the connection of `store`, of
/// `INSERT INTO node (id, data) VALUES (?1, ?2)`.
/// Trusted: on the table as it is declared, which keeps a text as it is
/// given, and without triggers, a statement that succeeds adds the row
/// `(id, data)` and nothing else, and one that fails changes no row; neither
/// touches a declaration, the encoding or a setting of the connection.
#[verifier::external_body]
pub(crate) fn insert_node(store: &mut Store, id: u32, data: &str) -> (r: Result<usize, Error>)
    requires
        as_declared(old(store).db),
        held(old(store).db),
    ensures
        final(store).policy == old(store).policy,
        opened_at(final(store).db) == opened_at(old(store).db),
        locking_mode(final(store).db) == locking_mode(old(store).db),
        text_encoding(final(store).db) == text_encoding(old(store).db),
        triple_rows(final(store).db) == triple_rows(old(store).db),
        r is Ok ==> node_rows(final(store).db) == node_rows(old(store).db).insert(id as int, data@),
        r is Err ==> node_rows(final(store).db) == node_rows(old(store).db),
        table_declarations(final(store).db) == table_declarations(old(store).db),
        trigger_names(final(store).db) == trigger_names(old(store).db),
        foreign_keys_enforced(final(store).db) == foreign_keys_enforced(old(store).db),
{
    store.db.execute("INSERT INTO node (id, data) VALUES (?1, ?2)", (id, data))
}

/// `Connection::query_row` of `SELECT MAX(id) FROM triple`. Trusted: the
/// answer is the largest `id` of the table, `None` when it has no row.
#[verifier::external_body]
pub(crate) fn largest_triple_id(db: &Connection) -> (r: Result<Option<i64>, Error>)
    requires
        as_declared(*db),
        held(*db),
    ensures
        r matches Ok(None) ==> forall|k: int| !triple_rows(*db).contains_key(k),
        r matches Ok(Some(top)) ==> triple_rows(*db).contains_key(top as int)
            && forall|k: int| triple_rows(*db).contains_key(k) ==> k <= top,
{
    db.query_row("SELECT MAX(id) FROM triple", (), |row| row.get::<_, Option<i64>>(0))
}

/// `Connection::query_row` of a `SELECT EXISTS` for a row of `triple` with
/// these three references. Trusted: the answer says whether there is one.
#[verifier::external_body]
pub(crate) fn edge_in_use(
    db: &Connection,
    subject_id: u32,
    predicate_id: u32,
    object_id: u32,
) -> (r: Result<bool, Error>)
    requires
        as_declared(*db),
        held(*db),
    ensures
        r matches Ok(found) ==> found == edge_taken(
            triple_rows(*db),
            edge_of(subject_id, predicate_id, object_id),
        ),
{
    db.query_row(
        "SELECT EXISTS (SELECT 1 FROM triple
           WHERE subject_id = ?1 AND predicate_id = ?2 AND object_id = ?3)",
        (subject_id, predicate_id, object_id),
        |row| row.get::<_, bool>(0),
    )
}

/// `Connection::query_row` of the `SELECT` of the three references of the
/// row of `triple` under `id`, with `optional` for the query without a row.
/// Trusted: the answer is that row, `None` when the table has no such row.
#[verifier::external_body]
pub(crate) fn select_triple(db: &Connection, id: u32) -> (r: Result<Option<(u32, u32, u32)>, Error>)
    requires
        as_declared(*db),
        held(*db),
    ensures
        r matches Ok(None) ==> !triple_rows(*db).contains_key(id as int),
        r matches Ok(Some(row)) ==> triple_rows(*db).contains_key(id as int)
            && triple_rows(*db)[id as int] == edge_of(row.0, row.1, row.2),
{
    db.query_row(
        "SELECT subject_id, predicate_id, object_id FROM triple WHERE id = ?1",
        (id,),
        |row| Ok((row.get::<_, u32>(0)?, row.get::<_, u32>(1)?, row.get::<_, u32>(2)?)),
    ).optional()
}

/// `Connection::execute`, on the connection of `store`, of the `INSERT` of
/// one row into `triple`, with its
/// `id` and its three references. Trusted: on the table as it is declared,
/// and without triggers, a statement that succeeds adds that row and nothing
/// else, and one that fails changes no row; neither touches a declaration,
/// the encoding or a setting of the connection.
#[verifier::external_body]
pub(crate) fn insert_triple(
    store: &mut Store,
    id: u32,
    subject_id: u32,
    predicate_id: u32,
    object_id: u32,
) -> (r: Result<usize, Error>)
    requires
        as_declared(old(store).db),
        held(old(store).db),
    ensures
        final(store).policy == old(store).policy,
        opened_at(final(store).db) == opened_at(old(store).db),
        locking_mode(final(store).db) == locking_mode(old(store).db),
        text_encoding(final(store).db) == text_encoding(old(store).db),
        node_rows(final(store).db) == node_rows(old(store).db),
        r is Ok ==> triple_rows(final(store).db) == triple_rows(old(store).db).insert(
            id as int,
            edge_of(subject_id, predicate_id, object_id),
        ),
        r is Err ==> triple_rows(final(store).db) == triple_rows(old(store).db),
        table_declarations(final(store).db) == table_declarations(old(store).db),
        trigger_names(final(store).db) == trigger_names(old(store).db),
        foreign_keys_enforced(final(store).db) == foreign_keys_enforced(old(store).db),
{
    store.db.execute(
        "INSERT INTO triple (id, subject_id, predicate_id, object_id) VALUES (?1, ?2, ?3, ?4)",
        (id, subject_id, predicate_id, object_id),
    )
}

} // verus!
