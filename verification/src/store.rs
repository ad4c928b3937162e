//! The store handle: one exclusively held database and the policy it was
//! opened with.

use crate::backend::{
    as_declared, declare_table, encoding_setting, enforce_foreign_keys, foreign_keys_enforced,
    foreign_keys_setting, has_trigger, held, hold_exclusively, locking_mode, node_rows,
    open_file, open_memory, opened_at, table_declaration, triple_rows, uri_name, NODE_TABLE,
    TRIPLE_TABLE,
};
use crate::error::StoreError;
use crate::model::{Graph, Policy};
use rusqlite::{Connection, Error};
use vstd::prelude::*;

verus! {

/// An open store. Nodes and triples are created and read through it; it is
/// closed when it is dropped.
///
/// The store keeps the lock on its database for as long as it is open. A
/// store that has only read keeps a lock to read: another handle may then
/// open the same file and read it, and neither can write while both are
/// open. A store that has written keeps the file to itself. Either way no
/// other writer can cross a creation, which reads, decides and then writes
/// one row with one statement.
///
/// Rows are created once and never changed: there is no update and no
/// deletion, and the schema makes the database refuse to delete or renumber
/// a node that a triple names.
///
/// Every store holds a database in UTF-8 whose two tables are declared as
/// this library declares them, without triggers, and a connection that
/// keeps its lock and enforces foreign keys exactly where the policy checks
/// references.
pub struct Store {
    pub(crate) db: Connection,
    pub(crate) policy: Policy,
}

impl View for Store {
    type V = Graph;

    /// The nodes and triples that the store holds.
    open(crate) spec fn view(&self) -> Graph {
        Graph { nodes: node_rows(self.db), triples: triple_rows(self.db) }
    }
}

/// Whether `path` begins with `file:`, so that SQLite would read it as a URI.
pub fn is_uri_name(path: &str) -> (r: bool)
    ensures
        r == uri_name(path@),
{
    if path.unicode_len() < 5 {
        return false;
    }
    path.get_char(0) == 'f' && path.get_char(1) == 'i' && path.get_char(2) == 'l' && path.get_char(
        3,
    ) == 'e' && path.get_char(4) == ':'
}

/// Whether what the database gave for a table is the declaration expected:
/// a failure, no table, and any other text are not.
pub fn is_declaration(found: Result<Option<String>, Error>, declaration: &str) -> (r: bool)
    ensures
        r == (found matches Ok(Some(text)) && text@ == declaration@),
{
    match found {
        Ok(Some(text)) => text == declaration.to_owned(),
        _ => false,
    }
}

/// Whether what the database gave for a setting is the text expected: a
/// failure and any other text are not.
pub fn is_setting(found: Result<String, Error>, expected: &str) -> (r: bool)
    ensures
        r == (found matches Ok(text) && text@ == expected@),
{
    match found {
        Ok(text) => text == expected.to_owned(),
        Err(_) => false,
    }
}

/// Declares the table `name` where the database has none of that name.
fn declare_if_absent(db: &mut Connection, name: &str, declaration: &str) -> (r: Result<
    (),
    StoreError,
>)
    requires
        declaration@ == NODE_TABLE@ || declaration@ == TRIPLE_TABLE@,
    ensures
        node_rows(*final(db)) == node_rows(*old(db)),
        triple_rows(*final(db)) == triple_rows(*old(db)),
        opened_at(*final(db)) == opened_at(*old(db)),
        locking_mode(*final(db)) == locking_mode(*old(db)),
        r matches Err(e) ==> e == StoreError::StorageUnavailable,
{
    match table_declaration(db, name) {
        Ok(Some(_)) => Ok(()),
        Ok(None) => match declare_table(db, declaration) {
            Ok(()) => Ok(()),
            Err(_) => Err(StoreError::StorageUnavailable),
        },
        Err(_) => Err(StoreError::StorageUnavailable),
    }
}

impl Store {
    /// What holds of every store: its database is in UTF-8 and declared as
    /// expected, without triggers, and its connection keeps its lock and
    /// enforces foreign keys exactly where the policy checks references.
    #[verifier::type_invariant]
    pub(crate) open spec fn prepared(&self) -> bool {
        &&& as_declared(self.db)
        &&& held(self.db)
        &&& foreign_keys_enforced(self.db) == self.policy.referential_integrity
    }

    /// Where the store was opened: the location it was given.
    pub open(crate) spec fn location(&self) -> Option<Seq<char>> {
        opened_at(self.db)
    }

    /// The policy the store was opened with.
    pub open(crate) spec fn rules(&self) -> Policy {
        self.policy
    }

    /// The policy the store was opened with.
    pub fn policy(&self) -> (policy: Policy)
        ensures
            policy == self.rules(),
    {
        self.policy
    }

    /// Opens the database at `location`, or a new one in memory where
    /// `location` is `None`, takes it for this handle alone, and declares
    /// the two tables where it has none of their names.
    ///
    /// The store is one on the database at `location` and no other. A store
    /// in memory starts empty; of a database that was there before, nothing
    /// is known but what lookups tell. A location that SQLite would read as
    /// a URI is refused. So is a database that keeps its texts otherwise
    /// than in UTF-8, declares either table otherwise than this library
    /// does, or has a trigger, or whose connection does not take the lock
    /// mode or the setting that the policy asks for. These, and any failure
    /// of the database, are reported as `StorageUnavailable`.
    pub fn open(location: Option<&str>, policy: Policy) -> (r: Result<Store, StoreError>)
        ensures
            r matches Ok(store) ==> store.rules() == policy,
            r matches Ok(store) ==> store.location() == (match location {
                Some(path) => Some(path@),
                None => None,
            }),
            r matches Ok(store) ==> (location is None ==> store@ == Graph::empty()
                && store@.well_formed(policy)),
            r matches Err(e) ==> e == StoreError::StorageUnavailable,
            location matches Some(path) && uri_name(path@) ==> r is Err,
    {
        let opened = match location {
            Some(path) => {
                if is_uri_name(path) {
                    return Err(StoreError::StorageUnavailable);
                }
                open_file(path)
            },
            None => open_memory(),
        };
        let mut db = match opened {
            Ok(db) => db,
            Err(_) => {
                return Err(StoreError::StorageUnavailable);
            },
        };
        if !is_setting(hold_exclusively(&mut db), "exclusive") {
            return Err(StoreError::StorageUnavailable);
        }
        if enforce_foreign_keys(&mut db, policy.referential_integrity).is_err() {
            return Err(StoreError::StorageUnavailable);
        }
        if declare_if_absent(&mut db, "node", NODE_TABLE).is_err() {
            return Err(StoreError::StorageUnavailable);
        }
        if declare_if_absent(&mut db, "triple", TRIPLE_TABLE).is_err() {
            return Err(StoreError::StorageUnavailable);
        }
        if !is_declaration(table_declaration(&db, "node"), NODE_TABLE) {
            return Err(StoreError::StorageUnavailable);
        }
        if !is_declaration(table_declaration(&db, "triple"), TRIPLE_TABLE) {
            return Err(StoreError::StorageUnavailable);
        }
        if !is_setting(encoding_setting(&db), "UTF-8") {
            return Err(StoreError::StorageUnavailable);
        }
        match has_trigger(&db) {
            Ok(false) => {},
            _ => {
                return Err(StoreError::StorageUnavailable);
            },
        }
        match foreign_keys_setting(&db) {
            Ok(on) => {
                if on != policy.referential_integrity {
                    return Err(StoreError::StorageUnavailable);
                }
            },
            Err(_) => {
                return Err(StoreError::StorageUnavailable);
            },
        }
        let store = Store { db, policy };
        proof {
            if location is None {
                assert(store@.nodes =~= Graph::empty().nodes);
                assert(store@.triples =~= Graph::empty().triples);
            }
        }
        Ok(store)
    }
}

/// Opens a store under the standard policy: see [`Store::open`].
pub fn build_database(location: Option<&str>) -> (r: Result<Store, StoreError>)
    ensures
        r matches Ok(store) ==> store.rules() == Policy::standard(),
        r matches Ok(store) ==> store.location() == (match location {
            Some(path) => Some(path@),
            None => None,
        }),
        r matches Ok(store) ==> (location is None ==> store@ == Graph::empty()
            && store@.well_formed(Policy::standard())),
        r matches Err(e) ==> e == StoreError::StorageUnavailable,
        location matches Some(path) && uri_name(path@) ==> r is Err,
{
    Store::open(location, Policy::default())
}

} // verus!
