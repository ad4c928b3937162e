//! Triples: directed, labelled edges between nodes.

use crate::backend::{
    edge_in_use, insert_triple, largest_triple_id, node_in_use, select_triple,
};
use crate::error::StoreError;
use crate::identity::{identity_after, identity_after_is_next, next_identity, tops};
use crate::laws::create_triple_keeps_well_formed;
use crate::model::{edge_of, Policy};
use crate::store::Store;
use rusqlite::Error;
use vstd::prelude::*;

verus! {

/// A directed edge from `subject_id` to `object_id`, labelled by the node
/// `predicate_id`.
#[derive(Clone, Copy, Debug, PartialEq, Eq, Structural)]
pub struct Triple {
    /// The identity the store assigned; `None` before the triple is stored.
    pub id: Option<u32>,
    pub subject_id: u32,
    pub predicate_id: u32,
    pub object_id: u32,
}

/// Whether the store holds a node under `id`. Always `true` where the policy
/// does not ask for the check.
fn reference_found(store: &Store, id: u32) -> (r: Result<bool, StoreError>)
    ensures
        r matches Ok(found) ==> found == (!store.rules().referential_integrity
            || store@.nodes.contains_key(id as int)),
        r matches Err(e) ==> e == StoreError::StorageUnavailable,
{
    proof {
        use_type_invariant(store);
    }
    if !store.policy.referential_integrity {
        return Ok(true);
    }
    match node_in_use(&store.db, id) {
        Ok(found) => Ok(found),
        Err(_) => Err(StoreError::StorageUnavailable),
    }
}

impl Triple {
    /// Whether a triple may be created, and under which identity:
    /// `IntegrityViolation` where references are checked and one was not
    /// found, else `Conflict` where the edge is in use, else
    /// `StorageUnavailable` where no identity is left after `largest`.
    pub open spec fn decision(
        policy: Policy,
        subject_found: bool,
        predicate_found: bool,
        object_found: bool,
        edge_used: bool,
        largest: Option<i64>,
    ) -> Result<u32, StoreError> {
        if policy.referential_integrity && !(subject_found && predicate_found && object_found) {
            Err(StoreError::IntegrityViolation)
        } else if edge_used {
            Err(StoreError::Conflict)
        } else {
            match identity_after(largest) {
                Some(id) => Ok(id),
                None => Err(StoreError::StorageUnavailable),
            }
        }
    }

    /// Decides on the creation of a triple from what the store answered:
    /// which of the three nodes it holds, whether it holds the edge, and the
    /// largest identity in use.
    pub fn decide(
        policy: Policy,
        subject_found: bool,
        predicate_found: bool,
        object_found: bool,
        edge_used: bool,
        largest: Option<i64>,
    ) -> (r: Result<u32, StoreError>)
        ensures
            r == Triple::decision(
                policy,
                subject_found,
                predicate_found,
                object_found,
                edge_used,
                largest,
            ),
    {
        if policy.referential_integrity && !(subject_found && predicate_found && object_found) {
            return Err(StoreError::IntegrityViolation);
        }
        if edge_used {
            return Err(StoreError::Conflict);
        }
        match next_identity(largest) {
            Some(id) => Ok(id),
            None => Err(StoreError::StorageUnavailable),
        }
    }

    /// Makes the answer of a creation under `id` from what the insertion
    /// gave: the triple as it was stored, or `StorageUnavailable` where the
    /// database failed.
    pub fn stored(
        id: u32,
        subject_id: u32,
        predicate_id: u32,
        object_id: u32,
        inserted: Result<usize, Error>,
    ) -> (r: Result<Triple, StoreError>)
        ensures
            match inserted {
                Ok(_) => r == Ok::<Triple, StoreError>(
                    Triple { id: Some(id), subject_id, predicate_id, object_id },
                ),
                Err(_) => r == Err::<Triple, StoreError>(StoreError::StorageUnavailable),
            },
    {
        match inserted {
            Ok(_) => Ok(Triple { id: Some(id), subject_id, predicate_id, object_id }),
            Err(_) => Err(StoreError::StorageUnavailable),
        }
    }

    /// Stores a new edge from `subject_id` to `object_id`, labelled by
    /// `predicate_id`, and returns it with the identity it was assigned.
    ///
    /// The store answers and changes as [`Graph::create_triple`] says, unless
    /// the database fails: then nothing changes and the answer is
    /// `StorageUnavailable`.
    ///
    /// [`Graph::create_triple`]: crate::model::Graph::create_triple
    pub fn create(store: &mut Store, subject_id: u32, predicate_id: u32, object_id: u32) -> (r:
        Result<Triple, StoreError>)
        ensures
            final(store).rules() == old(store).rules(),
            final(store).location() == old(store).location(),
            old(store)@.well_formed(old(store).rules()) ==> final(store)@.well_formed(
                final(store).rules(),
            ),
            ({
                let ideal = old(store)@.create_triple(
                    old(store).rules(),
                    subject_id,
                    predicate_id,
                    object_id,
                );
                ||| (final(store)@ == ideal.after && r == ideal.result)
                ||| (final(store)@ == old(store)@ && r == Err::<Triple, StoreError>(
                    StoreError::StorageUnavailable,
                ))
            }),
    {
        proof {
            use_type_invariant(&*store);
        }
        let subject_found = match reference_found(store, subject_id) {
            Ok(found) => found,
            Err(e) => {
                return Err(e);
            },
        };
        let predicate_found = match reference_found(store, predicate_id) {
            Ok(found) => found,
            Err(e) => {
                return Err(e);
            },
        };
        let object_found = match reference_found(store, object_id) {
            Ok(found) => found,
            Err(e) => {
                return Err(e);
            },
        };
        let edge_used = match edge_in_use(&store.db, subject_id, predicate_id, object_id) {
            Ok(found) => found,
            Err(_) => {
                return Err(StoreError::StorageUnavailable);
            },
        };
        let largest = match largest_triple_id(&store.db) {
            Ok(largest) => largest,
            Err(_) => {
                return Err(StoreError::StorageUnavailable);
            },
        };
        proof {
            assert(tops(store@.triples.dom(), largest));
            identity_after_is_next(store@.triples.dom(), largest);
            if store@.well_formed(store.rules()) {
                create_triple_keeps_well_formed(
                    store@,
                    store.rules(),
                    subject_id,
                    predicate_id,
                    object_id,
                );
            }
        }
        let decided = Triple::decide(
            store.policy,
            subject_found,
            predicate_found,
            object_found,
            edge_used,
            largest,
        );
        let id = match decided {
            Ok(id) => id,
            Err(e) => {
                return Err(e);
            },
        };
        let inserted = insert_triple(store, id, subject_id, predicate_id, object_id);
        Triple::stored(id, subject_id, predicate_id, object_id, inserted)
    }

    /// Makes the answer of a lookup under `id` from what the database gave:
    /// the triple with the references of its row, absence where there is no
    /// row, `StorageUnavailable` where the database failed.
    pub fn found(id: u32, row: Result<Option<(u32, u32, u32)>, Error>) -> (r: Result<
        Option<Triple>,
        StoreError,
    >)
        ensures
            match row {
                Ok(Some(edge)) => r == Ok::<Option<Triple>, StoreError>(
                    Some(
                        Triple {
                            id: Some(id),
                            subject_id: edge.0,
                            predicate_id: edge.1,
                            object_id: edge.2,
                        },
                    ),
                ),
                Ok(None) => r == Ok::<Option<Triple>, StoreError>(None),
                Err(_) => r == Err::<Option<Triple>, StoreError>(StoreError::StorageUnavailable),
            },
    {
        match row {
            Ok(Some(edge)) => Ok(
                Some(
                    Triple {
                        id: Some(id),
                        subject_id: edge.0,
                        predicate_id: edge.1,
                        object_id: edge.2,
                    },
                ),
            ),
            Ok(None) => Ok(None),
            Err(_) => Err(StoreError::StorageUnavailable),
        }
    }

    /// Looks up the triple stored under `id`: `Ok(None)` where there is
    /// none.
    ///
    /// A failure of the database, or a row whose references are no
    /// identities, is reported as `StorageUnavailable`.
    pub fn get(store: &Store, id: u32) -> (r: Result<Option<Triple>, StoreError>)
        ensures
            r matches Ok(found) ==> found == store@.triple(id),
            r matches Ok(Some(triple)) ==> store@.triples[id as int] == edge_of(
                triple.subject_id,
                triple.predicate_id,
                triple.object_id,
            ),
            r matches Err(e) ==> e == StoreError::StorageUnavailable,
    {
        proof {
            use_type_invariant(store);
        }
        Triple::found(id, select_triple(&store.db, id))
    }
}

} // verus!
