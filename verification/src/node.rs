//! Nodes: the entities of the graph.

use crate::backend::{insert_node, label_in_use, largest_node_id, select_node};
use crate::error::StoreError;
use crate::identity::{identity_after, identity_after_is_next, next_identity, tops};
use crate::laws::create_node_keeps_well_formed;
use crate::model::{NodeView, Policy};
use crate::store::Store;
use rusqlite::Error;
use vstd::prelude::*;

verus! {

/// An entity of the graph: an identity and the text it carries, a plain
/// label or a whole document.
#[derive(Debug, PartialEq, Eq)]
pub struct Node {
    /// The identity the store assigned; `None` before the node is stored.
    pub id: Option<u32>,
    pub data: String,
}

impl View for Node {
    type V = NodeView;

    open spec fn view(&self) -> NodeView {
        NodeView { id: self.id, data: self.data@ }
    }
}

/// The view of what a lookup found.
pub open spec fn found_view(found: Option<Node>) -> Option<NodeView> {
    match found {
        Some(node) => Some(node@),
        None => None,
    }
}

/// The view of what a creation answered.
pub open spec fn created_view(created: Result<Node, StoreError>) -> Result<NodeView, StoreError> {
    match created {
        Ok(node) => Ok(node@),
        Err(e) => Err(e),
    }
}

impl Node {
    /// Whether a node may be created, and under which identity: `Conflict`
    /// where labels must be unique and the label is in use,
    /// `StorageUnavailable` where no identity is left after `largest`.
    pub open spec fn decision(policy: Policy, label_used: bool, largest: Option<i64>) -> Result<
        u32,
        StoreError,
    > {
        if policy.unique_labels && label_used {
            Err(StoreError::Conflict)
        } else {
            match identity_after(largest) {
                Some(id) => Ok(id),
                None => Err(StoreError::StorageUnavailable),
            }
        }
    }

    /// Decides on the creation of a node from what the store answered:
    /// whether the label is in use, and the largest identity in use.
    pub fn decide(policy: Policy, label_used: bool, largest: Option<i64>) -> (r: Result<
        u32,
        StoreError,
    >)
        ensures
            r == Node::decision(policy, label_used, largest),
    {
        if policy.unique_labels && label_used {
            return Err(StoreError::Conflict);
        }
        match next_identity(largest) {
            Some(id) => Ok(id),
            None => Err(StoreError::StorageUnavailable),
        }
    }

    /// Makes the answer of a creation under `id` from what the insertion
    /// gave: the node as it was stored, or `StorageUnavailable` where the
    /// database failed.
    pub fn stored(id: u32, data: String, inserted: Result<usize, Error>) -> (r: Result<
        Node,
        StoreError,
    >)
        ensures
            match inserted {
                Ok(_) => r matches Ok(node) && node@ == (NodeView { id: Some(id), data: data@ }),
                Err(_) => r matches Err(e) && e == StoreError::StorageUnavailable,
            },
    {
        match inserted {
            Ok(_) => Ok(Node { id: Some(id), data }),
            Err(_) => Err(StoreError::StorageUnavailable),
        }
    }

    /// Stores a new node that carries `data` and returns it with the
    /// identity it was assigned.
    ///
    /// The store answers and changes as [`Graph::create_node`] says, unless
    /// the database fails: then nothing changes and the answer is
    /// `StorageUnavailable`.
    ///
    /// [`Graph::create_node`]: crate::model::Graph::create_node
    pub fn create(store: &mut Store, data: String) -> (r: Result<Node, StoreError>)
        ensures
            final(store).rules() == old(store).rules(),
            final(store).location() == old(store).location(),
            old(store)@.well_formed(old(store).rules()) ==> final(store)@.well_formed(
                final(store).rules(),
            ),
            ({
                let ideal = old(store)@.create_node(old(store).rules(), data@);
                ||| (final(store)@ == ideal.after && created_view(r) == ideal.result)
                ||| (final(store)@ == old(store)@ && r == Err::<Node, StoreError>(
                    StoreError::StorageUnavailable,
                ))
            }),
    {
        proof {
            use_type_invariant(&*store);
        }
        let label_used = if store.policy.unique_labels {
            match label_in_use(&store.db, data.as_str()) {
                Ok(found) => found,
                Err(_) => {
                    return Err(StoreError::StorageUnavailable);
                },
            }
        } else {
            false
        };
        let largest = match largest_node_id(&store.db) {
            Ok(largest) => largest,
            Err(_) => {
                return Err(StoreError::StorageUnavailable);
            },
        };
        proof {
            assert(tops(store@.nodes.dom(), largest));
            identity_after_is_next(store@.nodes.dom(), largest);
            if store@.well_formed(store.rules()) {
                create_node_keeps_well_formed(store@, store.rules(), data@);
            }
        }
        let id = match Node::decide(store.policy, label_used, largest) {
            Ok(id) => id,
            Err(e) => {
                return Err(e);
            },
        };
        let inserted = insert_node(store, id, data.as_str());
        Node::stored(id, data, inserted)
    }

    /// Makes the answer of a lookup under `id` from what the database gave:
    /// the node with the text of its row, absence where there is no row,
    /// `StorageUnavailable` where the database failed.
    pub fn found(id: u32, row: Result<Option<String>, Error>) -> (r: Result<
        Option<Node>,
        StoreError,
    >)
        ensures
            match row {
                Ok(Some(data)) => r matches Ok(Some(node)) && node@ == (NodeView {
                    id: Some(id),
                    data: data@,
                }),
                Ok(None) => r matches Ok(None),
                Err(_) => r matches Err(e) && e == StoreError::StorageUnavailable,
            },
    {
        match row {
            Ok(Some(data)) => Ok(Some(Node { id: Some(id), data })),
            Ok(None) => Ok(None),
            Err(_) => Err(StoreError::StorageUnavailable),
        }
    }

    /// Looks up the node stored under `id`: `Ok(None)` where there is none.
    ///
    /// A failure of the database, or a row whose data is no text, is
    /// reported as `StorageUnavailable`.
    pub fn get(store: &Store, id: u32) -> (r: Result<Option<Node>, StoreError>)
        ensures
            r matches Ok(found) ==> found_view(found) == store@.node(id),
            r matches Err(e) ==> e == StoreError::StorageUnavailable,
    {
        proof {
            use_type_invariant(store);
        }
        Node::found(id, select_node(&store.db, id))
    }
}

} // verus!
