//! The mathematical model of a store: which nodes and triples it holds, and
//! what creating one does to them.
//!
//! Every contract of the executable store is stated over the functions of this
//! module.

use crate::error::StoreError;
use crate::identity::{has_room, next_id};
use crate::triple::Triple;
use vstd::prelude::*;

verus! {

/// The rules a store enforces, chosen when it is opened.
#[derive(Clone, Copy, Debug, PartialEq, Eq, Structural)]
pub struct Policy {
    /// No two nodes may carry the same label.
    pub unique_labels: bool,
    /// Every node identity that a new triple names must exist.
    pub referential_integrity: bool,
}

impl Policy {
    /// The policy of a store opened without one: labels may repeat,
    /// references are checked.
    pub open spec fn standard() -> Policy {
        Policy { unique_labels: false, referential_integrity: true }
    }
}

impl Default for Policy {
    fn default() -> (policy: Policy)
        ensures
            policy == Policy::standard(),
    {
        Policy { unique_labels: false, referential_integrity: true }
    }
}

/// A node as contracts see it.
pub struct NodeView {
    pub id: Option<u32>,
    pub data: Seq<char>,
}

/// The subject, predicate and object of a stored triple.
pub type Edge = (int, int, int);

/// The contents of a store: label by node identity, edge by triple identity.
pub struct Graph {
    pub nodes: Map<int, Seq<char>>,
    pub triples: Map<int, Edge>,
}

/// The graph left by an operation, and what the operation answers.
pub struct Step<T> {
    pub after: Graph,
    pub result: Result<T, StoreError>,
}

/// Some row of `rows` carries `label`.
pub open spec fn label_taken(rows: Map<int, Seq<char>>, label: Seq<char>) -> bool {
    exists|k: int| #[trigger] rows.contains_key(k) && rows[k] == label
}

/// Some row of `rows` is the edge `edge`.
pub open spec fn edge_taken(rows: Map<int, Edge>, edge: Edge) -> bool {
    exists|k: int| #[trigger] rows.contains_key(k) && rows[k] == edge
}

/// The edge that three node identities name.
pub open spec fn edge_of(subject_id: u32, predicate_id: u32, object_id: u32) -> Edge {
    (subject_id as int, predicate_id as int, object_id as int)
}

impl Graph {
    /// The graph of a store that holds nothing.
    pub open spec fn empty() -> Graph {
        Graph { nodes: Map::empty(), triples: Map::empty() }
    }

    /// The node stored under `id`, if there is one.
    pub open spec fn node(self, id: u32) -> Option<NodeView> {
        if self.nodes.contains_key(id as int) {
            Some(NodeView { id: Some(id), data: self.nodes[id as int] })
        } else {
            None
        }
    }

    /// The triple stored under `id`, if there is one.
    pub open spec fn triple(self, id: u32) -> Option<Triple> {
        if self.triples.contains_key(id as int) {
            let edge = self.triples[id as int];
            Some(
                Triple {
                    id: Some(id),
                    subject_id: edge.0 as u32,
                    predicate_id: edge.1 as u32,
                    object_id: edge.2 as u32,
                },
            )
        } else {
            None
        }
    }

    /// The three references of `edge` lie in the range of identities.
    pub open spec fn in_range(edge: Edge) -> bool {
        &&& 0 <= edge.0 <= u32::MAX
        &&& 0 <= edge.1 <= u32::MAX
        &&& 0 <= edge.2 <= u32::MAX
    }

    /// The graph with one more node.
    pub open spec fn with_node(self, id: int, label: Seq<char>) -> Graph {
        Graph { nodes: self.nodes.insert(id, label), triples: self.triples }
    }

    /// The graph with one more triple.
    pub open spec fn with_triple(self, id: int, edge: Edge) -> Graph {
        Graph { nodes: self.nodes, triples: self.triples.insert(id, edge) }
    }

    /// All three identities name nodes of the graph.
    pub open spec fn references_exist(self, edge: Edge) -> bool {
        &&& self.nodes.contains_key(edge.0)
        &&& self.nodes.contains_key(edge.1)
        &&& self.nodes.contains_key(edge.2)
    }

    /// What creating a node with `label` answers, and the graph it leaves,
    /// when the storage itself does not fail.
    pub open spec fn create_node(self, policy: Policy, label: Seq<char>) -> Step<NodeView> {
        let id = next_id(self.nodes.dom());
        if policy.unique_labels && label_taken(self.nodes, label) {
            Step { after: self, result: Err(StoreError::Conflict) }
        } else if !has_room(self.nodes.dom()) {
            Step { after: self, result: Err(StoreError::StorageUnavailable) }
        } else {
            Step {
                after: self.with_node(id, label),
                result: Ok(NodeView { id: Some(id as u32), data: label }),
            }
        }
    }

    /// What creating the triple `(subject, predicate, object)` answers, and
    /// the graph it leaves, when the storage itself does not fail.
    pub open spec fn create_triple(
        self,
        policy: Policy,
        subject_id: u32,
        predicate_id: u32,
        object_id: u32,
    ) -> Step<Triple> {
        let edge = edge_of(subject_id, predicate_id, object_id);
        let id = next_id(self.triples.dom());
        if policy.referential_integrity && !self.references_exist(edge) {
            Step { after: self, result: Err(StoreError::IntegrityViolation) }
        } else if edge_taken(self.triples, edge) {
            Step { after: self, result: Err(StoreError::Conflict) }
        } else if !has_room(self.triples.dom()) {
            Step { after: self, result: Err(StoreError::StorageUnavailable) }
        } else {
            Step {
                after: self.with_triple(id, edge),
                result: Ok(Triple { id: Some(id as u32), subject_id, predicate_id, object_id }),
            }
        }
    }

    /// The invariants of a store under `policy`: identities are positive and
    /// fit the identity type, as do the references of each triple; no edge is
    /// stored twice; labels are unique where the policy asks for it; triples
    /// name existing nodes where the policy asks for it.
    pub open spec fn well_formed(self, policy: Policy) -> bool {
        &&& forall|k: int| #[trigger] self.nodes.contains_key(k) ==> 1 <= k <= u32::MAX
        &&& forall|k: int| #[trigger]
            self.triples.contains_key(k) ==> 1 <= k <= u32::MAX && Self::in_range(
                self.triples[k],
            )
        &&& forall|j: int, k: int|
            #![trigger self.triples[j], self.triples[k]]
            self.triples.contains_key(j) && self.triples.contains_key(k) && self.triples[j]
                == self.triples[k] ==> j == k
        &&& policy.unique_labels ==> forall|j: int, k: int|
            #![trigger self.nodes[j], self.nodes[k]]
            self.nodes.contains_key(j) && self.nodes.contains_key(k) && self.nodes[j]
                == self.nodes[k] ==> j == k
        &&& policy.referential_integrity ==> forall|k: int| #[trigger]
            self.triples.contains_key(k) ==> self.references_exist(self.triples[k])
    }
}

} // verus!
