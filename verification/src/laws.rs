//! What holds of every store, proved over the model that the contracts of
//! the store's operations are stated in.

use crate::error::StoreError;
use crate::identity::{bounded_identities_have_next, has_room, next_id};
use crate::model::{edge_of, edge_taken, label_taken, Graph, NodeView, Policy};
use crate::triple::Triple;
use vstd::prelude::*;

verus! {

/// An identity that is assigned is positive, was not in use, and lies above
/// every identity that was, for nodes and for triples alike.
pub proof fn assigned_identity_is_new(
    g: Graph,
    policy: Policy,
    label: Seq<char>,
    subject_id: u32,
    predicate_id: u32,
    object_id: u32,
)
    ensures
        g.create_node(policy, label).result matches Ok(node) ==> node.id matches Some(id) && id
            >= 1 && !g.nodes.contains_key(id as int) && forall|k: int|
            g.nodes.contains_key(k) ==> k < id,
        g.create_triple(policy, subject_id, predicate_id, object_id).result matches Ok(triple)
            ==> triple.id matches Some(id) && id >= 1 && !g.triples.contains_key(id as int)
            && forall|k: int| g.triples.contains_key(k) ==> k < id,
{
}

/// A node that was created is found under the identity it was given, and
/// what is found equals what creation returned.
pub proof fn created_node_is_found(g: Graph, policy: Policy, label: Seq<char>)
    requires
        g.create_node(policy, label).result is Ok,
    ensures
        ({
            let step = g.create_node(policy, label);
            &&& step.result matches Ok(node)
            &&& node.id matches Some(id)
            &&& node.data == label
            &&& step.after.node(id) == Some(node)
        }),
{
}

/// Under unique labels, creating a node twice with a label that was free
/// succeeds the first time and fails with `Conflict` the second time, and
/// the second call leaves the store as the first left it.
pub proof fn second_node_conflicts(g: Graph, policy: Policy, label: Seq<char>)
    requires
        policy.unique_labels,
        !label_taken(g.nodes, label),
        has_room(g.nodes.dom()),
    ensures
        ({
            let first = g.create_node(policy, label);
            let second = first.after.create_node(policy, label);
            &&& first.result is Ok
            &&& second.result == Err::<NodeView, StoreError>(StoreError::Conflict)
            &&& second.after == first.after
        }),
{
    let first = g.create_node(policy, label);
    let id = next_id(g.nodes.dom());
    assert(first.after.nodes.contains_key(id) && first.after.nodes[id] == label);
}

/// A triple between three existing nodes, not stored yet, is created, and is
/// then found under the identity it was given, identical in every field to
/// what creation returned.
pub proof fn created_triple_is_found(
    g: Graph,
    policy: Policy,
    subject_id: u32,
    predicate_id: u32,
    object_id: u32,
)
    requires
        g.references_exist(edge_of(subject_id, predicate_id, object_id)),
        !edge_taken(g.triples, edge_of(subject_id, predicate_id, object_id)),
        has_room(g.triples.dom()),
    ensures
        ({
            let step = g.create_triple(policy, subject_id, predicate_id, object_id);
            &&& step.result matches Ok(triple)
            &&& triple.id matches Some(id)
            &&& triple.subject_id == subject_id
            &&& triple.predicate_id == predicate_id
            &&& triple.object_id == object_id
            &&& step.after.triple(id) == Some(triple)
        }),
{
}

/// Creating once more a triple that was just created fails with `Conflict`
/// and leaves the store as it was.
pub proof fn second_triple_conflicts(
    g: Graph,
    policy: Policy,
    subject_id: u32,
    predicate_id: u32,
    object_id: u32,
)
    requires
        g.create_triple(policy, subject_id, predicate_id, object_id).result is Ok,
    ensures
        ({
            let first = g.create_triple(policy, subject_id, predicate_id, object_id);
            let second = first.after.create_triple(policy, subject_id, predicate_id, object_id);
            &&& second.result == Err::<Triple, StoreError>(StoreError::Conflict)
            &&& second.after == first.after
        }),
{
    let first = g.create_triple(policy, subject_id, predicate_id, object_id);
    let id = next_id(g.triples.dom());
    let edge = edge_of(subject_id, predicate_id, object_id);
    assert(first.after.triples.contains_key(id) && first.after.triples[id] == edge);
}

/// Where references are checked, a triple that names a node the store does
/// not hold, as subject, predicate or object, is refused with
/// `IntegrityViolation`, and the store stays as it was.
pub proof fn dangling_reference_is_refused(
    g: Graph,
    policy: Policy,
    subject_id: u32,
    predicate_id: u32,
    object_id: u32,
)
    requires
        policy.referential_integrity,
        !g.nodes.contains_key(subject_id as int) || !g.nodes.contains_key(predicate_id as int)
            || !g.nodes.contains_key(object_id as int),
    ensures
        ({
            let step = g.create_triple(policy, subject_id, predicate_id, object_id);
            &&& step.result == Err::<Triple, StoreError>(StoreError::IntegrityViolation)
            &&& step.after == g
        }),
{
}

/// An identity under which nothing is stored is answered by absence, for
/// nodes and for triples alike.
pub proof fn unknown_identity_is_absent(g: Graph, id: u32)
    ensures
        !g.nodes.contains_key(id as int) ==> g.node(id) is None,
        !g.triples.contains_key(id as int) ==> g.triple(id) is None,
{
}

/// A creation that fails leaves the store as it was.
pub proof fn failed_creation_changes_nothing(
    g: Graph,
    policy: Policy,
    label: Seq<char>,
    subject_id: u32,
    predicate_id: u32,
    object_id: u32,
)
    ensures
        g.create_node(policy, label).result is Err ==> g.create_node(policy, label).after == g,
        g.create_triple(policy, subject_id, predicate_id, object_id).result is Err
            ==> g.create_triple(policy, subject_id, predicate_id, object_id).after == g,
{
}

/// Creating a node keeps the invariants of the store, and every node and
/// triple that was stored stays as it was, under its identity.
pub proof fn create_node_keeps_well_formed(g: Graph, policy: Policy, label: Seq<char>)
    requires
        g.well_formed(policy),
    ensures
        g.create_node(policy, label).after.well_formed(policy),
        forall|id: u32|
            g.nodes.contains_key(id as int) ==> #[trigger] g.create_node(policy, label).after.node(
                id,
            ) == g.node(id),
        g.create_node(policy, label).after.triples == g.triples,
{
    bounded_identities_have_next(g.nodes.dom(), u32::MAX as int);
}

/// Creating a triple keeps the invariants of the store, and every node and
/// triple that was stored stays as it was, under its identity.
pub proof fn create_triple_keeps_well_formed(
    g: Graph,
    policy: Policy,
    subject_id: u32,
    predicate_id: u32,
    object_id: u32,
)
    requires
        g.well_formed(policy),
    ensures
        g.create_triple(policy, subject_id, predicate_id, object_id).after.well_formed(policy),
        forall|id: u32|
            g.triples.contains_key(id as int) ==> #[trigger] g.create_triple(
                policy,
                subject_id,
                predicate_id,
                object_id,
            ).after.triple(id) == g.triple(id),
        g.create_triple(policy, subject_id, predicate_id, object_id).after.nodes == g.nodes,
{
    bounded_identities_have_next(g.triples.dom(), u32::MAX as int);
}

/// The empty store meets the invariants of every policy.
pub proof fn empty_is_well_formed(policy: Policy)
    ensures
        Graph::empty().well_formed(policy),
{
}

} // verus!
