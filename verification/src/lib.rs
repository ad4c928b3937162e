//! A persistent graph triple-store on SQLite: nodes, and directed labelled
//! edges between them, with verified rules for identity, uniqueness and
//! referential integrity.
//!
//! A [`Store`] is opened on a database file or in memory. [`Node::create`]
//! and [`Triple::create`] add to it, [`Node::get`] and [`Triple::get`] read
//! from it. What each of them does is stated over the [`model`] of a store,
//! and [`laws`] proves what follows for every store.

pub mod backend;
pub mod error;
pub mod identity;
pub mod laws;
pub mod model;
pub mod node;
pub mod store;
pub mod triple;

pub use error::StoreError;
pub use model::Policy;
pub use node::Node;
pub use store::{build_database, Store};
pub use triple::Triple;
