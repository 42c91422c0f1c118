//! A type-indexed store: a container that holds at most one value of each
//! distinct storable type, looked up by that type rather than by a key the
//! caller passes explicitly.
//!
//! The container is [`State`], generic over a cell type `C` that can hold,
//! type-erased, every value the embedding application wants to store. A type
//! becomes storable by implementing [`Stored<C>`], which fixes its key and
//! its erase/downcast pair.

mod duo;
mod laws;
mod store;

pub use duo::{Duo, First, Second};
pub use laws::{
    lemma_distinct_types_isolated, lemma_empty_absent, lemma_put_replaces, lemma_put_then_present,
    lemma_query_idempotent, lemma_take_removes,
};
pub use store::{stored_value, State, Stored};
