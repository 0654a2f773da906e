//! A list with array-like indexing, backed by a skip list of handles.
mod laws;
mod store;
mod vectorish;

pub use laws::{
    lemma_boundary, lemma_get_after_insert, lemma_get_after_set, lemma_length_accounting,
    lemma_push_order, lemma_reverse_involution,
};
pub use store::skiplist_items;
pub use vectorish::{insert_clamped, lookup, resolve_index, VecError, Vectorish};
