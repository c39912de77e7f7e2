//! The transform passes: each applies one category of mutation to a
//! local fixpoint, keeping a mutation only when the oracle accepts the
//! resulting candidate.

pub mod clear_blocks;
pub mod empty_blocks;
pub mod engine;
pub mod privatiser;
pub mod prune_items;
pub mod remove_derive_attrs;
pub mod remove_doc_attrs;
