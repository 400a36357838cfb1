//! Caudex: the verified core of an ebook library manager.
use vstd::prelude::*;

pub mod digest;
pub mod ingest;
pub mod json;
pub mod library;
pub mod metadata;
pub mod metadata_batch;
pub mod metadata_collections;
pub mod metadata_conflicts;
pub mod metadata_enrichment;
pub mod order;
pub mod providers;
pub mod search_benchmark;
pub mod search_index;
pub mod text;

verus! {

} // verus!
