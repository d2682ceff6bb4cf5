//! Bulk download of call recordings and transcripts listed in a CSV manifest.
//!
//! The library holds the logic: reading the manifest into rows, turning each
//! row into a download task, deciding each step of a fetch, and tracking the
//! outcomes of a batch. Performing the requests and writing files is left to
//! the caller, which hands the results of that work back to these functions.
use vstd::prelude::*;

pub mod batch;
pub mod fetch;
pub mod manifest;
pub mod plan;
pub mod task;

verus! {

} // verus!
