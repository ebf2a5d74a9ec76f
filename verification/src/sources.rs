//! File sources: the leaves of a feed graph.
//!
//! A file feed names a columnar format (`parquet` or `ipc`) and a source
//! path. The format tag is checked before any engine call; an unrecognized
//! tag fails with `UnrecognizedFormat`. Whether the scan itself succeeds
//! depends on what is on disk, so a recognized format may still end in
//! `ExecutionError`.

use vstd::prelude::*;

use crate::engine::{load_lazyframe_from_ipc, load_lazyframe_from_parquet};
use crate::errors::{FeedError, FeedErrorSpec};
use crate::params::str_eq;
use crate::plan::{spec_file_format, FileFormat, LazyComputation, PlanSpec};

verus! {

/// The plan a file feed stands for, or the error an unrecognized format tag
/// fails with.
pub open spec fn spec_file_feed(format: Seq<char>, source: Seq<char>) -> Result<
    PlanSpec,
    FeedErrorSpec,
> {
    match spec_file_format(format) {
        None => Err(FeedErrorSpec::UnrecognizedFormat { format }),
        Some(f) => Ok(PlanSpec::Scan { format: f, source }),
    }
}

/// Opens the named file source as a lazy computation. The format tag decides
/// the scan; an unrecognized tag is rejected before any I/O is attempted, and
/// a failing scan surfaces as `ExecutionError`.
pub fn get_feed_from_file(format: &str, source: &str) -> (r: Result<LazyComputation, FeedError>)
    ensures
        match spec_file_feed(format@, source@) {
            Err(es) => r matches Err(e) && e@ == es,
            Ok(plan) => match r {
                Ok(lc) => lc@ == plan,
                Err(e) => e@ is ExecutionError,
            },
        },
{
    if str_eq(format, "parquet") {
        match load_lazyframe_from_parquet(source) {
            Ok(frame) => Ok(
                LazyComputation::with_plan(
                    frame,
                    Ghost(PlanSpec::Scan { format: FileFormat::Parquet, source: source@ }),
                ),
            ),
            Err(detail) => Err(FeedError::ExecutionError { detail }),
        }
    } else if str_eq(format, "ipc") {
        match load_lazyframe_from_ipc(source) {
            Ok(frame) => Ok(
                LazyComputation::with_plan(
                    frame,
                    Ghost(PlanSpec::Scan { format: FileFormat::Ipc, source: source@ }),
                ),
            ),
            Err(detail) => Err(FeedError::ExecutionError { detail }),
        }
    } else {
        Err(FeedError::UnrecognizedFormat { format: format.to_owned() })
    }
}

} // verus!
