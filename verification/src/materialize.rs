//! The output materialization boundary.
//!
//! Two terminal consumers collapse a lazy frame into a concrete form:
//! execution is deferred up to this point, and a plan the engine cannot
//! execute (a missing source file, a type mismatch, non-joinable keys)
//! surfaces here as `ExecutionError`.

use vstd::prelude::*;

use polars::prelude::LazyFrame;

use crate::engine::{engine_collect_ipc, engine_collect_text};
use crate::errors::FeedError;

verus! {

/// Executes the plan and formats the full resulting table as a
/// human-readable string, with a trailing newline. Fails with
/// `ExecutionError` when the engine cannot execute the plan.
pub fn lazyframe_as_str(lf: LazyFrame) -> (r: Result<String, FeedError>)
    ensures
        r matches Err(e) ==> e@ is ExecutionError,
{
    match engine_collect_text(lf) {
        Ok(text) => Ok(text),
        Err(detail) => Err(FeedError::ExecutionError { detail }),
    }
}

/// Executes the plan and serializes the resulting table into the
/// self-describing binary IPC exchange format. Fails with `ExecutionError`
/// when the engine cannot execute the plan.
pub fn lazyframe_as_arrowbytes(lf: LazyFrame) -> (r: Result<Vec<u8>, FeedError>)
    ensures
        r matches Err(e) ==> e@ is ExecutionError,
{
    match engine_collect_ipc(lf) {
        Ok(bytes) => Ok(bytes),
        Err(detail) => Err(FeedError::ExecutionError { detail }),
    }
}

} // verus!
