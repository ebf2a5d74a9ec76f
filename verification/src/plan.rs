//! The ghost plan model of a lazy computation.
//!
//! A lazy computation handle is opaque: the execution engine keeps its plan
//! to itself. Every handle this library builds therefore carries a ghost
//! [`PlanSpec`], the mathematical description of how the handle was derived —
//! which file was scanned, which filters were applied in which order, which
//! join with which parameters. The resolution contracts pin this model
//! exactly, so structurally identical models mean the same sequence of engine
//! calls built the two handles.

use vstd::prelude::*;

use polars::prelude::LazyFrame;

use crate::coerce::{CmpOp, TypedValueSpec};
use crate::join::JoinParametersSpec;

verus! {

/// The recognized columnar file formats.
#[derive(Clone, Copy, Debug, PartialEq, Eq, Structural)]
pub enum FileFormat {
    Parquet,
    Ipc,
}

/// The file format named by `format`, if recognized.
pub open spec fn spec_file_format(format: Seq<char>) -> Option<FileFormat> {
    if format == "parquet"@ {
        Some(FileFormat::Parquet)
    } else if format == "ipc"@ {
        Some(FileFormat::Ipc)
    } else {
        None
    }
}

/// How a lazy computation was derived, bottom to top.
pub enum PlanSpec {
    /// A base computation supplied from outside the resolution engine.
    External,
    /// A lazy scan of one columnar file.
    Scan { format: FileFormat, source: Seq<char> },
    /// A row filter comparing one column against a typed literal.
    FilterValue { input: Box<PlanSpec>, column: Seq<char>, op: CmpOp, value: TypedValueSpec },
    /// The pairwise rank-correlation matrix over the named columns: one
    /// output column per ordered pair of distinct names, named `{a}X{b}`.
    /// `pairs` lists exactly those ordered pairs, in nested iteration order;
    /// pairs of equal names are excluded.
    Correlation {
        input: Box<PlanSpec>,
        columns: Seq<Seq<char>>,
        pairs: Seq<(Seq<char>, Seq<char>)>,
    },
    /// The duplicate groups of one column: values occurring more than once,
    /// with their counts, ordered by count descending.
    Duplicates { input: Box<PlanSpec>, column: Seq<char> },
    /// The equality join of two computations.
    Join { left: Box<PlanSpec>, right: Box<PlanSpec>, params: JoinParametersSpec },
}

/// A lazy computation: an unexecuted description of a tabular pipeline,
/// paired with the ghost plan model of how it was derived. Immutable once
/// produced; every transformation yields a new handle.
pub struct LazyComputation {
    frame: LazyFrame,
    plan: Ghost<PlanSpec>,
}

impl View for LazyComputation {
    type V = PlanSpec;

    closed spec fn view(&self) -> PlanSpec {
        self.plan@
    }
}

impl LazyComputation {
    /// Wraps an externally supplied base computation.
    pub fn from_frame(frame: LazyFrame) -> (r: LazyComputation)
        ensures
            r@ == PlanSpec::External,
    {
        LazyComputation { frame, plan: Ghost(PlanSpec::External) }
    }

    /// Pairs an engine handle with the plan model its construction followed.
    pub(crate) fn with_plan(frame: LazyFrame, Ghost(plan): Ghost<PlanSpec>) -> (r: LazyComputation)
        ensures
            r@ == plan,
    {
        LazyComputation { frame, plan: Ghost(plan) }
    }

    /// Hands the underlying engine handle out, for materialization.
    pub fn into_frame(self) -> LazyFrame {
        self.frame
    }
}

} // verus!
