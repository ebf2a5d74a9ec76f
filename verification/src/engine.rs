//! The trusted boundary to the lazy tabular execution engine (polars).
//!
//! Everything the resolution engine needs from the collaborator — scanning a
//! columnar file, applying a comparison filter, grouping duplicates, rank
//! correlation, a relational join, and the two terminal materializations —
//! goes through the wrappers here. A lazy frame is an opaque handle: nothing
//! is claimed about what a wrapper returns, and the verified callers instead
//! track a ghost plan model of every handle they build.

use vstd::prelude::*;

use polars::prelude::{
    col, len, lit, spearman_rank_corr, DataFrame, DataType, Expr, IpcWriter, JoinArgs,
    JoinCoalesce, JoinType, JoinValidation, LazyFrame, ScanArgsIpc, ScanArgsParquet, SerWriter,
    SortMultipleOptions,
};

use crate::coerce::{CmpOp, FloatRepr, TypedValue};
use crate::join::{CoalesceMode, JoinKind, KeyValidation};

verus! {

#[verifier::external_type_specification]
#[verifier::external_body]
pub struct ExLazyFrame(LazyFrame);

#[verifier::external_type_specification]
#[verifier::external_body]
pub struct ExExpr(Expr);

#[verifier::external_type_specification]
#[verifier::external_body]
pub struct ExJoinType(JoinType);

#[verifier::external_type_specification]
#[verifier::external_body]
pub struct ExJoinValidation(JoinValidation);

#[verifier::external_type_specification]
#[verifier::external_body]
pub struct ExJoinCoalesce(JoinCoalesce);

/// Relies on `LazyFrame::scan_parquet`: a lazy scan of one parquet file.
/// Whether it succeeds depends on what is on disk, so nothing is promised of
/// the outcome.
#[verifier::external_body]
pub fn load_lazyframe_from_parquet(path: &str) -> (r: Result<LazyFrame, String>)
{
    match LazyFrame::scan_parquet(path, ScanArgsParquet::default()) {
        Ok(lf) => Ok(lf),
        Err(e) => Err(format!("{}", e)),
    }
}

/// Relies on `LazyFrame::scan_ipc` and `LazyFrame::with_streaming`: a lazy
/// scan of one IPC file, executed in streaming mode. Whether it succeeds
/// depends on what is on disk, so nothing is promised of the outcome.
#[verifier::external_body]
pub fn load_lazyframe_from_ipc(path: &str) -> (r: Result<LazyFrame, String>)
{
    match LazyFrame::scan_ipc(path, ScanArgsIpc::default()) {
        Ok(lf) => Ok(lf.with_streaming(true)),
        Err(e) => Err(format!("{}", e)),
    }
}

/// Relies on `lit`, `Expr::cast` and the float meaning of `Float64`: the
/// engine literal a typed comparison value stands for. A float given as
/// decimal text becomes a string literal cast to the engine's float type,
/// which parses it; an integer under a float tag is cast the same way.
#[verifier::external_body]
pub(crate) fn engine_typed_lit(value: &TypedValue) -> (r: Expr)
{
    match value {
        TypedValue::Int(i) => lit(*i),
        TypedValue::UInt(u) => lit(*u),
        TypedValue::Int16(v) => lit(*v),
        TypedValue::Float(FloatRepr::Text(t)) => lit(t.as_str()).cast(DataType::Float64),
        TypedValue::Float(FloatRepr::OfInt(i)) => lit(*i).cast(DataType::Float64),
        TypedValue::Float(FloatRepr::OfUInt(u)) => lit(*u).cast(DataType::Float64),
    }
}

/// Relies on `LazyFrame::filter`, `col` and the comparison methods of
/// `Expr`: keeps the rows on which the named column compares against the
/// given literal.
#[verifier::external_body]
pub(crate) fn engine_filter_cmp(lf: LazyFrame, column: &str, op: &CmpOp, rhs: Expr) -> (r:
    LazyFrame)
{
    let predicate: Expr = match op {
        CmpOp::Gte => col(column).gt_eq(rhs),
        CmpOp::Gt => col(column).gt(rhs),
        CmpOp::Lte => col(column).lt_eq(rhs),
        CmpOp::Lt => col(column).lt(rhs),
        CmpOp::Eq => col(column).eq(rhs),
    };
    lf.filter(predicate)
}

/// Relies on `LazyFrame::group_by`, `agg`, `filter`, `select` and `sort`:
/// groups rows by the named column, counts each group, keeps the groups with
/// more than one row, projects the column and the count, and orders by count
/// descending with the first-seen group order preserved on ties.
#[verifier::external_body]
pub(crate) fn engine_duplicates(lf: LazyFrame, column: &str) -> (r: LazyFrame)
{
    lf.group_by([col(column)]).agg([len().alias("count")]).filter(col("count").gt(1)).select(
        [col(column), col("count")],
    ).sort(
        vec!["count"],
        SortMultipleOptions {
            descending: vec![true],
            nulls_last: vec![true],
            multithreaded: true,
            maintain_order: true,
        },
    )
}

/// Relies on `spearman_rank_corr`, `col` and `Expr::alias`: the Spearman
/// rank correlation of the two named columns, under the given output name.
#[verifier::external_body]
pub(crate) fn engine_corr_expr(a: &str, b: &str, alias: &str) -> (r: Expr)
{
    spearman_rank_corr(col(a), col(b), 1, false).alias(alias)
}

/// Relies on `LazyFrame::select`: projects the frame onto the given
/// expressions, one output column each.
#[verifier::external_body]
pub(crate) fn engine_select(lf: LazyFrame, exprs: Vec<Expr>) -> (r: LazyFrame)
{
    lf.select(exprs)
}

/// Relies on the variant meanings of polars `JoinType`.
#[verifier::external_body]
pub(crate) fn engine_join_type(k: &JoinKind) -> (r: JoinType)
{
    match k {
        JoinKind::Inner => JoinType::Inner,
        JoinKind::Left => JoinType::Left,
        JoinKind::Right => JoinType::Right,
        JoinKind::Full => JoinType::Full,
        JoinKind::Cross => JoinType::Cross,
    }
}

/// Relies on the variant meanings of polars `JoinValidation`.
#[verifier::external_body]
pub(crate) fn engine_join_validation(v: &KeyValidation) -> (r: JoinValidation)
{
    match v {
        KeyValidation::ManyToMany => JoinValidation::ManyToMany,
        KeyValidation::ManyToOne => JoinValidation::ManyToOne,
        KeyValidation::OneToMany => JoinValidation::OneToMany,
        KeyValidation::OneToOne => JoinValidation::OneToOne,
    }
}

/// Relies on the variant meanings of polars `JoinCoalesce`.
#[verifier::external_body]
pub(crate) fn engine_join_coalesce(c: &CoalesceMode) -> (r: JoinCoalesce)
{
    match c {
        CoalesceMode::JoinSpecific => JoinCoalesce::JoinSpecific,
        CoalesceMode::KeepColumns => JoinCoalesce::KeepColumns,
        CoalesceMode::CoalesceColumns => JoinCoalesce::CoalesceColumns,
    }
}

/// Relies on `LazyFrame::join`: the equality join of the two frames on the
/// column pair `(left_on, left_by)` against `(right_on, right_by)`, with the
/// given join type, validation, null handling, coalescing and suffix.
#[verifier::external_body]
pub(crate) fn engine_join(
    left: LazyFrame,
    right: LazyFrame,
    left_on: &str,
    left_by: &str,
    right_on: &str,
    right_by: &str,
    suffix: &str,
    how: JoinType,
    validation: JoinValidation,
    join_nulls: bool,
    coalesce: JoinCoalesce,
) -> (r: LazyFrame)
{
    left.join(
        right,
        [col(left_on), col(left_by)],
        [col(right_on), col(right_by)],
        JoinArgs { how, validation, suffix: Some(suffix.into()), slice: None, join_nulls, coalesce },
    )
}

/// Relies on `LazyFrame::collect` and the `Display` of `DataFrame`: executes
/// the plan and renders the full resulting table, with a trailing newline.
/// Whether execution succeeds depends on the data behind the plan, so
/// nothing is promised of the outcome.
#[verifier::external_body]
pub(crate) fn engine_collect_text(lf: LazyFrame) -> (r: Result<String, String>)
{
    match lf.collect() {
        Ok(df) => Ok(format!("{}\n", df)),
        Err(e) => Err(format!("{}", e)),
    }
}

/// Relies on `LazyFrame::collect` and `IpcWriter`: executes the plan and
/// serializes the resulting table into the binary IPC exchange format.
/// Whether execution succeeds depends on the data behind the plan, so
/// nothing is promised of the outcome.
#[verifier::external_body]
pub(crate) fn engine_collect_ipc(lf: LazyFrame) -> (r: Result<Vec<u8>, String>)
{
    let mut df: DataFrame = match lf.collect() {
        Ok(df) => df,
        Err(e) => {
            return Err(format!("{}", e));
        },
    };
    let mut buffer: Vec<u8> = Vec::new();
    let mut cursor = std::io::Cursor::new(&mut buffer);
    match IpcWriter::new(&mut cursor).finish(&mut df) {
        Ok(()) => Ok(buffer),
        Err(e) => Err(format!("{}", e)),
    }
}

} // verus!
