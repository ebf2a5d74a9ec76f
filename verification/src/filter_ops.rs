//! The three recognized filter operations over one lazy computation.
//!
//! `filter_value` compares one column against a typed literal; `correlation`
//! produces the pairwise rank-correlation matrix over a set of columns;
//! `duplicate_values` groups one column and keeps the values occurring more
//! than once. Each yields a new computation derived from its input.

use vstd::prelude::*;

use vstd::string::StringExecFns;

use polars::prelude::Expr;

use crate::coerce::{coerce_value, parse_cmp_op, spec_cmp_op, spec_coerce};
use crate::engine::{
    engine_corr_expr, engine_duplicates, engine_filter_cmp, engine_select, engine_typed_lit,
};
use crate::errors::{FeedError, FeedErrorSpec};
use crate::params::{str_eq, ParamValue, ParamValueSpec};
use crate::plan::{LazyComputation, PlanSpec};

verus! {

/// The numeric domains a `filter_value` step may select. The narrower
/// `int16` coercion belongs to a different code path; here it is outside the
/// vocabulary and rejected like any unrecognized tag.
pub open spec fn spec_filter_tag_ok(type_tag: Seq<char>) -> bool {
    type_tag == "int"@ || type_tag == "uint"@ || type_tag == "float"@
}

/// The plan a `filter_value` step derives from `input`: the type tag must be
/// one of `int`, `uint`, `float` (checked first, before the value or the
/// operator is looked at), the value must coerce under it, and the
/// comparison operator must be recognized.
pub open spec fn spec_filter_value(
    input: PlanSpec,
    column: Seq<char>,
    filter: Seq<char>,
    value: ParamValueSpec,
    type_tag: Seq<char>,
) -> Result<PlanSpec, FeedErrorSpec> {
    if !spec_filter_tag_ok(type_tag) {
        Err(FeedErrorSpec::InvalidType { type_tag })
    } else {
        match spec_coerce(value, type_tag) {
            Err(e) => Err(e),
            Ok(typed) => match spec_cmp_op(filter) {
                None => Err(FeedErrorSpec::InvalidValue { field: "filter"@ }),
                Some(op) => Ok(
                    PlanSpec::FilterValue { input: Box::new(input), column, op, value: typed },
                ),
            },
        }
    }
}

/// Applies a row filter comparing `column` against `value`, interpreted in
/// the numeric domain selected by `type_tag` (`int`, `uint` or `float`) and
/// compared with the operator named by `filter` (`gte`, `gt`, `lte`, `lt`,
/// `eq`).
pub fn filter_value(
    origin: LazyComputation,
    column: &String,
    filter: &String,
    value: &ParamValue,
    type_tag: &String,
) -> (r: Result<LazyComputation, FeedError>)
    ensures
        match r {
            Ok(lc) => spec_filter_value(origin@, column@, filter@, value@, type_tag@) == Ok::<
                PlanSpec,
                FeedErrorSpec,
            >(lc@),
            Err(e) => spec_filter_value(origin@, column@, filter@, value@, type_tag@) == Err::<
                PlanSpec,
                FeedErrorSpec,
            >(e@),
        },
{
    let ghost input_plan = origin@;
    let tag_recognized = str_eq(type_tag.as_str(), "int") || str_eq(type_tag.as_str(), "uint")
        || str_eq(type_tag.as_str(), "float");
    if !tag_recognized {
        return Err(FeedError::InvalidType { type_tag: type_tag.clone() });
    }
    let typed = match coerce_value(value, type_tag.as_str()) {
        Ok(t) => t,
        Err(e) => {
            return Err(e);
        },
    };
    let op = match parse_cmp_op(filter.as_str()) {
        Some(op) => op,
        None => {
            return Err(FeedError::InvalidValue { field: "filter".to_owned() });
        },
    };
    let rhs = engine_typed_lit(&typed);
    let frame = engine_filter_cmp(origin.into_frame(), column.as_str(), &op, rhs);
    Ok(
        LazyComputation::with_plan(
            frame,
            Ghost(
                PlanSpec::FilterValue {
                    input: Box::new(input_plan),
                    column: column@,
                    op,
                    value: typed@,
                },
            ),
        ),
    )
}

/// The plan a `duplicate_values` step derives from `input`.
pub open spec fn spec_duplicates(input: PlanSpec, column: Seq<char>) -> PlanSpec {
    PlanSpec::Duplicates { input: Box::new(input), column }
}

/// Groups rows by `column`, counts each group, keeps the groups with more
/// than one row, projects `column` and the count, and orders by count
/// descending, ties broken by first-seen group order.
pub fn find_duplicate_values_in_column(origin: LazyComputation, column: &str) -> (r:
    LazyComputation)
    ensures
        r@ == spec_duplicates(origin@, column@),
{
    let ghost input_plan = origin@;
    let frame = engine_duplicates(origin.into_frame(), column);
    LazyComputation::with_plan(
        frame,
        Ghost(PlanSpec::Duplicates { input: Box::new(input_plan), column: column@ }),
    )
}

/// The character-sequence images of a list of strings.
pub open spec fn str_list_view(s: Seq<String>) -> Seq<Seq<char>> {
    Seq::new(s.len(), |i: int| s[i]@)
}

/// The pairs of one correlation row: for the column at index `i`, the pairs
/// `(cols[i], cols[j])` for every `j` from `j0` upward, in order, whose name
/// differs from `cols[i]`.
pub open spec fn spec_corr_row(cols: Seq<Seq<char>>, i: int, j: int) -> Seq<
    (Seq<char>, Seq<char>),
>
    decreases cols.len() - j,
{
    if i < 0 || i >= cols.len() || j < 0 || j >= cols.len() {
        Seq::empty()
    } else if cols[j] == cols[i] {
        spec_corr_row(cols, i, j + 1)
    } else {
        seq![(cols[i], cols[j])] + spec_corr_row(cols, i, j + 1)
    }
}

/// The correlation pairs of the rows from index `i` downward.
pub open spec fn spec_corr_pairs_from(cols: Seq<Seq<char>>, i: int) -> Seq<(Seq<char>, Seq<char>)>
    decreases cols.len() - i,
{
    if i < 0 || i >= cols.len() {
        Seq::empty()
    } else {
        spec_corr_row(cols, i, 0) + spec_corr_pairs_from(cols, i + 1)
    }
}

/// The ordered pairs of distinct column names a correlation over `cols`
/// produces, in nested iteration order. A pair of equal names is excluded,
/// so self-pairs never appear, nor any pair formed from a duplicated name.
pub open spec fn spec_corr_pairs(cols: Seq<Seq<char>>) -> Seq<(Seq<char>, Seq<char>)> {
    spec_corr_pairs_from(cols, 0)
}

/// The character-sequence images of a list of name pairs.
pub open spec fn pair_list_view(s: Seq<(String, String)>) -> Seq<(Seq<char>, Seq<char>)> {
    Seq::new(s.len(), |k: int| (s[k].0@, s[k].1@))
}

/// The plan a `correlation` step derives from `input`.
pub open spec fn spec_correlation(input: PlanSpec, columns: Seq<Seq<char>>) -> PlanSpec {
    PlanSpec::Correlation {
        input: Box::new(input),
        columns,
        pairs: spec_corr_pairs(columns),
    }
}

/// The ordered pairs of distinct column names that a correlation over
/// `columns` computes, in nested iteration order; names are compared by
/// content, so a pair of equal names never appears.
#[verifier::loop_isolation(false)]
pub fn correlation_pairs(columns: &Vec<String>) -> (r: Vec<(String, String)>)
    ensures
        pair_list_view(r@) == spec_corr_pairs(str_list_view(columns@)),
{
    let ghost cv = str_list_view(columns@);
    let n: usize = columns.len();
    let mut pairs: Vec<(String, String)> = Vec::new();
    proof {
        assert(pair_list_view(pairs@) + spec_corr_pairs_from(cv, 0) =~= spec_corr_pairs_from(
            cv,
            0,
        ));
    }
    let mut i: usize = 0;
    while i < n
        invariant
            0 <= i <= n,
            n == columns.len(),
            cv.len() == n,
            spec_corr_pairs(cv) == pair_list_view(pairs@) + spec_corr_pairs_from(cv, i as int),
        decreases n - i,
    {
        let mut j: usize = 0;
        proof {
            assert(pair_list_view(pairs@) + spec_corr_pairs_from(cv, i as int) =~= pair_list_view(
                pairs@,
            ) + spec_corr_row(cv, i as int, 0) + spec_corr_pairs_from(cv, i + 1));
        }
        while j < n
            invariant
                0 <= j <= n,
                i < n,
                spec_corr_pairs(cv) == pair_list_view(pairs@) + spec_corr_row(
                    cv,
                    i as int,
                    j as int,
                ) + spec_corr_pairs_from(cv, i + 1),
            decreases n - j,
        {
            if !str_eq(columns[j].as_str(), columns[i].as_str()) {
                let ghost before = pairs@;
                pairs.push((columns[i].clone(), columns[j].clone()));
                proof {
                    assert(pair_list_view(pairs@) =~= pair_list_view(before).push(
                        (cv[i as int], cv[j as int]),
                    ));
                    assert(pair_list_view(before) + spec_corr_row(cv, i as int, j as int)
                        =~= pair_list_view(pairs@) + spec_corr_row(cv, i as int, j + 1));
                }
            }
            j = j + 1;
        }
        proof {
            assert(spec_corr_row(cv, i as int, n as int) =~= Seq::<(Seq<char>, Seq<char>)>::empty());
            assert(pair_list_view(pairs@) + spec_corr_row(cv, i as int, n as int)
                + spec_corr_pairs_from(cv, i + 1) =~= pair_list_view(pairs@)
                + spec_corr_pairs_from(cv, i + 1));
        }
        i = i + 1;
    }
    proof {
        assert(pair_list_view(pairs@) + spec_corr_pairs_from(cv, n as int) =~= pair_list_view(
            pairs@,
        ));
    }
    pairs
}

/// The output column name of the correlation of `a` against `b`.
pub open spec fn spec_corr_name(a: Seq<char>, b: Seq<char>) -> Seq<char> {
    a + "X"@ + b
}

/// The output name of the correlation of `a` against `b`: the two column
/// names joined by `X`.
pub fn corr_name(a: &String, b: &String) -> (r: String)
    ensures
        r@ == spec_corr_name(a@, b@),
{
    let joined: String = a.clone().concat("X");
    joined.concat(b.as_str())
}

/// Computes the full pairwise rank-correlation matrix across the named
/// columns: one engine expression per pair of [`correlation_pairs`], each
/// named `{a}X{b}`.
pub fn correlate_columns(origin: LazyComputation, columns: &Vec<String>) -> (r: LazyComputation)
    ensures
        r@ == spec_correlation(origin@, str_list_view(columns@)),
{
    let ghost input_plan = origin@;
    let pairs = correlation_pairs(columns);
    let n: usize = pairs.len();
    let mut exprs: Vec<Expr> = Vec::new();
    let mut k: usize = 0;
    while k < n
        invariant
            0 <= k <= n,
            n == pairs.len(),
        decreases n - k,
    {
        let alias = corr_name(&pairs[k].0, &pairs[k].1);
        exprs.push(engine_corr_expr(pairs[k].0.as_str(), pairs[k].1.as_str(), alias.as_str()));
        k = k + 1;
    }
    let frame = engine_select(origin.into_frame(), exprs);
    LazyComputation::with_plan(
        frame,
        Ghost(
            PlanSpec::Correlation {
                input: Box::new(input_plan),
                columns: str_list_view(columns@),
                pairs: spec_corr_pairs(str_list_view(columns@)),
            },
        ),
    )
}

} // verus!
