//! The filter chain evaluator.
//!
//! An ordered list of filter steps is applied to one lazy computation as a
//! left fold: each step's output is the next step's input. A step names one
//! of the recognized filters — `filter_value`, `correlation`,
//! `duplicate_values` — and carries the parameter bag that filter reads. An
//! unknown name fails with `UnknownFilter`; a missing required parameter
//! fails with `MissingParameter`, naming the field and the filter.

use vstd::prelude::*;

use crate::errors::{FeedError, FeedErrorSpec};
use crate::filter_ops::{
    correlate_columns, filter_value, find_duplicate_values_in_column, spec_correlation,
    spec_duplicates, spec_filter_value, str_list_view,
};
use crate::model::{fs_view_list, lemma_fs_view_list, FilterStep, FilterStepSpec};
use crate::params::{
    lemma_pv_view_list, pv_view, pv_view_list, spec_bag_lookup, str_eq, ParamBag, ParamValue,
    ParamValueSpec,
};
use crate::plan::{LazyComputation, PlanSpec};

verus! {

/// A required string field of a filter's parameter bag: absent is
/// `MissingParameter` naming the field and the filter, a non-string value is
/// `InvalidValue`.
pub open spec fn spec_filter_req_str(
    bag: Seq<(Seq<char>, ParamValueSpec)>,
    key: Seq<char>,
    context: Seq<char>,
) -> Result<Seq<char>, FeedErrorSpec> {
    match spec_bag_lookup(bag, key) {
        None => Err(FeedErrorSpec::MissingParameter { field: key, context }),
        Some(v) => match v {
            ParamValueSpec::Str { s } => Ok(s),
            _ => Err(FeedErrorSpec::InvalidValue { field: key }),
        },
    }
}

/// The string contents of a list of untyped values, if every element is a
/// string.
pub open spec fn spec_str_items(items: Seq<ParamValueSpec>) -> Option<Seq<Seq<char>>>
    decreases items.len(),
{
    if items.len() == 0 {
        Some(Seq::empty())
    } else {
        match items[0] {
            ParamValueSpec::Str { s } => match spec_str_items(items.drop_first()) {
                Some(rest) => Some(seq![s] + rest),
                None => None,
            },
            _ => None,
        }
    }
}

/// The plan one filter step derives from `input`, or exactly which error the
/// step fails with.
pub open spec fn spec_apply_step(input: PlanSpec, step: FilterStepSpec) -> Result<
    PlanSpec,
    FeedErrorSpec,
> {
    if step.filter_name == "filter_value"@ {
        match step.parameters {
            None => Err(
                FeedErrorSpec::MissingParameter { field: "parameters"@, context: "filter_value"@ },
            ),
            Some(bag) => match spec_filter_req_str(bag, "column"@, "filter_value"@) {
                Err(e) => Err(e),
                Ok(column) => match spec_filter_req_str(bag, "filter"@, "filter_value"@) {
                    Err(e) => Err(e),
                    Ok(filter) => match spec_bag_lookup(bag, "value"@) {
                        None => Err(
                            FeedErrorSpec::MissingParameter {
                                field: "value"@,
                                context: "filter_value"@,
                            },
                        ),
                        Some(value) => match spec_filter_req_str(bag, "type"@, "filter_value"@) {
                            Err(e) => Err(e),
                            Ok(tag) => spec_filter_value(input, column, filter, value, tag),
                        },
                    },
                },
            },
        }
    } else if step.filter_name == "correlation"@ {
        match step.parameters {
            None => Err(
                FeedErrorSpec::MissingParameter { field: "parameters"@, context: "correlation"@ },
            ),
            Some(bag) => match spec_bag_lookup(bag, "columns"@) {
                None => Err(
                    FeedErrorSpec::MissingParameter { field: "columns"@, context: "correlation"@ },
                ),
                Some(v) => match v {
                    ParamValueSpec::Arr { items } => match spec_str_items(items) {
                        Some(cols) => Ok(spec_correlation(input, cols)),
                        None => Err(FeedErrorSpec::InvalidValue { field: "columns"@ }),
                    },
                    _ => Err(FeedErrorSpec::InvalidValue { field: "columns"@ }),
                },
            },
        }
    } else if step.filter_name == "duplicate_values"@ {
        match step.parameters {
            None => Err(
                FeedErrorSpec::MissingParameter {
                    field: "parameters"@,
                    context: "duplicate_values"@,
                },
            ),
            Some(bag) => match spec_filter_req_str(bag, "column"@, "duplicate_values"@) {
                Err(e) => Err(e),
                Ok(column) => Ok(spec_duplicates(input, column)),
            },
        }
    } else {
        Err(FeedErrorSpec::UnknownFilter { filter: step.filter_name })
    }
}

/// The left fold of a filter chain over `input`: steps apply strictly in
/// list order, and the first failing step decides the error.
pub open spec fn spec_apply_filters(input: PlanSpec, steps: Seq<FilterStepSpec>) -> Result<
    PlanSpec,
    FeedErrorSpec,
> decreases steps.len(),
{
    if steps.len() == 0 {
        Ok(input)
    } else {
        match spec_apply_step(input, steps[0]) {
            Err(e) => Err(e),
            Ok(next) => spec_apply_filters(next, steps.drop_first()),
        }
    }
}

/// Reads a required string field of a filter's parameter bag.
fn filter_req_str(bag: &ParamBag, key: &str, context: &str) -> (r: Result<String, FeedError>)
    ensures
        match r {
            Ok(s) => spec_filter_req_str(bag@, key@, context@) == Ok::<Seq<char>, FeedErrorSpec>(
                s@,
            ),
            Err(e) => spec_filter_req_str(bag@, key@, context@) == Err::<Seq<char>, FeedErrorSpec>(
                e@,
            ),
        },
{
    match bag.get(key) {
        None => Err(
            FeedError::MissingParameter { field: key.to_owned(), context: context.to_owned() },
        ),
        Some(v) => match v {
            ParamValue::Str(s) => Ok(s.clone()),
            _ => Err(FeedError::InvalidValue { field: key.to_owned() }),
        },
    }
}

/// Prepends a known prefix to an optional remainder of extracted strings.
pub open spec fn spec_prepend_items(
    prefix: Seq<Seq<char>>,
    rest: Option<Seq<Seq<char>>>,
) -> Option<Seq<Seq<char>>> {
    match rest {
        Some(items) => Some(prefix + items),
        None => None,
    }
}

/// Extracts the string contents of a list of untyped values; any non-string
/// element fails with `InvalidValue` naming the `columns` field.
fn extract_string_items(items: &Vec<ParamValue>) -> (r: Result<Vec<String>, FeedError>)
    ensures
        match r {
            Ok(cols) => spec_str_items(pv_view_list(items@)) == Some(str_list_view(cols@)),
            Err(e) => spec_str_items(pv_view_list(items@)) is None && e@
                == (FeedErrorSpec::InvalidValue { field: "columns"@ }),
        },
{
    let ghost iv = pv_view_list(items@);
    proof {
        lemma_pv_view_list(items@);
        assert(iv.skip(0) =~= iv);
        if spec_str_items(iv) is Some {
            assert(spec_prepend_items(str_list_view(Seq::empty()), spec_str_items(iv)) == Some(
                str_list_view(Seq::empty()) + spec_str_items(iv).unwrap(),
            ));
            assert(str_list_view(Seq::empty()) + spec_str_items(iv).unwrap() =~= spec_str_items(
                iv,
            ).unwrap());
        }
    }
    let n: usize = items.len();
    let mut cols: Vec<String> = Vec::new();
    let mut i: usize = 0;
    while i < n
        invariant
            0 <= i <= n,
            n == items.len(),
            iv == pv_view_list(items@),
            iv.len() == n,
            forall|j: int| 0 <= j < n ==> iv[j] == pv_view(items@[j]),
            cols@.len() == i,
            spec_str_items(iv) == spec_prepend_items(
                str_list_view(cols@),
                spec_str_items(iv.skip(i as int)),
            ),
        decreases n - i,
    {
        proof {
            assert(iv.skip(i as int)[0] == iv[i as int]);
            assert(iv.skip(i as int).drop_first() =~= iv.skip(i + 1));
        }
        match &items[i] {
            ParamValue::Str(s) => {
                let ghost prev_cols = cols@;
                cols.push(s.clone());
                proof {
                    assert(str_list_view(cols@) =~= str_list_view(prev_cols).push(s@));
                    match spec_str_items(iv.skip(i + 1)) {
                        Some(rest) => {
                            assert(str_list_view(prev_cols) + (seq![s@] + rest) =~= str_list_view(
                                cols@,
                            ) + rest);
                        },
                        None => {},
                    }
                }
            },
            _ => {
                return Err(FeedError::InvalidValue { field: "columns".to_owned() });
            },
        }
        i = i + 1;
    }
    proof {
        assert(iv.skip(n as int) =~= Seq::<ParamValueSpec>::empty());
        assert(str_list_view(cols@) + spec_str_items(iv.skip(n as int)).unwrap() =~= str_list_view(
            cols@,
        ));
    }
    Ok(cols)
}

/// Applies one filter step to `input`.
fn apply_filter_step(input: LazyComputation, step: &FilterStep) -> (r: Result<
    LazyComputation,
    FeedError,
>)
    ensures
        match r {
            Ok(lc) => spec_apply_step(input@, step@) == Ok::<PlanSpec, FeedErrorSpec>(lc@),
            Err(e) => spec_apply_step(input@, step@) == Err::<PlanSpec, FeedErrorSpec>(e@),
        },
{
    if str_eq(step.filter_name.as_str(), "filter_value") {
        match &step.parameters {
            None => Err(
                FeedError::MissingParameter {
                    field: "parameters".to_owned(),
                    context: "filter_value".to_owned(),
                },
            ),
            Some(bag) => {
                let column = match filter_req_str(bag, "column", "filter_value") {
                    Ok(s) => s,
                    Err(e) => {
                        return Err(e);
                    },
                };
                let filter = match filter_req_str(bag, "filter", "filter_value") {
                    Ok(s) => s,
                    Err(e) => {
                        return Err(e);
                    },
                };
                match bag.get("value") {
                    None => Err(
                        FeedError::MissingParameter {
                            field: "value".to_owned(),
                            context: "filter_value".to_owned(),
                        },
                    ),
                    Some(value) => match filter_req_str(bag, "type", "filter_value") {
                        Err(e) => Err(e),
                        Ok(tag) => filter_value(input, &column, &filter, value, &tag),
                    },
                }
            },
        }
    } else if str_eq(step.filter_name.as_str(), "correlation") {
        match &step.parameters {
            None => Err(
                FeedError::MissingParameter {
                    field: "parameters".to_owned(),
                    context: "correlation".to_owned(),
                },
            ),
            Some(bag) => match bag.get("columns") {
                None => Err(
                    FeedError::MissingParameter {
                        field: "columns".to_owned(),
                        context: "correlation".to_owned(),
                    },
                ),
                Some(v) => match v {
                    ParamValue::Arr(items) => match extract_string_items(items) {
                        Ok(cols) => Ok(correlate_columns(input, &cols)),
                        Err(e) => Err(e),
                    },
                    _ => Err(FeedError::InvalidValue { field: "columns".to_owned() }),
                },
            },
        }
    } else if str_eq(step.filter_name.as_str(), "duplicate_values") {
        match &step.parameters {
            None => Err(
                FeedError::MissingParameter {
                    field: "parameters".to_owned(),
                    context: "duplicate_values".to_owned(),
                },
            ),
            Some(bag) => match filter_req_str(bag, "column", "duplicate_values") {
                Ok(column) => Ok(find_duplicate_values_in_column(input, column.as_str())),
                Err(e) => Err(e),
            },
        }
    } else {
        Err(FeedError::UnknownFilter { filter: step.filter_name.clone() })
    }
}

/// Applies an ordered filter chain to `origin`, strictly in list order; the
/// first failing step decides the error.
#[verifier::loop_isolation(false)]
pub fn get_feed_from_filters(origin: LazyComputation, filters: &Vec<FilterStep>) -> (r: Result<
    LazyComputation,
    FeedError,
>)
    ensures
        match r {
            Ok(lc) => spec_apply_filters(origin@, fs_view_list(filters@)) == Ok::<
                PlanSpec,
                FeedErrorSpec,
            >(lc@),
            Err(e) => spec_apply_filters(origin@, fs_view_list(filters@)) == Err::<
                PlanSpec,
                FeedErrorSpec,
            >(e@),
        },
{
    let ghost sv = fs_view_list(filters@);
    let ghost origin_plan = origin@;
    proof {
        lemma_fs_view_list(filters@);
        assert(sv.skip(0) =~= sv);
    }
    let n: usize = filters.len();
    let mut current = origin;
    let mut i: usize = 0;
    while i < n
        invariant
            0 <= i <= n,
            n == filters.len(),
            sv == fs_view_list(filters@),
            sv.len() == n,
            forall|j: int| 0 <= j < n ==> sv[j] == filters@[j]@,
            spec_apply_filters(origin_plan, sv) == spec_apply_filters(
                current@,
                sv.skip(i as int),
            ),
        decreases n - i,
    {
        proof {
            assert(sv.skip(i as int)[0] == sv[i as int]);
            assert(sv.skip(i as int).drop_first() =~= sv.skip(i + 1));
        }
        let ghost prev_plan = current@;
        current = match apply_filter_step(current, &filters[i]) {
            Ok(lc) => lc,
            Err(e) => {
                proof {
                    assert(spec_apply_filters(prev_plan, sv.skip(i as int)) == Err::<
                        PlanSpec,
                        FeedErrorSpec,
                    >(e@));
                }
                return Err(e);
            },
        };
        i = i + 1;
    }
    proof {
        assert(sv.skip(n as int) =~= Seq::<FilterStepSpec>::empty());
    }
    Ok(current)
}

/// A failing filter step never reports an engine execution failure: every
/// error it can produce is a dispatch, parameter or coercion error.
pub proof fn lemma_apply_step_err_kind(input: PlanSpec, step: FilterStepSpec)
    ensures
        spec_apply_step(input, step) matches Err(e) ==> !(e is ExecutionError),
{
}

/// A failing filter chain never reports an engine execution failure.
pub proof fn lemma_apply_filters_err_kind(input: PlanSpec, steps: Seq<FilterStepSpec>)
    ensures
        spec_apply_filters(input, steps) matches Err(e) ==> !(e is ExecutionError),
    decreases steps.len(),
{
    if steps.len() > 0 {
        lemma_apply_step_err_kind(input, steps[0]);
        match spec_apply_step(input, steps[0]) {
            Ok(next) => lemma_apply_filters_err_kind(next, steps.drop_first()),
            Err(_) => {},
        }
    }
}

} // verus!
