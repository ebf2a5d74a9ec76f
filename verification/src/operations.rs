//! Operator dispatch: the binary operations between two lazy computations.
//!
//! One operation is defined, `join`. An omitted operation name selects the
//! historical default behavior — an inner join on the columns `timestamp` and
//! `value` with the standard defaults — expressed as the default
//! parameterization of the general join. An unknown name fails with
//! `UnknownOperation`.

use vstd::prelude::*;

use crate::engine::{engine_join, engine_join_coalesce, engine_join_type, engine_join_validation};
use crate::errors::{FeedError, FeedErrorSpec};
use crate::join::{
    spec_join_params, spec_join_raw_from_bag, JoinParameters, JoinRawParameters,
    JoinRawParametersSpec,
};
use crate::model::opt_string_view;
use crate::params::{str_eq, ParamBag, ParamValueSpec};
use crate::plan::{LazyComputation, PlanSpec};

verus! {

/// The raw parameters of the historical default join: keys fixed on the
/// columns `timestamp` and `value`, everything else defaulted.
pub open spec fn spec_legacy_join_raw() -> JoinRawParametersSpec {
    JoinRawParametersSpec {
        left_on: "timestamp"@,
        right_on: "timestamp"@,
        left_by: "value"@,
        right_by: "value"@,
        suffix: None,
        join_type: None,
        validation: None,
        join_nulls: None,
        coalesce: None,
    }
}

/// The raw parameters of the historical default join.
pub fn legacy_join_raw_parameters() -> (r: JoinRawParameters)
    ensures
        r@ == spec_legacy_join_raw(),
{
    JoinRawParameters {
        left_on: "timestamp".to_owned(),
        right_on: "timestamp".to_owned(),
        left_by: "value".to_owned(),
        right_by: "value".to_owned(),
        suffix: None,
        join_type: None,
        validation: None,
        join_nulls: None,
        coalesce: None,
    }
}

/// The plan an operation feed derives from its two resolved inputs: an
/// omitted name selects the default join parameterization, `join` reads its
/// parameters from the bag, and any other name is unknown.
pub open spec fn spec_apply_operation(
    left: PlanSpec,
    right: PlanSpec,
    operation: Option<Seq<char>>,
    bag: Seq<(Seq<char>, ParamValueSpec)>,
) -> Result<PlanSpec, FeedErrorSpec> {
    match operation {
        None => Ok(
            PlanSpec::Join {
                left: Box::new(left),
                right: Box::new(right),
                params: spec_join_params(spec_legacy_join_raw()),
            },
        ),
        Some(op) => if op == "join"@ {
            match spec_join_raw_from_bag(bag) {
                Err(e) => Err(e),
                Ok(raw) => Ok(
                    PlanSpec::Join {
                        left: Box::new(left),
                        right: Box::new(right),
                        params: spec_join_params(raw),
                    },
                ),
            }
        } else {
            Err(FeedErrorSpec::UnknownOperation { operation: op })
        },
    }
}

/// Joins the two computations on `(left_on, left_by)` against
/// `(right_on, right_by)`, after defaulting the raw parameters.
pub fn join(
    feed_left: LazyComputation,
    feed_right: LazyComputation,
    join_raw_parameters: &JoinRawParameters,
) -> (r: LazyComputation)
    ensures
        r@ == (PlanSpec::Join {
            left: Box::new(feed_left@),
            right: Box::new(feed_right@),
            params: spec_join_params(join_raw_parameters@),
        }),
{
    let ghost left_plan = feed_left@;
    let ghost right_plan = feed_right@;
    let params = JoinParameters::from(join_raw_parameters);
    let how = engine_join_type(&params.join_type);
    let validation = engine_join_validation(&params.validation);
    let coalesce = engine_join_coalesce(&params.coalesce);
    let frame = engine_join(
        feed_left.into_frame(),
        feed_right.into_frame(),
        params.left_on.as_str(),
        params.left_by.as_str(),
        params.right_on.as_str(),
        params.right_by.as_str(),
        params.suffix.as_str(),
        how,
        validation,
        params.join_nulls,
        coalesce,
    );
    LazyComputation::with_plan(
        frame,
        Ghost(
            PlanSpec::Join {
                left: Box::new(left_plan),
                right: Box::new(right_plan),
                params: spec_join_params(join_raw_parameters@),
            },
        ),
    )
}

/// Applies the named binary operation between two resolved computations,
/// reading the operation's parameters from `parameters`.
pub fn get_feed_from_operation(
    feed_left: LazyComputation,
    feed_right: LazyComputation,
    operation: &Option<String>,
    parameters: &ParamBag,
) -> (r: Result<LazyComputation, FeedError>)
    ensures
        match r {
            Ok(lc) => spec_apply_operation(
                feed_left@,
                feed_right@,
                opt_string_view(*operation),
                parameters@,
            ) == Ok::<PlanSpec, FeedErrorSpec>(lc@),
            Err(e) => spec_apply_operation(
                feed_left@,
                feed_right@,
                opt_string_view(*operation),
                parameters@,
            ) == Err::<PlanSpec, FeedErrorSpec>(e@),
        },
{
    match operation {
        None => {
            let raw = legacy_join_raw_parameters();
            Ok(join(feed_left, feed_right, &raw))
        },
        Some(op) => {
            if str_eq(op.as_str(), "join") {
                match JoinRawParameters::from_map(parameters) {
                    Ok(raw) => Ok(join(feed_left, feed_right, &raw)),
                    Err(e) => Err(e),
                }
            } else {
                Err(FeedError::UnknownOperation { operation: op.clone() })
            }
        },
    }
}

/// A failing operator dispatch never reports an engine execution failure:
/// every error it can produce is a dispatch or parameter error.
pub proof fn lemma_apply_operation_err_kind(
    left: PlanSpec,
    right: PlanSpec,
    operation: Option<Seq<char>>,
    bag: Seq<(Seq<char>, ParamValueSpec)>,
)
    ensures
        spec_apply_operation(left, right, operation, bag) matches Err(e) ==> !(e
            is ExecutionError),
{
}

} // verus!
