//! The request-supplied shape of an ephemeral feed definition.
//!
//! An ephemeral feed arrives as one structured value — a name, a type tag,
//! and the optional operation or filter fields — and is turned into the same
//! untyped key/value shape a persisted configuration entry has, by `as_map`.
//! It then flows through the ordinary definition decoding, so an ephemeral
//! feed can do exactly what a persisted one can.

use vstd::prelude::*;

use crate::errors::{FeedError, FeedErrorSpec};
use crate::filter_ops::str_list_view;
use crate::model::opt_string_view;
use crate::params::{lemma_pv_view_list, pv_view, pv_view_list, ParamBag, ParamValue, ParamValueSpec};

verus! {

/// A parameter map extended by one optional string-valued entry.
pub open spec fn add_opt_str(
    m: Seq<(Seq<char>, ParamValueSpec)>,
    key: Seq<char>,
    v: Option<Seq<char>>,
) -> Seq<(Seq<char>, ParamValueSpec)> {
    match v {
        Some(s) => m.push((key, ParamValueSpec::Str { s })),
        None => m,
    }
}

/// A parameter map extended by one optional boolean-valued entry.
pub open spec fn add_opt_bool(
    m: Seq<(Seq<char>, ParamValueSpec)>,
    key: Seq<char>,
    v: Option<bool>,
) -> Seq<(Seq<char>, ParamValueSpec)> {
    match v {
        Some(b) => m.push((key, ParamValueSpec::Bool { b })),
        None => m,
    }
}

/// A parameter map extended by one optional entry of any value shape.
pub open spec fn add_opt_value(
    m: Seq<(Seq<char>, ParamValueSpec)>,
    key: Seq<char>,
    v: Option<ParamValueSpec>,
) -> Seq<(Seq<char>, ParamValueSpec)> {
    match v {
        Some(x) => m.push((key, x)),
        None => m,
    }
}

/// Mathematical image of an [`OperationParameters`].
pub struct OperationParametersSpec {
    pub left_on: Option<Seq<char>>,
    pub right_on: Option<Seq<char>>,
    pub left_by: Option<Seq<char>>,
    pub right_by: Option<Seq<char>>,
    pub join_type: Option<Seq<char>>,
    pub suffix: Option<Seq<char>>,
    pub validation: Option<Seq<char>>,
    pub join_nulls: Option<bool>,
    pub coalesce: Option<Seq<char>>,
}

/// The optional join parameters of an ephemeral operation feed.
#[derive(Debug)]
pub struct OperationParameters {
    pub left_on: Option<String>,
    pub right_on: Option<String>,
    pub left_by: Option<String>,
    pub right_by: Option<String>,
    pub join_type: Option<String>,
    pub suffix: Option<String>,
    pub validation: Option<String>,
    pub join_nulls: Option<bool>,
    pub coalesce: Option<String>,
}

impl View for OperationParameters {
    type V = OperationParametersSpec;

    open spec fn view(&self) -> OperationParametersSpec {
        OperationParametersSpec {
            left_on: opt_string_view(self.left_on),
            right_on: opt_string_view(self.right_on),
            left_by: opt_string_view(self.left_by),
            right_by: opt_string_view(self.right_by),
            join_type: opt_string_view(self.join_type),
            suffix: opt_string_view(self.suffix),
            validation: opt_string_view(self.validation),
            join_nulls: self.join_nulls,
            coalesce: opt_string_view(self.coalesce),
        }
    }
}

/// The parameter map an [`OperationParameters`] flattens to: each present
/// field under its own key, in a fixed order.
pub open spec fn spec_operation_params_map(p: OperationParametersSpec) -> Seq<
    (Seq<char>, ParamValueSpec),
> {
    add_opt_str(
        add_opt_bool(
            add_opt_str(
                add_opt_str(
                    add_opt_str(
                        add_opt_str(
                            add_opt_str(
                                add_opt_str(
                                    add_opt_str(Seq::empty(), "left_on"@, p.left_on),
                                    "left_by"@,
                                    p.left_by,
                                ),
                                "right_on"@,
                                p.right_on,
                            ),
                            "right_by"@,
                            p.right_by,
                        ),
                        "join_type"@,
                        p.join_type,
                    ),
                    "suffix"@,
                    p.suffix,
                ),
                "validation"@,
                p.validation,
            ),
            "join_nulls"@,
            p.join_nulls,
        ),
        "coalesce"@,
        p.coalesce,
    )
}

impl OperationParameters {
    /// Flattens the present fields into an untyped parameter map.
    pub fn as_map(&self) -> (r: ParamBag)
        ensures
            r@ == spec_operation_params_map(self@),
    {
        let mut bag = ParamBag::empty();
        match &self.left_on {
            Some(s) => bag.insert("left_on".to_owned(), ParamValue::Str(s.clone())),
            None => {},
        }
        match &self.left_by {
            Some(s) => bag.insert("left_by".to_owned(), ParamValue::Str(s.clone())),
            None => {},
        }
        match &self.right_on {
            Some(s) => bag.insert("right_on".to_owned(), ParamValue::Str(s.clone())),
            None => {},
        }
        match &self.right_by {
            Some(s) => bag.insert("right_by".to_owned(), ParamValue::Str(s.clone())),
            None => {},
        }
        match &self.join_type {
            Some(s) => bag.insert("join_type".to_owned(), ParamValue::Str(s.clone())),
            None => {},
        }
        match &self.suffix {
            Some(s) => bag.insert("suffix".to_owned(), ParamValue::Str(s.clone())),
            None => {},
        }
        match &self.validation {
            Some(s) => bag.insert("validation".to_owned(), ParamValue::Str(s.clone())),
            None => {},
        }
        match &self.join_nulls {
            Some(b) => bag.insert("join_nulls".to_owned(), ParamValue::Bool(*b)),
            None => {},
        }
        match &self.coalesce {
            Some(s) => bag.insert("coalesce".to_owned(), ParamValue::Str(s.clone())),
            None => {},
        }
        proof {
            assert(bag@ =~= spec_operation_params_map(self@));
        }
        bag
    }

    /// The empty parameter set: every field absent.
    pub fn default() -> (r: OperationParameters)
        ensures
            r@ == (OperationParametersSpec {
                left_on: None,
                right_on: None,
                left_by: None,
                right_by: None,
                join_type: None,
                suffix: None,
                validation: None,
                join_nulls: None,
                coalesce: None,
            }),
    {
        OperationParameters {
            left_on: None,
            right_on: None,
            left_by: None,
            right_by: None,
            join_type: None,
            suffix: None,
            validation: None,
            join_nulls: None,
            coalesce: None,
        }
    }
}

/// Mathematical image of a [`FilterSubParameters`].
pub struct FilterSubParametersSpec {
    pub column: Option<Seq<char>>,
    pub columns: Option<Seq<Seq<char>>>,
    pub filter: Option<Seq<char>>,
    pub value: Option<ParamValueSpec>,
    pub type_tag: Option<Seq<char>>,
}

/// The optional parameters of one ephemeral filter step.
#[derive(Debug)]
pub struct FilterSubParameters {
    pub column: Option<String>,
    pub columns: Option<Vec<String>>,
    pub filter: Option<String>,
    pub value: Option<ParamValue>,
    pub type_tag: Option<String>,
}

impl View for FilterSubParameters {
    type V = FilterSubParametersSpec;

    open spec fn view(&self) -> FilterSubParametersSpec {
        FilterSubParametersSpec {
            column: opt_string_view(self.column),
            columns: match self.columns {
                Some(cols) => Some(str_list_view(cols@)),
                None => None,
            },
            filter: opt_string_view(self.filter),
            value: match self.value {
                Some(v) => Some(pv_view(v)),
                None => None,
            },
            type_tag: opt_string_view(self.type_tag),
        }
    }
}

/// The parameter map a [`FilterSubParameters`] flattens to.
pub open spec fn spec_filter_sub_map(p: FilterSubParametersSpec) -> Seq<
    (Seq<char>, ParamValueSpec),
> {
    add_opt_str(
        add_opt_value(
            add_opt_str(
                add_opt_value(
                    add_opt_str(Seq::empty(), "column"@, p.column),
                    "columns"@,
                    match p.columns {
                        Some(cols) => Some(
                            ParamValueSpec::Arr {
                                items: cols.map_values(|s: Seq<char>| ParamValueSpec::Str { s }),
                            },
                        ),
                        None => None,
                    },
                ),
                "filter"@,
                p.filter,
            ),
            "value"@,
            p.value,
        ),
        "type"@,
        p.type_tag,
    )
}

/// Turns a list of column names into a list of untyped string values.
fn string_items(cols: &Vec<String>) -> (r: Vec<ParamValue>)
    ensures
        pv_view_list(r@) == str_list_view(cols@).map_values(
            |s: Seq<char>| ParamValueSpec::Str { s },
        ),
{
    let n: usize = cols.len();
    let mut items: Vec<ParamValue> = Vec::new();
    let mut i: usize = 0;
    while i < n
        invariant
            0 <= i <= n,
            n == cols.len(),
            items@.len() == i,
            forall|j: int| 0 <= j < i ==> pv_view(#[trigger] items@[j]) == (ParamValueSpec::Str {
                s: cols@[j]@,
            }),
        decreases n - i,
    {
        items.push(ParamValue::Str(cols[i].clone()));
        i = i + 1;
    }
    proof {
        lemma_pv_view_list(items@);
        assert(pv_view_list(items@) =~= str_list_view(cols@).map_values(
            |s: Seq<char>| ParamValueSpec::Str { s },
        ));
    }
    items
}

impl FilterSubParameters {
    /// Flattens the present fields into an untyped parameter map.
    pub fn as_map(&self) -> (r: ParamBag)
        ensures
            r@ == spec_filter_sub_map(self@),
    {
        let mut bag = ParamBag::empty();
        match &self.column {
            Some(s) => bag.insert("column".to_owned(), ParamValue::Str(s.clone())),
            None => {},
        }
        match &self.columns {
            Some(cols) => bag.insert("columns".to_owned(), ParamValue::Arr(string_items(cols))),
            None => {},
        }
        match &self.filter {
            Some(s) => bag.insert("filter".to_owned(), ParamValue::Str(s.clone())),
            None => {},
        }
        match &self.value {
            Some(v) => bag.insert("value".to_owned(), v.clone()),
            None => {},
        }
        match &self.type_tag {
            Some(s) => bag.insert("type".to_owned(), ParamValue::Str(s.clone())),
            None => {},
        }
        proof {
            assert(bag@ =~= spec_filter_sub_map(self@));
        }
        bag
    }

    /// The empty parameter set: every field absent.
    pub fn default() -> (r: FilterSubParameters)
        ensures
            r@ == (FilterSubParametersSpec {
                column: None,
                columns: None,
                filter: None,
                value: None,
                type_tag: None,
            }),
    {
        FilterSubParameters { column: None, columns: None, filter: None, value: None, type_tag: None }
    }
}

/// Mathematical image of a [`FilterParameters`].
pub struct FilterParametersSpec {
    pub filter_name: Seq<char>,
    pub parameters: Option<FilterSubParametersSpec>,
}

/// One ephemeral filter step: a filter name and its optional parameters.
#[derive(Debug)]
pub struct FilterParameters {
    pub filter_name: String,
    pub parameters: Option<FilterSubParameters>,
}

impl View for FilterParameters {
    type V = FilterParametersSpec;

    open spec fn view(&self) -> FilterParametersSpec {
        FilterParametersSpec {
            filter_name: self.filter_name@,
            parameters: match self.parameters {
                Some(sub) => Some(sub@),
                None => None,
            },
        }
    }
}

/// The parameter map a [`FilterParameters`] flattens to.
pub open spec fn spec_filter_params_map(p: FilterParametersSpec) -> Seq<
    (Seq<char>, ParamValueSpec),
> {
    add_opt_value(
        Seq::empty().push(("filter_name"@, ParamValueSpec::Str { s: p.filter_name })),
        "parameters"@,
        match p.parameters {
            Some(sub) => Some(ParamValueSpec::Obj { entries: spec_filter_sub_map(sub) }),
            None => None,
        },
    )
}

impl FilterParameters {
    /// Flattens the step into an untyped parameter map.
    pub fn as_map(&self) -> (r: ParamBag)
        ensures
            r@ == spec_filter_params_map(self@),
    {
        let mut bag = ParamBag::empty();
        bag.insert("filter_name".to_owned(), ParamValue::Str(self.filter_name.clone()));
        match &self.parameters {
            Some(sub) => bag.insert("parameters".to_owned(), ParamValue::Obj(sub.as_map())),
            None => {},
        }
        proof {
            assert(bag@ =~= spec_filter_params_map(self@));
        }
        bag
    }

    /// A placeholder step: the name `null` and no parameters.
    pub fn default() -> (r: FilterParameters)
        ensures
            r@ == (FilterParametersSpec { filter_name: "null"@, parameters: None }),
    {
        FilterParameters { filter_name: "null".to_owned(), parameters: None }
    }
}

/// Mathematical image of a [`FeedParameters`].
pub struct FeedParametersSpec {
    pub feed_name: Seq<char>,
    pub type_tag: Seq<char>,
    pub feed_left: Option<Seq<char>>,
    pub feed_right: Option<Seq<char>>,
    pub operation: Option<Seq<char>>,
    pub parameters: Option<OperationParametersSpec>,
    pub origin: Option<Seq<char>>,
    pub filters: Option<Seq<FilterParametersSpec>>,
}

/// A full ephemeral feed definition as supplied with a request: a synthetic
/// name, a type tag, and the fields of whichever variant the tag selects.
#[derive(Debug)]
pub struct FeedParameters {
    pub feed_name: String,
    pub type_tag: String,
    pub feed_left: Option<String>,
    pub feed_right: Option<String>,
    pub operation: Option<String>,
    pub parameters: Option<OperationParameters>,
    pub origin: Option<String>,
    pub filters: Option<Vec<FilterParameters>>,
}

/// Pointwise image of a sequence of ephemeral filter steps.
pub open spec fn fp_view_list(s: Seq<FilterParameters>) -> Seq<FilterParametersSpec>
    decreases s,
{
    if s.len() == 0 {
        Seq::empty()
    } else {
        seq![s[0]@] + fp_view_list(s.drop_first())
    }
}

pub proof fn lemma_fp_view_list(s: Seq<FilterParameters>)
    ensures
        fp_view_list(s).len() == s.len(),
        forall|i: int| 0 <= i < s.len() ==> fp_view_list(s)[i] == s[i]@,
    decreases s.len(),
{
    if s.len() > 0 {
        lemma_fp_view_list(s.drop_first());
        assert forall|i: int| 0 <= i < s.len() implies fp_view_list(s)[i] == s[i]@ by {
            if i > 0 {
                assert(s.drop_first()[i - 1] == s[i]);
            }
        }
    }
}

impl View for FeedParameters {
    type V = FeedParametersSpec;

    open spec fn view(&self) -> FeedParametersSpec {
        FeedParametersSpec {
            feed_name: self.feed_name@,
            type_tag: self.type_tag@,
            feed_left: opt_string_view(self.feed_left),
            feed_right: opt_string_view(self.feed_right),
            operation: opt_string_view(self.operation),
            parameters: match self.parameters {
                Some(p) => Some(p@),
                None => None,
            },
            origin: opt_string_view(self.origin),
            filters: match self.filters {
                Some(fps) => Some(fp_view_list(fps@)),
                None => None,
            },
        }
    }
}

/// The default operation parameters, as a spec value.
pub open spec fn spec_default_operation_params() -> OperationParametersSpec {
    OperationParametersSpec {
        left_on: None,
        right_on: None,
        left_by: None,
        right_by: None,
        join_type: None,
        suffix: None,
        validation: None,
        join_nulls: None,
        coalesce: None,
    }
}

/// The filter list of an ephemeral definition: each step flattened to an
/// object, an absent list treated as empty.
pub open spec fn spec_feed_params_filters(filters: Option<Seq<FilterParametersSpec>>) -> Seq<
    ParamValueSpec,
> {
    match filters {
        Some(fps) => fps.map_values(
            |fp: FilterParametersSpec| ParamValueSpec::Obj { entries: spec_filter_params_map(fp) },
        ),
        None => Seq::empty(),
    }
}

/// The definition map a [`FeedParameters`] flattens to: the type tag always,
/// the operation fields when an operation is named (its two feed names are
/// then required, and absent parameters mean the defaults), and the filter
/// fields when an origin is named (an absent filter list means no steps).
pub open spec fn spec_feed_params_map(p: FeedParametersSpec) -> Result<
    Seq<(Seq<char>, ParamValueSpec)>,
    FeedErrorSpec,
> {
    let base = Seq::empty().push(("type"@, ParamValueSpec::Str { s: p.type_tag }));
    match p.operation {
        None => Ok(spec_add_filter_fields(base, p)),
        Some(op) => match p.feed_left {
            None => Err(FeedErrorSpec::ConfigError { detail: "feed_left"@ }),
            Some(left) => match p.feed_right {
                None => Err(FeedErrorSpec::ConfigError { detail: "feed_right"@ }),
                Some(right) => {
                    let op_params = match p.parameters {
                        Some(q) => q,
                        None => spec_default_operation_params(),
                    };
                    Ok(
                        spec_add_filter_fields(
                            base.push(("operation"@, ParamValueSpec::Str { s: op })).push(
                                ("feed_left"@, ParamValueSpec::Str { s: left }),
                            ).push(("feed_right"@, ParamValueSpec::Str { s: right })).push(
                                (
                                    "parameters"@,
                                    ParamValueSpec::Obj {
                                        entries: spec_operation_params_map(op_params),
                                    },
                                ),
                            ),
                            p,
                        ),
                    )
                },
            },
        },
    }
}

/// A definition map extended by the filter fields, when an origin is named.
pub open spec fn spec_add_filter_fields(
    m: Seq<(Seq<char>, ParamValueSpec)>,
    p: FeedParametersSpec,
) -> Seq<(Seq<char>, ParamValueSpec)> {
    match p.origin {
        Some(origin) => m.push(("origin"@, ParamValueSpec::Str { s: origin })).push(
            ("filters"@, ParamValueSpec::Arr { items: spec_feed_params_filters(p.filters) }),
        ),
        None => m,
    }
}

/// Turns a list of ephemeral filter steps into a list of untyped objects.
fn filter_items(fps: &Vec<FilterParameters>) -> (r: Vec<ParamValue>)
    ensures
        pv_view_list(r@) == spec_feed_params_filters(Some(fp_view_list(fps@))),
{
    let n: usize = fps.len();
    let mut items: Vec<ParamValue> = Vec::new();
    let mut i: usize = 0;
    while i < n
        invariant
            0 <= i <= n,
            n == fps.len(),
            items@.len() == i,
            forall|j: int| 0 <= j < i ==> pv_view(#[trigger] items@[j]) == (ParamValueSpec::Obj {
                entries: spec_filter_params_map(fps@[j]@),
            }),
        decreases n - i,
    {
        items.push(ParamValue::Obj(fps[i].as_map()));
        i = i + 1;
    }
    proof {
        lemma_pv_view_list(items@);
        lemma_fp_view_list(fps@);
        assert(pv_view_list(items@) =~= spec_feed_params_filters(Some(fp_view_list(fps@))));
    }
    items
}

impl FeedParameters {
    /// Flattens the ephemeral definition into the untyped key/value shape a
    /// persisted configuration entry has. Naming an operation without both
    /// feed names is a configuration failure.
    pub fn as_map(&self) -> (r: Result<ParamBag, FeedError>)
        ensures
            match r {
                Ok(bag) => spec_feed_params_map(self@) == Ok::<
                    Seq<(Seq<char>, ParamValueSpec)>,
                    FeedErrorSpec,
                >(bag@),
                Err(e) => spec_feed_params_map(self@) == Err::<
                    Seq<(Seq<char>, ParamValueSpec)>,
                    FeedErrorSpec,
                >(e@),
            },
    {
        let mut bag = ParamBag::empty();
        bag.insert("type".to_owned(), ParamValue::Str(self.type_tag.clone()));
        match &self.operation {
            None => {},
            Some(op) => {
                let left = match &self.feed_left {
                    Some(l) => l,
                    None => {
                        return Err(FeedError::ConfigError { detail: "feed_left".to_owned() });
                    },
                };
                let right = match &self.feed_right {
                    Some(rt) => rt,
                    None => {
                        return Err(FeedError::ConfigError { detail: "feed_right".to_owned() });
                    },
                };
                bag.insert("operation".to_owned(), ParamValue::Str(op.clone()));
                bag.insert("feed_left".to_owned(), ParamValue::Str(left.clone()));
                bag.insert("feed_right".to_owned(), ParamValue::Str(right.clone()));
                let op_params_map = match &self.parameters {
                    Some(q) => q.as_map(),
                    None => OperationParameters::default().as_map(),
                };
                bag.insert("parameters".to_owned(), ParamValue::Obj(op_params_map));
            },
        }
        match &self.origin {
            None => {},
            Some(origin) => {
                bag.insert("origin".to_owned(), ParamValue::Str(origin.clone()));
                let steps = match &self.filters {
                    Some(fps) => filter_items(fps),
                    None => Vec::new(),
                };
                proof {
                    if self.filters is None {
                        assert(pv_view_list(Seq::<ParamValue>::empty())
                            == Seq::<ParamValueSpec>::empty());
                    }
                }
                bag.insert("filters".to_owned(), ParamValue::Arr(steps));
            },
        }
        proof {
            assert(bag@ =~= spec_feed_params_map(self@)->Ok_0);
        }
        Ok(bag)
    }
}

} // verus!
