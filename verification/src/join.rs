//! Join parameters: the raw bag-shaped form and the typed, defaulted form.
//!
//! A join is an equality join on the column tuple `(left_on, left_by)`
//! against `(right_on, right_by)`: exactly two key columns per side, always
//! required. Everything else is optional and defaulted: join type `inner`,
//! validation `many_to_many`, coalescing `join_specific`, `join_nulls`
//! `false`, suffix `"_right"`.

use vstd::prelude::*;

use crate::errors::{FeedError, FeedErrorSpec};
use crate::params::{spec_bag_lookup, str_eq, ParamBag, ParamValue, ParamValueSpec};

verus! {

/// The join type vocabulary. An unrecognized name selects the default.
#[derive(Clone, Copy, Debug, PartialEq, Eq, Structural)]
pub enum JoinKind {
    Inner,
    Left,
    Right,
    Full,
    Cross,
}

/// The key cardinality checks a join may request.
#[derive(Clone, Copy, Debug, PartialEq, Eq, Structural)]
pub enum KeyValidation {
    ManyToMany,
    ManyToOne,
    OneToMany,
    OneToOne,
}

/// How key columns of the two sides are coalesced in the join output.
#[derive(Clone, Copy, Debug, PartialEq, Eq, Structural)]
pub enum CoalesceMode {
    JoinSpecific,
    KeepColumns,
    CoalesceColumns,
}

/// Mathematical image of a [`JoinRawParameters`].
pub struct JoinRawParametersSpec {
    pub left_on: Seq<char>,
    pub right_on: Seq<char>,
    pub left_by: Seq<char>,
    pub right_by: Seq<char>,
    pub suffix: Option<Seq<char>>,
    pub join_type: Option<Seq<char>>,
    pub validation: Option<Seq<char>>,
    pub join_nulls: Option<bool>,
    pub coalesce: Option<Seq<char>>,
}

/// The raw join parameters as read from a parameter bag, before defaulting.
#[derive(Debug)]
pub struct JoinRawParameters {
    pub left_on: String,
    pub right_on: String,
    pub left_by: String,
    pub right_by: String,
    pub suffix: Option<String>,
    pub join_type: Option<String>,
    pub validation: Option<String>,
    pub join_nulls: Option<bool>,
    pub coalesce: Option<String>,
}

impl View for JoinRawParameters {
    type V = JoinRawParametersSpec;

    open spec fn view(&self) -> JoinRawParametersSpec {
        JoinRawParametersSpec {
            left_on: self.left_on@,
            right_on: self.right_on@,
            left_by: self.left_by@,
            right_by: self.right_by@,
            suffix: match self.suffix {
                Some(s) => Some(s@),
                None => None,
            },
            join_type: match self.join_type {
                Some(s) => Some(s@),
                None => None,
            },
            validation: match self.validation {
                Some(s) => Some(s@),
                None => None,
            },
            join_nulls: self.join_nulls,
            coalesce: match self.coalesce {
                Some(s) => Some(s@),
                None => None,
            },
        }
    }
}

/// Mathematical image of a [`JoinParameters`].
pub struct JoinParametersSpec {
    pub left_on: Seq<char>,
    pub right_on: Seq<char>,
    pub left_by: Seq<char>,
    pub right_by: Seq<char>,
    pub suffix: Seq<char>,
    pub join_type: JoinKind,
    pub validation: KeyValidation,
    pub join_nulls: bool,
    pub coalesce: CoalesceMode,
}

/// The typed join parameters, after defaulting.
#[derive(Debug, PartialEq)]
pub struct JoinParameters {
    pub left_on: String,
    pub right_on: String,
    pub left_by: String,
    pub right_by: String,
    pub suffix: String,
    pub join_type: JoinKind,
    pub validation: KeyValidation,
    pub join_nulls: bool,
    pub coalesce: CoalesceMode,
}

impl View for JoinParameters {
    type V = JoinParametersSpec;

    open spec fn view(&self) -> JoinParametersSpec {
        JoinParametersSpec {
            left_on: self.left_on@,
            right_on: self.right_on@,
            left_by: self.left_by@,
            right_by: self.right_by@,
            suffix: self.suffix@,
            join_type: self.join_type,
            validation: self.validation,
            join_nulls: self.join_nulls,
            coalesce: self.coalesce,
        }
    }
}

/// A required string field of a join bag: absent is `MissingParameter`, a
/// non-string value is `InvalidValue`.
pub open spec fn spec_join_req_str(
    bag: Seq<(Seq<char>, ParamValueSpec)>,
    key: Seq<char>,
) -> Result<Seq<char>, FeedErrorSpec> {
    match spec_bag_lookup(bag, key) {
        None => Err(FeedErrorSpec::MissingParameter { field: key, context: "join"@ }),
        Some(v) => match v {
            ParamValueSpec::Str { s } => Ok(s),
            _ => Err(FeedErrorSpec::InvalidValue { field: key }),
        },
    }
}

/// An optional string field of a join bag: absent is fine, a non-string
/// value is `InvalidValue`.
pub open spec fn spec_join_opt_str(
    bag: Seq<(Seq<char>, ParamValueSpec)>,
    key: Seq<char>,
) -> Result<Option<Seq<char>>, FeedErrorSpec> {
    match spec_bag_lookup(bag, key) {
        None => Ok(None),
        Some(v) => match v {
            ParamValueSpec::Str { s } => Ok(Some(s)),
            _ => Err(FeedErrorSpec::InvalidValue { field: key }),
        },
    }
}

/// An optional boolean field of a join bag.
pub open spec fn spec_join_opt_bool(
    bag: Seq<(Seq<char>, ParamValueSpec)>,
    key: Seq<char>,
) -> Result<Option<bool>, FeedErrorSpec> {
    match spec_bag_lookup(bag, key) {
        None => Ok(None),
        Some(v) => match v {
            ParamValueSpec::Bool { b } => Ok(Some(b)),
            _ => Err(FeedErrorSpec::InvalidValue { field: key }),
        },
    }
}

/// The raw join parameters read from `bag`: the four key columns are
/// required, in the order `left_on`, `right_on`, `left_by`, `right_by`; then
/// the optional fields are checked in the order `join_type`, `validation`,
/// `coalesce`, `join_nulls`, `suffix`.
pub open spec fn spec_join_raw_from_bag(bag: Seq<(Seq<char>, ParamValueSpec)>) -> Result<
    JoinRawParametersSpec,
    FeedErrorSpec,
> {
    match spec_join_req_str(bag, "left_on"@) {
        Err(e) => Err(e),
        Ok(left_on) => match spec_join_req_str(bag, "right_on"@) {
            Err(e) => Err(e),
            Ok(right_on) => match spec_join_req_str(bag, "left_by"@) {
                Err(e) => Err(e),
                Ok(left_by) => match spec_join_req_str(bag, "right_by"@) {
                    Err(e) => Err(e),
                    Ok(right_by) => match spec_join_opt_str(bag, "join_type"@) {
                        Err(e) => Err(e),
                        Ok(join_type) => match spec_join_opt_str(bag, "validation"@) {
                            Err(e) => Err(e),
                            Ok(validation) => match spec_join_opt_str(bag, "coalesce"@) {
                                Err(e) => Err(e),
                                Ok(coalesce) => match spec_join_opt_bool(bag, "join_nulls"@) {
                                    Err(e) => Err(e),
                                    Ok(join_nulls) => match spec_join_opt_str(bag, "suffix"@) {
                                        Err(e) => Err(e),
                                        Ok(suffix) => Ok(JoinRawParametersSpec {
                                            left_on,
                                            right_on,
                                            left_by,
                                            right_by,
                                            suffix,
                                            join_type,
                                            validation,
                                            join_nulls,
                                            coalesce,
                                        }),
                                    },
                                },
                            },
                        },
                    },
                },
            },
        },
    }
}

/// The join type selected by an optional name: absent or unrecognized names
/// select the default, `inner`.
pub open spec fn spec_join_kind(name: Option<Seq<char>>) -> JoinKind {
    match name {
        None => JoinKind::Inner,
        Some(s) => if s == "left"@ {
            JoinKind::Left
        } else if s == "right"@ {
            JoinKind::Right
        } else if s == "full"@ {
            JoinKind::Full
        } else if s == "cross"@ {
            JoinKind::Cross
        } else {
            JoinKind::Inner
        },
    }
}

/// The validation selected by an optional name: absent or unrecognized names
/// select the default, `many_to_many`.
pub open spec fn spec_key_validation(name: Option<Seq<char>>) -> KeyValidation {
    match name {
        None => KeyValidation::ManyToMany,
        Some(s) => if s == "many_to_one"@ {
            KeyValidation::ManyToOne
        } else if s == "one_to_many"@ {
            KeyValidation::OneToMany
        } else if s == "one_to_one"@ {
            KeyValidation::OneToOne
        } else {
            KeyValidation::ManyToMany
        },
    }
}

/// The coalescing mode selected by an optional name: absent or unrecognized
/// names select the default, `join_specific`.
pub open spec fn spec_coalesce_mode(name: Option<Seq<char>>) -> CoalesceMode {
    match name {
        None => CoalesceMode::JoinSpecific,
        Some(s) => if s == "keep_columns"@ {
            CoalesceMode::KeepColumns
        } else if s == "coalesce_columns"@ {
            CoalesceMode::CoalesceColumns
        } else {
            CoalesceMode::JoinSpecific
        },
    }
}

/// The typed, defaulted image of raw join parameters.
pub open spec fn spec_join_params(raw: JoinRawParametersSpec) -> JoinParametersSpec {
    JoinParametersSpec {
        left_on: raw.left_on,
        right_on: raw.right_on,
        left_by: raw.left_by,
        right_by: raw.right_by,
        suffix: match raw.suffix {
            Some(s) => s,
            None => "_right"@,
        },
        join_type: spec_join_kind(raw.join_type),
        validation: spec_key_validation(raw.validation),
        join_nulls: match raw.join_nulls {
            Some(b) => b,
            None => false,
        },
        coalesce: spec_coalesce_mode(raw.coalesce),
    }
}

/// Reads a required string field of a join parameter bag.
fn join_req_str(bag: &ParamBag, key: &str) -> (r: Result<String, FeedError>)
    ensures
        match r {
            Ok(s) => spec_join_req_str(bag@, key@) == Ok::<Seq<char>, FeedErrorSpec>(s@),
            Err(e) => spec_join_req_str(bag@, key@) == Err::<Seq<char>, FeedErrorSpec>(e@),
        },
{
    match bag.get(key) {
        None => Err(
            FeedError::MissingParameter { field: key.to_owned(), context: "join".to_owned() },
        ),
        Some(v) => match v {
            ParamValue::Str(s) => Ok(s.clone()),
            _ => Err(FeedError::InvalidValue { field: key.to_owned() }),
        },
    }
}

/// Reads an optional string field of a join parameter bag.
fn join_opt_str(bag: &ParamBag, key: &str) -> (r: Result<Option<String>, FeedError>)
    ensures
        match r {
            Ok(Some(s)) => spec_join_opt_str(bag@, key@) == Ok::<
                Option<Seq<char>>,
                FeedErrorSpec,
            >(Some(s@)),
            Ok(None) => spec_join_opt_str(bag@, key@) == Ok::<Option<Seq<char>>, FeedErrorSpec>(
                None,
            ),
            Err(e) => spec_join_opt_str(bag@, key@) == Err::<Option<Seq<char>>, FeedErrorSpec>(e@),
        },
{
    match bag.get(key) {
        None => Ok(None),
        Some(v) => match v {
            ParamValue::Str(s) => Ok(Some(s.clone())),
            _ => Err(FeedError::InvalidValue { field: key.to_owned() }),
        },
    }
}

/// Reads an optional boolean field of a join parameter bag.
fn join_opt_bool(bag: &ParamBag, key: &str) -> (r: Result<Option<bool>, FeedError>)
    ensures
        match r {
            Ok(b) => spec_join_opt_bool(bag@, key@) == Ok::<Option<bool>, FeedErrorSpec>(b),
            Err(e) => spec_join_opt_bool(bag@, key@) == Err::<Option<bool>, FeedErrorSpec>(e@),
        },
{
    match bag.get(key) {
        None => Ok(None),
        Some(v) => match v {
            ParamValue::Bool(b) => Ok(Some(*b)),
            _ => Err(FeedError::InvalidValue { field: key.to_owned() }),
        },
    }
}

impl JoinRawParameters {
    /// Reads the raw join parameters out of a parameter bag. The four key
    /// columns are required; everything else is optional.
    pub fn from_map(bag: &ParamBag) -> (r: Result<JoinRawParameters, FeedError>)
        ensures
            match r {
                Ok(raw) => spec_join_raw_from_bag(bag@) == Ok::<
                    JoinRawParametersSpec,
                    FeedErrorSpec,
                >(raw@),
                Err(e) => spec_join_raw_from_bag(bag@) == Err::<
                    JoinRawParametersSpec,
                    FeedErrorSpec,
                >(e@),
            },
    {
        let left_on = match join_req_str(bag, "left_on") {
            Ok(s) => s,
            Err(e) => {
                return Err(e);
            },
        };
        let right_on = match join_req_str(bag, "right_on") {
            Ok(s) => s,
            Err(e) => {
                return Err(e);
            },
        };
        let left_by = match join_req_str(bag, "left_by") {
            Ok(s) => s,
            Err(e) => {
                return Err(e);
            },
        };
        let right_by = match join_req_str(bag, "right_by") {
            Ok(s) => s,
            Err(e) => {
                return Err(e);
            },
        };
        let join_type = match join_opt_str(bag, "join_type") {
            Ok(s) => s,
            Err(e) => {
                return Err(e);
            },
        };
        let validation = match join_opt_str(bag, "validation") {
            Ok(s) => s,
            Err(e) => {
                return Err(e);
            },
        };
        let coalesce = match join_opt_str(bag, "coalesce") {
            Ok(s) => s,
            Err(e) => {
                return Err(e);
            },
        };
        let join_nulls = match join_opt_bool(bag, "join_nulls") {
            Ok(b) => b,
            Err(e) => {
                return Err(e);
            },
        };
        let suffix = match join_opt_str(bag, "suffix") {
            Ok(s) => s,
            Err(e) => {
                return Err(e);
            },
        };
        Ok(
            JoinRawParameters {
                left_on,
                right_on,
                left_by,
                right_by,
                suffix,
                join_type,
                validation,
                join_nulls,
                coalesce,
            },
        )
    }
}

impl JoinParameters {
    /// Defaults and types the raw parameters: absent `join_type` selects
    /// `inner`, absent `validation` selects `many_to_many`, absent `coalesce`
    /// selects `join_specific`, absent `join_nulls` selects `false`, absent
    /// `suffix` selects `"_right"`.
    pub fn from(raw: &JoinRawParameters) -> (r: JoinParameters)
        ensures
            r@ == spec_join_params(raw@),
    {
        let join_type = match &raw.join_type {
            None => JoinKind::Inner,
            Some(s) => {
                if str_eq(s.as_str(), "left") {
                    JoinKind::Left
                } else if str_eq(s.as_str(), "right") {
                    JoinKind::Right
                } else if str_eq(s.as_str(), "full") {
                    JoinKind::Full
                } else if str_eq(s.as_str(), "cross") {
                    JoinKind::Cross
                } else {
                    JoinKind::Inner
                }
            },
        };
        let validation = match &raw.validation {
            None => KeyValidation::ManyToMany,
            Some(s) => {
                if str_eq(s.as_str(), "many_to_one") {
                    KeyValidation::ManyToOne
                } else if str_eq(s.as_str(), "one_to_many") {
                    KeyValidation::OneToMany
                } else if str_eq(s.as_str(), "one_to_one") {
                    KeyValidation::OneToOne
                } else {
                    KeyValidation::ManyToMany
                }
            },
        };
        let coalesce = match &raw.coalesce {
            None => CoalesceMode::JoinSpecific,
            Some(s) => {
                if str_eq(s.as_str(), "keep_columns") {
                    CoalesceMode::KeepColumns
                } else if str_eq(s.as_str(), "coalesce_columns") {
                    CoalesceMode::CoalesceColumns
                } else {
                    CoalesceMode::JoinSpecific
                }
            },
        };
        let suffix = match &raw.suffix {
            Some(s) => s.clone(),
            None => "_right".to_owned(),
        };
        let join_nulls = match raw.join_nulls {
            Some(b) => b,
            None => false,
        };
        JoinParameters {
            left_on: raw.left_on.clone(),
            right_on: raw.right_on.clone(),
            left_by: raw.left_by.clone(),
            right_by: raw.right_by.clone(),
            suffix,
            join_type,
            validation,
            join_nulls,
            coalesce,
        }
    }
}

} // verus!
