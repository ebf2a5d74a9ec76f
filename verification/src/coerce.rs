//! Typed value coercion.
//!
//! An untyped configuration scalar together with an explicit type tag is
//! turned into a typed literal, usable as the right-hand side of a column
//! comparison. The tag selects the numeric domain; no implicit coercion
//! across tags happens. An unrecognized tag is an `InvalidType` failure; a
//! value incompatible with its tag is an `InvalidValue` failure.

use vstd::prelude::*;

use crate::errors::{FeedError, FeedErrorSpec};
use crate::params::{str_eq, ParamValue, ParamValueSpec};

verus! {

/// A comparison operator of a `filter_value` step.
#[derive(Clone, Copy, Debug, PartialEq, Eq, Structural)]
pub enum CmpOp {
    Gte,
    Gt,
    Lte,
    Lt,
    Eq,
}

/// Mathematical image of a [`FloatRepr`].
pub enum FloatReprSpec {
    Text { t: Seq<char> },
    OfInt { i: i64 },
    OfUInt { u: u64 },
}

/// How a floating-point literal was obtained from the untyped value. The
/// execution engine reconstructs the number at the boundary; resolution logic
/// never computes with it.
#[derive(Clone, Debug, PartialEq)]
pub enum FloatRepr {
    /// The decimal text of the number, taken from the configuration value.
    Text(String),
    /// The floating-point image of a signed integer value.
    OfInt(i64),
    /// The floating-point image of an unsigned integer value.
    OfUInt(u64),
}

impl View for FloatRepr {
    type V = FloatReprSpec;

    open spec fn view(&self) -> FloatReprSpec {
        match self {
            FloatRepr::Text(t) => FloatReprSpec::Text { t: t@ },
            FloatRepr::OfInt(i) => FloatReprSpec::OfInt { i: *i },
            FloatRepr::OfUInt(u) => FloatReprSpec::OfUInt { u: *u },
        }
    }
}

/// Mathematical image of a [`TypedValue`].
pub enum TypedValueSpec {
    Int { i: i64 },
    UInt { u: u64 },
    Int16 { v: i16 },
    Float { f: FloatReprSpec },
}

/// A typed comparison literal produced by coercion.
#[derive(Clone, Debug, PartialEq)]
pub enum TypedValue {
    Int(i64),
    UInt(u64),
    Int16(i16),
    Float(FloatRepr),
}

impl View for TypedValue {
    type V = TypedValueSpec;

    open spec fn view(&self) -> TypedValueSpec {
        match self {
            TypedValue::Int(i) => TypedValueSpec::Int { i: *i },
            TypedValue::UInt(u) => TypedValueSpec::UInt { u: *u },
            TypedValue::Int16(v) => TypedValueSpec::Int16 { v: *v },
            TypedValue::Float(f) => TypedValueSpec::Float { f: f@ },
        }
    }
}

/// The coercion of `v` under `tag`: exactly which typed literal comes out,
/// or exactly which error.
pub open spec fn spec_coerce(v: ParamValueSpec, tag: Seq<char>) -> Result<
    TypedValueSpec,
    FeedErrorSpec,
> {
    if tag == "int"@ {
        match v {
            ParamValueSpec::Int { i } => Ok(TypedValueSpec::Int { i }),
            ParamValueSpec::UInt { u } => if u <= i64::MAX as u64 {
                Ok(TypedValueSpec::Int { i: u as i64 })
            } else {
                Err(FeedErrorSpec::InvalidValue { field: "value"@ })
            },
            _ => Err(FeedErrorSpec::InvalidValue { field: "value"@ }),
        }
    } else if tag == "uint"@ {
        match v {
            ParamValueSpec::UInt { u } => Ok(TypedValueSpec::UInt { u }),
            ParamValueSpec::Int { i } => if i >= 0 {
                Ok(TypedValueSpec::UInt { u: i as u64 })
            } else {
                Err(FeedErrorSpec::InvalidValue { field: "value"@ })
            },
            _ => Err(FeedErrorSpec::InvalidValue { field: "value"@ }),
        }
    } else if tag == "float"@ {
        match v {
            ParamValueSpec::Float { text } => Ok(TypedValueSpec::Float {
                f: FloatReprSpec::Text { t: text },
            }),
            ParamValueSpec::Int { i } => Ok(TypedValueSpec::Float { f: FloatReprSpec::OfInt { i } }),
            ParamValueSpec::UInt { u } => Ok(TypedValueSpec::Float {
                f: FloatReprSpec::OfUInt { u },
            }),
            _ => Err(FeedErrorSpec::InvalidValue { field: "value"@ }),
        }
    } else if tag == "int16"@ {
        match v {
            ParamValueSpec::Int { i } => if i16::MIN as i64 <= i && i <= i16::MAX as i64 {
                Ok(TypedValueSpec::Int16 { v: i as i16 })
            } else {
                Err(FeedErrorSpec::InvalidValue { field: "value"@ })
            },
            ParamValueSpec::UInt { u } => if u <= i16::MAX as u64 {
                Ok(TypedValueSpec::Int16 { v: u as i16 })
            } else {
                Err(FeedErrorSpec::InvalidValue { field: "value"@ })
            },
            _ => Err(FeedErrorSpec::InvalidValue { field: "value"@ }),
        }
    } else {
        Err(FeedErrorSpec::InvalidType { type_tag: tag })
    }
}

/// Coerces the untyped scalar `v` into the numeric domain selected by `tag`
/// (`int`, `uint`, `float`, or the narrower `int16`). A `filter_value` step
/// admits only the first three; the narrow domain serves callers that need
/// a small integer literal.
pub fn coerce_value(v: &ParamValue, tag: &str) -> (r: Result<TypedValue, FeedError>)
    ensures
        match r {
            Ok(t) => spec_coerce(v@, tag@) == Ok::<TypedValueSpec, FeedErrorSpec>(t@),
            Err(e) => spec_coerce(v@, tag@) == Err::<TypedValueSpec, FeedErrorSpec>(e@),
        },
{
    if str_eq(tag, "int") {
        match v {
            ParamValue::Int(i) => Ok(TypedValue::Int(*i)),
            ParamValue::UInt(u) => {
                if *u <= i64::MAX as u64 {
                    Ok(TypedValue::Int(*u as i64))
                } else {
                    Err(FeedError::InvalidValue { field: "value".to_owned() })
                }
            },
            _ => Err(FeedError::InvalidValue { field: "value".to_owned() }),
        }
    } else if str_eq(tag, "uint") {
        match v {
            ParamValue::UInt(u) => Ok(TypedValue::UInt(*u)),
            ParamValue::Int(i) => {
                if *i >= 0 {
                    Ok(TypedValue::UInt(*i as u64))
                } else {
                    Err(FeedError::InvalidValue { field: "value".to_owned() })
                }
            },
            _ => Err(FeedError::InvalidValue { field: "value".to_owned() }),
        }
    } else if str_eq(tag, "float") {
        match v {
            ParamValue::Float(text) => Ok(TypedValue::Float(FloatRepr::Text(text.clone()))),
            ParamValue::Int(i) => Ok(TypedValue::Float(FloatRepr::OfInt(*i))),
            ParamValue::UInt(u) => Ok(TypedValue::Float(FloatRepr::OfUInt(*u))),
            _ => Err(FeedError::InvalidValue { field: "value".to_owned() }),
        }
    } else if str_eq(tag, "int16") {
        match v {
            ParamValue::Int(i) => {
                if i16::MIN as i64 <= *i && *i <= i16::MAX as i64 {
                    Ok(TypedValue::Int16(*i as i16))
                } else {
                    Err(FeedError::InvalidValue { field: "value".to_owned() })
                }
            },
            ParamValue::UInt(u) => {
                if *u <= i16::MAX as u64 {
                    Ok(TypedValue::Int16(*u as i16))
                } else {
                    Err(FeedError::InvalidValue { field: "value".to_owned() })
                }
            },
            _ => Err(FeedError::InvalidValue { field: "value".to_owned() }),
        }
    } else {
        Err(FeedError::InvalidType { type_tag: tag.to_owned() })
    }
}

/// The comparison operator named by `filter`, if recognized.
pub open spec fn spec_cmp_op(filter: Seq<char>) -> Option<CmpOp> {
    if filter == "gte"@ {
        Some(CmpOp::Gte)
    } else if filter == "gt"@ {
        Some(CmpOp::Gt)
    } else if filter == "lte"@ {
        Some(CmpOp::Lte)
    } else if filter == "lt"@ {
        Some(CmpOp::Lt)
    } else if filter == "eq"@ {
        Some(CmpOp::Eq)
    } else {
        None
    }
}

/// Maps a comparison name (`gte`, `gt`, `lte`, `lt`, `eq`) to its operator.
pub fn parse_cmp_op(filter: &str) -> (r: Option<CmpOp>)
    ensures
        r == spec_cmp_op(filter@),
{
    if str_eq(filter, "gte") {
        Some(CmpOp::Gte)
    } else if str_eq(filter, "gt") {
        Some(CmpOp::Gt)
    } else if str_eq(filter, "lte") {
        Some(CmpOp::Lte)
    } else if str_eq(filter, "lt") {
        Some(CmpOp::Lt)
    } else if str_eq(filter, "eq") {
        Some(CmpOp::Eq)
    } else {
        None
    }
}

} // verus!
