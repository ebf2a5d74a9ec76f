use feedgraph::coerce::{coerce_value, parse_cmp_op, CmpOp, FloatRepr, TypedValue};
use feedgraph::errors::FeedError;
use feedgraph::params::ParamValue;

#[test]
fn coerce_int_from_int() {
    let r = coerce_value(&ParamValue::Int(5), "int");
    assert_eq!(r.unwrap(), TypedValue::Int(5));
}

#[test]
fn coerce_int_from_small_uint() {
    let r = coerce_value(&ParamValue::UInt(100), "int");
    assert_eq!(r.unwrap(), TypedValue::Int(100));
}

#[test]
fn coerce_int_from_huge_uint_is_invalid() {
    let r = coerce_value(&ParamValue::UInt(u64::MAX), "int");
    assert_eq!(r.unwrap_err(), FeedError::InvalidValue { field: "value".to_owned() });
}

#[test]
fn coerce_uint_from_negative_is_invalid() {
    let r = coerce_value(&ParamValue::Int(-1), "uint");
    assert_eq!(r.unwrap_err(), FeedError::InvalidValue { field: "value".to_owned() });
}

#[test]
fn coerce_uint_from_uint() {
    let r = coerce_value(&ParamValue::UInt(7), "uint");
    assert_eq!(r.unwrap(), TypedValue::UInt(7));
}

#[test]
fn coerce_float_from_text() {
    let r = coerce_value(&ParamValue::Float("1.5".to_owned()), "float");
    assert_eq!(r.unwrap(), TypedValue::Float(FloatRepr::Text("1.5".to_owned())));
}

#[test]
fn coerce_float_from_int() {
    let r = coerce_value(&ParamValue::Int(100), "float");
    assert_eq!(r.unwrap(), TypedValue::Float(FloatRepr::OfInt(100)));
}

#[test]
fn coerce_int_from_float_text_is_invalid() {
    let r = coerce_value(&ParamValue::Float("1.5".to_owned()), "int");
    assert_eq!(r.unwrap_err(), FeedError::InvalidValue { field: "value".to_owned() });
}

#[test]
fn coerce_unknown_tag_is_invalid_type() {
    let r = coerce_value(&ParamValue::Int(1), "decimal");
    assert_eq!(r.unwrap_err(), FeedError::InvalidType { type_tag: "decimal".to_owned() });
}

#[test]
fn coerce_int16_in_range() {
    let r = coerce_value(&ParamValue::Int(-300), "int16");
    assert_eq!(r.unwrap(), TypedValue::Int16(-300));
}

#[test]
fn coerce_int16_out_of_range_is_invalid() {
    let r = coerce_value(&ParamValue::Int(40000), "int16");
    assert_eq!(r.unwrap_err(), FeedError::InvalidValue { field: "value".to_owned() });
}

#[test]
fn cmp_op_vocabulary() {
    assert_eq!(parse_cmp_op("gte"), Some(CmpOp::Gte));
    assert_eq!(parse_cmp_op("gt"), Some(CmpOp::Gt));
    assert_eq!(parse_cmp_op("lte"), Some(CmpOp::Lte));
    assert_eq!(parse_cmp_op("lt"), Some(CmpOp::Lt));
    assert_eq!(parse_cmp_op("eq"), Some(CmpOp::Eq));
    assert_eq!(parse_cmp_op("ne"), None);
}

#[test]
fn coerce_null_is_invalid_for_every_numeric_tag() {
    for tag in ["int", "uint", "float", "int16"] {
        let r = coerce_value(&ParamValue::Null, tag);
        assert_eq!(r.unwrap_err(), FeedError::InvalidValue { field: "value".to_owned() });
    }
}
