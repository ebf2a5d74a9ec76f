use feedgraph::errors::FeedError;
use feedgraph::join::{CoalesceMode, JoinKind, JoinParameters, JoinRawParameters, KeyValidation};
use feedgraph::params::{ParamBag, ParamValue};

fn key_only_bag() -> ParamBag {
    let mut bag = ParamBag::empty();
    bag.insert("left_on".to_owned(), ParamValue::Str("id".to_owned()));
    bag.insert("right_on".to_owned(), ParamValue::Str("id".to_owned()));
    bag.insert("left_by".to_owned(), ParamValue::Str("ts".to_owned()));
    bag.insert("right_by".to_owned(), ParamValue::Str("ts".to_owned()));
    bag
}

#[test]
fn join_requires_left_on() {
    let mut bag = ParamBag::empty();
    bag.insert("right_on".to_owned(), ParamValue::Str("id".to_owned()));
    let r = JoinRawParameters::from_map(&bag);
    assert_eq!(
        r.unwrap_err(),
        FeedError::MissingParameter { field: "left_on".to_owned(), context: "join".to_owned() }
    );
}

#[test]
fn join_requires_right_by() {
    let mut bag = ParamBag::empty();
    bag.insert("left_on".to_owned(), ParamValue::Str("id".to_owned()));
    bag.insert("right_on".to_owned(), ParamValue::Str("id".to_owned()));
    bag.insert("left_by".to_owned(), ParamValue::Str("ts".to_owned()));
    let r = JoinRawParameters::from_map(&bag);
    assert_eq!(
        r.unwrap_err(),
        FeedError::MissingParameter { field: "right_by".to_owned(), context: "join".to_owned() }
    );
}

#[test]
fn join_non_string_key_is_invalid() {
    let mut bag = ParamBag::empty();
    bag.insert("left_on".to_owned(), ParamValue::Int(3));
    let r = JoinRawParameters::from_map(&bag);
    assert_eq!(r.unwrap_err(), FeedError::InvalidValue { field: "left_on".to_owned() });
}

#[test]
fn join_defaulting_matches_explicit_defaults() {
    let minimal = JoinRawParameters::from_map(&key_only_bag()).unwrap();

    let mut bag = key_only_bag();
    bag.insert("join_type".to_owned(), ParamValue::Str("inner".to_owned()));
    bag.insert("validation".to_owned(), ParamValue::Str("many_to_many".to_owned()));
    bag.insert("coalesce".to_owned(), ParamValue::Str("join_specific".to_owned()));
    bag.insert("join_nulls".to_owned(), ParamValue::Bool(false));
    bag.insert("suffix".to_owned(), ParamValue::Str("_right".to_owned()));
    let explicit = JoinRawParameters::from_map(&bag).unwrap();

    assert_eq!(JoinParameters::from(&minimal), JoinParameters::from(&explicit));
}

#[test]
fn join_defaults_are_the_documented_ones() {
    let raw = JoinRawParameters::from_map(&key_only_bag()).unwrap();
    let typed = JoinParameters::from(&raw);
    assert_eq!(typed.left_on, "id");
    assert_eq!(typed.right_on, "id");
    assert_eq!(typed.left_by, "ts");
    assert_eq!(typed.right_by, "ts");
    assert_eq!(typed.join_type, JoinKind::Inner);
    assert_eq!(typed.validation, KeyValidation::ManyToMany);
    assert_eq!(typed.coalesce, CoalesceMode::JoinSpecific);
    assert_eq!(typed.join_nulls, false);
    assert_eq!(typed.suffix, "_right");
}

#[test]
fn join_named_variants_are_selected() {
    let mut bag = key_only_bag();
    bag.insert("join_type".to_owned(), ParamValue::Str("full".to_owned()));
    bag.insert("validation".to_owned(), ParamValue::Str("one_to_one".to_owned()));
    bag.insert("coalesce".to_owned(), ParamValue::Str("keep_columns".to_owned()));
    bag.insert("join_nulls".to_owned(), ParamValue::Bool(true));
    bag.insert("suffix".to_owned(), ParamValue::Str("_b".to_owned()));
    let typed = JoinParameters::from(&JoinRawParameters::from_map(&bag).unwrap());
    assert_eq!(typed.join_type, JoinKind::Full);
    assert_eq!(typed.validation, KeyValidation::OneToOne);
    assert_eq!(typed.coalesce, CoalesceMode::KeepColumns);
    assert_eq!(typed.join_nulls, true);
    assert_eq!(typed.suffix, "_b");
}

#[test]
fn join_unrecognized_names_fall_back_to_defaults() {
    let mut bag = key_only_bag();
    bag.insert("join_type".to_owned(), ParamValue::Str("sideways".to_owned()));
    bag.insert("validation".to_owned(), ParamValue::Str("some_to_some".to_owned()));
    bag.insert("coalesce".to_owned(), ParamValue::Str("other".to_owned()));
    let typed = JoinParameters::from(&JoinRawParameters::from_map(&bag).unwrap());
    assert_eq!(typed.join_type, JoinKind::Inner);
    assert_eq!(typed.validation, KeyValidation::ManyToMany);
    assert_eq!(typed.coalesce, CoalesceMode::JoinSpecific);
}
