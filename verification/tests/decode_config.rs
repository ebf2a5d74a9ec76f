use feedgraph::decode::{decode_feed_definition, decode_feeds_config};
use feedgraph::errors::FeedError;
use feedgraph::feed_params::{
    FeedParameters, FilterParameters, FilterSubParameters, OperationParameters,
};
use feedgraph::model::FeedDefinition;
use feedgraph::params::{ParamBag, ParamValue};

fn obj(pairs: Vec<(&str, ParamValue)>) -> ParamValue {
    let mut bag = ParamBag::empty();
    for (k, v) in pairs {
        bag.insert(k.to_owned(), v);
    }
    ParamValue::Obj(bag)
}

fn s(text: &str) -> ParamValue {
    ParamValue::Str(text.to_owned())
}

fn file_def(format: &str, source: &str) -> ParamValue {
    obj(vec![("type", s("file")), ("format", s(format)), ("source", s(source))])
}

#[test]
fn decode_file_definition() {
    let def = decode_feed_definition(&file_def("parquet", "data/a.parquet")).unwrap();
    match def {
        FeedDefinition::File { format, source } => {
            assert_eq!(format, "parquet");
            assert_eq!(source, "data/a.parquet");
        },
        other => panic!("expected a file definition, got {:?}", other),
    }
}

#[test]
fn decode_operation_definition_without_parameters() {
    let def = decode_feed_definition(
        &obj(
            vec![
                ("type", s("operation")),
                ("feed_left", s("a")),
                ("feed_right", s("b")),
                ("operation", s("join")),
            ],
        ),
    ).unwrap();
    match def {
        FeedDefinition::Operation { feed_left, feed_right, operation, parameters } => {
            assert_eq!(feed_left, "a");
            assert_eq!(feed_right, "b");
            assert_eq!(operation, Some("join".to_owned()));
            assert_eq!(parameters.entries.len(), 0);
        },
        other => panic!("expected an operation definition, got {:?}", other),
    }
}

#[test]
fn decode_operation_definition_without_operation_name() {
    let def = decode_feed_definition(
        &obj(vec![("type", s("operation")), ("feed_left", s("a")), ("feed_right", s("b"))]),
    ).unwrap();
    match def {
        FeedDefinition::Operation { operation, .. } => assert_eq!(operation, None),
        other => panic!("expected an operation definition, got {:?}", other),
    }
}

#[test]
fn decode_filter_definition() {
    let step = obj(
        vec![
            ("filter_name", s("duplicate_values")),
            ("parameters", obj(vec![("column", s("v"))])),
        ],
    );
    let def = decode_feed_definition(
        &obj(vec![("type", s("filter")), ("origin", s("c")), ("filters", ParamValue::Arr(
            vec![step],
        ))]),
    ).unwrap();
    match def {
        FeedDefinition::Filter { origin, filters } => {
            assert_eq!(origin, "c");
            assert_eq!(filters.len(), 1);
            assert_eq!(filters[0].filter_name, "duplicate_values");
            assert!(filters[0].parameters.is_some());
        },
        other => panic!("expected a filter definition, got {:?}", other),
    }
}

#[test]
fn decode_missing_type_is_config_error() {
    let r = decode_feed_definition(&obj(vec![("format", s("parquet"))]));
    assert_eq!(r.unwrap_err(), FeedError::ConfigError { detail: "type".to_owned() });
}

#[test]
fn decode_unknown_type_is_config_error() {
    let r = decode_feed_definition(&obj(vec![("type", s("view"))]));
    assert_eq!(r.unwrap_err(), FeedError::ConfigError { detail: "type".to_owned() });
}

#[test]
fn decode_file_missing_source_is_config_error() {
    let r = decode_feed_definition(&obj(vec![("type", s("file")), ("format", s("ipc"))]));
    assert_eq!(r.unwrap_err(), FeedError::ConfigError { detail: "source".to_owned() });
}

#[test]
fn decode_operation_missing_feed_right_is_config_error() {
    let r = decode_feed_definition(&obj(vec![("type", s("operation")), ("feed_left", s("a"))]));
    assert_eq!(r.unwrap_err(), FeedError::ConfigError { detail: "feed_right".to_owned() });
}

#[test]
fn decode_config_missing_feeds_key_fails() {
    let r = decode_feeds_config(&obj(vec![("other", s("x"))]));
    assert_eq!(r.unwrap_err(), FeedError::ConfigError { detail: "feeds".to_owned() });
}

#[test]
fn decode_config_non_object_feeds_fails() {
    let r = decode_feeds_config(&obj(vec![("feeds", s("x"))]));
    assert_eq!(r.unwrap_err(), FeedError::ConfigError { detail: "feeds".to_owned() });
}

#[test]
fn decode_config_collects_entries_in_order() {
    let config = obj(
        vec![
            ("feeds", obj(vec![
                ("a", file_def("parquet", "a.parquet")),
                ("b", file_def("ipc", "b.arrow")),
            ])),
        ],
    );
    let graph = decode_feeds_config(&config).unwrap();
    assert_eq!(graph.entries.len(), 2);
    assert_eq!(graph.entries[0].name, "a");
    assert_eq!(graph.entries[1].name, "b");
}

#[test]
fn decode_config_bad_definition_fails_whole_load() {
    let config = obj(
        vec![
            ("feeds", obj(vec![
                ("a", file_def("parquet", "a.parquet")),
                ("b", obj(vec![("type", s("file"))])),
            ])),
        ],
    );
    let r = decode_feeds_config(&config);
    assert_eq!(r.unwrap_err(), FeedError::ConfigError { detail: "format".to_owned() });
}

#[test]
fn operation_parameters_default_flattens_to_empty_map() {
    let bag = OperationParameters::default().as_map();
    assert_eq!(bag.entries.len(), 0);
}

#[test]
fn filter_sub_parameters_default_flattens_to_empty_map() {
    let bag = FilterSubParameters::default().as_map();
    assert_eq!(bag.entries.len(), 0);
}

#[test]
fn filter_parameters_default_has_null_name() {
    let fp = FilterParameters::default();
    assert_eq!(fp.filter_name, "null");
    assert!(fp.parameters.is_none());
    let bag = fp.as_map();
    assert_eq!(bag.entries.len(), 1);
    assert_eq!(bag.entries[0].key, "filter_name");
}

#[test]
fn feed_params_operation_round_trips_through_decode() {
    let params = FeedParameters {
        feed_name: "temp".to_owned(),
        type_tag: "operation".to_owned(),
        feed_left: Some("a".to_owned()),
        feed_right: Some("b".to_owned()),
        operation: Some("join".to_owned()),
        parameters: Some(OperationParameters {
            left_on: Some("id".to_owned()),
            right_on: Some("id".to_owned()),
            left_by: Some("ts".to_owned()),
            right_by: Some("ts".to_owned()),
            join_type: None,
            suffix: None,
            validation: None,
            join_nulls: None,
            coalesce: None,
        }),
        origin: None,
        filters: None,
    };
    let bag = params.as_map().unwrap();
    let def = decode_feed_definition(&ParamValue::Obj(bag)).unwrap();
    match def {
        FeedDefinition::Operation { feed_left, feed_right, operation, parameters } => {
            assert_eq!(feed_left, "a");
            assert_eq!(feed_right, "b");
            assert_eq!(operation, Some("join".to_owned()));
            assert_eq!(parameters.entries.len(), 4);
            assert_eq!(parameters.entries[0].key, "left_on");
            assert_eq!(parameters.entries[1].key, "left_by");
            assert_eq!(parameters.entries[2].key, "right_on");
            assert_eq!(parameters.entries[3].key, "right_by");
        },
        other => panic!("expected an operation definition, got {:?}", other),
    }
}

#[test]
fn feed_params_operation_without_feed_left_fails() {
    let params = FeedParameters {
        feed_name: "temp".to_owned(),
        type_tag: "operation".to_owned(),
        feed_left: None,
        feed_right: Some("b".to_owned()),
        operation: Some("join".to_owned()),
        parameters: None,
        origin: None,
        filters: None,
    };
    let r = params.as_map();
    assert_eq!(r.unwrap_err(), FeedError::ConfigError { detail: "feed_left".to_owned() });
}
