use std::io::Cursor;

use polars::prelude::{Column, DataFrame, IntoLazy, IpcReader, IpcWriterOptions, SerReader};

use feedgraph::decode::decode_feeds_config;
use feedgraph::errors::FeedError;
use feedgraph::feed_params::{FeedParameters, FilterParameters, FilterSubParameters};
use feedgraph::filter_ops::{correlate_columns, correlation_pairs, find_duplicate_values_in_column};
use feedgraph::filters::get_feed_from_filters;
use feedgraph::materialize::{lazyframe_as_arrowbytes, lazyframe_as_str};
use feedgraph::model::{FeedGraph, FilterStep};
use feedgraph::operations::get_feed_from_operation;
use feedgraph::params::{ParamBag, ParamValue};
use feedgraph::plan::LazyComputation;
use feedgraph::resolve::{get_feed, new_temporary_feed};

fn obj(pairs: Vec<(&str, ParamValue)>) -> ParamValue {
    let mut bag = ParamBag::empty();
    for (k, v) in pairs {
        bag.insert(k.to_owned(), v);
    }
    ParamValue::Obj(bag)
}

fn s(text: &str) -> ParamValue {
    ParamValue::Str(text.to_owned())
}

fn bag(pairs: Vec<(&str, ParamValue)>) -> ParamBag {
    let mut bag = ParamBag::empty();
    for (k, v) in pairs {
        bag.insert(k.to_owned(), v);
    }
    bag
}

fn collect(lc: LazyComputation) -> DataFrame {
    let bytes = lazyframe_as_arrowbytes(lc.into_frame()).unwrap();
    IpcReader::new(Cursor::new(bytes)).finish().unwrap()
}

fn filter_step(filter_name: &str, params: Vec<(&str, ParamValue)>) -> FilterStep {
    FilterStep { filter_name: filter_name.to_owned(), parameters: Some(bag(params)) }
}

#[test]
fn duplicate_values_counts_and_orders_groups() {
    let df = DataFrame::new(vec![Column::new("v".into(), [1i64, 1, 2, 3, 3, 3])]).unwrap();
    let lc = find_duplicate_values_in_column(LazyComputation::from_frame(df.lazy()), "v");
    let out = collect(lc);
    assert_eq!(out.height(), 2);
    let values = out.column("v").unwrap().i64().unwrap();
    let counts = out.column("count").unwrap().u32().unwrap();
    assert_eq!(values.get(0), Some(3));
    assert_eq!(counts.get(0), Some(3));
    assert_eq!(values.get(1), Some(1));
    assert_eq!(counts.get(1), Some(2));
}

#[test]
fn filter_order_is_observable() {
    let df = DataFrame::new(vec![Column::new("v".into(), [1i64, 1, 2, 3, 4])]).unwrap();
    let narrow_on_count = filter_step(
        "filter_value",
        vec![("column", s("count")), ("filter", s("gte")), ("value", ParamValue::UInt(2)), (
            "type",
            s("uint"),
        )],
    );
    let duplicates = filter_step("duplicate_values", vec![("column", s("v"))]);

    // Counting duplicates first, the count column exists and one group passes.
    let first = get_feed_from_filters(
        LazyComputation::from_frame(df.clone().lazy()),
        &vec![
            filter_step("duplicate_values", vec![("column", s("v"))]),
            filter_step(
                "filter_value",
                vec![("column", s("count")), ("filter", s("gte")), ("value", ParamValue::UInt(2)), (
                    "type",
                    s("uint"),
                )],
            ),
        ],
    ).unwrap();
    let out = collect(first);
    assert_eq!(out.height(), 1);

    // The reverse order builds a plan against a column that does not exist
    // yet, which the engine rejects at materialization.
    let second = get_feed_from_filters(
        LazyComputation::from_frame(df.lazy()),
        &vec![narrow_on_count, duplicates],
    ).unwrap();
    let r = lazyframe_as_str(second.into_frame());
    assert!(matches!(r, Err(FeedError::ExecutionError { .. })));
}

#[test]
fn correlation_names_ordered_pairs_without_self_pairs() {
    let df = DataFrame::new(vec![
        Column::new("x".into(), [1i64, 2, 3, 4, 5]),
        Column::new("y".into(), [2i64, 4, 6, 8, 10]),
    ]).unwrap();
    let lc = correlate_columns(
        LazyComputation::from_frame(df.lazy()),
        &vec!["x".to_owned(), "y".to_owned()],
    );
    let out = collect(lc);
    let names: Vec<String> = out.get_column_names().iter().map(|n| n.to_string()).collect();
    assert_eq!(names, vec!["xXy".to_owned(), "yXx".to_owned()]);
    let xy = out.column("xXy").unwrap().f64().unwrap().get(0).unwrap();
    assert!((xy - 1.0).abs() < 1e-9);
}

#[test]
fn empty_filter_chain_returns_origin_unchanged() {
    let df = DataFrame::new(vec![Column::new("v".into(), [1i64, 2, 3])]).unwrap();
    let lc = get_feed_from_filters(LazyComputation::from_frame(df.clone().lazy()), &vec![])
        .unwrap();
    let out = collect(lc);
    assert!(out.equals(&df));
}

#[test]
fn filter_value_rejects_the_narrow_int16_tag() {
    let df = DataFrame::new(vec![Column::new("v".into(), [1i64])]).unwrap();
    let r = get_feed_from_filters(
        LazyComputation::from_frame(df.lazy()),
        &vec![filter_step(
            "filter_value",
            vec![("column", s("v")), ("filter", s("gte")), ("value", ParamValue::Int(1)), (
                "type",
                s("int16"),
            )],
        )],
    );
    assert!(matches!(r, Err(FeedError::InvalidType { type_tag }) if type_tag == "int16"));
}

#[test]
fn correlation_pairs_excludes_equal_names() {
    let pairs = correlation_pairs(&vec!["x".to_owned(), "x".to_owned()]);
    assert!(pairs.is_empty());
}

#[test]
fn correlation_pairs_enumerates_ordered_distinct_pairs() {
    let pairs = correlation_pairs(&vec!["a".to_owned(), "b".to_owned(), "c".to_owned()]);
    let expected: Vec<(String, String)> = vec![
        ("a".to_owned(), "b".to_owned()),
        ("a".to_owned(), "c".to_owned()),
        ("b".to_owned(), "a".to_owned()),
        ("b".to_owned(), "c".to_owned()),
        ("c".to_owned(), "a".to_owned()),
        ("c".to_owned(), "b".to_owned()),
    ];
    assert_eq!(pairs, expected);
}

#[test]
fn nested_unknown_name_fails_with_feed_not_found() {
    let d = obj(vec![("type", s("filter")), ("origin", s("missing")), ("filters",
        ParamValue::Arr(vec![]),
    )]);
    let config = obj(vec![("feeds", obj(vec![("d", d)]))]);
    let graph = decode_feeds_config(&config).unwrap();
    let r = get_feed(&"d".to_owned(), &graph);
    assert!(matches!(r, Err(FeedError::FeedNotFound { name }) if name == "missing"));
}

#[test]
fn unknown_filter_name_is_reported() {
    let df = DataFrame::new(vec![Column::new("v".into(), [1i64])]).unwrap();
    let r = get_feed_from_filters(
        LazyComputation::from_frame(df.lazy()),
        &vec![filter_step("smooth", vec![])],
    );
    assert!(matches!(r, Err(FeedError::UnknownFilter { filter }) if filter == "smooth"));
}

#[test]
fn filter_value_missing_column_is_reported() {
    let df = DataFrame::new(vec![Column::new("v".into(), [1i64])]).unwrap();
    let r = get_feed_from_filters(
        LazyComputation::from_frame(df.lazy()),
        &vec![filter_step("filter_value", vec![("filter", s("gte"))])],
    );
    assert!(
        matches!(r, Err(FeedError::MissingParameter { field, context })
            if field == "column" && context == "filter_value")
    );
}

#[test]
fn filter_step_without_parameters_is_reported() {
    let df = DataFrame::new(vec![Column::new("v".into(), [1i64])]).unwrap();
    let r = get_feed_from_filters(
        LazyComputation::from_frame(df.lazy()),
        &vec![FilterStep { filter_name: "filter_value".to_owned(), parameters: None }],
    );
    assert!(
        matches!(r, Err(FeedError::MissingParameter { field, context })
            if field == "parameters" && context == "filter_value")
    );
}

#[test]
fn unknown_operation_is_reported() {
    let df = DataFrame::new(vec![Column::new("v".into(), [1i64])]).unwrap();
    let left = LazyComputation::from_frame(df.clone().lazy());
    let right = LazyComputation::from_frame(df.lazy());
    let r = get_feed_from_operation(left, right, &Some("merge".to_owned()), &ParamBag::empty());
    assert!(matches!(r, Err(FeedError::UnknownOperation { operation }) if operation == "merge"));
}

#[test]
fn join_restricts_rows_to_matching_keys() {
    let a = DataFrame::new(vec![
        Column::new("id".into(), [1i64, 2, 3]),
        Column::new("ts".into(), [10i64, 20, 30]),
        Column::new("amount".into(), [50i64, 150, 250]),
    ]).unwrap();
    let b = DataFrame::new(vec![
        Column::new("id".into(), [1i64, 2, 4]),
        Column::new("ts".into(), [10i64, 20, 40]),
        Column::new("score".into(), [7i64, 8, 9]),
    ]).unwrap();
    let params = bag(vec![
        ("left_on", s("id")),
        ("right_on", s("id")),
        ("left_by", s("ts")),
        ("right_by", s("ts")),
    ]);
    let joined = get_feed_from_operation(
        LazyComputation::from_frame(a.lazy()),
        LazyComputation::from_frame(b.lazy()),
        &Some("join".to_owned()),
        &params,
    ).unwrap();
    let out = collect(joined);
    assert_eq!(out.height(), 2);
    assert!(out.get_column_names().iter().any(|n| n.as_str() == "score"));
}

#[test]
fn round_trip_preserves_table_and_text() {
    let df = DataFrame::new(vec![
        Column::new("id".into(), [1i64, 2, 3]),
        Column::new("name".into(), ["a", "b", "c"]),
    ]).unwrap();
    let bytes = lazyframe_as_arrowbytes(df.clone().lazy()).unwrap();
    let decoded = IpcReader::new(Cursor::new(bytes)).finish().unwrap();
    assert!(decoded.equals(&df));
    let text = lazyframe_as_str(df.lazy()).unwrap();
    assert_eq!(text, format!("{}\n", decoded));
}

fn fixture_config_named(tag: &str) -> ParamValue {
    let a = DataFrame::new(vec![
        Column::new("id".into(), [1i64, 2, 3]),
        Column::new("ts".into(), [10i64, 20, 30]),
        Column::new("amount".into(), [50i64, 150, 250]),
    ]).unwrap();
    let b = DataFrame::new(vec![
        Column::new("id".into(), [1i64, 2, 3]),
        Column::new("ts".into(), [10i64, 20, 30]),
        Column::new("score".into(), [7i64, 8, 9]),
    ]).unwrap();
    let path_a = format!("/tmp/feedgraph_fixture_{tag}_a.arrow");
    let path_b = format!("/tmp/feedgraph_fixture_{tag}_b.arrow");
    a.lazy().sink_ipc(&path_a, IpcWriterOptions::default()).unwrap();
    b.lazy().sink_ipc(&path_b, IpcWriterOptions::default()).unwrap();

    let file_a = obj(vec![("type", s("file")), ("format", s("ipc")), ("source", s(&path_a))]);
    let file_b = obj(vec![("type", s("file")), ("format", s("ipc")), ("source", s(&path_b))]);
    let join_params = obj(vec![
        ("left_on", s("id")),
        ("right_on", s("id")),
        ("left_by", s("ts")),
        ("right_by", s("ts")),
    ]);
    let c = obj(vec![
        ("type", s("operation")),
        ("operation", s("join")),
        ("feed_left", s("a")),
        ("feed_right", s("b")),
        ("parameters", join_params),
    ]);
    obj(vec![("feeds", obj(vec![("a", file_a), ("b", file_b), ("c", c)]))])
}

fn add_feed(config: &ParamValue, name: &str, definition: ParamValue) -> ParamValue {
    let feeds = match config {
        ParamValue::Obj(root) => match root.get("feeds") {
            Some(ParamValue::Obj(feeds)) => {
                let mut feeds = feeds.clone();
                feeds.insert(name.to_owned(), definition);
                feeds
            },
            _ => unreachable!(),
        },
        _ => unreachable!(),
    };
    let mut root = ParamBag::empty();
    root.insert("feeds".to_owned(), ParamValue::Obj(feeds));
    ParamValue::Obj(root)
}

fn with_amount_filter(config: &ParamValue, value: i64) -> FeedGraph {
    let step = obj(vec![
        ("filter_name", s("filter_value")),
        ("parameters", obj(vec![
            ("column", s("amount")),
            ("filter", s("gte")),
            ("value", ParamValue::Int(value)),
            ("type", s("int")),
        ])),
    ]);
    let d = obj(vec![("type", s("filter")), ("origin", s("c")), ("filters", ParamValue::Arr(
        vec![step],
    ))]);
    decode_feeds_config(&add_feed(config, "d", d)).unwrap()
}

#[test]
fn end_to_end_join_then_filter() {
    let config = fixture_config_named("join_filter");
    let graph = with_amount_filter(&config, 100);
    let lc = get_feed(&"d".to_owned(), &graph).unwrap();
    let out = collect(lc);
    assert_eq!(out.height(), 2);
    let column = out.column("amount").unwrap().i64().unwrap();
    let mut amounts: Vec<i64> = column.into_iter().map(|v| v.unwrap()).collect();
    amounts.sort();
    assert_eq!(amounts, vec![150, 250]);
}

#[test]
fn end_to_end_filter_above_all_data_yields_zero_rows() {
    let config = fixture_config_named("filter_high");
    let graph = with_amount_filter(&config, 100000);
    let lc = get_feed(&"d".to_owned(), &graph).unwrap();
    let out = collect(lc);
    assert_eq!(out.height(), 0);
}

#[test]
fn resolution_is_deterministic_for_one_graph() {
    let config = fixture_config_named("determinism");
    let graph = with_amount_filter(&config, 100);
    let first = lazyframe_as_str(get_feed(&"d".to_owned(), &graph).unwrap().into_frame()).unwrap();
    let second = lazyframe_as_str(get_feed(&"d".to_owned(), &graph).unwrap().into_frame()).unwrap();
    assert_eq!(first, second);
}

#[test]
fn unknown_name_fails_with_feed_not_found() {
    let config = fixture_config_named("unknown_name");
    let graph = decode_feeds_config(&config).unwrap();
    let r = get_feed(&"missing".to_owned(), &graph);
    assert!(matches!(r, Err(FeedError::FeedNotFound { name }) if name == "missing"));
}

#[test]
fn unrecognized_format_is_rejected_before_io() {
    let config = obj(vec![("feeds", obj(vec![("a", obj(vec![
        ("type", s("file")),
        ("format", s("csv")),
        ("source", s("nowhere.csv")),
    ]))]))]);
    let graph = decode_feeds_config(&config).unwrap();
    let r = get_feed(&"a".to_owned(), &graph);
    assert!(matches!(r, Err(FeedError::UnrecognizedFormat { format }) if format == "csv"));
}

#[test]
fn missing_source_file_is_an_execution_error() {
    let config = obj(vec![("feeds", obj(vec![("a", obj(vec![
        ("type", s("file")),
        ("format", s("parquet")),
        ("source", s("/tmp/feedgraph_fixture_absent.parquet")),
    ]))]))]);
    let graph = decode_feeds_config(&config).unwrap();
    let lc = get_feed(&"a".to_owned(), &graph).unwrap();
    let r = lazyframe_as_str(lc.into_frame());
    assert!(matches!(r, Err(FeedError::ExecutionError { .. })));
}

#[test]
fn cyclic_graph_is_reported_not_followed() {
    let a = obj(vec![("type", s("filter")), ("origin", s("b")), ("filters", ParamValue::Arr(
        vec![],
    ))]);
    let b = obj(vec![("type", s("filter")), ("origin", s("a")), ("filters", ParamValue::Arr(
        vec![],
    ))]);
    let config = obj(vec![("feeds", obj(vec![("a", a), ("b", b)]))]);
    let graph = decode_feeds_config(&config).unwrap();
    let r = get_feed(&"a".to_owned(), &graph);
    assert!(matches!(r, Err(FeedError::CyclicReference { name }) if name == "a"));
}

#[test]
fn ephemeral_overlay_shadows_for_one_call_only() {
    let config = fixture_config_named("ephemeral");
    // The persisted graph defines `temp` as the join feed `c` filtered down
    // to high amounts.
    let persisted_temp = obj(vec![
        ("filter_name", s("filter_value")),
        ("parameters", obj(vec![
            ("column", s("amount")),
            ("filter", s("gte")),
            ("value", ParamValue::Int(200)),
            ("type", s("int")),
        ])),
    ]);
    let temp_def = obj(vec![("type", s("filter")), ("origin", s("c")), ("filters",
        ParamValue::Arr(vec![persisted_temp]),
    )]);
    let config_with_temp = add_feed(&config, "temp", temp_def);
    let graph = decode_feeds_config(&config_with_temp).unwrap();

    // The ephemeral `temp` keeps every joined row instead.
    let params = FeedParameters {
        feed_name: "temp".to_owned(),
        type_tag: "filter".to_owned(),
        feed_left: None,
        feed_right: None,
        operation: None,
        parameters: None,
        origin: Some("c".to_owned()),
        filters: Some(vec![FilterParameters {
            filter_name: "filter_value".to_owned(),
            parameters: Some(FilterSubParameters {
                column: Some("amount".to_owned()),
                columns: None,
                filter: Some("gte".to_owned()),
                value: Some(ParamValue::Int(0)),
                type_tag: Some("int".to_owned()),
            }),
        }]),
    };

    let rebuilt = decode_feeds_config(&config_with_temp).unwrap();

    let ephemeral = collect(new_temporary_feed(&"temp".to_owned(), &params, graph).unwrap());
    assert_eq!(ephemeral.height(), 3);

    // A subsequent call without the override sees the persisted definition.
    let persisted = collect(get_feed(&"temp".to_owned(), &rebuilt).unwrap());
    assert_eq!(persisted.height(), 1);
}
