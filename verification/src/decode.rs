//! Decoding a parsed configuration document into a typed feed graph.
//!
//! The configuration is a JSON-shaped tree with a top-level `feeds` object;
//! each entry under it is one feed definition. Decoding happens once, at
//! graph-load time: a missing `feeds` key, a non-object `feeds` value, or a
//! definition missing a tag-specific required field is a `ConfigError` naming
//! the offending key, and nothing is partially resolved.

use vstd::prelude::*;

use crate::errors::{FeedError, FeedErrorSpec};
use crate::model::{
    fs_view_list, lemma_fs_view_list, FeedDefinition, FeedDefinitionSpec, FeedGraph, FilterStep,
    FilterStepSpec,
};
use crate::params::{
    lemma_pe_view_list, lemma_pv_view_list, pv_view, pv_view_list, spec_bag_lookup, str_eq,
    ParamBag, ParamValue, ParamValueSpec,
};

verus! {

/// A required string field of a definition: absent or non-string values are
/// configuration failures naming the key.
pub open spec fn spec_cfg_req_str(
    entries: Seq<(Seq<char>, ParamValueSpec)>,
    key: Seq<char>,
) -> Result<Seq<char>, FeedErrorSpec> {
    match spec_bag_lookup(entries, key) {
        Some(v) => match v {
            ParamValueSpec::Str { s } => Ok(s),
            _ => Err(FeedErrorSpec::ConfigError { detail: key }),
        },
        None => Err(FeedErrorSpec::ConfigError { detail: key }),
    }
}

/// One decoded filter step: an object with a required `filter_name` and an
/// optional `parameters` object.
pub open spec fn spec_decode_step(v: ParamValueSpec) -> Result<FilterStepSpec, FeedErrorSpec> {
    match v {
        ParamValueSpec::Obj { entries } => match spec_cfg_req_str(entries, "filter_name"@) {
            Err(e) => Err(e),
            Ok(name) => match spec_bag_lookup(entries, "parameters"@) {
                None => Ok(FilterStepSpec { filter_name: name, parameters: None }),
                Some(p) => match p {
                    ParamValueSpec::Obj { entries: bag } => Ok(
                        FilterStepSpec { filter_name: name, parameters: Some(bag) },
                    ),
                    _ => Err(FeedErrorSpec::ConfigError { detail: "parameters"@ }),
                },
            },
        },
        _ => Err(FeedErrorSpec::ConfigError { detail: "filters"@ }),
    }
}

/// The decoded steps of a filter list, in order; the first invalid step
/// decides the error.
pub open spec fn spec_decode_steps(items: Seq<ParamValueSpec>) -> Result<
    Seq<FilterStepSpec>,
    FeedErrorSpec,
> decreases items.len(),
{
    if items.len() == 0 {
        Ok(Seq::empty())
    } else {
        match spec_decode_step(items[0]) {
            Err(e) => Err(e),
            Ok(step) => match spec_decode_steps(items.drop_first()) {
                Err(e) => Err(e),
                Ok(rest) => Ok(seq![step] + rest),
            },
        }
    }
}

/// The decoded definition an untyped value stands for. The `type` tag
/// selects the variant; each variant checks its required fields, in a fixed
/// order, and an unknown tag is a configuration failure.
pub open spec fn spec_decode_definition(v: ParamValueSpec) -> Result<
    FeedDefinitionSpec,
    FeedErrorSpec,
> {
    match v {
        ParamValueSpec::Obj { entries } => match spec_cfg_req_str(entries, "type"@) {
            Err(e) => Err(e),
            Ok(tag) => if tag == "file"@ {
                match spec_cfg_req_str(entries, "format"@) {
                    Err(e) => Err(e),
                    Ok(format) => match spec_cfg_req_str(entries, "source"@) {
                        Err(e) => Err(e),
                        Ok(source) => Ok(FeedDefinitionSpec::File { format, source }),
                    },
                }
            } else if tag == "operation"@ {
                match spec_decode_operation_fields(entries) {
                    Err(e) => Err(e),
                    Ok(def) => Ok(def),
                }
            } else if tag == "filter"@ {
                match spec_cfg_req_str(entries, "origin"@) {
                    Err(e) => Err(e),
                    Ok(origin) => match spec_bag_lookup(entries, "filters"@) {
                        Some(f) => match f {
                            ParamValueSpec::Arr { items } => match spec_decode_steps(items) {
                                Err(e) => Err(e),
                                Ok(steps) => Ok(
                                    FeedDefinitionSpec::Filter { origin, filters: steps },
                                ),
                            },
                            _ => Err(FeedErrorSpec::ConfigError { detail: "filters"@ }),
                        },
                        None => Err(FeedErrorSpec::ConfigError { detail: "filters"@ }),
                    },
                }
            } else {
                Err(FeedErrorSpec::ConfigError { detail: "type"@ })
            },
        },
        _ => Err(FeedErrorSpec::ConfigError { detail: "feed"@ }),
    }
}

/// The fields of an operation definition: two required feed names, an
/// optional operation name, and an optional parameter object (absent means
/// an empty bag).
pub open spec fn spec_decode_operation_fields(entries: Seq<(Seq<char>, ParamValueSpec)>) -> Result<
    FeedDefinitionSpec,
    FeedErrorSpec,
> {
    match spec_cfg_req_str(entries, "feed_left"@) {
        Err(e) => Err(e),
        Ok(feed_left) => match spec_cfg_req_str(entries, "feed_right"@) {
            Err(e) => Err(e),
            Ok(feed_right) => {
                let operation = match spec_bag_lookup(entries, "operation"@) {
                    None => Ok::<Option<Seq<char>>, FeedErrorSpec>(None),
                    Some(v) => match v {
                        ParamValueSpec::Str { s } => Ok(Some(s)),
                        _ => Err(FeedErrorSpec::ConfigError { detail: "operation"@ }),
                    },
                };
                match operation {
                    Err(e) => Err(e),
                    Ok(operation) => {
                        let parameters = match spec_bag_lookup(entries, "parameters"@) {
                            None => Ok::<Seq<(Seq<char>, ParamValueSpec)>, FeedErrorSpec>(
                                Seq::empty(),
                            ),
                            Some(v) => match v {
                                ParamValueSpec::Obj { entries: bag } => Ok(bag),
                                _ => Err(FeedErrorSpec::ConfigError { detail: "parameters"@ }),
                            },
                        };
                        match parameters {
                            Err(e) => Err(e),
                            Ok(parameters) => Ok(
                                FeedDefinitionSpec::Operation {
                                    feed_left,
                                    feed_right,
                                    operation,
                                    parameters,
                                },
                            ),
                        }
                    },
                }
            },
        },
    }
}

/// The decoded graph a configuration document stands for: the entries of its
/// `feeds` object, each decoded, in document order.
pub open spec fn spec_decode_entries(entries: Seq<(Seq<char>, ParamValueSpec)>) -> Result<
    Seq<(Seq<char>, FeedDefinitionSpec)>,
    FeedErrorSpec,
> decreases entries.len(),
{
    if entries.len() == 0 {
        Ok(Seq::empty())
    } else {
        match spec_decode_definition(entries[0].1) {
            Err(e) => Err(e),
            Ok(def) => match spec_decode_entries(entries.drop_first()) {
                Err(e) => Err(e),
                Ok(rest) => Ok(seq![(entries[0].0, def)] + rest),
            },
        }
    }
}

/// The decoded graph of a whole configuration document: a top-level object
/// with a `feeds` object under it.
pub open spec fn spec_decode_config(root: ParamValueSpec) -> Result<
    Seq<(Seq<char>, FeedDefinitionSpec)>,
    FeedErrorSpec,
> {
    match root {
        ParamValueSpec::Obj { entries } => match spec_bag_lookup(entries, "feeds"@) {
            Some(v) => match v {
                ParamValueSpec::Obj { entries: feeds } => spec_decode_entries(feeds),
                _ => Err(FeedErrorSpec::ConfigError { detail: "feeds"@ }),
            },
            None => Err(FeedErrorSpec::ConfigError { detail: "feeds"@ }),
        },
        _ => Err(FeedErrorSpec::ConfigError { detail: "feeds"@ }),
    }
}

/// Reads a required string field of a definition object.
fn cfg_req_str(bag: &ParamBag, key: &str) -> (r: Result<String, FeedError>)
    ensures
        match r {
            Ok(s) => spec_cfg_req_str(bag@, key@) == Ok::<Seq<char>, FeedErrorSpec>(s@),
            Err(e) => spec_cfg_req_str(bag@, key@) == Err::<Seq<char>, FeedErrorSpec>(e@),
        },
{
    match bag.get(key) {
        Some(v) => match v {
            ParamValue::Str(s) => Ok(s.clone()),
            _ => Err(FeedError::ConfigError { detail: key.to_owned() }),
        },
        None => Err(FeedError::ConfigError { detail: key.to_owned() }),
    }
}

/// Decodes one filter step out of an untyped value.
fn decode_filter_step(v: &ParamValue) -> (r: Result<FilterStep, FeedError>)
    ensures
        match r {
            Ok(step) => spec_decode_step(v@) == Ok::<FilterStepSpec, FeedErrorSpec>(step@),
            Err(e) => spec_decode_step(v@) == Err::<FilterStepSpec, FeedErrorSpec>(e@),
        },
{
    match v {
        ParamValue::Obj(entries) => {
            let name = match cfg_req_str(entries, "filter_name") {
                Ok(s) => s,
                Err(e) => {
                    return Err(e);
                },
            };
            match entries.get("parameters") {
                None => Ok(FilterStep { filter_name: name, parameters: None }),
                Some(p) => match p {
                    ParamValue::Obj(bag) => Ok(
                        FilterStep { filter_name: name, parameters: Some(bag.clone()) },
                    ),
                    _ => Err(FeedError::ConfigError { detail: "parameters".to_owned() }),
                },
            }
        },
        _ => Err(FeedError::ConfigError { detail: "filters".to_owned() }),
    }
}

/// Prepends decoded steps to an optional remainder.
pub open spec fn spec_prepend_steps(
    prefix: Seq<FilterStepSpec>,
    rest: Result<Seq<FilterStepSpec>, FeedErrorSpec>,
) -> Result<Seq<FilterStepSpec>, FeedErrorSpec> {
    match rest {
        Ok(items) => Ok(prefix + items),
        Err(e) => Err(e),
    }
}

/// Decodes a filter list, in order; the first invalid step decides the
/// error.
fn decode_filter_steps(items: &Vec<ParamValue>) -> (r: Result<Vec<FilterStep>, FeedError>)
    ensures
        match r {
            Ok(steps) => spec_decode_steps(pv_view_list(items@)) == Ok::<
                Seq<FilterStepSpec>,
                FeedErrorSpec,
            >(fs_view_list(steps@)),
            Err(e) => spec_decode_steps(pv_view_list(items@)) == Err::<
                Seq<FilterStepSpec>,
                FeedErrorSpec,
            >(e@),
        },
{
    let ghost iv = pv_view_list(items@);
    proof {
        lemma_pv_view_list(items@);
        assert(iv.skip(0) =~= iv);
        if spec_decode_steps(iv) is Ok {
            assert(Seq::<FilterStepSpec>::empty() + spec_decode_steps(iv)->Ok_0 =~= spec_decode_steps(
                iv,
            )->Ok_0);
        }
    }
    let n: usize = items.len();
    let mut steps: Vec<FilterStep> = Vec::new();
    let mut i: usize = 0;
    while i < n
        invariant
            0 <= i <= n,
            n == items.len(),
            iv == pv_view_list(items@),
            iv.len() == n,
            forall|j: int| 0 <= j < n ==> iv[j] == pv_view(items@[j]),
            fs_view_list(steps@).len() == i,
            spec_decode_steps(iv) == spec_prepend_steps(
                fs_view_list(steps@),
                spec_decode_steps(iv.skip(i as int)),
            ),
        decreases n - i,
    {
        proof {
            assert(iv.skip(i as int)[0] == iv[i as int]);
            assert(iv.skip(i as int).drop_first() =~= iv.skip(i + 1));
        }
        let step = match decode_filter_step(&items[i]) {
            Ok(step) => step,
            Err(e) => {
                return Err(e);
            },
        };
        let ghost prev = steps@;
        let ghost step_view = step@;
        steps.push(step);
        proof {
            lemma_fs_view_list(prev);
            lemma_fs_view_list(steps@);
            assert(fs_view_list(steps@) =~= fs_view_list(prev).push(step_view));
            match spec_decode_steps(iv.skip(i + 1)) {
                Ok(rest) => {
                    assert(fs_view_list(prev) + (seq![step_view] + rest) =~= fs_view_list(steps@)
                        + rest);
                },
                Err(_) => {},
            }
        }
        i = i + 1;
    }
    proof {
        assert(iv.skip(n as int) =~= Seq::<ParamValueSpec>::empty());
        assert(fs_view_list(steps@) + spec_decode_steps(iv.skip(n as int))->Ok_0 =~= fs_view_list(
            steps@,
        ));
    }
    Ok(steps)
}

/// Decodes one feed definition out of an untyped value.
pub fn decode_feed_definition(v: &ParamValue) -> (r: Result<FeedDefinition, FeedError>)
    ensures
        match r {
            Ok(def) => spec_decode_definition(v@) == Ok::<FeedDefinitionSpec, FeedErrorSpec>(def@),
            Err(e) => spec_decode_definition(v@) == Err::<FeedDefinitionSpec, FeedErrorSpec>(e@),
        },
{
    let entries = match v {
        ParamValue::Obj(entries) => entries,
        _ => {
            return Err(FeedError::ConfigError { detail: "feed".to_owned() });
        },
    };
    let tag = match cfg_req_str(entries, "type") {
        Ok(s) => s,
        Err(e) => {
            return Err(e);
        },
    };
    if str_eq(tag.as_str(), "file") {
        let format = match cfg_req_str(entries, "format") {
            Ok(s) => s,
            Err(e) => {
                return Err(e);
            },
        };
        let source = match cfg_req_str(entries, "source") {
            Ok(s) => s,
            Err(e) => {
                return Err(e);
            },
        };
        Ok(FeedDefinition::File { format, source })
    } else if str_eq(tag.as_str(), "operation") {
        let feed_left = match cfg_req_str(entries, "feed_left") {
            Ok(s) => s,
            Err(e) => {
                return Err(e);
            },
        };
        let feed_right = match cfg_req_str(entries, "feed_right") {
            Ok(s) => s,
            Err(e) => {
                return Err(e);
            },
        };
        let operation = match entries.get("operation") {
            None => None,
            Some(p) => match p {
                ParamValue::Str(s) => Some(s.clone()),
                _ => {
                    return Err(FeedError::ConfigError { detail: "operation".to_owned() });
                },
            },
        };
        let parameters = match entries.get("parameters") {
            None => ParamBag::empty(),
            Some(p) => match p {
                ParamValue::Obj(bag) => bag.clone(),
                _ => {
                    return Err(FeedError::ConfigError { detail: "parameters".to_owned() });
                },
            },
        };
        Ok(FeedDefinition::Operation { feed_left, feed_right, operation, parameters })
    } else if str_eq(tag.as_str(), "filter") {
        let origin = match cfg_req_str(entries, "origin") {
            Ok(s) => s,
            Err(e) => {
                return Err(e);
            },
        };
        match entries.get("filters") {
            Some(f) => match f {
                ParamValue::Arr(items) => match decode_filter_steps(items) {
                    Ok(steps) => Ok(FeedDefinition::Filter { origin, filters: steps }),
                    Err(e) => Err(e),
                },
                _ => Err(FeedError::ConfigError { detail: "filters".to_owned() }),
            },
            None => Err(FeedError::ConfigError { detail: "filters".to_owned() }),
        }
    } else {
        Err(FeedError::ConfigError { detail: "type".to_owned() })
    }
}

/// Prepends decoded graph entries to an optional remainder.
pub open spec fn spec_prepend_entries(
    prefix: Seq<(Seq<char>, FeedDefinitionSpec)>,
    rest: Result<Seq<(Seq<char>, FeedDefinitionSpec)>, FeedErrorSpec>,
) -> Result<Seq<(Seq<char>, FeedDefinitionSpec)>, FeedErrorSpec> {
    match rest {
        Ok(items) => Ok(prefix + items),
        Err(e) => Err(e),
    }
}

/// Decodes a whole configuration document into a feed graph: the document
/// must be an object holding a `feeds` object, and every definition under
/// `feeds` must decode; nothing is partially applied.
#[verifier::loop_isolation(false)]
pub fn decode_feeds_config(root: &ParamValue) -> (r: Result<FeedGraph, FeedError>)
    ensures
        match r {
            Ok(graph) => spec_decode_config(root@) == Ok::<
                Seq<(Seq<char>, FeedDefinitionSpec)>,
                FeedErrorSpec,
            >(graph@),
            Err(e) => spec_decode_config(root@) == Err::<
                Seq<(Seq<char>, FeedDefinitionSpec)>,
                FeedErrorSpec,
            >(e@),
        },
{
    let entries = match root {
        ParamValue::Obj(entries) => entries,
        _ => {
            return Err(FeedError::ConfigError { detail: "feeds".to_owned() });
        },
    };
    let feeds = match entries.get("feeds") {
        Some(v) => match v {
            ParamValue::Obj(bag) => bag,
            _ => {
                return Err(FeedError::ConfigError { detail: "feeds".to_owned() });
            },
        },
        None => {
            return Err(FeedError::ConfigError { detail: "feeds".to_owned() });
        },
    };
    let ghost fv = feeds@;
    proof {
        lemma_pe_view_list(feeds.entries@);
        assert(fv.skip(0) =~= fv);
        if spec_decode_entries(fv) is Ok {
            assert(Seq::<(Seq<char>, FeedDefinitionSpec)>::empty() + spec_decode_entries(fv)->Ok_0
                =~= spec_decode_entries(fv)->Ok_0);
        }
    }
    let n: usize = feeds.entries.len();
    let mut graph = FeedGraph::empty();
    let mut i: usize = 0;
    while i < n
        invariant
            0 <= i <= n,
            n == feeds.entries.len(),
            fv == feeds@,
            fv.len() == n,
            forall|j: int| 0 <= j < n ==> fv[j] == (
                feeds.entries@[j].key@,
                pv_view(feeds.entries@[j].value),
            ),
            graph@.len() == i,
            spec_decode_entries(fv) == spec_prepend_entries(
                graph@,
                spec_decode_entries(fv.skip(i as int)),
            ),
        decreases n - i,
    {
        proof {
            assert(fv.skip(i as int)[0] == fv[i as int]);
            assert(fv.skip(i as int).drop_first() =~= fv.skip(i + 1));
        }
        let entry = &feeds.entries[i];
        let def = match decode_feed_definition(&entry.value) {
            Ok(def) => def,
            Err(e) => {
                return Err(e);
            },
        };
        let ghost prev = graph@;
        let ghost pair = (entry.key@, def@);
        graph.push(entry.key.clone(), def);
        proof {
            match spec_decode_entries(fv.skip(i + 1)) {
                Ok(rest) => {
                    assert(prev + (seq![pair] + rest) =~= graph@ + rest);
                },
                Err(_) => {},
            }
        }
        i = i + 1;
    }
    proof {
        assert(fv.skip(n as int) =~= Seq::<(Seq<char>, ParamValueSpec)>::empty());
        assert(graph@ + spec_decode_entries(fv.skip(n as int))->Ok_0 =~= graph@);
    }
    Ok(graph)
}

} // verus!
