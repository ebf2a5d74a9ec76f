//! The feed resolution engine.
//!
//! Resolution turns a feed name, against a feed graph, into one lazy
//! computation: depth-first, single-pass, not memoized — two definitions
//! referencing the same upstream name resolve it twice, and an operation
//! resolves its left input strictly before its right one. A name absent from
//! the graph fails with `FeedNotFound`. Resolution threads the set of names
//! currently being resolved; revisiting one means the graph is cyclic and
//! fails with `CyclicReference` instead of recursing forever.
//!
//! [`spec_resolve`] is the mathematical resolution function; the executable
//! resolver is proved to follow it exactly, except that a file scan the
//! engine refuses surfaces as `ExecutionError`.

use vstd::prelude::*;

use vstd::seq_lib::seq_to_set_is_finite;

use crate::decode::{decode_feed_definition, spec_decode_definition};
use crate::errors::{FeedError, FeedErrorSpec};
use crate::feed_params::{spec_feed_params_map, FeedParameters};
use crate::filters::{get_feed_from_filters, lemma_apply_filters_err_kind, spec_apply_filters};
use crate::model::{
    fs_view_list, insert_override, lemma_lookup_in_keys, opt_string_view, spec_graph_keys,
    spec_graph_lookup, FeedDefinition, FeedDefinitionSpec, FeedGraph,
};
use crate::operations::{
    get_feed_from_operation, lemma_apply_operation_err_kind, spec_apply_operation,
};
use crate::params::{ParamValue, ParamValueSpec};
use crate::params::str_eq;
use crate::plan::{LazyComputation, PlanSpec};
use crate::plan::spec_file_format;
use crate::sources::{get_feed_from_file, spec_file_feed};

verus! {

/// The set of names on a resolution path.
pub open spec fn spec_path_set(path: Seq<String>) -> Set<Seq<char>> {
    path.map_values(|s: String| s@).to_set()
}

/// The resolution of `name` against `graph`, with `path` the set of names
/// currently being resolved: the exact plan of the computation that comes
/// out, or the exact error. A name on the path is a cycle; an absent name is
/// `FeedNotFound`; a file feed is its scan; an operation feed resolves left
/// then right, then dispatches the operation; a filter feed resolves its
/// origin, then folds its filter chain.
pub open spec fn spec_resolve(
    name: Seq<char>,
    graph: Seq<(Seq<char>, FeedDefinitionSpec)>,
    path: Set<Seq<char>>,
) -> Result<PlanSpec, FeedErrorSpec>
    decreases spec_graph_keys(graph).difference(path).len(),
        when path.finite()
{
    if path.contains(name) {
        Err(FeedErrorSpec::CyclicReference { name })
    } else {
        match spec_graph_lookup(graph, name) {
            None => Err(FeedErrorSpec::FeedNotFound { name }),
            Some(def) => match def {
                FeedDefinitionSpec::File { format, source } => spec_file_feed(format, source),
                FeedDefinitionSpec::Operation { feed_left, feed_right, operation, parameters } => {
                    proof {
                        broadcast use seq_to_set_is_finite;

                        lemma_lookup_in_keys(graph, name);
                        spec_graph_keys(graph).lemma_set_insert_diff_decreases(path, name);
                    }
                    match spec_resolve(feed_left, graph, path.insert(name)) {
                        Err(e) => Err(e),
                        Ok(left) => match spec_resolve(feed_right, graph, path.insert(name)) {
                            Err(e) => Err(e),
                            Ok(right) => spec_apply_operation(left, right, operation, parameters),
                        },
                    }
                },
                FeedDefinitionSpec::Filter { origin, filters } => {
                    proof {
                        broadcast use seq_to_set_is_finite;

                        lemma_lookup_in_keys(graph, name);
                        spec_graph_keys(graph).lemma_set_insert_diff_decreases(path, name);
                    }
                    match spec_resolve(origin, graph, path.insert(name)) {
                        Err(e) => Err(e),
                        Ok(base) => spec_apply_filters(base, filters),
                    }
                },
            },
        }
    }
}

/// Whether resolving `name` hands at least one file scan to the engine
/// before its outcome is decided: depth-first, a recognized-format file feed
/// is reached through an operation's left input, through its right input
/// once the left input resolves, or through a filter's origin. Only on such
/// a walk can the engine's refusal of a scan decide the result; on every
/// other input the resolver's outcome is exactly [`spec_resolve`]'s.
pub open spec fn spec_reaches_scan(
    name: Seq<char>,
    graph: Seq<(Seq<char>, FeedDefinitionSpec)>,
    path: Set<Seq<char>>,
) -> bool
    decreases spec_graph_keys(graph).difference(path).len(),
        when path.finite()
{
    if path.contains(name) {
        false
    } else {
        match spec_graph_lookup(graph, name) {
            None => false,
            Some(def) => match def {
                FeedDefinitionSpec::File { format, source } => spec_file_format(format) is Some,
                FeedDefinitionSpec::Operation { feed_left, feed_right, operation, parameters } => {
                    proof {
                        broadcast use seq_to_set_is_finite;

                        lemma_lookup_in_keys(graph, name);
                        spec_graph_keys(graph).lemma_set_insert_diff_decreases(path, name);
                    }
                    spec_reaches_scan(feed_left, graph, path.insert(name)) || (spec_resolve(
                        feed_left,
                        graph,
                        path.insert(name),
                    ) is Ok && spec_reaches_scan(feed_right, graph, path.insert(name)))
                },
                FeedDefinitionSpec::Filter { origin, filters } => {
                    proof {
                        broadcast use seq_to_set_is_finite;

                        lemma_lookup_in_keys(graph, name);
                        spec_graph_keys(graph).lemma_set_insert_diff_decreases(path, name);
                    }
                    spec_reaches_scan(origin, graph, path.insert(name))
                },
            },
        }
    }
}

/// Whether `name` is on the resolution path.
fn path_contains(path: &Vec<String>, name: &str) -> (r: bool)
    ensures
        r == spec_path_set(path@).contains(name@),
{
    let ghost mapped = path@.map_values(|s: String| s@);
    let n: usize = path.len();
    let mut i: usize = 0;
    while i < n
        invariant
            0 <= i <= n,
            n == path.len(),
            mapped == path@.map_values(|s: String| s@),
            forall|j: int| 0 <= j < i ==> mapped[j] != name@,
        decreases n - i,
    {
        if str_eq(path[i].as_str(), name) {
            proof {
                assert(mapped[i as int] == name@);
                assert(mapped.contains(name@));
            }
            return true;
        }
        i = i + 1;
    }
    proof {
        if spec_path_set(path@).contains(name@) {
            let j = choose|j: int| 0 <= j < mapped.len() && mapped[j] == name@;
            assert(false);
        }
    }
    false
}

/// Extends the resolution path by one name.
fn extend_path(path: &Vec<String>, name: &String) -> (r: Vec<String>)
    ensures
        spec_path_set(r@) == spec_path_set(path@).insert(name@),
{
    let mut extended = path.clone();
    let ghost before = extended@;
    extended.push(name.clone());
    proof {
        assert(before =~= path@);
        assert(extended@ =~= path@.push(*name));
        let f = |s: String| s@;
        assert(path@.push(*name).map_values(f) =~= path@.map_values(f) + seq![name@]);
        Seq::<Seq<char>>::lemma_to_set_insert_commutes(path@.map_values(f), name@);
        assert(spec_path_set(extended@) =~= spec_path_set(path@).insert(name@));
    }
    extended
}

/// Resolves `feed_name` against `all_feeds`, with `path` the names currently
/// being resolved. The result follows [`spec_resolve`] exactly, except that
/// a file scan the engine refuses surfaces as `ExecutionError` — and that
/// can happen only where the walk reaches a scan at all, so every
/// configuration error decided before any scan comes out exactly as
/// [`spec_resolve`] gives it.
pub fn get_feed_from_config(feed_name: &String, all_feeds: &FeedGraph, path: &Vec<String>) -> (r:
    Result<LazyComputation, FeedError>)
    ensures
        match r {
            Ok(lc) => spec_resolve(feed_name@, all_feeds@, spec_path_set(path@)) == Ok::<
                PlanSpec,
                FeedErrorSpec,
            >(lc@),
            Err(e) => spec_resolve(feed_name@, all_feeds@, spec_path_set(path@)) == Err::<
                PlanSpec,
                FeedErrorSpec,
            >(e@) || e@ is ExecutionError,
        },
        !spec_path_set(path@).contains(feed_name@) && spec_graph_lookup(all_feeds@, feed_name@)
            is None ==> (r matches Err(e) && e@ == (FeedErrorSpec::FeedNotFound {
            name: feed_name@,
        })),
        (r matches Err(e) && e@ is ExecutionError) ==> spec_reaches_scan(
            feed_name@,
            all_feeds@,
            spec_path_set(path@),
        ),
    decreases spec_graph_keys(all_feeds@).difference(spec_path_set(path@)).len(),
{
    proof {
        broadcast use seq_to_set_is_finite;

    }
    if path_contains(path, feed_name.as_str()) {
        return Err(FeedError::CyclicReference { name: feed_name.clone() });
    }
    let def = match all_feeds.get(feed_name.as_str()) {
        None => {
            return Err(FeedError::FeedNotFound { name: feed_name.clone() });
        },
        Some(d) => d,
    };
    proof {
        lemma_lookup_in_keys(all_feeds@, feed_name@);
        spec_graph_keys(all_feeds@).lemma_set_insert_diff_decreases(
            spec_path_set(path@),
            feed_name@,
        );
    }
    match def {
        FeedDefinition::File { format, source } => get_feed_from_file(
            format.as_str(),
            source.as_str(),
        ),
        FeedDefinition::Operation { feed_left, feed_right, operation, parameters } => {
            let extended = extend_path(path, feed_name);
            let left = match get_feed_from_config(feed_left, all_feeds, &extended) {
                Ok(lc) => lc,
                Err(e) => {
                    return Err(e);
                },
            };
            let right = match get_feed_from_config(feed_right, all_feeds, &extended) {
                Ok(lc) => lc,
                Err(e) => {
                    return Err(e);
                },
            };
            let ghost left_plan = left@;
            let ghost right_plan = right@;
            let result = get_feed_from_operation(left, right, operation, parameters);
            proof {
                lemma_apply_operation_err_kind(
                    left_plan,
                    right_plan,
                    opt_string_view(*operation),
                    parameters@,
                );
            }
            result
        },
        FeedDefinition::Filter { origin, filters } => {
            let extended = extend_path(path, feed_name);
            let base = match get_feed_from_config(origin, all_feeds, &extended) {
                Ok(lc) => lc,
                Err(e) => {
                    return Err(e);
                },
            };
            let ghost base_plan = base@;
            let result = get_feed_from_filters(base, filters);
            proof {
                lemma_apply_filters_err_kind(base_plan, fs_view_list(filters@));
            }
            result
        },
    }
}

/// Resolves `feed_name` against `all_feeds` into one lazy computation. A
/// name absent from the graph fails with `FeedNotFound`, whatever else the
/// graph holds, and an `ExecutionError` can come out only where the walk
/// hands a scan to the engine — on every other input the result is exactly
/// what [`spec_resolve`] gives.
pub fn get_feed(feed_name: &String, all_feeds: &FeedGraph) -> (r: Result<
    LazyComputation,
    FeedError,
>)
    ensures
        match r {
            Ok(lc) => spec_resolve(feed_name@, all_feeds@, Set::empty()) == Ok::<
                PlanSpec,
                FeedErrorSpec,
            >(lc@),
            Err(e) => spec_resolve(feed_name@, all_feeds@, Set::empty()) == Err::<
                PlanSpec,
                FeedErrorSpec,
            >(e@) || e@ is ExecutionError,
        },
        spec_graph_lookup(all_feeds@, feed_name@) is None ==> (r matches Err(e) && e@
            == (FeedErrorSpec::FeedNotFound { name: feed_name@ })),
        (r matches Err(e) && e@ is ExecutionError) ==> spec_reaches_scan(
            feed_name@,
            all_feeds@,
            Set::empty(),
        ),
{
    let path: Vec<String> = Vec::new();
    proof {
        assert(path@.map_values(|s: String| s@) =~= Seq::<Seq<char>>::empty());
        assert(spec_path_set(path@) =~= Set::<Seq<char>>::empty());
    }
    get_feed_from_config(feed_name, all_feeds, &path)
}

/// Resolves an ephemeral feed: the supplied definition is flattened,
/// decoded, and overlaid onto the persisted graph under `feed_name` for this
/// one resolution — a collision with a persisted entry is won by the
/// override, and nothing is ever written back to the persisted
/// configuration.
pub fn new_temporary_feed(feed_name: &String, params: &FeedParameters, all_feeds: FeedGraph) -> (r:
    Result<LazyComputation, FeedError>)
    ensures
        match spec_feed_params_map(params@) {
            Err(es) => (r matches Err(e) && e@ == es),
            Ok(bag) => match spec_decode_definition(ParamValueSpec::Obj { entries: bag }) {
                Err(es) => (r matches Err(e) && e@ == es),
                Ok(def) => match r {
                    Ok(lc) => spec_resolve(
                        feed_name@,
                        seq![(feed_name@, def)] + all_feeds@,
                        Set::empty(),
                    ) == Ok::<PlanSpec, FeedErrorSpec>(lc@),
                    Err(e) => (spec_resolve(
                        feed_name@,
                        seq![(feed_name@, def)] + all_feeds@,
                        Set::empty(),
                    ) == Err::<PlanSpec, FeedErrorSpec>(e@) || e@ is ExecutionError) && (e@
                        is ExecutionError ==> spec_reaches_scan(
                        feed_name@,
                        seq![(feed_name@, def)] + all_feeds@,
                        Set::empty(),
                    )),
                },
            },
        },
{
    let bag = match params.as_map() {
        Ok(b) => b,
        Err(e) => {
            return Err(e);
        },
    };
    let value = ParamValue::Obj(bag);
    let def = match decode_feed_definition(&value) {
        Ok(d) => d,
        Err(e) => {
            return Err(e);
        },
    };
    let overlay = insert_override(all_feeds, feed_name.clone(), def);
    get_feed(feed_name, &overlay)
}

} // verus!
