//! Laws of the resolution engine, stated over all inputs and proved once.

use vstd::prelude::*;

use crate::errors::FeedErrorSpec;
use crate::join::{spec_join_params, JoinRawParametersSpec};
use crate::model::{spec_graph_lookup, FeedDefinitionSpec};
use crate::plan::PlanSpec;
use crate::resolve::spec_resolve;

verus! {

/// Law: resolution is deterministic. For one graph and one feed name, two
/// resolutions yield the same outcome — structurally identical computation
/// plans on success, the same error on failure.
pub proof fn lemma_resolution_deterministic(
    name: Seq<char>,
    graph: Seq<(Seq<char>, FeedDefinitionSpec)>,
    r1: Result<PlanSpec, FeedErrorSpec>,
    r2: Result<PlanSpec, FeedErrorSpec>,
)
    requires
        r1 == spec_resolve(name, graph, Set::<Seq<char>>::empty()),
        r2 == spec_resolve(name, graph, Set::<Seq<char>>::empty()),
    ensures
        r1 == r2,
{
}

/// Law: resolving a name that the graph does not define fails with
/// `FeedNotFound`, whatever else the graph holds.
pub proof fn lemma_unknown_name(name: Seq<char>, graph: Seq<(Seq<char>, FeedDefinitionSpec)>)
    requires
        spec_graph_lookup(graph, name) is None,
    ensures
        spec_resolve(name, graph, Set::<Seq<char>>::empty()) == Err::<PlanSpec, FeedErrorSpec>(
            FeedErrorSpec::FeedNotFound { name },
        ),
{
    assert(Set::<Seq<char>>::empty().finite());
    assert(!Set::<Seq<char>>::empty().contains(name));
}

/// Law: join defaulting. A raw join parameter bag that sets only the four
/// key columns produces the same typed parameters as one that also names
/// every default explicitly — join type `inner`, validation `many_to_many`,
/// coalescing `join_specific`, `join_nulls` `false`, suffix `"_right"`.
pub proof fn lemma_join_defaulting(
    minimal: JoinRawParametersSpec,
    explicit: JoinRawParametersSpec,
)
    requires
        minimal.left_on == explicit.left_on,
        minimal.right_on == explicit.right_on,
        minimal.left_by == explicit.left_by,
        minimal.right_by == explicit.right_by,
        minimal.join_type is None,
        minimal.validation is None,
        minimal.coalesce is None,
        minimal.join_nulls is None,
        minimal.suffix is None,
        explicit.join_type == Some("inner"@),
        explicit.validation == Some("many_to_many"@),
        explicit.coalesce == Some("join_specific"@),
        explicit.join_nulls == Some(false),
        explicit.suffix == Some("_right"@),
    ensures
        spec_join_params(minimal) == spec_join_params(explicit),
{
    reveal_strlit("inner");
    reveal_strlit("left");
    reveal_strlit("right");
    reveal_strlit("full");
    reveal_strlit("cross");
    reveal_strlit("many_to_many");
    reveal_strlit("many_to_one");
    reveal_strlit("one_to_many");
    reveal_strlit("one_to_one");
    reveal_strlit("join_specific");
    reveal_strlit("keep_columns");
    reveal_strlit("coalesce_columns");
    reveal_strlit("_right");
    // The revealed literals settle every dispatch comparison: names of
    // different lengths differ, and the same-length pairs differ in their
    // first character.
    assert("many_to_many"@.len() == 12);
    assert("many_to_one"@.len() == 11);
    assert("one_to_many"@.len() == 11);
    assert("one_to_one"@.len() == 10);
    assert("many_to_many"@ != "many_to_one"@);
    assert("many_to_many"@ != "one_to_many"@);
    assert("many_to_many"@ != "one_to_one"@);
    assert("join_specific"@.len() == 13);
    assert("keep_columns"@.len() == 12);
    assert("coalesce_columns"@.len() == 16);
    assert("join_specific"@ != "keep_columns"@);
    assert("join_specific"@ != "coalesce_columns"@);
    assert("inner"@.len() == 5);
    assert("left"@.len() == 4);
    assert("right"@.len() == 5);
    assert("full"@.len() == 4);
    assert("cross"@.len() == 5);
    assert("inner"@[0] == 'i');
    assert("right"@[0] == 'r');
    assert("cross"@[0] == 'c');
    assert("inner"@ != "left"@);
    assert("inner"@ != "right"@);
    assert("inner"@ != "full"@);
    assert("inner"@ != "cross"@);
    assert(spec_join_params(minimal) == spec_join_params(explicit));
}

/// Law: ephemeral overlay isolation. Overlaying a definition under one name
/// makes every lookup of that name see the override, leaves every other
/// name's lookup exactly as in the underlying graph, and builds a new
/// mapping — the underlying graph itself is not changed by it.
pub proof fn lemma_overlay_isolation(
    graph: Seq<(Seq<char>, FeedDefinitionSpec)>,
    name: Seq<char>,
    definition: FeedDefinitionSpec,
    other: Seq<char>,
)
    requires
        other != name,
    ensures
        spec_graph_lookup(seq![(name, definition)] + graph, name) == Some(definition),
        spec_graph_lookup(seq![(name, definition)] + graph, other) == spec_graph_lookup(
            graph,
            other,
        ),
{
    let overlay = seq![(name, definition)] + graph;
    assert(overlay[0] == (name, definition));
    assert(overlay.drop_first() =~= graph);
}

} // verus!
