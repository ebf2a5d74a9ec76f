//! The feed definition model and the feed graph.
//!
//! A feed graph maps feed names to feed definitions. A definition is one of:
//! a raw columnar file source, a binary operation between two named feeds, or
//! an ordered filter chain applied to one named feed. Lookup returns the
//! first entry with a matching name, so overlaying an ephemeral definition is
//! insertion at the front.

use vstd::prelude::*;

use crate::params::{pe_view_list, str_eq, ParamBag, ParamValueSpec};

verus! {

/// Mathematical image of a [`FilterStep`].
pub struct FilterStepSpec {
    pub filter_name: Seq<char>,
    pub parameters: Option<Seq<(Seq<char>, ParamValueSpec)>>,
}

/// One step of a filter chain: a filter name and its parameter bag. A step
/// may omit the bag; a filter that requires parameters then fails with
/// `MissingParameter`.
#[derive(Debug)]
pub struct FilterStep {
    pub filter_name: String,
    pub parameters: Option<ParamBag>,
}

/// Mathematical image of a [`FeedDefinition`].
pub enum FeedDefinitionSpec {
    File { format: Seq<char>, source: Seq<char> },
    Operation {
        feed_left: Seq<char>,
        feed_right: Seq<char>,
        operation: Option<Seq<char>>,
        parameters: Seq<(Seq<char>, ParamValueSpec)>,
    },
    Filter { origin: Seq<char>, filters: Seq<FilterStepSpec> },
}

/// A feed definition: the tagged variant stored under one feed name.
#[derive(Debug)]
pub enum FeedDefinition {
    /// A raw columnar file source. The format tag is interpreted at
    /// resolution time; an unrecognized tag fails then.
    File { format: String, source: String },
    /// A binary operation between two named feeds. An absent operation name
    /// selects the historical default join. An absent parameter bag was
    /// replaced by an empty one when the definition was decoded.
    Operation {
        feed_left: String,
        feed_right: String,
        operation: Option<String>,
        parameters: ParamBag,
    },
    /// An ordered filter chain over one named feed.
    Filter { origin: String, filters: Vec<FilterStep> },
}

/// One named entry of a [`FeedGraph`].
#[derive(Debug)]
pub struct FeedEntry {
    pub name: String,
    pub definition: FeedDefinition,
}

/// The full mapping from feed name to feed definition that one resolution
/// runs against. Lookup returns the first entry with a matching name.
#[derive(Debug)]
pub struct FeedGraph {
    pub entries: Vec<FeedEntry>,
}

impl View for FilterStep {
    type V = FilterStepSpec;

    open spec fn view(&self) -> FilterStepSpec {
        FilterStepSpec {
            filter_name: self.filter_name@,
            parameters: match self.parameters {
                Some(bag) => Some(pe_view_list(bag.entries@)),
                None => None,
            },
        }
    }
}

/// Pointwise image of a sequence of filter steps.
pub open spec fn fs_view_list(s: Seq<FilterStep>) -> Seq<FilterStepSpec>
    decreases s,
{
    if s.len() == 0 {
        Seq::empty()
    } else {
        seq![s[0]@] + fs_view_list(s.drop_first())
    }
}

pub proof fn lemma_fs_view_list(s: Seq<FilterStep>)
    ensures
        fs_view_list(s).len() == s.len(),
        forall|i: int| 0 <= i < s.len() ==> fs_view_list(s)[i] == s[i]@,
    decreases s.len(),
{
    if s.len() > 0 {
        lemma_fs_view_list(s.drop_first());
        assert forall|i: int| 0 <= i < s.len() implies fs_view_list(s)[i] == s[i]@ by {
            if i > 0 {
                assert(s.drop_first()[i - 1] == s[i]);
            }
        }
    }
}

/// The view of an optional name.
pub open spec fn opt_string_view(o: Option<String>) -> Option<Seq<char>> {
    match o {
        Some(s) => Some(s@),
        None => None,
    }
}

impl View for FeedDefinition {
    type V = FeedDefinitionSpec;

    open spec fn view(&self) -> FeedDefinitionSpec {
        match self {
            FeedDefinition::File { format, source } => FeedDefinitionSpec::File {
                format: format@,
                source: source@,
            },
            FeedDefinition::Operation { feed_left, feed_right, operation, parameters } => {
                FeedDefinitionSpec::Operation {
                    feed_left: feed_left@,
                    feed_right: feed_right@,
                    operation: opt_string_view(*operation),
                    parameters: parameters@,
                }
            },
            FeedDefinition::Filter { origin, filters } => FeedDefinitionSpec::Filter {
                origin: origin@,
                filters: fs_view_list(filters@),
            },
        }
    }
}

impl View for FeedEntry {
    type V = (Seq<char>, FeedDefinitionSpec);

    open spec fn view(&self) -> (Seq<char>, FeedDefinitionSpec) {
        (self.name@, self.definition@)
    }
}

/// Pointwise image of a sequence of graph entries.
pub open spec fn ge_view_list(s: Seq<FeedEntry>) -> Seq<(Seq<char>, FeedDefinitionSpec)>
    decreases s,
{
    if s.len() == 0 {
        Seq::empty()
    } else {
        seq![s[0]@] + ge_view_list(s.drop_first())
    }
}

pub proof fn lemma_ge_view_list(s: Seq<FeedEntry>)
    ensures
        ge_view_list(s).len() == s.len(),
        forall|i: int| 0 <= i < s.len() ==> ge_view_list(s)[i] == s[i]@,
    decreases s.len(),
{
    if s.len() > 0 {
        lemma_ge_view_list(s.drop_first());
        assert forall|i: int| 0 <= i < s.len() implies ge_view_list(s)[i] == s[i]@ by {
            if i > 0 {
                assert(s.drop_first()[i - 1] == s[i]);
            }
        }
    }
}

impl View for FeedGraph {
    type V = Seq<(Seq<char>, FeedDefinitionSpec)>;

    open spec fn view(&self) -> Seq<(Seq<char>, FeedDefinitionSpec)> {
        ge_view_list(self.entries@)
    }
}

/// First definition stored under `name`, if any.
pub open spec fn spec_graph_lookup(
    entries: Seq<(Seq<char>, FeedDefinitionSpec)>,
    name: Seq<char>,
) -> Option<FeedDefinitionSpec>
    decreases entries.len(),
{
    if entries.len() == 0 {
        None
    } else if entries[0].0 == name {
        Some(entries[0].1)
    } else {
        spec_graph_lookup(entries.drop_first(), name)
    }
}

/// The set of names the graph defines.
pub open spec fn spec_graph_keys(entries: Seq<(Seq<char>, FeedDefinitionSpec)>) -> Set<Seq<char>> {
    entries.map_values(|e: (Seq<char>, FeedDefinitionSpec)| e.0).to_set()
}

/// A defined name is a graph key.
pub proof fn lemma_lookup_in_keys(entries: Seq<(Seq<char>, FeedDefinitionSpec)>, name: Seq<char>)
    requires
        spec_graph_lookup(entries, name) is Some,
    ensures
        spec_graph_keys(entries).contains(name),
    decreases entries.len(),
{
    if entries.len() > 0 {
        if entries[0].0 == name {
            assert(entries.map_values(|e: (Seq<char>, FeedDefinitionSpec)| e.0)[0] == name);
        } else {
            lemma_lookup_in_keys(entries.drop_first(), name);
            let keys = entries.drop_first().map_values(|e: (Seq<char>, FeedDefinitionSpec)| e.0);
            let i = choose|i: int| 0 <= i < keys.len() && keys[i] == name;
            assert(entries.map_values(|e: (Seq<char>, FeedDefinitionSpec)| e.0)[i + 1] == name);
        }
    }
}

impl FeedGraph {
    /// A graph with no entries.
    pub fn empty() -> (r: FeedGraph)
        ensures
            r@ == Seq::<(Seq<char>, FeedDefinitionSpec)>::empty(),
    {
        let graph = FeedGraph { entries: Vec::new() };
        proof {
            assert(graph@ =~= Seq::<(Seq<char>, FeedDefinitionSpec)>::empty());
        }
        graph
    }

    /// Appends one named definition at the end of the graph.
    pub fn push(&mut self, name: String, definition: FeedDefinition)
        ensures
            final(self)@ == old(self)@.push((name@, definition@)),
    {
        let ghost old_entries = self.entries@;
        let ghost k = name@;
        let ghost d = definition@;
        self.entries.push(FeedEntry { name, definition });
        proof {
            lemma_ge_view_list(old_entries);
            lemma_ge_view_list(self.entries@);
            assert(self@ =~= ge_view_list(old_entries).push((k, d)));
        }
    }

    /// First definition stored under `name`, if any.
    pub fn get(&self, name: &str) -> (r: Option<&FeedDefinition>)
        ensures
            match r {
                Some(d) => spec_graph_lookup(self@, name@) == Some(d@),
                None => spec_graph_lookup(self@, name@) is None,
            },
    {
        proof {
            lemma_ge_view_list(self.entries@);
            assert(self@.skip(0) =~= self@);
        }
        let n: usize = self.entries.len();
        let mut i: usize = 0;
        while i < n
            invariant
                0 <= i <= n,
                n == self.entries.len(),
                self@ == ge_view_list(self.entries@),
                self@.len() == n,
                forall|j: int| 0 <= j < n ==> self@[j] == (
                    self.entries@[j].name@,
                    self.entries@[j].definition@,
                ),
                spec_graph_lookup(self@, name@) == spec_graph_lookup(self@.skip(i as int), name@),
            decreases n - i,
        {
            if str_eq(self.entries[i].name.as_str(), name) {
                proof {
                    assert(self@.skip(i as int)[0] == self@[i as int]);
                }
                return Some(&self.entries[i].definition);
            }
            proof {
                assert(self@.skip(i as int)[0] == self@[i as int]);
                assert(self@.skip(i as int).drop_first() =~= self@.skip(i + 1));
            }
            i = i + 1;
        }
        proof {
            assert(self@.skip(n as int) =~= Seq::<(Seq<char>, FeedDefinitionSpec)>::empty());
        }
        None
    }
}

/// Overlays one ad-hoc definition onto a graph: the result is the given
/// graph plus one entry for `name`, and the new entry wins every lookup of
/// `name` while every other name resolves as before. The persisted
/// configuration the graph was built from is never written back.
pub fn insert_override(graph: FeedGraph, name: String, definition: FeedDefinition) -> (r: FeedGraph)
    ensures
        r@ == seq![(name@, definition@)] + graph@,
        spec_graph_lookup(r@, name@) == Some(definition@),
        forall|other: Seq<char>| other != name@ ==> spec_graph_lookup(r@, other)
            == spec_graph_lookup(graph@, other),
{
    let ghost old_entries = graph.entries@;
    let ghost k = name@;
    let ghost d = definition@;
    let mut graph = graph;
    graph.entries.insert(0, FeedEntry { name, definition });
    proof {
        lemma_ge_view_list(old_entries);
        lemma_ge_view_list(graph.entries@);
        assert(graph@ =~= seq![(k, d)] + ge_view_list(old_entries));
        assert(graph@.drop_first() =~= ge_view_list(old_entries));
    }
    graph
}

} // verus!
