//! A verified feed resolution engine.
//!
//! A *feed* is a named, declaratively configured tabular data pipeline: either
//! a raw columnar file source, a binary operation (a join) between two feeds,
//! or an ordered filter chain applied to one feed. Feeds reference each other
//! by name, forming a graph that is resolved, per request, into a single lazy
//! computation which the underlying tabular engine executes only on
//! materialization.
//!
//! This crate verifies the part with the real design decisions: the recursive
//! resolution of a feed name against the graph, the dispatch of operations and
//! filters from untyped parameter bags, the typed coercion of comparison
//! values, and the defaulting of join parameters. The lazy tabular engine
//! itself (scans, joins, aggregation, serialization) is an external
//! collaborator, driven through a small set of trusted wrappers; every plan
//! handed to it carries a ghost plan model, and the contracts pin that model
//! exactly.

use vstd::prelude::*;

pub mod coerce;
pub mod decode;
pub mod engine;
pub mod errors;
pub mod feed_params;
pub mod filter_ops;
pub mod filters;
pub mod join;
pub mod laws;
pub mod materialize;
pub mod model;
pub mod operations;
pub mod params;
pub mod plan;
pub mod resolve;
pub mod sources;

verus! {

} // verus!
