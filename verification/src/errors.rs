//! The error taxonomy of the feed resolution engine.
//!
//! Every failure inside resolution or materialization is reported through
//! [`FeedError`]; nothing in this library panics. Variants that concern a
//! misconfigured graph carry the offending name or field, so a caller can
//! report the problem without consulting server logs.

use vstd::prelude::*;

verus! {

/// Mathematical image of a [`FeedError`], used by all contracts.
pub enum FeedErrorSpec {
    /// The configuration document is structurally invalid; the payload names
    /// the key or shape that was violated.
    ConfigError { detail: Seq<char> },
    /// A referenced feed name is absent from the graph.
    FeedNotFound { name: Seq<char> },
    /// A file feed carries a format tag outside the recognized vocabulary.
    UnrecognizedFormat { format: Seq<char> },
    /// An operation feed names an operation outside the recognized vocabulary.
    UnknownOperation { operation: Seq<char> },
    /// A filter step names a filter outside the recognized vocabulary.
    UnknownFilter { filter: Seq<char> },
    /// A required field is absent from a parameter bag; `context` names the
    /// operation or filter that demanded it.
    MissingParameter { field: Seq<char>, context: Seq<char> },
    /// A type tag outside the recognized vocabulary.
    InvalidType { type_tag: Seq<char> },
    /// A value incompatible with its declared type tag; the payload names the
    /// offending field.
    InvalidValue { field: Seq<char> },
    /// The underlying execution engine failed while running a plan.
    ExecutionError { detail: Seq<char> },
    /// Resolution revisited a feed name already on the current resolution
    /// path; the graph is cyclic.
    CyclicReference { name: Seq<char> },
}

/// A failure of resolution, dispatch, coercion or materialization.
#[derive(Debug, PartialEq)]
pub enum FeedError {
    ConfigError { detail: String },
    FeedNotFound { name: String },
    UnrecognizedFormat { format: String },
    UnknownOperation { operation: String },
    UnknownFilter { filter: String },
    MissingParameter { field: String, context: String },
    InvalidType { type_tag: String },
    InvalidValue { field: String },
    ExecutionError { detail: String },
    CyclicReference { name: String },
}

impl View for FeedError {
    type V = FeedErrorSpec;

    open spec fn view(&self) -> FeedErrorSpec {
        match self {
            FeedError::ConfigError { detail } => FeedErrorSpec::ConfigError { detail: detail@ },
            FeedError::FeedNotFound { name } => FeedErrorSpec::FeedNotFound { name: name@ },
            FeedError::UnrecognizedFormat { format } => FeedErrorSpec::UnrecognizedFormat {
                format: format@,
            },
            FeedError::UnknownOperation { operation } => FeedErrorSpec::UnknownOperation {
                operation: operation@,
            },
            FeedError::UnknownFilter { filter } => FeedErrorSpec::UnknownFilter { filter: filter@ },
            FeedError::MissingParameter { field, context } => FeedErrorSpec::MissingParameter {
                field: field@,
                context: context@,
            },
            FeedError::InvalidType { type_tag } => FeedErrorSpec::InvalidType {
                type_tag: type_tag@,
            },
            FeedError::InvalidValue { field } => FeedErrorSpec::InvalidValue { field: field@ },
            FeedError::ExecutionError { detail } => FeedErrorSpec::ExecutionError {
                detail: detail@,
            },
            FeedError::CyclicReference { name } => FeedErrorSpec::CyclicReference { name: name@ },
        }
    }
}

} // verus!
