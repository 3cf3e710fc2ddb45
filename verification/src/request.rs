//! The request arguments handed to a GraphQL schema and the expected
//! outcome of one test invocation.

use vstd::prelude::*;

verus! {

/// The arguments passed to a GraphQL schema: HTTP headers and a payload.
/// Constructed fresh per test; immutable once handed to the orchestrator.
pub struct Argument {
    /// A vector of header tuples, each a pair of strings (name, value).
    pub headers: Vec<(String, String)>,
    /// A string GraphQL payload, typically a query or mutation document.
    pub payload: String,
}

/// The expected output of a GraphQL schema under test: an HTTP status
/// code, an optional vector of error messages, and optional typed data.
/// Consumed once; never mutated.
pub struct Expected<V> {
    /// The expected HTTP status code.
    pub status: u16,
    /// An optional vector of expected error messages.  On the success
    /// path these must equal the `message` fields of the response
    /// envelope's error list, in order; on the error path only the first
    /// entry is compared, against the raw response body.
    pub errmsg: Option<Vec<String>>,
    /// Optional expected data of the struct's type parameter.  Absence
    /// means "don't care", not "expect absent".
    pub data: Option<V>,
}

} // verus!
