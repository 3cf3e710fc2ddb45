//! Support library for writing assertion-style tests against GraphQL
//! endpoints hosted by a web framework.
//!
//! The library models the GraphQL response envelope (`data` plus an
//! optional list of errors), the request arguments handed to a schema,
//! and the expected outcome of a test (status code, error messages,
//! typed data).  Its verified core decides, for a given expectation and
//! a given response, which single body read to perform and whether the
//! response matches the expectation.

mod request;
mod response;
mod verdict;

pub use request::Argument;
pub use request::Expected;
pub use response::GraphQLResponseError;
pub use response::GraphQLResponseReciever;
pub use verdict::data_missing;
pub use verdict::error_outcome;
pub use verdict::first_error_message;
pub use verdict::lemma_missing_expectation_is_fatal;
pub use verdict::lemma_plan_selects_branch;
pub use verdict::lemma_run_outcome_deterministic;
pub use verdict::messages_mismatch;
pub use verdict::plan_read;
pub use verdict::run_outcome;
pub use verdict::spec_first_error_message;
pub use verdict::spec_read_plan;
pub use verdict::success_outcome;
pub use verdict::validate_error_body;
pub use verdict::validate_success;
pub use verdict::Outcome;
pub use verdict::ReadPlan;
pub use verdict::STATUS_OK;
