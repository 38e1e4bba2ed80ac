//! Repost workflow: given the number of an existing pull request, derive a
//! plan that materializes its changes on top of the current base branch and
//! publishes them as a new pull request with provenance metadata.
//!
//! The crate holds the decision logic only: the orchestrator is a state
//! machine that, one step at a time, names the next version-control or
//! hosting-platform operation to perform and consumes the result the caller
//! hands back. The caller (a thin command-line front end) performs the
//! actual clone/fetch/merge/push calls and the REST calls.

pub mod model;
pub mod text;
pub mod workflow;
