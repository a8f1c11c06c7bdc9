//! Mirrors the repositories owned by a set of hosting-service accounts into a
//! local directory tree: the account name is resolved to a list of remote
//! repositories through the hosting provider's listing API, and each
//! repository is then cloned, pulled, skipped or overwritten according to the
//! local filesystem state and the operator's conflict policy.
//!
//! This crate holds the decision logic: input validation, the listing-endpoint
//! construction, the filtering of listed entries, and the per-repository state
//! machine that turns filesystem state and policy into the commands to run and
//! the outcome to report. Performing the network call, the subprocess and the
//! filesystem mutations is the caller's part; the planning functions here take
//! the observed results as plain values.

pub mod engine;
pub mod laws;
pub mod listing;
pub mod model;
pub mod provider;
pub mod text;
pub mod validate;
