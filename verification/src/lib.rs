//! Query core for a remote ledger: resolve an endpoint, issue a typed query,
//! decode the answer, and retry transient transport faults with backoff.
//!
//! The command-line shell around this crate only gathers an identifier and a
//! query variant; everything that decides, parses or retries lives here, with
//! a contract. Network activity itself is handed in as data: the dispatcher
//! consumes the outcome of each transport attempt and is verified for every
//! possible sequence of outcomes.

pub mod codec;
pub mod commands;
pub mod dispatch;
pub mod errors;
pub mod identifier;
pub mod request;
pub mod resolver;
pub mod response;
pub mod retry;
