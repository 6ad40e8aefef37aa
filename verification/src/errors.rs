//! The error taxonomy of the query core.
//!
//! Lower layers never retry; only the dispatcher decides between retrying and
//! surfacing an error. Every failure is a typed value handed back to the
//! caller: the core never prints, logs, or exits.

use vstd::prelude::*;

verus! {

/// A transient transport fault. A later attempt against the same endpoint may
/// succeed, so the dispatcher retries these with backoff.
#[derive(Clone, Copy, Debug, PartialEq, Eq, Structural)]
pub enum TransportFault {
    /// The call did not complete within the per-call timeout.
    Timeout,
    /// The connection was refused or reset.
    Unreachable,
}

/// Why the decoder rejected a payload. Both are protocol failures: they signal
/// version skew or a bug, never a network blip, so they are never retried.
#[derive(Clone, Copy, Debug, PartialEq, Eq, Structural)]
pub enum DecodeError {
    /// The payload does not follow the wire schema.
    Malformed,
    /// The payload is well formed, but the variant the server declared
    /// disagrees with the variant the request asked for.
    VariantMismatch,
}

/// Every failure the query core can report to its caller.
#[derive(Clone, Copy, Debug, PartialEq, Eq, Structural)]
pub enum QueryError {
    /// The identifier handed in by the caller is not usable (it is empty).
    /// Surfaced immediately; no network call is made.
    InvalidIdentifier,
    /// Every candidate endpoint failed its liveness probes within the
    /// resolver's probe budget.
    NoReachableEndpoint,
    /// A single transport attempt timed out.
    TransportTimeout,
    /// A single transport attempt was refused or reset.
    TransportUnreachable,
    /// The response payload does not follow the wire schema.
    MalformedResponse,
    /// The response is well formed but answers the other query variant.
    VariantMismatch,
    /// The caller cancelled the query; propagated immediately, never retried.
    Cancelled,
    /// Every allowed attempt failed with a transient fault; carries the fault
    /// of the last attempt for diagnostics.
    QueryFailed {
        /// The transient fault the final attempt ended with.
        last_cause: TransportFault,
    },
}

impl QueryError {
    /// The error a single transient transport fault surfaces as.
    pub open spec fn spec_of_fault(fault: TransportFault) -> QueryError {
        match fault {
            TransportFault::Timeout => QueryError::TransportTimeout,
            TransportFault::Unreachable => QueryError::TransportUnreachable,
        }
    }

    /// Maps a transient transport fault to the error reported for one attempt.
    pub fn of_fault(fault: TransportFault) -> (e: QueryError)
        ensures
            e == QueryError::spec_of_fault(fault),
    {
        match fault {
            TransportFault::Timeout => QueryError::TransportTimeout,
            TransportFault::Unreachable => QueryError::TransportUnreachable,
        }
    }
}

} // verus!
