//! The query dispatcher: the orchestration core.
//!
//! One query runs as a sequence of transport attempts. The network work
//! itself happens outside this crate; the dispatcher is handed the outcome of
//! each attempt it is allowed to make, in order, and decides everything else:
//! whether to decode, retry with backoff, or fail. [`spec_run`] is the single
//! definition of what any outcome sequence must produce, and the executable
//! dispatcher returns exactly that, for every possible sequence — a transport
//! stub in a test is just one such sequence.
//!
//! Retry policy lives here alone: transient faults (timeout, unreachable)
//! are retried up to the policy's attempt count; decode failures and
//! cancellation surface immediately; the attempt count is never exceeded.

use vstd::prelude::*;

use crate::codec::{decode, decode_result_view, spec_decode};
use crate::errors::{DecodeError, QueryError, TransportFault};
use crate::request::{QueryRequest, VariantTag};
use crate::resolver::{resolve, spec_chosen_index, Endpoint, ResolverConfig};
use crate::response::{QueryResponse, ResponseView};
use crate::retry::{
    add_sat, jittered_delay, spec_add_sat, spec_jittered_delay, RetryPolicy, RetryState,
};

verus! {

/// What one transport attempt ended with. Produced outside this crate by the
/// transport layer, which makes single attempts and never retries.
#[derive(Clone, Debug, PartialEq, Eq)]
pub enum SendOutcome {
    /// The endpoint answered with these raw payload bytes.
    Delivered(Vec<u8>),
    /// The attempt did not complete within the per-call timeout.
    Timeout,
    /// The connection was refused or reset.
    Unreachable,
    /// The caller's cancellation signal aborted the attempt.
    Cancelled,
}

/// The mathematical value of a [`SendOutcome`].
pub enum SendOutcomeView {
    /// The endpoint answered with these raw payload bytes.
    Delivered(Seq<u8>),
    /// The attempt did not complete within the per-call timeout.
    Timeout,
    /// The connection was refused or reset.
    Unreachable,
    /// The caller's cancellation signal aborted the attempt.
    Cancelled,
}

impl View for SendOutcome {
    type V = SendOutcomeView;

    open spec fn view(&self) -> SendOutcomeView {
        match self {
            SendOutcome::Delivered(bytes) => SendOutcomeView::Delivered(bytes@),
            SendOutcome::Timeout => SendOutcomeView::Timeout,
            SendOutcome::Unreachable => SendOutcomeView::Unreachable,
            SendOutcome::Cancelled => SendOutcomeView::Cancelled,
        }
    }
}

/// The outcome a transient fault shows up as.
pub open spec fn spec_outcome_of_fault(fault: TransportFault) -> SendOutcomeView {
    match fault {
        TransportFault::Timeout => SendOutcomeView::Timeout,
        TransportFault::Unreachable => SendOutcomeView::Unreachable,
    }
}

/// The views of a sequence of transport outcomes.
pub open spec fn outcomes_view(s: Seq<SendOutcome>) -> Seq<SendOutcomeView> {
    s.map_values(|o: SendOutcome| o@)
}

/// A run result with the response replaced by its mathematical value.
pub open spec fn run_result_view(r: Result<QueryResponse, QueryError>) -> Result<
    ResponseView,
    QueryError,
> {
    match r {
        Ok(resp) => Ok(resp@),
        Err(e) => Err(e),
    }
}

/// What a query must produce, given the outcome of every attempt it could
/// make: the result, and how many attempts were consumed.
///
/// Starting at `attempt`, with `max` attempts allowed in all:
/// a delivered payload is decoded and its value or decode error surfaces at
/// once (decode failures are never retried); cancellation surfaces at once;
/// a transient fault is retried until the attempt count is exhausted, and
/// then fails with [`QueryError::QueryFailed`] carrying the last fault.
pub open spec fn spec_run(
    expected: VariantTag,
    outcomes: Seq<SendOutcomeView>,
    max: int,
    attempt: int,
) -> (Result<ResponseView, QueryError>, int)
    decreases max - attempt,
{
    if attempt < 0 || attempt >= max {
        (Err(QueryError::Cancelled), attempt)
    } else {
        match outcomes[attempt] {
            SendOutcomeView::Delivered(bytes) => (
                match spec_decode(bytes, expected) {
                    Ok(v) => (Ok(v), attempt + 1),
                    Err(DecodeError::Malformed) => (
                        Err(QueryError::MalformedResponse),
                        attempt + 1,
                    ),
                    Err(DecodeError::VariantMismatch) => (
                        Err(QueryError::VariantMismatch),
                        attempt + 1,
                    ),
                }
            ),
            SendOutcomeView::Cancelled => (Err(QueryError::Cancelled), attempt + 1),
            SendOutcomeView::Timeout => (
                if attempt + 1 >= max {
                    (
                        Err(
                            QueryError::QueryFailed { last_cause: TransportFault::Timeout },
                        ),
                        max,
                    )
                } else {
                    spec_run(expected, outcomes, max, attempt + 1)
                }
            ),
            SendOutcomeView::Unreachable => (
                if attempt + 1 >= max {
                    (
                        Err(
                            QueryError::QueryFailed { last_cause: TransportFault::Unreachable },
                        ),
                        max,
                    )
                } else {
                    spec_run(expected, outcomes, max, attempt + 1)
                }
            ),
        }
    }
}

/// The total backoff charged after `k` retries: the saturating sum of the
/// jittered delays of retries `0 .. k`.
pub open spec fn spec_backoff_total(base: u64, cap: u64, jitters: Seq<u64>, k: int) -> u64
    decreases k,
{
    if k <= 0 {
        0
    } else {
        spec_add_sat(
            spec_backoff_total(base, cap, jitters, k - 1),
            spec_jittered_delay(base, cap, (k - 1) as nat, jitters[k - 1]) as u64,
        )
    }
}

/// Runs the attempts of one query against the given outcome sequence and
/// decodes on delivery, exactly as [`spec_run`] prescribes, charging jittered
/// backoff between attempts. Every query consumes at least one attempt and
/// never more than the policy allows.
pub fn run_attempts(
    expected: VariantTag,
    policy: &RetryPolicy,
    outcomes: &Vec<SendOutcome>,
    jitters: &Vec<u64>,
) -> (r: (Result<QueryResponse, QueryError>, RetryState))
    requires
        policy.wf(),
        outcomes@.len() >= policy.max_attempts,
        jitters@.len() >= policy.max_attempts,
    ensures
        run_result_view(r.0) == spec_run(
            expected,
            outcomes_view(outcomes@),
            policy.max_attempts as int,
            0,
        ).0,
        r.1.attempts as int == spec_run(
            expected,
            outcomes_view(outcomes@),
            policy.max_attempts as int,
            0,
        ).1,
        1 <= r.1.attempts <= policy.max_attempts,
        r.1.backoff_total_ms == spec_backoff_total(
            policy.base_delay_ms,
            policy.max_delay_ms,
            jitters@,
            r.1.attempts - 1,
        ),
{
    let ghost ov = outcomes_view(outcomes@);
    let max = policy.max_attempts;
    let mut attempt: usize = 0;
    let mut elapsed: u64 = 0;
    loop
        invariant
            policy.wf(),
            max == policy.max_attempts,
            outcomes@.len() >= max,
            jitters@.len() >= max,
            ov == outcomes_view(outcomes@),
            0 <= attempt < max,
            spec_run(expected, ov, max as int, 0) == spec_run(expected, ov, max as int, attempt as int),
            elapsed == spec_backoff_total(
                policy.base_delay_ms,
                policy.max_delay_ms,
                jitters@,
                attempt as int,
            ),
        decreases max - attempt,
    {
        proof {
            assert(ov[attempt as int] == outcomes@[attempt as int]@);
        }
        let fault = match &outcomes[attempt] {
            SendOutcome::Delivered(bytes) => {
                let res = match decode(bytes, expected) {
                    Ok(resp) => Ok(resp),
                    Err(DecodeError::Malformed) => Err(QueryError::MalformedResponse),
                    Err(DecodeError::VariantMismatch) => Err(QueryError::VariantMismatch),
                };
                return (
                    res,
                    RetryState { attempts: attempt + 1, backoff_total_ms: elapsed },
                );
            },
            SendOutcome::Cancelled => {
                return (
                    Err(QueryError::Cancelled),
                    RetryState { attempts: attempt + 1, backoff_total_ms: elapsed },
                );
            },
            SendOutcome::Timeout => TransportFault::Timeout,
            SendOutcome::Unreachable => TransportFault::Unreachable,
        };
        if attempt + 1 == max {
            return (
                Err(QueryError::QueryFailed { last_cause: fault }),
                RetryState { attempts: max, backoff_total_ms: elapsed },
            );
        }
        let delay = jittered_delay(policy, attempt, jitters[attempt]);
        elapsed = add_sat(elapsed, delay);
        attempt = attempt + 1;
    }
}

/// A query that gets an answer always gets an answer to its own question:
/// whenever a run succeeds, the response carries the variant tag of the
/// request, whatever the outcome sequence was.
pub proof fn lemma_run_success_matches_request(
    expected: VariantTag,
    outcomes: Seq<SendOutcomeView>,
    max: int,
    attempt: int,
)
    requires
        0 <= attempt < max <= outcomes.len(),
    ensures
        spec_run(expected, outcomes, max, attempt).0 matches Ok(v) ==> v.tag() == expected,
    decreases max - attempt,
{
    match outcomes[attempt] {
        SendOutcomeView::Delivered(bytes) => {
            crate::codec::lemma_decode_tag_sound(bytes, expected);
        },
        SendOutcomeView::Timeout => {
            if attempt + 1 < max {
                lemma_run_success_matches_request(expected, outcomes, max, attempt + 1);
            }
        },
        SendOutcomeView::Unreachable => {
            if attempt + 1 < max {
                lemma_run_success_matches_request(expected, outcomes, max, attempt + 1);
            }
        },
        SendOutcomeView::Cancelled => {},
    }
}

/// Against a transport that answers the first attempt with a payload that
/// decodes for the requested variant, a run succeeds on that first attempt
/// with the decoded value — which carries the request's own variant tag.
pub proof fn lemma_matching_stub_succeeds(
    expected: VariantTag,
    outcomes: Seq<SendOutcomeView>,
    max: int,
)
    requires
        1 <= max <= outcomes.len(),
        outcomes[0] matches SendOutcomeView::Delivered(b) && spec_decode(b, expected) is Ok,
    ensures
        spec_run(expected, outcomes, max, 0).0 matches Ok(v) && v.tag() == expected,
        spec_run(expected, outcomes, max, 0).1 == 1,
{
    lemma_run_success_matches_request(expected, outcomes, max, 0);
}

/// When every remaining attempt fails with the same transient fault, the run
/// fails with [`QueryError::QueryFailed`] carrying that fault, and consumes
/// exactly the allowed attempt count — never more, never fewer.
pub proof fn lemma_exhaustion_uses_every_attempt(
    expected: VariantTag,
    outcomes: Seq<SendOutcomeView>,
    max: int,
    attempt: int,
    fault: TransportFault,
)
    requires
        0 <= attempt < max <= outcomes.len(),
        forall|i: int| attempt <= i < max ==> outcomes[i] == spec_outcome_of_fault(fault),
    ensures
        spec_run(expected, outcomes, max, attempt) == (
            Err::<ResponseView, QueryError>(QueryError::QueryFailed { last_cause: fault }),
            max,
        ),
    decreases max - attempt,
{
    assert(outcomes[attempt] == spec_outcome_of_fault(fault));
    if attempt + 1 < max {
        lemma_exhaustion_uses_every_attempt(expected, outcomes, max, attempt + 1, fault);
    }
}

/// A cancellation surfaces as soon as it is seen: if the attempts before it
/// all failed transiently and attempt `k` was cancelled, the run ends at
/// attempt `k` with [`QueryError::Cancelled`] — it is never retried.
pub proof fn lemma_cancellation_propagates(
    expected: VariantTag,
    outcomes: Seq<SendOutcomeView>,
    max: int,
    attempt: int,
    k: int,
)
    requires
        0 <= attempt <= k < max <= outcomes.len(),
        forall|i: int|
            attempt <= i < k ==> (outcomes[i] is Timeout || outcomes[i] is Unreachable),
        outcomes[k] is Cancelled,
    ensures
        spec_run(expected, outcomes, max, attempt) == (
            Err::<ResponseView, QueryError>(QueryError::Cancelled),
            k + 1,
        ),
    decreases k - attempt,
{
    if attempt < k {
        lemma_cancellation_propagates(expected, outcomes, max, attempt + 1, k);
    }
}

/// A run consumes at least one attempt and never exceeds the allowed count.
pub proof fn lemma_attempt_count_bounded(
    expected: VariantTag,
    outcomes: Seq<SendOutcomeView>,
    max: int,
    attempt: int,
)
    requires
        0 <= attempt < max <= outcomes.len(),
    ensures
        attempt < spec_run(expected, outcomes, max, attempt).1 <= max,
    decreases max - attempt,
{
    match outcomes[attempt] {
        SendOutcomeView::Timeout => {
            if attempt + 1 < max {
                lemma_attempt_count_bounded(expected, outcomes, max, attempt + 1);
            }
        },
        SendOutcomeView::Unreachable => {
            if attempt + 1 < max {
                lemma_attempt_count_bounded(expected, outcomes, max, attempt + 1);
            }
        },
        _ => {},
    }
}

/// What one finished query reports: the result, the retry bookkeeping, and
/// the endpoint the attempts were addressed to, if resolution got that far.
pub struct QueryRun {
    /// The decoded response, or the failure the query ended with.
    pub outcome: Result<QueryResponse, QueryError>,
    /// How many attempts were made and how much backoff was charged.
    pub retry: RetryState,
    /// The endpoint used, when resolution succeeded or a cached one was used.
    pub endpoint: Option<Endpoint>,
}

/// The orchestration core: owns the resolver configuration and retry policy,
/// plus the one piece of state that survives between queries — the optionally
/// cached endpoint.
pub struct Dispatcher {
    /// How endpoints are resolved.
    pub resolver_config: ResolverConfig,
    /// How transient faults are retried.
    pub policy: RetryPolicy,
    /// The endpoint kept from an earlier query, until a failure invalidates
    /// it.
    pub cached_endpoint: Option<Endpoint>,
}

impl Dispatcher {
    /// A usable dispatcher has a usable resolver configuration and policy.
    pub open spec fn wf(self) -> bool {
        self.resolver_config.wf() && self.policy.wf()
    }

    /// The view of the endpoint a query uses: the cached one if present,
    /// otherwise the candidate the resolver must choose.
    pub open spec fn spec_used_endpoint(self, pview: Seq<Seq<bool>>) -> (Seq<char>, u16) {
        match self.cached_endpoint {
            Some(e) => e@,
            None => self.resolver_config.candidates@[
                spec_chosen_index(self.resolver_config, pview)->Some_0
            ]@,
        }
    }

    /// Whether a query can reach the transport at all: an endpoint is cached,
    /// or the resolver finds a healthy candidate.
    pub open spec fn spec_has_endpoint(self, pview: Seq<Seq<bool>>) -> bool {
        self.cached_endpoint is Some || spec_chosen_index(self.resolver_config, pview) is Some
    }

    /// Builds a dispatcher with no cached endpoint.
    pub fn new(resolver_config: ResolverConfig, policy: RetryPolicy) -> (d: Dispatcher)
        requires
            resolver_config.wf(),
            policy.wf(),
        ensures
            d.resolver_config == resolver_config,
            d.policy == policy,
            d.cached_endpoint is None,
            d.wf(),
    {
        Dispatcher { resolver_config, policy, cached_endpoint: None }
    }

    /// Executes one query: validates the request, resolves an endpoint
    /// (unless one is cached), runs the attempts as [`spec_run`] prescribes,
    /// and settles the cache.
    ///
    /// `probes[i][j]` is the outcome of liveness probe `j` of candidate `i`;
    /// `outcomes[k]` is what transport attempt `k` ended with; `jitters[k]`
    /// is the jitter drawn for the backoff after attempt `k`. An ill-formed
    /// request fails immediately with [`QueryError::InvalidIdentifier`] and
    /// zero attempts; failed resolution fails with
    /// [`QueryError::NoReachableEndpoint`] and zero attempts; otherwise the
    /// result is exactly [`spec_run`] over the outcomes. The cache is
    /// invalidated by retry exhaustion, kept empty by failed resolution, and
    /// otherwise left holding the endpoint the query used.
    pub fn execute(
        &mut self,
        req: &QueryRequest,
        probes: &Vec<Vec<bool>>,
        outcomes: &Vec<SendOutcome>,
        jitters: &Vec<u64>,
    ) -> (run: QueryRun)
        requires
            old(self).wf(),
            probes@.len() == old(self).resolver_config.candidates@.len(),
            outcomes@.len() >= old(self).policy.max_attempts,
            jitters@.len() >= old(self).policy.max_attempts,
        ensures
            final(self).resolver_config == old(self).resolver_config,
            final(self).policy == old(self).policy,
            final(self).wf(),
            !req.wf() ==> {
                &&& run.outcome == Err::<QueryResponse, QueryError>(QueryError::InvalidIdentifier)
                &&& run.retry == (RetryState { attempts: 0, backoff_total_ms: 0 })
                &&& run.endpoint is None
                &&& final(self).cached_endpoint == old(self).cached_endpoint
            },
            (req.wf() && !old(self).spec_has_endpoint(probes@.map_values(|p: Vec<bool>| p@)))
                ==> {
                &&& run.outcome == Err::<QueryResponse, QueryError>(QueryError::NoReachableEndpoint)
                &&& run.retry == (RetryState { attempts: 0, backoff_total_ms: 0 })
                &&& run.endpoint is None
                &&& final(self).cached_endpoint is None
            },
            (req.wf() && old(self).spec_has_endpoint(probes@.map_values(|p: Vec<bool>| p@)))
                ==> {
                &&& run_result_view(run.outcome) == spec_run(
                    req.spec_tag(),
                    outcomes_view(outcomes@),
                    old(self).policy.max_attempts as int,
                    0,
                ).0
                &&& run.retry.attempts as int == spec_run(
                    req.spec_tag(),
                    outcomes_view(outcomes@),
                    old(self).policy.max_attempts as int,
                    0,
                ).1
                &&& 1 <= run.retry.attempts <= old(self).policy.max_attempts
                &&& run.retry.backoff_total_ms == spec_backoff_total(
                    old(self).policy.base_delay_ms,
                    old(self).policy.max_delay_ms,
                    jitters@,
                    run.retry.attempts - 1,
                )
                &&& (run.endpoint matches Some(e) && e@ == old(self).spec_used_endpoint(
                    probes@.map_values(|p: Vec<bool>| p@),
                ))
                &&& (run.outcome matches Err(QueryError::QueryFailed { .. })
                    ==> final(self).cached_endpoint is None)
                &&& (!(run.outcome matches Err(QueryError::QueryFailed { .. })) ==> (
                    final(self).cached_endpoint matches Some(e) && e@ == old(
                        self,
                    ).spec_used_endpoint(probes@.map_values(|p: Vec<bool>| p@))))
            },
    {
        if !req.is_wf() {
            return QueryRun {
                outcome: Err(QueryError::InvalidIdentifier),
                retry: RetryState { attempts: 0, backoff_total_ms: 0 },
                endpoint: None,
            };
        }
        let endpoint = match &self.cached_endpoint {
            Some(e) => e.duplicate(),
            None => {
                match resolve(&self.resolver_config, probes) {
                    Ok(e) => e,
                    Err(err) => {
                        self.cached_endpoint = None;
                        return QueryRun {
                            outcome: Err(err),
                            retry: RetryState { attempts: 0, backoff_total_ms: 0 },
                            endpoint: None,
                        };
                    },
                }
            },
        };
        let (outcome, retry) = run_attempts(req.tag(), &self.policy, outcomes, jitters);
        let exhausted = match &outcome {
            Err(QueryError::QueryFailed { .. }) => true,
            _ => false,
        };
        if exhausted {
            self.cached_endpoint = None;
        } else {
            self.cached_endpoint = Some(endpoint.duplicate());
        }
        QueryRun { outcome, retry, endpoint: Some(endpoint) }
    }
}

} // verus!
