use gorc::commands::{Balance, Cosmos, GravityKeys};
use gorc::dispatch::{run_attempts, Dispatcher, SendOutcome};
use gorc::errors::{QueryError, TransportFault};
use gorc::identifier::AccountIdentifier;
use gorc::request::{QueryRequest, VariantTag};
use gorc::resolver::{resolve, Endpoint, ResolverConfig, SelectionPolicy};
use gorc::response::QueryResponse;
use gorc::retry::{capped_delay, jittered_delay, RetryPolicy};

fn test_policy(max_attempts: usize) -> RetryPolicy {
    RetryPolicy { max_attempts, base_delay_ms: 100, max_delay_ms: 1_000 }
}

fn test_resolver_config() -> ResolverConfig {
    ResolverConfig {
        candidates: vec![
            Endpoint { host: String::from("node-a.example"), port: 26657 },
            Endpoint { host: String::from("node-b.example"), port: 26657 },
        ],
        policy: SelectionPolicy::FirstHealthy,
        max_probes_per_candidate: 2,
    }
}

fn balance_payload(denom: &[u8], amount: u64) -> Vec<u8> {
    let mut bytes = vec![1u8, denom.len() as u8];
    bytes.extend_from_slice(denom);
    bytes.extend_from_slice(&amount.to_be_bytes());
    bytes
}

fn pad_outcomes(mut outcomes: Vec<SendOutcome>, max: usize) -> Vec<SendOutcome> {
    while outcomes.len() < max {
        outcomes.push(SendOutcome::Timeout);
    }
    outcomes
}

#[test]
fn balance_scenario_returns_decoded_balance() {
    let request = QueryRequest::BalanceRequest(
        AccountIdentifier::new(String::from("cosmosvaloper1abc")).unwrap(),
    );
    let mut dispatcher = Dispatcher::new(test_resolver_config(), test_policy(3));
    let probes = vec![vec![true, true], vec![true, true]];
    let outcomes = pad_outcomes(
        vec![SendOutcome::Delivered(balance_payload(b"uatom", 1_500_000))],
        3,
    );
    let jitters = vec![0, 0, 0];
    let run = dispatcher.execute(&request, &probes, &outcomes, &jitters);
    assert_eq!(
        run.outcome.unwrap(),
        QueryResponse::Balance { denom: b"uatom".to_vec(), amount: 1_500_000 }
    );
    assert_eq!(run.retry.attempts, 1);
    assert_eq!(run.retry.backoff_total_ms, 0);
    assert_eq!(run.endpoint.unwrap().host, "node-a.example");
}

#[test]
fn empty_identifier_fails_without_network_calls() {
    let request = QueryRequest::BalanceRequest(AccountIdentifier { text: String::new() });
    let mut dispatcher = Dispatcher::new(test_resolver_config(), test_policy(3));
    let probes = vec![vec![true, true], vec![true, true]];
    let outcomes = pad_outcomes(Vec::new(), 3);
    let jitters = vec![0, 0, 0];
    let run = dispatcher.execute(&request, &probes, &outcomes, &jitters);
    assert_eq!(run.outcome.unwrap_err(), QueryError::InvalidIdentifier);
    assert_eq!(run.retry.attempts, 0);
    assert!(run.endpoint.is_none());
}

#[test]
fn timeout_on_every_attempt_exhausts_exactly_max_attempts() {
    let request = QueryRequest::ValidatorKeyRequest(
        AccountIdentifier::new(String::from("validator-key-1")).unwrap(),
    );
    let mut dispatcher = Dispatcher::new(test_resolver_config(), test_policy(3));
    let probes = vec![vec![true], vec![false]];
    let outcomes = vec![SendOutcome::Timeout, SendOutcome::Timeout, SendOutcome::Timeout];
    let jitters = vec![0, 0, 0];
    let run = dispatcher.execute(&request, &probes, &outcomes, &jitters);
    assert_eq!(
        run.outcome.unwrap_err(),
        QueryError::QueryFailed { last_cause: TransportFault::Timeout }
    );
    assert_eq!(run.retry.attempts, 3);
    // Retry exhaustion invalidates the cached endpoint.
    assert!(dispatcher.cached_endpoint.is_none());
}

#[test]
fn cancellation_surfaces_immediately_without_retry() {
    let (outcome, retry) = run_attempts(
        VariantTag::Balance,
        &test_policy(5),
        &vec![
            SendOutcome::Timeout,
            SendOutcome::Cancelled,
            SendOutcome::Timeout,
            SendOutcome::Timeout,
            SendOutcome::Timeout,
        ],
        &vec![0, 0, 0, 0, 0],
    );
    assert_eq!(outcome.unwrap_err(), QueryError::Cancelled);
    assert_eq!(retry.attempts, 2);
}

#[test]
fn malformed_payload_fails_immediately_without_retry() {
    let (outcome, retry) = run_attempts(
        VariantTag::Balance,
        &test_policy(4),
        &pad_outcomes(vec![SendOutcome::Delivered(vec![0xFF])], 4),
        &vec![0, 0, 0, 0],
    );
    assert_eq!(outcome.unwrap_err(), QueryError::MalformedResponse);
    assert_eq!(retry.attempts, 1);
}

#[test]
fn variant_mismatch_fails_immediately_without_retry() {
    let key_bytes = vec![2u8, 1, 1, 0xAB];
    let (outcome, retry) = run_attempts(
        VariantTag::Balance,
        &test_policy(4),
        &pad_outcomes(vec![SendOutcome::Delivered(key_bytes)], 4),
        &vec![0, 0, 0, 0],
    );
    assert_eq!(outcome.unwrap_err(), QueryError::VariantMismatch);
    assert_eq!(retry.attempts, 1);
}

#[test]
fn transient_fault_then_success_recovers() {
    let (outcome, retry) = run_attempts(
        VariantTag::Balance,
        &test_policy(3),
        &vec![
            SendOutcome::Unreachable,
            SendOutcome::Delivered(balance_payload(b"uatom", 42)),
            SendOutcome::Timeout,
        ],
        &vec![7, 7, 7],
    );
    assert_eq!(
        outcome.unwrap(),
        QueryResponse::Balance { denom: b"uatom".to_vec(), amount: 42 }
    );
    assert_eq!(retry.attempts, 2);
    // One retry happened, so one jittered delay was charged: the capped
    // delay of attempt 0 is 100, and the wait is 100/2 + 7 % (100/2 + 1).
    assert_eq!(retry.backoff_total_ms, 50 + 7 % 51);
}

#[test]
fn unreachable_exhaustion_carries_last_cause() {
    let (outcome, retry) = run_attempts(
        VariantTag::ValidatorKey,
        &test_policy(2),
        &vec![SendOutcome::Unreachable, SendOutcome::Unreachable],
        &vec![0, 0],
    );
    assert_eq!(
        outcome.unwrap_err(),
        QueryError::QueryFailed { last_cause: TransportFault::Unreachable }
    );
    assert_eq!(retry.attempts, 2);
}

#[test]
fn no_reachable_endpoint_makes_zero_attempts() {
    let request = QueryRequest::BalanceRequest(
        AccountIdentifier::new(String::from("cosmosvaloper1abc")).unwrap(),
    );
    let mut dispatcher = Dispatcher::new(test_resolver_config(), test_policy(3));
    let probes = vec![vec![false, false], vec![false, false]];
    let outcomes = pad_outcomes(Vec::new(), 3);
    let jitters = vec![0, 0, 0];
    let run = dispatcher.execute(&request, &probes, &outcomes, &jitters);
    assert_eq!(run.outcome.unwrap_err(), QueryError::NoReachableEndpoint);
    assert_eq!(run.retry.attempts, 0);
    assert!(run.endpoint.is_none());
}

#[test]
fn successful_query_caches_the_endpoint() {
    let request = QueryRequest::BalanceRequest(
        AccountIdentifier::new(String::from("cosmosvaloper1abc")).unwrap(),
    );
    let mut dispatcher = Dispatcher::new(test_resolver_config(), test_policy(2));
    let probes = vec![vec![false, false], vec![true, false]];
    let outcomes = pad_outcomes(
        vec![SendOutcome::Delivered(balance_payload(b"uatom", 1))],
        2,
    );
    let jitters = vec![0, 0];
    let run = dispatcher.execute(&request, &probes, &outcomes, &jitters);
    assert_eq!(run.endpoint.unwrap().host, "node-b.example");
    assert_eq!(dispatcher.cached_endpoint.as_ref().unwrap().host, "node-b.example");

    // A second query skips resolution and uses the cache, even though every
    // probe now fails.
    let probes = vec![vec![false, false], vec![false, false]];
    let run = dispatcher.execute(&request, &probes, &outcomes, &jitters);
    assert_eq!(run.endpoint.unwrap().host, "node-b.example");
}

#[test]
fn resolver_picks_first_healthy_candidate() {
    let config = test_resolver_config();
    let endpoint = resolve(&config, &vec![vec![false, true], vec![true, true]]).unwrap();
    assert_eq!(endpoint.host, "node-a.example");
}

#[test]
fn resolver_ignores_probes_past_the_budget() {
    let mut config = test_resolver_config();
    config.max_probes_per_candidate = 1;
    // Candidate a only answers its second probe, past the budget of 1.
    let err = resolve(&config, &vec![vec![false, true], vec![false]]).unwrap_err();
    assert_eq!(err, QueryError::NoReachableEndpoint);
}

#[test]
fn round_robin_starts_at_the_offset() {
    let mut config = test_resolver_config();
    config.policy = SelectionPolicy::RoundRobin { start: 1 };
    let endpoint = resolve(&config, &vec![vec![true], vec![true]]).unwrap();
    assert_eq!(endpoint.host, "node-b.example");
}

#[test]
fn round_robin_wraps_past_the_end() {
    let mut config = test_resolver_config();
    config.policy = SelectionPolicy::RoundRobin { start: 1 };
    let endpoint = resolve(&config, &vec![vec![true], vec![false]]).unwrap();
    assert_eq!(endpoint.host, "node-a.example");
}

#[test]
fn backoff_doubles_and_caps() {
    let policy = test_policy(8);
    assert_eq!(capped_delay(&policy, 0), 100);
    assert_eq!(capped_delay(&policy, 1), 200);
    assert_eq!(capped_delay(&policy, 2), 400);
    assert_eq!(capped_delay(&policy, 3), 800);
    assert_eq!(capped_delay(&policy, 4), 1_000);
    assert_eq!(capped_delay(&policy, 60), 1_000);
}

#[test]
fn jittered_delay_stays_between_half_and_full() {
    let policy = test_policy(8);
    for jitter in [0u64, 1, 49, 50, 51, 1_000, u64::MAX] {
        let d = jittered_delay(&policy, 0, jitter);
        assert!((50..=100).contains(&d));
        assert_eq!(d, 50 + jitter % 51);
    }
}

#[test]
fn transport_error_of_each_fault() {
    assert_eq!(
        QueryError::of_fault(TransportFault::Timeout),
        QueryError::TransportTimeout
    );
    assert_eq!(
        QueryError::of_fault(TransportFault::Unreachable),
        QueryError::TransportUnreachable
    );
}

#[test]
fn balance_command_builds_a_balance_request() {
    let command = Cosmos::Balance(Balance {
        free: vec![String::from("cosmosvaloper1abc")],
        help: false,
    });
    let request = command.request().unwrap();
    assert!(matches!(request, QueryRequest::BalanceRequest(_)));
    assert_eq!(request.identifier().text, "cosmosvaloper1abc");
}

#[test]
fn gravity_keys_command_builds_a_key_request() {
    let command = Cosmos::GravityKeys(GravityKeys {
        free: vec![String::from("validator-1")],
        help: true,
    });
    let request = command.request().unwrap();
    assert!(matches!(request, QueryRequest::ValidatorKeyRequest(_)));
    assert_eq!(request.identifier().text, "validator-1");
}

#[test]
fn command_rejects_wrong_argument_counts() {
    let none = Balance { free: Vec::new(), help: false };
    assert_eq!(none.request().unwrap_err(), QueryError::InvalidIdentifier);
    let two = Balance {
        free: vec![String::from("a"), String::from("b")],
        help: false,
    };
    assert_eq!(two.request().unwrap_err(), QueryError::InvalidIdentifier);
}

#[test]
fn command_rejects_empty_identifier() {
    let empty = GravityKeys { free: vec![String::new()], help: false };
    assert_eq!(empty.request().unwrap_err(), QueryError::InvalidIdentifier);
    assert_eq!(
        AccountIdentifier::new(String::new()).unwrap_err(),
        QueryError::InvalidIdentifier
    );
}
