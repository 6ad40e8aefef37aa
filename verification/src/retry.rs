//! Retry policy and backoff arithmetic.
//!
//! The delay before retry `attempt` is the base delay doubled `attempt`
//! times, capped at the policy's maximum, and then jittered: the final wait
//! is half the capped delay plus a jitter share below the other half, so it
//! always lies between half the capped delay and the capped delay itself.
//! The jitter itself is drawn outside this crate and handed in as a number;
//! every value of it is handled.

use vstd::prelude::*;

verus! {

/// How the dispatcher retries transient transport faults.
#[derive(Clone, Copy, Debug, PartialEq, Eq, Structural)]
pub struct RetryPolicy {
    /// How many transport attempts one query may make, in total. At least 1.
    pub max_attempts: usize,
    /// The delay before the first retry, in milliseconds, before jitter.
    pub base_delay_ms: u64,
    /// The largest delay before any retry, in milliseconds.
    pub max_delay_ms: u64,
}

impl RetryPolicy {
    /// A usable policy allows at least one attempt.
    pub open spec fn wf(self) -> bool {
        self.max_attempts >= 1
    }
}

/// The retry bookkeeping of a single query: owned by the dispatcher for the
/// query's duration and reported back with its result.
#[derive(Clone, Copy, Debug, PartialEq, Eq, Structural)]
pub struct RetryState {
    /// How many transport attempts were made.
    pub attempts: usize,
    /// The total backoff charged between attempts, in milliseconds,
    /// saturating at the largest representable value.
    pub backoff_total_ms: u64,
}

/// `2^n`.
pub open spec fn pow2(n: nat) -> nat
    decreases n,
{
    if n == 0 {
        1
    } else {
        2 * pow2((n - 1) as nat)
    }
}

/// The capped exponential delay before retry `attempt`: the base delay
/// doubled `attempt` times, but never more than `cap`.
pub open spec fn spec_capped_delay(base: u64, cap: u64, attempt: nat) -> int {
    if base * pow2(attempt) > cap {
        cap as int
    } else {
        base * pow2(attempt)
    }
}

/// The jittered delay actually waited before retry `attempt`: half the
/// capped delay, plus the jitter value reduced below the remaining half.
pub open spec fn spec_jittered_delay(base: u64, cap: u64, attempt: nat, jitter: u64) -> int {
    let d = spec_capped_delay(base, cap, attempt);
    d / 2 + jitter as int % (d / 2 + 1)
}

/// Addition that saturates at the largest `u64`.
pub open spec fn spec_add_sat(a: u64, b: u64) -> u64 {
    if a + b > u64::MAX {
        u64::MAX
    } else {
        (a + b) as u64
    }
}

/// Computes the capped exponential delay before retry `attempt`.
pub fn capped_delay(policy: &RetryPolicy, attempt: usize) -> (d: u64)
    ensures
        d == spec_capped_delay(policy.base_delay_ms, policy.max_delay_ms, attempt as nat),
{
    let base = policy.base_delay_ms;
    let cap = policy.max_delay_ms;
    let mut d: u64 = if base > cap {
        cap
    } else {
        base
    };
    let mut i: usize = 0;
    proof {
        assert(pow2(0) == 1);
    }
    while i < attempt
        invariant
            i <= attempt,
            d == spec_capped_delay(base, cap, i as nat),
        decreases attempt - i,
    {
        proof {
            assert(pow2(i as nat + 1) == 2 * pow2(i as nat));
            assert(base * pow2(i as nat + 1) == 2 * (base * pow2(i as nat))) by (nonlinear_arith);
        }
        if d > cap / 2 {
            // Doubling would pass the cap: 2 * d > cap, and the true
            // exponential is at least 2 * d wherever d has not hit the cap.
            proof {
                if base * pow2(i as nat) <= cap {
                    assert(d == base * pow2(i as nat));
                }
            }
            d = cap;
        } else {
            // Doubling stays under the cap; if the cap was already reached,
            // it can only be zero here, and doubling zero keeps it.
            proof {
                if base * pow2(i as nat) > cap {
                    assert(d == cap);
                    assert(cap == 0);
                }
            }
            d = d * 2;
        }
        i = i + 1;
    }
    d
}

/// Computes the jittered delay before retry `attempt` from a jitter value
/// drawn by the caller. The result always lies between half the capped delay
/// and the capped delay, whatever the jitter value is.
pub fn jittered_delay(policy: &RetryPolicy, attempt: usize, jitter: u64) -> (d: u64)
    ensures
        d == spec_jittered_delay(policy.base_delay_ms, policy.max_delay_ms, attempt as nat, jitter),
        spec_capped_delay(policy.base_delay_ms, policy.max_delay_ms, attempt as nat) / 2 <= d
            <= spec_capped_delay(policy.base_delay_ms, policy.max_delay_ms, attempt as nat),
{
    let capped = capped_delay(policy, attempt);
    let half = capped / 2;
    half + jitter % (half + 1)
}

/// Adds two delays, saturating at the largest `u64`.
pub fn add_sat(a: u64, b: u64) -> (r: u64)
    ensures
        r == spec_add_sat(a, b),
{
    if a > u64::MAX - b {
        u64::MAX
    } else {
        a + b
    }
}

} // verus!
