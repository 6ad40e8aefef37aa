//! The endpoint resolver: picks a reachable node out of a configured list.
//!
//! Probing an address is network work and happens outside this crate; the
//! resolver is handed the outcome of every probe it is allowed to make and
//! decides, under its configured policy, which candidate to use. It never
//! looks past its probe budget: a candidate counts as healthy only if one of
//! its first `max_probes_per_candidate` probes succeeded.

use vstd::prelude::*;

use crate::errors::QueryError;

verus! {

/// A concrete network address of a node serving ledger queries, with its
/// protocol metadata. Created by the resolver per query; not persisted.
#[derive(Clone, Debug, PartialEq, Eq)]
pub struct Endpoint {
    /// The host name or address, as configured.
    pub host: String,
    /// The port the node listens on.
    pub port: u16,
}

impl View for Endpoint {
    type V = (Seq<char>, u16);

    open spec fn view(&self) -> (Seq<char>, u16) {
        (self.host@, self.port)
    }
}

impl Endpoint {
    /// Copies this endpoint, field by field.
    pub fn duplicate(&self) -> (r: Endpoint)
        ensures
            r@ == self@,
    {
        Endpoint { host: self.host.clone(), port: self.port }
    }
}

/// In which order the resolver walks the candidate list.
#[derive(Clone, Copy, Debug, PartialEq, Eq, Structural)]
pub enum SelectionPolicy {
    /// Walk the list from the front and take the first healthy candidate.
    FirstHealthy,
    /// Walk the list from a caller-chosen offset, wrapping around, so that
    /// load spreads over the healthy candidates.
    RoundRobin {
        /// The index the walk starts at, taken modulo the list length.
        start: usize,
    },
}

/// The resolver's configuration: an ordered candidate list, the walk policy,
/// and the probe budget per candidate.
#[derive(Clone, Debug)]
pub struct ResolverConfig {
    /// The candidate endpoints, in configured order. Must be non-empty.
    pub candidates: Vec<Endpoint>,
    /// How the list is walked.
    pub policy: SelectionPolicy,
    /// How many probes may be spent on one candidate before it is given up.
    pub max_probes_per_candidate: usize,
}

impl ResolverConfig {
    /// A usable configuration names at least one candidate and may probe
    /// each at least once.
    pub open spec fn wf(self) -> bool {
        self.candidates@.len() > 0 && self.max_probes_per_candidate > 0
    }

    /// The index the walk starts at under this configuration's policy.
    pub open spec fn spec_start(self) -> int {
        match self.policy {
            SelectionPolicy::FirstHealthy => 0,
            SelectionPolicy::RoundRobin { start } => start as int % self.candidates@.len() as int,
        }
    }
}

/// Whether candidate `i` counts as healthy: one of the probes inside the
/// budget succeeded. Probes past `budget` are never consulted.
pub open spec fn spec_healthy(probes: Seq<Seq<bool>>, i: int, budget: int) -> bool {
    exists|j: int| 0 <= j < probes[i].len() && j < budget && probes[i][j]
}

/// The position (as an offset into the walk, not an index) of the first
/// healthy candidate the walk meets, if any: the walk visits
/// `(start + k) % n` for `k` in `0 .. n`.
pub open spec fn spec_first_healthy_offset(
    probes: Seq<Seq<bool>>,
    n: int,
    start: int,
    budget: int,
    k: int,
) -> Option<int>
    decreases n - k,
{
    if k >= n {
        None
    } else if spec_healthy(probes, (start + k) % n, budget) {
        Some(k)
    } else {
        spec_first_healthy_offset(probes, n, start, budget, k + 1)
    }
}

/// The index the resolver must choose, if any candidate is healthy.
pub open spec fn spec_chosen_index(config: ResolverConfig, probes: Seq<Seq<bool>>) -> Option<int> {
    let n = config.candidates@.len() as int;
    match spec_first_healthy_offset(
        probes,
        n,
        config.spec_start(),
        config.max_probes_per_candidate as int,
        0,
    ) {
        Some(k) => Some((config.spec_start() + k) % n),
        None => None,
    }
}

/// Resolves a configuration to an endpoint, given the outcome of every probe
/// the budget allows: `probes[i][j]` says whether probe `j` of candidate `i`
/// succeeded. Returns the candidate at the first healthy position of the
/// policy's walk, or [`QueryError::NoReachableEndpoint`] when every candidate
/// exhausted its probe budget without one success.
pub fn resolve(config: &ResolverConfig, probes: &Vec<Vec<bool>>) -> (r: Result<
    Endpoint,
    QueryError,
>)
    requires
        config.wf(),
        probes@.len() == config.candidates@.len(),
    ensures
        match r {
            Ok(e) => {
                &&& spec_chosen_index(*config, probes@.map_values(|p: Vec<bool>| p@)) matches Some(
                    i,
                )
                &&& e@ == config.candidates@[
                    spec_chosen_index(*config, probes@.map_values(|p: Vec<bool>| p@))->Some_0
                ]@
            },
            Err(err) => {
                &&& err == QueryError::NoReachableEndpoint
                &&& spec_chosen_index(*config, probes@.map_values(|p: Vec<bool>| p@)) is None
            },
        },
{
    let ghost pview = probes@.map_values(|p: Vec<bool>| p@);
    let n = config.candidates.len();
    let start: usize = match config.policy {
        SelectionPolicy::FirstHealthy => 0,
        SelectionPolicy::RoundRobin { start } => start % n,
    };
    let mut k: usize = 0;
    while k < n
        invariant
            config.wf(),
            probes@.len() == n,
            pview == probes@.map_values(|p: Vec<bool>| p@),
            pview.len() == n,
            n == config.candidates@.len(),
            start == config.spec_start(),
            0 <= start < n,
            k <= n,
            spec_first_healthy_offset(
                pview,
                n as int,
                start as int,
                config.max_probes_per_candidate as int,
                0,
            ) == spec_first_healthy_offset(
                pview,
                n as int,
                start as int,
                config.max_probes_per_candidate as int,
                k as int,
            ),
        decreases n - k,
    {
        let i = if k < n - start {
            start + k
        } else {
            k - (n - start)
        };
        proof {
            assert(i as int == (start as int + k as int) % n as int) by (nonlinear_arith)
                requires
                    0 <= start < n,
                    0 <= k < n,
                    i as int == if k < n - start {
                        start as int + k as int
                    } else {
                        k as int - (n - start)
                    },
            ;
        }
        if probe_candidate(&probes[i], config.max_probes_per_candidate) {
            proof {
                assert(pview[i as int] == probes@[i as int]@);
                assert(spec_healthy(pview, i as int, config.max_probes_per_candidate as int));
            }
            return Ok(config.candidates[i].duplicate());
        }
        proof {
            assert(pview[i as int] == probes@[i as int]@);
        }
        assert(!spec_healthy(pview, i as int, config.max_probes_per_candidate as int));
        k = k + 1;
    }
    Err(QueryError::NoReachableEndpoint)
}

/// Whether any probe of one candidate, inside the budget, succeeded.
fn probe_candidate(probes: &Vec<bool>, budget: usize) -> (r: bool)
    ensures
        r == exists|j: int| 0 <= j < probes@.len() && j < budget && probes@[j],
{
    let mut j: usize = 0;
    while j < probes.len() && j < budget
        invariant
            j <= probes@.len(),
            forall|m: int| 0 <= m < j && m < budget ==> !probes@[m],
            j <= budget,
        decreases probes@.len() - j,
    {
        if probes[j] {
            return true;
        }
        j = j + 1;
    }
    false
}

} // verus!
