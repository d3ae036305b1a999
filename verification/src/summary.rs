//! Run summaries and latency statistics.
use vstd::prelude::*;
use vstd::relations::{sorted_by, total_ordering};

use crate::contracts::{ExpectedSafetyStateV0, LatencySummaryV0, SafetyControllerStateV0};

verus! {

broadcast use vstd::seq_lib::group_to_multiset_ensures;

/// The natural order of `u64`.
pub open spec fn ascending() -> spec_fn(u64, u64) -> bool {
    |a: u64, b: u64| a <= b
}

/// The samples in ascending order (the unique sorted permutation).
pub open spec fn sorted_samples(samples: Seq<u64>) -> Seq<u64> {
    samples.sort_by(ascending())
}

/// The position of the `per_mille` percentile in `len` ordered samples:
/// `(len - 1) * per_mille / 1000`, the product saturating at `usize::MAX`.
pub open spec fn percentile_index(len: nat, per_mille: nat) -> int {
    let product = (len - 1) * per_mille;
    if product > usize::MAX {
        usize::MAX as int / 1000
    } else {
        product / 1000
    }
}

/// The latency summary of `samples`: all zero when there are none;
/// otherwise the count, the nearest-rank percentiles 50, 95, 99 and 99.9
/// (index `(n - 1) * p / 1000` of the ascending samples) and the maximum.
pub open spec fn spec_latency_summary(samples: Seq<u64>) -> LatencySummaryV0 {
    if samples.len() == 0 {
        LatencySummaryV0 { samples: 0, p50_ns: 0, p95_ns: 0, p99_ns: 0, p999_ns: 0, maximum_ns: 0 }
    } else {
        let ordered = sorted_samples(samples);
        LatencySummaryV0 {
            samples: samples.len() as u64,
            p50_ns: ordered[percentile_index(samples.len(), 500)],
            p95_ns: ordered[percentile_index(samples.len(), 950)],
            p99_ns: ordered[percentile_index(samples.len(), 990)],
            p999_ns: ordered[percentile_index(samples.len(), 999)],
            maximum_ns: ordered.last(),
        }
    }
}

proof fn lemma_ascending_is_total()
    ensures
        total_ordering(ascending()),
{
}

/// Sorts a copy of `samples` by inserting each sample after every smaller
/// or equal one already placed.
fn sort_ascending(samples: &[u64]) -> (r: Vec<u64>)
    ensures
        r@ == sorted_samples(samples@),
{
    let mut ordered: Vec<u64> = Vec::new();
    let n = samples.len();
    let mut i: usize = 0;
    while i < n
        invariant
            n == samples@.len(),
            i <= n,
            ordered@.len() == i,
            sorted_by(ordered@, ascending()),
            ordered@.to_multiset() == samples@.take(i as int).to_multiset(),
        decreases n - i,
    {
        let x = samples[i];
        let mut p: usize = 0;
        while p < ordered.len() && ordered[p] <= x
            invariant
                p <= ordered@.len(),
                forall|k: int| 0 <= k < p ==> ordered@[k] <= x,
            decreases ordered@.len() - p,
        {
            p = p + 1;
        }
        let ghost before = ordered@;
        ordered.insert(p, x);
        proof {
            assert(sorted_by(ordered@, ascending())) by {
                assert forall|a: int, b: int| 0 <= a < b < ordered@.len() implies #[trigger] (
                ascending())(ordered@[a], ordered@[b]) by {
                    if a < p as int && b > p as int {
                        assert(before[a] <= x);
                        assert(!(before[p as int] <= x));
                        if b - 1 > p as int {
                            assert((ascending())(before[p as int], before[b - 1]));
                        }
                    } else if b > p as int && a > p as int {
                        assert((ascending())(before[a - 1], before[b - 1]));
                    } else if a < p as int && b < p as int {
                        assert((ascending())(before[a], before[b]));
                    } else if a == p as int {
                        if p < before.len() {
                            assert(!(before[p as int] <= x));
                            assert((ascending())(before[p as int], before[b - 1]));
                        }
                    }
                }
            }
            assert(samples@.take(i + 1) =~= samples@.take(i as int).push(x));
            vstd::seq_lib::to_multiset_insert(before, p as int, x);
        }
        i = i + 1;
    }
    proof {
        assert(samples@.take(n as int) =~= samples@);
        lemma_ascending_is_total();
        samples@.lemma_sort_by_ensures(ascending());
        vstd::seq_lib::lemma_sorted_unique(ordered@, sorted_samples(samples@), ascending());
    }
    ordered
}

fn percentile(ordered: &Vec<u64>, per_mille: usize) -> (r: u64)
    requires
        ordered@.len() > 0,
        per_mille <= 1000,
    ensures
        r == ordered@[percentile_index(ordered@.len(), per_mille as nat)],
{
    let last = ordered.len() - 1;
    let index = match last.checked_mul(per_mille) {
        Some(product) => product / 1000,
        None => usize::MAX / 1000,
    };
    proof {
        assert(last * per_mille <= last * 1000) by (nonlinear_arith)
            requires
                per_mille <= 1000,
        ;
        if last * per_mille > usize::MAX {
            assert(usize::MAX / 1000 <= last);
        }
    }
    ordered[index]
}

/// Deterministic nearest-rank latency percentiles of `samples`.
pub fn latency_summary(samples: &[u64]) -> (r: LatencySummaryV0)
    ensures
        r == spec_latency_summary(samples@),
{
    if samples.len() == 0 {
        return LatencySummaryV0 {
            samples: 0,
            p50_ns: 0,
            p95_ns: 0,
            p99_ns: 0,
            p999_ns: 0,
            maximum_ns: 0,
        };
    }
    let ordered = sort_ascending(samples);
    proof {
        lemma_ascending_is_total();
        samples@.lemma_sort_by_ensures(ascending());
        assert(ordered@.to_multiset().len() == samples@.to_multiset().len());
    }
    LatencySummaryV0 {
        samples: ordered.len() as u64,
        p50_ns: percentile(&ordered, 500),
        p95_ns: percentile(&ordered, 950),
        p99_ns: percentile(&ordered, 990),
        p999_ns: percentile(&ordered, 999),
        maximum_ns: ordered[ordered.len() - 1],
    }
}

proof fn lemma_percentile_index_monotone(n: nat, p1: nat, p2: nat)
    requires
        n > 0,
        p1 <= p2 <= 1000,
    ensures
        0 <= percentile_index(n, p1) <= percentile_index(n, p2) <= n - 1,
{
    let m = (n - 1) as nat;
    assert(m * p1 <= m * p2) by (nonlinear_arith)
        requires
            p1 <= p2,
    ;
    assert(m * p2 <= m * 1000) by (nonlinear_arith)
        requires
            p2 <= 1000,
    ;
    assert((m * p1) / 1000 <= (m * p2) / 1000) by (nonlinear_arith)
        requires
            m * p1 <= m * p2,
    ;
    assert((m * p2) / 1000 <= m) by (nonlinear_arith)
        requires
            m * p2 <= m * 1000,
    ;
    if m * p2 > usize::MAX {
        assert(usize::MAX as int / 1000 <= m) by (nonlinear_arith)
            requires
                m * 1000 > usize::MAX,
        ;
        if m * p1 <= usize::MAX {
            assert((m * p1) / 1000 <= usize::MAX as int / 1000) by (nonlinear_arith)
                requires
                    m * p1 <= usize::MAX,
            ;
        }
    }
}

/// The percentiles of a latency summary are ordered, and none exceeds the
/// maximum sample.
pub proof fn lemma_percentiles_are_ordered(samples: Seq<u64>)
    ensures
        spec_latency_summary(samples).p50_ns <= spec_latency_summary(samples).p95_ns,
        spec_latency_summary(samples).p95_ns <= spec_latency_summary(samples).p99_ns,
        spec_latency_summary(samples).p99_ns <= spec_latency_summary(samples).p999_ns,
        spec_latency_summary(samples).p999_ns <= spec_latency_summary(samples).maximum_ns,
{
    if samples.len() > 0 {
        let n = samples.len();
        let ordered = sorted_samples(samples);
        lemma_ascending_is_total();
        samples.lemma_sort_by_ensures(ascending());
        assert(ordered.to_multiset().len() == samples.to_multiset().len());
        lemma_percentile_index_monotone(n, 500, 950);
        lemma_percentile_index_monotone(n, 950, 990);
        lemma_percentile_index_monotone(n, 990, 999);
        lemma_percentile_index_monotone(n, 999, 999);
        assert(ordered.len() == n);
        assert((ascending())(ordered[percentile_index(n, 500)], ordered[percentile_index(n, 950)]));
        assert((ascending())(ordered[percentile_index(n, 950)], ordered[percentile_index(n, 990)]));
        assert((ascending())(ordered[percentile_index(n, 990)], ordered[percentile_index(n, 999)]));
        assert((ascending())(ordered[percentile_index(n, 999)], ordered[n - 1]));
    }
}

/// A latency summary depends on the samples and not on their order: any
/// permutation of the samples gives the same summary.
pub proof fn lemma_latency_summary_ignores_order(a: Seq<u64>, b: Seq<u64>)
    requires
        a.to_multiset() == b.to_multiset(),
    ensures
        spec_latency_summary(a) == spec_latency_summary(b),
{
    lemma_ascending_is_total();
    a.lemma_sort_by_ensures(ascending());
    b.lemma_sort_by_ensures(ascending());
    vstd::seq_lib::to_multiset_len(a);
    vstd::seq_lib::to_multiset_len(b);
    vstd::seq_lib::lemma_sorted_unique(sorted_samples(a), sorted_samples(b), ascending());
}

pub open spec fn spec_safety_state_class(state: SafetyControllerStateV0) -> ExpectedSafetyStateV0 {
    match state {
        SafetyControllerStateV0::Disarmed => ExpectedSafetyStateV0::Disarmed,
        SafetyControllerStateV0::Armed { .. } => ExpectedSafetyStateV0::Armed,
        SafetyControllerStateV0::Tripped { .. } => ExpectedSafetyStateV0::Tripped,
    }
}

/// The coarse class of a controller state that expectations speak of.
pub fn safety_state_class(state: &SafetyControllerStateV0) -> (r: ExpectedSafetyStateV0)
    ensures
        r == spec_safety_state_class(*state),
{
    match state {
        SafetyControllerStateV0::Disarmed => ExpectedSafetyStateV0::Disarmed,
        SafetyControllerStateV0::Armed { .. } => ExpectedSafetyStateV0::Armed,
        SafetyControllerStateV0::Tripped { .. } => ExpectedSafetyStateV0::Tripped,
    }
}

} // verus!

verus! {

/// The benchmark report of repeated runs of one scenario: its identity, the
/// subject and plant, how many runs and semantic failures there were, and
/// the latency percentiles of every measured control turn. Wall time is
/// never a portable pass/fail gate.
pub fn benchmark_report<S, C, B, M, Q>(
    scenario: &crate::contracts::ScenarioV0<S, C, B, M, Q>,
    scenario_sha256: &str,
    subject_id: &str,
    plant_id: &str,
    iterations: u64,
    semantic_failures: u64,
    samples: &[u64],
) -> (r: crate::contracts::BenchmarkReportV0)
    ensures
        r.schema_version == crate::contracts::CONTRACT_SCHEMA_VERSION,
        r.scenario_name@ == scenario.name@,
        r.scenario_sha256@ == scenario_sha256@,
        r.subject_id@ == subject_id@,
        r.plant_id@ == plant_id@,
        r.iterations == iterations,
        r.semantic_failures == semantic_failures,
        r.control_turn_latency == spec_latency_summary(samples@),
        !r.wall_time_is_portable_gate,
{
    crate::contracts::BenchmarkReportV0 {
        schema_version: crate::contracts::CONTRACT_SCHEMA_VERSION,
        scenario_name: crate::text::owned(scenario.name.as_str()),
        scenario_sha256: crate::text::owned(scenario_sha256),
        subject_id: crate::text::owned(subject_id),
        plant_id: crate::text::owned(plant_id),
        iterations,
        semantic_failures,
        control_turn_latency: latency_summary(samples),
        wall_time_is_portable_gate: false,
    }
}

} // verus!
