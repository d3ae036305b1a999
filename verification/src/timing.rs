//! Timing evidence of a rate-limited executor run: the intervals between
//! consecutive recorded lists and the list identifiers it skipped.
use vstd::prelude::*;

use crate::harness::SubjectError;
use crate::text::{decimal, decimal_text, join, owned};

verus! {

/// The period a rate-limited run is asked to keep: one SO-101 control tick.
pub const REQUESTED_PERIOD_NS: u64 = 5_000_000;

/// Where timing data came from.
#[derive(Debug, Clone, Copy, PartialEq, Eq, Structural)]
pub enum TimingObservationSource {
    /// One-turn subject calls under a mock clock, which cannot establish
    /// pacing.
    HostOneTurnCharacterization,
    /// Recorded list timestamps of the executor's own rate-limited loop.
    CopperRateLimitedRun,
}

/// Timing observations retained with executor evidence.
#[derive(Debug, Clone, PartialEq, Eq)]
pub struct TimingObservation {
    pub source: TimingObservationSource,
    pub iterations: u64,
    pub requested_period_ns: u64,
    pub observed_intervals_ns: Vec<u64>,
    pub missed_periods: Vec<u64>,
}

/// The identifiers `a, a + 1, ..., b - 1`.
pub open spec fn id_range(a: u64, b: u64) -> Seq<u64> {
    Seq::new((b - a) as nat, |k: int| (a + k) as u64)
}

/// ` [label]`, the suffix naming the recording.
pub open spec fn at_log(label: Seq<char>) -> Seq<char> {
    " ["@ + label + "]"@
}

/// One window of two consecutive lists `(id, timestamp)`: a timestamp
/// regression, an identifier overflow, or an identifier regression fails;
/// otherwise the interval is observed and every skipped identifier missed.
pub open spec fn window_step(
    previous: (u64, u64),
    current: (u64, u64),
    intervals: Seq<u64>,
    missed: Seq<u64>,
    label: Seq<char>,
) -> Result<(Seq<u64>, Seq<u64>), Seq<char>> {
    if current.1 < previous.1 {
        Err(
            "Copper timing timestamp regressed from list "@ + decimal_text(previous.0 as nat)
                + " to "@ + decimal_text(current.0 as nat) + at_log(label),
        )
    } else if previous.0 == u64::MAX {
        Err(
            "Copper timing list identifier overflow after "@ + decimal_text(previous.0 as nat)
                + at_log(label),
        )
    } else if current.0 < previous.0 + 1 {
        Err(
            "Copper timing list identifier regressed from "@ + decimal_text(previous.0 as nat)
                + " to "@ + decimal_text(current.0 as nat) + at_log(label),
        )
    } else {
        Ok(
            (
                intervals.push((current.1 - previous.1) as u64),
                missed + id_range((previous.0 + 1) as u64, current.0),
            ),
        )
    }
}

/// The timing analysis of the first `n` windows of `lists`.
pub open spec fn windows_upto(lists: Seq<(u64, u64)>, n: nat, label: Seq<char>) -> Result<
    (Seq<u64>, Seq<u64>),
    Seq<char>,
>
    decreases n,
{
    if n == 0 {
        Ok((seq![], seq![]))
    } else {
        match windows_upto(lists, (n - 1) as nat, label) {
            Err(e) => Err(e),
            Ok((intervals, missed)) => window_step(
                lists[n - 1],
                lists[n as int],
                intervals,
                missed,
                label,
            ),
        }
    }
}

/// The analysis of a recording of `expected` lists: a run of no turn is
/// refused, the list count must match, and every window must pass
/// `window_step`.
pub open spec fn timing_analysis(lists: Seq<(u64, u64)>, expected: nat, label: Seq<char>) -> Result<
    (Seq<u64>, Seq<u64>),
    Seq<char>,
> {
    if expected == 0 {
        Err("Copper rate-limited timing requires at least one input"@)
    } else if lists.len() != expected {
        Err(
            "Copper timing recording contains "@ + decimal_text(lists.len()) + " CopperLists, expected "@
                + decimal_text(expected) + at_log(label),
        )
    } else {
        windows_upto(lists, (lists.len() - 1) as nat, label)
    }
}

proof fn lemma_failure_persists(lists: Seq<(u64, u64)>, k: nat, j: nat, label: Seq<char>)
    requires
        k <= j,
        windows_upto(lists, k, label) is Err,
    ensures
        windows_upto(lists, j, label) == windows_upto(lists, k, label),
    decreases j - k,
{
    if k < j {
        lemma_failure_persists(lists, k, (j - 1) as nat, label);
    }
}

fn log_suffix(m: String, label: &str) -> (r: String)
    ensures
        r@ == m@ + at_log(label@),
{
    let m = join(m, " [");
    let m = join(m, label);
    join(m, "]")
}

/// Analyses the `(list id, timestamp)` pairs recorded by a rate-limited run
/// of `expected` turns, which must be at least one; `label` names the
/// recording in messages. The
/// cadence may exceed the requested period without a list being dropped:
/// only a gap in list identifiers is a missed period.
pub fn analyze_rate_limited_timing(lists: &Vec<(u64, u64)>, expected: usize, label: &str) -> (r:
    Result<TimingObservation, SubjectError>)
    ensures
        match (r, timing_analysis(lists@, expected as nat, label@)) {
            (Ok(t), Ok((intervals, missed))) => {
                &&& t.source == TimingObservationSource::CopperRateLimitedRun
                &&& t.iterations == lists@.len()
                &&& t.requested_period_ns == REQUESTED_PERIOD_NS
                &&& t.observed_intervals_ns@ == intervals
                &&& t.missed_periods@ == missed
            },
            (Err(SubjectError::Step(m)), Err(e)) => m@ == e,
            _ => false,
        },
{
    if expected == 0 {
        return Err(SubjectError::Step(owned("Copper rate-limited timing requires at least one input")));
    }
    let n = lists.len();
    if n != expected {
        let m = join(owned("Copper timing recording contains "), decimal(n as u64).as_str());
        let m = join(m, " CopperLists, expected ");
        let m = join(m, decimal(expected as u64).as_str());
        return Err(SubjectError::Step(log_suffix(m, label)));
    }
    let mut intervals: Vec<u64> = Vec::new();
    let mut missed: Vec<u64> = Vec::new();
    let mut w: usize = 0;
    while w < n - 1
        invariant
            n == lists@.len(),
            n == expected,
            n > 0,
            w <= n - 1,
            windows_upto(lists@, w as nat, label@) == Ok::<(Seq<u64>, Seq<u64>), Seq<char>>(
                (intervals@, missed@),
            ),
        decreases n - 1 - w,
    {
        let (previous_id, previous) = lists[w];
        let (current_id, current) = lists[w + 1];
        if current < previous {
            let m = join(owned("Copper timing timestamp regressed from list "), decimal(previous_id).as_str());
            let m = join(m, " to ");
            let m = join(m, decimal(current_id).as_str());
            proof {
                lemma_failure_persists(lists@, (w + 1) as nat, (n - 1) as nat, label@);
            }
            return Err(SubjectError::Step(log_suffix(m, label)));
        }
        if previous_id == u64::MAX {
            let m = join(owned("Copper timing list identifier overflow after "), decimal(previous_id).as_str());
            proof {
                lemma_failure_persists(lists@, (w + 1) as nat, (n - 1) as nat, label@);
            }
            return Err(SubjectError::Step(log_suffix(m, label)));
        }
        let next_expected = previous_id + 1;
        if current_id < next_expected {
            let m = join(owned("Copper timing list identifier regressed from "), decimal(previous_id).as_str());
            let m = join(m, " to ");
            let m = join(m, decimal(current_id).as_str());
            proof {
                lemma_failure_persists(lists@, (w + 1) as nat, (n - 1) as nat, label@);
            }
            return Err(SubjectError::Step(log_suffix(m, label)));
        }
        intervals.push(current - previous);
        let ghost before = missed@;
        let mut id = next_expected;
        while id < current_id
            invariant
                next_expected <= id <= current_id,
                missed@ == before + id_range(next_expected, id),
            decreases current_id - id,
        {
            missed.push(id);
            assert(id_range(next_expected, (id + 1) as u64) =~= id_range(next_expected, id).push(id));
            id = id + 1;
        }
        w = w + 1;
    }
    Ok(
        TimingObservation {
            source: TimingObservationSource::CopperRateLimitedRun,
            iterations: n as u64,
            requested_period_ns: REQUESTED_PERIOD_NS,
            observed_intervals_ns: intervals,
            missed_periods: missed,
        },
    )
}

/// Turn `k` is the first of the `n` turns whose outputs differ.
pub open spec fn first_unequal(outputs_equal: Seq<bool>, n: nat, k: int) -> bool {
    &&& 0 <= k < n
    &&& !outputs_equal[k]
    &&& forall|j: int| 0 <= j < k ==> outputs_equal[j]
}

/// Why the outputs of a paced run disagree with the harness trace, if they
/// do: their counts differ, or the output at some turn differs (the first
/// such turn is reported). `outputs_equal` holds, per turn, whether the
/// paced output equals the trace's recorded output.
pub open spec fn paced_output_failure(paced: nat, recorded: nat, outputs_equal: Seq<bool>) -> Option<
    Seq<char>,
> {
    if paced != recorded {
        Some(
            "Copper rate-limited timing output count "@ + decimal_text(paced)
                + " differs from harness trace "@ + decimal_text(recorded),
        )
    } else if exists|k: int| #[trigger] first_unequal(outputs_equal, recorded, k) {
        let k = choose|k: int| #[trigger] first_unequal(outputs_equal, recorded, k);
        Some(
            "Copper rate-limited timing output at turn "@ + decimal_text(k as nat)
                + " differs from the harness trace"@,
        )
    } else {
        None
    }
}

/// Checks that a paced run of the harness trace's inputs produced the
/// trace's outputs: first the number of outputs, then each turn in order.
pub fn check_paced_outputs(paced: usize, recorded: usize, outputs_equal: &Vec<bool>) -> (r: Result<
    (),
    String,
>)
    requires
        paced == recorded ==> outputs_equal@.len() == recorded,
    ensures
        match r {
            Ok(()) => paced_output_failure(paced as nat, recorded as nat, outputs_equal@) is None,
            Err(m) => paced_output_failure(paced as nat, recorded as nat, outputs_equal@) == Some(
                m@,
            ),
        },
{
    if paced != recorded {
        let m = join(owned("Copper rate-limited timing output count "), decimal(paced as u64).as_str());
        let m = join(m, " differs from harness trace ");
        return Err(join(m, decimal(recorded as u64).as_str()));
    }
    let mut i: usize = 0;
    while i < recorded
        invariant
            paced == recorded,
            recorded == outputs_equal@.len(),
            i <= recorded,
            forall|j: int| 0 <= j < i ==> outputs_equal@[j],
        decreases recorded - i,
    {
        if !outputs_equal[i] {
            proof {
                assert(first_unequal(outputs_equal@, recorded as nat, i as int));
                let k = choose|k: int| #[trigger] first_unequal(outputs_equal@, recorded as nat, k);
                if k < i {
                    assert(outputs_equal@[k]);
                }
                if k > i {
                    assert(outputs_equal@[i as int]);
                }
                assert(k == i);
            }
            let m = join(owned("Copper rate-limited timing output at turn "), decimal(i as u64).as_str());
            return Err(join(m, " differs from the harness trace"));
        }
        i = i + 1;
    }
    assert forall|k: int| !first_unequal(outputs_equal@, recorded as nat, k) by {
        if 0 <= k < recorded {
            assert(outputs_equal@[k]);
        }
    }
    Ok(())
}

} // verus!
