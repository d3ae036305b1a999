//! The summary of a run's records: admissions, denials by reason,
//! authorizations, suppressed ticks and the terminal safety state.
use vstd::prelude::*;

use crate::contracts::{
    DenialCountsV0, GateDecisionV0, GateDeniedReasonV0, RunSummaryV0, SafetyControllerStateV0,
    SafetyDispositionV0, TraceRecordV0,
};
use crate::units::Tick;
use crate::summary::{safety_state_class, spec_safety_state_class};

verus! {

pub const REASON_COUNT: usize = 22;

/// The position of a denial reason in declaration order, which is the order
/// in which denial counts are listed.
pub open spec fn reason_rank(r: GateDeniedReasonV0) -> nat {
    match r {
        GateDeniedReasonV0::MissingSensor => 0,
        GateDeniedReasonV0::InvalidSensor => 1,
        GateDeniedReasonV0::StaleSensor => 2,
        GateDeniedReasonV0::FutureSensor => 3,
        GateDeniedReasonV0::DuplicateSensor => 4,
        GateDeniedReasonV0::OutOfOrderSensor => 5,
        GateDeniedReasonV0::WrongClockEpoch => 6,
        GateDeniedReasonV0::WrongSourceEpoch => 7,
        GateDeniedReasonV0::MissingSetpoint => 8,
        GateDeniedReasonV0::InvalidSetpoint => 9,
        GateDeniedReasonV0::StaleSetpoint => 10,
        GateDeniedReasonV0::MissingSafetyStatus => 11,
        GateDeniedReasonV0::InvalidSafetyStatus => 12,
        GateDeniedReasonV0::StaleSafetyStatus => 13,
        GateDeniedReasonV0::SafetyNotArmed => 14,
        GateDeniedReasonV0::SafetyTripped => 15,
        GateDeniedReasonV0::PermitEpochMismatch => 16,
        GateDeniedReasonV0::ProposalExpired => 17,
        GateDeniedReasonV0::ProposalSourceMismatch => 18,
        GateDeniedReasonV0::NonFinite => 19,
        GateDeniedReasonV0::OutOfRange => 20,
        GateDeniedReasonV0::TaskError => 21,
    }
}

pub open spec fn reason_at(k: nat) -> GateDeniedReasonV0 {
    if k == 0 { GateDeniedReasonV0::MissingSensor }
    else if k == 1 { GateDeniedReasonV0::InvalidSensor }
    else if k == 2 { GateDeniedReasonV0::StaleSensor }
    else if k == 3 { GateDeniedReasonV0::FutureSensor }
    else if k == 4 { GateDeniedReasonV0::DuplicateSensor }
    else if k == 5 { GateDeniedReasonV0::OutOfOrderSensor }
    else if k == 6 { GateDeniedReasonV0::WrongClockEpoch }
    else if k == 7 { GateDeniedReasonV0::WrongSourceEpoch }
    else if k == 8 { GateDeniedReasonV0::MissingSetpoint }
    else if k == 9 { GateDeniedReasonV0::InvalidSetpoint }
    else if k == 10 { GateDeniedReasonV0::StaleSetpoint }
    else if k == 11 { GateDeniedReasonV0::MissingSafetyStatus }
    else if k == 12 { GateDeniedReasonV0::InvalidSafetyStatus }
    else if k == 13 { GateDeniedReasonV0::StaleSafetyStatus }
    else if k == 14 { GateDeniedReasonV0::SafetyNotArmed }
    else if k == 15 { GateDeniedReasonV0::SafetyTripped }
    else if k == 16 { GateDeniedReasonV0::PermitEpochMismatch }
    else if k == 17 { GateDeniedReasonV0::ProposalExpired }
    else if k == 18 { GateDeniedReasonV0::ProposalSourceMismatch }
    else if k == 19 { GateDeniedReasonV0::NonFinite }
    else if k == 20 { GateDeniedReasonV0::OutOfRange }
    else { GateDeniedReasonV0::TaskError }
}

pub proof fn lemma_rank_round_trip(r: GateDeniedReasonV0)
    ensures
        reason_rank(r) < REASON_COUNT,
        reason_at(reason_rank(r)) == r,
{
}

fn rank_of(r: GateDeniedReasonV0) -> (k: usize)
    ensures
        k == reason_rank(r),
{
    match r {
        GateDeniedReasonV0::MissingSensor => 0,
        GateDeniedReasonV0::InvalidSensor => 1,
        GateDeniedReasonV0::StaleSensor => 2,
        GateDeniedReasonV0::FutureSensor => 3,
        GateDeniedReasonV0::DuplicateSensor => 4,
        GateDeniedReasonV0::OutOfOrderSensor => 5,
        GateDeniedReasonV0::WrongClockEpoch => 6,
        GateDeniedReasonV0::WrongSourceEpoch => 7,
        GateDeniedReasonV0::MissingSetpoint => 8,
        GateDeniedReasonV0::InvalidSetpoint => 9,
        GateDeniedReasonV0::StaleSetpoint => 10,
        GateDeniedReasonV0::MissingSafetyStatus => 11,
        GateDeniedReasonV0::InvalidSafetyStatus => 12,
        GateDeniedReasonV0::StaleSafetyStatus => 13,
        GateDeniedReasonV0::SafetyNotArmed => 14,
        GateDeniedReasonV0::SafetyTripped => 15,
        GateDeniedReasonV0::PermitEpochMismatch => 16,
        GateDeniedReasonV0::ProposalExpired => 17,
        GateDeniedReasonV0::ProposalSourceMismatch => 18,
        GateDeniedReasonV0::NonFinite => 19,
        GateDeniedReasonV0::OutOfRange => 20,
        GateDeniedReasonV0::TaskError => 21,
    }
}

fn reason_of(k: usize) -> (r: GateDeniedReasonV0)
    requires
        k < REASON_COUNT,
    ensures
        r == reason_at(k as nat),
{
    if k == 0 { GateDeniedReasonV0::MissingSensor }
    else if k == 1 { GateDeniedReasonV0::InvalidSensor }
    else if k == 2 { GateDeniedReasonV0::StaleSensor }
    else if k == 3 { GateDeniedReasonV0::FutureSensor }
    else if k == 4 { GateDeniedReasonV0::DuplicateSensor }
    else if k == 5 { GateDeniedReasonV0::OutOfOrderSensor }
    else if k == 6 { GateDeniedReasonV0::WrongClockEpoch }
    else if k == 7 { GateDeniedReasonV0::WrongSourceEpoch }
    else if k == 8 { GateDeniedReasonV0::MissingSetpoint }
    else if k == 9 { GateDeniedReasonV0::InvalidSetpoint }
    else if k == 10 { GateDeniedReasonV0::StaleSetpoint }
    else if k == 11 { GateDeniedReasonV0::MissingSafetyStatus }
    else if k == 12 { GateDeniedReasonV0::InvalidSafetyStatus }
    else if k == 13 { GateDeniedReasonV0::StaleSafetyStatus }
    else if k == 14 { GateDeniedReasonV0::SafetyNotArmed }
    else if k == 15 { GateDeniedReasonV0::SafetyTripped }
    else if k == 16 { GateDeniedReasonV0::PermitEpochMismatch }
    else if k == 17 { GateDeniedReasonV0::ProposalExpired }
    else if k == 18 { GateDeniedReasonV0::ProposalSourceMismatch }
    else if k == 19 { GateDeniedReasonV0::NonFinite }
    else if k == 20 { GateDeniedReasonV0::OutOfRange }
    else { GateDeniedReasonV0::TaskError }
}

/// How many records the subject's gate admitted.
pub open spec fn admitted_count<S, C>(records: Seq<TraceRecordV0<S, C>>) -> nat
    decreases records.len(),
{
    if records.len() == 0 {
        0
    } else {
        admitted_count(records.drop_last()) + if records.last().subject_output.gate is Admitted {
            1nat
        } else {
            0nat
        }
    }
}

/// How many records the subject's gate denied with `reason`.
pub open spec fn denied_count<S, C>(records: Seq<TraceRecordV0<S, C>>, reason: GateDeniedReasonV0) -> nat
    decreases records.len(),
{
    if records.len() == 0 {
        0
    } else {
        denied_count(records.drop_last(), reason) + if records.last().subject_output.gate
            == (GateDecisionV0::<C>::Denied { reason }) {
            1nat
        } else {
            0nat
        }
    }
}

/// How many records the safety controller authorized.
pub open spec fn authorized_count<S, C>(records: Seq<TraceRecordV0<S, C>>) -> nat
    decreases records.len(),
{
    if records.len() == 0 {
        0
    } else {
        authorized_count(records.drop_last()) + if records.last().safety_disposition is Authorized {
            1nat
        } else {
            0nat
        }
    }
}

/// The ticks of the records the safety controller suppressed, in order.
pub open spec fn suppressed_ticks<S, C>(records: Seq<TraceRecordV0<S, C>>) -> Seq<Tick>
    decreases records.len(),
{
    if records.len() == 0 {
        seq![]
    } else if records.last().safety_disposition is Suppressed {
        suppressed_ticks(records.drop_last()).push(records.last().tick)
    } else {
        suppressed_ticks(records.drop_last())
    }
}

/// The denial counts of `records` for the reasons of rank below `k`: one
/// entry per reason that occurred, in rank order.
pub open spec fn denials_below<S, C>(records: Seq<TraceRecordV0<S, C>>, k: nat) -> Seq<(GateDeniedReasonV0, u64)>
    decreases k,
{
    if k == 0 {
        seq![]
    } else {
        let r = reason_at((k - 1) as nat);
        let c = denied_count(records, r);
        if c > 0 {
            denials_below(records, (k - 1) as nat).push((r, c as u64))
        } else {
            denials_below(records, (k - 1) as nat)
        }
    }
}

/// The denial counts of a run: every reason that occurred, in declaration
/// order, with the number of records denied with it.
pub open spec fn denial_counts<S, C>(records: Seq<TraceRecordV0<S, C>>) -> Seq<(GateDeniedReasonV0, u64)> {
    denials_below(records, REASON_COUNT as nat)
}

/// Denial counts in the form of a map from reason to count: each reason at
/// most once, listed in declaration order, each with a positive count.
pub open spec fn canonical_denials(v: Seq<(GateDeniedReasonV0, u64)>) -> bool {
    &&& forall|i: int, j: int|
        0 <= i < j < v.len() ==> reason_rank(#[trigger] v[i].0) < reason_rank(#[trigger] v[j].0)
    &&& forall|i: int| 0 <= i < v.len() ==> #[trigger] v[i].1 > 0
}

/// `v` lists every reason with which some record was denied, each with the
/// number of records denied with it.
pub open spec fn denials_complete<S, C>(
    v: Seq<(GateDeniedReasonV0, u64)>,
    records: Seq<TraceRecordV0<S, C>>,
) -> bool {
    &&& forall|i: int| 0 <= i < v.len() ==> #[trigger] v[i].1 == denied_count(records, v[i].0)
    &&& forall|r: GateDeniedReasonV0|
        #[trigger] denied_count(records, r) > 0 ==> exists|i: int| 0 <= i < v.len() && v[i].0 == r
}

proof fn lemma_rank_of_reason_at(k: nat)
    requires
        k < REASON_COUNT,
    ensures
        reason_rank(reason_at(k)) == k,
{
}

proof fn lemma_denials_below_canonical<S, C>(records: Seq<TraceRecordV0<S, C>>, k: nat)
    requires
        k <= REASON_COUNT,
        records.len() <= u64::MAX,
    ensures
        canonical_denials(denials_below(records, k)),
        forall|i: int|
            0 <= i < denials_below(records, k).len() ==> reason_rank(
                #[trigger] denials_below(records, k)[i].0,
            ) < k,
        forall|i: int|
            0 <= i < denials_below(records, k).len() ==> #[trigger] denials_below(records, k)[i].1
                == denied_count(records, denials_below(records, k)[i].0),
        forall|r: GateDeniedReasonV0|
            reason_rank(r) < k && #[trigger] denied_count(records, r) > 0 ==> exists|i: int|
                0 <= i < denials_below(records, k).len() && denials_below(records, k)[i].0 == r,
    decreases k,
{
    if k > 0 {
        let prev = denials_below(records, (k - 1) as nat);
        lemma_denials_below_canonical(records, (k - 1) as nat);
        let r = reason_at((k - 1) as nat);
        lemma_rank_of_reason_at((k - 1) as nat);
        lemma_counts_bounded(records, r);
        let cur = denials_below(records, k);
        assert forall|q: GateDeniedReasonV0|
            reason_rank(q) < k && #[trigger] denied_count(records, q) > 0 implies exists|i: int|
                0 <= i < cur.len() && cur[i].0 == q by {
            lemma_rank_round_trip(q);
            if reason_rank(q) < k - 1 {
                let i = choose|i: int| 0 <= i < prev.len() && prev[i].0 == q;
                assert(cur[i] == prev[i]);
            } else {
                assert(q == r);
                assert(cur[cur.len() - 1].0 == q);
            }
        }
    }
}

/// The denial counts of a run form a map from reason to count: each reason
/// that occurred appears once, with its number of records, in declaration
/// order, and no reason appears with a count of zero.
pub proof fn lemma_denial_counts_canonical<S, C>(records: Seq<TraceRecordV0<S, C>>)
    requires
        records.len() <= u64::MAX,
    ensures
        canonical_denials(denial_counts(records)),
        denials_complete(denial_counts(records), records),
{
    let v = denials_below(records, REASON_COUNT as nat);
    lemma_denials_below_canonical(records, REASON_COUNT as nat);
    assert(denial_counts(records) == v);
    assert forall|r: GateDeniedReasonV0| #[trigger] denied_count(records, r) > 0 implies exists|i: int|
        0 <= i < v.len() && v[i].0 == r by {
        lemma_rank_round_trip(r);
        assert(reason_rank(r) < REASON_COUNT as nat && denied_count(records, r) > 0);
    }
}

/// `s` summarizes `records`: it counts the admitted, denied (per reason)
/// and authorized records, lists the suppressed ticks in order, and carries
/// the class of the terminal controller state and the replayability flag.
pub open spec fn summary_matches<S, C>(
    s: RunSummaryV0,
    records: Seq<TraceRecordV0<S, C>>,
    safety_state: SafetyControllerStateV0,
    replayable: bool,
) -> bool {
    &&& s.admitted_ticks == admitted_count(records)
    &&& s.denied_by_reason@ == denial_counts(records)
    &&& s.authorized_ticks == authorized_count(records)
    &&& s.suppressed_ticks@ == suppressed_ticks(records)
    &&& s.terminal_safety_state == spec_safety_state_class(safety_state)
    &&& s.replayable == replayable
}

proof fn lemma_counts_bounded<S, C>(records: Seq<TraceRecordV0<S, C>>, r: GateDeniedReasonV0)
    ensures
        admitted_count(records) <= records.len(),
        denied_count(records, r) <= records.len(),
        authorized_count(records) <= records.len(),
    decreases records.len(),
{
    if records.len() > 0 {
        lemma_counts_bounded(records.drop_last(), r);
    }
}

/// Summarizes a run from its records, the terminal controller state and
/// whether the run stayed replayable.
pub fn summarize<S, C>(
    records: &[TraceRecordV0<S, C>],
    safety_state: &SafetyControllerStateV0,
    replayable: bool,
) -> (r: RunSummaryV0)
    ensures
        summary_matches(r, records@, *safety_state, replayable),
        canonical_denials(r.denied_by_reason@),
        denials_complete(r.denied_by_reason@, records@),
{
    let n = records.len();
    proof {
        lemma_denial_counts_canonical(records@);
    }
    let mut admitted_ticks: u64 = 0;
    let mut authorized_ticks: u64 = 0;
    let mut suppressed: Vec<Tick> = Vec::new();
    let mut counts: Vec<u64> = Vec::new();
    let mut k: usize = 0;
    while k < 22
        invariant
            k <= 22,
            counts@.len() == k,
            forall|j: int| 0 <= j < k ==> counts@[j] == 0,
        decreases 22 - k,
    {
        counts.push(0);
        k = k + 1;
    }
    let mut i: usize = 0;
    while i < n
        invariant
            n == records@.len(),
            i <= n,
            counts@.len() == 22,
            admitted_ticks == admitted_count(records@.take(i as int)),
            authorized_ticks == authorized_count(records@.take(i as int)),
            suppressed@ == suppressed_ticks(records@.take(i as int)),
            forall|j: int| 0 <= j < 22 ==> #[trigger] counts@[j] == denied_count(
                records@.take(i as int),
                reason_at(j as nat),
            ),
        decreases n - i,
    {
        let ghost prefix = records@.take(i as int);
        let ghost next = records@.take(i + 1);
        assert(next.drop_last() =~= prefix);
        proof {
            lemma_counts_bounded(prefix, GateDeniedReasonV0::TaskError);
            assert forall|j: int| 0 <= j < 22 implies #[trigger] counts@[j] <= i by {
                lemma_counts_bounded(prefix, reason_at(j as nat));
            }
        }
        let record = &records[i];
        match &record.subject_output.gate {
            GateDecisionV0::Admitted { .. } => {
                admitted_ticks = admitted_ticks + 1;
            },
            GateDecisionV0::Denied { reason } => {
                let j = rank_of(*reason);
                proof {
                    lemma_rank_round_trip(*reason);
                }
                let c = counts[j];
                counts.set(j, c + 1);
            },
            GateDecisionV0::NoCommand => {},
        }
        match &record.safety_disposition {
            SafetyDispositionV0::Authorized { .. } => {
                authorized_ticks = authorized_ticks + 1;
            },
            SafetyDispositionV0::Suppressed { .. } => {
                suppressed.push(record.tick);
            },
        }
        proof {
            assert forall|j: int| 0 <= j < 22 implies #[trigger] counts@[j] == denied_count(
                next,
                reason_at(j as nat),
            ) by {
                lemma_rank_round_trip(reason_at(j as nat));
                if let GateDecisionV0::Denied { reason } = records@[i as int].subject_output.gate {
                    lemma_rank_round_trip(reason);
                }
            }
        }
        i = i + 1;
    }
    assert(records@.take(n as int) =~= records@);
    let mut denied_by_reason: DenialCountsV0 = Vec::new();
    let mut k: usize = 0;
    while k < 22
        invariant
            k <= 22,
            n == records@.len(),
            counts@.len() == 22,
            forall|j: int| 0 <= j < 22 ==> #[trigger] counts@[j] == denied_count(
                records@,
                reason_at(j as nat),
            ),
            denied_by_reason@ == denials_below(records@, k as nat),
        decreases 22 - k,
    {
        let c = counts[k];
        if c > 0 {
            denied_by_reason.push((reason_of(k), c));
        }
        k = k + 1;
    }
    RunSummaryV0 {
        admitted_ticks,
        denied_by_reason,
        authorized_ticks,
        suppressed_ticks: suppressed,
        terminal_safety_state: safety_state_class(safety_state),
        replayable,
    }
}

/// Every turn is either authorized or suppressed: the authorized count and
/// the suppressed ticks of a run's summary add up to its number of records.
pub proof fn lemma_summary_partitions_turns<S, C>(
    s: RunSummaryV0,
    records: Seq<TraceRecordV0<S, C>>,
    safety_state: SafetyControllerStateV0,
    replayable: bool,
)
    requires
        summary_matches(s, records, safety_state, replayable),
    ensures
        s.authorized_ticks + s.suppressed_ticks@.len() == records.len(),
{
    lemma_turns_partition(records);
}

proof fn lemma_turns_partition<S, C>(records: Seq<TraceRecordV0<S, C>>)
    ensures
        authorized_count(records) + suppressed_ticks(records).len() == records.len(),
    decreases records.len(),
{
    if records.len() > 0 {
        lemma_turns_partition(records.drop_last());
    }
}

} // verus!
