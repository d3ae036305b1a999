//! Integrity checks on semantic trace evidence: a trace is complete, on its
//! declared virtual timeline, internally consistent, and every recorded
//! safety decision replays from the recorded events.
use vstd::prelude::*;

use crate::contracts::{
    ActuatorIntentV0, FaultKindV0, GateDecisionV0, GateDeniedReasonV0, LifecycleModel,
    ProposalFaultV0, SafetyActionV0, SafetyControllerStateV0, SafetyDispositionV0,
    SafetyTripReasonV0, SemanticTraceV0, SubjectLifecycleV0, SuppressionReasonV0, TraceRecordV0,
    CONTRACT_ID, CONTRACT_SCHEMA_VERSION, PINNED_SO101_MODEL_DIGEST, PROFILE_ID,
    SO101_TICK_PERIOD_NS,
};
use crate::digest::{is_lower_hex_char, is_lower_hex_digest};
use crate::safety::{IntentChecks, SafetyModel};
use crate::text::{
    absorb, check, decimal, decimal_text, is_blank, is_blank_text, join, no_failures, note, owned,
    same_text, texts,
};
use crate::units::sat_mul;
use vstd::string::StrSliceExecFns;

verus! {

/// Verdicts on one record's floating-point values.
#[derive(Debug, Clone, Copy, PartialEq, Eq, Structural)]
pub struct RecordFacts {
    /// Every joint value in the record is finite: the sensor and setpoint
    /// payloads, the estimate, the proposal, intent and actuation commands,
    /// the safety observation and the plant state after the turn.
    pub numeric_finite: bool,
    /// The safety observation equals the previous record's plant state after
    /// the turn (the initial state for the first record).
    pub observation_is_previous_state: bool,
    /// When the motion gate admitted an intent and the record authorizes an
    /// actuation, the two commands are equal.
    pub actuation_matches_intent_command: bool,
    /// What the safety controller's checks say of this record: the safety
    /// observation against the safety limits, and the admitted intent's
    /// command (finite, inside the limits, within the step bound).
    pub safety: IntentChecks,
}

/// Verdicts on a trace's floating-point values.
#[derive(Debug, Clone, PartialEq, Eq)]
pub struct TraceFacts {
    /// Every joint range of the motion gate and safety limits is finite and ordered.
    pub limits_valid: bool,
    /// Every safety step bound is finite and non-negative.
    pub safety_steps_valid: bool,
    /// The safety limits lie inside the motion gate limits and every safety step
    /// bound is at most the motion gate's.
    pub safety_bounds_no_looser: bool,
    /// The initial state lies inside the motion gate and the safety limits.
    pub initial_state_inside: bool,
    /// Both equality tolerances are finite and non-negative.
    pub tolerances_valid: bool,
    /// One entry per record, in order.
    pub records: Vec<RecordFacts>,
}

/// Messages of the checks on a trace's identity, provenance and profile.
pub open spec fn trace_header_failures<S, C, B, Q>(t: SemanticTraceV0<S, C, B, Q>, facts: TraceFacts) -> Seq<Seq<char>> {
    Seq::empty() + check(
        t.schema_version != CONTRACT_SCHEMA_VERSION || t.contract@ != CONTRACT_ID@ || t.profile@
            != PROFILE_ID@,
        "trace schema, contract, or profile is unsupported"@,
    ) + check(
        is_blank_text(t.scenario_name@) || is_blank_text(t.seed@) || is_blank_text(t.subject_id@)
            || is_blank_text(t.plant_id@),
        "trace provenance fields must be non-empty"@,
    ) + check(
        !is_lower_hex_digest(t.scenario_sha256@),
        "scenarioSha256 must be 64 lowercase hexadecimal characters"@,
    ) + check(
        t.model_digest@ != PINNED_SO101_MODEL_DIGEST@,
        "trace model digest does not identify the pinned SO-101 model"@,
    ) + check(
        t.tick_period_ns.0 != SO101_TICK_PERIOD_NS || t.subject_config.tick_period_ns
            != t.tick_period_ns,
        "trace tick period is inconsistent with the pinned profile"@,
    ) + check(
        t.subject_config.schema_version != t.schema_version || t.subject_config.contract@
            != t.contract@ || t.subject_config.profile@ != t.profile@,
        "subject configuration identity differs from trace identity"@,
    )
}

/// Messages of the checks on a trace's policies, record count and
/// replayability.
pub open spec fn trace_policy_failures<S, C, B, Q>(t: SemanticTraceV0<S, C, B, Q>, facts: TraceFacts) -> Seq<Seq<char>> {
    let count = t.records@.len();
    Seq::empty() + check(
        !facts.limits_valid || t.safety_policy.intent_max_age_ns.0 == 0
            || t.safety_policy.heartbeat_timeout_ns.0 == 0 || !facts.safety_steps_valid,
        "trace contains an invalid gate or safety policy"@,
    ) + check(
        !(t.safety_policy.intent_max_age_ns.0 <= t.subject_config.gate_policy.proposal_ttl_ns.0
            && facts.safety_bounds_no_looser),
        "trace safety policy is looser than the subject gate policy"@,
    ) + check(
        !facts.initial_state_inside,
        "trace initial state is outside gate or safety limits"@,
    ) + check(
        !facts.tolerances_valid || !t.equality.require_exact_discrete_trace,
        "trace contains an invalid equality profile"@,
    ) + check(
        t.expected_ticks.0 == 0 || count != t.expected_ticks.0,
        "expected "@ + decimal_text(t.expected_ticks.0 as nat) + " trace records, found "@
            + decimal_text(count),
    ) + check(!t.summary.replayable, "trace is marked non-replayable"@)
}

fn is_lower_hex_text(s: &str) -> (r: bool)
    ensures
        r == is_lower_hex_digest(s@),
{
    let n = s.unicode_len();
    if n != 64 {
        return false;
    }
    let mut i: usize = 0;
    while i < n
        invariant
            n == s@.len(),
            i <= n,
            forall|j: int| 0 <= j < i ==> is_lower_hex_char(#[trigger] s@[j]),
        decreases n - i,
    {
        let c = s.get_char(i);
        if !(('0' <= c && c <= '9') || ('a' <= c && c <= 'f')) {
            return false;
        }
        i = i + 1;
    }
    true
}

fn trace_header_checks<S, C, B, Q>(
    t: &SemanticTraceV0<S, C, B, Q>,
    facts: &TraceFacts,
    failures: &mut Vec<String>,
)
    ensures
        texts(final(failures)@) == texts(old(failures)@) + trace_header_failures(*t, *facts),
{
    let mut local = no_failures();
    note(
        &mut local,
        t.schema_version != CONTRACT_SCHEMA_VERSION || !same_text(t.contract.as_str(), CONTRACT_ID)
            || !same_text(t.profile.as_str(), PROFILE_ID),
        owned("trace schema, contract, or profile is unsupported"),
    );
    note(
        &mut local,
        is_blank(t.scenario_name.as_str()) || is_blank(t.seed.as_str()) || is_blank(
            t.subject_id.as_str(),
        ) || is_blank(t.plant_id.as_str()),
        owned("trace provenance fields must be non-empty"),
    );
    note(
        &mut local,
        !is_lower_hex_text(t.scenario_sha256.as_str()),
        owned("scenarioSha256 must be 64 lowercase hexadecimal characters"),
    );
    note(
        &mut local,
        !same_text(t.model_digest.as_str(), PINNED_SO101_MODEL_DIGEST),
        owned("trace model digest does not identify the pinned SO-101 model"),
    );
    note(
        &mut local,
        t.tick_period_ns.0 != SO101_TICK_PERIOD_NS || t.subject_config.tick_period_ns
            != t.tick_period_ns,
        owned("trace tick period is inconsistent with the pinned profile"),
    );
    note(
        &mut local,
        t.subject_config.schema_version != t.schema_version || !same_text(
            t.subject_config.contract.as_str(),
            t.contract.as_str(),
        ) || !same_text(t.subject_config.profile.as_str(), t.profile.as_str()),
        owned("subject configuration identity differs from trace identity"),
    );
    absorb(failures, local);
}

fn trace_policy_checks<S, C, B, Q>(
    t: &SemanticTraceV0<S, C, B, Q>,
    facts: &TraceFacts,
    failures: &mut Vec<String>,
)
    ensures
        texts(final(failures)@) == texts(old(failures)@) + trace_policy_failures(*t, *facts),
{
    let mut local = no_failures();
    note(
        &mut local,
        !facts.limits_valid || t.safety_policy.intent_max_age_ns.0 == 0
            || t.safety_policy.heartbeat_timeout_ns.0 == 0 || !facts.safety_steps_valid,
        owned("trace contains an invalid gate or safety policy"),
    );
    note(
        &mut local,
        !(t.safety_policy.intent_max_age_ns.0 <= t.subject_config.gate_policy.proposal_ttl_ns.0
            && facts.safety_bounds_no_looser),
        owned("trace safety policy is looser than the subject gate policy"),
    );
    note(
        &mut local,
        !facts.initial_state_inside,
        owned("trace initial state is outside gate or safety limits"),
    );
    note(
        &mut local,
        !facts.tolerances_valid || !t.equality.require_exact_discrete_trace,
        owned("trace contains an invalid equality profile"),
    );
    let count = t.records.len();
    let m = join(owned("expected "), decimal(t.expected_ticks.0).as_str());
    let m = join(m, " trace records, found ");
    let m = join(m, decimal(count as u64).as_str());
    note(&mut local, t.expected_ticks.0 == 0 || count as u64 != t.expected_ticks.0, m);
    note(&mut local, !t.summary.replayable, owned("trace is marked non-replayable"));
    absorb(failures, local);
}

} // verus!

verus! {

/// The first injected proposal fault among `faults[i..]`.
pub open spec fn first_proposal_fault_from(faults: Seq<FaultKindV0>, i: int) -> Option<ProposalFaultV0>
    decreases faults.len() - i,
{
    if i < 0 || i >= faults.len() {
        None
    } else {
        match faults[i] {
            FaultKindV0::Proposal { fault } => Some(fault),
            _ => first_proposal_fault_from(faults, i + 1),
        }
    }
}

/// The first injected proposal fault of a record's active faults.
pub open spec fn first_proposal_fault(faults: Seq<FaultKindV0>) -> Option<ProposalFaultV0> {
    first_proposal_fault_from(faults, 0)
}

pub fn find_proposal_fault(faults: &Vec<FaultKindV0>) -> (r: Option<ProposalFaultV0>)
    ensures
        r == first_proposal_fault(faults@),
{
    let n = faults.len();
    let mut i: usize = 0;
    while i < n
        invariant
            n == faults@.len(),
            i <= n,
            first_proposal_fault(faults@) == first_proposal_fault_from(faults@, i as int),
        decreases n - i,
    {
        match faults[i] {
            FaultKindV0::Proposal { fault } => {
                return Some(fault);
            },
            _ => {},
        }
        i = i + 1;
    }
    None
}

/// Whether the task-fault latch is set, and whether the trip it caused is
/// this fault's own (the controller was not already tripped before it).
#[derive(Debug, Clone, Copy, PartialEq, Eq, Structural)]
pub struct TaskFaultLatch {
    pub latched: bool,
    pub owns_trip: bool,
}

/// The latch after record `i`: it is set by the first record whose
/// scheduled proposal fault is a task error.
pub open spec fn latch_after<S, C>(records: Seq<TraceRecordV0<S, C>>, i: int, prev: TaskFaultLatch) -> TaskFaultLatch {
    if !prev.latched && first_proposal_fault(records[i].active_faults@) == Some(
        ProposalFaultV0::TaskError,
    ) {
        TaskFaultLatch {
            latched: true,
            owns_trip: i == 0 || !(records[i - 1].safety_controller_after.controller_state is Tripped),
        }
    } else {
        prev
    }
}

/// The latch once records `0..n` were inspected.
pub open spec fn latch_upto<S, C>(records: Seq<TraceRecordV0<S, C>>, n: nat) -> TaskFaultLatch
    decreases n,
{
    if n == 0 {
        TaskFaultLatch { latched: false, owns_trip: false }
    } else {
        latch_after(records, n - 1, latch_upto(records, (n - 1) as nat))
    }
}

pub open spec fn record_text(i: nat, suffix: Seq<char>) -> Seq<char> {
    "record "@ + decimal_text(i) + suffix
}

pub open spec fn admitted_intent<C>(gate: GateDecisionV0<C>) -> Option<ActuatorIntentV0<C>> {
    match gate {
        GateDecisionV0::Admitted { intent, .. } => Some(intent),
        _ => None,
    }
}

/// Messages of the checks on record `i` that do not depend on the
/// disposition, under the task-fault latch `latch` (its state after `i`).
#[verifier::opaque]
pub open spec fn record_event_failures<S, C, B, Q>(
    t: SemanticTraceV0<S, C, B, Q>,
    facts: TraceFacts,
    i: nat,
    latch: TaskFaultLatch,
) -> Seq<Seq<char>> {
    let r = t.records@[i as int];
    let f = facts.records@[i as int];
    Seq::empty() + check(
        r.tick.0 != i || r.time_ns.0 != sat_mul(i as u64, t.tick_period_ns.0),
        record_text(i, " is not on the declared virtual timeline"@),
    ) + check(
        r.subject_input.tick != r.tick || r.subject_input.time_ns != r.time_ns,
        record_text(i, " input tick/time does not match the record"@),
    ) + check(
        r.subject_input.proposal_fault != first_proposal_fault(r.active_faults@),
        record_text(i, " proposal-fault input does not match its scheduled event"@),
    ) + check(
        latch.latched && (!(r.subject_output.lifecycle@ matches LifecycleModel::Faulted { reason }
            && !is_blank_text(reason)) || r.subject_output.gate != GateDecisionV0::<C>::Denied {
            reason: GateDeniedReasonV0::TaskError,
        }),
        record_text(i, " does not preserve the injected task-fault lifecycle"@),
    ) + check(
        latch.latched && latch.owns_trip && (r.safety_controller_after.controller_state
            != SafetyControllerStateV0::Tripped { reason: SafetyTripReasonV0::SubjectFault }
            || r.safety_disposition != SafetyDispositionV0::<C>::Suppressed {
            reason: SuppressionReasonV0::Tripped,
        }),
        record_text(i, " does not preserve the immediate SubjectFault trip"@),
    ) + check(!f.numeric_finite, record_text(i, " contains non-finite numeric evidence"@)) + check(
        !f.observation_is_previous_state,
        record_text(i, " safety observation is not the preceding authoritative plant state"@),
    )
}

/// The permit of the `Armed` safety status offered to the subject on this
/// record, when its interlocks are clear.
pub open spec fn offered_armed_permit<S, C>(r: TraceRecordV0<S, C>) -> Option<crate::units::PermitEpoch> {
    match r.subject_input.safety_status {
        Some(frame) => {
            if !frame.payload.interlocks_clear {
                None
            } else {
                match frame.payload.controller_state {
                    SafetyControllerStateV0::Armed { permit_epoch } => Some(permit_epoch),
                    _ => None,
                }
            }
        },
        None => None,
    }
}

/// Messages of the checks on an authorized actuation of record `i`.
#[verifier::opaque]
pub open spec fn record_authorization_failures<S, C, B, Q>(
    t: SemanticTraceV0<S, C, B, Q>,
    facts: TraceFacts,
    i: nat,
) -> Seq<Seq<char>> {
    let r = t.records@[i as int];
    let f = facts.records@[i as int];
    match r.safety_disposition {
        SafetyDispositionV0::Authorized { actuation } => Seq::empty() + check(
            match admitted_intent(r.subject_output.gate) {
                None => true,
                Some(intent) => intent.clock_epoch != t.subject_config.clock_epoch
                    || intent.source_epoch != t.subject_config.subject_source_epoch
                    || intent.sequence != actuation.intent_sequence || intent.permit_epoch
                    != actuation.permit_epoch || !f.actuation_matches_intent_command,
            },
            record_text(i, " authorizes actuation without the matching admitted intent"@),
        ) + check(
            actuation.tick != r.tick || actuation.time_ns != r.time_ns,
            record_text(i, " actuation tick/time is inconsistent"@),
        ) + check(
            offered_armed_permit(r) != Some(actuation.permit_epoch)
                || r.safety_controller_after.controller_state != SafetyControllerStateV0::Armed {
                permit_epoch: actuation.permit_epoch,
            },
            record_text(i, " authorizes actuation outside matching Armed authority"@),
        ),
        SafetyDispositionV0::Suppressed { .. } => Seq::empty(),
    }
}

/// Messages of the per-record checks on records `0..n`.
pub open spec fn record_failures_upto<S, C, B, Q>(
    t: SemanticTraceV0<S, C, B, Q>,
    facts: TraceFacts,
    n: nat,
) -> Seq<Seq<char>>
    decreases n,
{
    if n == 0 {
        seq![]
    } else {
        let i = (n - 1) as nat;
        record_failures_upto(t, facts, i) + record_event_failures(
            t,
            facts,
            i,
            latch_upto(t.records@, n),
        ) + record_authorization_failures(t, facts, i)
    }
}

fn record_message(i: usize, suffix: &str) -> (r: String)
    ensures
        r@ == record_text(i as nat, suffix@),
{
    let m = join(owned("record "), decimal(i as u64).as_str());
    join(m, suffix)
}

fn record_event_checks<S, C, B, Q>(
    t: &SemanticTraceV0<S, C, B, Q>,
    facts: &TraceFacts,
    i: usize,
    latch: TaskFaultLatch,
    failures: &mut Vec<String>,
)
    requires
        i < t.records@.len(),
        facts.records@.len() == t.records@.len(),
    ensures
        texts(final(failures)@) == texts(old(failures)@) + record_event_failures(
            *t,
            *facts,
            i as nat,
            latch,
        ),
{
    reveal(record_event_failures);
    let r = &t.records[i];
    let f = facts.records[i];
    let mut local = no_failures();
    let expected_time = match (i as u64).checked_mul(t.tick_period_ns.0) {
        Some(v) => v,
        None => u64::MAX,
    };
    if r.tick.0 != i as u64 || r.time_ns.0 != expected_time {
        note(&mut local, true, record_message(i, " is not on the declared virtual timeline"));
    } else {
        note(&mut local, false, owned(""));
    }
    if r.subject_input.tick != r.tick || r.subject_input.time_ns != r.time_ns {
        note(&mut local, true, record_message(i, " input tick/time does not match the record"));
    } else {
        note(&mut local, false, owned(""));
    }
    let expected_fault = find_proposal_fault(&r.active_faults);
    let fault_differs = match (r.subject_input.proposal_fault, expected_fault) {
        (Some(a), Some(b)) => a != b,
        (None, None) => false,
        _ => true,
    };
    if fault_differs {
        note(
            &mut local,
            true,
            record_message(i, " proposal-fault input does not match its scheduled event"),
        );
    } else {
        note(&mut local, false, owned(""));
    }
    let lifecycle_kept = match &r.subject_output.lifecycle {
        SubjectLifecycleV0::Faulted { reason } => !is_blank(reason.as_str()),
        SubjectLifecycleV0::Running => false,
    };
    let task_denied = match r.subject_output.gate {
        GateDecisionV0::Denied { reason } => reason == GateDeniedReasonV0::TaskError,
        _ => false,
    };
    if latch.latched && (!lifecycle_kept || !task_denied) {
        note(
            &mut local,
            true,
            record_message(i, " does not preserve the injected task-fault lifecycle"),
        );
    } else {
        note(&mut local, false, owned(""));
    }
    let tripped_by_subject = r.safety_controller_after.controller_state
        == SafetyControllerStateV0::Tripped { reason: SafetyTripReasonV0::SubjectFault };
    let suppressed_as_tripped = match r.safety_disposition {
        SafetyDispositionV0::Suppressed { reason } => reason == SuppressionReasonV0::Tripped,
        _ => false,
    };
    if latch.latched && latch.owns_trip && (!tripped_by_subject || !suppressed_as_tripped) {
        note(
            &mut local,
            true,
            record_message(i, " does not preserve the immediate SubjectFault trip"),
        );
    } else {
        note(&mut local, false, owned(""));
    }
    if !f.numeric_finite {
        note(&mut local, true, record_message(i, " contains non-finite numeric evidence"));
    } else {
        note(&mut local, false, owned(""));
    }
    if !f.observation_is_previous_state {
        note(
            &mut local,
            true,
            record_message(
                i,
                " safety observation is not the preceding authoritative plant state",
            ),
        );
    } else {
        note(&mut local, false, owned(""));
    }
    absorb(failures, local);
}

fn offered_permit<S, C>(r: &TraceRecordV0<S, C>) -> (p: Option<crate::units::PermitEpoch>)
    ensures
        p == offered_armed_permit(*r),
{
    match &r.subject_input.safety_status {
        Some(frame) => {
            if !frame.payload.interlocks_clear {
                None
            } else {
                match frame.payload.controller_state {
                    SafetyControllerStateV0::Armed { permit_epoch } => Some(permit_epoch),
                    _ => None,
                }
            }
        },
        None => None,
    }
}

fn record_authorization_checks<S, C, B, Q>(
    t: &SemanticTraceV0<S, C, B, Q>,
    facts: &TraceFacts,
    i: usize,
    failures: &mut Vec<String>,
)
    requires
        i < t.records@.len(),
        facts.records@.len() == t.records@.len(),
    ensures
        texts(final(failures)@) == texts(old(failures)@) + record_authorization_failures(
            *t,
            *facts,
            i as nat,
        ),
{
    reveal(record_authorization_failures);
    let r = &t.records[i];
    let f = facts.records[i];
    match &r.safety_disposition {
        SafetyDispositionV0::Authorized { actuation } => {
            let mut local = no_failures();
            let unmatched = match &r.subject_output.gate {
                GateDecisionV0::Admitted { intent, .. } => intent.clock_epoch
                    != t.subject_config.clock_epoch || intent.source_epoch
                    != t.subject_config.subject_source_epoch || intent.sequence
                    != actuation.intent_sequence || intent.permit_epoch != actuation.permit_epoch
                    || !f.actuation_matches_intent_command,
                _ => true,
            };
            if unmatched {
                note(
                    &mut local,
                    true,
                    record_message(i, " authorizes actuation without the matching admitted intent"),
                );
            } else {
                note(&mut local, false, owned(""));
            }
            if actuation.tick != r.tick || actuation.time_ns != r.time_ns {
                note(&mut local, true, record_message(i, " actuation tick/time is inconsistent"));
            } else {
                note(&mut local, false, owned(""));
            }
            let offered = offered_permit(r);
            let offered_matches = match offered {
                Some(p) => p == actuation.permit_epoch,
                None => false,
            };
            let still_armed = r.safety_controller_after.controller_state
                == SafetyControllerStateV0::Armed { permit_epoch: actuation.permit_epoch };
            if !offered_matches || !still_armed {
                note(
                    &mut local,
                    true,
                    record_message(i, " authorizes actuation outside matching Armed authority"),
                );
            } else {
                note(&mut local, false, owned(""));
            }
            absorb(failures, local);
        },
        SafetyDispositionV0::Suppressed { .. } => {
            assert(texts(failures@) =~= texts(failures@) + Seq::<Seq<char>>::empty());
        },
    }
}

} // verus!

verus! {

/// The safety model after applying the first `n` of `actions` at `tick`.
pub open spec fn actions_applied(
    m: SafetyModel,
    actions: Seq<SafetyActionV0>,
    tick: crate::units::Tick,
    now: crate::units::VirtualTimeNs,
    n: nat,
) -> SafetyModel
    decreases n,
{
    if n == 0 {
        m
    } else {
        actions_applied(m, actions, tick, now, (n - 1) as nat).after_action(
            tick,
            now,
            actions[n - 1],
        )
    }
}

/// The effect of one active fault on the safety controller: an emergency
/// stop or drive fault trips it, a permit revocation disarms it, and every
/// other fault acts on the streams only.
pub open spec fn fault_effect(m: SafetyModel, fault: FaultKindV0) -> SafetyModel {
    match fault {
        FaultKindV0::EmergencyStop => m.after_trip(SafetyTripReasonV0::EmergencyStop),
        FaultKindV0::DriveFault => m.after_trip(SafetyTripReasonV0::DriveFault),
        FaultKindV0::RevokePermit => m.after_disarm(),
        _ => m,
    }
}

/// The safety model after the first `n` of `faults`.
pub open spec fn faults_applied(m: SafetyModel, faults: Seq<FaultKindV0>, n: nat) -> SafetyModel
    decreases n,
{
    if n == 0 {
        m
    } else {
        fault_effect(faults_applied(m, faults, (n - 1) as nat), faults[n - 1])
    }
}

/// Whether a fault trips the safety controller: an emergency stop or a
/// drive fault.
pub open spec fn trips_controller(f: FaultKindV0) -> bool {
    f == FaultKindV0::EmergencyStop || f == FaultKindV0::DriveFault
}

/// The trip reason a tripping fault gives.
pub open spec fn trip_reason_of(f: FaultKindV0) -> SafetyTripReasonV0 {
    if f == FaultKindV0::DriveFault {
        SafetyTripReasonV0::DriveFault
    } else {
        SafetyTripReasonV0::EmergencyStop
    }
}

/// An emergency stop or a drive fault among the active faults leaves the
/// controller tripped with its interlocks open; a controller that was not
/// tripped before takes the reason of the first such fault. Without such a
/// fault, the faults never trip a controller that was not tripped; a
/// revoked permit then leaves it disarmed, and the other faults (which act
/// on the streams only) leave it untouched.
pub proof fn lemma_trip_faults_trip_the_controller(m: SafetyModel, faults: Seq<FaultKindV0>, n: nat)
    requires
        n <= faults.len(),
    ensures
        (exists|k: int| 0 <= k < n && #[trigger] trips_controller(faults[k])) ==> {
            &&& faults_applied(m, faults, n).state is Tripped
            &&& !faults_applied(m, faults, n).interlocks_clear
        },
        forall|k: int|
            0 <= k < n && #[trigger] trips_controller(faults[k]) && (forall|j: int|
                0 <= j < k ==> !trips_controller(faults[j])) && !(m.state is Tripped)
                ==> faults_applied(m, faults, n).state == (SafetyControllerStateV0::Tripped {
                reason: trip_reason_of(faults[k]),
            }),
        (forall|j: int| 0 <= j < n ==> !trips_controller(#[trigger] faults[j])) && !(
        m.state is Tripped) ==> !(faults_applied(m, faults, n).state is Tripped),
        (forall|j: int| 0 <= j < n ==> !trips_controller(#[trigger] faults[j])) && !(
        m.state is Tripped) && (exists|k: int| 0 <= k < n && #[trigger] faults[k]
            == FaultKindV0::RevokePermit) ==> faults_applied(m, faults, n).state
            == SafetyControllerStateV0::Disarmed,
        (forall|j: int|
            0 <= j < n ==> !trips_controller(#[trigger] faults[j]) && faults[j]
                != FaultKindV0::RevokePermit) ==> faults_applied(m, faults, n) == m,
    decreases n,
{
    if n > 0 {
        lemma_trip_faults_trip_the_controller(m, faults, (n - 1) as nat);
        let f = faults[n - 1];
        if exists|k: int| 0 <= k < n && #[trigger] faults[k] == FaultKindV0::RevokePermit {
            if f != FaultKindV0::RevokePermit {
                let k = choose|k: int| 0 <= k < n && #[trigger] faults[k] == FaultKindV0::RevokePermit;
                assert(k < n - 1);
            }
        }
        if exists|k: int| 0 <= k < n && #[trigger] trips_controller(faults[k]) {
            if !trips_controller(f) {
                let k = choose|k: int| 0 <= k < n && #[trigger] trips_controller(faults[k]);
                assert(k < n - 1);
            }
        }
        assert forall|k: int|
            0 <= k < n && #[trigger] trips_controller(faults[k]) && (forall|j: int|
                0 <= j < k ==> !trips_controller(faults[j])) && !(m.state is Tripped)
                implies faults_applied(m, faults, n).state == (SafetyControllerStateV0::Tripped {
                reason: trip_reason_of(faults[k]),
            }) by {
            if k == n - 1 {
                assert forall|j: int| 0 <= j < n - 1 implies !trips_controller(#[trigger] faults[j]) by {
                    assert(j < k);
                }
            }
        }
    }
}

/// The intent the safety controller is offered on a record: the motion gate's
/// admitted intent, unless the intent was dropped by an injected fault.
pub open spec fn offered_intent<S, C>(r: TraceRecordV0<S, C>) -> Option<ActuatorIntentV0<C>> {
    if r.active_faults@.contains(FaultKindV0::DropIntent) {
        None
    } else {
        admitted_intent(r.subject_output.gate)
    }
}

/// The safety model just before evaluating a record: the scheduled actions,
/// the fault effects, one published status, and a trip if the subject
/// reported a fault.
pub open spec fn before_evaluation<S, C>(m: SafetyModel, r: TraceRecordV0<S, C>) -> SafetyModel {
    let m1 = actions_applied(m, r.safety_actions@, r.tick, r.time_ns, r.safety_actions@.len());
    let m2 = faults_applied(m1, r.active_faults@, r.active_faults@.len());
    let m3 = SafetyModel { status_sequence: crate::units::sat_add(m2.status_sequence, 1), ..m2 };
    if r.subject_output.lifecycle is Faulted {
        m3.after_trip(SafetyTripReasonV0::SubjectFault)
    } else {
        m3
    }
}

/// The replayed safety model and disposition of a record.
pub open spec fn replay_record<S, C>(m: SafetyModel, r: TraceRecordV0<S, C>, f: RecordFacts) -> (
    SafetyModel,
    SafetyDispositionV0<C>,
) {
    before_evaluation(m, r).evaluate(r.tick, r.time_ns, offered_intent(r), f.safety)
}

/// The configured safety model of a trace.
pub open spec fn trace_safety_initial<S, C, B, Q>(t: SemanticTraceV0<S, C, B, Q>) -> SafetyModel {
    SafetyModel::initial(
        t.subject_config.clock_epoch,
        t.subject_config.safety_source_epoch,
        t.subject_config.subject_source_epoch,
        t.safety_policy.intent_max_age_ns.0,
        t.safety_policy.heartbeat_timeout_ns.0,
    )
}

/// The replayed safety model after records `0..n`.
pub open spec fn replayed_model_upto<S, C, B, Q>(
    t: SemanticTraceV0<S, C, B, Q>,
    facts: TraceFacts,
    n: nat,
) -> SafetyModel
    decreases n,
{
    if n == 0 {
        trace_safety_initial(t)
    } else {
        replay_record(
            replayed_model_upto(t, facts, (n - 1) as nat),
            t.records@[n - 1],
            facts.records@[n - 1],
        ).0
    }
}

/// Whether a replayed disposition differs from the recorded one: different
/// kinds, a different suppression reason, different actuation metadata, or
/// (for two authorizations) a recorded command other than the intent's.
pub open spec fn dispositions_differ<C>(
    replayed: SafetyDispositionV0<C>,
    recorded: SafetyDispositionV0<C>,
    command_matches: bool,
) -> bool {
    match (replayed, recorded) {
        (
            SafetyDispositionV0::Suppressed { reason: a },
            SafetyDispositionV0::Suppressed { reason: b },
        ) => a != b,
        (
            SafetyDispositionV0::Authorized { actuation: a },
            SafetyDispositionV0::Authorized { actuation: b },
        ) => a.tick != b.tick || a.time_ns != b.time_ns || a.permit_epoch != b.permit_epoch
            || a.intent_sequence != b.intent_sequence || !command_matches,
        _ => true,
    }
}

/// Messages of the safety replay of record `i`.
pub open spec fn replay_failures_at<S, C, B, Q>(
    t: SemanticTraceV0<S, C, B, Q>,
    facts: TraceFacts,
    i: nat,
) -> Seq<Seq<char>> {
    let r = t.records@[i as int];
    let (m, d) = replay_record(replayed_model_upto(t, facts, i), r, facts.records@[i as int]);
    Seq::empty() + check(
        dispositions_differ(
            d,
            r.safety_disposition,
            facts.records@[i as int].actuation_matches_intent_command,
        ),
        record_text(i, " safety disposition does not replay from recorded events"@),
    ) + check(
        m.snapshot() != r.safety_controller_after,
        record_text(i, " safety state does not replay from recorded events"@),
    )
}

/// Messages of the safety replay of records `0..n`.
pub open spec fn replay_failures_upto<S, C, B, Q>(
    t: SemanticTraceV0<S, C, B, Q>,
    facts: TraceFacts,
    n: nat,
) -> Seq<Seq<char>>
    decreases n,
{
    if n == 0 {
        seq![]
    } else {
        replay_failures_upto(t, facts, (n - 1) as nat) + replay_failures_at(
            t,
            facts,
            (n - 1) as nat,
        )
    }
}

/// Record `i` replays under the independent safety controller: fed the
/// record's events from the controller replayed over the records before it,
/// the controller reproduces the recorded disposition and the recorded
/// controller state.
pub open spec fn record_replays<S, C, B, Q>(t: SemanticTraceV0<S, C, B, Q>, facts: TraceFacts, i: nat) -> bool {
    let r = t.records@[i as int];
    let (m, d) = replay_record(replayed_model_upto(t, facts, i), r, facts.records@[i as int]);
    &&& !dispositions_differ(
        d,
        r.safety_disposition,
        facts.records@[i as int].actuation_matches_intent_command,
    )
    &&& m.snapshot() == r.safety_controller_after
}

pub(crate) proof fn lemma_replay_steps_clean<S, C, B, Q>(
    t: SemanticTraceV0<S, C, B, Q>,
    facts: TraceFacts,
    n: nat,
)
    requires
        replay_failures_upto(t, facts, n).len() == 0,
    ensures
        forall|i: nat| i < n ==> (#[trigger] replay_failures_at(t, facts, i)).len() == 0,
    decreases n,
{
    if n > 0 {
        lemma_replay_steps_clean(t, facts, (n - 1) as nat);
    }
}

} // verus!

verus! {

/// Replays the independent safety controller from each record's scheduled
/// actions, fault effects and admitted intent, and reports every record
/// whose disposition or controller state differs from the recorded one.
fn validate_recorded_safety<S, C: Copy, B: Copy, Q>(
    t: &SemanticTraceV0<S, C, B, Q>,
    facts: &TraceFacts,
    failures: &mut Vec<String>,
)
    requires
        facts.records@.len() == t.records@.len(),
    ensures
        texts(final(failures)@) == texts(old(failures)@) + replay_failures_upto(
            *t,
            *facts,
            t.records@.len(),
        ),
{
    let ghost start = texts(failures@);
    let mut safety = crate::safety::SafetyControllerSim::from_config(
        &t.subject_config,
        t.safety_policy,
    );
    let n = t.records.len();
    let mut i: usize = 0;
    while i < n
        invariant
            n == t.records@.len(),
            facts.records@.len() == n,
            i <= n,
            safety@ == replayed_model_upto(*t, *facts, i as nat),
            texts(failures@) == start + replay_failures_upto(*t, *facts, i as nat),
        decreases n - i,
    {
        let r = &t.records[i];
        let f = facts.records[i];
        let ghost m0 = safety@;
        crate::turn::apply_scheduled_actions(&mut safety, r.tick, r.time_ns, &r.safety_actions);
        crate::turn::apply_fault_effects(&mut safety, &r.active_faults);
        let _ = safety.status(r.time_ns, t.tick_period_ns);
        if matches!(r.subject_output.lifecycle, SubjectLifecycleV0::Faulted { .. }) {
            safety.trip(SafetyTripReasonV0::SubjectFault);
        }
        assert(safety@ == before_evaluation(m0, *r));
        let intent = crate::turn::offered_intent(&r.active_faults, &r.subject_output.gate);
        assert(crate::safety::deref_intent(intent) == offered_intent(*r));
        let expected = safety.evaluate(r.tick, r.time_ns, intent, f.safety);
        let differs = match (&expected, &r.safety_disposition) {
            (
                SafetyDispositionV0::Suppressed { reason: a },
                SafetyDispositionV0::Suppressed { reason: b },
            ) => *a != *b,
            (
                SafetyDispositionV0::Authorized { actuation: a },
                SafetyDispositionV0::Authorized { actuation: b },
            ) => a.tick != b.tick || a.time_ns != b.time_ns || a.permit_epoch != b.permit_epoch
                || a.intent_sequence != b.intent_sequence || !f.actuation_matches_intent_command,
            _ => true,
        };
        let mut local = no_failures();
        if differs {
            note(
                &mut local,
                true,
                record_message(i, " safety disposition does not replay from recorded events"),
            );
        } else {
            note(&mut local, false, owned(""));
        }
        if safety.snapshot() != r.safety_controller_after {
            note(
                &mut local,
                true,
                record_message(i, " safety state does not replay from recorded events"),
            );
        } else {
            note(&mut local, false, owned(""));
        }
        absorb(failures, local);
        i = i + 1;
    }
}

} // verus!

verus! {

/// The message when the recorded summary does not summarize the records.
pub open spec fn summary_failure<S, C, B, Q>(t: SemanticTraceV0<S, C, B, Q>) -> Seq<Seq<char>> {
    check(
        t.records@.len() > 0 && !crate::run_summary::summary_matches(
            t.summary,
            t.records@,
            t.records@.last().safety_controller_after.controller_state,
            t.summary.replayable,
        ),
        "trace summary does not match its records"@,
    )
}

/// Every message `validate_trace_evidence` reports, in order.
pub open spec fn trace_failures<S, C, B, Q>(t: SemanticTraceV0<S, C, B, Q>, facts: TraceFacts) -> Seq<Seq<char>> {
    trace_header_failures(t, facts) + trace_policy_failures(t, facts) + record_failures_upto(
        t,
        facts,
        t.records@.len(),
    ) + replay_failures_upto(t, facts, t.records@.len()) + summary_failure(t)
}

/// Field-wise equality of two run summaries (lists compared by content).
pub open spec fn summaries_equal(a: crate::contracts::RunSummaryV0, b: crate::contracts::RunSummaryV0) -> bool {
    &&& a.admitted_ticks == b.admitted_ticks
    &&& a.denied_by_reason@ == b.denied_by_reason@
    &&& a.authorized_ticks == b.authorized_ticks
    &&& a.suppressed_ticks@ == b.suppressed_ticks@
    &&& a.terminal_safety_state == b.terminal_safety_state
    &&& a.replayable == b.replayable
}

pub fn same_summary(a: &crate::contracts::RunSummaryV0, b: &crate::contracts::RunSummaryV0) -> (r: bool)
    ensures
        r == summaries_equal(*a, *b),
{
    a.admitted_ticks == b.admitted_ticks && a.authorized_ticks == b.authorized_ticks
        && a.terminal_safety_state == b.terminal_safety_state && a.replayable == b.replayable
        && same_ticks(&a.suppressed_ticks, &b.suppressed_ticks) && same_denials(
        &a.denied_by_reason,
        &b.denied_by_reason,
    )
}

/// Element-wise equality of two tick lists.
pub fn same_ticks(a: &Vec<crate::units::Tick>, b: &Vec<crate::units::Tick>) -> (r: bool)
    ensures
        r == (a@ == b@),
{
    let n = a.len();
    if n != b.len() {
        return false;
    }
    let mut i: usize = 0;
    while i < n
        invariant
            n == a@.len(),
            n == b@.len(),
            i <= n,
            forall|k: int| 0 <= k < i ==> a@[k] == b@[k],
        decreases n - i,
    {
        if a[i] != b[i] {
            return false;
        }
        i = i + 1;
    }
    assert(a@ =~= b@);
    true
}

/// Element-wise equality of two denial-count lists.
pub fn same_denials(
    a: &Vec<(GateDeniedReasonV0, u64)>,
    b: &Vec<(GateDeniedReasonV0, u64)>,
) -> (r: bool)
    ensures
        r == (a@ == b@),
{
    let m = a.len();
    if m != b.len() {
        return false;
    }
    let mut i: usize = 0;
    while i < m
        invariant
            m == a@.len(),
            m == b@.len(),
            i <= m,
            forall|k: int| 0 <= k < i ==> a@[k] == b@[k],
        decreases m - i,
    {
        let (ra, ca) = a[i];
        let (rb, cb) = b[i];
        if ra != rb || ca != cb {
            return false;
        }
        i = i + 1;
    }
    assert(a@ =~= b@);
    true
}

fn next_latch<S, C>(records: &Vec<TraceRecordV0<S, C>>, i: usize, latch: TaskFaultLatch) -> (r:
    TaskFaultLatch)
    requires
        i < records@.len(),
    ensures
        r == latch_after(records@, i as int, latch),
{
    if latch.latched {
        return latch;
    }
    let expected = find_proposal_fault(&records[i].active_faults);
    if matches!(expected, Some(ProposalFaultV0::TaskError)) {
        let owns = if i == 0 {
            true
        } else {
            !matches!(
                records[i - 1].safety_controller_after.controller_state,
                SafetyControllerStateV0::Tripped { .. }
            )
        };
        TaskFaultLatch { latched: true, owns_trip: owns }
    } else {
        latch
    }
}

fn record_checks<S, C, B, Q>(
    t: &SemanticTraceV0<S, C, B, Q>,
    facts: &TraceFacts,
    i: usize,
    latch: TaskFaultLatch,
    failures: &mut Vec<String>,
)
    requires
        i < t.records@.len(),
        facts.records@.len() == t.records@.len(),
        latch == latch_upto(t.records@, (i + 1) as nat),
    ensures
        texts(final(failures)@) == texts(old(failures)@) + record_event_failures(
            *t,
            *facts,
            i as nat,
            latch,
        ) + record_authorization_failures(*t, *facts, i as nat),
        record_failures_upto(*t, *facts, (i + 1) as nat) == record_failures_upto(
            *t,
            *facts,
            i as nat,
        ) + record_event_failures(*t, *facts, i as nat, latch) + record_authorization_failures(
            *t,
            *facts,
            i as nat,
        ),
{
    record_event_checks(t, facts, i, latch, failures);
    record_authorization_checks(t, facts, i, failures);
    proof {
        let a = record_failures_upto(*t, *facts, i as nat);
        let b = record_event_failures(*t, *facts, i as nat, latch);
        let c = record_authorization_failures(*t, *facts, i as nat);
        assert(record_failures_upto(*t, *facts, (i + 1) as nat) == a + b + c);
    }
}

/// A trace that passes validation is what the independent safety
/// controller produces from its recorded events: configured from the trace's
/// subject configuration and safety policy, and driven record by record
/// through the scheduled actions, the fault effects, one published status and
/// a trip on a faulted subject, it evaluates every record to the recorded
/// disposition and leaves the recorded controller state; and the recorded
/// summary is the summary of the records.
pub proof fn lemma_valid_trace_replays_safety<S, C, B, Q>(
    t: SemanticTraceV0<S, C, B, Q>,
    facts: TraceFacts,
)
    requires
        facts.records@.len() == t.records@.len(),
        trace_failures(t, facts).len() == 0,
    ensures
        forall|i: nat| i < t.records@.len() ==> #[trigger] record_replays(t, facts, i),
        t.records@.len() > 0 ==> crate::run_summary::summary_matches(
            t.summary,
            t.records@,
            t.records@.last().safety_controller_after.controller_state,
            t.summary.replayable,
        ),
{
    let len = t.records@.len();
    assert(replay_failures_upto(t, facts, len).len() == 0);
    assert(summary_failure(t).len() == 0);
    lemma_replay_steps_clean(t, facts, len);
    assert forall|i: nat| i < len implies #[trigger] record_replays(t, facts, i) by {
        assert(replay_failures_at(t, facts, i).len() == 0);
    }
}

/// `b` is `a` under another subject identity: every field but `subject_id`
/// is the same.
pub open spec fn renamed_subject<S, C, B, Q>(
    a: SemanticTraceV0<S, C, B, Q>,
    b: SemanticTraceV0<S, C, B, Q>,
) -> bool {
    b == (SemanticTraceV0 { subject_id: b.subject_id, ..a })
}

proof fn lemma_renamed_records_check_alike<S, C, B, Q>(
    a: SemanticTraceV0<S, C, B, Q>,
    b: SemanticTraceV0<S, C, B, Q>,
    facts: TraceFacts,
    n: nat,
)
    requires
        renamed_subject(a, b),
    ensures
        record_failures_upto(b, facts, n) == record_failures_upto(a, facts, n),
        replayed_model_upto(b, facts, n) == replayed_model_upto(a, facts, n),
        replay_failures_upto(b, facts, n) == replay_failures_upto(a, facts, n),
    decreases n,
{
    if n > 0 {
        let i = (n - 1) as nat;
        lemma_renamed_records_check_alike(a, b, facts, i);
        lemma_renamed_record_checks_alike(a, b, facts, i, latch_upto(a.records@, n));
        assert(trace_safety_initial(b) == trace_safety_initial(a));
    }
}

proof fn lemma_renamed_record_checks_alike<S, C, B, Q>(
    a: SemanticTraceV0<S, C, B, Q>,
    b: SemanticTraceV0<S, C, B, Q>,
    facts: TraceFacts,
    i: nat,
    latch: TaskFaultLatch,
)
    requires
        renamed_subject(a, b),
    ensures
        record_event_failures(b, facts, i, latch) == record_event_failures(a, facts, i, latch),
        record_authorization_failures(b, facts, i) == record_authorization_failures(a, facts, i),
{
    assert(b.records == a.records);
    assert(b.tick_period_ns == a.tick_period_ns);
    assert(b.subject_config == a.subject_config);
    reveal(record_event_failures);
    reveal(record_authorization_failures);
}

/// Validation does not depend on who the subject is: a trace and its copy
/// under another non-blank subject identity report the same failures.
pub proof fn lemma_validation_ignores_subject_identity<S, C, B, Q>(
    a: SemanticTraceV0<S, C, B, Q>,
    b: SemanticTraceV0<S, C, B, Q>,
    facts: TraceFacts,
)
    requires
        renamed_subject(a, b),
        !is_blank_text(a.subject_id@),
        !is_blank_text(b.subject_id@),
    ensures
        trace_failures(b, facts) == trace_failures(a, facts),
{
    lemma_renamed_records_check_alike(a, b, facts, a.records@.len());
    assert(trace_header_failures(b, facts) == trace_header_failures(a, facts));
    assert(trace_policy_failures(b, facts) == trace_policy_failures(a, facts));
    assert(summary_failure(b) == summary_failure(a));
}

/// A trace whose record count is not its declared tick count fails
/// validation.
pub proof fn lemma_incomplete_trace_fails_validation<S, C, B, Q>(
    t: SemanticTraceV0<S, C, B, Q>,
    facts: TraceFacts,
)
    requires
        t.records@.len() != t.expected_ticks.0,
    ensures
        trace_failures(t, facts).len() > 0,
{
    assert(trace_policy_failures(t, facts).len() > 0);
}

/// Checks that a semantic trace is complete, finite, internally consistent,
/// and safe to use as replay or comparison evidence: its identity and
/// provenance, its policies, one record per declared tick on the virtual
/// timeline, the task-fault latch, every authorization backed by a matching
/// admitted intent under matching `Armed` authority, a safety controller that
/// replays from the recorded events, and a summary that matches the records.
/// `facts` carries the floating-point verdicts, one entry per record.
///
/// Returns every discovered failure, in that order.
pub fn validate_trace_evidence<S, C: Copy, B: Copy, Q>(
    trace: &SemanticTraceV0<S, C, B, Q>,
    facts: &TraceFacts,
) -> (r: Result<(), Vec<String>>)
    requires
        facts.records@.len() == trace.records@.len(),
    ensures
        match r {
            Ok(()) => trace_failures(*trace, *facts).len() == 0,
            Err(failures) => texts(failures@) == trace_failures(*trace, *facts)
                && failures@.len() > 0,
        },
{
    let mut failures = no_failures();
    trace_header_checks(trace, facts, &mut failures);
    trace_policy_checks(trace, facts, &mut failures);
    let ghost before_records = texts(failures@);
    let n = trace.records.len();
    let mut latch = TaskFaultLatch { latched: false, owns_trip: false };
    let mut i: usize = 0;
    while i < n
        invariant
            n == trace.records@.len(),
            facts.records@.len() == n,
            i <= n,
            latch == latch_upto(trace.records@, i as nat),
            texts(failures@) == before_records + record_failures_upto(*trace, *facts, i as nat),
        decreases n - i,
    {
        latch = next_latch(&trace.records, i, latch);
        let ghost prior = texts(failures@);
        record_checks(trace, facts, i, latch, &mut failures);
        proof {
            let a = record_failures_upto(*trace, *facts, i as nat);
            let b = record_event_failures(*trace, *facts, i as nat, latch);
            let c = record_authorization_failures(*trace, *facts, i as nat);
            assert(texts(failures@) =~= before_records + record_failures_upto(
                *trace,
                *facts,
                (i + 1) as nat,
            ));
        }
        i = i + 1;
    }
    validate_recorded_safety(trace, facts, &mut failures);
    if n > 0 {
        let last = &trace.records[n - 1];
        let recomputed = crate::run_summary::summarize(
            trace.records.as_slice(),
            &last.safety_controller_after.controller_state,
            trace.summary.replayable,
        );
        let matches = same_summary(&trace.summary, &recomputed);
        note(&mut failures, !matches, owned("trace summary does not match its records"));
    } else {
        note(&mut failures, false, owned(""));
    }
    assert(texts(failures@) =~= trace_failures(*trace, *facts));
    if failures.len() == 0 {
        Ok(())
    } else {
        Err(failures)
    }
}

} // verus!
