//! The decisions of one control turn of a scenario run: which scheduled
//! actions and faults apply, how injected faults reshape each input stream,
//! how a failed subject turn is contained, and what is offered to the
//! independent safety controller.
//!
//! The run loop itself calls the subject and the plant; every decision it
//! takes between those calls is one of the functions below.
use vstd::prelude::*;

use crate::contracts::{
    SemanticTraceV0, SubjectConfigV0, TraceRecordV0, CONTRACT_ID, CONTRACT_SCHEMA_VERSION,
    PROFILE_ID, LifecycleModel, OutputModel, ActuatorIntentV0, EnvelopeV0, FaultKindV0, GateDecisionV0, GateDeniedReasonV0,
    InvalidReasonV0, SafetyActionV0, SafetyControllerStateV0, SafetyDispositionV0,
    SafetyStatusFrameV0, SafetyStatusV0, SafetyTripReasonV0, ScenarioV0,
    ScheduledFaultV0, ScheduledSafetyActionV0, SetpointKeyframeV0, SubjectLifecycleV0,
    SubjectOutputV0, ValidityV0,
};
use crate::evidence::{actions_applied, fault_effect, faults_applied};
use crate::harness::{subject_error_text, SubjectError};
use crate::reference::StreamKind;
use crate::safety::{deref_intent, IntentChecks, SafetyControllerSim, SafetyModel};
use crate::text::{join, join_all, joined, owned, same_text};
use crate::scenario::{scenario_failures, validate_scenario, ScenarioFacts};
use crate::run_summary::{summarize, summary_matches};
use crate::units::{
    sat_add, sat_mul, sat_sub, ClockEpoch, DurationNs, PermitEpoch, Sequence, SourceEpoch, Tick,
    VirtualTimeNs,
};

verus! {

/// The safety actions scheduled at `tick`, in schedule order.
pub open spec fn actions_due(schedule: Seq<ScheduledSafetyActionV0>, tick: Tick) -> Seq<SafetyActionV0>
    decreases schedule.len(),
{
    if schedule.len() == 0 {
        seq![]
    } else {
        let earlier = actions_due(schedule.drop_last(), tick);
        if schedule.last().at_tick == tick {
            earlier.push(schedule.last().action)
        } else {
            earlier
        }
    }
}

/// The faults whose window contains `tick`, in schedule order.
pub open spec fn faults_active(schedule: Seq<ScheduledFaultV0>, tick: Tick) -> Seq<FaultKindV0>
    decreases schedule.len(),
{
    if schedule.len() == 0 {
        seq![]
    } else {
        let earlier = faults_active(schedule.drop_last(), tick);
        if schedule.last().spec_active_at(tick) {
            earlier.push(schedule.last().fault)
        } else {
            earlier
        }
    }
}

pub fn scheduled_actions_at(schedule: &Vec<ScheduledSafetyActionV0>, tick: Tick) -> (r: Vec<
    SafetyActionV0,
>)
    ensures
        r@ == actions_due(schedule@, tick),
{
    let mut r: Vec<SafetyActionV0> = Vec::new();
    let n = schedule.len();
    let mut i: usize = 0;
    while i < n
        invariant
            n == schedule@.len(),
            i <= n,
            r@ == actions_due(schedule@.take(i as int), tick),
        decreases n - i,
    {
        assert(schedule@.take(i as int + 1).drop_last() =~= schedule@.take(i as int));
        if schedule[i].at_tick == tick {
            r.push(schedule[i].action);
        }
        i = i + 1;
    }
    assert(schedule@.take(n as int) =~= schedule@);
    r
}

pub fn active_faults_at(schedule: &Vec<ScheduledFaultV0>, tick: Tick) -> (r: Vec<FaultKindV0>)
    ensures
        r@ == faults_active(schedule@, tick),
{
    let mut r: Vec<FaultKindV0> = Vec::new();
    let n = schedule.len();
    let mut i: usize = 0;
    while i < n
        invariant
            n == schedule@.len(),
            i <= n,
            r@ == faults_active(schedule@.take(i as int), tick),
        decreases n - i,
    {
        assert(schedule@.take(i as int + 1).drop_last() =~= schedule@.take(i as int));
        if schedule[i].active_at(tick) {
            r.push(schedule[i].fault);
        }
        i = i + 1;
    }
    assert(schedule@.take(n as int) =~= schedule@);
    r
}

/// Applies `actions` to the controller, in order.
pub fn apply_scheduled_actions<B: Copy>(
    safety: &mut SafetyControllerSim<B>,
    tick: Tick,
    now: VirtualTimeNs,
    actions: &Vec<SafetyActionV0>,
)
    ensures
        final(safety)@ == actions_applied(old(safety)@, actions@, tick, now, actions@.len()),
        final(safety).configured_policy() == old(safety).configured_policy(),
{
    let ghost m0 = safety@;
    let n = actions.len();
    let mut j: usize = 0;
    while j < n
        invariant
            n == actions@.len(),
            j <= n,
            safety@ == actions_applied(m0, actions@, tick, now, j as nat),
            safety.configured_policy() == old(safety).configured_policy(),
        decreases n - j,
    {
        safety.apply_action(tick, now, &actions[j]);
        j = j + 1;
    }
}

/// Applies the safety effect of each fault: an emergency stop or drive fault
/// trips the controller, a permit revocation disarms it.
pub fn apply_fault_effects<B: Copy>(safety: &mut SafetyControllerSim<B>, faults: &Vec<FaultKindV0>)
    ensures
        final(safety)@ == faults_applied(old(safety)@, faults@, faults@.len()),
        final(safety).configured_policy() == old(safety).configured_policy(),
{
    let ghost m0 = safety@;
    let n = faults.len();
    let mut j: usize = 0;
    while j < n
        invariant
            n == faults@.len(),
            j <= n,
            safety@ == faults_applied(m0, faults@, j as nat),
            safety.configured_policy() == old(safety).configured_policy(),
        decreases n - j,
    {
        match faults[j] {
            FaultKindV0::EmergencyStop => safety.trip(SafetyTripReasonV0::EmergencyStop),
            FaultKindV0::DriveFault => safety.trip(SafetyTripReasonV0::DriveFault),
            FaultKindV0::RevokePermit => safety.disarm(),
            _ => {},
        }
        j = j + 1;
    }
}

/// Opens the turn at `tick`: applies the safety actions scheduled at it,
/// then the safety effects of the faults active at it, and returns both
/// lists as they will be recorded.
pub fn begin_turn<S, C, B: Copy, M, Q>(
    scenario: &ScenarioV0<S, C, B, M, Q>,
    safety: &mut SafetyControllerSim<B>,
    tick: Tick,
    now: VirtualTimeNs,
) -> (r: (Vec<SafetyActionV0>, Vec<FaultKindV0>))
    ensures
        r.0@ == actions_due(scenario.safety_actions@, tick),
        r.1@ == faults_active(scenario.faults@, tick),
        final(safety)@ == faults_applied(
            actions_applied(old(safety)@, r.0@, tick, now, r.0@.len()),
            r.1@,
            r.1@.len(),
        ),
        final(safety).configured_policy() == old(safety).configured_policy(),
{
    let actions = scheduled_actions_at(&scenario.safety_actions, tick);
    apply_scheduled_actions(safety, tick, now, &actions);
    let faults = active_faults_at(&scenario.faults, tick);
    apply_fault_effects(safety, &faults);
    (actions, faults)
}

} // verus!

verus! {

/// An injected fault on one stream's envelope.
#[derive(Debug, Clone, Copy, PartialEq, Eq, Structural)]
pub enum EnvelopeFault {
    Invalidate(InvalidReasonV0),
    OutOfRange,
    Future(DurationNs),
    OverAge(DurationNs),
    Stale(DurationNs),
    Duplicate,
    Reorder,
    WrongClockEpoch,
    WrongSourceEpoch,
}

/// What `fault` does to the envelope of `stream`, if anything.
pub open spec fn envelope_fault(fault: FaultKindV0, stream: StreamKind) -> Option<EnvelopeFault> {
    match stream {
        StreamKind::Sensor => match fault {
            FaultKindV0::InvalidateSensor { reason } => Some(EnvelopeFault::Invalidate(reason)),
            FaultKindV0::OutOfRangeSensor => Some(EnvelopeFault::OutOfRange),
            FaultKindV0::FutureSensor { offset_ns } => Some(EnvelopeFault::Future(offset_ns)),
            FaultKindV0::OverAgeSensor { age_ns } => Some(EnvelopeFault::OverAge(age_ns)),
            FaultKindV0::StaleSensor { age_ns } => Some(EnvelopeFault::Stale(age_ns)),
            FaultKindV0::DuplicateSensor => Some(EnvelopeFault::Duplicate),
            FaultKindV0::ReorderSensor => Some(EnvelopeFault::Reorder),
            FaultKindV0::WrongSensorClockEpoch => Some(EnvelopeFault::WrongClockEpoch),
            FaultKindV0::WrongSensorSourceEpoch => Some(EnvelopeFault::WrongSourceEpoch),
            _ => None,
        },
        StreamKind::Setpoint => match fault {
            FaultKindV0::InvalidateSetpoint { reason } => Some(EnvelopeFault::Invalidate(reason)),
            FaultKindV0::OutOfRangeSetpoint => Some(EnvelopeFault::OutOfRange),
            FaultKindV0::FutureSetpoint { offset_ns } => Some(EnvelopeFault::Future(offset_ns)),
            FaultKindV0::OverAgeSetpoint { age_ns } => Some(EnvelopeFault::OverAge(age_ns)),
            FaultKindV0::StaleSetpoint { age_ns } => Some(EnvelopeFault::Stale(age_ns)),
            FaultKindV0::DuplicateSetpoint => Some(EnvelopeFault::Duplicate),
            FaultKindV0::ReorderSetpoint => Some(EnvelopeFault::Reorder),
            FaultKindV0::WrongSetpointClockEpoch => Some(EnvelopeFault::WrongClockEpoch),
            FaultKindV0::WrongSetpointSourceEpoch => Some(EnvelopeFault::WrongSourceEpoch),
            _ => None,
        },
        StreamKind::Safety => match fault {
            FaultKindV0::InvalidateSafetyStatus { reason } => Some(
                EnvelopeFault::Invalidate(reason),
            ),
            FaultKindV0::FutureSafetyStatus { offset_ns } => Some(EnvelopeFault::Future(offset_ns)),
            FaultKindV0::OverAgeSafetyStatus { age_ns } => Some(EnvelopeFault::OverAge(age_ns)),
            FaultKindV0::StaleSafetyStatus { age_ns } => Some(EnvelopeFault::Stale(age_ns)),
            FaultKindV0::DuplicateSafetyStatus => Some(EnvelopeFault::Duplicate),
            FaultKindV0::ReorderSafetyStatus => Some(EnvelopeFault::Reorder),
            FaultKindV0::WrongSafetyClockEpoch => Some(EnvelopeFault::WrongClockEpoch),
            FaultKindV0::WrongSafetySourceEpoch => Some(EnvelopeFault::WrongSourceEpoch),
            _ => None,
        },
    }
}

/// The envelope after one fault. Timestamps and sequence numbers saturate;
/// a wrong epoch is the stream's configured epoch plus one (saturating); an
/// out-of-range fault replaces the payload with `out_of_range`.
pub open spec fn faulted<T>(
    e: EnvelopeV0<T>,
    f: EnvelopeFault,
    clock_epoch: ClockEpoch,
    source_epoch: SourceEpoch,
    out_of_range: T,
) -> EnvelopeV0<T> {
    match f {
        EnvelopeFault::Invalidate(reason) => EnvelopeV0 { validity: ValidityV0::Invalid(reason), ..e },
        EnvelopeFault::OutOfRange => EnvelopeV0 { payload: out_of_range, ..e },
        EnvelopeFault::Future(offset) => EnvelopeV0 {
            captured_at_ns: VirtualTimeNs(sat_add(e.captured_at_ns.0, offset.0)),
            valid_until_ns: VirtualTimeNs(sat_add(e.valid_until_ns.0, offset.0)),
            ..e
        },
        EnvelopeFault::OverAge(age) => EnvelopeV0 {
            captured_at_ns: VirtualTimeNs(sat_sub(e.captured_at_ns.0, age.0)),
            ..e
        },
        EnvelopeFault::Stale(age) => EnvelopeV0 {
            captured_at_ns: VirtualTimeNs(sat_sub(e.captured_at_ns.0, age.0)),
            valid_until_ns: VirtualTimeNs(sat_sub(e.captured_at_ns.0, age.0)),
            ..e
        },
        EnvelopeFault::Duplicate => EnvelopeV0 { sequence: Sequence(sat_sub(e.sequence.0, 1)), ..e },
        EnvelopeFault::Reorder => EnvelopeV0 { sequence: Sequence(sat_sub(e.sequence.0, 2)), ..e },
        EnvelopeFault::WrongClockEpoch => EnvelopeV0 {
            clock_epoch: ClockEpoch(sat_add(clock_epoch.0, 1)),
            ..e
        },
        EnvelopeFault::WrongSourceEpoch => EnvelopeV0 {
            source_epoch: SourceEpoch(sat_add(source_epoch.0, 1)),
            ..e
        },
    }
}

/// A payload fault on the safety status: an opened interlock, or a permit
/// epoch one past the controller's (saturating; only when armed).
pub open spec fn status_payload_faulted(status: SafetyStatusV0, fault: FaultKindV0) -> SafetyStatusV0 {
    match fault {
        FaultKindV0::OpenSafetyInterlock => SafetyStatusV0 { interlocks_clear: false, ..status },
        FaultKindV0::WrongSafetyPermitEpoch => match status.controller_state {
            SafetyControllerStateV0::Armed { permit_epoch } => SafetyStatusV0 {
                controller_state: SafetyControllerStateV0::Armed {
                    permit_epoch: PermitEpoch(sat_add(permit_epoch.0, 1)),
                },
                ..status
            },
            _ => status,
        },
        _ => status,
    }
}

/// One fault's effect on a frame of `stream`.
pub open spec fn stream_fault_effect<T>(
    e: EnvelopeV0<T>,
    fault: FaultKindV0,
    stream: StreamKind,
    clock_epoch: ClockEpoch,
    source_epoch: SourceEpoch,
    out_of_range: T,
) -> EnvelopeV0<T> {
    match envelope_fault(fault, stream) {
        Some(f) => faulted(e, f, clock_epoch, source_epoch, out_of_range),
        None => e,
    }
}

/// A frame of `stream` after the first `n` of `faults`.
pub open spec fn stream_faults_applied<T>(
    e: EnvelopeV0<T>,
    faults: Seq<FaultKindV0>,
    stream: StreamKind,
    clock_epoch: ClockEpoch,
    source_epoch: SourceEpoch,
    out_of_range: T,
    n: nat,
) -> EnvelopeV0<T>
    decreases n,
{
    if n == 0 {
        e
    } else {
        stream_fault_effect(
            stream_faults_applied(e, faults, stream, clock_epoch, source_epoch, out_of_range, (n - 1) as nat),
            faults[n - 1],
            stream,
            clock_epoch,
            source_epoch,
            out_of_range,
        )
    }
}

/// A safety-status frame after the first `n` of `faults`.
pub open spec fn status_faults_applied(
    e: SafetyStatusFrameV0,
    faults: Seq<FaultKindV0>,
    clock_epoch: ClockEpoch,
    source_epoch: SourceEpoch,
    n: nat,
) -> SafetyStatusFrameV0
    decreases n,
{
    if n == 0 {
        e
    } else {
        let prior = status_faults_applied(e, faults, clock_epoch, source_epoch, (n - 1) as nat);
        let f = faults[n - 1];
        let enveloped = stream_fault_effect(prior, f, StreamKind::Safety, clock_epoch, source_epoch, prior.payload);
        EnvelopeV0 { payload: status_payload_faulted(enveloped.payload, f), ..enveloped }
    }
}

/// Whether `faults` drops the frame of `stream` this turn.
pub open spec fn dropped(faults: Seq<FaultKindV0>, stream: StreamKind) -> bool {
    faults.contains(drop_fault(stream))
}

/// The fault that drops the frame of `stream`.
pub open spec fn drop_fault(stream: StreamKind) -> FaultKindV0 {
    match stream {
        StreamKind::Sensor => FaultKindV0::DropSensor,
        StreamKind::Setpoint => FaultKindV0::DropSetpoint,
        StreamKind::Safety => FaultKindV0::DropSafetyStatus,
    }
}

fn apply_envelope_fault<T: Copy>(
    e: &mut EnvelopeV0<T>,
    f: EnvelopeFault,
    clock_epoch: ClockEpoch,
    source_epoch: SourceEpoch,
    out_of_range: T,
)
    ensures
        *final(e) == faulted(*old(e), f, clock_epoch, source_epoch, out_of_range),
{
    match f {
        EnvelopeFault::Invalidate(reason) => {
            e.validity = ValidityV0::Invalid(reason);
        },
        EnvelopeFault::OutOfRange => {
            e.payload = out_of_range;
        },
        EnvelopeFault::Future(offset) => {
            e.captured_at_ns = VirtualTimeNs(e.captured_at_ns.0.saturating_add(offset.0));
            e.valid_until_ns = VirtualTimeNs(e.valid_until_ns.0.saturating_add(offset.0));
        },
        EnvelopeFault::OverAge(age) => {
            e.captured_at_ns = VirtualTimeNs(e.captured_at_ns.0.saturating_sub(age.0));
        },
        EnvelopeFault::Stale(age) => {
            e.captured_at_ns = VirtualTimeNs(e.captured_at_ns.0.saturating_sub(age.0));
            e.valid_until_ns = e.captured_at_ns;
        },
        EnvelopeFault::Duplicate => {
            e.sequence = Sequence(e.sequence.0.saturating_sub(1));
        },
        EnvelopeFault::Reorder => {
            e.sequence = Sequence(e.sequence.0.saturating_sub(2));
        },
        EnvelopeFault::WrongClockEpoch => {
            e.clock_epoch = ClockEpoch(clock_epoch.0.saturating_add(1));
        },
        EnvelopeFault::WrongSourceEpoch => {
            e.source_epoch = SourceEpoch(source_epoch.0.saturating_add(1));
        },
    }
}

fn envelope_fault_of(fault: FaultKindV0, stream: StreamKind) -> (r: Option<EnvelopeFault>)
    ensures
        r == envelope_fault(fault, stream),
{
    match stream {
        StreamKind::Sensor => match fault {
            FaultKindV0::InvalidateSensor { reason } => Some(EnvelopeFault::Invalidate(reason)),
            FaultKindV0::OutOfRangeSensor => Some(EnvelopeFault::OutOfRange),
            FaultKindV0::FutureSensor { offset_ns } => Some(EnvelopeFault::Future(offset_ns)),
            FaultKindV0::OverAgeSensor { age_ns } => Some(EnvelopeFault::OverAge(age_ns)),
            FaultKindV0::StaleSensor { age_ns } => Some(EnvelopeFault::Stale(age_ns)),
            FaultKindV0::DuplicateSensor => Some(EnvelopeFault::Duplicate),
            FaultKindV0::ReorderSensor => Some(EnvelopeFault::Reorder),
            FaultKindV0::WrongSensorClockEpoch => Some(EnvelopeFault::WrongClockEpoch),
            FaultKindV0::WrongSensorSourceEpoch => Some(EnvelopeFault::WrongSourceEpoch),
            _ => None,
        },
        StreamKind::Setpoint => match fault {
            FaultKindV0::InvalidateSetpoint { reason } => Some(EnvelopeFault::Invalidate(reason)),
            FaultKindV0::OutOfRangeSetpoint => Some(EnvelopeFault::OutOfRange),
            FaultKindV0::FutureSetpoint { offset_ns } => Some(EnvelopeFault::Future(offset_ns)),
            FaultKindV0::OverAgeSetpoint { age_ns } => Some(EnvelopeFault::OverAge(age_ns)),
            FaultKindV0::StaleSetpoint { age_ns } => Some(EnvelopeFault::Stale(age_ns)),
            FaultKindV0::DuplicateSetpoint => Some(EnvelopeFault::Duplicate),
            FaultKindV0::ReorderSetpoint => Some(EnvelopeFault::Reorder),
            FaultKindV0::WrongSetpointClockEpoch => Some(EnvelopeFault::WrongClockEpoch),
            FaultKindV0::WrongSetpointSourceEpoch => Some(EnvelopeFault::WrongSourceEpoch),
            _ => None,
        },
        StreamKind::Safety => match fault {
            FaultKindV0::InvalidateSafetyStatus { reason } => Some(
                EnvelopeFault::Invalidate(reason),
            ),
            FaultKindV0::FutureSafetyStatus { offset_ns } => Some(EnvelopeFault::Future(offset_ns)),
            FaultKindV0::OverAgeSafetyStatus { age_ns } => Some(EnvelopeFault::OverAge(age_ns)),
            FaultKindV0::StaleSafetyStatus { age_ns } => Some(EnvelopeFault::Stale(age_ns)),
            FaultKindV0::DuplicateSafetyStatus => Some(EnvelopeFault::Duplicate),
            FaultKindV0::ReorderSafetyStatus => Some(EnvelopeFault::Reorder),
            FaultKindV0::WrongSafetyClockEpoch => Some(EnvelopeFault::WrongClockEpoch),
            FaultKindV0::WrongSafetySourceEpoch => Some(EnvelopeFault::WrongSourceEpoch),
            _ => None,
        },
    }
}

fn is_dropped(faults: &Vec<FaultKindV0>, stream: StreamKind) -> (r: bool)
    ensures
        r == dropped(faults@, stream),
{
    let target = match stream {
        StreamKind::Sensor => FaultKindV0::DropSensor,
        StreamKind::Setpoint => FaultKindV0::DropSetpoint,
        StreamKind::Safety => FaultKindV0::DropSafetyStatus,
    };
    assert(target == drop_fault(stream));
    let n = faults.len();
    let mut i: usize = 0;
    while i < n
        invariant
            n == faults@.len(),
            i <= n,
            target == drop_fault(stream),
            forall|k: int| 0 <= k < i ==> faults@[k] != target,
        decreases n - i,
    {
        if faults[i] == target {
            assert(faults@[i as int] == target);
            assert(faults@.contains(target));
            return true;
        }
        i = i + 1;
    }
    false
}

/// The frame of `stream` that the subject receives: `frame` after every
/// active fault in order, or nothing if a fault drops it. `out_of_range`
/// is the payload an out-of-range fault installs (the frame's payload with
/// its first arm joint moved past the motion gate limit); it is unused otherwise.
pub fn deliver_frame<T: Copy>(
    frame: Option<EnvelopeV0<T>>,
    faults: &Vec<FaultKindV0>,
    stream: StreamKind,
    clock_epoch: ClockEpoch,
    source_epoch: SourceEpoch,
    out_of_range: T,
) -> (r: Option<EnvelopeV0<T>>)
    ensures
        r == (match frame {
            Some(e) => if dropped(faults@, stream) {
                None
            } else {
                Some(
                    stream_faults_applied(
                        e,
                        faults@,
                        stream,
                        clock_epoch,
                        source_epoch,
                        out_of_range,
                        faults@.len(),
                    ),
                )
            },
            None => None,
        }),
{
    let mut e = match frame {
        Some(e) => e,
        None => {
            return None;
        },
    };
    let ghost e0 = e;
    let n = faults.len();
    let mut i: usize = 0;
    while i < n
        invariant
            n == faults@.len(),
            i <= n,
            e == stream_faults_applied(e0, faults@, stream, clock_epoch, source_epoch, out_of_range, i as nat),
        decreases n - i,
    {
        match envelope_fault_of(faults[i], stream) {
            Some(f) => apply_envelope_fault(&mut e, f, clock_epoch, source_epoch, out_of_range),
            None => {},
        }
        i = i + 1;
    }
    if is_dropped(faults, stream) {
        None
    } else {
        Some(e)
    }
}

/// Publishes the controller's status for this turn (one status sequence
/// number is used even when the frame is dropped), then applies the active
/// faults to it: envelope faults as for any stream, an opened interlock and
/// a wrong permit epoch to its payload.
pub fn deliver_safety_status<B: Copy>(
    safety: &mut SafetyControllerSim<B>,
    now: VirtualTimeNs,
    valid_for: DurationNs,
    faults: &Vec<FaultKindV0>,
    clock_epoch: ClockEpoch,
    source_epoch: SourceEpoch,
) -> (r: Option<SafetyStatusFrameV0>)
    ensures
        final(safety)@ == (SafetyModel {
            status_sequence: sat_add(old(safety)@.status_sequence, 1),
            ..old(safety)@
        }),
        final(safety).configured_policy() == old(safety).configured_policy(),
        r == (if dropped(faults@, StreamKind::Safety) {
            None
        } else {
            Some(
                status_faults_applied(
                    EnvelopeV0 {
                        clock_epoch: old(safety)@.clock_epoch,
                        source_epoch: old(safety)@.source_epoch,
                        sequence: Sequence(old(safety)@.status_sequence),
                        captured_at_ns: now,
                        valid_until_ns: VirtualTimeNs(sat_add(now.0, valid_for.0)),
                        validity: ValidityV0::Valid,
                        payload: old(safety)@.snapshot(),
                    },
                    faults@,
                    clock_epoch,
                    source_epoch,
                    faults@.len(),
                ),
            )
        }),
{
    let mut e = safety.status(now, valid_for);
    let ghost e0 = e;
    let n = faults.len();
    let mut i: usize = 0;
    while i < n
        invariant
            n == faults@.len(),
            i <= n,
            e == status_faults_applied(e0, faults@, clock_epoch, source_epoch, i as nat),
        decreases n - i,
    {
        let f = faults[i];
        match envelope_fault_of(f, StreamKind::Safety) {
            Some(ef) => {
                let p = e.payload;
                apply_envelope_fault(&mut e, ef, clock_epoch, source_epoch, p);
            },
            None => {},
        }
        match f {
            FaultKindV0::OpenSafetyInterlock => {
                e.payload.interlocks_clear = false;
            },
            FaultKindV0::WrongSafetyPermitEpoch => {
                match e.payload.controller_state {
                    SafetyControllerStateV0::Armed { permit_epoch } => {
                        e.payload.controller_state = SafetyControllerStateV0::Armed {
                            permit_epoch: PermitEpoch(permit_epoch.0.saturating_add(1)),
                        };
                    },
                    _ => {},
                }
            },
            _ => {},
        }
        i = i + 1;
    }
    if is_dropped(faults, StreamKind::Safety) {
        None
    } else {
        Some(e)
    }
}

} // verus!

verus! {

/// The last keyframe (in schedule order) whose tick is at or before `tick`.
pub open spec fn keyframe_in_force<C>(keyframes: Seq<SetpointKeyframeV0<C>>, tick: Tick) -> Option<
    SetpointKeyframeV0<C>,
>
    decreases keyframes.len(),
{
    if keyframes.len() == 0 {
        None
    } else if keyframes.last().at_tick.0 <= tick.0 {
        Some(keyframes.last())
    } else {
        keyframe_in_force(keyframes.drop_last(), tick)
    }
}

/// The setpoint sample published at `tick`: the command of the keyframe in
/// force, as a fresh valid frame with sequence `tick`, captured at
/// `tick * period` and valid for the motion gate's setpoint age (both saturating).
pub open spec fn setpoint_sample<S, C, B, M, Q>(scenario: ScenarioV0<S, C, B, M, Q>, tick: Tick) -> Option<
    EnvelopeV0<C>,
> {
    match keyframe_in_force(scenario.setpoints@, tick) {
        None => None,
        Some(k) => {
            let captured = sat_mul(tick.0, scenario.tick_period_ns.0);
            Some(
                EnvelopeV0 {
                    clock_epoch: scenario.clock_epoch,
                    source_epoch: scenario.setpoint_source_epoch,
                    sequence: Sequence(tick.0),
                    captured_at_ns: VirtualTimeNs(captured),
                    valid_until_ns: VirtualTimeNs(
                        sat_add(captured, scenario.gate_policy.setpoint_max_age_ns.0),
                    ),
                    validity: ValidityV0::Valid,
                    payload: k.command,
                },
            )
        },
    }
}

/// The scenario's setpoint sample at `tick`. The goal is the keyframe in
/// force, but its source publishes a fresh sample on every control turn, so
/// delivery cursors do not depend on how often the goal changes.
pub fn current_setpoint<S, C: Copy, B, M, Q>(scenario: &ScenarioV0<S, C, B, M, Q>, tick: Tick) -> (r:
    Option<EnvelopeV0<C>>)
    ensures
        r == setpoint_sample(*scenario, tick),
{
    let keyframes = &scenario.setpoints;
    let mut i: usize = keyframes.len();
    assert(keyframes@.take(i as int) =~= keyframes@);
    while i > 0
        invariant
            i <= keyframes@.len(),
            keyframes@ == scenario.setpoints@,
            keyframe_in_force(keyframes@, tick) == keyframe_in_force(keyframes@.take(i as int), tick),
        decreases i,
    {
        assert(keyframes@.take(i as int).drop_last() =~= keyframes@.take(i - 1));
        if keyframes[i - 1].at_tick.0 <= tick.0 {
            assert(keyframes@.take(i as int).last() == keyframes@[i - 1]);
            assert(keyframe_in_force(keyframes@, tick) == Some(keyframes@[i - 1]));
            let frame = setpoint_frame(scenario, tick, keyframes[i - 1].command);
            assert(setpoint_sample(*scenario, tick) == Some(frame));
            return Some(frame);
        }
        i = i - 1;
    }
    assert(keyframes@.take(0) =~= Seq::<SetpointKeyframeV0<C>>::empty());
    None
}

fn setpoint_frame<S, C: Copy, B, M, Q>(scenario: &ScenarioV0<S, C, B, M, Q>, tick: Tick, command: C) -> (r:
    EnvelopeV0<C>)
    ensures
        r == (EnvelopeV0 {
            clock_epoch: scenario.clock_epoch,
            source_epoch: scenario.setpoint_source_epoch,
            sequence: Sequence(tick.0),
            captured_at_ns: VirtualTimeNs(sat_mul(tick.0, scenario.tick_period_ns.0)),
            valid_until_ns: VirtualTimeNs(
                sat_add(
                    sat_mul(tick.0, scenario.tick_period_ns.0),
                    scenario.gate_policy.setpoint_max_age_ns.0,
                ),
            ),
            validity: ValidityV0::Valid,
            payload: command,
        }),
{
    let captured = match tick.0.checked_mul(scenario.tick_period_ns.0) {
        Some(v) => v,
        None => u64::MAX,
    };
    EnvelopeV0 {
        clock_epoch: scenario.clock_epoch,
        source_epoch: scenario.setpoint_source_epoch,
        sequence: Sequence(tick.0),
        captured_at_ns: VirtualTimeNs(captured),
        valid_until_ns: VirtualTimeNs(
            captured.saturating_add(scenario.gate_policy.setpoint_max_age_ns.0),
        ),
        validity: ValidityV0::Valid,
        payload: command,
    }
}

} // verus!

verus! {

/// How one call of the subject's turn ended: with an output, with an
/// error, or with a panic.
#[derive(Debug, Clone, PartialEq)]
pub enum StepOutcome<S, C> {
    Completed(SubjectOutputV0<S, C>),
    Failed(SubjectError),
    Panicked,
}

/// The output that stands in for a failed turn: a faulted lifecycle with
/// `reason`, no estimate or proposal, and a task-error denial.
pub open spec fn faulted_model<S, C>(reason: Seq<char>) -> OutputModel<S, C> {
    OutputModel {
        lifecycle: LifecycleModel::Faulted { reason },
        estimate: None,
        control: None,
        gate: GateDecisionV0::Denied { reason: GateDeniedReasonV0::TaskError },
    }
}

pub fn faulted_output<S, C>(reason: String) -> (r: SubjectOutputV0<S, C>)
    ensures
        r@ == faulted_model::<S, C>(reason@),
{
    SubjectOutputV0 {
        lifecycle: SubjectLifecycleV0::Faulted { reason },
        estimate: None,
        control: None,
        gate: GateDecisionV0::Denied { reason: GateDeniedReasonV0::TaskError },
    }
}

/// The output recorded for an outcome: the subject's own, or a faulted
/// stand-in carrying the error's message or "subject panicked".
pub open spec fn outcome_output<S, C>(o: StepOutcome<S, C>) -> OutputModel<S, C> {
    match o {
        StepOutcome::Completed(out) => out@,
        StepOutcome::Failed(e) => faulted_model(subject_error_text(e)),
        StepOutcome::Panicked => faulted_model("subject panicked"@),
    }
}

/// The controller after an outcome: a failed or panicked turn trips it with
/// `SubjectFault`, and so does any output whose lifecycle is faulted.
pub open spec fn after_outcome<S, C>(m: SafetyModel, o: StepOutcome<S, C>) -> SafetyModel {
    let m1 = if o is Completed {
        m
    } else {
        m.after_trip(SafetyTripReasonV0::SubjectFault)
    };
    if outcome_output(o).lifecycle is Faulted {
        m1.after_trip(SafetyTripReasonV0::SubjectFault)
    } else {
        m1
    }
}

/// Contains the outcome of a subject turn. Returns the output to record and
/// whether the run stays replayable (only a completed turn keeps it so).
pub fn settle_outcome<S, C, B: Copy>(
    outcome: StepOutcome<S, C>,
    safety: &mut SafetyControllerSim<B>,
) -> (r: (SubjectOutputV0<S, C>, bool))
    ensures
        r.0@ == outcome_output(outcome),
        r.1 == outcome is Completed,
        final(safety)@ == after_outcome(old(safety)@, outcome),
        final(safety).configured_policy() == old(safety).configured_policy(),
{
    let ghost o = outcome;
    let (output, completed) = match outcome {
        StepOutcome::Completed(out) => (out, true),
        StepOutcome::Failed(e) => {
            safety.trip(SafetyTripReasonV0::SubjectFault);
            (faulted_output(e.message()), false)
        },
        StepOutcome::Panicked => {
            safety.trip(SafetyTripReasonV0::SubjectFault);
            (faulted_output(owned("subject panicked")), false)
        },
    };
    if matches!(output.lifecycle, SubjectLifecycleV0::Faulted { .. }) {
        safety.trip(SafetyTripReasonV0::SubjectFault);
    }
    (output, completed)
}

/// The intent offered to the safety controller: the motion gate's admitted intent,
/// unless an active fault drops it.
pub open spec fn intent_offered<C>(faults: Seq<FaultKindV0>, gate: GateDecisionV0<C>) -> Option<
    ActuatorIntentV0<C>,
> {
    if faults.contains(FaultKindV0::DropIntent) {
        None
    } else {
        match gate {
            GateDecisionV0::Admitted { intent, .. } => Some(intent),
            _ => None,
        }
    }
}

/// Whether `fault` is among `faults`.
pub fn has_fault(faults: &Vec<FaultKindV0>, fault: FaultKindV0) -> (r: bool)
    ensures
        r == faults@.contains(fault),
{
    let n = faults.len();
    let mut i: usize = 0;
    while i < n
        invariant
            n == faults@.len(),
            i <= n,
            forall|k: int| 0 <= k < i ==> faults@[k] != fault,
        decreases n - i,
    {
        if faults[i] == fault {
            assert(faults@[i as int] == fault);
            return true;
        }
        i = i + 1;
    }
    false
}

pub fn offered_intent<'a, C>(faults: &Vec<FaultKindV0>, gate: &'a GateDecisionV0<C>) -> (r: Option<
    &'a ActuatorIntentV0<C>,
>)
    ensures
        deref_intent(r) == intent_offered(faults@, *gate),
{
    if has_fault(faults, FaultKindV0::DropIntent) {
        None
    } else {
        match gate {
            GateDecisionV0::Admitted { intent, .. } => Some(intent),
            _ => None,
        }
    }
}

/// Closes the turn: the safety controller evaluates the offered intent
/// under `checks`, the verdicts on the authoritative observation and the
/// intent's command.
pub fn close_turn<S, C: Copy, B: Copy>(
    safety: &mut SafetyControllerSim<B>,
    tick: Tick,
    now: VirtualTimeNs,
    faults: &Vec<FaultKindV0>,
    output: &SubjectOutputV0<S, C>,
    checks: IntentChecks,
) -> (r: SafetyDispositionV0<C>)
    ensures
        (final(safety)@, r) == old(safety)@.evaluate(
            tick,
            now,
            intent_offered(faults@, output.gate),
            checks,
        ),
        final(safety).configured_policy() == old(safety).configured_policy(),
{
    let intent = offered_intent(faults, &output.gate);
    safety.evaluate(tick, now, intent, checks)
}

} // verus!

verus! {

/// The message when the plant simulates another model than the scenario's.
pub open spec fn model_mismatch_text(scenario_digest: Seq<char>, plant_digest: Seq<char>) -> Seq<char> {
    "scenario model digest "@ + scenario_digest + " does not match plant model digest "@
        + plant_digest
}

/// Why a scenario cannot run on a plant: its validation failures, one per
/// line, or else a model mismatch; nothing when it can run.
pub open spec fn run_refusal<S, C, B, M, Q>(
    scenario: ScenarioV0<S, C, B, M, Q>,
    facts: ScenarioFacts,
    plant_digest: Seq<char>,
) -> Option<Seq<char>> {
    if scenario_failures(scenario, facts).len() > 0 {
        Some(joined(scenario_failures(scenario, facts), "\n"@))
    } else if scenario.model_digest@ != plant_digest {
        Some(model_mismatch_text(scenario.model_digest@, plant_digest))
    } else {
        None
    }
}

/// Checks that `scenario` may run on a plant whose model digest is
/// `plant_digest`. The error is the text of an invalid-scenario refusal.
pub fn check_runnable<S, C, B, M, Q>(
    scenario: &ScenarioV0<S, C, B, M, Q>,
    facts: &ScenarioFacts,
    plant_digest: &str,
) -> (r: Result<(), String>)
    requires
        facts.setpoints_inside@.len() == scenario.setpoints@.len(),
    ensures
        match r {
            Ok(()) => run_refusal(*scenario, *facts, plant_digest@) is None,
            Err(m) => run_refusal(*scenario, *facts, plant_digest@) == Some(m@),
        },
{
    match validate_scenario(scenario, facts) {
        Err(failures) => {
            return Err(join_all(&failures, "\n"));
        },
        Ok(()) => {},
    }
    if !same_text(plant_digest, scenario.model_digest.as_str()) {
        let m = join(owned("scenario model digest "), scenario.model_digest.as_str());
        let m = join(m, " does not match plant model digest ");
        let m = join(m, plant_digest);
        return Err(m);
    }
    Ok(())
}

/// Assembles the semantic trace of a completed run: the scenario's identity
/// and policies, the subject's view of its configuration, the records, and
/// their summary under the terminal controller state.
pub fn finish_run<S: Copy, C, B: Copy, M, Q: Copy>(
    scenario: &ScenarioV0<S, C, B, M, Q>,
    scenario_sha256: &str,
    subject_id: &str,
    plant_id: &str,
    records: Vec<TraceRecordV0<S, C>>,
    terminal_state: &SafetyControllerStateV0,
    replayable: bool,
) -> (r: SemanticTraceV0<S, C, B, Q>)
    ensures
        r.schema_version == CONTRACT_SCHEMA_VERSION,
        r.contract@ == CONTRACT_ID@,
        r.profile@ == PROFILE_ID@,
        r.scenario_name@ == scenario.name@,
        r.scenario_sha256@ == scenario_sha256@,
        r.model_digest@ == scenario.model_digest@,
        r.seed@ == scenario.seed@,
        r.tick_period_ns == scenario.tick_period_ns,
        r.expected_ticks == scenario.ticks,
        is_subject_config_of(r.subject_config, *scenario),
        r.safety_policy == scenario.safety_policy,
        r.subject_id@ == subject_id@,
        r.plant_id@ == plant_id@,
        r.equality == scenario.equality,
        r.records@ == records@,
        summary_matches(r.summary, records@, *terminal_state, replayable),
{
    let summary = summarize(records.as_slice(), terminal_state, replayable);
    SemanticTraceV0 {
        schema_version: CONTRACT_SCHEMA_VERSION,
        contract: owned(CONTRACT_ID),
        profile: owned(PROFILE_ID),
        scenario_name: owned(scenario.name.as_str()),
        scenario_sha256: owned(scenario_sha256),
        model_digest: owned(scenario.model_digest.as_str()),
        seed: owned(scenario.seed.as_str()),
        tick_period_ns: scenario.tick_period_ns,
        expected_ticks: scenario.ticks,
        subject_config: scenario.subject_config(),
        safety_policy: scenario.safety_policy,
        subject_id: owned(subject_id),
        plant_id: owned(plant_id),
        equality: scenario.equality,
        records,
        summary,
    }
}

/// `config` is what a subject may observe of `scenario`.
pub open spec fn is_subject_config_of<S, C, B, M, Q>(
    config: SubjectConfigV0<S, B>,
    scenario: ScenarioV0<S, C, B, M, Q>,
) -> bool {
    &&& config.schema_version == scenario.schema_version
    &&& config.contract@ == scenario.contract@
    &&& config.profile@ == scenario.profile@
    &&& config.clock_epoch == scenario.clock_epoch
    &&& config.sensor_source_epoch == scenario.sensor_source_epoch
    &&& config.setpoint_source_epoch == scenario.setpoint_source_epoch
    &&& config.subject_source_epoch == scenario.subject_source_epoch
    &&& config.safety_source_epoch == scenario.safety_source_epoch
    &&& config.tick_period_ns == scenario.tick_period_ns
    &&& config.initial_state == scenario.initial_state
    &&& config.gate_policy == scenario.gate_policy
}

} // verus!

verus! {

/// A subject turn that fails or panics fails closed: the recorded output
/// is faulted and denies with a task error, the run stops being
/// replayable, and the controller ends tripped, whatever state it was in.
pub proof fn lemma_failed_turn_fails_closed<S, C>(m: SafetyModel, o: StepOutcome<S, C>)
    requires
        !(o is Completed),
    ensures
        (outcome_output(o).lifecycle is Faulted),
        (outcome_output(o).gate == GateDecisionV0::<C>::Denied {
            reason: GateDeniedReasonV0::TaskError,
        }),
        (outcome_output(o).control is None),
        (after_outcome(m, o).state is Tripped),
        !after_outcome(m, o).interlocks_clear,
{
}

/// The controller state and disposition of a turn opened from `m` with the
/// record's actions and faults, one published status, the outcome `o` and
/// the offered intent equal those that trace validation replays.
pub open spec fn turn_replays<S, C>(
    m: SafetyModel,
    r: TraceRecordV0<S, C>,
    o: StepOutcome<S, C>,
    f: crate::evidence::RecordFacts,
) -> bool {
    let opened = faults_applied(
        actions_applied(m, r.safety_actions@, r.tick, r.time_ns, r.safety_actions@.len()),
        r.active_faults@,
        r.active_faults@.len(),
    );
    let published = SafetyModel { status_sequence: sat_add(opened.status_sequence, 1), ..opened };
    crate::evidence::replay_record(m, r, f) == after_outcome(published, o).evaluate(
        r.tick,
        r.time_ns,
        intent_offered(r.active_faults@, r.subject_output.gate),
        f.safety,
    )
}

/// What a run records for a turn replays: the controller state and the
/// disposition that the run's turn functions produce (`begin_turn`, the
/// status published by `deliver_safety_status`, `settle_outcome` and
/// `close_turn`) are exactly what trace validation recomputes from the
/// resulting record.
pub proof fn lemma_recorded_turn_replays<S, C>(
    m: SafetyModel,
    r: TraceRecordV0<S, C>,
    o: StepOutcome<S, C>,
    f: crate::evidence::RecordFacts,
)
    requires
        r.subject_output@ == outcome_output(o),
    ensures
        turn_replays(m, r, o, f),
{
    let opened = faults_applied(
        actions_applied(m, r.safety_actions@, r.tick, r.time_ns, r.safety_actions@.len()),
        r.active_faults@,
        r.active_faults@.len(),
    );
    let published = SafetyModel { status_sequence: sat_add(opened.status_sequence, 1), ..opened };
    assert(r.subject_output.lifecycle is Faulted <==> r.subject_output@.lifecycle is Faulted);
    assert(after_outcome(published, o) == crate::evidence::before_evaluation(m, r));
}

} // verus!
