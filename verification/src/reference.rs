//! The reference subject: a deterministic pass-through estimator, position
//! controller and stateful software motion gate that serves as the test
//! bench's semantic oracle.
//!
//! It estimates by copying a validated sensor frame, proposes the validated
//! position setpoint, and admits at most one bounded actuator intent per
//! turn. Verdicts on joint values (finiteness, limits, rate limiting) are
//! floating-point computations; they arrive as [`TurnFacts`] and
//! [`ConfigFacts`], and everything else is decided here.
use vstd::prelude::*;

use crate::contracts::{
    ActuatorIntentV0, ControlProposalV0, EnvelopeV0, GateDecisionV0, GateDeniedReasonV0,
    GatePolicyV0, LifecycleModel, OutputModel, ProposalFaultV0, SafetyControllerStateV0,
    SafetyStatusV0, SubjectConfigV0, SubjectInputV0, SubjectLifecycleV0, SubjectOutputV0,
    CONTRACT_ID, CONTRACT_SCHEMA_VERSION, PROFILE_ID,
};
use crate::gate::{
    safety_envelope_reason, sensor_envelope_reason, setpoint_envelope_reason,
    spec_effective_deadline, spec_safety_envelope_reason, spec_sensor_envelope_reason,
    spec_setpoint_envelope_reason, spec_validate_envelope, validate_envelope, effective_deadline,
    StreamCursor,
};
use crate::text::{debug_escaped, debug_text, decimal, decimal_text, join, owned};
use crate::units::{
    sat_add, ClockEpoch, DurationNs, PermitEpoch, Sequence, SourceEpoch, VirtualTimeNs,
};

verus! {

/// Stable identifier recorded in semantic traces.
pub const REFERENCE_SUBJECT_ID: &'static str = "reference-subject/v0";

/// Configuration or lifecycle errors at the reference-subject boundary.
#[derive(Debug, Clone, PartialEq, Eq)]
pub enum ReferenceSubjectError {
    /// `step` was called before a successful reset.
    NotReset,
    /// The scenario cannot configure a safe deterministic motion gate.
    InvalidScenario(String),
    /// A serialized subject snapshot cannot safely resume this subject.
    InvalidSnapshot(String),
}

/// `ReferenceSubjectError` with its message taken as text.
pub enum SubjectErrorModel {
    NotReset,
    InvalidScenario(Seq<char>),
    InvalidSnapshot(Seq<char>),
}

impl View for ReferenceSubjectError {
    type V = SubjectErrorModel;

    open spec fn view(&self) -> SubjectErrorModel {
        match self {
            ReferenceSubjectError::NotReset => SubjectErrorModel::NotReset,
            ReferenceSubjectError::InvalidScenario(m) => SubjectErrorModel::InvalidScenario(m@),
            ReferenceSubjectError::InvalidSnapshot(m) => SubjectErrorModel::InvalidSnapshot(m@),
        }
    }
}

/// The text of a reference-subject error.
pub open spec fn reference_error_text(e: SubjectErrorModel) -> Seq<char> {
    match e {
        SubjectErrorModel::NotReset => "reference subject must be reset with a valid scenario before stepping"@,
        SubjectErrorModel::InvalidScenario(m) => "invalid reference-subject scenario: "@ + m,
        SubjectErrorModel::InvalidSnapshot(m) => "invalid reference-subject snapshot: "@ + m,
    }
}

impl ReferenceSubjectError {
    /// The error's message.
    pub fn message(&self) -> (r: String)
        ensures
            r@ == reference_error_text(self@),
    {
        match self {
            ReferenceSubjectError::NotReset => owned(
                "reference subject must be reset with a valid scenario before stepping",
            ),
            ReferenceSubjectError::InvalidScenario(m) => join(
                owned("invalid reference-subject scenario: "),
                m.as_str(),
            ),
            ReferenceSubjectError::InvalidSnapshot(m) => join(
                owned("invalid reference-subject snapshot: "),
                m.as_str(),
            ),
        }
    }
}

pub open spec fn step_result_view<S, C>(
    r: Result<SubjectOutputV0<S, C>, ReferenceSubjectError>,
) -> Result<OutputModel<S, C>, SubjectErrorModel> {
    match r {
        Ok(o) => Ok(o@),
        Err(e) => Err(e@),
    }
}

pub open spec fn unit_result_view(r: Result<(), ReferenceSubjectError>) -> Result<(), SubjectErrorModel> {
    match r {
        Ok(()) => Ok(()),
        Err(e) => Err(e@),
    }
}

/// Fixed, executor-neutral runtime configuration needed to resume a subject.
///
/// It records only what influences the subject after reset. `B` carries the
/// gate's joint limits and step bounds.
#[derive(Debug, Clone, Copy, PartialEq)]
pub struct ReferenceSubjectRuntimeConfigV0<B> {
    pub clock_epoch: ClockEpoch,
    pub sensor_source_epoch: SourceEpoch,
    pub setpoint_source_epoch: SourceEpoch,
    pub subject_source_epoch: SourceEpoch,
    pub safety_source_epoch: SourceEpoch,
    pub policy: GatePolicyV0<B>,
}

/// Bounded terminal faults that may be latched by the reference subject.
#[derive(Debug, Clone, Copy, PartialEq, Eq, Structural, Hash)]
pub enum ReferenceSubjectFaultV0 {
    ControllerTaskError,
}

pub open spec fn fault_reason_text(fault: ReferenceSubjectFaultV0) -> Seq<char> {
    match fault {
        ReferenceSubjectFaultV0::ControllerTaskError => "injected deterministic controller task error"@,
    }
}

impl ReferenceSubjectFaultV0 {
    pub fn reason(self) -> (r: &'static str)
        ensures
            r@ == fault_reason_text(self),
    {
        match self {
            ReferenceSubjectFaultV0::ControllerTaskError => "injected deterministic controller task error",
        }
    }
}

/// Complete fixed-size state needed to resume deterministic subject
/// execution. It retains no input history.
#[derive(Debug, Clone, Copy, PartialEq)]
pub struct ReferenceSubjectSnapshotV0<B> {
    pub config: Option<ReferenceSubjectRuntimeConfigV0<B>>,
    pub sensor_cursor: Option<Sequence>,
    pub setpoint_cursor: Option<Sequence>,
    pub safety_cursor: Option<Sequence>,
    pub next_proposal_sequence: u64,
    pub active_permit_epoch: Option<PermitEpoch>,
    pub fault_latch: Option<ReferenceSubjectFaultV0>,
}

/// Verdict on a floating-point payload against the motion gate's joint limits.
#[derive(Debug, Clone, Copy, PartialEq, Eq, Structural)]
pub enum PayloadVerdict {
    Valid,
    NonFinite,
    OutOfRange,
}

/// Verdicts on the floating-point part of a gate policy: whether every joint
/// range is finite and ordered, and whether every step bound is finite and
/// non-negative.
#[derive(Debug, Clone, Copy, PartialEq, Eq, Structural)]
pub struct PolicyFacts {
    pub limits_valid: bool,
    pub steps_valid: bool,
}

/// Verdicts on the floating-point part of a subject configuration.
#[derive(Debug, Clone, Copy, PartialEq, Eq, Structural)]
pub struct ConfigFacts {
    pub policy: PolicyFacts,
    /// The initial state is finite and inside the motion gate limits.
    pub initial_state_in_limits: bool,
}

/// Floating-point verdicts and values that one turn needs.
#[derive(Debug, Clone, Copy, PartialEq)]
pub struct TurnFacts<C> {
    /// The sensor payload (when a sensor frame is offered) against the limits.
    pub sensor: PayloadVerdict,
    /// The setpoint payload (when a setpoint frame is offered) against the limits.
    pub setpoint: PayloadVerdict,
    /// The setpoint command with a non-finite or out-of-range proposal fault
    /// applied to its first arm joint.
    pub faulted_command: C,
    /// `faulted_command` against the limits.
    pub faulted_command_verdict: PayloadVerdict,
    /// The setpoint command clamped to the step bounds around the sensed
    /// position.
    pub bounded_command: C,
    /// Whether that clamp changed any joint.
    pub limited: bool,
}

pub open spec fn spec_validate_runtime_policy<B>(policy: GatePolicyV0<B>, facts: PolicyFacts) -> Option<Seq<char>> {
    if policy.sensor_max_age_ns.0 == 0 || policy.safety_max_age_ns.0 == 0
        || policy.setpoint_max_age_ns.0 == 0 || policy.proposal_ttl_ns.0 == 0 {
        Some("gate TTLs and maximum ages must be non-zero"@)
    } else if !facts.limits_valid {
        Some("joint limits must be finite ordered inclusive ranges"@)
    } else if !facts.steps_valid {
        Some("rate-limit steps must be finite and non-negative"@)
    } else {
        None
    }
}

fn validate_runtime_policy<B>(policy: &GatePolicyV0<B>, facts: PolicyFacts) -> (r: Result<(), String>)
    ensures
        match r {
            Ok(()) => spec_validate_runtime_policy(*policy, facts) is None,
            Err(m) => spec_validate_runtime_policy(*policy, facts) == Some(m@),
        },
{
    if policy.sensor_max_age_ns.0 == 0 || policy.safety_max_age_ns.0 == 0
        || policy.setpoint_max_age_ns.0 == 0 || policy.proposal_ttl_ns.0 == 0 {
        return Err(owned("gate TTLs and maximum ages must be non-zero"));
    }
    if !facts.limits_valid {
        return Err(owned("joint limits must be finite ordered inclusive ranges"));
    }
    if !facts.steps_valid {
        return Err(owned("rate-limit steps must be finite and non-negative"));
    }
    Ok(())
}

/// Why a configuration is refused, if it is: wrong schema, contract or
/// profile, an unsafe runtime policy, or an initial state outside the limits.
pub open spec fn spec_validate_config<S, B>(config: SubjectConfigV0<S, B>, facts: ConfigFacts) -> Option<Seq<char>> {
    if config.schema_version != CONTRACT_SCHEMA_VERSION {
        Some("schema version "@ + decimal_text(config.schema_version as nat) + " does not match 1"@)
    } else if config.contract@ != CONTRACT_ID@ {
        Some("contract "@ + debug_escaped(config.contract@) + " does not match \"so101-bench/v0\""@)
    } else if config.profile@ != PROFILE_ID@ {
        Some(
            "profile "@ + debug_escaped(config.profile@)
                + " does not match \"joint-position-loop/v0\""@,
        )
    } else if spec_validate_runtime_policy(config.gate_policy, facts.policy) is Some {
        spec_validate_runtime_policy(config.gate_policy, facts.policy)
    } else if !facts.initial_state_in_limits {
        Some("initial state must be finite and inside gate limits"@)
    } else {
        None
    }
}

fn validate_config<S, B>(config: &SubjectConfigV0<S, B>, facts: ConfigFacts) -> (r: Result<(), String>)
    ensures
        match r {
            Ok(()) => spec_validate_config(*config, facts) is None,
            Err(m) => spec_validate_config(*config, facts) == Some(m@),
        },
{
    if config.schema_version != CONTRACT_SCHEMA_VERSION {
        let m = join(owned("schema version "), decimal(config.schema_version as u64).as_str());
        return Err(join(m, " does not match 1"));
    }
    if !crate::text::same_text(config.contract.as_str(), CONTRACT_ID) {
        let m = join(owned("contract "), debug_text(config.contract.as_str()).as_str());
        return Err(join(m, " does not match \"so101-bench/v0\""));
    }
    if !crate::text::same_text(config.profile.as_str(), PROFILE_ID) {
        let m = join(owned("profile "), debug_text(config.profile.as_str()).as_str());
        return Err(join(m, " does not match \"joint-position-loop/v0\""));
    }
    validate_runtime_policy(&config.gate_policy, facts.policy)?;
    if !facts.initial_state_in_limits {
        return Err(owned("initial state must be finite and inside gate limits"));
    }
    Ok(())
}

} // verus!

verus! {

/// Which input stream a frame belongs to; each reports failures with its
/// own denial reasons.
#[derive(Debug, Clone, Copy, PartialEq, Eq, Structural)]
pub enum StreamKind {
    Sensor,
    Setpoint,
    Safety,
}

pub open spec fn missing_reason(kind: StreamKind) -> GateDeniedReasonV0 {
    match kind {
        StreamKind::Sensor => GateDeniedReasonV0::MissingSensor,
        StreamKind::Setpoint => GateDeniedReasonV0::MissingSetpoint,
        StreamKind::Safety => GateDeniedReasonV0::MissingSafetyStatus,
    }
}

pub open spec fn envelope_reason(kind: StreamKind, error: crate::gate::EnvelopeError) -> GateDeniedReasonV0 {
    match kind {
        StreamKind::Sensor => spec_sensor_envelope_reason(error),
        StreamKind::Setpoint => spec_setpoint_envelope_reason(error),
        StreamKind::Safety => spec_safety_envelope_reason(error),
    }
}

/// One stream's admission: a missing frame, a rejected envelope, or a
/// payload outside the limits is denied; otherwise the frame is accepted.
/// The cursor moves as `validate_envelope` moves it. Safety-status frames
/// carry no joint payload, so their verdict is ignored.
pub open spec fn spec_validate_stream<T>(
    kind: StreamKind,
    frame: Option<EnvelopeV0<T>>,
    now: VirtualTimeNs,
    clock_epoch: ClockEpoch,
    source_epoch: SourceEpoch,
    maximum_age: DurationNs,
    cursor: StreamCursor,
    verdict: PayloadVerdict,
) -> (StreamCursor, Result<EnvelopeV0<T>, GateDeniedReasonV0>) {
    match frame {
        None => (cursor, Err(missing_reason(kind))),
        Some(f) => {
            let (next, checked) = spec_validate_envelope(
                f,
                now,
                clock_epoch,
                source_epoch,
                maximum_age,
                cursor,
            );
            match checked {
                Err(e) => (next, Err(envelope_reason(kind, e))),
                Ok(()) => {
                    if kind is Safety {
                        (next, Ok(f))
                    } else {
                        match verdict {
                            PayloadVerdict::NonFinite => (next, Err(GateDeniedReasonV0::NonFinite)),
                            PayloadVerdict::OutOfRange => (next, Err(GateDeniedReasonV0::OutOfRange)),
                            PayloadVerdict::Valid => (next, Ok(f)),
                        }
                    }
                },
            }
        },
    }
}

fn validate_stream<T: Copy>(
    kind: StreamKind,
    frame: Option<&EnvelopeV0<T>>,
    now: VirtualTimeNs,
    clock_epoch: ClockEpoch,
    source_epoch: SourceEpoch,
    maximum_age: DurationNs,
    cursor: &mut StreamCursor,
    verdict: PayloadVerdict,
) -> (r: Result<EnvelopeV0<T>, GateDeniedReasonV0>)
    ensures
        (*final(cursor), r) == spec_validate_stream(
            kind,
            match frame {
                Some(f) => Some(*f),
                None => None,
            },
            now,
            clock_epoch,
            source_epoch,
            maximum_age,
            *old(cursor),
            verdict,
        ),
{
    let frame = match frame {
        Some(f) => f,
        None => {
            return Err(match kind {
                StreamKind::Sensor => GateDeniedReasonV0::MissingSensor,
                StreamKind::Setpoint => GateDeniedReasonV0::MissingSetpoint,
                StreamKind::Safety => GateDeniedReasonV0::MissingSafetyStatus,
            });
        },
    };
    match validate_envelope(frame, now, clock_epoch, source_epoch, maximum_age, cursor) {
        Err(e) => {
            return Err(match kind {
                StreamKind::Sensor => sensor_envelope_reason(&e),
                StreamKind::Setpoint => setpoint_envelope_reason(&e),
                StreamKind::Safety => safety_envelope_reason(&e),
            });
        },
        Ok(()) => {},
    }
    if matches!(kind, StreamKind::Safety) {
        return Ok(*frame);
    }
    match verdict {
        PayloadVerdict::NonFinite => Err(GateDeniedReasonV0::NonFinite),
        PayloadVerdict::OutOfRange => Err(GateDeniedReasonV0::OutOfRange),
        PayloadVerdict::Valid => Ok(*frame),
    }
}

pub open spec fn min_u64(a: u64, b: u64) -> u64 {
    if a <= b { a } else { b }
}

pub open spec fn denied<S, C>(
    estimate: Option<S>,
    control: Option<ControlProposalV0<C>>,
    reason: GateDeniedReasonV0,
) -> OutputModel<S, C> {
    OutputModel {
        lifecycle: LifecycleModel::Running,
        estimate,
        control,
        gate: GateDecisionV0::Denied { reason },
    }
}

pub open spec fn faulted<S, C>(fault: ReferenceSubjectFaultV0) -> OutputModel<S, C> {
    OutputModel {
        lifecycle: LifecycleModel::Faulted { reason: fault_reason_text(fault) },
        estimate: None,
        control: None,
        gate: GateDecisionV0::Denied { reason: GateDeniedReasonV0::TaskError },
    }
}

/// Whether a proposal fault rewrites the proposed command's values.
pub open spec fn fault_rewrites_command(fault: Option<ProposalFaultV0>) -> bool {
    fault == Some(ProposalFaultV0::NonFinite) || fault == Some(ProposalFaultV0::OutOfRange)
}

/// The control proposal built from accepted sensor and setpoint frames, with
/// the injected proposal fault (if any) applied.
pub open spec fn spec_proposal<S, C, B>(
    config: ReferenceSubjectRuntimeConfigV0<B>,
    sequence: u64,
    now: VirtualTimeNs,
    sensor: EnvelopeV0<S>,
    setpoint: EnvelopeV0<C>,
    fault: Option<ProposalFaultV0>,
    faulted_command: C,
) -> ControlProposalV0<C> {
    let deadline = min_u64(
        min_u64(
            spec_effective_deadline(sensor, config.policy.sensor_max_age_ns),
            spec_effective_deadline(setpoint, config.policy.setpoint_max_age_ns),
        ),
        sat_add(now.0, config.policy.proposal_ttl_ns.0),
    );
    ControlProposalV0 {
        clock_epoch: config.clock_epoch,
        source_epoch: config.subject_source_epoch,
        sequence: Sequence(sequence),
        source_sensor_epoch: sensor.source_epoch,
        source_sensor_sequence: if fault == Some(ProposalFaultV0::SourceSequenceMismatch) {
            Sequence(sat_add(sensor.sequence.0, 1))
        } else {
            sensor.sequence
        },
        captured_at_ns: now,
        valid_until_ns: if fault == Some(ProposalFaultV0::Expired) {
            now
        } else {
            VirtualTimeNs(deadline)
        },
        command: if fault_rewrites_command(fault) {
            faulted_command
        } else {
            setpoint.payload
        },
    }
}

/// The motion gate's decision once all three streams were accepted, no task error
/// was injected and a proposal sequence number was drawn: the next active
/// permit epoch and the output.
pub open spec fn spec_gate<S, C, B>(
    config: ReferenceSubjectRuntimeConfigV0<B>,
    active_permit_epoch: Option<PermitEpoch>,
    now: VirtualTimeNs,
    sensor: EnvelopeV0<S>,
    safety: EnvelopeV0<SafetyStatusV0>,
    proposal: ControlProposalV0<C>,
    fault: Option<ProposalFaultV0>,
    facts: TurnFacts<C>,
) -> (Option<PermitEpoch>, OutputModel<S, C>) {
    let estimate = Some(sensor.payload);
    let control = if fault == Some(ProposalFaultV0::NonFinite) { None } else { Some(proposal) };
    let verdict = if fault_rewrites_command(fault) {
        facts.faulted_command_verdict
    } else {
        PayloadVerdict::Valid
    };
    if now.0 >= proposal.valid_until_ns.0 {
        (active_permit_epoch, denied(estimate, control, GateDeniedReasonV0::ProposalExpired))
    } else if proposal.source_sensor_epoch != sensor.source_epoch
        || proposal.source_sensor_sequence != sensor.sequence {
        (active_permit_epoch, denied(estimate, control, GateDeniedReasonV0::ProposalSourceMismatch))
    } else if verdict == PayloadVerdict::NonFinite {
        (active_permit_epoch, denied(estimate, control, GateDeniedReasonV0::NonFinite))
    } else if verdict == PayloadVerdict::OutOfRange {
        (active_permit_epoch, denied(estimate, control, GateDeniedReasonV0::OutOfRange))
    } else {
        match safety.payload.controller_state {
            SafetyControllerStateV0::Disarmed => (
                None,
                denied(estimate, control, GateDeniedReasonV0::SafetyNotArmed),
            ),
            SafetyControllerStateV0::Tripped { .. } => (
                None,
                denied(estimate, control, GateDeniedReasonV0::SafetyTripped),
            ),
            SafetyControllerStateV0::Armed { permit_epoch } => {
                if !safety.payload.interlocks_clear {
                    (None, denied(estimate, control, GateDeniedReasonV0::InvalidSafetyStatus))
                } else if active_permit_epoch matches Some(active) && active != permit_epoch {
                    (
                        active_permit_epoch,
                        denied(estimate, control, GateDeniedReasonV0::PermitEpochMismatch),
                    )
                } else {
                    let intent = ActuatorIntentV0 {
                        clock_epoch: proposal.clock_epoch,
                        source_epoch: proposal.source_epoch,
                        sequence: proposal.sequence,
                        permit_epoch,
                        captured_at_ns: proposal.captured_at_ns,
                        valid_until_ns: VirtualTimeNs(
                            min_u64(
                                proposal.valid_until_ns.0,
                                spec_effective_deadline(safety, config.policy.safety_max_age_ns),
                            ),
                        ),
                        command: facts.bounded_command,
                    };
                    if now.0 >= intent.valid_until_ns.0 {
                        (
                            Some(permit_epoch),
                            denied(estimate, control, GateDeniedReasonV0::StaleSafetyStatus),
                        )
                    } else {
                        (
                            Some(permit_epoch),
                            OutputModel {
                                lifecycle: LifecycleModel::Running,
                                estimate,
                                control,
                                gate: GateDecisionV0::Admitted { intent, limited: facts.limited },
                            },
                        )
                    }
                }
            },
        }
    }
}

impl<B> ReferenceSubjectSnapshotV0<B> {
    /// One turn of the reference subject on this state: the next state and
    /// the result.
    ///
    /// All three streams are observed on every turn, so a denial in one
    /// stream never creates a sequence gap in another; the first denied
    /// stream (sensor, then setpoint, then safety status) decides. A latched
    /// fault answers every turn with a task-error denial until reset.
    pub open spec fn spec_step<S, C>(self, input: SubjectInputV0<S, C>, facts: TurnFacts<C>) -> (
        ReferenceSubjectSnapshotV0<B>,
        Result<OutputModel<S, C>, SubjectErrorModel>,
    ) {
        match self.config {
            None => (self, Err(SubjectErrorModel::NotReset)),
            Some(config) => {
                if self.fault_latch is Some {
                    (self, Ok(faulted(self.fault_latch.unwrap())))
                } else {
                    let now = input.time_ns;
                    let (sensor_cursor, sensor) = spec_validate_stream(
                        StreamKind::Sensor,
                        input.sensor,
                        now,
                        config.clock_epoch,
                        config.sensor_source_epoch,
                        config.policy.sensor_max_age_ns,
                        StreamCursor { last: self.sensor_cursor },
                        facts.sensor,
                    );
                    let (setpoint_cursor, setpoint) = spec_validate_stream(
                        StreamKind::Setpoint,
                        input.setpoint,
                        now,
                        config.clock_epoch,
                        config.setpoint_source_epoch,
                        config.policy.setpoint_max_age_ns,
                        StreamCursor { last: self.setpoint_cursor },
                        facts.setpoint,
                    );
                    let (safety_cursor, safety) = spec_validate_stream(
                        StreamKind::Safety,
                        input.safety_status,
                        now,
                        config.clock_epoch,
                        config.safety_source_epoch,
                        config.policy.safety_max_age_ns,
                        StreamCursor { last: self.safety_cursor },
                        PayloadVerdict::Valid,
                    );
                    let observed = ReferenceSubjectSnapshotV0 {
                        sensor_cursor: sensor_cursor.last,
                        setpoint_cursor: setpoint_cursor.last,
                        safety_cursor: safety_cursor.last,
                        ..self
                    };
                    let estimate = match sensor {
                        Ok(f) => Some(f.payload),
                        Err(_) => None,
                    };
                    if sensor is Err {
                        (observed, Ok(denied(estimate, None, sensor->Err_0)))
                    } else if setpoint is Err {
                        (observed, Ok(denied(estimate, None, setpoint->Err_0)))
                    } else if safety is Err {
                        (observed, Ok(denied(estimate, None, safety->Err_0)))
                    } else if input.proposal_fault == Some(ProposalFaultV0::TaskError) {
                        let fault = ReferenceSubjectFaultV0::ControllerTaskError;
                        (
                            ReferenceSubjectSnapshotV0 { fault_latch: Some(fault), ..observed },
                            Ok(OutputModel {
                                lifecycle: LifecycleModel::Faulted { reason: fault_reason_text(fault) },
                                estimate,
                                control: None,
                                gate: GateDecisionV0::Denied { reason: GateDeniedReasonV0::TaskError },
                            }),
                        )
                    } else if self.next_proposal_sequence == u64::MAX {
                        (
                            observed,
                            Err(SubjectErrorModel::InvalidScenario("proposal sequence exhausted"@)),
                        )
                    } else {
                        let proposal = spec_proposal(
                            config,
                            self.next_proposal_sequence,
                            now,
                            sensor->Ok_0,
                            setpoint->Ok_0,
                            input.proposal_fault,
                            facts.faulted_command,
                        );
                        let (permit, output) = spec_gate(
                            config,
                            self.active_permit_epoch,
                            now,
                            sensor->Ok_0,
                            safety->Ok_0,
                            proposal,
                            input.proposal_fault,
                            facts,
                        );
                        (
                            ReferenceSubjectSnapshotV0 {
                                next_proposal_sequence: (self.next_proposal_sequence + 1) as u64,
                                active_permit_epoch: permit,
                                ..observed
                            },
                            Ok(output),
                        )
                    }
                }
            },
        }
    }
}

} // verus!

verus! {

pub open spec fn spec_validate_snapshot<B>(snapshot: ReferenceSubjectSnapshotV0<B>, facts: PolicyFacts) -> Option<Seq<char>> {
    match snapshot.config {
        Some(config) => spec_validate_runtime_policy(config.policy, facts),
        None => {
            if snapshot.sensor_cursor is None && snapshot.setpoint_cursor is None
                && snapshot.safety_cursor is None && snapshot.next_proposal_sequence == 0
                && snapshot.active_permit_epoch is None && snapshot.fault_latch is None {
                None
            } else {
                Some("unconfigured subject cannot retain deterministic runtime state"@)
            }
        },
    }
}

fn validate_snapshot<B>(snapshot: &ReferenceSubjectSnapshotV0<B>, facts: PolicyFacts) -> (r: Result<(), String>)
    ensures
        match r {
            Ok(()) => spec_validate_snapshot(*snapshot, facts) is None,
            Err(m) => spec_validate_snapshot(*snapshot, facts) == Some(m@),
        },
{
    match &snapshot.config {
        Some(config) => validate_runtime_policy(&config.policy, facts),
        None => {
            if snapshot.sensor_cursor.is_none() && snapshot.setpoint_cursor.is_none()
                && snapshot.safety_cursor.is_none() && snapshot.next_proposal_sequence == 0
                && snapshot.active_permit_epoch.is_none() && snapshot.fault_latch.is_none() {
                Ok(())
            } else {
                Err(owned("unconfigured subject cannot retain deterministic runtime state"))
            }
        },
    }
}

/// The state of a subject that has never been configured.
pub open spec fn unconfigured<B>() -> ReferenceSubjectSnapshotV0<B> {
    ReferenceSubjectSnapshotV0 {
        config: None,
        sensor_cursor: None,
        setpoint_cursor: None,
        safety_cursor: None,
        next_proposal_sequence: 0,
        active_permit_epoch: None,
        fault_latch: None,
    }
}

/// The state right after a successful reset with `config`: every cursor,
/// the proposal counter, the permit and the fault latch are cleared.
pub open spec fn configured<S, B>(config: SubjectConfigV0<S, B>) -> ReferenceSubjectSnapshotV0<B> {
    ReferenceSubjectSnapshotV0 {
        config: Some(
            ReferenceSubjectRuntimeConfigV0 {
                clock_epoch: config.clock_epoch,
                sensor_source_epoch: config.sensor_source_epoch,
                setpoint_source_epoch: config.setpoint_source_epoch,
                subject_source_epoch: config.subject_source_epoch,
                safety_source_epoch: config.safety_source_epoch,
                policy: config.gate_policy,
            },
        ),
        ..unconfigured()
    }
}

/// Deterministic pass-through estimator, position controller, and motion gate.
#[derive(Debug)]
pub struct ReferenceSubject<B> {
    config: Option<ReferenceSubjectRuntimeConfigV0<B>>,
    sensor_cursor: StreamCursor,
    setpoint_cursor: StreamCursor,
    safety_cursor: StreamCursor,
    next_proposal_sequence: u64,
    active_permit_epoch: Option<PermitEpoch>,
    faulted: Option<ReferenceSubjectFaultV0>,
}

impl<B> View for ReferenceSubject<B> {
    type V = ReferenceSubjectSnapshotV0<B>;

    closed spec fn view(&self) -> ReferenceSubjectSnapshotV0<B> {
        ReferenceSubjectSnapshotV0 {
            config: self.config,
            sensor_cursor: self.sensor_cursor.last,
            setpoint_cursor: self.setpoint_cursor.last,
            safety_cursor: self.safety_cursor.last,
            next_proposal_sequence: self.next_proposal_sequence,
            active_permit_epoch: self.active_permit_epoch,
            fault_latch: self.faulted,
        }
    }
}

impl<B> ReferenceSubject<B> {
    /// Every subject state is resumable: nothing but `new`, an accepted
    /// reset, an accepted restore and a turn produce one.
    #[verifier::type_invariant]
    spec fn resumable_state(self) -> bool {
        resumable(self@)
    }
}

fn denied_output<S, C>(
    estimate: Option<S>,
    control: Option<ControlProposalV0<C>>,
    reason: GateDeniedReasonV0,
) -> (r: SubjectOutputV0<S, C>)
    ensures
        r@ == denied(estimate, control, reason),
{
    SubjectOutputV0 {
        lifecycle: SubjectLifecycleV0::Running,
        estimate,
        control,
        gate: GateDecisionV0::Denied { reason },
    }
}

fn faulted_output<S, C>(fault: ReferenceSubjectFaultV0) -> (r: SubjectOutputV0<S, C>)
    ensures
        r@ == faulted::<S, C>(fault),
{
    SubjectOutputV0 {
        lifecycle: SubjectLifecycleV0::Faulted { reason: owned(fault.reason()) },
        estimate: None,
        control: None,
        gate: GateDecisionV0::Denied { reason: GateDeniedReasonV0::TaskError },
    }
}

impl<B: Copy> ReferenceSubject<B> {
    /// Creates an unconfigured subject; reset it before stepping it.
    pub fn new() -> (r: Self)
        ensures
            r@ == unconfigured::<B>(),
    {
        ReferenceSubject {
            config: None,
            sensor_cursor: StreamCursor { last: None },
            setpoint_cursor: StreamCursor { last: None },
            safety_cursor: StreamCursor { last: None },
            next_proposal_sequence: 0,
            active_permit_epoch: None,
            faulted: None,
        }
    }

    /// The stable subject identifier used by traces and comparisons.
    pub fn id(&self) -> (r: &'static str)
        ensures
            r@ == REFERENCE_SUBJECT_ID@,
    {
        REFERENCE_SUBJECT_ID
    }

    /// A complete, bounded checkpoint of the deterministic subject state.
    pub fn snapshot(&self) -> (r: ReferenceSubjectSnapshotV0<B>)
        ensures
            r == self@,
            resumable(r),
    {
        proof {
            use_type_invariant(self);
        }
        ReferenceSubjectSnapshotV0 {
            config: self.config,
            sensor_cursor: self.sensor_cursor.last,
            setpoint_cursor: self.setpoint_cursor.last,
            safety_cursor: self.safety_cursor.last,
            next_proposal_sequence: self.next_proposal_sequence,
            active_permit_epoch: self.active_permit_epoch,
            fault_latch: self.faulted,
        }
    }

    /// Atomically restores a checkpoint created by [`Self::snapshot`].
    /// `facts` speaks of the floating-point part of the snapshot's policy.
    /// An invalid checkpoint is refused and leaves the subject unchanged.
    pub fn restore(&mut self, snapshot: &ReferenceSubjectSnapshotV0<B>, facts: PolicyFacts) -> (r: Result<(), ReferenceSubjectError>)
        ensures
            match spec_validate_snapshot(*snapshot, facts) {
                None => r is Ok && final(self)@ == *snapshot,
                Some(m) => unit_result_view(r) == Err::<(), _>(SubjectErrorModel::InvalidSnapshot(m))
                    && final(self)@ == old(self)@,
            },
    {
        match validate_snapshot(snapshot, facts) {
            Ok(()) => {},
            Err(m) => {
                return Err(ReferenceSubjectError::InvalidSnapshot(m));
            },
        }
        *self = ReferenceSubject {
            config: snapshot.config,
            sensor_cursor: StreamCursor { last: snapshot.sensor_cursor },
            setpoint_cursor: StreamCursor { last: snapshot.setpoint_cursor },
            safety_cursor: StreamCursor { last: snapshot.safety_cursor },
            next_proposal_sequence: snapshot.next_proposal_sequence,
            active_permit_epoch: snapshot.active_permit_epoch,
            faulted: snapshot.fault_latch,
        };
        Ok(())
    }

    /// Resets every cursor, permit, rate limiter and fault latch under a new
    /// configuration; `facts` speaks of its floating-point part. An unsafe
    /// configuration is refused and leaves the subject unchanged.
    pub fn reset<S>(&mut self, config: &SubjectConfigV0<S, B>, facts: ConfigFacts) -> (r: Result<(), ReferenceSubjectError>)
        ensures
            match spec_validate_config(*config, facts) {
                None => r is Ok && final(self)@ == configured(*config),
                Some(m) => unit_result_view(r) == Err::<(), _>(SubjectErrorModel::InvalidScenario(m))
                    && final(self)@ == old(self)@,
            },
    {
        match validate_config(config, facts) {
            Ok(()) => {},
            Err(m) => {
                return Err(ReferenceSubjectError::InvalidScenario(m));
            },
        }
        *self = ReferenceSubject {
            config: Some(
                ReferenceSubjectRuntimeConfigV0 {
                    clock_epoch: config.clock_epoch,
                    sensor_source_epoch: config.sensor_source_epoch,
                    setpoint_source_epoch: config.setpoint_source_epoch,
                    subject_source_epoch: config.subject_source_epoch,
                    safety_source_epoch: config.safety_source_epoch,
                    policy: config.gate_policy,
                },
            ),
            sensor_cursor: StreamCursor { last: None },
            setpoint_cursor: StreamCursor { last: None },
            safety_cursor: StreamCursor { last: None },
            next_proposal_sequence: 0,
            active_permit_epoch: None,
            faulted: None,
        };
        Ok(())
    }

    /// Processes one harness-scheduled virtual turn without reading wall time.
    ///
    /// `facts` carries the turn's floating-point verdicts and values. Fails
    /// with `NotReset` before a successful reset, and with an invalid-scenario
    /// error once the proposal sequence is exhausted.
    pub fn step<S: Copy, C: Copy>(
        &mut self,
        input: &SubjectInputV0<S, C>,
        facts: &TurnFacts<C>,
    ) -> (r: Result<SubjectOutputV0<S, C>, ReferenceSubjectError>)
        ensures
            (final(self)@, step_result_view(r)) == old(self)@.spec_step(*input, *facts),
    {
        proof {
            use_type_invariant(&*self);
        }
        let config = match self.config {
            Some(c) => c,
            None => {
                return Err(ReferenceSubjectError::NotReset);
            },
        };
        if let Some(fault) = self.faulted {
            return Ok(faulted_output(fault));
        }
        let now = input.time_ns;

        // Observe all three independent streams on every turn. A denial in one
        // stream must not manufacture sequence gaps in the other two streams.
        let mut sensor_cursor = self.sensor_cursor;
        let mut setpoint_cursor = self.setpoint_cursor;
        let mut safety_cursor = self.safety_cursor;
        let sensor = validate_stream(
            StreamKind::Sensor,
            input.sensor.as_ref(),
            now,
            config.clock_epoch,
            config.sensor_source_epoch,
            config.policy.sensor_max_age_ns,
            &mut sensor_cursor,
            facts.sensor,
        );
        let setpoint = validate_stream(
            StreamKind::Setpoint,
            input.setpoint.as_ref(),
            now,
            config.clock_epoch,
            config.setpoint_source_epoch,
            config.policy.setpoint_max_age_ns,
            &mut setpoint_cursor,
            facts.setpoint,
        );
        let safety = validate_stream(
            StreamKind::Safety,
            input.safety_status.as_ref(),
            now,
            config.clock_epoch,
            config.safety_source_epoch,
            config.policy.safety_max_age_ns,
            &mut safety_cursor,
            PayloadVerdict::Valid,
        );
        self.sensor_cursor = sensor_cursor;
        self.setpoint_cursor = setpoint_cursor;
        self.safety_cursor = safety_cursor;

        let estimate = match sensor {
            Ok(f) => Some(f.payload),
            Err(_) => None,
        };
        let sensor = match sensor {
            Ok(frame) => frame,
            Err(reason) => {
                return Ok(denied_output(estimate, None, reason));
            },
        };
        let setpoint = match setpoint {
            Ok(frame) => frame,
            Err(reason) => {
                return Ok(denied_output(estimate, None, reason));
            },
        };
        let safety = match safety {
            Ok(frame) => frame,
            Err(reason) => {
                return Ok(denied_output(estimate, None, reason));
            },
        };

        if matches!(input.proposal_fault, Some(ProposalFaultV0::TaskError)) {
            let fault = ReferenceSubjectFaultV0::ControllerTaskError;
            self.faulted = Some(fault);
            return Ok(SubjectOutputV0 {
                lifecycle: SubjectLifecycleV0::Faulted { reason: owned(fault.reason()) },
                estimate,
                control: None,
                gate: GateDecisionV0::Denied { reason: GateDeniedReasonV0::TaskError },
            });
        }

        let proposal_sequence = Sequence(self.next_proposal_sequence);
        if self.next_proposal_sequence == u64::MAX {
            return Err(ReferenceSubjectError::InvalidScenario(owned("proposal sequence exhausted")));
        }
        self.next_proposal_sequence = self.next_proposal_sequence + 1;

        let sensor_deadline = effective_deadline(&sensor, config.policy.sensor_max_age_ns);
        let setpoint_deadline = effective_deadline(&setpoint, config.policy.setpoint_max_age_ns);
        let ttl_deadline = now.0.saturating_add(config.policy.proposal_ttl_ns.0);
        let mut deadline = if sensor_deadline <= setpoint_deadline {
            sensor_deadline
        } else {
            setpoint_deadline
        };
        if ttl_deadline < deadline {
            deadline = ttl_deadline;
        }
        let fault = input.proposal_fault;
        let rewrites_command = matches!(
            fault,
            Some(ProposalFaultV0::NonFinite) | Some(ProposalFaultV0::OutOfRange)
        );
        let mut proposal = ControlProposalV0 {
            clock_epoch: config.clock_epoch,
            source_epoch: config.subject_source_epoch,
            sequence: proposal_sequence,
            source_sensor_epoch: sensor.source_epoch,
            source_sensor_sequence: sensor.sequence,
            captured_at_ns: now,
            valid_until_ns: VirtualTimeNs(deadline),
            command: setpoint.payload,
        };
        match fault {
            Some(ProposalFaultV0::Expired) => {
                proposal.valid_until_ns = proposal.captured_at_ns;
            },
            Some(ProposalFaultV0::SourceSequenceMismatch) => {
                proposal.source_sensor_sequence = Sequence(
                    proposal.source_sensor_sequence.0.saturating_add(1),
                );
            },
            Some(ProposalFaultV0::NonFinite) | Some(ProposalFaultV0::OutOfRange) => {
                proposal.command = facts.faulted_command;
            },
            _ => {},
        }
        // Contract payloads are finite-only so evidence remains valid JSON. The
        // injected directive in the input is the evidence for a synthetic
        // non-finite proposal; the rejected payload itself is not recorded.
        let control = if matches!(fault, Some(ProposalFaultV0::NonFinite)) {
            None
        } else {
            Some(proposal)
        };
        let verdict = if rewrites_command {
            facts.faulted_command_verdict
        } else {
            PayloadVerdict::Valid
        };

        if now.0 >= proposal.valid_until_ns.0 {
            return Ok(denied_output(estimate, control, GateDeniedReasonV0::ProposalExpired));
        }
        if proposal.source_sensor_epoch != sensor.source_epoch || proposal.source_sensor_sequence
            != sensor.sequence {
            return Ok(denied_output(estimate, control, GateDeniedReasonV0::ProposalSourceMismatch));
        }
        if verdict == PayloadVerdict::NonFinite {
            return Ok(denied_output(estimate, control, GateDeniedReasonV0::NonFinite));
        }
        if verdict == PayloadVerdict::OutOfRange {
            return Ok(denied_output(estimate, control, GateDeniedReasonV0::OutOfRange));
        }

        let permit_epoch = match safety.payload.controller_state {
            SafetyControllerStateV0::Disarmed => {
                self.active_permit_epoch = None;
                return Ok(denied_output(estimate, control, GateDeniedReasonV0::SafetyNotArmed));
            },
            SafetyControllerStateV0::Tripped { .. } => {
                self.active_permit_epoch = None;
                return Ok(denied_output(estimate, control, GateDeniedReasonV0::SafetyTripped));
            },
            SafetyControllerStateV0::Armed { permit_epoch } => permit_epoch,
        };

        if !safety.payload.interlocks_clear {
            self.active_permit_epoch = None;
            return Ok(denied_output(estimate, control, GateDeniedReasonV0::InvalidSafetyStatus));
        }

        match self.active_permit_epoch {
            Some(active) => {
                if active != permit_epoch {
                    return Ok(
                        denied_output(estimate, control, GateDeniedReasonV0::PermitEpochMismatch),
                    );
                }
            },
            None => {
                self.active_permit_epoch = Some(permit_epoch);
            },
        }

        let safety_deadline = effective_deadline(&safety, config.policy.safety_max_age_ns);
        let intent_deadline = if proposal.valid_until_ns.0 <= safety_deadline {
            proposal.valid_until_ns.0
        } else {
            safety_deadline
        };
        let intent = ActuatorIntentV0 {
            clock_epoch: proposal.clock_epoch,
            source_epoch: proposal.source_epoch,
            sequence: proposal.sequence,
            permit_epoch,
            captured_at_ns: proposal.captured_at_ns,
            valid_until_ns: VirtualTimeNs(intent_deadline),
            command: facts.bounded_command,
        };

        if now.0 >= intent.valid_until_ns.0 {
            return Ok(denied_output(estimate, control, GateDeniedReasonV0::StaleSafetyStatus));
        }

        Ok(SubjectOutputV0 {
            lifecycle: SubjectLifecycleV0::Running,
            estimate,
            control,
            gate: GateDecisionV0::Admitted { intent, limited: facts.limited },
        })
    }
}

} // verus!

verus! {

/// What every reachable subject state satisfies: an unconfigured subject
/// holds no runtime state, and a configured one has positive gate TTLs.
pub open spec fn resumable<B>(s: ReferenceSubjectSnapshotV0<B>) -> bool {
    match s.config {
        None => s == unconfigured::<B>(),
        Some(c) => c.policy.sensor_max_age_ns.0 != 0 && c.policy.safety_max_age_ns.0 != 0
            && c.policy.setpoint_max_age_ns.0 != 0 && c.policy.proposal_ttl_ns.0 != 0,
    }
}

/// Every state the subject can reach can be checkpointed and restored: a
/// fresh subject, a successful reset and every turn keep the state
/// resumable (the subject's type invariant, which `snapshot` reports), and a
/// resumable snapshot whose policy limits and steps are valid is accepted by
/// `restore`, which then installs it exactly, into any subject; since a turn
/// depends on the subject's state alone, the restored subject answers every
/// later turn as the original does.
pub proof fn lemma_snapshot_restore_round_trip<S, C, B>(
    s: ReferenceSubjectSnapshotV0<B>,
    config: SubjectConfigV0<S, B>,
    config_facts: ConfigFacts,
    input: SubjectInputV0<S, C>,
    facts: TurnFacts<C>,
    policy_facts: PolicyFacts,
)
    ensures
        resumable(unconfigured::<B>()),
        spec_validate_config(config, config_facts) is None ==> resumable(configured(config)),
        resumable(s) ==> resumable(s.spec_step(input, facts).0),
        resumable(s) && policy_facts.limits_valid && policy_facts.steps_valid
            ==> spec_validate_snapshot(s, policy_facts) is None,
{
}

/// A latched task fault answers every later turn with the same task-error
/// denial and changes nothing; only a reset (which clears the latch) ends it.
pub proof fn lemma_fault_latch_holds_until_reset<S, C, B>(
    s: ReferenceSubjectSnapshotV0<B>,
    input: SubjectInputV0<S, C>,
    facts: TurnFacts<C>,
    config: SubjectConfigV0<S, B>,
)
    requires
        s.config is Some,
        s.fault_latch is Some,
    ensures
        s.spec_step(input, facts).0 == s,
        s.spec_step(input, facts).1 == Ok::<OutputModel<S, C>, SubjectErrorModel>(
            faulted(s.fault_latch.unwrap()),
        ),
        configured(config).fault_latch is None,
{
}

/// An injected task error on a turn whose streams are all accepted latches
/// the controller fault.
pub proof fn lemma_task_error_latches<S, C, B>(
    s: ReferenceSubjectSnapshotV0<B>,
    input: SubjectInputV0<S, C>,
    facts: TurnFacts<C>,
)
    requires
        s.config is Some,
        s.fault_latch is None,
        input.proposal_fault == Some(ProposalFaultV0::TaskError),
        (s.spec_step(input, facts).1 matches Ok(o) && o.gate == (GateDecisionV0::<C>::Denied {
            reason: GateDeniedReasonV0::TaskError,
        })),
    ensures
        s.spec_step(input, facts).0.fault_latch == Some(ReferenceSubjectFaultV0::ControllerTaskError),
{
}

/// Sequence cursors never move backwards across a turn.
pub proof fn lemma_step_cursors_never_regress<S, C, B>(
    s: ReferenceSubjectSnapshotV0<B>,
    input: SubjectInputV0<S, C>,
    facts: TurnFacts<C>,
)
    ensures
        ({
            let t = s.spec_step(input, facts).0;
            &&& (s.sensor_cursor matches Some(a) ==> t.sensor_cursor matches Some(b) && a.0 <= b.0)
            &&& (s.setpoint_cursor matches Some(a) ==> t.setpoint_cursor matches Some(b) && a.0
                <= b.0)
            &&& (s.safety_cursor matches Some(a) ==> t.safety_cursor matches Some(b) && a.0 <= b.0)
            &&& t.next_proposal_sequence >= s.next_proposal_sequence
            &&& t.config == s.config
        }),
{
}

/// An admitted intent is fully authorized by the turn's evidence: the safety
/// status announced `Armed` with clear interlocks and the intent's permit
/// epoch, which is now the subject's active permit; the intent carries the
/// configured clock and subject source epochs and the proposal sequence just
/// drawn, is stamped `now`, is valid strictly after `now`, no later than
/// the proposal TTL and no later than the safety status that authorized it
/// (its own deadline, and its capture time plus the maximum safety age),
/// and carries the rate-limited command. The subject is
/// running and estimates the accepted sensor payload.
pub proof fn lemma_admitted_intent_is_authorized<S, C, B>(
    s: ReferenceSubjectSnapshotV0<B>,
    input: SubjectInputV0<S, C>,
    facts: TurnFacts<C>,
    intent: ActuatorIntentV0<C>,
    limited: bool,
)
    requires
        (s.spec_step(input, facts).1 matches Ok(o) && o.gate == (GateDecisionV0::Admitted {
            intent,
            limited,
        })),
    ensures
        s.config is Some,
        s.fault_latch is None,
        (input.safety_status matches Some(frame) && frame.payload.interlocks_clear
            && frame.payload.controller_state == (SafetyControllerStateV0::Armed {
            permit_epoch: intent.permit_epoch,
        })),
        s.spec_step(input, facts).0.active_permit_epoch == Some(intent.permit_epoch),
        (s.active_permit_epoch matches Some(p) ==> p == intent.permit_epoch),
        intent.clock_epoch == s.config.unwrap().clock_epoch,
        intent.source_epoch == s.config.unwrap().subject_source_epoch,
        intent.sequence == Sequence(s.next_proposal_sequence),
        s.spec_step(input, facts).0.next_proposal_sequence == s.next_proposal_sequence + 1,
        intent.captured_at_ns == input.time_ns,
        input.time_ns.0 < intent.valid_until_ns.0,
        intent.valid_until_ns.0 <= sat_add(
            input.time_ns.0,
            s.config.unwrap().policy.proposal_ttl_ns.0,
        ),
        (input.safety_status matches Some(frame) && intent.valid_until_ns.0 <= frame.valid_until_ns.0
            && intent.valid_until_ns.0 <= frame.captured_at_ns.0
            + s.config.unwrap().policy.safety_max_age_ns.0),
        intent.command == facts.bounded_command,
        limited == facts.limited,
        s.spec_step(input, facts).1->Ok_0.lifecycle == LifecycleModel::Running,
        (input.sensor matches Some(frame) && s.spec_step(input, facts).1->Ok_0.estimate == Some(
            frame.payload,
        )),
        input.proposal_fault != Some(ProposalFaultV0::Expired),
        input.proposal_fault != Some(ProposalFaultV0::TaskError),
{
}

/// Once a permit epoch is active, an `Armed` status with another permit
/// epoch is never admitted and leaves the active permit in place; the
/// permit can only change after a turn that saw the controller not armed
/// (or with open interlocks), which clears it.
pub proof fn lemma_permit_change_requires_non_armed_turn<S, C, B>(
    s: ReferenceSubjectSnapshotV0<B>,
    input: SubjectInputV0<S, C>,
    facts: TurnFacts<C>,
    active: PermitEpoch,
    offered: PermitEpoch,
)
    requires
        s.active_permit_epoch == Some(active),
        active != offered,
        input.safety_status matches Some(frame) && frame.payload.controller_state == (
        SafetyControllerStateV0::Armed { permit_epoch: offered }),
    ensures
        !(s.spec_step(input, facts).1 matches Ok(o) && o.gate is Admitted),
        s.spec_step(input, facts).0.active_permit_epoch == Some(active)
            || s.spec_step(input, facts).0.active_permit_epoch is None,
{
}

} // verus!
