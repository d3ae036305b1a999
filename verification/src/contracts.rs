//! Versioned, transport-neutral contract types of the SO-101 test bench.
//!
//! Joint states and joint commands are floating-point vectors. They are kept
//! out of this crate by making every type that carries one generic over it:
//! `S` stands for a joint-state payload and `C` for a joint-command payload.
//! The decision logic never inspects a payload; it only moves it.
use vstd::prelude::*;

use crate::units::{
    sat_add, ClockEpoch, DurationNs, PermitEpoch, Sequence, SourceEpoch, Tick, VirtualTimeNs,
};

verus! {

pub const CONTRACT_SCHEMA_VERSION: u16 = 1;

pub const CONTRACT_ID: &'static str = "so101-bench/v0";

pub const PROFILE_ID: &'static str = "joint-position-loop/v0";

pub const ARM_JOINT_COUNT: usize = 5;

pub const SO101_TICK_PERIOD_NS: u64 = 5_000_000;

pub const PINNED_SO101_MODEL_DIGEST: &'static str =
    "sha256:5ad49f2b45c083baac9ffe5d4d3213a5da7eac8039095bb2df177a697aae8308";

#[derive(Debug, Clone, Copy, PartialEq, Eq, Structural, Hash)]
pub enum InvalidReasonV0 {
    Missing,
    SensorFault,
    Uncalibrated,
    NonFinite,
    OutOfRange,
    WrongClockEpoch,
    WrongSourceEpoch,
    FutureTimestamp,
    Expired,
    Duplicate,
    OutOfOrder,
    TaskError,
}

#[derive(Debug, Clone, Copy, PartialEq, Eq, Structural, Hash)]
pub enum ValidityV0 {
    Valid,
    Invalid(InvalidReasonV0),
}

/// A timestamped sample of one source stream.
#[derive(Debug, Clone, Copy, PartialEq)]
pub struct EnvelopeV0<T> {
    pub clock_epoch: ClockEpoch,
    pub source_epoch: SourceEpoch,
    pub sequence: Sequence,
    pub captured_at_ns: VirtualTimeNs,
    pub valid_until_ns: VirtualTimeNs,
    pub validity: ValidityV0,
    pub payload: T,
}

#[derive(Debug, Clone, Copy, PartialEq, Eq, Structural, Hash)]
pub enum SafetyTripReasonV0 {
    EmergencyStop,
    DriveFault,
    HeartbeatExpired,
    FeedbackInvalid,
    CommandInvalid,
    EpochMismatch,
    SubjectFault,
}

#[derive(Debug, Clone, Copy, PartialEq, Eq, Structural, Hash)]
pub enum SafetyControllerStateV0 {
    Disarmed,
    Armed { permit_epoch: PermitEpoch },
    Tripped { reason: SafetyTripReasonV0 },
}

#[derive(Debug, Clone, Copy, PartialEq, Eq, Structural, Hash)]
pub struct SafetyStatusV0 {
    pub controller_state: SafetyControllerStateV0,
    pub interlocks_clear: bool,
}

pub type SafetyStatusFrameV0 = EnvelopeV0<SafetyStatusV0>;

#[derive(Debug, Clone, Copy, PartialEq, Eq, Structural, Hash)]
pub enum SafetyActionV0 {
    ClearFaults,
    Reset,
    Arm,
    Disarm,
}

#[derive(Debug, Clone, Copy, PartialEq, Eq, Structural, Hash)]
pub enum ProposalFaultV0 {
    Expired,
    SourceSequenceMismatch,
    NonFinite,
    OutOfRange,
    TaskError,
}

/// Everything a subject receives on one control turn.
#[derive(Debug, Clone, Copy, PartialEq)]
pub struct SubjectInputV0<S, C> {
    pub tick: Tick,
    pub time_ns: VirtualTimeNs,
    pub setpoint: Option<EnvelopeV0<C>>,
    pub sensor: Option<EnvelopeV0<S>>,
    pub safety_status: Option<SafetyStatusFrameV0>,
    pub proposal_fault: Option<ProposalFaultV0>,
}

#[derive(Debug, Clone, Copy, PartialEq)]
pub struct ControlProposalV0<C> {
    pub clock_epoch: ClockEpoch,
    pub source_epoch: SourceEpoch,
    pub sequence: Sequence,
    pub source_sensor_epoch: SourceEpoch,
    pub source_sensor_sequence: Sequence,
    pub captured_at_ns: VirtualTimeNs,
    pub valid_until_ns: VirtualTimeNs,
    pub command: C,
}

#[derive(Debug, Clone, Copy, PartialEq)]
pub struct ActuatorIntentV0<C> {
    pub clock_epoch: ClockEpoch,
    pub source_epoch: SourceEpoch,
    pub sequence: Sequence,
    pub permit_epoch: PermitEpoch,
    pub captured_at_ns: VirtualTimeNs,
    pub valid_until_ns: VirtualTimeNs,
    pub command: C,
}

#[derive(Debug, Clone, Copy, PartialEq, Eq, Structural, Hash)]
pub enum GateDeniedReasonV0 {
    MissingSensor,
    InvalidSensor,
    StaleSensor,
    FutureSensor,
    DuplicateSensor,
    OutOfOrderSensor,
    WrongClockEpoch,
    WrongSourceEpoch,
    MissingSetpoint,
    InvalidSetpoint,
    StaleSetpoint,
    MissingSafetyStatus,
    InvalidSafetyStatus,
    StaleSafetyStatus,
    SafetyNotArmed,
    SafetyTripped,
    PermitEpochMismatch,
    ProposalExpired,
    ProposalSourceMismatch,
    NonFinite,
    OutOfRange,
    TaskError,
}

#[derive(Debug, Clone, Copy, PartialEq)]
pub enum GateDecisionV0<C> {
    NoCommand,
    Denied { reason: GateDeniedReasonV0 },
    Admitted { intent: ActuatorIntentV0<C>, limited: bool },
}

#[derive(Debug, Clone, PartialEq, Eq)]
pub enum SubjectLifecycleV0 {
    Running,
    Faulted { reason: String },
}

#[derive(Debug, Clone, PartialEq)]
pub struct SubjectOutputV0<S, C> {
    pub lifecycle: SubjectLifecycleV0,
    pub estimate: Option<S>,
    pub control: Option<ControlProposalV0<C>>,
    pub gate: GateDecisionV0<C>,
}

#[derive(Debug, Clone, Copy, PartialEq)]
pub struct AppliedActuationV0<C> {
    pub tick: Tick,
    pub time_ns: VirtualTimeNs,
    pub permit_epoch: PermitEpoch,
    pub intent_sequence: Sequence,
    pub command: C,
}

#[derive(Debug, Clone, Copy, PartialEq, Eq, Structural, Hash)]
pub enum SuppressionReasonV0 {
    Disarmed,
    Tripped,
    ArmTransition,
    FeedbackInvalid,
    MissingIntent,
    ExpiredIntent,
    WrongClockEpoch,
    WrongSourceEpoch,
    WrongPermitEpoch,
    DuplicateIntent,
    OutOfOrderIntent,
    SlewLimitExceeded,
    NonFinite,
    OutOfRange,
}

#[derive(Debug, Clone, Copy, PartialEq)]
pub enum SafetyDispositionV0<C> {
    Authorized { actuation: AppliedActuationV0<C> },
    Suppressed { reason: SuppressionReasonV0 },
}

#[derive(Debug, Clone, Copy, PartialEq, Eq, Structural, Hash)]
pub struct ScheduledSafetyActionV0 {
    pub at_tick: Tick,
    pub action: SafetyActionV0,
}

#[derive(Debug, Clone, Copy, PartialEq, Eq, Structural, Hash)]
pub enum FaultKindV0 {
    DropSensor,
    InvalidateSensor { reason: InvalidReasonV0 },
    OutOfRangeSensor,
    FutureSensor { offset_ns: DurationNs },
    OverAgeSensor { age_ns: DurationNs },
    StaleSensor { age_ns: DurationNs },
    DuplicateSensor,
    ReorderSensor,
    WrongSensorClockEpoch,
    WrongSensorSourceEpoch,
    DropSetpoint,
    InvalidateSetpoint { reason: InvalidReasonV0 },
    OutOfRangeSetpoint,
    FutureSetpoint { offset_ns: DurationNs },
    OverAgeSetpoint { age_ns: DurationNs },
    StaleSetpoint { age_ns: DurationNs },
    DuplicateSetpoint,
    ReorderSetpoint,
    WrongSetpointClockEpoch,
    WrongSetpointSourceEpoch,
    DropSafetyStatus,
    InvalidateSafetyStatus { reason: InvalidReasonV0 },
    OpenSafetyInterlock,
    FutureSafetyStatus { offset_ns: DurationNs },
    OverAgeSafetyStatus { age_ns: DurationNs },
    StaleSafetyStatus { age_ns: DurationNs },
    DuplicateSafetyStatus,
    ReorderSafetyStatus,
    WrongSafetyClockEpoch,
    WrongSafetySourceEpoch,
    WrongSafetyPermitEpoch,
    RevokePermit,
    EmergencyStop,
    DriveFault,
    Proposal { fault: ProposalFaultV0 },
    DropIntent,
}

#[derive(Debug, Clone, Copy, PartialEq, Eq, Structural, Hash)]
pub struct ScheduledFaultV0 {
    pub start_tick: Tick,
    pub duration_ticks: Tick,
    pub fault: FaultKindV0,
}

impl ScheduledFaultV0 {
    /// The half-open tick window `[start, start + duration)` in which the
    /// fault is active; the end saturates at `u64::MAX`.
    pub open spec fn spec_active_at(self, tick: Tick) -> bool {
        self.start_tick.0 <= tick.0 && tick.0 < sat_add(self.start_tick.0, self.duration_ticks.0)
    }

    pub fn active_at(&self, tick: Tick) -> (r: bool)
        ensures
            r == self.spec_active_at(tick),
    {
        let end = self.start_tick.0.saturating_add(self.duration_ticks.0);
        tick.0 >= self.start_tick.0 && tick.0 < end
    }
}

#[derive(Debug, Clone, Copy, PartialEq, Eq, Structural, Hash)]
pub enum ExpectedSafetyStateV0 {
    Disarmed,
    Armed,
    Tripped,
}

#[derive(Debug, Clone, Copy, PartialEq, Eq, Structural, Hash)]
pub struct LatencySummaryV0 {
    pub samples: u64,
    pub p50_ns: u64,
    pub p95_ns: u64,
    pub p99_ns: u64,
    pub p999_ns: u64,
    pub maximum_ns: u64,
}

#[derive(Debug, Clone, PartialEq, Eq)]
pub struct BenchmarkReportV0 {
    pub schema_version: u16,
    pub scenario_name: String,
    pub scenario_sha256: String,
    pub subject_id: String,
    pub plant_id: String,
    pub iterations: u64,
    pub semantic_failures: u64,
    pub control_turn_latency: LatencySummaryV0,
    pub wall_time_is_portable_gate: bool,
}

} // verus!

verus! {

/// Gate timing policy of a subject. `B` carries the joint limits and
/// per-turn step bounds, which are floating-point values.
#[derive(Debug, Clone, Copy, PartialEq)]
pub struct GatePolicyV0<B> {
    pub sensor_max_age_ns: DurationNs,
    pub safety_max_age_ns: DurationNs,
    pub setpoint_max_age_ns: DurationNs,
    pub proposal_ttl_ns: DurationNs,
    pub bounds: B,
}

/// Timing policy of the independent safety controller. `B` carries its
/// joint limits and per-turn step bounds.
#[derive(Debug, Clone, Copy, PartialEq)]
pub struct SafetyPolicyV0<B> {
    pub intent_max_age_ns: DurationNs,
    pub heartbeat_timeout_ns: DurationNs,
    pub bounds: B,
}

/// The runtime configuration visible to a subject under test.
///
/// It deliberately excludes expected outcomes, future faults and safety
/// actions, plant policy, equality thresholds, and other oracle-owned data.
#[derive(Debug, Clone, PartialEq)]
pub struct SubjectConfigV0<S, B> {
    pub schema_version: u16,
    pub contract: String,
    pub profile: String,
    pub clock_epoch: ClockEpoch,
    pub sensor_source_epoch: SourceEpoch,
    pub setpoint_source_epoch: SourceEpoch,
    pub subject_source_epoch: SourceEpoch,
    pub safety_source_epoch: SourceEpoch,
    pub tick_period_ns: DurationNs,
    pub initial_state: S,
    pub gate_policy: GatePolicyV0<B>,
}

} // verus!

verus! {

/// `SubjectLifecycleV0` with its fault reason taken as text.
pub enum LifecycleModel {
    Running,
    Faulted { reason: Seq<char> },
}

impl View for SubjectLifecycleV0 {
    type V = LifecycleModel;

    open spec fn view(&self) -> LifecycleModel {
        match self {
            SubjectLifecycleV0::Running => LifecycleModel::Running,
            SubjectLifecycleV0::Faulted { reason } => LifecycleModel::Faulted { reason: reason@ },
        }
    }
}

/// `SubjectOutputV0` with its lifecycle taken by view.
pub struct OutputModel<S, C> {
    pub lifecycle: LifecycleModel,
    pub estimate: Option<S>,
    pub control: Option<ControlProposalV0<C>>,
    pub gate: GateDecisionV0<C>,
}

impl<S, C> View for SubjectOutputV0<S, C> {
    type V = OutputModel<S, C>;

    open spec fn view(&self) -> OutputModel<S, C> {
        OutputModel {
            lifecycle: self.lifecycle@,
            estimate: self.estimate,
            control: self.control,
            gate: self.gate,
        }
    }
}

} // verus!

verus! {

#[derive(Debug, Clone, Copy, PartialEq)]
pub struct SetpointKeyframeV0<C> {
    pub at_tick: Tick,
    pub command: C,
}

/// Expected final plant state and the absolute tolerance (`Q`, a
/// floating-point value) it is compared with.
#[derive(Debug, Clone, Copy, PartialEq)]
pub struct ExpectedStateV0<S, Q> {
    pub state: S,
    pub absolute_tolerance: Q,
}

/// Per-reason denial counts, ordered by reason (declaration order), each
/// reason at most once.
pub type DenialCountsV0 = Vec<(GateDeniedReasonV0, u64)>;

#[derive(Debug, Clone, PartialEq)]
pub struct ExpectedRunV0<S, Q> {
    pub admitted_ticks: Option<u64>,
    pub denied_by_reason: DenialCountsV0,
    pub authorized_ticks: Option<u64>,
    pub suppressed_ticks: Vec<Tick>,
    pub terminal_safety_state: Option<ExpectedSafetyStateV0>,
    pub final_state: Option<ExpectedStateV0<S, Q>>,
}

/// How two traces are compared; the tolerances (`Q`) are floating-point.
#[derive(Debug, Clone, Copy, PartialEq)]
pub struct EqualityProfileV0<Q> {
    pub control_absolute_tolerance: Q,
    pub physics_absolute_tolerance: Q,
    pub require_exact_discrete_trace: bool,
    pub require_bit_exact_mock_trace: bool,
}

/// A complete deterministic scenario. `S` and `C` are the joint-state and
/// joint-command payloads, `B` the joint limits and step bounds of a policy,
/// `M` the mock plant's velocity policy and `Q` a tolerance.
#[derive(Debug, Clone, PartialEq)]
pub struct ScenarioV0<S, C, B, M, Q> {
    pub schema_version: u16,
    pub contract: String,
    pub profile: String,
    pub name: String,
    pub model_digest: String,
    pub clock_epoch: ClockEpoch,
    pub sensor_source_epoch: SourceEpoch,
    pub setpoint_source_epoch: SourceEpoch,
    pub subject_source_epoch: SourceEpoch,
    pub safety_source_epoch: SourceEpoch,
    pub tick_period_ns: DurationNs,
    pub ticks: Tick,
    pub seed: String,
    pub initial_state: S,
    pub setpoints: Vec<SetpointKeyframeV0<C>>,
    pub safety_actions: Vec<ScheduledSafetyActionV0>,
    pub faults: Vec<ScheduledFaultV0>,
    pub gate_policy: GatePolicyV0<B>,
    pub safety_policy: SafetyPolicyV0<B>,
    pub mock_plant_policy: M,
    pub equality: EqualityProfileV0<Q>,
    pub expected: ExpectedRunV0<S, Q>,
}

impl<S: Copy, C, B: Copy, M, Q> ScenarioV0<S, C, B, M, Q> {
    /// Only the configuration that a black-box subject may observe.
    pub fn subject_config(&self) -> (r: SubjectConfigV0<S, B>)
        ensures
            r.schema_version == self.schema_version,
            r.contract@ == self.contract@,
            r.profile@ == self.profile@,
            r.clock_epoch == self.clock_epoch,
            r.sensor_source_epoch == self.sensor_source_epoch,
            r.setpoint_source_epoch == self.setpoint_source_epoch,
            r.subject_source_epoch == self.subject_source_epoch,
            r.safety_source_epoch == self.safety_source_epoch,
            r.tick_period_ns == self.tick_period_ns,
            r.initial_state == self.initial_state,
            r.gate_policy == self.gate_policy,
    {
        SubjectConfigV0 {
            schema_version: self.schema_version,
            contract: self.contract.clone(),
            profile: self.profile.clone(),
            clock_epoch: self.clock_epoch,
            sensor_source_epoch: self.sensor_source_epoch,
            setpoint_source_epoch: self.setpoint_source_epoch,
            subject_source_epoch: self.subject_source_epoch,
            safety_source_epoch: self.safety_source_epoch,
            tick_period_ns: self.tick_period_ns,
            initial_state: self.initial_state,
            gate_policy: self.gate_policy,
        }
    }
}

#[derive(Debug, Clone, PartialEq)]
pub struct TraceRecordV0<S, C> {
    pub tick: Tick,
    pub time_ns: VirtualTimeNs,
    pub safety_actions: Vec<SafetyActionV0>,
    pub active_faults: Vec<FaultKindV0>,
    /// Authoritative pre-actuation plant state observed by the independent
    /// safety oracle, separate from the fault-injected sensor frame.
    pub safety_observation: S,
    pub subject_input: SubjectInputV0<S, C>,
    pub subject_output: SubjectOutputV0<S, C>,
    pub safety_disposition: SafetyDispositionV0<C>,
    pub safety_controller_after: SafetyStatusV0,
    pub plant_state_after: S,
}

#[derive(Debug, Clone, PartialEq, Eq)]
pub struct RunSummaryV0 {
    pub admitted_ticks: u64,
    pub denied_by_reason: DenialCountsV0,
    pub authorized_ticks: u64,
    pub suppressed_ticks: Vec<Tick>,
    pub terminal_safety_state: ExpectedSafetyStateV0,
    pub replayable: bool,
}

#[derive(Debug, Clone, PartialEq)]
pub struct SemanticTraceV0<S, C, B, Q> {
    pub schema_version: u16,
    pub contract: String,
    pub profile: String,
    pub scenario_name: String,
    pub scenario_sha256: String,
    pub model_digest: String,
    pub seed: String,
    pub tick_period_ns: DurationNs,
    pub expected_ticks: Tick,
    pub subject_config: SubjectConfigV0<S, B>,
    pub safety_policy: SafetyPolicyV0<B>,
    pub subject_id: String,
    pub plant_id: String,
    pub equality: EqualityProfileV0<Q>,
    pub records: Vec<TraceRecordV0<S, C>>,
    pub summary: RunSummaryV0,
}

} // verus!
