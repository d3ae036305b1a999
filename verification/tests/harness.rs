use hefaos_testbench::clock::VirtualClock;
use hefaos_testbench::contracts::{
    FaultKindV0, ProposalFaultV0, ScheduledFaultV0, ActuatorIntentV0, EnvelopeV0, EqualityProfileV0, ExpectedRunV0, ExpectedSafetyStateV0,
    ExpectedStateV0, GateDecisionV0, GateDeniedReasonV0, GatePolicyV0, SafetyActionV0,
    SafetyControllerStateV0, SafetyDispositionV0, SafetyPolicyV0, SafetyTripReasonV0,
    ScenarioV0, ScheduledSafetyActionV0, SemanticTraceV0, SetpointKeyframeV0, SubjectConfigV0,
    SubjectInputV0, SubjectLifecycleV0, SubjectOutputV0, SuppressionReasonV0, TraceRecordV0,
    ValidityV0, CONTRACT_ID, CONTRACT_SCHEMA_VERSION, PINNED_SO101_MODEL_DIGEST, PROFILE_ID,
    SO101_TICK_PERIOD_NS,
};
use hefaos_testbench::evidence::{
    find_proposal_fault, validate_trace_evidence, RecordFacts, TraceFacts,
};
use hefaos_testbench::expectations::{evaluate_expectations, ExpectationFacts};
use hefaos_testbench::harness::{SubjectError, Verdict};
use hefaos_testbench::reference::StreamKind;
use hefaos_testbench::safety::{IntentChecks, SafetyControllerSim};
use hefaos_testbench::scenario::{validate_scenario, ScenarioFacts};
use hefaos_testbench::summary::latency_summary;
use hefaos_testbench::turn::{
    begin_turn, check_runnable, close_turn, current_setpoint, deliver_frame,
    deliver_safety_status, finish_run, offered_intent, settle_outcome, StepOutcome,
};
use hefaos_testbench::units::{
    ClockEpoch, DurationNs, PermitEpoch, Sequence, SourceEpoch, Tick, VirtualTimeNs,
};

#[derive(Debug, Clone, Copy, PartialEq)]
struct State {
    arm_position_rad: [f64; 5],
    arm_velocity_rad_s: [f64; 5],
    gripper_position: f64,
    gripper_velocity_per_s: f64,
}

impl State {
    fn zero() -> Self {
        State {
            arm_position_rad: [0.0; 5],
            arm_velocity_rad_s: [0.0; 5],
            gripper_position: 0.0,
            gripper_velocity_per_s: 0.0,
        }
    }

    fn is_finite(&self) -> bool {
        self.arm_position_rad.iter().all(|v| v.is_finite())
            && self.arm_velocity_rad_s.iter().all(|v| v.is_finite())
            && self.gripper_position.is_finite()
            && self.gripper_velocity_per_s.is_finite()
    }
}

#[derive(Debug, Clone, Copy, PartialEq)]
struct Command {
    arm_position_rad: [f64; 5],
    gripper_position: f64,
}

impl Command {
    fn zero() -> Self {
        Command { arm_position_rad: [0.0; 5], gripper_position: 0.0 }
    }

    fn is_finite(&self) -> bool {
        self.arm_position_rad.iter().all(|v| v.is_finite()) && self.gripper_position.is_finite()
    }
}

#[derive(Debug, Clone, Copy, PartialEq)]
struct Limits {
    arm_position_rad: [[f64; 2]; 5],
    gripper_position: [f64; 2],
}

impl Limits {
    fn contains_state(&self, s: &State) -> bool {
        s.is_finite()
            && s.arm_position_rad
                .iter()
                .zip(&self.arm_position_rad)
                .all(|(v, [lo, hi])| lo <= v && v <= hi)
            && self.gripper_position[0] <= s.gripper_position
            && s.gripper_position <= self.gripper_position[1]
    }

    fn contains_command(&self, c: &Command) -> bool {
        c.is_finite()
            && c.arm_position_rad
                .iter()
                .zip(&self.arm_position_rad)
                .all(|(v, [lo, hi])| lo <= v && v <= hi)
            && self.gripper_position[0] <= c.gripper_position
            && c.gripper_position <= self.gripper_position[1]
    }

    fn valid(&self) -> bool {
        self.arm_position_rad
            .iter()
            .chain(std::iter::once(&self.gripper_position))
            .all(|[lo, hi]| lo.is_finite() && hi.is_finite() && lo <= hi)
    }

    fn within(&self, outer: &Limits) -> bool {
        self.arm_position_rad
            .iter()
            .zip(&outer.arm_position_rad)
            .all(|([a, b], [c, d])| a >= c && b <= d)
            && self.gripper_position[0] >= outer.gripper_position[0]
            && self.gripper_position[1] <= outer.gripper_position[1]
    }
}

#[derive(Debug, Clone, Copy, PartialEq)]
struct Bounds {
    max_arm_step_rad: [f64; 5],
    max_gripper_step: f64,
    limits: Limits,
}

#[derive(Debug, Clone, Copy, PartialEq)]
struct Mock {
    max_arm_velocity_rad_s: [f64; 5],
    max_gripper_velocity_per_s: f64,
}

type Scenario = ScenarioV0<State, Command, Bounds, Mock, f64>;
type Trace = SemanticTraceV0<State, Command, Bounds, f64>;

fn step_is_within_limit(value: f64, previous: f64, maximum: f64) -> bool {
    let delta = (value - previous).abs();
    delta <= maximum
        || (maximum > 0.0 && delta - maximum <= f64::EPSILON * 8.0 * maximum.abs().max(1.0))
}

fn intent_checks(
    observation: &State,
    intent: Option<&ActuatorIntentV0<Command>>,
    policy: &SafetyPolicyV0<Bounds>,
) -> IntentChecks {
    let limits = &policy.bounds.limits;
    let (finite, in_range, step_safe) = match intent {
        Some(i) => (
            i.command.is_finite(),
            limits.contains_command(&i.command),
            i.command
                .arm_position_rad
                .iter()
                .zip(&observation.arm_position_rad)
                .zip(&policy.bounds.max_arm_step_rad)
                .all(|((v, p), m)| step_is_within_limit(*v, *p, *m))
                && step_is_within_limit(
                    i.command.gripper_position,
                    observation.gripper_position,
                    policy.bounds.max_gripper_step,
                ),
        ),
        None => (true, true, true),
    };
    IntentChecks {
        observation_in_limits: limits.contains_state(observation),
        command_finite: finite,
        command_in_range: in_range,
        command_step_safe: step_safe,
    }
}

fn limits() -> Limits {
    Limits { arm_position_rad: [[-1.0, 1.0]; 5], gripper_position: [0.0, 1.0] }
}

fn scenario() -> Scenario {
    ScenarioV0 {
        schema_version: CONTRACT_SCHEMA_VERSION,
        contract: CONTRACT_ID.to_owned(),
        profile: PROFILE_ID.to_owned(),
        name: "unit".to_owned(),
        model_digest: PINNED_SO101_MODEL_DIGEST.to_owned(),
        clock_epoch: ClockEpoch(1),
        sensor_source_epoch: SourceEpoch(1),
        setpoint_source_epoch: SourceEpoch(4),
        subject_source_epoch: SourceEpoch(2),
        safety_source_epoch: SourceEpoch(3),
        tick_period_ns: DurationNs(SO101_TICK_PERIOD_NS),
        ticks: Tick(3),
        seed: "0".to_owned(),
        initial_state: State::zero(),
        setpoints: vec![SetpointKeyframeV0 { at_tick: Tick(0), command: Command::zero() }],
        safety_actions: Vec::new(),
        faults: Vec::new(),
        gate_policy: GatePolicyV0 {
            sensor_max_age_ns: DurationNs(10_000_000),
            safety_max_age_ns: DurationNs(10_000_000),
            setpoint_max_age_ns: DurationNs(10_000_000),
            proposal_ttl_ns: DurationNs(10_000_000),
            bounds: Bounds { max_arm_step_rad: [0.1; 5], max_gripper_step: 0.1, limits: limits() },
        },
        safety_policy: SafetyPolicyV0 {
            intent_max_age_ns: DurationNs(10_000_000),
            heartbeat_timeout_ns: DurationNs(20_000_000),
            bounds: Bounds { max_arm_step_rad: [0.1; 5], max_gripper_step: 0.1, limits: limits() },
        },
        mock_plant_policy: Mock { max_arm_velocity_rad_s: [1.0; 5], max_gripper_velocity_per_s: 1.0 },
        equality: EqualityProfileV0 {
            control_absolute_tolerance: 0.0,
            physics_absolute_tolerance: 0.0,
            require_exact_discrete_trace: true,
            require_bit_exact_mock_trace: true,
        },
        expected: ExpectedRunV0 {
            admitted_ticks: None,
            denied_by_reason: Vec::new(),
            authorized_ticks: None,
            suppressed_ticks: Vec::new(),
            terminal_safety_state: None,
            final_state: None,
        },
    }
}

fn non_negative(v: f64) -> bool {
    v.is_finite() && v >= 0.0
}

fn scenario_facts(s: &Scenario) -> ScenarioFacts {
    let gate = &s.gate_policy.bounds;
    let safety = &s.safety_policy.bounds;
    ScenarioFacts {
        limits_valid: gate.limits.valid() && safety.limits.valid(),
        safety_bounds_no_looser: safety.max_gripper_step <= gate.max_gripper_step
            && safety.max_arm_step_rad.iter().zip(&gate.max_arm_step_rad).all(|(a, b)| a <= b)
            && safety.limits.within(&gate.limits),
        initial_state_inside: s.initial_state.is_finite()
            && gate.limits.contains_state(&s.initial_state)
            && safety.limits.contains_state(&s.initial_state),
        setpoints_inside: s.setpoints.iter().map(|k| gate.limits.contains_command(&k.command)).collect(),
        named_values_valid: [
            non_negative(s.equality.control_absolute_tolerance),
            non_negative(s.equality.physics_absolute_tolerance),
            non_negative(gate.max_gripper_step),
            non_negative(safety.max_gripper_step),
            non_negative(s.mock_plant_policy.max_gripper_velocity_per_s),
        ],
        rates_valid: gate
            .max_arm_step_rad
            .iter()
            .chain(&safety.max_arm_step_rad)
            .chain(&s.mock_plant_policy.max_arm_velocity_rad_s)
            .all(|v| non_negative(*v)),
        final_state_valid: match &s.expected.final_state {
            Some(e) => e.state.is_finite() && non_negative(e.absolute_tolerance),
            None => true,
        },
    }
}

fn record_facts(t: &Trace, index: usize) -> RecordFacts {
    let r = &t.records[index];
    let numeric_finite = r.subject_input.sensor.as_ref().map_or(true, |f| f.payload.is_finite())
        && r.subject_input.setpoint.as_ref().map_or(true, |f| f.payload.is_finite())
        && r.subject_output.estimate.as_ref().map_or(true, |s| s.is_finite())
        && r.subject_output.control.as_ref().map_or(true, |p| p.command.is_finite())
        && match &r.subject_output.gate {
            GateDecisionV0::Admitted { intent, .. } => intent.command.is_finite(),
            _ => true,
        }
        && match &r.safety_disposition {
            SafetyDispositionV0::Authorized { actuation } => actuation.command.is_finite(),
            _ => true,
        }
        && r.safety_observation.is_finite()
        && r.plant_state_after.is_finite();
    let previous = if index == 0 {
        t.subject_config.initial_state
    } else {
        t.records[index - 1].plant_state_after
    };
    let actuation_matches_intent_command = match (&r.subject_output.gate, &r.safety_disposition) {
        (GateDecisionV0::Admitted { intent, .. }, SafetyDispositionV0::Authorized { actuation }) => {
            intent.command == actuation.command
        }
        _ => true,
    };
    let intent = offered_intent(&r.active_faults, &r.subject_output.gate);
    RecordFacts {
        numeric_finite,
        observation_is_previous_state: r.safety_observation == previous,
        actuation_matches_intent_command,
        safety: intent_checks(&r.safety_observation, intent, &t.safety_policy),
    }
}

fn trace_facts(t: &Trace) -> TraceFacts {
    let gate = &t.subject_config.gate_policy.bounds;
    let safety = &t.safety_policy.bounds;
    TraceFacts {
        limits_valid: gate.limits.valid() && safety.limits.valid(),
        safety_steps_valid: safety.max_arm_step_rad.iter().all(|v| non_negative(*v))
            && non_negative(safety.max_gripper_step),
        safety_bounds_no_looser: safety.max_gripper_step <= gate.max_gripper_step
            && safety.max_arm_step_rad.iter().zip(&gate.max_arm_step_rad).all(|(a, b)| a <= b)
            && safety.limits.within(&gate.limits),
        initial_state_inside: gate.limits.contains_state(&t.subject_config.initial_state)
            && safety.limits.contains_state(&t.subject_config.initial_state),
        tolerances_valid: non_negative(t.equality.control_absolute_tolerance)
            && non_negative(t.equality.physics_absolute_tolerance),
        records: (0..t.records.len()).map(|i| record_facts(t, i)).collect(),
    }
}

fn state_close(a: &State, b: &State, tolerance: f64) -> bool {
    a.is_finite()
        && b.is_finite()
        && a.arm_position_rad
            .iter()
            .chain(&a.arm_velocity_rad_s)
            .zip(b.arm_position_rad.iter().chain(&b.arm_velocity_rad_s))
            .all(|(x, y)| (x - y).abs() <= tolerance)
        && (a.gripper_position - b.gripper_position).abs() <= tolerance
        && (a.gripper_velocity_per_s - b.gripper_velocity_per_s).abs() <= tolerance
}

#[derive(Debug, Clone, Copy)]
enum Behavior {
    Error,
    Panic,
    MotionlessIntent,
    UnsafeIntent,
    TaskFault,
}

fn scripted_step(
    behavior: Behavior,
    config: &SubjectConfigV0<State, Bounds>,
    input: &SubjectInputV0<State, Command>,
) -> StepOutcome<State, Command> {
    match behavior {
        Behavior::Error => StepOutcome::Failed(SubjectError::Step("injected error".to_owned())),
        Behavior::Panic => StepOutcome::Panicked,
        Behavior::TaskFault if input.proposal_fault == Some(ProposalFaultV0::TaskError) => {
            StepOutcome::Completed(SubjectOutputV0 {
                lifecycle: SubjectLifecycleV0::Faulted { reason: "injected task error".to_owned() },
                estimate: None,
                control: None,
                gate: GateDecisionV0::Denied { reason: GateDeniedReasonV0::TaskError },
            })
        }
        Behavior::MotionlessIntent | Behavior::TaskFault => {
            let gate = match input.safety_status.as_ref().map(|f| f.payload.controller_state) {
                Some(SafetyControllerStateV0::Armed { permit_epoch }) => GateDecisionV0::Admitted {
                    intent: ActuatorIntentV0 {
                        clock_epoch: config.clock_epoch,
                        source_epoch: config.subject_source_epoch,
                        sequence: Sequence(input.tick.0),
                        permit_epoch,
                        captured_at_ns: input.time_ns,
                        valid_until_ns: VirtualTimeNs(input.time_ns.0.saturating_add(10_000_000)),
                        command: Command::zero(),
                    },
                    limited: false,
                },
                _ => GateDecisionV0::Denied { reason: GateDeniedReasonV0::SafetyNotArmed },
            };
            StepOutcome::Completed(SubjectOutputV0 {
                lifecycle: SubjectLifecycleV0::Running,
                estimate: input.sensor.as_ref().map(|f| f.payload),
                control: None,
                gate,
            })
        }
        Behavior::UnsafeIntent => {
            let mut command = Command::zero();
            command.arm_position_rad[0] = 2.0;
            StepOutcome::Completed(SubjectOutputV0 {
                lifecycle: SubjectLifecycleV0::Running,
                estimate: input.sensor.as_ref().map(|f| f.payload),
                control: None,
                gate: GateDecisionV0::Admitted {
                    intent: ActuatorIntentV0 {
                        clock_epoch: config.clock_epoch,
                        source_epoch: config.subject_source_epoch,
                        sequence: Sequence(input.tick.0),
                        permit_epoch: PermitEpoch(1),
                        captured_at_ns: input.time_ns,
                        valid_until_ns: VirtualTimeNs(input.time_ns.0.saturating_add(10_000_000)),
                        command,
                    },
                    limited: false,
                },
            })
        }
    }
}

/// Drives a scripted subject against a static plant through the library's
/// turn decisions, and judges the run.
fn run(s: &Scenario, behavior: Behavior) -> (Trace, Verdict) {
    let facts = scenario_facts(s);
    check_runnable(s, &facts, PINNED_SO101_MODEL_DIGEST).expect("runnable scenario");
    let config = s.subject_config();
    let mut plant = s.initial_state;
    let mut clock = VirtualClock::new(s.clock_epoch);
    let mut safety = SafetyControllerSim::new(s);
    let mut records = Vec::new();
    let mut replayable = true;
    for _ in 0..s.ticks.0 {
        let tick = clock.tick();
        let now = clock.now();
        let (safety_actions, active_faults) = begin_turn(s, &mut safety, tick, now);
        let observation = plant;
        let sensor = EnvelopeV0 {
            clock_epoch: s.clock_epoch,
            source_epoch: s.sensor_source_epoch,
            sequence: Sequence(tick.0),
            captured_at_ns: now,
            valid_until_ns: VirtualTimeNs(now.0.saturating_add(SO101_TICK_PERIOD_NS)),
            validity: ValidityV0::Valid,
            payload: plant,
        };
        let mut out_of_range = plant;
        out_of_range.arm_position_rad[0] = s.gate_policy.bounds.limits.arm_position_rad[0][1] + 1.0;
        let sensor = deliver_frame(
            Some(sensor),
            &active_faults,
            StreamKind::Sensor,
            s.clock_epoch,
            s.sensor_source_epoch,
            out_of_range,
        );
        let safety_status = deliver_safety_status(
            &mut safety,
            now,
            s.tick_period_ns,
            &active_faults,
            s.clock_epoch,
            s.safety_source_epoch,
        );
        let setpoint = current_setpoint(s, tick);
        let mut command_out_of_range = setpoint.map(|f| f.payload).unwrap_or(Command::zero());
        command_out_of_range.arm_position_rad[0] =
            s.gate_policy.bounds.limits.arm_position_rad[0][1] + 1.0;
        let setpoint = deliver_frame(
            setpoint,
            &active_faults,
            StreamKind::Setpoint,
            s.clock_epoch,
            s.setpoint_source_epoch,
            command_out_of_range,
        );
        let input = SubjectInputV0 {
            tick,
            time_ns: now,
            setpoint,
            sensor,
            safety_status,
            proposal_fault: find_proposal_fault(&active_faults),
        };
        let outcome = scripted_step(behavior, &config, &input);
        let (subject_output, completed) = settle_outcome(outcome, &mut safety);
        replayable = replayable && completed;
        let checks = intent_checks(
            &observation,
            offered_intent(&active_faults, &subject_output.gate),
            &s.safety_policy,
        );
        let disposition = close_turn(&mut safety, tick, now, &active_faults, &subject_output, checks);
        if let SafetyDispositionV0::Authorized { actuation } = &disposition {
            plant.arm_position_rad = actuation.command.arm_position_rad;
            plant.gripper_position = actuation.command.gripper_position;
        }
        records.push(TraceRecordV0 {
            tick,
            time_ns: now,
            safety_actions,
            active_faults,
            safety_observation: observation,
            subject_input: input,
            subject_output,
            safety_disposition: disposition,
            safety_controller_after: safety.snapshot(),
            plant_state_after: plant,
        });
        clock.advance(s.tick_period_ns);
    }
    let trace = finish_run(
        s,
        &"0".repeat(64),
        "scripted-adversary/v0",
        "static-test-plant",
        records,
        safety.state(),
        replayable,
    );
    let expectation = match (&s.expected.final_state, trace.records.last()) {
        (Some(e), Some(last)) => ExpectationFacts {
            final_state_close: state_close(&last.plant_state_after, &e.state, e.absolute_tolerance),
            final_tolerance_text: e.absolute_tolerance.to_string(),
        },
        _ => ExpectationFacts { final_state_close: true, final_tolerance_text: String::new() },
    };
    let verdict = evaluate_expectations(s, &trace, &trace_facts(&trace), &expectation);
    (trace, verdict)
}

fn safety() -> SafetyControllerSim<Bounds> {
    SafetyControllerSim::new(&scenario())
}

fn evaluate(
    controller: &mut SafetyControllerSim<Bounds>,
    tick: u64,
    now: u64,
    intent: Option<&ActuatorIntentV0<Command>>,
    observation: &State,
) -> SafetyDispositionV0<Command> {
    let checks = intent_checks(observation, intent, &scenario().safety_policy);
    controller.evaluate(Tick(tick), VirtualTimeNs(now), intent, checks)
}

fn valid_intent(sequence: u64) -> ActuatorIntentV0<Command> {
    ActuatorIntentV0 {
        clock_epoch: ClockEpoch(1),
        source_epoch: SourceEpoch(2),
        sequence: Sequence(sequence),
        permit_epoch: PermitEpoch(1),
        captured_at_ns: VirtualTimeNs(5_000_000),
        valid_until_ns: VirtualTimeNs(15_000_000),
        command: Command::zero(),
    }
}

fn armed_controller() -> SafetyControllerSim<Bounds> {
    let mut controller = safety();
    controller.apply_action(Tick(0), VirtualTimeNs(0), &SafetyActionV0::Arm);
    controller
}

fn two_step_arming() -> Vec<ScheduledSafetyActionV0> {
    vec![
        ScheduledSafetyActionV0 { at_tick: Tick(0), action: SafetyActionV0::Reset },
        ScheduledSafetyActionV0 { at_tick: Tick(1), action: SafetyActionV0::Arm },
    ]
}

#[test]
fn virtual_clock_never_reads_wall_time() {
    let mut clock = VirtualClock::new(ClockEpoch(7));
    clock.advance(DurationNs(5_000_000));
    assert_eq!(clock.tick(), Tick(1));
    assert_eq!(clock.now(), VirtualTimeNs(5_000_000));
    assert_eq!(clock.epoch(), ClockEpoch(7));
}

#[test]
fn latency_percentiles_are_deterministic() {
    let summary = latency_summary(&[50, 10, 30, 40, 20]);
    assert_eq!(summary.p50_ns, 30);
    assert_eq!(summary.maximum_ns, 50);
}

#[test]
fn arm_turn_never_authorizes_motion() {
    let mut controller = safety();
    controller.apply_action(Tick(0), VirtualTimeNs(0), &SafetyActionV0::Reset);
    controller.apply_action(Tick(1), VirtualTimeNs(5), &SafetyActionV0::Arm);
    let intent = ActuatorIntentV0 {
        clock_epoch: ClockEpoch(1),
        source_epoch: SourceEpoch(2),
        sequence: Sequence(0),
        permit_epoch: PermitEpoch(1),
        captured_at_ns: VirtualTimeNs(5),
        valid_until_ns: VirtualTimeNs(10),
        command: Command::zero(),
    };
    assert_eq!(
        evaluate(&mut controller, 1, 5, Some(&intent), &State::zero()),
        SafetyDispositionV0::Suppressed { reason: SuppressionReasonV0::ArmTransition }
    );
    assert!(matches!(
        evaluate(&mut controller, 2, 6, Some(&intent), &State::zero()),
        SafetyDispositionV0::Authorized { .. }
    ));
}

#[test]
fn trip_is_latched_until_clear_and_reset() {
    let mut controller = safety();
    controller.apply_action(Tick(0), VirtualTimeNs(0), &SafetyActionV0::Arm);
    controller.trip(SafetyTripReasonV0::EmergencyStop);
    controller.apply_action(Tick(1), VirtualTimeNs(5), &SafetyActionV0::ClearFaults);
    assert!(matches!(controller.state(), SafetyControllerStateV0::Tripped { .. }));
    controller.apply_action(Tick(2), VirtualTimeNs(10), &SafetyActionV0::Reset);
    assert_eq!(controller.state(), &SafetyControllerStateV0::Disarmed);
}

#[test]
fn safety_rejects_adversarial_intent_matrix() {
    let mut wrong_clock = valid_intent(0);
    wrong_clock.clock_epoch = ClockEpoch(99);
    let mut wrong_source = valid_intent(0);
    wrong_source.source_epoch = SourceEpoch(99);
    let mut wrong_permit = valid_intent(0);
    wrong_permit.permit_epoch = PermitEpoch(99);
    let mut future = valid_intent(0);
    future.captured_at_ns = VirtualTimeNs(5_000_001);
    let mut expired = valid_intent(0);
    expired.valid_until_ns = VirtualTimeNs(5_000_000);
    let cases = [
        (wrong_clock, SuppressionReasonV0::WrongClockEpoch),
        (wrong_source, SuppressionReasonV0::WrongSourceEpoch),
        (wrong_permit, SuppressionReasonV0::WrongPermitEpoch),
        (future, SuppressionReasonV0::ExpiredIntent),
        (expired, SuppressionReasonV0::ExpiredIntent),
    ];
    for (intent, expected) in cases {
        let mut controller = armed_controller();
        assert_eq!(
            evaluate(&mut controller, 1, 5_000_000, Some(&intent), &State::zero()),
            SafetyDispositionV0::Suppressed { reason: expected }
        );
    }

    let mut age_boundary = valid_intent(0);
    age_boundary.captured_at_ns = VirtualTimeNs(0);
    age_boundary.valid_until_ns = VirtualTimeNs(20_000_000);
    assert_eq!(
        evaluate(&mut armed_controller(), 2, 10_000_000, Some(&age_boundary), &State::zero()),
        SafetyDispositionV0::Suppressed { reason: SuppressionReasonV0::ExpiredIntent }
    );

    for expected in [
        SuppressionReasonV0::NonFinite,
        SuppressionReasonV0::OutOfRange,
        SuppressionReasonV0::SlewLimitExceeded,
    ] {
        let mut intent = valid_intent(0);
        match expected {
            SuppressionReasonV0::NonFinite => intent.command.arm_position_rad[0] = f64::NAN,
            SuppressionReasonV0::OutOfRange => intent.command.arm_position_rad[0] = 2.0,
            SuppressionReasonV0::SlewLimitExceeded => intent.command.arm_position_rad[0] = 0.2,
            _ => unreachable!("test matrix only contains command validation failures"),
        }
        let mut controller = armed_controller();
        assert_eq!(
            evaluate(&mut controller, 1, 5_000_000, Some(&intent), &State::zero()),
            SafetyDispositionV0::Suppressed { reason: expected }
        );
        assert!(matches!(
            controller.state(),
            SafetyControllerStateV0::Tripped { reason: SafetyTripReasonV0::CommandInvalid }
        ));
    }

    let mut controller = armed_controller();
    let first = valid_intent(5);
    assert!(matches!(
        evaluate(&mut controller, 1, 5_000_000, Some(&first), &State::zero()),
        SafetyDispositionV0::Authorized { .. }
    ));
    assert_eq!(
        evaluate(&mut controller, 2, 6_000_000, Some(&first), &State::zero()),
        SafetyDispositionV0::Suppressed { reason: SuppressionReasonV0::DuplicateIntent }
    );
    let earlier = valid_intent(4);
    assert_eq!(
        evaluate(&mut controller, 3, 7_000_000, Some(&earlier), &State::zero()),
        SafetyDispositionV0::Suppressed { reason: SuppressionReasonV0::OutOfOrderIntent }
    );
}

#[test]
fn watchdog_and_trip_latch_are_half_open_and_cannot_be_disarmed_away() {
    let mut controller = armed_controller();
    assert_eq!(
        evaluate(&mut controller, 1, 5_000_000, None, &State::zero()),
        SafetyDispositionV0::Suppressed { reason: SuppressionReasonV0::MissingIntent }
    );
    assert_eq!(
        evaluate(&mut controller, 4, 20_000_000, None, &State::zero()),
        SafetyDispositionV0::Suppressed { reason: SuppressionReasonV0::Tripped }
    );
    assert!(matches!(
        controller.state(),
        SafetyControllerStateV0::Tripped { reason: SafetyTripReasonV0::HeartbeatExpired }
    ));
    controller.apply_action(Tick(5), VirtualTimeNs(25_000_000), &SafetyActionV0::Disarm);
    assert!(matches!(controller.state(), SafetyControllerStateV0::Tripped { .. }));
}

#[test]
fn slew_guard_uses_the_authoritative_observation() {
    let mut controller = armed_controller();
    let mut observation = State::zero();
    observation.arm_position_rad[0] = 0.000_000_2;
    let mut intent = valid_intent(0);
    intent.command.arm_position_rad[0] = observation.arm_position_rad[0] + 0.1;
    assert!(matches!(
        evaluate(&mut controller, 1, 5_000_000, Some(&intent), &observation),
        SafetyDispositionV0::Authorized { .. }
    ));
}

#[test]
fn safety_trips_on_out_of_range_authoritative_feedback() {
    let mut controller = armed_controller();
    let mut observation = State::zero();
    observation.arm_position_rad[0] = 1.01;
    let mut intent = valid_intent(0);
    intent.command.arm_position_rad[0] = 1.0;
    assert_eq!(
        evaluate(&mut controller, 1, 5_000_000, Some(&intent), &observation),
        SafetyDispositionV0::Suppressed { reason: SuppressionReasonV0::FeedbackInvalid }
    );
    assert_eq!(
        controller.state(),
        &SafetyControllerStateV0::Tripped { reason: SafetyTripReasonV0::FeedbackInvalid }
    );
}

#[test]
fn scenario_rejects_a_safety_policy_looser_than_the_subject_gate() {
    let mut loose_limits = scenario();
    loose_limits.safety_policy.bounds.limits.arm_position_rad[0][1] = 1.1;
    assert!(validate_scenario(&loose_limits, &scenario_facts(&loose_limits)).is_err());

    let mut loose_slew = scenario();
    loose_slew.safety_policy.bounds.max_arm_step_rad[0] = 0.2;
    assert!(validate_scenario(&loose_slew, &scenario_facts(&loose_slew)).is_err());

    let mut loose_age = scenario();
    loose_age.safety_policy.intent_max_age_ns = DurationNs(10_000_001);
    assert!(validate_scenario(&loose_age, &scenario_facts(&loose_age)).is_err());
}

#[test]
fn nominal_acceptance_rejects_a_safe_but_motionless_subject() {
    let mut s = scenario();
    s.setpoints[0].command.arm_position_rad[0] = 0.1;
    s.safety_actions = two_step_arming();
    s.expected.admitted_ticks = Some(2);
    s.expected.denied_by_reason = vec![(GateDeniedReasonV0::SafetyNotArmed, 1)];
    s.expected.authorized_ticks = Some(1);
    s.expected.suppressed_ticks = vec![Tick(0), Tick(1)];
    s.expected.terminal_safety_state = Some(ExpectedSafetyStateV0::Armed);
    let mut expected_state = State::zero();
    expected_state.arm_position_rad[0] = 0.1;
    s.expected.final_state = Some(ExpectedStateV0 { state: expected_state, absolute_tolerance: 0.0 });

    let (_, verdict) = run(&s, Behavior::MotionlessIntent);
    assert!(!verdict.passed);
    assert_eq!(verdict.failures, vec!["final state differs beyond tolerance 0"]);
}

#[test]
fn runner_never_applies_an_adversarial_out_of_range_intent() {
    let mut s = scenario();
    s.safety_actions = two_step_arming();
    s.expected.admitted_ticks = Some(3);
    s.expected.authorized_ticks = Some(0);
    s.expected.suppressed_ticks = vec![Tick(0), Tick(1), Tick(2)];
    s.expected.terminal_safety_state = Some(ExpectedSafetyStateV0::Tripped);

    let (trace, verdict) = run(&s, Behavior::UnsafeIntent);
    assert!(verdict.passed, "{:?}", verdict.failures);
    assert_eq!(trace.summary.authorized_ticks, 0);
    assert_eq!(trace.records.last().unwrap().plant_state_after, State::zero());
    assert!(matches!(
        trace.records.last().unwrap().safety_controller_after.controller_state,
        SafetyControllerStateV0::Tripped { reason: SafetyTripReasonV0::CommandInvalid }
    ));

    validate_trace_evidence(&trace, &trace_facts(&trace)).expect("runner emits valid evidence");
    let mut forged = trace.clone();
    forged.records[1].safety_observation.arm_position_rad[0] = 0.01;
    let failures = validate_trace_evidence(&forged, &trace_facts(&forged))
        .expect_err("forged baseline must fail");
    assert!(failures
        .iter()
        .any(|f| f.contains("safety observation is not the preceding authoritative plant state")));
}

#[test]
fn subject_errors_and_panics_fail_closed_and_are_never_replayable() {
    for behavior in [Behavior::Error, Behavior::Panic] {
        let mut s = scenario();
        s.safety_actions = two_step_arming();
        s.expected.denied_by_reason = vec![(GateDeniedReasonV0::TaskError, 3)];
        s.expected.authorized_ticks = Some(0);
        s.expected.suppressed_ticks = vec![Tick(0), Tick(1), Tick(2)];
        s.expected.terminal_safety_state = Some(ExpectedSafetyStateV0::Tripped);

        let (trace, verdict) = run(&s, behavior);
        assert!(!trace.summary.replayable);
        assert!(!verdict.passed);
        assert_eq!(trace.summary.authorized_ticks, 0);
        assert!(matches!(
            trace.records.first().unwrap().safety_controller_after.controller_state,
            SafetyControllerStateV0::Tripped { reason: SafetyTripReasonV0::SubjectFault }
        ));
    }
}

#[test]
fn failed_turn_records_its_error_as_the_fault_reason() {
    let mut s = scenario();
    s.safety_actions = two_step_arming();
    let (trace, _) = run(&s, Behavior::Error);
    assert_eq!(
        trace.records[0].subject_output.lifecycle,
        SubjectLifecycleV0::Faulted { reason: "subject turn failed: injected error".to_owned() }
    );
    let (trace, _) = run(&s, Behavior::Panic);
    assert_eq!(
        trace.records[2].subject_output.lifecycle,
        SubjectLifecycleV0::Faulted { reason: "subject panicked".to_owned() }
    );
}

#[test]
fn expectation_failures_render_counts_ticks_and_states() {
    let mut s = scenario();
    s.safety_actions = two_step_arming();
    s.expected.admitted_ticks = Some(1);
    s.expected.denied_by_reason = vec![(GateDeniedReasonV0::MissingSensor, 1)];
    s.expected.authorized_ticks = Some(2);
    s.expected.suppressed_ticks = vec![Tick(2)];
    s.expected.terminal_safety_state = Some(ExpectedSafetyStateV0::Disarmed);
    let (_, verdict) = run(&s, Behavior::MotionlessIntent);
    assert!(!verdict.passed);
    assert_eq!(
        verdict.failures,
        vec![
            "expected 1 admitted ticks, got 2",
            "denial counts differ: expected {MissingSensor: 1}, got {SafetyNotArmed: 1}",
            "expected 2 authorized ticks, got 1",
            "suppressed ticks differ: expected [Tick(2)], got [Tick(0), Tick(1)]",
            "expected terminal safety state Disarmed, got Armed",
        ]
    );
}

use hefaos_testbench::compare::{compare_semantic_traces, ComparisonFacts, PairFacts};
use hefaos_testbench::replay::{ReplaySession, ReplayTurnFacts, ResetOutcome};
use hefaos_testbench::run_summary::summarize;
use hefaos_testbench::summary::benchmark_report;

fn favourable_pairs(n: usize) -> Vec<PairFacts> {
    vec![
        PairFacts {
            observation_close: true,
            sensor_payload_close: true,
            setpoint_command_close: true,
            estimate_close: true,
            proposal_command_close: true,
            gate_command_close: true,
            actuation_command_close: true,
            plant_state_close: true,
        };
        n
    ]
}

fn nominal() -> Scenario {
    let mut s = scenario();
    s.safety_actions = two_step_arming();
    s
}

#[test]
fn self_comparison_reports_no_difference() {
    let (trace, _) = run(&nominal(), Behavior::MotionlessIntent);
    let facts = trace_facts(&trace);
    let comparison = ComparisonFacts {
        header_payloads_equal: true,
        records_identical: true,
        physics_tolerance_text: "0".to_owned(),
        pairs: favourable_pairs(trace.records.len()),
    };
    let report = compare_semantic_traces(&trace, &trace, &facts, &facts, &comparison);
    assert!(report.equal, "{:?}", report.differences);
    assert!(report.differences.is_empty());
}

#[test]
fn comparison_reports_each_kind_of_difference() {
    let (left, _) = run(&nominal(), Behavior::MotionlessIntent);
    let mut right = left.clone();
    right.records[1].safety_actions.clear();
    right.subject_id = "another-subject/v0".to_owned();
    let mut pairs = favourable_pairs(3);
    pairs[2].plant_state_close = false;
    let comparison = ComparisonFacts {
        header_payloads_equal: true,
        records_identical: false,
        physics_tolerance_text: "0.000001".to_owned(),
        pairs,
    };
    let lf = trace_facts(&left);
    let rf = trace_facts(&right);
    let report = compare_semantic_traces(&left, &right, &lf, &rf, &comparison);
    assert!(!report.equal);
    assert!(report.differences.contains(&"scheduled events differ at record 1".to_owned()));
    assert!(report
        .differences
        .contains(&"plant state at record 2 differs beyond tolerance 0.000001".to_owned()));
    assert!(report.differences.iter().any(|d| d.starts_with("right trace: ")));
    assert!(!report.differences.iter().any(|d| d.starts_with("left trace: ")));
    assert!(!report
        .differences
        .contains(&"trace provenance or execution profile differs".to_owned()));
}

#[test]
fn bit_exact_mock_traces_compare_records_as_values() {
    let (mut left, _) = run(&nominal(), Behavior::MotionlessIntent);
    left.plant_id = "so101-mock".to_owned();
    let right = left.clone();
    let facts = trace_facts(&left);
    let comparison = ComparisonFacts {
        header_payloads_equal: true,
        records_identical: false,
        physics_tolerance_text: "0".to_owned(),
        pairs: favourable_pairs(3),
    };
    let report = compare_semantic_traces(&left, &right, &facts, &facts, &comparison);
    assert_eq!(report.differences, vec!["bit-exact mock records differ"]);
}

#[test]
fn record_count_difference_is_reported() {
    let (left, _) = run(&nominal(), Behavior::MotionlessIntent);
    let mut right = left.clone();
    right.records.pop();
    let comparison = ComparisonFacts {
        header_payloads_equal: true,
        records_identical: false,
        physics_tolerance_text: "0".to_owned(),
        pairs: favourable_pairs(2),
    };
    let report = compare_semantic_traces(
        &left,
        &right,
        &trace_facts(&left),
        &trace_facts(&right),
        &comparison,
    );
    assert!(report.differences.contains(&"record count differs: 3 != 2".to_owned()));
}

fn faithful_turn(trace: &Trace, index: usize) -> ReplayTurnFacts {
    ReplayTurnFacts {
        estimate_close: true,
        proposal_command_close: true,
        gate_command_close: true,
        actuation_command_close: true,
        checks: record_facts(trace, index).safety,
    }
}

#[test]
fn valid_trace_replays_cleanly_against_its_own_outputs() {
    let (trace, _) = run(&nominal(), Behavior::MotionlessIntent);
    let facts = trace_facts(&trace);
    assert_eq!(validate_trace_evidence(&trace, &facts), Ok(()));
    let mut session = ReplaySession::begin(&trace, &facts);
    assert!(!session.halted());
    session.after_reset(ResetOutcome::Accepted);
    for index in 0..trace.records.len() {
        session.open_record(&trace, index);
        let outcome = StepOutcome::Completed(trace.records[index].subject_output.clone());
        session.close_record(&trace, index, outcome, faithful_turn(&trace, index), "0");
    }
    let report = session.finish();
    assert!(report.equal, "{:?}", report.differences);
}

#[test]
fn replay_reports_a_failed_turn_and_stops() {
    let (trace, _) = run(&nominal(), Behavior::MotionlessIntent);
    let facts = trace_facts(&trace);
    let mut session = ReplaySession::begin(&trace, &facts);
    session.after_reset(ResetOutcome::Accepted);
    session.open_record(&trace, 0);
    session.close_record(
        &trace,
        0,
        StepOutcome::Failed(SubjectError::Step("boom".to_owned())),
        faithful_turn(&trace, 0),
        "0",
    );
    assert!(session.halted());
    session.open_record(&trace, 1);
    session.close_record(&trace, 1, StepOutcome::Panicked, faithful_turn(&trace, 1), "0");
    let report = session.finish();
    assert_eq!(report.differences, vec!["replay subject failed at record 0: subject turn failed: boom"]);
}

#[test]
fn replay_reports_a_changed_decision() {
    let (trace, _) = run(&nominal(), Behavior::MotionlessIntent);
    let facts = trace_facts(&trace);
    let mut session = ReplaySession::begin(&trace, &facts);
    session.after_reset(ResetOutcome::Accepted);
    for index in 0..trace.records.len() {
        session.open_record(&trace, index);
        let mut output = trace.records[index].subject_output.clone();
        if index == 2 {
            output.gate = GateDecisionV0::Denied { reason: GateDeniedReasonV0::SafetyNotArmed };
        }
        session.close_record(
            &trace,
            index,
            StepOutcome::Completed(output),
            faithful_turn(&trace, index),
            "0",
        );
    }
    let report = session.finish();
    assert_eq!(
        report.differences,
        vec![
            "gate decision differs at record 2",
            "safety disposition differs at record 2",
        ]
    );
}

#[test]
fn replay_refuses_invalid_evidence_and_failed_resets() {
    let (trace, _) = run(&nominal(), Behavior::Error);
    let facts = trace_facts(&trace);
    let session = ReplaySession::begin(&trace, &facts);
    assert!(session.halted());
    let report = session.finish();
    assert!(!report.equal);
    assert!(report
        .differences
        .contains(&"source trace: trace is marked non-replayable".to_owned()));

    let (trace, _) = run(&nominal(), Behavior::MotionlessIntent);
    let facts = trace_facts(&trace);
    let mut session = ReplaySession::begin(&trace, &facts);
    session.after_reset(ResetOutcome::Rejected(SubjectError::Reset("no".to_owned())));
    assert_eq!(
        session.finish().differences,
        vec!["replay subject reset failed: subject rejected reset: no"]
    );
    let mut session = ReplaySession::begin(&trace, &facts);
    session.after_reset(ResetOutcome::Panicked);
    assert_eq!(session.finish().differences, vec!["replay subject panicked during reset"]);
}

#[test]
fn trace_evidence_rejects_a_forged_summary_and_timeline() {
    let (trace, _) = run(&nominal(), Behavior::MotionlessIntent);
    let mut forged = trace.clone();
    forged.summary.authorized_ticks = 3;
    forged.records[2].time_ns = VirtualTimeNs(1);
    let failures = validate_trace_evidence(&forged, &trace_facts(&forged)).unwrap_err();
    assert_eq!(
        failures,
        vec![
            "record 2 is not on the declared virtual timeline",
            "record 2 input tick/time does not match the record",
            "record 2 actuation tick/time is inconsistent",
            "record 2 safety disposition does not replay from recorded events",
            "trace summary does not match its records",
        ]
    );
}

#[test]
fn summary_partitions_every_turn() {
    let (trace, _) = run(&nominal(), Behavior::MotionlessIntent);
    let summary = summarize(
        &trace.records,
        &trace.records.last().unwrap().safety_controller_after.controller_state,
        true,
    );
    assert_eq!(summary, trace.summary);
    assert_eq!(summary.authorized_ticks + summary.suppressed_ticks.len() as u64, 3);
    assert_eq!(summary.terminal_safety_state, ExpectedSafetyStateV0::Armed);
}

#[test]
fn benchmark_report_keeps_wall_time_out_of_verdicts() {
    let s = scenario();
    let report = benchmark_report(&s, &"a".repeat(64), "reference-subject/v0", "so101-mock", 4, 1, &[9, 3, 7, 1]);
    assert_eq!(report.schema_version, CONTRACT_SCHEMA_VERSION);
    assert_eq!(report.scenario_name, "unit");
    assert_eq!(report.iterations, 4);
    assert_eq!(report.semantic_failures, 1);
    assert!(!report.wall_time_is_portable_gate);
    assert_eq!(report.control_turn_latency.samples, 4);
    assert_eq!(report.control_turn_latency.p50_ns, 3);
    assert_eq!(report.control_turn_latency.maximum_ns, 9);
    let summary = latency_summary(&[]);
    assert_eq!(summary.samples, 0);
    assert_eq!(summary.maximum_ns, 0);
}

#[test]
fn run_refuses_a_plant_of_another_model() {
    let s = scenario();
    assert_eq!(
        check_runnable(&s, &scenario_facts(&s), "sha256:other"),
        Err(format!(
            "scenario model digest {} does not match plant model digest sha256:other",
            PINNED_SO101_MODEL_DIGEST
        ))
    );
    let mut bad = scenario();
    bad.ticks = Tick(0);
    bad.name = " ".to_owned();
    assert_eq!(
        check_runnable(&bad, &scenario_facts(&bad), PINNED_SO101_MODEL_DIGEST),
        Err("scenario name and seed must be non-empty\nticks must be between 1 and 1000000\nsetpoint tick 0 is outside the run".to_owned())
    );
}

#[test]
fn task_fault_evidence_requires_a_latched_faulted_lifecycle() {
    let mut s = nominal();
    s.faults = vec![ScheduledFaultV0 {
        start_tick: Tick(1),
        duration_ticks: Tick(2),
        fault: FaultKindV0::Proposal { fault: ProposalFaultV0::TaskError },
    }];
    let (mut trace, _) = run(&s, Behavior::TaskFault);
    assert_eq!(validate_trace_evidence(&trace, &trace_facts(&trace)), Ok(()));
    assert_eq!(
        trace.records[1].safety_controller_after.controller_state,
        SafetyControllerStateV0::Tripped { reason: SafetyTripReasonV0::SubjectFault }
    );
    trace.records[2].subject_output.lifecycle = SubjectLifecycleV0::Running;
    let failures = validate_trace_evidence(&trace, &trace_facts(&trace)).unwrap_err();
    assert!(failures
        .iter()
        .any(|f| f.contains("does not preserve the injected task-fault lifecycle")));
}

#[test]
fn comparison_ignores_subject_identity_but_rejects_missing_evidence() {
    let (trace, _) = run(&nominal(), Behavior::MotionlessIntent);
    let facts = trace_facts(&trace);
    let mut equivalent = trace.clone();
    equivalent.subject_id = "equivalent-copper-subject/v0".to_owned();
    let comparison = ComparisonFacts {
        header_payloads_equal: true,
        records_identical: true,
        physics_tolerance_text: "0".to_owned(),
        pairs: favourable_pairs(trace.records.len()),
    };
    let report = compare_semantic_traces(&trace, &equivalent, &facts, &trace_facts(&equivalent), &comparison);
    assert!(report.equal, "{:?}", report.differences);

    let mut truncated = trace.clone();
    truncated.records.pop();
    let truncated_facts = trace_facts(&truncated);
    assert!(validate_trace_evidence(&truncated, &truncated_facts).is_err());
    let shorter = ComparisonFacts {
        header_payloads_equal: true,
        records_identical: false,
        physics_tolerance_text: "0".to_owned(),
        pairs: favourable_pairs(truncated.records.len()),
    };
    assert!(!compare_semantic_traces(&trace, &truncated, &facts, &truncated_facts, &shorter).equal);
    assert!(!compare_semantic_traces(&truncated, &trace, &truncated_facts, &facts, &shorter).equal);
}

#[test]
fn comparison_verdict_does_not_depend_on_the_order_of_the_traces() {
    let (left, _) = run(&nominal(), Behavior::MotionlessIntent);
    let mut right = left.clone();
    right.records[1].safety_actions.clear();
    let lf = trace_facts(&left);
    let rf = trace_facts(&right);
    let comparison = ComparisonFacts {
        header_payloads_equal: true,
        records_identical: false,
        physics_tolerance_text: "0".to_owned(),
        pairs: favourable_pairs(3),
    };
    let forward = compare_semantic_traces(&left, &right, &lf, &rf, &comparison);
    let backward = compare_semantic_traces(&right, &left, &rf, &lf, &comparison);
    assert!(!forward.equal);
    assert_eq!(forward.equal, backward.equal);
    let same = compare_semantic_traces(&left, &left.clone(), &lf, &lf, &comparison);
    assert!(same.equal, "{:?}", same.differences);
}

#[test]
fn latency_summary_ignores_the_order_of_samples() {
    let a = latency_summary(&[50, 10, 30, 40, 20, 10]);
    let b = latency_summary(&[10, 20, 10, 30, 50, 40]);
    assert_eq!(a, b);
    assert_eq!(a.samples, 6);
    assert_eq!(a.p50_ns, 20);
    assert_eq!(a.p95_ns, 40);
    assert_eq!(a.maximum_ns, 50);
}

#[test]
fn denial_counts_list_each_reason_once_in_declaration_order() {
    let (trace, _) = run(&nominal(), Behavior::MotionlessIntent);
    let mut records = trace.records.clone();
    records[0].subject_output.gate = GateDecisionV0::Denied { reason: GateDeniedReasonV0::StaleSensor };
    records[1].subject_output.gate = GateDecisionV0::Denied { reason: GateDeniedReasonV0::MissingSensor };
    records[2].subject_output.gate = GateDecisionV0::Denied { reason: GateDeniedReasonV0::StaleSensor };
    let summary = summarize(
        &records,
        &records.last().unwrap().safety_controller_after.controller_state,
        true,
    );
    assert_eq!(
        summary.denied_by_reason,
        vec![(GateDeniedReasonV0::MissingSensor, 1), (GateDeniedReasonV0::StaleSensor, 2)]
    );
    assert_eq!(summary.admitted_ticks, 0);
}
