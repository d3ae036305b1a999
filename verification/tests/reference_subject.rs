use hefaos_testbench::contracts::{
    EnvelopeV0, GateDecisionV0, GateDeniedReasonV0, GatePolicyV0, ProposalFaultV0,
    SafetyControllerStateV0, SafetyStatusV0, SubjectConfigV0, SubjectInputV0,
    SubjectLifecycleV0, SubjectOutputV0, ValidityV0, CONTRACT_ID, CONTRACT_SCHEMA_VERSION,
    PROFILE_ID,
};
use hefaos_testbench::reference::{
    ConfigFacts, PayloadVerdict, PolicyFacts, ReferenceSubject, ReferenceSubjectError,
    ReferenceSubjectFaultV0, ReferenceSubjectSnapshotV0, TurnFacts, REFERENCE_SUBJECT_ID,
};
use hefaos_testbench::units::{
    ClockEpoch, DurationNs, PermitEpoch, Sequence, SourceEpoch, Tick, VirtualTimeNs,
};

const FRAME_TTL_NS: u64 = 100;

#[derive(Debug, Clone, Copy, PartialEq)]
struct State {
    arm_position_rad: [f64; 5],
    arm_velocity_rad_s: [f64; 5],
    gripper_position: f64,
    gripper_velocity_per_s: f64,
}

impl State {
    fn zero() -> Self {
        State {
            arm_position_rad: [0.0; 5],
            arm_velocity_rad_s: [0.0; 5],
            gripper_position: 0.0,
            gripper_velocity_per_s: 0.0,
        }
    }

    fn is_finite(&self) -> bool {
        self.arm_position_rad.iter().all(|v| v.is_finite())
            && self.arm_velocity_rad_s.iter().all(|v| v.is_finite())
            && self.gripper_position.is_finite()
            && self.gripper_velocity_per_s.is_finite()
    }
}

#[derive(Debug, Clone, Copy, PartialEq)]
struct Command {
    arm_position_rad: [f64; 5],
    gripper_position: f64,
}

impl Command {
    fn zero() -> Self {
        Command { arm_position_rad: [0.0; 5], gripper_position: 0.0 }
    }

    fn is_finite(&self) -> bool {
        self.arm_position_rad.iter().all(|v| v.is_finite()) && self.gripper_position.is_finite()
    }
}

#[derive(Debug, Clone, Copy, PartialEq)]
struct Limits {
    arm_position_rad: [[f64; 2]; 5],
    gripper_position: [f64; 2],
}

impl Limits {
    fn contains(&self, arm: &[f64; 5], gripper: f64) -> bool {
        arm.iter().zip(&self.arm_position_rad).all(|(v, [lo, hi])| lo <= v && v <= hi)
            && self.gripper_position[0] <= gripper
            && gripper <= self.gripper_position[1]
    }

    fn valid(&self) -> bool {
        self.arm_position_rad
            .iter()
            .chain(std::iter::once(&self.gripper_position))
            .all(|[lo, hi]| lo.is_finite() && hi.is_finite() && lo <= hi)
    }
}

#[derive(Debug, Clone, Copy, PartialEq)]
struct Bounds {
    max_arm_step_rad: [f64; 5],
    max_gripper_step: f64,
    limits: Limits,
}

type Input = SubjectInputV0<State, Command>;
type Output = SubjectOutputV0<State, Command>;

fn policy() -> GatePolicyV0<Bounds> {
    GatePolicyV0 {
        sensor_max_age_ns: DurationNs(FRAME_TTL_NS),
        safety_max_age_ns: DurationNs(FRAME_TTL_NS),
        setpoint_max_age_ns: DurationNs(FRAME_TTL_NS),
        proposal_ttl_ns: DurationNs(FRAME_TTL_NS),
        bounds: Bounds {
            max_arm_step_rad: [0.1; 5],
            max_gripper_step: 0.2,
            limits: Limits { arm_position_rad: [[-2.0, 2.0]; 5], gripper_position: [0.0, 1.0] },
        },
    }
}

fn config() -> SubjectConfigV0<State, Bounds> {
    SubjectConfigV0 {
        schema_version: CONTRACT_SCHEMA_VERSION,
        contract: CONTRACT_ID.to_owned(),
        profile: PROFILE_ID.to_owned(),
        clock_epoch: ClockEpoch(11),
        sensor_source_epoch: SourceEpoch(21),
        setpoint_source_epoch: SourceEpoch(31),
        subject_source_epoch: SourceEpoch(31),
        safety_source_epoch: SourceEpoch(41),
        tick_period_ns: DurationNs(10),
        initial_state: State::zero(),
        gate_policy: policy(),
    }
}

fn policy_facts(p: &GatePolicyV0<Bounds>) -> PolicyFacts {
    PolicyFacts {
        limits_valid: p.bounds.limits.valid(),
        steps_valid: p.bounds.max_arm_step_rad.iter().all(|v| v.is_finite() && *v >= 0.0)
            && p.bounds.max_gripper_step.is_finite()
            && p.bounds.max_gripper_step >= 0.0,
    }
}

fn config_facts(c: &SubjectConfigV0<State, Bounds>) -> ConfigFacts {
    ConfigFacts {
        policy: policy_facts(&c.gate_policy),
        initial_state_in_limits: c.initial_state.is_finite()
            && c.gate_policy.bounds.limits.contains(
                &c.initial_state.arm_position_rad,
                c.initial_state.gripper_position,
            ),
    }
}

fn state_verdict(s: &State, limits: &Limits) -> PayloadVerdict {
    if !s.is_finite() {
        PayloadVerdict::NonFinite
    } else if !limits.contains(&s.arm_position_rad, s.gripper_position) {
        PayloadVerdict::OutOfRange
    } else {
        PayloadVerdict::Valid
    }
}

fn command_verdict(c: &Command, limits: &Limits) -> PayloadVerdict {
    if !c.is_finite() {
        PayloadVerdict::NonFinite
    } else if !limits.contains(&c.arm_position_rad, c.gripper_position) {
        PayloadVerdict::OutOfRange
    } else {
        PayloadVerdict::Valid
    }
}

fn clamp_step(requested: f64, baseline: f64, maximum_step: f64) -> (f64, bool) {
    let minimum = baseline - maximum_step;
    let maximum = baseline + maximum_step;
    (requested.clamp(minimum, maximum), requested < minimum || requested > maximum)
}

/// The floating-point verdicts and values of one turn under `p`.
fn turn_facts(input: &Input, p: &GatePolicyV0<Bounds>) -> TurnFacts<Command> {
    let limits = &p.bounds.limits;
    let setpoint = input.setpoint.map(|f| f.payload).unwrap_or(Command::zero());
    let mut faulted = setpoint;
    match input.proposal_fault {
        Some(ProposalFaultV0::NonFinite) => faulted.arm_position_rad[0] = f64::NAN,
        Some(ProposalFaultV0::OutOfRange) => {
            faulted.arm_position_rad[0] = limits.arm_position_rad[0][1] + 1.0
        }
        _ => {}
    }
    let requested = match input.proposal_fault {
        Some(ProposalFaultV0::NonFinite) | Some(ProposalFaultV0::OutOfRange) => faulted,
        _ => setpoint,
    };
    let baseline = input.sensor.map(|f| f.payload).unwrap_or(State::zero());
    let mut limited = false;
    let mut bounded = requested;
    for j in 0..5 {
        let (v, l) = clamp_step(
            requested.arm_position_rad[j],
            baseline.arm_position_rad[j],
            p.bounds.max_arm_step_rad[j],
        );
        bounded.arm_position_rad[j] = v;
        limited |= l;
    }
    let (g, l) = clamp_step(
        requested.gripper_position,
        baseline.gripper_position,
        p.bounds.max_gripper_step,
    );
    bounded.gripper_position = g;
    limited |= l;
    TurnFacts {
        sensor: input.sensor.map_or(PayloadVerdict::Valid, |f| state_verdict(&f.payload, limits)),
        setpoint: input
            .setpoint
            .map_or(PayloadVerdict::Valid, |f| command_verdict(&f.payload, limits)),
        faulted_command: faulted,
        faulted_command_verdict: command_verdict(&faulted, limits),
        bounded_command: bounded,
        limited,
    }
}

fn reset(subject: &mut ReferenceSubject<Bounds>) -> Result<(), ReferenceSubjectError> {
    let c = config();
    subject.reset(&c, config_facts(&c))
}

fn step(subject: &mut ReferenceSubject<Bounds>, input: &Input) -> Result<Output, ReferenceSubjectError> {
    let p = match subject.snapshot().config {
        Some(c) => c.policy,
        None => policy(),
    };
    subject.step(input, &turn_facts(input, &p))
}

fn restore(
    subject: &mut ReferenceSubject<Bounds>,
    snapshot: &ReferenceSubjectSnapshotV0<Bounds>,
) -> Result<(), ReferenceSubjectError> {
    let facts = match &snapshot.config {
        Some(c) => policy_facts(&c.policy),
        None => PolicyFacts { limits_valid: true, steps_valid: true },
    };
    subject.restore(snapshot, facts)
}

fn sensor(sequence: u64, captured_at_ns: u64, valid_until_ns: u64) -> EnvelopeV0<State> {
    EnvelopeV0 {
        clock_epoch: ClockEpoch(11),
        source_epoch: SourceEpoch(21),
        sequence: Sequence(sequence),
        captured_at_ns: VirtualTimeNs(captured_at_ns),
        valid_until_ns: VirtualTimeNs(valid_until_ns),
        validity: ValidityV0::Valid,
        payload: State::zero(),
    }
}

fn setpoint(sequence: u64, captured_at_ns: u64, valid_until_ns: u64, command: Command) -> EnvelopeV0<Command> {
    EnvelopeV0 {
        clock_epoch: ClockEpoch(11),
        source_epoch: SourceEpoch(31),
        sequence: Sequence(sequence),
        captured_at_ns: VirtualTimeNs(captured_at_ns),
        valid_until_ns: VirtualTimeNs(valid_until_ns),
        validity: ValidityV0::Valid,
        payload: command,
    }
}

fn safety(sequence: u64, captured_at_ns: u64, valid_until_ns: u64) -> EnvelopeV0<SafetyStatusV0> {
    EnvelopeV0 {
        clock_epoch: ClockEpoch(11),
        source_epoch: SourceEpoch(41),
        sequence: Sequence(sequence),
        captured_at_ns: VirtualTimeNs(captured_at_ns),
        valid_until_ns: VirtualTimeNs(valid_until_ns),
        validity: ValidityV0::Valid,
        payload: SafetyStatusV0 {
            controller_state: SafetyControllerStateV0::Armed { permit_epoch: PermitEpoch(51) },
            interlocks_clear: true,
        },
    }
}

fn input(sequence: u64, now: u64, command: Command) -> Input {
    SubjectInputV0 {
        tick: Tick(sequence),
        time_ns: VirtualTimeNs(now),
        setpoint: Some(setpoint(sequence, now, now + FRAME_TTL_NS, command)),
        sensor: Some(sensor(sequence, now, now + FRAME_TTL_NS)),
        safety_status: Some(safety(sequence, now, now + FRAME_TTL_NS)),
        proposal_fault: None,
    }
}

fn denied_reason(output: &Output) -> Option<GateDeniedReasonV0> {
    match output.gate {
        GateDecisionV0::Denied { reason } => Some(reason),
        _ => None,
    }
}

fn assert_command_close(actual: &Command, expected: &Command) {
    for (a, e) in actual.arm_position_rad.iter().zip(expected.arm_position_rad) {
        assert!((a - e).abs() <= f64::EPSILON);
    }
    assert!((actual.gripper_position - expected.gripper_position).abs() <= f64::EPSILON);
}

#[test]
fn nominal_turn_admits_a_typed_intent() {
    let mut subject = ReferenceSubject::new();
    reset(&mut subject).unwrap();
    let command = Command { arm_position_rad: [0.05, -0.05, 0.04, -0.04, 0.03], gripper_position: 0.1 };
    let output = step(&mut subject, &input(0, 0, command)).unwrap();
    assert_eq!(output.lifecycle, SubjectLifecycleV0::Running);
    assert_eq!(output.estimate, Some(State::zero()));
    let GateDecisionV0::Admitted { intent, limited } = output.gate else {
        panic!("expected admitted intent, got {:?}", output.gate);
    };
    assert!(!limited);
    assert_eq!(intent.permit_epoch, PermitEpoch(51));
    assert_command_close(&intent.command, &command);
    assert_eq!(intent.valid_until_ns, VirtualTimeNs(FRAME_TTL_NS));
}

#[test]
fn hard_limits_reject_before_rate_limits_and_rate_limits_are_stateful() {
    let mut subject = ReferenceSubject::new();
    reset(&mut subject).unwrap();
    let requested = Command { arm_position_rad: [0.5; 5], gripper_position: 0.8 };
    let first = step(&mut subject, &input(0, 0, requested)).unwrap();
    let GateDecisionV0::Admitted { intent, limited } = first.gate else {
        panic!("expected limited admission");
    };
    assert!(limited);
    assert_command_close(&intent.command, &Command { arm_position_rad: [0.1; 5], gripper_position: 0.2 });

    let mut second_input = input(1, 10, Command { arm_position_rad: [0.5; 5], gripper_position: 0.8 });
    let sensor = second_input.sensor.as_mut().expect("sensor frame");
    sensor.payload.arm_position_rad = [0.1; 5];
    sensor.payload.gripper_position = 0.2;
    let second = step(&mut subject, &second_input).unwrap();
    let GateDecisionV0::Admitted { intent, limited } = second.gate else {
        panic!("expected second limited admission");
    };
    assert!(limited);
    assert_command_close(&intent.command, &Command { arm_position_rad: [0.2; 5], gripper_position: 0.4 });

    let out_of_range = step(
        &mut subject,
        &input(2, 20, Command { arm_position_rad: [3.0, 0.0, 0.0, 0.0, 0.0], gripper_position: 0.5 }),
    )
    .unwrap();
    assert_eq!(denied_reason(&out_of_range), Some(GateDeniedReasonV0::OutOfRange));
}

#[test]
fn half_open_ttl_wrong_epoch_and_duplicate_are_rejected() {
    let command = Command::zero();

    let mut stale_subject = ReferenceSubject::new();
    reset(&mut stale_subject).unwrap();
    let mut stale = input(0, FRAME_TTL_NS, command);
    stale.sensor = Some(sensor(0, 0, FRAME_TTL_NS));
    assert_eq!(
        denied_reason(&step(&mut stale_subject, &stale).unwrap()),
        Some(GateDeniedReasonV0::StaleSensor)
    );

    let mut epoch_subject = ReferenceSubject::new();
    reset(&mut epoch_subject).unwrap();
    let mut wrong_epoch = input(0, 0, command);
    wrong_epoch.sensor.as_mut().unwrap().clock_epoch = ClockEpoch(12);
    assert_eq!(
        denied_reason(&step(&mut epoch_subject, &wrong_epoch).unwrap()),
        Some(GateDeniedReasonV0::WrongClockEpoch)
    );

    let mut source_subject = ReferenceSubject::new();
    reset(&mut source_subject).unwrap();
    let mut wrong_source = input(0, 0, command);
    wrong_source.sensor.as_mut().unwrap().source_epoch = SourceEpoch(22);
    assert_eq!(
        denied_reason(&step(&mut source_subject, &wrong_source).unwrap()),
        Some(GateDeniedReasonV0::WrongSourceEpoch)
    );

    let mut duplicate_subject = ReferenceSubject::new();
    reset(&mut duplicate_subject).unwrap();
    step(&mut duplicate_subject, &input(0, 0, command)).unwrap();
    let mut duplicate = input(1, 10, command);
    duplicate.sensor.as_mut().unwrap().sequence = Sequence(0);
    assert_eq!(
        denied_reason(&step(&mut duplicate_subject, &duplicate).unwrap()),
        Some(GateDeniedReasonV0::DuplicateSensor)
    );

    let mut gap_subject = ReferenceSubject::new();
    reset(&mut gap_subject).unwrap();
    step(&mut gap_subject, &input(0, 0, Command::zero())).unwrap();
    assert!(matches!(
        step(&mut gap_subject, &input(2, 20, Command::zero())).unwrap().gate,
        GateDecisionV0::Admitted { .. }
    ));
}

#[test]
fn injected_errors_fail_closed_and_task_errors_latch_until_reset() {
    let mut subject = ReferenceSubject::new();
    reset(&mut subject).unwrap();
    let faults = [
        (ProposalFaultV0::NonFinite, GateDeniedReasonV0::NonFinite),
        (ProposalFaultV0::OutOfRange, GateDeniedReasonV0::OutOfRange),
        (ProposalFaultV0::Expired, GateDeniedReasonV0::ProposalExpired),
        (ProposalFaultV0::SourceSequenceMismatch, GateDeniedReasonV0::ProposalSourceMismatch),
    ];
    for (sequence, (fault, expected)) in faults.into_iter().enumerate() {
        let sequence = u64::try_from(sequence).unwrap();
        let mut faulted = input(sequence, sequence * 10, Command::zero());
        faulted.proposal_fault = Some(fault);
        let output = step(&mut subject, &faulted).unwrap();
        assert_eq!(denied_reason(&output), Some(expected));
        assert!(matches!(output.gate, GateDecisionV0::Denied { .. }));
    }

    let mut task_error = input(4, 40, Command::zero());
    task_error.proposal_fault = Some(ProposalFaultV0::TaskError);
    let output = step(&mut subject, &task_error).unwrap();
    assert!(matches!(output.lifecycle, SubjectLifecycleV0::Faulted { .. }));
    assert_eq!(denied_reason(&output), Some(GateDeniedReasonV0::TaskError));

    let output = step(&mut subject, &input(5, 50, Command::zero())).unwrap();
    assert!(matches!(output.lifecycle, SubjectLifecycleV0::Faulted { .. }));
    assert_eq!(denied_reason(&output), Some(GateDeniedReasonV0::TaskError));

    reset(&mut subject).unwrap();
    assert!(matches!(
        step(&mut subject, &input(0, 0, Command::zero())).unwrap().gate,
        GateDecisionV0::Admitted { .. }
    ));
}

#[test]
fn snapshot_restore_resumes_without_input_history() {
    let mut original = ReferenceSubject::new();
    reset(&mut original).unwrap();
    step(&mut original, &input(0, 0, Command::zero())).unwrap();

    let snapshot = original.snapshot();
    assert!(snapshot.config.is_some());
    assert_eq!(snapshot.sensor_cursor, Some(Sequence(0)));
    assert_eq!(snapshot.setpoint_cursor, Some(Sequence(0)));
    assert_eq!(snapshot.safety_cursor, Some(Sequence(0)));
    assert_eq!(snapshot.next_proposal_sequence, 1);
    assert_eq!(snapshot.active_permit_epoch, Some(PermitEpoch(51)));
    assert_eq!(snapshot.fault_latch, None);

    let mut restored = ReferenceSubject::new();
    restore(&mut restored, &snapshot).unwrap();

    let mut continuation = input(1, 10, Command::zero());
    continuation.safety_status.as_mut().unwrap().payload.controller_state =
        SafetyControllerStateV0::Armed { permit_epoch: PermitEpoch(52) };
    let expected = step(&mut original, &continuation).unwrap();
    let actual = step(&mut restored, &continuation).unwrap();
    assert_eq!(actual, expected);
    assert_eq!(denied_reason(&actual), Some(GateDeniedReasonV0::PermitEpochMismatch));
}

#[test]
fn snapshot_restore_preserves_bounded_fault_latch() {
    let mut original = ReferenceSubject::new();
    reset(&mut original).unwrap();
    let mut fault = input(0, 0, Command::zero());
    fault.proposal_fault = Some(ProposalFaultV0::TaskError);
    step(&mut original, &fault).unwrap();

    let snapshot = original.snapshot();
    assert_eq!(snapshot.fault_latch, Some(ReferenceSubjectFaultV0::ControllerTaskError));

    let mut restored = ReferenceSubject::new();
    restore(&mut restored, &snapshot).unwrap();
    assert_eq!(
        step(&mut restored, &input(1, 10, Command::zero())).unwrap(),
        step(&mut original, &input(1, 10, Command::zero())).unwrap()
    );
}

#[test]
fn invalid_snapshot_is_rejected_without_changing_subject() {
    let mut subject = ReferenceSubject::new();
    reset(&mut subject).unwrap();
    step(&mut subject, &input(0, 0, Command::zero())).unwrap();
    let before = subject.snapshot();

    let mut invalid_policy = before;
    invalid_policy.config.as_mut().unwrap().policy.proposal_ttl_ns = DurationNs(0);
    assert!(matches!(
        restore(&mut subject, &invalid_policy),
        Err(ReferenceSubjectError::InvalidSnapshot(_))
    ));
    assert_eq!(subject.snapshot(), before);

    let invalid_unconfigured = ReferenceSubjectSnapshotV0 {
        config: None,
        sensor_cursor: Some(Sequence(0)),
        setpoint_cursor: None,
        safety_cursor: None,
        next_proposal_sequence: 0,
        active_permit_epoch: None,
        fault_latch: None,
    };
    assert!(matches!(
        restore(&mut subject, &invalid_unconfigured),
        Err(ReferenceSubjectError::InvalidSnapshot(_))
    ));
    assert_eq!(subject.snapshot(), before);
}

#[test]
fn safety_state_and_permit_changes_require_a_non_armed_transition() {
    let mut subject = ReferenceSubject::new();
    reset(&mut subject).unwrap();

    let mut disarmed = input(0, 0, Command::zero());
    disarmed.safety_status.as_mut().unwrap().payload.controller_state =
        SafetyControllerStateV0::Disarmed;
    assert_eq!(
        denied_reason(&step(&mut subject, &disarmed).unwrap()),
        Some(GateDeniedReasonV0::SafetyNotArmed)
    );

    assert!(matches!(
        step(&mut subject, &input(1, 10, Command::zero())).unwrap().gate,
        GateDecisionV0::Admitted { .. }
    ));

    for sequence in [2, 3] {
        let mut changed_permit = input(sequence, sequence * 10, Command::zero());
        changed_permit.safety_status.as_mut().unwrap().payload.controller_state =
            SafetyControllerStateV0::Armed { permit_epoch: PermitEpoch(52) };
        assert_eq!(
            denied_reason(&step(&mut subject, &changed_permit).unwrap()),
            Some(GateDeniedReasonV0::PermitEpochMismatch)
        );
    }

    let mut second_disarmed = input(4, 40, Command::zero());
    second_disarmed.safety_status.as_mut().unwrap().payload.controller_state =
        SafetyControllerStateV0::Disarmed;
    assert_eq!(
        denied_reason(&step(&mut subject, &second_disarmed).unwrap()),
        Some(GateDeniedReasonV0::SafetyNotArmed)
    );

    let mut rearmed = input(5, 50, Command::zero());
    rearmed.safety_status.as_mut().unwrap().payload.controller_state =
        SafetyControllerStateV0::Armed { permit_epoch: PermitEpoch(52) };
    assert!(matches!(step(&mut subject, &rearmed).unwrap().gate, GateDecisionV0::Admitted { .. }));
}

#[test]
fn reference_subject_reports_its_identity_and_refuses_turns_before_reset() {
    let mut subject: ReferenceSubject<Bounds> = ReferenceSubject::new();
    assert_eq!(subject.id(), REFERENCE_SUBJECT_ID);
    assert_eq!(subject.id(), "reference-subject/v0");
    assert_eq!(
        step(&mut subject, &input(0, 0, Command::zero())),
        Err(ReferenceSubjectError::NotReset)
    );
}

#[test]
fn reset_refuses_a_foreign_contract_with_its_quoted_name() {
    let mut subject: ReferenceSubject<Bounds> = ReferenceSubject::new();
    let mut c = config();
    c.contract = "other/v9".to_owned();
    assert_eq!(
        subject.reset(&c, config_facts(&c)),
        Err(ReferenceSubjectError::InvalidScenario(
            "contract \"other/v9\" does not match \"so101-bench/v0\"".to_owned()
        ))
    );
    let mut c = config();
    c.schema_version = 7;
    assert_eq!(
        subject.reset(&c, config_facts(&c)),
        Err(ReferenceSubjectError::InvalidScenario("schema version 7 does not match 1".to_owned()))
    );
}

#[test]
fn latched_task_error_reports_the_fault_reason() {
    let mut subject = ReferenceSubject::new();
    reset(&mut subject).unwrap();
    let mut fault = input(0, 0, Command::zero());
    fault.proposal_fault = Some(ProposalFaultV0::TaskError);
    let output = step(&mut subject, &fault).unwrap();
    assert_eq!(
        output.lifecycle,
        SubjectLifecycleV0::Faulted {
            reason: ReferenceSubjectFaultV0::ControllerTaskError.reason().to_owned()
        }
    );
    assert_eq!(
        ReferenceSubjectFaultV0::ControllerTaskError.reason(),
        "injected deterministic controller task error"
    );
}
