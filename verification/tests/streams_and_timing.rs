use hefaos_testbench::contracts::{
    EnvelopeV0, FaultKindV0, InvalidReasonV0, ProposalFaultV0, SafetyActionV0,
    SafetyControllerStateV0, SafetyStatusV0, ScheduledFaultV0, ScheduledSafetyActionV0,
    ValidityV0,
};
use hefaos_testbench::contracts::{
    EqualityProfileV0, ExpectedRunV0, GatePolicyV0, SafetyPolicyV0, ScenarioV0,
};
use hefaos_testbench::safety::SafetyControllerSim;
use hefaos_testbench::turn::deliver_safety_status;
use hefaos_testbench::digest::{sha256_hex, to_lower_hex};
use hefaos_testbench::evidence::find_proposal_fault;
use hefaos_testbench::harness::{PlantError, Runner, SubjectError};
use hefaos_testbench::reference::StreamKind;
use hefaos_testbench::timing::{
    analyze_rate_limited_timing, check_paced_outputs, TimingObservationSource, REQUESTED_PERIOD_NS,
};
use hefaos_testbench::turn::{
    active_faults_at, deliver_frame, faulted_output, has_fault, scheduled_actions_at,
};
use hefaos_testbench::units::{
    ClockEpoch, DurationNs, PermitEpoch, Sequence, SourceEpoch, Tick, VirtualTimeNs,
};

fn frame(payload: u32) -> EnvelopeV0<u32> {
    EnvelopeV0 {
        clock_epoch: ClockEpoch(1),
        source_epoch: SourceEpoch(7),
        sequence: Sequence(10),
        captured_at_ns: VirtualTimeNs(50_000_000),
        valid_until_ns: VirtualTimeNs(55_000_000),
        validity: ValidityV0::Valid,
        payload,
    }
}

fn deliver(faults: Vec<FaultKindV0>) -> Option<EnvelopeV0<u32>> {
    deliver_frame(Some(frame(1)), &faults, StreamKind::Sensor, ClockEpoch(1), SourceEpoch(7), 99)
}

#[test]
fn sensor_faults_reshape_only_the_sensor_envelope() {
    assert_eq!(deliver(vec![]), Some(frame(1)));
    assert_eq!(deliver(vec![FaultKindV0::DropSensor]), None);
    assert_eq!(deliver(vec![FaultKindV0::DropSetpoint]), Some(frame(1)));
    assert_eq!(deliver(vec![FaultKindV0::OutOfRangeSensor]).unwrap().payload, 99);
    assert_eq!(deliver(vec![FaultKindV0::OutOfRangeSetpoint]).unwrap().payload, 1);

    let future = deliver(vec![FaultKindV0::FutureSensor { offset_ns: DurationNs(3) }]).unwrap();
    assert_eq!(future.captured_at_ns, VirtualTimeNs(50_000_003));
    assert_eq!(future.valid_until_ns, VirtualTimeNs(55_000_003));

    let over_age = deliver(vec![FaultKindV0::OverAgeSensor { age_ns: DurationNs(4) }]).unwrap();
    assert_eq!(over_age.captured_at_ns, VirtualTimeNs(49_999_996));
    assert_eq!(over_age.valid_until_ns, VirtualTimeNs(55_000_000));

    let stale = deliver(vec![FaultKindV0::StaleSensor { age_ns: DurationNs(4) }]).unwrap();
    assert_eq!(stale.captured_at_ns, VirtualTimeNs(49_999_996));
    assert_eq!(stale.valid_until_ns, VirtualTimeNs(49_999_996));

    assert_eq!(deliver(vec![FaultKindV0::DuplicateSensor]).unwrap().sequence, Sequence(9));
    assert_eq!(deliver(vec![FaultKindV0::ReorderSensor]).unwrap().sequence, Sequence(8));
    assert_eq!(deliver(vec![FaultKindV0::WrongSensorClockEpoch]).unwrap().clock_epoch, ClockEpoch(2));
    assert_eq!(deliver(vec![FaultKindV0::WrongSensorSourceEpoch]).unwrap().source_epoch, SourceEpoch(8));
    assert_eq!(
        deliver(vec![FaultKindV0::InvalidateSensor { reason: InvalidReasonV0::SensorFault }])
            .unwrap()
            .validity,
        ValidityV0::Invalid(InvalidReasonV0::SensorFault)
    );
}

#[test]
fn envelope_faults_saturate_and_compose_in_order() {
    let mut early = frame(1);
    early.sequence = Sequence(1);
    early.captured_at_ns = VirtualTimeNs(2);
    let faults = vec![
        FaultKindV0::ReorderSensor,
        FaultKindV0::OverAgeSensor { age_ns: DurationNs(5) },
        FaultKindV0::FutureSensor { offset_ns: DurationNs(u64::MAX) },
    ];
    let e = deliver_frame(Some(early), &faults, StreamKind::Sensor, ClockEpoch(1), SourceEpoch(7), 0)
        .unwrap();
    assert_eq!(e.sequence, Sequence(0));
    assert_eq!(e.captured_at_ns, VirtualTimeNs(u64::MAX));
    assert_eq!(e.valid_until_ns, VirtualTimeNs(u64::MAX));
    assert_eq!(
        deliver_frame(None::<EnvelopeV0<u32>>, &faults, StreamKind::Sensor, ClockEpoch(1), SourceEpoch(7), 0),
        None
    );
}

#[test]
fn setpoint_faults_use_the_setpoint_stream_epochs() {
    let faults = vec![FaultKindV0::WrongSetpointSourceEpoch, FaultKindV0::WrongSetpointClockEpoch];
    let e = deliver_frame(Some(frame(1)), &faults, StreamKind::Setpoint, ClockEpoch(4), SourceEpoch(30), 0)
        .unwrap();
    assert_eq!(e.source_epoch, SourceEpoch(31));
    assert_eq!(e.clock_epoch, ClockEpoch(5));
    assert_eq!(
        deliver_frame(Some(frame(1)), &vec![FaultKindV0::DropSetpoint], StreamKind::Setpoint, ClockEpoch(4), SourceEpoch(30), 0),
        None
    );
}

#[test]
fn schedules_select_actions_and_half_open_fault_windows() {
    let actions = vec![
        ScheduledSafetyActionV0 { at_tick: Tick(0), action: SafetyActionV0::Reset },
        ScheduledSafetyActionV0 { at_tick: Tick(1), action: SafetyActionV0::Arm },
        ScheduledSafetyActionV0 { at_tick: Tick(1), action: SafetyActionV0::ClearFaults },
    ];
    assert_eq!(
        scheduled_actions_at(&actions, Tick(1)),
        vec![SafetyActionV0::Arm, SafetyActionV0::ClearFaults]
    );
    assert!(scheduled_actions_at(&actions, Tick(2)).is_empty());

    let faults = vec![
        ScheduledFaultV0 { start_tick: Tick(2), duration_ticks: Tick(2), fault: FaultKindV0::DropSensor },
        ScheduledFaultV0 { start_tick: Tick(u64::MAX - 1), duration_ticks: Tick(5), fault: FaultKindV0::DriveFault },
    ];
    assert!(active_faults_at(&faults, Tick(1)).is_empty());
    assert_eq!(active_faults_at(&faults, Tick(2)), vec![FaultKindV0::DropSensor]);
    assert_eq!(active_faults_at(&faults, Tick(3)), vec![FaultKindV0::DropSensor]);
    assert!(active_faults_at(&faults, Tick(4)).is_empty());
    assert_eq!(active_faults_at(&faults, Tick(u64::MAX - 1)), vec![FaultKindV0::DriveFault]);
    assert!(active_faults_at(&faults, Tick(u64::MAX)).is_empty());
}

#[test]
fn proposal_fault_input_is_the_first_scheduled_one() {
    let faults = vec![
        FaultKindV0::DropIntent,
        FaultKindV0::Proposal { fault: ProposalFaultV0::Expired },
        FaultKindV0::Proposal { fault: ProposalFaultV0::TaskError },
    ];
    assert_eq!(find_proposal_fault(&faults), Some(ProposalFaultV0::Expired));
    assert_eq!(find_proposal_fault(&vec![FaultKindV0::DropIntent]), None);
    assert!(has_fault(&faults, FaultKindV0::DropIntent));
    assert!(!has_fault(&faults, FaultKindV0::DropSensor));
}

#[test]
fn faulted_output_denies_with_a_task_error() {
    let out = faulted_output::<u32, u32>("why".to_owned());
    assert_eq!(
        out.gate,
        hefaos_testbench::contracts::GateDecisionV0::Denied {
            reason: hefaos_testbench::contracts::GateDeniedReasonV0::TaskError
        }
    );
    assert!(out.estimate.is_none());
    assert!(out.control.is_none());
}

#[test]
fn rate_limited_timing_reports_intervals_and_identifier_gaps() {
    let lists = vec![(0, 1_000), (1, 5_001_000), (4, 16_000_000)];
    let timing = analyze_rate_limited_timing(&lists, 3, "live.copper").unwrap();
    assert_eq!(timing.source, TimingObservationSource::CopperRateLimitedRun);
    assert_eq!(timing.iterations, 3);
    assert_eq!(timing.requested_period_ns, REQUESTED_PERIOD_NS);
    assert_eq!(timing.requested_period_ns, 5_000_000);
    assert_eq!(timing.observed_intervals_ns, vec![5_000_000, 10_999_000]);
    assert_eq!(timing.missed_periods, vec![2, 3]);
}

#[test]
fn rate_limited_timing_refuses_a_run_without_inputs() {
    assert_eq!(
        analyze_rate_limited_timing(&vec![], 0, "a.copper"),
        Err(SubjectError::Step(
            "Copper rate-limited timing requires at least one input".to_owned()
        ))
    );
    assert_eq!(
        analyze_rate_limited_timing(&vec![(0, 1)], 0, "a.copper"),
        Err(SubjectError::Step(
            "Copper rate-limited timing requires at least one input".to_owned()
        ))
    );
}

#[test]
fn rate_limited_timing_refuses_inconsistent_recordings() {
    assert_eq!(
        analyze_rate_limited_timing(&vec![(0, 1)], 2, "a.copper"),
        Err(SubjectError::Step(
            "Copper timing recording contains 1 CopperLists, expected 2 [a.copper]".to_owned()
        ))
    );
    assert_eq!(
        analyze_rate_limited_timing(&vec![(0, 9), (1, 8)], 2, "a.copper"),
        Err(SubjectError::Step(
            "Copper timing timestamp regressed from list 0 to 1 [a.copper]".to_owned()
        ))
    );
    assert_eq!(
        analyze_rate_limited_timing(&vec![(3, 1), (3, 2)], 2, "a.copper"),
        Err(SubjectError::Step(
            "Copper timing list identifier regressed from 3 to 3 [a.copper]".to_owned()
        ))
    );
    assert_eq!(
        analyze_rate_limited_timing(&vec![(u64::MAX, 1), (0, 2)], 2, "a.copper"),
        Err(SubjectError::Step(format!(
            "Copper timing list identifier overflow after {} [a.copper]",
            u64::MAX
        )))
    );
}

#[test]
fn sha256_is_rendered_as_lowercase_hex() {
    assert_eq!(
        sha256_hex(b"abc"),
        "ba7816bf8f01cfea414140de5dae2223b00361a396177a9cb410ff61f20015ad"
    );
    assert_eq!(
        sha256_hex(b""),
        "e3b0c44298fc1c149afbf4c8996fb92427ae41e4649b934ca495991b7852b855"
    );
    assert_eq!(to_lower_hex(&[0x00, 0xab, 0x0f]), "00ab0f");
}

#[test]
fn error_messages_name_their_boundary() {
    assert_eq!(SubjectError::Reset("bad".to_owned()).message(), "subject rejected reset: bad");
    assert_eq!(SubjectError::Step("bad".to_owned()).message(), "subject turn failed: bad");
    assert_eq!(PlantError::InvalidInitialState("x".to_owned()).message(), "invalid initial state: x");
    assert_eq!(PlantError::InvalidActuation("x".to_owned()).message(), "invalid applied actuation: x");
    assert_eq!(PlantError::Backend("x".to_owned()).message(), "plant backend failure: x");
}

#[test]
fn runner_owns_and_returns_its_subject() {
    let mut runner = Runner::new(String::from("subject"), 5u8);
    runner.subject_mut().push('!');
    *runner.plant_mut() += 1;
    assert_eq!(*runner.plant_mut(), 6);
    assert_eq!(runner.into_subject(), "subject!");
}

#[test]
fn safety_status_faults_reshape_the_published_status() {
    let scenario = bare_scenario();
    let mut safety = SafetyControllerSim::new(&scenario);
    safety.apply_action(Tick(0), VirtualTimeNs(0), &SafetyActionV0::Arm);
    let faults = vec![FaultKindV0::WrongSafetyPermitEpoch, FaultKindV0::OpenSafetyInterlock];
    let status = deliver_safety_status(
        &mut safety,
        VirtualTimeNs(10),
        DurationNs(5),
        &faults,
        ClockEpoch(1),
        SourceEpoch(4),
    )
    .unwrap();
    assert_eq!(
        status.payload,
        SafetyStatusV0 {
            controller_state: SafetyControllerStateV0::Armed { permit_epoch: PermitEpoch(2) },
            interlocks_clear: false,
        }
    );
    assert_eq!(status.sequence, Sequence(0));
    assert_eq!(status.valid_until_ns, VirtualTimeNs(15));
    assert_eq!(safety.state(), &SafetyControllerStateV0::Armed { permit_epoch: PermitEpoch(1) });
    let dropped = deliver_safety_status(
        &mut safety,
        VirtualTimeNs(20),
        DurationNs(5),
        &vec![FaultKindV0::DropSafetyStatus],
        ClockEpoch(1),
        SourceEpoch(4),
    );
    assert_eq!(dropped, None);
    let next = deliver_safety_status(&mut safety, VirtualTimeNs(30), DurationNs(5), &vec![], ClockEpoch(1), SourceEpoch(4))
        .unwrap();
    assert_eq!(next.sequence, Sequence(2));
}

#[test]
fn paced_outputs_must_match_the_harness_trace() {
    assert_eq!(check_paced_outputs(3, 3, &vec![true, true, true]), Ok(()));
    assert_eq!(
        check_paced_outputs(2, 3, &vec![true, true]),
        Err("Copper rate-limited timing output count 2 differs from harness trace 3".to_owned())
    );
    assert_eq!(
        check_paced_outputs(4, 4, &vec![true, false, true, false]),
        Err("Copper rate-limited timing output at turn 1 differs from the harness trace".to_owned())
    );
}

#[test]
fn each_effective_arm_issues_the_next_permit_epoch() {
    let mut c = SafetyControllerSim::new(&bare_scenario());
    c.apply_action(Tick(0), VirtualTimeNs(0), &SafetyActionV0::Arm);
    assert_eq!(*c.state(), SafetyControllerStateV0::Armed { permit_epoch: PermitEpoch(1) });
    c.apply_action(Tick(1), VirtualTimeNs(1), &SafetyActionV0::Arm);
    assert_eq!(*c.state(), SafetyControllerStateV0::Armed { permit_epoch: PermitEpoch(1) });
    c.apply_action(Tick(2), VirtualTimeNs(2), &SafetyActionV0::Disarm);
    c.apply_action(Tick(3), VirtualTimeNs(3), &SafetyActionV0::Arm);
    assert_eq!(*c.state(), SafetyControllerStateV0::Armed { permit_epoch: PermitEpoch(2) });
    c.trip(hefaos_testbench::contracts::SafetyTripReasonV0::EmergencyStop);
    c.apply_action(Tick(4), VirtualTimeNs(4), &SafetyActionV0::Reset);
    c.apply_action(Tick(5), VirtualTimeNs(5), &SafetyActionV0::Arm);
    assert!(matches!(c.state(), SafetyControllerStateV0::Tripped { .. }));
    c.apply_action(Tick(6), VirtualTimeNs(6), &SafetyActionV0::ClearFaults);
    c.apply_action(Tick(7), VirtualTimeNs(7), &SafetyActionV0::Reset);
    c.apply_action(Tick(8), VirtualTimeNs(8), &SafetyActionV0::Arm);
    assert_eq!(*c.state(), SafetyControllerStateV0::Armed { permit_epoch: PermitEpoch(3) });
}

fn bare_scenario() -> ScenarioV0<u8, u8, u8, u8, u8> {
    ScenarioV0 {
        schema_version: 1,
        contract: String::new(),
        profile: String::new(),
        name: String::new(),
        model_digest: String::new(),
        clock_epoch: ClockEpoch(1),
        sensor_source_epoch: SourceEpoch(1),
        setpoint_source_epoch: SourceEpoch(2),
        subject_source_epoch: SourceEpoch(3),
        safety_source_epoch: SourceEpoch(4),
        tick_period_ns: DurationNs(5_000_000),
        ticks: Tick(2),
        seed: String::new(),
        initial_state: 0,
        setpoints: Vec::new(),
        safety_actions: Vec::new(),
        faults: Vec::new(),
        gate_policy: GatePolicyV0 {
            sensor_max_age_ns: DurationNs(1),
            safety_max_age_ns: DurationNs(1),
            setpoint_max_age_ns: DurationNs(1),
            proposal_ttl_ns: DurationNs(1),
            bounds: 0,
        },
        safety_policy: SafetyPolicyV0 { intent_max_age_ns: DurationNs(1), heartbeat_timeout_ns: DurationNs(9), bounds: 0 },
        mock_plant_policy: 0,
        equality: EqualityProfileV0 {
            control_absolute_tolerance: 0,
            physics_absolute_tolerance: 0,
            require_exact_discrete_trace: true,
            require_bit_exact_mock_trace: false,
        },
        expected: ExpectedRunV0 {
            admitted_ticks: None,
            denied_by_reason: Vec::new(),
            authorized_ticks: None,
            suppressed_ticks: Vec::new(),
            terminal_safety_state: None,
            final_state: None,
        },
    }
}
