//! Static validation of a scenario before a bounded deterministic run.
use vstd::prelude::*;

use crate::contracts::{
    FaultKindV0, ScenarioV0, CONTRACT_ID, CONTRACT_SCHEMA_VERSION, PINNED_SO101_MODEL_DIGEST,
    PROFILE_ID, SO101_TICK_PERIOD_NS,
};
use crate::text::{
    absorb, check, decimal, decimal_text, is_blank, is_blank_text, join, no_failures, note, owned,
    same_text, texts,
};
use crate::units::sat_add;

verus! {

/// The longest run a scenario may declare.
pub const MAX_SCENARIO_TICKS: u64 = 1_000_000;

/// Verdicts on the floating-point parts of a scenario.
#[derive(Debug, Clone, PartialEq, Eq)]
pub struct ScenarioFacts {
    /// Every joint range of the motion gate and safety limits is finite and ordered.
    pub limits_valid: bool,
    /// The safety limits lie inside the motion gate limits and every safety step
    /// bound is at most the motion gate's.
    pub safety_bounds_no_looser: bool,
    /// The initial state is finite and inside the motion gate and safety limits.
    pub initial_state_inside: bool,
    /// Per setpoint keyframe, in order: its command is inside the motion gate limits.
    pub setpoints_inside: Vec<bool>,
    /// The control and physics tolerances, the motion gate and safety gripper step
    /// bounds and the mock gripper velocity bound, in that order: each is
    /// finite and non-negative.
    pub named_values_valid: [bool; 5],
    /// Every arm step bound and mock arm velocity bound is finite and
    /// non-negative.
    pub rates_valid: bool,
    /// The expected final state (if any) is finite and its tolerance finite
    /// and non-negative.
    pub final_state_valid: bool,
}

pub open spec fn source_epochs_invalid<S, C, B, M, Q>(sc: ScenarioV0<S, C, B, M, Q>) -> bool {
    let a = sc.sensor_source_epoch.0;
    let b = sc.setpoint_source_epoch.0;
    let c = sc.subject_source_epoch.0;
    let d = sc.safety_source_epoch.0;
    ||| a == 0 || b == 0 || c == 0 || d == 0
    ||| a == b || a == c || a == d || b == c || b == d || c == d
}

pub open spec fn durations_invalid<S, C, B, M, Q>(sc: ScenarioV0<S, C, B, M, Q>) -> bool {
    ||| sc.gate_policy.sensor_max_age_ns.0 == 0
    ||| sc.gate_policy.safety_max_age_ns.0 == 0
    ||| sc.gate_policy.setpoint_max_age_ns.0 == 0
    ||| sc.gate_policy.proposal_ttl_ns.0 == 0
    ||| sc.safety_policy.intent_max_age_ns.0 == 0
    ||| sc.safety_policy.heartbeat_timeout_ns.0 == 0
}

/// Messages of the checks on the scenario's identity and timing.
pub open spec fn header_failures<S, C, B, M, Q>(sc: ScenarioV0<S, C, B, M, Q>, facts: ScenarioFacts) -> Seq<Seq<char>> {
    Seq::empty() + check(
        sc.schema_version != CONTRACT_SCHEMA_VERSION,
        "unsupported schemaVersion "@ + decimal_text(sc.schema_version as nat),
    ) + check(sc.contract@ != CONTRACT_ID@, "unsupported contract "@ + sc.contract@) + check(
        sc.profile@ != PROFILE_ID@,
        "unsupported profile "@ + sc.profile@,
    ) + check(
        is_blank_text(sc.name@) || is_blank_text(sc.seed@),
        "scenario name and seed must be non-empty"@,
    ) + check(
        sc.model_digest@ != PINNED_SO101_MODEL_DIGEST@,
        "modelDigest must identify the pinned SO-101 model: "@ + PINNED_SO101_MODEL_DIGEST@,
    ) + check(
        sc.tick_period_ns.0 != SO101_TICK_PERIOD_NS,
        "tickPeriodNs must be the pinned 5000000 ns"@,
    ) + check(
        sc.ticks.0 == 0 || sc.ticks.0 > MAX_SCENARIO_TICKS,
        "ticks must be between 1 and 1000000"@,
    )
}

/// Messages of the checks on the scenario's source epochs and policies.
pub open spec fn policy_failures<S, C, B, M, Q>(sc: ScenarioV0<S, C, B, M, Q>, facts: ScenarioFacts) -> Seq<Seq<char>> {
    Seq::empty() + check(
        source_epochs_invalid(sc),
        "all source epochs must be non-zero and pairwise distinct"@,
    ) + check(
        durations_invalid(sc),
        "all ages, TTLs, and the safety heartbeat timeout must be positive"@,
    ) + check(
        !facts.limits_valid,
        "gate and safety limits must contain finite ordered ranges"@,
    ) + check(
        !(sc.safety_policy.intent_max_age_ns.0 <= sc.gate_policy.proposal_ttl_ns.0
            && facts.safety_bounds_no_looser),
        "safety limits, slew, and intent age must be no looser than the subject gate"@,
    ) + check(
        !facts.initial_state_inside,
        "initialState must be finite and inside gate and safety limits"@,
    )
}

/// Messages of the checks on the setpoint schedule.
pub open spec fn setpoint_order_failures<S, C, B, M, Q>(sc: ScenarioV0<S, C, B, M, Q>) -> Seq<Seq<char>> {
    let p = sc.setpoints@;
    check(p.len() == 0 || p[0].at_tick.0 != 0, "the first setpoint must start at tick 0"@) + check(
        exists|i: int| 0 <= i && i + 1 < p.len() && #[trigger] p[i].at_tick.0 >= p[i + 1].at_tick.0,
        "setpoint ticks must be strictly increasing"@,
    )
}

/// Messages for the first `n` setpoint keyframes.
pub open spec fn setpoint_failures<S, C, B, M, Q>(
    sc: ScenarioV0<S, C, B, M, Q>,
    facts: ScenarioFacts,
    n: nat,
) -> Seq<Seq<char>>
    decreases n,
{
    if n == 0 {
        seq![]
    } else {
        let k = (n - 1) as int;
        let at = sc.setpoints@[k].at_tick.0;
        setpoint_failures(sc, facts, (n - 1) as nat) + check(
            at >= sc.ticks.0,
            "setpoint tick "@ + decimal_text(at as nat) + " is outside the run"@,
        ) + check(
            !facts.setpoints_inside@[k],
            "setpoint at tick "@ + decimal_text(at as nat) + " is outside limits"@,
        )
    }
}

pub open spec fn future_offset_is_zero(fault: FaultKindV0) -> bool {
    match fault {
        FaultKindV0::FutureSensor { offset_ns } => offset_ns.0 == 0,
        FaultKindV0::FutureSetpoint { offset_ns } => offset_ns.0 == 0,
        FaultKindV0::FutureSafetyStatus { offset_ns } => offset_ns.0 == 0,
        _ => false,
    }
}

pub open spec fn over_age_is_zero(fault: FaultKindV0) -> bool {
    match fault {
        FaultKindV0::OverAgeSensor { age_ns } => age_ns.0 == 0,
        FaultKindV0::OverAgeSetpoint { age_ns } => age_ns.0 == 0,
        FaultKindV0::OverAgeSafetyStatus { age_ns } => age_ns.0 == 0,
        _ => false,
    }
}

/// Messages for the first `n` scheduled faults: an empty window, one that
/// starts or ends outside the run (or whose end overflows), and a zero
/// future or over-age offset.
pub open spec fn fault_failures<S, C, B, M, Q>(sc: ScenarioV0<S, C, B, M, Q>, n: nat) -> Seq<Seq<char>>
    decreases n,
{
    if n == 0 {
        seq![]
    } else {
        let f = sc.faults@[(n - 1) as int];
        let start = f.start_tick.0;
        fault_failures(sc, (n - 1) as nat) + check(
            f.duration_ticks.0 == 0 || start >= sc.ticks.0 || start + f.duration_ticks.0
                > sc.ticks.0,
            "invalid fault schedule at tick "@ + decimal_text(start as nat),
        ) + check(
            future_offset_is_zero(f.fault),
            "future-frame offset at tick "@ + decimal_text(start as nat) + " must be positive"@,
        ) + check(
            over_age_is_zero(f.fault),
            "over-age frame offset at tick "@ + decimal_text(start as nat) + " must be positive"@,
        )
    }
}

/// Messages for the first `n` scheduled safety actions.
pub open spec fn action_failures<S, C, B, M, Q>(sc: ScenarioV0<S, C, B, M, Q>, n: nat) -> Seq<Seq<char>>
    decreases n,
{
    if n == 0 {
        seq![]
    } else {
        let at = sc.safety_actions@[(n - 1) as int].at_tick.0;
        action_failures(sc, (n - 1) as nat) + check(
            at >= sc.ticks.0,
            "safety action tick "@ + decimal_text(at as nat) + " is outside the run"@,
        )
    }
}

/// The total of the expected denial counts, saturating at `u64::MAX`.
pub open spec fn denied_total(counts: Seq<(crate::contracts::GateDeniedReasonV0, u64)>) -> u64
    decreases counts.len(),
{
    if counts.len() == 0 {
        0
    } else {
        sat_add(denied_total(counts.drop_last()), counts.last().1)
    }
}

/// Messages of the checks on the action order, tolerances and rate limits.
pub open spec fn expectation_failures<S, C, B, M, Q>(sc: ScenarioV0<S, C, B, M, Q>, facts: ScenarioFacts) -> Seq<Seq<char>> {
    let acts = sc.safety_actions@;
    let supp = sc.expected.suppressed_ticks@;
    let counts = sc.expected.denied_by_reason@;
    let denied = denied_total(counts);
    Seq::empty() + check(
        exists|i: int| 0 <= i && i + 1 < acts.len() && #[trigger] acts[i].at_tick.0 > acts[i + 1].at_tick.0,
        "safety action ticks must be non-decreasing"@,
    ) + check(
        !facts.named_values_valid[0],
        "controlAbsoluteTolerance must be finite and non-negative"@,
    ) + check(
        !facts.named_values_valid[1],
        "physicsAbsoluteTolerance must be finite and non-negative"@,
    ) + check(
        !facts.named_values_valid[2],
        "maxGripperStep must be finite and non-negative"@,
    ) + check(
        !facts.named_values_valid[3],
        "safetyMaxGripperStep must be finite and non-negative"@,
    ) + check(
        !facts.named_values_valid[4],
        "maxGripperVelocityPerS must be finite and non-negative"@,
    ) + check(!facts.rates_valid, "rate and step limits must be finite and non-negative"@)
        + check(
        !sc.equality.require_exact_discrete_trace,
        "v0 requires exact discrete trace comparison"@,
    )
}

/// Messages of the checks on the expected outcome of the run.
pub open spec fn outcome_failures<S, C, B, M, Q>(sc: ScenarioV0<S, C, B, M, Q>, facts: ScenarioFacts) -> Seq<Seq<char>> {
    let supp = sc.expected.suppressed_ticks@;
    let counts = sc.expected.denied_by_reason@;
    let denied = denied_total(counts);
    Seq::empty() + check(
        (exists|i: int| 0 <= i && i + 1 < supp.len() && #[trigger] supp[i].0 >= supp[i + 1].0) || (exists|
            i: int,
        | 0 <= i < supp.len() && supp[i].0 >= sc.ticks.0),
        "expected suppressed ticks must be unique, sorted, and inside the run"@,
    ) + check(
        sc.expected.authorized_ticks matches Some(a) && sat_add(a, supp.len() as u64)
            != sc.ticks.0,
        "authorizedTicks plus suppressedTicks must equal ticks"@,
    ) + check(
        (exists|i: int| 0 <= i < counts.len() && counts[i].1 == 0) || denied > sc.ticks.0,
        "denial counts must be positive and cannot exceed ticks"@,
    ) + check(
        sc.expected.admitted_ticks matches Some(a) && sat_add(a, denied) > sc.ticks.0,
        "admitted and denied counts cannot exceed ticks"@,
    ) + check(
        sc.expected.final_state is Some && !facts.final_state_valid,
        "expected final state and tolerance must be finite and non-negative"@,
    )
}

/// Every message `validate_scenario` reports, in order.
pub open spec fn scenario_failures<S, C, B, M, Q>(sc: ScenarioV0<S, C, B, M, Q>, facts: ScenarioFacts) -> Seq<Seq<char>> {
    header_failures(sc, facts) + policy_failures(sc, facts) + setpoint_order_failures(sc) + setpoint_failures(
        sc,
        facts,
        sc.setpoints@.len(),
    ) + fault_failures(sc, sc.faults@.len()) + action_failures(sc, sc.safety_actions@.len())
        + expectation_failures(sc, facts) + outcome_failures(sc, facts)
}

} // verus!

verus! {

fn header_checks<S, C, B, M, Q>(
    sc: &ScenarioV0<S, C, B, M, Q>,
    facts: &ScenarioFacts,
    failures: &mut Vec<String>,
)
    ensures
        texts(final(failures)@) == texts(old(failures)@) + header_failures(*sc, *facts),
{
    let mut local = no_failures();
    note(
        &mut local,
        sc.schema_version != CONTRACT_SCHEMA_VERSION,
        join(owned("unsupported schemaVersion "), decimal(sc.schema_version as u64).as_str()),
    );
    note(
        &mut local,
        !same_text(sc.contract.as_str(), CONTRACT_ID),
        join(owned("unsupported contract "), sc.contract.as_str()),
    );
    note(
        &mut local,
        !same_text(sc.profile.as_str(), PROFILE_ID),
        join(owned("unsupported profile "), sc.profile.as_str()),
    );
    note(
        &mut local,
        is_blank(sc.name.as_str()) || is_blank(sc.seed.as_str()),
        owned("scenario name and seed must be non-empty"),
    );
    note(
        &mut local,
        !same_text(sc.model_digest.as_str(), PINNED_SO101_MODEL_DIGEST),
        join(
            owned("modelDigest must identify the pinned SO-101 model: "),
            PINNED_SO101_MODEL_DIGEST,
        ),
    );
    note(
        &mut local,
        sc.tick_period_ns.0 != SO101_TICK_PERIOD_NS,
        owned("tickPeriodNs must be the pinned 5000000 ns"),
    );
    note(
        &mut local,
        sc.ticks.0 == 0 || sc.ticks.0 > MAX_SCENARIO_TICKS,
        owned("ticks must be between 1 and 1000000"),
    );
    absorb(failures, local);
}

fn policy_checks<S, C, B, M, Q>(
    sc: &ScenarioV0<S, C, B, M, Q>,
    facts: &ScenarioFacts,
    failures: &mut Vec<String>,
)
    ensures
        texts(final(failures)@) == texts(old(failures)@) + policy_failures(*sc, *facts),
{
    let mut local = no_failures();
    let a = sc.sensor_source_epoch.0;
    let b = sc.setpoint_source_epoch.0;
    let c = sc.subject_source_epoch.0;
    let d = sc.safety_source_epoch.0;
    note(
        &mut local,
        (a == 0 || b == 0 || c == 0 || d == 0) || (a == b || a == c || a == d || b == c || b
            == d || c == d),
        owned("all source epochs must be non-zero and pairwise distinct"),
    );
    note(
        &mut local,
        sc.gate_policy.sensor_max_age_ns.0 == 0 || sc.gate_policy.safety_max_age_ns.0 == 0
            || sc.gate_policy.setpoint_max_age_ns.0 == 0 || sc.gate_policy.proposal_ttl_ns.0 == 0
            || sc.safety_policy.intent_max_age_ns.0 == 0
            || sc.safety_policy.heartbeat_timeout_ns.0 == 0,
        owned("all ages, TTLs, and the safety heartbeat timeout must be positive"),
    );
    note(
        &mut local,
        !facts.limits_valid,
        owned("gate and safety limits must contain finite ordered ranges"),
    );
    note(
        &mut local,
        !(sc.safety_policy.intent_max_age_ns.0 <= sc.gate_policy.proposal_ttl_ns.0
            && facts.safety_bounds_no_looser),
        owned("safety limits, slew, and intent age must be no looser than the subject gate"),
    );
    note(
        &mut local,
        !facts.initial_state_inside,
        owned("initialState must be finite and inside gate and safety limits"),
    );
    absorb(failures, local);
}

fn setpoint_checks<S, C, B, M, Q>(
    sc: &ScenarioV0<S, C, B, M, Q>,
    facts: &ScenarioFacts,
    failures: &mut Vec<String>,
)
    requires
        facts.setpoints_inside@.len() == sc.setpoints@.len(),
    ensures
        texts(final(failures)@) == texts(old(failures)@) + setpoint_order_failures(*sc)
            + setpoint_failures(*sc, *facts, sc.setpoints@.len()),
{
    let ghost start = texts(failures@);
    let n = sc.setpoints.len();
    note(
        failures,
        n == 0 || sc.setpoints[0].at_tick.0 != 0,
        owned("the first setpoint must start at tick 0"),
    );
    let mut unordered = false;
    let mut i: usize = 0;
    while n > 0 && i < n - 1
        invariant
            n == sc.setpoints@.len(),
            i <= n,
            unordered == exists|k: int|
                0 <= k < i && k + 1 < n && #[trigger] sc.setpoints@[k].at_tick.0
                    >= sc.setpoints@[k + 1].at_tick.0,
        decreases n - i,
    {
        if sc.setpoints[i].at_tick.0 >= sc.setpoints[i + 1].at_tick.0 {
            unordered = true;
        }
        i = i + 1;
    }
    note(failures, unordered, owned("setpoint ticks must be strictly increasing"));
    let ghost mid = texts(failures@);
    assert(mid =~= start + setpoint_order_failures(*sc));
    let mut j: usize = 0;
    while j < n
        invariant
            n == sc.setpoints@.len(),
            facts.setpoints_inside@.len() == n,
            j <= n,
            texts(failures@) == mid + setpoint_failures(*sc, *facts, j as nat),
        decreases n - j,
    {
        let at = sc.setpoints[j].at_tick.0;
        if at >= sc.ticks.0 {
            let m = join(owned("setpoint tick "), decimal(at).as_str());
            note(failures, true, join(m, " is outside the run"));
        } else {
            note(failures, false, owned(""));
        }
        if !facts.setpoints_inside[j] {
            let m = join(owned("setpoint at tick "), decimal(at).as_str());
            note(failures, true, join(m, " is outside limits"));
        } else {
            note(failures, false, owned(""));
        }
        proof {
            assert(texts(failures@) =~= mid + setpoint_failures(*sc, *facts, (j + 1) as nat));
        }
        j = j + 1;
    }
}

fn fault_checks<S, C, B, M, Q>(sc: &ScenarioV0<S, C, B, M, Q>, failures: &mut Vec<String>)
    ensures
        texts(final(failures)@) == texts(old(failures)@) + fault_failures(*sc, sc.faults@.len()),
{
    let ghost start = texts(failures@);
    let n = sc.faults.len();
    let mut j: usize = 0;
    while j < n
        invariant
            n == sc.faults@.len(),
            j <= n,
            texts(failures@) == start + fault_failures(*sc, j as nat),
        decreases n - j,
    {
        let fault = &sc.faults[j];
        let start_tick = fault.start_tick.0;
        let end_outside = match start_tick.checked_add(fault.duration_ticks.0) {
            Some(end) => end > sc.ticks.0,
            None => true,
        };
        if fault.duration_ticks.0 == 0 || start_tick >= sc.ticks.0 || end_outside {
            let m = join(owned("invalid fault schedule at tick "), decimal(start_tick).as_str());
            note(failures, true, m);
        } else {
            note(failures, false, owned(""));
        }
        let future_zero = match fault.fault {
            FaultKindV0::FutureSensor { offset_ns } => offset_ns.0 == 0,
            FaultKindV0::FutureSetpoint { offset_ns } => offset_ns.0 == 0,
            FaultKindV0::FutureSafetyStatus { offset_ns } => offset_ns.0 == 0,
            _ => false,
        };
        if future_zero {
            let m = join(owned("future-frame offset at tick "), decimal(start_tick).as_str());
            note(failures, true, join(m, " must be positive"));
        } else {
            note(failures, false, owned(""));
        }
        let over_age_zero = match fault.fault {
            FaultKindV0::OverAgeSensor { age_ns } => age_ns.0 == 0,
            FaultKindV0::OverAgeSetpoint { age_ns } => age_ns.0 == 0,
            FaultKindV0::OverAgeSafetyStatus { age_ns } => age_ns.0 == 0,
            _ => false,
        };
        if over_age_zero {
            let m = join(owned("over-age frame offset at tick "), decimal(start_tick).as_str());
            note(failures, true, join(m, " must be positive"));
        } else {
            note(failures, false, owned(""));
        }
        proof {
            assert(texts(failures@) =~= start + fault_failures(*sc, (j + 1) as nat));
        }
        j = j + 1;
    }
}

fn action_checks<S, C, B, M, Q>(sc: &ScenarioV0<S, C, B, M, Q>, failures: &mut Vec<String>)
    ensures
        texts(final(failures)@) == texts(old(failures)@) + action_failures(
            *sc,
            sc.safety_actions@.len(),
        ),
{
    let ghost start = texts(failures@);
    let n = sc.safety_actions.len();
    let mut j: usize = 0;
    while j < n
        invariant
            n == sc.safety_actions@.len(),
            j <= n,
            texts(failures@) == start + action_failures(*sc, j as nat),
        decreases n - j,
    {
        let at = sc.safety_actions[j].at_tick.0;
        if at >= sc.ticks.0 {
            let m = join(owned("safety action tick "), decimal(at).as_str());
            note(failures, true, join(m, " is outside the run"));
        } else {
            note(failures, false, owned(""));
        }
        proof {
            assert(texts(failures@) =~= start + action_failures(*sc, (j + 1) as nat));
        }
        j = j + 1;
    }
}

fn expectation_checks<S, C, B, M, Q>(
    sc: &ScenarioV0<S, C, B, M, Q>,
    facts: &ScenarioFacts,
    failures: &mut Vec<String>,
)
    ensures
        texts(final(failures)@) == texts(old(failures)@) + expectation_failures(*sc, *facts),
{
    let mut local = no_failures();
    let acts = &sc.safety_actions;
    let n = acts.len();
    let mut decreasing = false;
    let mut i: usize = 0;
    while n > 0 && i < n - 1
        invariant
            n == acts@.len(),
            i <= n,
            decreasing == exists|k: int|
                0 <= k < i && k + 1 < n && #[trigger] acts@[k].at_tick.0 > acts@[k + 1].at_tick.0,
        decreases n - i,
    {
        if acts[i].at_tick.0 > acts[i + 1].at_tick.0 {
            decreasing = true;
        }
        i = i + 1;
    }
    note(&mut local, decreasing, owned("safety action ticks must be non-decreasing"));
    note(
        &mut local,
        !facts.named_values_valid[0],
        owned("controlAbsoluteTolerance must be finite and non-negative"),
    );
    note(
        &mut local,
        !facts.named_values_valid[1],
        owned("physicsAbsoluteTolerance must be finite and non-negative"),
    );
    note(&mut local, !facts.named_values_valid[2], owned("maxGripperStep must be finite and non-negative"));
    note(
        &mut local,
        !facts.named_values_valid[3],
        owned("safetyMaxGripperStep must be finite and non-negative"),
    );
    note(
        &mut local,
        !facts.named_values_valid[4],
        owned("maxGripperVelocityPerS must be finite and non-negative"),
    );
    note(&mut local, !facts.rates_valid, owned("rate and step limits must be finite and non-negative"));
    note(
        &mut local,
        !sc.equality.require_exact_discrete_trace,
        owned("v0 requires exact discrete trace comparison"),
    );
    absorb(failures, local);
}

fn outcome_checks<S, C, B, M, Q>(
    sc: &ScenarioV0<S, C, B, M, Q>,
    facts: &ScenarioFacts,
    failures: &mut Vec<String>,
)
    ensures
        texts(final(failures)@) == texts(old(failures)@) + outcome_failures(*sc, *facts),
{
    let mut local = no_failures();
    let supp = &sc.expected.suppressed_ticks;
    let m = supp.len();
    let mut bad_ticks = false;
    let mut i: usize = 0;
    while i < m
        invariant
            m == supp@.len(),
            i <= m,
            bad_ticks == ((exists|k: int|
                0 <= k && k + 1 < i + (if i < m { 1int } else { 0int }) && k + 1 < m
                    && #[trigger] supp@[k].0 >= supp@[k + 1].0) || (exists|k: int|
                0 <= k < i && #[trigger] supp@[k].0 >= sc.ticks.0)),
        decreases m - i,
    {
        if supp[i].0 >= sc.ticks.0 {
            bad_ticks = true;
        }
        if i + 1 < m && supp[i].0 >= supp[i + 1].0 {
            bad_ticks = true;
        }
        i = i + 1;
    }
    note(
        &mut local,
        bad_ticks,
        owned("expected suppressed ticks must be unique, sorted, and inside the run"),
    );
    let authorized_mismatch = match sc.expected.authorized_ticks {
        Some(a) => a.saturating_add(m as u64) != sc.ticks.0,
        None => false,
    };
    note(
        &mut local,
        authorized_mismatch,
        owned("authorizedTicks plus suppressedTicks must equal ticks"),
    );
    let counts = &sc.expected.denied_by_reason;
    let c = counts.len();
    let mut denied: u64 = 0;
    let mut zero_count = false;
    let mut i: usize = 0;
    while i < c
        invariant
            c == counts@.len(),
            i <= c,
            denied == denied_total(counts@.take(i as int)),
            zero_count == exists|k: int| 0 <= k < i && #[trigger] counts@[k].1 == 0,
        decreases c - i,
    {
        assert(counts@.take(i + 1).drop_last() =~= counts@.take(i as int));
        denied = denied.saturating_add(counts[i].1);
        if counts[i].1 == 0 {
            zero_count = true;
        }
        i = i + 1;
    }
    assert(counts@.take(c as int) =~= counts@);
    note(
        &mut local,
        zero_count || denied > sc.ticks.0,
        owned("denial counts must be positive and cannot exceed ticks"),
    );
    let admitted_excess = match sc.expected.admitted_ticks {
        Some(a) => a.saturating_add(denied) > sc.ticks.0,
        None => false,
    };
    note(&mut local, admitted_excess, owned("admitted and denied counts cannot exceed ticks"));
    note(
        &mut local,
        sc.expected.final_state.is_some() && !facts.final_state_valid,
        owned("expected final state and tolerance must be finite and non-negative"),
    );
    absorb(failures, local);
}

/// Validates every static invariant needed for a bounded deterministic run:
/// identity and pinned timing, distinct non-zero source epochs, positive
/// ages and TTLs, valid and nested policies, an in-limits initial state, a
/// well-formed setpoint, fault and safety-action schedule, valid tolerances,
/// and consistent expectations. `facts` carries the floating-point verdicts.
///
/// Returns every discovered problem, in the order above.
pub fn validate_scenario<S, C, B, M, Q>(
    scenario: &ScenarioV0<S, C, B, M, Q>,
    facts: &ScenarioFacts,
) -> (r: Result<(), Vec<String>>)
    requires
        facts.setpoints_inside@.len() == scenario.setpoints@.len(),
    ensures
        match r {
            Ok(()) => scenario_failures(*scenario, *facts).len() == 0,
            Err(failures) => texts(failures@) == scenario_failures(*scenario, *facts)
                && failures@.len() > 0,
        },
{
    let mut failures: Vec<String> = Vec::new();
    assert(texts(failures@) =~= Seq::<Seq<char>>::empty());
    header_checks(scenario, facts, &mut failures);
    policy_checks(scenario, facts, &mut failures);
    setpoint_checks(scenario, facts, &mut failures);
    fault_checks(scenario, &mut failures);
    action_checks(scenario, &mut failures);
    expectation_checks(scenario, facts, &mut failures);
    outcome_checks(scenario, facts, &mut failures);
    assert(texts(failures@) =~= scenario_failures(*scenario, *facts));
    if failures.len() == 0 {
        Ok(())
    } else {
        Err(failures)
    }
}

/// A scenario that validation accepts gives its four streams (sensor,
/// setpoint, subject, safety) non-zero and pairwise distinct source epochs,
/// so no stream's frames can pass for another's; its ages, TTLs and
/// heartbeat timeout are positive, and the safety controller's intent age
/// is no looser than the subject gate's proposal TTL.
pub proof fn lemma_accepted_scenario_separates_sources<S, C, B, M, Q>(
    sc: ScenarioV0<S, C, B, M, Q>,
    facts: ScenarioFacts,
)
    requires
        scenario_failures(sc, facts).len() == 0,
    ensures
        sc.sensor_source_epoch.0 != 0,
        sc.setpoint_source_epoch.0 != 0,
        sc.subject_source_epoch.0 != 0,
        sc.safety_source_epoch.0 != 0,
        sc.sensor_source_epoch != sc.setpoint_source_epoch,
        sc.sensor_source_epoch != sc.subject_source_epoch,
        sc.sensor_source_epoch != sc.safety_source_epoch,
        sc.setpoint_source_epoch != sc.subject_source_epoch,
        sc.setpoint_source_epoch != sc.safety_source_epoch,
        sc.subject_source_epoch != sc.safety_source_epoch,
        sc.gate_policy.sensor_max_age_ns.0 > 0,
        sc.gate_policy.safety_max_age_ns.0 > 0,
        sc.gate_policy.setpoint_max_age_ns.0 > 0,
        sc.gate_policy.proposal_ttl_ns.0 > 0,
        sc.safety_policy.intent_max_age_ns.0 > 0,
        sc.safety_policy.heartbeat_timeout_ns.0 > 0,
        sc.safety_policy.intent_max_age_ns.0 <= sc.gate_policy.proposal_ttl_ns.0,
{
    assert(policy_failures(sc, facts).len() == 0);
}

} // verus!
