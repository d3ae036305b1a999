//! The verdict of a run: its trace evidence must be valid, and its summary
//! must meet every expectation the scenario states.
use vstd::prelude::*;

use crate::contracts::{
    ExpectedSafetyStateV0, GateDeniedReasonV0, RunSummaryV0, ScenarioV0, SemanticTraceV0,
};
use crate::evidence::{trace_failures, validate_trace_evidence, TraceFacts};
use crate::harness::Verdict;
use crate::text::{
    absorb_prefixed, check, decimal, decimal_text, join, join_all, joined, no_failures, note,
    owned, prefixed, texts,
};
use crate::units::Tick;

verus! {

/// The name of a denial reason, as its `Debug` rendering shows it.
pub open spec fn reason_name(r: GateDeniedReasonV0) -> Seq<char> {
    match r {
        GateDeniedReasonV0::MissingSensor => "MissingSensor"@,
        GateDeniedReasonV0::InvalidSensor => "InvalidSensor"@,
        GateDeniedReasonV0::StaleSensor => "StaleSensor"@,
        GateDeniedReasonV0::FutureSensor => "FutureSensor"@,
        GateDeniedReasonV0::DuplicateSensor => "DuplicateSensor"@,
        GateDeniedReasonV0::OutOfOrderSensor => "OutOfOrderSensor"@,
        GateDeniedReasonV0::WrongClockEpoch => "WrongClockEpoch"@,
        GateDeniedReasonV0::WrongSourceEpoch => "WrongSourceEpoch"@,
        GateDeniedReasonV0::MissingSetpoint => "MissingSetpoint"@,
        GateDeniedReasonV0::InvalidSetpoint => "InvalidSetpoint"@,
        GateDeniedReasonV0::StaleSetpoint => "StaleSetpoint"@,
        GateDeniedReasonV0::MissingSafetyStatus => "MissingSafetyStatus"@,
        GateDeniedReasonV0::InvalidSafetyStatus => "InvalidSafetyStatus"@,
        GateDeniedReasonV0::StaleSafetyStatus => "StaleSafetyStatus"@,
        GateDeniedReasonV0::SafetyNotArmed => "SafetyNotArmed"@,
        GateDeniedReasonV0::SafetyTripped => "SafetyTripped"@,
        GateDeniedReasonV0::PermitEpochMismatch => "PermitEpochMismatch"@,
        GateDeniedReasonV0::ProposalExpired => "ProposalExpired"@,
        GateDeniedReasonV0::ProposalSourceMismatch => "ProposalSourceMismatch"@,
        GateDeniedReasonV0::NonFinite => "NonFinite"@,
        GateDeniedReasonV0::OutOfRange => "OutOfRange"@,
        GateDeniedReasonV0::TaskError => "TaskError"@,
    }
}

pub fn reason_label(r: GateDeniedReasonV0) -> (s: &'static str)
    ensures
        s@ == reason_name(r),
{
    match r {
        GateDeniedReasonV0::MissingSensor => "MissingSensor",
        GateDeniedReasonV0::InvalidSensor => "InvalidSensor",
        GateDeniedReasonV0::StaleSensor => "StaleSensor",
        GateDeniedReasonV0::FutureSensor => "FutureSensor",
        GateDeniedReasonV0::DuplicateSensor => "DuplicateSensor",
        GateDeniedReasonV0::OutOfOrderSensor => "OutOfOrderSensor",
        GateDeniedReasonV0::WrongClockEpoch => "WrongClockEpoch",
        GateDeniedReasonV0::WrongSourceEpoch => "WrongSourceEpoch",
        GateDeniedReasonV0::MissingSetpoint => "MissingSetpoint",
        GateDeniedReasonV0::InvalidSetpoint => "InvalidSetpoint",
        GateDeniedReasonV0::StaleSetpoint => "StaleSetpoint",
        GateDeniedReasonV0::MissingSafetyStatus => "MissingSafetyStatus",
        GateDeniedReasonV0::InvalidSafetyStatus => "InvalidSafetyStatus",
        GateDeniedReasonV0::StaleSafetyStatus => "StaleSafetyStatus",
        GateDeniedReasonV0::SafetyNotArmed => "SafetyNotArmed",
        GateDeniedReasonV0::SafetyTripped => "SafetyTripped",
        GateDeniedReasonV0::PermitEpochMismatch => "PermitEpochMismatch",
        GateDeniedReasonV0::ProposalExpired => "ProposalExpired",
        GateDeniedReasonV0::ProposalSourceMismatch => "ProposalSourceMismatch",
        GateDeniedReasonV0::NonFinite => "NonFinite",
        GateDeniedReasonV0::OutOfRange => "OutOfRange",
        GateDeniedReasonV0::TaskError => "TaskError",
    }
}

/// The name of a safety-state class, as its `Debug` rendering shows it.
pub open spec fn state_name(s: ExpectedSafetyStateV0) -> Seq<char> {
    match s {
        ExpectedSafetyStateV0::Disarmed => "Disarmed"@,
        ExpectedSafetyStateV0::Armed => "Armed"@,
        ExpectedSafetyStateV0::Tripped => "Tripped"@,
    }
}

pub fn state_label(s: ExpectedSafetyStateV0) -> (r: &'static str)
    ensures
        r@ == state_name(s),
{
    match s {
        ExpectedSafetyStateV0::Disarmed => "Disarmed",
        ExpectedSafetyStateV0::Armed => "Armed",
        ExpectedSafetyStateV0::Tripped => "Tripped",
    }
}

/// One entry of a denial map, as `Reason: count`.
pub open spec fn denial_entry_text(e: (GateDeniedReasonV0, u64)) -> Seq<char> {
    reason_name(e.0) + ": "@ + decimal_text(e.1 as nat)
}

/// A denial map in the `Debug` form of an ordered map:
/// `{Reason: count, ...}`.
pub open spec fn denial_counts_text(v: Seq<(GateDeniedReasonV0, u64)>) -> Seq<char> {
    "{"@ + joined(v.map_values(|e: (GateDeniedReasonV0, u64)| denial_entry_text(e)), ", "@) + "}"@
}

/// A tick, as `Tick(n)`.
pub open spec fn tick_text(t: Tick) -> Seq<char> {
    "Tick("@ + decimal_text(t.0 as nat) + ")"@
}

/// A tick list in the `Debug` form of a vector: `[Tick(n), ...]`.
pub open spec fn ticks_text(v: Seq<Tick>) -> Seq<char> {
    "["@ + joined(v.map_values(|t: Tick| tick_text(t)), ", "@) + "]"@
}

pub fn render_denial_counts(v: &Vec<(GateDeniedReasonV0, u64)>) -> (r: String)
    ensures
        r@ == denial_counts_text(v@),
{
    let mut entries: Vec<String> = Vec::new();
    let n = v.len();
    let mut i: usize = 0;
    while i < n
        invariant
            n == v@.len(),
            i <= n,
            texts(entries@) == v@.take(i as int).map_values(
                |e: (GateDeniedReasonV0, u64)| denial_entry_text(e),
            ),
        decreases n - i,
    {
        let (reason, count) = v[i];
        let e = join(join(owned(reason_label(reason)), ": "), decimal(count).as_str());
        let ghost before = entries@;
        entries.push(e);
        assert(texts(entries@) =~= texts(before).push(e@));
        assert(v@.take(i + 1).map_values(|e: (GateDeniedReasonV0, u64)| denial_entry_text(e))
            =~= v@.take(i as int).map_values(
            |e: (GateDeniedReasonV0, u64)| denial_entry_text(e),
        ).push(denial_entry_text(v@[i as int])));
        i = i + 1;
    }
    assert(v@.take(n as int) =~= v@);
    let inner = join_all(&entries, ", ");
    join(join(owned("{"), inner.as_str()), "}")
}

pub fn render_ticks(v: &Vec<Tick>) -> (r: String)
    ensures
        r@ == ticks_text(v@),
{
    let mut entries: Vec<String> = Vec::new();
    let n = v.len();
    let mut i: usize = 0;
    while i < n
        invariant
            n == v@.len(),
            i <= n,
            texts(entries@) == v@.take(i as int).map_values(|t: Tick| tick_text(t)),
        decreases n - i,
    {
        let e = join(join(owned("Tick("), decimal(v[i].0).as_str()), ")");
        let ghost before = entries@;
        entries.push(e);
        assert(texts(entries@) =~= texts(before).push(e@));
        assert(v@.take(i + 1).map_values(|t: Tick| tick_text(t)) =~= v@.take(i as int).map_values(
            |t: Tick| tick_text(t),
        ).push(tick_text(v@[i as int])));
        i = i + 1;
    }
    assert(v@.take(n as int) =~= v@);
    let inner = join_all(&entries, ", ");
    join(join(owned("["), inner.as_str()), "]")
}

} // verus!

verus! {

/// Verdicts on the floating-point expectation of a run.
#[derive(Debug, Clone, PartialEq, Eq)]
pub struct ExpectationFacts {
    /// The last record's plant state is finite and within the expected
    /// final state's absolute tolerance of it, joint by joint.
    pub final_state_close: bool,
    /// The expected final state's tolerance, rendered as `f64` displays it.
    pub final_tolerance_text: String,
}

/// Messages of the checks of a run's summary against its expectations.
pub open spec fn summary_expectation_failures<S, Q>(
    expected: crate::contracts::ExpectedRunV0<S, Q>,
    actual: RunSummaryV0,
) -> Seq<Seq<char>> {
    Seq::empty() + check(
        expected.admitted_ticks is Some && actual.admitted_ticks != expected.admitted_ticks->0,
        "expected "@ + decimal_text(expected.admitted_ticks->0 as nat) + " admitted ticks, got "@
            + decimal_text(actual.admitted_ticks as nat),
    ) + check(
        actual.denied_by_reason@ != expected.denied_by_reason@,
        "denial counts differ: expected "@ + denial_counts_text(expected.denied_by_reason@)
            + ", got "@ + denial_counts_text(actual.denied_by_reason@),
    ) + check(
        expected.authorized_ticks is Some && actual.authorized_ticks
            != expected.authorized_ticks->0,
        "expected "@ + decimal_text(expected.authorized_ticks->0 as nat)
            + " authorized ticks, got "@ + decimal_text(actual.authorized_ticks as nat),
    ) + check(
        actual.suppressed_ticks@ != expected.suppressed_ticks@,
        "suppressed ticks differ: expected "@ + ticks_text(expected.suppressed_ticks@) + ", got "@
            + ticks_text(actual.suppressed_ticks@),
    ) + check(
        expected.terminal_safety_state is Some && actual.terminal_safety_state
            != expected.terminal_safety_state->0,
        "expected terminal safety state "@ + state_name(expected.terminal_safety_state->0)
            + ", got "@ + state_name(actual.terminal_safety_state),
    )
}

/// The message of the final-state expectation, if it fails.
pub open spec fn final_state_failures<S, C, B, M, Q>(
    scenario: ScenarioV0<S, C, B, M, Q>,
    records_len: nat,
    facts: ExpectationFacts,
) -> Seq<Seq<char>> {
    if scenario.expected.final_state is None {
        seq![]
    } else if records_len == 0 {
        seq!["trace has no final plant state"@]
    } else {
        check(
            !facts.final_state_close,
            "final state differs beyond tolerance "@ + facts.final_tolerance_text@,
        )
    }
}

/// Every failure `evaluate_expectations` reports, in order.
pub open spec fn expectation_failures<S, C, B, M, Q>(
    scenario: ScenarioV0<S, C, B, M, Q>,
    trace: SemanticTraceV0<S, C, B, Q>,
    trace_facts: TraceFacts,
    facts: ExpectationFacts,
) -> Seq<Seq<char>> {
    prefixed("invalid trace evidence: "@, trace_failures(trace, trace_facts))
        + summary_expectation_failures(scenario.expected, trace.summary) + final_state_failures(
        scenario,
        trace.records@.len(),
        facts,
    )
}

fn summary_checks<S, Q>(
    expected: &crate::contracts::ExpectedRunV0<S, Q>,
    actual: &RunSummaryV0,
    failures: &mut Vec<String>,
)
    ensures
        texts(final(failures)@) == texts(old(failures)@) + summary_expectation_failures(
            *expected,
            *actual,
        ),
{
    let mut local = no_failures();
    match expected.admitted_ticks {
        Some(v) => {
            let m = join(owned("expected "), decimal(v).as_str());
            let m = join(m, " admitted ticks, got ");
            let m = join(m, decimal(actual.admitted_ticks).as_str());
            note(&mut local, actual.admitted_ticks != v, m);
        },
        None => note(&mut local, false, owned("")),
    }
    let denied_differ = !crate::evidence::same_denials(
        &actual.denied_by_reason,
        &expected.denied_by_reason,
    );
    let m = join(owned("denial counts differ: expected "), render_denial_counts(&expected.denied_by_reason).as_str());
    let m = join(m, ", got ");
    let m = join(m, render_denial_counts(&actual.denied_by_reason).as_str());
    note(&mut local, denied_differ, m);
    match expected.authorized_ticks {
        Some(v) => {
            let m = join(owned("expected "), decimal(v).as_str());
            let m = join(m, " authorized ticks, got ");
            let m = join(m, decimal(actual.authorized_ticks).as_str());
            note(&mut local, actual.authorized_ticks != v, m);
        },
        None => note(&mut local, false, owned("")),
    }
    let ticks_differ = !crate::evidence::same_ticks(
        &actual.suppressed_ticks,
        &expected.suppressed_ticks,
    );
    let m = join(owned("suppressed ticks differ: expected "), render_ticks(&expected.suppressed_ticks).as_str());
    let m = join(m, ", got ");
    let m = join(m, render_ticks(&actual.suppressed_ticks).as_str());
    note(&mut local, ticks_differ, m);
    match expected.terminal_safety_state {
        Some(es) => {
            let m = join(owned("expected terminal safety state "), state_label(es));
            let m = join(m, ", got ");
            let m = join(m, state_label(actual.terminal_safety_state));
            note(&mut local, actual.terminal_safety_state != es, m);
        },
        None => note(&mut local, false, owned("")),
    }
    crate::text::absorb(failures, local);
}

/// Judges a run: every failure of its trace evidence (behind "invalid trace
/// evidence: "), then every expectation of the scenario that its summary
/// misses, then the expected final plant state. `trace_facts` and `facts`
/// carry the floating-point verdicts. The run passes when nothing failed.
pub fn evaluate_expectations<S, C: Copy, B: Copy, M, Q>(
    scenario: &ScenarioV0<S, C, B, M, Q>,
    trace: &SemanticTraceV0<S, C, B, Q>,
    trace_facts: &TraceFacts,
    facts: &ExpectationFacts,
) -> (r: Verdict)
    requires
        trace_facts.records@.len() == trace.records@.len(),
    ensures
        texts(r.failures@) == expectation_failures(*scenario, *trace, *trace_facts, *facts),
        r.passed == (r.failures@.len() == 0),
{
    let mut failures = no_failures();
    match validate_trace_evidence(trace, trace_facts) {
        Ok(()) => {
            assert(prefixed("invalid trace evidence: "@, trace_failures(*trace, *trace_facts))
                =~= Seq::<Seq<char>>::empty());
        },
        Err(evidence) => {
            absorb_prefixed(&mut failures, "invalid trace evidence: ", &evidence);
        },
    }
    summary_checks(&scenario.expected, &trace.summary, &mut failures);
    if scenario.expected.final_state.is_some() {
        if trace.records.len() == 0 {
            note(&mut failures, true, owned("trace has no final plant state"));
        } else {
            let m = join(
                owned("final state differs beyond tolerance "),
                facts.final_tolerance_text.as_str(),
            );
            note(&mut failures, !facts.final_state_close, m);
        }
    }
    assert(texts(failures@) =~= expectation_failures(*scenario, *trace, *trace_facts, *facts));
    let passed = failures.len() == 0;
    Verdict { passed, failures }
}

/// A run's summary raises no expectation failure exactly when it meets
/// every expectation the scenario states: each expected count (zero
/// included) is the actual one, the denial counts and suppressed ticks are
/// the expected ones, and so is the terminal safety state when one is
/// expected. A verdict that passes therefore vouches for every stated
/// expectation and for the trace's evidence.
pub proof fn lemma_passing_verdict_meets_expectations<S, C, B, M, Q>(
    scenario: ScenarioV0<S, C, B, M, Q>,
    trace: SemanticTraceV0<S, C, B, Q>,
    trace_facts: TraceFacts,
    facts: ExpectationFacts,
)
    ensures
        summary_expectation_failures(scenario.expected, trace.summary).len() == 0 <==> {
            &&& (scenario.expected.admitted_ticks matches Some(v) ==> trace.summary.admitted_ticks == v)
            &&& trace.summary.denied_by_reason@ == scenario.expected.denied_by_reason@
            &&& (scenario.expected.authorized_ticks matches Some(v) ==> trace.summary.authorized_ticks
                == v)
            &&& trace.summary.suppressed_ticks@ == scenario.expected.suppressed_ticks@
            &&& (scenario.expected.terminal_safety_state matches Some(v)
                ==> trace.summary.terminal_safety_state == v)
        },
        expectation_failures(scenario, trace, trace_facts, facts).len() == 0 ==> {
            &&& trace_failures(trace, trace_facts).len() == 0
            &&& summary_expectation_failures(scenario.expected, trace.summary).len() == 0
        },
{
    assert(prefixed("invalid trace evidence: "@, trace_failures(trace, trace_facts)).len()
        == trace_failures(trace, trace_facts).len());
}

} // verus!
