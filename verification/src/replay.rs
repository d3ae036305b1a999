//! Replay of a subject and the independent safety controller from the exact
//! input and event stream a semantic trace captured.
//!
//! The subject is driven from outside; a [`ReplaySession`] takes every
//! decision between its calls: what the controller sees before a turn, how
//! a replayed turn is compared with the recorded one, and when the replay
//! stops.
use vstd::prelude::*;

use crate::compare::{
    disposition_checks, disposition_differences, gate_checks, gate_differences, output_checks,
    output_differences,
};
use crate::contracts::{
    SafetyTripReasonV0, SemanticTraceV0, SubjectLifecycleV0, TraceRecordV0,
};
use crate::evidence::{
    actions_applied, faults_applied, trace_failures, trace_safety_initial, validate_trace_evidence,
    TraceFacts,
};
use crate::harness::{subject_error_text, ComparisonReport, SubjectError};
use crate::safety::{IntentChecks, SafetyControllerSim, SafetyModel};
use crate::text::{
    absorb, absorb_prefixed, check, decimal, decimal_text, join, no_failures, note, owned,
    prefixed, texts,
};
use crate::turn::{
    apply_fault_effects, apply_scheduled_actions, close_turn, intent_offered, StepOutcome,
};
use crate::reference::{configured, ReferenceSubjectSnapshotV0, TurnFacts};
use crate::units::sat_add;

verus! {

/// How the subject's reset for a replay ended.
#[derive(Debug, Clone, PartialEq, Eq)]
pub enum ResetOutcome {
    Accepted,
    Rejected(SubjectError),
    Panicked,
}

/// Verdicts on the floating-point values of one replayed turn, against the
/// recorded turn (all within the trace's tolerances), and the safety
/// controller's checks on the recorded observation and the replayed intent.
#[derive(Debug, Clone, Copy, PartialEq, Eq, Structural)]
pub struct ReplayTurnFacts {
    pub estimate_close: bool,
    pub proposal_command_close: bool,
    pub gate_command_close: bool,
    /// The recorded actuation's command and the offered intent's command.
    pub actuation_command_close: bool,
    pub checks: IntentChecks,
}

/// The state of a replay: the replayed controller, the differences found so
/// far, and whether the replay has stopped.
pub struct ReplayModel {
    pub safety: SafetyModel,
    pub differences: Seq<Seq<char>>,
    pub halted: bool,
}

pub struct ReplaySession<B> {
    safety: SafetyControllerSim<B>,
    differences: Vec<String>,
    halted: bool,
}

impl<B> View for ReplaySession<B> {
    type V = ReplayModel;

    closed spec fn view(&self) -> ReplayModel {
        ReplayModel {
            safety: self.safety@,
            differences: texts(self.differences@),
            halted: self.halted,
        }
    }
}

/// The controller before a recorded turn: its scheduled actions, its fault
/// effects, and one published status.
pub open spec fn before_turn<S, C>(m: SafetyModel, r: TraceRecordV0<S, C>) -> SafetyModel {
    let m2 = faults_applied(
        actions_applied(m, r.safety_actions@, r.tick, r.time_ns, r.safety_actions@.len()),
        r.active_faults@,
        r.active_faults@.len(),
    );
    SafetyModel { status_sequence: sat_add(m2.status_sequence, 1), ..m2 }
}

/// The controller and the differences after a replayed turn that completed
/// with `out`: a faulted lifecycle trips the controller, which then
/// evaluates the offered intent; output, gate, disposition and the
/// controller state are compared with the record.
pub open spec fn completed_turn<S, C>(
    m: SafetyModel,
    r: TraceRecordV0<S, C>,
    out: crate::contracts::SubjectOutputV0<S, C>,
    f: ReplayTurnFacts,
    i: nat,
    tolerance: Seq<char>,
) -> (SafetyModel, Seq<Seq<char>>) {
    let m1 = if out.lifecycle@ is Faulted {
        m.after_trip(SafetyTripReasonV0::SubjectFault)
    } else {
        m
    };
    let (m2, d) = m1.evaluate(r.tick, r.time_ns, intent_offered(r.active_faults@, out.gate), f.checks);
    (
        m2,
        output_differences(
            r.subject_output,
            out,
            f.estimate_close,
            f.proposal_command_close,
            i,
            tolerance,
        ) + gate_differences(r.subject_output.gate, out.gate, f.gate_command_close, i)
            + disposition_differences(r.safety_disposition, d, f.actuation_command_close, i)
            + check(
            m2.snapshot() != r.safety_controller_after,
            "replayed safety-controller state differs at record "@ + decimal_text(i),
        ),
    )
}

/// The replay right after it starts.
pub open spec fn replay_begun<S, C, B, Q>(trace: SemanticTraceV0<S, C, B, Q>, facts: TraceFacts) -> ReplayModel {
    ReplayModel {
        safety: trace_safety_initial(trace),
        differences: prefixed("source trace: "@, trace_failures(trace, facts)),
        halted: trace_failures(trace, facts).len() > 0,
    }
}

/// The replay after the subject's reset ended with `outcome`.
pub open spec fn replay_reset(m: ReplayModel, outcome: ResetOutcome) -> ReplayModel {
    if m.halted {
        m
    } else {
        match outcome {
            ResetOutcome::Accepted => m,
            ResetOutcome::Rejected(e) => ReplayModel {
                differences: m.differences.push(
                    "replay subject reset failed: "@ + subject_error_text(e),
                ),
                halted: true,
                ..m
            },
            ResetOutcome::Panicked => ReplayModel {
                differences: m.differences.push("replay subject panicked during reset"@),
                halted: true,
                ..m
            },
        }
    }
}

/// The replay once record `i` is opened.
pub open spec fn replay_opened<S, C, B, Q>(
    m: ReplayModel,
    trace: SemanticTraceV0<S, C, B, Q>,
    i: nat,
) -> ReplayModel {
    if m.halted {
        m
    } else {
        ReplayModel { safety: before_turn(m.safety, trace.records@[i as int]), ..m }
    }
}

/// The replay once the subject's turn on record `i` ended with `outcome`.
pub open spec fn replay_closed<S, C, B, Q>(
    m: ReplayModel,
    trace: SemanticTraceV0<S, C, B, Q>,
    i: nat,
    outcome: StepOutcome<S, C>,
    facts: ReplayTurnFacts,
    tolerance: Seq<char>,
) -> ReplayModel {
    if m.halted {
        m
    } else {
        match outcome {
            StepOutcome::Failed(e) => ReplayModel {
                differences: m.differences.push(
                    "replay subject failed at record "@ + decimal_text(i) + ": "@
                        + subject_error_text(e),
                ),
                halted: true,
                ..m
            },
            StepOutcome::Panicked => ReplayModel {
                differences: m.differences.push(
                    "replay subject panicked at record "@ + decimal_text(i),
                ),
                halted: true,
                ..m
            },
            StepOutcome::Completed(out) => {
                let (next, d) = completed_turn(
                    m.safety,
                    trace.records@[i as int],
                    out,
                    facts,
                    i,
                    tolerance,
                );
                ReplayModel { safety: next, differences: m.differences + d, halted: false }
            },
        }
    }
}

impl<B: Copy> ReplaySession<B> {
    pub fn halted(&self) -> (r: bool)
        ensures
            r == self@.halted,
    {
        self.halted
    }

    /// Starts replaying `trace`. Its evidence must be valid: otherwise every
    /// failure is reported behind "source trace: " and the replay stops.
    pub fn begin<S, C: Copy, Q>(trace: &SemanticTraceV0<S, C, B, Q>, facts: &TraceFacts) -> (r: Self)
        requires
            facts.records@.len() == trace.records@.len(),
        ensures
            r@ == replay_begun(*trace, *facts),
    {
        let mut differences = no_failures();
        let halted = match validate_trace_evidence(trace, facts) {
            Ok(()) => {
                assert(prefixed("source trace: "@, trace_failures(*trace, *facts)) =~= Seq::<
                    Seq<char>,
                >::empty());
                false
            },
            Err(failures) => {
                absorb_prefixed(&mut differences, "source trace: ", &failures);
                true
            },
        };
        let safety = SafetyControllerSim::from_config(&trace.subject_config, trace.safety_policy);
        ReplaySession { safety, differences, halted }
    }

    /// Takes the outcome of the subject's reset: a rejection or a panic is
    /// reported and stops the replay.
    pub fn after_reset(&mut self, outcome: ResetOutcome)
        ensures
            final(self)@ == replay_reset(old(self)@, outcome),
    {
        if self.halted {
            return;
        }
        match outcome {
            ResetOutcome::Accepted => {},
            ResetOutcome::Rejected(e) => {
                let m = join(owned("replay subject reset failed: "), e.message().as_str());
                let ghost before = self.differences@;
                self.differences.push(m);
                assert(texts(self.differences@) =~= texts(before).push(m@));
                self.halted = true;
            },
            ResetOutcome::Panicked => {
                let m = owned("replay subject panicked during reset");
                let ghost before = self.differences@;
                self.differences.push(m);
                assert(texts(self.differences@) =~= texts(before).push(m@));
                self.halted = true;
            },
        }
    }

    /// Prepares the controller for record `i`: its scheduled actions, its
    /// fault effects, and one published status.
    pub fn open_record<S, C, Q>(&mut self, trace: &SemanticTraceV0<S, C, B, Q>, i: usize)
        requires
            i < trace.records@.len(),
        ensures
            final(self)@ == replay_opened(old(self)@, *trace, i as nat),
    {
        if self.halted {
            return;
        }
        let r = &trace.records[i];
        apply_scheduled_actions(&mut self.safety, r.tick, r.time_ns, &r.safety_actions);
        apply_fault_effects(&mut self.safety, &r.active_faults);
        let _ = self.safety.status(r.time_ns, trace.tick_period_ns);
    }

    /// Takes the outcome of the subject's replayed turn on record `i`. A
    /// failure or panic is reported and stops the replay; a completed turn
    /// is compared with the record as `completed_turn` states. `tolerance`
    /// is the trace's physics tolerance as `f64` displays it.
    pub fn close_record<S, C: Copy, Q>(
        &mut self,
        trace: &SemanticTraceV0<S, C, B, Q>,
        i: usize,
        outcome: StepOutcome<S, C>,
        facts: ReplayTurnFacts,
        tolerance: &str,
    )
        requires
            i < trace.records@.len(),
        ensures
            final(self)@ == replay_closed(old(self)@, *trace, i as nat, outcome, facts, tolerance@),
    {
        if self.halted {
            return;
        }
        let r = &trace.records[i];
        match outcome {
            StepOutcome::Failed(e) => {
                let m = join(owned("replay subject failed at record "), decimal(i as u64).as_str());
                let m = join(m, ": ");
                let m = join(m, e.message().as_str());
                let ghost before = self.differences@;
                self.differences.push(m);
                assert(texts(self.differences@) =~= texts(before).push(m@));
                self.halted = true;
            },
            StepOutcome::Panicked => {
                let m = join(
                    owned("replay subject panicked at record "),
                    decimal(i as u64).as_str(),
                );
                let ghost before = self.differences@;
                self.differences.push(m);
                assert(texts(self.differences@) =~= texts(before).push(m@));
                self.halted = true;
            },
            StepOutcome::Completed(out) => {
                let mut local = no_failures();
                output_checks(
                    &r.subject_output,
                    &out,
                    facts.estimate_close,
                    facts.proposal_command_close,
                    i,
                    tolerance,
                    &mut local,
                );
                gate_checks(
                    &r.subject_output.gate,
                    &out.gate,
                    facts.gate_command_close,
                    i,
                    &mut local,
                );
                if matches!(out.lifecycle, SubjectLifecycleV0::Faulted { .. }) {
                    self.safety.trip(SafetyTripReasonV0::SubjectFault);
                }
                let d = close_turn(
                    &mut self.safety,
                    r.tick,
                    r.time_ns,
                    &r.active_faults,
                    &out,
                    facts.checks,
                );
                disposition_checks(
                    &r.safety_disposition,
                    &d,
                    facts.actuation_command_close,
                    i,
                    &mut local,
                );
                let m = join(
                    owned("replayed safety-controller state differs at record "),
                    decimal(i as u64).as_str(),
                );
                note(&mut local, self.safety.snapshot() != r.safety_controller_after, m);
                absorb(&mut self.differences, local);
            },
        }
    }

    /// The replay's report: equal when no difference was found.
    pub fn finish(self) -> (r: ComparisonReport)
        ensures
            texts(r.differences@) == self@.differences,
            r.equal == (self@.differences.len() == 0),
    {
        let equal = self.differences.len() == 0;
        ComparisonReport { equal, differences: self.differences }
    }
}

} // verus!

verus! {

/// The replay of records `0..n` after a reset that ended with `reset`, each
/// record opened and then closed with the outcome and verdicts of
/// `turns[i]`.
pub open spec fn replay_through<S, C, B, Q>(
    trace: SemanticTraceV0<S, C, B, Q>,
    facts: TraceFacts,
    reset: ResetOutcome,
    turns: Seq<(StepOutcome<S, C>, ReplayTurnFacts)>,
    tolerance: Seq<char>,
    n: nat,
) -> ReplayModel
    decreases n,
{
    if n == 0 {
        replay_reset(replay_begun(trace, facts), reset)
    } else {
        let i = (n - 1) as nat;
        replay_closed(
            replay_opened(replay_through(trace, facts, reset, turns, tolerance, i), trace, i),
            trace,
            i,
            turns[i as int].0,
            turns[i as int].1,
            tolerance,
        )
    }
}

/// The subject reproduced record `r`'s output exactly, every floating-point
/// comparison was favourable, and the controller's checks are those that
/// trace validation used for the record.
pub open spec fn faithful_turn<S, C>(
    r: TraceRecordV0<S, C>,
    turn: (StepOutcome<S, C>, ReplayTurnFacts),
    f: crate::evidence::RecordFacts,
) -> bool {
    &&& turn.0 matches StepOutcome::Completed(out) && out@ == r.subject_output@
    &&& turn.1.estimate_close
    &&& turn.1.proposal_command_close
    &&& turn.1.gate_command_close
    &&& turn.1.actuation_command_close
    &&& turn.1.checks == f.safety
}

/// A valid trace replays cleanly against the subject that produced it: when
/// the subject's reset is accepted and every replayed turn reproduces the
/// recorded output under favourable floating-point verdicts, the replay
/// never stops, finds no difference, and its controller follows the one
/// that trace validation replays.
pub proof fn lemma_valid_trace_replays_cleanly<S, C, B, Q>(
    trace: SemanticTraceV0<S, C, B, Q>,
    facts: TraceFacts,
    turns: Seq<(StepOutcome<S, C>, ReplayTurnFacts)>,
    tolerance: Seq<char>,
    n: nat,
)
    requires
        facts.records@.len() == trace.records@.len(),
        trace_failures(trace, facts).len() == 0,
        n <= trace.records@.len(),
        turns.len() == trace.records@.len(),
        forall|i: int|
            0 <= i < turns.len() ==> faithful_turn(
                trace.records@[i],
                #[trigger] turns[i],
                facts.records@[i],
            ),
    ensures
        replay_through(trace, facts, ResetOutcome::Accepted, turns, tolerance, n) == (ReplayModel {
            safety: crate::evidence::replayed_model_upto(trace, facts, n),
            differences: Seq::<Seq<char>>::empty(),
            halted: false,
        }),
    decreases n,
{
    if n == 0 {
        assert(prefixed("source trace: "@, trace_failures(trace, facts)) =~= Seq::<
            Seq<char>,
        >::empty());
    } else {
        let i = (n - 1) as nat;
        lemma_valid_trace_replays_cleanly(trace, facts, turns, tolerance, i);
        let len = trace.records@.len();
        assert(crate::evidence::replay_failures_upto(trace, facts, len).len() == 0);
        crate::evidence::lemma_replay_steps_clean(trace, facts, len);
        assert(crate::evidence::replay_failures_at(trace, facts, i).len() == 0);
        let r = trace.records@[i as int];
        let f = facts.records@[i as int];
        let m = crate::evidence::replayed_model_upto(trace, facts, i);
        assert(r.subject_output.lifecycle is Faulted <==> r.subject_output@.lifecycle is Faulted);
        let (m2, d) = crate::evidence::replay_record(m, r, f);
        let out = turns[i as int].0->Completed_0;
        assert(out@ == r.subject_output@);
        assert(out.gate == r.subject_output.gate);
        assert(out.lifecycle@ == r.subject_output.lifecycle@);
        assert(completed_turn(before_turn(m, r), r, out, turns[i as int].1, i, tolerance).0 == m2);
        assert(output_differences(r.subject_output, out, true, true, i, tolerance) =~= Seq::<
            Seq<char>,
        >::empty());
        assert(gate_differences(r.subject_output.gate, out.gate, true, i) =~= Seq::<
            Seq<char>,
        >::empty());
        assert(disposition_differences(r.safety_disposition, d, true, i) =~= Seq::<
            Seq<char>,
        >::empty());
        assert(completed_turn(before_turn(m, r), r, out, turns[i as int].1, i, tolerance).1
            =~= Seq::<Seq<char>>::empty());
    }
}

/// The states of the reference subject configured with the trace's subject
/// configuration and driven by the first `n` recorded inputs, each turn
/// with its verdicts in `turn_facts`.
pub open spec fn reference_states<S, C, B, Q>(
    trace: SemanticTraceV0<S, C, B, Q>,
    turn_facts: Seq<TurnFacts<C>>,
    n: nat,
) -> ReferenceSubjectSnapshotV0<B>
    decreases n,
{
    if n == 0 {
        configured(trace.subject_config)
    } else {
        reference_states(trace, turn_facts, (n - 1) as nat).spec_step(
            trace.records@[n - 1].subject_input,
            turn_facts[n - 1],
        ).0
    }
}

/// What the reference subject answers to recorded input `i`, from the
/// state the earlier recorded inputs left it in.
pub open spec fn reference_answer<S, C, B, Q>(
    trace: SemanticTraceV0<S, C, B, Q>,
    turn_facts: Seq<TurnFacts<C>>,
    i: nat,
) -> Result<crate::contracts::OutputModel<S, C>, crate::reference::SubjectErrorModel> {
    reference_states(trace, turn_facts, i).spec_step(trace.records@[i as int].subject_input, turn_facts[i as int]).1
}

/// The reference subject replays its own run: when a valid trace records
/// what the reference subject answered, turn by turn, from the reset with
/// the trace's (accepted) subject configuration, then a replay against a
/// reference subject reset with that configuration (which the reset
/// accepts) and stepped with the recorded inputs (which it answers as
/// before, a turn being a function of the state and the input) finds no
/// difference, never stops, and follows the controller that validation
/// replays, provided the floating-point comparisons of each replayed turn
/// are favourable.
pub proof fn lemma_reference_subject_replays_own_trace<S, C, B, Q>(
    trace: SemanticTraceV0<S, C, B, Q>,
    facts: TraceFacts,
    config_facts: crate::reference::ConfigFacts,
    turn_facts: Seq<TurnFacts<C>>,
    turns: Seq<(StepOutcome<S, C>, ReplayTurnFacts)>,
    tolerance: Seq<char>,
)
    requires
        facts.records@.len() == trace.records@.len(),
        trace_failures(trace, facts).len() == 0,
        crate::reference::spec_validate_config(trace.subject_config, config_facts) is None,
        turn_facts.len() == trace.records@.len(),
        turns.len() == trace.records@.len(),
        forall|i: nat|
            i < trace.records@.len() ==> #[trigger] reference_answer(trace, turn_facts, i) == Ok::<
                crate::contracts::OutputModel<S, C>,
                crate::reference::SubjectErrorModel,
            >(trace.records@[i as int].subject_output@),
        forall|i: int|
            0 <= i < turns.len() ==> ((#[trigger] turns[i]).0 matches StepOutcome::Completed(out)
                && Ok::<crate::contracts::OutputModel<S, C>, crate::reference::SubjectErrorModel>(
                out@,
            ) == reference_answer(trace, turn_facts, i as nat)),
        forall|i: int|
            0 <= i < turns.len() ==> {
                let v = (#[trigger] turns[i]).1;
                &&& v.estimate_close
                &&& v.proposal_command_close
                &&& v.gate_command_close
                &&& v.actuation_command_close
                &&& v.checks == facts.records@[i].safety
            },
    ensures
        replay_through(
            trace,
            facts,
            ResetOutcome::Accepted,
            turns,
            tolerance,
            trace.records@.len(),
        ) == (ReplayModel {
            safety: crate::evidence::replayed_model_upto(trace, facts, trace.records@.len()),
            differences: Seq::<Seq<char>>::empty(),
            halted: false,
        }),
{
    assert forall|i: int| 0 <= i < turns.len() implies faithful_turn(
        trace.records@[i],
        #[trigger] turns[i],
        facts.records@[i],
    ) by {
        assert(reference_answer(trace, turn_facts, i as nat) == Ok::<
            crate::contracts::OutputModel<S, C>,
            crate::reference::SubjectErrorModel,
        >(trace.records@[i].subject_output@));
    }
    lemma_valid_trace_replays_cleanly(trace, facts, turns, tolerance, trace.records@.len());
}

} // verus!
