//! Semantic comparison of two traces: every discrete field must agree
//! exactly, and every floating-point payload within the trace's tolerance.
use vstd::prelude::*;

use crate::contracts::{
    EnvelopeV0, GateDecisionV0, SafetyDispositionV0, SemanticTraceV0, SubjectConfigV0,
    SubjectInputV0, SubjectOutputV0, TraceRecordV0,
};
use crate::evidence::{
    same_summary, summaries_equal, trace_failures, validate_trace_evidence, TraceFacts,
};
use crate::harness::ComparisonReport;
use crate::text::{
    absorb, absorb_prefixed, check, decimal, decimal_text, join, no_failures, note, owned,
    prefixed, same_text, texts,
};

verus! {

/// Verdicts on the floating-point payloads of one pair of records, each
/// "close" meaning both values are finite and within the trace's tolerance
/// (physics tolerance for states, control tolerance for commands). A
/// verdict on an optional payload matters only when both records carry it.
#[derive(Debug, Clone, Copy, PartialEq, Eq, Structural)]
pub struct PairFacts {
    pub observation_close: bool,
    pub sensor_payload_close: bool,
    pub setpoint_command_close: bool,
    pub estimate_close: bool,
    pub proposal_command_close: bool,
    pub gate_command_close: bool,
    pub actuation_command_close: bool,
    pub plant_state_close: bool,
}

/// Verdicts on the floating-point parts of two traces.
#[derive(Debug, Clone, PartialEq, Eq)]
pub struct ComparisonFacts {
    /// The initial states, the motion gate and safety bounds, and the equality
    /// tolerances of the two traces are equal.
    pub header_payloads_equal: bool,
    /// The two record lists are equal as values, floating-point fields
    /// compared with `==`.
    pub records_identical: bool,
    /// The left trace's physics tolerance, rendered as `f64` displays it.
    pub physics_tolerance_text: String,
    /// One entry per pair of records compared, in order.
    pub pairs: Vec<PairFacts>,
}

/// `prefix` followed by the record index.
pub open spec fn at_record(prefix: Seq<char>, i: nat) -> Seq<char> {
    prefix + decimal_text(i)
}

/// The message of a state outside tolerance: `label` names it at record `i`.
pub open spec fn beyond(label: Seq<char>, i: nat, tolerance: Seq<char>) -> Seq<char> {
    label + " at record "@ + decimal_text(i) + " differs beyond tolerance "@ + tolerance
}

pub open spec fn envelope_meta_differs<T>(a: EnvelopeV0<T>, b: EnvelopeV0<T>) -> bool {
    ||| a.clock_epoch != b.clock_epoch
    ||| a.source_epoch != b.source_epoch
    ||| a.sequence != b.sequence
    ||| a.captured_at_ns != b.captured_at_ns
    ||| a.valid_until_ns != b.valid_until_ns
    ||| a.validity != b.validity
}

/// Differences of one optional stream frame: presence, envelope, payload.
pub open spec fn frame_differences<T>(
    a: Option<EnvelopeV0<T>>,
    b: Option<EnvelopeV0<T>>,
    envelope_prefix: Seq<char>,
    presence_prefix: Seq<char>,
    payload_message: Seq<char>,
    payload_close: bool,
    i: nat,
) -> Seq<Seq<char>> {
    match (a, b) {
        (Some(x), Some(y)) => check(envelope_meta_differs(x, y), at_record(envelope_prefix, i))
            + check(!payload_close, payload_message),
        (None, None) => seq![],
        _ => seq![at_record(presence_prefix, i)],
    }
}

/// Differences of two subject inputs at record `i`.
pub open spec fn input_differences<S, C>(
    a: SubjectInputV0<S, C>,
    b: SubjectInputV0<S, C>,
    f: PairFacts,
    i: nat,
    tolerance: Seq<char>,
) -> Seq<Seq<char>> {
    check(
        a.tick != b.tick || a.time_ns != b.time_ns || a.safety_status != b.safety_status
            || a.proposal_fault != b.proposal_fault,
        at_record("subject input metadata differs at record "@, i),
    ) + frame_differences(
        a.sensor,
        b.sensor,
        "sensor envelope differs at record "@,
        "sensor presence differs at record "@,
        beyond("sensor payload"@, i, tolerance),
        f.sensor_payload_close,
        i,
    ) + frame_differences(
        a.setpoint,
        b.setpoint,
        "setpoint envelope differs at record "@,
        "setpoint presence differs at record "@,
        at_record("command values differ at record "@, i),
        f.setpoint_command_close,
        i,
    )
}

/// Differences of two subject outputs at record `i`: lifecycle, estimate
/// and control proposal.
pub open spec fn output_differences<S, C>(
    a: SubjectOutputV0<S, C>,
    b: SubjectOutputV0<S, C>,
    estimate_close: bool,
    proposal_close: bool,
    i: nat,
    tolerance: Seq<char>,
) -> Seq<Seq<char>> {
    check(a.lifecycle@ != b.lifecycle@, at_record("subject lifecycle differs at record "@, i))
        + match (a.estimate, b.estimate) {
        (Some(_), Some(_)) => check(!estimate_close, beyond("subject estimate"@, i, tolerance)),
        (None, None) => seq![],
        _ => seq![at_record("subject estimate presence differs at record "@, i)],
    } + match (a.control, b.control) {
        (Some(x), Some(y)) => check(
            x.clock_epoch != y.clock_epoch || x.source_epoch != y.source_epoch || x.sequence
                != y.sequence || x.source_sensor_epoch != y.source_sensor_epoch
                || x.source_sensor_sequence != y.source_sensor_sequence || x.captured_at_ns
                != y.captured_at_ns || x.valid_until_ns != y.valid_until_ns,
            at_record("control proposal metadata differs at record "@, i),
        ) + check(!proposal_close, at_record("command values differ at record "@, i)),
        (None, None) => seq![],
        _ => seq![at_record("control proposal presence differs at record "@, i)],
    }
}

/// Differences of two gate decisions at record `i`.
pub open spec fn gate_differences<C>(
    a: GateDecisionV0<C>,
    b: GateDecisionV0<C>,
    command_close: bool,
    i: nat,
) -> Seq<Seq<char>> {
    match (a, b) {
        (GateDecisionV0::NoCommand, GateDecisionV0::NoCommand) => seq![],
        (GateDecisionV0::Denied { reason: x }, GateDecisionV0::Denied { reason: y }) => check(
            x != y,
            at_record("gate decision differs at record "@, i),
        ),
        (
            GateDecisionV0::Admitted { intent: x, limited: lx },
            GateDecisionV0::Admitted { intent: y, limited: ly },
        ) => check(
            x.clock_epoch != y.clock_epoch || x.source_epoch != y.source_epoch || x.sequence
                != y.sequence || x.permit_epoch != y.permit_epoch || x.captured_at_ns
                != y.captured_at_ns || x.valid_until_ns != y.valid_until_ns || lx != ly,
            at_record("gate metadata differs at record "@, i),
        ) + check(!command_close, at_record("command values differ at record "@, i)),
        _ => seq![at_record("gate decision differs at record "@, i)],
    }
}

/// Differences of two safety dispositions at record `i`.
pub open spec fn disposition_differences<C>(
    a: SafetyDispositionV0<C>,
    b: SafetyDispositionV0<C>,
    command_close: bool,
    i: nat,
) -> Seq<Seq<char>> {
    match (a, b) {
        (
            SafetyDispositionV0::Suppressed { reason: x },
            SafetyDispositionV0::Suppressed { reason: y },
        ) => check(x != y, at_record("safety disposition differs at record "@, i)),
        (
            SafetyDispositionV0::Authorized { actuation: x },
            SafetyDispositionV0::Authorized { actuation: y },
        ) => check(
            x.tick != y.tick || x.time_ns != y.time_ns || x.permit_epoch != y.permit_epoch
                || x.intent_sequence != y.intent_sequence,
            at_record("actuation metadata differs at record "@, i),
        ) + check(!command_close, at_record("command values differ at record "@, i)),
        _ => seq![at_record("safety disposition differs at record "@, i)],
    }
}

/// Differences of the `i`-th pair of records.
pub open spec fn pair_differences<S, C>(
    a: TraceRecordV0<S, C>,
    b: TraceRecordV0<S, C>,
    f: PairFacts,
    i: nat,
    tolerance: Seq<char>,
) -> Seq<Seq<char>> {
    check(a.tick != b.tick || a.time_ns != b.time_ns, at_record("tick/time differs at record "@, i))
        + check(
        a.safety_actions@ != b.safety_actions@ || a.active_faults@ != b.active_faults@,
        at_record("scheduled events differ at record "@, i),
    ) + check(!f.observation_close, beyond("safety observation"@, i, tolerance))
        + input_differences(a.subject_input, b.subject_input, f, i, tolerance)
        + output_differences(
        a.subject_output,
        b.subject_output,
        f.estimate_close,
        f.proposal_command_close,
        i,
        tolerance,
    ) + gate_differences(a.subject_output.gate, b.subject_output.gate, f.gate_command_close, i)
        + disposition_differences(
        a.safety_disposition,
        b.safety_disposition,
        f.actuation_command_close,
        i,
    ) + check(
        a.safety_controller_after != b.safety_controller_after,
        at_record("safety-controller state differs at record "@, i),
    ) + check(!f.plant_state_close, beyond("plant state"@, i, tolerance))
}

/// Differences of the first `n` pairs of records.
pub open spec fn pairs_differences_upto<S, C, B, Q>(
    left: SemanticTraceV0<S, C, B, Q>,
    right: SemanticTraceV0<S, C, B, Q>,
    facts: ComparisonFacts,
    n: nat,
) -> Seq<Seq<char>>
    decreases n,
{
    if n == 0 {
        seq![]
    } else {
        let i = (n - 1) as nat;
        pairs_differences_upto(left, right, facts, i) + pair_differences(
            left.records@[i as int],
            right.records@[i as int],
            facts.pairs@[i as int],
            i,
            facts.physics_tolerance_text@,
        )
    }
}

/// The discrete parts of two subject configurations agree.
pub open spec fn configs_agree<S, B>(a: SubjectConfigV0<S, B>, b: SubjectConfigV0<S, B>) -> bool {
    &&& a.schema_version == b.schema_version
    &&& a.contract@ == b.contract@
    &&& a.profile@ == b.profile@
    &&& a.clock_epoch == b.clock_epoch
    &&& a.sensor_source_epoch == b.sensor_source_epoch
    &&& a.setpoint_source_epoch == b.setpoint_source_epoch
    &&& a.subject_source_epoch == b.subject_source_epoch
    &&& a.safety_source_epoch == b.safety_source_epoch
    &&& a.tick_period_ns == b.tick_period_ns
    &&& a.gate_policy.sensor_max_age_ns == b.gate_policy.sensor_max_age_ns
    &&& a.gate_policy.safety_max_age_ns == b.gate_policy.safety_max_age_ns
    &&& a.gate_policy.setpoint_max_age_ns == b.gate_policy.setpoint_max_age_ns
    &&& a.gate_policy.proposal_ttl_ns == b.gate_policy.proposal_ttl_ns
}

/// The provenance and execution profile of two traces agree: everything in
/// their headers but the subject's identity.
pub open spec fn headers_agree<S, C, B, Q>(
    l: SemanticTraceV0<S, C, B, Q>,
    r: SemanticTraceV0<S, C, B, Q>,
    payloads_equal: bool,
) -> bool {
    &&& l.schema_version == r.schema_version
    &&& l.contract@ == r.contract@
    &&& l.profile@ == r.profile@
    &&& l.scenario_name@ == r.scenario_name@
    &&& l.scenario_sha256@ == r.scenario_sha256@
    &&& l.model_digest@ == r.model_digest@
    &&& l.seed@ == r.seed@
    &&& l.tick_period_ns == r.tick_period_ns
    &&& l.expected_ticks == r.expected_ticks
    &&& configs_agree(l.subject_config, r.subject_config)
    &&& l.safety_policy.intent_max_age_ns == r.safety_policy.intent_max_age_ns
    &&& l.safety_policy.heartbeat_timeout_ns == r.safety_policy.heartbeat_timeout_ns
    &&& l.plant_id@ == r.plant_id@
    &&& l.equality.require_exact_discrete_trace == r.equality.require_exact_discrete_trace
    &&& l.equality.require_bit_exact_mock_trace == r.equality.require_bit_exact_mock_trace
    &&& payloads_equal
}

/// The identity of the mock plant, whose traces can be compared bit for bit.
pub const MOCK_PLANT_ID: &'static str = "so101-mock";

/// Both traces come from the mock plant and the left one asks for a
/// bit-exact comparison.
pub open spec fn bit_exact_mode<S, C, B, Q>(
    l: SemanticTraceV0<S, C, B, Q>,
    r: SemanticTraceV0<S, C, B, Q>,
) -> bool {
    l.equality.require_bit_exact_mock_trace && l.plant_id@ == MOCK_PLANT_ID@ && r.plant_id@
        == MOCK_PLANT_ID@
}

/// The number of record pairs compared.
pub open spec fn pair_count<S, C, B, Q>(
    l: SemanticTraceV0<S, C, B, Q>,
    r: SemanticTraceV0<S, C, B, Q>,
) -> nat {
    if l.records@.len() <= r.records@.len() {
        l.records@.len()
    } else {
        r.records@.len()
    }
}

/// The evidence failures of both traces, each behind the side it concerns.
#[verifier::opaque]
pub open spec fn evidence_differences<S, C, B, Q>(
    l: SemanticTraceV0<S, C, B, Q>,
    r: SemanticTraceV0<S, C, B, Q>,
    left_facts: TraceFacts,
    right_facts: TraceFacts,
) -> Seq<Seq<char>> {
    prefixed("left trace: "@, trace_failures(l, left_facts)) + prefixed(
        "right trace: "@,
        trace_failures(r, right_facts),
    )
}

/// The differences of the records and summaries of two traces.
#[verifier::opaque]
pub open spec fn content_differences<S, C, B, Q>(
    l: SemanticTraceV0<S, C, B, Q>,
    r: SemanticTraceV0<S, C, B, Q>,
    facts: ComparisonFacts,
) -> Seq<Seq<char>> {
    if bit_exact_mode(l, r) {
        check(!facts.records_identical, "bit-exact mock records differ"@) + check(
            !summaries_equal(l.summary, r.summary),
            "run summaries differ"@,
        )
    } else {
        check(
            l.records@.len() != r.records@.len(),
            "record count differs: "@ + decimal_text(l.records@.len()) + " != "@ + decimal_text(
                r.records@.len(),
            ),
        ) + pairs_differences_upto(l, r, facts, pair_count(l, r)) + check(
            !summaries_equal(l.summary, r.summary),
            "run summaries differ"@,
        )
    }
}

/// Every difference `compare_semantic_traces` reports, in order.
pub open spec fn comparison_differences<S, C, B, Q>(
    l: SemanticTraceV0<S, C, B, Q>,
    r: SemanticTraceV0<S, C, B, Q>,
    left_facts: TraceFacts,
    right_facts: TraceFacts,
    facts: ComparisonFacts,
) -> Seq<Seq<char>> {
    evidence_differences(l, r, left_facts, right_facts) + check(
        !headers_agree(l, r, facts.header_payloads_equal),
        "trace provenance or execution profile differs"@,
    ) + content_differences(l, r, facts)
}

} // verus!

verus! {

fn record_label(prefix: &str, i: usize) -> (r: String)
    ensures
        r@ == at_record(prefix@, i as nat),
{
    join(owned(prefix), decimal(i as u64).as_str())
}

fn beyond_label(label: &str, i: usize, tolerance: &str) -> (r: String)
    ensures
        r@ == beyond(label@, i as nat, tolerance@),
{
    let m = join(owned(label), " at record ");
    let m = join(m, decimal(i as u64).as_str());
    let m = join(m, " differs beyond tolerance ");
    join(m, tolerance)
}

fn envelope_meta_differ<T>(a: &EnvelopeV0<T>, b: &EnvelopeV0<T>) -> (r: bool)
    ensures
        r == envelope_meta_differs(*a, *b),
{
    a.clock_epoch != b.clock_epoch || a.source_epoch != b.source_epoch || a.sequence != b.sequence
        || a.captured_at_ns != b.captured_at_ns || a.valid_until_ns != b.valid_until_ns
        || a.validity != b.validity
}

fn frame_checks<T>(
    a: &Option<EnvelopeV0<T>>,
    b: &Option<EnvelopeV0<T>>,
    envelope_prefix: &str,
    presence_prefix: &str,
    payload_message: String,
    payload_close: bool,
    i: usize,
    out: &mut Vec<String>,
)
    ensures
        texts(final(out)@) == texts(old(out)@) + frame_differences(
            *a,
            *b,
            envelope_prefix@,
            presence_prefix@,
            payload_message@,
            payload_close,
            i as nat,
        ),
{
    let mut local = no_failures();
    match (a, b) {
        (Some(x), Some(y)) => {
            note(&mut local, envelope_meta_differ(x, y), record_label(envelope_prefix, i));
            note(&mut local, !payload_close, payload_message);
        },
        (None, None) => {},
        _ => {
            note(&mut local, true, record_label(presence_prefix, i));
        },
    }
    absorb(out, local);
}

fn same_status_frame(
    a: &Option<crate::contracts::SafetyStatusFrameV0>,
    b: &Option<crate::contracts::SafetyStatusFrameV0>,
) -> (r: bool)
    ensures
        r == (*a == *b),
{
    match (a, b) {
        (Some(x), Some(y)) => !envelope_meta_differ(x, y) && x.payload == y.payload,
        (None, None) => true,
        _ => false,
    }
}

fn same_proposal_fault(
    a: Option<crate::contracts::ProposalFaultV0>,
    b: Option<crate::contracts::ProposalFaultV0>,
) -> (r: bool)
    ensures
        r == (a == b),
{
    match (a, b) {
        (Some(x), Some(y)) => x == y,
        (None, None) => true,
        _ => false,
    }
}

fn input_checks<S, C>(
    a: &SubjectInputV0<S, C>,
    b: &SubjectInputV0<S, C>,
    f: PairFacts,
    i: usize,
    tolerance: &str,
    out: &mut Vec<String>,
)
    ensures
        texts(final(out)@) == texts(old(out)@) + input_differences(*a, *b, f, i as nat, tolerance@),
{
    let mut local = no_failures();
    note(
        &mut local,
        a.tick != b.tick || a.time_ns != b.time_ns || !same_status_frame(
            &a.safety_status,
            &b.safety_status,
        ) || !same_proposal_fault(a.proposal_fault, b.proposal_fault),
        record_label("subject input metadata differs at record ", i),
    );
    frame_checks(
        &a.sensor,
        &b.sensor,
        "sensor envelope differs at record ",
        "sensor presence differs at record ",
        beyond_label("sensor payload", i, tolerance),
        f.sensor_payload_close,
        i,
        &mut local,
    );
    frame_checks(
        &a.setpoint,
        &b.setpoint,
        "setpoint envelope differs at record ",
        "setpoint presence differs at record ",
        record_label("command values differ at record ", i),
        f.setpoint_command_close,
        i,
        &mut local,
    );
    assert(texts(local@) =~= input_differences(*a, *b, f, i as nat, tolerance@));
    absorb(out, local);
}

fn lifecycles_differ(a: &crate::contracts::SubjectLifecycleV0, b: &crate::contracts::SubjectLifecycleV0) -> (r: bool)
    ensures
        r == (a@ != b@),
{
    match (a, b) {
        (
            crate::contracts::SubjectLifecycleV0::Running,
            crate::contracts::SubjectLifecycleV0::Running,
        ) => false,
        (
            crate::contracts::SubjectLifecycleV0::Faulted { reason: x },
            crate::contracts::SubjectLifecycleV0::Faulted { reason: y },
        ) => !same_text(x.as_str(), y.as_str()),
        _ => true,
    }
}

pub(crate) fn output_checks<S, C>(
    a: &SubjectOutputV0<S, C>,
    b: &SubjectOutputV0<S, C>,
    estimate_close: bool,
    proposal_close: bool,
    i: usize,
    tolerance: &str,
    out: &mut Vec<String>,
)
    ensures
        texts(final(out)@) == texts(old(out)@) + output_differences(
            *a,
            *b,
            estimate_close,
            proposal_close,
            i as nat,
            tolerance@,
        ),
{
    let mut local = no_failures();
    note(
        &mut local,
        lifecycles_differ(&a.lifecycle, &b.lifecycle),
        record_label("subject lifecycle differs at record ", i),
    );
    match (&a.estimate, &b.estimate) {
        (Some(_), Some(_)) => {
            note(&mut local, !estimate_close, beyond_label("subject estimate", i, tolerance));
        },
        (None, None) => {},
        _ => {
            note(&mut local, true, record_label("subject estimate presence differs at record ", i));
        },
    }
    match (&a.control, &b.control) {
        (Some(x), Some(y)) => {
            note(
                &mut local,
                x.clock_epoch != y.clock_epoch || x.source_epoch != y.source_epoch || x.sequence
                    != y.sequence || x.source_sensor_epoch != y.source_sensor_epoch
                    || x.source_sensor_sequence != y.source_sensor_sequence || x.captured_at_ns
                    != y.captured_at_ns || x.valid_until_ns != y.valid_until_ns,
                record_label("control proposal metadata differs at record ", i),
            );
            note(&mut local, !proposal_close, record_label("command values differ at record ", i));
        },
        (None, None) => {},
        _ => {
            note(&mut local, true, record_label("control proposal presence differs at record ", i));
        },
    }
    absorb(out, local);
}

pub(crate) fn gate_checks<C>(
    a: &GateDecisionV0<C>,
    b: &GateDecisionV0<C>,
    command_close: bool,
    i: usize,
    out: &mut Vec<String>,
)
    ensures
        texts(final(out)@) == texts(old(out)@) + gate_differences(*a, *b, command_close, i as nat),
{
    let mut local = no_failures();
    match (a, b) {
        (GateDecisionV0::NoCommand, GateDecisionV0::NoCommand) => {},
        (GateDecisionV0::Denied { reason: x }, GateDecisionV0::Denied { reason: y }) => {
            note(&mut local, *x != *y, record_label("gate decision differs at record ", i));
        },
        (
            GateDecisionV0::Admitted { intent: x, limited: lx },
            GateDecisionV0::Admitted { intent: y, limited: ly },
        ) => {
            note(
                &mut local,
                x.clock_epoch != y.clock_epoch || x.source_epoch != y.source_epoch || x.sequence
                    != y.sequence || x.permit_epoch != y.permit_epoch || x.captured_at_ns
                    != y.captured_at_ns || x.valid_until_ns != y.valid_until_ns || *lx != *ly,
                record_label("gate metadata differs at record ", i),
            );
            note(&mut local, !command_close, record_label("command values differ at record ", i));
        },
        _ => {
            note(&mut local, true, record_label("gate decision differs at record ", i));
        },
    }
    absorb(out, local);
}

pub(crate) fn disposition_checks<C>(
    a: &SafetyDispositionV0<C>,
    b: &SafetyDispositionV0<C>,
    command_close: bool,
    i: usize,
    out: &mut Vec<String>,
)
    ensures
        texts(final(out)@) == texts(old(out)@) + disposition_differences(
            *a,
            *b,
            command_close,
            i as nat,
        ),
{
    let mut local = no_failures();
    match (a, b) {
        (
            SafetyDispositionV0::Suppressed { reason: x },
            SafetyDispositionV0::Suppressed { reason: y },
        ) => {
            note(&mut local, *x != *y, record_label("safety disposition differs at record ", i));
        },
        (
            SafetyDispositionV0::Authorized { actuation: x },
            SafetyDispositionV0::Authorized { actuation: y },
        ) => {
            note(
                &mut local,
                x.tick != y.tick || x.time_ns != y.time_ns || x.permit_epoch != y.permit_epoch
                    || x.intent_sequence != y.intent_sequence,
                record_label("actuation metadata differs at record ", i),
            );
            note(&mut local, !command_close, record_label("command values differ at record ", i));
        },
        _ => {
            note(&mut local, true, record_label("safety disposition differs at record ", i));
        },
    }
    absorb(out, local);
}

} // verus!

verus! {

fn pair_checks<S, C>(
    a: &TraceRecordV0<S, C>,
    b: &TraceRecordV0<S, C>,
    f: PairFacts,
    i: usize,
    tolerance: &str,
    out: &mut Vec<String>,
)
    ensures
        texts(final(out)@) == texts(old(out)@) + pair_differences(*a, *b, f, i as nat, tolerance@),
{
    let mut local = no_failures();
    note(
        &mut local,
        a.tick != b.tick || a.time_ns != b.time_ns,
        record_label("tick/time differs at record ", i),
    );
    note(
        &mut local,
        !same_actions(&a.safety_actions, &b.safety_actions) || !same_faults(
            &a.active_faults,
            &b.active_faults,
        ),
        record_label("scheduled events differ at record ", i),
    );
    note(&mut local, !f.observation_close, beyond_label("safety observation", i, tolerance));
    input_checks(&a.subject_input, &b.subject_input, f, i, tolerance, &mut local);
    output_checks(
        &a.subject_output,
        &b.subject_output,
        f.estimate_close,
        f.proposal_command_close,
        i,
        tolerance,
        &mut local,
    );
    gate_checks(&a.subject_output.gate, &b.subject_output.gate, f.gate_command_close, i, &mut local);
    disposition_checks(
        &a.safety_disposition,
        &b.safety_disposition,
        f.actuation_command_close,
        i,
        &mut local,
    );
    note(
        &mut local,
        a.safety_controller_after != b.safety_controller_after,
        record_label("safety-controller state differs at record ", i),
    );
    note(&mut local, !f.plant_state_close, beyond_label("plant state", i, tolerance));
    assert(texts(local@) =~= pair_differences(*a, *b, f, i as nat, tolerance@));
    absorb(out, local);
}

fn same_actions(
    a: &Vec<crate::contracts::SafetyActionV0>,
    b: &Vec<crate::contracts::SafetyActionV0>,
) -> (r: bool)
    ensures
        r == (a@ == b@),
{
    let n = a.len();
    if n != b.len() {
        return false;
    }
    let mut i: usize = 0;
    while i < n
        invariant
            n == a@.len(),
            n == b@.len(),
            i <= n,
            forall|k: int| 0 <= k < i ==> a@[k] == b@[k],
        decreases n - i,
    {
        if a[i] != b[i] {
            return false;
        }
        i = i + 1;
    }
    assert(a@ =~= b@);
    true
}

fn same_faults(
    a: &Vec<crate::contracts::FaultKindV0>,
    b: &Vec<crate::contracts::FaultKindV0>,
) -> (r: bool)
    ensures
        r == (a@ == b@),
{
    let n = a.len();
    if n != b.len() {
        return false;
    }
    let mut i: usize = 0;
    while i < n
        invariant
            n == a@.len(),
            n == b@.len(),
            i <= n,
            forall|k: int| 0 <= k < i ==> a@[k] == b@[k],
        decreases n - i,
    {
        if a[i] != b[i] {
            return false;
        }
        i = i + 1;
    }
    assert(a@ =~= b@);
    true
}

fn configs_agree_exec<S, B>(a: &SubjectConfigV0<S, B>, b: &SubjectConfigV0<S, B>) -> (r: bool)
    ensures
        r == configs_agree(*a, *b),
{
    a.schema_version == b.schema_version && same_text(a.contract.as_str(), b.contract.as_str())
        && same_text(a.profile.as_str(), b.profile.as_str()) && a.clock_epoch == b.clock_epoch
        && a.sensor_source_epoch == b.sensor_source_epoch && a.setpoint_source_epoch
        == b.setpoint_source_epoch && a.subject_source_epoch == b.subject_source_epoch
        && a.safety_source_epoch == b.safety_source_epoch && a.tick_period_ns == b.tick_period_ns
        && a.gate_policy.sensor_max_age_ns == b.gate_policy.sensor_max_age_ns
        && a.gate_policy.safety_max_age_ns == b.gate_policy.safety_max_age_ns
        && a.gate_policy.setpoint_max_age_ns == b.gate_policy.setpoint_max_age_ns
        && a.gate_policy.proposal_ttl_ns == b.gate_policy.proposal_ttl_ns
}

fn headers_agree_exec<S, C, B, Q>(
    l: &SemanticTraceV0<S, C, B, Q>,
    r: &SemanticTraceV0<S, C, B, Q>,
    payloads_equal: bool,
) -> (b: bool)
    ensures
        b == headers_agree(*l, *r, payloads_equal),
{
    l.schema_version == r.schema_version && same_text(l.contract.as_str(), r.contract.as_str())
        && same_text(l.profile.as_str(), r.profile.as_str()) && same_text(
        l.scenario_name.as_str(),
        r.scenario_name.as_str(),
    ) && same_text(l.scenario_sha256.as_str(), r.scenario_sha256.as_str()) && same_text(
        l.model_digest.as_str(),
        r.model_digest.as_str(),
    ) && same_text(l.seed.as_str(), r.seed.as_str()) && l.tick_period_ns == r.tick_period_ns
        && l.expected_ticks == r.expected_ticks && configs_agree_exec(
        &l.subject_config,
        &r.subject_config,
    ) && l.safety_policy.intent_max_age_ns == r.safety_policy.intent_max_age_ns
        && l.safety_policy.heartbeat_timeout_ns == r.safety_policy.heartbeat_timeout_ns
        && same_text(l.plant_id.as_str(), r.plant_id.as_str())
        && l.equality.require_exact_discrete_trace == r.equality.require_exact_discrete_trace
        && l.equality.require_bit_exact_mock_trace == r.equality.require_bit_exact_mock_trace
        && payloads_equal
}

fn evidence_checks<S, C: Copy, B: Copy, Q>(
    left: &SemanticTraceV0<S, C, B, Q>,
    right: &SemanticTraceV0<S, C, B, Q>,
    left_facts: &TraceFacts,
    right_facts: &TraceFacts,
    out: &mut Vec<String>,
)
    requires
        left_facts.records@.len() == left.records@.len(),
        right_facts.records@.len() == right.records@.len(),
    ensures
        texts(final(out)@) == texts(old(out)@) + evidence_differences(
            *left,
            *right,
            *left_facts,
            *right_facts,
        ),
{
    reveal(evidence_differences);
    let mut local = no_failures();
    match validate_trace_evidence(left, left_facts) {
        Ok(()) => {
            assert(prefixed("left trace: "@, trace_failures(*left, *left_facts)) =~= Seq::<
                Seq<char>,
            >::empty());
        },
        Err(failures) => absorb_prefixed(&mut local, "left trace: ", &failures),
    }
    match validate_trace_evidence(right, right_facts) {
        Ok(()) => {
            assert(prefixed("right trace: "@, trace_failures(*right, *right_facts)) =~= Seq::<
                Seq<char>,
            >::empty());
        },
        Err(failures) => absorb_prefixed(&mut local, "right trace: ", &failures),
    }
    assert(texts(local@) =~= evidence_differences(*left, *right, *left_facts, *right_facts));
    absorb(out, local);
}

fn pairs_checks<S, C, B, Q>(
    left: &SemanticTraceV0<S, C, B, Q>,
    right: &SemanticTraceV0<S, C, B, Q>,
    facts: &ComparisonFacts,
    out: &mut Vec<String>,
)
    requires
        facts.pairs@.len() == pair_count(*left, *right),
    ensures
        texts(final(out)@) == texts(old(out)@) + pairs_differences_upto(
            *left,
            *right,
            *facts,
            pair_count(*left, *right),
        ),
{
    let ghost start = texts(out@);
    let nl = left.records.len();
    let nr = right.records.len();
    let n = if nl <= nr {
        nl
    } else {
        nr
    };
    let mut i: usize = 0;
    while i < n
        invariant
            n == pair_count(*left, *right),
            n <= left.records@.len(),
            n <= right.records@.len(),
            facts.pairs@.len() == n,
            i <= n,
            texts(out@) == start + pairs_differences_upto(*left, *right, *facts, i as nat),
        decreases n - i,
    {
        pair_checks(
            &left.records[i],
            &right.records[i],
            facts.pairs[i],
            i,
            facts.physics_tolerance_text.as_str(),
            out,
        );
        assert(texts(out@) =~= start + pairs_differences_upto(
            *left,
            *right,
            *facts,
            (i + 1) as nat,
        ));
        i = i + 1;
    }
}

fn content_checks<S, C, B, Q>(
    left: &SemanticTraceV0<S, C, B, Q>,
    right: &SemanticTraceV0<S, C, B, Q>,
    facts: &ComparisonFacts,
    out: &mut Vec<String>,
)
    requires
        facts.pairs@.len() == pair_count(*left, *right),
    ensures
        texts(final(out)@) == texts(old(out)@) + content_differences(*left, *right, *facts),
{
    reveal(content_differences);
    let mut local = no_failures();
    if left.equality.require_bit_exact_mock_trace && same_text(left.plant_id.as_str(), MOCK_PLANT_ID)
        && same_text(right.plant_id.as_str(), MOCK_PLANT_ID) {
        note(&mut local, !facts.records_identical, owned("bit-exact mock records differ"));
        note(
            &mut local,
            !same_summary(&left.summary, &right.summary),
            owned("run summaries differ"),
        );
    } else {
        let nl = left.records.len();
        let nr = right.records.len();
        let m = join(owned("record count differs: "), decimal(nl as u64).as_str());
        let m = join(m, " != ");
        let m = join(m, decimal(nr as u64).as_str());
        note(&mut local, nl != nr, m);
        pairs_checks(left, right, facts, &mut local);
        note(
            &mut local,
            !same_summary(&left.summary, &right.summary),
            owned("run summaries differ"),
        );
    }
    assert(texts(local@) =~= content_differences(*left, *right, *facts));
    absorb(out, local);
}

/// Compares two semantic traces. Both must be valid evidence (their
/// failures are reported behind "left trace: " and "right trace: "), their
/// provenance and execution profile must agree, and then either their
/// records are identical (two mock-plant traces under a bit-exact profile)
/// or every pair of records agrees exactly in its discrete fields and
/// within tolerance in its payloads; finally their summaries must agree.
/// `facts` carries the floating-point verdicts, one entry per record pair.
pub fn compare_semantic_traces<S, C: Copy, B: Copy, Q>(
    left: &SemanticTraceV0<S, C, B, Q>,
    right: &SemanticTraceV0<S, C, B, Q>,
    left_facts: &TraceFacts,
    right_facts: &TraceFacts,
    facts: &ComparisonFacts,
) -> (r: ComparisonReport)
    requires
        left_facts.records@.len() == left.records@.len(),
        right_facts.records@.len() == right.records@.len(),
        facts.pairs@.len() == pair_count(*left, *right),
    ensures
        texts(r.differences@) == comparison_differences(
            *left,
            *right,
            *left_facts,
            *right_facts,
            *facts,
        ),
        r.equal == (r.differences@.len() == 0),
{
    let mut differences = no_failures();
    evidence_checks(left, right, left_facts, right_facts, &mut differences);
    note(
        &mut differences,
        !headers_agree_exec(left, right, facts.header_payloads_equal),
        owned("trace provenance or execution profile differs"),
    );
    content_checks(left, right, facts, &mut differences);
    assert(texts(differences@) =~= comparison_differences(
        *left,
        *right,
        *left_facts,
        *right_facts,
        *facts,
    ));
    let equal = differences.len() == 0;
    ComparisonReport { equal, differences }
}

} // verus!

verus! {

/// Every floating-point verdict of a pair is favourable.
pub open spec fn pair_agrees(f: PairFacts) -> bool {
    &&& f.observation_close
    &&& f.sensor_payload_close
    &&& f.setpoint_command_close
    &&& f.estimate_close
    &&& f.proposal_command_close
    &&& f.gate_command_close
    &&& f.actuation_command_close
    &&& f.plant_state_close
}

proof fn lemma_pair_with_itself<S, C>(a: TraceRecordV0<S, C>, f: PairFacts, i: nat, tolerance: Seq<char>)
    requires
        pair_agrees(f),
    ensures
        pair_differences(a, a, f, i, tolerance) =~= Seq::<Seq<char>>::empty(),
{
    assert(input_differences(a.subject_input, a.subject_input, f, i, tolerance) =~= Seq::<
        Seq<char>,
    >::empty());
    assert(output_differences(
        a.subject_output,
        a.subject_output,
        f.estimate_close,
        f.proposal_command_close,
        i,
        tolerance,
    ) =~= Seq::<Seq<char>>::empty());
    assert(gate_differences(a.subject_output.gate, a.subject_output.gate, f.gate_command_close, i)
        =~= Seq::<Seq<char>>::empty());
    assert(disposition_differences(
        a.safety_disposition,
        a.safety_disposition,
        f.actuation_command_close,
        i,
    ) =~= Seq::<Seq<char>>::empty());
}

proof fn lemma_pairs_with_themselves<S, C, B, Q>(
    t: SemanticTraceV0<S, C, B, Q>,
    facts: ComparisonFacts,
    n: nat,
)
    requires
        n <= t.records@.len(),
        n <= facts.pairs@.len(),
        forall|i: int| 0 <= i < facts.pairs@.len() ==> pair_agrees(#[trigger] facts.pairs@[i]),
    ensures
        pairs_differences_upto(t, t, facts, n) =~= Seq::<Seq<char>>::empty(),
    decreases n,
{
    if n > 0 {
        lemma_pairs_with_themselves(t, facts, (n - 1) as nat);
        lemma_pair_with_itself(
            t.records@[n - 1],
            facts.pairs@[n - 1],
            (n - 1) as nat,
            facts.physics_tolerance_text@,
        );
    }
}

/// A trace compared with itself, under favourable floating-point verdicts,
/// differs in nothing: the comparison reports only the evidence failures of
/// its two sides.
pub proof fn lemma_self_comparison_finds_no_difference<S, C, B, Q>(
    t: SemanticTraceV0<S, C, B, Q>,
    trace_facts: TraceFacts,
    facts: ComparisonFacts,
)
    requires
        facts.header_payloads_equal,
        facts.records_identical,
        facts.pairs@.len() == t.records@.len(),
        forall|i: int| 0 <= i < facts.pairs@.len() ==> pair_agrees(#[trigger] facts.pairs@[i]),
    ensures
        comparison_differences(t, t, trace_facts, trace_facts, facts) == evidence_differences(
            t,
            t,
            trace_facts,
            trace_facts,
        ),
        trace_failures(t, trace_facts).len() == 0 ==> comparison_differences(
            t,
            t,
            trace_facts,
            trace_facts,
            facts,
        ).len() == 0,
{
    lemma_evidence_differences_len(t, t, trace_facts, trace_facts);
    reveal(content_differences);
    lemma_pairs_with_themselves(t, facts, t.records@.len());
    assert(content_differences(t, t, facts) =~= Seq::<Seq<char>>::empty());
    assert(headers_agree(t, t, facts.header_payloads_equal));
    assert(comparison_differences(t, t, trace_facts, trace_facts, facts) =~= evidence_differences(
        t,
        t,
        trace_facts,
        trace_facts,
    ));
}

proof fn lemma_evidence_differences_len<S, C, B, Q>(
    l: SemanticTraceV0<S, C, B, Q>,
    r: SemanticTraceV0<S, C, B, Q>,
    left_facts: TraceFacts,
    right_facts: TraceFacts,
)
    ensures
        evidence_differences(l, r, left_facts, right_facts).len() == trace_failures(
            l,
            left_facts,
        ).len() + trace_failures(r, right_facts).len(),
{
    reveal(evidence_differences);
}

proof fn lemma_frame_differences_symmetric<T>(
    a: Option<EnvelopeV0<T>>,
    b: Option<EnvelopeV0<T>>,
    e: Seq<char>,
    p: Seq<char>,
    m1: Seq<char>,
    m2: Seq<char>,
    close: bool,
    i: nat,
)
    ensures
        frame_differences(a, b, e, p, m1, close, i).len() == 0 <==> frame_differences(
            b,
            a,
            e,
            p,
            m2,
            close,
            i,
        ).len() == 0,
{
}

#[verifier::spinoff_prover]
#[verifier::rlimit(40)]
proof fn lemma_pair_differences_symmetric<S, C>(
    a: TraceRecordV0<S, C>,
    b: TraceRecordV0<S, C>,
    f: PairFacts,
    i: nat,
    t1: Seq<char>,
    t2: Seq<char>,
)
    ensures
        pair_differences(a, b, f, i, t1).len() == 0 <==> pair_differences(b, a, f, i, t2).len()
            == 0,
{
    lemma_frame_differences_symmetric(
        a.subject_input.sensor,
        b.subject_input.sensor,
        "sensor envelope differs at record "@,
        "sensor presence differs at record "@,
        beyond("sensor payload"@, i, t1),
        beyond("sensor payload"@, i, t2),
        f.sensor_payload_close,
        i,
    );
    lemma_frame_differences_symmetric(
        a.subject_input.setpoint,
        b.subject_input.setpoint,
        "setpoint envelope differs at record "@,
        "setpoint presence differs at record "@,
        at_record("command values differ at record "@, i),
        at_record("command values differ at record "@, i),
        f.setpoint_command_close,
        i,
    );
    let ia = input_differences(a.subject_input, b.subject_input, f, i, t1);
    let ib = input_differences(b.subject_input, a.subject_input, f, i, t2);
    assert(ia.len() == 0 <==> ib.len() == 0);
    let oa = output_differences(
        a.subject_output,
        b.subject_output,
        f.estimate_close,
        f.proposal_command_close,
        i,
        t1,
    );
    let ob = output_differences(
        b.subject_output,
        a.subject_output,
        f.estimate_close,
        f.proposal_command_close,
        i,
        t2,
    );
    assert(oa.len() == 0 <==> ob.len() == 0);
    let ga = gate_differences(a.subject_output.gate, b.subject_output.gate, f.gate_command_close, i);
    let gb = gate_differences(b.subject_output.gate, a.subject_output.gate, f.gate_command_close, i);
    assert(ga.len() == 0 <==> gb.len() == 0);
    let da = disposition_differences(
        a.safety_disposition,
        b.safety_disposition,
        f.actuation_command_close,
        i,
    );
    let db = disposition_differences(
        b.safety_disposition,
        a.safety_disposition,
        f.actuation_command_close,
        i,
    );
    assert(da.len() == 0 <==> db.len() == 0);
}

/// Whether the `i`-th pair of records of `l` and `r` differs in nothing.
pub open spec fn pair_clean<S, C, B, Q>(
    l: SemanticTraceV0<S, C, B, Q>,
    r: SemanticTraceV0<S, C, B, Q>,
    facts: ComparisonFacts,
    i: int,
) -> bool {
    pair_differences(
        l.records@[i],
        r.records@[i],
        facts.pairs@[i],
        i as nat,
        facts.physics_tolerance_text@,
    ).len() == 0
}

#[verifier::spinoff_prover]
#[verifier::rlimit(40)]
proof fn lemma_pairs_clean<S, C, B, Q>(
    l: SemanticTraceV0<S, C, B, Q>,
    r: SemanticTraceV0<S, C, B, Q>,
    facts: ComparisonFacts,
    n: nat,
)
    ensures
        pairs_differences_upto(l, r, facts, n).len() == 0 <==> forall|i: int|
            0 <= i < n ==> #[trigger] pair_clean(l, r, facts, i),
    decreases n,
{
    if n > 0 {
        lemma_pairs_clean(l, r, facts, (n - 1) as nat);
        if pairs_differences_upto(l, r, facts, n).len() == 0 {
            assert forall|i: int| 0 <= i < n implies #[trigger] pair_clean(l, r, facts, i) by {
                if i < n - 1 {
                    assert(pair_clean(l, r, facts, i));
                }
            }
        } else {
            if pairs_differences_upto(l, r, facts, (n - 1) as nat).len() == 0 {
                assert(!pair_clean(l, r, facts, n - 1));
            }
        }
    }
}

/// The verdict of a comparison does not depend on which trace stands on the
/// left: swapping the two traces, their evidence verdicts, and the
/// tolerance text, while keeping the (symmetric) floating-point verdicts,
/// finds differences exactly when the original comparison does.
#[verifier::spinoff_prover]
#[verifier::rlimit(40)]
pub proof fn lemma_comparison_verdict_symmetric<S, C, B, Q>(
    l: SemanticTraceV0<S, C, B, Q>,
    r: SemanticTraceV0<S, C, B, Q>,
    left_facts: TraceFacts,
    right_facts: TraceFacts,
    facts: ComparisonFacts,
    mirrored: ComparisonFacts,
)
    requires
        mirrored.header_payloads_equal == facts.header_payloads_equal,
        mirrored.records_identical == facts.records_identical,
        mirrored.pairs@ == facts.pairs@,
    ensures
        comparison_differences(l, r, left_facts, right_facts, facts).len() == 0
            <==> comparison_differences(r, l, right_facts, left_facts, mirrored).len() == 0,
{
    reveal(content_differences);
    lemma_evidence_differences_len(l, r, left_facts, right_facts);
    lemma_evidence_differences_len(r, l, right_facts, left_facts);
    let n = pair_count(l, r);
    assert(pair_count(r, l) == n);
    lemma_pairs_symmetric(l, r, facts, mirrored, n);
    if headers_agree(l, r, facts.header_payloads_equal) {
        assert(headers_agree(r, l, mirrored.header_payloads_equal));
        assert(bit_exact_mode(l, r) == bit_exact_mode(r, l));
    } else {
        assert(!headers_agree(r, l, mirrored.header_payloads_equal));
    }
}

#[verifier::spinoff_prover]
#[verifier::rlimit(40)]
proof fn lemma_pairs_symmetric<S, C, B, Q>(
    l: SemanticTraceV0<S, C, B, Q>,
    r: SemanticTraceV0<S, C, B, Q>,
    facts: ComparisonFacts,
    mirrored: ComparisonFacts,
    n: nat,
)
    requires
        mirrored.pairs@ == facts.pairs@,
    ensures
        pairs_differences_upto(l, r, facts, n).len() == 0 <==> pairs_differences_upto(
            r,
            l,
            mirrored,
            n,
        ).len() == 0,
{
    lemma_pairs_clean(l, r, facts, n);
    lemma_pairs_clean(r, l, mirrored, n);
    assert forall|i: int| 0 <= i < n implies #[trigger] pair_clean(l, r, facts, i) <==> pair_clean(
        r,
        l,
        mirrored,
        i,
    ) by {
        lemma_pair_differences_symmetric(
            l.records@[i],
            r.records@[i],
            facts.pairs@[i],
            i as nat,
            facts.physics_tolerance_text@,
            mirrored.physics_tolerance_text@,
        );
    }
    if pairs_differences_upto(l, r, facts, n).len() == 0 {
        assert forall|i: int| 0 <= i < n implies #[trigger] pair_clean(r, l, mirrored, i) by {
            assert(pair_clean(l, r, facts, i));
        }
    }
    if pairs_differences_upto(r, l, mirrored, n).len() == 0 {
        assert forall|i: int| 0 <= i < n implies #[trigger] pair_clean(l, r, facts, i) by {
            assert(pair_clean(r, l, mirrored, i));
        }
    }
}

/// A comparison that finds no difference vouches for both traces: each is
/// valid evidence, their provenance and profiles agree, they hold the same
/// number of records, and their summaries are equal.
pub proof fn lemma_equal_comparison_facts<S, C, B, Q>(
    l: SemanticTraceV0<S, C, B, Q>,
    r: SemanticTraceV0<S, C, B, Q>,
    left_facts: TraceFacts,
    right_facts: TraceFacts,
    facts: ComparisonFacts,
)
    requires
        comparison_differences(l, r, left_facts, right_facts, facts).len() == 0,
    ensures
        trace_failures(l, left_facts).len() == 0,
        trace_failures(r, right_facts).len() == 0,
        headers_agree(l, r, facts.header_payloads_equal),
        l.records@.len() == r.records@.len(),
        summaries_equal(l.summary, r.summary),
{
    reveal(content_differences);
    lemma_evidence_differences_len(l, r, left_facts, right_facts);
    assert(crate::evidence::trace_policy_failures(l, left_facts).len() == 0);
    assert(crate::evidence::trace_policy_failures(r, right_facts).len() == 0);
}

/// A trace that lacks records for some of its declared ticks never compares
/// equal, on whichever side it stands.
pub proof fn lemma_incomplete_trace_never_compares_equal<S, C, B, Q>(
    t: SemanticTraceV0<S, C, B, Q>,
    other: SemanticTraceV0<S, C, B, Q>,
    trace_facts: TraceFacts,
    other_facts: TraceFacts,
    facts: ComparisonFacts,
)
    requires
        t.records@.len() != t.expected_ticks.0,
    ensures
        comparison_differences(other, t, other_facts, trace_facts, facts).len() > 0,
        comparison_differences(t, other, trace_facts, other_facts, facts).len() > 0,
{
    crate::evidence::lemma_incomplete_trace_fails_validation(t, trace_facts);
    lemma_evidence_differences_len(other, t, other_facts, trace_facts);
    lemma_evidence_differences_len(t, other, trace_facts, other_facts);
}

/// A comparison does not depend on who the subject is: renaming the subject
/// of either trace (to another non-blank identity) changes nothing in what
/// the comparison reports.
pub proof fn lemma_comparison_ignores_subject_identity<S, C, B, Q>(
    l: SemanticTraceV0<S, C, B, Q>,
    r: SemanticTraceV0<S, C, B, Q>,
    renamed: SemanticTraceV0<S, C, B, Q>,
    left_facts: TraceFacts,
    right_facts: TraceFacts,
    facts: ComparisonFacts,
)
    requires
        crate::evidence::renamed_subject(r, renamed),
        !crate::text::is_blank_text(r.subject_id@),
        !crate::text::is_blank_text(renamed.subject_id@),
    ensures
        comparison_differences(l, renamed, left_facts, right_facts, facts)
            == comparison_differences(l, r, left_facts, right_facts, facts),
        comparison_differences(renamed, l, right_facts, left_facts, facts)
            == comparison_differences(r, l, right_facts, left_facts, facts),
{
    reveal(evidence_differences);
    reveal(content_differences);
    crate::evidence::lemma_validation_ignores_subject_identity(r, renamed, right_facts);
    assert(renamed.records == r.records);
    assert(renamed.summary == r.summary);
    assert(pairs_differences_upto(l, renamed, facts, pair_count(l, r)) == pairs_differences_upto(
        l,
        r,
        facts,
        pair_count(l, r),
    )) by {
        lemma_pairs_renamed_alike(l, r, renamed, facts, pair_count(l, r));
    }
    assert(pairs_differences_upto(renamed, l, facts, pair_count(r, l)) == pairs_differences_upto(
        r,
        l,
        facts,
        pair_count(r, l),
    )) by {
        lemma_pairs_renamed_alike(l, r, renamed, facts, pair_count(r, l));
    }
}

proof fn lemma_pairs_renamed_alike<S, C, B, Q>(
    l: SemanticTraceV0<S, C, B, Q>,
    r: SemanticTraceV0<S, C, B, Q>,
    renamed: SemanticTraceV0<S, C, B, Q>,
    facts: ComparisonFacts,
    n: nat,
)
    requires
        crate::evidence::renamed_subject(r, renamed),
    ensures
        pairs_differences_upto(l, renamed, facts, n) == pairs_differences_upto(l, r, facts, n),
        pairs_differences_upto(renamed, l, facts, n) == pairs_differences_upto(r, l, facts, n),
    decreases n,
{
    assert(renamed.records == r.records);
    if n > 0 {
        lemma_pairs_renamed_alike(l, r, renamed, facts, (n - 1) as nat);
    }
}

} // verus!
