//! The independent safety controller that stands between a subject's
//! admitted intents and the plant.
//!
//! The controller is a small latched state machine: `Disarmed`, `Armed` with
//! a fresh permit epoch, or `Tripped` with the first trip reason. Every
//! transition is stated as a function on [`SafetyModel`], so that laws over
//! sequences of calls can be proved about the model alone.
use vstd::prelude::*;

use crate::contracts::{
    ActuatorIntentV0, AppliedActuationV0, EnvelopeV0, SafetyActionV0, SafetyControllerStateV0,
    SafetyDispositionV0, SafetyPolicyV0, SafetyStatusFrameV0, SafetyStatusV0, SafetyTripReasonV0,
    ScenarioV0, SubjectConfigV0, SuppressionReasonV0, ValidityV0,
};
use crate::units::{
    sat_add, sat_sub, ClockEpoch, DurationNs, PermitEpoch, Sequence, SourceEpoch, Tick,
    VirtualTimeNs,
};

verus! {

/// Verdicts on floating-point values that one safety evaluation needs.
///
/// `observation_in_limits` says whether the authoritative plant state lies
/// inside the safety limits (finite and within every range). The other three
/// speak of the offered intent's command: finite, inside the limits, and
/// within the per-turn step bound of the observation. They are ignored when
/// no intent is offered.
#[derive(Debug, Clone, Copy, PartialEq, Eq, Structural)]
pub struct IntentChecks {
    pub observation_in_limits: bool,
    pub command_finite: bool,
    pub command_in_range: bool,
    pub command_step_safe: bool,
}

/// The observable and latched state of a [`SafetyControllerSim`].
#[derive(Debug, Clone, Copy, PartialEq, Eq, Structural)]
pub struct SafetyModel {
    pub clock_epoch: ClockEpoch,
    pub source_epoch: SourceEpoch,
    pub intent_source_epoch: SourceEpoch,
    pub intent_max_age_ns: u64,
    pub heartbeat_timeout_ns: u64,
    pub state: SafetyControllerStateV0,
    pub interlocks_clear: bool,
    pub permit_counter: u64,
    pub status_sequence: u64,
    pub armed_at_tick: Option<Tick>,
    pub watchdog_deadline_ns: Option<VirtualTimeNs>,
    pub last_intent_sequence: Option<Sequence>,
}

pub open spec fn deref_intent<C>(intent: Option<&ActuatorIntentV0<C>>) -> Option<ActuatorIntentV0<C>> {
    match intent {
        Some(i) => Some(*i),
        None => None,
    }
}

impl SafetyModel {
    /// The state of a freshly configured controller.
    pub open spec fn initial(
        clock_epoch: ClockEpoch,
        source_epoch: SourceEpoch,
        intent_source_epoch: SourceEpoch,
        intent_max_age_ns: u64,
        heartbeat_timeout_ns: u64,
    ) -> SafetyModel {
        SafetyModel {
            clock_epoch,
            source_epoch,
            intent_source_epoch,
            intent_max_age_ns,
            heartbeat_timeout_ns,
            state: SafetyControllerStateV0::Disarmed,
            interlocks_clear: true,
            permit_counter: 0,
            status_sequence: 0,
            armed_at_tick: None,
            watchdog_deadline_ns: None,
            last_intent_sequence: None,
        }
    }

    /// Internal consistency kept by every transition: an armed controller
    /// carries the newest permit epoch, and the arming tick and watchdog
    /// deadline exist exactly while armed.
    pub open spec fn wf(self) -> bool {
        &&& (self.state matches SafetyControllerStateV0::Armed { permit_epoch }
            ==> permit_epoch.0 == self.permit_counter)
        &&& (self.armed_at_tick is Some <==> self.state is Armed)
        &&& (self.watchdog_deadline_ns is Some <==> self.state is Armed)
    }

    pub open spec fn snapshot(self) -> SafetyStatusV0 {
        SafetyStatusV0 { controller_state: self.state, interlocks_clear: self.interlocks_clear }
    }

    /// Latches a trip: interlocks open, the first trip reason is kept, and
    /// the arming and watchdog state is dropped.
    pub open spec fn after_trip(self, reason: SafetyTripReasonV0) -> SafetyModel {
        SafetyModel {
            interlocks_clear: false,
            state: if self.state is Tripped {
                self.state
            } else {
                SafetyControllerStateV0::Tripped { reason }
            },
            armed_at_tick: None,
            watchdog_deadline_ns: None,
            ..self
        }
    }

    /// Revokes the permit, unless the controller is tripped.
    pub open spec fn after_disarm(self) -> SafetyModel {
        if self.state is Tripped {
            self
        } else {
            SafetyModel {
                state: SafetyControllerStateV0::Disarmed,
                armed_at_tick: None,
                watchdog_deadline_ns: None,
                last_intent_sequence: None,
                ..self
            }
        }
    }

    pub open spec fn after_action(self, tick: Tick, now: VirtualTimeNs, action: SafetyActionV0) -> SafetyModel {
        match action {
            SafetyActionV0::ClearFaults => SafetyModel { interlocks_clear: true, ..self },
            SafetyActionV0::Reset => {
                if self.interlocks_clear {
                    SafetyModel {
                        state: SafetyControllerStateV0::Disarmed,
                        armed_at_tick: None,
                        watchdog_deadline_ns: None,
                        last_intent_sequence: None,
                        ..self
                    }
                } else {
                    self
                }
            },
            SafetyActionV0::Arm => {
                if self.interlocks_clear && self.state is Disarmed {
                    let counter = sat_add(self.permit_counter, 1);
                    SafetyModel {
                        permit_counter: counter,
                        state: SafetyControllerStateV0::Armed { permit_epoch: PermitEpoch(counter) },
                        armed_at_tick: Some(tick),
                        watchdog_deadline_ns: Some(
                            VirtualTimeNs(sat_add(now.0, self.heartbeat_timeout_ns)),
                        ),
                        last_intent_sequence: None,
                        ..self
                    }
                } else {
                    self
                }
            },
            SafetyActionV0::Disarm => self.after_disarm(),
        }
    }

    /// Whether an intent is outside its validity window at `now`: captured in
    /// the future, past its deadline, or at least the maximum age old.
    pub open spec fn intent_expired<C>(self, now: VirtualTimeNs, intent: ActuatorIntentV0<C>) -> bool {
        ||| intent.captured_at_ns.0 > now.0
        ||| now.0 >= intent.valid_until_ns.0
        ||| sat_sub(now.0, intent.captured_at_ns.0) >= self.intent_max_age_ns
    }

    /// The first failed check, in the controller's fixed order, for an
    /// intent offered to an armed controller with permit epoch `permit`.
    pub open spec fn suppression<C>(
        self,
        now: VirtualTimeNs,
        permit: PermitEpoch,
        intent: ActuatorIntentV0<C>,
        checks: IntentChecks,
    ) -> Option<SuppressionReasonV0> {
        if intent.clock_epoch != self.clock_epoch {
            Some(SuppressionReasonV0::WrongClockEpoch)
        } else if intent.source_epoch != self.intent_source_epoch {
            Some(SuppressionReasonV0::WrongSourceEpoch)
        } else if intent.permit_epoch != permit {
            Some(SuppressionReasonV0::WrongPermitEpoch)
        } else if self.intent_expired(now, intent) {
            Some(SuppressionReasonV0::ExpiredIntent)
        } else if !checks.command_finite {
            Some(SuppressionReasonV0::NonFinite)
        } else if !checks.command_in_range {
            Some(SuppressionReasonV0::OutOfRange)
        } else if !checks.command_step_safe {
            Some(SuppressionReasonV0::SlewLimitExceeded)
        } else {
            match self.last_intent_sequence {
                Some(previous) => {
                    if intent.sequence.0 == previous.0 {
                        Some(SuppressionReasonV0::DuplicateIntent)
                    } else if intent.sequence.0 < previous.0 {
                        Some(SuppressionReasonV0::OutOfOrderIntent)
                    } else {
                        None
                    }
                },
                None => None,
            }
        }
    }

    /// One evaluation: the next model and the disposition of the offered
    /// intent (if any) at `tick` and `now`.
    pub open spec fn evaluate<C>(
        self,
        tick: Tick,
        now: VirtualTimeNs,
        intent: Option<ActuatorIntentV0<C>>,
        checks: IntentChecks,
    ) -> (SafetyModel, SafetyDispositionV0<C>) {
        match self.state {
            SafetyControllerStateV0::Disarmed => (
                self,
                SafetyDispositionV0::Suppressed { reason: SuppressionReasonV0::Disarmed },
            ),
            SafetyControllerStateV0::Tripped { .. } => (
                self,
                SafetyDispositionV0::Suppressed { reason: SuppressionReasonV0::Tripped },
            ),
            SafetyControllerStateV0::Armed { permit_epoch } => {
                if !checks.observation_in_limits {
                    (
                        self.after_trip(SafetyTripReasonV0::FeedbackInvalid),
                        SafetyDispositionV0::Suppressed {
                            reason: SuppressionReasonV0::FeedbackInvalid,
                        },
                    )
                } else if self.armed_at_tick == Some(tick) {
                    (
                        self,
                        SafetyDispositionV0::Suppressed {
                            reason: SuppressionReasonV0::ArmTransition,
                        },
                    )
                } else if self.watchdog_deadline_ns matches Some(deadline) && now.0 >= deadline.0 {
                    (
                        self.after_trip(SafetyTripReasonV0::HeartbeatExpired),
                        SafetyDispositionV0::Suppressed { reason: SuppressionReasonV0::Tripped },
                    )
                } else {
                    match intent {
                        None => (
                            self,
                            SafetyDispositionV0::Suppressed {
                                reason: SuppressionReasonV0::MissingIntent,
                            },
                        ),
                        Some(intent) => match self.suppression(now, permit_epoch, intent, checks) {
                            Some(reason) => {
                                if reason is NonFinite || reason is OutOfRange
                                    || reason is SlewLimitExceeded {
                                    (
                                        self.after_trip(SafetyTripReasonV0::CommandInvalid),
                                        SafetyDispositionV0::Suppressed { reason },
                                    )
                                } else {
                                    (self, SafetyDispositionV0::Suppressed { reason })
                                }
                            },
                            None => (
                                SafetyModel {
                                    last_intent_sequence: Some(intent.sequence),
                                    watchdog_deadline_ns: Some(
                                        VirtualTimeNs(sat_add(now.0, self.heartbeat_timeout_ns)),
                                    ),
                                    ..self
                                },
                                SafetyDispositionV0::Authorized {
                                    actuation: AppliedActuationV0 {
                                        tick,
                                        time_ns: now,
                                        permit_epoch,
                                        intent_sequence: intent.sequence,
                                        command: intent.command,
                                    },
                                },
                            ),
                        },
                    }
                }
            },
        }
    }
}

/// Every controller transition keeps the model consistent: an armed
/// controller holds the newest permit epoch, and the arming tick and the
/// watchdog deadline exist exactly while it is armed.
pub proof fn lemma_transitions_keep_model_consistent<C>(
    m: SafetyModel,
    tick: Tick,
    now: VirtualTimeNs,
    action: SafetyActionV0,
    reason: SafetyTripReasonV0,
    intent: Option<ActuatorIntentV0<C>>,
    checks: IntentChecks,
)
    requires
        m.wf(),
    ensures
        m.after_action(tick, now, action).wf(),
        m.after_trip(reason).wf(),
        m.after_disarm().wf(),
        m.evaluate(tick, now, intent, checks).0.wf(),
        (SafetyModel { status_sequence: sat_add(m.status_sequence, 1), ..m }).wf(),
{
}

/// A freshly configured controller is consistent, disarmed, and has its
/// interlocks clear.
pub proof fn lemma_initial_model_is_consistent(
    clock_epoch: ClockEpoch,
    source_epoch: SourceEpoch,
    intent_source_epoch: SourceEpoch,
    intent_max_age_ns: u64,
    heartbeat_timeout_ns: u64,
)
    ensures
        ({
            let m = SafetyModel::initial(
                clock_epoch,
                source_epoch,
                intent_source_epoch,
                intent_max_age_ns,
                heartbeat_timeout_ns,
            );
            &&& m.wf()
            &&& m.state is Disarmed
            &&& m.interlocks_clear
        }),
{
}

/// A trip is latched. Once tripped, the controller keeps its state (and its
/// first trip reason) under every trip, disarm, evaluation, clear-faults and
/// arm request; a reset clears the trip only when the interlocks are clear,
/// and every trip opens the interlocks, so only a clear-faults followed by a
/// reset leaves the tripped state.
pub proof fn lemma_trip_is_latched<C>(
    m: SafetyModel,
    tick: Tick,
    now: VirtualTimeNs,
    action: SafetyActionV0,
    reason: SafetyTripReasonV0,
    intent: Option<ActuatorIntentV0<C>>,
    checks: IntentChecks,
)
    requires
        (m.state is Tripped),
    ensures
        m.after_trip(reason).state == m.state,
        !m.after_trip(reason).interlocks_clear,
        m.after_disarm().state == m.state,
        m.evaluate(tick, now, intent, checks).0.state == m.state,
        m.evaluate(tick, now, intent, checks).1
            == (SafetyDispositionV0::<C>::Suppressed { reason: SuppressionReasonV0::Tripped }),
        action != SafetyActionV0::Reset ==> m.after_action(tick, now, action).state == m.state,
        (m.after_action(tick, now, SafetyActionV0::Reset).state is Tripped) <==> !m.interlocks_clear,
        m.after_action(tick, now, SafetyActionV0::ClearFaults).interlocks_clear,
{
}

/// Every trip, whatever the state before it, leaves the controller tripped
/// with its interlocks open.
pub proof fn lemma_trip_always_latches(m: SafetyModel, reason: SafetyTripReasonV0)
    ensures
        (m.after_trip(reason).state is Tripped),
        !m.after_trip(reason).interlocks_clear,
        !(m.state is Tripped) ==> m.after_trip(reason).state
            == (SafetyControllerStateV0::Tripped { reason }),
{
}

/// Only an armed controller authorizes, and only for an intent that passed
/// every check: the arming turn is never authorized, the intent carries the
/// controller's clock epoch, the subject's source epoch and the current
/// permit epoch, it is inside its validity window, its command is finite,
/// inside the limits and within the step bound, and its sequence number is
/// newer than the last authorized one. The actuation carries exactly the
/// turn, the time, the permit epoch and the intent's sequence and command,
/// and the controller stays armed and remembers the sequence.
pub proof fn lemma_authorization_requires_every_check<C>(
    m: SafetyModel,
    tick: Tick,
    now: VirtualTimeNs,
    intent: Option<ActuatorIntentV0<C>>,
    checks: IntentChecks,
    actuation: AppliedActuationV0<C>,
)
    requires
        m.evaluate(tick, now, intent, checks).1
            == (SafetyDispositionV0::Authorized { actuation }),
    ensures
        m.state == (SafetyControllerStateV0::Armed { permit_epoch: actuation.permit_epoch }),
        m.armed_at_tick != Some(tick),
        checks.observation_in_limits && checks.command_finite && checks.command_in_range
            && checks.command_step_safe,
        (intent matches Some(i) && {
            &&& i.clock_epoch == m.clock_epoch
            &&& i.source_epoch == m.intent_source_epoch
            &&& i.permit_epoch == actuation.permit_epoch
            &&& i.captured_at_ns.0 <= now.0 < i.valid_until_ns.0
            &&& now.0 - i.captured_at_ns.0 < m.intent_max_age_ns
            &&& (m.last_intent_sequence matches Some(last) ==> last.0 < i.sequence.0)
            &&& actuation.intent_sequence == i.sequence
            &&& actuation.command == i.command
        }),
        actuation.tick == tick,
        actuation.time_ns == now,
        m.evaluate(tick, now, intent, checks).0.state == m.state,
        m.evaluate(tick, now, intent, checks).0.last_intent_sequence
            == Some(actuation.intent_sequence),
{
}

/// The turn on which the controller was armed never authorizes motion.
pub proof fn lemma_arming_turn_never_authorizes<C>(
    m: SafetyModel,
    tick: Tick,
    now: VirtualTimeNs,
    intent: Option<ActuatorIntentV0<C>>,
    checks: IntentChecks,
)
    requires
        m.armed_at_tick == Some(tick),
    ensures
        (m.evaluate(tick, now, intent, checks).1 is Suppressed),
{
}

/// A controller that is not armed suppresses every intent and is left
/// unchanged by the evaluation.
pub proof fn lemma_unarmed_controller_never_authorizes<C>(
    m: SafetyModel,
    tick: Tick,
    now: VirtualTimeNs,
    intent: Option<ActuatorIntentV0<C>>,
    checks: IntentChecks,
)
    requires
        !(m.state is Armed),
    ensures
        m.evaluate(tick, now, intent, checks).0 == m,
        (m.evaluate(tick, now, intent, checks).1 is Suppressed),
{
}

/// An armed controller whose watchdog deadline has been reached trips with
/// `HeartbeatExpired` (unless the feedback is invalid, which trips first, or
/// this is the arming turn).
pub proof fn lemma_expired_heartbeat_trips<C>(
    m: SafetyModel,
    tick: Tick,
    now: VirtualTimeNs,
    intent: Option<ActuatorIntentV0<C>>,
    checks: IntentChecks,
)
    requires
        m.wf(),
        (m.state is Armed),
        checks.observation_in_limits,
        m.armed_at_tick != Some(tick),
        (m.watchdog_deadline_ns matches Some(deadline) && now.0 >= deadline.0),
    ensures
        m.evaluate(tick, now, intent, checks).0.state
            == (SafetyControllerStateV0::Tripped { reason: SafetyTripReasonV0::HeartbeatExpired }),
        m.evaluate(tick, now, intent, checks).1
            == (SafetyDispositionV0::<C>::Suppressed { reason: SuppressionReasonV0::Tripped }),
{
}

/// An armed controller whose authoritative observation lies outside the
/// safety limits trips with `FeedbackInvalid` and suppresses the turn,
/// whatever intent is offered.
pub proof fn lemma_invalid_feedback_trips<C>(
    m: SafetyModel,
    tick: Tick,
    now: VirtualTimeNs,
    intent: Option<ActuatorIntentV0<C>>,
    checks: IntentChecks,
)
    requires
        (m.state is Armed),
        !checks.observation_in_limits,
    ensures
        m.evaluate(tick, now, intent, checks).0.state
            == (SafetyControllerStateV0::Tripped { reason: SafetyTripReasonV0::FeedbackInvalid }),
        m.evaluate(tick, now, intent, checks).1 == (SafetyDispositionV0::<C>::Suppressed {
            reason: SuppressionReasonV0::FeedbackInvalid,
        }),
{
}

/// Arming hands out a permit epoch strictly newer than every earlier one
/// (while the permit counter has not saturated), and always starts with no
/// remembered intent sequence.
pub proof fn lemma_arming_issues_a_fresh_permit(m: SafetyModel, tick: Tick, now: VirtualTimeNs)
    requires
        m.interlocks_clear,
        (m.state is Disarmed),
        m.permit_counter < u64::MAX,
    ensures
        m.after_action(tick, now, SafetyActionV0::Arm).state == (SafetyControllerStateV0::Armed {
            permit_epoch: PermitEpoch((m.permit_counter + 1) as u64),
        }),
        m.after_action(tick, now, SafetyActionV0::Arm).permit_counter == m.permit_counter + 1,
        (m.after_action(tick, now, SafetyActionV0::Arm).last_intent_sequence is None),
        m.after_action(tick, now, SafetyActionV0::Arm).armed_at_tick == Some(tick),
{
}

/// No transition ever lowers the permit counter.
pub proof fn lemma_permit_counter_never_decreases<C>(
    m: SafetyModel,
    tick: Tick,
    now: VirtualTimeNs,
    action: SafetyActionV0,
    reason: SafetyTripReasonV0,
    intent: Option<ActuatorIntentV0<C>>,
    checks: IntentChecks,
)
    ensures
        m.after_action(tick, now, action).permit_counter >= m.permit_counter,
        m.after_trip(reason).permit_counter == m.permit_counter,
        m.after_disarm().permit_counter == m.permit_counter,
        m.evaluate(tick, now, intent, checks).0.permit_counter == m.permit_counter,
{
}

/// An authorization is a heartbeat: the controller stays armed with the
/// same permit, remembers the authorized intent's sequence, and moves its
/// watchdog deadline to `now` plus the heartbeat timeout (saturating). So a
/// controller that authorizes an intent at least once per heartbeat timeout
/// never trips on an expired heartbeat: the next evaluation before the new
/// deadline does not trip with `HeartbeatExpired`.
pub proof fn lemma_authorization_refreshes_watchdog<C>(
    m: SafetyModel,
    tick: Tick,
    now: VirtualTimeNs,
    intent: Option<ActuatorIntentV0<C>>,
    checks: IntentChecks,
    next_tick: Tick,
    later: VirtualTimeNs,
    next_intent: Option<ActuatorIntentV0<C>>,
    next_checks: IntentChecks,
)
    requires
        m.evaluate(tick, now, intent, checks).1 is Authorized,
    ensures
        ({
            let n = m.evaluate(tick, now, intent, checks).0;
            &&& n.watchdog_deadline_ns == Some(
                VirtualTimeNs(if now.0 + m.heartbeat_timeout_ns > u64::MAX {
                    u64::MAX
                } else {
                    (now.0 + m.heartbeat_timeout_ns) as u64
                }),
            )
            &&& n.state == m.state
            &&& n.state is Armed
            &&& n.interlocks_clear == m.interlocks_clear
            &&& intent matches Some(i) && n.last_intent_sequence == Some(i.sequence)
            &&& (later.0 < sat_add(now.0, m.heartbeat_timeout_ns) ==> n.evaluate(
                next_tick,
                later,
                next_intent,
                next_checks,
            ).0.state != (SafetyControllerStateV0::Tripped {
                reason: SafetyTripReasonV0::HeartbeatExpired,
            }))
        }),
{
}

/// One call on the safety controller, as its model sees it: a scheduled
/// action, a trip, a disarm, a published status, or an evaluation.
pub enum SafetyEvent<C> {
    Action { tick: Tick, now: VirtualTimeNs, action: SafetyActionV0 },
    Trip { reason: SafetyTripReasonV0 },
    Disarm,
    Status,
    Evaluate { tick: Tick, now: VirtualTimeNs, intent: Option<ActuatorIntentV0<C>>, checks: IntentChecks },
}

/// The model after one event, as the controller's methods state it.
pub open spec fn after_event<C>(m: SafetyModel, e: SafetyEvent<C>) -> SafetyModel {
    match e {
        SafetyEvent::Action { tick, now, action } => m.after_action(tick, now, action),
        SafetyEvent::Trip { reason } => m.after_trip(reason),
        SafetyEvent::Disarm => m.after_disarm(),
        SafetyEvent::Status => SafetyModel { status_sequence: sat_add(m.status_sequence, 1), ..m },
        SafetyEvent::Evaluate { tick, now, intent, checks } => m.evaluate(tick, now, intent, checks).0,
    }
}

/// The model after the events `es`, in order.
pub open spec fn after_events<C>(m: SafetyModel, es: Seq<SafetyEvent<C>>) -> SafetyModel
    decreases es.len(),
{
    if es.len() == 0 {
        m
    } else {
        after_event(after_events(m, es.drop_last()), es.last())
    }
}

/// Event `e` is an arm request that takes effect on `m`: the interlocks are
/// clear and the controller is disarmed.
pub open spec fn arm_takes_effect<C>(m: SafetyModel, e: SafetyEvent<C>) -> bool {
    &&& e matches SafetyEvent::Action { action: SafetyActionV0::Arm, .. }
    &&& m.interlocks_clear
    &&& m.state is Disarmed
}

/// How many of the events `es`, applied in order from `m`, were arm
/// requests that took effect.
pub open spec fn arms_taken<C>(m: SafetyModel, es: Seq<SafetyEvent<C>>) -> nat
    decreases es.len(),
{
    if es.len() == 0 {
        0
    } else {
        arms_taken(m, es.drop_last()) + if arm_takes_effect(after_events(m, es.drop_last()), es.last()) {
            1nat
        } else {
            0nat
        }
    }
}

/// The permit epoch issued by event `i` of `es`: the permit counter just
/// after it.
pub open spec fn issued_epoch<C>(m: SafetyModel, es: Seq<SafetyEvent<C>>, i: int) -> u64 {
    after_events(m, es.take(i + 1)).permit_counter
}

/// Permit epochs count arms: after any sequence of calls, the permit
/// counter has grown by exactly the number of arm requests that took effect
/// (saturating at `u64::MAX`), the model stays consistent, and an armed
/// controller carries that count as its permit epoch. From a freshly
/// configured controller, an `Armed { permit_epoch }` state thus carries the
/// number of arms that took effect so far, its own included.
pub proof fn lemma_permit_epoch_counts_arms<C>(m: SafetyModel, es: Seq<SafetyEvent<C>>)
    requires
        m.wf(),
    ensures
        after_events(m, es).wf(),
        arms_taken(m, es) <= es.len(),
        after_events(m, es).permit_counter == if m.permit_counter + arms_taken(m, es) > u64::MAX {
            u64::MAX as int
        } else {
            m.permit_counter + arms_taken(m, es)
        },
        after_events(m, es).state matches SafetyControllerStateV0::Armed { permit_epoch }
            ==> permit_epoch.0 == after_events(m, es).permit_counter,
        m.permit_counter == 0 && es.len() <= u64::MAX ==> (after_events(m, es).state matches SafetyControllerStateV0::Armed { permit_epoch }
            ==> permit_epoch.0 == arms_taken(m, es)),
    decreases es.len(),
{
    if es.len() > 0 {
        let prev = after_events(m, es.drop_last());
        lemma_permit_epoch_counts_arms(m, es.drop_last());
        match es.last() {
            SafetyEvent::Action { tick, now, action } => {
                lemma_transitions_keep_model_consistent::<C>(
                    prev,
                    tick,
                    now,
                    action,
                    SafetyTripReasonV0::SubjectFault,
                    None,
                    IntentChecks {
                        observation_in_limits: true,
                        command_finite: true,
                        command_in_range: true,
                        command_step_safe: true,
                    },
                );
            },
            SafetyEvent::Trip { reason } => {
                lemma_transitions_keep_model_consistent::<C>(
                    prev,
                    Tick(0),
                    VirtualTimeNs(0),
                    SafetyActionV0::ClearFaults,
                    reason,
                    None,
                    IntentChecks {
                        observation_in_limits: true,
                        command_finite: true,
                        command_in_range: true,
                        command_step_safe: true,
                    },
                );
            },
            SafetyEvent::Evaluate { tick, now, intent, checks } => {
                lemma_transitions_keep_model_consistent::<C>(
                    prev,
                    tick,
                    now,
                    SafetyActionV0::ClearFaults,
                    SafetyTripReasonV0::SubjectFault,
                    intent,
                    checks,
                );
                lemma_permit_counter_never_decreases::<C>(
                    prev,
                    tick,
                    now,
                    SafetyActionV0::ClearFaults,
                    SafetyTripReasonV0::SubjectFault,
                    intent,
                    checks,
                );
            },
            _ => {},
        }
    }
}

proof fn lemma_counter_grows_along_prefixes<C>(m: SafetyModel, es: Seq<SafetyEvent<C>>, a: int, b: int)
    requires
        m.wf(),
        0 <= a <= b <= es.len(),
    ensures
        after_events(m, es.take(a)).permit_counter <= after_events(m, es.take(b)).permit_counter,
    decreases b - a,
{
    if a < b {
        lemma_counter_grows_along_prefixes(m, es, a, b - 1);
        assert(es.take(b).drop_last() =~= es.take(b - 1));
        lemma_permit_epoch_counts_arms(m, es.take(b - 1));
        lemma_permit_epoch_counts_arms(m, es.take(b));
    }
}

/// Issued permit epochs strictly increase: of two arm requests that take
/// effect, the later one issues the larger epoch (while the permit counter
/// cannot saturate).
pub proof fn lemma_issued_permits_strictly_increase<C>(
    m: SafetyModel,
    es: Seq<SafetyEvent<C>>,
    i: int,
    j: int,
)
    requires
        m.wf(),
        m.permit_counter + es.len() <= u64::MAX,
        0 <= i < j < es.len(),
        arm_takes_effect(after_events(m, es.take(i)), es[i]),
        arm_takes_effect(after_events(m, es.take(j)), es[j]),
    ensures
        issued_epoch(m, es, i) < issued_epoch(m, es, j),
{
    lemma_counter_grows_along_prefixes(m, es, i + 1, j);
    assert(es.take(i + 1).drop_last() =~= es.take(i));
    assert(es.take(j + 1).drop_last() =~= es.take(j));
    lemma_permit_epoch_counts_arms(m, es.take(i));
    lemma_permit_epoch_counts_arms(m, es.take(j));
    let pi = after_events(m, es.take(i));
    let pj = after_events(m, es.take(j));
    assert(pi.permit_counter < u64::MAX);
    assert(pj.permit_counter < u64::MAX);
    assert(issued_epoch(m, es, i) == pi.permit_counter + 1);
    assert(issued_epoch(m, es, j) == pj.permit_counter + 1);
}

/// Deterministic simulation of the independent safety controller.
#[derive(Debug, Clone)]
pub struct SafetyControllerSim<B> {
    clock_epoch: ClockEpoch,
    source_epoch: SourceEpoch,
    intent_source_epoch: SourceEpoch,
    policy: SafetyPolicyV0<B>,
    state: SafetyControllerStateV0,
    interlocks_clear: bool,
    permit_counter: u64,
    status_sequence: u64,
    armed_at_tick: Option<Tick>,
    watchdog_deadline_ns: Option<VirtualTimeNs>,
    last_intent_sequence: Option<Sequence>,
}

impl<B> View for SafetyControllerSim<B> {
    type V = SafetyModel;

    closed spec fn view(&self) -> SafetyModel {
        SafetyModel {
            clock_epoch: self.clock_epoch,
            source_epoch: self.source_epoch,
            intent_source_epoch: self.intent_source_epoch,
            intent_max_age_ns: self.policy.intent_max_age_ns.0,
            heartbeat_timeout_ns: self.policy.heartbeat_timeout_ns.0,
            state: self.state,
            interlocks_clear: self.interlocks_clear,
            permit_counter: self.permit_counter,
            status_sequence: self.status_sequence,
            armed_at_tick: self.armed_at_tick,
            watchdog_deadline_ns: self.watchdog_deadline_ns,
            last_intent_sequence: self.last_intent_sequence,
        }
    }
}

impl<B: Copy> SafetyControllerSim<B> {
    /// The safety policy the controller was configured with.
    pub closed spec fn configured_policy(&self) -> SafetyPolicyV0<B> {
        self.policy
    }

    /// Configures a disarmed controller for the clock and source epochs of
    /// `config`, under `policy`.
    pub fn from_config<S>(config: &SubjectConfigV0<S, B>, policy: SafetyPolicyV0<B>) -> (r: Self)
        ensures
            r@ == SafetyModel::initial(
                config.clock_epoch,
                config.safety_source_epoch,
                config.subject_source_epoch,
                policy.intent_max_age_ns.0,
                policy.heartbeat_timeout_ns.0,
            ),
            r.configured_policy() == policy,
    {
        SafetyControllerSim {
            clock_epoch: config.clock_epoch,
            source_epoch: config.safety_source_epoch,
            intent_source_epoch: config.subject_source_epoch,
            policy,
            state: SafetyControllerStateV0::Disarmed,
            interlocks_clear: true,
            permit_counter: 0,
            status_sequence: 0,
            armed_at_tick: None,
            watchdog_deadline_ns: None,
            last_intent_sequence: None,
        }
    }

    /// The controller of a scenario: configured from the subject's view of it
    /// and its safety policy.
    pub fn new<S: Copy, C, M, Q>(scenario: &ScenarioV0<S, C, B, M, Q>) -> (r: Self)
        ensures
            r@ == SafetyModel::initial(
                scenario.clock_epoch,
                scenario.safety_source_epoch,
                scenario.subject_source_epoch,
                scenario.safety_policy.intent_max_age_ns.0,
                scenario.safety_policy.heartbeat_timeout_ns.0,
            ),
            r.configured_policy() == scenario.safety_policy,
    {
        let config = scenario.subject_config();
        Self::from_config(&config, scenario.safety_policy)
    }

    pub fn policy(&self) -> (r: &SafetyPolicyV0<B>)
        ensures
            *r == self.configured_policy(),
    {
        &self.policy
    }

    pub fn state(&self) -> (r: &SafetyControllerStateV0)
        ensures
            *r == self@.state,
    {
        &self.state
    }

    pub fn apply_action(&mut self, tick: Tick, now: VirtualTimeNs, action: &SafetyActionV0)
        ensures
            final(self)@ == old(self)@.after_action(tick, now, *action),
            final(self).configured_policy() == old(self).configured_policy(),
    {
        match action {
            SafetyActionV0::ClearFaults => {
                self.interlocks_clear = true;
            },
            SafetyActionV0::Reset => {
                if self.interlocks_clear {
                    self.state = SafetyControllerStateV0::Disarmed;
                    self.armed_at_tick = None;
                    self.watchdog_deadline_ns = None;
                    self.last_intent_sequence = None;
                }
            },
            SafetyActionV0::Arm => {
                if self.interlocks_clear && matches!(self.state, SafetyControllerStateV0::Disarmed) {
                    self.permit_counter = self.permit_counter.saturating_add(1);
                    self.state = SafetyControllerStateV0::Armed {
                        permit_epoch: PermitEpoch(self.permit_counter),
                    };
                    self.armed_at_tick = Some(tick);
                    self.watchdog_deadline_ns = Some(
                        VirtualTimeNs(now.0.saturating_add(self.policy.heartbeat_timeout_ns.0)),
                    );
                    self.last_intent_sequence = None;
                }
            },
            SafetyActionV0::Disarm => {
                self.disarm();
            },
        }
    }

    pub fn trip(&mut self, reason: SafetyTripReasonV0)
        ensures
            final(self)@ == old(self)@.after_trip(reason),
            final(self).configured_policy() == old(self).configured_policy(),
    {
        self.interlocks_clear = false;
        if !matches!(self.state, SafetyControllerStateV0::Tripped { .. }) {
            self.state = SafetyControllerStateV0::Tripped { reason };
        }
        self.armed_at_tick = None;
        self.watchdog_deadline_ns = None;
    }

    pub fn disarm(&mut self)
        ensures
            final(self)@ == old(self)@.after_disarm(),
            final(self).configured_policy() == old(self).configured_policy(),
    {
        if !matches!(self.state, SafetyControllerStateV0::Tripped { .. }) {
            self.state = SafetyControllerStateV0::Disarmed;
            self.armed_at_tick = None;
            self.watchdog_deadline_ns = None;
            self.last_intent_sequence = None;
        }
    }

    pub fn snapshot(&self) -> (r: SafetyStatusV0)
        ensures
            r == self@.snapshot(),
    {
        SafetyStatusV0 { controller_state: self.state, interlocks_clear: self.interlocks_clear }
    }

    /// Publishes the controller status as a valid frame stamped `now` and
    /// valid for `valid_for`; each call uses the next status sequence number.
    pub fn status(&mut self, now: VirtualTimeNs, valid_for: DurationNs) -> (r: SafetyStatusFrameV0)
        ensures
            r == (EnvelopeV0 {
                clock_epoch: old(self)@.clock_epoch,
                source_epoch: old(self)@.source_epoch,
                sequence: Sequence(old(self)@.status_sequence),
                captured_at_ns: now,
                valid_until_ns: VirtualTimeNs(sat_add(now.0, valid_for.0)),
                validity: ValidityV0::Valid,
                payload: old(self)@.snapshot(),
            }),
            final(self)@ == (SafetyModel {
                status_sequence: sat_add(old(self)@.status_sequence, 1),
                ..old(self)@
            }),
            final(self).configured_policy() == old(self).configured_policy(),
    {
        let frame = EnvelopeV0 {
            clock_epoch: self.clock_epoch,
            source_epoch: self.source_epoch,
            sequence: Sequence(self.status_sequence),
            captured_at_ns: now,
            valid_until_ns: VirtualTimeNs(now.0.saturating_add(valid_for.0)),
            validity: ValidityV0::Valid,
            payload: self.snapshot(),
        };
        self.status_sequence = self.status_sequence.saturating_add(1);
        frame
    }

    /// Decides whether the offered intent may reach the plant this turn.
    ///
    /// Out-of-limit feedback, an expired heartbeat, and an invalid command
    /// trip the controller; the turn on which it was armed never authorizes.
    pub fn evaluate<C: Copy>(
        &mut self,
        tick: Tick,
        now: VirtualTimeNs,
        intent: Option<&ActuatorIntentV0<C>>,
        checks: IntentChecks,
    ) -> (r: SafetyDispositionV0<C>)
        ensures
            (final(self)@, r) == old(self)@.evaluate(tick, now, deref_intent(intent), checks),
            final(self).configured_policy() == old(self).configured_policy(),
    {
        let permit_epoch = match &self.state {
            SafetyControllerStateV0::Disarmed => {
                return SafetyDispositionV0::Suppressed { reason: SuppressionReasonV0::Disarmed };
            },
            SafetyControllerStateV0::Tripped { .. } => {
                return SafetyDispositionV0::Suppressed { reason: SuppressionReasonV0::Tripped };
            },
            SafetyControllerStateV0::Armed { permit_epoch } => *permit_epoch,
        };

        if !checks.observation_in_limits {
            self.trip(SafetyTripReasonV0::FeedbackInvalid);
            return SafetyDispositionV0::Suppressed {
                reason: SuppressionReasonV0::FeedbackInvalid,
            };
        }

        if self.armed_at_tick == Some(tick) {
            return SafetyDispositionV0::Suppressed { reason: SuppressionReasonV0::ArmTransition };
        }

        let expired_watchdog = match self.watchdog_deadline_ns {
            Some(deadline) => now.0 >= deadline.0,
            None => false,
        };
        if expired_watchdog {
            self.trip(SafetyTripReasonV0::HeartbeatExpired);
            return SafetyDispositionV0::Suppressed { reason: SuppressionReasonV0::Tripped };
        }

        let intent = match intent {
            Some(intent) => intent,
            None => {
                return SafetyDispositionV0::Suppressed {
                    reason: SuppressionReasonV0::MissingIntent,
                };
            },
        };

        let suppression = if intent.clock_epoch != self.clock_epoch {
            Some(SuppressionReasonV0::WrongClockEpoch)
        } else if intent.source_epoch != self.intent_source_epoch {
            Some(SuppressionReasonV0::WrongSourceEpoch)
        } else if intent.permit_epoch != permit_epoch {
            Some(SuppressionReasonV0::WrongPermitEpoch)
        } else if intent.captured_at_ns.0 > now.0 || now.0 >= intent.valid_until_ns.0
            || now.0.saturating_sub(intent.captured_at_ns.0) >= self.policy.intent_max_age_ns.0 {
            Some(SuppressionReasonV0::ExpiredIntent)
        } else if !checks.command_finite {
            Some(SuppressionReasonV0::NonFinite)
        } else if !checks.command_in_range {
            Some(SuppressionReasonV0::OutOfRange)
        } else if !checks.command_step_safe {
            Some(SuppressionReasonV0::SlewLimitExceeded)
        } else {
            match self.last_intent_sequence {
                Some(previous) => {
                    if intent.sequence.0 == previous.0 {
                        Some(SuppressionReasonV0::DuplicateIntent)
                    } else if intent.sequence.0 < previous.0 {
                        Some(SuppressionReasonV0::OutOfOrderIntent)
                    } else {
                        None
                    }
                },
                None => None,
            }
        };

        if let Some(reason) = suppression {
            if matches!(
                reason,
                SuppressionReasonV0::NonFinite | SuppressionReasonV0::OutOfRange
                    | SuppressionReasonV0::SlewLimitExceeded
            ) {
                self.trip(SafetyTripReasonV0::CommandInvalid);
            }
            return SafetyDispositionV0::Suppressed { reason };
        }

        self.last_intent_sequence = Some(intent.sequence);
        self.watchdog_deadline_ns = Some(
            VirtualTimeNs(now.0.saturating_add(self.policy.heartbeat_timeout_ns.0)),
        );
        SafetyDispositionV0::Authorized {
            actuation: AppliedActuationV0 {
                tick,
                time_ns: now,
                permit_epoch,
                intent_sequence: intent.sequence,
                command: intent.command,
            },
        }
    }
}

} // verus!
