//! Admission checks on the three input streams of the reference subject:
//! epochs, per-stream sequence cursors, validity flags and freshness.
use vstd::prelude::*;

use crate::contracts::{EnvelopeV0, GateDeniedReasonV0, InvalidReasonV0, ValidityV0};
use crate::units::{sat_add, ClockEpoch, DurationNs, Sequence, SourceEpoch, VirtualTimeNs};

verus! {

/// The newest sequence number accepted on one stream.
#[derive(Debug, Default, Clone, Copy, PartialEq, Eq, Structural)]
pub struct StreamCursor {
    pub last: Option<Sequence>,
}

#[derive(Debug, Clone, Copy, PartialEq, Eq, Structural)]
pub enum CursorError {
    Duplicate,
    OutOfOrder,
}

impl StreamCursor {
    /// Accepts any sequence newer than the last one (gaps are allowed, so a
    /// stream recovers after a dropped frame); rejects a repeat or an older
    /// number without moving the cursor.
    pub open spec fn spec_observe(self, sequence: Sequence) -> (StreamCursor, Result<(), CursorError>) {
        match self.last {
            None => (StreamCursor { last: Some(sequence) }, Ok(())),
            Some(last) => {
                if sequence.0 > last.0 {
                    (StreamCursor { last: Some(sequence) }, Ok(()))
                } else if sequence.0 == last.0 {
                    (self, Err(CursorError::Duplicate))
                } else {
                    (self, Err(CursorError::OutOfOrder))
                }
            },
        }
    }

    pub fn observe(&mut self, sequence: Sequence) -> (r: Result<(), CursorError>)
        ensures
            (*final(self), r) == old(self).spec_observe(sequence),
    {
        match self.last {
            None => {
                self.last = Some(sequence);
                Ok(())
            },
            Some(last) => {
                if sequence.0 > last.0 {
                    self.last = Some(sequence);
                    Ok(())
                } else if sequence.0 == last.0 {
                    Err(CursorError::Duplicate)
                } else {
                    Err(CursorError::OutOfOrder)
                }
            },
        }
    }
}

#[derive(Debug, Clone, Copy, PartialEq, Eq, Structural)]
pub enum EnvelopeError {
    WrongClockEpoch,
    WrongSourceEpoch,
    Duplicate,
    OutOfOrder,
    Invalid(InvalidReasonV0),
    Future,
    Stale,
}

/// The earlier of a frame's declared deadline and its capture time plus the
/// maximum age (saturating).
pub open spec fn spec_effective_deadline<T>(frame: EnvelopeV0<T>, maximum_age: DurationNs) -> u64 {
    let aged = sat_add(frame.captured_at_ns.0, maximum_age.0);
    if frame.valid_until_ns.0 <= aged {
        frame.valid_until_ns.0
    } else {
        aged
    }
}

pub fn effective_deadline<T>(frame: &EnvelopeV0<T>, maximum_age: DurationNs) -> (r: u64)
    ensures
        r == spec_effective_deadline(*frame, maximum_age),
{
    let aged = frame.captured_at_ns.0.saturating_add(maximum_age.0);
    if frame.valid_until_ns.0 <= aged {
        frame.valid_until_ns.0
    } else {
        aged
    }
}

/// The envelope checks, in order: clock epoch, source epoch, capture time
/// not in the future, sequence cursor (which moves only when every earlier
/// check passed), validity flag, and freshness (`now` strictly before the
/// effective deadline).
pub open spec fn spec_validate_envelope<T>(
    frame: EnvelopeV0<T>,
    now: VirtualTimeNs,
    expected_clock_epoch: ClockEpoch,
    expected_source_epoch: SourceEpoch,
    maximum_age: DurationNs,
    cursor: StreamCursor,
) -> (StreamCursor, Result<(), EnvelopeError>) {
    if frame.clock_epoch != expected_clock_epoch {
        (cursor, Err(EnvelopeError::WrongClockEpoch))
    } else if frame.source_epoch != expected_source_epoch {
        (cursor, Err(EnvelopeError::WrongSourceEpoch))
    } else if frame.captured_at_ns.0 > now.0 {
        (cursor, Err(EnvelopeError::Future))
    } else {
        let (next, observed) = cursor.spec_observe(frame.sequence);
        match observed {
            Err(CursorError::Duplicate) => (next, Err(EnvelopeError::Duplicate)),
            Err(CursorError::OutOfOrder) => (next, Err(EnvelopeError::OutOfOrder)),
            Ok(()) => match frame.validity {
                ValidityV0::Invalid(reason) => (next, Err(EnvelopeError::Invalid(reason))),
                ValidityV0::Valid => {
                    if now.0 >= spec_effective_deadline(frame, maximum_age) {
                        (next, Err(EnvelopeError::Stale))
                    } else {
                        (next, Ok(()))
                    }
                },
            },
        }
    }
}

pub fn validate_envelope<T>(
    frame: &EnvelopeV0<T>,
    now: VirtualTimeNs,
    expected_clock_epoch: ClockEpoch,
    expected_source_epoch: SourceEpoch,
    maximum_age: DurationNs,
    cursor: &mut StreamCursor,
) -> (r: Result<(), EnvelopeError>)
    ensures
        (*final(cursor), r) == spec_validate_envelope(
            *frame,
            now,
            expected_clock_epoch,
            expected_source_epoch,
            maximum_age,
            *old(cursor),
        ),
{
    if frame.clock_epoch != expected_clock_epoch {
        return Err(EnvelopeError::WrongClockEpoch);
    }
    if frame.source_epoch != expected_source_epoch {
        return Err(EnvelopeError::WrongSourceEpoch);
    }
    if frame.captured_at_ns.0 > now.0 {
        return Err(EnvelopeError::Future);
    }
    match cursor.observe(frame.sequence) {
        Ok(()) => {},
        Err(CursorError::Duplicate) => {
            return Err(EnvelopeError::Duplicate);
        },
        Err(CursorError::OutOfOrder) => {
            return Err(EnvelopeError::OutOfOrder);
        },
    }
    if let ValidityV0::Invalid(reason) = &frame.validity {
        return Err(EnvelopeError::Invalid(*reason));
    }
    if now.0 >= effective_deadline(frame, maximum_age) {
        return Err(EnvelopeError::Stale);
    }
    Ok(())
}

/// How a rejected sensor envelope is reported.
pub open spec fn spec_sensor_envelope_reason(error: EnvelopeError) -> GateDeniedReasonV0 {
    match error {
        EnvelopeError::WrongClockEpoch
        | EnvelopeError::Invalid(InvalidReasonV0::WrongClockEpoch) => GateDeniedReasonV0::WrongClockEpoch,
        EnvelopeError::WrongSourceEpoch
        | EnvelopeError::Invalid(InvalidReasonV0::WrongSourceEpoch) => GateDeniedReasonV0::WrongSourceEpoch,
        EnvelopeError::Future
        | EnvelopeError::Invalid(InvalidReasonV0::FutureTimestamp) => GateDeniedReasonV0::FutureSensor,
        EnvelopeError::Stale
        | EnvelopeError::Invalid(InvalidReasonV0::Expired) => GateDeniedReasonV0::StaleSensor,
        EnvelopeError::Duplicate
        | EnvelopeError::Invalid(InvalidReasonV0::Duplicate) => GateDeniedReasonV0::DuplicateSensor,
        EnvelopeError::OutOfOrder
        | EnvelopeError::Invalid(InvalidReasonV0::OutOfOrder) => GateDeniedReasonV0::OutOfOrderSensor,
        EnvelopeError::Invalid(InvalidReasonV0::NonFinite) => GateDeniedReasonV0::NonFinite,
        EnvelopeError::Invalid(InvalidReasonV0::OutOfRange) => GateDeniedReasonV0::OutOfRange,
        EnvelopeError::Invalid(_) => GateDeniedReasonV0::InvalidSensor,
    }
}

pub fn sensor_envelope_reason(error: &EnvelopeError) -> (r: GateDeniedReasonV0)
    ensures
        r == spec_sensor_envelope_reason(*error),
{
    match error {
        EnvelopeError::WrongClockEpoch
        | EnvelopeError::Invalid(InvalidReasonV0::WrongClockEpoch) => GateDeniedReasonV0::WrongClockEpoch,
        EnvelopeError::WrongSourceEpoch
        | EnvelopeError::Invalid(InvalidReasonV0::WrongSourceEpoch) => GateDeniedReasonV0::WrongSourceEpoch,
        EnvelopeError::Future
        | EnvelopeError::Invalid(InvalidReasonV0::FutureTimestamp) => GateDeniedReasonV0::FutureSensor,
        EnvelopeError::Stale
        | EnvelopeError::Invalid(InvalidReasonV0::Expired) => GateDeniedReasonV0::StaleSensor,
        EnvelopeError::Duplicate
        | EnvelopeError::Invalid(InvalidReasonV0::Duplicate) => GateDeniedReasonV0::DuplicateSensor,
        EnvelopeError::OutOfOrder
        | EnvelopeError::Invalid(InvalidReasonV0::OutOfOrder) => GateDeniedReasonV0::OutOfOrderSensor,
        EnvelopeError::Invalid(InvalidReasonV0::NonFinite) => GateDeniedReasonV0::NonFinite,
        EnvelopeError::Invalid(InvalidReasonV0::OutOfRange) => GateDeniedReasonV0::OutOfRange,
        EnvelopeError::Invalid(_) => GateDeniedReasonV0::InvalidSensor,
    }
}

/// How a rejected setpoint envelope is reported.
pub open spec fn spec_setpoint_envelope_reason(error: EnvelopeError) -> GateDeniedReasonV0 {
    match error {
        EnvelopeError::WrongClockEpoch
        | EnvelopeError::Invalid(InvalidReasonV0::WrongClockEpoch) => GateDeniedReasonV0::WrongClockEpoch,
        EnvelopeError::WrongSourceEpoch
        | EnvelopeError::Invalid(InvalidReasonV0::WrongSourceEpoch) => GateDeniedReasonV0::WrongSourceEpoch,
        EnvelopeError::Stale
        | EnvelopeError::Invalid(InvalidReasonV0::Expired) => GateDeniedReasonV0::StaleSetpoint,
        EnvelopeError::Invalid(InvalidReasonV0::NonFinite) => GateDeniedReasonV0::NonFinite,
        EnvelopeError::Invalid(InvalidReasonV0::OutOfRange) => GateDeniedReasonV0::OutOfRange,
        EnvelopeError::Duplicate
        | EnvelopeError::OutOfOrder
        | EnvelopeError::Invalid(_)
        | EnvelopeError::Future => GateDeniedReasonV0::InvalidSetpoint,
    }
}

pub fn setpoint_envelope_reason(error: &EnvelopeError) -> (r: GateDeniedReasonV0)
    ensures
        r == spec_setpoint_envelope_reason(*error),
{
    match error {
        EnvelopeError::WrongClockEpoch
        | EnvelopeError::Invalid(InvalidReasonV0::WrongClockEpoch) => GateDeniedReasonV0::WrongClockEpoch,
        EnvelopeError::WrongSourceEpoch
        | EnvelopeError::Invalid(InvalidReasonV0::WrongSourceEpoch) => GateDeniedReasonV0::WrongSourceEpoch,
        EnvelopeError::Stale
        | EnvelopeError::Invalid(InvalidReasonV0::Expired) => GateDeniedReasonV0::StaleSetpoint,
        EnvelopeError::Invalid(InvalidReasonV0::NonFinite) => GateDeniedReasonV0::NonFinite,
        EnvelopeError::Invalid(InvalidReasonV0::OutOfRange) => GateDeniedReasonV0::OutOfRange,
        EnvelopeError::Duplicate
        | EnvelopeError::OutOfOrder
        | EnvelopeError::Invalid(_)
        | EnvelopeError::Future => GateDeniedReasonV0::InvalidSetpoint,
    }
}

/// How a rejected safety-status envelope is reported.
pub open spec fn spec_safety_envelope_reason(error: EnvelopeError) -> GateDeniedReasonV0 {
    match error {
        EnvelopeError::WrongClockEpoch
        | EnvelopeError::Invalid(InvalidReasonV0::WrongClockEpoch) => GateDeniedReasonV0::WrongClockEpoch,
        EnvelopeError::WrongSourceEpoch
        | EnvelopeError::Invalid(InvalidReasonV0::WrongSourceEpoch) => GateDeniedReasonV0::WrongSourceEpoch,
        EnvelopeError::Stale
        | EnvelopeError::Invalid(InvalidReasonV0::Expired) => GateDeniedReasonV0::StaleSafetyStatus,
        EnvelopeError::Duplicate
        | EnvelopeError::OutOfOrder
        | EnvelopeError::Invalid(_)
        | EnvelopeError::Future => GateDeniedReasonV0::InvalidSafetyStatus,
    }
}

pub fn safety_envelope_reason(error: &EnvelopeError) -> (r: GateDeniedReasonV0)
    ensures
        r == spec_safety_envelope_reason(*error),
{
    match error {
        EnvelopeError::WrongClockEpoch
        | EnvelopeError::Invalid(InvalidReasonV0::WrongClockEpoch) => GateDeniedReasonV0::WrongClockEpoch,
        EnvelopeError::WrongSourceEpoch
        | EnvelopeError::Invalid(InvalidReasonV0::WrongSourceEpoch) => GateDeniedReasonV0::WrongSourceEpoch,
        EnvelopeError::Stale
        | EnvelopeError::Invalid(InvalidReasonV0::Expired) => GateDeniedReasonV0::StaleSafetyStatus,
        EnvelopeError::Duplicate
        | EnvelopeError::OutOfOrder
        | EnvelopeError::Invalid(_)
        | EnvelopeError::Future => GateDeniedReasonV0::InvalidSafetyStatus,
    }
}

/// An accepted envelope is fresh: it has the expected epochs, was captured
/// no later than `now`, `now` is strictly before both its declared deadline
/// and its capture time plus the maximum age, and its sequence number is
/// strictly newer than any earlier accepted one, which it becomes.
pub proof fn lemma_accepted_envelope_is_fresh_and_new<T>(
    frame: EnvelopeV0<T>,
    now: VirtualTimeNs,
    expected_clock_epoch: ClockEpoch,
    expected_source_epoch: SourceEpoch,
    maximum_age: DurationNs,
    cursor: StreamCursor,
)
    requires
        spec_validate_envelope(
            frame,
            now,
            expected_clock_epoch,
            expected_source_epoch,
            maximum_age,
            cursor,
        ).1 is Ok,
    ensures
        frame.clock_epoch == expected_clock_epoch,
        frame.source_epoch == expected_source_epoch,
        frame.validity == ValidityV0::Valid,
        frame.captured_at_ns.0 <= now.0 < frame.valid_until_ns.0,
        now.0 < sat_add(frame.captured_at_ns.0, maximum_age.0),
        (cursor.last matches Some(last) ==> last.0 < frame.sequence.0),
        spec_validate_envelope(
            frame,
            now,
            expected_clock_epoch,
            expected_source_epoch,
            maximum_age,
            cursor,
        ).0 == (StreamCursor { last: Some(frame.sequence) }),
{
}

/// A stream cursor never moves backwards: whatever is observed, the newest
/// accepted sequence number stays the same or grows.
pub proof fn lemma_cursor_is_monotonic(cursor: StreamCursor, sequence: Sequence)
    ensures
        cursor.spec_observe(sequence).0.last is Some,
        cursor.last matches Some(last) ==> (cursor.spec_observe(sequence).0.last matches Some(
            next,
        ) && last.0 <= next.0),
        cursor.spec_observe(sequence).1 is Err ==> cursor.spec_observe(sequence).0 == cursor,
{
}

} // verus!
