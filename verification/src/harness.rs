//! The harness boundary: errors of a subject or plant, verdicts, comparison
//! reports, and the runner that owns one subject and one plant.
use vstd::prelude::*;

verus! {

/// A subject's failure at reset or on one turn.
#[derive(Debug, Clone, PartialEq, Eq)]
pub enum SubjectError {
    Reset(String),
    Step(String),
}

/// The text of a subject error.
pub open spec fn subject_error_text(e: SubjectError) -> Seq<char> {
    match e {
        SubjectError::Reset(m) => "subject rejected reset: "@ + m@,
        SubjectError::Step(m) => "subject turn failed: "@ + m@,
    }
}

impl SubjectError {
    /// The error's message.
    pub fn message(&self) -> (r: String)
        ensures
            r@ == subject_error_text(*self),
    {
        match self {
            SubjectError::Reset(m) => crate::text::join(
                crate::text::owned("subject rejected reset: "),
                m.as_str(),
            ),
            SubjectError::Step(m) => crate::text::join(
                crate::text::owned("subject turn failed: "),
                m.as_str(),
            ),
        }
    }
}

/// A plant's failure.
#[derive(Debug, Clone, PartialEq, Eq)]
pub enum PlantError {
    InvalidInitialState(String),
    InvalidActuation(String),
    Backend(String),
}

/// The text of a plant error.
pub open spec fn plant_error_text(e: PlantError) -> Seq<char> {
    match e {
        PlantError::InvalidInitialState(m) => "invalid initial state: "@ + m@,
        PlantError::InvalidActuation(m) => "invalid applied actuation: "@ + m@,
        PlantError::Backend(m) => "plant backend failure: "@ + m@,
    }
}

impl PlantError {
    /// The error's message.
    pub fn message(&self) -> (r: String)
        ensures
            r@ == plant_error_text(*self),
    {
        match self {
            PlantError::InvalidInitialState(m) => crate::text::join(
                crate::text::owned("invalid initial state: "),
                m.as_str(),
            ),
            PlantError::InvalidActuation(m) => crate::text::join(
                crate::text::owned("invalid applied actuation: "),
                m.as_str(),
            ),
            PlantError::Backend(m) => crate::text::join(
                crate::text::owned("plant backend failure: "),
                m.as_str(),
            ),
        }
    }
}

/// Whether a run met its scenario's expectations, and every failure found.
#[derive(Debug, Clone, PartialEq, Eq)]
pub struct Verdict {
    pub passed: bool,
    pub failures: Vec<String>,
}

/// Whether two traces (or a trace and its replay) agree, and every
/// difference found.
#[derive(Debug, Clone, PartialEq, Eq)]
pub struct ComparisonReport {
    pub equal: bool,
    pub differences: Vec<String>,
}

/// Owns the subject under test and the plant it drives.
pub struct Runner<S, P> {
    subject: S,
    plant: P,
}

impl<S, P> Runner<S, P> {
    pub closed spec fn spec_subject(&self) -> S {
        self.subject
    }

    pub closed spec fn spec_plant(&self) -> P {
        self.plant
    }

    pub fn new(subject: S, plant: P) -> (r: Self)
        ensures
            r.spec_subject() == subject,
            r.spec_plant() == plant,
    {
        Runner { subject, plant }
    }

    /// Returns the subject after a completed run, so that evidence the
    /// subject owns can be finalized.
    pub fn into_subject(self) -> (r: S)
        ensures
            r == self.spec_subject(),
    {
        self.subject
    }

    /// The subject, for the turn that drives it.
    pub fn subject_mut(&mut self) -> (r: &mut S)
        ensures
            *r == old(self).spec_subject(),
            final(self).spec_subject() == *final(r),
            final(self).spec_plant() == old(self).spec_plant(),
    {
        &mut self.subject
    }

    /// The plant, for the turn that drives it.
    pub fn plant_mut(&mut self) -> (r: &mut P)
        ensures
            *r == old(self).spec_plant(),
            final(self).spec_plant() == *final(r),
            final(self).spec_subject() == old(self).spec_subject(),
    {
        &mut self.plant
    }
}

} // verus!
