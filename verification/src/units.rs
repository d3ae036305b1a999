//! Integer identity and virtual-time units shared by every contract type.
//!
//! Each unit is a transparent `u64` newtype. Keeping them distinct stops a
//! sequence number from being compared with a timestamp by accident.
use vstd::prelude::*;

verus! {

/// Index of a control turn on the virtual timeline.
#[derive(Debug, Default, Clone, Copy, PartialEq, Eq, Structural, PartialOrd, Ord, Hash)]
pub struct Tick(pub u64);

/// Virtual time in nanoseconds since the start of a run.
#[derive(Debug, Default, Clone, Copy, PartialEq, Eq, Structural, PartialOrd, Ord, Hash)]
pub struct VirtualTimeNs(pub u64);

/// A virtual duration in nanoseconds.
#[derive(Debug, Default, Clone, Copy, PartialEq, Eq, Structural, PartialOrd, Ord, Hash)]
pub struct DurationNs(pub u64);

/// Identifies the virtual clock that stamped a frame.
#[derive(Debug, Default, Clone, Copy, PartialEq, Eq, Structural, PartialOrd, Ord, Hash)]
pub struct ClockEpoch(pub u64);

/// Identifies one incarnation of a data source.
#[derive(Debug, Default, Clone, Copy, PartialEq, Eq, Structural, PartialOrd, Ord, Hash)]
pub struct SourceEpoch(pub u64);

/// Identifies one arming of the safety controller.
#[derive(Debug, Default, Clone, Copy, PartialEq, Eq, Structural, PartialOrd, Ord, Hash)]
pub struct PermitEpoch(pub u64);

/// Per-stream monotonic sample number.
#[derive(Debug, Default, Clone, Copy, PartialEq, Eq, Structural, PartialOrd, Ord, Hash)]
pub struct Sequence(pub u64);

impl Tick {
    pub fn new(value: u64) -> (r: Self)
        ensures r.0 == value,
    {
        Tick(value)
    }

    pub fn get(self) -> (r: u64)
        ensures r == self.0,
    {
        self.0
    }
}

impl VirtualTimeNs {
    pub fn new(value: u64) -> (r: Self)
        ensures r.0 == value,
    {
        VirtualTimeNs(value)
    }

    pub fn get(self) -> (r: u64)
        ensures r == self.0,
    {
        self.0
    }
}

impl DurationNs {
    pub fn new(value: u64) -> (r: Self)
        ensures r.0 == value,
    {
        DurationNs(value)
    }

    pub fn get(self) -> (r: u64)
        ensures r == self.0,
    {
        self.0
    }
}

impl ClockEpoch {
    pub fn new(value: u64) -> (r: Self)
        ensures r.0 == value,
    {
        ClockEpoch(value)
    }

    pub fn get(self) -> (r: u64)
        ensures r == self.0,
    {
        self.0
    }
}

impl SourceEpoch {
    pub fn new(value: u64) -> (r: Self)
        ensures r.0 == value,
    {
        SourceEpoch(value)
    }

    pub fn get(self) -> (r: u64)
        ensures r == self.0,
    {
        self.0
    }
}

impl PermitEpoch {
    pub fn new(value: u64) -> (r: Self)
        ensures r.0 == value,
    {
        PermitEpoch(value)
    }

    pub fn get(self) -> (r: u64)
        ensures r == self.0,
    {
        self.0
    }
}

impl Sequence {
    pub fn new(value: u64) -> (r: Self)
        ensures r.0 == value,
    {
        Sequence(value)
    }

    pub fn get(self) -> (r: u64)
        ensures r == self.0,
    {
        self.0
    }
}

/// `a + b`, saturating at `u64::MAX`, as a mathematical value.
pub open spec fn sat_add(a: u64, b: u64) -> u64 {
    if a + b > u64::MAX { u64::MAX } else { (a + b) as u64 }
}

/// `a - b`, saturating at zero, as a mathematical value.
pub open spec fn sat_sub(a: u64, b: u64) -> u64 {
    if a < b { 0 } else { (a - b) as u64 }
}

/// `a * b`, saturating at `u64::MAX`, as a mathematical value.
pub open spec fn sat_mul(a: u64, b: u64) -> u64 {
    if a * b > u64::MAX { u64::MAX } else { (a * b) as u64 }
}

} // verus!
