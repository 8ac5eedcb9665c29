//! Severity bands and the classification of a capacity reading.

use vstd::prelude::*;

verus! {

/// The largest capacity a sensor can meaningfully report, in percent.
pub const FULL_CAPACITY: u8 = 100;

/// Severity of a capacity reading, from best to worst.
#[derive(Clone, Copy, Debug, PartialEq, Eq, Structural)]
pub enum Band {
    Good,
    Okay,
    Bad,
    Critical,
}

impl Band {
    /// Position in the order `Critical < Bad < Okay < Good`.
    pub open spec fn rank(self) -> int {
        match self {
            Band::Critical => 0,
            Band::Bad => 1,
            Band::Okay => 2,
            Band::Good => 3,
        }
    }

    /// `self` is a strictly better band than `other`.
    pub open spec fn better_than(self, other: Band) -> bool {
        self.rank() > other.rank()
    }

    /// Position in the order `Critical < Bad < Okay < Good`.
    pub fn severity_rank(self) -> (r: u8)
        ensures
            r as int == self.rank(),
    {
        match self {
            Band::Critical => 0,
            Band::Bad => 1,
            Band::Okay => 2,
            Band::Good => 3,
        }
    }

    /// Whether `self` is a strictly better band than `other`.
    pub fn is_better_than(self, other: Band) -> (r: bool)
        ensures
            r == self.better_than(other),
    {
        self.severity_rank() > other.severity_rank()
    }
}

/// The four capacity thresholds, in percent.
#[derive(Clone, Copy, Debug, PartialEq, Eq, Structural)]
pub struct Thresholds {
    pub good: u8,
    pub okay: u8,
    pub bad: u8,
    pub critical: u8,
}

impl Thresholds {
    /// The thresholds decrease from `good` to `critical` and none exceeds
    /// the full capacity.
    pub open spec fn valid(self) -> bool {
        self.critical <= self.bad <= self.okay <= self.good <= FULL_CAPACITY
    }

    /// Whether the thresholds decrease from `good` to `critical` and none
    /// exceeds the full capacity.
    pub fn is_valid(&self) -> (r: bool)
        ensures
            r == self.valid(),
    {
        self.critical <= self.bad && self.bad <= self.okay && self.okay <= self.good && self.good
            <= FULL_CAPACITY
    }
}

/// A reading brought into the range `0..=100`.
pub open spec fn clamped(capacity: int) -> int {
    if capacity > FULL_CAPACITY {
        FULL_CAPACITY as int
    } else if capacity < 0 {
        0
    } else {
        capacity
    }
}

/// The interval of capacities that belongs to `band`: `Critical` up to the
/// critical threshold, `Bad` above it up to the bad threshold, `Okay` above
/// that up to the okay threshold, `Good` everything else.
pub open spec fn in_band(t: Thresholds, capacity: int, band: Band) -> bool {
    match band {
        Band::Critical => capacity <= t.critical,
        Band::Bad => t.critical < capacity <= t.bad,
        Band::Okay => t.bad < capacity <= t.okay,
        Band::Good => !(capacity <= t.critical) && !(t.critical < capacity <= t.bad) && !(t.bad
            < capacity <= t.okay),
    }
}

/// The band of a reading: the reading is clamped to `0..=100`, then the
/// worst band whose threshold it does not exceed is taken, `Good` if it
/// exceeds them all.
pub open spec fn band_of(t: Thresholds, capacity: int) -> Band {
    let c = clamped(capacity);
    if c <= t.critical {
        Band::Critical
    } else if c <= t.bad {
        Band::Bad
    } else if c <= t.okay {
        Band::Okay
    } else {
        Band::Good
    }
}

/// Classifies a capacity reading. Readings above 100 count as 100.
pub fn classify(capacity: u8, thresholds: &Thresholds) -> (band: Band)
    ensures
        band == band_of(*thresholds, capacity as int),
        thresholds.valid() ==> in_band(*thresholds, clamped(capacity as int), band),
{
    let c: u8 = if capacity > FULL_CAPACITY {
        FULL_CAPACITY
    } else {
        capacity
    };
    if c <= thresholds.critical {
        Band::Critical
    } else if c <= thresholds.bad {
        Band::Bad
    } else if c <= thresholds.okay {
        Band::Okay
    } else {
        Band::Good
    }
}

/// With valid thresholds the bands partition the capacities: a band's
/// interval holds a reading exactly when it is the reading's band, so
/// exactly one band applies.
pub proof fn lemma_exactly_one_band(t: Thresholds, capacity: int, band: Band)
    requires
        t.valid(),
    ensures
        in_band(t, clamped(capacity), band) <==> band == band_of(t, capacity),
{
}

/// Classification is monotonic: a lower reading never gets a better band
/// than a higher one.
pub proof fn lemma_classify_monotonic(t: Thresholds, low: int, high: int)
    requires
        low < high,
    ensures
        !band_of(t, low).better_than(band_of(t, high)),
        band_of(t, low).rank() <= band_of(t, high).rank(),
{
}

} // verus!
