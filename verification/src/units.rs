//! Physical quantities as whole numbers of a fixed unit.

use vstd::prelude::*;

verus! {

/// Microdegrees in a full turn.
pub const FULL_TURN: i64 = 360_000_000;

/// Nanoseconds in a second.
pub const NANOS_PER_SECOND: i128 = 1_000_000_000;

/// Seconds in a day.
pub const SECONDS_PER_DAY: i64 = 86_400;

/// Nanoseconds in a day.
pub const NANOS_PER_DAY: i128 = 86_400_000_000_000;

/// A plane angle, in microdegrees.
#[derive(Clone, Copy, Debug, PartialEq, Eq)]
pub struct Angle {
    pub microdegrees: i64,
}

/// A time span, or an instant counted from the J2000 epoch, in nanoseconds.
#[derive(Clone, Copy, Debug, PartialEq, Eq)]
pub struct Time {
    pub nanoseconds: i128,
}

/// A length, in metres.
#[derive(Clone, Copy, Debug, PartialEq, Eq)]
pub struct Length {
    pub meters: i64,
}

/// A mass, in kilograms.
#[derive(Clone, Copy, Debug, PartialEq, Eq)]
pub struct Mass {
    pub kilograms: u128,
}

/// A dimensionless number, in billionths.
#[derive(Clone, Copy, Debug, PartialEq, Eq)]
pub struct Ratio {
    pub billionths: i64,
}

impl Angle {
    /// The angle of `microdegrees` millionths of a degree.
    pub fn new(microdegrees: i64) -> (a: Angle)
        ensures
            a.microdegrees == microdegrees,
    {
        Angle { microdegrees }
    }

    /// The angle brought into one turn: the least non-negative angle that
    /// differs from `self` by whole turns.
    pub open spec fn normalized(self) -> Angle {
        Angle { microdegrees: (self.microdegrees as int % FULL_TURN as int) as i64 }
    }

    /// Whether the angle lies in `[0, 360)` degrees.
    pub open spec fn is_normal(self) -> bool {
        0 <= self.microdegrees < FULL_TURN
    }

    /// Whether the angle lies in the half-open arc from `start` up to, and
    /// not including, `end`.
    pub open spec fn within(self, start: Angle, end: Angle) -> bool {
        start.microdegrees <= self.microdegrees < end.microdegrees
    }

    /// Tests `within`.
    pub fn is_within(self, start: Angle, end: Angle) -> (b: bool)
        ensures
            b == self.within(start, end),
    {
        start.microdegrees <= self.microdegrees && self.microdegrees < end.microdegrees
    }
}

impl Time {
    /// The time of `nanoseconds` billionths of a second.
    pub fn new(nanoseconds: i128) -> (t: Time)
        ensures
            t.nanoseconds == nanoseconds,
    {
        Time { nanoseconds }
    }
}

impl Length {
    /// The length of `meters` metres.
    pub fn new(meters: i64) -> (l: Length)
        ensures
            l.meters == meters,
    {
        Length { meters }
    }
}

impl Mass {
    /// The mass of `kilograms` kilograms.
    pub fn new(kilograms: u128) -> (m: Mass)
        ensures
            m.kilograms == kilograms,
    {
        Mass { kilograms }
    }
}

impl Ratio {
    /// The number `billionths / 1_000_000_000`.
    pub fn new(billionths: i64) -> (r: Ratio)
        ensures
            r.billionths == billionths,
    {
        Ratio { billionths }
    }
}

/// Brings an angle into `[0, 360)` degrees by adding or removing whole turns.
pub fn normalize(ang: Angle) -> (r: Angle)
    ensures
        r == ang.normalized(),
        r.is_normal(),
{
    let m: i64 = ang.microdegrees % FULL_TURN;
    if m < 0 {
        Angle { microdegrees: m + FULL_TURN }
    } else {
        Angle { microdegrees: m }
    }
}

/// Angles a whole turn apart normalize to the same angle.
pub proof fn lemma_normalize_periodic(a: Angle, b: Angle)
    requires
        b.microdegrees == a.microdegrees + FULL_TURN,
    ensures
        a.normalized() == b.normalized(),
{
    vstd::arithmetic::div_mod::lemma_mod_add_multiples_vanish(
        a.microdegrees as int,
        FULL_TURN as int,
    );
}

/// Normalizing twice is normalizing once, and an angle already in
/// `[0, 360)` degrees is left as it is.
pub proof fn lemma_normalize_idempotent(a: Angle)
    ensures
        a.normalized().is_normal(),
        a.normalized().normalized() == a.normalized(),
        a.is_normal() ==> a.normalized() == a,
{
}

} // verus!
