//! Loudness levels and playing times, carried as the bits of IEEE 754 numbers.
//!
//! The hub only ever compares such a number with a bound, and for that the bits
//! are enough: apart from the not-a-numbers, a number is ordered by its
//! magnitude bits, taken negative where the sign bit is set.

use vstd::prelude::*;

verus! {

/// A loudness factor: the bits of a single-precision number.
#[derive(Clone, Copy, Debug, PartialEq, Eq, Structural)]
pub struct Level {
    pub bits: u32,
}

/// A time within a track, in seconds: the bits of a double-precision number.
#[derive(Clone, Copy, Debug, PartialEq, Eq, Structural)]
pub struct Seconds {
    pub bits: u64,
}

/// The bits of the single-precision number 0.0.
pub const SILENCE: u32 = 0;

/// The bits of the single-precision number 1.0.
pub const UNITY: u32 = 0x3f80_0000;

/// The bits of the single-precision number 2.0.
pub const LOUDEST: u32 = 0x4000_0000;

/// The bits of single-precision positive infinity; magnitudes beyond it are not numbers.
pub const INFINITE_LEVEL: u32 = 0x7f80_0000;

/// The sign bit of a single-precision number.
pub const LEVEL_SIGN: u32 = 0x8000_0000;

/// The bits of double-precision positive infinity; magnitudes beyond it are not numbers.
pub const INFINITE_TIME: u64 = 0x7ff0_0000_0000_0000;

/// The sign bit of a double-precision number.
pub const TIME_SIGN: u64 = 0x8000_0000_0000_0000;

impl Level {
    /// The bits without the sign.
    pub open spec fn magnitude(self) -> int {
        if self.bits >= LEVEL_SIGN {
            self.bits - LEVEL_SIGN
        } else {
            self.bits as int
        }
    }

    /// The bits encode a number: not a not-a-number.
    pub open spec fn is_number(self) -> bool {
        self.magnitude() <= INFINITE_LEVEL
    }

    /// Where the number stands among all numbers; the two zeros share a place.
    pub open spec fn rank(self) -> int {
        if self.bits >= LEVEL_SIGN {
            -self.magnitude()
        } else {
            self.magnitude()
        }
    }

    /// The level held between silence and twice the loudness; a not-a-number stays.
    pub open spec fn held(self) -> Level {
        if !self.is_number() {
            self
        } else if self.rank() < (Level { bits: SILENCE }).rank() {
            Level { bits: SILENCE }
        } else if self.rank() > (Level { bits: LOUDEST }).rank() {
            Level { bits: LOUDEST }
        } else {
            self
        }
    }

    /// The level is a number and not above zero.
    pub open spec fn inaudible(self) -> bool {
        self.is_number() && self.rank() <= 0
    }

    /// The level 1.0.
    pub fn unity() -> (r: Level)
        ensures
            r == (Level { bits: UNITY }),
    {
        Level { bits: UNITY }
    }

    /// Holds a level between 0.0 and 2.0.
    pub fn clamp(self) -> (r: Level)
        ensures
            r == self.held(),
    {
        let negative: bool = self.bits >= LEVEL_SIGN;
        let magnitude: u32 = if negative {
            self.bits - LEVEL_SIGN
        } else {
            self.bits
        };
        if magnitude > INFINITE_LEVEL {
            self
        } else if negative && magnitude > 0 {
            Level { bits: SILENCE }
        } else if !negative && magnitude > LOUDEST {
            Level { bits: LOUDEST }
        } else {
            self
        }
    }

    /// Whether the level is at or below 0.0.
    pub fn is_inaudible(self) -> (r: bool)
        ensures
            r == self.inaudible(),
    {
        self.bits == 0 || (self.bits >= LEVEL_SIGN && self.bits - LEVEL_SIGN <= INFINITE_LEVEL)
    }
}

impl Seconds {
    /// The bits without the sign.
    pub open spec fn magnitude(self) -> int {
        if self.bits >= TIME_SIGN {
            self.bits - TIME_SIGN
        } else {
            self.bits as int
        }
    }

    /// The bits encode a number: not a not-a-number.
    pub open spec fn is_number(self) -> bool {
        self.magnitude() <= INFINITE_TIME
    }

    /// Where the number stands among all numbers; the two zeros share a place.
    pub open spec fn rank(self) -> int {
        if self.bits >= TIME_SIGN {
            -self.magnitude()
        } else {
            self.magnitude()
        }
    }

    /// The start of a track.
    pub open spec fn start() -> Seconds {
        Seconds { bits: 0 }
    }

    /// A time that can have been played: a number, and not below 0.0.
    pub open spec fn is_played(self) -> bool {
        self.is_number() && self.rank() >= 0
    }

    /// The larger of a time and 0.0; the start of the track for a not-a-number.
    pub open spec fn from_start(self) -> Seconds {
        if self.is_number() && self.rank() > 0 {
            self
        } else {
            Seconds::start()
        }
    }

    /// The time 0.0.
    pub fn zero() -> (r: Seconds)
        ensures
            r == Seconds::start(),
    {
        Seconds { bits: 0 }
    }

    /// The larger of a time and 0.0.
    pub fn not_negative(self) -> (r: Seconds)
        ensures
            r == self.from_start(),
    {
        if self.bits <= INFINITE_TIME {
            self
        } else {
            Seconds { bits: 0 }
        }
    }
}

/// A held level that is a number lies between 0.0 and 2.0, and holding it again
/// changes nothing.
pub proof fn law_held_level_in_bounds(level: Level)
    ensures
        level.held().is_number() == level.is_number(),
        level.is_number() ==> 0 <= level.held().rank() <= (Level { bits: LOUDEST }).rank(),
        level.held().held() == level.held(),
{
}

/// A level already between 0.0 and 2.0 is held as it is.
pub proof fn law_level_in_bounds_is_kept(level: Level)
    requires
        level.is_number(),
        0 <= level.rank() <= (Level { bits: LOUDEST }).rank(),
    ensures
        level.held() == level,
{
}

/// A time counted from the start of a track is a number and never below 0.0.
pub proof fn law_time_from_start_is_not_negative(time: Seconds)
    ensures
        time.from_start().is_played(),
        time.is_number() && time.rank() > 0 ==> time.from_start() == time,
{
}

} // verus!
