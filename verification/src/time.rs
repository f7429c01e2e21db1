//! Absolute instants and civil dates, held as plain integers.
//!
//! An [`Instant`] is a point on the UTC time line, counted in nanoseconds
//! from the Unix epoch. A [`CivilDate`] is a calendar day as a household
//! calendar shows it. Neither knows about time zones: turning an instant into
//! local wall-clock time is left to the caller.

use vstd::prelude::*;

verus! {

/// Nanoseconds in one second.
pub const NANOS_PER_SEC: u32 = 1_000_000_000;

/// Seconds in one day of exactly 24 hours.
pub const SECS_PER_DAY: i64 = 86_400;

/// Nanoseconds in one day of exactly 24 hours.
pub open spec fn nanos_per_day() -> int {
    86_400int * 1_000_000_000int
}

/// Whether `n` nanoseconds from the epoch can be held by an [`Instant`].
pub open spec fn representable(n: int) -> bool {
    i64::MIN * 1_000_000_000 <= n <= i64::MAX * 1_000_000_000 + 999_999_999
}

/// A point on the UTC time line with nanosecond resolution.
///
/// Its view is the number of nanoseconds since 1970-01-01T00:00:00Z, negative
/// before that.
#[derive(Clone, Copy, Debug)]
pub struct Instant {
    secs: i64,
    nanos: u32,
}

impl View for Instant {
    type V = int;

    closed spec fn view(&self) -> int {
        self.secs * 1_000_000_000 + self.nanos
    }
}

impl Instant {
    /// What every instant in running code satisfies: the sub-second part is
    /// less than a second.
    #[verifier::type_invariant]
    pub closed spec fn well_formed(self) -> bool {
        self.nanos < NANOS_PER_SEC
    }

    /// The instant `secs` whole seconds and `nanos` nanoseconds after the
    /// epoch, or nothing when `nanos` is not a fraction of a second.
    pub fn new(secs: i64, nanos: u32) -> (r: Option<Instant>)
        ensures
            r is Some <==> nanos < NANOS_PER_SEC,
            r matches Some(i) ==> i@ == secs * 1_000_000_000 + nanos,
    {
        if nanos < NANOS_PER_SEC {
            Some(Instant { secs, nanos })
        } else {
            None
        }
    }

    /// The instant of a Unix timestamp with its sub-second part.
    ///
    /// A sub-second part of a full second or more, which is how some clocks
    /// write a leap second, is folded into the last nanosecond of `secs`.
    pub fn from_timestamp(secs: i64, nanos: u32) -> (i: Instant)
        ensures
            i@ == secs * 1_000_000_000 + if nanos < NANOS_PER_SEC {
                nanos as int
            } else {
                999_999_999
            },
    {
        if nanos < NANOS_PER_SEC {
            Instant { secs, nanos }
        } else {
            Instant { secs, nanos: NANOS_PER_SEC - 1 }
        }
    }

    /// Whole seconds since the epoch, rounded towards the past.
    pub fn timestamp(&self) -> (secs: i64)
        ensures
            secs == self@ / 1_000_000_000,
    {
        proof {
            use_type_invariant(self);
        }
        self.secs
    }

    /// Nanoseconds since the last whole second.
    pub fn subsec_nanos(&self) -> (nanos: u32)
        ensures
            nanos == self@ % 1_000_000_000,
            nanos < NANOS_PER_SEC,
    {
        proof {
            use_type_invariant(self);
        }
        self.nanos
    }

    /// Whether `self` is strictly earlier than `other`.
    pub fn is_before(&self, other: &Instant) -> (b: bool)
        ensures
            b == (self@ < other@),
    {
        proof {
            use_type_invariant(self);
            use_type_invariant(other);
        }
        self.secs < other.secs || (self.secs == other.secs && self.nanos < other.nanos)
    }

    /// Whether `self` and `other` are the same instant.
    pub fn is_same(&self, other: &Instant) -> (b: bool)
        ensures
            b == (self@ == other@),
    {
        proof {
            use_type_invariant(self);
            use_type_invariant(other);
        }
        self.secs == other.secs && self.nanos == other.nanos
    }

    /// The signed distance from `self` to `later`, in nanoseconds.
    pub fn nanos_until(&self, later: &Instant) -> (d: i128)
        ensures
            d == later@ - self@,
    {
        proof {
            use_type_invariant(self);
            use_type_invariant(later);
        }
        let whole: i128 = (later.secs as i128 - self.secs as i128) * 1_000_000_000;
        whole + (later.nanos as i128 - self.nanos as i128)
    }

    /// The instant exactly 24 hours after `self`, as far as one exists.
    pub closed spec fn day_later(self) -> Instant {
        Instant { secs: (self.secs + SECS_PER_DAY) as i64, nanos: self.nanos }
    }

    /// The instant exactly 24 hours after `self`, or nothing when that lies
    /// beyond what an instant can hold.
    pub fn next_day(&self) -> (r: Option<Instant>)
        ensures
            r == if representable(self@ + nanos_per_day()) {
                Some(self.day_later())
            } else {
                None
            },
            r matches Some(i) ==> i@ == self@ + nanos_per_day(),
    {
        proof {
            use_type_invariant(self);
        }
        if self.secs <= i64::MAX - SECS_PER_DAY {
            Some(Instant { secs: self.secs + SECS_PER_DAY, nanos: self.nanos })
        } else {
            None
        }
    }
}

/// Every instant lies within the representable range, and two instants with
/// the same view are the same instant.
pub proof fn lemma_instant_view(a: Instant, b: Instant)
    requires
        a.well_formed(),
        b.well_formed(),
    ensures
        representable(a@),
        a@ == b@ ==> a == b,
{
}

/// A calendar day: year, month from 1 and day of the month from 1.
///
/// Two dates are the same day exactly when all three fields agree.
#[derive(Clone, Copy, Debug, PartialEq, Eq, Structural)]
pub struct CivilDate {
    pub year: i32,
    pub month: u32,
    pub day: u32,
}

} // verus!
