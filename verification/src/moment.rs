//! Points in time, at the resolution the viewer needs: a count of nanoseconds
//! since midnight of 1 January 1970 (UTC), inside the span of years that the
//! calendar can name.

use vstd::prelude::*;

verus! {

/// Nanoseconds in one second.
pub const NANOS_PER_SEC: i64 = 1_000_000_000;

/// Seconds in one day.
pub const SECS_PER_DAY: i64 = 86_400;

/// The first second of 1 January of the year -262143, the earliest day that
/// the calendar names: midnight, 96465292 days before the epoch.
pub const MIN_SECS: i64 = -8_334_601_228_800;

/// The last second of 31 December of the year 262142, the latest day that
/// the calendar names: 95026236 days after the epoch.
pub const MAX_SECS: i64 = 8_210_266_876_799;

/// Nanoseconds in one day.
pub open spec fn nanos_per_day() -> int {
    SECS_PER_DAY * NANOS_PER_SEC
}

/// The whole seconds since the epoch at the instant `t`, rounded down.
pub open spec fn seconds_of(t: int) -> int {
    t / (NANOS_PER_SEC as int)
}

/// The nanoseconds since the last whole second at the instant `t`.
pub open spec fn subsec_of(t: int) -> int {
    t % (NANOS_PER_SEC as int)
}

/// Whether the instant `t` lies in a year that the calendar names.
pub open spec fn representable(t: int) -> bool {
    MIN_SECS * NANOS_PER_SEC <= t < (MAX_SECS + 1) * NANOS_PER_SEC
}

/// The instant `days` whole days after `t` (before it, where `days` is
/// negative): the same time of day on another date.
pub open spec fn shifted(t: int, days: int) -> int {
    t + days * nanos_per_day()
}

/// The calendar day of the instant `t` in UTC, as a count of whole days since
/// the epoch: 0 for 1 January 1970, -1 for the day before.
pub open spec fn day_of(t: int) -> int {
    seconds_of(t) / (SECS_PER_DAY as int)
}

/// What `%Y-%m-%d` writes for the UTC calendar day that holds the second
/// `secs` since the epoch.
pub uninterp spec fn utc_day_text(secs: int) -> Seq<char>;

/// The calendar day number `day` written as `YYYY-MM-DD`: what is written for
/// the first second of that day.
pub open spec fn date_text(day: int) -> Seq<char> {
    utc_day_text(day * SECS_PER_DAY)
}

/// A point in time. Its view is the number of nanoseconds since the epoch, and
/// every value is [`representable`].
#[derive(Clone, Copy, Debug, PartialEq, Eq)]
pub struct Moment {
    secs: i64,
    nanos: u32,
}

impl View for Moment {
    type V = int;

    closed spec fn view(&self) -> int {
        self.secs * NANOS_PER_SEC + self.nanos
    }
}

/// Calls chrono: `DateTime::from_timestamp(secs, 0)`, the UTC date and time of
/// that second, then `DateTime::format` with `%Y-%m-%d`, then `to_string`.
///
/// Taken on trust. chrono has dates for the years -262143 to 262142
/// (`NaiveDate::MIN` to `NaiveDate::MAX`); their seconds are those from
/// [`MIN_SECS`] to [`MAX_SECS`], and for each of them `from_timestamp` returns
/// a date, so the result is `Some`. What is written depends on the second
/// alone: UTC has no offset to look up and the format no locale.
#[verifier::external_body]
fn format_utc_day(secs: i64) -> (text: Option<String>)
    requires
        MIN_SECS <= secs <= MAX_SECS,
    ensures
        text is Some,
        text matches Some(t) ==> t@ == utc_day_text(secs as int),
{
    match chrono::DateTime::from_timestamp(secs, 0) {
        Some(at) => Some(at.format("%Y-%m-%d").to_string()),
        None => None,
    }
}

impl Moment {
    #[verifier::type_invariant]
    spec fn in_calendar(self) -> bool {
        &&& MIN_SECS <= self.secs <= MAX_SECS
        &&& self.nanos < NANOS_PER_SEC
    }

    /// The moment `nanos` nanoseconds after the second `secs` since the epoch,
    /// if the calendar names its year and `nanos` is less than a second.
    pub fn from_timestamp(secs: i64, nanos: u32) -> (made: Option<Moment>)
        ensures
            made is Some <==> MIN_SECS <= secs <= MAX_SECS && nanos < NANOS_PER_SEC,
            made matches Some(m) ==> m@ == secs * NANOS_PER_SEC + nanos,
    {
        if MIN_SECS <= secs && secs <= MAX_SECS && nanos < 1_000_000_000 {
            Some(Moment { secs, nanos })
        } else {
            None
        }
    }

    /// Whole seconds since the epoch, rounded down.
    pub fn timestamp(&self) -> (secs: i64)
        ensures
            secs == seconds_of(self@),
            representable(self@),
    {
        proof {
            use_type_invariant(self);
        }
        self.secs
    }

    /// Nanoseconds since the last whole second.
    pub fn subsec_nanos(&self) -> (nanos: u32)
        ensures
            nanos == subsec_of(self@),
    {
        proof {
            use_type_invariant(self);
        }
        self.nanos
    }

    /// Whether this moment comes strictly after `other`.
    pub fn is_after(&self, other: &Moment) -> (later: bool)
        ensures
            later == (self@ > other@),
    {
        proof {
            use_type_invariant(self);
            use_type_invariant(other);
        }
        self.secs > other.secs || (self.secs == other.secs && self.nanos > other.nanos)
    }

    /// The same time of day `days` days later (earlier, where `days` is
    /// negative), unless that leaves the calendar.
    pub fn checked_add_days(&self, days: i64) -> (moved: Option<Moment>)
        ensures
            moved is Some <==> representable(shifted(self@, days as int)),
            moved matches Some(m) ==> m@ == shifted(self@, days as int),
    {
        proof {
            use_type_invariant(self);
            assert(nanos_per_day() == 86_400_000_000_000);
            assert(shifted(self@, days as int) == (self.secs + days * 86_400) * 1_000_000_000
                + self.nanos);
        }
        if days < -200_000_000 || days > 200_000_000 {
            return None;
        }
        let secs: i64 = self.secs + days * SECS_PER_DAY;
        if MIN_SECS <= secs && secs <= MAX_SECS {
            Some(Moment { secs, nanos: self.nanos })
        } else {
            None
        }
    }

    /// The same time of day `days` days later (earlier, where `days` is
    /// negative), for a shift that stays in the calendar.
    pub fn add_days(&self, days: i64) -> (moved: Moment)
        requires
            representable(shifted(self@, days as int)),
        ensures
            moved@ == shifted(self@, days as int),
    {
        match self.checked_add_days(days) {
            Some(moved) => moved,
            None => unreached(),
        }
    }

    /// The calendar day of this moment in UTC, counted in days since the
    /// epoch.
    pub fn day_number(&self) -> (day: i64)
        ensures
            day == day_of(self@),
            MIN_SECS <= day * SECS_PER_DAY <= MAX_SECS,
    {
        proof {
            use_type_invariant(self);
        }
        match self.secs.checked_div_euclid(SECS_PER_DAY) {
            Some(day) => day,
            None => unreached(),
        }
    }

    /// The calendar day of this moment in UTC, written as `YYYY-MM-DD`.
    pub fn day_text(&self) -> (text: String)
        ensures
            text@ == date_text(day_of(self@)),
    {
        let day = self.day_number();
        match format_utc_day(day * SECS_PER_DAY) {
            Some(text) => text,
            None => unreached(),
        }
    }
}

/// A shift by whole days moves the calendar day by as many days, whatever the
/// time of day.
pub proof fn lemma_shift_moves_day(t: int, days: int)
    ensures
        day_of(shifted(t, days)) == day_of(t) + days,
        subsec_of(shifted(t, days)) == subsec_of(t),
{
    assert(nanos_per_day() == 86_400_000_000_000);
}

} // verus!
