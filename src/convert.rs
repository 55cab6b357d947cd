//! The protocol's native time representations and their conversion to
//! chrono's date-time and duration types (one way, construction only).
use vstd::prelude::*;
use vstd::arithmetic::div_mod::lemma_fundamental_div_mod_converse;
use chrono::{DateTime, Datelike, TimeDelta, Timelike};

verus! {

#[verifier::external_type_specification]
#[verifier::external_body]
pub struct ExTimeDelta(TimeDelta);

/// Nanoseconds in one second.
pub const NANOS_PER_SECOND: i64 = 1_000_000_000;

/// The first second that chrono can represent: January 1 of year -262143.
pub const DATE_MIN_SECONDS: i64 = -8_334_601_228_800;

/// The last second that chrono can represent: December 31 of year 262142,
/// 23:59:59.
pub const DATE_MAX_SECONDS: i64 = 8_210_266_876_799;

/// The largest number of whole seconds that a chrono duration holds.
pub const DELTA_MAX_SECONDS: i64 = 9_223_372_036_854_775;

/// An instant as seconds and nanoseconds since the epoch; `nanos` may lie
/// outside one second and is added to `seconds`.
#[derive(Clone, Copy, Debug, PartialEq, Eq, Structural)]
pub struct Timestamp {
    pub seconds: i64,
    pub nanos: i32,
}

/// An instant in whole seconds since the epoch.
#[derive(Clone, Copy, Debug, PartialEq, Eq, Structural)]
pub struct TimestampSeconds {
    pub seconds: i64,
}

/// A length of time in whole seconds.
#[derive(Clone, Copy, Debug, PartialEq, Eq, Structural)]
pub struct Duration {
    pub seconds: i64,
}

/// A length of time as chrono holds it, with the whole seconds and the
/// nanoseconds that chrono reports for it.
#[derive(Clone, Copy, Debug)]
pub struct TimeSpan {
    pub seconds: i64,
    pub nanos: i32,
    pub delta: TimeDelta,
}

/// A UTC calendar date and time of day, as chrono computes it.
#[derive(Clone, Copy, Debug, PartialEq, Eq, Structural)]
pub struct UtcDateTime {
    pub year: i32,
    pub month: u32,
    pub day: u32,
    pub hour: u32,
    pub minute: u32,
    pub second: u32,
    /// Nanoseconds past the second; from one second up in a leap second.
    pub nanosecond: u32,
}

/// The proleptic Gregorian (year, month, day) of the given day since the
/// epoch, January 1 1970 being day 0. Years run from March, in 400-year eras
/// of 146097 days.
pub open spec fn civil_date(days: int) -> (int, int, int) {
    let z = days + 719468;
    let era = z / 146097;
    let doe = z - era * 146097;
    let yoe = (doe - doe / 1460 + doe / 36524 - doe / 146096) / 365;
    let doy = doe - (365 * yoe + yoe / 4 - yoe / 100);
    let mp = (5 * doy + 2) / 153;
    let day = doy - (153 * mp + 2) / 5 + 1;
    let month = if mp < 10 {
        mp + 3
    } else {
        mp - 9
    };
    let year = yoe + era * 400 + if month <= 2 {
        1int
    } else {
        0
    };
    (year, month, day)
}

/// Whether chrono represents the instant at `secs` seconds past the epoch.
pub open spec fn in_date_range(secs: int) -> bool {
    DATE_MIN_SECONDS <= secs <= DATE_MAX_SECONDS
}

/// The date-time of `secs` seconds and `nanos` nanoseconds past the epoch:
/// the time of day is the remainder of the day, the date is its calendar date.
pub open spec fn is_utc_of(d: UtcDateTime, secs: int, nanos: int) -> bool {
    let t = secs % 86400;
    &&& civil_date(secs / 86400) == (d.year as int, d.month as int, d.day as int)
    &&& d.hour == t / 3600
    &&& d.minute == (t / 60) % 60
    &&& d.second == t % 60
    &&& d.nanosecond == nanos
}

/// The instant of a timestamp in nanoseconds since the epoch.
pub open spec fn total_nanos(t: Timestamp) -> int {
    t.seconds * 1_000_000_000 + t.nanos
}

/// The whole seconds of the instant, rounded down.
pub open spec fn whole_seconds(t: Timestamp) -> int {
    total_nanos(t) / 1_000_000_000
}

/// The nanoseconds of the instant past its whole seconds.
pub open spec fn sub_nanos(t: Timestamp) -> int {
    total_nanos(t) % 1_000_000_000
}

/// Relies on chrono's `DateTime::from_timestamp` and its calendar getters:
/// `None` for seconds outside the date range or a nanosecond count of two
/// seconds or more, a value for any seconds within it with nanoseconds below
/// one second, and the Gregorian date and time of day of the instant.
#[verifier::external_body]
fn utc_from_timestamp(secs: i64, nanos: u32) -> (r: Option<UtcDateTime>)
    ensures
        nanos >= 2_000_000_000 ==> r is None,
        !in_date_range(secs as int) ==> r is None,
        nanos < 1_000_000_000 && in_date_range(secs as int) ==> r is Some,
        r is Some ==> is_utc_of(r->Some_0, secs as int, nanos as int),
{
    DateTime::from_timestamp(secs, nanos).map(|d| UtcDateTime {
        year: d.year(),
        month: d.month(),
        day: d.day(),
        hour: d.hour(),
        minute: d.minute(),
        second: d.second(),
        nanosecond: d.nanosecond(),
    })
}

/// Relies on chrono's `TimeDelta::try_seconds`, `num_seconds` and
/// `subsec_nanos`: a value exactly when the seconds lie within the duration
/// range, holding those seconds and no nanoseconds.
#[verifier::external_body]
fn delta_from_seconds(secs: i64) -> (r: Option<TimeSpan>)
    ensures
        r is Some <==> -DELTA_MAX_SECONDS <= secs <= DELTA_MAX_SECONDS,
        r is Some ==> r->Some_0.seconds == secs && r->Some_0.nanos == 0,
{
    TimeDelta::try_seconds(secs).map(
        |d| TimeSpan { seconds: d.num_seconds(), nanos: d.subsec_nanos(), delta: d },
    )
}

impl Timestamp {
    /// The same instant with the nanoseconds within one second, or `None`
    /// where its seconds do not fit in an `i64`.
    pub fn normalized(&self) -> (r: Option<(i64, u32)>)
        ensures
            match r {
                Some((s, n)) => s == whole_seconds(*self) && n == sub_nanos(*self),
                None => !(i64::MIN <= whole_seconds(*self) <= i64::MAX),
            },
    {
        let mut n: i64 = self.nanos as i64;
        let mut carry: i64 = 0;
        while n < 0
            invariant
                n + carry * NANOS_PER_SECOND == self.nanos,
                -3 <= carry <= 0,
            decreases 3 + carry,
        {
            n = n + NANOS_PER_SECOND;
            carry = carry - 1;
        }
        while n >= NANOS_PER_SECOND
            invariant
                n + carry * NANOS_PER_SECOND == self.nanos,
                -3 <= carry <= 3,
                n >= 0,
            decreases 3 - carry,
        {
            n = n - NANOS_PER_SECOND;
            carry = carry + 1;
        }
        proof {
            assert(total_nanos(*self) == (self.seconds + carry) * 1_000_000_000 + n) by (nonlinear_arith)
                requires
                    n + carry * 1_000_000_000 == self.nanos,
            ;
            lemma_fundamental_div_mod_converse(total_nanos(*self), 1_000_000_000, self.seconds + carry, n as int);
        }
        match self.seconds.checked_add(carry) {
            Some(s) => Some((s, n as u32)),
            None => None,
        }
    }

    /// The instant as a UTC date-time: a value exactly when chrono represents
    /// the instant, with its date and time of day.
    pub fn to_utc(&self) -> (r: Option<UtcDateTime>)
        ensures
            r is Some <==> in_date_range(whole_seconds(*self)),
            r is Some ==> is_utc_of(r->Some_0, whole_seconds(*self), sub_nanos(*self)),
    {
        match self.normalized() {
            Some((s, n)) => utc_from_timestamp(s, n),
            None => None,
        }
    }
}

impl TimestampSeconds {
    /// The instant as a UTC date-time: a value exactly when chrono represents
    /// the instant, with its date and time of day.
    pub fn to_utc(&self) -> (r: Option<UtcDateTime>)
        ensures
            r is Some <==> in_date_range(self.seconds as int),
            r is Some ==> is_utc_of(r->Some_0, self.seconds as int, 0),
    {
        utc_from_timestamp(self.seconds, 0)
    }
}

impl Duration {
    /// The duration as a chrono duration: a value exactly when its seconds
    /// lie within chrono's duration range, holding those seconds and no
    /// nanoseconds.
    pub fn to_time_delta(&self) -> (r: Option<TimeSpan>)
        ensures
            r is Some <==> -DELTA_MAX_SECONDS <= self.seconds <= DELTA_MAX_SECONDS,
            r is Some ==> r->Some_0.seconds == self.seconds && r->Some_0.nanos == 0,
    {
        delta_from_seconds(self.seconds)
    }
}

} // verus!
