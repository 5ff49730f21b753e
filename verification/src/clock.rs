//! Times of day and the signed spans between them. The arithmetic is chrono's:
//! each call into it stands behind a small trusted function whose contract is
//! written over plain integers.

use chrono::{Local, NaiveTime, TimeDelta, Timelike};
use vstd::prelude::*;

verus! {

/// A time of day: whole seconds since midnight and the nanoseconds past that
/// second. During a leap second the nanoseconds run from 1,000,000,000 up to
/// 1,999,999,999, and only on the last second of a minute.
#[derive(Clone, Copy, Debug, PartialEq, Eq, Structural)]
pub struct TimeOfDay {
    secs: u32,
    nanos: u32,
}

/// A signed length of time, counted in nanoseconds.
#[derive(Clone, Copy, Debug, PartialEq, Eq, Structural)]
pub struct Span {
    nanos: i64,
}

/// Integer division that rounds toward zero, for a positive divisor.
pub open spec fn div_toward_zero(a: int, b: int) -> int
    recommends
        b > 0,
{
    if a >= 0 {
        a / b
    } else {
        -((-a) / b)
    }
}

/// The pairs of seconds and nanoseconds that stand for a time of day.
pub open spec fn valid_time(secs: int, nanos: int) -> bool {
    &&& 0 <= secs < 86_400
    &&& 0 <= nanos < 2_000_000_000
    &&& (nanos >= 1_000_000_000 ==> secs % 60 == 59)
}

/// The seconds since midnight of `hour:min:sec`, where that is a time of day.
pub open spec fn hms_secs(hour: int, min: int, sec: int) -> Option<int> {
    if 0 <= hour < 24 && 0 <= min < 60 && 0 <= sec < 60 {
        Some(hour * 3600 + min * 60 + sec)
    } else {
        None
    }
}

/// Nanoseconds from `earlier` to `later`, negative where `later` comes first.
/// A leap second that lies between the two whole seconds is counted.
pub open spec fn nanos_between(later: TimeOfDay, earlier: TimeOfDay) -> int {
    let leap: int = if later.secs() > earlier.secs() && earlier.nanos() >= 1_000_000_000 {
        1
    } else if later.secs() < earlier.secs() && later.nanos() >= 1_000_000_000 {
        -1
    } else {
        0
    };
    (later.secs() - earlier.secs() + leap) * 1_000_000_000 + (later.nanos() - earlier.nanos())
}

/// `chrono::NaiveTime::from_hms_opt`, read back through
/// `Timelike::num_seconds_from_midnight` and `Timelike::nanosecond`: a time
/// exactly where hour, minute and second are in range, then with that many
/// seconds since midnight and no nanoseconds.
#[verifier::external_body]
fn chrono_from_hms(hour: u32, min: u32, sec: u32) -> (r: Option<TimeOfDay>)
    ensures
        r is Some <==> hms_secs(hour as int, min as int, sec as int) is Some,
        r matches Some(t) ==> t.secs() == hms_secs(hour as int, min as int, sec as int)->0
            && t.nanos() == 0,
{
    let t = NaiveTime::from_hms_opt(hour, min, sec)?;
    Some(TimeOfDay { secs: t.num_seconds_from_midnight(), nanos: t.nanosecond() })
}

/// `chrono::NaiveTime::signed_duration_since` on the two times, rebuilt by
/// `NaiveTime::from_num_seconds_from_midnight_opt`, and read back through
/// `TimeDelta::num_nanoseconds`: for two times of day, the nanoseconds from
/// `earlier` to `later`, with a leap second between them counted.
#[verifier::external_body]
fn chrono_nanos_between(later: TimeOfDay, earlier: TimeOfDay) -> (r: Option<i64>)
    requires
        later.wf(),
        earlier.wf(),
    ensures
        r is Some,
        r->0 == nanos_between(later, earlier),
{
    let a = NaiveTime::from_num_seconds_from_midnight_opt(later.secs, later.nanos)?;
    let b = NaiveTime::from_num_seconds_from_midnight_opt(earlier.secs, earlier.nanos)?;
    a.signed_duration_since(b).num_nanoseconds()
}

/// `chrono::TimeDelta::num_hours` of `TimeDelta::nanoseconds(nanos)`: the
/// whole hours in the span, rounded toward zero.
#[verifier::external_body]
fn chrono_num_hours(nanos: i64) -> (r: i64)
    ensures
        r == div_toward_zero(nanos as int, 3_600_000_000_000),
{
    TimeDelta::nanoseconds(nanos).num_hours()
}

/// `chrono::TimeDelta::num_minutes` of `TimeDelta::nanoseconds(nanos)`: the
/// whole minutes in the span, rounded toward zero.
#[verifier::external_body]
fn chrono_num_minutes(nanos: i64) -> (r: i64)
    ensures
        r == div_toward_zero(nanos as int, 60_000_000_000),
{
    TimeDelta::nanoseconds(nanos).num_minutes()
}

/// `chrono::TimeDelta::num_seconds` of `TimeDelta::nanoseconds(nanos)`: the
/// whole seconds in the span, rounded toward zero.
#[verifier::external_body]
fn chrono_num_seconds(nanos: i64) -> (r: i64)
    ensures
        r == div_toward_zero(nanos as int, 1_000_000_000),
{
    TimeDelta::nanoseconds(nanos).num_seconds()
}

/// `chrono::TimeDelta::num_milliseconds` of `TimeDelta::nanoseconds(nanos)`:
/// the whole milliseconds in the span, rounded toward zero.
#[verifier::external_body]
fn chrono_num_milliseconds(nanos: i64) -> (r: i64)
    ensures
        r == div_toward_zero(nanos as int, 1_000_000),
{
    TimeDelta::nanoseconds(nanos).num_milliseconds()
}

/// `chrono::Local::now` and `DateTime::time`, read through
/// `Timelike::num_seconds_from_midnight` and `Timelike::nanosecond`: the local
/// wall clock's time of day. Nothing is promised of which time it is, only
/// that it is one. The call takes nothing, so nothing can keep it from a
/// machine whose clock stands before 1970 or whose zone data gives no local
/// time: there chrono panics.
#[verifier::external_body]
fn chrono_local_time() -> (t: TimeOfDay)
    ensures
        t.wf(),
{
    let now = Local::now().time();
    TimeOfDay { secs: now.num_seconds_from_midnight(), nanos: now.nanosecond() }
}

impl TimeOfDay {
    /// Whole seconds since midnight.
    pub closed spec fn secs(self) -> int {
        self.secs as int
    }

    /// Nanoseconds past the whole second.
    pub closed spec fn nanos(self) -> int {
        self.nanos as int
    }

    /// The fields stand for a time of day. Every value that a program holds
    /// does; a value that only a proof speaks of has to be asked.
    #[verifier::type_invariant]
    pub open spec fn wf(self) -> bool {
        valid_time(self.secs(), self.nanos())
    }

    /// `self` is strictly earlier in the day than `other`.
    pub open spec fn earlier_than(self, other: TimeOfDay) -> bool {
        self.secs() < other.secs() || (self.secs() == other.secs() && self.nanos() < other.nanos())
    }

    /// `self` is the same time as `other` or earlier.
    pub open spec fn no_later_than(self, other: TimeOfDay) -> bool {
        !other.earlier_than(self)
    }

    /// The time with the given seconds since midnight and nanoseconds, where
    /// the two stand for one.
    pub fn new(secs: u32, nanos: u32) -> (r: Option<TimeOfDay>)
        ensures
            r is Some <==> valid_time(secs as int, nanos as int),
            r matches Some(t) ==> t.wf() && t.secs() == secs && t.nanos() == nanos,
    {
        if secs >= 86_400 || nanos >= 2_000_000_000 || (nanos >= 1_000_000_000 && secs % 60 != 59) {
            None
        } else {
            Some(TimeOfDay { secs, nanos })
        }
    }

    /// The time `hour:min:sec`, where each part is in range.
    pub fn from_hms(hour: u32, min: u32, sec: u32) -> (r: Option<TimeOfDay>)
        ensures
            r is Some <==> hms_secs(hour as int, min as int, sec as int) is Some,
            r matches Some(t) ==> t.wf() && t.nanos() == 0 && t.secs() == hms_secs(
                hour as int,
                min as int,
                sec as int,
            )->0,
    {
        chrono_from_hms(hour, min, sec)
    }

    /// The local wall clock's time of day at the moment of the call.
    pub fn now_local() -> (t: TimeOfDay)
        ensures
            t.wf(),
    {
        chrono_local_time()
    }

    pub fn seconds_from_midnight(&self) -> (r: u32)
        ensures
            r == self.secs(),
    {
        self.secs
    }

    pub fn nanosecond(&self) -> (r: u32)
        ensures
            r == self.nanos(),
    {
        self.nanos
    }

    pub fn is_before(&self, other: &TimeOfDay) -> (r: bool)
        ensures
            r == self.earlier_than(*other),
    {
        self.secs < other.secs || (self.secs == other.secs && self.nanos < other.nanos)
    }

    pub fn is_at_or_before(&self, other: &TimeOfDay) -> (r: bool)
        ensures
            r == self.no_later_than(*other),
    {
        !other.is_before(self)
    }

    /// The span from `earlier` to `self`.
    pub fn since(&self, earlier: &TimeOfDay) -> (d: Span)
        ensures
            d.nanos() == nanos_between(*self, *earlier),
    {
        proof {
            use_type_invariant(self);
            use_type_invariant(earlier);
        }
        let n = chrono_nanos_between(*self, *earlier);
        Span { nanos: n.unwrap() }
    }
}

impl Span {
    /// The length in nanoseconds.
    pub closed spec fn nanos(self) -> int {
        self.nanos as int
    }

    pub fn from_nanos(nanos: i64) -> (d: Span)
        ensures
            d.nanos() == nanos,
    {
        Span { nanos }
    }

    /// The span of `secs` whole seconds.
    pub fn from_secs(secs: i32) -> (d: Span)
        ensures
            d.nanos() == secs * 1_000_000_000,
    {
        let wide: i64 = secs as i64;
        Span { nanos: wide * 1_000_000_000 }
    }

    pub fn total_nanos(&self) -> (r: i64)
        ensures
            r == self.nanos(),
    {
        self.nanos
    }

    /// Whole hours, rounded toward zero.
    pub fn num_hours(&self) -> (r: i64)
        ensures
            r == div_toward_zero(self.nanos(), 3_600_000_000_000),
    {
        chrono_num_hours(self.nanos)
    }

    /// Whole minutes, rounded toward zero.
    pub fn num_minutes(&self) -> (r: i64)
        ensures
            r == div_toward_zero(self.nanos(), 60_000_000_000),
    {
        chrono_num_minutes(self.nanos)
    }

    /// Whole seconds, rounded toward zero.
    pub fn num_seconds(&self) -> (r: i64)
        ensures
            r == div_toward_zero(self.nanos(), 1_000_000_000),
    {
        chrono_num_seconds(self.nanos)
    }

    /// Whole milliseconds, rounded toward zero.
    pub fn num_milliseconds(&self) -> (r: i64)
        ensures
            r == div_toward_zero(self.nanos(), 1_000_000),
    {
        chrono_num_milliseconds(self.nanos)
    }

    pub fn is_shorter_than(&self, other: &Span) -> (r: bool)
        ensures
            r == (self.nanos() < other.nanos()),
    {
        self.nanos < other.nanos
    }
}

} // verus!
