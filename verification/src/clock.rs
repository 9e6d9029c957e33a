//! The wall clock: a moment as plain numbers, read from the system's local
//! time, and the stopwatch that times a session.

use vstd::prelude::*;
use vstd::string::*;
use chrono::Timelike;
use crate::text::{decimal, decimal_string};

verus! {

/// A moment of local time: its place on the time line, as whole seconds and
/// nanoseconds since the start of 1970 (UTC), and what a wall clock shows.
#[derive(Clone, Copy, Debug, PartialEq, Eq, Structural)]
pub struct Moment {
    pub seconds: i64,
    pub nanos: u32,
    pub hour: u32,
    pub minute: u32,
}

/// Reads the clock: `chrono::Local::now`, taken apart by
/// `DateTime::timestamp`, `DateTime::timestamp_subsec_nanos`,
/// `Timelike::hour` and `Timelike::minute`. Of the result only the ranges
/// that chrono documents for the hour and the minute are claimed.
#[verifier::external_body]
pub(crate) fn local_now() -> (now: Moment)
    ensures
        now.on_the_clock(),
{
    let now = chrono::Local::now();
    Moment {
        seconds: now.timestamp(),
        nanos: now.timestamp_subsec_nanos(),
        hour: now.hour(),
        minute: now.minute(),
    }
}

/// Nanoseconds in a second.
pub open spec fn nanos_per_second() -> int {
    1_000_000_000
}

/// The nanoseconds from `start` to `end`; negative when `end` is earlier.
pub open spec fn nanos_between(start: Moment, end: Moment) -> int {
    (end.seconds - start.seconds) * nanos_per_second() + (end.nanos - start.nanos)
}

/// `n`, held within the range of `i64`.
pub open spec fn saturated(n: int) -> int {
    if n > i64::MAX {
        i64::MAX as int
    } else if n < i64::MIN {
        i64::MIN as int
    } else {
        n
    }
}

/// The whole seconds from `start` to `end`, rounded towards zero and held
/// within the range of `i64`.
pub open spec fn whole_seconds(start: Moment, end: Moment) -> int {
    let nanos = nanos_between(start, end);
    saturated(
        if nanos >= 0 {
            nanos / nanos_per_second()
        } else {
            -((-nanos) / nanos_per_second())
        },
    )
}

/// The whole seconds from `start` to `end`.
pub fn seconds_between(start: Moment, end: Moment) -> (seconds: i64)
    ensures
        seconds == whole_seconds(start, end),
{
    let whole: i128 = end.seconds as i128 - start.seconds as i128;
    let part: i128 = end.nanos as i128 - start.nanos as i128;
    assert(-0x1_0000_0000_0000_0000 <= whole <= 0x1_0000_0000_0000_0000);
    assert(whole * 1_000_000_000 <= 0x1_0000_0000_0000_0000 * 1_000_000_000 && whole
        * 1_000_000_000 >= -0x1_0000_0000_0000_0000 * 1_000_000_000) by (nonlinear_arith)
        requires
            -0x1_0000_0000_0000_0000 <= whole <= 0x1_0000_0000_0000_0000,
    ;
    let nanos: i128 = whole * 1_000_000_000 + part;
    let rounded: i128 = if nanos >= 0 {
        nanos / 1_000_000_000
    } else {
        -((-nanos) / 1_000_000_000)
    };
    if rounded > i64::MAX as i128 {
        i64::MAX
    } else if rounded < i64::MIN as i128 {
        i64::MIN
    } else {
        rounded as i64
    }
}

/// `n` in decimal with at least two digits.
pub open spec fn two_digits(n: nat) -> Seq<char> {
    if n < 10 {
        seq!['0'] + decimal(n)
    } else {
        decimal(n)
    }
}

/// What a wall clock shows: hour and minute, two digits each, with a colon
/// between them.
pub open spec fn clock_text(hour: u32, minute: u32) -> Seq<char> {
    two_digits(hour as nat).push(':') + two_digits(minute as nat)
}

/// Writes `n` in decimal with at least two digits.
fn two_digit_string(n: u32) -> (s: String)
    ensures
        s@ == two_digits(n as nat),
{
    let digits = decimal_string(n as u64);
    if n < 10 {
        let mut s = String::new();
        s.push('0');
        s.append(digits.as_str());
        assert(s@ =~= seq!['0'] + decimal(n as nat));
        s
    } else {
        digits
    }
}

/// Writes the time as a wall clock shows it.
pub fn format_clock(hour: u32, minute: u32) -> (s: String)
    ensures
        s@ == clock_text(hour, minute),
{
    let mut s = two_digit_string(hour);
    s.push(':');
    s.append(two_digit_string(minute).as_str());
    s
}

impl Moment {
    /// Whether the hour and the minute are those of a wall clock.
    pub open spec fn on_the_clock(&self) -> bool {
        self.hour <= 23 && self.minute <= 59
    }
}

/// A stopwatch: the moment it was started and the moment it was stopped.
pub struct Timer {
    pub start_time: Option<Moment>,
    pub end_time: Option<Moment>,
}

impl Timer {
    /// A stopwatch that was neither started nor stopped.
    pub fn new() -> (timer: Timer)
        ensures
            timer.start_time is None,
            timer.end_time is None,
    {
        Timer { start_time: None, end_time: None }
    }

    /// Starts the stopwatch now.
    pub fn start(&mut self)
        ensures
            final(self).start_time is Some,
            final(self).start_time->0.on_the_clock(),
            final(self).end_time == old(self).end_time,
    {
        self.start_time = Some(local_now());
    }

    /// Stops the stopwatch now.
    pub fn end(&mut self)
        ensures
            final(self).end_time is Some,
            final(self).end_time->0.on_the_clock(),
            final(self).start_time == old(self).start_time,
    {
        self.end_time = Some(local_now());
    }

    /// The whole seconds from the start to the stop.
    pub fn get_duration_sec(&self) -> (seconds: i64)
        requires
            self.start_time is Some,
            self.end_time is Some,
        ensures
            seconds == whole_seconds(self.start_time->0, self.end_time->0),
    {
        seconds_between(self.start_time.unwrap(), self.end_time.unwrap())
    }
}

} // verus!
