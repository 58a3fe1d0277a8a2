//! The clock: how the time is written, and when the clock is to be read next.

use crate::config::types::TimeFormat;
use vstd::prelude::*;

verus! {

/// The number of nanoseconds in a second.
pub const NANOS_PER_SECOND: u64 = 1_000_000_000;

/// The pattern that writes the time: short or expanded, with twelve hours or
/// with twenty-four.
pub open spec fn pattern_of(format: TimeFormat, expanded: bool) -> Seq<char> {
    match (format, expanded) {
        (TimeFormat::_12h, false) => "%a %-I:%M %p"@,
        (TimeFormat::_12h, true) => "%A, %b %d %H:%M:%S %p"@,
        (TimeFormat::_24h, false) => "%a %k:%M"@,
        (TimeFormat::_24h, true) => "%A, %b %e %k:%M:%S"@,
    }
}

/// The pattern that the clock hands to the formatter.
pub fn strftime_pattern(format: TimeFormat, expanded: bool) -> (pattern: &'static str)
    ensures
        pattern@ == pattern_of(format, expanded),
{
    match (format, expanded) {
        // Sun 5:14 PM
        (TimeFormat::_12h, false) => "%a %-I:%M %p",
        // Sunday, Jun 22 5:14:34 PM
        (TimeFormat::_12h, true) => "%A, %b %d %H:%M:%S %p",
        // Sun 22:14
        (TimeFormat::_24h, false) => "%a %k:%M",
        // Sunday, Jun 22 22:14:34
        (TimeFormat::_24h, true) => "%A, %b %e %k:%M:%S",
    }
}

/// The time from a moment to the next full second, or to the next full
/// minute, in nanoseconds. The moment is given as whole seconds since the
/// epoch and nanoseconds into the second.
pub open spec fn until_next(every_second: bool, seconds: int, subsec_nanos: int) -> int {
    if every_second {
        NANOS_PER_SECOND - subsec_nanos
    } else {
        (60 - seconds % 60) * NANOS_PER_SECOND - subsec_nanos
    }
}

/// How long the clock sleeps before it is read again, in nanoseconds, so that
/// it changes exactly on the second, or on the minute: at least one
/// nanosecond, at most a second or a minute.
pub fn delay_until_next(every_second: bool, seconds: u64, subsec_nanos: u32) -> (nanos: u64)
    requires
        subsec_nanos < NANOS_PER_SECOND,
    ensures
        nanos == until_next(every_second, seconds as int, subsec_nanos as int),
        1 <= nanos <= (if every_second { 1int } else { 60int }) * NANOS_PER_SECOND,
{
    if every_second {
        // Wait until next second
        NANOS_PER_SECOND - subsec_nanos as u64
    } else {
        // Wait until next minute
        let secs_into_minute: u64 = seconds % 60;
        (60 - secs_into_minute) * NANOS_PER_SECOND - subsec_nanos as u64
    }
}

} // verus!
