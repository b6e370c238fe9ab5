use crate::instant::{Instant, InstantView};
use vstd::prelude::*;

verus! {

/// Nanoseconds in one minute.
pub open spec fn nanos_per_minute() -> int {
    60_000_000_000
}

/// The nanoseconds from `start` to `end`; negative where `end` is the earlier.
pub open spec fn spec_nanos_between(start: InstantView, end: InstantView) -> int {
    (end.seconds - start.seconds) * 1_000_000_000 + (end.nanos - start.nanos)
}

/// The whole minutes from `start` to `end`: what is left of a started minute
/// is dropped, towards zero on either side.
pub open spec fn spec_minutes_between(start: InstantView, end: InstantView) -> int {
    let nanos = spec_nanos_between(start, end);
    if nanos >= 0 {
        nanos / nanos_per_minute()
    } else {
        -((-nanos) / nanos_per_minute())
    }
}

/// The whole minutes from `start` to `end`. The offsets play no part: both
/// instants are compared as points in time.
pub fn minutes_between(start: &Instant, end: &Instant) -> (minutes: i64)
    ensures
        minutes == spec_minutes_between(start@, end@),
{
    proof {
        use_type_invariant(start);
        use_type_invariant(end);
    }
    let seconds: i64 = end.seconds() - start.seconds();
    let end_nanos: u32 = end.nanos();
    let start_nanos: u32 = start.nanos();
    let ghost nanos = spec_nanos_between(start@, end@);
    if seconds > 0 || (seconds == 0 && end_nanos >= start_nanos) {
        let whole: i64 = if end_nanos < start_nanos { seconds - 1 } else { seconds };
        let minutes: i64 = whole / 60;
        assert(minutes == nanos / 60_000_000_000) by {
            assert(whole * 1_000_000_000 <= nanos < (whole + 1) * 1_000_000_000);
            assert(minutes * 60 <= whole < minutes * 60 + 60);
        }
        minutes
    } else {
        let back: i64 = -seconds;
        let whole: i64 = if end_nanos > start_nanos { back - 1 } else { back };
        let minutes: i64 = whole / 60;
        assert(minutes == (-nanos) / 60_000_000_000) by {
            assert(whole * 1_000_000_000 <= -nanos < (whole + 1) * 1_000_000_000);
            assert(minutes * 60 <= whole < minutes * 60 + 60);
        }
        -minutes
    }
}

/// Hours worked in a span of whole minutes, as a count of hundredths of an
/// hour: the hundredth nearest to `minutes / 60`.
///
/// `minutes * 100 / 60` is `minutes * 5 / 3`, whose fraction is a third or
/// two thirds when it is not zero, so a nearest hundredth always exists alone.
pub open spec fn spec_hundredths(minutes: int) -> int {
    if minutes >= 0 {
        (10 * minutes + 3) / 6
    } else {
        -((10 * (-minutes) + 3) / 6)
    }
}

/// The hundredths of an hour in `minutes`, rounded to the nearest.
pub fn hundredths_of_minutes(minutes: i64) -> (h: i64)
    requires
        i64::MIN < spec_hundredths(minutes as int) <= i64::MAX,
    ensures
        h == spec_hundredths(minutes as int),
{
    if minutes >= 0 {
        let q: i64 = minutes / 3;
        let r: i64 = minutes % 3;
        let part: i64 = if r == 0 { 0 } else if r == 1 { 2 } else { 3 };
        5 * q + part
    } else {
        let m: i64 = if minutes == i64::MIN { i64::MAX } else { -minutes };
        let q: i64 = m / 3;
        let r: i64 = m % 3;
        let part: i64 = if r == 0 { 0 } else if r == 1 { 2 } else { 3 };
        -(5 * q + part)
    }
}

/// The hours from `start` to `end` in hundredths, as a record keeps them.
pub open spec fn spec_hours_between(start: InstantView, end: InstantView) -> int {
    spec_hundredths(spec_minutes_between(start, end))
}

/// The hours from `start` to `end`, in hundredths of an hour: the whole
/// minutes between the two, divided by sixty and rounded to two decimals.
pub fn hours_between(start: &Instant, end: &Instant) -> (h: i64)
    ensures
        h == spec_hours_between(start@, end@),
{
    proof {
        use_type_invariant(start);
        use_type_invariant(end);
    }
    let minutes: i64 = minutes_between(start, end);
    hundredths_of_minutes(minutes)
}

/// The whole minutes between two instants are the full minutes that fit into
/// the time from the earlier to the later one.
pub proof fn lemma_minutes_are_floor(start: Instant, end: Instant)
    requires
        start.wf(),
        end.wf(),
        spec_nanos_between(start@, end@) >= 0,
    ensures
        spec_minutes_between(start@, end@) >= 0,
        spec_minutes_between(start@, end@) * nanos_per_minute() <= spec_nanos_between(start@, end@),
        spec_nanos_between(start@, end@) < (spec_minutes_between(start@, end@) + 1)
            * nanos_per_minute(),
{
}

/// The hundredths kept for a span of minutes are the two-decimal rounding of
/// `minutes / 60`: they lie within a third of a hundredth of it, and no other
/// count of hundredths lies within half a hundredth.
pub proof fn lemma_hundredths_are_nearest(minutes: int, other: int)
    ensures
        -1 <= 3 * spec_hundredths(minutes) - 5 * minutes <= 1,
        -3 <= 6 * other - 10 * minutes <= 3 ==> other == spec_hundredths(minutes),
        spec_hundredths(-minutes) == -spec_hundredths(minutes),
{
}

/// For a clock-out at or after the clock-in, the recorded hours are the full
/// minutes in between, divided by sixty and rounded to two decimals.
pub proof fn lemma_recorded_hours(start: Instant, end: Instant)
    requires
        start.wf(),
        end.wf(),
        spec_nanos_between(start@, end@) >= 0,
    ensures
        ({
            let minutes = spec_nanos_between(start@, end@) / nanos_per_minute();
            let hours = spec_hours_between(start@, end@);
            &&& hours >= 0
            &&& -1 <= 3 * hours - 5 * minutes <= 1
        }),
{
    lemma_minutes_are_floor(start, end);
    lemma_hundredths_are_nearest(spec_minutes_between(start@, end@), 0);
}

} // verus!
