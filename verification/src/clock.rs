//! The clock that sample times are read off.
//!
//! The clock is the monotonic clock of the standard library. What it shows is
//! nobody's to promise; how two of its readings lie to each other is stated
//! here.

use std::time::{Duration, Instant};
use vstd::prelude::*;

verus! {

/// A reading of the monotonic clock.
#[verifier::external_type_specification]
#[verifier::external_body]
pub struct ExInstant(Instant);

/// Where an instant lies on its clock, in nanoseconds from some fixed point.
pub uninterp spec fn instant_reading(instant: Instant) -> int;

/// How many nanoseconds a duration lasts.
pub uninterp spec fn duration_nanos(duration: Duration) -> nat;

/// `Instant::now`. Nothing is known of the time, not even that it is no earlier
/// than that of the call before: a platform's clock may fail to keep to that.
pub assume_specification[ Instant::now ]() -> (now: Instant);

/// `Instant::duration_since`. Taken on trust: it is the time from the earlier
/// instant to the other, or no time at all if that one is not the earlier.
pub assume_specification[ Instant::duration_since ](now: &Instant, earlier: Instant) -> (elapsed:
    Duration)
    ensures
        duration_nanos(elapsed) == nanos_between(
            instant_reading(earlier),
            instant_reading(*now),
        ),
;

/// `Duration::as_millis`. Taken on trust: it is the number of whole milliseconds
/// in the duration.
pub assume_specification[ Duration::as_millis ](duration: &Duration) -> (millis: u128)
    ensures
        millis == duration_nanos(*duration) / 1_000_000,
;

/// The nanoseconds from one reading to another, or 0 if the other comes first.
pub open spec fn nanos_between(start: int, now: int) -> nat {
    if now < start {
        0
    } else {
        (now - start) as nat
    }
}

/// The whole milliseconds from one reading to another.
pub open spec fn millis_between(start: int, now: int) -> nat {
    nanos_between(start, now) / 1_000_000
}

/// The time of a sample that is written at `now` in a recording that started at
/// `start`: the whole milliseconds in between, as far as they fit in 64 bits.
pub open spec fn start_time_at(start: int, now: int) -> u64 {
    (millis_between(start, now) % 0x1_0000_0000_0000_0000) as u64
}

/// As long as the clock does not go back and the milliseconds fit in 64 bits,
/// sample times do not go back.
pub proof fn law_times_follow_the_clock(start: int, first: int, second: int)
    requires
        first <= second,
        millis_between(start, second) < 0x1_0000_0000_0000_0000,
    ensures
        start_time_at(start, first) <= start_time_at(start, second),
        start_time_at(start, second) == millis_between(start, second),
{
    assert(millis_between(start, first) <= millis_between(start, second));
}

/// The time of a sample that is written at `now` in a recording that started at
/// `start`.
pub fn start_time(start: Instant, now: Instant) -> (time: u64)
    ensures
        time == start_time_at(instant_reading(start), instant_reading(now)),
{
    let millis: u128 = now.duration_since(start).as_millis();
    (millis % 0x1_0000_0000_0000_0000) as u64
}

/// The time of a sample is the number of whole milliseconds, of a million
/// nanoseconds each, from the one reading to the other, up to multiples of 2 to
/// the 64; and it is zero if the clock went back.
pub proof fn law_times_are_whole_milliseconds(start: int, now: int)
    ensures
        now < start ==> start_time_at(start, now) == 0,
        start <= now ==> exists|millis: int|
            {
                &&& #[trigger] (millis * 1_000_000) <= now - start
                &&& now - start < millis * 1_000_000 + 1_000_000
                &&& millis % 0x1_0000_0000_0000_0000 == start_time_at(start, now)
            },
        start <= now < start + 0x1_0000_0000_0000_0000 * 1_000_000 ==> {
            &&& start_time_at(start, now) * 1_000_000 <= now - start
            &&& now - start < start_time_at(start, now) * 1_000_000 + 1_000_000
        },
{
    if start <= now {
        let millis = millis_between(start, now) as int;
        assert(millis * 1_000_000 <= now - start);
        assert(now - start < millis * 1_000_000 + 1_000_000);
    }
}

} // verus!
