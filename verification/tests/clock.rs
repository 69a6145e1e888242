use prtsc::clock::start_time;
use std::time::{Duration, Instant};

#[test]
fn times_are_whole_milliseconds_from_the_start() {
    let start = Instant::now();
    assert_eq!(start_time(start, start), 0);
    assert_eq!(start_time(start, start + Duration::from_nanos(999_999)), 0);
    assert_eq!(start_time(start, start + Duration::from_nanos(1_000_000)), 1);
    assert_eq!(start_time(start, start + Duration::from_micros(1_500_999)), 1500);
    assert_eq!(start_time(start, start + Duration::from_secs(7200)), 7_200_000);
}

#[test]
fn times_before_the_start_are_zero() {
    let now = Instant::now();
    assert_eq!(start_time(now + Duration::from_secs(5), now), 0);
}

#[test]
fn later_readings_give_no_smaller_times() {
    let start = Instant::now();
    let mut last: u64 = 0;
    for step in 0..50u64 {
        let time = start_time(start, start + Duration::from_micros(step * 700));
        assert!(time >= last);
        last = time;
    }
    assert_eq!(last, 34);
}
