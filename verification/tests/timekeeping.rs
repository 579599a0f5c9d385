use esp01::time::{SysTime, Time, Timer, TimerError};

#[test]
fn breakdown_of_a_microsecond_count() {
    let t = Time::new(3_661_001_234);
    assert_eq!(
        t,
        Time { day: 0, hour: 1, minute: 1, second: 1, milli_second: 1, micro_second: 234 },
    );
}

#[test]
fn breakdown_of_zero() {
    let t = Time::new(0);
    assert_eq!(
        t,
        Time { day: 0, hour: 0, minute: 0, second: 0, milli_second: 0, micro_second: 0 },
    );
}

#[test]
fn compute_accumulates() {
    let mut t = Time::new(1_500_000);
    t.compute(2_500_000);
    // 1.5 s and then 2.5 s: the fields add up without carrying
    assert_eq!(
        t,
        Time { day: 0, hour: 0, minute: 0, second: 3, milli_second: 1000, micro_second: 0 },
    );
}

#[test]
fn elapsed_since_subtracts_field_by_field() {
    let early = Time::new(2_000_000);
    let late = Time::new(5_000_000);
    assert_eq!(late.elapsed_since(&early), Some(Time::new(3_000_000)));
    assert_eq!(early.elapsed(&late), Some(Time::new(3_000_000)));
}

#[test]
fn elapsed_since_refuses_the_wrong_order() {
    let early = Time::new(2_000_000);
    let late = Time::new(5_000_000);
    assert_eq!(early.elapsed_since(&late), None);
    assert_eq!(late.elapsed_since(&late), None);
}

#[test]
fn timer_expires_after_its_timeout() {
    let mut timer = Timer::new(1_000);
    assert!(!timer.has_started());
    timer.start(5_000);
    assert!(timer.has_started());
    assert_eq!(timer.has_expired(5_500), Ok(false));
    assert_eq!(timer.has_expired(6_000), Ok(true));
    // once expired it stays expired
    assert_eq!(timer.has_expired(6_001), Ok(true));
}

#[test]
fn stopped_timer_cannot_be_asked() {
    let mut timer = Timer::new(1_000);
    assert_eq!(timer.has_expired(0), Err(TimerError::NotStarted));
    timer.start(0);
    timer.stop();
    assert_eq!(timer.has_expired(10_000), Err(TimerError::NotStarted));
}

#[test]
fn system_clock_breakdown_spans_days() {
    let t = SysTime::new(90_061_001_002);
    assert_eq!(
        t,
        SysTime { day: 1, hour: 1, minute: 1, second: 1, milli_second: 1, micro_second: 2 },
    );
}

#[test]
fn system_clock_breakdown_takes_the_whole_range() {
    let t = SysTime::new(u64::MAX);
    assert_eq!(t.day, 213_503_982);
    assert_eq!(t.hour, 8);
}

#[test]
fn system_clock_elapsed_since_subtracts_field_by_field() {
    let early = SysTime::new(86_400_000_000);
    let late = SysTime::new(259_200_000_000);
    assert_eq!(late.elapsed_since(&early), Some(SysTime::new(172_800_000_000)));
    assert_eq!(early.elapsed_since(&late), None);
}
