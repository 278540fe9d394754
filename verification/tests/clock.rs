use weather_station::clock::{
    unix_epoch, Clock, ClockError, Error, WallClockTime, AUCKLAND_UTC_OFFSET_HOURS,
    MAX_UNIX_TIMESTAMP, MAX_UPTIME_SECONDS, MIN_UNIX_TIMESTAMP, SECONDS_PER_HOUR,
};

const THIRTEEN_HOURS: i32 = 13 * 3600;

#[test]
fn new_clock_keeps_boot_time_and_is_thirteen_hours_ahead() {
    let clock = Clock::new(1_700_000_000);
    assert_eq!(clock.boot_time(), 1_700_000_000);
    assert_eq!(clock.offset_seconds(), THIRTEEN_HOURS);
    assert_eq!(
        clock.offset_seconds(),
        AUCKLAND_UTC_OFFSET_HOURS as i32 * SECONDS_PER_HOUR
    );
    assert!(clock.is_valid());
}

#[test]
fn unix_timestamp_is_boot_time_plus_elapsed() {
    let clock = Clock::new(1_700_000_000);
    assert_eq!(clock.unix_timestamp_after(0), 1_700_000_000);
    assert_eq!(clock.unix_timestamp_after(1), 1_700_000_001);
    assert_eq!(clock.unix_timestamp_after(86_400), 1_700_086_400);
}

#[test]
fn now_as_unix_timestamp_starts_at_boot_time() {
    let clock = Clock::new(1_700_000_000);
    let first = clock.now_as_unix_timestamp();
    let second = clock.now_as_unix_timestamp();
    assert!(first >= 1_700_000_000);
    assert!(second >= first);
    assert!(second - 1_700_000_000 <= MAX_UPTIME_SECONDS);
}

#[test]
fn local_time_is_thirteen_hours_ahead_of_utc() {
    let clock = Clock::new(1_546_300_800);
    let local = clock.time_after(0).unwrap();
    assert_eq!(
        local,
        WallClockTime { unix_timestamp: 1_546_300_800, offset_seconds: THIRTEEN_HOURS }
    );
    assert_eq!(
        local.unix_timestamp + local.offset_seconds as i64,
        1_546_300_800 + 13 * 3600
    );
}

#[test]
fn time_after_adds_elapsed_seconds() {
    let clock = Clock::new(1_000);
    assert_eq!(
        clock.time_after(234),
        Ok(WallClockTime { unix_timestamp: 1_234, offset_seconds: THIRTEEN_HOURS })
    );
}

#[test]
fn now_is_at_or_after_boot() {
    let clock = Clock::new(1_700_000_000);
    let local = clock.now().unwrap();
    assert!(local.unix_timestamp >= 1_700_000_000);
    assert_eq!(local.offset_seconds, THIRTEEN_HOURS);
}

#[test]
fn last_representable_local_second() {
    let last = MAX_UNIX_TIMESTAMP as u64 - THIRTEEN_HOURS as u64;
    let clock = Clock::new(last);
    assert_eq!(
        clock.time_after(0),
        Ok(WallClockTime { unix_timestamp: last as i64, offset_seconds: THIRTEEN_HOURS })
    );
    assert_eq!(clock.time_after(1), Err(Error::InvalidOffset));
}

#[test]
fn offset_pushes_instant_out_of_range() {
    let clock = Clock::new(MAX_UNIX_TIMESTAMP as u64);
    assert_eq!(clock.time_after(0), Err(Error::InvalidOffset));
    let clock = Clock::new(MAX_UNIX_TIMESTAMP as u64 - 100);
    assert_eq!(clock.time_after(100), Err(ClockError::InvalidOffset));
}

#[test]
fn instant_beyond_last_date_is_out_of_range() {
    let clock = Clock::new(MAX_UNIX_TIMESTAMP as u64);
    assert_eq!(clock.time_after(1), Err(Error::OutOfRange));
    let clock = Clock::new(MAX_UNIX_TIMESTAMP as u64 + 1);
    assert!(!clock.is_valid());
    assert_eq!(clock.time_after(0), Err(Error::OutOfRange));
}

#[test]
fn overflowing_sum_is_out_of_range() {
    let clock = Clock::new(u64::MAX);
    assert_eq!(clock.time_after(1), Err(Error::OutOfRange));
    assert_eq!(clock.time_after(0), Err(Error::OutOfRange));
    let clock = Clock::new(i64::MAX as u64);
    assert_eq!(clock.time_after(1), Err(Error::OutOfRange));
}

#[test]
fn now_at_invalid_boot_time_fails() {
    let clock = Clock::new(u64::MAX);
    assert_eq!(clock.now(), Err(Error::OutOfRange));
}

#[test]
fn range_of_timestamps_is_that_of_the_calendar() {
    let first = time::OffsetDateTime::from_unix_timestamp(MIN_UNIX_TIMESTAMP).unwrap();
    assert_eq!(first.year(), -9999);
    assert_eq!(first.ordinal(), 1);
    assert_eq!((first.hour(), first.minute(), first.second()), (0, 0, 0));
    assert!(time::OffsetDateTime::from_unix_timestamp(MIN_UNIX_TIMESTAMP - 1).is_err());
    let last = time::OffsetDateTime::from_unix_timestamp(MAX_UNIX_TIMESTAMP).unwrap();
    assert_eq!(last.year(), 9999);
    assert_eq!((last.hour(), last.minute(), last.second()), (23, 59, 59));
    assert!(time::OffsetDateTime::from_unix_timestamp(MAX_UNIX_TIMESTAMP + 1).is_err());
}

#[test]
fn component_range_becomes_out_of_range() {
    let error = time::OffsetDateTime::from_unix_timestamp(i64::MAX).unwrap_err();
    assert_eq!(Error::from(error), Error::OutOfRange);
}

#[test]
fn unix_epoch_is_zero_in_utc() {
    assert_eq!(unix_epoch(), WallClockTime { unix_timestamp: 0, offset_seconds: 0 });
}
