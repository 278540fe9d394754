//! Wall-clock time derived from a boot timestamp, the time since boot and a
//! fixed UTC offset.

use vstd::prelude::*;

verus! {

/// Hours that local time is ahead of UTC.
pub const AUCKLAND_UTC_OFFSET_HOURS: i8 = 13;

/// Seconds in one hour.
pub const SECONDS_PER_HOUR: i32 = 3600;

/// Earliest instant that has a calendar date: the first second of year -9999.
pub const MIN_UNIX_TIMESTAMP: i64 = -377_705_116_800;

/// Latest instant that has a calendar date: the last second of year 9999.
pub const MAX_UNIX_TIMESTAMP: i64 = 253_402_300_799;

/// Largest offset from UTC, in seconds, in either direction: 25:59:59.
pub const MAX_UTC_OFFSET_SECONDS: i32 = 93_599;

/// Largest number of whole seconds since boot that the time driver reports.
pub const MAX_UPTIME_SECONDS: u64 = 18_446_744_073_709;

/// `time::error::ComponentRange`, the error of `time` for a value outside
/// its range. It is handed on and never looked into.
#[verifier::external_type_specification]
#[verifier::external_body]
pub struct ExComponentRange(time::error::ComponentRange);

/// Whether `seconds` since the Unix epoch falls on a representable calendar date.
pub open spec fn representable(seconds: int) -> bool {
    MIN_UNIX_TIMESTAMP <= seconds <= MAX_UNIX_TIMESTAMP
}

/// An instant together with the offset of the local time it is shown in.
#[derive(Clone, Copy, Debug, PartialEq, Eq, Structural)]
pub struct WallClockTime {
    /// Seconds since the Unix epoch, in UTC.
    pub unix_timestamp: i64,
    /// Seconds that the local time is ahead of UTC.
    pub offset_seconds: i32,
}

impl WallClockTime {
    /// Seconds since the Unix epoch as a local wall clock shows them.
    pub open spec fn local_seconds(self) -> int {
        self.unix_timestamp + self.offset_seconds
    }

    /// The instant and its local time both have a calendar date, and the
    /// offset is one that exists.
    pub open spec fn wf(self) -> bool {
        &&& representable(self.unix_timestamp as int)
        &&& representable(self.local_seconds())
        &&& -MAX_UTC_OFFSET_SECONDS <= self.offset_seconds <= MAX_UTC_OFFSET_SECONDS
    }
}

/// The Unix epoch in UTC, which stands for "time unknown".
pub open spec fn spec_unix_epoch() -> WallClockTime {
    WallClockTime { unix_timestamp: 0, offset_seconds: 0 }
}

/// The Unix epoch in UTC, which stands for "time unknown".
#[verifier::when_used_as_spec(spec_unix_epoch)]
pub fn unix_epoch() -> (t: WallClockTime)
    ensures
        t == spec_unix_epoch(),
        t.wf(),
{
    WallClockTime { unix_timestamp: 0, offset_seconds: 0 }
}

/// `time::UtcOffset::from_hms` with whole hours, read back by
/// `whole_seconds`: hours from -25 to 25 give that many hours in seconds,
/// any other number of hours is refused.
#[verifier::external_body]
fn utc_offset_seconds(hours: i8) -> (r: Result<i32, time::error::ComponentRange>)
    ensures
        r is Ok <==> -25 <= hours <= 25,
        r matches Ok(seconds) ==> seconds == hours * SECONDS_PER_HOUR,
{
    match time::UtcOffset::from_hms(hours, 0, 0) {
        Ok(offset) => Ok(offset.whole_seconds()),
        Err(error) => Err(error),
    }
}

/// `time::OffsetDateTime::from_unix_timestamp`, read back by
/// `unix_timestamp` and `offset`: a timestamp from the first second of year
/// -9999 to the last second of year 9999 gives that instant in UTC, any
/// other is refused.
#[verifier::external_body]
fn utc_from_unix_timestamp(timestamp: i64) -> (r: Result<
    WallClockTime,
    time::error::ComponentRange,
>)
    ensures
        r is Ok <==> representable(timestamp as int),
        r matches Ok(utc) ==> utc.unix_timestamp == timestamp && utc.offset_seconds == 0,
{
    match time::OffsetDateTime::from_unix_timestamp(timestamp) {
        Ok(utc) => Ok(
            WallClockTime {
                unix_timestamp: utc.unix_timestamp(),
                offset_seconds: utc.offset().whole_seconds(),
            },
        ),
        Err(error) => Err(error),
    }
}

/// `time::OffsetDateTime::checked_to_offset`, applied to the UTC instant
/// `timestamp` and the offset of `offset_seconds` and read back by
/// `unix_timestamp` and `offset`: the same instant in the new offset, unless
/// the local date would leave the years -9999 to 9999.
#[verifier::external_body]
fn to_offset(timestamp: i64, offset_seconds: i32) -> (r: Option<WallClockTime>)
    requires
        representable(timestamp as int),
        -MAX_UTC_OFFSET_SECONDS <= offset_seconds <= MAX_UTC_OFFSET_SECONDS,
    ensures
        r is Some <==> representable(timestamp + offset_seconds),
        r matches Some(local) ==> local.unix_timestamp == timestamp && local.offset_seconds
            == offset_seconds,
{
    let utc = time::OffsetDateTime::from_unix_timestamp(timestamp);
    let offset = time::UtcOffset::from_whole_seconds(offset_seconds);
    match (utc, offset) {
        (Ok(utc), Ok(offset)) => match utc.checked_to_offset(offset) {
            Some(local) => Some(
                WallClockTime {
                    unix_timestamp: local.unix_timestamp(),
                    offset_seconds: local.offset().whole_seconds(),
                },
            ),
            None => None,
        },
        _ => None,
    }
}

/// `embassy_time::Instant::now`, read by `as_secs`: whole seconds since
/// boot. The time driver that this crate builds with counts ticks of a
/// microsecond in a `u64`, which bounds the seconds; nothing else is known
/// of the value.
#[verifier::external_body]
fn uptime_seconds() -> (seconds: u64)
    ensures
        seconds <= MAX_UPTIME_SECONDS,
{
    embassy_time::Instant::now().as_secs()
}

/// A clock error.
#[derive(Clone, Copy, Debug, PartialEq, Eq, Structural)]
pub enum Error {
    /// The instant lies beyond the last calendar date.
    OutOfRange,
    /// The instant has a date, but its local time has none.
    InvalidOffset,
}

/// The name under which other modules know a clock error.
pub type ClockError = Error;

impl From<time::error::ComponentRange> for Error {
    /// A value that `time` found out of range is an instant out of range.
    fn from(error: time::error::ComponentRange) -> (e: Error) {
        Error::OutOfRange
    }
}

impl vstd::std_specs::convert::FromSpecImpl<time::error::ComponentRange> for Error {
    open spec fn obeys_from_spec() -> bool {
        true
    }

    open spec fn from_spec(error: time::error::ComponentRange) -> Error {
        Error::OutOfRange
    }
}

/// Wall-clock time as a boot timestamp plus the time since boot.
#[derive(Clone, Copy, Debug)]
pub struct Clock {
    /// Boot time: seconds from the Unix epoch.
    boot_time: u64,
    /// Seconds that local time is ahead of UTC.
    offset_seconds: i32,
}

impl Clock {
    #[verifier::type_invariant]
    spec fn offset_exists(self) -> bool {
        -MAX_UTC_OFFSET_SECONDS <= self.offset_seconds <= MAX_UTC_OFFSET_SECONDS
    }

    /// Boot time: seconds from the Unix epoch.
    pub closed spec fn spec_boot_time(self) -> nat {
        self.boot_time as nat
    }

    /// Seconds that local time is ahead of UTC.
    pub closed spec fn spec_offset_seconds(self) -> int {
        self.offset_seconds as int
    }

    /// A boot time that has a calendar date. From such a boot time the raw
    /// timestamp can be formed for every uptime.
    pub open spec fn has_valid_boot_time(self) -> bool {
        self.spec_boot_time() <= MAX_UNIX_TIMESTAMP
    }

    /// What `now` returns once `elapsed` seconds have passed since boot.
    pub open spec fn spec_time_after(self, elapsed: nat) -> Result<WallClockTime, Error> {
        let seconds = (self.spec_boot_time() + elapsed) as int;
        if !representable(seconds) {
            Err(Error::OutOfRange)
        } else if !representable(seconds + self.spec_offset_seconds()) {
            Err(Error::InvalidOffset)
        } else {
            Ok(
                WallClockTime {
                    unix_timestamp: seconds as i64,
                    offset_seconds: self.spec_offset_seconds() as i32,
                },
            )
        }
    }

    /// A clock that booted at `boot_time` and shows time thirteen hours
    /// ahead of UTC.
    pub fn new(boot_time: u64) -> (clock: Clock)
        ensures
            clock.spec_boot_time() == boot_time,
            clock.spec_offset_seconds() == AUCKLAND_UTC_OFFSET_HOURS * SECONDS_PER_HOUR,
    {
        let offset = utc_offset_seconds(AUCKLAND_UTC_OFFSET_HOURS);
        Clock { boot_time, offset_seconds: offset.unwrap() }
    }

    /// Boot time: seconds from the Unix epoch.
    pub fn boot_time(&self) -> (seconds: u64)
        ensures
            seconds == self.spec_boot_time(),
    {
        self.boot_time
    }

    /// Seconds that local time is ahead of UTC.
    pub fn offset_seconds(&self) -> (seconds: i32)
        ensures
            seconds == self.spec_offset_seconds(),
            -MAX_UTC_OFFSET_SECONDS <= seconds <= MAX_UTC_OFFSET_SECONDS,
    {
        proof {
            use_type_invariant(self);
        }
        self.offset_seconds
    }

    /// Whether the boot time has a calendar date.
    pub fn is_valid(&self) -> (valid: bool)
        ensures
            valid == self.has_valid_boot_time(),
    {
        self.boot_time <= MAX_UNIX_TIMESTAMP as u64
    }

    /// The Unix timestamp `elapsed` seconds after boot.
    pub fn unix_timestamp_after(&self, elapsed: u64) -> (seconds: u64)
        requires
            self.spec_boot_time() + elapsed <= u64::MAX,
        ensures
            seconds == self.spec_boot_time() + elapsed,
    {
        self.boot_time + elapsed
    }

    /// Current time as a Unix timestamp: boot time plus the seconds since
    /// boot, without offset or range check.
    pub fn now_as_unix_timestamp(&self) -> (seconds: u64)
        requires
            self.has_valid_boot_time(),
        ensures
            self.spec_boot_time() <= seconds <= self.spec_boot_time() + MAX_UPTIME_SECONDS,
    {
        let from_boot = uptime_seconds();
        self.unix_timestamp_after(from_boot)
    }

    /// Local time `elapsed` seconds after boot.
    pub fn time_after(&self, elapsed: u64) -> (r: Result<WallClockTime, Error>)
        ensures
            r == self.spec_time_after(elapsed as nat),
            r matches Ok(local) ==> local.wf(),
    {
        proof {
            use_type_invariant(self);
        }
        let seconds = match self.boot_time.checked_add(elapsed) {
            Some(seconds) => seconds,
            None => {
                return Err(Error::OutOfRange);
            },
        };
        if seconds > i64::MAX as u64 {
            return Err(Error::OutOfRange);
        }
        let utc = match utc_from_unix_timestamp(seconds as i64) {
            Ok(utc) => utc,
            Err(error) => {
                return Err(Error::from(error));
            },
        };
        match to_offset(utc.unix_timestamp, self.offset_seconds) {
            Some(local) => Ok(local),
            None => Err(Error::InvalidOffset),
        }
    }

    /// Current local time.
    pub fn now(&self) -> (r: Result<WallClockTime, Error>)
        ensures
            exists|elapsed: nat|
                elapsed <= MAX_UPTIME_SECONDS && r == #[trigger] self.spec_time_after(elapsed),
            r matches Ok(local) ==> local.wf(),
    {
        let from_boot = uptime_seconds();
        self.time_after(from_boot)
    }
}

/// The raw timestamp is exactly boot time plus the seconds since boot, and
/// local time is exactly thirteen hours ahead of it. The time is refused
/// only where the instant, or the instant thirteen hours on, lies past the
/// last calendar date.
pub proof fn lemma_local_time_is_thirteen_hours_ahead(clock: Clock, elapsed: nat)
    requires
        clock.spec_offset_seconds() == AUCKLAND_UTC_OFFSET_HOURS * SECONDS_PER_HOUR,
    ensures
        match clock.spec_time_after(elapsed) {
            Ok(local) => {
                &&& local.unix_timestamp == clock.spec_boot_time() + elapsed
                &&& local.unix_timestamp >= clock.spec_boot_time()
                &&& local.local_seconds() == local.unix_timestamp + 13 * 3600
                &&& local.wf()
            },
            Err(Error::OutOfRange) => clock.spec_boot_time() + elapsed > MAX_UNIX_TIMESTAMP,
            Err(Error::InvalidOffset) => {
                &&& clock.spec_boot_time() + elapsed <= MAX_UNIX_TIMESTAMP
                &&& clock.spec_boot_time() + elapsed + 13 * 3600 > MAX_UNIX_TIMESTAMP
            },
        },
{
}

} // verus!
