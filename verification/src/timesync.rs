//! Setting the real-time clock once the network time is known.

use crate::clock::ClockTime;
use chrono::{DateTime, Datelike, FixedOffset, Timelike};
use vstd::prelude::*;

verus! {

/// How often the state of the time synchronisation is asked before the
/// clock is left as it is.
pub const SYNC_ATTEMPTS: u32 = 5;

/// How long to wait before asking again while the synchronisation has not
/// begun, in milliseconds.
pub const RESET_RETRY_MS: u32 = 2000;

/// How long to wait before asking again while the synchronisation is under
/// way, in milliseconds.
pub const PROGRESS_RETRY_MS: u32 = 1000;

/// The local time is this many seconds ahead of universal time.
pub const LOCAL_OFFSET_SECONDS: i32 = 25_200;

/// The first year that the real-time clock can be set to.
pub const FIRST_CLOCK_YEAR: i32 = 2000;

/// The last year that the real-time clock can be set to.
pub const LAST_CLOCK_YEAR: i32 = 2100;

/// The last second of the year 9999, in seconds since the start of 1970.
pub const LAST_SECOND_OF_9999: i64 = 253_402_300_799;

/// What the time synchronisation reports of itself.
#[derive(Clone, Copy, Debug, PartialEq, Eq, Structural)]
pub enum SyncStatus {
    Reset,
    InProgress,
    Completed,
}

/// What to do after asking for the state of the synchronisation.
#[derive(Clone, Copy, Debug, PartialEq, Eq, Structural)]
pub enum SyncStep {
    /// Wait this many milliseconds and ask again.
    Retry(u32),
    /// Read the system time and set the real-time clock from it.
    SetClock,
    /// Stop asking; the clock keeps the time it has.
    GiveUp,
}

/// Why the real-time clock was not set.
#[derive(Clone, Copy, Debug, PartialEq, Eq, Structural)]
pub enum SyncError {
    /// The system time cannot be told as a date.
    NoTime,
    /// The date lies outside the years that the clock can hold.
    YearOutOfRange,
}

/// The local date and time-of-day at `utc_seconds` whole seconds after the
/// start of 1970 in universal time, for a zone `offset_seconds` ahead of it;
/// `None` where the date is beyond the calendar's range or the offset is a
/// day or more.
pub uninterp spec fn local_time(utc_seconds: int, offset_seconds: int) -> Option<ClockTime>;

/// The step that follows the answer `status` to question number `asked`,
/// counted from zero.
pub open spec fn step_after(asked: u32, status: SyncStatus) -> SyncStep {
    if asked >= SYNC_ATTEMPTS {
        SyncStep::GiveUp
    } else {
        match status {
            SyncStatus::Reset => SyncStep::Retry(RESET_RETRY_MS),
            SyncStatus::InProgress => SyncStep::Retry(PROGRESS_RETRY_MS),
            SyncStatus::Completed => SyncStep::SetClock,
        }
    }
}

/// What the real-time clock is set to, given the local time that was read.
pub open spec fn setting_for(now: Option<ClockTime>) -> Result<ClockTime, SyncError> {
    match now {
        None => Err(SyncError::NoTime),
        Some(time) => if FIRST_CLOCK_YEAR <= time.year <= LAST_CLOCK_YEAR {
            Ok(time)
        } else {
            Err(SyncError::YearOutOfRange)
        },
    }
}

/// Decides the step that follows the answer `status` to question number
/// `asked`, counted from zero.
pub fn sync_step(asked: u32, status: SyncStatus) -> (step: SyncStep)
    ensures
        step == step_after(asked, status),
{
    if asked >= SYNC_ATTEMPTS {
        return SyncStep::GiveUp;
    }
    match status {
        SyncStatus::Reset => SyncStep::Retry(RESET_RETRY_MS),
        SyncStatus::InProgress => SyncStep::Retry(PROGRESS_RETRY_MS),
        SyncStatus::Completed => SyncStep::SetClock,
    }
}

/// Calls chrono: `FixedOffset::east_opt`, `DateTime::from_timestamp` and
/// `DateTime::with_timezone`, then reads the calendar fields of the local
/// time. The contract names the result and claims of it what chrono
/// documents: an offset of a day or more is refused; every second from the
/// start of 1970 to the end of the year 9999 has a date; and the fields that
/// come back name a day of the proleptic Gregorian calendar and a second of
/// that day.
#[verifier::external_body]
fn civil_time(utc_seconds: i64, offset_seconds: i32) -> (time: Option<ClockTime>)
    ensures
        time == local_time(utc_seconds as int, offset_seconds as int),
        time matches Some(t) ==> t.is_valid(),
        !(-86_400 < offset_seconds < 86_400) ==> time is None,
        -86_400 < offset_seconds < 86_400 && 0 <= utc_seconds <= LAST_SECOND_OF_9999
            ==> time is Some,
{
    let offset = FixedOffset::east_opt(offset_seconds)?;
    let local = DateTime::from_timestamp(utc_seconds, 0)?.with_timezone(&offset);
    Some(
        ClockTime {
            year: local.year(),
            month: local.month(),
            day: local.day(),
            hour: local.hour(),
            minute: local.minute(),
            second: local.second(),
        },
    )
}

/// The local time at `utc_seconds` whole seconds after the start of 1970 in
/// universal time. The local zone is seven hours ahead.
pub fn get_current_time(utc_seconds: i64) -> (now: Option<ClockTime>)
    ensures
        now == local_time(utc_seconds as int, LOCAL_OFFSET_SECONDS as int),
        now matches Some(time) ==> time.is_valid(),
        0 <= utc_seconds <= LAST_SECOND_OF_9999 ==> now is Some,
{
    civil_time(utc_seconds, LOCAL_OFFSET_SECONDS)
}

/// Decides, for the system time `utc_seconds`, what the real-time clock is
/// set to: the local time, where it has a date in the years of the clock.
pub fn sync_clock(utc_seconds: i64) -> (setting: Result<ClockTime, SyncError>)
    ensures
        setting == setting_for(local_time(utc_seconds as int, LOCAL_OFFSET_SECONDS as int)),
        setting matches Ok(time) ==> time.is_valid(),
        setting == Err::<ClockTime, SyncError>(SyncError::NoTime) ==> !(0 <= utc_seconds
            <= LAST_SECOND_OF_9999),
{
    clock_setting(get_current_time(utc_seconds))
}

/// Decides what the real-time clock is set to. A time that cannot be told
/// as a date, or whose year the clock cannot hold, sets nothing.
pub fn clock_setting(now: Option<ClockTime>) -> (setting: Result<ClockTime, SyncError>)
    ensures
        setting == setting_for(now),
{
    match now {
        None => Err(SyncError::NoTime),
        Some(time) => {
            if FIRST_CLOCK_YEAR <= time.year && time.year <= LAST_CLOCK_YEAR {
                Ok(time)
            } else {
                Err(SyncError::YearOutOfRange)
            }
        },
    }
}

} // verus!
