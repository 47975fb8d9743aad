//! The clock of the machine, read as a calendar date.
//!
//! The readings are taken on trust from `std::time` and `chrono`. Nothing
//! is claimed of what the clock says, only of the ranges that `chrono`
//! documents for the parts of a date.

use vstd::prelude::*;

verus! {

/// The last second of the year 9999, counted from the beginning of 1970
/// in universal time.
pub const LAST_SECOND: u64 = 253_402_300_799;

/// `std::time::SystemTime`, a reading of the system clock.
#[verifier::external_type_specification]
#[verifier::external_body]
pub struct ExSystemTime(std::time::SystemTime);

/// `std::time::SystemTimeError`, the answer where one reading lies before
/// another.
#[verifier::external_type_specification]
#[verifier::external_body]
pub struct ExSystemTimeError(std::time::SystemTimeError);

/// `SystemTime::now` reads the system clock. Nothing is claimed of the
/// reading.
pub assume_specification[ std::time::SystemTime::now ]() -> (now: std::time::SystemTime);

/// Calls `SystemTime::duration_since` with `UNIX_EPOCH`: the time from
/// the beginning of 1970 to the reading, and an error where the reading
/// lies before it. Nothing is claimed of which it is.
#[verifier::external_body]
fn since_epoch(now: &std::time::SystemTime) -> (elapsed: Result<
    core::time::Duration,
    std::time::SystemTimeError,
>) {
    now.duration_since(std::time::UNIX_EPOCH)
}

/// `Duration::as_secs` gives the whole seconds of a span of time.
pub assume_specification[ core::time::Duration::as_secs ](
    elapsed: &core::time::Duration,
) -> (seconds: u64);

/// Calls `chrono::TimeZone::timestamp_opt` on `chrono::Local` and takes
/// day, month and year of the date it finds: the date, in the time zone of
/// this machine, at so many seconds after the beginning of 1970.
///
/// Trusted: chrono documents that `Datelike::day` ranges from 1 to 31 and
/// `Datelike::month` from 1 to 12. Nothing is claimed of the year, nor
/// that a date is found. The seconds are kept within the years 1970 to
/// 9999, where chrono's own checks of range do not fail. chrono takes the
/// offset from the time zone data of this machine and expects it to be
/// less than a day, as it is in every file of the time zone database.
#[verifier::external_body]
fn local_date_at(seconds: i64) -> (parts: Option<(u32, u32, i32)>)
    requires
        0 <= seconds <= LAST_SECOND,
    ensures
        parts is Some ==> 1 <= parts.unwrap().0 <= 31,
        parts is Some ==> 1 <= parts.unwrap().1 <= 12,
{
    match chrono::TimeZone::timestamp_opt(&chrono::Local, seconds, 0).single() {
        Some(at) => Some(
            (chrono::Datelike::day(&at), chrono::Datelike::month(&at), chrono::Datelike::year(&at)),
        ),
        None => None,
    }
}

/// Day, month and year of today by the clock and the time zone of this
/// machine; `None` where the clock stands before 1970 or no date is found
/// for it. A clock beyond the year 9999 is read as the last second of
/// that year.
pub fn local_date() -> (reading: Option<(u32, u32, i32)>)
    ensures
        reading is Some ==> 1 <= reading.unwrap().0 <= 31 && 1 <= reading.unwrap().1 <= 12,
{
    let now = std::time::SystemTime::now();
    match since_epoch(&now) {
        Ok(elapsed) => {
            let seconds: u64 = elapsed.as_secs();
            let within: u64 = if seconds > LAST_SECOND {
                LAST_SECOND
            } else {
                seconds
            };
            local_date_at(within as i64)
        },
        Err(_) => None,
    }
}

} // verus!
