//! The clock text of the header, and the limits of the time synchronisation.

use vstd::prelude::*;
use vstd::string::*;
use crate::text::{append_decimal, decimal};

verus! {

pub const SNTP_SERVER: &'static str = "pool.ntp.org";

pub const SNTP_SERVER_ALT: &'static str = "time.nist.gov";

/// Longest wait for the first synchronisation.
pub const SYNC_TIMEOUT_MS: u32 = 20_000;

/// Time between two looks at the synchronisation status.
pub const POLL_INTERVAL_MS: u32 = 250;

/// A clock that shows less than this many seconds since 1970 has not been
/// set yet.
pub const CLOCK_SET_AFTER_SECS: i64 = 1_000_000_000;

/// The hour on a twelve-hour dial.
pub open spec fn hour12(hour24: int) -> int {
    if hour24 == 0 {
        12
    } else if hour24 <= 12 {
        hour24
    } else {
        hour24 - 12
    }
}

/// The half of the day: false before noon, true from noon on.
pub open spec fn is_pm(hour24: int) -> bool {
    hour24 >= 12
}

/// A number written with at least two digits.
pub open spec fn two_digits(v: int) -> Seq<char> {
    if 0 <= v < 10 {
        "0"@ + decimal(v)
    } else {
        decimal(v)
    }
}

/// The clock text for a time of day: hour, colon, two-digit minute, space,
/// AM or PM.
pub open spec fn clock_text(hour24: int, minute: int) -> Seq<char> {
    decimal(hour12(hour24)) + ":"@ + two_digits(minute) + if is_pm(hour24) {
        " PM"@
    } else {
        " AM"@
    }
}

/// Tells whether a clock reading is plausible.
pub fn clock_is_set(now_secs: i64) -> (set: bool)
    ensures
        set == (now_secs >= CLOCK_SET_AFTER_SECS),
{
    now_secs >= CLOCK_SET_AFTER_SECS
}

/// Formats a time of day for the header.
pub fn format_clock(hour24: i32, minute: i32) -> (text: String)
    ensures
        text@ == clock_text(hour24 as int, minute as int),
{
    let hour: i32 = if hour24 == 0 {
        12
    } else if hour24 <= 12 {
        hour24
    } else {
        hour24 - 12
    };
    let mut text: String = String::new();
    append_decimal(&mut text, hour as i64);
    text.append(":");
    if 0 <= minute && minute < 10 {
        text.append("0");
    }
    append_decimal(&mut text, minute as i64);
    if hour24 >= 12 {
        text.append(" PM");
    } else {
        text.append(" AM");
    }
    proof {
        assert(text@ =~= clock_text(hour24 as int, minute as int));
    }
    text
}

/// Formats the local time, or gives `None` while the clock has not been
/// set. `now_secs` is the clock reading; `hour24` and `minute` are the local
/// time of day that belongs to it.
pub fn format_local_time(now_secs: i64, hour24: i32, minute: i32) -> (text: Option<String>)
    ensures
        match text {
            Some(t) => now_secs >= CLOCK_SET_AFTER_SECS && t@ == clock_text(
                hour24 as int,
                minute as int,
            ),
            None => now_secs < CLOCK_SET_AFTER_SECS,
        },
{
    if !clock_is_set(now_secs) {
        None
    } else {
        Some(format_clock(hour24, minute))
    }
}

/// Tells whether the wait for the first synchronisation goes on after
/// `elapsed_ms` milliseconds.
pub fn keep_waiting_for_sync(elapsed_ms: u32) -> (wait: bool)
    ensures
        wait == (elapsed_ms < SYNC_TIMEOUT_MS),
{
    elapsed_ms < SYNC_TIMEOUT_MS
}

} // verus!
