//! United States market session classification for a point in time.

use chrono::Datelike;
use chrono::Timelike;
use vstd::prelude::*;

verus! {

/// Where a moment falls in the US equity trading day.
#[derive(Debug, Clone, Copy, PartialEq, Eq, Structural)]
pub enum UsMarketMoment {
    DayOff,
    PreMarket,
    PostMarket,
    Working,
}

/// The session for an Eastern wall-clock moment: weekends are off; by the
/// clock, pre-market is [04:00, 09:30), working [09:30, 16:00),
/// post-market [16:00, 20:00), and anything else is off.
/// `weekday_from_monday` counts Monday as 0 through Sunday as 6.
pub open spec fn session_spec(weekday_from_monday: int, hour: int, minute: int) -> UsMarketMoment {
    let now_time = hour * 100 + minute;
    if weekday_from_monday >= 5 {
        UsMarketMoment::DayOff
    } else if 930 <= now_time && now_time < 1600 {
        UsMarketMoment::Working
    } else if 400 <= now_time && now_time < 930 {
        UsMarketMoment::PreMarket
    } else if 1600 <= now_time && now_time < 2000 {
        UsMarketMoment::PostMarket
    } else {
        UsMarketMoment::DayOff
    }
}

/// Relies on `chrono::DateTime::from_timestamp_micros`, the timezone
/// conversion `DateTime::with_timezone` with `chrono_tz::America::New_York`,
/// and chrono's `Datelike::weekday` / `Timelike::hour` / `Timelike::minute`:
/// turns a unix-epoch microsecond timestamp into New York wall-clock parts
/// (weekday counted from Monday, hour, minute). Absent only when chrono
/// cannot represent the timestamp.
#[verifier::external_body]
fn new_york_parts(unix_microseconds: i64) -> (r: Option<(u32, u32, u32)>)
    ensures
        match r {
            Some(parts) => parts.0 < 7 && parts.1 < 24 && parts.2 < 60,
            None => true,
        },
{
    match chrono::DateTime::from_timestamp_micros(unix_microseconds) {
        None => None,
        Some(utc) => {
            let eastern = utc.with_timezone(&chrono_tz::America::New_York);
            Some((eastern.weekday().num_days_from_monday(), eastern.hour(), eastern.minute()))
        },
    }
}

impl UsMarketMoment {
    /// The session for given New York wall-clock parts.
    pub fn from_eastern_parts(weekday_from_monday: u32, hour: u32, minute: u32) -> (m: Self)
        requires
            weekday_from_monday < 7,
            hour < 24,
            minute < 60,
        ensures
            m == session_spec(weekday_from_monday as int, hour as int, minute as int),
    {
        if weekday_from_monday >= 5 {
            return Self::DayOff;
        }
        let now_time: u32 = hour * 100 + minute;
        if 930 <= now_time && now_time < 1600 {
            return Self::Working;
        }
        if 400 <= now_time && now_time < 930 {
            return Self::PreMarket;
        }
        if 1600 <= now_time && now_time < 2000 {
            return Self::PostMarket;
        }
        Self::DayOff
    }

    /// The session at a unix-epoch microsecond timestamp, by New York
    /// wall-clock time. Whatever parts the calendar conversion yields, the
    /// result is the session of some valid wall-clock moment; absent only
    /// when the timestamp is outside chrono's representable range.
    pub fn from(unix_microseconds: i64) -> (r: Option<Self>)
        ensures
            match r {
                Some(m) => exists|weekday: int, hour: int, minute: int|
                    0 <= weekday < 7 && 0 <= hour < 24 && 0 <= minute < 60 && m == session_spec(
                        weekday,
                        hour,
                        minute,
                    ),
                None => true,
            },
    {
        match new_york_parts(unix_microseconds) {
            None => None,
            Some((weekday, hour, minute)) => {
                let m = Self::from_eastern_parts(weekday, hour, minute);
                proof {
                    let wd = weekday as int;
                    let h = hour as int;
                    let mi = minute as int;
                    assert(0 <= wd && wd < 7 && 0 <= h && h < 24 && 0 <= mi && mi < 60 && m
                        == session_spec(wd, h, mi));
                }
                Some(m)
            },
        }
    }

    pub fn is_working(&self) -> (r: bool)
        ensures
            r == (*self == UsMarketMoment::Working),
    {
        if let Self::Working = self {
            return true;
        }
        false
    }
}

} // verus!
