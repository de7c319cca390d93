//! The library's model of UTC time.
//!
//! A calendar date is carried as its day number in the common era (the count
//! chrono's `num_days_from_ce` uses), so that the forward-window validation
//! is plain integer arithmetic.  An instant pairs the clock-hour fields that
//! the token stamp is formatted from with the day number used for date
//! validation.  Only reading the clock and converting a calendar date to its
//! day number call into chrono; everything else is verified.

use vstd::prelude::*;
use vstd::string::*;

use crate::strutil::{append_dec, append_dec2, dec2_of, dec_of};
use crate::MyBusTrackerError;

use chrono::{Datelike, Timelike};

verus! {

/// Chrono dates span years of magnitude below 262144, so every day number
/// it can produce lies well within this bound.
pub const MAX_DAY_NUMBER: i64 = 96_000_000;

/// A clock hour in UTC: the fields the token stamp is formatted from.
#[derive(Clone, Copy, Debug, PartialEq, Eq, Structural)]
pub struct HourStamp {
    pub year: i32,
    pub month: u8,
    pub day: u8,
    pub hour: u8,
}

impl HourStamp {
    /// Field ranges of a calendar clock hour.
    pub open spec fn wf(self) -> bool {
        &&& 1 <= self.month <= 12
        &&& 1 <= self.day <= 31
        &&& self.hour <= 23
    }
}

/// A calendar date in UTC, as its day number in the common era.
#[derive(Clone, Copy, Debug, PartialEq, Eq, Structural)]
pub struct UtcDate {
    pub day_number: i64,
}

/// An instant in UTC: the clock hour, and the day number of its date.
#[derive(Clone, Copy, Debug, PartialEq, Eq, Structural)]
pub struct UtcInstant {
    pub stamp: HourStamp,
    pub day_number: i64,
}

impl UtcInstant {
    /// Field ranges of an instant read from a calendar clock.
    pub open spec fn wf(self) -> bool {
        &&& self.stamp.wf()
        &&& -MAX_DAY_NUMBER <= self.day_number <= MAX_DAY_NUMBER
    }
}

/// The day number chrono assigns to the calendar date `(year, month, day)`:
/// the result of `NaiveDate::num_days_from_ce`, a pure function of the date.
pub uninterp spec fn day_number_of(year: int, month: int, day: int) -> int;

/// Relies on `chrono::Utc::now` for the current UTC time, on the `Datelike`
/// and `Timelike` accessors for its fields (documented ranges: month 1-12,
/// day 1-31, hour 0-23), and on `num_days_from_ce` for the day number of its
/// date (bounded, since chrono dates keep the year magnitude below 262144).
#[verifier::external_body]
pub fn utc_now() -> (t: UtcInstant)
    ensures
        t.wf(),
        t.day_number == day_number_of(t.stamp.year as int, t.stamp.month as int, t.stamp.day as int),
{
    let now = chrono::Utc::now();
    UtcInstant {
        stamp: HourStamp {
            year: now.year(),
            month: now.month() as u8,
            day: now.day() as u8,
            hour: now.hour() as u8,
        },
        day_number: now.num_days_from_ce() as i64,
    }
}

/// Relies on `chrono::NaiveDate::from_ymd_opt` (`None` exactly when the
/// calendar date does not exist or its year is out of chrono's range) and on
/// `num_days_from_ce` for the day number of the constructed date.
#[verifier::external_body]
pub fn date_from_ymd(year: i32, month: u8, day: u8) -> (r: Option<UtcDate>)
    ensures
        r matches Some(d) ==> d.day_number == day_number_of(year as int, month as int, day as int),
        r matches Some(d) ==> -MAX_DAY_NUMBER <= d.day_number <= MAX_DAY_NUMBER,
        month == 0 || month > 12 || day == 0 || day > 31 ==> r is None,
{
    chrono::NaiveDate::from_ymd_opt(year, month as u32, day as u32).map(|nd| UtcDate {
        day_number: nd.num_days_from_ce() as i64,
    })
}

/// `year` rendered as at least four decimal digits, zero-padded, with a
/// leading minus sign for negative years.
pub open spec fn year4_of(year: int) -> Seq<char> {
    if year < 0 {
        seq!['-'] + pad4_of((-year) as nat)
    } else {
        pad4_of(year as nat)
    }
}

/// `n` zero-padded to at least four decimal digits.
pub open spec fn pad4_of(n: nat) -> Seq<char> {
    if n < 10000 {
        dec2_of(n / 100) + dec2_of(n % 100)
    } else {
        dec_of(n)
    }
}

/// The token stamp for a clock hour: `YYYYMMDDHH`.
pub open spec fn stamp_chars(st: HourStamp) -> Seq<char> {
    year4_of(st.year as int) + dec2_of(st.month as nat) + dec2_of(st.day as nat) + dec2_of(
        st.hour as nat,
    )
}

/// Appends `n` zero-padded to at least four decimal digits.
fn append_pad4(out: &mut String, n: u64)
    ensures
        final(out)@ == old(out)@ + pad4_of(n as nat),
{
    if n < 10000 {
        append_dec2(out, (n / 100) as u8);
        append_dec2(out, (n % 100) as u8);
        proof {
            assert(final(out)@ =~= old(out)@ + pad4_of(n as nat));
        }
    } else {
        append_dec(out, n);
    }
}

/// Appends the `YYYYMMDDHH` stamp of a clock hour.
pub fn append_stamp(out: &mut String, st: &HourStamp)
    requires
        st.wf(),
    ensures
        final(out)@ == old(out)@ + stamp_chars(*st),
{
    if st.year < 0 {
        proof {
            reveal_strlit("-");
        }
        out.append("-");
        let magnitude: i64 = -(st.year as i64);
        append_pad4(out, magnitude as u64);
    } else {
        append_pad4(out, st.year as u64);
    }
    append_dec2(out, st.month);
    append_dec2(out, st.day);
    append_dec2(out, st.hour);
    proof {
        assert(final(out)@ =~= old(out)@ + stamp_chars(*st));
    }
}

/// The requested date lies no earlier than `today` and at most three days
/// after it; an absent date is accepted (it means `today`).
pub open spec fn date_in_window(day: Option<UtcDate>, today: int) -> bool {
    match day {
        Some(d) => today <= d.day_number <= today + 3,
        None => true,
    }
}

/// The signed day offset transmitted on the wire for a requested date.
pub open spec fn offset_of(day: Option<UtcDate>, today: int) -> int {
    match day {
        Some(d) => d.day_number - today,
        None => 0,
    }
}

/// Validates a requested date against `today` (UTC) and returns the day
/// offset to transmit: a date is accepted iff it lies between zero and three
/// days ahead of `today`, and an absent date means `today` itself.
pub fn day_offset(day: &Option<UtcDate>, today: i64) -> (r: Result<u8, MyBusTrackerError>)
    requires
        -MAX_DAY_NUMBER <= today <= MAX_DAY_NUMBER,
    ensures
        r is Ok <==> date_in_window(*day, today as int),
        r matches Ok(o) ==> o as int == offset_of(*day, today as int),
        r matches Err(e) ==> e is DateOutOfBounds,
{
    match day {
        None => Ok(0),
        Some(d) => {
            if d.day_number >= today && d.day_number <= today + 3 {
                Ok((d.day_number - today) as u8)
            } else {
                Err(MyBusTrackerError::DateOutOfBounds)
            }
        },
    }
}

} // verus!
