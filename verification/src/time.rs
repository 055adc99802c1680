//! Calendar timestamps as plain integers, and their fixed text form.
//!
//! A `Timestamp` holds the local wall-clock moment at which an entry was
//! recorded, broken into year, month, day, hour, minute and second. Its
//! text form is `YYYY-MM-DD HH-MM-SS`: every component zero-padded, the
//! year to four digits and the rest to two.

use chrono::{Datelike, Timelike};
use vstd::prelude::*;
use vstd::string::StringExecFns;

verus! {

/// A local wall-clock moment, second granularity.
#[derive(Clone, Copy, Debug, PartialEq, Eq, Structural)]
pub struct Timestamp {
    pub year: i32,
    pub month: u8,
    pub day: u8,
    pub hour: u8,
    pub minute: u8,
    pub second: u8,
}

/// The component ranges of a calendar timestamp: months and days count
/// from 1, the time-of-day fields from 0. The year is unconstrained.
pub open spec fn ts_valid(ts: Timestamp) -> bool {
    &&& 1 <= ts.month <= 12
    &&& 1 <= ts.day <= 31
    &&& ts.hour < 24
    &&& ts.minute < 60
    &&& ts.second < 60
}

/// The decimal digit character for `d`.
pub open spec fn spec_digit_str(d: nat) -> Seq<char>
    recommends
        d < 10,
{
    if d == 0 {
        "0"@
    } else if d == 1 {
        "1"@
    } else if d == 2 {
        "2"@
    } else if d == 3 {
        "3"@
    } else if d == 4 {
        "4"@
    } else if d == 5 {
        "5"@
    } else if d == 6 {
        "6"@
    } else if d == 7 {
        "7"@
    } else if d == 8 {
        "8"@
    } else {
        "9"@
    }
}

/// The decimal digits of `n`, most significant first, no leading zeros
/// (except for `n == 0`, which is the single digit `0`).
pub open spec fn spec_digits(n: nat) -> Seq<char>
    decreases n,
{
    if n < 10 {
        spec_digit_str(n)
    } else {
        spec_digits(n / 10) + spec_digit_str(n % 10)
    }
}

/// The digits of `n`, zero-padded on the left to at least two places.
pub open spec fn spec_pad2(n: nat) -> Seq<char> {
    if n < 10 {
        "0"@ + spec_digits(n)
    } else {
        spec_digits(n)
    }
}

/// The digits of `n`, zero-padded on the left to at least four places.
pub open spec fn spec_pad4(n: nat) -> Seq<char> {
    if n < 10 {
        "000"@ + spec_digits(n)
    } else if n < 100 {
        "00"@ + spec_digits(n)
    } else if n < 1000 {
        "0"@ + spec_digits(n)
    } else {
        spec_digits(n)
    }
}

/// The year component: four-digit zero-padded magnitude, a leading minus
/// sign for years before year zero.
pub open spec fn spec_year_chars(y: int) -> Seq<char> {
    if y < 0 {
        "-"@ + spec_pad4((-y) as nat)
    } else {
        spec_pad4(y as nat)
    }
}

/// The full text form of a timestamp: `YYYY-MM-DD HH-MM-SS`.
pub open spec fn spec_timestamp_chars(ts: Timestamp) -> Seq<char> {
    spec_year_chars(ts.year as int) + "-"@ + spec_pad2(ts.month as nat) + "-"@ + spec_pad2(
        ts.day as nat,
    ) + " "@ + spec_pad2(ts.hour as nat) + "-"@ + spec_pad2(ts.minute as nat) + "-"@ + spec_pad2(
        ts.second as nat,
    )
}

/// The decimal digit character for `d`.
fn digit_str(d: u64) -> (r: &'static str)
    requires
        d < 10,
    ensures
        r@ == spec_digit_str(d as nat),
{
    if d == 0 {
        "0"
    } else if d == 1 {
        "1"
    } else if d == 2 {
        "2"
    } else if d == 3 {
        "3"
    } else if d == 4 {
        "4"
    } else if d == 5 {
        "5"
    } else if d == 6 {
        "6"
    } else if d == 7 {
        "7"
    } else if d == 8 {
        "8"
    } else {
        "9"
    }
}

/// Appends the decimal digits of `n` to `s`.
fn push_digits(s: &mut String, n: u64)
    ensures
        final(s)@ == old(s)@ + spec_digits(n as nat),
    decreases n,
{
    if n >= 10 {
        push_digits(s, n / 10);
    }
    s.append(digit_str(n % 10));
    proof {
        if n >= 10 {
            assert(final(s)@ =~= old(s)@ + spec_digits(n as nat));
        }
    }
}

/// Appends `n` zero-padded to at least two digits.
fn push_pad2(s: &mut String, n: u64)
    ensures
        final(s)@ == old(s)@ + spec_pad2(n as nat),
{
    if n < 10 {
        s.append("0");
    }
    push_digits(s, n);
    assert(final(s)@ =~= old(s)@ + spec_pad2(n as nat));
}

/// Appends `n` zero-padded to at least four digits.
fn push_pad4(s: &mut String, n: u64)
    ensures
        final(s)@ == old(s)@ + spec_pad4(n as nat),
{
    if n < 10 {
        s.append("000");
    } else if n < 100 {
        s.append("00");
    } else if n < 1000 {
        s.append("0");
    }
    push_digits(s, n);
    assert(final(s)@ =~= old(s)@ + spec_pad4(n as nat));
}

/// Appends the year component, sign included.
fn push_year(s: &mut String, y: i32)
    ensures
        final(s)@ == old(s)@ + spec_year_chars(y as int),
{
    if y < 0 {
        s.append("-");
        let m: u64 = (-(y as i64)) as u64;
        assert(m as nat == (-(y as int)) as nat);
        push_pad4(s, m);
        assert(final(s)@ =~= old(s)@ + spec_year_chars(y as int));
    } else {
        push_pad4(s, y as u64);
    }
}

/// Appends the full `YYYY-MM-DD HH-MM-SS` form of `ts` to `s`.
pub fn push_timestamp(s: &mut String, ts: &Timestamp)
    ensures
        final(s)@ == old(s)@ + spec_timestamp_chars(*ts),
{
    push_year(s, ts.year);
    s.append("-");
    push_pad2(s, ts.month as u64);
    s.append("-");
    push_pad2(s, ts.day as u64);
    s.append(" ");
    push_pad2(s, ts.hour as u64);
    s.append("-");
    push_pad2(s, ts.minute as u64);
    s.append("-");
    push_pad2(s, ts.second as u64);
    assert(final(s)@ =~= old(s)@ + spec_timestamp_chars(*ts));
}

/// The full `YYYY-MM-DD HH-MM-SS` form of `ts`.
pub fn format_timestamp(ts: &Timestamp) -> (r: String)
    ensures
        r@ == spec_timestamp_chars(*ts),
{
    let mut s = String::new();
    push_timestamp(&mut s, ts);
    assert(s@ =~= spec_timestamp_chars(*ts));
    s
}

/// The current local wall-clock time.
///
/// Relies on chrono's `Local::now` for the moment itself and on its
/// `Datelike` and `Timelike` accessors (`year`, `month`, `day`, `hour`,
/// `minute`, `second`) to break it into components; the contract restates
/// their documented ranges (month 1-12, day 1-31, hour 0-23, minute and
/// second 0-59).
#[verifier::external_body]
pub(crate) fn now_timestamp() -> (r: Timestamp)
    ensures
        ts_valid(r),
{
    let t = chrono::Local::now();
    Timestamp {
        year: t.year(),
        month: t.month() as u8,
        day: t.day() as u8,
        hour: t.hour() as u8,
        minute: t.minute() as u8,
        second: t.second() as u8,
    }
}

} // verus!
