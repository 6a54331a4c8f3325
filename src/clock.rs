//! A point in time as plain calendar fields, and its text forms.

use vstd::prelude::*;

use crate::text::{decimal, digit_char};

verus! {

/// A date and time of day as calendar fields. `nanosecond` may reach past
/// 999_999_999 to mark a leap second, as chrono's does.
pub struct TimeParts {
    pub year: i32,
    pub month: u32,
    pub day: u32,
    pub hour: u32,
    pub minute: u32,
    pub second: u32,
    pub nanosecond: u32,
}

/// The last `w` decimal digits of `n`, with leading zeros.
pub open spec fn padded(n: nat, w: nat) -> Seq<char>
    decreases w,
{
    if w == 0 {
        Seq::empty()
    } else {
        padded(n / 10, (w - 1) as nat).push(digit_char(n % 10))
    }
}

/// The year as chrono writes `%Y`: four digits within 0..=9999, else a sign and at
/// least four digits.
pub open spec fn year_text(y: int) -> Seq<char> {
    if 0 <= y <= 9999 {
        padded(y as nat, 4)
    } else {
        let a: nat = if y < 0 { (-y) as nat } else { y as nat };
        (if y < 0 { "-"@ } else { "+"@ }) + (if a < 10000 { padded(a, 4) } else { decimal(a) })
    }
}

/// `YYYY-MM-DDTHH:MM:SS`, a leap second shown as second 60.
pub open spec fn seconds_text(t: TimeParts) -> Seq<char> {
    year_text(t.year as int) + "-"@ + padded(t.month as nat, 2) + "-"@ + padded(t.day as nat, 2)
        + "T"@ + padded(t.hour as nat, 2) + ":"@ + padded(t.minute as nat, 2) + ":"@ + padded(
        (t.second + t.nanosecond / 1_000_000_000) as nat,
        2,
    )
}

/// The fraction of the second within the second, in nanoseconds.
pub open spec fn fraction(t: TimeParts) -> nat {
    (t.nanosecond % 1_000_000_000) as nat
}

/// The local timestamp as chrono writes `%FT%T%.3f`: date, `T`, time, a dot and
/// three digits of milliseconds.
pub open spec fn local_text(t: TimeParts) -> Seq<char> {
    seconds_text(t) + "."@ + padded(fraction(t) / 1_000_000, 3)
}

/// The RFC 3339 text of a UTC time as chrono writes it with automatic sub-second
/// digits and `Z`: no fraction when it is zero, else three, six or nine digits,
/// the fewest that hold it exactly.
pub open spec fn rfc3339_text(t: TimeParts) -> Seq<char> {
    let f = fraction(t);
    seconds_text(t) + (if f == 0 {
        Seq::empty()
    } else if f % 1_000_000 == 0 {
        "."@ + padded(f / 1_000_000, 3)
    } else if f % 1000 == 0 {
        "."@ + padded(f / 1000, 6)
    } else {
        "."@ + padded(f, 9)
    }) + "Z"@
}

/// A leap year of the proleptic Gregorian calendar.
pub open spec fn is_leap_year(y: int) -> bool {
    y % 4 == 0 && (y % 100 != 0 || y % 400 == 0)
}

/// The number of days of month `m` of year `y`.
pub open spec fn days_in_month(y: int, m: nat) -> nat {
    if m == 2 {
        if is_leap_year(y) {
            29
        } else {
            28
        }
    } else if m == 4 || m == 6 || m == 9 || m == 11 {
        30
    } else {
        31
    }
}

impl TimeParts {
    /// A date and time that chrono can hold: a year within its range, a day that
    /// exists in its month, and a leap second only at second 59.
    pub open spec fn wf(&self) -> bool {
        &&& -262143 <= self.year <= 262142
        &&& 1 <= self.month <= 12
        &&& 1 <= self.day <= days_in_month(self.year as int, self.month as nat)
        &&& self.hour < 24
        &&& self.minute < 60
        &&& self.second < 60
        &&& self.nanosecond < 2_000_000_000
        &&& self.nanosecond >= 1_000_000_000 ==> self.second == 59
    }

    /// Whether the fields make a date and time that chrono can hold.
    pub fn is_valid(&self) -> (r: bool)
        ensures
            r == self.wf(),
    {
        if self.year < -262143 || self.year > 262142 || self.month < 1 || self.month > 12 {
            return false;
        }
        // shifted by a multiple of 400 years, which keeps leap years
        let y: u32 = (self.year + 262400) as u32;
        assert(y % 4 == (self.year as int) % 4);
        assert(y % 100 == (self.year as int) % 100);
        assert(y % 400 == (self.year as int) % 400);
        let leap = y % 4 == 0 && (y % 100 != 0 || y % 400 == 0);
        let days: u32 = if self.month == 2 {
            if leap {
                29
            } else {
                28
            }
        } else if self.month == 4 || self.month == 6 || self.month == 9 || self.month == 11 {
            30
        } else {
            31
        };
        1 <= self.day && self.day <= days && self.hour < 24 && self.minute < 60 && self.second < 60
            && self.nanosecond < 2_000_000_000 && (self.nanosecond < 1_000_000_000 || self.second
            == 59)
    }
}

/// Relies on `chrono::NaiveDate::from_ymd_opt`, `NaiveDate::and_hms_nano_opt` and
/// `NaiveDateTime::format` with `%FT%T%.3f`: both constructors accept every
/// well-formed `t`, and the pattern writes `%Y-%m-%d`, `T`, `%H:%M:%S` (second 60 in
/// a leap second) and three digits of milliseconds.
#[verifier::external_body]
fn chrono_format(t: &TimeParts, pattern: &str) -> (r: String)
    requires
        t.wf(),
        pattern@ == "%FT%T%.3f"@,
    ensures
        r@ == local_text(*t),
{
    let date = chrono::NaiveDate::from_ymd_opt(t.year, t.month, t.day).unwrap();
    let time = date.and_hms_nano_opt(t.hour, t.minute, t.second, t.nanosecond).unwrap();
    time.format(pattern).to_string()
}

/// Relies on `chrono::NaiveDate::from_ymd_opt`, `NaiveDate::and_hms_nano_opt` and
/// `DateTime::<Utc>::to_rfc3339_opts` with `SecondsFormat::AutoSi` and `Z`, the form
/// in which chrono serialises a UTC time.
#[verifier::external_body]
fn chrono_rfc3339(t: &TimeParts) -> (r: String)
    requires
        t.wf(),
    ensures
        r@ == rfc3339_text(*t),
{
    let date = chrono::NaiveDate::from_ymd_opt(t.year, t.month, t.day).unwrap();
    let time = date.and_hms_nano_opt(t.hour, t.minute, t.second, t.nanosecond).unwrap();
    time.and_utc().to_rfc3339_opts(chrono::SecondsFormat::AutoSi, true)
}

/// The pattern of the local timestamp.
pub const LOCAL_PATTERN: &'static str = "%FT%T%.3f";

/// The local timestamp of `t` as `%FT%T%.3f` writes it.
pub fn timestamp_local(t: &TimeParts) -> (r: String)
    requires
        t.wf(),
    ensures
        r@ == local_text(*t),
{
    chrono_format(t, LOCAL_PATTERN)
}

/// The RFC 3339 text of the UTC time `t`.
pub fn timestamp_rfc3339(t: &TimeParts) -> (r: String)
    requires
        t.wf(),
    ensures
        r@ == rfc3339_text(*t),
{
    chrono_rfc3339(t)
}

} // verus!
