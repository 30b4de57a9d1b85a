//! A civil-calendar timestamp in Coordinated Universal Time, held as plain
//! field values, with a verified rendering into the RFC 3339 text form
//! `YYYY-MM-DDTHH:MM:SSZ`.

use vstd::prelude::*;

use crate::ids::hex_digit_char;
use crate::ids::push_char;

verus! {

/// A timestamp in Coordinated Universal Time, at second granularity.
#[derive(Clone, Copy, Debug, PartialEq, Eq, Hash, Structural)]
pub struct Timestamp {
    pub year: u16,
    pub month: u8,
    pub day: u8,
    pub hour: u8,
    pub minute: u8,
    pub second: u8,
}

/// Whether `y` is a leap year of the proleptic Gregorian calendar.
pub open spec fn is_leap_year(y: int) -> bool {
    (y % 4 == 0 && y % 100 != 0) || y % 400 == 0
}

/// The number of days of month `m` in year `y`.
pub open spec fn days_in_month(y: int, m: int) -> int {
    if m == 2 {
        if is_leap_year(y) {
            29
        } else {
            28
        }
    } else if m == 4 || m == 6 || m == 9 || m == 11 {
        30
    } else {
        31
    }
}

/// The last `n` decimal digits of `v`, most significant first.
pub open spec fn dec_chars(v: nat, n: nat) -> Seq<char>
    decreases n,
{
    if n == 0 {
        Seq::empty()
    } else {
        dec_chars(v / 10, (n - 1) as nat).push(hex_digit_char((v % 10) as int))
    }
}

/// The RFC 3339 text form of a timestamp: zero-padded date and time of day,
/// with the `Z` designator for Coordinated Universal Time.
pub open spec fn rfc3339_chars(t: Timestamp) -> Seq<char> {
    dec_chars(t.year as nat, 4) + seq!['-'] + dec_chars(t.month as nat, 2) + seq!['-'] + dec_chars(
        t.day as nat,
        2,
    ) + seq!['T'] + dec_chars(t.hour as nat, 2) + seq![':'] + dec_chars(t.minute as nat, 2)
        + seq![':'] + dec_chars(t.second as nat, 2) + seq!['Z']
}

/// Appends the last `n` decimal digits of `v`, most significant first.
fn push_dec(out: &mut String, v: u32, n: usize)
    ensures
        final(out)@ == old(out)@ + dec_chars(v as nat, n as nat),
    decreases n,
{
    if n == 0 {
        assert(out@ =~= out@ + dec_chars(v as nat, 0));
    } else {
        push_dec(out, v / 10, n - 1);
        let d: u8 = (v % 10) as u8;
        let c: char = (48 + d) as char;
        assert(c == hex_digit_char(d as int));
        push_char(out, c);
        assert(out@ =~= old(out)@ + dec_chars(v as nat, n as nat));
    }
}

impl Timestamp {
    /// Whether the fields name an actual instant: a real calendar date and a
    /// time of day, with the year within the four-digit range.
    pub open spec fn is_valid(self) -> bool {
        &&& self.year <= 9999
        &&& 1 <= self.month <= 12
        &&& 1 <= self.day <= days_in_month(self.year as int, self.month as int)
        &&& self.hour <= 23
        &&& self.minute <= 59
        &&& self.second <= 59
    }

    /// Builds a timestamp from its fields, refusing any combination that
    /// does not name an actual instant.
    pub fn new(year: u16, month: u8, day: u8, hour: u8, minute: u8, second: u8) -> (r: Option<
        Timestamp,
    >)
        ensures
            r matches Some(t) ==> t == (Timestamp { year, month, day, hour, minute, second }),
            r is Some <==> (Timestamp { year, month, day, hour, minute, second }).is_valid(),
    {
        let leap: bool = (year % 4 == 0 && year % 100 != 0) || year % 400 == 0;
        let month_days: u8 = if month == 2 {
            if leap {
                29
            } else {
                28
            }
        } else if month == 4 || month == 6 || month == 9 || month == 11 {
            30
        } else {
            31
        };
        if year <= 9999 && 1 <= month && month <= 12 && 1 <= day && day <= month_days && hour <= 23
            && minute <= 59 && second <= 59 {
            Some(Timestamp { year, month, day, hour, minute, second })
        } else {
            None
        }
    }

    /// Renders the timestamp in its RFC 3339 text form.
    pub fn to_rfc3339_string(&self) -> (r: String)
        requires
            self.is_valid(),
        ensures
            r@ == rfc3339_chars(*self),
    {
        let mut out = String::new();
        push_dec(&mut out, self.year as u32, 4);
        push_char(&mut out, '-');
        push_dec(&mut out, self.month as u32, 2);
        push_char(&mut out, '-');
        push_dec(&mut out, self.day as u32, 2);
        push_char(&mut out, 'T');
        push_dec(&mut out, self.hour as u32, 2);
        push_char(&mut out, ':');
        push_dec(&mut out, self.minute as u32, 2);
        push_char(&mut out, ':');
        push_dec(&mut out, self.second as u32, 2);
        push_char(&mut out, 'Z');
        assert(out@ =~= rfc3339_chars(*self));
        out
    }
}

} // verus!
