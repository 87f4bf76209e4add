//! Calendar dates: strict ISO `YYYY-MM-DD` parsing with calendar validity
//! (leap years included), and the compact `YYYYMMDD` rendering used for
//! all-day event starts.

use vstd::prelude::*;

verus! {

/// Whether `c` is a decimal digit.
pub open spec fn is_digit(c: char) -> bool {
    48 <= c as int <= 57
}

/// The numeric value of the digit `c`.
pub open spec fn digit_val(c: char) -> int {
    c as int - 48
}

/// The value of the first `n` characters of `s` read as decimal digits.
pub open spec fn val_prefix(s: Seq<char>, n: int) -> int
    decreases n,
{
    if n <= 0 {
        0
    } else {
        val_prefix(s, n - 1) * 10 + digit_val(s[n - 1])
    }
}

/// The value of all of `s` read as decimal digits.
pub open spec fn digits_val(s: Seq<char>) -> int {
    val_prefix(s, s.len() as int)
}

/// Whether `s` has the exact shape `YYYY-MM-DD`: ten characters, digits in
/// the date positions, `-` separators.
pub open spec fn iso_shape(s: Seq<char>) -> bool {
    &&& s.len() == 10
    &&& is_digit(s[0])
    &&& is_digit(s[1])
    &&& is_digit(s[2])
    &&& is_digit(s[3])
    &&& s[4] == '-'
    &&& is_digit(s[5])
    &&& is_digit(s[6])
    &&& s[7] == '-'
    &&& is_digit(s[8])
    &&& is_digit(s[9])
}

pub open spec fn year_of(s: Seq<char>) -> int {
    digits_val(s.subrange(0, 4))
}

pub open spec fn month_of(s: Seq<char>) -> int {
    digits_val(s.subrange(5, 7))
}

pub open spec fn day_of(s: Seq<char>) -> int {
    digits_val(s.subrange(8, 10))
}

/// The proleptic-Gregorian leap-year rule.
pub open spec fn is_leap_year(y: int) -> bool {
    y % 4 == 0 && (y % 100 != 0 || y % 400 == 0)
}

/// The number of days of month `m` in year `y`.
pub open spec fn days_in_month(y: int, m: int) -> int {
    if m == 2 {
        if is_leap_year(y) {
            29
        } else {
            28
        }
    } else if m == 4 || m == 6 || m == 9 || m == 11 {
        30
    } else {
        31
    }
}

/// Whether year, month and day form a real calendar date.
pub open spec fn valid_date(y: int, m: int, d: int) -> bool {
    1 <= m <= 12 && 1 <= d <= days_in_month(y, m)
}

/// Whether `s` parses as an ISO `YYYY-MM-DD` calendar date.
pub open spec fn valid_iso_date(s: Seq<char>) -> bool {
    iso_shape(s) && valid_date(year_of(s), month_of(s), day_of(s))
}

/// The compact `YYYYMMDD` form of a `YYYY-MM-DD` string: the same digits
/// with the separators removed.
pub open spec fn compact_spec(s: Seq<char>) -> Seq<char> {
    s.subrange(0, 4) + s.subrange(5, 7) + s.subrange(8, 10)
}

/// A parsed calendar date.
pub struct Date {
    pub year: u32,
    pub month: u8,
    pub day: u8,
}

impl Date {
    /// A real calendar date with a four-digit year.
    pub open spec fn well_formed(&self) -> bool {
        self.year <= 9999 && valid_date(self.year as int, self.month as int, self.day as int)
    }
}

fn is_digit_exec(c: char) -> (r: bool)
    ensures
        r == is_digit(c),
{
    let u = c as u32;
    48 <= u && u <= 57
}

fn days_in_month_exec(y: u32, m: u8) -> (r: u8)
    ensures
        r as int == days_in_month(y as int, m as int),
{
    if m == 2 {
        if y % 4 == 0 && (y % 100 != 0 || y % 400 == 0) {
            29
        } else {
            28
        }
    } else if m == 4 || m == 6 || m == 9 || m == 11 {
        30
    } else {
        31
    }
}

/// Parses a strict ISO `YYYY-MM-DD` calendar date; any other shape, or a
/// day outside its month, yields `None`.
pub fn parse_iso_date(s: &str) -> (r: Option<Date>)
    ensures
        r is Some <==> valid_iso_date(s@),
        r matches Some(d) ==> d.well_formed() && d.year as int == year_of(s@) && d.month as int
            == month_of(s@) && d.day as int == day_of(s@),
{
    let len = s.unicode_len();
    if len != 10 {
        return None;
    }
    let c0 = s.get_char(0);
    let c1 = s.get_char(1);
    let c2 = s.get_char(2);
    let c3 = s.get_char(3);
    let c4 = s.get_char(4);
    let c5 = s.get_char(5);
    let c6 = s.get_char(6);
    let c7 = s.get_char(7);
    let c8 = s.get_char(8);
    let c9 = s.get_char(9);
    if !(is_digit_exec(c0) && is_digit_exec(c1) && is_digit_exec(c2) && is_digit_exec(c3) && c4
        == '-' && is_digit_exec(c5) && is_digit_exec(c6) && c7 == '-' && is_digit_exec(c8)
        && is_digit_exec(c9)) {
        return None;
    }
    let year: u32 = (c0 as u32 - 48) * 1000 + (c1 as u32 - 48) * 100 + (c2 as u32 - 48) * 10 + (
    c3 as u32 - 48);
    let month: u8 = ((c5 as u32 - 48) * 10 + (c6 as u32 - 48)) as u8;
    let day: u8 = ((c8 as u32 - 48) * 10 + (c9 as u32 - 48)) as u8;
    proof {
        let ghost ys = s@.subrange(0, 4);
        assert(val_prefix(ys, 0) == 0);
        assert(val_prefix(ys, 1) == val_prefix(ys, 0) * 10 + digit_val(ys[0]));
        assert(val_prefix(ys, 2) == val_prefix(ys, 1) * 10 + digit_val(ys[1]));
        assert(val_prefix(ys, 3) == val_prefix(ys, 2) * 10 + digit_val(ys[2]));
        assert(val_prefix(ys, 4) == val_prefix(ys, 3) * 10 + digit_val(ys[3]));
        assert(ys[0] == c0 && ys[1] == c1 && ys[2] == c2 && ys[3] == c3);
        let ghost ms = s@.subrange(5, 7);
        assert(val_prefix(ms, 0) == 0);
        assert(val_prefix(ms, 1) == val_prefix(ms, 0) * 10 + digit_val(ms[0]));
        assert(val_prefix(ms, 2) == val_prefix(ms, 1) * 10 + digit_val(ms[1]));
        assert(ms[0] == c5 && ms[1] == c6);
        let ghost ds = s@.subrange(8, 10);
        assert(val_prefix(ds, 0) == 0);
        assert(val_prefix(ds, 1) == val_prefix(ds, 0) * 10 + digit_val(ds[0]));
        assert(val_prefix(ds, 2) == val_prefix(ds, 1) * 10 + digit_val(ds[1]));
        assert(ds[0] == c8 && ds[1] == c9);
    }
    if month < 1 || month > 12 {
        return None;
    }
    if day < 1 || day > days_in_month_exec(year, month) {
        return None;
    }
    Some(Date { year, month, day })
}

/// The compact `YYYYMMDD` form of a ten-character `YYYY-MM-DD` string.
pub fn compact_date(s: &str) -> (r: String)
    requires
        s@.len() == 10,
    ensures
        r@ == compact_spec(s@),
{
    let mut r = String::from_str(s.substring_char(0, 4));
    r.append(s.substring_char(5, 7));
    r.append(s.substring_char(8, 10));
    r
}

} // verus!
