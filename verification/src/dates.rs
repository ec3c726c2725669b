//! Recognition of the optional `"YYYY-MM-DD "` token that may lead an
//! entry's on-disk name: strict shape check, calendar validity (leap years
//! included), and the split into date and display name.

use vstd::prelude::*;

verus! {

/// A calendar date taken from a leading `"YYYY-MM-DD"` token.
#[derive(Clone, Copy, PartialEq, Eq, Structural, Debug)]
pub struct PrefixDate {
    pub year: u32,
    pub month: u32,
    pub day: u32,
}

pub open spec fn is_leap_year(y: int) -> bool {
    y % 4 == 0 && (y % 100 != 0 || y % 400 == 0)
}

pub open spec fn days_in_month(y: int, m: int) -> int {
    if m == 2 {
        if is_leap_year(y) {
            29
        } else {
            28
        }
    } else if m == 4 || m == 6 || m == 9 || m == 11 {
        30
    } else {
        31
    }
}

pub open spec fn valid_date(y: int, m: int, d: int) -> bool {
    &&& 1 <= m <= 12
    &&& 1 <= d <= days_in_month(y, m)
}

pub open spec fn is_digit(c: char) -> bool {
    '0' <= c && c <= '9'
}

pub open spec fn digit_val(c: char) -> int {
    c as int - 48
}

/// The first ten characters look like `dddd-dd-dd`.
pub open spec fn date_token_shaped(t: Seq<char>) -> bool {
    &&& t.len() == 10
    &&& is_digit(t[0])
    &&& is_digit(t[1])
    &&& is_digit(t[2])
    &&& is_digit(t[3])
    &&& t[4] == '-'
    &&& is_digit(t[5])
    &&& is_digit(t[6])
    &&& t[7] == '-'
    &&& is_digit(t[8])
    &&& is_digit(t[9])
}

pub open spec fn token_year(t: Seq<char>) -> int {
    digit_val(t[0]) * 1000 + digit_val(t[1]) * 100 + digit_val(t[2]) * 10 + digit_val(t[3])
}

pub open spec fn token_month(t: Seq<char>) -> int {
    digit_val(t[5]) * 10 + digit_val(t[6])
}

pub open spec fn token_day(t: Seq<char>) -> int {
    digit_val(t[8]) * 10 + digit_val(t[9])
}

/// The first ten characters form a well-shaped, calendar-valid date.
pub open spec fn date_token_valid(t: Seq<char>) -> bool {
    &&& date_token_shaped(t)
    &&& valid_date(token_year(t), token_month(t), token_day(t))
}

/// The name starts with a valid date token followed by a space. The token
/// itself holds no space, so the space at index 10 is also the first one,
/// which is where the name is split.
pub open spec fn has_date_prefix(s: Seq<char>) -> bool {
    &&& s.len() >= 11
    &&& s[10] == ' '
    &&& date_token_valid(s.subrange(0, 10))
}

fn days_in_month_of(y: u32, m: u32) -> (d: u32)
    requires
        1 <= m <= 12,
    ensures
        d == days_in_month(y as int, m as int),
{
    if m == 2 {
        if y % 4 == 0 && (y % 100 != 0 || y % 400 == 0) {
            29
        } else {
            28
        }
    } else if m == 4 || m == 6 || m == 9 || m == 11 {
        30
    } else {
        31
    }
}

fn digit_of(c: char) -> (d: u32)
    requires
        is_digit(c),
    ensures
        d == digit_val(c),
        d <= 9,
{
    (c as u32) - 48
}

/// Splits a leading `"YYYY-MM-DD "` token off an entry name. The date must
/// be shaped exactly as four, two and two digits and must exist on the
/// calendar; otherwise the name is left whole and nothing is returned.
pub fn extract_prefix_date(name: &str) -> (r: Option<(PrefixDate, String)>)
    ensures
        match r {
            Some(p) => {
                &&& has_date_prefix(name@)
                &&& p.0.year == token_year(name@.subrange(0, 10))
                &&& p.0.month == token_month(name@.subrange(0, 10))
                &&& p.0.day == token_day(name@.subrange(0, 10))
                &&& p.1@ == name@.subrange(11, name@.len() as int)
            },
            None => !has_date_prefix(name@),
        },
{
    let n = name.unicode_len();
    if n < 11 {
        return None;
    }
    let ghost t = name@.subrange(0, 10);
    if name.get_char(10) != ' ' {
        return None;
    }
    let c0 = name.get_char(0);
    let c1 = name.get_char(1);
    let c2 = name.get_char(2);
    let c3 = name.get_char(3);
    let c4 = name.get_char(4);
    let c5 = name.get_char(5);
    let c6 = name.get_char(6);
    let c7 = name.get_char(7);
    let c8 = name.get_char(8);
    let c9 = name.get_char(9);
    let shaped = ('0' <= c0 && c0 <= '9') && ('0' <= c1 && c1 <= '9') && ('0' <= c2 && c2 <= '9')
        && ('0' <= c3 && c3 <= '9') && c4 == '-' && ('0' <= c5 && c5 <= '9') && ('0' <= c6 && c6
        <= '9') && c7 == '-' && ('0' <= c8 && c8 <= '9') && ('0' <= c9 && c9 <= '9');
    if !shaped {
        assert(!date_token_shaped(t));
        return None;
    }
    assert(date_token_shaped(t));
    let year = digit_of(c0) * 1000 + digit_of(c1) * 100 + digit_of(c2) * 10 + digit_of(c3);
    let month = digit_of(c5) * 10 + digit_of(c6);
    let day = digit_of(c8) * 10 + digit_of(c9);
    assert(year == token_year(t) && month == token_month(t) && day == token_day(t));
    if month < 1 || month > 12 {
        return None;
    }
    if day < 1 || day > days_in_month_of(year, month) {
        return None;
    }
    let rest = name.substring_char(11, n);
    Some((PrefixDate { year, month, day }, rest.to_owned()))
}

} // verus!
