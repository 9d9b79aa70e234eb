//! Derivation of the optional publish year and publish date from one raw
//! upstream date string. Both derivations degrade to "absent" on malformed
//! input; neither ever fails the surrounding call.
use vstd::prelude::*;
use vstd::string::StrSliceExecFns;

use crate::models::MediaDate;
use crate::models::days_in_month;
use crate::models::valid_media_date;

verus! {

/// An ASCII decimal digit.
pub open spec fn is_digit_char(c: char) -> bool {
    48 <= c as u32 <= 57
}

/// The numeric value of an ASCII decimal digit.
pub open spec fn digit_value(c: char) -> int {
    c as u32 - 48
}

/// The number read from the four digits of `s` starting at `i`.
pub open spec fn four_digit_value(s: Seq<char>, i: int) -> int {
    digit_value(s[i]) * 1000 + digit_value(s[i + 1]) * 100 + digit_value(s[i + 2]) * 10
        + digit_value(s[i + 3])
}

/// The number read from the two digits of `s` starting at `i`.
pub open spec fn two_digit_value(s: Seq<char>, i: int) -> int {
    digit_value(s[i]) * 10 + digit_value(s[i + 1])
}

/// A maximal run of exactly four digits starts at position `i` of `s`.
pub open spec fn year_token_at(s: Seq<char>, i: int) -> bool {
    &&& 0 <= i
    &&& i + 4 <= s.len()
    &&& forall|j: int| i <= j < i + 4 ==> is_digit_char(s[j])
    &&& (i == 0 || !is_digit_char(s[i - 1]))
    &&& (i + 4 == s.len() || !is_digit_char(s[i + 4]))
}

/// The position of the first year token of `s` at or after `i`, if any.
pub open spec fn year_token_from(s: Seq<char>, i: int) -> Option<int>
    decreases s.len() - i,
{
    if i < 0 || i + 4 > s.len() {
        Option::None
    } else if year_token_at(s, i) {
        Option::Some(i)
    } else {
        year_token_from(s, i + 1)
    }
}

/// The year read from the first four-digit token of `s`, if `s` holds one.
pub open spec fn spec_year_of(s: Seq<char>) -> Option<i32> {
    match year_token_from(s, 0) {
        Option::Some(i) => Option::Some(four_digit_value(s, i) as i32),
        Option::None => Option::None,
    }
}

/// `s` spells a calendar date as four digit characters, a dash, two digit
/// characters, a dash, and two digit characters.
pub open spec fn date_shape(s: Seq<char>) -> bool {
    &&& s.len() == 10
    &&& is_digit_char(s[0]) && is_digit_char(s[1]) && is_digit_char(s[2]) && is_digit_char(s[3])
    &&& s[4] == '-'
    &&& is_digit_char(s[5]) && is_digit_char(s[6])
    &&& s[7] == '-'
    &&& is_digit_char(s[8]) && is_digit_char(s[9])
}

/// The calendar date `s` spells, if it spells a well-formed one.
pub open spec fn spec_date_of(s: Seq<char>) -> Option<MediaDate> {
    if date_shape(s) {
        let y = four_digit_value(s, 0);
        let m = two_digit_value(s, 5);
        let d = two_digit_value(s, 8);
        if 1 <= m <= 12 && 1 <= d <= days_in_month(y, m) {
            Option::Some(MediaDate { year: y as i32, month: m as u32, day: d as u32 })
        } else {
            Option::None
        }
    } else {
        Option::None
    }
}

fn is_digit(c: char) -> (r: bool)
    ensures
        r == is_digit_char(c),
{
    let u = c as u32;
    48 <= u && u <= 57
}

fn digit_of(c: char) -> (r: u32)
    requires
        is_digit_char(c),
    ensures
        r == digit_value(c),
{
    (c as u32) - 48
}

fn read_four_digits(date: &str, i: usize) -> (r: u32)
    requires
        i + 4 <= usize::MAX,
        i + 4 <= date@.len(),
        forall|j: int| i <= j < i + 4 ==> is_digit_char(date@[j]),
    ensures
        r == four_digit_value(date@, i as int),
        r <= 9999,
{
    let d0 = digit_of(date.get_char(i));
    let d1 = digit_of(date.get_char(i + 1));
    let d2 = digit_of(date.get_char(i + 2));
    let d3 = digit_of(date.get_char(i + 3));
    d0 * 1000 + d1 * 100 + d2 * 10 + d3
}

fn read_two_digits(date: &str, i: usize) -> (r: u32)
    requires
        i + 2 <= usize::MAX,
        i + 2 <= date@.len(),
        is_digit_char(date@[i as int]),
        is_digit_char(date@[i as int + 1]),
    ensures
        r == two_digit_value(date@, i as int),
        r <= 99,
{
    let d0 = digit_of(date.get_char(i));
    let d1 = digit_of(date.get_char(i + 1));
    d0 * 10 + d1
}

/// The year named by the first maximal run of exactly four digits of `date`,
/// or `None` when no such run exists. Malformed input never fails: it reads
/// as an absent year.
pub fn convert_date_to_year(date: &str) -> (r: Option<i32>)
    ensures
        r == spec_year_of(date@),
{
    let n = date.unicode_len();
    if n < 4 {
        return None;
    }
    let mut i: usize = 0;
    while i <= n - 4
        invariant
            n == date@.len(),
            4 <= n,
            i <= n - 4 + 1,
            year_token_from(date@, 0) == year_token_from(date@, i as int),
        decreases n - i,
    {
        let all_digits = is_digit(date.get_char(i)) && is_digit(date.get_char(i + 1)) && is_digit(
            date.get_char(i + 2),
        ) && is_digit(date.get_char(i + 3));
        let left_bound = i == 0 || !is_digit(date.get_char(i - 1));
        let right_bound = i + 4 == n || !is_digit(date.get_char(i + 4));
        if all_digits && left_bound && right_bound {
            proof {
                assert(year_token_at(date@, i as int));
            }
            let y = read_four_digits(date, i);
            return Some(y as i32);
        }
        proof {
            assert(!year_token_at(date@, i as int));
        }
        i += 1;
    }
    proof {
        assert(year_token_from(date@, i as int) is None);
    }
    None
}

fn days_in_month_of(y: i32, m: u32) -> (r: u32)
    requires
        0 <= y,
        1 <= m <= 12,
    ensures
        r == days_in_month(y as int, m as int),
{
    if m == 2 {
        if (y % 4 == 0 && y % 100 != 0) || y % 400 == 0 {
            29
        } else {
            28
        }
    } else if m == 4 || m == 6 || m == 9 || m == 11 {
        30
    } else {
        31
    }
}

/// The calendar date spelled by `date` as year, month and day digits
/// separated by dashes, or `None` when the string is malformed or names no
/// well-formed date. Malformed input never fails: it reads as an absent date.
pub fn convert_string_to_date(date: &str) -> (r: Option<MediaDate>)
    ensures
        r == spec_date_of(date@),
        r matches Some(d) ==> valid_media_date(d),
{
    let n = date.unicode_len();
    if n != 10 {
        return None;
    }
    let shape_ok = is_digit(date.get_char(0)) && is_digit(date.get_char(1)) && is_digit(
        date.get_char(2),
    ) && is_digit(date.get_char(3)) && date.get_char(4) == '-' && is_digit(date.get_char(5))
        && is_digit(date.get_char(6)) && date.get_char(7) == '-' && is_digit(date.get_char(8))
        && is_digit(date.get_char(9));
    if !shape_ok {
        return None;
    }
    let y = read_four_digits(date, 0);
    let m = read_two_digits(date, 5);
    let d = read_two_digits(date, 8);
    if 1 <= m && m <= 12 {
        let limit = days_in_month_of(y as i32, m);
        if 1 <= d && d <= limit {
            return Some(MediaDate { year: y as i32, month: m, day: d });
        }
    }
    None
}

} // verus!
