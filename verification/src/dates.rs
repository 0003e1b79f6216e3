//! Parsing of the commit date text `"YYYY-MM-DD HH:MM:SS +HHMM"` (a trailing
//! parenthetical annotation is stripped first) into epoch seconds.

use vstd::prelude::*;

use crate::errors::ExtractError;
use crate::text::spec_is_digit;

verus! {

// ---------------------------------------------------------------------------
// Stripping the trailing parenthetical annotation.
// ---------------------------------------------------------------------------

/// A parenthetical annotation opens at position `i` of `s`.
pub open spec fn spec_paren_at(s: Seq<char>, i: int) -> bool {
    0 <= i && i + 1 < s.len() && s[i] == ' ' && s[i + 1] == '('
}

/// Position of the first annotation opening, or a negative value.
pub open spec fn spec_first_paren(s: Seq<char>) -> int
    decreases s.len(),
{
    if s.len() < 2 {
        -1
    } else if s[0] == ' ' && s[1] == '(' {
        0
    } else {
        let r = spec_first_paren(s.subrange(1, s.len() as int));
        if r < 0 {
            -1
        } else {
            r + 1
        }
    }
}

pub proof fn lemma_first_paren(s: Seq<char>)
    ensures
        spec_first_paren(s) < 0 ==> forall|j: int| !spec_paren_at(s, j),
        spec_first_paren(s) >= 0 ==> spec_paren_at(s, spec_first_paren(s)),
        spec_first_paren(s) >= 0 ==> forall|j: int|
            0 <= j < spec_first_paren(s) ==> !spec_paren_at(s, j),
    decreases s.len(),
{
    if s.len() < 2 {
    } else if s[0] == ' ' && s[1] == '(' {
    } else {
        let t = s.subrange(1, s.len() as int);
        lemma_first_paren(t);
        assert forall|j: int| 1 <= j implies (spec_paren_at(s, j) == spec_paren_at(t, j - 1)) by {}
        if spec_first_paren(t) < 0 {
            assert forall|j: int| 0 <= j implies !spec_paren_at(s, j) by {
                if j >= 1 {
                    assert(!spec_paren_at(t, j - 1));
                }
            }
        }
    }
}

pub proof fn lemma_first_paren_is(s: Seq<char>, k: int)
    requires
        spec_paren_at(s, k),
        forall|j: int| 0 <= j < k ==> !spec_paren_at(s, j),
    ensures
        spec_first_paren(s) == k,
{
    lemma_first_paren(s);
    if spec_first_paren(s) < 0 {
        assert(!spec_paren_at(s, k));
    } else {
        let f = spec_first_paren(s);
        if f < k {
            assert(!spec_paren_at(s, f));
        }
        if k < f {
            assert(!spec_paren_at(s, k));
        }
    }
}

/// The date text with any trailing annotation removed.
pub open spec fn spec_strip_annotation(s: Seq<char>) -> Seq<char> {
    if spec_first_paren(s) < 0 {
        s
    } else {
        s.take(spec_first_paren(s))
    }
}

// ---------------------------------------------------------------------------
// Shape and field values of the fixed date format.
// ---------------------------------------------------------------------------

/// Numeric value of one decimal digit character.
pub open spec fn spec_digit_val(c: char) -> int {
    c as int - 48
}

/// The text has exactly the shape `YYYY-MM-DD HH:MM:SS +HHMM` (or `-HHMM`).
pub open spec fn spec_date_shape(t: Seq<char>) -> bool {
    &&& t.len() == 25
    &&& spec_is_digit(t[0])
    &&& spec_is_digit(t[1])
    &&& spec_is_digit(t[2])
    &&& spec_is_digit(t[3])
    &&& t[4] == '-'
    &&& spec_is_digit(t[5])
    &&& spec_is_digit(t[6])
    &&& t[7] == '-'
    &&& spec_is_digit(t[8])
    &&& spec_is_digit(t[9])
    &&& t[10] == ' '
    &&& spec_is_digit(t[11])
    &&& spec_is_digit(t[12])
    &&& t[13] == ':'
    &&& spec_is_digit(t[14])
    &&& spec_is_digit(t[15])
    &&& t[16] == ':'
    &&& spec_is_digit(t[17])
    &&& spec_is_digit(t[18])
    &&& t[19] == ' '
    &&& (t[20] == '+' || t[20] == '-')
    &&& spec_is_digit(t[21])
    &&& spec_is_digit(t[22])
    &&& spec_is_digit(t[23])
    &&& spec_is_digit(t[24])
}

pub open spec fn spec_year_of(t: Seq<char>) -> int {
    1000 * spec_digit_val(t[0]) + 100 * spec_digit_val(t[1]) + 10 * spec_digit_val(t[2])
        + spec_digit_val(t[3])
}

pub open spec fn spec_month_of(t: Seq<char>) -> int {
    10 * spec_digit_val(t[5]) + spec_digit_val(t[6])
}

pub open spec fn spec_day_of(t: Seq<char>) -> int {
    10 * spec_digit_val(t[8]) + spec_digit_val(t[9])
}

pub open spec fn spec_hour_of(t: Seq<char>) -> int {
    10 * spec_digit_val(t[11]) + spec_digit_val(t[12])
}

pub open spec fn spec_minute_of(t: Seq<char>) -> int {
    10 * spec_digit_val(t[14]) + spec_digit_val(t[15])
}

pub open spec fn spec_second_of(t: Seq<char>) -> int {
    10 * spec_digit_val(t[17]) + spec_digit_val(t[18])
}

/// Offset east of UTC, in seconds, carried by the `+HHMM` / `-HHMM` field.
pub open spec fn spec_offset_of(t: Seq<char>) -> int {
    let magnitude = (10 * spec_digit_val(t[21]) + spec_digit_val(t[22])) * 3600 + (10
        * spec_digit_val(t[23]) + spec_digit_val(t[24])) * 60;
    if t[20] == '-' {
        -magnitude
    } else {
        magnitude
    }
}

pub open spec fn spec_is_leap_year(y: int) -> bool {
    y % 4 == 0 && (y % 100 != 0 || y % 400 == 0)
}

pub open spec fn spec_days_in_month(y: int, m: int) -> int {
    if m == 2 {
        if spec_is_leap_year(y) {
            29
        } else {
            28
        }
    } else if m == 4 || m == 6 || m == 9 || m == 11 {
        30
    } else {
        31
    }
}

/// A date text is well formed when it has the fixed shape and its fields lie
/// in the calendar's ranges.
pub open spec fn spec_date_wf(t: Seq<char>) -> bool {
    &&& spec_date_shape(t)
    &&& 1 <= spec_month_of(t) <= 12
    &&& 1 <= spec_day_of(t) <= spec_days_in_month(spec_year_of(t), spec_month_of(t))
    &&& spec_hour_of(t) <= 23
    &&& spec_minute_of(t) <= 59
    &&& spec_second_of(t) <= 59
    &&& 10 * spec_digit_val(t[21]) + spec_digit_val(t[22]) <= 23
    &&& 10 * spec_digit_val(t[23]) + spec_digit_val(t[24]) <= 59
}

// ---------------------------------------------------------------------------
// Civil date to epoch conversion.
// ---------------------------------------------------------------------------

/// Days from the epoch date to the given civil date, by the Julian day
/// number formula.
pub open spec fn spec_days_from_civil(y: int, m: int, d: int) -> int {
    let a = (14 - m) / 12;
    let y2 = y + 4800 - a;
    let m2 = m + 12 * a - 3;
    d + (153 * m2 + 2) / 5 + 365 * y2 + y2 / 4 - y2 / 100 + y2 / 400 - 32045 - 2440588
}

/// Epoch seconds denoted by a well-formed date text: the civil date and time
/// of day, shifted west by the text's own offset.
pub open spec fn spec_epoch_of(t: Seq<char>) -> int {
    spec_days_from_civil(spec_year_of(t), spec_month_of(t), spec_day_of(t)) * 86400 + spec_hour_of(
        t,
    ) * 3600 + spec_minute_of(t) * 60 + spec_second_of(t) - spec_offset_of(t)
}

// ---------------------------------------------------------------------------
// Exec parsing.
// ---------------------------------------------------------------------------

fn digit_val(c: char) -> (v: u64)
    requires
        spec_is_digit(c),
    ensures
        v == spec_digit_val(c),
        v <= 9,
{
    (c as u32 - 48) as u64
}

/// Reads the two-digit value at positions `i`, `i + 1`.
fn two_digits(t: &str, i: usize) -> (v: u64)
    requires
        t@.len() == 25,
        i <= 23,
        spec_is_digit(t@[i as int]),
        spec_is_digit(t@[i as int + 1]),
    ensures
        v == 10 * spec_digit_val(t@[i as int]) + spec_digit_val(t@[i as int + 1]),
        v <= 99,
{
    10 * digit_val(t.get_char(i)) + digit_val(t.get_char(i + 1))
}

/// Checks the fixed shape of the stripped date text.
fn check_shape(t: &str) -> (r: bool)
    ensures
        r == spec_date_shape(t@),
{
    let n = t.unicode_len();
    if n != 25 {
        return false;
    }
    let mut ok = true;
    ok = ok && is_digit_at(t, 0) && is_digit_at(t, 1) && is_digit_at(t, 2) && is_digit_at(t, 3);
    ok = ok && t.get_char(4) == '-' && is_digit_at(t, 5) && is_digit_at(t, 6) && t.get_char(7)
        == '-';
    ok = ok && is_digit_at(t, 8) && is_digit_at(t, 9) && t.get_char(10) == ' ';
    ok = ok && is_digit_at(t, 11) && is_digit_at(t, 12) && t.get_char(13) == ':';
    ok = ok && is_digit_at(t, 14) && is_digit_at(t, 15) && t.get_char(16) == ':';
    ok = ok && is_digit_at(t, 17) && is_digit_at(t, 18) && t.get_char(19) == ' ';
    ok = ok && (t.get_char(20) == '+' || t.get_char(20) == '-');
    ok = ok && is_digit_at(t, 21) && is_digit_at(t, 22) && is_digit_at(t, 23) && is_digit_at(
        t,
        24,
    );
    ok
}

fn is_digit_at(t: &str, i: usize) -> (r: bool)
    requires
        i < t@.len(),
    ensures
        r == spec_is_digit(t@[i as int]),
{
    let c = t.get_char(i);
    '0' <= c && c <= '9'
}

/// Parses the commit date text: strips a trailing parenthetical annotation,
/// requires the remainder to match `YYYY-MM-DD HH:MM:SS +HHMM` with fields in
/// calendar range, and returns the denoted epoch second. Any other text is a
/// fatal date-parse extraction error.
pub fn parse_commit_date(text: &str) -> (r: Result<i64, ExtractError>)
    ensures
        match r {
            Ok(e) => spec_date_wf(spec_strip_annotation(text@)) && e == spec_epoch_of(
                spec_strip_annotation(text@),
            ),
            Err(err) => !spec_date_wf(spec_strip_annotation(text@)) && (
            err matches ExtractError::DateParse { text: shown } && shown@ == spec_strip_annotation(
                text@,
            )),
        },
{
    let n = text.unicode_len();
    // find the first annotation opening, if any
    let mut i: usize = 0;
    let mut cut: usize = n;
    let mut found = false;
    while n - i > 1 && !found
        invariant
            0 <= i <= n,
            n == text@.len(),
            forall|j: int| 0 <= j < i ==> !spec_paren_at(text@, j),
            !found ==> cut == n,
            found ==> spec_paren_at(text@, i as int) && cut == i,
        decreases n - i + (if found { 0int } else { 1int }),
    {
        if text.get_char(i) == ' ' && text.get_char(i + 1) == '(' {
            found = true;
            cut = i;
        } else {
            i += 1;
        }
    }
    proof {
        if found {
            lemma_first_paren_is(text@, cut as int);
        } else {
            assert forall|j: int| 0 <= j implies !spec_paren_at(text@, j) by {
                if spec_paren_at(text@, j) {
                    assert(j + 1 < n);
                    assert(j < i ==> !spec_paren_at(text@, j));
                }
            }
            lemma_first_paren(text@);
            if spec_first_paren(text@) >= 0 {
                assert(spec_paren_at(text@, spec_first_paren(text@)));
            }
        }
    }
    let t = text.substring_char(0, cut);
    proof {
        if found {
            assert(t@ =~= spec_strip_annotation(text@));
        } else {
            assert(t@ =~= text@);
            assert(t@ =~= spec_strip_annotation(text@));
        }
    }

    if !check_shape(t) {
        return Err(ExtractError::DateParse { text: t.to_owned() });
    }

    let year = 100 * two_digits(t, 0) + two_digits(t, 2);
    let month = two_digits(t, 5);
    let day = two_digits(t, 8);
    let hour = two_digits(t, 11);
    let minute = two_digits(t, 14);
    let second = two_digits(t, 17);
    let off_h = two_digits(t, 21);
    let off_m = two_digits(t, 23);
    proof {
        assert(year == spec_year_of(t@));
        assert(month == spec_month_of(t@));
        assert(day == spec_day_of(t@));
        assert(hour == spec_hour_of(t@));
        assert(minute == spec_minute_of(t@));
        assert(second == spec_second_of(t@));
    }

    if month < 1 || month > 12 {
        return Err(ExtractError::DateParse { text: t.to_owned() });
    }
    let dim = days_in_month(year, month);
    if day < 1 || day > dim {
        return Err(ExtractError::DateParse { text: t.to_owned() });
    }
    if hour > 23 || minute > 59 || second > 59 || off_h > 23 || off_m > 59 {
        return Err(ExtractError::DateParse { text: t.to_owned() });
    }

    let days = civil_days(year, month, day);
    let tod: i64 = (hour * 3600 + minute * 60 + second) as i64;
    let off: i64 = (off_h * 3600 + off_m * 60) as i64;
    let off_signed: i64 = if t.get_char(20) == '-' {
        -off
    } else {
        off
    };
    proof {
        assert(off_signed == spec_offset_of(t@));
    }
    Ok(days * 86400 + tod - off_signed)
}

/// Days from the epoch to the given civil date (exec side of
/// `spec_days_from_civil`).
fn civil_days(year: u64, month: u64, day: u64) -> (r: i64)
    requires
        year <= 9999,
        1 <= month <= 12,
        1 <= day <= 31,
    ensures
        r == spec_days_from_civil(year as int, month as int, day as int),
        -2440588 <= r <= 3200000,
{
    let a: u64 = (14 - month) / 12;
    let y2: u64 = year + 4800 - a;
    let m2: u64 = month + 12 * a - 3;
    let pos: u64 = day + (153 * m2 + 2) / 5 + 365 * y2 + y2 / 4 + y2 / 400;
    let neg: u64 = y2 / 100 + 32045;
    proof {
        assert(y2 >= 4799);
        assert(365 * y2 >= 365 * 4799);
        assert(neg <= 9999int / 100 + 4800int / 100 + 32045);
        assert(pos <= 31int + (153int * 12 + 2) / 5 + 365int * 14800 + 14800int / 4 + 14800int
            / 400);
    }
    let jdn: u64 = pos - neg;
    jdn as i64 - 2440588
}

/// The number of days of the given month.
fn days_in_month(year: u64, month: u64) -> (r: u64)
    requires
        1 <= month <= 12,
    ensures
        r == spec_days_in_month(year as int, month as int),
{
    if month == 2 {
        let leap = year % 4 == 0 && (year % 100 != 0 || year % 400 == 0);
        proof {
            assert(year as int % 4 == (year % 4) as int);
            assert(year as int % 100 == (year % 100) as int);
            assert(year as int % 400 == (year % 400) as int);
        }
        if leap {
            29
        } else {
            28
        }
    } else if month == 4 || month == 6 || month == 9 || month == 11 {
        30
    } else {
        31
    }
}

} // verus!
