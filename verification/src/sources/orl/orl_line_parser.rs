//! The strict form of a log line, in which every field has its fixed
//! width: `[YYYY-MM-DD HH:MM:SS.mmm UTC] <username>: <text>`.

use crate::error::OrlError;
use crate::formats::orl::OrlLog;
use crate::formats::orl::Raw;
use crate::sources::orl::line_parser::LineRecord;
use crate::sources::orl::parse_timestamp::timestamp_of_parsed;
use crate::text::all_digits;
use crate::text::chars_of;
use crate::text::decimal_value;
use crate::text::digit_of;
use crate::text::find_char;
use crate::text::find_from;
use crate::text::is_ascii_digit;
use crate::text::is_digit;
use crate::text::lemma_decimal_value_nonneg;
use crate::text::string_of_range;
use crate::time::chrono_parse;
use crate::time::chrono_parsed;
pub use crate::time::OrlDate;
use crate::time::Timestamp;
use std::marker::PhantomData;
use vstd::prelude::*;

verus! {

/// What `chrono` reads out of the timestamp of a strict line.
pub open spec fn strict_parsed(s: Seq<char>) -> Option<OrlDate> {
    chrono_parsed(s, "%Y-%m-%d %H:%M:%S%.3f %Z"@)
}

/// Parses `YYYY-MM-DD HH:MM:SS.mmm UTC`; the reading is left to `chrono`.
pub fn parse_orl_date(input: &str) -> (r: Result<Timestamp, OrlError>)
    ensures
        r is Ok <==> (strict_parsed(input@) matches Some(d) && d.valid()),
        r matches Ok(t) ==> t.wf() && Some(t.date()) == strict_parsed(input@),
        r matches Err(e) ==> e == OrlError::InvalidTimestamp,
{
    timestamp_of_parsed(chrono_parse(input, "%Y-%m-%d %H:%M:%S%.3f %Z"))
}

/// The number that `width` characters from `at` on spell: digits only, or a
/// `+` and digits, and for a year also a `-` and digits.
pub open spec fn field_value(s: Seq<char>, at: int, width: int, signed: bool) -> Option<int> {
    let field = s.subrange(at, at + width);
    let digits = field.subrange(1, width);
    if all_digits(field) {
        Some(decimal_value(field))
    } else if width >= 2 && field[0] == '+' && all_digits(digits) {
        Some(decimal_value(digits))
    } else if signed && width >= 2 && field[0] == '-' && all_digits(digits) {
        Some(-decimal_value(digits))
    } else {
        None
    }
}

/// Blanks and tabs.
pub open spec fn is_blank(c: char) -> bool {
    c == ' ' || c == '\t'
}

/// First index at or after `i` that holds neither a blank nor a tab.
pub open spec fn skip_blanks(s: Seq<char>, i: int) -> int
    decreases s.len() - i,
{
    if 0 <= i < s.len() && is_blank(s[i]) {
        skip_blanks(s, i + 1)
    } else {
        i
    }
}

/// Where the fields of a strict line stand.
pub const YEAR_AT: usize = 1;

pub const MONTH_AT: usize = 6;

pub const DAY_AT: usize = 9;

pub const HOUR_AT: usize = 12;

pub const MINUTE_AT: usize = 15;

pub const SECOND_AT: usize = 18;

pub const MILLIS_AT: usize = 21;

/// Where the timestamp of a strict line ends: at its closing bracket.
pub const STAMP_END: usize = 28;

/// Whether the punctuation of the timestamp of a strict line is in place.
pub open spec fn strict_frame(s: Seq<char>) -> bool {
    &&& s.len() > STAMP_END
    &&& s[0] == '['
    &&& s[5] == '-'
    &&& s[8] == '-'
    &&& s[11] == ' '
    &&& s[14] == ':'
    &&& s[17] == ':'
    &&& s[20] == '.'
    &&& s[24] == ' '
    &&& s[25] == 'U'
    &&& s[26] == 'T'
    &&& s[27] == 'C'
    &&& s[28] == ']'
}

/// The numbers of the timestamp of a strict line, as civil fields.
pub open spec fn strict_date(s: Seq<char>) -> Option<OrlDate> {
    match (
        field_value(s, YEAR_AT as int, 4, true),
        field_value(s, MONTH_AT as int, 2, false),
        field_value(s, DAY_AT as int, 2, false),
        field_value(s, HOUR_AT as int, 2, false),
        field_value(s, MINUTE_AT as int, 2, false),
        field_value(s, SECOND_AT as int, 2, false),
        field_value(s, MILLIS_AT as int, 3, false),
    ) {
        (Some(y), Some(mo), Some(d), Some(h), Some(mi), Some(sec), Some(ms)) => Some(
            OrlDate {
                year: y as i32,
                month: mo as u32,
                day: d as u32,
                hour: h as u32,
                minute: mi as u32,
                second: sec as u32,
                ms: ms as u32,
            },
        ),
        _ => None,
    }
}

/// What a strict line says: the timestamp in its fixed form; one blank or
/// tab or more; the user name, of one character or more, up to the first
/// colon; one blank or tab or more; and the text, which is the rest.
/// Nothing is trimmed or lower-cased.
pub open spec fn strict_line(s: Seq<char>) -> Option<LineRecord> {
    let n = s.len() as int;
    let name_at = skip_blanks(s, STAMP_END + 1);
    let colon = find_from(s, ':', name_at);
    let text_at = skip_blanks(s, colon + 1);
    if strict_frame(s) && name_at > STAMP_END + 1 && name_at < colon && colon < n && text_at > colon
        + 1 {
        match strict_date(s) {
            Some(d) => if d.valid() {
                Some(
                    LineRecord {
                        date: d,
                        username: s.subrange(name_at, colon),
                        text: s.subrange(text_at, n),
                    },
                )
            } else {
                None
            },
            None => None,
        }
    } else {
        None
    }
}

/// Reads the number that `width` characters from `at` on spell.
fn read_field(v: &Vec<char>, at: usize, width: usize, signed: bool) -> (r: Option<i32>)
    requires
        at + width <= v.len(),
        1 <= width <= 4,
    ensures
        r is Some <==> field_value(v@, at as int, width as int, signed) is Some,
        r matches Some(n) ==> field_value(v@, at as int, width as int, signed) == Some(n as int),
        r matches Some(n) ==> -10000 < n < 10000,
{
    let ghost field = v@.subrange(at as int, at + width);
    let first = v[at];
    let start: usize = if first == '+' || (signed && first == '-') {
        1
    } else {
        0
    };
    if start == width {
        assert(!is_digit(field[0]));
        return None;
    }
    let ghost digits = field.subrange(start as int, width as int);
    let mut acc: i32 = 0;
    let mut i: usize = start;
    while i < width
        invariant
            start <= i <= width <= 4,
            at + width <= v.len(),
            field == v@.subrange(at as int, at + width),
            digits == field.subrange(start as int, width as int),
            field[0] == first,
            start == (if first == '+' || (signed && first == '-') {
                1int
            } else {
                0int
            }),
            all_digits(digits.subrange(0, i - start)),
            acc == decimal_value(digits.subrange(0, i - start)),
            0 <= acc < crate::text::pow10((i - start) as nat),
        decreases width - i,
    {
        let c = v[at + i];
        let ghost before = digits.subrange(0, i - start);
        let ghost after = digits.subrange(0, i - start + 1);
        proof {
            assert(after.drop_last() =~= before);
            assert(after.last() == c);
            assert(c == field[i as int]);
            reveal_with_fuel(crate::text::pow10, 5);
        }
        if !is_ascii_digit(c) {
            assert(!is_digit(digits[i - start]));
            assert(!is_digit(field[i as int]));
            return None;
        }
        acc = acc * 10 + digit_of(c) as i32;
        assert(all_digits(after)) by {
            assert forall|k: int| 0 <= k < after.len() implies is_digit(#[trigger] after[k]) by {
                if k < before.len() {
                    assert(before[k] == after[k]);
                }
            }
        }
        i += 1;
    }
    proof {
        assert(digits.subrange(0, digits.len() as int) =~= digits);
        reveal_with_fuel(crate::text::pow10, 5);
        if start == 0 {
            assert(digits =~= field);
        } else {
            assert(!is_digit(field[0]));
            assert(!all_digits(field));
        }
    }
    if start == 1 && first == '-' {
        Some(-acc)
    } else {
        Some(acc)
    }
}

/// Reads the seven numbers of the timestamp of a strict line.
fn read_strict_date(v: &Vec<char>) -> (r: Option<OrlDate>)
    requires
        v.len() > STAMP_END,
    ensures
        r is Some <==> (strict_date(v@) matches Some(d) && d.valid()),
        r matches Some(d) ==> strict_date(v@) == Some(d),
{
    let year = read_field(v, YEAR_AT, 4, true);
    let month = read_field(v, MONTH_AT, 2, false);
    let day = read_field(v, DAY_AT, 2, false);
    let hour = read_field(v, HOUR_AT, 2, false);
    let minute = read_field(v, MINUTE_AT, 2, false);
    let second = read_field(v, SECOND_AT, 2, false);
    let ms = read_field(v, MILLIS_AT, 3, false);
    match (year, month, day, hour, minute, second, ms) {
        (Some(y), Some(mo), Some(d), Some(h), Some(mi), Some(sec), Some(ms)) => {
            if mo < 0 || d < 0 || h < 0 || mi < 0 || sec < 0 || ms < 0 {
                // an unsigned field spells no negative number
                proof {
                    lemma_field_nonneg(v@, MONTH_AT as int, 2);
                    lemma_field_nonneg(v@, DAY_AT as int, 2);
                    lemma_field_nonneg(v@, HOUR_AT as int, 2);
                    lemma_field_nonneg(v@, MINUTE_AT as int, 2);
                    lemma_field_nonneg(v@, SECOND_AT as int, 2);
                    lemma_field_nonneg(v@, MILLIS_AT as int, 3);
                }
                return None;
            }
            let date = OrlDate {
                year: y,
                month: mo as u32,
                day: d as u32,
                hour: h as u32,
                minute: mi as u32,
                second: sec as u32,
                ms: ms as u32,
            };
            match Timestamp::from_date(date) {
                Some(_) => Some(date),
                None => None,
            }
        },
        _ => None,
    }
}

/// A field without a sign of its own spells no negative number.
proof fn lemma_field_nonneg(s: Seq<char>, at: int, width: int)
    ensures
        field_value(s, at, width, false) matches Some(n) ==> n >= 0,
{
    let field = s.subrange(at, at + width);
    let digits = field.subrange(1, width);
    if all_digits(field) {
        lemma_decimal_value_nonneg(field);
    }
    if all_digits(digits) {
        lemma_decimal_value_nonneg(digits);
    }
}

/// First index at or after `i` of `v` that holds neither a blank nor a tab.
fn skip_blank_chars(v: &Vec<char>, i: usize) -> (j: usize)
    requires
        i <= v.len(),
    ensures
        j == skip_blanks(v@, i as int),
        i <= j <= v.len(),
{
    let mut j: usize = i;
    while j < v.len() && (v[j] == ' ' || v[j] == '\t')
        invariant
            i <= j <= v.len(),
            skip_blanks(v@, i as int) == skip_blanks(v@, j as int),
        decreases v.len() - j,
    {
        j += 1;
    }
    j
}

/// Whether the punctuation of the timestamp of a strict line is in place.
fn has_strict_frame(v: &Vec<char>) -> (r: bool)
    ensures
        r == strict_frame(v@),
{
    v.len() > STAMP_END && v[0] == '[' && v[5] == '-' && v[8] == '-' && v[11] == ' ' && v[14] == ':'
        && v[17] == ':' && v[20] == '.' && v[24] == ' ' && v[25] == 'U' && v[26] == 'T' && v[27]
        == 'C' && v[28] == ']'
}

/// Parses a strict line of the file of `channel`. The record comes back as
/// it was read: nothing is trimmed or lower-cased. A line that is not of
/// the strict form is no record.
pub fn parse_orl_line(channel: &str, input: &str) -> (r: Option<OrlLog<Raw>>)
    ensures
        r is Some <==> strict_line(input@) is Some,
        r matches Some(log) ==> log.ts.wf() && log.channel@ == channel@ && strict_line(input@)
            == Some(LineRecord { date: log.ts.date(), username: log.username@, text: log.text@ }),
{
    let v = chars_of(input);
    let n = v.len();
    if !has_strict_frame(&v) {
        return None;
    }
    let name_at = skip_blank_chars(&v, STAMP_END + 1);
    let colon = find_char(&v, ':', name_at);
    if !(name_at > STAMP_END + 1 && name_at < colon && colon < n) {
        return None;
    }
    let text_at = skip_blank_chars(&v, colon + 1);
    if text_at <= colon + 1 {
        return None;
    }
    match read_strict_date(&v) {
        Some(date) => match Timestamp::from_date(date) {
            Some(ts) => Some(
                OrlLog {
                    ts,
                    channel: channel.to_owned(),
                    username: string_of_range(&v, name_at, colon),
                    text: string_of_range(&v, text_at, n),
                    _s: PhantomData::<Raw>,
                },
            ),
            None => None,
        },
        None => None,
    }
}

/// Where the user name of a strict line starts when one blank follows the
/// timestamp.
pub const NAME_AT: usize = 30;

/// What a strict line says when it is taken apart by position alone: the
/// timestamp is the 27 characters after the first, the user name runs from
/// the 31st character to the first colon after it, and the text starts two
/// characters after that colon. Positions count characters.
pub open spec fn positional_line(s: Seq<char>) -> Option<LineRecord> {
    let n = s.len() as int;
    let colon = find_from(s, ':', NAME_AT as int);
    if n >= NAME_AT && colon < n && colon + 2 <= n {
        match strict_parsed(s.subrange(1, STAMP_END as int)) {
            Some(d) => if d.valid() {
                Some(
                    LineRecord {
                        date: d,
                        username: s.subrange(NAME_AT as int, colon),
                        text: s.subrange(colon + 2, n),
                    },
                )
            } else {
                None
            },
            None => None,
        }
    } else {
        None
    }
}

/// Parses a strict line of the file of `channel` by position alone. A line
/// that is too short, has no colon where one is due, or a timestamp that is
/// none, is rejected.
pub fn parse_orl_line_simple(channel: &str, line: &str) -> (r: Result<OrlLog<Raw>, OrlError>)
    ensures
        r is Ok <==> positional_line(line@) is Some,
        r matches Ok(log) ==> log.ts.wf() && log.channel@ == channel@ && positional_line(line@)
            == Some(LineRecord { date: log.ts.date(), username: log.username@, text: log.text@ }),
        r matches Err(e) ==> e == OrlError::InvalidFormat,
{
    let v = chars_of(line);
    let n = v.len();
    if n < NAME_AT {
        return Err(OrlError::InvalidFormat);
    }
    let colon = find_char(&v, ':', NAME_AT);
    if colon >= n || n - colon < 2 {
        return Err(OrlError::InvalidFormat);
    }
    let date_string = string_of_range(&v, 1, STAMP_END);
    match parse_orl_date(date_string.as_str()) {
        Ok(ts) => Ok(
            OrlLog {
                ts,
                text: string_of_range(&v, colon + 2, n),
                username: string_of_range(&v, NAME_AT, colon),
                channel: channel.to_owned(),
                _s: PhantomData::<Raw>,
            },
        ),
        Err(_) => Err(OrlError::InvalidFormat),
    }
}

} // verus!
