//! The timestamp of a log line: `YYYY-MM-DD HH:MM:SS[.mmm][ UTC]`.
//!
//! [`parse_timestamp`] is a state machine that reads the text once and
//! accumulates the integer fields; [`parse_timestamp_slow`] hands the text
//! to `chrono`.

use crate::error::OrlError;
use crate::text::chars_of;
use crate::text::decimal_value;
use crate::text::digit_of;
use crate::text::digit_value;
use crate::text::is_ascii_digit;
use crate::text::is_digit;
use crate::text::is_whitespace;
use crate::text::is_ws;
use crate::text::skip_digits;
use crate::text::skip_ws;
use crate::time::chrono_parse;
use crate::sources::orl::round_trip::lemma_canonical_timestamp;
use crate::time::canonical_reading;
use crate::time::canonical_timestamp;
use crate::time::chrono_parsed;
use crate::time::four_digit_year;
use crate::time::OrlDate;
use crate::time::Timestamp;
use vstd::prelude::*;

verus! {

/// The numbers that a timestamp spells, before any of them is checked.
pub struct TimestampNumbers {
    pub year: int,
    pub month: int,
    pub day: int,
    pub hour: int,
    pub minute: int,
    pub second: int,
    pub ms: int,
}

/// The number spelled by the digits `s[from..to]`.
pub open spec fn number_at(s: Seq<char>, from: int, to: int) -> int {
    decimal_value(s.subrange(from, to))
}

/// The grammar of a timestamp.
///
/// Whitespace, a year of one digit or more, `-`, a month, `-`, a day, one
/// space, whitespace, an hour of one digit or more, `:`, a minute, `:`, a
/// second, and then either the end, or whitespace and anything, or `.` and a
/// millisecond followed by the end or by whitespace and anything. Month, day,
/// minute, second and millisecond may have no digit at all and then count 0.
pub open spec fn timestamp_numbers(s: Seq<char>) -> Option<TimestampNumbers> {
    let n = s.len() as int;
    let a = skip_ws(s, 0);
    let b = skip_digits(s, a);
    let c = skip_digits(s, b + 1);
    let d = skip_digits(s, c + 1);
    let e = skip_ws(s, d + 1);
    let f = skip_digits(s, e);
    let g = skip_digits(s, f + 1);
    let h = skip_digits(s, g + 1);
    let k = skip_digits(s, h + 1);
    if a < b && b < n && s[b] == '-' && c < n && s[c] == '-' && d < n && s[d] == ' ' && e < f && f
        < n && s[f] == ':' && g < n && s[g] == ':' {
        if h == n || is_ws(s[h]) {
            Some(
                TimestampNumbers {
                    year: number_at(s, a, b),
                    month: number_at(s, b + 1, c),
                    day: number_at(s, c + 1, d),
                    hour: number_at(s, e, f),
                    minute: number_at(s, f + 1, g),
                    second: number_at(s, g + 1, h),
                    ms: 0,
                },
            )
        } else if s[h] == '.' && (k == n || is_ws(s[k])) {
            Some(
                TimestampNumbers {
                    year: number_at(s, a, b),
                    month: number_at(s, b + 1, c),
                    day: number_at(s, c + 1, d),
                    hour: number_at(s, e, f),
                    minute: number_at(s, f + 1, g),
                    second: number_at(s, g + 1, h),
                    ms: number_at(s, h + 1, k),
                },
            )
        } else {
            None
        }
    } else {
        None
    }
}

impl TimestampNumbers {
    /// The numbers as civil fields, where each of them fits its field.
    pub open spec fn as_date(self) -> Option<OrlDate> {
        if 0 <= self.year <= i32::MAX && 0 <= self.month <= u32::MAX && 0 <= self.day <= u32::MAX
            && 0 <= self.hour <= u32::MAX && 0 <= self.minute <= u32::MAX && 0 <= self.second
            <= u32::MAX && 0 <= self.ms <= u32::MAX {
            Some(
                OrlDate {
                    year: self.year as i32,
                    month: self.month as u32,
                    day: self.day as u32,
                    hour: self.hour as u32,
                    minute: self.minute as u32,
                    second: self.second as u32,
                    ms: self.ms as u32,
                },
            )
        } else {
            None
        }
    }
}

/// The civil fields that a timestamp names: the text follows the grammar and
/// its numbers are an existing day and time of day.
pub open spec fn parsed_timestamp(s: Seq<char>) -> Option<OrlDate> {
    match timestamp_numbers(s) {
        Some(numbers) => match numbers.as_date() {
            Some(d) => if d.valid() {
                Some(d)
            } else {
                None
            },
            None => None,
        },
        None => None,
    }
}

/// Any number from here on is treated alike: it is too large for every field.
pub const FIELD_CAP: u32 = 1_000_000;

/// `n`, or `FIELD_CAP` where `n` is larger.
pub open spec fn capped(n: int) -> int {
    if n > FIELD_CAP {
        FIELD_CAP as int
    } else {
        n
    }
}

/// Where the scanner stands: before the year, in one of the fields, or
/// between the day and the hour.
#[derive(Clone, Copy, Debug, PartialEq, Eq, Structural)]
pub enum State {
    Start,
    Year,
    Month,
    Day,
    Time,
    Hour,
    Minute,
    Second,
    Millisecond,
}

/// The scanner: its state and the fields as far as their digits were read,
/// each capped.
#[derive(Clone, Copy, Debug, PartialEq, Eq, Structural)]
pub struct Scanner {
    pub state: State,
    pub year: u32,
    pub month: u32,
    pub day: u32,
    pub hour: u32,
    pub minute: u32,
    pub second: u32,
    pub millisecond: u32,
}

/// What the scanner makes of one character.
#[derive(Clone, Copy, Debug, PartialEq, Eq, Structural)]
pub enum Step {
    /// Go on with the next character.
    Continue,
    /// The timestamp is complete; what follows is not read.
    Done,
    /// The text is no timestamp.
    Reject,
}

/// A field with one more digit read, capped.
pub open spec fn bump(acc: u32, c: char) -> u32 {
    if acc * 10 + digit_value(c) > FIELD_CAP {
        FIELD_CAP
    } else {
        (acc * 10 + digit_value(c)) as u32
    }
}

/// The scanner before the first character.
pub open spec fn initial() -> Scanner {
    Scanner {
        state: State::Start,
        year: 0,
        month: 0,
        day: 0,
        hour: 0,
        minute: 0,
        second: 0,
        millisecond: 0,
    }
}

/// The transitions of the scanner.
///
/// Whitespace is passed over before the year and before the hour. A digit
/// goes into the field at hand. `-` ends the year and the month, one space
/// the day, `:` the hour and the minute, `.` the second. Whitespace after
/// the second or the millisecond completes the timestamp. Anything else
/// rejects the text.
pub open spec fn step_spec(sc: Scanner, c: char) -> (Scanner, Step) {
    match sc.state {
        State::Start => if is_digit(c) {
            (Scanner { state: State::Year, year: bump(sc.year, c), ..sc }, Step::Continue)
        } else if is_ws(c) {
            (sc, Step::Continue)
        } else {
            (sc, Step::Reject)
        },
        State::Year => if is_digit(c) {
            (Scanner { year: bump(sc.year, c), ..sc }, Step::Continue)
        } else if c == '-' {
            (Scanner { state: State::Month, ..sc }, Step::Continue)
        } else {
            (sc, Step::Reject)
        },
        State::Month => if is_digit(c) {
            (Scanner { month: bump(sc.month, c), ..sc }, Step::Continue)
        } else if c == '-' {
            (Scanner { state: State::Day, ..sc }, Step::Continue)
        } else {
            (sc, Step::Reject)
        },
        State::Day => if is_digit(c) {
            (Scanner { day: bump(sc.day, c), ..sc }, Step::Continue)
        } else if c == ' ' {
            (Scanner { state: State::Time, ..sc }, Step::Continue)
        } else {
            (sc, Step::Reject)
        },
        State::Time => if is_digit(c) {
            (Scanner { state: State::Hour, hour: bump(sc.hour, c), ..sc }, Step::Continue)
        } else if is_ws(c) {
            (sc, Step::Continue)
        } else {
            (sc, Step::Reject)
        },
        State::Hour => if is_digit(c) {
            (Scanner { hour: bump(sc.hour, c), ..sc }, Step::Continue)
        } else if c == ':' {
            (Scanner { state: State::Minute, ..sc }, Step::Continue)
        } else {
            (sc, Step::Reject)
        },
        State::Minute => if is_digit(c) {
            (Scanner { minute: bump(sc.minute, c), ..sc }, Step::Continue)
        } else if c == ':' {
            (Scanner { state: State::Second, ..sc }, Step::Continue)
        } else {
            (sc, Step::Reject)
        },
        State::Second => if is_digit(c) {
            (Scanner { second: bump(sc.second, c), ..sc }, Step::Continue)
        } else if c == '.' {
            (Scanner { state: State::Millisecond, ..sc }, Step::Continue)
        } else if is_ws(c) {
            (sc, Step::Done)
        } else {
            (sc, Step::Reject)
        },
        State::Millisecond => if is_digit(c) {
            (Scanner { millisecond: bump(sc.millisecond, c), ..sc }, Step::Continue)
        } else if is_ws(c) {
            (sc, Step::Done)
        } else {
            (sc, Step::Reject)
        },
    }
}

/// A field with one more digit read, capped.
fn with_digit(acc: u32, c: char) -> (r: u32)
    requires
        is_digit(c),
        acc <= FIELD_CAP,
    ensures
        r == bump(acc, c),
        r <= FIELD_CAP,
{
    let next: u32 = acc * 10 + digit_of(c);
    if next > FIELD_CAP {
        FIELD_CAP
    } else {
        next
    }
}

impl Scanner {
    /// No field is beyond the cap.
    pub open spec fn capped_fields(self) -> bool {
        self.year <= FIELD_CAP && self.month <= FIELD_CAP && self.day <= FIELD_CAP && self.hour
            <= FIELD_CAP && self.minute <= FIELD_CAP && self.second <= FIELD_CAP
            && self.millisecond <= FIELD_CAP
    }

    /// The scanner before the first character.
    pub fn new() -> (r: Scanner)
        ensures
            r == initial(),
    {
        Scanner {
            state: State::Start,
            year: 0,
            month: 0,
            day: 0,
            hour: 0,
            minute: 0,
            second: 0,
            millisecond: 0,
        }
    }

    /// Takes one character.
    pub fn step(&mut self, c: char) -> (r: Step)
        requires
            old(self).capped_fields(),
        ensures
            (*final(self), r) == step_spec(*old(self), c),
            final(self).capped_fields(),
    {
        let digit = is_ascii_digit(c);
        match self.state {
            State::Start => {
                if digit {
                    self.year = with_digit(self.year, c);
                    self.state = State::Year;
                } else if !is_whitespace(c) {
                    return Step::Reject;
                }
            },
            State::Year => {
                if digit {
                    self.year = with_digit(self.year, c);
                } else if c == '-' {
                    self.state = State::Month;
                } else {
                    return Step::Reject;
                }
            },
            State::Month => {
                if digit {
                    self.month = with_digit(self.month, c);
                } else if c == '-' {
                    self.state = State::Day;
                } else {
                    return Step::Reject;
                }
            },
            State::Day => {
                if digit {
                    self.day = with_digit(self.day, c);
                } else if c == ' ' {
                    self.state = State::Time;
                } else {
                    return Step::Reject;
                }
            },
            State::Time => {
                if digit {
                    self.hour = with_digit(self.hour, c);
                    self.state = State::Hour;
                } else if !is_whitespace(c) {
                    return Step::Reject;
                }
            },
            State::Hour => {
                if digit {
                    self.hour = with_digit(self.hour, c);
                } else if c == ':' {
                    self.state = State::Minute;
                } else {
                    return Step::Reject;
                }
            },
            State::Minute => {
                if digit {
                    self.minute = with_digit(self.minute, c);
                } else if c == ':' {
                    self.state = State::Second;
                } else {
                    return Step::Reject;
                }
            },
            State::Second => {
                if digit {
                    self.second = with_digit(self.second, c);
                } else if c == '.' {
                    self.state = State::Millisecond;
                } else if is_whitespace(c) {
                    return Step::Done;
                } else {
                    return Step::Reject;
                }
            },
            State::Millisecond => {
                if digit {
                    self.millisecond = with_digit(self.millisecond, c);
                } else if is_whitespace(c) {
                    return Step::Done;
                } else {
                    return Step::Reject;
                }
            },
        }
        Step::Continue
    }
}

/// Where the pieces of a timestamp stand in a text, as far as the text
/// follows the grammar.
pub struct Marks {
    pub a: int,
    pub b: int,
    pub c: int,
    pub d: int,
    pub e: int,
    pub f: int,
    pub g: int,
    pub h: int,
    pub k: int,
}

/// Where the pieces stand.
pub open spec fn marks(s: Seq<char>) -> Marks {
    let a = skip_ws(s, 0);
    let b = skip_digits(s, a);
    let c = skip_digits(s, b + 1);
    let d = skip_digits(s, c + 1);
    let e = skip_ws(s, d + 1);
    let f = skip_digits(s, e);
    let g = skip_digits(s, f + 1);
    let h = skip_digits(s, g + 1);
    let k = skip_digits(s, h + 1);
    Marks { a, b, c, d, e, f, g, h, k }
}

/// The text has a year and `-` behind it.
pub open spec fn has_year(s: Seq<char>) -> bool {
    let m = marks(s);
    0 <= m.a < m.b && m.b < s.len() && s[m.b] == '-'
}

/// The text has a year and a month, each with `-` behind it.
pub open spec fn has_month(s: Seq<char>) -> bool {
    let m = marks(s);
    has_year(s) && m.b < m.c < s.len() && s[m.c] == '-'
}

/// The text has a date and a space behind it.
pub open spec fn has_day(s: Seq<char>) -> bool {
    let m = marks(s);
    has_month(s) && m.c < m.d < s.len() && s[m.d] == ' '
}

/// The text has a date, an hour and `:` behind it.
pub open spec fn has_hour(s: Seq<char>) -> bool {
    let m = marks(s);
    has_day(s) && m.d < m.e < m.f && m.f < s.len() && s[m.f] == ':'
}

/// The text has a date, an hour and a minute, each with `:` behind it.
pub open spec fn has_minute(s: Seq<char>) -> bool {
    let m = marks(s);
    has_hour(s) && m.f < m.g < s.len() && s[m.g] == ':'
}

/// What the scanner knows when it stands before the character `i` of `s`:
/// the text follows the grammar up to there, the fields that are complete
/// hold their numbers, the field at hand holds what its digits spell so
/// far, and the fields to come hold 0.
pub open spec fn scanned(s: Seq<char>, i: int, sc: Scanner) -> bool {
    let m = marks(s);
    let year = capped(number_at(s, m.a, m.b));
    let month = capped(number_at(s, m.b + 1, m.c));
    let day = capped(number_at(s, m.c + 1, m.d));
    let hour = capped(number_at(s, m.e, m.f));
    let minute = capped(number_at(s, m.f + 1, m.g));
    let second = capped(number_at(s, m.g + 1, m.h));
    match sc.state {
        State::Start => 0 <= i <= m.a && sc == initial(),
        State::Year => m.a < i <= m.b && sc == (Scanner {
            state: State::Year,
            year: capped(number_at(s, m.a, i)) as u32,
            ..initial()
        }),
        State::Month => has_year(s) && m.b < i <= m.c && sc == (Scanner {
            state: State::Month,
            year: year as u32,
            month: capped(number_at(s, m.b + 1, i)) as u32,
            ..initial()
        }),
        State::Day => has_month(s) && m.c < i <= m.d && sc == (Scanner {
            state: State::Day,
            year: year as u32,
            month: month as u32,
            day: capped(number_at(s, m.c + 1, i)) as u32,
            ..initial()
        }),
        State::Time => has_day(s) && m.d < i <= m.e && sc == (Scanner {
            state: State::Time,
            year: year as u32,
            month: month as u32,
            day: day as u32,
            ..initial()
        }),
        State::Hour => has_day(s) && m.e < i <= m.f && sc == (Scanner {
            state: State::Hour,
            year: year as u32,
            month: month as u32,
            day: day as u32,
            hour: capped(number_at(s, m.e, i)) as u32,
            ..initial()
        }),
        State::Minute => has_hour(s) && m.f < i <= m.g && sc == (Scanner {
            state: State::Minute,
            year: year as u32,
            month: month as u32,
            day: day as u32,
            hour: hour as u32,
            minute: capped(number_at(s, m.f + 1, i)) as u32,
            ..initial()
        }),
        State::Second => has_minute(s) && m.g < i <= m.h && sc == (Scanner {
            state: State::Second,
            year: year as u32,
            month: month as u32,
            day: day as u32,
            hour: hour as u32,
            minute: minute as u32,
            second: capped(number_at(s, m.g + 1, i)) as u32,
            ..initial()
        }),
        State::Millisecond => has_minute(s) && m.h < s.len() && s[m.h] == '.' && m.h < i <= m.k
            && sc == (Scanner {
            state: State::Millisecond,
            year: year as u32,
            month: month as u32,
            day: day as u32,
            hour: hour as u32,
            minute: minute as u32,
            second: second as u32,
            millisecond: capped(number_at(s, m.h + 1, i)) as u32,
        }),
    }
}

/// The text is a timestamp, and the scanner holds its numbers, capped.
pub open spec fn accepted(s: Seq<char>, sc: Scanner) -> bool {
    &&& timestamp_numbers(s) matches Some(n)
    &&& 0 <= n.year && 0 <= n.month && 0 <= n.day && 0 <= n.hour && 0 <= n.minute && 0
        <= n.second && 0 <= n.ms
    &&& sc.year == capped(n.year)
    &&& sc.month == capped(n.month)
    &&& sc.day == capped(n.day)
    &&& sc.hour == capped(n.hour)
    &&& sc.minute == capped(n.minute)
    &&& sc.second == capped(n.second)
    &&& sc.millisecond == capped(n.ms)
}

/// From `i` on, `skip_digits` stops at the first character that is no
/// digit, and everything that it passes is a digit.
proof fn lemma_skip_digits(s: Seq<char>, i: int)
    requires
        0 <= i <= s.len(),
    ensures
        i <= skip_digits(s, i) <= s.len(),
        forall|k: int| i <= k < skip_digits(s, i) ==> is_digit(#[trigger] s[k]),
        skip_digits(s, i) < s.len() ==> !is_digit(s[skip_digits(s, i)]),
    decreases s.len() - i,
{
    if i < s.len() && is_digit(s[i]) {
        lemma_skip_digits(s, i + 1);
    }
}

/// The number that a run of digits spells: nothing spells 0, it is never
/// negative, and one digit more makes it ten times as much and the digit.
proof fn lemma_number(s: Seq<char>, from: int, to: int)
    requires
        0 <= from <= to <= s.len(),
        forall|k: int| from <= k < to ==> is_digit(#[trigger] s[k]),
    ensures
        number_at(s, from, from) == 0,
        0 <= number_at(s, from, to),
        to < s.len() && is_digit(s[to]) ==> number_at(s, from, to + 1) == 10 * number_at(
            s,
            from,
            to,
        ) + digit_value(s[to]),
    decreases to - from,
{
    assert(s.subrange(from, from) =~= Seq::<char>::empty());
    if from < to {
        lemma_number(s, from, to - 1);
        let part = s.subrange(from, to);
        assert(part.drop_last() =~= s.subrange(from, to - 1));
        assert(part.last() == s[to - 1]);
    }
    if to < s.len() {
        let more = s.subrange(from, to + 1);
        assert(more.drop_last() =~= s.subrange(from, to));
        assert(more.last() == s[to]);
    }
}

/// What is known of the marks of a text: they stand in order, whitespace
/// and digits lie where they are passed over, and none lies where they
/// stop.
proof fn lemma_marks(s: Seq<char>)
    ensures
        ({
            let m = marks(s);
            let n = s.len() as int;
            &&& 0 <= m.a <= m.b <= n
            &&& forall|k: int| 0 <= k < m.a ==> is_ws(#[trigger] s[k])
            &&& m.a < n ==> !is_ws(s[m.a])
            &&& forall|k: int| m.a <= k < m.b ==> is_digit(#[trigger] s[k])
            &&& m.b < n ==> !is_digit(s[m.b])
            &&& m.b < n ==> {
                &&& m.b < m.c <= n
                &&& forall|k: int| m.b < k < m.c ==> is_digit(#[trigger] s[k])
                &&& m.c < n ==> !is_digit(s[m.c])
            }
            &&& m.b < n && m.c < n ==> {
                &&& m.c < m.d <= n
                &&& forall|k: int| m.c < k < m.d ==> is_digit(#[trigger] s[k])
                &&& m.d < n ==> !is_digit(s[m.d])
            }
            &&& m.b < n && m.c < n && m.d < n ==> {
                &&& m.d < m.e <= m.f <= n
                &&& forall|k: int| m.d < k < m.e ==> is_ws(#[trigger] s[k])
                &&& m.e < n ==> !is_ws(s[m.e])
                &&& forall|k: int| m.e <= k < m.f ==> is_digit(#[trigger] s[k])
                &&& m.f < n ==> !is_digit(s[m.f])
            }
            &&& m.b < n && m.c < n && m.d < n && m.f < n ==> {
                &&& m.f < m.g <= n
                &&& forall|k: int| m.f < k < m.g ==> is_digit(#[trigger] s[k])
                &&& m.g < n ==> !is_digit(s[m.g])
            }
            &&& m.b < n && m.c < n && m.d < n && m.f < n && m.g < n ==> {
                &&& m.g < m.h <= n
                &&& forall|k: int| m.g < k < m.h ==> is_digit(#[trigger] s[k])
                &&& m.h < n ==> !is_digit(s[m.h])
            }
            &&& m.b < n && m.c < n && m.d < n && m.f < n && m.g < n && m.h < n ==> {
                &&& m.h < m.k <= n
                &&& forall|k: int| m.h < k < m.k ==> is_digit(#[trigger] s[k])
                &&& m.k < n ==> !is_digit(s[m.k])
            }
        }),
{
    let m = marks(s);
    let n = s.len() as int;
    crate::text::lemma_skip_ws(s, 0);
    lemma_skip_digits(s, m.a);
    if m.b < n {
        lemma_skip_digits(s, m.b + 1);
        if m.c < n {
            lemma_skip_digits(s, m.c + 1);
            if m.d < n {
                crate::text::lemma_skip_ws(s, m.d + 1);
                lemma_skip_digits(s, m.e);
                if m.f < n {
                    lemma_skip_digits(s, m.f + 1);
                    if m.g < n {
                        lemma_skip_digits(s, m.g + 1);
                        if m.h < n {
                            lemma_skip_digits(s, m.h + 1);
                        }
                    }
                }
            }
        }
    }
}

/// One digit more in a field: the capped field follows the number.
proof fn lemma_bump(s: Seq<char>, from: int, i: int)
    requires
        0 <= from <= i < s.len(),
        forall|k: int| from <= k <= i ==> is_digit(#[trigger] s[k]),
    ensures
        capped(number_at(s, from, i + 1)) == bump(capped(number_at(s, from, i)) as u32, s[i]),
        0 <= capped(number_at(s, from, i)) <= FIELD_CAP,
{
    lemma_number(s, from, i);
}

/// The scanner is right about each character that it takes.
proof fn lemma_step(s: Seq<char>, i: int, sc: Scanner)
    requires
        0 <= i < s.len(),
        scanned(s, i, sc),
    ensures
        sc.capped_fields(),
        ({
            let (next, step) = step_spec(sc, s[i]);
            match step {
                Step::Continue => scanned(s, i + 1, next),
                Step::Done => accepted(s, next),
                Step::Reject => timestamp_numbers(s) is None,
            }
        }),
{
    let m = marks(s);
    let n = s.len() as int;
    let c = s[i];
    lemma_marks(s);
    lemma_fields(s);
    match sc.state {
        State::Start => {
            lemma_number(s, m.a, m.a);
            if is_digit(c) {
                assert(!is_ws(c));
                assert(i == m.a);
                lemma_bump(s, m.a, i);
            } else if is_ws(c) {
                assert(i < m.a);
            } else {
                assert(i == m.a);
                assert(m.b == m.a);
            }
        },
        State::Year => {
            if is_digit(c) {
                assert(i < m.b);
                lemma_bump(s, m.a, i);
            } else {
                assert(i == m.b);
                if c == '-' {
                    lemma_number(s, m.b + 1, m.b + 1);
                }
            }
        },
        State::Month => {
            if is_digit(c) {
                assert(i < m.c);
                lemma_bump(s, m.b + 1, i);
            } else {
                assert(i == m.c);
                if c == '-' {
                    lemma_number(s, m.c + 1, m.c + 1);
                }
            }
        },
        State::Day => {
            if is_digit(c) {
                assert(i < m.d);
                lemma_bump(s, m.c + 1, i);
            } else {
                assert(i == m.d);
            }
        },
        State::Time => {
            lemma_number(s, m.e, m.e);
            if is_digit(c) {
                assert(!is_ws(c));
                assert(i == m.e);
                lemma_bump(s, m.e, i);
            } else if is_ws(c) {
                assert(i < m.e);
            } else {
                assert(i == m.e);
                assert(m.f == m.e);
            }
        },
        State::Hour => {
            if is_digit(c) {
                assert(i < m.f);
                lemma_bump(s, m.e, i);
            } else {
                assert(i == m.f);
                if c == ':' {
                    lemma_number(s, m.f + 1, m.f + 1);
                }
            }
        },
        State::Minute => {
            if is_digit(c) {
                assert(i < m.g);
                lemma_bump(s, m.f + 1, i);
            } else {
                assert(i == m.g);
                if c == ':' {
                    lemma_number(s, m.g + 1, m.g + 1);
                }
            }
        },
        State::Second => {
            if is_digit(c) {
                assert(i < m.h);
                lemma_bump(s, m.g + 1, i);
            } else {
                assert(i == m.h);
                if c == '.' {
                    lemma_number(s, m.h + 1, m.h + 1);
                }
            }
        },
        State::Millisecond => {
            if is_digit(c) {
                assert(i < m.k);
                lemma_bump(s, m.h + 1, i);
            } else {
                assert(i == m.k);
            }
        },
    }
}

/// The numbers of the fields are not negative, as far as the text follows
/// the grammar.
proof fn lemma_fields(s: Seq<char>)
    ensures
        ({
            let m = marks(s);
            let n = s.len() as int;
            &&& 0 <= number_at(s, m.a, m.b)
            &&& has_year(s) ==> 0 <= number_at(s, m.b + 1, m.c)
            &&& has_month(s) ==> 0 <= number_at(s, m.c + 1, m.d)
            &&& has_day(s) ==> 0 <= number_at(s, m.e, m.f)
            &&& has_hour(s) ==> 0 <= number_at(s, m.f + 1, m.g)
            &&& has_minute(s) ==> 0 <= number_at(s, m.g + 1, m.h)
            &&& has_minute(s) && m.h < n ==> 0 <= number_at(s, m.h + 1, m.k)
        }),
{
    let m = marks(s);
    let n = s.len() as int;
    lemma_marks(s);
    lemma_number(s, m.a, m.b);
    if has_year(s) {
        lemma_number(s, m.b + 1, m.c);
    }
    if has_month(s) {
        lemma_number(s, m.c + 1, m.d);
    }
    if has_day(s) {
        lemma_number(s, m.e, m.f);
    }
    if has_hour(s) {
        lemma_number(s, m.f + 1, m.g);
    }
    if has_minute(s) {
        lemma_number(s, m.g + 1, m.h);
        if m.h < n {
            lemma_number(s, m.h + 1, m.k);
        }
    }
}

/// The scanner is right about the end of the text: in the second or in the
/// millisecond the timestamp is complete, anywhere else the text has ended
/// too early.
proof fn lemma_finish(s: Seq<char>, sc: Scanner)
    requires
        scanned(s, s.len() as int, sc),
    ensures
        sc.state == State::Second || sc.state == State::Millisecond ==> accepted(s, sc),
        !(sc.state == State::Second || sc.state == State::Millisecond) ==> timestamp_numbers(s)
            is None,
{
    lemma_marks(s);
    lemma_fields(s);
}

/// Parses `YYYY-MM-DD HH:MM:SS[.mmm][ UTC]`, whitespace around it allowed.
///
/// The text is read once, character by character. The result is the instant
/// that the text names; a text outside the grammar, and one whose day or
/// time of day does not exist, is no timestamp.
pub fn parse_timestamp(timestamp_str: &str) -> (r: Result<Timestamp, OrlError>)
    ensures
        r is Ok <==> parsed_timestamp(timestamp_str@) is Some,
        r matches Ok(t) ==> t.wf() && Some(t.date()) == parsed_timestamp(timestamp_str@),
        r matches Err(e) ==> e == OrlError::InvalidTimestamp,
{
    let v = chars_of(timestamp_str);
    let mut sc = Scanner::new();
    let mut done = false;
    let mut i: usize = 0;
    proof {
        lemma_marks(v@);
    }
    while i < v.len() && !done
        invariant
            v@ == timestamp_str@,
            i <= v.len(),
            !done ==> scanned(v@, i as int, sc),
            done ==> accepted(v@, sc),
        decreases v.len() - i + if done {
            0int
        } else {
            1int
        },
    {
        proof {
            lemma_step(v@, i as int, sc);
        }
        match sc.step(v[i]) {
            Step::Continue => {
                i += 1;
            },
            Step::Done => {
                done = true;
            },
            Step::Reject => {
                return Err(OrlError::InvalidTimestamp);
            },
        }
    }
    if !done {
        proof {
            lemma_finish(v@, sc);
        }
        match sc.state {
            State::Second => {},
            State::Millisecond => {},
            _ => {
                return Err(OrlError::InvalidTimestamp);
            },
        }
    }
    let date = OrlDate {
        year: sc.year as i32,
        month: sc.month,
        day: sc.day,
        hour: sc.hour,
        minute: sc.minute,
        second: sc.second,
        ms: sc.millisecond,
    };
    match Timestamp::from_date(date) {
        Some(t) => Ok(t),
        None => Err(OrlError::InvalidTimestamp),
    }
}

/// What `chrono` reads out of a timestamp: the first of four layouts that
/// fits, with or without a fraction of the second, with or without a zone
/// name.
pub open spec fn slow_parsed(s: Seq<char>) -> Option<OrlDate> {
    if chrono_parsed(s, "%Y-%m-%d %H:%M:%S%.f"@) is Some {
        chrono_parsed(s, "%Y-%m-%d %H:%M:%S%.f"@)
    } else if chrono_parsed(s, "%Y-%m-%d %H:%M:%S"@) is Some {
        chrono_parsed(s, "%Y-%m-%d %H:%M:%S"@)
    } else if chrono_parsed(s, "%Y-%m-%d %H:%M:%S%.f %Z"@) is Some {
        chrono_parsed(s, "%Y-%m-%d %H:%M:%S%.f %Z"@)
    } else {
        chrono_parsed(s, "%Y-%m-%d %H:%M:%S %Z"@)
    }
}

/// The instant of the civil fields that were read, if any were and they
/// are valid: a leap second is no valid time here.
pub fn timestamp_of_parsed(parsed: Option<OrlDate>) -> (r: Result<Timestamp, OrlError>)
    ensures
        r is Ok <==> (parsed matches Some(d) && d.valid()),
        r matches Ok(t) ==> t.wf() && Some(t.date()) == parsed,
        r matches Err(e) ==> e == OrlError::InvalidTimestamp,
{
    match parsed {
        Some(d) => match Timestamp::from_date(d) {
            Some(t) => Ok(t),
            None => Err(OrlError::InvalidTimestamp),
        },
        None => Err(OrlError::InvalidTimestamp),
    }
}

/// Whether the text is a canonical timestamp: `YYYY-MM-DD HH:MM:SS`, with
/// or without `.mmm` behind it, with or without ` UTC` at the end, written
/// for a time that exists.
pub open spec fn is_canonical(s: Seq<char>) -> bool {
    exists|d: OrlDate, with_millis: bool, with_zone: bool|
        four_digit_year(d) && s == #[trigger] canonical_timestamp(d, with_millis, with_zone)
}

/// Parses a timestamp as `parse_timestamp` does, but leaves the reading to
/// `chrono`. On every canonical timestamp the two agree: both give the
/// instant that the timestamp names.
pub fn parse_timestamp_slow(timestamp_str: &str) -> (r: Result<Timestamp, OrlError>)
    ensures
        r is Ok <==> (slow_parsed(timestamp_str@) matches Some(d) && d.valid()),
        r matches Ok(t) ==> t.wf() && Some(t.date()) == slow_parsed(timestamp_str@),
        r matches Err(e) ==> e == OrlError::InvalidTimestamp,
        is_canonical(timestamp_str@) ==> (r matches Ok(t) && Some(t.date()) == parsed_timestamp(
            timestamp_str@,
        )),
{
    let mut parsed = chrono_parse(timestamp_str, "%Y-%m-%d %H:%M:%S%.f");
    if parsed.is_none() {
        parsed = chrono_parse(timestamp_str, "%Y-%m-%d %H:%M:%S");
    }
    if parsed.is_none() {
        parsed = chrono_parse(timestamp_str, "%Y-%m-%d %H:%M:%S%.f %Z");
    }
    if parsed.is_none() {
        parsed = chrono_parse(timestamp_str, "%Y-%m-%d %H:%M:%S %Z");
    }
    proof {
        if is_canonical(timestamp_str@) {
            let (d, with_millis, with_zone) = choose|d: OrlDate, with_millis: bool, with_zone: bool|
                four_digit_year(d) && timestamp_str@ == #[trigger] canonical_timestamp(
                    d,
                    with_millis,
                    with_zone,
                );
            lemma_canonical_timestamp(d, with_millis, with_zone);
            assert(parsed == Some(canonical_reading(d, with_millis)));
        }
    }
    timestamp_of_parsed(parsed)
}

} // verus!
