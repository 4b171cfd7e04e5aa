//! A log line that is written from what was read reads the same again.

use crate::adapters::file::line_text;
use crate::sources::orl::line_parser::line_fields;
use crate::sources::orl::line_parser::parsed_line;
use crate::sources::orl::line_parser::read_username;
use crate::sources::orl::line_parser::LineRecord;
use crate::sources::orl::line_parser::skip_brackets;
use crate::sources::orl::parse_timestamp::number_at;
use crate::sources::orl::parse_timestamp::parsed_timestamp;
use crate::sources::orl::parse_timestamp::timestamp_numbers;
use crate::text::all_digits;
use crate::text::decimal_fixed;
use crate::text::decimal_value;
use crate::text::digit_char;
use crate::text::digit_value;
use crate::text::find_from;
use crate::text::is_ascii_text;
use crate::text::is_digit;
use crate::text::is_trimmed;
use crate::text::is_ws;
use crate::text::lemma_decimal_fixed_len;
use crate::text::lemma_find_from;
use crate::text::lemma_lower_idempotent;
use crate::text::lemma_skip_ws_back_unique;
use crate::text::lemma_skip_ws_unique;
use crate::text::lemma_trim_bounds;
use crate::text::lemma_trim_lower;
use crate::text::lemma_trim_trimmed;
use crate::text::lemma_unwrap_lines_trimmed;
use crate::text::lower_spec;
use crate::text::lower_text;
use crate::text::pow10;
use crate::text::skip_digits;
use crate::text::trim_spec;
use crate::text::unwrap_lines_spec;
use crate::time::canonical_timestamp;
use crate::time::clock_text;
use crate::time::day_text;
use crate::time::four_digit_year;
use crate::time::orl_text;
use crate::time::year_text;
use crate::time::OrlDate;
use vstd::prelude::*;

verus! {

/// A number written at a fixed width is all digits, and they spell the
/// number where it is small enough for the width.
proof fn lemma_decimal_fixed_value(n: nat, width: nat)
    ensures
        decimal_fixed(n, width).len() == width,
        all_digits(decimal_fixed(n, width)),
        n < pow10(width) ==> decimal_value(decimal_fixed(n, width)) == n,
    decreases width,
{
    if width > 0 {
        let rest = decimal_fixed(n / 10, (width - 1) as nat);
        lemma_decimal_fixed_value(n / 10, (width - 1) as nat);
        let all = decimal_fixed(n, width);
        assert(all == rest.push(digit_char((n % 10) as int)));
        assert(all.drop_last() =~= rest);
        assert(is_digit(digit_char((n % 10) as int)));
        assert(digit_value(digit_char((n % 10) as int)) == n % 10);
        assert forall|i: int| 0 <= i < all.len() implies is_digit(#[trigger] all[i]) by {
            if i < rest.len() {
                assert(all[i] == rest[i]);
            }
        }
        if n < pow10(width) {
            assert(n / 10 < pow10((width - 1) as nat));
        }
    }
}

/// From `i` on, `skip_digits` stops where a run of digits ends.
proof fn lemma_skip_digits_run(s: Seq<char>, i: int, j: int)
    requires
        0 <= i <= j <= s.len(),
        forall|k: int| i <= k < j ==> is_digit(#[trigger] s[k]),
        j < s.len() ==> !is_digit(s[j]),
    ensures
        skip_digits(s, i) == j,
    decreases j - i,
{
    if i < j {
        lemma_skip_digits_run(s, i + 1, j);
    }
}

/// Where `c` first stands at `j`, `find_from` finds it there.
proof fn lemma_find_from_at(s: Seq<char>, c: char, i: int, j: int)
    requires
        0 <= i <= j < s.len(),
        forall|k: int| i <= k < j ==> #[trigger] s[k] != c,
        s[j] == c,
    ensures
        find_from(s, c, i) == j,
    decreases j - i,
{
    if i < j {
        lemma_find_from_at(s, c, i + 1, j);
    }
}

/// The timestamp of a log line is 27 characters long, and each of its
/// fields stands at its place.
proof fn lemma_orl_text_shape(d: OrlDate)
    requires
        four_digit_year(d),
    ensures
        orl_text(d).len() == 27,
        orl_text(d).subrange(0, 4) == decimal_fixed(d.year as nat, 4),
        orl_text(d)[4] == '-',
        orl_text(d).subrange(5, 7) == decimal_fixed(d.month as nat, 2),
        orl_text(d)[7] == '-',
        orl_text(d).subrange(8, 10) == decimal_fixed(d.day as nat, 2),
        orl_text(d)[10] == ' ',
        orl_text(d).subrange(11, 13) == decimal_fixed(d.hour as nat, 2),
        orl_text(d)[13] == ':',
        orl_text(d).subrange(14, 16) == decimal_fixed(d.minute as nat, 2),
        orl_text(d)[16] == ':',
        orl_text(d).subrange(17, 19) == decimal_fixed(d.second as nat, 2),
        orl_text(d)[19] == '.',
        orl_text(d).subrange(20, 23) == decimal_fixed(d.ms as nat, 3),
        orl_text(d)[23] == ' ',
        orl_text(d)[24] == 'U',
        orl_text(d)[25] == 'T',
        orl_text(d)[26] == 'C',
{
    lemma_decimal_fixed_len(d.year as nat, 4);
    lemma_decimal_fixed_len(d.month as nat, 2);
    lemma_decimal_fixed_len(d.day as nat, 2);
    lemma_decimal_fixed_len(d.hour as nat, 2);
    lemma_decimal_fixed_len(d.minute as nat, 2);
    lemma_decimal_fixed_len(d.second as nat, 2);
    lemma_decimal_fixed_len(d.ms as nat, 3);
    let t = orl_text(d);
    assert(year_text(d.year as int) == decimal_fixed(d.year as nat, 4));
    assert(day_text(d).len() == 10);
    assert(clock_text(d).len() == 12);
    assert(t.len() == 27);
    assert(t.subrange(0, 4) =~= decimal_fixed(d.year as nat, 4));
    assert(t.subrange(5, 7) =~= decimal_fixed(d.month as nat, 2));
    assert(t.subrange(8, 10) =~= decimal_fixed(d.day as nat, 2));
    assert(t.subrange(11, 13) =~= decimal_fixed(d.hour as nat, 2));
    assert(t.subrange(14, 16) =~= decimal_fixed(d.minute as nat, 2));
    assert(t.subrange(17, 19) =~= decimal_fixed(d.second as nat, 2));
    assert(t.subrange(20, 23) =~= decimal_fixed(d.ms as nat, 3));
}

/// The digits of a field of the timestamp: they are digits, what follows
/// them is none, and they spell the field.
proof fn lemma_field(t: Seq<char>, from: int, to: int, n: nat)
    requires
        0 <= from < to <= t.len(),
        t.subrange(from, to) == decimal_fixed(n, (to - from) as nat),
        n < pow10((to - from) as nat),
        to < t.len() ==> !is_digit(t[to]),
    ensures
        skip_digits(t, from) == to,
        number_at(t, from, to) == n,
{
    lemma_decimal_fixed_value(n, (to - from) as nat);
    let part = t.subrange(from, to);
    assert forall|k: int| from <= k < to implies is_digit(#[trigger] t[k]) by {
        assert(t[k] == part[k - from]);
    }
    lemma_skip_digits_run(t, from, to);
}

/// The timestamp that is written for a time reads as that time.
pub proof fn lemma_timestamp_round_trip(d: OrlDate)
    requires
        four_digit_year(d),
    ensures
        parsed_timestamp(orl_text(d)) == Some(d),
{
    assert(orl_text(d) =~= canonical_timestamp(d, true, true));
    lemma_canonical_timestamp(d, true, true);
}

/// What a log line can be written from and read back: the time is valid
/// and not before the year 0; the user name is trimmed, in lower case and
/// without a colon; the text is trimmed and without a newline.
pub open spec fn is_record(d: OrlDate, username: Seq<char>, text: Seq<char>) -> bool {
    &&& d.valid()
    &&& d.year >= 0
    &&& is_trimmed(username)
    &&& lower_text(username) == username
    &&& forall|i: int| 0 <= i < username.len() ==> #[trigger] username[i] != ':'
    &&& is_trimmed(text)
    &&& forall|i: int| 0 <= i < text.len() ==> #[trigger] text[i] != '\n'
}

/// Whether the user name of a line is written in ASCII characters.
pub open spec fn plain_name(line: Seq<char>) -> bool {
    line_fields(line) matches Some(fields) && is_ascii_text(trim_spec(fields.username))
}

/// A trimmed text behind one space is what is left when both are trimmed.
proof fn lemma_trim_after_space(s: Seq<char>)
    requires
        is_trimmed(s),
    ensures
        trim_spec(seq![' '] + s) == s,
{
    let x = seq![' '] + s;
    assert(is_ws(x[0]));
    if s.len() == 0 {
        lemma_skip_ws_unique(x, 0, 1);
        assert(crate::text::trim_start_spec(x) =~= Seq::<char>::empty());
        assert(trim_spec(x) =~= s);
    } else {
        assert(x[1] == s[0]);
        lemma_skip_ws_unique(x, 0, 1);
        let rest = crate::text::trim_start_spec(x);
        assert(rest =~= s);
        lemma_skip_ws_back_unique(rest, rest.len() as int, rest.len() as int);
        assert(trim_spec(x) =~= s);
    }
}

/// No character of a written timestamp is a bracket; the first is a digit
/// and the last is no whitespace.
proof fn lemma_orl_text_chars(d: OrlDate)
    requires
        four_digit_year(d),
    ensures
        orl_text(d).len() == 27,
        forall|j: int| 0 <= j < 27 ==> #[trigger] orl_text(d)[j] != ']' && orl_text(d)[j] != '[',
        is_digit(orl_text(d)[0]),
        is_trimmed(orl_text(d)),
{
    let t = orl_text(d);
    lemma_orl_text_shape(d);
    lemma_decimal_fixed_value(d.year as nat, 4);
    lemma_decimal_fixed_value(d.month as nat, 2);
    lemma_decimal_fixed_value(d.day as nat, 2);
    lemma_decimal_fixed_value(d.hour as nat, 2);
    lemma_decimal_fixed_value(d.minute as nat, 2);
    lemma_decimal_fixed_value(d.second as nat, 2);
    lemma_decimal_fixed_value(d.ms as nat, 3);
    assert forall|j: int| 0 <= j < 27 implies #[trigger] t[j] != ']' && t[j] != '[' by {
        if j < 4 {
            assert(t[j] == t.subrange(0, 4)[j]);
        } else if 5 <= j < 7 {
            assert(t[j] == t.subrange(5, 7)[j - 5]);
        } else if 8 <= j < 10 {
            assert(t[j] == t.subrange(8, 10)[j - 8]);
        } else if 11 <= j < 13 {
            assert(t[j] == t.subrange(11, 13)[j - 11]);
        } else if 14 <= j < 16 {
            assert(t[j] == t.subrange(14, 16)[j - 14]);
        } else if 17 <= j < 19 {
            assert(t[j] == t.subrange(17, 19)[j - 17]);
        } else if 20 <= j < 23 {
            assert(t[j] == t.subrange(20, 23)[j - 20]);
        }
    }
    assert(t[0] == t.subrange(0, 4)[0]);
    assert(t.first() == t[0]);
    assert(t.last() == t[26]);
}

/// A line that is written from a record reads as that record.
pub proof fn lemma_record_round_trip(d: OrlDate, username: Seq<char>, text: Seq<char>)
    requires
        is_record(d, username, text),
        d.year <= 9999,
    ensures
        parsed_line(line_text(d, username, text)) == Some(LineRecord { date: d, username, text }),
{
    let t = orl_text(d);
    let f = line_text(d, username, text);
    let u = username.len() as int;
    lemma_orl_text_chars(d);
    lemma_timestamp_round_trip(d);
    assert(f.len() == 32 + u + text.len());
    assert(f[0] == '[');
    assert(forall|k: int| 1 <= k < 28 ==> f[k] == t[k - 1]);
    assert(f[28] == ']');
    assert(f[29] == ' ');
    assert(forall|k: int| 0 <= k < u ==> f[30 + k] == username[k]);
    assert(f[30 + u] == ':');
    assert(f[31 + u] == ' ');
    assert(forall|k: int| 0 <= k < text.len() ==> f[32 + u + k] == text[k]);
    assert forall|k: int| 0 <= k < 28 implies #[trigger] f[k] != ']' by {
        if k >= 1 {
            assert(f[k] == t[k - 1]);
        }
    }
    lemma_find_from_at(f, ']', 0, 28);
    assert forall|k: int| 29 <= k < 30 + u implies #[trigger] f[k] != ':' by {
        if k >= 30 {
            assert(f[k] == username[k - 30]);
        }
    }
    lemma_find_from_at(f, ':', 29, 30 + u);
    let head = f.subrange(0, 28);
    assert(head[0] == '[');
    assert(head[1] == t[0]);
    assert(skip_brackets(head, 1) == 1);
    assert(skip_brackets(head, 0) == 1);
    let fields = line_fields(f)->0;
    assert(fields.timestamp =~= t);
    assert(fields.username =~= seq![' '] + username);
    assert(fields.text =~= seq![' '] + text);
    lemma_trim_trimmed(t);
    lemma_trim_after_space(username);
    lemma_trim_after_space(text);
    assert(unwrap_lines_spec(text) =~= text);
}

/// What a log line with a user name in ASCII characters is read as is a
/// record.
pub proof fn lemma_parsed_line_is_record(line: Seq<char>)
    requires
        parsed_line(line) is Some,
        plain_name(line),
    ensures
        ({
            let r = parsed_line(line)->0;
            is_record(r.date, r.username, r.text)
        }),
{
    let fields = line_fields(line)->0;
    let close = find_from(line, ']', 0);
    lemma_find_from(line, ']', 0);
    lemma_find_from(line, ':', close + 1);
    let colon = find_from(line, ':', close + 1);
    let name = fields.username;
    let (a, b) = lemma_trim_bounds(name);
    lemma_trim_lower(name);
    let t = trim_spec(name);
    lemma_lower_idempotent(t);
    let u = read_username(name);
    assert(u == lower_spec(t));
    assert forall|i: int| 0 <= i < u.len() implies (#[trigger] u[i] as u32) < 128 by {
        assert((t[i] as u32) < 128);
    }
    assert(is_ascii_text(u));
    assert forall|i: int| 0 <= i < u.len() implies #[trigger] u[i] != ':' by {
        assert(t[i] == name[a + i]);
        assert(name[a + i] == line[close + 1 + a + i]);
    }
    lemma_trim_bounds(fields.text);
    lemma_unwrap_lines_trimmed(trim_spec(fields.text));
}

/// A log line that is written from what a line was read as reads the same
/// again, for every line that can be read, whose year has four digits at
/// most and whose user name is written in ASCII characters.
pub proof fn lemma_line_round_trip(line: Seq<char>)
    requires
        parsed_line(line) matches Some(r) && r.date.year <= 9999,
        plain_name(line),
    ensures
        ({
            let r = parsed_line(line)->0;
            parsed_line(line_text(r.date, r.username, r.text)) == parsed_line(line)
        }),
{
    lemma_parsed_line_is_record(line);
    let r = parsed_line(line)->0;
    lemma_record_round_trip(r.date, r.username, r.text);
}

/// Where the fields of a canonical timestamp stand.
proof fn lemma_canonical_shape(d: OrlDate, with_millis: bool, with_zone: bool)
    requires
        four_digit_year(d),
    ensures
        ({
            let t = canonical_timestamp(d, with_millis, with_zone);
            &&& t.len() == 19 + (if with_millis {
                4int
            } else {
                0int
            }) + (if with_zone {
                4int
            } else {
                0int
            })
            &&& t.subrange(0, 4) == decimal_fixed(d.year as nat, 4)
            &&& t[4] == '-'
            &&& t.subrange(5, 7) == decimal_fixed(d.month as nat, 2)
            &&& t[7] == '-'
            &&& t.subrange(8, 10) == decimal_fixed(d.day as nat, 2)
            &&& t[10] == ' '
            &&& t.subrange(11, 13) == decimal_fixed(d.hour as nat, 2)
            &&& t[13] == ':'
            &&& t.subrange(14, 16) == decimal_fixed(d.minute as nat, 2)
            &&& t[16] == ':'
            &&& t.subrange(17, 19) == decimal_fixed(d.second as nat, 2)
            &&& with_millis ==> t[19] == '.' && t.subrange(20, 23) == decimal_fixed(d.ms as nat, 3)
            &&& with_millis && with_zone ==> t[23] == ' '
            &&& !with_millis && with_zone ==> t[19] == ' '
        }),
{
    let t = canonical_timestamp(d, with_millis, with_zone);
    lemma_decimal_fixed_len(d.year as nat, 4);
    lemma_decimal_fixed_len(d.month as nat, 2);
    lemma_decimal_fixed_len(d.day as nat, 2);
    lemma_decimal_fixed_len(d.hour as nat, 2);
    lemma_decimal_fixed_len(d.minute as nat, 2);
    lemma_decimal_fixed_len(d.second as nat, 2);
    lemma_decimal_fixed_len(d.ms as nat, 3);
    assert(year_text(d.year as int) == decimal_fixed(d.year as nat, 4));
    let head = day_text(d) + seq![' '] + decimal_fixed(d.hour as nat, 2) + seq![':']
        + decimal_fixed(d.minute as nat, 2) + seq![':'] + decimal_fixed(d.second as nat, 2);
    assert(head.len() == 19);
    assert(head.subrange(0, 4) =~= decimal_fixed(d.year as nat, 4));
    assert(head.subrange(5, 7) =~= decimal_fixed(d.month as nat, 2));
    assert(head.subrange(8, 10) =~= decimal_fixed(d.day as nat, 2));
    assert(head.subrange(11, 13) =~= decimal_fixed(d.hour as nat, 2));
    assert(head.subrange(14, 16) =~= decimal_fixed(d.minute as nat, 2));
    assert(head.subrange(17, 19) =~= decimal_fixed(d.second as nat, 2));
    assert(head[4] == '-' && head[7] == '-' && head[10] == ' ' && head[13] == ':' && head[16]
        == ':');
    let millis = if with_millis {
        seq!['.'] + decimal_fixed(d.ms as nat, 3)
    } else {
        Seq::empty()
    };
    let zone = if with_zone {
        seq![' ', 'U', 'T', 'C']
    } else {
        Seq::empty()
    };
    assert(t == head + millis + zone);
    assert(forall|k: int| 0 <= k < 19 ==> t[k] == head[k]);
    assert(t.subrange(0, 4) =~= head.subrange(0, 4));
    assert(t.subrange(5, 7) =~= head.subrange(5, 7));
    assert(t.subrange(8, 10) =~= head.subrange(8, 10));
    assert(t.subrange(11, 13) =~= head.subrange(11, 13));
    assert(t.subrange(14, 16) =~= head.subrange(14, 16));
    assert(t.subrange(17, 19) =~= head.subrange(17, 19));
    if with_millis {
        assert(t[19] == millis[0]);
        assert(t.subrange(20, 23) =~= decimal_fixed(d.ms as nat, 3));
        if with_zone {
            assert(t[23] == zone[0]);
        }
    } else if with_zone {
        assert(t[19] == zone[0]);
    }
}

/// Every canonical form of a timestamp reads as the time that it was
/// written for; where the milliseconds are not written, they read as 0.
pub proof fn lemma_canonical_timestamp(d: OrlDate, with_millis: bool, with_zone: bool)
    requires
        four_digit_year(d),
    ensures
        parsed_timestamp(canonical_timestamp(d, with_millis, with_zone)) == Some(
            if with_millis {
                d
            } else {
                OrlDate { ms: 0, ..d }
            },
        ),
{
    let t = canonical_timestamp(d, with_millis, with_zone);
    lemma_canonical_shape(d, with_millis, with_zone);
    lemma_canonical_marks(t, d, with_millis);
}

/// A text with the fields of a time at the places of a canonical timestamp
/// reads as that time.
proof fn lemma_canonical_marks(t: Seq<char>, d: OrlDate, with_millis: bool)
    requires
        four_digit_year(d),
        t.len() >= 19,
        t.subrange(0, 4) == decimal_fixed(d.year as nat, 4),
        t[4] == '-',
        t.subrange(5, 7) == decimal_fixed(d.month as nat, 2),
        t[7] == '-',
        t.subrange(8, 10) == decimal_fixed(d.day as nat, 2),
        t[10] == ' ',
        t.subrange(11, 13) == decimal_fixed(d.hour as nat, 2),
        t[13] == ':',
        t.subrange(14, 16) == decimal_fixed(d.minute as nat, 2),
        t[16] == ':',
        t.subrange(17, 19) == decimal_fixed(d.second as nat, 2),
        with_millis ==> t.len() >= 23 && t[19] == '.' && t.subrange(20, 23) == decimal_fixed(
            d.ms as nat,
            3,
        ) && (t.len() == 23 || t[23] == ' '),
        !with_millis ==> t.len() == 19 || t[19] == ' ',
    ensures
        parsed_timestamp(t) == Some(
            if with_millis {
                d
            } else {
                OrlDate { ms: 0, ..d }
            },
        ),
{
    reveal_with_fuel(pow10, 5);
    lemma_decimal_fixed_value(d.year as nat, 4);
    lemma_decimal_fixed_value(d.hour as nat, 2);
    assert(is_digit(t[0])) by {
        assert(t[0] == t.subrange(0, 4)[0]);
    }
    assert(is_digit(t[11])) by {
        assert(t[11] == t.subrange(11, 13)[0]);
    }
    lemma_skip_ws_unique(t, 0, 0);
    lemma_field(t, 0, 4, d.year as nat);
    lemma_field(t, 5, 7, d.month as nat);
    lemma_field(t, 8, 10, d.day as nat);
    lemma_skip_ws_unique(t, 11, 11);
    lemma_field(t, 11, 13, d.hour as nat);
    lemma_field(t, 14, 16, d.minute as nat);
    lemma_field(t, 17, 19, d.second as nat);
    if with_millis {
        lemma_field(t, 20, 23, d.ms as nat);
    }
    let m = crate::sources::orl::parse_timestamp::marks(t);
    assert(m.a == 0 && m.b == 4 && m.c == 7 && m.d == 10 && m.e == 11 && m.f == 13 && m.g == 16
        && m.h == 19);
    if with_millis {
        assert(m.k == 23);
    }
    let n = timestamp_numbers(t)->0;
    assert(timestamp_numbers(t) is Some);
    assert(n.year == d.year && n.month == d.month && n.day == d.day && n.hour == d.hour
        && n.minute == d.minute && n.second == d.second);
    assert(n.ms == if with_millis {
        d.ms as int
    } else {
        0
    });
}

} // verus!
