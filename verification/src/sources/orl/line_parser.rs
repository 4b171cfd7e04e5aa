//! One line of an ORL file: `[<timestamp>] <username>: <text>`.

use crate::error::OrlError;
use crate::formats::orl::Clean;
use crate::formats::orl::OrlLog;
use crate::sources::orl::parse_timestamp::parse_timestamp;
use crate::sources::orl::parse_timestamp::parsed_timestamp;
use crate::text::chars_of;
use crate::text::find_char;
use crate::text::normal_channel;
use crate::text::normalize_channel;
use crate::text::find_from;
use crate::text::string_of_range;
use crate::text::lower_text;
use crate::text::to_lowercase;
use crate::text::trim;
use crate::text::trim_range;
use crate::text::trim_spec;
use crate::text::unwrap_lines;
use crate::text::unwrap_lines_spec;
use crate::time::OrlDate;
use crate::time::Timestamp;
use std::marker::PhantomData;
use vstd::prelude::*;

verus! {

/// What a line says: when, who and what.
#[derive(Debug, Clone, PartialEq, Eq)]
pub struct OrlLineMessage {
    pub ts: Timestamp,
    pub username: String,
    pub text: String,
}

/// First index at or after `i` that holds no `[` (`s.len()` if none).
pub open spec fn skip_brackets(s: Seq<char>, i: int) -> int
    decreases s.len() - i,
{
    if 0 <= i < s.len() && s[i] == '[' {
        skip_brackets(s, i + 1)
    } else {
        i
    }
}

/// The three fields of a line, as text.
pub struct LineFields {
    pub timestamp: Seq<char>,
    pub username: Seq<char>,
    pub text: Seq<char>,
}

/// The fields of a line: the timestamp runs to the first `]`, without the
/// brackets that open it; the user name runs from there to the first `:`;
/// the text is the rest. `None` where the bracket or the colon is missing.
pub open spec fn line_fields(s: Seq<char>) -> Option<LineFields> {
    let n = s.len() as int;
    let close = find_from(s, ']', 0);
    let colon = find_from(s, ':', close + 1);
    if close < n && colon < n {
        Some(
            LineFields {
                timestamp: s.subrange(skip_brackets(s.subrange(0, close), 0), close),
                username: s.subrange(close + 1, colon),
                text: s.subrange(colon + 1, n),
            },
        )
    } else {
        None
    }
}

/// What a line says.
pub struct LineRecord {
    pub date: OrlDate,
    pub username: Seq<char>,
    pub text: Seq<char>,
}

/// The user name that a line is read as: its field trimmed and lower-cased.
pub open spec fn read_username(field: Seq<char>) -> Seq<char> {
    lower_text(trim_spec(field))
}

/// The text that a line is read as: its field trimmed, and every newline
/// inside it made a space.
pub open spec fn read_text(field: Seq<char>) -> Seq<char> {
    unwrap_lines_spec(trim_spec(field))
}

/// What a line says, with the timestamp read, the user name trimmed and
/// lower-cased, the text trimmed and without a newline: `None` where the
/// line has no three fields or the first is no timestamp.
pub open spec fn parsed_line(s: Seq<char>) -> Option<LineRecord> {
    match line_fields(s) {
        Some(fields) => match parsed_timestamp(trim_spec(fields.timestamp)) {
            Some(date) => Some(
                LineRecord {
                    date,
                    username: read_username(fields.username),
                    text: read_text(fields.text),
                },
            ),
            None => None,
        },
        None => None,
    }
}

/// Parses `[<timestamp>] <username>: <text>`.
///
/// The user name comes back trimmed and in lower case (that of Unicode,
/// which on an ASCII name is the ASCII one), the text trimmed and with its
/// newlines made spaces. A line without `]`, without `:` after it,
/// or with a timestamp that is none, is rejected.
pub fn parse_message_line(input_line: &str) -> (r: Result<OrlLineMessage, OrlError>)
    ensures
        r is Ok <==> parsed_line(input_line@) is Some,
        r matches Ok(m) ==> m.ts.wf() && parsed_line(input_line@) == Some(
            LineRecord { date: m.ts.date(), username: m.username@, text: m.text@ },
        ),
        r matches Err(e) ==> e == OrlError::InvalidFormat,
{
    let v = chars_of(input_line);
    let n = v.len();
    let close = find_char(&v, ']', 0);
    if close >= n {
        return Err(OrlError::InvalidFormat);
    }
    let colon = find_char(&v, ':', close + 1);
    if colon >= n {
        return Err(OrlError::InvalidFormat);
    }
    let ghost head = v@.subrange(0, close as int);
    let mut open: usize = 0;
    while open < close && v[open] == '['
        invariant
            open <= close < v.len(),
            head == v@.subrange(0, close as int),
            skip_brackets(head, 0) == skip_brackets(head, open as int),
        decreases close - open,
    {
        open += 1;
    }
    let (a, b) = trim_range(&v, open, close);
    let stamp = string_of_range(&v, a, b);
    let raw_name = string_of_range(&v, close + 1, colon);
    let raw_text = string_of_range(&v, colon + 1, n);
    let name = trim(raw_name.as_str());
    let text = trim(raw_text.as_str());
    match parse_timestamp(stamp.as_str()) {
        Ok(ts) => Ok(
            OrlLineMessage {
                ts,
                username: to_lowercase(name.as_str()),
                text: unwrap_lines(text.as_str()),
            },
        ),
        Err(_) => Err(OrlError::InvalidFormat),
    }
}

/// Parses a line of the file of `channel` into a clean record: the fields of
/// the line as `parse_message_line` gives them, and the channel name
/// normalized.
pub fn parse_orl_log(channel: String, input_line: &str) -> (r: Result<OrlLog<Clean>, OrlError>)
    ensures
        r is Ok <==> parsed_line(input_line@) is Some,
        r matches Ok(log) ==> log.ts.wf() && parsed_line(input_line@) == Some(
            LineRecord { date: log.ts.date(), username: log.username@, text: log.text@ },
        ) && log.channel@ == normal_channel(channel@),
        r matches Err(e) ==> e == OrlError::InvalidFormat,
{
    match parse_message_line(input_line) {
        Ok(message) => {
            Ok(
                OrlLog {
                    username: message.username,
                    text: message.text,
                    ts: message.ts,
                    channel: normalize_channel(channel.as_str()),
                    _s: PhantomData::<Clean>,
                },
            )
        },
        Err(e) => Err(e),
    }
}

} // verus!
