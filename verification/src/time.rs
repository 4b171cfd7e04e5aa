//! UTC instants at millisecond precision.
//!
//! A [`Timestamp`] carries both the civil fields of an instant and its
//! distance from the Unix epoch; the calendar arithmetic that links the two
//! is done by `chrono` and stated here over [`unix_millis`].

use crate::text::decimal_fixed;
use crate::text::decimal_padded;
use chrono::Datelike;
use chrono::TimeZone;
use chrono::Timelike;
use vstd::prelude::*;

verus! {

/// The civil fields of a date and time of day.
#[derive(Clone, Copy, Debug, PartialEq, Eq, Structural)]
pub struct OrlDate {
    pub year: i32,
    pub month: u32,
    pub day: u32,
    pub hour: u32,
    pub minute: u32,
    pub second: u32,
    pub ms: u32,
}

/// First year that a date can have.
pub const MIN_YEAR: i32 = -262143;

/// Last year that a date can have.
pub const MAX_YEAR: i32 = 262142;

/// Leap years of the proleptic Gregorian calendar.
pub open spec fn is_leap_year(year: int) -> bool {
    year % 4 == 0 && (year % 100 != 0 || year % 400 == 0)
}

/// Number of days of a month.
pub open spec fn days_in_month(year: int, month: int) -> int {
    if month == 2 {
        if is_leap_year(year) {
            29
        } else {
            28
        }
    } else if month == 4 || month == 6 || month == 9 || month == 11 {
        30
    } else {
        31
    }
}

/// Number of leap years among the years `1..year` (negative before year 1).
pub open spec fn leap_years_before(year: int) -> int {
    (year - 1) / 4 - (year - 1) / 100 + (year - 1) / 400
}

/// Days from 1 January 1970 to 1 January of `year`.
pub open spec fn days_before_year(year: int) -> int {
    365 * (year - 1970) + leap_years_before(year) - leap_years_before(1970)
}

/// Days from 1 January of `year` to the first day of `month`.
pub open spec fn days_before_month(year: int, month: int) -> int
    decreases month,
{
    if month <= 1 {
        0
    } else {
        days_before_month(year, month - 1) + days_in_month(year, month - 1)
    }
}

/// Days from 1 January 1970 to the given calendar date.
pub open spec fn days_from_epoch(year: int, month: int, day: int) -> int {
    days_before_year(year) + days_before_month(year, month) + day - 1
}

/// Milliseconds, leap seconds not counted, from 1970-01-01T00:00:00Z to the
/// instant with the given civil fields.
pub open spec fn unix_millis(d: OrlDate) -> int {
    (((days_from_epoch(d.year as int, d.month as int, d.day as int) * 24 + d.hour) * 60 + d.minute)
        * 60 + d.second) * 1000 + d.ms
}

/// The first instant that has civil fields.
pub open spec fn first_date() -> OrlDate {
    OrlDate { year: MIN_YEAR, month: 1, day: 1, hour: 0, minute: 0, second: 0, ms: 0 }
}

/// The last instant that has civil fields.
pub open spec fn last_date() -> OrlDate {
    OrlDate { year: MAX_YEAR, month: 12, day: 31, hour: 23, minute: 59, second: 59, ms: 999 }
}

/// Whether the instant `ms` milliseconds from the epoch has civil fields.
pub open spec fn in_civil_range(ms: int) -> bool {
    unix_millis(first_date()) <= ms <= unix_millis(last_date())
}

impl OrlDate {
    /// The calendar day exists and its year is one that a date can have.
    pub open spec fn is_calendar_date(self) -> bool {
        &&& MIN_YEAR <= self.year <= MAX_YEAR
        &&& 1 <= self.month <= 12
        &&& 1 <= self.day <= days_in_month(self.year as int, self.month as int)
    }

    /// The time of day exists; a millisecond count of 1000 and more stands
    /// for a leap second and goes with second 59 only.
    pub open spec fn is_clock_time(self) -> bool {
        &&& self.hour < 24
        &&& self.minute < 60
        &&& self.second < 60
        &&& (self.ms < 1000 || (self.second == 59 && self.ms < 2000))
    }

    /// An existing calendar day with a time of day that is no leap second.
    pub open spec fn valid(self) -> bool {
        &&& self.is_calendar_date()
        &&& self.hour < 24
        &&& self.minute < 60
        &&& self.second < 60
        &&& self.ms < 1000
    }
}

/// The year as `%Y` writes it: four digits from 0 to 9999, else a sign and
/// at least four digits.
pub open spec fn year_text(year: int) -> Seq<char> {
    if 0 <= year <= 9999 {
        decimal_fixed(year as nat, 4)
    } else if year < 0 {
        seq!['-'] + decimal_padded((-year) as nat, 4)
    } else {
        seq!['+'] + decimal_padded(year as nat, 4)
    }
}

/// `YYYY-MM-DD`.
pub open spec fn day_text(d: OrlDate) -> Seq<char> {
    year_text(d.year as int) + seq!['-'] + decimal_fixed(d.month as nat, 2) + seq!['-']
        + decimal_fixed(d.day as nat, 2)
}

/// `HH:MM:SS.mmm`.
pub open spec fn clock_text(d: OrlDate) -> Seq<char> {
    decimal_fixed(d.hour as nat, 2) + seq![':'] + decimal_fixed(d.minute as nat, 2) + seq![':']
        + decimal_fixed(d.second as nat, 2) + seq!['.'] + decimal_fixed(d.ms as nat, 3)
}

/// `YYYY-MM-DD HH:MM:SS.mmm UTC`, the timestamp of a log line.
pub open spec fn orl_text(d: OrlDate) -> Seq<char> {
    day_text(d) + seq![' '] + clock_text(d) + seq![' ', 'U', 'T', 'C']
}

/// `YYYY-MM-DDTHH:MM:SS.mmmZ`.
pub open spec fn rfc3339_text(d: OrlDate) -> Seq<char> {
    day_text(d) + seq!['T'] + clock_text(d) + seq!['Z']
}

/// The layout of a day: `%Y-%m-%d`.
pub open spec fn day_layout() -> Seq<char> {
    seq!['%', 'Y', '-', '%', 'm', '-', '%', 'd']
}

/// The layout of a log line's timestamp: `%Y-%m-%d %H:%M:%S%.3f %Z`.
pub open spec fn orl_layout() -> Seq<char> {
    seq![
        '%', 'Y', '-', '%', 'm', '-', '%', 'd', ' ', '%', 'H', ':', '%', 'M', ':', '%', 'S', '%',
        '.', '3', 'f', ' ', '%', 'Z',
    ]
}

/// A UTC instant at millisecond precision.
#[derive(Clone, Copy, Debug, PartialEq, Eq)]
pub struct Timestamp {
    date: OrlDate,
    millis: i64,
}

/// `NaiveDate::from_ymd_opt`, `NaiveTime::from_hms_milli_opt` and
/// `DateTime::timestamp_millis` of `chrono`, in UTC: the instant exists
/// exactly when the calendar day and the time of day do, and the result is
/// its distance from the epoch.
#[verifier::external_body]
fn civil_to_millis(d: &OrlDate) -> (r: Option<i64>)
    ensures
        r is Some <==> (d.is_calendar_date() && d.is_clock_time()),
        r is Some ==> r->0 == unix_millis(*d),
{
    let date = chrono::NaiveDate::from_ymd_opt(d.year, d.month, d.day)?;
    let time = chrono::NaiveTime::from_hms_milli_opt(d.hour, d.minute, d.second, d.ms)?;
    let naive = chrono::NaiveDateTime::new(date, time);
    Some(chrono::Utc.from_local_datetime(&naive).single()?.timestamp_millis())
}

/// `TimeZone::timestamp_millis_opt` of `chrono`, in UTC, read back through
/// its field getters: an instant in range has valid civil fields, and they
/// are those of that instant.
#[verifier::external_body]
fn millis_to_civil(ms: i64) -> (r: Option<OrlDate>)
    ensures
        r is Some <==> in_civil_range(ms as int),
        r matches Some(d) ==> d.valid() && unix_millis(d) == ms,
{
    let t = chrono::Utc.timestamp_millis_opt(ms).single()?;
    Some(
        OrlDate {
            year: t.year(),
            month: t.month(),
            day: t.day(),
            hour: t.hour(),
            minute: t.minute(),
            second: t.second(),
            ms: t.timestamp_subsec_millis(),
        },
    )
}

/// `DateTime::format` of `chrono`, in UTC, for the two layouts that the log
/// files use: the day, and the timestamp of a line.
#[verifier::external_body]
fn chrono_format(t: &Timestamp, layout: &str) -> (r: String)
    requires
        t.wf(),
        layout@ == day_layout() || layout@ == orl_layout(),
    ensures
        layout@ == day_layout() ==> r@ == day_text(t.date()),
        layout@ == orl_layout() ==> r@ == orl_text(t.date()),
{
    chrono::Utc.timestamp_millis_opt(t.millis).unwrap().format(layout).to_string()
}

/// `DateTime::to_rfc3339_opts` of `chrono`, in UTC, with milliseconds and
/// `Z` for the offset.
#[verifier::external_body]
fn chrono_rfc3339(t: &Timestamp) -> (r: String)
    requires
        t.wf(),
    ensures
        r@ == rfc3339_text(t.date()),
{
    chrono::Utc.timestamp_millis_opt(t.millis).unwrap().to_rfc3339_opts(
        chrono::SecondsFormat::Millis,
        true,
    )
}

impl Timestamp {
    /// The civil fields are valid and the distance from the epoch is theirs.
    #[verifier::type_invariant]
    pub open spec fn wf(self) -> bool {
        self.date().valid() && self.millis() == unix_millis(self.date())
    }

    /// The civil fields of the instant.
    pub closed spec fn date(self) -> OrlDate {
        self.date
    }

    /// Milliseconds from the Unix epoch to the instant.
    pub closed spec fn millis(self) -> int {
        self.millis as int
    }

    /// The instant with the given civil fields, if they are valid.
    pub fn from_date(d: OrlDate) -> (r: Option<Timestamp>)
        ensures
            r is Some <==> d.valid(),
            r matches Some(t) ==> t.wf() && t.date() == d,
    {
        if d.ms > 999 {
            return None;
        }
        match civil_to_millis(&d) {
            Some(ms) => Some(Timestamp { date: d, millis: ms }),
            None => None,
        }
    }

    /// The instant `ms` milliseconds from the Unix epoch, if it has civil
    /// fields.
    pub fn from_millis(ms: i64) -> (r: Option<Timestamp>)
        ensures
            r is Some <==> in_civil_range(ms as int),
            r matches Some(t) ==> t.wf() && t.millis() == ms,
    {
        match millis_to_civil(ms) {
            Some(d) => Some(Timestamp { date: d, millis: ms }),
            None => None,
        }
    }

    /// The civil fields of the instant.
    pub fn civil(&self) -> (d: OrlDate)
        ensures
            d == self.date(),
    {
        self.date
    }

    /// Milliseconds from the Unix epoch to the instant.
    pub fn timestamp_millis(&self) -> (ms: i64)
        ensures
            ms == self.millis(),
    {
        self.millis
    }

    /// Whole seconds from the Unix epoch to the instant, rounded down.
    pub fn timestamp(&self) -> (s: i64)
        ensures
            s == self.millis() / 1000,
    {
        let q = self.millis / 1000;
        let r = self.millis % 1000;
        if r < 0 {
            q - 1
        } else {
            q
        }
    }

    /// `YYYY-MM-DD HH:MM:SS.mmm UTC`.
    pub fn format_orl(&self) -> (r: String)
        ensures
            r@ == orl_text(self.date()),
    {
        proof {
            use_type_invariant(self);
            reveal_strlit("%Y-%m-%d %H:%M:%S%.3f %Z");
        }
        let layout = "%Y-%m-%d %H:%M:%S%.3f %Z";
        assert(layout@ =~= orl_layout());
        chrono_format(self, layout)
    }

    /// `YYYY-MM-DD`.
    pub fn format_day(&self) -> (r: String)
        ensures
            r@ == day_text(self.date()),
    {
        proof {
            use_type_invariant(self);
            reveal_strlit("%Y-%m-%d");
        }
        let layout = "%Y-%m-%d";
        assert(layout@ =~= day_layout());
        chrono_format(self, layout)
    }

    /// `YYYY-MM-DDTHH:MM:SS.mmmZ`.
    pub fn to_rfc3339_millis(&self) -> (r: String)
        ensures
            r@ == rfc3339_text(self.date()),
    {
        proof {
            use_type_invariant(self);
        }
        chrono_rfc3339(self)
    }
}

/// The text of a day is the text of its month, `-`, and two digits.
pub(crate) proof fn lemma_day_text_month(d: OrlDate)
    ensures
        day_text(d).len() >= 3,
        day_text(d).subrange(0, day_text(d).len() - 3) == year_text(d.year as int) + seq!['-']
            + decimal_fixed(d.month as nat, 2),
{
    crate::text::lemma_decimal_fixed_len(d.day as nat, 2);
    let head = year_text(d.year as int) + seq!['-'] + decimal_fixed(d.month as nat, 2);
    let tail = seq!['-'] + decimal_fixed(d.day as nat, 2);
    assert(day_text(d) =~= head + tail);
    assert((head + tail).subrange(0, head.len() as int) =~= head);
}

/// The civil fields of a time that is written with four digits for the
/// year.
pub open spec fn four_digit_year(d: OrlDate) -> bool {
    d.valid() && 0 <= d.year <= 9999
}

/// The canonical forms of a timestamp: `YYYY-MM-DD HH:MM:SS`, with or
/// without `.mmm` behind it, with or without ` UTC` at the end.
pub open spec fn canonical_timestamp(d: OrlDate, with_millis: bool, with_zone: bool) -> Seq<char> {
    day_text(d) + seq![' '] + decimal_fixed(d.hour as nat, 2) + seq![':'] + decimal_fixed(
        d.minute as nat,
        2,
    ) + seq![':'] + decimal_fixed(d.second as nat, 2) + (if with_millis {
        seq!['.'] + decimal_fixed(d.ms as nat, 3)
    } else {
        Seq::empty()
    }) + (if with_zone {
        seq![' ', 'U', 'T', 'C']
    } else {
        Seq::empty()
    })
}

/// What a canonical timestamp says: the time that it was written for,
/// with no milliseconds where none are written.
pub open spec fn canonical_reading(d: OrlDate, with_millis: bool) -> OrlDate {
    if with_millis {
        d
    } else {
        OrlDate { ms: 0, ..d }
    }
}

/// What `r`, read out of a canonical timestamp under `layout`, must be.
/// Under `%Y-%m-%d %H:%M:%S%.f` a timestamp without ` UTC` reads as what it
/// says, and one with ` UTC` is not read, for the text left over. Under
/// `%Y-%m-%d %H:%M:%S` one with ` UTC` is not read either. Under
/// `%Y-%m-%d %H:%M:%S%.f %Z` one with ` UTC` reads as what it says.
pub open spec fn reads_canonical(
    layout: Seq<char>,
    d: OrlDate,
    with_millis: bool,
    with_zone: bool,
    r: Option<OrlDate>,
) -> bool {
    &&& layout == "%Y-%m-%d %H:%M:%S%.f"@ ==> r == if with_zone {
        None
    } else {
        Some(canonical_reading(d, with_millis))
    }
    &&& layout == "%Y-%m-%d %H:%M:%S"@ && with_zone ==> r is None
    &&& layout == "%Y-%m-%d %H:%M:%S%.f %Z"@ && with_zone ==> r == Some(
        canonical_reading(d, with_millis),
    )
}

/// The civil fields that `NaiveDateTime::parse_from_str` of `chrono` reads
/// out of `text` under `layout`, the fraction of the second cut to
/// milliseconds; `None` where it reads none.
pub uninterp spec fn chrono_parsed(text: Seq<char>, layout: Seq<char>) -> Option<OrlDate>;

/// `NaiveDateTime::parse_from_str` of `chrono`, read back through its field
/// getters: a function of the text and the layout alone.
///
/// Of a canonical timestamp it is stated what is read under three layouts.
/// `%Y` reads up to four digits, `%m`, `%d`, `%H`, `%M` and `%S` up to two
/// each, `-` and `:` themselves, and a space any whitespace; `%.f` reads a
/// dot and the digits behind it, or nothing where no dot stands; `%Z`
/// reads what is no whitespace; text that is left over is an error.
#[verifier::external_body]
pub(crate) fn chrono_parse(text: &str, layout: &str) -> (r: Option<OrlDate>)
    ensures
        r == chrono_parsed(text@, layout@),
        forall|d: OrlDate, with_millis: bool, with_zone: bool|
            (four_digit_year(d) && text@ == #[trigger] canonical_timestamp(
                d,
                with_millis,
                with_zone,
            )) ==> reads_canonical(layout@, d, with_millis, with_zone, r),
{
    let t = chrono::NaiveDateTime::parse_from_str(text, layout).ok()?;
    Some(
        OrlDate {
            year: t.year(),
            month: t.month(),
            day: t.day(),
            hour: t.hour(),
            minute: t.minute(),
            second: t.second(),
            ms: t.and_utc().timestamp_subsec_millis(),
        },
    )
}

} // verus!
