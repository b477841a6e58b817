//! Instants of the UTC calendar, to the nanosecond, and their iCalendar text.
//!
//! An instant is held as its civil fields. `chrono` reads and writes the text
//! forms; what it writes, and what it reads from plain digit strings, is
//! stated here field by field.

use chrono::Datelike;
use chrono::Timelike;
use vstd::prelude::*;

verus! {

/// The error that `chrono` reports for a string it cannot read.
#[verifier::external_type_specification]
#[verifier::external_body]
pub struct ExParseError(chrono::format::ParseError);

/// First year that an instant can hold.
pub const MIN_YEAR: i32 = -262143;

/// Last year that an instant can hold.
pub const MAX_YEAR: i32 = 262142;

/// Nanoseconds in a second. A nanosecond field at or above it marks a leap second.
pub const NANOS_PER_SECOND: u32 = 1_000_000_000;

/// Leap years of the proleptic Gregorian calendar.
pub open spec fn is_leap_year(year: int) -> bool {
    year % 4 == 0 && (year % 100 != 0 || year % 400 == 0)
}

/// Number of days of a month; 0 for a month outside `1..=12`.
pub open spec fn days_in_month(year: int, month: int) -> int {
    if month == 2 {
        if is_leap_year(year) {
            29
        } else {
            28
        }
    } else if month == 4 || month == 6 || month == 9 || month == 11 {
        30
    } else if 1 <= month <= 12 {
        31
    } else {
        0
    }
}

/// A day that exists in the calendar, within the years an instant can hold.
pub open spec fn is_date(year: int, month: int, day: int) -> bool {
    MIN_YEAR <= year <= MAX_YEAR && 1 <= month <= 12 && 1 <= day <= days_in_month(year, month)
}

/// A time of day. The nanosecond may pass one second only within second 59,
/// where it stands for a leap second.
pub open spec fn is_time(hour: int, minute: int, second: int, nanosecond: int) -> bool {
    0 <= hour < 24 && 0 <= minute < 60 && 0 <= second < 60 && 0 <= nanosecond < 2 * NANOS_PER_SECOND
        && (nanosecond >= NANOS_PER_SECOND ==> second == 59)
}

/// An instant of UTC, as its civil fields.
#[derive(Clone, Copy, Debug, PartialEq, Eq, Structural)]
pub struct UtcDateTime {
    pub(crate) year: i32,
    pub(crate) month: u32,
    pub(crate) day: u32,
    pub(crate) hour: u32,
    pub(crate) minute: u32,
    pub(crate) second: u32,
    pub(crate) nanosecond: u32,
}

/// The decimal digit for `d` in `0..10`.
pub open spec fn digit_char(d: int) -> char {
    seq!['0', '1', '2', '3', '4', '5', '6', '7', '8', '9'][d]
}

/// `n` in decimal, padded with zeros on the left to at least `width` digits.
pub open spec fn decimal(n: nat, width: nat) -> Seq<char>
    decreases n, width,
{
    if n < 10 && width <= 1 {
        seq![digit_char(n as int)]
    } else {
        decimal(n / 10, if width > 0 { (width - 1) as nat } else { 0 }).push(digit_char((n % 10) as int))
    }
}

/// A year as `chrono` writes `%Y`: four digits from 0 to 9999, otherwise a
/// sign and at least four digits.
pub open spec fn year_text(year: int) -> Seq<char> {
    if 0 <= year <= 9999 {
        decimal(year as nat, 4)
    } else if year < 0 {
        seq!['-'] + decimal((-year) as nat, 4)
    } else {
        seq!['+'] + decimal(year as nat, 4)
    }
}

/// The iCalendar UTC date-time form of an instant, `YYYYMMDDTHHMMSSZ`, to the
/// second. A leap second shows as second 60.
pub open(crate) spec fn ical_stamp(t: UtcDateTime) -> Seq<char> {
    year_text(t.year as int) + decimal(t.month as nat, 2) + decimal(t.day as nat, 2) + seq!['T']
        + decimal(t.hour as nat, 2) + decimal(t.minute as nat, 2) + decimal(
        t.shown_second() as nat,
        2,
    ) + seq!['Z']
}

/// Whether `c` is one of the ten ASCII digits.
pub open spec fn is_digit(c: char) -> bool {
    '0' <= c <= '9'
}

/// Whether every character of `s` is an ASCII digit.
pub open spec fn all_digits(s: Seq<char>) -> bool {
    forall|i: int| 0 <= i < s.len() ==> is_digit(#[trigger] s[i])
}

/// The number that a string of ASCII digits writes.
pub open spec fn number(s: Seq<char>) -> nat
    decreases s.len(),
{
    if s.len() == 0 {
        0
    } else {
        (number(s.drop_last()) * 10 + (s.last() as u32 - '0' as u32)) as nat
    }
}

/// Eight ASCII digits: the plain `YYYYMMDD` form.
pub open spec fn is_plain_date(s: Seq<char>) -> bool {
    s.len() == 8 && all_digits(s)
}

/// The day that a plain `YYYYMMDD` string names, if it exists.
pub open spec fn plain_date(s: Seq<char>) -> Option<(i32, u32, u32)> {
    let y = number(s.subrange(0, 4));
    let m = number(s.subrange(4, 6));
    let d = number(s.subrange(6, 8));
    if is_date(y as int, m as int, d as int) {
        Some((y as i32, m as u32, d as u32))
    } else {
        None
    }
}

/// Fifteen characters, `T` in the ninth place and ASCII digits elsewhere: the
/// plain `YYYYMMDDTHHMMSS` form.
pub open spec fn is_plain_date_time(s: Seq<char>) -> bool {
    s.len() == 15 && s[8] == 'T' && all_digits(s.subrange(0, 8)) && all_digits(s.subrange(9, 15))
}

/// The instant that a plain `YYYYMMDDTHHMMSS` string names, if it exists.
/// Second 60 is read as a leap second after second 59.
pub open spec fn plain_date_time(s: Seq<char>) -> Option<UtcDateTime> {
    let y = number(s.subrange(0, 4));
    let m = number(s.subrange(4, 6));
    let d = number(s.subrange(6, 8));
    let h = number(s.subrange(9, 11));
    let mi = number(s.subrange(11, 13));
    let sec = number(s.subrange(13, 15));
    if is_date(y as int, m as int, d as int) && h < 24 && mi < 60 && sec <= 60 {
        Some(
            UtcDateTime::at(
                y as i32,
                m as u32,
                d as u32,
                h as u32,
                mi as u32,
                if sec == 60 { 59 } else { sec as u32 },
                if sec == 60 { NANOS_PER_SECOND } else { 0 },
            ),
        )
    } else {
        None
    }
}

/// The day that `chrono::NaiveDate::parse_from_str` reads from a string under
/// the format `%Y%m%d`, if it reads one.
pub uninterp spec fn parsed_date(s: Seq<char>) -> Option<(i32, u32, u32)>;

/// The instant that `chrono::NaiveDateTime::parse_from_str` reads from a
/// string under the format `%Y%m%dT%H%M%S`, if it reads one.
pub uninterp spec fn parsed_date_time(s: Seq<char>) -> Option<UtcDateTime>;

/// What a date parse found, without the error's detail.
pub open spec fn found_date(r: Result<(i32, u32, u32), chrono::format::ParseError>) -> Option<
    (i32, u32, u32),
> {
    match r {
        Ok(d) => Some(d),
        Err(_) => None,
    }
}

/// What a date-time parse found, without the error's detail.
pub open spec fn found_date_time(r: Result<UtcDateTime, chrono::format::ParseError>) -> Option<
    UtcDateTime,
> {
    match r {
        Ok(t) => Some(t),
        Err(_) => None,
    }
}

/// The day that a `YYYYMMDD` value is read as: of eight plain digits the
/// first four are the year, the next two the month and the last two the day;
/// any other text is read as `chrono` reads it.
pub open spec fn date_read(s: Seq<char>) -> Option<(i32, u32, u32)> {
    if is_plain_date(s) {
        plain_date(s)
    } else {
        parsed_date(s)
    }
}

/// The instant that a `YYYYMMDDTHHMMSS` value is read as: the plain
/// fifteen-character form is read field by field, second 60 as a leap second;
/// any other text is read as `chrono` reads it.
pub open spec fn date_time_read(s: Seq<char>) -> Option<UtcDateTime> {
    if is_plain_date_time(s) {
        plain_date_time(s)
    } else {
        parsed_date_time(s)
    }
}

/// Calls `chrono::NaiveDate::parse_from_str` with the format `%Y%m%d`.
/// Trusted: the result is what `parsed_date` names for the same text; a day
/// that comes back exists in the calendar; and of eight plain digits the
/// first four are read as the year, the next two as the month and the last
/// two as the day, which is what `date_read` says.
#[verifier::external_body]
pub(crate) fn chrono_parse_date(s: &str) -> (r: Result<(i32, u32, u32), chrono::format::ParseError>)
    ensures
        found_date(r) == parsed_date(s@),
        r matches Ok(d) ==> is_date(d.0 as int, d.1 as int, d.2 as int),
        found_date(r) == date_read(s@),
{
    match chrono::NaiveDate::parse_from_str(s, "%Y%m%d") {
        Ok(d) => Ok((d.year(), d.month(), d.day())),
        Err(e) => Err(e),
    }
}

/// Calls `chrono::NaiveDateTime::parse_from_str` with the format `%Y%m%dT%H%M%S`.
/// Trusted: the result is what `parsed_date_time` names for the same text; an
/// instant that comes back is valid; and the plain fifteen-character form is
/// read field by field, second 60 as a leap second, which is what
/// `date_time_read` says.
#[verifier::external_body]
pub(crate) fn chrono_parse_date_time(s: &str) -> (r: Result<
    UtcDateTime,
    chrono::format::ParseError,
>)
    ensures
        found_date_time(r) == parsed_date_time(s@),
        r matches Ok(t) ==> t.is_valid(),
        found_date_time(r) == date_time_read(s@),
{
    match chrono::NaiveDateTime::parse_from_str(s, "%Y%m%dT%H%M%S") {
        Ok(t) => Ok(
            UtcDateTime {
                year: t.year(),
                month: t.month(),
                day: t.day(),
                hour: t.hour(),
                minute: t.minute(),
                second: t.second(),
                nanosecond: t.nanosecond(),
            },
        ),
        Err(e) => Err(e),
    }
}

/// The instant that `chrono::NaiveDateTime::parse_from_str` reads from a
/// string under the format `%Y-%m-%dT%H:%M`, if it reads one.
pub uninterp spec fn parsed_form_time(s: Seq<char>) -> Option<UtcDateTime>;

/// Calls `chrono::NaiveDateTime::parse_from_str` with the format
/// `%Y-%m-%dT%H:%M`, the form in which a browser submits a local date and time.
/// Trusted: the result is what `parsed_form_time` names for the same text,
/// and an instant that comes back is valid.
#[verifier::external_body]
pub(crate) fn chrono_parse_form_time(s: &str) -> (r: Result<
    UtcDateTime,
    chrono::format::ParseError,
>)
    ensures
        found_date_time(r) == parsed_form_time(s@),
        r matches Ok(t) ==> t.is_valid(),
{
    match chrono::NaiveDateTime::parse_from_str(s, "%Y-%m-%dT%H:%M") {
        Ok(t) => Ok(
            UtcDateTime {
                year: t.year(),
                month: t.month(),
                day: t.day(),
                hour: t.hour(),
                minute: t.minute(),
                second: t.second(),
                nanosecond: t.nanosecond(),
            },
        ),
        Err(e) => Err(e),
    }
}

/// Calls `chrono`'s `format` with `%Y%m%dT%H%M%SZ` on the instant.
/// Trusted: the text is `ical_stamp` of the instant, which spells out what
/// `chrono` documents for `%Y`, `%m`, `%d`, `%H`, `%M` and `%S`.
#[verifier::external_body]
pub(crate) fn chrono_format_stamp(t: &UtcDateTime) -> (s: String)
    requires
        t.is_valid(),
    ensures
        s@ == ical_stamp(*t),
{
    chrono::NaiveDate::from_ymd_opt(t.year, t.month, t.day).unwrap().and_hms_nano_opt(
        t.hour,
        t.minute,
        t.second,
        t.nanosecond,
    ).unwrap().and_utc().format("%Y%m%dT%H%M%SZ").to_string()
}

/// Whether `year` is a leap year.
pub fn leap_year(year: i32) -> (b: bool)
    ensures
        b == is_leap_year(year as int),
{
    year % 4 == 0 && (year % 100 != 0 || year % 400 == 0)
}

/// Number of days of a month; 0 for a month outside `1..=12`.
pub fn month_length(year: i32, month: u32) -> (n: u32)
    ensures
        n == days_in_month(year as int, month as int),
{
    if month == 2 {
        if leap_year(year) {
            29
        } else {
            28
        }
    } else if month == 4 || month == 6 || month == 9 || month == 11 {
        30
    } else if 1 <= month && month <= 12 {
        31
    } else {
        0
    }
}

impl UtcDateTime {
    /// The fields name an instant that exists.
    pub open(crate) spec fn is_valid(&self) -> bool {
        &&& is_date(self.year as int, self.month as int, self.day as int)
        &&& is_time(
            self.hour as int,
            self.minute as int,
            self.second as int,
            self.nanosecond as int,
        )
    }

    #[verifier::type_invariant]
    spec fn well_formed(&self) -> bool {
        self.is_valid()
    }

    /// The value with the given fields, whether or not such an instant exists.
    pub open(crate) spec fn at(
        year: i32,
        month: u32,
        day: u32,
        hour: u32,
        minute: u32,
        second: u32,
        nanosecond: u32,
    ) -> UtcDateTime {
        UtcDateTime { year, month, day, hour, minute, second, nanosecond }
    }

    /// The fields in order: year, month, day, hour, minute, second, nanosecond.
    pub open(crate) spec fn civil(&self) -> (i32, u32, u32, u32, u32, u32, u32) {
        (self.year, self.month, self.day, self.hour, self.minute, self.second, self.nanosecond)
    }

    /// The second as the text forms show it: 60 within a leap second.
    pub open(crate) spec fn shown_second(&self) -> int {
        if self.nanosecond >= NANOS_PER_SECOND {
            self.second + 1
        } else {
            self.second as int
        }
    }

    /// The instant cut down to whole seconds; a leap second stays one.
    pub open(crate) spec fn whole_second(&self) -> UtcDateTime {
        UtcDateTime {
            nanosecond: if self.nanosecond >= NANOS_PER_SECOND {
                NANOS_PER_SECOND
            } else {
                0
            },
            ..*self
        }
    }

    /// The instant with the given fields, if there is one.
    pub fn new(
        year: i32,
        month: u32,
        day: u32,
        hour: u32,
        minute: u32,
        second: u32,
        nanosecond: u32,
    ) -> (r: Option<UtcDateTime>)
        ensures
            r is Some <==> is_date(year as int, month as int, day as int) && is_time(
                hour as int,
                minute as int,
                second as int,
                nanosecond as int,
            ),
            r matches Some(t) ==> t == UtcDateTime::at(year, month, day, hour, minute, second, nanosecond),
    {
        if MIN_YEAR <= year && year <= MAX_YEAR && 1 <= month && month <= 12 && 1 <= day && day
            <= month_length(year, month) && hour < 24 && minute < 60 && second < 60 && nanosecond
            < 2 * NANOS_PER_SECOND && (nanosecond < NANOS_PER_SECOND || second == 59) {
            Some(UtcDateTime { year, month, day, hour, minute, second, nanosecond })
        } else {
            None
        }
    }

    /// Midnight at the start of the given day, if the day exists.
    pub fn midnight(year: i32, month: u32, day: u32) -> (r: Option<UtcDateTime>)
        ensures
            r is Some <==> is_date(year as int, month as int, day as int),
            r matches Some(t) ==> t == UtcDateTime::at(year, month, day, 0, 0, 0, 0),
    {
        UtcDateTime::new(year, month, day, 0, 0, 0, 0)
    }

    /// The year.
    pub fn year(&self) -> (v: i32)
        ensures
            v == self.civil().0,
    {
        self.year
    }

    /// The month, from 1.
    pub fn month(&self) -> (v: u32)
        ensures
            v == self.civil().1,
    {
        self.month
    }

    /// The day of the month, from 1.
    pub fn day(&self) -> (v: u32)
        ensures
            v == self.civil().2,
    {
        self.day
    }

    /// The hour, from 0.
    pub fn hour(&self) -> (v: u32)
        ensures
            v == self.civil().3,
    {
        self.hour
    }

    /// The minute, from 0.
    pub fn minute(&self) -> (v: u32)
        ensures
            v == self.civil().4,
    {
        self.minute
    }

    /// The second, from 0 to 59.
    pub fn second(&self) -> (v: u32)
        ensures
            v == self.civil().5,
    {
        self.second
    }

    /// The nanosecond within the second; at or above one second in a leap second.
    pub fn nanosecond(&self) -> (v: u32)
        ensures
            v == self.civil().6,
    {
        self.nanosecond
    }

    /// Whether this instant is `other` or comes before it.
    pub open(crate) spec fn at_or_before(&self, other: UtcDateTime) -> bool {
        let a = self.civil();
        let b = other.civil();
        a.0 < b.0 || (a.0 == b.0 && (a.1 < b.1 || (a.1 == b.1 && (a.2 < b.2 || (a.2 == b.2 && (a.3
            < b.3 || (a.3 == b.3 && (a.4 < b.4 || (a.4 == b.4 && (a.5 < b.5 || (a.5 == b.5 && a.6
            <= b.6)))))))))))
    }

    /// Whether this instant is `other` or comes before it.
    pub fn is_at_or_before(&self, other: &UtcDateTime) -> (b: bool)
        ensures
            b == self.at_or_before(*other),
    {
        if self.year != other.year {
            self.year < other.year
        } else if self.month != other.month {
            self.month < other.month
        } else if self.day != other.day {
            self.day < other.day
        } else if self.hour != other.hour {
            self.hour < other.hour
        } else if self.minute != other.minute {
            self.minute < other.minute
        } else if self.second != other.second {
            self.second < other.second
        } else {
            self.nanosecond <= other.nanosecond
        }
    }

    /// The iCalendar UTC date-time form, `YYYYMMDDTHHMMSSZ`.
    pub fn to_ical_stamp(&self) -> (s: String)
        ensures
            s@ == ical_stamp(*self),
    {
        proof {
            use_type_invariant(self);
        }
        chrono_format_stamp(self)
    }
}

/// The characters of which the UTC form of an instant is made.
pub open spec fn is_stamp_char(c: char) -> bool {
    is_digit(c) || c == 'T' || c == 'Z'
}

/// Ten to the power `w`.
pub open spec fn pow10(w: nat) -> nat
    decreases w,
{
    if w == 0 {
        1
    } else {
        10 * pow10((w - 1) as nat)
    }
}

/// A number below `10^w`, written with `w` digits, reads back as itself.
pub proof fn lemma_decimal(n: nat, w: nat)
    requires
        w >= 1,
        n < pow10(w),
    ensures
        decimal(n, w).len() == w,
        all_digits(decimal(n, w)),
        number(decimal(n, w)) == n,
    decreases w,
{
    if w == 1 {
        let s = decimal(n, w);
        assert(number(s.drop_last()) == 0);
    } else {
        let head = decimal(n / 10, (w - 1) as nat);
        let s = decimal(n, w);
        assert(n / 10 < pow10((w - 1) as nat)) by (nonlinear_arith)
            requires
                n < 10 * pow10((w - 1) as nat),
        ;
        lemma_decimal(n / 10, (w - 1) as nat);
        assert(s.drop_last() == head);
    }
}

/// The UTC form of an instant with a four-digit year has sixteen
/// characters, ends in `Z`, and its first fifteen read back as the instant,
/// cut down to whole seconds.
pub proof fn lemma_stamp_reads_back(t: UtcDateTime)
    requires
        t.is_valid(),
        0 <= t.civil().0 <= 9999,
    ensures
        ical_stamp(t).len() == 16,
        ical_stamp(t)[15] == 'Z',
        forall|i: int| 0 <= i < 16 ==> is_stamp_char(#[trigger] ical_stamp(t)[i]),
        is_plain_date_time(ical_stamp(t).take(15)),
        plain_date_time(ical_stamp(t).take(15)) == Some(t.whole_second()),
{
    reveal_with_fuel(pow10, 5);
    let y = decimal(t.year as nat, 4);
    let m = decimal(t.month as nat, 2);
    let d = decimal(t.day as nat, 2);
    let h = decimal(t.hour as nat, 2);
    let mi = decimal(t.minute as nat, 2);
    let sec = decimal(t.shown_second() as nat, 2);
    lemma_decimal(t.year as nat, 4);
    lemma_decimal(t.month as nat, 2);
    lemma_decimal(t.day as nat, 2);
    lemma_decimal(t.hour as nat, 2);
    lemma_decimal(t.minute as nat, 2);
    lemma_decimal(t.shown_second() as nat, 2);
    let s = ical_stamp(t);
    let p = s.take(15);
    assert(p.subrange(0, 4) == y);
    assert(p.subrange(4, 6) == m);
    assert(p.subrange(6, 8) == d);
    assert(p.subrange(9, 11) == h);
    assert(p.subrange(11, 13) == mi);
    assert(p.subrange(13, 15) == sec);
}

} // verus!
