//! Calendar dates and the expiry date engine: reading venue date tokens and
//! writing canonical dates in a venue's own pattern.

use vstd::prelude::*;
use chrono::{Datelike, NaiveDate, Timelike, Utc};
use crate::decimal::{all_digits, decimal, digit_char, digit_value, is_digit};
use crate::error::{InstrumentError, InstrumentErrorView};
use crate::text::{chars_of, followed_by, to_upper, upper};

verus! {

/// A day of the proleptic Gregorian calendar, by its numbers.
#[derive(Clone, Copy, Debug, PartialEq, Eq)]
pub struct CivilDate {
    pub year: i32,
    pub month: u32,
    pub day: u32,
}

/// A point in time by the UTC clock: a day, the seconds since its midnight
/// and the nanoseconds since that second began. During a leap second the
/// nanoseconds run on from 1,000,000,000.
#[derive(Clone, Copy, Debug, PartialEq, Eq)]
pub struct Moment {
    pub date: CivilDate,
    pub second_of_day: u32,
    pub nanosecond: u32,
}

/// The textual patterns in which venues write a date.
#[derive(Clone, Copy, Debug, PartialEq, Eq)]
pub enum DatePattern {
    /// Day, abbreviated month name, two-digit year: `28MAR25`.
    DayMonthYear,
    /// Four-digit year, month, day: `20250328`. This is the canonical form.
    YearMonthDay,
    /// Day, abbreviated month name, four-digit year: `28MAR2025`.
    DayMonthFullYear,
}

/// The earliest year a date can have.
pub const MIN_YEAR: i32 = -262143;

/// The latest year a date can have.
pub const MAX_YEAR: i32 = 262142;

/// Whether a year has a 29th of February.
pub open spec fn is_leap_year(year: int) -> bool {
    year % 4 == 0 && (year % 100 != 0 || year % 400 == 0)
}

/// The number of days of a month; zero for a month that does not exist.
pub open spec fn days_in_month(year: int, month: int) -> int {
    if month == 4 || month == 6 || month == 9 || month == 11 {
        30
    } else if month == 2 {
        if is_leap_year(year) {
            29
        } else {
            28
        }
    } else if 1 <= month <= 12 {
        31
    } else {
        0
    }
}

/// A number from 0 to 99 as two digits.
pub open spec fn two_digits(n: int) -> Seq<char> {
    seq![digit_char((n / 10) as nat), digit_char((n % 10) as nat)]
}

/// A number as four digits, or as all its digits when it has more.
pub open spec fn four_digits(n: int) -> Seq<char> {
    if n <= 9999 {
        two_digits(n / 100) + two_digits(n % 100)
    } else {
        decimal(n as nat)
    }
}

/// A full year as text: four digits for the years 0 to 9999; any other year
/// carries its sign in front.
pub open spec fn year_text(year: int) -> Seq<char> {
    if 0 <= year <= 9999 {
        four_digits(year)
    } else if year > 9999 {
        seq!['+'] + four_digits(year)
    } else {
        seq!['-'] + four_digits(-year)
    }
}

/// The English three-letter name of a month.
pub open spec fn month_name(month: int) -> Seq<char> {
    if month == 1 {
        seq!['J', 'a', 'n']
    } else if month == 2 {
        seq!['F', 'e', 'b']
    } else if month == 3 {
        seq!['M', 'a', 'r']
    } else if month == 4 {
        seq!['A', 'p', 'r']
    } else if month == 5 {
        seq!['M', 'a', 'y']
    } else if month == 6 {
        seq!['J', 'u', 'n']
    } else if month == 7 {
        seq!['J', 'u', 'l']
    } else if month == 8 {
        seq!['A', 'u', 'g']
    } else if month == 9 {
        seq!['S', 'e', 'p']
    } else if month == 10 {
        seq!['O', 'c', 't']
    } else if month == 11 {
        seq!['N', 'o', 'v']
    } else {
        seq!['D', 'e', 'c']
    }
}

/// A date written in a pattern, month names in mixed case (`28Mar25`).
pub open spec fn rendered(date: CivilDate, pattern: DatePattern) -> Seq<char> {
    match pattern {
        DatePattern::DayMonthYear => two_digits(date.day as int) + month_name(date.month as int)
            + two_digits((date.year as int) % 100),
        DatePattern::YearMonthDay => year_text(date.year as int) + two_digits(date.month as int)
            + two_digits(date.day as int),
        DatePattern::DayMonthFullYear => two_digits(date.day as int) + month_name(
            date.month as int,
        ) + year_text(date.year as int),
    }
}

impl CivilDate {
    /// Whether the numbers name a day that exists, in a year between
    /// `MIN_YEAR` and `MAX_YEAR`.
    pub open spec fn is_valid(self) -> bool {
        &&& MIN_YEAR <= self.year <= MAX_YEAR
        &&& 1 <= self.month <= 12
        &&& 1 <= self.day <= days_in_month(self.year as int, self.month as int)
    }

    /// Whether `self` is a later day than `other`.
    pub open spec fn is_after(self, other: CivilDate) -> bool {
        ||| self.year > other.year
        ||| self.year == other.year && self.month > other.month
        ||| self.year == other.year && self.month == other.month && self.day > other.day
    }

    /// Tells whether the numbers name a day that exists.
    pub fn check(&self) -> (r: bool)
        ensures
            r == self.is_valid(),
    {
        if self.year < MIN_YEAR || self.year > MAX_YEAR || self.month < 1 || self.month > 12 {
            return false;
        }
        // 262400 is a multiple of 400, so the shifted year is a leap year
        // exactly when the year is.
        let shifted: u32 = (self.year + 262400) as u32;
        let leap = shifted % 4 == 0 && (shifted % 100 != 0 || shifted % 400 == 0);
        let month: u32 = self.month;
        let days: u32 = if month == 4 || month == 6 || month == 9 || month == 11 {
            30
        } else if month == 2 {
            if leap {
                29
            } else {
                28
            }
        } else {
            31
        };
        1 <= self.day && self.day <= days
    }

    /// The date with these numbers, if there is such a day.
    pub fn new(year: i32, month: u32, day: u32) -> (r: Option<CivilDate>)
        ensures
            r == if (CivilDate { year, month, day }).is_valid() {
                Some(CivilDate { year, month, day })
            } else {
                None
            },
    {
        let date = CivilDate { year, month, day };
        if date.check() {
            Some(date)
        } else {
            None
        }
    }
}

impl Moment {
    /// Whether this point in time lies after the last millisecond of `date`,
    /// that is after 23:59:59.999 of that day.
    pub open spec fn is_past_end_of(self, date: CivilDate) -> bool {
        ||| self.date.is_after(date)
        ||| self.date == date && self.second_of_day > 86399
        ||| self.date == date && self.second_of_day == 86399 && self.nanosecond > 999_000_000
    }
}

impl DatePattern {
    /// The pattern in the notation of `strftime`.
    pub open spec fn format_text(self) -> Seq<char> {
        match self {
            DatePattern::DayMonthYear => "%d%b%y"@,
            DatePattern::YearMonthDay => "%Y%m%d"@,
            DatePattern::DayMonthFullYear => "%d%b%Y"@,
        }
    }

    /// The pattern in the notation of `strftime`.
    pub fn format(&self) -> (r: &'static str)
        ensures
            r@ == self.format_text(),
    {
        match self {
            DatePattern::DayMonthYear => "%d%b%y",
            DatePattern::YearMonthDay => "%Y%m%d",
            DatePattern::DayMonthFullYear => "%d%b%Y",
        }
    }
}

/// What the date parser makes of `text` under the `strftime` pattern
/// `format`: the date it reads, or the message of its refusal.
pub uninterp spec fn parsed_date(text: Seq<char>, format: Seq<char>) -> Result<CivilDate, Seq<char>>;

/// A parsing outcome with its message as plain text.
pub open spec fn outcome_view(r: Result<CivilDate, String>) -> Result<CivilDate, Seq<char>> {
    match r {
        Ok(date) => Ok(date),
        Err(message) => Err(message@),
    }
}

/// Reads a date with `chrono::NaiveDate::parse_from_str`. The outcome is a
/// function of the text and the pattern alone, named `parsed_date`; a date
/// that comes back is a day that exists. The message of a refusal is the
/// text that chrono's `ParseError` displays.
#[verifier::external_body]
fn chrono_parse(text: &str, format: &str) -> (r: Result<CivilDate, String>)
    ensures
        outcome_view(r) == parsed_date(text@, format@),
        r matches Ok(date) ==> date.is_valid(),
{
    match NaiveDate::parse_from_str(text, format) {
        Ok(d) => Ok(CivilDate { year: d.year(), month: d.month(), day: d.day() }),
        Err(e) => Err(e.to_string()),
    }
}

/// Writes a date with `chrono::NaiveDate::format`, for the three patterns of
/// `DatePattern`: `%d` and `%m` give two digits, `%b` the English
/// three-letter month name, `%y` the year modulo 100 in two digits and `%Y`
/// the year in four digits, with a sign in front outside 0 to 9999.
#[verifier::external_body]
fn chrono_format(date: CivilDate, format: &str) -> (r: String)
    requires
        date.is_valid(),
        exists|pattern: DatePattern| format@ == pattern.format_text(),
    ensures
        forall|pattern: DatePattern| format@ == pattern.format_text() ==> r@ == rendered(date, pattern),
{
    match NaiveDate::from_ymd_opt(date.year, date.month, date.day) {
        Some(d) => d.format(format).to_string(),
        None => String::new(),
    }
}

/// Reads the UTC clock with `chrono::Utc::now`. Nothing is known of the
/// answer beforehand. chrono stops the program if the system clock stands
/// before the year 1970.
#[verifier::external_body]
fn chrono_now() -> (r: Moment) {
    let now = Utc::now().naive_utc();
    Moment {
        date: CivilDate { year: now.year(), month: now.month(), day: now.day() },
        second_of_day: now.num_seconds_from_midnight(),
        nanosecond: now.nanosecond(),
    }
}

/// The date that `text` writes in `pattern`, if the date parser accepts it.
pub open spec fn read_date(text: Seq<char>, pattern: DatePattern) -> Option<CivilDate> {
    match parsed_date(text, pattern.format_text()) {
        Ok(date) => Some(date),
        Err(_) => None,
    }
}

/// The date that `text` writes in the first pattern that accepts it, trying
/// day-month-year, then year-month-day, then day-month-full-year.
pub open spec fn first_reading(text: Seq<char>) -> Option<CivilDate> {
    if read_date(text, DatePattern::DayMonthYear) is Some {
        read_date(text, DatePattern::DayMonthYear)
    } else if read_date(text, DatePattern::YearMonthDay) is Some {
        read_date(text, DatePattern::YearMonthDay)
    } else {
        read_date(text, DatePattern::DayMonthFullYear)
    }
}

/// The canonical `YYYYMMDD` form of a date token, if it writes a day that
/// exists in a year from 0 to 9999, the years that four digits can write.
pub open spec fn canonical_expiry(text: Seq<char>) -> Option<Seq<char>> {
    match first_reading(text) {
        Some(date) => if date.is_valid() && 0 <= date.year <= 9999 {
            Some(rendered(date, DatePattern::YearMonthDay))
        } else {
            None
        },
        None => None,
    }
}

/// The day that a canonical date writes: a text of eight ASCII digits,
/// four for the year, two for the month and two for the day, that name a
/// day that exists. Any other text writes none.
pub open spec fn canonical_date(text: Seq<char>) -> Option<CivilDate> {
    if text.len() == 8 && all_digits(text) {
        let date = CivilDate {
            year: (digit_value(text[0]) * 1000 + digit_value(text[1]) * 100 + digit_value(text[2])
                * 10 + digit_value(text[3])) as i32,
            month: (digit_value(text[4]) * 10 + digit_value(text[5])) as u32,
            day: (digit_value(text[6]) * 10 + digit_value(text[7])) as u32,
        };
        if date.is_valid() {
            Some(date)
        } else {
            None
        }
    } else {
        None
    }
}

/// Whether a text is a canonical date: eight ASCII digits `YYYYMMDD` that
/// name a day that exists.
pub open spec fn is_canonical_date(text: Seq<char>) -> bool {
    canonical_date(text) is Some
}

/// The canonical form of a day in a year from 0 to 9999 is a canonical
/// date, and it writes that day.
pub proof fn lemma_canonical_form(date: CivilDate)
    requires
        date.is_valid(),
        0 <= date.year <= 9999,
    ensures
        canonical_date(rendered(date, DatePattern::YearMonthDay)) == Some(date),
{
    let year: int = date.year as int;
    let text = rendered(date, DatePattern::YearMonthDay);
    assert(text =~= two_digits(year / 100) + two_digits(year % 100) + two_digits(date.month as int)
        + two_digits(date.day as int));
    assert(all_digits(text)) by {
        assert forall|i: int| 0 <= i < text.len() implies is_digit(#[trigger] text[i]) by {
            assert(i == 0 || i == 1 || i == 2 || i == 3 || i == 4 || i == 5 || i == 6 || i == 7);
        }
    }
}

/// The canonical form of a date token is a canonical date, and it writes
/// the day that the token writes.
pub proof fn lemma_canonical_expiry(text: Seq<char>)
    requires
        canonical_expiry(text) is Some,
    ensures
        canonical_date(canonical_expiry(text).unwrap()) == first_reading(text),
{
    lemma_canonical_form(first_reading(text).unwrap());
}

/// A date as a venue writes it: rendered in the pattern, in upper case.
pub open spec fn venue_rendering(date: CivilDate, pattern: DatePattern) -> Seq<char> {
    upper(rendered(date, pattern))
}

/// The day that the date parser reads from a canonical date; none from
/// a text that is no canonical date.
pub open spec fn stored_date(text: Seq<char>) -> Option<CivilDate> {
    if is_canonical_date(text) {
        read_date(text, DatePattern::YearMonthDay)
    } else {
        None
    }
}

/// A canonical date written in a venue's pattern: the day that the date
/// parser reads from it, rendered in the pattern, in upper case. The text
/// is empty when `text` is no canonical date.
pub open spec fn venue_expiry(text: Seq<char>, pattern: DatePattern) -> Seq<char> {
    match stored_date(text) {
        Some(date) => venue_rendering(date, pattern),
        None => Seq::<char>::empty(),
    }
}

/// The message for a token that writes no date.
pub open spec fn unread_date_message(text: Seq<char>) -> Seq<char> {
    "Failed to parse expiry date: "@ + text
}

/// The answer to "is this date over?" at the time `now`: whether `now`
/// lies after 23:59:59.999 UTC of the day that `text` writes in the
/// canonical pattern, or an invalid date with the parser's message when
/// the date parser reads no date from `text`.
pub open spec fn expiry_status(text: Seq<char>, now: Moment) -> Result<bool, InstrumentErrorView> {
    match parsed_date(text, DatePattern::YearMonthDay.format_text()) {
        Ok(date) => Ok(now.is_past_end_of(date)),
        Err(message) => Err(InstrumentErrorView::InvalidDate(message)),
    }
}

/// An expiry answer as plain values.
pub open spec fn status_view(r: Result<bool, InstrumentError>) -> Result<
    bool,
    InstrumentErrorView,
> {
    match r {
        Ok(expired) => Ok(expired),
        Err(error) => Err(error@),
    }
}

/// Whether the date parser reads the canonical form of `date` back as
/// that date.
pub open spec fn reads_back_canonical(date: CivilDate) -> bool {
    read_date(rendered(date, DatePattern::YearMonthDay), DatePattern::YearMonthDay) == Some(date)
}

/// A date token, made canonical and then written in a pattern, is the day
/// that the token writes, rendered in that pattern, in upper case. This
/// holds of every date token with a canonical form which the date parser
/// reads back as the day that the token writes.
pub proof fn lemma_expiry_round_trip(text: Seq<char>, pattern: DatePattern)
    requires
        canonical_expiry(text) is Some,
        reads_back_canonical(first_reading(text).unwrap()),
    ensures
        venue_expiry(canonical_expiry(text).unwrap(), pattern) == venue_rendering(
            first_reading(text).unwrap(),
            pattern,
        ),
{
    lemma_canonical_expiry(text);
}

/// The value of the ASCII digit at a place of a text, if there is one.
fn digit_at(chars: &Vec<char>, at: usize) -> (r: Option<u32>)
    requires
        at < chars.len(),
    ensures
        r == if is_digit(chars@[at as int]) {
            Some(digit_value(chars@[at as int]) as u32)
        } else {
            None
        },
{
    let c = chars[at];
    if '0' <= c && c <= '9' {
        Some((c as u8 - '0' as u8) as u32)
    } else {
        None
    }
}

/// Reads a canonical date: eight ASCII digits `YYYYMMDD` that name a day
/// that exists.
pub fn read_canonical_date(text: &str) -> (r: Option<CivilDate>)
    ensures
        r == canonical_date(text@),
{
    let chars = chars_of(text);
    if chars.len() != 8 {
        return None;
    }
    let mut digits: Vec<u32> = Vec::new();
    let mut i: usize = 0;
    while i < 8
        invariant
            chars@ == text@,
            chars.len() == 8,
            i <= 8,
            digits.len() == i,
            forall|j: int|
                0 <= j < i ==> is_digit(#[trigger] text@[j]) && digits@[j] == digit_value(text@[j]),
        decreases 8 - i,
    {
        match digit_at(&chars, i) {
            Some(digit) => digits.push(digit),
            None => {
                return None;
            },
        }
        i += 1;
    }
    let year: u32 = digits[0] * 1000 + digits[1] * 100 + digits[2] * 10 + digits[3];
    let month: u32 = digits[4] * 10 + digits[5];
    let day: u32 = digits[6] * 10 + digits[7];
    CivilDate::new(year as i32, month, day)
}

/// Reads a date token in one pattern.
pub fn parse_expiry_date(date_str: &str, pattern: DatePattern) -> (r: Option<CivilDate>)
    ensures
        r == read_date(date_str@, pattern),
        r matches Some(date) ==> date.is_valid(),
{
    match chrono_parse(date_str, pattern.format()) {
        Ok(date) => Some(date),
        Err(_) => None,
    }
}

/// Writes a date in a pattern, month names in mixed case. A date that does
/// not exist gives the empty text.
pub fn format_expiry_date(date: CivilDate, pattern: DatePattern) -> (r: String)
    ensures
        r@ == if date.is_valid() {
            rendered(date, pattern)
        } else {
            Seq::<char>::empty()
        },
{
    if date.check() {
        chrono_format(date, pattern.format())
    } else {
        String::new()
    }
}

/// Writes a date as a venue does: in the pattern, in upper case. A date
/// that does not exist gives the empty text.
pub fn venue_date_text(date: CivilDate, pattern: DatePattern) -> (r: String)
    ensures
        r@ == if date.is_valid() {
            venue_rendering(date, pattern)
        } else {
            Seq::<char>::empty()
        },
{
    let mixed = format_expiry_date(date, pattern);
    to_upper(mixed.as_str())
}

/// Turns a date token of any accepted pattern into the canonical form:
/// eight ASCII digits `YYYYMMDD` that name the day which the token writes.
/// A token that no pattern accepts, or that writes a day in a year which
/// four digits cannot write, is an invalid date.
pub fn normalize_expiry(date_str: &str) -> (r: Result<String, InstrumentError>)
    ensures
        match r {
            Ok(canonical) => {
                &&& canonical_expiry(date_str@) == Some(canonical@)
                &&& canonical@.len() == 8
                &&& all_digits(canonical@)
                &&& canonical_date(canonical@) == first_reading(date_str@)
            },
            Err(error) => canonical_expiry(date_str@) is None && error@
                == InstrumentErrorView::InvalidDate(unread_date_message(date_str@)),
        },
{
    let mut reading = parse_expiry_date(date_str, DatePattern::DayMonthYear);
    if reading.is_none() {
        reading = parse_expiry_date(date_str, DatePattern::YearMonthDay);
    }
    if reading.is_none() {
        reading = parse_expiry_date(date_str, DatePattern::DayMonthFullYear);
    }
    match reading {
        Some(date) if 0 <= date.year && date.year <= 9999 => {
            proof {
                lemma_canonical_form(date);
            }
            Ok(format_expiry_date(date, DatePattern::YearMonthDay))
        },
        _ => Err(
            InstrumentError::InvalidDate(followed_by("Failed to parse expiry date: ", date_str)),
        ),
    }
}

/// Reads the day of a canonical date with the date parser; none from a
/// text that is no canonical date.
pub fn read_stored_date(text: &str) -> (r: Option<CivilDate>)
    ensures
        r == stored_date(text@),
        r matches Some(date) ==> date.is_valid(),
{
    if read_canonical_date(text).is_none() {
        return None;
    }
    parse_expiry_date(text, DatePattern::YearMonthDay)
}

/// Writes a canonical date in a venue's pattern, in upper case. A text
/// that is no canonical date gives the empty text.
pub fn denormalize_expiry(date_str: &str, pattern: DatePattern) -> (r: String)
    ensures
        r@ == venue_expiry(date_str@, pattern),
        !is_canonical_date(date_str@) ==> r@.len() == 0,
{
    match read_stored_date(date_str) {
        Some(date) => venue_date_text(date, pattern),
        None => String::new(),
    }
}

/// Whether `now` lies after the last millisecond of `date`.
pub fn expired_at(date: CivilDate, now: Moment) -> (r: bool)
    ensures
        r == now.is_past_end_of(date),
{
    let today = now.date;
    if today.year != date.year {
        return today.year > date.year;
    }
    if today.month != date.month {
        return today.month > date.month;
    }
    if today.day != date.day {
        return today.day > date.day;
    }
    now.second_of_day > 86399 || (now.second_of_day == 86399 && now.nanosecond > 999_000_000)
}

/// Whether a date in the canonical pattern is over at the time `now`. A
/// text from which the date parser reads no date is an invalid date, with
/// the parser's message.
pub fn is_date_expired_at(date_str: &str, now: Moment) -> (r: Result<bool, InstrumentError>)
    ensures
        status_view(r) == expiry_status(date_str@, now),
{
    match chrono_parse(date_str, DatePattern::YearMonthDay.format()) {
        Ok(date) => Ok(expired_at(date, now)),
        Err(message) => Err(InstrumentError::InvalidDate(message)),
    }
}

/// Whether a date in the canonical pattern is over by now, that is whether
/// the UTC clock has passed 23:59:59.999 of that day. A text from which the
/// date parser reads no date is an invalid date, with the parser's message.
pub fn is_date_expired(date_str: &str) -> (r: Result<bool, InstrumentError>)
    ensures
        exists|now: Moment| status_view(r) == expiry_status(date_str@, now),
{
    match chrono_parse(date_str, DatePattern::YearMonthDay.format()) {
        Ok(date) => {
            let now = chrono_now();
            let expired = expired_at(date, now);
            assert(expiry_status(date_str@, now) == Ok::<bool, InstrumentErrorView>(expired));
            Ok(expired)
        },
        Err(message) => {
            let error = InstrumentError::InvalidDate(message);
            assert(expiry_status(date_str@, arbitrary()) == Err::<bool, InstrumentErrorView>(error@));
            Err(error)
        },
    }
}

} // verus!
