use chrono::{Datelike, Timelike};
use vstd::prelude::*;

use crate::error::{ReportError, ReportErrorReason};
use crate::text::{
    append_decimal, append_decimal_nat, chars_of, magnitude, spec_decimal, spec_decimal_nat,
};

verus! {

/// The fields of a date and time on the calendar.
#[derive(Debug, Clone, Copy, PartialEq, Eq, Structural)]
pub struct DateFields {
    pub year: i32,
    /// 1 for January, 12 for December.
    pub month: u32,
    pub day: u32,
    pub hour: u32,
    pub minute: u32,
    pub second: u32,
    /// Days since Monday: 0 for Monday, 6 for Sunday.
    pub weekday: u32,
    /// Seconds since 1970-01-01 00:00:00, read off the same clock.
    pub timestamp: i64,
}

/// The first year of the calendar.
pub open spec fn spec_min_year() -> int {
    -262143
}

/// The last year of the calendar.
pub open spec fn spec_max_year() -> int {
    262142
}

/// Whether `year` is a leap year of the Gregorian calendar, which is taken
/// to hold before its introduction too.
pub open spec fn spec_is_leap_year(year: int) -> bool {
    year % 4 == 0 && (year % 100 != 0 || year % 400 == 0)
}

/// The number of days of the month.
pub open spec fn spec_days_in_month(year: int, month: int) -> int {
    if month == 2 {
        if spec_is_leap_year(year) {
            29
        } else {
            28
        }
    } else if month == 4 || month == 6 || month == 9 || month == 11 {
        30
    } else {
        31
    }
}

/// The number of days of the year that lie before the month.
pub open spec fn spec_days_before_month(year: int, month: int) -> int {
    let common = if month <= 1 {
        0int
    } else if month == 2 {
        31
    } else if month == 3 {
        59
    } else if month == 4 {
        90
    } else if month == 5 {
        120
    } else if month == 6 {
        151
    } else if month == 7 {
        181
    } else if month == 8 {
        212
    } else if month == 9 {
        243
    } else if month == 10 {
        273
    } else if month == 11 {
        304
    } else {
        334
    };
    if month >= 3 && spec_is_leap_year(year) {
        common + 1
    } else {
        common
    }
}

/// The number of leap years from the year 1 up to the year before `year`;
/// for a year before the year 1, minus the number of leap years from `year`
/// up to the year 0.
pub open spec fn spec_leap_years_before(year: int) -> int {
    (year - 1) / 4 - (year - 1) / 100 + (year - 1) / 400
}

/// The number of days from 1 January 1970 to the day given.
pub open spec fn spec_days_from_epoch(year: int, month: int, day: int) -> int {
    365 * (year - 1970) + spec_leap_years_before(year) - spec_leap_years_before(1970)
        + spec_days_before_month(year, month) + day - 1
}

/// The day of the week of the day given, in days since Monday. 1 January
/// 1970 was a Thursday.
pub open spec fn spec_weekday(year: int, month: int, day: int) -> int {
    (spec_days_from_epoch(year, month, day) + 3) % 7
}

impl DateFields {
    /// Every field lies in the range that a calendar gives it.
    pub open spec fn in_range(self) -> bool {
        &&& 1 <= self.month <= 12
        &&& 1 <= self.day <= 31
        &&& self.hour <= 23
        &&& self.minute <= 59
        &&& self.second <= 59
        &&& self.weekday <= 6
    }

    /// The seconds from 1970-01-01 00:00:00 to the date and time.
    pub open spec fn spec_timestamp(self) -> int {
        spec_days_from_epoch(self.year as int, self.month as int, self.day as int) * 86400
            + self.hour * 3600 + self.minute * 60 + self.second
    }

    /// The fields are those of a date and time of the calendar: the year is
    /// one of the calendar's, the month has the day, the time is a time of
    /// day, and the day of the week and the time stamp are those of the
    /// date and time.
    pub open spec fn is_calendar(self) -> bool {
        &&& self.in_range()
        &&& spec_min_year() <= self.year <= spec_max_year()
        &&& self.day <= spec_days_in_month(self.year as int, self.month as int)
        &&& self.weekday == spec_weekday(self.year as int, self.month as int, self.day as int)
        &&& self.timestamp == self.spec_timestamp()
    }

    /// Whether the fields are those of a date and time of the calendar.
    pub fn check_calendar(&self) -> (r: bool)
        ensures
            r == self.is_calendar(),
    {
        if !(1 <= self.month && self.month <= 12 && 1 <= self.day && self.day <= 31 && self.hour
            <= 23 && self.minute <= 59 && self.second <= 59 && self.weekday <= 6) {
            return false;
        }
        if self.year < -262143 || self.year > 262142 {
            return false;
        }
        if self.day > days_in_month(self.year, self.month) {
            return false;
        }
        let days = days_from_epoch(self.year, self.month, self.day);
        let timestamp: i64 = days * 86400 + self.hour as i64 * 3600 + self.minute as i64 * 60
            + self.second as i64;
        self.weekday == weekday_of(days) && self.timestamp == timestamp
    }
}

/// Whether `year` is a leap year.
pub fn is_leap_year(year: i32) -> (r: bool)
    ensures
        r == spec_is_leap_year(year as int),
{
    // 2400000000 years are a whole number of the calendar's cycles of 400
    // years, and more than any year lies before the year 0.
    let shifted: i64 = year as i64 + 2400000000;
    shifted % 4 == 0 && (shifted % 100 != 0 || shifted % 400 == 0)
}

/// The number of days of the month.
pub fn days_in_month(year: i32, month: u32) -> (r: u32)
    ensures
        r == spec_days_in_month(year as int, month as int),
{
    if month == 2 {
        if is_leap_year(year) {
            29
        } else {
            28
        }
    } else if month == 4 || month == 6 || month == 9 || month == 11 {
        30
    } else {
        31
    }
}

fn days_before_month(year: i32, month: u32) -> (r: i64)
    ensures
        r == spec_days_before_month(year as int, month as int),
        0 <= r <= 335,
{
    let common: i64 = if month <= 1 {
        0
    } else if month == 2 {
        31
    } else if month == 3 {
        59
    } else if month == 4 {
        90
    } else if month == 5 {
        120
    } else if month == 6 {
        151
    } else if month == 7 {
        181
    } else if month == 8 {
        212
    } else if month == 9 {
        243
    } else if month == 10 {
        273
    } else if month == 11 {
        304
    } else {
        334
    };
    if month >= 3 && is_leap_year(year) {
        common + 1
    } else {
        common
    }
}

fn leap_years_before(year: i32) -> (r: i64)
    requires
        spec_min_year() <= year <= spec_max_year(),
    ensures
        r == spec_leap_years_before(year as int),
        -70000 <= r <= 70000,
{
    // 400000 years are 1000 cycles of 400 years, each with 97 leap years.
    let last: i64 = year as i64 + 400000 - 1;
    let by_4: i64 = last / 4;
    let by_100: i64 = last / 100;
    let by_400: i64 = last / 400;
    proof {
        assert(by_4 == (year - 1) / 4 + 100000);
        assert(by_100 == (year - 1) / 100 + 4000);
        assert(by_400 == (year - 1) / 400 + 1000);
    }
    by_4 - by_100 + by_400 - 97000
}

fn days_from_epoch(year: i32, month: u32, day: u32) -> (r: i64)
    requires
        spec_min_year() <= year <= spec_max_year(),
        day <= 31,
    ensures
        r == spec_days_from_epoch(year as int, month as int, day as int),
        -100000000 <= r <= 100000000,
{
    proof {
        assert(spec_leap_years_before(1970) == 477);
    }
    365 * (year as i64 - 1970) + leap_years_before(year) - 477 + days_before_month(year, month)
        + day as i64 - 1
}

fn weekday_of(days: i64) -> (r: u32)
    requires
        -100000000 <= days <= 100000000,
    ensures
        r == (days + 3) % 7,
{
    // 140000000 is a multiple of 7 that makes the sum positive.
    ((days + 3 + 140000000) % 7) as u32
}

/// A date and time of the calendar: the month has the day, and the day of
/// the week and the time stamp are those of the date and time.
#[derive(Debug, Clone, Copy, PartialEq, Eq, Structural)]
pub struct DateTime {
    fields: DateFields,
}

impl View for DateTime {
    type V = DateFields;

    closed spec fn view(&self) -> DateFields {
        self.fields
    }
}

impl DateTime {
    #[verifier::type_invariant]
    spec fn fields_are_calendar(self) -> bool {
        self.fields.is_calendar()
    }

    /// The date and time with the fields given, where they are those of a
    /// date and time of the calendar.
    pub fn from_fields(fields: DateFields) -> (r: Option<DateTime>)
        ensures
            match r {
                Some(date) => fields.is_calendar() && date@ == fields,
                None => !fields.is_calendar(),
            },
    {
        if fields.check_calendar() {
            Some(DateTime { fields })
        } else {
            None
        }
    }

    /// All the fields at once.
    pub fn fields(&self) -> (r: DateFields)
        ensures
            r == self@,
            r.is_calendar(),
    {
        proof {
            use_type_invariant(self);
        }
        self.fields
    }

    pub fn year(&self) -> (r: i32)
        ensures
            r == self@.year,
            spec_min_year() <= r <= spec_max_year(),
    {
        proof {
            use_type_invariant(self);
        }
        self.fields.year
    }

    pub fn month(&self) -> (r: u32)
        ensures
            r == self@.month,
            1 <= r <= 12,
    {
        proof {
            use_type_invariant(self);
        }
        self.fields.month
    }

    pub fn day(&self) -> (r: u32)
        ensures
            r == self@.day,
            1 <= r <= 31,
    {
        proof {
            use_type_invariant(self);
        }
        self.fields.day
    }

    pub fn hour(&self) -> (r: u32)
        ensures
            r == self@.hour,
            r <= 23,
    {
        proof {
            use_type_invariant(self);
        }
        self.fields.hour
    }

    pub fn minute(&self) -> (r: u32)
        ensures
            r == self@.minute,
            r <= 59,
    {
        proof {
            use_type_invariant(self);
        }
        self.fields.minute
    }

    pub fn second(&self) -> (r: u32)
        ensures
            r == self@.second,
            r <= 59,
    {
        proof {
            use_type_invariant(self);
        }
        self.fields.second
    }

    pub fn weekday(&self) -> (r: u32)
        ensures
            r == self@.weekday,
            r <= 6,
    {
        proof {
            use_type_invariant(self);
        }
        self.fields.weekday
    }

    pub fn timestamp(&self) -> (r: i64)
        ensures
            r == self@.timestamp,
    {
        self.fields.timestamp
    }
}

/// What `chrono::NaiveDateTime::parse_from_str` reads from `text` under the
/// format `format`: the fields of the date and time, or `None` where it
/// reports an error.
pub uninterp spec fn chrono_parsed(text: Seq<char>, format: Seq<char>) -> Option<DateFields>;

/// Calls `chrono::NaiveDateTime::parse_from_str` and reads the fields of
/// what it returns with chrono's own getters; the time stamp is that of
/// `and_utc().timestamp()`. Nothing is claimed of the values but that they
/// depend on the two texts alone.
#[verifier::external_body]
fn parse_with_format(text: &str, format: &str) -> (r: Option<DateFields>)
    ensures
        r == chrono_parsed(text@, format@),
{
    match chrono::NaiveDateTime::parse_from_str(text, format) {
        Ok(d) => Some(
            DateFields {
                year: d.year(),
                month: d.month(),
                day: d.day(),
                hour: d.hour(),
                minute: d.minute(),
                second: d.second(),
                weekday: d.weekday().num_days_from_monday(),
                timestamp: d.and_utc().timestamp(),
            },
        ),
        Err(_) => None,
    }
}

/// The format of a tracker date, in chrono's notation.
pub open spec fn tracker_date_format() -> Seq<char> {
    "%d/%b/%y %I:%M %p"@
}

pub open spec fn spec_is_digit(c: char) -> bool {
    '0' <= c <= '9'
}

pub open spec fn spec_is_upper(c: char) -> bool {
    'A' <= c <= 'Z'
}

pub open spec fn spec_is_lower(c: char) -> bool {
    'a' <= c <= 'z'
}

/// The shape of a tracker date, `dd/Mon/yy hh:mm AM` or `dd/Mon/yy hh:mm PM`:
/// eighteen characters, with digits, letters and separators each in its
/// place.
pub open spec fn tracker_date_shape(s: Seq<char>) -> bool {
    &&& s.len() == 18
    &&& spec_is_digit(s[0])
    &&& spec_is_digit(s[1])
    &&& s[2] == '/'
    &&& spec_is_upper(s[3])
    &&& spec_is_lower(s[4])
    &&& spec_is_lower(s[5])
    &&& s[6] == '/'
    &&& spec_is_digit(s[7])
    &&& spec_is_digit(s[8])
    &&& s[9] == ' '
    &&& spec_is_digit(s[10])
    &&& spec_is_digit(s[11])
    &&& s[12] == ':'
    &&& spec_is_digit(s[13])
    &&& spec_is_digit(s[14])
    &&& s[15] == ' '
    &&& (s[16] == 'A' || s[16] == 'P')
    &&& s[17] == 'M'
}

fn is_digit(c: char) -> (r: bool)
    ensures
        r == spec_is_digit(c),
{
    '0' <= c && c <= '9'
}

fn is_upper(c: char) -> (r: bool)
    ensures
        r == spec_is_upper(c),
{
    'A' <= c && c <= 'Z'
}

fn is_lower(c: char) -> (r: bool)
    ensures
        r == spec_is_lower(c),
{
    'a' <= c && c <= 'z'
}

/// Whether `text` has the shape of a tracker date.
pub fn has_tracker_date_shape(text: &str) -> (r: bool)
    ensures
        r == tracker_date_shape(text@),
{
    if text.unicode_len() != 18 {
        return false;
    }
    let s = chars_of(text);
    s.len() == 18 && is_digit(s[0]) && is_digit(s[1]) && s[2] == '/' && is_upper(s[3])
        && is_lower(s[4]) && is_lower(s[5]) && s[6] == '/' && is_digit(s[7]) && is_digit(s[8])
        && s[9] == ' ' && is_digit(s[10]) && is_digit(s[11]) && s[12] == ':' && is_digit(s[13])
        && is_digit(s[14]) && s[15] == ' ' && (s[16] == 'A' || s[16] == 'P') && s[17] == 'M'
}

/// The fields of the tracker date `text`, given what chrono read from it:
/// `None` where the text has not the shape of a tracker date, where chrono
/// read nothing, or where what it read is no date and time of the calendar.
pub open spec fn spec_tracker_date(text: Seq<char>, parsed: Option<DateFields>) -> Option<
    DateFields,
> {
    if tracker_date_shape(text) && parsed is Some && parsed->0.is_calendar() {
        parsed
    } else {
        None
    }
}

/// The tracker date `text`, given what chrono read from it.
pub fn tracker_date_from(text: &str, parsed: Option<DateFields>) -> (r: Result<
    DateTime,
    ReportError,
>)
    ensures
        match r {
            Ok(d) => spec_tracker_date(text@, parsed) == Some(d@),
            Err(e) => spec_tracker_date(text@, parsed) is None && e == ReportError(
                ReportErrorReason::BadDate,
            ),
        },
{
    if !has_tracker_date_shape(text) {
        return Err(ReportError(ReportErrorReason::BadDate));
    }
    match parsed {
        Some(fields) => match DateTime::from_fields(fields) {
            Some(d) => Ok(d),
            None => Err(ReportError(ReportErrorReason::BadDate)),
        },
        None => Err(ReportError(ReportErrorReason::BadDate)),
    }
}

/// Reads a tracker date such as `03/Jan/18 10:48 AM`. Any text of another
/// shape, and any that names no date and time, is a `BadDate`.
pub fn parse_tracker_date(text: &str) -> (r: Result<DateTime, ReportError>)
    ensures
        match r {
            Ok(d) => spec_tracker_date(text@, chrono_parsed(text@, tracker_date_format()))
                == Some(d@),
            Err(e) => spec_tracker_date(text@, chrono_parsed(text@, tracker_date_format()))
                is None && e == ReportError(ReportErrorReason::BadDate),
        },
        !tracker_date_shape(text@) ==> r is Err,
{
    let parsed = parse_with_format(text, "%d/%b/%y %I:%M %p");
    tracker_date_from(text, parsed)
}

/// The ending of the ordinal of `day`: `th` where the tens digit is 1, else
/// `st`, `nd` or `rd` after a last digit of 1, 2 or 3, and `th` after any
/// other.
pub open spec fn spec_ordinal_suffix(day: int) -> Seq<char> {
    if (day / 10) % 10 == 1 {
        seq!['t', 'h']
    } else if day % 10 == 1 {
        seq!['s', 't']
    } else if day % 10 == 2 {
        seq!['n', 'd']
    } else if day % 10 == 3 {
        seq!['r', 'd']
    } else {
        seq!['t', 'h']
    }
}

/// The ending of the ordinal of `day`.
pub fn ordinal_suffix(day: u32) -> (r: &'static str)
    ensures
        r@ == spec_ordinal_suffix(day as int),
{
    proof {
        reveal_strlit("th");
        reveal_strlit("st");
        reveal_strlit("nd");
        reveal_strlit("rd");
    }
    let last: u32 = day % 10;
    let r = if (day / 10) % 10 == 1 {
        "th"
    } else if last == 1 {
        "st"
    } else if last == 2 {
        "nd"
    } else if last == 3 {
        "rd"
    } else {
        "th"
    };
    proof {
        assert(r@ =~= spec_ordinal_suffix(day as int));
    }
    r
}

/// On the days of a month the endings are: `st` for 1, 21 and 31; `nd` for 2
/// and 22; `rd` for 3 and 23; `th` for every other day, 11, 12 and 13 among
/// them.
pub proof fn lemma_ordinal_suffix_of_month_days(day: int)
    requires
        1 <= day <= 31,
    ensures
        (day == 1 || day == 21 || day == 31) ==> spec_ordinal_suffix(day) == seq!['s', 't'],
        (day == 2 || day == 22) ==> spec_ordinal_suffix(day) == seq!['n', 'd'],
        (day == 3 || day == 23) ==> spec_ordinal_suffix(day) == seq!['r', 'd'],
        !(day == 1 || day == 21 || day == 31 || day == 2 || day == 22 || day == 3 || day == 23)
            ==> spec_ordinal_suffix(day) == seq!['t', 'h'],
{
}

/// The ordinal of `day`: its number and its ending, as in `3rd`.
pub open spec fn spec_ordinal(day: int) -> Seq<char> {
    spec_decimal(day) + spec_ordinal_suffix(day)
}

/// The ordinal of the day of the month of `date`, as in `3rd`.
pub fn ordinal(date: &DateTime) -> (r: String)
    ensures
        r@ == spec_ordinal(date@.day as int),
{
    let day = date.day();
    let mut out = String::new();
    append_decimal(&mut out, day as i128);
    out.append(ordinal_suffix(day));
    proof {
        assert(out@ =~= spec_ordinal(day as int));
    }
    out
}

/// The English name of the day of the week, counted from Monday as 0.
pub open spec fn spec_weekday_name(weekday: int) -> Seq<char> {
    if weekday == 0 {
        "Monday"@
    } else if weekday == 1 {
        "Tuesday"@
    } else if weekday == 2 {
        "Wednesday"@
    } else if weekday == 3 {
        "Thursday"@
    } else if weekday == 4 {
        "Friday"@
    } else if weekday == 5 {
        "Saturday"@
    } else {
        "Sunday"@
    }
}

/// The English name of the day of the week, counted from Monday as 0.
pub fn weekday_name(weekday: u32) -> (r: &'static str)
    ensures
        r@ == spec_weekday_name(weekday as int),
{
    if weekday == 0 {
        "Monday"
    } else if weekday == 1 {
        "Tuesday"
    } else if weekday == 2 {
        "Wednesday"
    } else if weekday == 3 {
        "Thursday"
    } else if weekday == 4 {
        "Friday"
    } else if weekday == 5 {
        "Saturday"
    } else {
        "Sunday"
    }
}

/// The English name of the month, counted from January as 1.
pub open spec fn spec_month_name(month: int) -> Seq<char> {
    if month == 1 {
        "January"@
    } else if month == 2 {
        "February"@
    } else if month == 3 {
        "March"@
    } else if month == 4 {
        "April"@
    } else if month == 5 {
        "May"@
    } else if month == 6 {
        "June"@
    } else if month == 7 {
        "July"@
    } else if month == 8 {
        "August"@
    } else if month == 9 {
        "September"@
    } else if month == 10 {
        "October"@
    } else if month == 11 {
        "November"@
    } else {
        "December"@
    }
}

/// The English name of the month, counted from January as 1.
pub fn month_name(month: u32) -> (r: &'static str)
    ensures
        r@ == spec_month_name(month as int),
{
    if month == 1 {
        "January"
    } else if month == 2 {
        "February"
    } else if month == 3 {
        "March"
    } else if month == 4 {
        "April"
    } else if month == 5 {
        "May"
    } else if month == 6 {
        "June"
    } else if month == 7 {
        "July"
    } else if month == 8 {
        "August"
    } else if month == 9 {
        "September"
    } else if month == 10 {
        "October"
    } else if month == 11 {
        "November"
    } else {
        "December"
    }
}

/// The decimal digits of `n`, with zeros in front of fewer than four.
pub open spec fn spec_four_digits(n: nat) -> Seq<char> {
    if n < 10 {
        seq!['0', '0', '0'] + spec_decimal_nat(n)
    } else if n < 100 {
        seq!['0', '0'] + spec_decimal_nat(n)
    } else if n < 1000 {
        seq!['0'] + spec_decimal_nat(n)
    } else {
        spec_decimal_nat(n)
    }
}

/// The year as chrono's `%Y` writes it: four digits from 0 to 9999, and a
/// sign before at least four digits outside of that.
pub open spec fn spec_year_text(year: int) -> Seq<char> {
    if 0 <= year <= 9999 {
        spec_four_digits(year as nat)
    } else if year < 0 {
        seq!['-'] + spec_four_digits((-year) as nat)
    } else {
        seq!['+'] + spec_four_digits(year as nat)
    }
}

/// Appends the year to `out`.
pub fn append_year(out: &mut String, year: i32)
    ensures
        final(out)@ == old(out)@ + spec_year_text(year as int),
{
    proof {
        reveal_strlit("-");
        reveal_strlit("+");
        reveal_strlit("0");
        reveal_strlit("00");
        reveal_strlit("000");
    }
    if year < 0 {
        out.append("-");
    } else if year > 9999 {
        out.append("+");
    }
    let n: u128 = magnitude(year as i128);
    if n < 10 {
        out.append("000");
    } else if n < 100 {
        out.append("00");
    } else if n < 1000 {
        out.append("0");
    }
    append_decimal_nat(out, n);
    proof {
        assert("-"@ =~= seq!['-']);
        assert("+"@ =~= seq!['+']);
        assert("0"@ =~= seq!['0']);
        assert("00"@ =~= seq!['0', '0']);
        assert("000"@ =~= seq!['0', '0', '0']);
        assert(out@ =~= old(out)@ + spec_year_text(year as int));
    }
}

/// A date for a reader: the day of the week, the month, the ordinal of the
/// day and the year, as in `Wednesday, January 3rd, 2018`.
pub open spec fn spec_pretty_date(date: DateFields) -> Seq<char> {
    spec_weekday_name(date.weekday as int) + ", "@ + spec_month_name(date.month as int) + " "@
        + spec_ordinal(date.day as int) + ", "@ + spec_year_text(date.year as int)
}

/// Two dates and times on the same day of the calendar read the same.
pub proof fn lemma_pretty_date_goes_by_the_day(first: DateFields, second: DateFields)
    requires
        first.is_calendar(),
        second.is_calendar(),
        first.year == second.year,
        first.month == second.month,
        first.day == second.day,
    ensures
        spec_pretty_date(first) == spec_pretty_date(second),
{
}

/// Appends `date`, written for a reader, to `out`.
pub fn append_pretty_date(out: &mut String, date: &DateTime)
    ensures
        final(out)@ == old(out)@ + spec_pretty_date(date@),
{
    let day = date.day();
    out.append(weekday_name(date.weekday()));
    out.append(", ");
    out.append(month_name(date.month()));
    out.append(" ");
    append_decimal(out, day as i128);
    out.append(ordinal_suffix(day));
    out.append(", ");
    append_year(out, date.year());
    proof {
        assert(out@ =~= old(out)@ + spec_pretty_date(date@));
    }
}

/// `date` written for a reader, as in `Wednesday, January 3rd, 2018`.
pub fn pretty_date(date: &DateTime) -> (r: String)
    ensures
        r@ == spec_pretty_date(date@),
{
    let mut out = String::new();
    append_pretty_date(&mut out, date);
    proof {
        assert(out@ =~= spec_pretty_date(date@));
    }
    out
}

/// The whole days from the time stamp `from` to the time stamp `to`, rounded
/// toward zero; negative where `to` is the earlier one.
pub open spec fn spec_days_between(from: int, to: int) -> int {
    if to >= from {
        (to - from) / 86400
    } else {
        -((from - to) / 86400)
    }
}

/// The whole days from the time stamp `from` to the time stamp `to`.
pub fn days_between(from: i64, to: i64) -> (days: i64)
    ensures
        days == spec_days_between(from as int, to as int),
{
    let span: i128 = to as i128 - from as i128;
    (span / 86400) as i64
}

} // verus!
