//! Days and instants of the UTC calendar, by way of `chrono`.

use vstd::prelude::*;

use crate::text;
use crate::text::digit_of;

verus! {

/// A day of the proleptic Gregorian calendar.
#[derive(Clone, Copy, Debug, PartialEq, Eq, Structural)]
pub struct CivilDate {
    pub year: i32,
    pub month: u32,
    pub day: u32,
}

pub open spec fn is_leap(year: int) -> bool {
    year % 4 == 0 && (year % 100 != 0 || year % 400 == 0)
}

/// The number of days of a month.
pub open spec fn days_in_month(year: int, month: int) -> int {
    if month == 2 {
        if is_leap(year) {
            29
        } else {
            28
        }
    } else if month == 4 || month == 6 || month == 9 || month == 11 {
        30
    } else {
        31
    }
}

/// The number of days of the year before a month.
pub open spec fn days_before_month(year: int, month: int) -> int
    decreases month,
{
    if month <= 1 {
        0
    } else {
        days_before_month(year, month - 1) + days_in_month(year, month - 1)
    }
}

/// The number of leap years up to and with a year, from year 1 on; negative before it.
pub open spec fn leap_years_through(year: int) -> int {
    year / 4 - year / 100 + year / 400
}

/// The number of days from 1970-01-01 to the first day of a year.
pub open spec fn days_to_year(year: int) -> int {
    365 * (year - 1970) + leap_years_through(year - 1) - leap_years_through(1969)
}

impl CivilDate {
    /// The day exists, and lies in the years that `chrono` represents.
    pub open spec fn valid(self) -> bool {
        &&& -262143 <= self.year <= 262142
        &&& 1 <= self.month <= 12
        &&& 1 <= self.day <= days_in_month(self.year as int, self.month as int)
    }

    /// The number of days from 1970-01-01 to the day.
    pub open spec fn number(self) -> int {
        days_to_year(self.year as int) + days_before_month(self.year as int, self.month as int)
            + self.day - 1
    }

    /// The day as `yy-mm-dd`.
    pub open spec fn label(self) -> Seq<char> {
        text::padded((self.year as int % 100) as nat, 2) + "-"@ + text::padded(self.month as nat, 2) + "-"@
            + text::padded(self.day as nat, 2)
    }

    /// The day as `yyyy-mm-dd`, with a sign before a year that does not have four digits.
    pub open spec fn iso(self) -> Seq<char> {
        year_text(self.year as int) + "-"@ + text::padded(self.month as nat, 2) + "-"@ + text::padded(
            self.day as nat,
            2,
        )
    }
}

/// A year in at least four digits, with a sign where it is none from 0 to 9999.
pub open spec fn year_text(year: int) -> Seq<char> {
    if 0 <= year <= 9999 {
        text::padded(year as nat, 4)
    } else if year < 0 {
        "-"@ + text::padded((-year) as nat, 4)
    } else {
        "+"@ + text::padded(year as nat, 4)
    }
}

/// The days that `chrono` represents, by their number.
pub open spec fn day_in_range(number: int) -> bool {
    -96465292 <= number <= 95026236
}

/// The day of an instant given in milliseconds since 1970-01-01.
pub open spec fn day_of(mts: int) -> int {
    mts / 86_400_000
}

/// The day with a number.
pub open spec fn civil_date(number: int) -> CivilDate {
    choose|date: CivilDate| #[trigger] date.valid() && date.number() == number
}

/// An instant as `yyyy-mm-ddThh:mm:ss`, without a zone.
pub open spec fn clock_text(mts: int) -> Seq<char> {
    let millis = mts % 86_400_000;
    civil_date(day_of(mts)).iso() + "T"@ + text::padded((millis / 3_600_000) as nat, 2) + ":"@ + text::padded(
        (millis / 60_000 % 60) as nat,
        2,
    ) + ":"@ + text::padded((millis / 1000 % 60) as nat, 2)
}

/// An instant with its milliseconds, as RFC 3339 writes it for UTC.
pub open spec fn millis_text(mts: int) -> Seq<char> {
    clock_text(mts) + "."@ + text::padded((mts % 1000) as nat, 3) + "Z"@
}

/// An instant in whole seconds, as RFC 3339 writes it for UTC.
pub open spec fn secs_text(mts: int) -> Seq<char> {
    clock_text(mts) + "Z"@
}

/// The instant of an RFC 3339 text that `chrono` reads, in milliseconds, or its error's text.
pub uninterp spec fn parsed_rfc3339(value: Seq<char>) -> Result<i64, Seq<char>>;

/// Year, month and day that `chrono` reads of a text in the form `%Y-%m-%d`, or its error's text.
pub uninterp spec fn parsed_day(value: Seq<char>) -> Result<(i32, u32, u32), Seq<char>>;

/// `DateTime::from_timestamp_millis` and `date_naive`: the UTC day of an instant. There is one
/// where the day lies in the years that `chrono` represents.
#[verifier::external_body]
fn utc_day(mts: i64) -> (date: Option<CivilDate>)
    ensures
        date is Some <==> day_in_range(day_of(mts as int)),
        date is Some ==> date->Some_0.valid() && date->Some_0.number() == day_of(mts as int),
{
    let date = chrono::DateTime::from_timestamp_millis(mts)?.date_naive();
    Some(CivilDate {
        year: chrono::Datelike::year(&date),
        month: chrono::Datelike::month(&date),
        day: chrono::Datelike::day(&date),
    })
}

/// `DateTime::to_rfc3339_opts` with milliseconds and `Z`: the instant as text. There is one where
/// `chrono` represents the instant; it names the UTC day and the time of day.
#[verifier::external_body]
fn utc_millis_text(mts: i64) -> (r: Option<String>)
    ensures
        r is Some <==> day_in_range(day_of(mts as int)),
        r is Some ==> r->Some_0@ == millis_text(mts as int),
{
    let instant = chrono::DateTime::from_timestamp_millis(mts)?;
    Some(instant.to_rfc3339_opts(chrono::SecondsFormat::Millis, true))
}

/// `DateTime::to_rfc3339_opts` with whole seconds and `Z`: the instant as text, as
/// [`utc_millis_text`] but without the fraction.
#[verifier::external_body]
fn utc_secs_text(mts: i64) -> (r: Option<String>)
    ensures
        r is Some <==> day_in_range(day_of(mts as int)),
        r is Some ==> r->Some_0@ == secs_text(mts as int),
{
    let instant = chrono::DateTime::from_timestamp_millis(mts)?;
    Some(instant.to_rfc3339_opts(chrono::SecondsFormat::Secs, true))
}

/// `NaiveDate::format` with `%y-%m-%d`: the last two digits of the year, month and day.
#[verifier::external_body]
fn day_label(date: CivilDate) -> (r: Option<String>)
    requires
        date.valid(),
    ensures
        r is Some && r->Some_0@ == date.label(),
{
    let day = chrono::NaiveDate::from_ymd_opt(date.year, date.month, date.day)?;
    Some(day.format("%y-%m-%d").to_string())
}

/// `Display` of `NaiveDate`: year, month and day.
#[verifier::external_body]
fn day_text(date: CivilDate) -> (r: Option<String>)
    requires
        date.valid(),
    ensures
        r is Some && r->Some_0@ == date.iso(),
{
    let day = chrono::NaiveDate::from_ymd_opt(date.year, date.month, date.day)?;
    Some(day.to_string())
}

/// `DateTime::parse_from_rfc3339` and `timestamp_millis`, with the error as text.
#[verifier::external_body]
fn rfc3339_millis(value: &str) -> (r: Result<i64, String>)
    ensures
        match r {
            Ok(mts) => parsed_rfc3339(value@) == Ok::<i64, Seq<char>>(mts),
            Err(error) => parsed_rfc3339(value@) == Err::<i64, Seq<char>>(error@),
        },
{
    let parsed = chrono::DateTime::parse_from_rfc3339(value);
    parsed.map(|instant| instant.timestamp_millis()).map_err(|error| error.to_string())
}

/// `NaiveDate::parse_from_str` with `%Y-%m-%d`, with the error as text. A day that it gives is one
/// that exists.
#[verifier::external_body]
fn day_from_text(value: &str) -> (r: Result<CivilDate, String>)
    ensures
        match r {
            Ok(date) => date.valid() && parsed_day(value@) == Ok::<(i32, u32, u32), Seq<char>>(
                (date.year, date.month, date.day),
            ),
            Err(error) => parsed_day(value@) == Err::<(i32, u32, u32), Seq<char>>(error@),
        },
{
    let parsed = chrono::NaiveDate::parse_from_str(value, "%Y-%m-%d");
    let date = parsed.map_err(|error| error.to_string())?;
    Ok(CivilDate {
        year: chrono::Datelike::year(&date),
        month: chrono::Datelike::month(&date),
        day: chrono::Datelike::day(&date),
    })
}

/// A later year begins at least as many years of 365 days later.
proof fn lemma_years_apart(earlier: int, later: int)
    requires
        earlier <= later,
    ensures
        days_to_year(later) >= days_to_year(earlier) + 365 * (later - earlier),
    decreases later - earlier,
{
    if earlier < later {
        lemma_years_apart(earlier, later - 1);
        lemma_year_length(later - 1);
    }
}

/// A year has 365 days, a leap year one more.
proof fn lemma_year_length(year: int)
    ensures
        days_to_year(year + 1) - days_to_year(year) == if is_leap(year) {
            366int
        } else {
            365int
        },
        days_before_month(year, 13) == days_to_year(year + 1) - days_to_year(year),
{
    reveal_with_fuel(days_before_month, 14);
}

/// The first day of the next year comes right behind the last day of a year.
pub proof fn years_follow_each_other(year: int)
    ensures
        days_before_month(year, 13) == days_to_year(year + 1) - days_to_year(year),
{
    lemma_year_length(year);
}

/// A later month begins behind the end of an earlier one.
proof fn lemma_months_apart(year: int, earlier: int, later: int)
    requires
        1 <= earlier < later,
    ensures
        days_before_month(year, later) >= days_before_month(year, earlier) + days_in_month(
            year,
            earlier,
        ),
    decreases later - earlier,
{
    if earlier + 1 < later {
        lemma_months_apart(year, earlier, later - 1);
    }
}

/// An earlier day has the smaller number.
proof fn lemma_earlier_day(a: CivilDate, b: CivilDate)
    requires
        a.valid(),
        b.valid(),
        a.year < b.year || (a.year == b.year && (a.month < b.month || (a.month == b.month
            && a.day < b.day))),
    ensures
        a.number() < b.number(),
{
    if a.year < b.year {
        lemma_year_length(a.year as int);
        lemma_years_apart(a.year + 1, b.year as int);
        lemma_months_apart(a.year as int, a.month as int, 13);
        if b.month > 1 {
            lemma_months_apart(b.year as int, 1, b.month as int);
        }
    } else if a.month < b.month {
        lemma_months_apart(a.year as int, a.month as int, b.month as int);
    }
}

/// No two days have the same number.
pub proof fn day_numbers_are_unique(a: CivilDate, b: CivilDate)
    requires
        a.valid(),
        b.valid(),
        a.number() == b.number(),
    ensures
        a == b,
{
    if a.year < b.year || (a.year == b.year && (a.month < b.month || (a.month == b.month && a.day
        < b.day))) {
        lemma_earlier_day(a, b);
    } else if a != b {
        lemma_earlier_day(b, a);
    }
}

/// The valid days are those with a number in range.
pub proof fn valid_days_are_in_range(date: CivilDate)
    requires
        date.valid(),
    ensures
        day_in_range(date.number()),
{
    let first = CivilDate { year: -262143i32 as i32, month: 1, day: 1 };
    let last = CivilDate { year: 262142, month: 12, day: 31 };
    reveal_with_fuel(days_before_month, 13);
    if date != first {
        lemma_earlier_day(first, date);
    }
    if date != last {
        lemma_earlier_day(date, last);
    }
}

/// An instant that `chrono` represents.
#[derive(Clone, Copy, Debug)]
pub struct UtcTime {
    mts: i64,
}

impl UtcTime {
    #[verifier::type_invariant]
    spec fn well_formed(self) -> bool {
        day_in_range(day_of(self.mts as int))
    }

    /// The milliseconds since 1970-01-01.
    pub closed spec fn millis(self) -> i64 {
        self.mts
    }

    /// The instant so many milliseconds after 1970-01-01, where it can be represented.
    pub fn from_timestamp_millis(mts: i64) -> (r: Option<UtcTime>)
        ensures
            r is Some <==> day_in_range(day_of(mts as int)),
            r is Some ==> r->Some_0.millis() == mts,
    {
        match utc_day(mts) {
            Some(_) => Some(UtcTime { mts }),
            None => None,
        }
    }

    /// The milliseconds since 1970-01-01.
    pub fn timestamp_millis(&self) -> (mts: i64)
        ensures
            mts == self.millis(),
    {
        self.mts
    }

    /// The UTC day.
    pub fn date(&self) -> (date: CivilDate)
        ensures
            date.valid(),
            date.number() == day_of(self.millis() as int),
            date == civil_date(day_of(self.millis() as int)),
    {
        proof {
            use_type_invariant(self);
        }
        let date = utc_day(self.mts).unwrap();
        proof {
            let chosen = civil_date(day_of(self.mts as int));
            assert(date.valid());
            day_numbers_are_unique(date, chosen);
        }
        date
    }

    /// The instant with its milliseconds.
    pub fn millis_text(&self) -> (r: String)
        ensures
            r@ == millis_text(self.millis() as int),
    {
        proof {
            use_type_invariant(self);
        }
        utc_millis_text(self.mts).unwrap()
    }

    /// The instant in whole seconds.
    pub fn secs_text(&self) -> (r: String)
        ensures
            r@ == secs_text(self.millis() as int),
    {
        proof {
            use_type_invariant(self);
        }
        utc_secs_text(self.mts).unwrap()
    }
}

/// The day as `yy-mm-dd`, as file names hold it.
pub fn date_label(date: CivilDate) -> (r: String)
    requires
        date.valid(),
    ensures
        r@ == date.label(),
{
    day_label(date).unwrap()
}

/// The day as `yyyy-mm-dd`.
pub fn date_text(date: CivilDate) -> (r: String)
    requires
        date.valid(),
    ensures
        r@ == date.iso(),
{
    day_text(date).unwrap()
}

/// Every character is a digit.
pub open spec fn all_digits(value: Seq<char>) -> bool {
    forall|i: int| 0 <= i < value.len() ==> text::is_digit(#[trigger] value[i])
}

fn has_only_digits(value: &str) -> (yes: bool)
    ensures
        yes == all_digits(value@),
{
    let chars = text::text_chars(value);
    let mut i: usize = 0;
    while i < chars.len()
        invariant
            i <= chars@.len(),
            chars@ == value@,
            forall|j: int| 0 <= j < i ==> text::is_digit(#[trigger] chars@[j]),
        decreases chars@.len() - i,
    {
        if !digit_of(chars[i]) {
            return false;
        }
        i = i + 1;
    }
    true
}

/// What the result of reading an instant as digits means.
pub open spec fn mts_from_digits(value: Seq<char>) -> Result<i64, Seq<char>> {
    match text::parsed_int(value, i64::MIN as int, i64::MAX as int) {
        Ok(mts) => Ok(mts as i64),
        Err(error) => Err("invalid Unix millisecond timestamp: "@ + error.text()),
    }
}

/// What the result of reading an instant as RFC 3339 means.
pub open spec fn mts_from_rfc3339(parsed: Result<i64, Seq<char>>) -> Result<i64, Seq<char>> {
    match parsed {
        Ok(mts) => Ok(mts),
        Err(error) => Err("expected Unix milliseconds or RFC3339 timestamp: "@ + error),
    }
}

/// Reads an instant: Unix milliseconds where there are only digits, else RFC 3339.
pub fn parse_mts(value: &str) -> (r: Result<i64, String>)
    ensures
        text::error_text(r) == if all_digits(value@) {
            mts_from_digits(value@)
        } else {
            mts_from_rfc3339(parsed_rfc3339(value@))
        },
{
    if has_only_digits(value) {
        return match text::parse_i64_text(value) {
            Ok(mts) => Ok(mts),
            Err(error) => {
                let mut report = "invalid Unix millisecond timestamp: ".to_owned();
                report.append(error.message().as_str());
                Err(report)
            },
        };
    }
    read_rfc3339(rfc3339_millis(value))
}

/// What the result of reading an instant as RFC 3339 means.
pub fn read_rfc3339(parsed: Result<i64, String>) -> (r: Result<i64, String>)
    ensures
        text::error_text(r) == mts_from_rfc3339(text::error_text(parsed)),
{
    match parsed {
        Ok(mts) => Ok(mts),
        Err(error) => {
            let mut report = "expected Unix milliseconds or RFC3339 timestamp: ".to_owned();
            report.append(error.as_str());
            Err(report)
        },
    }
}

/// What the result of reading a day means.
pub open spec fn date_from_parsed(parsed: Result<(i32, u32, u32), Seq<char>>) -> Result<
    CivilDate,
    Seq<char>,
> {
    match parsed {
        Ok((year, month, day)) => Ok(CivilDate { year, month, day }),
        Err(error) => Err("expected YYYY-MM-DD date: "@ + error),
    }
}

/// Reads a day in the form `yyyy-mm-dd`.
pub fn parse_date(value: &str) -> (r: Result<CivilDate, String>)
    ensures
        text::error_text(r) == date_from_parsed(parsed_day(value@)),
        r is Ok ==> r->Ok_0.valid(),
{
    match day_from_text(value) {
        Ok(date) => Ok(date),
        Err(error) => {
            let mut report = "expected YYYY-MM-DD date: ".to_owned();
            report.append(error.as_str());
            Err(report)
        },
    }
}

} // verus!
