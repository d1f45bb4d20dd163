//! Days and instants: the calendar is that of UTC, and texts write what they stand for.

use vstd::prelude::*;

use crate::calendar::CivilDate;
use crate::calendar::UtcTime;
use crate::calendar::date_label;
use crate::calendar::date_text;
use crate::calendar::parse_date;
use crate::calendar::parse_mts;
use crate::calendar;
use crate::text::IntError;
use crate::text;

verus! {

/// The digits from `from` up to `to` write the number.
pub open spec fn digits_at(s: Seq<char>, from: int, to: int, n: int) -> bool {
    0 <= from < to <= s.len() && text::parsed_int(s.subrange(from, to), 0, 9999) == Ok::<
        int,
        IntError,
    >(n)
}

/// The day of an instant is the one whose 24 hours hold it.
pub proof fn instants_lie_in_their_day(instant: &UtcTime, date: CivilDate)
    requires
        call_ensures(UtcTime::date, (instant,), date),
    ensures
        date.valid(),
        date.number() * 86_400_000 <= instant.millis() < (date.number() + 1) * 86_400_000,
{
}

/// Days are counted one by one from the first day of 1970: the day behind the last day of a month is
/// the first of the next month, and behind the last day of a year comes the new year's first.
pub proof fn days_are_counted_one_by_one(a: CivilDate, b: CivilDate)
    requires
        a.valid(),
        b.valid(),
    ensures
        a.year == 1970 && a.month == 1 && a.day == 1 ==> a.number() == 0,
        b.year == a.year && b.month == a.month && b.day == a.day + 1 ==> b.number() == a.number()
            + 1,
        b.year == a.year && b.month == a.month + 1 && b.day == 1 && a.day == (if a.month == 2 {
            if a.year as int % 4 == 0 && (a.year as int % 100 != 0 || a.year as int % 400 == 0) {
                29int
            } else {
                28
            }
        } else if a.month == 4 || a.month == 6 || a.month == 9 || a.month == 11 {
            30
        } else {
            31
        }) ==> b.number() == a.number() + 1,
        b.year == a.year + 1 && a.month == 12 && a.day == 31 && b.month == 1 && b.day == 1
            ==> b.number() == a.number() + 1,
{
    reveal_with_fuel(calendar::days_before_month, 14);
    calendar::years_follow_each_other(a.year as int);
}

/// An instant keeps its milliseconds, and is refused only where the calendar has no day for it.
pub proof fn instants_keep_their_milliseconds(
    mts: i64,
    instant: Option<UtcTime>,
    back: i64,
)
    requires
        call_ensures(UtcTime::from_timestamp_millis, (mts,), instant),
        instant is Some ==> call_ensures(
            UtcTime::timestamp_millis,
            (&instant->Some_0,),
            back,
        ),
    ensures
        instant is Some ==> back == mts,
        -8_000_000_000_000_000 <= mts <= 8_000_000_000_000_000 ==> instant is Some,
{
}

/// The label of a day writes the last two digits of its year, its month and its day.
pub proof fn labels_write_their_day(date: CivilDate, label: String)
    requires
        date.valid(),
        call_ensures(date_label, (date,), label),
    ensures
        label@.len() == 8,
        label@[2] == '-' && label@[5] == '-',
        digits_at(label@, 0, 2, date.year as int % 100),
        digits_at(label@, 3, 5, date.month as int),
        digits_at(label@, 6, 8, date.day as int),
{
    reveal_strlit("-");
    let year = (date.year as int % 100) as nat;
    text::two_digits(year);
    text::two_digits(date.month as nat);
    text::two_digits(date.day as nat);
    text::padded_numbers_are_read_back(year, 2, 9999);
    text::padded_numbers_are_read_back(date.month as nat, 2, 9999);
    text::padded_numbers_are_read_back(date.day as nat, 2, 9999);
    assert(label@.subrange(0, 2) =~= text::padded(year, 2));
    assert(label@.subrange(3, 5) =~= text::padded(date.month as nat, 2));
    assert(label@.subrange(6, 8) =~= text::padded(date.day as nat, 2));
}

/// The text of a day of our time writes its year, its month and its day.
pub proof fn day_texts_write_their_day(date: CivilDate, words: String)
    requires
        date.valid(),
        1000 <= date.year <= 9999,
        call_ensures(date_text, (date,), words),
    ensures
        words@.len() == 10,
        words@[4] == '-' && words@[7] == '-',
        digits_at(words@, 0, 4, date.year as int),
        digits_at(words@, 5, 7, date.month as int),
        digits_at(words@, 8, 10, date.day as int),
{
    lemma_iso(date);
}

proof fn lemma_iso(date: CivilDate)
    requires
        date.valid(),
        1000 <= date.year <= 9999,
    ensures
        date.iso().len() == 10,
        date.iso()[4] == '-' && date.iso()[7] == '-',
        digits_at(date.iso(), 0, 4, date.year as int),
        digits_at(date.iso(), 5, 7, date.month as int),
        digits_at(date.iso(), 8, 10, date.day as int),
{
    reveal_strlit("-");
    let year = date.year as nat;
    text::four_digits(year);
    text::two_digits(date.month as nat);
    text::two_digits(date.day as nat);
    text::padded_numbers_are_read_back(year, 4, 9999);
    text::padded_numbers_are_read_back(date.month as nat, 2, 9999);
    text::padded_numbers_are_read_back(date.day as nat, 2, 9999);
    let s = date.iso();
    assert(s.subrange(0, 4) =~= text::padded(year, 4));
    assert(s.subrange(5, 7) =~= text::padded(date.month as nat, 2));
    assert(s.subrange(8, 10) =~= text::padded(date.day as nat, 2));
}

/// The text of an instant writes the time of its day, down to the millisecond.
pub proof fn instant_texts_write_their_time(
    instant: &UtcTime,
    date: CivilDate,
    words: String,
    hours: int,
    minutes: int,
    seconds: int,
    millis: int,
)
    requires
        call_ensures(UtcTime::date, (instant,), date),
        1000 <= date.year <= 9999,
        call_ensures(UtcTime::millis_text, (instant,), words),
        0 <= hours < 24,
        0 <= minutes < 60,
        0 <= seconds < 60,
        0 <= millis < 1000,
        instant.millis() == date.number() * 86_400_000 + hours * 3_600_000 + minutes * 60_000
            + seconds * 1000 + millis,
    ensures
        words@.len() == 24,
        words@[10] == 'T' && words@[13] == ':' && words@[16] == ':' && words@[19] == '.'
            && words@[23] == 'Z',
        words@.subrange(0, 10) == date.iso(),
        digits_at(words@, 11, 13, hours),
        digits_at(words@, 14, 16, minutes),
        digits_at(words@, 17, 19, seconds),
        digits_at(words@, 20, 23, millis),
{
    let mts = instant.millis() as int;
    lemma_clock(date, mts, hours, minutes, seconds, millis);
    lemma_iso(date);
    reveal_strlit("T");
    reveal_strlit(":");
    reveal_strlit(".");
    reveal_strlit("Z");
    text::two_digits(hours as nat);
    text::two_digits(minutes as nat);
    text::two_digits(seconds as nat);
    text::three_digits(millis as nat);
    text::padded_numbers_are_read_back(hours as nat, 2, 9999);
    text::padded_numbers_are_read_back(minutes as nat, 2, 9999);
    text::padded_numbers_are_read_back(seconds as nat, 2, 9999);
    text::padded_numbers_are_read_back(millis as nat, 3, 9999);
    let s = words@;
    assert(s.subrange(0, 10) =~= date.iso());
    assert(s.subrange(11, 13) =~= text::padded(hours as nat, 2));
    assert(s.subrange(14, 16) =~= text::padded(minutes as nat, 2));
    assert(s.subrange(17, 19) =~= text::padded(seconds as nat, 2));
    assert(s.subrange(20, 23) =~= text::padded(millis as nat, 3));
}

proof fn lemma_clock(
    date: CivilDate,
    mts: int,
    hours: int,
    minutes: int,
    seconds: int,
    millis: int,
)
    requires
        date.valid(),
        0 <= hours < 24,
        0 <= minutes < 60,
        0 <= seconds < 60,
        0 <= millis < 1000,
        mts == date.number() * 86_400_000 + hours * 3_600_000 + minutes * 60_000 + seconds * 1000
            + millis,
    ensures
        calendar::civil_date(calendar::day_of(mts)) == date,
        mts % 86_400_000 / 3_600_000 == hours,
        mts % 86_400_000 / 60_000 % 60 == minutes,
        mts % 86_400_000 / 1000 % 60 == seconds,
        mts % 1000 == millis,
{
    assert(calendar::day_of(mts) == date.number());
    let chosen = calendar::civil_date(date.number());
    assert(date.valid() && date.number() == date.number());
    calendar::day_numbers_are_unique(chosen, date);
    let rest = hours * 3_600_000 + minutes * 60_000 + seconds * 1000 + millis;
    assert(mts % 86_400_000 == rest);
    assert(rest / 60_000 == hours * 60 + minutes);
    assert(rest / 1000 == (hours * 60 + minutes) * 60 + seconds);
}

/// An instant in milliseconds is read back from its digits.
pub proof fn milliseconds_are_read_back(value: &str, mts: i64, r: Result<i64, String>)
    requires
        call_ensures(parse_mts, (value,), r),
        mts >= 0,
        value@ == text::nat_text(mts as nat),
    ensures
        r is Ok && r->Ok_0 == mts,
{
    text::digits_of_numbers(mts as nat);
    text::printed_integers_are_read_back(mts as int, i64::MIN as int, i64::MAX as int);
    assert(calendar::all_digits(value@));
}

/// A text with anything but digits is an instant where it is one of RFC 3339, and the same one.
pub proof fn instants_are_read_from_rfc3339(value: &str, r: Result<i64, String>, at: int, mts: i64)
    requires
        call_ensures(parse_mts, (value,), r),
        0 <= at < value@.len(),
        value@[at] < '0' || value@[at] > '9',
    ensures
        calendar::parsed_rfc3339(value@) == Ok::<i64, Seq<char>>(mts) ==> r is Ok && r->Ok_0
            == mts,
        calendar::parsed_rfc3339(value@) is Err ==> r is Err,
{
    assert(!text::is_digit(value@[at]));
}

/// A day is the one that its text writes.
pub proof fn days_are_read_as_written(value: &str, r: Result<CivilDate, String>)
    requires
        call_ensures(parse_date, (value,), r),
    ensures
        r is Ok <==> calendar::parsed_day(value@) is Ok,
        r is Ok ==> r->Ok_0.year == calendar::parsed_day(value@)->Ok_0.0 && r->Ok_0.month
            == calendar::parsed_day(value@)->Ok_0.1 && r->Ok_0.day == calendar::parsed_day(
            value@,
        )->Ok_0.2,
{
}

proof fn lemma_clock_length(date: CivilDate, mts: int)
    requires
        date.valid(),
        1000 <= date.year <= 9999,
        calendar::civil_date(calendar::day_of(mts)) == date,
    ensures
        calendar::clock_text(mts).len() == 19,
{
    let rest = mts % 86_400_000;
    lemma_iso(date);
    reveal_strlit("T");
    reveal_strlit(":");
    text::two_digits((rest / 3_600_000) as nat);
    text::two_digits((rest / 60_000 % 60) as nat);
    text::two_digits((rest / 1000 % 60) as nat);
}

/// The text of an instant in whole seconds is that with the milliseconds, without them.
pub proof fn seconds_are_written_without_the_fraction(
    instant: &UtcTime,
    date: CivilDate,
    whole: String,
    exact: String,
)
    requires
        call_ensures(UtcTime::date, (instant,), date),
        1000 <= date.year <= 9999,
        call_ensures(UtcTime::secs_text, (instant,), whole),
        call_ensures(UtcTime::millis_text, (instant,), exact),
    ensures
        whole@.len() == 20,
        whole@[19] == 'Z',
        whole@.take(19) == exact@.take(19),
{
    let mts = instant.millis() as int;
    lemma_clock_length(date, mts);
    reveal_strlit(".");
    reveal_strlit("Z");
    let clock = calendar::clock_text(mts);
    assert(whole@ == clock + "Z"@);
    assert(whole@.take(19) =~= clock);
    assert(exact@.take(19) =~= clock);
}

} // verus!
