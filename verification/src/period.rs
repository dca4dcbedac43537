//! Months: the key that names a month, the timestamps that bound it, the timestamps
//! that records store, and the months of a trend.

use vstd::prelude::*;

use crate::statistics::chronological;

use crate::text::{
    lemma_text_le_antisymmetric, lemma_text_le_concat, lemma_two_digits, lemma_two_digits_order,
    lemma_zero_padded_len, lemma_zero_padded_value, pow10, push_signed_zero_padded, push_zero_padded,
    signed_zero_padded, text_le, zero_padded,
};

verus! {

/// The key of a month as `{:04}-{:02}` writes year and month, such as `2024-03`.
pub open spec fn month_key_text(year: int, month: nat) -> Seq<char> {
    signed_zero_padded(year, 4) + seq!['-'] + zero_padded(month, 2)
}

/// The key of the month `month` of year `year`.
pub fn month_key(year: i32, month: u32) -> (key: String)
    ensures
        key@ == month_key_text(year as int, month as nat),
{
    proof {
        reveal_strlit("-");
    }
    let mut key = String::new();
    push_signed_zero_padded(&mut key, year as i64, 4);
    key.append("-");
    push_zero_padded(&mut key, month as u64, 2);
    assert(key@ =~= month_key_text(year as int, month as nat));
    key
}

/// What follows a month key in the first timestamp of the month.
pub const MONTH_START_SUFFIX: &'static str = "-01 00:00:00";

/// What follows a month key in the last timestamp that the month's queries include.
pub const MONTH_END_SUFFIX: &'static str = "-31 23:59:59";

/// The first and last timestamps of the month named `month`, as the record queries
/// compare them: from day 01 at 00:00:00 to day 31 at 23:59:59.
pub fn month_bounds(month: &str) -> (bounds: (String, String))
    ensures
        bounds.0@ == month@ + MONTH_START_SUFFIX@,
        bounds.1@ == month@ + MONTH_END_SUFFIX@,
{
    let mut start = String::from_str(month);
    start.append(MONTH_START_SUFFIX);
    let mut end = String::from_str(month);
    end.append(MONTH_END_SUFFIX);
    (start, end)
}

/// Different months of the years 0 to 9999 have different keys, so the statistics of one
/// month never take in another's records.
pub proof fn lemma_month_keys_distinct(year1: int, month1: nat, year2: int, month2: nat)
    requires
        0 <= year1 <= 9999,
        0 <= year2 <= 9999,
        month1 < 100,
        month2 < 100,
        month_key_text(year1, month1) == month_key_text(year2, month2),
    ensures
        year1 == year2,
        month1 == month2,
{
    reveal_with_fuel(pow10, 5);
    lemma_zero_padded_len(year1 as nat, 4);
    lemma_zero_padded_len(year2 as nat, 4);
    lemma_zero_padded_len(month1, 2);
    lemma_zero_padded_len(month2, 2);
    let k1 = month_key_text(year1, month1);
    let k2 = month_key_text(year2, month2);
    assert(k1.subrange(0, 4) =~= zero_padded(year1 as nat, 4));
    assert(k2.subrange(0, 4) =~= zero_padded(year2 as nat, 4));
    assert(k1.subrange(5, 7) =~= zero_padded(month1, 2));
    assert(k2.subrange(5, 7) =~= zero_padded(month2, 2));
    lemma_zero_padded_value(year1 as nat, 4);
    lemma_zero_padded_value(year2 as nat, 4);
    lemma_zero_padded_value(month1, 2);
    lemma_zero_padded_value(month2, 2);
}

/// The part of a stored timestamp after its month: `-DD HH:MM:SS`.
pub open spec fn day_time_text(day: nat, hour: nat, minute: nat, second: nat) -> Seq<char> {
    seq!['-'] + (zero_padded(day, 2) + (seq![' '] + (zero_padded(hour, 2) + (seq![':'] + (
    zero_padded(minute, 2) + (seq![':'] + zero_padded(second, 2)))))))
}

/// A moment as the records store it, `%Y-%m-%d %H:%M:%S`, for the years 0 to 9999.
pub open spec fn timestamp_text(year: nat, month: nat, day: nat, hour: nat, minute: nat, second: nat) -> Seq<char> {
    month_key_text(year as int, month) + day_time_text(day, hour, minute, second)
}

/// Whether a stored timestamp lies within a month's bounds, as the queries' `BETWEEN`
/// decides it.
pub open spec fn within_month(timestamp: Seq<char>, month_key: Seq<char>) -> bool {
    text_le(month_key + MONTH_START_SUFFIX@, timestamp) && text_le(timestamp, month_key + MONTH_END_SUFFIX@)
}

proof fn lemma_month_suffixes()
    ensures
        MONTH_START_SUFFIX@ == day_time_text(1, 0, 0, 0),
        MONTH_END_SUFFIX@ == day_time_text(31, 23, 59, 59),
{
    reveal_strlit("-01 00:00:00");
    reveal_strlit("-31 23:59:59");
    lemma_two_digits(0);
    lemma_two_digits(1);
    lemma_two_digits(23);
    lemma_two_digits(31);
    lemma_two_digits(59);
    assert(MONTH_START_SUFFIX@ =~= day_time_text(1, 0, 0, 0));
    assert(MONTH_END_SUFFIX@ =~= day_time_text(31, 23, 59, 59));
}

/// The day-and-time parts sort as (day, hour, minute, second) do, field by field.
proof fn lemma_day_time_order(d1: nat, h1: nat, m1: nat, s1: nat, d2: nat, h2: nat, m2: nat, s2: nat)
    requires
        d1 < 100,
        h1 < 100,
        m1 < 100,
        s1 < 100,
        d2 < 100,
        h2 < 100,
        m2 < 100,
        s2 < 100,
    ensures
        text_le(day_time_text(d1, h1, m1, s1), day_time_text(d2, h2, m2, s2)) == (d1 < d2 || (d1 == d2 && (
        h1 < h2 || (h1 == h2 && (m1 < m2 || (m1 == m2 && s1 <= s2)))))),
{
    let zd1 = zero_padded(d1, 2);
    let zd2 = zero_padded(d2, 2);
    let zh1 = zero_padded(h1, 2);
    let zh2 = zero_padded(h2, 2);
    let zm1 = zero_padded(m1, 2);
    let zm2 = zero_padded(m2, 2);
    let zs1 = zero_padded(s1, 2);
    let zs2 = zero_padded(s2, 2);
    lemma_two_digits_order(d1, d2);
    lemma_two_digits_order(h1, h2);
    lemma_two_digits_order(m1, m2);
    lemma_two_digits_order(s1, s2);
    lemma_two_digits(d1);
    lemma_two_digits(d2);
    lemma_two_digits(h1);
    lemma_two_digits(h2);
    lemma_two_digits(m1);
    lemma_two_digits(m2);
    let r1 = seq![':'] + zs1;
    let r2 = seq![':'] + zs2;
    lemma_text_le_concat(seq![':'], zs1, seq![':'], zs2);
    let q1 = zm1 + r1;
    let q2 = zm2 + r2;
    lemma_text_le_concat(zm1, r1, zm2, r2);
    let p1 = seq![':'] + q1;
    let p2 = seq![':'] + q2;
    lemma_text_le_concat(seq![':'], q1, seq![':'], q2);
    let o1 = zh1 + p1;
    let o2 = zh2 + p2;
    lemma_text_le_concat(zh1, p1, zh2, p2);
    let n1 = seq![' '] + o1;
    let n2 = seq![' '] + o2;
    lemma_text_le_concat(seq![' '], o1, seq![' '], o2);
    let l1 = zd1 + n1;
    let l2 = zd2 + n2;
    lemma_text_le_concat(zd1, n1, zd2, n2);
    lemma_text_le_concat(seq!['-'], l1, seq!['-'], l2);
}

/// A month's bounds take in exactly the timestamps of that month: a valid moment of the
/// years 0 to 9999 lies between the first and last timestamps of month `month` of year
/// `year` exactly when it falls in that month. So the statistics and the budget spending
/// of a month count the records of that month and no others.
pub proof fn lemma_month_bounds_select_month(
    year: nat,
    month: nat,
    ts_year: nat,
    ts_month: nat,
    day: nat,
    hour: nat,
    minute: nat,
    second: nat,
)
    requires
        year <= 9999,
        ts_year <= 9999,
        month < 100,
        ts_month < 100,
        1 <= day <= 31,
        hour <= 23,
        minute <= 59,
        second <= 59,
    ensures
        within_month(timestamp_text(ts_year, ts_month, day, hour, minute, second), month_key_text(year as int, month))
            <==> (ts_year == year && ts_month == month),
{
    reveal_with_fuel(pow10, 5);
    lemma_month_suffixes();
    let k = month_key_text(year as int, month);
    let kt = month_key_text(ts_year as int, ts_month);
    let dt = day_time_text(day, hour, minute, second);
    lemma_zero_padded_len(year, 4);
    lemma_zero_padded_len(ts_year, 4);
    lemma_zero_padded_len(month, 2);
    lemma_zero_padded_len(ts_month, 2);
    assert(k.len() == 7 && kt.len() == 7);
    lemma_day_time_order(1, 0, 0, 0, day, hour, minute, second);
    lemma_day_time_order(day, hour, minute, second, 31, 23, 59, 59);
    lemma_text_le_concat(k, MONTH_START_SUFFIX@, kt, dt);
    lemma_text_le_concat(kt, dt, k, MONTH_END_SUFFIX@);
    if text_le(k, kt) && text_le(kt, k) {
        lemma_text_le_antisymmetric(k, kt);
    }
    if k == kt {
        lemma_month_keys_distinct(year as int, month, ts_year as int, ts_month);
    }
}

/// Whether a year of the proleptic Gregorian calendar has a 29 February.
pub open spec fn is_leap_year(year: int) -> bool {
    (year % 4 == 0 && year % 100 != 0) || year % 400 == 0
}

/// The number of days of a month (`1 <= month <= 12`).
pub open spec fn days_in_month(year: int, month: int) -> int {
    if month == 2 {
        if is_leap_year(year) {
            29
        } else {
            28
        }
    } else if month == 4 || month == 6 || month == 9 || month == 11 {
        30
    } else {
        31
    }
}

/// The earliest year that the date library represents.
pub open spec fn min_calendar_year() -> int {
    -262143
}

/// The latest year that the date library represents.
pub open spec fn max_calendar_year() -> int {
    262142
}

/// Whether the values name an existing date within the years that the date library
/// represents.
pub open spec fn is_valid_date(year: int, month: int, day: int) -> bool {
    &&& min_calendar_year() <= year <= max_calendar_year()
    &&& 1 <= month <= 12
    &&& 1 <= day <= days_in_month(year, month)
}

/// Whether the values name an existing moment, to the second, within the years that
/// the date library represents.
pub open spec fn is_valid_moment(year: int, month: int, day: int, hour: int, minute: int, second: int) -> bool {
    &&& is_valid_date(year, month, day)
    &&& 0 <= hour < 24
    &&& 0 <= minute < 60
    &&& 0 <= second < 60
}

/// The year as `%Y` writes it: four digits, zero-padded, with a sign before years
/// outside 0 to 9999.
pub open spec fn calendar_year_text(year: int) -> Seq<char> {
    if 0 <= year <= 9999 {
        zero_padded(year as nat, 4)
    } else if year < 0 {
        seq!['-'] + zero_padded((-year) as nat, 4)
    } else {
        seq!['+'] + zero_padded(year as nat, 4)
    }
}

/// A moment as `%Y-%m-%d %H:%M:%S` writes it.
pub open spec fn moment_text(year: int, month: nat, day: nat, hour: nat, minute: nat, second: nat) -> Seq<char> {
    calendar_year_text(year) + seq!['-'] + zero_padded(month, 2) + day_time_text(day, hour, minute, second)
}

/// The text that chrono writes for a moment with the format `%Y-%m-%d %H:%M:%S`, or
/// `None` where the values name no moment: `NaiveDate::from_ymd_opt`, then
/// `NaiveDate::and_hms_opt`, then `NaiveDateTime::format`. The contract restates
/// chrono's documentation: `from_ymd_opt` refuses nonexistent dates and years out of
/// its range, `and_hms_opt` refuses hours from 24, minutes and seconds from 60, `%Y` is
/// zero-padded to four digits and signed outside 0 to 9999, and `%m`, `%d`, `%H`, `%M`,
/// `%S` are zero-padded to two digits.
#[verifier::external_body]
fn chrono_moment_text(year: i32, month: u32, day: u32, hour: u32, minute: u32, second: u32) -> (text: Option<String>)
    ensures
        text is Some <==> is_valid_moment(year as int, month as int, day as int, hour as int, minute as int, second as int),
        text matches Some(t) ==> t@ == moment_text(year as int, month as nat, day as nat, hour as nat, minute as nat, second as nat),
{
    match chrono::NaiveDate::from_ymd_opt(year, month, day) {
        Some(date) => match date.and_hms_opt(hour, minute, second) {
            Some(moment) => Some(moment.format("%Y-%m-%d %H:%M:%S").to_string()),
            None => None,
        },
        None => None,
    }
}

/// The creation time that a record made at the given local moment stores, or `None`
/// where the values name no moment. For the years 0 to 9999 it lies within the bounds of
/// its own month, so that month's statistics and budget spending count the record.
pub fn record_timestamp(year: i32, month: u32, day: u32, hour: u32, minute: u32, second: u32) -> (text: Option<String>)
    ensures
        text is Some <==> is_valid_moment(year as int, month as int, day as int, hour as int, minute as int, second as int),
        text matches Some(t) ==> t@ == moment_text(year as int, month as nat, day as nat, hour as nat, minute as nat, second as nat),
        0 <= year <= 9999 ==> (text matches Some(t) ==> within_month(t@, month_key_text(year as int, month as nat))),
{
    let text = chrono_moment_text(year, month, day, hour, minute, second);
    proof {
        if text is Some && 0 <= year <= 9999 {
            let ts = timestamp_text(year as nat, month as nat, day as nat, hour as nat, minute as nat, second as nat);
            assert(moment_text(year as int, month as nat, day as nat, hour as nat, minute as nat, second as nat) =~= ts);
            lemma_month_bounds_select_month(
                year as nat,
                month as nat,
                year as nat,
                month as nat,
                day as nat,
                hour as nat,
                minute as nat,
                second as nat,
            );
        }
    }
    text
}

/// A month of a trend: its label, as `%Y-%m` writes it, and its year and month.
#[derive(Debug, Clone)]
pub struct TrendPeriod {
    pub label: String,
    pub year: i32,
    pub month: u32,
}

/// The month of a trend that contains the given date, or `None` where the values name
/// no date. For the years 0 to 9999 its label is the key under which its statistics are
/// gathered.
pub fn trend_period(year: i32, month: u32, day: u32) -> (period: Option<TrendPeriod>)
    ensures
        period is Some <==> is_valid_moment(year as int, month as int, day as int, 0, 0, 0),
        period matches Some(p) ==> {
            &&& p.label@ == calendar_year_text(year as int) + seq!['-'] + zero_padded(month as nat, 2)
            &&& p.year == year
            &&& p.month == month
        },
        0 <= year <= 9999 ==> (period matches Some(p) ==> p.label@ == month_key_text(year as int, month as nat)),
{
    match chrono_moment_text(year, month, day, 0, 0, 0) {
        Some(text) => {
            let ghost head = calendar_year_text(year as int) + seq!['-'] + zero_padded(month as nat, 2);
            let ghost tail = day_time_text(day as nat, 0, 0, 0);
            proof {
                lemma_two_digits(day as nat);
                lemma_two_digits(0);
                assert(tail.len() == 12);
                assert(text@ =~= head + tail);
            }
            let len = text.as_str().unicode_len();
            let label = String::from_str(text.as_str().substring_char(0, len - 12));
            assert(label@ =~= head);
            Some(TrendPeriod { label, year, month })
        },
        None => None,
    }
}

/// The position of a month in the sequence of all months: consecutive months have
/// consecutive positions, and January of year 0 has position 0.
pub open spec fn month_index(year: int, month: int) -> int {
    12 * year + month - 1
}

/// The months of a trend of `months` months that ends with month `month` of year `year`:
/// that many consecutive calendar months, oldest first. `None` where `month` names no
/// month or one of the months lies outside the years that the date library represents.
pub fn trend_months(year: i32, month: u32, months: u32) -> (periods: Option<Vec<TrendPeriod>>)
    ensures
        periods is Some <==> (months == 0 || (1 <= month <= 12 && 12 * min_calendar_year() <= month_index(year as int, month as int) - (months - 1) && month_index(year as int, month as int) <= 12 * max_calendar_year() + 11)),
        periods matches Some(ps) ==> ps@.len() == months,
        periods matches Some(ps) ==> forall|j: int| 0 <= j < months ==> {
            let p = #[trigger] ps@[j];
            &&& month_index(p.year as int, p.month as int) == month_index(year as int, month as int) - (months - 1 - j)
            &&& 1 <= p.month <= 12
            &&& p.label@ == calendar_year_text(p.year as int) + seq!['-'] + zero_padded(p.month as nat, 2)
            &&& 0 <= p.year <= 9999 ==> p.label@ == month_key_text(p.year as int, p.month as nat)
        },
{
    let ghost last = month_index(year as int, month as int);
    let mut newest_first: Vec<TrendPeriod> = Vec::new();
    if months == 0 {
        return Some(newest_first);
    }
    if month < 1 || month > 12 {
        return None;
    }
    let mut cur_year: i64 = year as i64;
    let mut cur_month: u32 = month;
    let mut k: u32 = 0;
    while k < months
        invariant
            1 <= month <= 12,
            last == month_index(year as int, month as int),
            k <= months,
            newest_first@.len() == k,
            1 <= cur_month <= 12,
            month_index(cur_year as int, cur_month as int) == last - k,
            i32::MIN - 1 <= cur_year <= i32::MAX,
            k > 0 ==> last <= 12 * max_calendar_year() + 11,
            12 * min_calendar_year() <= last - (k - 1) || k == 0,
            forall|i: int|
                0 <= i < k ==> {
                    let p = #[trigger] newest_first@[i];
                    &&& month_index(p.year as int, p.month as int) == last - i
                    &&& 1 <= p.month <= 12
                    &&& p.label@ == calendar_year_text(p.year as int) + seq!['-'] + zero_padded(p.month as nat, 2)
                    &&& 0 <= p.year <= 9999 ==> p.label@ == month_key_text(p.year as int, p.month as nat)
                },
        decreases months - k,
    {
        if cur_year < -262143 || cur_year > 262142 {
            return None;
        }
        match trend_period(cur_year as i32, cur_month, 1) {
            Some(p) => {
                newest_first.push(p);
            },
            None => {
                return None;
            },
        }
        if cur_month == 1 {
            cur_year = cur_year - 1;
            cur_month = 12;
        } else {
            cur_month = cur_month - 1;
        }
        k = k + 1;
    }
    Some(chronological(newest_first))
}

} // verus!
