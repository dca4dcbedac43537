use chrono::{Datelike, NaiveDate};
use smart_ledger::period::{month_bounds, month_key, record_timestamp};
use smart_ledger::period::{trend_months, trend_period};
use smart_ledger::statistics::chronological;

#[test]
fn month_keys() {
    assert_eq!(month_key(2024, 3), "2024-03");
    assert_eq!(month_key(2024, 12), "2024-12");
    assert_eq!(month_key(999, 1), "0999-01");
    assert_eq!(month_key(12345, 123), "12345-123");
}

#[test]
fn month_keys_as_format_writes_them() {
    for y in [0i32, 5, 42, 999, 1999, 2025, 10000, -1, -5, -42, -999, -1000, -12345, i32::MIN, i32::MAX] {
        for m in [0u32, 1, 9, 10, 12, 100, u32::MAX] {
            assert_eq!(month_key(y, m), format!("{:04}-{:02}", y, m));
        }
    }
}

#[test]
fn bounds_of_a_month() {
    let (start, end) = month_bounds("2024-02");
    assert_eq!(start, "2024-02-01 00:00:00");
    assert_eq!(end, "2024-02-31 23:59:59");
    assert!(start < end);
}

#[test]
fn trend_comes_out_oldest_first() {
    let newest_first = vec![("2024-03", 1), ("2024-02", 2), ("2024-01", 3)];
    let oldest_first = chronological(newest_first);
    assert_eq!(oldest_first, vec![("2024-01", 3), ("2024-02", 2), ("2024-03", 1)]);
    assert!(chronological(Vec::<u8>::new()).is_empty());
}

#[test]
fn trend_labels() {
    let p = trend_period(2024, 3, 31).unwrap();
    assert_eq!(p.label, "2024-03");
    assert_eq!((p.year, p.month), (2024, 3));
    assert_eq!(p.label, month_key(p.year, p.month));
    assert_eq!(trend_period(999, 11, 2).unwrap().label, "0999-11");
    assert_eq!(trend_period(-4, 2, 29).unwrap().label, "-0004-02");
    assert_eq!(trend_period(12345, 1, 1).unwrap().label, "+12345-01");
    assert!(trend_period(2023, 2, 29).is_none());
    for (y, m, d) in [(2024, 1, 15), (1970, 12, 31), (2000, 2, 29)] {
        let date = NaiveDate::from_ymd_opt(y, m, d).unwrap();
        let expected = format!("{}-{}", date.format("%Y"), date.format("%m"));
        assert_eq!(trend_period(y, m, d).unwrap().label, expected);
    }
}

#[test]
fn bounds_take_in_exactly_the_month() {
    let (start, end) = month_bounds(&month_key(2024, 2));
    let within = |t: &str| start.as_str() <= t && t <= end.as_str();
    assert!(within("2024-02-01 00:00:00"));
    assert!(within("2024-02-15 08:30:00"));
    assert!(within("2024-02-29 23:59:59"));
    assert!(!within("2024-01-31 23:59:59"));
    assert!(!within("2024-03-01 00:00:00"));
    assert!(!within("2023-02-10 10:00:00"));
    assert!(!within("2025-02-10 10:00:00"));
}

#[test]
fn timestamps_written_by_the_clock_format_fall_in_their_month() {
    for (y, m, d) in [(2024, 1, 31), (2024, 2, 29), (1999, 12, 1), (2030, 6, 30)] {
        let t = NaiveDate::from_ymd_opt(y, m, d).unwrap().and_hms_opt(23, 59, 59).unwrap();
        let text = t.format("%Y-%m-%d %H:%M:%S").to_string();
        let (start, end) = month_bounds(&month_key(t.year(), t.month()));
        assert!(start <= text && text <= end, "{} not in {}..{}", text, start, end);
        let (other_start, other_end) = month_bounds(&month_key(t.year(), t.month() % 12 + 1));
        assert!(!(other_start <= text && text <= other_end));
    }
}

#[test]
fn month_keys_differ_for_different_months() {
    let mut keys = std::collections::HashSet::new();
    for y in [0, 1, 99, 2023, 2024, 9999] {
        for m in 1..=12 {
            assert!(keys.insert(month_key(y, m)));
        }
    }
}

#[test]
fn record_timestamps_as_the_clock_format_writes_them() {

    let cases = [
        (2024, 3, 15, 8, 5, 9),
        (2024, 2, 29, 23, 59, 59),
        (2023, 2, 29, 0, 0, 0),
        (2023, 4, 31, 0, 0, 0),
        (2000, 2, 29, 12, 0, 0),
        (1900, 2, 29, 12, 0, 0),
        (2024, 13, 1, 0, 0, 0),
        (2024, 0, 1, 0, 0, 0),
        (2024, 1, 0, 0, 0, 0),
        (2024, 1, 1, 24, 0, 0),
        (2024, 1, 1, 0, 60, 0),
        (2024, 1, 1, 0, 0, 60),
        (5, 1, 1, 0, 0, 0),
        (-5, 2, 29, 1, 2, 3),
        (-4, 2, 29, 1, 2, 3),
        (-100, 2, 29, 1, 2, 3),
        (-400, 2, 29, 1, 2, 3),
        (12345, 6, 7, 8, 9, 10),
        (262142, 12, 31, 0, 0, 0),
        (262143, 1, 1, 0, 0, 0),
        (-262143, 1, 1, 0, 0, 0),
        (-262144, 1, 1, 0, 0, 0),
    ];
    for (y, m, d, h, mi, s) in cases {
        let expected = NaiveDate::from_ymd_opt(y, m, d)
            .and_then(|date| date.and_hms_opt(h, mi, s))
            .map(|t| t.format("%Y-%m-%d %H:%M:%S").to_string());
        assert_eq!(record_timestamp(y, m, d, h, mi, s), expected);
    }
    assert_eq!(record_timestamp(2024, 3, 15, 8, 5, 9).unwrap(), "2024-03-15 08:05:09");
    assert_eq!(record_timestamp(-4, 2, 29, 1, 2, 3).unwrap(), "-0004-02-29 01:02:03");
    assert_eq!(record_timestamp(12345, 6, 7, 8, 9, 10).unwrap(), "+12345-06-07 08:09:10");
    assert_eq!(record_timestamp(2023, 2, 29, 0, 0, 0), None);
    assert_eq!(record_timestamp(1900, 2, 29, 0, 0, 0), None);
    assert_eq!(record_timestamp(2000, 2, 29, 0, 0, 0).unwrap(), "2000-02-29 00:00:00");
    assert_eq!(record_timestamp(2023, 4, 31, 0, 0, 0), None);
    assert_eq!(record_timestamp(2024, 1, 1, 24, 0, 0), None);
    assert_eq!(record_timestamp(2024, 1, 1, 23, 60, 0), None);
    assert_eq!(record_timestamp(2024, 1, 1, 23, 59, 60), None);
    assert_eq!(record_timestamp(5, 1, 1, 0, 0, 0).unwrap(), "0005-01-01 00:00:00");
    assert_eq!(record_timestamp(262142, 12, 31, 0, 0, 0).unwrap(), "+262142-12-31 00:00:00");
    assert_eq!(record_timestamp(262143, 1, 1, 0, 0, 0), None);
    assert_eq!(record_timestamp(-262143, 1, 1, 0, 0, 0).unwrap(), "-262143-01-01 00:00:00");
    assert_eq!(record_timestamp(-262144, 1, 1, 0, 0, 0), None);
}

#[test]
fn trend_months_are_consecutive_calendar_months() {
    let labels = |ps: Vec<smart_ledger::period::TrendPeriod>| -> Vec<String> { ps.into_iter().map(|p| p.label).collect() };
    assert_eq!(labels(trend_months(2024, 3, 3).unwrap()), vec!["2024-01", "2024-02", "2024-03"]);
    assert_eq!(
        labels(trend_months(2024, 2, 4).unwrap()),
        vec!["2023-11", "2023-12", "2024-01", "2024-02"]
    );
    let ps = trend_months(2024, 1, 14).unwrap();
    assert_eq!(ps.len(), 14);
    assert_eq!((ps[0].year, ps[0].month), (2022, 12));
    assert_eq!((ps[13].year, ps[13].month), (2024, 1));
    for w in ps.windows(2) {
        assert_eq!(12 * w[1].year + w[1].month as i32, 12 * w[0].year + w[0].month as i32 + 1);
    }
    for p in &ps {
        assert_eq!(p.label, month_key(p.year, p.month));
    }
    assert!(trend_months(2024, 3, 0).unwrap().is_empty());
    assert!(trend_months(2024, 13, 0).unwrap().is_empty());
    assert!(trend_months(2024, 13, 1).is_none());
    assert!(trend_months(2024, 0, 1).is_none());
    assert_eq!(labels(trend_months(-262143, 2, 2).unwrap()), vec!["-262143-01", "-262143-02"]);
    assert!(trend_months(-262143, 2, 3).is_none());
    assert_eq!(labels(trend_months(262142, 12, 1).unwrap()), vec!["+262142-12"]);
    assert!(trend_months(262143, 1, 1).is_none());
    assert_eq!(labels(trend_months(1, 1, 2).unwrap()), vec!["0000-12", "0001-01"]);
}
