use tl_scraper::calendar::{days_in_month, history_range, leap_year, month_label, months, Date, MonthRange};

fn d(year: i32, month: u32, day: u32) -> Date {
    Date::new(year, month, day).expect("valid date")
}

#[test]
fn sync_window_of_45_days_from_march_tenth() {
    let (start, end) = history_range(d(2024, 3, 10), 45).expect("window");
    assert_eq!(start, d(2024, 2, 1));
    assert_eq!(end, d(2024, 3, 10));
    let buckets = months(start, end);
    assert_eq!(
        buckets,
        vec![
            MonthRange { start: d(2024, 2, 1), end: d(2024, 2, 29) },
            MonthRange { start: d(2024, 3, 1), end: d(2024, 3, 10) },
        ]
    );
}

#[test]
fn history_start_off_the_first_moves_to_next_month() {
    let (start, _) = history_range(d(2024, 3, 10), 20).expect("window");
    assert_eq!(start, d(2024, 3, 1));
    let (start, _) = history_range(d(2024, 1, 5), 10).expect("window");
    assert_eq!(start, d(2024, 1, 1));
    let (start, _) = history_range(d(2024, 1, 20), 10).expect("window");
    assert_eq!(start, d(2024, 2, 1));
}

#[test]
fn history_start_on_the_first_is_kept() {
    let (start, end) = history_range(d(2024, 3, 31), 30).expect("window");
    assert_eq!(start, d(2024, 3, 1));
    assert_eq!(end, d(2024, 3, 31));
}

#[test]
fn history_start_crossing_a_year_end() {
    let today = d(2024, 1, 10);
    assert_eq!(history_range(today, 9).expect("window").0, d(2024, 1, 1));
    assert_eq!(history_range(today, 20).expect("window").0, d(2024, 1, 1));
    assert_eq!(history_range(today, 40).expect("window").0, d(2023, 12, 1));
    assert_eq!(history_range(today, 41).expect("window").0, d(2023, 12, 1));
    assert_eq!(history_range(today, 45).expect("window").0, d(2023, 12, 1));
}

#[test]
fn history_too_long_has_no_window() {
    assert_eq!(history_range(d(2024, 3, 10), (i32::MAX as u64) + 1), None);
    assert_eq!(history_range(d(-262143, 1, 2), 5), None);
}

#[test]
fn month_buckets_cover_the_range_without_gaps() {
    let buckets = months(d(2023, 11, 15), d(2024, 2, 10));
    assert_eq!(
        buckets,
        vec![
            MonthRange { start: d(2023, 11, 1), end: d(2023, 11, 30) },
            MonthRange { start: d(2023, 12, 1), end: d(2023, 12, 31) },
            MonthRange { start: d(2024, 1, 1), end: d(2024, 1, 31) },
            MonthRange { start: d(2024, 2, 1), end: d(2024, 2, 10) },
        ]
    );
    for b in &buckets {
        assert!((b.end.year, b.end.month, b.end.day) <= (2024, 2, 10));
        assert_eq!((b.start.year, b.start.month), (b.end.year, b.end.month));
    }
}

#[test]
fn month_buckets_of_one_day() {
    assert_eq!(
        months(d(2024, 5, 31), d(2024, 5, 31)),
        vec![MonthRange { start: d(2024, 5, 1), end: d(2024, 5, 31) }]
    );
}

#[test]
fn month_buckets_empty_when_end_month_precedes_start() {
    assert_eq!(months(d(2024, 4, 1), d(2024, 3, 10)), vec![]);
}

#[test]
fn leap_years_and_month_lengths() {
    assert!(leap_year(2000));
    assert!(!leap_year(1900));
    assert!(leap_year(2024));
    assert!(leap_year(-4));
    assert_eq!(days_in_month(2023, 2), 28);
    assert_eq!(days_in_month(2024, 2), 29);
    assert_eq!(days_in_month(2024, 4), 30);
    assert_eq!(days_in_month(2024, 12), 31);
}

#[test]
fn dates_that_do_not_exist_are_refused() {
    assert_eq!(Date::new(2023, 2, 29), None);
    assert_eq!(Date::new(2024, 13, 1), None);
    assert_eq!(Date::new(2024, 4, 0), None);
    assert_eq!(Date::new(262143, 1, 1), None);
    assert!(Date::new(2024, 2, 29).is_some());
}

#[test]
fn month_labels() {
    assert_eq!(month_label(d(2024, 2, 1)), "2024-02");
    assert_eq!(month_label(d(5, 11, 3)), "0005-11");
    assert_eq!(month_label(d(-1, 12, 31)), "-0001-12");
    assert_eq!(month_label(d(12345, 6, 1)), "+12345-06");
}
