use worldcup_hub::CalendarDate;

#[test]
fn existing_dates_are_accepted() {
    assert_eq!(
        CalendarDate::from_ymd_opt(2026, 6, 11),
        Some(CalendarDate { year: 2026, month: 6, day: 11 })
    );
    assert!(CalendarDate::from_ymd_opt(2024, 2, 29).is_some());
    assert!(CalendarDate::from_ymd_opt(2000, 2, 29).is_some());
}

#[test]
fn missing_dates_are_refused() {
    assert_eq!(CalendarDate::from_ymd_opt(2025, 2, 29), None);
    assert_eq!(CalendarDate::from_ymd_opt(1900, 2, 29), None);
    assert_eq!(CalendarDate::from_ymd_opt(2026, 6, 31), None);
    assert_eq!(CalendarDate::from_ymd_opt(2026, 13, 1), None);
    assert_eq!(CalendarDate::from_ymd_opt(2026, 0, 1), None);
    assert_eq!(CalendarDate::from_ymd_opt(2026, 1, 0), None);
    assert_eq!(CalendarDate::from_ymd_opt(262143, 1, 1), None);
    assert!(CalendarDate::from_ymd_opt(262142, 12, 31).is_some());
    assert!(CalendarDate::from_ymd_opt(-262143, 1, 1).is_some());
    assert_eq!(CalendarDate::from_ymd_opt(-262144, 12, 31), None);
}

#[test]
fn long_format_of_two_digit_day() {
    let d = CalendarDate { year: 2026, month: 6, day: 11 };
    assert_eq!(d.long_format(), "June 11, 2026");
}

#[test]
fn long_format_pads_single_digit_day() {
    let d = CalendarDate { year: 2026, month: 7, day: 1 };
    assert_eq!(d.long_format(), "July  1, 2026");
}

#[test]
fn long_format_years_outside_four_digits() {
    assert_eq!(CalendarDate { year: 999, month: 12, day: 25 }.long_format(), "December 25, 0999");
    assert_eq!(CalendarDate { year: -1, month: 1, day: 5 }.long_format(), "January  5, -0001");
    assert_eq!(CalendarDate { year: 10000, month: 2, day: 29 }.long_format(), "February 29, +10000");
}
