use todui::date::{Date, MAX_YEAR, MIN_YEAR};

fn date(year: i32, month: u32, day: u32) -> Date {
    Date::from_ymd_opt(year, month, day).unwrap()
}

#[test]
fn date_keeps_year_month_day() {
    let d = date(2025, 8, 14);
    assert_eq!(d.year(), 2025);
    assert_eq!(d.month(), 8);
    assert_eq!(d.day(), 14);
}

#[test]
fn date_rejects_days_that_do_not_exist() {
    assert!(Date::from_ymd_opt(2025, 2, 29).is_none());
    assert!(Date::from_ymd_opt(2025, 4, 31).is_none());
    assert!(Date::from_ymd_opt(2025, 13, 1).is_none());
    assert!(Date::from_ymd_opt(2025, 0, 1).is_none());
    assert!(Date::from_ymd_opt(2025, 1, 0).is_none());
    assert!(Date::from_ymd_opt(1900, 2, 29).is_none());
}

#[test]
fn date_accepts_leap_days() {
    assert!(Date::from_ymd_opt(2024, 2, 29).is_some());
    assert!(Date::from_ymd_opt(2000, 2, 29).is_some());
    assert!(Date::from_ymd_opt(-4, 2, 29).is_some());
    assert!(Date::from_ymd_opt(0, 2, 29).is_some());
}

#[test]
fn date_year_range_is_that_of_chrono() {
    assert_eq!(MIN_YEAR, chrono::NaiveDate::MIN.format("%Y").to_string().parse::<i32>().unwrap());
    assert_eq!(MAX_YEAR, chrono::NaiveDate::MAX.format("%Y").to_string().parse::<i32>().unwrap());
    assert!(Date::from_ymd_opt(MAX_YEAR, 12, 31).is_some());
    assert!(Date::from_ymd_opt(MIN_YEAR, 1, 1).is_some());
    assert!(Date::from_ymd_opt(MAX_YEAR + 1, 1, 1).is_none());
    assert!(Date::from_ymd_opt(MIN_YEAR - 1, 12, 31).is_none());
}

#[test]
fn date_text_is_zero_padded() {
    assert_eq!(date(2025, 8, 14).to_text(), "2025-08-14");
    assert_eq!(date(2025, 12, 31).to_text(), "2025-12-31");
    assert_eq!(date(5, 1, 2).to_text(), "0005-01-02");
    assert_eq!(date(0, 1, 1).to_text(), "0000-01-01");
    assert_eq!(date(987, 10, 9).to_text(), "0987-10-09");
    assert_eq!(date(9999, 12, 31).to_text(), "9999-12-31");
}

#[test]
fn date_text_has_a_sign_outside_four_digits() {
    assert_eq!(date(10000, 1, 1).to_text(), "+10000-01-01");
    assert_eq!(date(12345, 6, 7).to_text(), "+12345-06-07");
    assert_eq!(date(-4, 2, 29).to_text(), "-0004-02-29");
    assert_eq!(date(-1, 12, 31).to_text(), "-0001-12-31");
    assert_eq!(date(-12345, 3, 4).to_text(), "-12345-03-04");
    assert_eq!(date(MAX_YEAR, 12, 31).to_text(), "+262142-12-31");
    assert_eq!(date(MIN_YEAR, 1, 1).to_text(), "-262143-01-01");
}

#[test]
fn date_parse_reads_what_to_text_prints() {
    for (y, m, d) in [
        (2025, 8, 14),
        (1, 1, 1),
        (0, 2, 29),
        (9999, 12, 31),
        (10000, 1, 1),
        (-1, 12, 31),
        (-12345, 3, 4),
        (MAX_YEAR, 12, 31),
        (MIN_YEAR, 1, 1),
    ] {
        let day = date(y, m, d);
        assert_eq!(Date::parse(&day.to_text()), Some(day));
    }
}

#[test]
fn date_parse_is_lenient_with_padding() {
    assert_eq!(Date::parse("2025-8-4"), Some(date(2025, 8, 4)));
    assert_eq!(Date::parse("2025-08-14"), Some(date(2025, 8, 14)));
    assert_eq!(Date::parse("25-08-14"), Some(date(25, 8, 14)));
}

#[test]
fn date_parse_refuses_what_is_no_date() {
    assert_eq!(Date::parse(""), None);
    assert_eq!(Date::parse("today"), None);
    assert_eq!(Date::parse("2025-02-30"), None);
    assert_eq!(Date::parse("2025-13-01"), None);
    assert_eq!(Date::parse("2025-08"), None);
    assert_eq!(Date::parse("2025-08-14 and more"), None);
    assert_eq!(Date::parse("14.08.2025"), None);
}

#[test]
fn date_is_before_orders_by_year_then_month_then_day() {
    let d = date(2025, 8, 14);
    assert!(date(2024, 12, 31).is_before(&d));
    assert!(date(2025, 7, 31).is_before(&d));
    assert!(date(2025, 8, 13).is_before(&d));
    assert!(!d.is_before(&d));
    assert!(!date(2025, 8, 15).is_before(&d));
    assert!(!date(2025, 9, 1).is_before(&d));
    assert!(!date(2026, 1, 1).is_before(&d));
    assert!(date(-1, 12, 31).is_before(&date(0, 1, 1)));
}

#[test]
fn date_equality_is_by_value() {
    assert_eq!(date(2025, 8, 14), date(2025, 8, 14));
    assert_ne!(date(2025, 8, 14), date(2025, 8, 15));
}
