use housingplanner::date::{days_in_month, Date, MAX_DAY, MIN_DAY};

#[test]
fn dates_have_chronos_day_numbers_and_text() {
    let d = Date::from_ymd(1, 1, 1).unwrap();
    assert_eq!(d.day_number(), 1);
    let d = Date::from_ymd(1999, 9, 3).unwrap();
    assert_eq!(d.day_number(), 730_000);
    assert_eq!(d.text(), "1999-09-03");
    assert_eq!(d.ymd(), (1999, 9, 3));
    assert!(Date::from_ymd(2015, 2, 29).is_none());
    assert!(Date::from_ymd(2015, 0, 14).is_none());
}

#[test]
fn the_representable_range_matches_chrono() {
    assert_eq!(Date::from_day_number(MIN_DAY).unwrap().text(), "-262143-01-01");
    assert_eq!(Date::from_day_number(MAX_DAY).unwrap().text(), "+262142-12-31");
    assert!(Date::from_day_number(MAX_DAY + 1).is_none());
    assert!(Date::from_day_number(MIN_DAY - 1).is_none());
}

#[test]
fn adding_days_moves_the_day_number() {
    let d = Date::from_ymd(2026, 1, 30).unwrap();
    assert_eq!(d.checked_add_days(3).unwrap().text(), "2026-02-02");
    assert_eq!(d.checked_add_days(-30).unwrap().text(), "2025-12-31");
    assert!(Date::from_day_number(MAX_DAY).unwrap().checked_add_days(1).is_none());
    assert_eq!(d.days_until(d.checked_add_days(5).unwrap()), 5);
    assert!(d.is_before(d.checked_add_days(1).unwrap()));
}

#[test]
fn month_lengths() {
    assert_eq!(days_in_month(2024, 2), 29);
    assert_eq!(days_in_month(2023, 2), 28);
    assert_eq!(days_in_month(2023, 12), 31);
    assert_eq!(days_in_month(2023, 4), 30);
    assert_eq!(days_in_month(2023, 13), 28);
}

#[test]
fn clamped_dates_stay_inside_the_month() {
    assert_eq!(Date::from_ymd_clamped(2023, 2, 31).unwrap().text(), "2023-02-28");
    assert_eq!(Date::from_ymd_clamped(2023, 4, 0).unwrap().text(), "2023-04-01");
}

#[test]
fn today_is_a_representable_date() {
    let t = Date::today();
    assert!(t.day_number() > 738_000);
}

#[test]
fn weekends_are_saturday_and_sunday() {
    // 2026-01-03 is a Saturday.
    assert!(Date::from_ymd(2026, 1, 3).unwrap().is_weekend());
    assert!(Date::from_ymd(2026, 1, 4).unwrap().is_weekend());
    assert!(!Date::from_ymd(2026, 1, 5).unwrap().is_weekend());
    assert!(!Date::from_ymd(2026, 1, 2).unwrap().is_weekend());
    // January 1, 1 CE (day 1) was a Monday.
    assert!(!Date::from_day_number(1).unwrap().is_weekend());
    assert!(Date::from_day_number(6).unwrap().is_weekend());
    // The week runs on before day 1: day 0 a Sunday, day -1 a Saturday, day -2 a Friday.
    assert!(Date::from_day_number(0).unwrap().is_weekend());
    assert!(Date::from_day_number(-1).unwrap().is_weekend());
    assert!(!Date::from_day_number(-2).unwrap().is_weekend());
}

#[test]
fn column_labels_show_day_and_month() {
    assert_eq!(Date::from_ymd(2026, 1, 5).unwrap().day_month_label(), "05 Jan");
    assert_eq!(Date::from_ymd(1999, 9, 30).unwrap().day_month_label(), "30 Sep");
}
