use forex_calendar::date::{format_week_param, month_abbreviation_of};
use forex_calendar::{Date, LocalDateTime, TimeOfDay};

fn day(year: i32, month: u32, day: u32) -> Date {
    Date::from_ymd_opt(year, month, day).unwrap()
}

#[test]
fn browser_test_format_week_param() {
    let date = Date::from_ymd_opt(2025, 6, 4).unwrap();
    assert_eq!(format_week_param(date), "jun4.2025");

    let date = Date::from_ymd_opt(2025, 1, 15).unwrap();
    assert_eq!(format_week_param(date), "jan15.2025");

    let date = Date::from_ymd_opt(2025, 12, 25).unwrap();
    assert_eq!(format_week_param(date), "dec25.2025");
}

#[test]
fn http_client_test_format_week_param() {
    let date = Date::from_ymd_opt(2025, 6, 4).unwrap();
    assert_eq!(format_week_param(date), "jun4.2025");
}

#[test]
fn week_param_of_every_month() {
    let names = [
        "jan", "feb", "mar", "apr", "may", "jun", "jul", "aug", "sep", "oct", "nov", "dec",
    ];
    for (i, name) in names.iter().enumerate() {
        let date = day(1999, i as u32 + 1, 28);
        assert_eq!(format_week_param(date), format!("{name}28.1999"));
    }
    assert_eq!(format_week_param(day(-5, 3, 1)), "mar1.-5");
}

#[test]
fn days_of_the_calendar() {
    assert_eq!(
        Date::from_ymd_opt(2015, 3, 14),
        Some(Date { year: 2015, month: 3, day: 14 })
    );
    assert_eq!(Date::from_ymd_opt(2015, 0, 14), None);
    assert_eq!(Date::from_ymd_opt(2015, 13, 14), None);
    assert_eq!(Date::from_ymd_opt(2015, 2, 29), None);
    assert_eq!(Date::from_ymd_opt(2016, 2, 29), Some(Date { year: 2016, month: 2, day: 29 }));
    assert_eq!(Date::from_ymd_opt(1900, 2, 29), None);
    assert_eq!(Date::from_ymd_opt(2000, 2, 29), Some(Date { year: 2000, month: 2, day: 29 }));
    assert!(Date::from_ymd_opt(-4, 2, 29).is_some());
    assert_eq!(Date::from_ymd_opt(2023, 4, 31), None);
    assert_eq!(Date::from_ymd_opt(2023, 4, 0), None);
    assert!(Date::from_ymd_opt(262142, 12, 31).is_some());
    assert!(Date::from_ymd_opt(262143, 1, 1).is_none());
    assert!(Date::from_ymd_opt(-262143, 1, 1).is_some());
    assert!(Date::from_ymd_opt(-262144, 12, 31).is_none());
    assert!(Date { year: 2025, month: 6, day: 30 }.is_valid());
    assert!(!Date { year: 2025, month: 6, day: 31 }.is_valid());
}

#[test]
fn order_of_days() {
    assert!(day(2025, 5, 31).is_before(&day(2025, 6, 1)));
    assert!(day(2024, 12, 31).is_before(&day(2025, 1, 1)));
    assert!(day(2025, 6, 1).is_before(&day(2025, 6, 2)));
    assert!(!day(2025, 6, 1).is_before(&day(2025, 6, 1)));
    assert!(!day(2025, 6, 2).is_before(&day(2025, 6, 1)));
    assert!(!day(2025, 1, 1).is_before(&day(2024, 12, 31)));
}

#[test]
fn days_later_and_earlier() {
    assert_eq!(day(2025, 6, 4).checked_add_days(3), Some(day(2025, 6, 7)));
    assert_eq!(day(2025, 6, 4).checked_sub_days(3), Some(day(2025, 6, 1)));
    assert_eq!(day(2025, 6, 4).checked_add_days(0), Some(day(2025, 6, 4)));
    assert_eq!(day(2024, 2, 28).checked_add_days(2), Some(day(2024, 3, 1)));
    assert_eq!(day(2025, 2, 28).checked_add_days(2), Some(day(2025, 3, 2)));
    assert_eq!(day(2025, 12, 30).checked_add_days(3), Some(day(2026, 1, 2)));
    assert_eq!(day(2025, 1, 2).checked_sub_days(3), Some(day(2024, 12, 30)));
    assert_eq!(day(2024, 3, 1).checked_sub_days(1), Some(day(2024, 2, 29)));
    assert_eq!(day(2025, 1, 1).checked_add_days(365), Some(day(2026, 1, 1)));
    assert_eq!(day(262142, 12, 30).checked_add_days(1), Some(day(262142, 12, 31)));
    assert_eq!(day(262142, 12, 30).checked_add_days(2), None);
    assert_eq!(day(-262143, 1, 2).checked_sub_days(1), Some(day(-262143, 1, 1)));
    assert_eq!(day(-262143, 1, 2).checked_sub_days(2), None);
    assert_eq!(day(2025, 1, 1).checked_add_days(u32::MAX), None);
    assert_eq!(day(2025, 1, 1).checked_sub_days(u32::MAX), None);
}

#[test]
fn iso_dates() {
    assert_eq!(Date::parse_iso("2025-06-04"), Some(day(2025, 6, 4)));
    assert_eq!(Date::parse_iso("2025-02-30"), None);
    assert_eq!(Date::parse_iso("04/06/2025"), None);
    assert_eq!(Date::parse_iso(""), None);
}

#[test]
fn times_of_day() {
    assert_eq!(
        TimeOfDay::from_hms_opt(23, 59, 59),
        Some(TimeOfDay { hour: 23, minute: 59, second: 59 })
    );
    assert_eq!(TimeOfDay::from_hms_opt(24, 0, 0), None);
    assert_eq!(TimeOfDay::from_hms_opt(0, 60, 0), None);
    assert_eq!(TimeOfDay::from_hms_opt(0, 0, 60), None);
    assert_eq!(TimeOfDay::midnight(), TimeOfDay { hour: 0, minute: 0, second: 0 });
}

#[test]
fn resolving_from_the_zone_answers() {
    let date = day(2025, 6, 4);
    let time = TimeOfDay { hour: 12, minute: 0, second: 0 };
    assert_eq!(
        LocalDateTime::resolve(date, time, Some(7200), Some(-18000)),
        LocalDateTime { date, time, utc_offset: 7200 }
    );
    assert_eq!(
        LocalDateTime::resolve(date, time, Some(7200), None),
        LocalDateTime { date, time, utc_offset: 7200 }
    );
    assert_eq!(
        LocalDateTime::resolve(date, time, None, Some(-18000)),
        LocalDateTime { date, time, utc_offset: -18000 }
    );
    assert_eq!(
        LocalDateTime::resolve(date, time, None, None),
        LocalDateTime { date, time, utc_offset: 0 }
    );
}

#[test]
fn local_binding_keeps_the_wall_clock() {
    for (y, m, d, h, mi, s) in [
        (2025, 6, 4, 12, 0, 0),
        (2026, 1, 13, 8, 30, 0),
        (2025, 3, 9, 2, 30, 0),
        (2025, 3, 30, 2, 30, 0),
        (2025, 10, 26, 2, 30, 0),
        (2025, 11, 2, 1, 30, 0),
        (1970, 1, 1, 0, 0, 0),
        (262142, 12, 31, 23, 59, 59),
        (-262143, 1, 1, 0, 0, 0),
    ] {
        let date = day(y, m, d);
        let time = TimeOfDay { hour: h, minute: mi, second: s };
        let at = LocalDateTime::from_local(date, time);
        assert_eq!(at.date, date);
        assert_eq!(at.time, time);
        assert!(at.is_valid());
        assert_eq!(at.date_naive(), date);
    }
}

#[test]
fn calendar_agrees_with_chrono() {
    let years = [
        -262144, -262143, -401, -400, -100, -5, -4, -1, 0, 1, 4, 100, 400, 1900, 1999, 2000, 2023,
        2024, 2025, 2100, 262142, 262143,
    ];
    for year in years {
        for month in 0..=13u32 {
            for day in 0..=32u32 {
                let ours = Date::from_ymd_opt(year, month, day);
                let theirs = chrono::NaiveDate::from_ymd_opt(year, month, day);
                assert_eq!(ours.is_some(), theirs.is_some());
                if ours.is_some() {
                    assert_eq!(ours, Some(Date { year, month, day }));
                }
                assert_eq!(Date { year, month, day }.is_valid(), theirs.is_some());
            }
        }
    }
}

#[test]
fn month_names_agree_with_chrono() {
    for month in 1..=12u32 {
        let theirs = chrono::NaiveDate::from_ymd_opt(2025, month, 1)
            .unwrap()
            .format("%b")
            .to_string();
        assert_eq!(month_abbreviation_of(month), theirs);
    }
    assert_eq!(month_abbreviation_of(1), "Jan");
    assert_eq!(month_abbreviation_of(12), "Dec");
}

#[test]
fn rfc3339_text_of_an_instant() {
    let at = LocalDateTime {
        date: day(2025, 6, 4),
        time: TimeOfDay { hour: 12, minute: 0, second: 0 },
        utc_offset: 7200,
    };
    assert_eq!(at.to_rfc3339(), Some("2025-06-04T12:00:00+02:00".to_string()));
    let at = LocalDateTime {
        date: day(2026, 1, 13),
        time: TimeOfDay { hour: 8, minute: 30, second: 5 },
        utc_offset: -(5 * 3600 + 1800),
    };
    assert_eq!(at.to_rfc3339(), Some("2026-01-13T08:30:05-05:30".to_string()));
    let at = LocalDateTime {
        date: day(2026, 1, 13),
        time: TimeOfDay { hour: 0, minute: 0, second: 0 },
        utc_offset: 0,
    };
    assert_eq!(at.to_rfc3339(), Some("2026-01-13T00:00:00+00:00".to_string()));
    let at = LocalDateTime {
        date: day(262142, 12, 31),
        time: TimeOfDay { hour: 23, minute: 0, second: 0 },
        utc_offset: -7200,
    };
    assert_eq!(at.to_rfc3339(), None);
}

#[test]
fn ill_formed_instant_has_no_text() {
    let at = LocalDateTime {
        date: Date { year: 2025, month: 2, day: 30 },
        time: TimeOfDay { hour: 0, minute: 0, second: 0 },
        utc_offset: 0,
    };
    assert!(!at.is_valid());
    assert_eq!(at.to_rfc3339(), None);
    let at = LocalDateTime {
        date: Date { year: 2025, month: 2, day: 3 },
        time: TimeOfDay { hour: 0, minute: 0, second: 0 },
        utc_offset: 86_400,
    };
    assert!(!at.is_valid());
    assert_eq!(at.to_rfc3339(), None);
}
