use forex_calendar::{Date, EconomicEvent, EventQuery, Impact, LocalDateTime, TimeOfDay};

fn sample_event(currency: &str, impact: Impact) -> EconomicEvent {
    EconomicEvent {
        name: "Test Event".to_string(),
        currency: currency.to_string(),
        impact,
        datetime: local(2025, 6, 4, 12, 0, 0),
        actual: None,
        forecast: Some("1.5%".to_string()),
        previous: Some("1.2%".to_string()),
    }
}

fn local(year: i32, month: u32, day: u32, hour: u32, minute: u32, second: u32) -> LocalDateTime {
    LocalDateTime::from_local(
        Date::from_ymd_opt(year, month, day).unwrap(),
        TimeOfDay::from_hms_opt(hour, minute, second).unwrap(),
    )
}

fn wall(year: i32, month: u32, day: u32, hour: u32, minute: u32, second: u32) -> LocalDateTime {
    LocalDateTime {
        date: Date { year, month, day },
        time: TimeOfDay { hour, minute, second },
        utc_offset: 0,
    }
}

fn dated(name: &str, currency: &str, impact: Impact, at: LocalDateTime) -> EconomicEvent {
    EconomicEvent {
        name: name.to_string(),
        currency: currency.to_string(),
        impact,
        datetime: at,
        actual: None,
        forecast: None,
        previous: None,
    }
}

#[test]
fn test_meets_impact() {
    let high_event = sample_event("USD", Impact::High);
    let medium_event = sample_event("USD", Impact::Medium);
    let low_event = sample_event("USD", Impact::Low);

    assert!(high_event.meets_impact(Impact::Low));
    assert!(high_event.meets_impact(Impact::Medium));
    assert!(high_event.meets_impact(Impact::High));

    assert!(medium_event.meets_impact(Impact::Low));
    assert!(medium_event.meets_impact(Impact::Medium));
    assert!(!medium_event.meets_impact(Impact::High));

    assert!(low_event.meets_impact(Impact::Low));
    assert!(!low_event.meets_impact(Impact::Medium));
    assert!(!low_event.meets_impact(Impact::High));
}

#[test]
fn test_matches_currencies() {
    let usd_event = sample_event("USD", Impact::High);

    assert!(usd_event.matches_currencies(&[]));
    assert!(usd_event.matches_currencies(&["USD".to_string()]));
    assert!(usd_event.matches_currencies(&["usd".to_string()]));
    assert!(usd_event.matches_currencies(&["EUR".to_string(), "USD".to_string()]));
    assert!(!usd_event.matches_currencies(&["EUR".to_string(), "GBP".to_string()]));
}

#[test]
fn test_with_currency_pair() {
    let query = EventQuery::new().with_currency_pair("AUD/CHF");
    assert_eq!(query.currencies, vec!["AUD", "CHF"]);

    let query = EventQuery::new().with_currency_pair("EUR-USD");
    assert_eq!(query.currencies, vec!["EUR", "USD"]);

    let query = EventQuery::new().with_currency_pair("gbp_jpy");
    assert_eq!(query.currencies, vec!["GBP", "JPY"]);
}

#[test]
fn test_with_single_currency() {
    let query = EventQuery::new().with_currency("usd");
    assert_eq!(query.currencies, vec!["USD"]);
}

#[test]
fn test_with_week_around() {
    let date = Date::from_ymd_opt(2025, 6, 4).unwrap();
    let query = EventQuery::new().with_week_around(date);

    assert_eq!(
        query.from_date,
        Some(Date::from_ymd_opt(2025, 6, 1).unwrap())
    );
    assert_eq!(
        query.to_date,
        Some(Date::from_ymd_opt(2025, 6, 7).unwrap())
    );
}

#[test]
fn test_with_min_stars() {
    let query = EventQuery::new().with_min_stars(2);
    assert_eq!(query.min_impact, Some(Impact::Medium));
}

#[test]
fn test_datetime_in_range() {
    let query = EventQuery::new().with_date_range(
        Date::from_ymd_opt(2025, 6, 1).unwrap(),
        Date::from_ymd_opt(2025, 6, 7).unwrap(),
    );

    let dt = local(2025, 6, 4, 12, 0, 0);
    assert!(query.datetime_in_range(&dt));

    let dt = local(2025, 5, 31, 12, 0, 0);
    assert!(!query.datetime_in_range(&dt));

    let dt = local(2025, 6, 8, 12, 0, 0);
    assert!(!query.datetime_in_range(&dt));

    let dt = local(2025, 6, 1, 0, 0, 0);
    assert!(query.datetime_in_range(&dt));

    let dt = local(2025, 6, 7, 23, 59, 59);
    assert!(query.datetime_in_range(&dt));
}

#[test]
fn test_datetime_in_range_open_ended() {
    let query = EventQuery::new();
    let dt = local(2025, 6, 4, 12, 0, 0);
    assert!(query.datetime_in_range(&dt));

    let query = EventQuery {
        from_date: Some(Date::from_ymd_opt(2025, 6, 1).unwrap()),
        ..Default::default()
    };
    assert!(query.datetime_in_range(&local(2025, 6, 4, 12, 0, 0)));
    assert!(query.datetime_in_range(&local(2099, 1, 1, 0, 0, 0)));
    assert!(!query.datetime_in_range(&local(2025, 5, 31, 0, 0, 0)));
}

#[test]
fn range_bounds_are_inclusive_on_the_wall_clock() {
    let query = EventQuery::new().with_date_range(
        Date { year: 2025, month: 6, day: 1 },
        Date { year: 2025, month: 6, day: 7 },
    );
    assert!(query.datetime_in_range(&wall(2025, 6, 1, 0, 0, 0)));
    assert!(query.datetime_in_range(&wall(2025, 6, 7, 23, 59, 59)));
    assert!(!query.datetime_in_range(&wall(2025, 5, 31, 23, 59, 59)));
    assert!(!query.datetime_in_range(&wall(2025, 6, 8, 0, 0, 0)));
    assert!(!query.datetime_in_range(&wall(2024, 6, 4, 0, 0, 0)));
    assert!(!query.datetime_in_range(&wall(2026, 6, 4, 0, 0, 0)));

    let until = EventQuery {
        to_date: Some(Date { year: 2025, month: 6, day: 7 }),
        ..Default::default()
    };
    assert!(until.datetime_in_range(&wall(1999, 1, 1, 0, 0, 0)));
    assert!(until.datetime_in_range(&wall(2025, 6, 7, 12, 0, 0)));
    assert!(!until.datetime_in_range(&wall(2025, 6, 8, 0, 0, 0)));
}

#[test]
fn default_query_is_unrestricted() {
    let query = EventQuery::default();
    assert!(query.currencies.is_empty());
    assert_eq!(query.from_date, None);
    assert_eq!(query.to_date, None);
    assert_eq!(query.min_impact, None);
    let query = EventQuery::new();
    assert!(query.currencies.is_empty());
    assert_eq!(query.from_date, None);
    assert_eq!(query.to_date, None);
    assert_eq!(query.min_impact, None);
}

#[test]
fn builders_keep_the_other_fields() {
    let query = EventQuery::new()
        .with_min_impact(Impact::High)
        .with_date_range(Date { year: 2025, month: 6, day: 1 }, Date { year: 2025, month: 6, day: 7 })
        .with_currencies(vec!["eur".to_string(), "Usd".to_string()]);
    assert_eq!(query.currencies, vec!["EUR", "USD"]);
    assert_eq!(query.min_impact, Some(Impact::High));
    assert_eq!(query.from_date, Some(Date { year: 2025, month: 6, day: 1 }));
    assert_eq!(query.to_date, Some(Date { year: 2025, month: 6, day: 7 }));
    let query = query.with_min_stars(0);
    assert_eq!(query.min_impact, None);
    assert_eq!(query.currencies, vec!["EUR", "USD"]);
    let query = query.with_currency_pair(" / ");
    assert!(query.currencies.is_empty());
    assert_eq!(query.from_date, Some(Date { year: 2025, month: 6, day: 1 }));
}

#[test]
fn week_around_the_end_of_the_calendar() {
    let query = EventQuery::new().with_week_around(Date { year: 262142, month: 12, day: 30 });
    assert_eq!(query.from_date, Some(Date { year: 262142, month: 12, day: 27 }));
    assert_eq!(query.to_date, None);
}

#[test]
fn filter_with_default_query_keeps_everything() {
    let events = vec![
        dated("A", "USD", Impact::High, wall(2025, 6, 4, 8, 30, 0)),
        dated("B", "eur", Impact::Low, wall(1999, 1, 1, 0, 0, 0)),
        dated("C", "JPY", Impact::Medium, wall(2030, 12, 31, 23, 59, 59)),
    ];
    assert_eq!(EventQuery::default().filter(&events), events);
    assert_eq!(EventQuery::new().filter(&events), events);
    assert!(EventQuery::default().filter(&[]).is_empty());
}

#[test]
fn filter_is_stable_and_applies_all_three_rules() {
    let events = vec![
        dated("A", "USD", Impact::High, wall(2025, 6, 4, 8, 30, 0)),
        dated("B", "EUR", Impact::High, wall(2025, 6, 4, 9, 0, 0)),
        dated("C", "usd", Impact::Low, wall(2025, 6, 5, 8, 30, 0)),
        dated("D", "USD", Impact::Medium, wall(2025, 6, 9, 8, 30, 0)),
        dated("E", "Usd", Impact::Medium, wall(2025, 6, 7, 23, 59, 59)),
        dated("F", "USD", Impact::High, wall(2025, 6, 1, 0, 0, 0)),
    ];
    let query = EventQuery::new()
        .with_currency("usd")
        .with_min_impact(Impact::Medium)
        .with_date_range(Date { year: 2025, month: 6, day: 1 }, Date { year: 2025, month: 6, day: 7 });
    let kept = query.filter(&events);
    let names: Vec<&str> = kept.iter().map(|e| e.name.as_str()).collect();
    assert_eq!(names, vec!["A", "E", "F"]);
    assert_eq!(kept[0], events[0]);
    for event in &events {
        assert_eq!(query.matches(event), kept.contains(event));
    }
    assert_eq!(query.filter(&kept), kept);
}

#[test]
fn currency_matching_rules() {
    let event = dated("A", "USD", Impact::Low, wall(2025, 6, 4, 0, 0, 0));
    assert!(event.matches_currencies(&[]));
    assert!(event.matches_currencies(&["usd".to_string()]));
    assert!(event.matches_currencies(&["Usd".to_string()]));
    assert!(!event.matches_currencies(&["US".to_string()]));
    assert!(!event.matches_currencies(&["EUR".to_string()]));
    assert!(!event.matches_currencies(&["".to_string()]));
    assert_eq!(event.duplicate(), event);
}
