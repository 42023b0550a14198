use valu3::datetime::{DateTime, Duration};

#[test]
fn test_add_duration() {
    let dt_date = DateTime::from_ymd_opt(2023, 4, 5);
    let dt_datetime = DateTime::with_ymd_and_hms(2023, 4, 5, 12, 34, 56);

    assert_eq!(
        dt_date.add_duration(Duration::days(1)),
        Some(DateTime::from_ymd_opt(2023, 4, 6))
    );
    assert_eq!(
        dt_datetime.add_duration(Duration::days(1)),
        Some(DateTime::with_ymd_and_hms(2023, 4, 6, 12, 34, 56))
    );
}

#[test]
fn test_subtract_duration() {
    let dt_date = DateTime::from_ymd_opt(2023, 4, 5);
    let dt_datetime = DateTime::with_ymd_and_hms(2023, 4, 5, 12, 34, 56);

    assert_eq!(
        dt_date.subtract_duration(Duration::days(1)),
        Some(DateTime::from_ymd_opt(2023, 4, 4))
    );
    assert_eq!(
        dt_datetime.subtract_duration(Duration::days(1)),
        Some(DateTime::with_ymd_and_hms(2023, 4, 4, 12, 34, 56))
    );
}

#[test]
fn test_duration_between() {
    let dt_date1 = DateTime::from_ymd_opt(2023, 4, 5);
    let dt_date2 = DateTime::from_ymd_opt(2023, 4, 6);
    let dt_datetime1 = DateTime::with_ymd_and_hms(2023, 4, 5, 12, 34, 56);
    let dt_datetime2 = DateTime::with_ymd_and_hms(2023, 4, 6, 12, 34, 56);

    assert_eq!(
        dt_date1.duration_between(&dt_date2),
        Some(Duration::days(1))
    );
    assert_eq!(
        dt_datetime1.duration_between(&dt_datetime2),
        Some(Duration::days(1))
    );
}

#[test]
fn parsing_and_formatting_dates() {
    let date = DateTime::parse("2023-04-05").unwrap();
    assert_eq!(date.to_iso8601(), "2023-04-05");
    assert_eq!(date.year(), Some(2023));
    assert_eq!(date.month(), Some(4));
    assert_eq!(date.day(), Some(5));

    let time = DateTime::parse("12:34:56").unwrap();
    assert_eq!(time.hour(), Some(12));
    assert_eq!(time.minute(), Some(34));
    assert_eq!(time.second(), Some(56));

    let instant = DateTime::parse("2023-04-05T00:00:00Z").unwrap();
    assert_eq!(instant.to_rfc3339(), "2023-04-05T00:00:00+00:00");
    assert_eq!(instant.to_iso8601(), "2023-04-05T00:00:00");
    assert!(instant.timestamp().is_some());
    assert_eq!(DateTime::parse("not a date"), None);

    let now = DateTime::now();
    assert!(now.timestamp().is_some());

    let bad = DateTime::try_from_ymd(2023, 2, 30);
    assert_eq!(bad, None);
    let good = DateTime::try_from_ymd(2024, 2, 29);
    assert_eq!(good, Some(DateTime::from_ymd_opt(2024, 2, 29)));
}

#[test]
fn instant_arithmetic_carries_nanoseconds() {
    let instant = DateTime::parse("2023-04-05T00:00:00.500Z").unwrap();
    let later = instant
        .add_duration(Duration { secs: 0, nanos: 600_000_000 })
        .unwrap();
    assert_eq!(later.timestamp(), Some(instant.timestamp().unwrap() + 1));
    assert_eq!(later.to_iso8601(), "2023-04-05T00:00:01");

    let back = later
        .subtract_duration(Duration { secs: 0, nanos: 600_000_000 })
        .unwrap();
    assert_eq!(back, instant);

    let gap = instant.duration_between(&later).unwrap();
    assert_eq!(gap, Duration { secs: 0, nanos: 600_000_000 });
    let reverse = later.duration_between(&instant).unwrap();
    assert_eq!(reverse, Duration { secs: -1, nanos: 400_000_000 });
}
