use chrono::{DateTime, Utc};
use evgl_libs::domain::{
    CrossPostRequest, DomainError, EventDraft, ProviderKind, PublishTarget, Timestamp,
};
use evgl_libs::json::Json;

fn ts(secs: i64, nanos: u32) -> Timestamp {
    Timestamp::from_parts(secs, nanos).unwrap()
}

fn event(title: &str, summary: &str, start: Timestamp, end: Timestamp, tz: &str) -> EventDraft {
    EventDraft {
        id: 1,
        owner_id: 2,
        title: title.to_owned(),
        summary: summary.to_owned(),
        description_html: "<p>Details</p>".to_owned(),
        starts_at: start,
        ends_at: end,
        timezone: tz.to_owned(),
        canonical_url: "https://events.example.com/e/1".to_owned(),
        online_url: None,
        tags: vec![],
    }
}

fn invalid_event_message(result: Result<(), DomainError>) -> &'static str {
    match result {
        Err(DomainError::InvalidEvent(m)) => m,
        other => panic!("unexpected {other:?}"),
    }
}

#[test]
fn aliases_parse_to_meta_page() {
    assert_eq!(
        "facebook".parse::<ProviderKind>().unwrap(),
        ProviderKind::MetaFacebookPage
    );
}

#[test]
fn all_provider_names_are_stable() {
    let names: Vec<_> = ProviderKind::ALL
        .into_iter()
        .map(ProviderKind::as_str)
        .collect();
    assert_eq!(
        names,
        vec![
            "eventbrite",
            "meetup",
            "meta_facebook_page",
            "craigslist",
            "generic_webhook"
        ]
    );
}

#[test]
fn every_name_and_alias_parses_back() {
    for kind in ProviderKind::all() {
        assert_eq!(ProviderKind::parse(kind.as_str()).unwrap(), kind);
    }
    assert_eq!("meta".parse::<ProviderKind>().unwrap(), ProviderKind::MetaFacebookPage);
    assert_eq!("webhook".parse::<ProviderKind>().unwrap(), ProviderKind::GenericWebhook);
    match "myspace".parse::<ProviderKind>() {
        Err(DomainError::UnknownProvider(name)) => assert_eq!(name, "myspace"),
        other => panic!("unexpected {other:?}"),
    }
    assert!("Eventbrite".parse::<ProviderKind>().is_err());
}

#[test]
fn domain_errors_display_their_category() {
    assert_eq!(
        DomainError::UnknownProvider("x".to_owned()).to_display_string(),
        "unknown provider: x"
    );
    assert_eq!(
        DomainError::InvalidEvent("timezone cannot be empty").to_display_string(),
        "invalid event: timezone cannot be empty"
    );
    assert_eq!(
        DomainError::InvalidCrossPost("at least one target is required").to_display_string(),
        "invalid cross-post request: at least one target is required"
    );
}

#[test]
fn timestamps_outside_the_calendar_are_rejected() {
    assert!(Timestamp::from_parts(0, 1_000_000_000).is_none());
    assert!(Timestamp::from_parts(8_210_266_876_800, 0).is_none());
    assert!(Timestamp::from_parts(-8_334_601_228_801, 0).is_none());
    assert!(Timestamp::from_parts(8_210_266_876_799, 999_999_999).is_some());
    assert!(Timestamp::from_parts(-8_334_601_228_800, 0).is_some());
}

#[test]
fn event_validation_checks_title_summary_times_and_timezone() {
    let start = ts(1_700_000_000, 0);
    let end = ts(1_700_003_600, 0);
    assert!(event("Launch", "Summary", start, end, "UTC").validate().is_ok());
    assert_eq!(
        invalid_event_message(event("   ", "Summary", start, end, "UTC").validate()),
        "title must contain 1..=200 characters"
    );
    assert_eq!(
        invalid_event_message(event(&"é".repeat(201), "", start, end, "UTC").validate()),
        "title must contain 1..=200 characters"
    );
    assert!(event(&format!("  {}  ", "é".repeat(200)), "", start, end, "UTC").validate().is_ok());
    assert_eq!(
        invalid_event_message(event("Launch", &"ü".repeat(281), start, end, "UTC").validate()),
        "summary cannot exceed 280 characters"
    );
    assert!(event("Launch", &"ü".repeat(280), start, end, "UTC").validate().is_ok());
    assert_eq!(
        invalid_event_message(event("Launch", "", start, start, "UTC").validate()),
        "ends_at must be after starts_at"
    );
    assert_eq!(
        invalid_event_message(event("Launch", "", end, start, "UTC").validate()),
        "ends_at must be after starts_at"
    );
    assert_eq!(
        invalid_event_message(event("Launch", "", start, end, " ").validate()),
        "timezone cannot be empty"
    );
}

#[test]
fn duration_is_whole_minutes_truncated() {
    let start = ts(1_700_000_000, 500_000_000);
    assert_eq!(event("a", "", start, ts(1_700_003_600, 500_000_000), "UTC").duration_minutes(), 60);
    assert_eq!(event("a", "", start, ts(1_700_000_060, 499_999_999), "UTC").duration_minutes(), 0);
    assert_eq!(event("a", "", start, ts(1_700_000_060, 500_000_000), "UTC").duration_minutes(), 1);
    assert_eq!(event("a", "", ts(1_700_000_120, 0), start, "UTC").duration_minutes(), -1);
}

#[test]
fn timestamp_range_is_chronos_range() {
    assert_eq!(DateTime::<Utc>::MIN_UTC.timestamp(), -8_334_601_228_800);
    assert_eq!(DateTime::<Utc>::MAX_UTC.timestamp(), 8_210_266_876_799);
    assert_eq!(
        DateTime::from_timestamp(-8_334_601_228_800, 0).unwrap().to_rfc3339(),
        "-262143-01-01T00:00:00+00:00"
    );
    for secs in [
        -8_334_601_315_200,
        -8_334_601_228_801,
        -8_334_601_228_800,
        -8_334_601_228_741,
        8_210_266_876_799,
        8_210_266_876_800,
    ] {
        for nanos in [0, 999_999_999, 1_000_000_000, 1_999_999_999, 2_000_000_000] {
            assert_eq!(
                Timestamp::from_parts(secs, nanos).is_some(),
                DateTime::from_timestamp(secs, nanos).is_some(),
                "{secs} {nanos}"
            );
        }
    }
}

#[test]
fn leap_seconds_are_held_where_chrono_holds_them() {
    assert!(Timestamp::from_parts(59, 1_500_000_000).is_some());
    assert!(Timestamp::from_parts(-1, 1_999_999_999).is_some());
    assert!(Timestamp::from_parts(58, 1_500_000_000).is_none());
    assert!(Timestamp::from_parts(59, 2_000_000_000).is_none());
    for secs in -130..130_i64 {
        for nanos in [0, 1_000_000_000, 1_999_999_999, 2_000_000_000] {
            assert_eq!(
                Timestamp::from_parts(secs, nanos).is_some(),
                DateTime::from_timestamp(secs, nanos).is_some(),
                "{secs} {nanos}"
            );
        }
    }
}

#[test]
fn durations_count_leap_seconds_as_chrono_does() {
    // A leap second followed, later that day, by an instant two minutes on.
    let leap = ts(59, 1_500_000_000);
    assert_eq!(event("a", "", leap, ts(179, 0), "UTC").duration_minutes(), 1);
    // A leap second at the end of a day, and the next day's first second.
    let midnight_leap = ts(86_399, 1_500_000_000);
    assert_eq!(event("a", "", midnight_leap, ts(86_400, 200_000_000), "UTC").duration_minutes(), 0);
    let instants = [
        (0, 0),
        (59, 1_000_000_000),
        (59, 1_500_000_000),
        (60, 0),
        (119, 1_999_999_999),
        (179, 0),
        (86_399, 1_500_000_000),
        (86_400, 200_000_000),
        (86_519, 0),
        (172_799, 1_000_000_000),
        (-1, 1_200_000_000),
        (-61, 1_700_000_000),
        (-3_600, 300_000_000),
    ];
    for &(s1, n1) in &instants {
        for &(s2, n2) in &instants {
            let expected = (DateTime::from_timestamp(s2, n2).unwrap()
                - DateTime::from_timestamp(s1, n1).unwrap())
            .num_minutes();
            assert_eq!(
                event("a", "", ts(s1, n1), ts(s2, n2), "UTC").duration_minutes(),
                expected,
                "{s1}.{n1} -> {s2}.{n2}"
            );
        }
    }
}

fn request(targets: usize, key: &str) -> CrossPostRequest {
    CrossPostRequest {
        event_id: 7,
        targets: (0..targets)
            .map(|i| PublishTarget {
                provider: ProviderKind::Meetup,
                connection_id: i as u128,
                options: Json::Null,
            })
            .collect(),
        idempotency_key: key.to_owned(),
    }
}

#[test]
fn cross_post_requests_need_targets_and_a_bounded_key() {
    assert!(request(1, "key-1").validate().is_ok());
    assert!(matches!(
        request(0, "key-1").validate(),
        Err(DomainError::InvalidCrossPost("at least one target is required"))
    ));
    assert!(matches!(
        request(2, " \n ").validate(),
        Err(DomainError::InvalidCrossPost("idempotency_key must contain 1..=200 characters"))
    ));
    assert!(request(1, &"k".repeat(200)).validate().is_ok());
    assert!(request(1, &"k".repeat(201)).validate().is_err());
    // the limit counts UTF-8 bytes: 100 two-byte characters fit, 101 do not
    assert!(request(1, &"é".repeat(100)).validate().is_ok());
    assert!(request(1, &"é".repeat(101)).validate().is_err());
}
