use event_analytics::analytics::models::{Interval, Metric};
use event_analytics::analytics::validation::{period_from_lowercase, validate_metric, validate_period};
use event_analytics::errors::EventError;
use event_analytics::models::EventType;
use event_analytics::validator::{event_type_from_lowercase, validate_event_type};

#[test]
fn test_validate_metric_valid() {
    assert!(validate_metric("clicks").is_some());
    assert!(validate_metric("views").is_some());
    assert!(validate_metric("purchases").is_some());
}

#[test]
fn test_validate_metric_invalid() {
    assert!(validate_metric("invalid").is_none());
    assert!(validate_metric("").is_none());
}

#[test]
fn test_validate_period_valid() {
    assert!(validate_period("1h").is_some());
    assert!(validate_period("24h").is_some());
    assert!(validate_period("7d").is_some());
}

#[test]
fn test_validate_period_invalid() {
    assert!(validate_period("2h").is_none());
    assert!(validate_period("").is_none());
}

#[test]
fn test_validate_event_type_valid() {
    assert!(validate_event_type("click").is_ok());
    assert!(validate_event_type("view").is_ok());
    assert!(validate_event_type("purchase").is_ok());
}

#[test]
fn test_validate_event_type_invalid() {
    assert!(validate_event_type("").is_err());
    assert!(validate_event_type("invalid").is_err());
}

#[test]
fn metric_names_map_to_their_metric_and_are_case_sensitive() {
    assert_eq!(validate_metric("clicks"), Some(Metric::Clicks));
    assert_eq!(validate_metric("views"), Some(Metric::Views));
    assert_eq!(validate_metric("purchases"), Some(Metric::Purchases));
    assert_eq!(validate_metric("Clicks"), None);
    assert_eq!(validate_metric("click"), None);
}

#[test]
fn periods_ignore_letter_case() {
    assert_eq!(validate_period("1H"), Some(Interval::OneHour));
    assert_eq!(validate_period("24H"), Some(Interval::TwentyFourHours));
    assert_eq!(validate_period("7D"), Some(Interval::SevenDays));
    assert_eq!(validate_period(" 1h"), None);
    assert_eq!(period_from_lowercase("7d"), Some(Interval::SevenDays));
    assert_eq!(period_from_lowercase("7D"), None);
}

#[test]
fn event_types_ignore_letter_case() {
    assert_eq!(validate_event_type("CLICK"), Ok(EventType::Click));
    assert_eq!(validate_event_type("View"), Ok(EventType::View));
    assert_eq!(validate_event_type("PurChase"), Ok(EventType::Purchase));
    assert_eq!(validate_event_type("clicks"), Err(EventError::UnknownEvent));
    assert_eq!(event_type_from_lowercase("purchase"), Ok(EventType::Purchase));
    assert_eq!(event_type_from_lowercase("Purchase"), Err(EventError::UnknownEvent));
}

#[test]
fn names_read_back() {
    for m in [Metric::Clicks, Metric::Views, Metric::Purchases] {
        assert_eq!(validate_metric(m.table()), Some(m));
    }
    for i in [Interval::OneHour, Interval::TwentyFourHours, Interval::SevenDays] {
        assert_eq!(validate_period(i.as_param()), Some(i));
    }
}

#[test]
fn interval_and_metric_spellings() {
    assert_eq!(Interval::OneHour.as_param(), "1h");
    assert_eq!(Interval::TwentyFourHours.as_param(), "24h");
    assert_eq!(Interval::SevenDays.as_param(), "7d");
    assert_eq!(Interval::OneHour.to_string(), "1 HOUR");
    assert_eq!(Interval::TwentyFourHours.to_string(), "24 HOUR");
    assert_eq!(Interval::SevenDays.to_string(), "7 DAY");
    assert_eq!(Metric::Clicks.table(), "clicks");
    assert_eq!(Metric::Views.table(), "views");
    assert_eq!(Metric::Purchases.table(), "purchases");
}

#[test]
fn topics_of_event_types() {
    assert_eq!(EventType::Click.as_topic(), "events.clicks");
    assert_eq!(EventType::View.as_topic(), "events.views");
    assert_eq!(EventType::Purchase.as_topic(), "events.purchases");
    for t in [EventType::Click, EventType::View, EventType::Purchase] {
        assert_eq!(EventType::from_topic(&t.as_topic()), Some(t));
    }
    assert_eq!(EventType::from_topic("events.click"), None);
    assert_eq!(EventType::from_topic("EVENTS.CLICKS"), None);
}

#[test]
fn event_error_statuses_and_messages() {
    assert_eq!(EventError::Timestamp.status_code(), 400);
    assert_eq!(EventError::UnknownEvent.status_code(), 400);
    assert_eq!(EventError::KafkaError.status_code(), 503);
    assert_eq!(EventError::SerError.status_code(), 500);
    assert_eq!(EventError::Timestamp.message(), "Invalid timestamp");
    assert_eq!(EventError::UnknownEvent.message(), "Unknown event");
    assert_eq!(EventError::KafkaError.message(), "kafka unavailable");
    assert_eq!(EventError::SerError.message(), "serialization error");
}
