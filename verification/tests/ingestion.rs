use event_analytics::errors::EventError;
use event_analytics::ingestion::route_event;
use event_analytics::models::{Event, Metadata};
use event_analytics::time::Timestamp;

fn event() -> Event {
    Event {
        user_id: 0x550e8400e29b41d4a716446655440000,
        product_id: 0x660e8400e29b41d4a716446655440001,
        session_id: 0x770e8400e29b41d4a716446655440002,
        timestamp: Timestamp::parse_rfc3339("2026-04-22T10:45:00Z").unwrap(),
        metadata: Metadata { source: None, position: None, category: None, amount: None },
    }
}

#[test]
fn accepted_events_go_to_their_topic_keyed_by_user() {
    let r = route_event("View", &event()).unwrap();
    assert_eq!(r.topic, "events.views");
    assert_eq!(r.key, "550e8400-e29b-41d4-a716-446655440000");
    let r = route_event("purchase", &event()).unwrap();
    assert_eq!(r.topic, "events.purchases");
    assert!(matches!(route_event("refund", &event()), Err(EventError::UnknownEvent)));
}

#[test]
fn user_keys_print_hyphenated_lowercase() {
    let mut e = event();
    e.user_id = 0xa1a2a3a4b1b2c1c2d1d2d3d4d5d6d7d8;
    assert_eq!(route_event("click", &e).unwrap().key, "a1a2a3a4-b1b2-c1c2-d1d2-d3d4d5d6d7d8");
    e.user_id = 0;
    assert_eq!(route_event("click", &e).unwrap().key, "00000000-0000-0000-0000-000000000000");
}

#[test]
fn timestamps() {
    let t = Timestamp::parse_rfc3339("1996-12-19T16:39:57-08:00").unwrap();
    assert_eq!(t.secs(), 851042397);
    assert!(Timestamp::parse_rfc3339("yesterday").is_none());
    assert!(Timestamp::from_parts(0, 2_000_000_000).is_none());
    assert!(Timestamp::from_parts(59, 1_500_000_000).is_some());
    assert!(Timestamp::from_parts(i64::MAX, 0).is_none());
    assert_eq!(t.minus_seconds(60).unwrap().secs(), 851042337);
    assert!(Timestamp::from_parts(i64::MIN / 1000 + 1, 0).is_none());
}
