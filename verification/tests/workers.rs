use event_analytics::clickhouse_rows::{ClickRow, PurchaseRow, ViewRow};
use event_analytics::models::{Event, EventType, Metadata};
use event_analytics::time::Timestamp;
use event_analytics::workers::batch::{click_rows, purchase_rows, view_rows, BatchMap, MessageOutcome};
use event_analytics::workers::retry::{Backoff, RetryStep};

fn event(user_id: u128, amount: Option<u64>) -> Event {
    Event {
        user_id,
        product_id: 0x660e8400e29b41d4a716446655440001,
        session_id: 0x770e8400e29b41d4a716446655440002,
        timestamp: Timestamp::from_parts(1776854700, 0).unwrap(),
        metadata: Metadata { source: Some("homepage".to_string()), position: Some(5), category: None, amount },
    }
}

fn is_v4(id: u128) -> bool {
    (id >> 76) & 0xf == 4 && (id >> 62) & 0x3 == 2
}

#[test]
fn messages_fill_their_topic_batch_until_flush_is_due() {
    let mut b = BatchMap::new(2);
    assert_eq!(b.handle_message("events.clicks", None), MessageOutcome::NoPayload);
    assert_eq!(b.handle_message("events.other", Some(event(1, None))), MessageOutcome::UnknownTopic);
    assert_eq!(b.next_flush(), None);
    assert_eq!(b.handle_message("events.views", Some(event(1, None))), MessageOutcome::Queued(EventType::View));
    assert_eq!(b.handle_message("events.clicks", Some(event(2, None))), MessageOutcome::Queued(EventType::Click));
    assert_eq!(b.handle_message("events.views", Some(event(3, None))), MessageOutcome::FlushDue(EventType::View));
    let users: Vec<u128> = b.batch(EventType::View).iter().map(|e| e.user_id).collect();
    assert_eq!(users, vec![1, 3]);
    assert_eq!(b.batch(EventType::Click).len(), 1);
    assert_eq!(b.batch(EventType::Purchase).len(), 0);
    b.clear(EventType::View);
    assert_eq!(b.batch(EventType::View).len(), 0);
    assert_eq!(b.batch(EventType::Click).len(), 1);
    assert_eq!(b.batch_size(), 2);
}

#[test]
fn a_zero_batch_size_flushes_every_event() {
    let mut b = BatchMap::new(0);
    assert_eq!(
        b.handle_message("events.purchases", Some(event(1, Some(9)))),
        MessageOutcome::FlushDue(EventType::Purchase)
    );
}

#[test]
fn a_full_flush_visits_pending_batches_in_topic_order() {
    let mut b = BatchMap::new(100);
    b.handle_message("events.purchases", Some(event(1, None)));
    b.handle_message("events.clicks", Some(event(2, None)));
    let mut order = Vec::new();
    while let Some(t) = b.next_flush() {
        order.push(t);
        b.clear(t);
    }
    assert_eq!(order, vec![EventType::Click, EventType::Purchase]);
}

#[test]
fn rows_carry_the_event_and_a_fresh_random_id() {
    let e = event(42, Some(1999));
    let c = ClickRow::from_event(&e);
    assert_eq!(c.user_id, 42);
    assert_eq!(c.product_id, e.product_id);
    assert_eq!(c.session_id, e.session_id);
    assert_eq!(c.timestamp.secs(), 1776854700);
    assert_eq!(c.source, "homepage");
    assert_eq!(c.position, 5);
    assert_eq!(c.category, "");
    assert!(is_v4(c.event_id));
    let v = ViewRow::from_event_with_id(&e, 77);
    assert_eq!(v.event_id, 77);
    assert_eq!(v.category, "");
    let p = PurchaseRow::from_event(&e);
    assert_eq!(p.amount, 1999);
    assert!(is_v4(p.event_id));
    let p0 = PurchaseRow::from_event(&event(1, None));
    assert_eq!(p0.amount, 0);
    assert_ne!(p.event_id, p0.event_id);
}

#[test]
fn batches_turn_into_rows_in_order() {
    let batch = vec![event(1, None), event(2, Some(3))];
    let c = click_rows(&batch);
    assert_eq!(c.iter().map(|r| r.user_id).collect::<Vec<_>>(), vec![1, 2]);
    let v = view_rows(&batch);
    assert_eq!(v.len(), 2);
    let p = purchase_rows(&batch);
    assert_eq!(p[1].amount, 3);
    assert!(p.iter().all(|r| is_v4(r.event_id)));
}

#[test]
fn retries_pause_100_then_200_ms_and_stop_after_three_attempts() {
    let b = Backoff::new();
    assert_eq!(b.attempt(), 1);
    let b = match b.after_failure() {
        RetryStep::RetryAfter { wait_ms, next } => {
            assert_eq!(wait_ms, 100);
            next
        },
        RetryStep::GiveUp => panic!("gave up after the first attempt"),
    };
    assert_eq!(b.attempt(), 2);
    let b = match b.after_failure() {
        RetryStep::RetryAfter { wait_ms, next } => {
            assert_eq!(wait_ms, 200);
            next
        },
        RetryStep::GiveUp => panic!("gave up after the second attempt"),
    };
    assert_eq!(b.attempt(), 3);
    assert!(matches!(b.after_failure(), RetryStep::GiveUp));
}
