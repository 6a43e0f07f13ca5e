//! The event that clients post to the ingestion API, and the three kinds of
//! event, each with the message-broker topic that carries it.
use vstd::prelude::*;
use crate::text::str_equals;
use crate::time::Timestamp;

verus! {

/// Optional details that a client may attach to an event.
#[derive(Debug)]
pub struct Metadata {
    pub source: Option<String>,
    pub position: Option<u32>,
    pub category: Option<String>,
    pub amount: Option<u64>,
}

/// One user action. The identifiers are UUIDs held as 128-bit integers.
#[derive(Debug)]
pub struct Event {
    pub user_id: u128,
    pub product_id: u128,
    pub session_id: u128,
    pub timestamp: Timestamp,
    pub metadata: Metadata,
}

/// The kinds of event the pipeline accepts.
#[derive(Debug, Clone, Copy, PartialEq, Eq, Structural)]
pub enum EventType {
    Click,
    View,
    Purchase,
}

/// The broker topic of each kind of event.
pub open spec fn topic_of(t: EventType) -> Seq<char> {
    match t {
        EventType::Click => "events.clicks"@,
        EventType::View => "events.views"@,
        EventType::Purchase => "events.purchases"@,
    }
}

/// The kind of event that a topic carries, if it is one of the three topics.
pub open spec fn event_type_of_topic(topic: Seq<char>) -> Option<EventType> {
    if topic == "events.clicks"@ {
        Some(EventType::Click)
    } else if topic == "events.views"@ {
        Some(EventType::View)
    } else if topic == "events.purchases"@ {
        Some(EventType::Purchase)
    } else {
        None
    }
}

/// Each kind of event is read back from its own topic, and no two kinds
/// share a topic.
pub proof fn law_topic_round_trip(t: EventType, u: EventType)
    ensures
        event_type_of_topic(topic_of(t)) == Some(t),
        t != u ==> topic_of(t) != topic_of(u),
        event_type_of_topic(topic_of(t)) is Some,
        forall|topic: Seq<char>| #[trigger] event_type_of_topic(topic) is Some <==> (topic == "events.clicks"@
            || topic == "events.views"@ || topic == "events.purchases"@),
        topic_of(EventType::Click) == "events.clicks"@,
        topic_of(EventType::View) == "events.views"@,
        topic_of(EventType::Purchase) == "events.purchases"@,
{
    reveal_strlit("events.clicks");
    reveal_strlit("events.views");
    reveal_strlit("events.purchases");
    assert("events.clicks"@.len() == 13 && "events.views"@.len() == 12 && "events.purchases"@.len() == 16);
}

impl EventType {
    /// The topic that events of this kind are published to.
    pub fn as_topic(&self) -> (r: String)
        ensures
            r@ == topic_of(*self),
    {
        match self {
            EventType::Click => String::from_str("events.clicks"),
            EventType::View => String::from_str("events.views"),
            EventType::Purchase => String::from_str("events.purchases"),
        }
    }

    /// The kind of event that arrives on `topic`, matched exactly.
    pub fn from_topic(topic: &str) -> (r: Option<EventType>)
        ensures
            r == event_type_of_topic(topic@),
    {
        if str_equals(topic, "events.clicks") {
            Some(EventType::Click)
        } else if str_equals(topic, "events.views") {
            Some(EventType::View)
        } else if str_equals(topic, "events.purchases") {
            Some(EventType::Purchase)
        } else {
            None
        }
    }
}

} // verus!
