//! What the ingestion endpoint decides for a posted event: whether its kind
//! is accepted, which topic it is published to, and under which key.
use vstd::prelude::*;
use crate::errors::EventError;
use crate::ids::{uuid_hyphenated, uuid_to_string};
use crate::models::{Event, topic_of};
use crate::text::lowercase;
use crate::validator::{event_type_named, validate_event_type};

verus! {

/// Where an accepted event is published: its topic, and the message key (the
/// user id in hyphenated form, so that one user's events stay in order).
#[derive(Debug)]
pub struct EventRoute {
    pub topic: String,
    pub key: String,
}

/// Routes an event posted to `/events/{event_type}`: an unknown kind is
/// refused, any other goes to its kind's topic keyed by the user id.
pub fn route_event(event_type: &str, event: &Event) -> (r: Result<EventRoute, EventError>)
    ensures
        match event_type_named(lowercase(event_type@)) {
            Ok(t) => r matches Ok(route) && route.topic@ == topic_of(t) && route.key@ == uuid_hyphenated(
                event.user_id,
            ),
            Err(e) => r == Err::<EventRoute, EventError>(e),
        },
{
    let t = match validate_event_type(event_type) {
        Ok(t) => t,
        Err(e) => {
            return Err(e);
        },
    };
    let key = uuid_to_string(event.user_id);
    let topic = t.as_topic();
    Ok(EventRoute { topic, key })
}

} // verus!
