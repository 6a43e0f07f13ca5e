//! Which event kinds the ingestion API accepts in its path.
use vstd::prelude::*;
use crate::errors::EventError;
use crate::models::EventType;
use crate::text::{lowercase, str_equals, to_lowercase};

verus! {

/// The event kind that a lowercased path segment names.
pub open spec fn event_type_named(lower: Seq<char>) -> Result<EventType, EventError> {
    if lower == "click"@ {
        Ok(EventType::Click)
    } else if lower == "purchase"@ {
        Ok(EventType::Purchase)
    } else if lower == "view"@ {
        Ok(EventType::View)
    } else {
        Err(EventError::UnknownEvent)
    }
}

/// Exactly three lowercased names are accepted, each for its own kind.
pub proof fn law_accepted_event_names(lower: Seq<char>)
    ensures
        event_type_named(lower) is Ok <==> (lower == "click"@ || lower == "view"@ || lower == "purchase"@),
        event_type_named("click"@) == Ok::<EventType, EventError>(EventType::Click),
        event_type_named("view"@) == Ok::<EventType, EventError>(EventType::View),
        event_type_named("purchase"@) == Ok::<EventType, EventError>(EventType::Purchase),
{
    reveal_strlit("click");
    reveal_strlit("view");
    reveal_strlit("purchase");
    assert("click"@.len() == 5 && "view"@.len() == 4 && "purchase"@.len() == 8);
}

/// Maps an already lowercased path segment to its event kind.
pub fn event_type_from_lowercase(lower: &str) -> (r: Result<EventType, EventError>)
    ensures
        r == event_type_named(lower@),
{
    if str_equals(lower, "click") {
        Ok(EventType::Click)
    } else if str_equals(lower, "purchase") {
        Ok(EventType::Purchase)
    } else if str_equals(lower, "view") {
        Ok(EventType::View)
    } else {
        Err(EventError::UnknownEvent)
    }
}

/// Accepts `click`, `view` and `purchase` in any letter case; any other
/// segment is an unknown event.
pub fn validate_event_type(event_type: &str) -> (r: Result<EventType, EventError>)
    ensures
        r == event_type_named(lowercase(event_type@)),
{
    let lower = to_lowercase(event_type);
    event_type_from_lowercase(lower.as_str())
}

} // verus!
