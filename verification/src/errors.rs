//! Errors of the ingestion API, with the HTTP status and the message that
//! its error responses carry.
use vstd::prelude::*;

verus! {

#[derive(Debug, Clone, Copy, PartialEq, Eq, Structural)]
pub enum EventError {
    Timestamp,
    UnknownEvent,
    KafkaError,
    SerError,
}

/// The HTTP status of each ingestion error.
pub open spec fn event_error_status(e: EventError) -> u16 {
    match e {
        EventError::Timestamp => 400,
        EventError::UnknownEvent => 400,
        EventError::KafkaError => 503,
        EventError::SerError => 500,
    }
}

/// The message of each ingestion error.
pub open spec fn event_error_text(e: EventError) -> Seq<char> {
    match e {
        EventError::Timestamp => "Invalid timestamp"@,
        EventError::UnknownEvent => "Unknown event"@,
        EventError::KafkaError => "kafka unavailable"@,
        EventError::SerError => "serialization error"@,
    }
}

/// What the client sent wrong (a bad timestamp, an unknown kind of event)
/// is a bad request; an unavailable broker is a 503 and a failure to encode
/// the event a 500.
pub proof fn law_event_error_statuses(e: EventError)
    ensures
        event_error_status(e) == 400 <==> (e is Timestamp || e is UnknownEvent),
        event_error_status(e) == 503 <==> e is KafkaError,
        event_error_status(e) == 500 <==> e is SerError,
{
}

impl EventError {
    /// The HTTP status code of the error response: a bad request for what the
    /// client sent, 503 when the broker is unavailable, 500 otherwise.
    pub fn status_code(&self) -> (r: u16)
        ensures
            r == event_error_status(*self),
    {
        match self {
            EventError::Timestamp => 400,
            EventError::UnknownEvent => 400,
            EventError::KafkaError => 503,
            EventError::SerError => 500,
        }
    }

    /// The text that goes in the `error` field of the response body.
    pub fn message(&self) -> (r: String)
        ensures
            r@ == event_error_text(*self),
    {
        match self {
            EventError::Timestamp => String::from_str("Invalid timestamp"),
            EventError::UnknownEvent => String::from_str("Unknown event"),
            EventError::KafkaError => String::from_str("kafka unavailable"),
            EventError::SerError => String::from_str("serialization error"),
        }
    }
}

} // verus!
