//! Errors of the analytics API, with the HTTP status and the message that
//! its error responses carry.
use vstd::prelude::*;

verus! {

#[derive(Debug)]
pub enum AnalyticsError {
    MissingPeriod,
    MissingMetric,
    InvalidMetric,
    InvalidPeriod,
    InvalidUserID,
    InvalidFrom,
    InvalidTo,
    MissingFrom,
    MissingTo,
    /// A query to the store failed; the text is the store client's message.
    ClickHouse(String),
}

/// The HTTP status of each analytics error: 400 for what the client sent,
/// 500 for a failure of the store.
pub open spec fn analytics_error_status(e: AnalyticsError) -> u16 {
    match e {
        AnalyticsError::ClickHouse(_) => 500,
        _ => 400,
    }
}

/// The message of each analytics error.
pub open spec fn analytics_error_text(e: AnalyticsError) -> Seq<char> {
    match e {
        AnalyticsError::MissingPeriod => "Missing period"@,
        AnalyticsError::MissingMetric => "Missing metric"@,
        AnalyticsError::InvalidMetric => "Invalid metric"@,
        AnalyticsError::InvalidPeriod => "Invalid period"@,
        AnalyticsError::InvalidUserID => "Invalid userid"@,
        AnalyticsError::InvalidFrom => "Invalid `from`"@,
        AnalyticsError::InvalidTo => "Invalid `to`"@,
        AnalyticsError::MissingFrom => "Missing `from`"@,
        AnalyticsError::MissingTo => "Missing `to`"@,
        AnalyticsError::ClickHouse(m) => "Clickhouse error "@ + m@,
    }
}

/// Only a failure of the store is a server error; every refusal of what the
/// client sent is a bad request.
pub proof fn law_only_store_failures_are_server_errors(e: AnalyticsError)
    ensures
        analytics_error_status(e) == 500 <==> e is ClickHouse,
        analytics_error_status(e) == 400 <==> !(e is ClickHouse),
{
}

impl AnalyticsError {
    /// The HTTP status code of the error response.
    pub fn status_code(&self) -> (r: u16)
        ensures
            r == analytics_error_status(*self),
    {
        match self {
            AnalyticsError::MissingPeriod
            | AnalyticsError::MissingMetric
            | AnalyticsError::InvalidMetric
            | AnalyticsError::InvalidPeriod
            | AnalyticsError::InvalidUserID
            | AnalyticsError::MissingTo
            | AnalyticsError::MissingFrom
            | AnalyticsError::InvalidFrom
            | AnalyticsError::InvalidTo => 400,
            AnalyticsError::ClickHouse(_) => 500,
        }
    }

    /// The text that goes in the `error` field of the response body.
    pub fn message(&self) -> (r: String)
        ensures
            r@ == analytics_error_text(*self),
    {
        match self {
            AnalyticsError::MissingPeriod => String::from_str("Missing period"),
            AnalyticsError::MissingMetric => String::from_str("Missing metric"),
            AnalyticsError::InvalidMetric => String::from_str("Invalid metric"),
            AnalyticsError::InvalidPeriod => String::from_str("Invalid period"),
            AnalyticsError::InvalidUserID => String::from_str("Invalid userid"),
            AnalyticsError::InvalidFrom => String::from_str("Invalid `from`"),
            AnalyticsError::InvalidTo => String::from_str("Invalid `to`"),
            AnalyticsError::MissingFrom => String::from_str("Missing `from`"),
            AnalyticsError::MissingTo => String::from_str("Missing `to`"),
            AnalyticsError::ClickHouse(m) => {
                let mut s = String::from_str("Clickhouse error ");
                s.append(m.as_str());
                s
            },
        }
    }
}

} // verus!
