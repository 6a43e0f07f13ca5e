//! The query-string parameters of the analytics endpoints, as received.
use vstd::prelude::*;

verus! {

/// Parameters of `GET /analytics/top-products`.
#[derive(Debug)]
pub struct TopProductsQuery {
    pub period: Option<String>,
    pub limit: Option<u16>,
    pub metric: Option<String>,
}

/// Parameters of `GET /analytics/user-activity/{user_id}`.
#[derive(Debug)]
pub struct UserActivityQuery {
    pub from: Option<String>,
    pub to: Option<String>,
    pub limit: Option<u32>,
    pub offset: Option<u32>,
}

/// Parameters of `GET /analytics/conversion-rate`.
#[derive(Debug)]
pub struct ConversionRateQuery {
    pub from: Option<String>,
    pub to: Option<String>,
}

} // verus!
