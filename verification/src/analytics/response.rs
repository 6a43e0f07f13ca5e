//! The bodies of the analytics API's responses.
use vstd::prelude::*;
use crate::clickhouse_rows::TopProductRow;

verus! {

/// Numbers of clicks, views and purchases.
#[derive(Debug, Clone, Copy, PartialEq, Eq, Structural)]
pub struct EventCounts {
    pub clicks: u64,
    pub views: u64,
    pub purchases: u64,
}

impl Default for EventCounts {
    fn default() -> (r: Self)
        ensures
            r == (EventCounts { clicks: 0, views: 0, purchases: 0 }),
    {
        EventCounts { clicks: 0, views: 0, purchases: 0 }
    }
}

/// The activity of one user on one product.
#[derive(Debug, Clone, Copy, PartialEq, Eq, Structural)]
pub struct ProductActivity {
    pub product_id: u128,
    pub event_counts: EventCounts,
}

/// The body of `GET /analytics/user-activity/{user_id}`.
#[derive(Debug)]
pub struct UserActivityResponse {
    pub user_id: u128,
    pub from: String,
    pub to: String,
    pub events: EventCounts,
    pub top_products: Vec<ProductActivity>,
}

/// One entry of the top-products report.
#[derive(Debug, Clone, Copy, PartialEq, Eq, Structural)]
pub struct ProductItemResponse {
    pub product_id: u128,
    pub count: u64,
}

impl<'a> From<&'a TopProductRow> for ProductItemResponse {
    fn from(value: &'a TopProductRow) -> (r: Self) {
        ProductItemResponse { product_id: value.product_id, count: value.count }
    }
}

impl<'a> vstd::std_specs::convert::FromSpecImpl<&'a TopProductRow> for ProductItemResponse {
    open spec fn obeys_from_spec() -> bool {
        true
    }

    open spec fn from_spec(value: &'a TopProductRow) -> Self {
        ProductItemResponse { product_id: value.product_id, count: value.count }
    }
}

/// The body of `GET /analytics/top-products`.
#[derive(Debug)]
pub struct ProductsResponse {
    pub period: String,
    pub metric: String,
    pub items: Vec<ProductItemResponse>,
}

/// The counted part of `GET /analytics/conversion-rate`: the range in
/// RFC 3339 and the totals of each kind of event in it. The two rates are
/// worked out from these totals by the server.
#[derive(Debug)]
pub struct ConversionCounts {
    pub from: String,
    pub to: String,
    pub views: u64,
    pub clicks: u64,
    pub purchases: u64,
}

/// The body of `GET /analytics/realtime-stats`.
#[derive(Debug)]
pub struct RealtimeStatsResponse {
    pub last_15m: EventCounts,
    pub last_hour: EventCounts,
    pub last_24h: EventCounts,
    pub timestamp: String,
}

} // verus!
