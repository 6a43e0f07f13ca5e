//! What the analytics endpoints decide: which requests they accept (and the
//! error for each one they refuse), and how their responses are put together
//! from what the store returns. The store queries themselves are made by the
//! server around this module.
use vstd::prelude::*;
use crate::analytics::activity::{
    law_merged_activity_one_entry_per_product, law_page_bounds, merge_product_activity, merged_activity, page,
    page_of,
};
use crate::analytics::errors::AnalyticsError;
use crate::analytics::models::{Interval, Metric, interval_param, metric_table};
use crate::analytics::queries::{ConversionRateQuery, TopProductsQuery, UserActivityQuery};
use crate::analytics::response::{
    ConversionCounts, EventCounts, ProductItemResponse, ProductsResponse, RealtimeStatsResponse, UserActivityResponse,
};
use crate::analytics::validation::{metric_named, period_named, validate_metric, validate_period};
use crate::clickhouse_rows::TopProductRow;
use crate::ids::{parse_uuid, uuid_parse};
use crate::text::lowercase;
use crate::time::{Timestamp, rfc3339_instant, rfc3339_text, utc_display_text, utc_minus_seconds};

verus! {

/// The rows the top-products report returns when no limit is given.
pub const DEFAULT_TOP_PRODUCTS_LIMIT: u32 = 10;

/// The products the user-activity report lists when no limit is given.
pub const DEFAULT_ACTIVITY_LIMIT: u32 = 50;

/// The most products the user-activity report lists.
pub const MAX_ACTIVITY_LIMIT: u32 = 500;

/// An accepted top-products request.
#[derive(Debug, Clone, Copy, PartialEq, Eq, Structural)]
pub struct TopProductsRequest {
    pub metric: Metric,
    pub period: Interval,
    pub limit: u32,
}

/// What the top-products endpoint makes of its parameters: the metric is
/// checked before the period, and each is first required, then validated.
pub open spec fn top_products_request(q: TopProductsQuery) -> Result<TopProductsRequest, AnalyticsError> {
    match q.metric {
        None => Err(AnalyticsError::MissingMetric),
        Some(m) => match metric_named(m@) {
            None => Err(AnalyticsError::InvalidMetric),
            Some(metric) => match q.period {
                None => Err(AnalyticsError::MissingPeriod),
                Some(p) => match period_named(lowercase(p@)) {
                    None => Err(AnalyticsError::InvalidPeriod),
                    Some(period) => Ok(
                        TopProductsRequest {
                            metric,
                            period,
                            limit: match q.limit {
                                Some(l) => l as u32,
                                None => DEFAULT_TOP_PRODUCTS_LIMIT,
                            },
                        },
                    ),
                },
            },
        },
    }
}

/// Reads the parameters of the top-products report.
pub fn parse_top_products_query(q: &TopProductsQuery) -> (r: Result<TopProductsRequest, AnalyticsError>)
    ensures
        r == top_products_request(*q),
        r matches Ok(req) ==> {
            &&& (q.limit matches Some(l) ==> req.limit == l as u32)
            &&& (q.limit is None ==> req.limit == 10)
            &&& q.metric matches Some(m) && metric_named(m@) == Some(req.metric)
            &&& q.period matches Some(p) && period_named(lowercase(p@)) == Some(req.period)
        },
{
    let metric = match &q.metric {
        None => {
            return Err(AnalyticsError::MissingMetric);
        },
        Some(m) => match validate_metric(m.as_str()) {
            None => {
                return Err(AnalyticsError::InvalidMetric);
            },
            Some(metric) => metric,
        },
    };
    let period = match &q.period {
        None => {
            return Err(AnalyticsError::MissingPeriod);
        },
        Some(p) => match validate_period(p.as_str()) {
            None => {
                return Err(AnalyticsError::InvalidPeriod);
            },
            Some(period) => period,
        },
    };
    let limit: u32 = match q.limit {
        Some(l) => l as u32,
        None => DEFAULT_TOP_PRODUCTS_LIMIT,
    };
    Ok(TopProductsRequest { metric, period, limit })
}

/// A top-products request is accepted exactly when both the metric and the
/// period are given and valid; it then asks for the given metric and period,
/// and for as many rows as the `limit` parameter says (10 when it is absent),
/// with no cap.
pub proof fn law_top_products_request_keeps_parameters(q: TopProductsQuery)
    ensures
        top_products_request(q) is Ok <==> {
            &&& q.metric is Some
            &&& metric_named(q.metric->0@) is Some
            &&& q.period is Some
            &&& period_named(lowercase(q.period->0@)) is Some
        },
        top_products_request(q) matches Ok(req) ==> {
            &&& (q.limit matches Some(l) ==> req.limit == l as u32)
            &&& (q.limit is None ==> req.limit == 10)
            &&& metric_named(q.metric->0@) == Some(req.metric)
            &&& period_named(lowercase(q.period->0@)) == Some(req.period)
        },
{
}

/// The entry of the report for one row of the store.
pub open spec fn product_item(row: TopProductRow) -> ProductItemResponse {
    ProductItemResponse { product_id: row.product_id, count: row.count }
}

/// The top-products report: the window and metric as asked, and one entry
/// per row of the store, in the store's order.
pub fn products_response(req: &TopProductsRequest, rows: &Vec<TopProductRow>) -> (r: ProductsResponse)
    ensures
        r.period@ == interval_param(req.period),
        r.metric@ == metric_table(req.metric),
        r.items@ == rows@.map_values(|row: TopProductRow| product_item(row)),
        r.items.len() == rows.len(),
        forall|i: int|
            0 <= i < rows.len() ==> #[trigger] r.items@[i].product_id == rows@[i].product_id && r.items@[i].count
                == rows@[i].count,
{
    let mut items: Vec<ProductItemResponse> = Vec::new();
    let mut i: usize = 0;
    while i < rows.len()
        invariant
            i <= rows.len(),
            items@ =~= rows@.take(i as int).map_values(|row: TopProductRow| product_item(row)),
        decreases rows.len() - i,
    {
        items.push(ProductItemResponse::from(&rows[i]));
        i = i + 1;
    }
    assert(rows@.take(rows@.len() as int) =~= rows@);
    ProductsResponse {
        period: String::from_str(req.period.as_param()),
        metric: String::from_str(req.metric.table()),
        items,
    }
}

/// A span of time between two instants.
#[derive(Debug, Clone, Copy)]
pub struct TimeRange {
    pub from: Timestamp,
    pub to: Timestamp,
}

/// What a pair of `from`/`to` parameters gives: both are required (`from`
/// first), then both must be RFC 3339 date-times (`from` first).
pub open spec fn parsed_range(from: Option<String>, to: Option<String>) -> Result<
    ((i64, u32), (i64, u32)),
    AnalyticsError,
> {
    match from {
        None => Err(AnalyticsError::MissingFrom),
        Some(f) => match to {
            None => Err(AnalyticsError::MissingTo),
            Some(t) => match rfc3339_instant(f@) {
                None => Err(AnalyticsError::InvalidFrom),
                Some(fp) => match rfc3339_instant(t@) {
                    None => Err(AnalyticsError::InvalidTo),
                    Some(tp) => Ok((fp, tp)),
                },
            },
        },
    }
}

/// Whether a parsed range matches what `parsed_range` says of its text.
pub open spec fn range_agrees(
    r: Result<TimeRange, AnalyticsError>,
    expected: Result<((i64, u32), (i64, u32)), AnalyticsError>,
) -> bool {
    match expected {
        Ok(p) => r matches Ok(range) && range.from.parts() == p.0 && range.to.parts() == p.1,
        Err(e) => r == Err::<TimeRange, AnalyticsError>(e),
    }
}

/// A missing `from` is reported before anything else, then a missing `to`,
/// then an unreadable `from`, then an unreadable `to`; two readable bounds
/// give the instants they name.
pub proof fn law_time_range_checks(from: Option<String>, to: Option<String>)
    ensures
        from is None ==> parsed_range(from, to) == Err::<((i64, u32), (i64, u32)), AnalyticsError>(
            AnalyticsError::MissingFrom,
        ),
        from is Some && to is None ==> parsed_range(from, to) == Err::<((i64, u32), (i64, u32)), AnalyticsError>(
            AnalyticsError::MissingTo,
        ),
        from is Some && to is Some && rfc3339_instant(from->0@) is None ==> parsed_range(from, to) == Err::<
            ((i64, u32), (i64, u32)),
            AnalyticsError,
        >(AnalyticsError::InvalidFrom),
        from is Some && to is Some && rfc3339_instant(from->0@) is Some && rfc3339_instant(to->0@) is None
            ==> parsed_range(from, to) == Err::<((i64, u32), (i64, u32)), AnalyticsError>(
            AnalyticsError::InvalidTo,
        ),
        from is Some && to is Some && rfc3339_instant(from->0@) is Some && rfc3339_instant(to->0@) is Some
            ==> parsed_range(from, to) == Ok::<((i64, u32), (i64, u32)), AnalyticsError>(
            (rfc3339_instant(from->0@)->0, rfc3339_instant(to->0@)->0),
        ),
{
}

/// Reads a `from`/`to` pair of parameters.
pub fn parse_time_range(from: &Option<String>, to: &Option<String>) -> (r: Result<TimeRange, AnalyticsError>)
    ensures
        range_agrees(r, parsed_range(*from, *to)),
        from is None ==> r matches Err(AnalyticsError::MissingFrom),
        from is Some && to is None ==> r matches Err(AnalyticsError::MissingTo),
        from is Some && to is Some && rfc3339_instant(from->0@) is None ==> r matches Err(
            AnalyticsError::InvalidFrom,
        ),
        from is Some && to is Some && rfc3339_instant(from->0@) is Some && rfc3339_instant(to->0@) is None
            ==> r matches Err(AnalyticsError::InvalidTo),
        r matches Ok(range) ==> {
            &&& from is Some && rfc3339_instant(from->0@) == Some(range.from.parts())
            &&& to is Some && rfc3339_instant(to->0@) == Some(range.to.parts())
        },
{
    let f = match from {
        None => {
            return Err(AnalyticsError::MissingFrom);
        },
        Some(f) => f,
    };
    let t = match to {
        None => {
            return Err(AnalyticsError::MissingTo);
        },
        Some(t) => t,
    };
    let from_ts = match Timestamp::parse_rfc3339(f.as_str()) {
        None => {
            return Err(AnalyticsError::InvalidFrom);
        },
        Some(x) => x,
    };
    let to_ts = match Timestamp::parse_rfc3339(t.as_str()) {
        None => {
            return Err(AnalyticsError::InvalidTo);
        },
        Some(x) => x,
    };
    Ok(TimeRange { from: from_ts, to: to_ts })
}

/// Reads the parameters of the conversion-rate report.
pub fn parse_conversion_rate_query(q: &ConversionRateQuery) -> (r: Result<TimeRange, AnalyticsError>)
    ensures
        range_agrees(r, parsed_range(q.from, q.to)),
{
    parse_time_range(&q.from, &q.to)
}

/// The counted part of the conversion-rate report: the range in RFC 3339
/// and the totals of clicks, views and purchases in it.
pub fn conversion_counts(range: &TimeRange, totals: EventCounts) -> (r: ConversionCounts)
    ensures
        r.from@ == rfc3339_text(range.from.parts().0, range.from.parts().1),
        r.to@ == rfc3339_text(range.to.parts().0, range.to.parts().1),
        r.clicks == totals.clicks,
        r.views == totals.views,
        r.purchases == totals.purchases,
{
    ConversionCounts {
        from: range.from.to_rfc3339(),
        to: range.to.to_rfc3339(),
        views: totals.views,
        clicks: totals.clicks,
        purchases: totals.purchases,
    }
}

/// An accepted user-activity request.
#[derive(Debug, Clone, Copy)]
pub struct UserActivityRequest {
    pub user_id: u128,
    pub range: TimeRange,
    pub limit: u32,
    pub offset: u32,
}

/// The page size of the user-activity report: 50 unless given, and never
/// more than 500.
pub open spec fn activity_limit(limit: Option<u32>) -> u32 {
    let l: u32 = match limit {
        Some(l) => l,
        None => DEFAULT_ACTIVITY_LIMIT,
    };
    if l <= MAX_ACTIVITY_LIMIT { l } else { MAX_ACTIVITY_LIMIT }
}

/// The number of products the user-activity report skips: 0 unless given.
pub open spec fn activity_offset(offset: Option<u32>) -> u32 {
    match offset {
        Some(o) => o,
        None => 0,
    }
}

/// What the user-activity endpoint makes of its path and parameters: the
/// user id is checked first, then the time range.
pub open spec fn user_activity_request(user_id: Seq<char>, q: UserActivityQuery) -> Result<
    (u128, ((i64, u32), (i64, u32)), u32, u32),
    AnalyticsError,
> {
    match uuid_parse(user_id) {
        None => Err(AnalyticsError::InvalidUserID),
        Some(id) => match parsed_range(q.from, q.to) {
            Err(e) => Err(e),
            Ok(p) => Ok((id, p, activity_limit(q.limit), activity_offset(q.offset))),
        },
    }
}

/// The page size of the user-activity report is the `limit` parameter when
/// it is at most 500, 500 when it is larger, and 50 when it is absent; the
/// offset is the `offset` parameter, or 0.
pub proof fn law_activity_limit_and_offset(limit: Option<u32>, offset: Option<u32>)
    ensures
        limit matches Some(l) ==> (l <= 500 ==> activity_limit(limit) == l),
        limit matches Some(l) ==> (l > 500 ==> activity_limit(limit) == 500),
        limit is None ==> activity_limit(limit) == 50,
        offset matches Some(o) ==> activity_offset(offset) == o,
        offset is None ==> activity_offset(offset) == 0,
{
}

/// Whatever the parameters, a user-activity report lists at most 500
/// products, and no product twice.
pub proof fn law_user_activity_page_is_bounded(
    clicks: Seq<TopProductRow>,
    views: Seq<TopProductRow>,
    purchases: Seq<TopProductRow>,
    limit: Option<u32>,
    offset: Option<u32>,
)
    ensures
        ({
            let p = page(
                merged_activity(clicks, views, purchases),
                activity_offset(offset) as nat,
                activity_limit(limit) as nat,
            );
            &&& p.len() <= MAX_ACTIVITY_LIMIT
            &&& forall|i: int, j: int| 0 <= i < j < p.len() ==> p[i].product_id != p[j].product_id
        }),
{
    let m = merged_activity(clicks, views, purchases);
    let o = activity_offset(offset) as nat;
    let l = activity_limit(limit) as nat;
    law_merged_activity_one_entry_per_product(clicks, views, purchases);
    law_page_bounds(m, o, l);
    let p = page(m, o, l);
    if o <= m.len() {
        assert forall|i: int, j: int| 0 <= i < j < p.len() implies p[i].product_id != p[j].product_id by {
            assert(p[i] == m[o + i]);
            assert(p[j] == m[o + j]);
        }
    }
}

/// Reads the path and parameters of the user-activity report.
pub fn parse_user_activity_request(user_id: &str, q: &UserActivityQuery) -> (r: Result<
    UserActivityRequest,
    AnalyticsError,
>)
    ensures
        match user_activity_request(user_id@, *q) {
            Ok(p) => r matches Ok(req) && req.user_id == p.0 && req.range.from.parts() == p.1.0
                && req.range.to.parts() == p.1.1 && req.limit == p.2 && req.offset == p.3,
            Err(e) => r == Err::<UserActivityRequest, AnalyticsError>(e),
        },
        r matches Ok(req) ==> {
            &&& (q.limit matches Some(l) ==> (l <= 500 ==> req.limit == l))
            &&& (q.limit matches Some(l) ==> (l > 500 ==> req.limit == 500))
            &&& (q.limit is None ==> req.limit == 50)
            &&& (q.offset matches Some(o) ==> req.offset == o)
            &&& (q.offset is None ==> req.offset == 0)
            &&& uuid_parse(user_id@) == Some(req.user_id)
            &&& q.from is Some && rfc3339_instant(q.from->0@) == Some(req.range.from.parts())
            &&& q.to is Some && rfc3339_instant(q.to->0@) == Some(req.range.to.parts())
        },
        uuid_parse(user_id@) is None ==> r matches Err(AnalyticsError::InvalidUserID),
        uuid_parse(user_id@) is Some && q.from is None ==> r matches Err(AnalyticsError::MissingFrom),
{
    let id = match parse_uuid(user_id) {
        None => {
            return Err(AnalyticsError::InvalidUserID);
        },
        Some(id) => id,
    };
    let range = match parse_time_range(&q.from, &q.to) {
        Err(e) => {
            return Err(e);
        },
        Ok(range) => range,
    };
    let asked: u32 = match q.limit {
        Some(l) => l,
        None => DEFAULT_ACTIVITY_LIMIT,
    };
    let limit: u32 = if asked <= MAX_ACTIVITY_LIMIT { asked } else { MAX_ACTIVITY_LIMIT };
    let offset: u32 = match q.offset {
        Some(o) => o,
        None => 0,
    };
    Ok(UserActivityRequest { user_id: id, range, limit, offset })
}

/// The user-activity report: the user, the range as `DateTime<Utc>` prints
/// it, the user's totals, and one page of the per-product activity.
pub fn user_activity_response(
    req: &UserActivityRequest,
    totals: EventCounts,
    clicks: &Vec<TopProductRow>,
    views: &Vec<TopProductRow>,
    purchases: &Vec<TopProductRow>,
) -> (r: UserActivityResponse)
    ensures
        r.user_id == req.user_id,
        r.from@ == utc_display_text(req.range.from.parts().0, req.range.from.parts().1),
        r.to@ == utc_display_text(req.range.to.parts().0, req.range.to.parts().1),
        r.events == totals,
        r.top_products@ == page(
            merged_activity(clicks@, views@, purchases@),
            req.offset as nat,
            req.limit as nat,
        ),
{
    let merged = merge_product_activity(clicks, views, purchases);
    let top_products = page_of(&merged, req.offset as usize, req.limit as usize);
    UserActivityResponse {
        user_id: req.user_id,
        from: req.range.from.to_display_string(),
        to: req.range.to.to_display_string(),
        events: totals,
        top_products,
    }
}

/// The three windows of the real-time report, each ending at `now`.
#[derive(Debug, Clone, Copy)]
pub struct RealtimeWindows {
    pub now: Timestamp,
    pub last_15m: Timestamp,
    pub last_hour: Timestamp,
    pub last_24h: Timestamp,
}

/// The starts of the last 15 minutes, the last hour and the last 24 hours
/// before `now`, or `None` when one of them falls outside chrono's range.
pub fn realtime_windows(now: Timestamp) -> (r: Option<RealtimeWindows>)
    ensures
        r is Some <==> {
            &&& utc_minus_seconds(now.parts().0, now.parts().1, 900) is Some
            &&& utc_minus_seconds(now.parts().0, now.parts().1, 3600) is Some
            &&& utc_minus_seconds(now.parts().0, now.parts().1, 86400) is Some
        },
        r matches Some(w) ==> {
            &&& w.now == now
            &&& utc_minus_seconds(now.parts().0, now.parts().1, 900) == Some(w.last_15m.parts())
            &&& utc_minus_seconds(now.parts().0, now.parts().1, 3600) == Some(w.last_hour.parts())
            &&& utc_minus_seconds(now.parts().0, now.parts().1, 86400) == Some(w.last_24h.parts())
        },
{
    let last_15m = match now.minus_seconds(900) {
        Some(t) => t,
        None => {
            return None;
        },
    };
    let last_hour = match now.minus_seconds(3600) {
        Some(t) => t,
        None => {
            return None;
        },
    };
    let last_24h = match now.minus_seconds(86400) {
        Some(t) => t,
        None => {
            return None;
        },
    };
    Some(RealtimeWindows { now, last_15m, last_hour, last_24h })
}

/// The real-time report: the counts of each window and the time it was
/// taken, in RFC 3339.
pub fn realtime_stats_response(
    now: &Timestamp,
    last_15m: EventCounts,
    last_hour: EventCounts,
    last_24h: EventCounts,
) -> (r: RealtimeStatsResponse)
    ensures
        r.last_15m == last_15m,
        r.last_hour == last_hour,
        r.last_24h == last_24h,
        r.timestamp@ == rfc3339_text(now.parts().0, now.parts().1),
{
    RealtimeStatsResponse { last_15m, last_hour, last_24h, timestamp: now.to_rfc3339() }
}

} // verus!
