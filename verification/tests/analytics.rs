use event_analytics::analytics::activity::{merge_product_activity, page_of};
use event_analytics::analytics::errors::AnalyticsError;
use event_analytics::analytics::handlers::{
    conversion_counts, parse_conversion_rate_query, parse_time_range, parse_top_products_query, parse_user_activity_request,
    products_response, realtime_stats_response, realtime_windows, user_activity_response,
};
use event_analytics::analytics::models::{Interval, Metric};
use event_analytics::analytics::queries::{ConversionRateQuery, TopProductsQuery, UserActivityQuery};
use event_analytics::analytics::response::{EventCounts, ProductActivity, ProductItemResponse};
use event_analytics::analytics::sql::{
    global_event_count_sql, top_products_by_period_sql, top_products_sql, user_event_count_sql,
};
use event_analytics::clickhouse_rows::TopProductRow;
use event_analytics::time::Timestamp;

fn s(x: &str) -> Option<String> {
    Some(x.to_string())
}

fn row(product_id: u128, count: u64) -> TopProductRow {
    TopProductRow { product_id, count }
}

fn counts(clicks: u64, views: u64, purchases: u64) -> EventCounts {
    EventCounts { clicks, views, purchases }
}

#[test]
fn top_products_query_checks_metric_then_period() {
    let q = TopProductsQuery { period: None, limit: None, metric: None };
    assert!(matches!(parse_top_products_query(&q), Err(AnalyticsError::MissingMetric)));
    let q = TopProductsQuery { period: None, limit: None, metric: s("likes") };
    assert!(matches!(parse_top_products_query(&q), Err(AnalyticsError::InvalidMetric)));
    let q = TopProductsQuery { period: None, limit: None, metric: s("views") };
    assert!(matches!(parse_top_products_query(&q), Err(AnalyticsError::MissingPeriod)));
    let q = TopProductsQuery { period: s("2h"), limit: None, metric: s("views") };
    assert!(matches!(parse_top_products_query(&q), Err(AnalyticsError::InvalidPeriod)));
    let q = TopProductsQuery { period: s("2h"), limit: None, metric: None };
    assert!(matches!(parse_top_products_query(&q), Err(AnalyticsError::MissingMetric)));
    let q = TopProductsQuery { period: s("24H"), limit: None, metric: s("views") };
    let req = parse_top_products_query(&q).unwrap();
    assert_eq!(req.metric, Metric::Views);
    assert_eq!(req.period, Interval::TwentyFourHours);
    assert_eq!(req.limit, 10);
    let q = TopProductsQuery { period: s("7d"), limit: Some(3), metric: s("purchases") };
    let req = parse_top_products_query(&q).unwrap();
    assert_eq!(req.limit, 3);
}

#[test]
fn products_response_lists_rows_in_order() {
    let q = TopProductsQuery { period: s("1H"), limit: None, metric: s("clicks") };
    let req = parse_top_products_query(&q).unwrap();
    let rows = vec![row(7, 30), row(3, 12)];
    let resp = products_response(&req, &rows);
    assert_eq!(resp.period, "1h");
    assert_eq!(resp.metric, "clicks");
    assert_eq!(
        resp.items,
        vec![ProductItemResponse { product_id: 7, count: 30 }, ProductItemResponse { product_id: 3, count: 12 }]
    );
    assert_eq!(ProductItemResponse::from(&rows[1]), ProductItemResponse { product_id: 3, count: 12 });
}

#[test]
fn time_range_errors_come_in_order() {
    assert!(matches!(parse_time_range(&None, &None), Err(AnalyticsError::MissingFrom)));
    assert!(matches!(parse_time_range(&s("garbage"), &None), Err(AnalyticsError::MissingTo)));
    assert!(matches!(parse_time_range(&s("garbage"), &s("garbage")), Err(AnalyticsError::InvalidFrom)));
    assert!(matches!(
        parse_time_range(&s("2026-04-22T00:00:00Z"), &s("2026-04-23")),
        Err(AnalyticsError::InvalidTo)
    ));
    let r = parse_time_range(&s("2026-04-22T00:00:00Z"), &s("2026-04-23T02:00:00+02:00")).unwrap();
    assert_eq!(r.from.secs(), 1776816000);
    assert_eq!(r.to.secs(), 1776816000 + 86400);
    assert_eq!(r.to.nanos(), 0);
    let q = ConversionRateQuery { from: s("2026-04-22T00:00:00.5Z"), to: None };
    assert!(matches!(parse_conversion_rate_query(&q), Err(AnalyticsError::MissingTo)));
    let q = ConversionRateQuery { from: s("2026-04-22T00:00:00.5Z"), to: s("2026-04-22T00:00:01Z") };
    let r = parse_conversion_rate_query(&q).unwrap();
    assert_eq!(r.from.nanos(), 500_000_000);
    let c = conversion_counts(&r, counts(10, 100, 1));
    assert_eq!(c.from, "2026-04-22T00:00:00.500+00:00");
    assert_eq!(c.to, "2026-04-22T00:00:01+00:00");
    assert_eq!((c.clicks, c.views, c.purchases), (10, 100, 1));
}

#[test]
fn user_ids_parse_in_any_uuid_form() {
    let q = || UserActivityQuery {
        from: s("2026-04-22T00:00:00Z"),
        to: s("2026-04-23T00:00:00Z"),
        limit: None,
        offset: None,
    };
    let id = 0xa1a2a3a4b1b2c1c2d1d2d3d4d5d6d7d8u128;
    assert_eq!(parse_user_activity_request("A1A2A3A4-B1B2-C1C2-D1D2-D3D4D5D6D7D8", &q()).unwrap().user_id, id);
    assert_eq!(parse_user_activity_request("a1a2a3a4b1b2c1c2d1d2d3d4d5d6d7d8", &q()).unwrap().user_id, id);
    assert!(matches!(parse_user_activity_request("a1a2a3a4-b1b2", &q()), Err(AnalyticsError::InvalidUserID)));
}

#[test]
fn user_activity_request_checks_user_first_and_clamps_limit() {
    let q = UserActivityQuery { from: None, to: None, limit: None, offset: None };
    assert!(matches!(parse_user_activity_request("not-a-uuid", &q), Err(AnalyticsError::InvalidUserID)));
    let user = "550e8400-e29b-41d4-a716-446655440000";
    assert!(matches!(parse_user_activity_request(user, &q), Err(AnalyticsError::MissingFrom)));
    let q = UserActivityQuery {
        from: s("2026-04-22T00:00:00Z"),
        to: s("2026-04-23T00:00:00Z"),
        limit: None,
        offset: None,
    };
    let req = parse_user_activity_request(user, &q).unwrap();
    assert_eq!(req.user_id, 0x550e8400e29b41d4a716446655440000);
    assert_eq!(req.limit, 50);
    assert_eq!(req.offset, 0);
    let q = UserActivityQuery {
        from: s("2026-04-22T00:00:00Z"),
        to: s("2026-04-23T00:00:00Z"),
        limit: Some(10_000),
        offset: Some(4),
    };
    let req = parse_user_activity_request(user, &q).unwrap();
    assert_eq!(req.limit, 500);
    assert_eq!(req.offset, 4);
}

#[test]
fn merged_activity_has_one_entry_per_product_with_last_counts() {
    let clicks = vec![row(1, 5), row(2, 3), row(1, 9)];
    let views = vec![row(3, 4), row(2, 8)];
    let purchases = vec![row(4, 1)];
    let merged = merge_product_activity(&clicks, &views, &purchases);
    assert_eq!(
        merged,
        vec![
            ProductActivity { product_id: 1, event_counts: counts(9, 0, 0) },
            ProductActivity { product_id: 2, event_counts: counts(3, 8, 0) },
            ProductActivity { product_id: 3, event_counts: counts(0, 4, 0) },
            ProductActivity { product_id: 4, event_counts: counts(0, 0, 1) },
        ]
    );
    assert_eq!(merge_product_activity(&vec![], &vec![], &vec![]), vec![]);
}

#[test]
fn pages_skip_and_take() {
    let items: Vec<ProductActivity> =
        (0..5u128).map(|i| ProductActivity { product_id: i, event_counts: counts(1, 0, 0) }).collect();
    let ids = |v: Vec<ProductActivity>| v.iter().map(|p| p.product_id).collect::<Vec<_>>();
    assert_eq!(ids(page_of(&items, 0, 2)), vec![0, 1]);
    assert_eq!(ids(page_of(&items, 3, 10)), vec![3, 4]);
    assert_eq!(ids(page_of(&items, 5, 10)), Vec::<u128>::new());
    assert_eq!(ids(page_of(&items, 99, 1)), Vec::<u128>::new());
    assert_eq!(ids(page_of(&items, 1, 0)), Vec::<u128>::new());
    assert_eq!(ids(page_of(&items, 1, usize::MAX)), vec![1, 2, 3, 4]);
}

#[test]
fn user_activity_response_pages_the_merged_activity() {
    let q = UserActivityQuery {
        from: s("2015-05-15T00:00:00Z"),
        to: s("2015-05-16T00:00:00Z"),
        limit: Some(1),
        offset: Some(1),
    };
    let req = parse_user_activity_request("a1a2a3a4-b1b2-c1c2-d1d2-d3d4d5d6d7d8", &q).unwrap();
    let resp = user_activity_response(
        &req,
        counts(3, 2, 1),
        &vec![row(1, 2), row(2, 1)],
        &vec![row(2, 2)],
        &vec![row(2, 1)],
    );
    assert_eq!(resp.user_id, 0xa1a2a3a4b1b2c1c2d1d2d3d4d5d6d7d8);
    assert_eq!(resp.from, "2015-05-15 00:00:00 UTC");
    assert_eq!(resp.to, "2015-05-16 00:00:00 UTC");
    assert_eq!(resp.events, counts(3, 2, 1));
    assert_eq!(resp.top_products, vec![ProductActivity { product_id: 2, event_counts: counts(1, 2, 1) }]);
}

#[test]
fn realtime_windows_step_back_from_now() {
    let now = Timestamp::from_parts(1431648000, 250).unwrap();
    let w = realtime_windows(now).unwrap();
    assert_eq!(w.now.secs(), 1431648000);
    assert_eq!(w.last_15m.secs(), 1431648000 - 900);
    assert_eq!(w.last_hour.secs(), 1431648000 - 3600);
    assert_eq!(w.last_24h.secs(), 1431648000 - 86400);
    assert_eq!(w.last_24h.nanos(), 250);
    let resp = realtime_stats_response(&now, counts(1, 2, 3), counts(4, 5, 6), counts(7, 8, 9));
    assert_eq!(resp.last_15m, counts(1, 2, 3));
    assert_eq!(resp.last_hour, counts(4, 5, 6));
    assert_eq!(resp.last_24h, counts(7, 8, 9));
    assert_eq!(resp.timestamp, "2015-05-15T00:00:00.000000250+00:00");
}

#[test]
fn analytics_error_statuses_and_messages() {
    let client_errors = [
        (AnalyticsError::MissingPeriod, "Missing period"),
        (AnalyticsError::MissingMetric, "Missing metric"),
        (AnalyticsError::InvalidMetric, "Invalid metric"),
        (AnalyticsError::InvalidPeriod, "Invalid period"),
        (AnalyticsError::InvalidUserID, "Invalid userid"),
        (AnalyticsError::InvalidFrom, "Invalid `from`"),
        (AnalyticsError::InvalidTo, "Invalid `to`"),
        (AnalyticsError::MissingFrom, "Missing `from`"),
        (AnalyticsError::MissingTo, "Missing `to`"),
    ];
    for (e, text) in client_errors {
        assert_eq!(e.status_code(), 400);
        assert_eq!(e.message(), text);
    }
    let e = AnalyticsError::ClickHouse("timeout".to_string());
    assert_eq!(e.status_code(), 500);
    assert_eq!(e.message(), "Clickhouse error timeout");
}

#[test]
fn sql_texts() {
    assert_eq!(
        top_products_sql(&Metric::Views, Interval::SevenDays),
        "SELECT product_id, count() AS count\n         FROM views\n         WHERE timestamp >= now() - INTERVAL 7 DAY\n         GROUP BY product_id\n         ORDER BY count DESC\n         LIMIT ?"
    );
    assert_eq!(
        user_event_count_sql("clicks"),
        "SELECT count() AS count \n        FROM clicks \n        WHERE user_id = ? AND timestamp BETWEEN ? AND ?"
    );
    assert_eq!(
        top_products_by_period_sql("purchases"),
        "SELECT product_id, count() AS count \n        FROM purchases \n        WHERE user_id = ? AND timestamp BETWEEN ? AND ?\n        GROUP BY product_id\n        ORDER BY count DESC\n        "
    );
    assert_eq!(
        global_event_count_sql("views"),
        "SELECT count() AS count \n        FROM views\n        WHERE timestamp BETWEEN ? AND ?\n    "
    );
}

#[test]
fn event_counts_default_to_zero() {
    assert_eq!(EventCounts::default(), counts(0, 0, 0));
}
