//! The SQL text of the analytics queries. Values (limits, user ids, time
//! bounds) are bound to the `?` placeholders by the store client; only the
//! table name and the window are written into the text.
use vstd::prelude::*;
use crate::analytics::models::{Interval, Metric, interval_sql, metric_table};

verus! {

/// The query for the products with the most events of one metric in a
/// window ending now; the row limit is bound to its placeholder.
pub fn top_products_sql(metric: &Metric, interval: Interval) -> (r: String)
    ensures
        r@ == "SELECT product_id, count() AS count\n         FROM "@ + metric_table(*metric)
            + "\n         WHERE timestamp >= now() - INTERVAL "@ + interval_sql(interval)
            + "\n         GROUP BY product_id\n         ORDER BY count DESC\n         LIMIT ?"@,
{
    let mut s = String::from_str("SELECT product_id, count() AS count\n         FROM ");
    s.append(metric.table());
    s.append("\n         WHERE timestamp >= now() - INTERVAL ");
    let window = interval.to_string();
    s.append(window.as_str());
    s.append("\n         GROUP BY product_id\n         ORDER BY count DESC\n         LIMIT ?");
    s
}

/// The query for how many events one user had in a table between two
/// instants; the user id and the bounds are bound to its placeholders.
pub fn user_event_count_sql(table: &str) -> (r: String)
    ensures
        r@ == "SELECT count() AS count \n        FROM "@ + table@
            + " \n        WHERE user_id = ? AND timestamp BETWEEN ? AND ?"@,
{
    let mut s = String::from_str("SELECT count() AS count \n        FROM ");
    s.append(table);
    s.append(" \n        WHERE user_id = ? AND timestamp BETWEEN ? AND ?");
    s
}

/// The query for one user's per-product event counts in a table between two
/// instants, most active product first.
pub fn top_products_by_period_sql(table: &str) -> (r: String)
    ensures
        r@ == "SELECT product_id, count() AS count \n        FROM "@ + table@
            + " \n        WHERE user_id = ? AND timestamp BETWEEN ? AND ?\n        GROUP BY product_id\n        ORDER BY count DESC\n        "@,
{
    let mut s = String::from_str("SELECT product_id, count() AS count \n        FROM ");
    s.append(table);
    s.append(
        " \n        WHERE user_id = ? AND timestamp BETWEEN ? AND ?\n        GROUP BY product_id\n        ORDER BY count DESC\n        ",
    );
    s
}

/// The query for how many events of all users a table holds between two
/// instants.
pub fn global_event_count_sql(table: &str) -> (r: String)
    ensures
        r@ == "SELECT count() AS count \n        FROM "@ + table@ + "\n        WHERE timestamp BETWEEN ? AND ?\n    "@,
{
    let mut s = String::from_str("SELECT count() AS count \n        FROM ");
    s.append(table);
    s.append("\n        WHERE timestamp BETWEEN ? AND ?\n    ");
    s
}

} // verus!
