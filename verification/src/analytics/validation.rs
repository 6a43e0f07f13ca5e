//! Reading the `metric` and `period` parameters of the top-products report.
use vstd::prelude::*;
use crate::analytics::models::{Interval, Metric, interval_param, metric_table};
use crate::text::{lowercase, str_equals, to_lowercase};

verus! {

/// The metric that a parameter names, matched exactly.
pub open spec fn metric_named(text: Seq<char>) -> Option<Metric> {
    if text == "clicks"@ {
        Some(Metric::Clicks)
    } else if text == "views"@ {
        Some(Metric::Views)
    } else if text == "purchases"@ {
        Some(Metric::Purchases)
    } else {
        None
    }
}

/// The window that an already lowercased parameter names.
pub open spec fn period_named(lower: Seq<char>) -> Option<Interval> {
    if lower == "1h"@ {
        Some(Interval::OneHour)
    } else if lower == "24h"@ {
        Some(Interval::TwentyFourHours)
    } else if lower == "7d"@ {
        Some(Interval::SevenDays)
    } else {
        None
    }
}

/// Accepts `clicks`, `views` and `purchases`, in lowercase only.
pub fn validate_metric(metric: &str) -> (r: Option<Metric>)
    ensures
        r == metric_named(metric@),
{
    if str_equals(metric, "clicks") {
        Some(Metric::Clicks)
    } else if str_equals(metric, "views") {
        Some(Metric::Views)
    } else if str_equals(metric, "purchases") {
        Some(Metric::Purchases)
    } else {
        None
    }
}

/// Maps an already lowercased period parameter to its window.
pub fn period_from_lowercase(lower: &str) -> (r: Option<Interval>)
    ensures
        r == period_named(lower@),
{
    if str_equals(lower, "1h") {
        Some(Interval::OneHour)
    } else if str_equals(lower, "24h") {
        Some(Interval::TwentyFourHours)
    } else if str_equals(lower, "7d") {
        Some(Interval::SevenDays)
    } else {
        None
    }
}

/// Accepts `1h`, `24h` and `7d` in any letter case.
pub fn validate_period(metric: &str) -> (r: Option<Interval>)
    ensures
        r == period_named(lowercase(metric@)),
{
    let lower = to_lowercase(metric);
    period_from_lowercase(lower.as_str())
}

/// Exactly three metric names are accepted, each for its own metric, and
/// exactly three lowercased period names, each for its own window.
pub proof fn law_accepted_metric_and_period_names(text: Seq<char>)
    ensures
        metric_named(text) is Some <==> (text == "clicks"@ || text == "views"@ || text == "purchases"@),
        metric_named("clicks"@) == Some(Metric::Clicks),
        metric_named("views"@) == Some(Metric::Views),
        metric_named("purchases"@) == Some(Metric::Purchases),
        period_named(text) is Some <==> (text == "1h"@ || text == "24h"@ || text == "7d"@),
        period_named("1h"@) == Some(Interval::OneHour),
        period_named("24h"@) == Some(Interval::TwentyFourHours),
        period_named("7d"@) == Some(Interval::SevenDays),
{
    reveal_strlit("clicks");
    reveal_strlit("views");
    reveal_strlit("purchases");
    reveal_strlit("1h");
    reveal_strlit("24h");
    reveal_strlit("7d");
    assert("clicks"@.len() == 6 && "views"@.len() == 5 && "purchases"@.len() == 9);
    assert("1h"@.len() == 2 && "24h"@.len() == 3 && "7d"@.len() == 2);
    assert("1h"@[0] == '1' && "7d"@[0] == '7');
    assert("1h"@ != "7d"@);
}

/// A metric's table name is read back as that metric, and a window's
/// parameter spelling is read back (once lowercased) as that window.
pub proof fn law_names_read_back(m: Metric, i: Interval)
    ensures
        metric_named(metric_table(m)) == Some(m),
        period_named(interval_param(i)) == Some(i),
{
    reveal_strlit("clicks");
    reveal_strlit("views");
    reveal_strlit("purchases");
    reveal_strlit("1h");
    reveal_strlit("24h");
    reveal_strlit("7d");
    assert("clicks"@.len() == 6 && "views"@.len() == 5 && "purchases"@.len() == 9);
    assert("1h"@.len() == 2 && "24h"@.len() == 3 && "7d"@.len() == 2);
    assert("1h"@[0] == '1' && "7d"@[0] == '7');
    assert("1h"@ != "7d"@);
}

} // verus!
