//! The periods and metrics that the top-products report can be asked for.
use vstd::prelude::*;

verus! {

/// A look-back window ending now.
#[derive(Debug, Clone, Copy, PartialEq, Eq, Structural)]
pub enum Interval {
    OneHour,
    TwentyFourHours,
    SevenDays,
}

/// The query-parameter spelling of each window.
pub open spec fn interval_param(i: Interval) -> Seq<char> {
    match i {
        Interval::OneHour => "1h"@,
        Interval::TwentyFourHours => "24h"@,
        Interval::SevenDays => "7d"@,
    }
}

/// The SQL `INTERVAL` operand of each window.
pub open spec fn interval_sql(i: Interval) -> Seq<char> {
    match i {
        Interval::OneHour => "1 HOUR"@,
        Interval::TwentyFourHours => "24 HOUR"@,
        Interval::SevenDays => "7 DAY"@,
    }
}

impl Interval {
    /// How the window is written in a query string (`1h`, `24h`, `7d`).
    pub fn as_param(&self) -> (r: &'static str)
        ensures
            r@ == interval_param(*self),
    {
        match self {
            Interval::OneHour => "1h",
            Interval::TwentyFourHours => "24h",
            Interval::SevenDays => "7d",
        }
    }

    /// How the window is written after `INTERVAL` in SQL (`1 HOUR`,
    /// `24 HOUR`, `7 DAY`).
    pub fn to_string(&self) -> (r: String)
        ensures
            r@ == interval_sql(*self),
    {
        match self {
            Interval::OneHour => String::from_str("1 HOUR"),
            Interval::TwentyFourHours => String::from_str("24 HOUR"),
            Interval::SevenDays => String::from_str("7 DAY"),
        }
    }
}

/// A kind of event counted by the top-products report.
#[derive(Debug, Clone, Copy, PartialEq, Eq, Structural)]
pub enum Metric {
    Clicks,
    Views,
    Purchases,
}

/// The table that holds the events of each metric.
pub open spec fn metric_table(m: Metric) -> Seq<char> {
    match m {
        Metric::Clicks => "clicks"@,
        Metric::Views => "views"@,
        Metric::Purchases => "purchases"@,
    }
}

impl Metric {
    /// The table that holds the events this metric counts.
    pub fn table(&self) -> (r: &'static str)
        ensures
            r@ == metric_table(*self),
    {
        match self {
            Metric::Clicks => "clicks",
            Metric::Views => "views",
            Metric::Purchases => "purchases",
        }
    }
}

} // verus!
