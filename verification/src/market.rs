//! What is asked of the exchange: which hours, and under which address.

use vstd::prelude::*;
use vstd::string::*;
use crate::text::{push_rounded, rounded_text};
use crate::window::CANDLE_HOURS;

verus! {

/// Seconds in an hour, the width of one candle.
pub const HOUR_SECONDS: i64 = 3600;

/// How many hours before now a backtest ends.
pub const BACKTEST_LAG_HOURS: i64 = 48;

/// How many hours a backtest covers.
pub const BACKTEST_SPAN_HOURS: i64 = 96;

/// A stretch of time in unix seconds.
#[derive(Debug, Clone, Copy, PartialEq, Eq, Structural)]
pub struct TimeRange {
    pub start: i64,
    pub end: i64,
}

/// The hours of a backtest run at `now`: `BACKTEST_SPAN_HOURS` hours that
/// end `BACKTEST_LAG_HOURS` hours ago.
pub open spec fn backtest_range_of(now: i64) -> TimeRange {
    TimeRange {
        start: (now - (BACKTEST_LAG_HOURS + BACKTEST_SPAN_HOURS) * HOUR_SECONDS) as i64,
        end: (now - BACKTEST_LAG_HOURS * HOUR_SECONDS) as i64,
    }
}

/// The hours of a live run at `now`: the last `CANDLE_HOURS` hours.
pub open spec fn live_range_of(now: i64) -> TimeRange {
    TimeRange { start: (now - CANDLE_HOURS * HOUR_SECONDS) as i64, end: now }
}

/// A whole number of seconds as text.
pub open spec fn seconds_text(v: i64) -> Seq<char> {
    rounded_text(v as int, 1, 0)
}

/// The address that gives the hourly candles of `symbol` against the
/// dollar over `range`.
pub open spec fn candles_url_text(symbol: Seq<char>, range: TimeRange) -> Seq<char> {
    "https://api.exchange.coinbase.com/products/"@ + symbol + "-USD/candles?start="@
        + seconds_text(range.start) + "&end="@ + seconds_text(range.end) + "&granularity=3600"@
}

/// The hours of a backtest run at `now`, or `None` where they would start
/// before the first second that an `i64` holds.
pub fn backtest_range(now: i64) -> (range: Option<TimeRange>)
    ensures
        range is Some <==> now - (BACKTEST_LAG_HOURS + BACKTEST_SPAN_HOURS) * HOUR_SECONDS
            >= i64::MIN,
        range matches Some(r) ==> r == backtest_range_of(now),
{
    let back: i64 = (BACKTEST_LAG_HOURS + BACKTEST_SPAN_HOURS) * HOUR_SECONDS;
    if now < i64::MIN + back {
        return None;
    }
    Some(TimeRange { start: now - back, end: now - BACKTEST_LAG_HOURS * HOUR_SECONDS })
}

/// The hours of a live run at `now`, or `None` where they would start
/// before the first second that an `i64` holds.
pub fn live_range(now: i64) -> (range: Option<TimeRange>)
    ensures
        range is Some <==> now - CANDLE_HOURS * HOUR_SECONDS >= i64::MIN,
        range matches Some(r) ==> r == live_range_of(now),
{
    let back: i64 = (CANDLE_HOURS as i64) * HOUR_SECONDS;
    if now < i64::MIN + back {
        return None;
    }
    Some(TimeRange { start: now - back, end: now })
}

/// The address that gives the hourly candles of `symbol` over `range`.
pub fn candles_url(symbol: &str, range: TimeRange) -> (url: String)
    ensures
        url@ == candles_url_text(symbol@, range),
{
    let mut url = String::new();
    url.append("https://api.exchange.coinbase.com/products/");
    url.append(symbol);
    url.append("-USD/candles?start=");
    push_rounded(&mut url, range.start, 1, 0);
    url.append("&end=");
    push_rounded(&mut url, range.end, 1, 0);
    url.append("&granularity=3600");
    assert(url@ =~= candles_url_text(symbol@, range));
    url
}

} // verus!
