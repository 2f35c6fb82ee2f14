//! Candles in fixed point.
//!
//! Every field of a candle is an integer count of millionths: a price of
//! 3594.88 is held as 3_594_880_000, a time of 1732849200 seconds as
//! 1_732_849_200_000_000.

use vstd::prelude::*;

verus! {

/// How many units of a fixed-point field make one whole.
pub const SCALE: i64 = 1_000_000;

/// One candle as the exchange sends it: time, low, high, open, close,
/// volume, in that order. The exchange sends the most recent candle first.
#[derive(Debug, Clone, Copy, PartialEq, Eq, Structural)]
pub struct CoinbaseCandle(pub i64, pub i64, pub i64, pub i64, pub i64, pub i64);

/// One open/high/low/close/volume observation over an hour.
#[derive(Debug, Clone, Copy, PartialEq, Eq, Structural)]
pub struct Candle {
    pub time: i64,
    pub open: i64,
    pub high: i64,
    pub low: i64,
    pub close: i64,
    pub volume: i64,
}

/// The candle that a wire candle stands for: the same six values, named.
pub open spec fn named(c: CoinbaseCandle) -> Candle {
    Candle { time: c.0, open: c.3, high: c.2, low: c.1, close: c.4, volume: c.5 }
}

/// The series that a feed stands for: its candles named, oldest first.
pub open spec fn chronological(feed: Seq<CoinbaseCandle>) -> Seq<Candle> {
    Seq::new(feed.len(), |i: int| named(feed[feed.len() - 1 - i]))
}

/// Turns a feed, most recent candle first, into a series, oldest candle
/// first.
pub fn candles_to_array(candles: Vec<CoinbaseCandle>) -> (series: Vec<Candle>)
    ensures
        series@ == chronological(candles@),
{
    let n = candles.len();
    let mut series: Vec<Candle> = Vec::new();
    let mut i: usize = 0;
    while i < n
        invariant
            n == candles.len(),
            i <= n,
            series@ == chronological(candles@).take(i as int),
        decreases n - i,
    {
        let c = candles[n - 1 - i];
        series.push(Candle { time: c.0, open: c.3, high: c.2, low: c.1, close: c.4, volume: c.5 });
        i += 1;
        assert(series@ =~= chronological(candles@).take(i as int));
    }
    assert(chronological(candles@).take(n as int) =~= chronological(candles@));
    series
}

/// The series keeps every candle of the feed, and its order is that of the
/// feed backwards.
pub proof fn lemma_chronological_keeps_all(feed: Seq<CoinbaseCandle>, i: int)
    requires
        0 <= i < feed.len(),
    ensures
        chronological(feed).len() == feed.len(),
        chronological(feed)[feed.len() - 1 - i] == named(feed[i]),
{
}

} // verus!
