//! The ground truth: what should have been done at each candle, read off the
//! candle that followed it.

use vstd::prelude::*;
use crate::candle::{Candle, SCALE};

verus! {

/// A trading decision for one time step.
#[derive(Debug, Clone, Copy, PartialEq, Eq, Structural)]
pub enum Action {
    Long,
    Short,
    NoTrade,
}

/// The profit thresholds, as multiples of the current close in millionths:
/// 1_003_000 asks for a rise of 0.3 %.
#[derive(Debug, Clone, Copy, PartialEq, Eq, Structural)]
pub struct Thresholds {
    pub long: i64,
    pub short: i64,
}

/// The next high must reach the close times this for a long.
pub const LONG_THRESHOLD: i64 = 1_003_000;

/// The next low must fall to the close times this for a short.
pub const SHORT_THRESHOLD: i64 = 997_000;

/// What a candle is labelled when the next one reaches both thresholds.
pub const TIE_BREAK: Action = Action::Short;

/// Whether `next` rises far enough above the close of `current`.
pub open spec fn long_reached(current: Candle, next: Candle, t: Thresholds) -> bool {
    next.high * SCALE >= current.close * t.long
}

/// Whether `next` falls far enough below the close of `current`.
pub open spec fn short_reached(current: Candle, next: Candle, t: Thresholds) -> bool {
    next.low * SCALE <= current.close * t.short
}

/// The label of `current`, given the candle that followed it.
pub open spec fn label_of_pair(current: Candle, next: Candle, t: Thresholds) -> Action {
    if long_reached(current, next, t) && short_reached(current, next, t) {
        TIE_BREAK
    } else if long_reached(current, next, t) {
        Action::Long
    } else if short_reached(current, next, t) {
        Action::Short
    } else {
        Action::NoTrade
    }
}

/// The labels of a series: one per candle, the last one `NoTrade` because
/// nothing follows it.
pub open spec fn labels_of(data: Seq<Candle>, t: Thresholds) -> Seq<Action> {
    Seq::new(
        data.len(),
        |i: int|
            if i + 1 < data.len() {
                label_of_pair(data[i], data[i + 1], t)
            } else {
                Action::NoTrade
            },
    )
}

/// The thresholds that `label_candles` uses.
pub open spec fn default_thresholds() -> Thresholds {
    Thresholds { long: LONG_THRESHOLD, short: SHORT_THRESHOLD }
}

fn product(a: i64, b: i64) -> (p: i128)
    ensures
        p == a * b,
{
    assert(-0x4000_0000_0000_0000_0000_0000_0000_0000 <= a * b
        <= 0x4000_0000_0000_0000_0000_0000_0000_0000) by (nonlinear_arith)
        requires
            -0x8000_0000_0000_0000 <= a <= 0x8000_0000_0000_0000,
            -0x8000_0000_0000_0000 <= b <= 0x8000_0000_0000_0000,
    ;
    (a as i128) * (b as i128)
}

/// Labels one candle from the candle that followed it.
pub fn label_pair(current: &Candle, next: &Candle, t: Thresholds) -> (a: Action)
    ensures
        a == label_of_pair(*current, *next, t),
{
    let long_cond = product(next.high, SCALE) >= product(current.close, t.long);
    let short_cond = product(next.low, SCALE) <= product(current.close, t.short);
    if long_cond && short_cond {
        TIE_BREAK
    } else if long_cond {
        Action::Long
    } else if short_cond {
        Action::Short
    } else {
        Action::NoTrade
    }
}

/// Labels every candle of a series under the given thresholds.
pub fn label_candles_with(data: &[Candle], t: Thresholds) -> (labels: Vec<Action>)
    ensures
        labels@ == labels_of(data@, t),
        labels@.len() == data@.len(),
        data@.len() >= 1 ==> labels@.last() == Action::NoTrade,
        forall|i: int|
            0 <= i && i + 1 < data@.len() && long_reached(data@[i], data@[i + 1], t)
                && short_reached(data@[i], data@[i + 1], t) ==> #[trigger] labels@[i]
                == Action::Short,
{
    let n = data.len();
    let mut labels: Vec<Action> = Vec::new();
    let mut i: usize = 0;
    while i < n
        invariant
            n == data@.len(),
            i <= n,
            labels@ == labels_of(data@, t).take(i as int),
        decreases n - i,
    {
        let label = if i + 1 < n {
            label_pair(&data[i], &data[i + 1], t)
        } else {
            Action::NoTrade
        };
        labels.push(label);
        i += 1;
        assert(labels@ =~= labels_of(data@, t).take(i as int));
    }
    assert(labels_of(data@, t).take(n as int) =~= labels_of(data@, t));
    labels
}

/// Labels every candle of a series under `LONG_THRESHOLD` and
/// `SHORT_THRESHOLD`.
pub fn label_candles(data: &[Candle]) -> (labels: Vec<Action>)
    ensures
        labels@ == labels_of(data@, default_thresholds()),
        labels@.len() == data@.len(),
        data@.len() >= 1 ==> labels@.last() == Action::NoTrade,
        forall|i: int|
            0 <= i && i + 1 < data@.len() && long_reached(
                data@[i],
                data@[i + 1],
                default_thresholds(),
            ) && short_reached(data@[i], data@[i + 1], default_thresholds())
                ==> #[trigger] labels@[i] == Action::Short,
{
    label_candles_with(data, Thresholds { long: LONG_THRESHOLD, short: SHORT_THRESHOLD })
}

/// Labelling is a function of the series and the thresholds: two runs over
/// the same input give the same labels.
pub proof fn lemma_labels_repeatable(
    first: Seq<Action>,
    second: Seq<Action>,
    data: Seq<Candle>,
    t: Thresholds,
)
    requires
        first == labels_of(data, t),
        second == labels_of(data, t),
    ensures
        first == second,
{
}

/// There is a label for every candle, and the last one is `NoTrade`.
pub proof fn lemma_labels_shape(data: Seq<Candle>, t: Thresholds)
    requires
        data.len() >= 1,
    ensures
        labels_of(data, t).len() == data.len(),
        labels_of(data, t).last() == Action::NoTrade,
{
}

/// Where the next candle reaches both thresholds, the label is `Short`.
pub proof fn lemma_tie_is_short(data: Seq<Candle>, t: Thresholds, i: int)
    requires
        0 <= i,
        i + 1 < data.len(),
        long_reached(data[i], data[i + 1], t),
        short_reached(data[i], data[i + 1], t),
    ensures
        labels_of(data, t)[i] == Action::Short,
{
}

} // verus!
