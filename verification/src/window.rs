//! Windows: the same stretch of hours cut out of three aligned series.

use vstd::prelude::*;
use vstd::slice::slice_subrange;
use vstd::string::*;
use crate::candle::Candle;
use crate::prompt_builder::{build_data_section, data_section_text};

verus! {

/// How many candles a window holds.
pub const CANDLE_HOURS: usize = 24;

/// The candles of three series over the same `CANDLE_HOURS` hours.
#[derive(Debug, Clone, Copy)]
pub struct Window<'a> {
    pub eth: &'a [Candle],
    pub btc: &'a [Candle],
    pub sol: &'a [Candle],
}

/// Whether a window can end before index `end`: it needs `CANDLE_HOURS`
/// candles, and each series must have `end` of them.
pub open spec fn eligible(end: int, eth_len: int, btc_len: int, sol_len: int) -> bool {
    &&& CANDLE_HOURS <= end
    &&& end <= eth_len
    &&& end <= btc_len
    &&& end <= sol_len
}

/// The `CANDLE_HOURS` candles of `series` before index `end`.
pub open spec fn lookback(series: Seq<Candle>, end: int) -> Seq<Candle> {
    series.subrange(end - CANDLE_HOURS, end)
}

/// The text handed to the model for one window: the base prompt, an empty
/// line, the data block.
pub open spec fn full_prompt_text(
    base_prompt: Seq<char>,
    eth: Seq<Candle>,
    btc: Seq<Candle>,
    sol: Seq<Candle>,
) -> Seq<char> {
    base_prompt + seq!['\n', '\n'] + data_section_text(eth, btc, sol)
}

/// The window that ends before index `end`, or `None` where `end` is not
/// eligible.
pub fn build_window<'a>(
    eth: &'a [Candle],
    btc: &'a [Candle],
    sol: &'a [Candle],
    end: usize,
) -> (window: Option<Window<'a>>)
    ensures
        window is Some <==> eligible(end as int, eth@.len() as int, btc@.len() as int, sol@.len() as int),
        eth@.len() < end || btc@.len() < end || sol@.len() < end ==> window is None,
        window matches Some(w) ==> {
            &&& w.eth@ == lookback(eth@, end as int)
            &&& w.btc@ == lookback(btc@, end as int)
            &&& w.sol@ == lookback(sol@, end as int)
            &&& w.eth@.len() == CANDLE_HOURS
            &&& w.btc@.len() == CANDLE_HOURS
            &&& w.sol@.len() == CANDLE_HOURS
        },
{
    if end < CANDLE_HOURS || eth.len() < end || btc.len() < end || sol.len() < end {
        return None;
    }
    let start = end - CANDLE_HOURS;
    Some(
        Window {
            eth: slice_subrange(eth, start, end),
            btc: slice_subrange(btc, start, end),
            sol: slice_subrange(sol, start, end),
        },
    )
}

/// The most recent window of three series, or `None` where one of them has
/// fewer than `CANDLE_HOURS` candles. The three may differ in length: each
/// gives its own last hours.
pub fn latest_window<'a>(eth: &'a [Candle], btc: &'a [Candle], sol: &'a [Candle]) -> (window:
    Option<Window<'a>>)
    ensures
        window is Some <==> eth@.len() >= CANDLE_HOURS && btc@.len() >= CANDLE_HOURS && sol@.len()
            >= CANDLE_HOURS,
        window matches Some(w) ==> {
            &&& w.eth@ == lookback(eth@, eth@.len() as int)
            &&& w.btc@ == lookback(btc@, btc@.len() as int)
            &&& w.sol@ == lookback(sol@, sol@.len() as int)
        },
{
    if eth.len() < CANDLE_HOURS || btc.len() < CANDLE_HOURS || sol.len() < CANDLE_HOURS {
        return None;
    }
    Some(
        Window {
            eth: slice_subrange(eth, eth.len() - CANDLE_HOURS, eth.len()),
            btc: slice_subrange(btc, btc.len() - CANDLE_HOURS, btc.len()),
            sol: slice_subrange(sol, sol.len() - CANDLE_HOURS, sol.len()),
        },
    )
}

/// The text handed to the model for `window` under `base_prompt`.
pub fn build_full_prompt(base_prompt: &str, window: &Window) -> (prompt: String)
    ensures
        prompt@ == full_prompt_text(base_prompt@, window.eth@, window.btc@, window.sol@),
{
    let block = build_data_section(window.eth, window.btc, window.sol);
    let mut prompt = String::new();
    prompt.append(base_prompt);
    prompt.append("\n\n");
    prompt.append(block.as_str());
    proof {
        reveal_strlit("\n\n");
        assert("\n\n"@ =~= seq!['\n', '\n']);
        assert(prompt@ =~= full_prompt_text(
            base_prompt@,
            window.eth@,
            window.btc@,
            window.sol@,
        ));
    }
    prompt
}

/// Eligibility is lost for good: where `end` is not eligible for want of
/// candles, no later index is eligible either.
pub proof fn lemma_eligibility_is_downward_closed(
    end: int,
    later: int,
    eth_len: int,
    btc_len: int,
    sol_len: int,
)
    requires
        CANDLE_HOURS <= end <= later,
        eligible(later, eth_len, btc_len, sol_len),
    ensures
        eligible(end, eth_len, btc_len, sol_len),
{
}

} // verus!
