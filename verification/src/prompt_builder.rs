//! The data block of a prompt: three windows of candles as text, the same
//! bytes for the same numbers.

use vstd::prelude::*;
use vstd::string::*;
use crate::candle::Candle;
use crate::text::{push_char, push_rounded, rounded_text};

verus! {

/// Millionths per printed unit of a time or a price: they are printed in
/// hundredths.
pub const PRICE_UNIT: u64 = 10_000;

/// Fraction digits of a time or a price.
pub const PRICE_PLACES: u32 = 2;

/// Millionths per printed unit of a volume: it is printed in millionths.
pub const VOLUME_UNIT: u64 = 1;

/// Fraction digits of a volume.
pub const VOLUME_PLACES: u32 = 6;

/// A time or a price as text, with two fraction digits.
pub open spec fn price_text(v: i64) -> Seq<char> {
    rounded_text(v as int, PRICE_UNIT as nat, PRICE_PLACES as nat)
}

/// A volume as text, with six fraction digits.
pub open spec fn volume_text(v: i64) -> Seq<char> {
    rounded_text(v as int, VOLUME_UNIT as nat, VOLUME_PLACES as nat)
}

/// One candle as text: `[time,open,high,low,close,volume]`.
pub open spec fn candle_text(c: Candle) -> Seq<char> {
    seq!['['] + price_text(c.time) + seq![','] + price_text(c.open) + seq![','] + price_text(
        c.high,
    ) + seq![','] + price_text(c.low) + seq![','] + price_text(c.close) + seq![',']
        + volume_text(c.volume) + seq![']']
}

/// The candles of a series as text, with a comma between two of them.
pub open spec fn rows_text(data: Seq<Candle>) -> Seq<char>
    decreases data.len(),
{
    if data.len() == 0 {
        Seq::<char>::empty()
    } else if data.len() == 1 {
        candle_text(data[0])
    } else {
        rows_text(data.drop_last()) + seq![','] + candle_text(data.last())
    }
}

/// A series as text: its candles between square brackets.
pub open spec fn candles_text(data: Seq<Candle>) -> Seq<char> {
    seq!['['] + rows_text(data) + seq![']']
}

/// The data block: a heading, then one line for each of the three series.
pub open spec fn data_section_text(eth: Seq<Candle>, btc: Seq<Candle>, sol: Seq<Candle>) -> Seq<
    char,
> {
    "Data provided (hourly candles, format: [timestamp, open, high, low, close, volume]):\n"@
        + "ETH: "@ + candles_text(eth) + seq!['\n'] + "BTC: "@ + candles_text(btc) + seq!['\n']
        + "SOL: "@ + candles_text(sol) + seq!['\n']
}

/// Appends one candle as text.
pub fn push_candle(out: &mut String, c: &Candle)
    ensures
        final(out)@ == old(out)@ + candle_text(*c),
{
    push_char(out, '[');
    push_rounded(out, c.time, PRICE_UNIT, PRICE_PLACES);
    push_char(out, ',');
    push_rounded(out, c.open, PRICE_UNIT, PRICE_PLACES);
    push_char(out, ',');
    push_rounded(out, c.high, PRICE_UNIT, PRICE_PLACES);
    push_char(out, ',');
    push_rounded(out, c.low, PRICE_UNIT, PRICE_PLACES);
    push_char(out, ',');
    push_rounded(out, c.close, PRICE_UNIT, PRICE_PLACES);
    push_char(out, ',');
    push_rounded(out, c.volume, VOLUME_UNIT, VOLUME_PLACES);
    push_char(out, ']');
    assert(out@ =~= old(out)@ + candle_text(*c));
}

/// Appends a series as text.
pub fn push_candles(out: &mut String, data: &[Candle])
    ensures
        final(out)@ == old(out)@ + candles_text(data@),
{
    push_char(out, '[');
    let n = data.len();
    let mut i: usize = 0;
    while i < n
        invariant
            n == data@.len(),
            i <= n,
            out@ == old(out)@ + seq!['['] + rows_text(data@.take(i as int)),
        decreases n - i,
    {
        let ghost before = out@;
        if i > 0 {
            push_char(out, ',');
        }
        push_candle(out, &data[i]);
        proof {
            let shorter = data@.take(i as int);
            let longer = data@.take(i + 1);
            assert(longer.drop_last() =~= shorter);
            assert(longer.last() == data@[i as int]);
            if i == 0 {
                assert(rows_text(shorter) =~= Seq::<char>::empty());
                assert(longer[0] == data@[0]);
            }
            assert(out@ =~= old(out)@ + seq!['['] + rows_text(longer));
        }
        i += 1;
    }
    assert(data@.take(n as int) =~= data@);
    push_char(out, ']');
    assert(out@ =~= old(out)@ + candles_text(data@));
}

/// The data block for three windows of candles.
pub fn build_data_section(eth_data: &[Candle], btc_data: &[Candle], sol_data: &[Candle]) -> (block:
    String)
    ensures
        block@ == data_section_text(eth_data@, btc_data@, sol_data@),
{
    let mut block = String::new();
    block.append(
        "Data provided (hourly candles, format: [timestamp, open, high, low, close, volume]):\n",
    );
    block.append("ETH: ");
    push_candles(&mut block, eth_data);
    push_char(&mut block, '\n');
    block.append("BTC: ");
    push_candles(&mut block, btc_data);
    push_char(&mut block, '\n');
    block.append("SOL: ");
    push_candles(&mut block, sol_data);
    push_char(&mut block, '\n');
    assert(block@ =~= data_section_text(eth_data@, btc_data@, sol_data@));
    block
}

} // verus!
