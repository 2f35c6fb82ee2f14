use happychartsv2::{candles_to_array, Candle, CoinbaseCandle};

#[test]
fn feed_is_reversed_and_fields_are_named() {
    let feed = vec![
        CoinbaseCandle(3, 30, 31, 32, 33, 34),
        CoinbaseCandle(2, 20, 21, 22, 23, 24),
        CoinbaseCandle(1, 10, 11, 12, 13, 14),
    ];
    let series = candles_to_array(feed);
    assert_eq!(
        series,
        vec![
            Candle { time: 1, open: 12, high: 11, low: 10, close: 13, volume: 14 },
            Candle { time: 2, open: 22, high: 21, low: 20, close: 23, volume: 24 },
            Candle { time: 3, open: 32, high: 31, low: 30, close: 33, volume: 34 },
        ]
    );
}

#[test]
fn empty_feed_gives_empty_series() {
    assert_eq!(candles_to_array(Vec::new()), Vec::<Candle>::new());
}

#[test]
fn single_candle_feed() {
    let series = candles_to_array(vec![CoinbaseCandle(
        1_732_849_200_000_000,
        3_591_360_000,
        3_603_000_000,
        3_599_990_000,
        3_594_880_000,
        415_860_946,
    )]);
    assert_eq!(
        series,
        vec![Candle {
            time: 1_732_849_200_000_000,
            open: 3_599_990_000,
            high: 3_603_000_000,
            low: 3_591_360_000,
            close: 3_594_880_000,
            volume: 415_860_946,
        }]
    );
}
