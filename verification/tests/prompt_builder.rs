use happychartsv2::prompt_builder::build_data_section;
use happychartsv2::{Candle, SCALE};

fn fixed(x: f64) -> i64 {
    (x * SCALE as f64).round() as i64
}

fn series(rows: &[[f64; 6]]) -> Vec<Candle> {
    rows.iter()
        .map(|r| Candle {
            time: fixed(r[0]),
            open: fixed(r[1]),
            high: fixed(r[2]),
            low: fixed(r[3]),
            close: fixed(r[4]),
            volume: fixed(r[5]),
        })
        .collect()
}

#[test]
fn test_build_prompt() {
    let eth_data = [
        [1732849200.0, 3591.36, 3603.0, 3599.99, 3594.88, 415.86094626],
        [1732845600.0, 3564.44, 3600.0, 3565.45, 3599.99, 4979.85077974],
    ];
    let btc_data = [
        [1732849200.0, 50000.0, 50100.0, 49950.0, 50050.0, 2000.0],
        [1732845600.0, 50100.0, 50200.0, 50000.0, 50080.0, 1900.0],
    ];
    let sol_data = [
        [1732849200.0, 150.0, 152.0, 149.5, 151.0, 10000.0],
        [1732845600.0, 151.0, 153.0, 150.0, 152.0, 8000.0],
    ];

    let prompt = build_data_section(&series(&eth_data), &series(&btc_data), &series(&sol_data));
    assert!(prompt.contains("ETH: [[1732849200.00,3591.36,3603.00,3599.99,3594.88,415.860946"));
    assert!(
        prompt.contains("BTC: [[1732849200.00,50000.00,50100.00,49950.00,50050.00,2000.000000")
    );
    assert!(prompt.contains("SOL: [[1732849200.00,150.00,152.00,149.50,151.00,10000.000000"));
}

#[test]
fn data_block_is_exact() {
    let eth = [Candle { time: 3_600_000_000, open: 1_005_000, high: 2_015_000, low: 994_999, close: 1_500_000, volume: 123 }];
    let btc: [Candle; 0] = [];
    let sol = [
        Candle { time: 0, open: 0, high: 0, low: 0, close: 0, volume: 0 },
        Candle { time: 1_000_000, open: -5_000, high: -1_234_567, low: 10_000, close: 9_999_999, volume: -1 },
    ];
    let block = build_data_section(&eth, &btc, &sol);
    assert_eq!(
        block,
        "Data provided (hourly candles, format: [timestamp, open, high, low, close, volume]):\n\
         ETH: [[3600.00,1.00,2.02,0.99,1.50,0.000123]]\n\
         BTC: []\n\
         SOL: [[0.00,0.00,0.00,0.00,0.00,0.000000],[1.00,-0.00,-1.23,0.01,10.00,-0.000001]]\n"
    );
}

#[test]
fn same_window_gives_the_same_bytes() {
    let eth = series(&[[1732849200.0, 3591.36, 3603.0, 3599.99, 3594.88, 415.86094626]]);
    let first = build_data_section(&eth, &eth, &eth);
    let second = build_data_section(&eth, &eth, &eth);
    assert_eq!(first.as_bytes(), second.as_bytes());
}
