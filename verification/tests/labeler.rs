use happychartsv2::{
    label_candles, label_candles_with, Action, Candle, Thresholds, LONG_THRESHOLD, SCALE,
    SHORT_THRESHOLD,
};

const LONG: f64 = LONG_THRESHOLD as f64 / SCALE as f64;
const SHORT: f64 = SHORT_THRESHOLD as f64 / SCALE as f64;

fn fixed(x: f64) -> i64 {
    (x * SCALE as f64).round() as i64
}

fn series(rows: &[[f64; 6]]) -> Vec<Candle> {
    rows.iter()
        .map(|r| Candle {
            time: fixed(r[0]),
            open: fixed(r[1]),
            high: fixed(r[2]),
            low: fixed(r[3]),
            close: fixed(r[4]),
            volume: fixed(r[5]),
        })
        .collect()
}

#[test]
fn test_label_candles_basic_short_scenario() {
    let base = 3594.88;
    let data = [
        [0.0, 0.0, 3603.0, 3599.99, base, 100.0],
        [0.0, 0.0, 3600.0, base * SHORT - 1.0, 3599.99, 100.0],
        [0.0, 0.0, 3570.86, 3558.89, 3565.52, 100.0],
    ];

    let labels = label_candles(&series(&data));
    assert_eq!(labels.len(), 3);
    assert_eq!(labels, vec![Action::Short, Action::Short, Action::NoTrade]);
}

#[test]
fn test_label_candles_single_candle() {
    let data = [[0.0, 0.0, 100.0, 99.0, 100.0, 500.0]];
    let labels = label_candles(&series(&data));
    assert_eq!(labels, vec![Action::NoTrade]);
}

#[test]
fn test_label_candles_no_conditions_met() {
    let base = 100.0;
    let data = [
        [0.0, 0.0, base * 1.002, base * 0.998, base, 500.0],
        [0.0, 0.0, base * 1.002, base * 0.998, base * 1.001, 500.0],
        [0.0, 0.0, base * 1.002, base * 0.998, base * 1.002, 500.0],
    ];

    let labels = label_candles(&series(&data));
    assert_eq!(labels.len(), 3);
    assert_eq!(labels, vec![Action::NoTrade, Action::NoTrade, Action::NoTrade]);
}

#[test]
fn test_label_candles_long_condition() {
    let base = 100.0;
    let data = [
        [0.0, 0.0, base * 1.01, base * 0.998, base, 1000.0],
        [0.0, 0.0, base * 1.01, base, base * 1.005, 1000.0],
    ];

    let labels = label_candles(&series(&data));
    assert_eq!(labels.len(), 2);
    assert_eq!(labels[0], Action::Long);
    assert_eq!(labels[1], Action::NoTrade);
}

#[test]
fn test_label_candles_short_condition() {
    let base = 100.0;
    let data = [
        [0.0, 0.0, base * 1.002, base * 0.998, base, 1000.0],
        [0.0, 0.0, base * 1.002, base * SHORT - 0.001, base, 1000.0],
    ];

    let labels = label_candles(&series(&data));
    assert_eq!(labels, vec![Action::Short, Action::NoTrade]);
}

#[test]
fn test_label_candles_both_conditions() {
    let base = 100.0;
    let data = [
        [0.0, 0.0, base * 1.002, base * 0.998, base, 1000.0],
        [
            0.0,
            0.0,
            base * LONG + 0.001,
            base * SHORT - 0.001,
            base * 1.003,
            1000.0,
        ],
    ];

    let labels = label_candles(&series(&data));
    assert_eq!(labels.len(), 2);
    assert_eq!(labels[0], Action::Short);
    assert_eq!(labels[1], Action::NoTrade);
}

#[test]
fn test_label_candles_multiple_varied() {
    let base = 100.0;
    let data = [
        [0.0, 0.0, base * 1.002, base * 0.998, base, 500.0],
        [0.0, 0.0, base * 1.002, base * 0.998, base, 500.0],
        [0.0, 0.0, base * 1.02, base * 0.999, base * 1.01, 500.0],
        [0.0, 0.0, base * 1.011, base * 0.99, base * 1.005, 500.0],
        [0.0, 0.0, base * 1.02, base * 0.99, base, 500.0],
    ];

    let labels = label_candles(&series(&data));
    assert_eq!(labels.len(), 5);
    assert_eq!(
        labels,
        vec![
            Action::NoTrade,
            Action::Long,
            Action::Short,
            Action::Short,
            Action::NoTrade
        ]
    );
}

#[test]
fn labels_of_observed_hours() {
    let data = [
        [0.0, 0.0, 3603.0, 3599.99, 3594.88, 0.0],
        [0.0, 0.0, 3600.0, 3565.45, 3599.99, 0.0],
        [0.0, 0.0, 3570.86, 3558.89, 3565.52, 0.0],
    ];
    let labels = label_candles(&series(&data));
    assert_eq!(labels, vec![Action::Short, Action::Short, Action::NoTrade]);
}

#[test]
fn empty_series_has_no_labels() {
    assert_eq!(label_candles(&[]), Vec::<Action>::new());
}

#[test]
fn thresholds_are_met_exactly_at_the_boundary() {
    let current = Candle { time: 0, open: 0, high: 0, low: 0, close: 100_000_000, volume: 0 };
    let at_long = Candle { time: 0, open: 0, high: 100_300_000, low: 100_000_000, close: 0, volume: 0 };
    let below_long = Candle { high: 100_299_999, ..at_long };
    let at_short = Candle { time: 0, open: 0, high: 100_000_000, low: 99_700_000, close: 0, volume: 0 };
    let above_short = Candle { low: 99_700_001, ..at_short };
    assert_eq!(label_candles(&[current, at_long])[0], Action::Long);
    assert_eq!(label_candles(&[current, below_long])[0], Action::NoTrade);
    assert_eq!(label_candles(&[current, at_short])[0], Action::Short);
    assert_eq!(label_candles(&[current, above_short])[0], Action::NoTrade);
}

#[test]
fn wider_thresholds_change_the_labels() {
    let wide = Thresholds { long: 1_050_000, short: 950_000 };
    let data = series(&[
        [0.0, 0.0, 101.0, 99.0, 100.0, 0.0],
        [0.0, 0.0, 104.9, 95.1, 100.0, 0.0],
        [0.0, 0.0, 105.0, 95.0, 100.0, 0.0],
    ]);
    assert_eq!(
        label_candles_with(&data, wide),
        vec![Action::NoTrade, Action::Short, Action::NoTrade]
    );
    assert_eq!(
        label_candles(&data),
        vec![Action::Short, Action::Short, Action::NoTrade]
    );
}

#[test]
fn labelling_twice_gives_the_same_labels() {
    let data = series(&[
        [0.0, 0.0, 101.0, 99.0, 100.0, 0.0],
        [0.0, 0.0, 100.4, 99.9, 100.0, 0.0],
        [0.0, 0.0, 100.0, 99.0, 100.0, 0.0],
    ]);
    assert_eq!(label_candles(&data), label_candles(&data));
    assert_eq!(label_candles(&data), vec![Action::Long, Action::Short, Action::NoTrade]);
}

#[test]
fn extreme_values_do_not_overflow() {
    let big = Candle {
        time: 0,
        open: 0,
        high: i64::MAX,
        low: i64::MIN,
        close: i64::MAX,
        volume: 0,
    };
    let wide = Thresholds { long: i64::MAX, short: i64::MIN };
    assert_eq!(
        label_candles_with(&[big, big], wide),
        vec![Action::NoTrade, Action::NoTrade]
    );
}
