//! Backtesting of a trading prompt: candles in fixed point, the labels that
//! score a prediction, the text handed to the model, the reading of its
//! answer, the bounded history of prompts and the loop that improves them.

pub mod candle;
pub mod driver;
pub mod evaluation;
pub mod history;
pub mod improver;
pub mod labeler;
pub mod market;
pub mod model;
pub mod prompt_builder;
pub mod response;
pub mod text;
pub mod window;

pub use crate::candle::{candles_to_array, Candle, CoinbaseCandle, SCALE};
pub use crate::model::Model;
pub use crate::labeler::{
    label_candles, label_candles_with, Action, Thresholds, LONG_THRESHOLD, SHORT_THRESHOLD,
    TIE_BREAK,
};
