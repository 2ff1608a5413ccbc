//! Candlestick chart geometry in fixed-point arithmetic.
//!
//! The chart keeps a small interaction state (two zoom factors and a
//! button flag), maps prices and candle positions to screen coordinates, and
//! emits an ordered list of drawing commands for a host to paint.
//!
//! Every real quantity is an integer in a fixed unit: prices in hundredths,
//! zoom factors in millionths, scroll distances in thousandths, lengths and
//! screen coordinates in thousandths of a pixel. A coordinate is its exact
//! value rounded to the nearest thousandth, a zoom factor its exact value
//! rounded to the nearest millionth. Nothing here fails: a zoom factor that
//! would leave its range is clamped, a coordinate that would leave the `i64`
//! range saturates, and candles are drawn as they are given.
//!
//! - `candle`: the price record and the price range of a sequence.
//! - `event`, `viewport`: input events and the state they drive.
//! - `mapper`, `arith`: the transform to screen coordinates.
//! - `exact`: the same quantities over the real numbers.
//! - `draw`, `label`, `chart`: drawing commands, label text and the frame.
//! - `sample`: a random walk of candles to show.

pub mod arith;
pub mod candle;
pub mod chart;
pub mod draw;
pub mod event;
pub mod exact;
pub mod label;
pub mod mapper;
pub mod sample;
pub mod viewport;
