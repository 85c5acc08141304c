//! Interactive modular-arithmetic times-table visualization, verified core.
//!
//! `divisions` points sit evenly on a circle and each point `i` is joined by
//! a line to the point at index `(i * factor) mod divisions`. The user tunes
//! `factor` and `divisions` live through scroll and key input, and can start
//! a continuous animation that drifts one of the two parameters each tick.
//!
//! The crate holds the two parts with real logic:
//! - [`state`]: the event-driven state machine (parameter mutation with rate
//!   limiting, animation lifecycle, reset), and
//! - [`geometry`]: the pure derivation of the line list from the parameters.
//!
//! Fractional quantities are carried as exact fixed-point integers: `factor`
//! and `scale` in thousandths, timestamps in microseconds, circle positions
//! in thousandths of a point index. The rendering layer turns a position `p`
//! into an angle `p / (1000 * divisions) * 2 pi` and applies sine and cosine;
//! everything up to that trigonometric step is verified here.

pub mod geometry;
pub mod state;
