//! A simulated market-data dashboard: instrument records driven by a bounded
//! random walk, a scrolling headline banner, watchlist selection, and a render
//! pipeline that partitions the screen into panels and formats each one.
//!
//! Prices are fixed-point integers: one price unit is `PRICE_SCALE` ticks.

pub mod history;
pub mod instrument;
pub mod market;
mod random;
pub mod layout;
pub mod panels;
pub mod text;

pub use history::PriceHistory;
pub use instrument::Instrument;
pub use market::{command_for_key, App, Command, Key, SelectionMove};

use vstd::prelude::*;

verus! {

/// Ticks per price unit (prices are stored in millionths).
pub const PRICE_SCALE: i64 = 1_000_000;

/// Capacity of each instrument's price history.
pub const HISTORY_LEN: usize = 64;

} // verus!
