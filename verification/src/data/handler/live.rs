//! Naming of the live exchanges a candle feed can ride on. The live feed
//! itself is wired up in the application shell around this library, which
//! converts each received candle into a [`crate::data::market::Bar`] in
//! minor units and replays it through the data handler capabilities.

use vstd::prelude::*;

verus! {

/// The exchanges a live candle handler can connect to.
#[derive(Debug, PartialEq, Eq, Structural, Clone, Copy)]
pub enum ExchangeName {
    Binance,
}

impl ExchangeName {
    /// The exchange's name as it appears in market identifiers.
    pub fn as_str(&self) -> &'static str {
        match self {
            ExchangeName::Binance => "binance",
        }
    }
}

} // verus!
