//! The market events that act as the system heartbeat.

use vstd::prelude::*;
use crate::{valid_price, AMOUNT_LIMIT};

verus! {

/// OHLCV sample for a market over a time interval, priced in minor units.
#[derive(Debug, PartialEq, Eq, Structural, Clone, Copy)]
pub struct Bar {
    pub open: i64,
    pub high: i64,
    pub low: i64,
    pub close: i64,
    pub volume: i64,
    pub timestamp: i64,
}

impl Bar {
    /// A bar is valid when every price is a bounded positive amount and the
    /// volume is non-negative and bounded.
    pub open spec fn valid(self) -> bool {
        &&& valid_price(self.open)
        &&& valid_price(self.high)
        &&& valid_price(self.low)
        &&& valid_price(self.close)
        &&& 0 <= self.volume <= AMOUNT_LIMIT
    }
}

/// Snapshot of the bar that caused a signal, propagated through
/// Signal -> Order -> Fill so exit-time decisions reference it.
#[derive(Debug, PartialEq, Eq, Structural, Clone, Copy)]
pub struct MarketMeta {
    /// Close price of the originating bar, in minor units.
    pub close: i64,
    /// Timestamp of the originating bar, in milliseconds since the epoch.
    pub timestamp: i64,
}

impl MarketMeta {
    /// Valid when the close price is a bounded positive amount.
    pub open spec fn valid(self) -> bool {
        valid_price(self.close)
    }
}

impl Default for MarketMeta {
    /// A placeholder snapshot: one whole unit of one hundred minor units,
    /// at the epoch.
    fn default() -> (meta: MarketMeta)
        ensures
            meta == (MarketMeta { close: 100, timestamp: 0 }),
            meta.valid(),
    {
        MarketMeta { close: 100, timestamp: 0 }
    }
}

/// Market data update produced by a data handler; immutable once produced.
#[derive(Debug)]
pub struct MarketEvent {
    pub trace_id: u128,
    pub timestamp: i64,
    pub exchange: String,
    pub symbol: String,
    pub bar: Bar,
}

impl MarketEvent {
    /// Valid when the carried bar is valid.
    pub open spec fn valid(self) -> bool {
        self.bar.valid()
    }

    /// The [`MarketMeta`] snapshot of this event's bar.
    pub fn meta(&self) -> (meta: MarketMeta)
        ensures
            meta.close == self.bar.close,
            meta.timestamp == self.bar.timestamp,
    {
        MarketMeta { close: self.bar.close, timestamp: self.bar.timestamp }
    }
}

} // verus!
