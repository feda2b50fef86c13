//! The event sum type carried between pipeline stages, and the transmitter
//! capability the pipeline pushes events to for observability.

use vstd::prelude::*;
use crate::data::market::MarketEvent;
use crate::execution::fill::FillEvent;
use crate::portfolio::order::OrderEvent;
use crate::portfolio::position::{Position, PositionUpdate};
use crate::statistic::dispersion::Range;
use crate::statistic::summary::TradingSummary;
use crate::strategy::signal::{SignalEvent, SignalForceExit};

verus! {

/// Process-wide cash & equity snapshot per engine, in minor units.
#[derive(Debug, PartialEq, Eq, Structural, Clone, Copy)]
pub struct Balance {
    pub timestamp: i64,
    pub cash: i128,
    pub equity: i128,
}

/// Snapshot of a market's per-market statistics, emitted when they change.
#[derive(Debug)]
pub struct MetricEvent {
    /// `{exchange}_{symbol}` of the market the statistics describe.
    pub market_id: String,
    /// Number of closed positions fed so far.
    pub count: u64,
    /// Exact sum of the recorded returns, in basis points.
    pub returns_sum: i128,
    /// Exact sum of the squares of the recorded returns.
    pub returns_sum_sq: i128,
    /// Highest & lowest recorded return.
    pub returns_range: Range,
    /// Highest equity seen so far.
    pub peak_equity: i128,
    /// Largest distance the equity has fallen below its running peak.
    pub max_drawdown: i128,
}

impl MetricEvent {
    /// Snapshots a market's trading summary.
    pub fn from_summary(market_id: String, summary: &TradingSummary) -> (m: MetricEvent)
        ensures
            m.market_id@ == market_id@,
            m.count == summary.dispersion.welford.count,
            m.returns_sum == summary.dispersion.welford.sum,
            m.returns_sum_sq == summary.dispersion.welford.sum_sq,
            m.returns_range == summary.dispersion.range,
            m.peak_equity == summary.peak_equity,
            m.max_drawdown == summary.max_drawdown,
    {
        MetricEvent {
            market_id,
            count: summary.dispersion.welford.count,
            returns_sum: summary.dispersion.welford.sum,
            returns_sum_sq: summary.dispersion.welford.sum_sq,
            returns_range: summary.dispersion.range,
            peak_equity: summary.peak_equity,
            max_drawdown: summary.max_drawdown,
        }
    }
}

/// Events that occur when bartering: every message the pipeline stages hand
/// to one another or push out for observability.
#[derive(Debug)]
pub enum Event {
    Market(MarketEvent),
    Signal(SignalEvent),
    SignalForceExit(SignalForceExit),
    Order(OrderEvent),
    Fill(FillEvent),
    PositionNew(Position),
    PositionUpdate(PositionUpdate),
    PositionExit(Position),
    Balance(Balance),
    Metric(MetricEvent),
}

/// Fan-out sink the pipeline pushes [`Event`]s to (observability only; the
/// pipeline never depends on what a transmitter does with them).
pub trait MessageTransmitter {
    /// Transmits one event.
    fn send(&mut self, message: Event);

    /// Transmits a batch of events.
    fn send_many(&mut self, messages: Vec<Event>);
}

} // verus!
