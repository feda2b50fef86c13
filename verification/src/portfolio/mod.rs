//! Portfolio: orders, positions, allocation, risk, the repository and the
//! centralised portfolio state machine reacting to market, signal and fill
//! events.

use vstd::prelude::*;
use crate::data::market::MarketEvent;
use crate::event::Event;
use crate::execution::fill::FillEvent;
use crate::portfolio::error::PortfolioError;
use crate::portfolio::order::OrderEvent;
use crate::portfolio::portfolio::MetaPortfolio;
use crate::portfolio::position::PositionUpdate;
use crate::strategy::signal::{SignalEvent, SignalForceExit};

pub mod allocator;
pub mod error;
pub mod order;
pub mod portfolio;
pub mod position;
pub mod repository;
pub mod risk;
pub mod shared;

verus! {

/// A view of a portfolio's consistency, shared by the portfolio
/// capabilities so a caller holding several of them speaks of one
/// invariant.
pub trait PortfolioConsistency {
    /// The portfolio's internal consistency invariant.
    spec fn inv(&self) -> bool;
}

/// Updates the Portfolio from an input [`MarketEvent`].
pub trait MarketUpdater: PortfolioConsistency {
    /// Determines if the Portfolio has an open Position relating to the
    /// input [`MarketEvent`], and if so updates it using the market data.
    fn update_from_market(&mut self, market: &MarketEvent) -> (r: Result<
        Option<PositionUpdate>,
        PortfolioError,
    >)
        requires
            old(self).inv(),
            market.valid(),
        ensures
            final(self).inv(),
    ;
}

/// May generate an [`OrderEvent`] from an input advisory [`SignalEvent`].
pub trait OrderGenerator: PortfolioConsistency {
    /// May generate an [`OrderEvent`] after analysing an input advisory
    /// [`SignalEvent`]. A produced order is valid, non-zero and fit to
    /// hand to an execution handler.
    fn generate_order(&mut self, signal: &SignalEvent) -> (r: Result<
        Option<OrderEvent>,
        PortfolioError,
    >)
        requires
            old(self).inv(),
            signal.valid(),
        ensures
            final(self).inv(),
            match r {
                Ok(Some(order)) => order.valid() && order.quantity != 0,
                _ => true,
            },
    ;

    /// Generates an exit [`OrderEvent`] if there is an open Position
    /// associated with the input [`SignalForceExit`]'s market.
    fn generate_exit_order(&mut self, signal: SignalForceExit) -> (r: Result<
        Option<OrderEvent>,
        PortfolioError,
    >)
        requires
            old(self).inv(),
        ensures
            final(self).inv(),
            match r {
                Ok(Some(order)) => order.valid() && order.quantity != 0,
                _ => true,
            },
    ;
}

/// Updates the Portfolio from an input [`FillEvent`].
pub trait FillUpdater: PortfolioConsistency {
    /// Updates the Portfolio state using the input [`FillEvent`]: triggers
    /// a Position entry or exit, and updates cash & equity accordingly.
    fn update_from_fill(&mut self, fill: &FillEvent) -> (r: Result<Vec<Event>, PortfolioError>)
        requires
            old(self).inv(),
            fill.valid(),
        ensures
            final(self).inv(),
    ;
}

impl PortfolioConsistency for MetaPortfolio {
    open spec fn inv(&self) -> bool {
        self.wf()
    }
}

impl MarketUpdater for MetaPortfolio {
    fn update_from_market(&mut self, market: &MarketEvent) -> (r: Result<
        Option<PositionUpdate>,
        PortfolioError,
    >) {
        MetaPortfolio::update_from_market(self, market)
    }
}

impl OrderGenerator for MetaPortfolio {
    fn generate_order(&mut self, signal: &SignalEvent) -> (r: Result<
        Option<OrderEvent>,
        PortfolioError,
    >) {
        MetaPortfolio::generate_order(self, signal)
    }

    fn generate_exit_order(&mut self, signal: SignalForceExit) -> (r: Result<
        Option<OrderEvent>,
        PortfolioError,
    >) {
        MetaPortfolio::generate_exit_order(self, signal)
    }
}

impl FillUpdater for MetaPortfolio {
    fn update_from_fill(&mut self, fill: &FillEvent) -> (r: Result<Vec<Event>, PortfolioError>) {
        MetaPortfolio::update_from_fill(self, fill)
    }
}

} // verus!
