//! Shared access to the one portfolio instance of an engine.
//!
//! Every trader and the engine itself go through a [`SharedPortfolio`]: a
//! reader-writer lock whose invariant is the portfolio's consistency, so
//! whatever interleaving the workers produce, every acquisition sees a
//! well-formed portfolio and every release has proved it left one behind.
//! Each operation holds the lock for the duration of exactly one portfolio
//! call, never across strategy, execution or channel work.

use vstd::prelude::*;
use vstd::rwlock::{RwLock, RwLockPredicate};
use crate::data::market::MarketEvent;
use crate::event::{Balance, Event};
use crate::execution::fill::FillEvent;
use crate::portfolio::error::PortfolioError;
use crate::portfolio::order::OrderEvent;
use crate::portfolio::portfolio::MetaPortfolio;
use crate::portfolio::position::{Position, PositionUpdate};
use crate::strategy::signal::{SignalEvent, SignalForceExit};

verus! {

/// The lock invariant of the shared portfolio: its consistency predicate.
pub struct PortfolioInvariant;

impl RwLockPredicate<MetaPortfolio> for PortfolioInvariant {
    open spec fn inv(self, portfolio: MetaPortfolio) -> bool {
        portfolio.wf()
    }
}

/// The single portfolio instance of an engine, shared across its traders.
/// All operations acquire the lock once and hold it for the full call.
pub struct SharedPortfolio {
    lock: RwLock<MetaPortfolio, PortfolioInvariant>,
}

impl SharedPortfolio {
    /// The lock guards exactly the portfolio consistency invariant.
    #[verifier::type_invariant]
    spec fn guards_consistency(self) -> bool {
        self.lock.pred() == PortfolioInvariant
    }

    /// Shares a consistent portfolio.
    pub fn new(portfolio: MetaPortfolio) -> (shared: SharedPortfolio)
        requires
            portfolio.wf(),
    {
        SharedPortfolio { lock: RwLock::new(portfolio, Ghost(PortfolioInvariant)) }
    }

    /// Locks the portfolio and updates it from a market event (see
    /// [`MetaPortfolio::update_from_market`]). Whatever other workers did
    /// before this call, it succeeds.
    pub fn update_from_market(&self, market: &MarketEvent) -> (r: Result<
        Option<PositionUpdate>,
        PortfolioError,
    >)
        requires
            market.valid(),
        ensures
            r is Ok,
    {
        proof {
            use_type_invariant(self);
        }
        let (mut portfolio, handle) = self.lock.acquire_write();
        let result = portfolio.update_from_market(market);
        handle.release_write(portfolio);
        result
    }

    /// Locks the portfolio and analyses an advisory signal (see
    /// [`MetaPortfolio::generate_order`]). Whatever position the other
    /// workers left behind, a produced order is valid, non-zero and fit to
    /// transact, and an empty signal map never produces one.
    pub fn generate_order(&self, signal: &SignalEvent) -> (r: Result<
        Option<OrderEvent>,
        PortfolioError,
    >)
        requires
            signal.valid(),
        ensures
            r is Ok,
            match r {
                Ok(Some(order)) => order.valid() && order.quantity != 0,
                _ => true,
            },
            signal.signals@.len() == 0 ==> r == Ok::<Option<OrderEvent>, PortfolioError>(None),
    {
        proof {
            use_type_invariant(self);
        }
        let (mut portfolio, handle) = self.lock.acquire_write();
        let result = portfolio.generate_order(signal);
        handle.release_write(portfolio);
        result
    }

    /// Locks the portfolio and generates the order exiting the market's
    /// open position, if one exists (see
    /// [`MetaPortfolio::generate_exit_order`]).
    pub fn generate_exit_order(&self, signal: SignalForceExit) -> (r: Result<
        Option<OrderEvent>,
        PortfolioError,
    >)
        ensures
            r is Ok,
            match r {
                Ok(Some(order)) => order.valid() && order.quantity != 0,
                _ => true,
            },
    {
        proof {
            use_type_invariant(self);
        }
        let (mut portfolio, handle) = self.lock.acquire_write();
        let result = portfolio.generate_exit_order(signal);
        handle.release_write(portfolio);
        result
    }

    /// Locks the portfolio and applies a fill (see
    /// [`MetaPortfolio::update_from_fill`]). Consistency is preserved for
    /// every outcome.
    pub fn update_from_fill(&self, fill: &FillEvent) -> (r: Result<Vec<Event>, PortfolioError>)
        requires
            fill.valid(),
    {
        proof {
            use_type_invariant(self);
        }
        let (mut portfolio, handle) = self.lock.acquire_write();
        let result = portfolio.update_from_fill(fill);
        handle.release_write(portfolio);
        result
    }

    /// Briefly read-locks the portfolio for its balance.
    pub fn balance(&self) -> Balance {
        proof {
            use_type_invariant(self);
        }
        let read_handle = self.lock.acquire_read();
        let balance = *(&read_handle.borrow().repository.balance);
        read_handle.release_read();
        balance
    }

    /// Briefly read-locks the portfolio and copies out every open position.
    pub fn get_open_positions(&self) -> Vec<Position> {
        proof {
            use_type_invariant(self);
        }
        let read_handle = self.lock.acquire_read();
        let positions = read_handle.borrow().repository.get_open_positions();
        read_handle.release_read();
        positions
    }

    /// Takes the portfolio back out of the lock, consistent as always.
    pub fn into_inner(self) -> (portfolio: MetaPortfolio)
        ensures
            portfolio.wf(),
    {
        proof {
            use_type_invariant(&self);
        }
        self.lock.into_inner()
    }
}

} // verus!
