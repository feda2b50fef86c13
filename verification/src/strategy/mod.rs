//! Signal generation: the [`signal::SignalEvent`] advisory type, the
//! [`SignalGenerator`] capability, and the RSI threshold rules.

use vstd::prelude::*;
use crate::data::market::MarketEvent;
use crate::strategy::error::StrategyError;
use crate::strategy::signal::SignalEvent;

pub mod error;
pub mod signal;
pub mod strategy;

verus! {

/// May generate an advisory [`SignalEvent`] as a result of analysing an input
/// [`MarketEvent`]. Whatever the implementation decides, an emitted signal is
/// valid and speaks of the analysed market.
pub trait SignalGenerator {
    /// Return Some([`SignalEvent`]), given an input [`MarketEvent`].
    fn generate_signal(&mut self, market: &MarketEvent) -> (r: Result<
        Option<SignalEvent>,
        StrategyError,
    >)
        ensures
            match r {
                Ok(Some(signal)) => {
                    &&& signal.valid()
                    &&& signal.exchange@ == market.exchange@
                    &&& signal.symbol@ == market.symbol@
                    &&& signal.market_meta.close == market.bar.close
                },
                _ => true,
            },
    ;
}

} // verus!
