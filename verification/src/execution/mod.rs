//! Execution: the [`FillGenerator`] capability and a simulated execution
//! handler that transacts orders at their causing bar's close price.

use vstd::prelude::*;
use crate::execution::error::ExecutionError;
use crate::execution::fill::{abs_i64, Fees, FillEvent};
use crate::portfolio::order::OrderEvent;
use crate::util::now_millis;

pub mod error;
pub mod fill;

verus! {

/// Generates a [`FillEvent`] from an [`OrderEvent`]: the capability a live
/// broker connection or a simulation provides.
pub trait FillGenerator {
    /// Transacts the order. A produced fill is valid and speaks of the
    /// order's market, decision and quantity.
    fn generate_fill(&mut self, order: &OrderEvent) -> (r: Result<FillEvent, ExecutionError>)
        requires
            order.valid(),
            order.quantity != 0,
        ensures
            match r {
                Ok(fill) => {
                    &&& fill.valid()
                    &&& fill.exchange@ == order.exchange@
                    &&& fill.symbol@ == order.symbol@
                    &&& fill.decision == order.decision
                    &&& fill.quantity == order.quantity
                    &&& fill.market_meta.close == order.close
                    &&& fill.fill_value_gross == abs_i64(order.quantity) * order.close
                },
                Err(_) => true,
            },
    ;
}

/// Simulates a live broker execution: every order fills in full at the close
/// price that caused it, incurring a configured flat fee set.
pub struct SimulatedExecution {
    fees: Fees,
}

impl SimulatedExecution {
    /// The configured fees are always within bounds.
    #[verifier::type_invariant]
    spec fn fees_in_bounds(self) -> bool {
        self.fees.valid()
    }

    /// The flat fee set charged on every simulated fill.
    pub closed spec fn spec_fees(self) -> Fees {
        self.fees
    }

    /// Constructs a new [`SimulatedExecution`] charging the provided flat
    /// fees on every fill.
    pub fn new(fees: Fees) -> (se: SimulatedExecution)
        requires
            fees.valid(),
        ensures
            se.spec_fees() == fees,
            se.spec_fees().valid(),
    {
        SimulatedExecution { fees }
    }
}

impl FillGenerator for SimulatedExecution {
    /// Fills the whole order at `order.close` and charges the configured
    /// fees.
    fn generate_fill(&mut self, order: &OrderEvent) -> (r: Result<FillEvent, ExecutionError>)
        ensures
            match r {
                Ok(fill) => {
                    &&& fill.valid()
                    &&& fill.trace_id == order.trace_id
                    &&& fill.exchange@ == order.exchange@
                    &&& fill.symbol@ == order.symbol@
                    &&& fill.decision == order.decision
                    &&& fill.quantity == order.quantity
                    &&& fill.market_meta.close == order.close
                    &&& fill.market_meta.timestamp == order.timestamp
                    &&& fill.fill_value_gross == abs_i64(order.quantity) * order.close
                    &&& fill.fees == old(self).spec_fees()
                },
                Err(_) => false,
            },
    {
        proof {
            use_type_invariant(&*self);
        }
        let magnitude: i64 = if order.quantity >= 0 {
            order.quantity
        } else {
            -order.quantity
        };
        proof {
            crate::lemma_bounded_product(magnitude as int, order.close as int, crate::AMOUNT_LIMIT as int);
        }
        let fill_value_gross: i128 = (magnitude as i128) * (order.close as i128);
        Ok(FillEvent {
            trace_id: order.trace_id,
            timestamp: now_millis(),
            exchange: order.exchange.clone(),
            symbol: order.symbol.clone(),
            market_meta: crate::data::market::MarketMeta {
                close: order.close,
                timestamp: order.timestamp,
            },
            decision: order.decision,
            quantity: order.quantity,
            fill_value_gross,
            fees: self.fees,
        })
    }
}

} // verus!
