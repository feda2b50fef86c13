//! Order risk evaluation: the last say before an order leaves the portfolio.

use vstd::prelude::*;
use crate::portfolio::order::OrderEvent;

verus! {

/// Risk evaluator that passes orders through unchanged, rejecting only the
/// zero-quantity orders an out-of-cash allocation produces.
#[derive(Debug, PartialEq, Eq, Structural, Clone, Copy)]
pub struct DefaultRisk {}

impl DefaultRisk {
    /// Evaluates a proposed order: None exactly for a zero quantity, the
    /// untouched order otherwise.
    pub fn evaluate_order(&self, order: OrderEvent) -> (r: Option<OrderEvent>)
        ensures
            match r {
                Some(approved) => order.quantity != 0 && approved == order,
                None => order.quantity == 0,
            },
    {
        if order.quantity == 0 {
            None
        } else {
            Some(order)
        }
    }
}

} // verus!
