//! Order allocation: deciding how large an entry order may be.

use vstd::prelude::*;
use vstd::arithmetic::div_mod::{
    lemma_basic_div, lemma_div_is_ordered, lemma_div_multiples_vanish, lemma_div_pos_is_pos,
    lemma_fundamental_div_mod, lemma_remainder_lower, lemma_remainder_upper,
};
use crate::strategy::signal::{SignalStrength, STRENGTH_SCALE};
use crate::{lemma_mul_mono, valid_price, AMOUNT_LIMIT, CASH_LIMIT};

verus! {

/// Allocates entry order sizes as the largest whole quantity whose cost at
/// the current price stays within the strength-scaled default order value
/// and within the available cash.
#[derive(Debug, PartialEq, Eq, Structural, Clone, Copy)]
pub struct DefaultAllocator {
    /// Target cost of a full-conviction entry order, in minor units.
    pub default_order_value: i64,
}

/// The budget an advisory strength grants: the default order value scaled
/// down by `strength / STRENGTH_SCALE`, rounded towards zero.
pub open spec fn spec_budget(default_order_value: i64, strength: SignalStrength) -> int {
    default_order_value * strength / (STRENGTH_SCALE as int)
}

/// The allocated quantity: the lesser of the strength budget and the
/// available cash (a negative balance grants nothing), divided by the price.
pub open spec fn spec_allocate(
    default_order_value: i64,
    strength: SignalStrength,
    price: i64,
    cash: i128,
) -> int {
    let budget = spec_budget(default_order_value, strength);
    let available = if cash < 0 {
        0
    } else {
        cash as int
    };
    let spend = if budget <= available {
        budget
    } else {
        available
    };
    spend / (price as int)
}

impl DefaultAllocator {
    /// The configured default order value is a bounded non-negative amount.
    pub open spec fn wf(self) -> bool {
        0 <= self.default_order_value <= AMOUNT_LIMIT
    }

    /// Sizes an entry order: the returned quantity `q` is the exact
    /// allocation and never costs more than either bound, so
    /// `q * price <= min(default_order_value * strength / scale, cash)`.
    /// In particular, cash below the price of a single lot allocates a zero
    /// quantity (for the risk evaluator to reject).
    pub fn allocate(&self, strength: SignalStrength, price: i64, cash: i128) -> (q: i64)
        requires
            self.wf(),
            strength <= STRENGTH_SCALE,
            valid_price(price),
            -CASH_LIMIT <= cash <= CASH_LIMIT,
        ensures
            q == spec_allocate(self.default_order_value, strength, price, cash),
            0 <= q <= self.default_order_value,
            q * price <= spec_budget(self.default_order_value, strength),
            cash >= 0 ==> q * price <= cash,
            cash < price ==> q == 0,
    {
        let dov = self.default_order_value;
        proof {
            lemma_mul_mono(dov as int, strength as int, AMOUNT_LIMIT as int, STRENGTH_SCALE as int);
        }
        let target: u64 = (dov as u64) * (strength as u64) / (STRENGTH_SCALE as u64);
        proof {
            // The strength-scaled budget never exceeds the default order
            // value itself.
            lemma_mul_mono(dov as int, strength as int, dov as int, STRENGTH_SCALE as int);
            lemma_mul_mono(strength as int, dov as int, STRENGTH_SCALE as int, dov as int);
            lemma_div_is_ordered(
                dov as int * strength as int,
                dov as int * STRENGTH_SCALE as int,
                STRENGTH_SCALE as int,
            );
            assert(dov as int * STRENGTH_SCALE as int == STRENGTH_SCALE as int * dov as int)
                by (nonlinear_arith);
            lemma_div_multiples_vanish(dov as int, STRENGTH_SCALE as int);
            lemma_div_pos_is_pos(dov as int * strength as int, STRENGTH_SCALE as int);
        }
        let spend: u64 = if cash <= 0 {
            0u64
        } else if cash >= (target as i128) {
            target
        } else {
            cash as u64
        };
        proof {
            lemma_div_pos_is_pos(spend as int, price as int);
            lemma_div_is_ordered(spend as int, target as int, price as int);
            lemma_div_is_ordered(
                spend as int,
                if cash < 0 { 0 } else { cash as int },
                price as int,
            );
            lemma_fundamental_div_mod(spend as int, price as int);
            lemma_remainder_lower(spend as int, price as int);
            lemma_remainder_upper(spend as int, price as int);
            lemma_div_is_ordered(spend as int, dov as int, price as int);
            assert(dov as int / price as int <= dov) by {
                lemma_div_is_ordered_by_one(dov as int, price as int);
            }
            if cash < price {
                lemma_basic_div(spend as int, price as int);
            }
        }
        let q64: u64 = spend / (price as u64);
        q64 as i64
    }
}

/// Division by a positive divisor never grows a non-negative dividend.
proof fn lemma_div_is_ordered_by_one(x: int, d: int)
    requires
        0 <= x,
        0 < d,
    ensures
        x / d <= x,
{
    lemma_fundamental_div_mod(x, d);
    lemma_remainder_lower(x, d);
    lemma_div_pos_is_pos(x, d);
    assert(x >= d * (x / d));
    assert(d * (x / d) >= x / d) by (nonlinear_arith)
        requires d >= 1 && x / d >= 0;
}

} // verus!
