//! RSI threshold rules: the decision logic of the example momentum strategy.
//!
//! The indicator value arrives in centi-points (one hundredth of an RSI
//! point), so the classic 40 / 60 bands sit at 4000 and 6000.

use vstd::prelude::*;
use crate::data::market::MarketEvent;
use crate::strategy::signal::{
    Decision, SignalEvent, SignalMap, SignalStrength, STRENGTH_SCALE,
};
use crate::util::{new_trace_id, now_millis};

verus! {

/// RSI level, in centi-points, at or below which the market counts oversold.
pub const RSI_OVERSOLD: i64 = 4000;

/// RSI level, in centi-points, at or above which the market counts overbought.
pub const RSI_OVERBOUGHT: i64 = 6000;

/// Configuration for constructing the RSI strategy.
#[derive(Debug, PartialEq, Eq, Structural, Clone, Copy)]
pub struct Config {
    pub rsi_period: usize,
}

/// Given the latest RSI value for a symbol (in centi-points), generates the
/// map of advised [`Decision`]s: advice to go long and cover shorts below the
/// oversold band, advice to go short and close longs above the overbought
/// band, and no advice between the bands.
pub fn generate_signals_map(rsi: i64) -> (signals: SignalMap)
    ensures
        rsi < RSI_OVERSOLD ==> signals@ =~= seq![
            (Decision::Long, STRENGTH_SCALE),
            (Decision::CloseShort, STRENGTH_SCALE),
        ],
        rsi > RSI_OVERBOUGHT ==> signals@ =~= seq![
            (Decision::CloseLong, STRENGTH_SCALE),
            (Decision::Short, STRENGTH_SCALE),
        ],
        RSI_OVERSOLD <= rsi <= RSI_OVERBOUGHT ==> signals@ =~= Seq::<(
            Decision,
            SignalStrength,
        )>::empty(),
{
    let mut signals: SignalMap = Vec::new();
    if rsi < RSI_OVERSOLD {
        signals.push((Decision::Long, calculate_signal_strength()));
        signals.push((Decision::CloseShort, calculate_signal_strength()));
    }
    if rsi > RSI_OVERBOUGHT {
        signals.push((Decision::CloseLong, calculate_signal_strength()));
        signals.push((Decision::Short, calculate_signal_strength()));
    }
    signals
}

/// The strength attached to every advised [`Decision`]: full conviction.
pub fn calculate_signal_strength() -> (strength: SignalStrength)
    ensures
        strength == STRENGTH_SCALE,
{
    STRENGTH_SCALE
}

/// Wraps an advisory map produced for `market` into a [`SignalEvent`], or
/// returns None exactly when the map carries no advice.
pub fn build_signal_event(market: &MarketEvent, signals: SignalMap) -> (r: Option<SignalEvent>)
    requires
        market.valid(),
        forall|i: int| 0 <= i < signals@.len() ==> (#[trigger] signals@[i]).1 <= STRENGTH_SCALE,
    ensures
        match r {
            Some(signal) => {
                &&& signals@.len() != 0
                &&& signal.valid()
                &&& signal.exchange@ == market.exchange@
                &&& signal.symbol@ == market.symbol@
                &&& signal.market_meta.close == market.bar.close
                &&& signal.market_meta.timestamp == market.bar.timestamp
                &&& signal.signals@ == signals@
            },
            None => signals@.len() == 0,
        },
{
    if signals.len() == 0 {
        return None;
    }
    Some(SignalEvent {
        trace_id: new_trace_id(),
        timestamp: now_millis(),
        exchange: market.exchange.clone(),
        symbol: market.symbol.clone(),
        market_meta: market.meta(),
        signals,
    })
}

} // verus!
