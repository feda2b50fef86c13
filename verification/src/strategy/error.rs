//! Errors generated by the strategy module.

use vstd::prelude::*;

verus! {

/// All errors generated in the strategy module.
#[derive(Debug, PartialEq, Eq, Structural, Clone, Copy)]
pub enum StrategyError {
    /// Failed to build struct due to incomplete attributes provided.
    BuilderIncomplete,
    /// The indicator feeding the strategy failed to produce a value.
    IndicatorFailure,
}

impl StrategyError {
    /// A short description of the error, for reporting at the edge.
    pub fn message(&self) -> &'static str {
        match self {
            StrategyError::BuilderIncomplete => {
                "failed to build struct due to incomplete attributes provided"
            },
            StrategyError::IndicatorFailure => "indicator failed to produce a value",
        }
    }
}

} // verus!
