//! Errors generated by the portfolio module.

use vstd::prelude::*;

verus! {

/// All errors generated in the portfolio module.
#[derive(Debug, PartialEq, Eq, Structural, Clone, Copy)]
pub enum PortfolioError {
    /// Failed to build struct due to incomplete attributes provided.
    BuilderIncomplete,
    /// An entry fill arrived for a market that already has an open position.
    PositionAlreadyOpen,
    /// An exit fill arrived for a market with no open position.
    PositionNotOpen,
    /// An exit fill's decision does not close the held direction.
    FillDirectionMismatch,
    /// A balance or statistic update left the representable accounting range.
    AccountingOutOfRange,
}

impl PortfolioError {
    /// A short description of the error, for reporting at the edge.
    pub fn message(&self) -> &'static str {
        match self {
            PortfolioError::BuilderIncomplete => {
                "failed to build struct due to incomplete attributes provided"
            },
            PortfolioError::PositionAlreadyOpen => {
                "cannot open a position for a market that already has one"
            },
            PortfolioError::PositionNotOpen => "cannot exit a position that is not open",
            PortfolioError::FillDirectionMismatch => {
                "exit fill decision does not close the held direction"
            },
            PortfolioError::AccountingOutOfRange => {
                "update would leave the representable accounting range"
            },
        }
    }
}

} // verus!
