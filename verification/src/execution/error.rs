//! Errors generated by the execution module.

use vstd::prelude::*;

verus! {

/// All errors generated in the execution module.
#[derive(Debug, PartialEq, Eq, Structural, Clone, Copy)]
pub enum ExecutionError {
    /// Failed to build struct due to incomplete attributes provided.
    BuilderIncomplete,
    /// The order could not be turned into a fill.
    InvalidOrder,
}

impl ExecutionError {
    /// A short description of the error, for reporting at the edge.
    pub fn message(&self) -> &'static str {
        match self {
            ExecutionError::BuilderIncomplete => {
                "failed to build struct due to incomplete attributes provided"
            },
            ExecutionError::InvalidOrder => "order could not be turned into a fill",
        }
    }
}

} // verus!
