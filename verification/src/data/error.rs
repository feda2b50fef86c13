//! Errors generated by the data module.

use vstd::prelude::*;

verus! {

/// All errors generated in the data module.
#[derive(Debug, PartialEq, Eq, Structural, Clone, Copy)]
pub enum DataError {
    /// Invalid builder attributes provided.
    BuilderAttributesInvalid,
    /// Failed to build struct due to incomplete attributes provided.
    BuilderIncomplete,
    /// Symbol data iterator does not contain anymore bars.
    DataIteratorEmpty,
}

impl DataError {
    /// A short description of the error, for reporting at the edge.
    pub fn message(&self) -> &'static str {
        match self {
            DataError::BuilderAttributesInvalid => "invalid builder attributes provided",
            DataError::BuilderIncomplete => {
                "failed to build struct due to incomplete attributes provided"
            },
            DataError::DataIteratorEmpty => "symbol data iterator does not contain anymore bars",
        }
    }
}

} // verus!
