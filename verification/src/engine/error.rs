//! Errors generated by the engine module.

use vstd::prelude::*;

verus! {

/// All errors generated in the engine module.
#[derive(Debug, PartialEq, Eq, Structural, Clone, Copy)]
pub enum EngineError {
    /// Failed to build struct due to incomplete attributes provided.
    BuilderIncomplete,
    /// A command or reply channel was closed on the other side.
    ChannelFailure,
}

impl EngineError {
    /// A short description of the error, for reporting at the edge.
    pub fn message(&self) -> &'static str {
        match self {
            EngineError::BuilderIncomplete => {
                "failed to build struct due to incomplete attributes provided"
            },
            EngineError::ChannelFailure => "command or reply channel closed on the other side",
        }
    }
}

} // verus!
