//! Performance metrics that can be used to evaluate trading: streaming
//! aggregates fed by closed positions, held in exact integer form.

pub mod algorithm;
pub mod dispersion;
pub mod summary;
