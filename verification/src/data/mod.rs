//! Market data: the [`market::MarketEvent`] consumed by the pipeline, the
//! handler capabilities that produce it, and the data errors.

pub mod error;
pub mod handler;
pub mod market;
