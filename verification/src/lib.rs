//! Token account enumeration enriched with market statistics.

pub mod account;
pub mod aggregator;
pub mod driver;
pub mod market;
pub mod money;
pub mod pipeline;
pub mod record;
pub mod selection;
pub mod text;
