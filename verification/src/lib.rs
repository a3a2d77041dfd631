//! Merge arbitrage on five-minute binary markets.

pub mod clock;
pub mod config;
pub mod decimal;
pub mod feeds;
pub mod json;
pub mod laws;
pub mod market;
pub mod merge;
pub mod orders;
pub mod pricing;
pub mod risk;
pub mod rules;
pub mod session;
pub mod strategy;
pub mod text;
pub mod types;
pub mod window;
