//! Price and order book feeds.

pub mod binance;
pub mod polymarket;
