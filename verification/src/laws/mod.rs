//! What holds of the library as a whole, said of its inputs and results alone.
//!
//! The laws speak of shares, prices and amounts as numbers, and of the Up and the Down side by name.

pub mod bids;
pub mod closing;
pub mod cuts;
pub mod limits;
pub mod markets;
pub mod numbers;
pub mod orders;
pub mod positions;
pub mod pricing;
pub mod runs;
pub mod snapshots;
pub mod texts;
pub mod ticks;
