//! Heart-rate time series and counters from a decoded activity-recorder record stream.
pub mod message;
pub mod series;
pub mod clock;
pub mod aggregate;
pub mod laws;
