//! A pull-based producer of pseudo-random bytes.
//!
//! A [`Gen`] is made for a requested size and hands out that many bytes, at
//! most [`MAX_CHUNK`] of them per pull, drawn from a generator seeded with a
//! fixed constant. Around the pulls it keeps a one-second throughput window
//! and reports its lifecycle as [`Observation`] values for the caller to log.

mod clock;
pub mod laws;
pub mod producer;
pub mod rng;
pub mod units;
pub mod window;

pub use producer::{Ending, Gen, Observation, Pull, MAX_CHUNK, SEED};
pub use window::ThroughputWindow;
