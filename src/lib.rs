//! A release buffer: items pulled one by one from a source accumulate in a
//! pending batch, which is released to a single consumer by size, by age or
//! when the source has failed. A released batch is either confirmed or
//! returned, in which case it is released again after an exponential backoff.
//!
//! Time is measured in nanoseconds on a monotonic clock, as `u64` values.

pub mod retry;
pub mod laws;
pub mod state;

pub use state::{Consumed, Reason, RelaBufConfig, Released, State, Step};
