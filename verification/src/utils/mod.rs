//! Arithmetic, pauses and the retry policy.

pub mod math;
pub mod order;
pub mod retry;
pub mod time;
