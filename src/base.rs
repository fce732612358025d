//! Time-based generation.
pub mod time;
