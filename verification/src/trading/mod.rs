//! Trading.
pub mod v2;
