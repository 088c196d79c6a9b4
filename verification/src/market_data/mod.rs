//! Market data.
pub mod v2;
