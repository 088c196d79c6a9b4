//! The market clock.
use vstd::prelude::*;

verus! {

/// The market clock.
#[derive(Debug, Clone)]
pub struct Clock {
    /// The time of the answer.
    pub timestamp: String,
    /// Whether the market is open.
    pub is_open: bool,
    /// When the market opens next.
    pub next_open: String,
    /// When the market closes next.
    pub next_close: String,
}

} // verus!
