//! Watchlists.
use vstd::prelude::*;

verus! {

/// A watchlist to be made.
#[derive(Debug, Clone)]
pub struct CreateWatchlistParams {
    /// The name of the list.
    pub name: String,
    /// The symbols on the list.
    pub symbols: Option<Vec<String>>,
}

impl CreateWatchlistParams {
    /// A list without symbols.
    pub fn new(name: String) -> (r: Self)
        ensures
            r.name == name,
            (r.symbols is None),
    {
        CreateWatchlistParams {
            name,
            symbols: None,
        }
    }
}

/// The new name and symbols of a watchlist.
#[derive(Debug, Clone)]
pub struct UpdateWatchlistParams {
    /// The name of the list.
    pub name: String,
    /// The symbols on the list.
    pub symbols: Option<Vec<String>>,
}

impl UpdateWatchlistParams {
    /// A list without symbols.
    pub fn new(name: String) -> (r: Self)
        ensures
            r.name == name,
            (r.symbols is None),
    {
        UpdateWatchlistParams {
            name,
            symbols: None,
        }
    }
}

} // verus!
