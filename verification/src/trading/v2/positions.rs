//! Open positions.
use vstd::prelude::*;

verus! {

/// An open position.
#[derive(Debug, Clone)]
pub struct Position {
    pub asset_id: String,
    pub symbol: String,
    pub exchange: String,
    pub asset_class: String,
    pub asset_marginable: bool,
    pub qty: String,
    pub avg_entry_price: String,
    pub side: String,
    pub market_value: String,
    pub cost_basis: String,
    pub unrealized_pl: String,
    pub unrealized_plpc: String,
    pub unrealized_intraday_pl: String,
    pub unrealized_intraday_plpc: String,
    pub current_price: String,
    pub lastday_price: String,
    pub change_today: String,
    pub qty_available: String,
}

/// The endpoint that closes a position: all of it, or the given quantity,
/// or else the given percentage. The quantity wins where both are given.
pub open spec fn close_position_path(
    symbol: Seq<char>,
    qty: Option<Seq<char>>,
    percentage: Option<Seq<char>>,
) -> Seq<char> {
    match qty {
        Some(q) => "/v2/positions/"@ + symbol + "?qty="@ + q,
        None => match percentage {
            Some(p) => "/v2/positions/"@ + symbol + "?percentage="@ + p,
            None => "/v2/positions/"@ + symbol,
        },
    }
}

/// The endpoint that closes a position.
pub fn close_position_endpoint(
    symbol: &str,
    qty: &Option<String>,
    percentage: &Option<String>,
) -> (r: String)
    ensures
        r@ == close_position_path(symbol@, qty.deep_view(), percentage.deep_view()),
{
    let mut out = "/v2/positions/".to_owned();
    out.append(symbol);
    match qty {
        Some(q) => {
            out.append("?qty=");
            out.append(q.as_str());
        },
        None => match percentage {
            Some(p) => {
                out.append("?percentage=");
                out.append(p.as_str());
            },
            None => {},
        },
    }
    out
}

} // verus!
