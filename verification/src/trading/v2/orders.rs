//! Orders.
use crate::query::{endpoint_for, pair_views, push_optional, urlencoded, with_pair, with_query, QueryError};
use crate::text::{signed_decimal, signed_decimal_text, truth, truth_text};
use vstd::prelude::*;

verus! {

/// One leg of an order with several legs.
#[derive(Debug, Clone)]
pub struct Legs {
    pub side: Option<String>,
    pub position_intent: Option<String>,
    pub symbol: String,
    pub ratio_qty: String,
}

/// The price at which a bracket order takes its profit.
#[derive(Debug, Clone)]
pub struct TakeProfit {
    pub limit_price: String,
}

/// The prices at which a bracket order stops its loss.
#[derive(Debug, Clone)]
pub struct StopLoss {
    pub stop_price: String,
    pub limit_price: String,
}

/// An order to be placed.
#[derive(Debug)]
pub struct OrderRequest {
    /// What is traded.
    pub symbol: String,
    /// How many shares; left out where `notional` is given.
    pub qty: Option<String>,
    /// How much money; left out where `qty` is given.
    pub notional: Option<String>,
    /// `buy` or `sell`.
    pub side: String,
    /// `market`, `limit`, `stop`, `stop_limit` or `trailing_stop`.
    pub order_type: String,
    /// How long the order stays open.
    pub time_in_force: String,
    pub limit_price: Option<String>,
    pub stop_price: Option<String>,
    pub trail_price: Option<String>,
    pub trail_percent: Option<String>,
    pub extended_hours: Option<bool>,
    pub client_order_id: Option<String>,
    pub order_class: Option<String>,
    pub legs: Option<Vec<Legs>>,
    pub take_profit: Option<TakeProfit>,
    pub stop_loss: Option<StopLoss>,
}

impl OrderRequest {
    /// An order with every optional field left out.
    pub fn new(symbol: String, side: String, order_type: String, time_in_force: String) -> (r: Self)
        ensures
            r.symbol == symbol,
            (r.qty is None),
            (r.notional is None),
            r.side == side,
            r.order_type == order_type,
            r.time_in_force == time_in_force,
            (r.limit_price is None),
            (r.stop_price is None),
            (r.trail_price is None),
            (r.trail_percent is None),
            (r.extended_hours is None),
            (r.client_order_id is None),
            (r.order_class is None),
            (r.legs is None),
            (r.take_profit is None),
            (r.stop_loss is None),
    {
        OrderRequest {
            symbol,
            qty: None,
            notional: None,
            side,
            order_type,
            time_in_force,
            limit_price: None,
            stop_price: None,
            trail_price: None,
            trail_percent: None,
            extended_hours: None,
            client_order_id: None,
            order_class: None,
            legs: None,
            take_profit: None,
            stop_loss: None,
        }
    }
}

/// Which orders are wanted.
#[derive(Debug, Clone)]
pub struct GetOrdersParams {
    pub status: Option<String>,
    pub limit: Option<i128>,
    pub after: Option<String>,
    pub until: Option<String>,
    pub direction: Option<String>,
    pub nested: Option<bool>,
    pub symbols: Option<String>,
    pub side: Option<String>,
    pub asset_class: Option<String>,
}

impl GetOrdersParams {
    /// Parameters with every optional field left out.
    pub fn new() -> (r: Self)
        ensures
            (r.status is None),
            (r.limit is None),
            (r.after is None),
            (r.until is None),
            (r.direction is None),
            (r.nested is None),
            (r.symbols is None),
            (r.side is None),
            (r.asset_class is None),
    {
        GetOrdersParams {
            status: None,
            limit: None,
            after: None,
            until: None,
            direction: None,
            nested: None,
            symbols: None,
            side: None,
            asset_class: None,
        }
    }
}

/// What is to change in an open order.
#[derive(Debug, Clone)]
pub struct ReplaceOrderParams {
    pub qty: Option<String>,
    pub time_in_force: Option<String>,
    pub limit_price: Option<String>,
    pub stop_price: Option<String>,
    pub trail: Option<String>,
    pub client_order_id: Option<String>,
}

impl ReplaceOrderParams {
    /// A replacement that changes nothing.
    pub fn new() -> (r: Self)
        ensures
            (r.qty is None),
            (r.time_in_force is None),
            (r.limit_price is None),
            (r.stop_price is None),
            (r.trail is None),
            (r.client_order_id is None),
    {
        ReplaceOrderParams {
            qty: None,
            time_in_force: None,
            limit_price: None,
            stop_price: None,
            trail: None,
            client_order_id: None,
        }
    }
}

impl GetOrdersParams {
    /// The pairs of the query, in the order of the fields; a field left out
    /// gives no pair.
    pub open spec fn pairs(&self) -> Seq<(Seq<char>, Seq<char>)> {
        let p = Seq::empty();
        let p = with_pair(p, "status"@, self.status.deep_view());
        let p = with_pair(
            p,
            "limit"@,
            match self.limit {
                Some(n) => Some(signed_decimal(n as int)),
                None => None,
            },
        );
        let p = with_pair(p, "after"@, self.after.deep_view());
        let p = with_pair(p, "until"@, self.until.deep_view());
        let p = with_pair(p, "direction"@, self.direction.deep_view());
        let p = with_pair(
            p,
            "nested"@,
            match self.nested {
                Some(b) => Some(truth(b)),
                None => None,
            },
        );
        let p = with_pair(p, "symbols"@, self.symbols.deep_view());
        let p = with_pair(p, "side"@, self.side.deep_view());
        let p = with_pair(p, "asset_class"@, self.asset_class.deep_view());
        p
    }

    /// The pairs of the query.
    pub fn query_pairs(&self) -> (r: Vec<(String, String)>)
        ensures
            pair_views(r@) == self.pairs(),
    {
        let mut pairs: Vec<(String, String)> = Vec::new();
        assert(pair_views(pairs@) =~= Seq::empty());
        push_optional(&mut pairs, "status", &self.status);
        let limit = match self.limit {
            Some(n) => Some(signed_decimal_text(n as i128)),
            None => None,
        };
        push_optional(&mut pairs, "limit", &limit);
        push_optional(&mut pairs, "after", &self.after);
        push_optional(&mut pairs, "until", &self.until);
        push_optional(&mut pairs, "direction", &self.direction);
        let nested = match self.nested {
            Some(b) => Some(truth_text(b)),
            None => None,
        };
        push_optional(&mut pairs, "nested", &nested);
        push_optional(&mut pairs, "symbols", &self.symbols);
        push_optional(&mut pairs, "side", &self.side);
        push_optional(&mut pairs, "asset_class", &self.asset_class);
        pairs
    }
}

/// The endpoint that lists orders.
pub fn orders_endpoint(params: &GetOrdersParams) -> (r: Result<String, QueryError>)
    ensures
        match r {
            Ok(e) => urlencoded(params.pairs()) matches Some(q) && e@ == with_query(
                "/v2/orders"@,
                q,
            ),
            Err(_) => urlencoded(params.pairs()) is None,
        },
{
    endpoint_for("/v2/orders", &params.query_pairs())
}

/// The endpoint of one order. Where `nested` is given, it is passed on as
/// the query `nested`.
pub open spec fn order_path(order_id: Seq<char>, nested: Option<bool>) -> Seq<char> {
    match nested {
        None => "/v2/orders/"@ + order_id,
        Some(b) => "/v2/orders/"@ + order_id + "?nested="@ + truth(b),
    }
}

/// The endpoint of one order.
pub fn order_endpoint(order_id: &str, nested: Option<bool>) -> (r: String)
    ensures
        r@ == order_path(order_id@, nested),
{
    let mut out = "/v2/orders/".to_owned();
    out.append(order_id);
    match nested {
        None => {},
        Some(b) => {
            out.append("?nested=");
            out.append(truth_text(b).as_str());
        },
    }
    out
}

/// The endpoint of the order with a given client order id.
pub fn order_by_client_order_id_endpoint(client_order_id: &str) -> (r: String)
    ensures
        r@ == "/v2/orders:by_client_order_id?client_order_id="@ + client_order_id@,
{
    let mut out = "/v2/orders:by_client_order_id?client_order_id=".to_owned();
    out.append(client_order_id);
    out
}

} // verus!
