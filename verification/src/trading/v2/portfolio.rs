//! The history of a portfolio.
use crate::query::{endpoint_for_if_any, pair_views, push_optional, urlencoded, with_pair, with_query_if_any, QueryError};
use vstd::prelude::*;

verus! {

/// Which stretch of the portfolio history is wanted.
#[derive(Debug, Clone)]
pub struct PortfolioParams {
    pub period: Option<String>,
    pub timeframe: Option<String>,
    pub intraday_reporting: Option<String>,
    pub start: Option<String>,
    pub pnl_reset: Option<String>,
    pub end: Option<String>,
    pub extended_hours: Option<String>,
    pub cashflow_types: Option<String>,
}

impl PortfolioParams {
    /// Parameters with every optional field left out.
    pub fn new() -> (r: Self)
        ensures
            (r.period is None),
            (r.timeframe is None),
            (r.intraday_reporting is None),
            (r.start is None),
            (r.pnl_reset is None),
            (r.end is None),
            (r.extended_hours is None),
            (r.cashflow_types is None),
    {
        PortfolioParams {
            period: None,
            timeframe: None,
            intraday_reporting: None,
            start: None,
            pnl_reset: None,
            end: None,
            extended_hours: None,
            cashflow_types: None,
        }
    }
}

impl PortfolioParams {
    /// The pairs of the query, in the order of the fields; a field left out
    /// gives no pair.
    pub open spec fn pairs(&self) -> Seq<(Seq<char>, Seq<char>)> {
        let p = Seq::empty();
        let p = with_pair(p, "period"@, self.period.deep_view());
        let p = with_pair(p, "timeframe"@, self.timeframe.deep_view());
        let p = with_pair(p, "intraday_reporting"@, self.intraday_reporting.deep_view());
        let p = with_pair(p, "start"@, self.start.deep_view());
        let p = with_pair(p, "pnl_reset"@, self.pnl_reset.deep_view());
        let p = with_pair(p, "end"@, self.end.deep_view());
        let p = with_pair(p, "extended_hours"@, self.extended_hours.deep_view());
        let p = with_pair(p, "cashflow_types"@, self.cashflow_types.deep_view());
        p
    }

    /// The pairs of the query.
    pub fn query_pairs(&self) -> (r: Vec<(String, String)>)
        ensures
            pair_views(r@) == self.pairs(),
    {
        let mut pairs: Vec<(String, String)> = Vec::new();
        assert(pair_views(pairs@) =~= Seq::empty());
        push_optional(&mut pairs, "period", &self.period);
        push_optional(&mut pairs, "timeframe", &self.timeframe);
        push_optional(&mut pairs, "intraday_reporting", &self.intraday_reporting);
        push_optional(&mut pairs, "start", &self.start);
        push_optional(&mut pairs, "pnl_reset", &self.pnl_reset);
        push_optional(&mut pairs, "end", &self.end);
        push_optional(&mut pairs, "extended_hours", &self.extended_hours);
        push_optional(&mut pairs, "cashflow_types", &self.cashflow_types);
        pairs
    }
}

/// The endpoint that returns the history of the portfolio.
pub fn portfolio_history_endpoint(params: &PortfolioParams) -> (r: Result<String, QueryError>)
    ensures
        match r {
            Ok(e) => urlencoded(params.pairs()) matches Some(q) && e@ == with_query_if_any(
                "/v2/account/portfolio/history"@,
                q,
            ),
            Err(_) => urlencoded(params.pairs()) is None,
        },
{
    endpoint_for_if_any("/v2/account/portfolio/history", &params.query_pairs())
}

} // verus!
