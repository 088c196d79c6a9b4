//! Assets and option contracts.
use crate::query::{endpoint_for_if_any, pair_views, push_optional, urlencoded, with_pair, with_query_if_any, QueryError};
use crate::text::{decimal, decimal_text, join, joined, signed_decimal, signed_decimal_text, text_eq, truth, truth_text};
use vstd::prelude::*;

verus! {

/// Something that can be traded.
#[derive(Debug, PartialEq, Eq)]
pub struct Asset {
    pub id: String,
    pub class: String,
    pub exchange: String,
    pub symbol: String,
    pub name: String,
    pub status: String,
    pub tradable: bool,
    pub marginable: bool,
    pub maintenance_margin_requirement: u32,
    pub margin_requirement_long: String,
    pub margin_requirement_short: String,
    pub shortable: bool,
    pub easy_to_borrow: bool,
    pub fractionable: bool,
    pub attributes: Vec<String>,
}

/// An option contract, as a search returns it.
#[derive(Debug)]
pub struct OptionContract {
    pub id: String,
    pub symbol: String,
    pub name: String,
    pub status: String,
    pub tradable: bool,
    pub root_symbol: String,
    pub expiration_date: String,
    pub underlying_symbol: String,
    pub underlying_asset_id: String,
    pub contract_type: String,
    pub style: String,
    pub strike_price: String,
    pub multiplier: String,
    pub size: String,
    pub open_interest: Option<String>,
    pub open_interest_date: Option<String>,
    pub close_price: Option<String>,
    pub close_price_date: Option<String>,
    pub ppind: bool,
}

/// One page of a search for option contracts.
#[derive(Debug)]
pub struct GetOptionContractsResponse {
    /// The contracts found.
    pub option_contracts: Vec<OptionContract>,
    /// Where the next page begins, if there is one.
    pub next_page_token: Option<String>,
}

/// What an option contract delivers.
#[derive(Debug)]
pub struct Deliverable {
    pub deliverable_type: String,
    pub symbol: String,
    pub asset_id: String,
    pub amount: String,
    pub allocation_percentage: String,
    pub settlement_type: String,
    pub settlement_method: String,
    pub delayed_settlement: bool,
}

/// An option contract, as a lookup by symbol returns it.
#[derive(Debug)]
pub struct OptionContractBySymbol {
    pub id: String,
    pub symbol: String,
    pub name: String,
    pub status: String,
    pub tradable: bool,
    pub expiration_date: String,
    pub root_symbol: String,
    pub underlying_symbol: String,
    pub underlying_asset_id: String,
    pub contract_type: String,
    pub style: String,
    pub strike_price: String,
    pub multiplier: String,
    pub size: String,
    pub open_interest: String,
    pub open_interest_date: String,
    pub close_price: String,
    pub close_price_date: String,
    pub deliverables: Vec<Deliverable>,
    pub ppind: bool,
}

/// Which option contracts are wanted. Dates are written as `YYYY-MM-DD`,
/// prices in decimal.
#[derive(Debug, Clone)]
pub struct GetOptionContractsParams {
    /// The underlying symbols, separated by commas.
    pub underlying_symbols: Option<String>,
    pub status: Option<String>,
    pub expiration_date: Option<String>,
    pub expiration_date_gte: Option<String>,
    pub expiration_date_lte: Option<String>,
    pub root_symbol: Option<String>,
    /// `call` or `put`.
    pub contract_type: Option<String>,
    pub style: Option<String>,
    pub strike_price_gte: Option<String>,
    pub strike_price_lte: Option<String>,
    pub limit: Option<u32>,
    pub page_token: Option<String>,
    pub ppind: Option<bool>,
    pub show_deliverables: Option<bool>,
}

impl GetOptionContractsParams {
    /// Parameters with every optional field left out.
    pub fn new() -> (r: Self)
        ensures
            (r.underlying_symbols is None),
            (r.status is None),
            (r.expiration_date is None),
            (r.expiration_date_gte is None),
            (r.expiration_date_lte is None),
            (r.root_symbol is None),
            (r.contract_type is None),
            (r.style is None),
            (r.strike_price_gte is None),
            (r.strike_price_lte is None),
            (r.limit is None),
            (r.page_token is None),
            (r.ppind is None),
            (r.show_deliverables is None),
    {
        GetOptionContractsParams {
            underlying_symbols: None,
            status: None,
            expiration_date: None,
            expiration_date_gte: None,
            expiration_date_lte: None,
            root_symbol: None,
            contract_type: None,
            style: None,
            strike_price_gte: None,
            strike_price_lte: None,
            limit: None,
            page_token: None,
            ppind: None,
            show_deliverables: None,
        }
    }
}

impl GetOptionContractsParams {
    /// The pairs of the query, in the order of the fields; a field left out
    /// gives no pair.
    pub open spec fn pairs(&self) -> Seq<(Seq<char>, Seq<char>)> {
        let p = Seq::empty();
        let p = with_pair(p, "underlying_symbols"@, self.underlying_symbols.deep_view());
        let p = with_pair(p, "status"@, self.status.deep_view());
        let p = with_pair(p, "expiration_date"@, self.expiration_date.deep_view());
        let p = with_pair(p, "expiration_date_gte"@, self.expiration_date_gte.deep_view());
        let p = with_pair(p, "expiration_date_lte"@, self.expiration_date_lte.deep_view());
        let p = with_pair(p, "root_symbol"@, self.root_symbol.deep_view());
        let p = with_pair(p, "type"@, self.contract_type.deep_view());
        let p = with_pair(p, "style"@, self.style.deep_view());
        let p = with_pair(p, "strike_price_gte"@, self.strike_price_gte.deep_view());
        let p = with_pair(p, "strike_price_lte"@, self.strike_price_lte.deep_view());
        let p = with_pair(
            p,
            "limit"@,
            match self.limit {
                Some(n) => Some(signed_decimal(n as int)),
                None => None,
            },
        );
        let p = with_pair(p, "page_token"@, self.page_token.deep_view());
        let p = with_pair(
            p,
            "ppind"@,
            match self.ppind {
                Some(b) => Some(truth(b)),
                None => None,
            },
        );
        let p = with_pair(
            p,
            "show_deliverables"@,
            match self.show_deliverables {
                Some(b) => Some(truth(b)),
                None => None,
            },
        );
        p
    }

    /// The pairs of the query.
    pub fn query_pairs(&self) -> (r: Vec<(String, String)>)
        ensures
            pair_views(r@) == self.pairs(),
    {
        let mut pairs: Vec<(String, String)> = Vec::new();
        assert(pair_views(pairs@) =~= Seq::empty());
        push_optional(&mut pairs, "underlying_symbols", &self.underlying_symbols);
        push_optional(&mut pairs, "status", &self.status);
        push_optional(&mut pairs, "expiration_date", &self.expiration_date);
        push_optional(&mut pairs, "expiration_date_gte", &self.expiration_date_gte);
        push_optional(&mut pairs, "expiration_date_lte", &self.expiration_date_lte);
        push_optional(&mut pairs, "root_symbol", &self.root_symbol);
        push_optional(&mut pairs, "type", &self.contract_type);
        push_optional(&mut pairs, "style", &self.style);
        push_optional(&mut pairs, "strike_price_gte", &self.strike_price_gte);
        push_optional(&mut pairs, "strike_price_lte", &self.strike_price_lte);
        let limit = match self.limit {
            Some(n) => Some(signed_decimal_text(n as i128)),
            None => None,
        };
        push_optional(&mut pairs, "limit", &limit);
        push_optional(&mut pairs, "page_token", &self.page_token);
        let ppind = match self.ppind {
            Some(b) => Some(truth_text(b)),
            None => None,
        };
        push_optional(&mut pairs, "ppind", &ppind);
        let show_deliverables = match self.show_deliverables {
            Some(b) => Some(truth_text(b)),
            None => None,
        };
        push_optional(&mut pairs, "show_deliverables", &show_deliverables);
        pairs
    }
}

/// The endpoint that searches option contracts.
pub fn option_contracts_endpoint(params: &GetOptionContractsParams) -> (r: Result<String, QueryError>)
    ensures
        match r {
            Ok(e) => urlencoded(params.pairs()) matches Some(q) && e@ == with_query_if_any(
                "/v2/options/contracts"@,
                q,
            ),
            Err(_) => urlencoded(params.pairs()) is None,
        },
{
    endpoint_for_if_any("/v2/options/contracts", &params.query_pairs())
}

impl Asset {
    /// A field by its name, as text: a truth value as `true` or `false`, the
    /// attributes separated by commas. `None` for a name that is none of a field.
    pub open spec fn field(&self, name: Seq<char>) -> Option<Seq<char>> {
        if name == "id"@ {
            Some(self.id@)
        } else if name == "class"@ {
            Some(self.class@)
        } else if name == "exchange"@ {
            Some(self.exchange@)
        } else if name == "symbol"@ {
            Some(self.symbol@)
        } else if name == "name"@ {
            Some(self.name@)
        } else if name == "status"@ {
            Some(self.status@)
        } else if name == "tradable"@ {
            Some(truth(self.tradable))
        } else if name == "marginable"@ {
            Some(truth(self.marginable))
        } else if name == "maintenance_margin_requirement"@ {
            Some(decimal(self.maintenance_margin_requirement as nat))
        } else if name == "margin_requirement_long"@ {
            Some(self.margin_requirement_long@)
        } else if name == "margin_requirement_short"@ {
            Some(self.margin_requirement_short@)
        } else if name == "shortable"@ {
            Some(truth(self.shortable))
        } else if name == "easy_to_borrow"@ {
            Some(truth(self.easy_to_borrow))
        } else if name == "fractionable"@ {
            Some(truth(self.fractionable))
        } else if name == "attributes"@ {
            Some(joined(self.attributes.deep_view(), ","@))
        } else {
            None
        }
    }

    /// A field by its name, as text.
    pub fn get_field(&self, field: &str) -> (r: Option<String>)
        ensures
            r.deep_view() == self.field(field@),
    {
        if text_eq(field, "id") {
            Some(self.id.clone())
        } else if text_eq(field, "class") {
            Some(self.class.clone())
        } else if text_eq(field, "exchange") {
            Some(self.exchange.clone())
        } else if text_eq(field, "symbol") {
            Some(self.symbol.clone())
        } else if text_eq(field, "name") {
            Some(self.name.clone())
        } else if text_eq(field, "status") {
            Some(self.status.clone())
        } else if text_eq(field, "tradable") {
            Some(truth_text(self.tradable))
        } else if text_eq(field, "marginable") {
            Some(truth_text(self.marginable))
        } else if text_eq(field, "maintenance_margin_requirement") {
            Some(decimal_text(self.maintenance_margin_requirement as u128))
        } else if text_eq(field, "margin_requirement_long") {
            Some(self.margin_requirement_long.clone())
        } else if text_eq(field, "margin_requirement_short") {
            Some(self.margin_requirement_short.clone())
        } else if text_eq(field, "shortable") {
            Some(truth_text(self.shortable))
        } else if text_eq(field, "easy_to_borrow") {
            Some(truth_text(self.easy_to_borrow))
        } else if text_eq(field, "fractionable") {
            Some(truth_text(self.fractionable))
        } else if text_eq(field, "attributes") {
            Some(join(&self.attributes, ","))
        } else {
            None
        }
    }
}

/// The parts of the query that lists assets: each filter that is given, as
/// `name=value`; the attributes that are given, separated by commas.
pub open spec fn asset_filters(
    status: Option<Seq<char>>,
    asset_class: Option<Seq<char>>,
    exchange: Option<Seq<char>>,
    attributes: Seq<Seq<char>>,
) -> Seq<Seq<char>> {
    let p = Seq::empty();
    let p = match status {
        Some(s) => p.push("status="@ + s),
        None => p,
    };
    let p = match asset_class {
        Some(s) => p.push("asset_class="@ + s),
        None => p,
    };
    let p = match exchange {
        Some(s) => p.push("exchange="@ + s),
        None => p,
    };
    if attributes.len() > 0 {
        p.push("attributes="@ + joined(attributes, ","@))
    } else {
        p
    }
}

/// The values that are given, in order.
pub open spec fn given(values: Seq<Option<String>>) -> Seq<Seq<char>>
    decreases values.len(),
{
    if values.len() == 0 {
        Seq::empty()
    } else {
        match values.last() {
            Some(v) => given(values.drop_last()).push(v@),
            None => given(values.drop_last()),
        }
    }
}

/// Picks the values that are given.
pub fn collect_given(values: &Vec<Option<String>>) -> (r: Vec<String>)
    ensures
        r.deep_view() == given(values@),
{
    let mut out: Vec<String> = Vec::new();
    let mut i: usize = 0;
    assert(values@.subrange(0, 0) =~= Seq::empty());
    assert(out.deep_view() =~= Seq::<Seq<char>>::empty());
    while i < values.len()
        invariant
            i <= values.len(),
            out.deep_view() == given(values@.subrange(0, i as int)),
        decreases values.len() - i,
    {
        let ghost before = out.deep_view();
        assert(values@.subrange(0, i + 1).drop_last() =~= values@.subrange(0, i as int));
        match &values[i] {
            Some(v) => {
                out.push(v.clone());
                assert(out.deep_view() =~= before.push(v@));
            },
            None => {},
        }
        i += 1;
    }
    assert(values@.subrange(0, i as int) =~= values@);
    out
}

/// The endpoint that lists assets.
pub fn assets_endpoint(
    status: &Option<String>,
    asset_class: &Option<String>,
    exchange: &Option<String>,
    attributes: &Vec<Option<String>>,
) -> (r: String)
    ensures
        r@ == "/v2/assets?"@ + joined(
            asset_filters(
                status.deep_view(),
                asset_class.deep_view(),
                exchange.deep_view(),
                given(attributes@),
            ),
            "&"@,
        ),
{
    let mut filters: Vec<String> = Vec::new();
    assert(filters.deep_view() =~= Seq::<Seq<char>>::empty());
    add_filter(&mut filters, "status=", status);
    add_filter(&mut filters, "asset_class=", asset_class);
    add_filter(&mut filters, "exchange=", exchange);
    let values = collect_given(attributes);
    if values.len() > 0 {
        let ghost before = filters.deep_view();
        let mut part = "attributes=".to_owned();
        part.append(join(&values, ",").as_str());
        filters.push(part);
        assert(filters.deep_view() =~= before.push("attributes="@ + joined(given(attributes@), ","@)));
    }
    let mut out = "/v2/assets?".to_owned();
    out.append(join(&filters, "&").as_str());
    out
}

/// Appends `name=value` to the filters, where the value is given.
fn add_filter(filters: &mut Vec<String>, prefix: &str, value: &Option<String>)
    ensures
        final(filters).deep_view() == match value.deep_view() {
            Some(v) => old(filters).deep_view().push(prefix@ + v),
            None => old(filters).deep_view(),
        },
{
    match value {
        Some(v) => {
            let ghost before = filters.deep_view();
            let mut part = prefix.to_owned();
            part.append(v.as_str());
            filters.push(part);
            assert(filters.deep_view() =~= before.push(prefix@ + v@));
        },
        None => {},
    }
}

/// The endpoint of one asset.
pub fn asset_endpoint(symbol: &str) -> (r: String)
    ensures
        r@ == "/v2/assets/"@ + symbol@,
{
    let mut out = "/v2/assets/".to_owned();
    out.append(symbol);
    out
}

} // verus!
