use rpaca::auth::TradingType;
use rpaca::query::{
    endpoint_for, endpoint_for_if_any, endpoint_with_query, endpoint_with_query_if_any,
    push_optional, push_pair, query_string,
};
use rpaca::trading::v2::account_activities::{ActivityType, OrderStatus};
use rpaca::trading::v2::assets::{
    asset_endpoint, assets_endpoint, collect_given, option_contracts_endpoint, Asset,
    GetOptionContractsParams,
};
use rpaca::trading::v2::crypto_funding::{estimated_gas_fee_endpoint, EstimatedGasFeeParams};
use rpaca::trading::v2::orders::{
    order_by_client_order_id_endpoint, order_endpoint, orders_endpoint, GetOrdersParams,
    OrderRequest,
};
use rpaca::trading::v2::portfolio::{portfolio_history_endpoint, PortfolioParams};
use rpaca::trading::v2::positions::close_position_endpoint;

fn apple() -> Asset {
    Asset {
        id: "b0b6dd9d-8b9b-48a9-ba46-b9d54906e415".to_string(),
        class: "us_equity".to_string(),
        exchange: "NASDAQ".to_string(),
        symbol: "AAPL".to_string(),
        name: "Apple Inc. Common Stock".to_string(),
        status: "active".to_string(),
        tradable: true,
        marginable: true,
        maintenance_margin_requirement: 30,
        margin_requirement_long: "30".to_string(),
        margin_requirement_short: "30".to_string(),
        shortable: true,
        easy_to_borrow: false,
        fractionable: true,
        attributes: vec!["fractional_eh_enabled".to_string(), "has_options".to_string()],
    }
}

#[test]
fn trading_urls() {
    assert_eq!(TradingType::Paper.trading_url(), "https://paper-api.alpaca.markets");
    assert_eq!(TradingType::Live.trading_url(), "https://api.alpaca.markets");
    assert!(TradingType::default() == TradingType::Paper);
    assert!(TradingType::Live == TradingType::Live);
    assert!(TradingType::Live != TradingType::Paper);
}

#[test]
fn asset_fields_by_name() {
    let asset = apple();
    assert_eq!(asset.get_field("symbol"), Some("AAPL".to_string()));
    assert_eq!(asset.get_field("id"), Some("b0b6dd9d-8b9b-48a9-ba46-b9d54906e415".to_string()));
    assert_eq!(asset.get_field("class"), Some("us_equity".to_string()));
    assert_eq!(asset.get_field("tradable"), Some("true".to_string()));
    assert_eq!(asset.get_field("easy_to_borrow"), Some("false".to_string()));
    assert_eq!(asset.get_field("maintenance_margin_requirement"), Some("30".to_string()));
    assert_eq!(
        asset.get_field("attributes"),
        Some("fractional_eh_enabled,has_options".to_string())
    );
    assert_eq!(asset.get_field("Symbol"), None);
    assert_eq!(asset.get_field(""), None);
}

#[test]
fn portfolio_history_without_parameters_has_no_query() {
    assert_eq!(
        portfolio_history_endpoint(&PortfolioParams::new()),
        Ok("/v2/account/portfolio/history".to_string())
    );
}

#[test]
fn portfolio_history_query_follows_the_fields() {
    let mut params = PortfolioParams::new();
    params.timeframe = Some("1D".to_string());
    params.period = Some("1M".to_string());
    params.end = Some("2024-01-04T01:02:03Z".to_string());
    assert_eq!(
        portfolio_history_endpoint(&params),
        Ok("/v2/account/portfolio/history?period=1M&timeframe=1D&end=2024-01-04T01%3A02%3A03Z"
            .to_string())
    );
    assert_eq!(
        params.query_pairs(),
        vec![
            ("period".to_string(), "1M".to_string()),
            ("timeframe".to_string(), "1D".to_string()),
            ("end".to_string(), "2024-01-04T01:02:03Z".to_string()),
        ]
    );
}

#[test]
fn orders_query_writes_numbers_and_truth_values() {
    let mut params = GetOrdersParams::new();
    params.status = Some("open".to_string());
    params.limit = Some(50);
    params.nested = Some(true);
    params.symbols = Some("AAPL,MSFT".to_string());
    assert_eq!(
        orders_endpoint(&params),
        Ok("/v2/orders?status=open&limit=50&nested=true&symbols=AAPL%2CMSFT".to_string())
    );
    assert_eq!(orders_endpoint(&GetOrdersParams::new()), Ok("/v2/orders?".to_string()));
    params.limit = Some(-170141183460469231731687303715884105728);
    params.nested = Some(false);
    assert_eq!(
        params.query_pairs()[1],
        ("limit".to_string(), "-170141183460469231731687303715884105728".to_string())
    );
    assert_eq!(params.query_pairs()[2], ("nested".to_string(), "false".to_string()));
}

#[test]
fn one_order_by_its_id() {
    let id = "904837e3-3b76-47ec-b432-046db621571b";
    assert_eq!(order_endpoint(id, None), "/v2/orders/904837e3-3b76-47ec-b432-046db621571b");
    assert_eq!(
        order_endpoint(id, Some(true)),
        "/v2/orders/904837e3-3b76-47ec-b432-046db621571b?nested=true"
    );
    assert_eq!(
        order_endpoint(id, Some(false)),
        "/v2/orders/904837e3-3b76-47ec-b432-046db621571b?nested=false"
    );
    assert_eq!(
        order_by_client_order_id_endpoint("mine-1"),
        "/v2/orders:by_client_order_id?client_order_id=mine-1"
    );
}

#[test]
fn option_contracts_query() {
    assert_eq!(
        option_contracts_endpoint(&GetOptionContractsParams::new()),
        Ok("/v2/options/contracts".to_string())
    );
    let mut params = GetOptionContractsParams::new();
    params.root_symbol = Some("AAPL".to_string());
    params.contract_type = Some("call".to_string());
    params.expiration_date_gte = Some("2024-01-19".to_string());
    params.strike_price_lte = Some("187.5".to_string());
    params.limit = Some(100);
    params.show_deliverables = Some(false);
    assert_eq!(
        option_contracts_endpoint(&params),
        Ok("/v2/options/contracts?expiration_date_gte=2024-01-19&root_symbol=AAPL&type=call&strike_price_lte=187.5&limit=100&show_deliverables=false".to_string())
    );
}

#[test]
fn assets_query_is_joined_by_hand() {
    assert_eq!(assets_endpoint(&None, &None, &None, &vec![None]), "/v2/assets?");
    assert_eq!(
        assets_endpoint(
            &Some("active".to_string()),
            &None,
            &Some("NYSE".to_string()),
            &vec![Some("has_options".to_string()), None, Some("ptp_no_exception".to_string())],
        ),
        "/v2/assets?status=active&exchange=NYSE&attributes=has_options,ptp_no_exception"
    );
    assert_eq!(
        assets_endpoint(&None, &Some("crypto".to_string()), &None, &vec![]),
        "/v2/assets?asset_class=crypto"
    );
    assert_eq!(
        collect_given(&vec![None, Some("a".to_string()), None, Some("b".to_string())]),
        vec!["a".to_string(), "b".to_string()]
    );
    assert_eq!(asset_endpoint("OGGNF"), "/v2/assets/OGGNF");
}

#[test]
fn closing_a_position() {
    assert_eq!(close_position_endpoint("GOOG", &None, &None), "/v2/positions/GOOG");
    assert_eq!(
        close_position_endpoint("GOOG", &Some("1".to_string()), &None),
        "/v2/positions/GOOG?qty=1"
    );
    assert_eq!(
        close_position_endpoint("GOOG", &None, &Some("50.5".to_string())),
        "/v2/positions/GOOG?percentage=50.5"
    );
    assert_eq!(
        close_position_endpoint("GOOG", &Some("2".to_string()), &Some("50".to_string())),
        "/v2/positions/GOOG?qty=2"
    );
}

#[test]
fn gas_fee_query_has_every_field() {
    let params = EstimatedGasFeeParams::new(
        "USDC".to_string(),
        "0xabc".to_string(),
        "0xdef".to_string(),
        "12.5".to_string(),
    );
    assert_eq!(
        estimated_gas_fee_endpoint(&params),
        Ok("/v2/wallets/fees/estimate?asset=USDC&from_address=0xabc&to_address=0xdef&amount=12.5"
            .to_string())
    );
}

#[test]
fn queries_are_percent_encoded() {
    let mut pairs: Vec<(String, String)> = Vec::new();
    push_pair(&mut pairs, "cheese", "comt\u{e9}".to_string());
    push_optional(&mut pairs, "meat", &None);
    push_optional(&mut pairs, "fat", &Some("salted butter".to_string()));
    assert_eq!(pairs.len(), 2);
    assert_eq!(query_string(&pairs), Ok("cheese=comt%C3%A9&fat=salted+butter".to_string()));
    assert_eq!(
        endpoint_for("/v2/x", &pairs),
        Ok("/v2/x?cheese=comt%C3%A9&fat=salted+butter".to_string())
    );
    assert_eq!(endpoint_for("/v2/x", &Vec::new()), Ok("/v2/x?".to_string()));
    assert_eq!(endpoint_for_if_any("/v2/x", &Vec::new()), Ok("/v2/x".to_string()));
    assert_eq!(endpoint_with_query("/a", "b=c"), "/a?b=c");
    assert_eq!(endpoint_with_query_if_any("/a", ""), "/a");
    assert_eq!(endpoint_with_query_if_any("/a", "b=c"), "/a?b=c");
}

#[test]
fn activity_types_are_written_in_capitals() {
    assert_eq!(ActivityType::Fill.as_str(), "FILL");
    assert_eq!(ActivityType::Divnra.as_str(), "DIVNRA");
    assert_eq!(ActivityType::Split.as_str(), "SPLIT");
}

#[test]
fn order_states_are_written_with_underscores() {
    assert_eq!(OrderStatus::New.as_str(), "new");
    assert_eq!(OrderStatus::PartiallyFilled.as_str(), "partially_filled");
    assert_eq!(OrderStatus::DoneForDay.as_str(), "done_for_day");
    assert_eq!(OrderStatus::AcceptedForBidding.as_str(), "accepted_for_bidding");
    assert_eq!(OrderStatus::Calculated.as_str(), "calculated");
}

#[test]
fn a_new_order_leaves_the_optional_fields_out() {
    let order = OrderRequest::new(
        "GOOG".to_string(),
        "buy".to_string(),
        "market".to_string(),
        "day".to_string(),
    );
    assert_eq!(order.symbol, "GOOG");
    assert_eq!(order.side, "buy");
    assert_eq!(order.order_type, "market");
    assert_eq!(order.time_in_force, "day");
    assert!(order.qty.is_none() && order.notional.is_none() && order.legs.is_none());
}
