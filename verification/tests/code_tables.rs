use rpaca::market_data::v2::stock::{
    ExchangeCodesResponse, HistoricalAuctionsParams, HistoricalBarParams, TradeConditionResponse,
};
use std::collections::HashMap;

fn table(entries: &[(char, &str)]) -> HashMap<u32, String> {
    entries.iter().map(|(c, s)| (*c as u32, s.to_string())).collect()
}

#[test]
fn condition_codes_are_looked_up_by_character() {
    let res = TradeConditionResponse(table(&[('4', "Derivatively Priced"), ('Z', "Sold (Out Of Sequence)")]));
    assert_eq!(res.describe('4'), Some("Derivatively Priced"));
    assert_eq!(res.describe('Z'), Some("Sold (Out Of Sequence)"));
    assert_eq!(res.describe('z'), None);
    assert_eq!(res.describe_str("4"), Some("Derivatively Priced"));
    assert_eq!(res.describe_str("Z4"), Some("Sold (Out Of Sequence)"));
    assert_eq!(res.describe_str(""), None);
    assert_eq!(res.describe_str("?"), None);
}

#[test]
fn exchange_codes_are_looked_up_by_character() {
    let res = ExchangeCodesResponse(table(&[('A', "NYSE American (AMEX)"), ('Z', "Cboe BZ"), ('\u{e9}', "accent")]));
    assert_eq!(res.describe('A'), Some("NYSE American (AMEX)"));
    assert_eq!(res.describe('Z'), Some("Cboe BZ"));
    assert_eq!(res.describe('B'), None);
    assert_eq!(res.describe_str("A"), Some("NYSE American (AMEX)"));
    assert_eq!(res.describe_str("\u{e9}t\u{e9}"), Some("accent"));
    assert_eq!(res.describe_str(""), None);
}

#[test]
fn parameters_start_with_the_optional_fields_left_out() {
    let p = HistoricalAuctionsParams::new(vec!["AAPL".to_string()]);
    assert_eq!(p.symbols, vec!["AAPL".to_string()]);
    assert!(p.start.is_none() && p.end.is_none() && p.limit.is_none() && p.feed.is_none());
    let p = HistoricalBarParams::new(vec!["AAPL".to_string()], "1Min".to_string());
    assert_eq!(p.timeframe, "1Min");
    assert!(p.adjustment.is_none() && p.page_token.is_none());
}
