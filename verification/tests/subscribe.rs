use rpaca::market_data::v2::command::auth_json;
use rpaca::market_data::v2::crypto_websocket::{
    CryptoStreamParams, Subscribe as CryptoSubscribe,
};
use rpaca::market_data::v2::decode::read_texts;
use rpaca::market_data::v2::stock_websocket::Subscribe as StockSubscribe;

fn symbols(list: &[&str]) -> Vec<String> {
    list.iter().map(|s| s.to_string()).collect()
}

#[test]
fn subscribe_round_trip_keeps_symbols_and_order() {
    let mut s = CryptoSubscribe::new();
    s.trades = symbols(&["B", "A"]);
    s.updated_bars = symbols(&["ETH/USD", "BTC/USD", "ETH/USD"]);
    let command = s.action_json();
    assert_eq!(command["action"], "subscribe");
    assert_eq!(read_texts(&command, "trades"), Ok(symbols(&["B", "A"])));
    assert_eq!(read_texts(&command, "updatedBars"), Ok(symbols(&["ETH/USD", "BTC/USD", "ETH/USD"])));
    let back: serde_json::Value = serde_json::from_str(&command.to_string()).unwrap();
    assert_eq!(back, command);
    assert_eq!(read_texts(&back, "trades"), Ok(symbols(&["B", "A"])));
}

#[test]
fn an_empty_channel_is_left_out_of_the_command() {
    let mut s = CryptoSubscribe::new();
    s.quotes = symbols(&["BTC/USD"]);
    let command = s.action_json();
    let object = command.as_object().unwrap();
    let keys: Vec<&String> = object.keys().collect();
    assert_eq!(keys, vec!["action", "quotes"]);
    assert!(command.get("trades").is_none());
    assert!(command.get("orderbooks").is_none());
    assert_eq!(command.to_string(), r#"{"action":"subscribe","quotes":["BTC/USD"]}"#);
    assert_eq!(CryptoSubscribe::new().action_json().to_string(), r#"{"action":"subscribe"}"#);
}

#[test]
fn every_crypto_channel_has_its_own_key() {
    let s = CryptoSubscribe {
        trades: symbols(&["t"]),
        quotes: symbols(&["q"]),
        bars: symbols(&["b"]),
        daily_bars: symbols(&["d"]),
        updated_bars: symbols(&["u"]),
        orderbooks: symbols(&["o"]),
    };
    let command = s.action_json();
    assert_eq!(command.as_object().unwrap().len(), 7);
    for (key, symbol) in [("trades", "t"), ("quotes", "q"), ("bars", "b"), ("dailyBars", "d"), ("updatedBars", "u"), ("orderbooks", "o")] {
        assert_eq!(read_texts(&command, key), Ok(symbols(&[symbol])));
    }
}

#[test]
fn every_stock_channel_has_its_own_key() {
    let s = StockSubscribe {
        trades: symbols(&["t"]),
        quotes: symbols(&["q"]),
        bars: symbols(&["b"]),
        daily_bars: symbols(&["d"]),
        updated_bars: symbols(&["u"]),
        statuses: symbols(&["s"]),
        lulds: symbols(&["l"]),
        imbalances: symbols(&["i"]),
    };
    let command = s.action_json();
    assert_eq!(command["action"], "subscribe");
    assert_eq!(command.as_object().unwrap().len(), 9);
    for (key, symbol) in [("trades", "t"), ("quotes", "q"), ("bars", "b"), ("dailyBars", "d"), ("updatedBars", "u"), ("statuses", "s"), ("lulds", "l"), ("imbalances", "i")] {
        assert_eq!(read_texts(&command, key), Ok(symbols(&[symbol])));
    }
    let mut one = StockSubscribe::new();
    one.lulds = symbols(&["AAPL"]);
    assert_eq!(one.action_json().to_string(), r#"{"action":"subscribe","lulds":["AAPL"]}"#);
}

#[test]
fn a_new_descriptor_has_no_channel() {
    let s = CryptoSubscribe::new();
    assert!(s.trades.is_empty() && s.quotes.is_empty() && s.bars.is_empty());
    assert!(s.daily_bars.is_empty() && s.updated_bars.is_empty() && s.orderbooks.is_empty());
    let s = StockSubscribe::new();
    assert!(s.trades.is_empty() && s.quotes.is_empty() && s.bars.is_empty());
    assert!(s.daily_bars.is_empty() && s.updated_bars.is_empty());
    assert!(s.statuses.is_empty() && s.lulds.is_empty() && s.imbalances.is_empty());
}

#[test]
fn the_auth_command_names_key_and_secret() {
    let command = auth_json("PK123", "s3cr\"et");
    assert_eq!(command["action"], "auth");
    assert_eq!(command["key"], "PK123");
    assert_eq!(command["secret"], "s3cr\"et");
    assert_eq!(command.as_object().unwrap().len(), 3);
    assert_eq!(command.to_string(), r#"{"action":"auth","key":"PK123","secret":"s3cr\"et"}"#);
}

#[test]
fn crypto_parameters_default_to_the_us_feed() {
    let params = CryptoStreamParams::new(CryptoSubscribe::new());
    assert_eq!(params.endpoint, "wss://stream.data.alpaca.markets/v1beta3/crypto/us");
    assert_eq!(params.url(), "wss://stream.data.alpaca.markets/v1beta3/crypto/us");
}
