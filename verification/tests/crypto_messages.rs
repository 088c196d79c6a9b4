use rpaca::market_data::v2::crypto_websocket::{
    read_levels, read_num, Bar, Level, NumF64, Orderbook, Quote, StockMsg, SubscriptionAck, Trade,
};
use rpaca::market_data::v2::decode::{
    read_float, read_integer, read_optional_flag, read_optional_integer, read_optional_text,
    read_text, read_texts, read_texts_or_empty, required, text_of, texts_in, DecodeError,
};
use rpaca::market_data::v2::message::{decode_frame, Role, WireMessage};

fn value(text: &str) -> serde_json::Value {
    serde_json::from_str(text).unwrap()
}

fn only(text: &str) -> Result<StockMsg, DecodeError> {
    let mut items: Vec<Result<StockMsg, DecodeError>> = decode_frame(text);
    assert_eq!(items.len(), 1);
    items.remove(0)
}

fn missing(key: &str) -> DecodeError {
    DecodeError::MissingField(key.to_string())
}

fn invalid(key: &str) -> DecodeError {
    DecodeError::InvalidField(key.to_string())
}

#[test]
fn batch_decode_keeps_the_well_formed_messages() {
    let frame = r#"[{"T":"t","S":"BTC/USD","p":50000.0,"s":0.1,"t":"2024-01-01T00:00:00Z","i":1,"tks":"B"},
                    {"T":"t","S":"BTC/USD","p":50000.0}]"#;
    let items: Vec<Result<StockMsg, DecodeError>> = decode_frame(frame);
    assert_eq!(items.len(), 2);
    assert!(matches!(&items[0], Ok(StockMsg::Trade(t)) if t.symbol == "BTC/USD"));
    assert_eq!(items[1].as_ref().err(), Some(&missing("s")));
    let swapped = r#"[{"T":"t","S":"BTC/USD","p":50000.0},
                      {"T":"t","S":"BTC/USD","p":50000.0,"s":0.1,"t":"2024-01-01T00:00:00Z","i":1,"tks":"B"}]"#;
    let items: Vec<Result<StockMsg, DecodeError>> = decode_frame(swapped);
    assert_eq!(items[0].as_ref().err(), Some(&missing("s")));
    assert!(matches!(&items[1], Ok(StockMsg::Trade(t)) if t.symbol == "BTC/USD"));
}

#[test]
fn frame_level_errors() {
    let items: Vec<Result<StockMsg, DecodeError>> = decode_frame("[1,");
    assert_eq!(items.len(), 1);
    assert_eq!(items[0].as_ref().err(), Some(&DecodeError::InvalidJson));
    let items: Vec<Result<StockMsg, DecodeError>> = decode_frame(r#"{"T":"t"}"#);
    assert_eq!(items.len(), 1);
    assert_eq!(items[0].as_ref().err(), Some(&DecodeError::NotAnArray));
    let items: Vec<Result<StockMsg, DecodeError>> = decode_frame("null");
    assert_eq!(items[0].as_ref().err(), Some(&DecodeError::NotAnArray));
    let items: Vec<Result<StockMsg, DecodeError>> = decode_frame("[]");
    assert!(items.is_empty());
}

#[test]
fn the_discriminant_decides() {
    assert_eq!(only(r#"[{"S":"BTC/USD"}]"#).err(), Some(missing("T")));
    assert_eq!(only(r#"[{"T":7}]"#).err(), Some(invalid("T")));
    assert_eq!(only(r#"[{"T":null}]"#).err(), Some(invalid("T")));
    assert_eq!(only(r#"["t"]"#).err(), Some(missing("T")));
    assert_eq!(only(r#"[{"T":"trade"}]"#).err(), Some(DecodeError::UnknownTag("trade".to_string())));
    assert_eq!(only(r#"[{"T":""}]"#).err(), Some(DecodeError::UnknownTag("".to_string())));
    assert_eq!(only(r#"[{"T":"t"}]"#).err(), Some(missing("S")));
    assert_eq!(only(r#"[{"T":"q"}]"#).err(), Some(missing("S")));
    assert_eq!(only(r#"[{"T":"o","S":"X","t":"now","b":[],"a":[]}]"#).map(|m| m.role()), Ok(Role::Data));
}

#[test]
fn the_first_fault_in_field_order_is_reported() {
    let v = value(r#"{"S":"BTC/USD","p":"high","s":true,"i":1,"tks":"B"}"#);
    assert_eq!(Trade::decode(&v).err(), Some(invalid("p")));
    let v = value(r#"{"S":"BTC/USD","p":1,"s":true,"i":1,"tks":"B"}"#);
    assert_eq!(Trade::decode(&v).err(), Some(invalid("s")));
    let v = value(r#"{"S":"BTC/USD","p":1,"s":2,"i":1,"tks":"B"}"#);
    assert_eq!(Trade::decode(&v).err(), Some(missing("t")));
    let v = value(r#"{"S":"BTC/USD","p":1,"s":2,"t":"now","i":null,"tks":"B"}"#);
    assert_eq!(Trade::decode(&v).err(), Some(invalid("i")));
    let v = value(r#"{"S":"BTC/USD","p":1,"s":2,"t":"now","i":1}"#);
    assert_eq!(Trade::decode(&v).err(), Some(missing("tks")));
}

#[test]
fn numbers_arrive_as_integer_decimal_or_string() {
    let v = value(r#"{"a":42,"b":42.5,"c":"42","d":18446744073709551615,"e":-7,"f":"n/a","g":[1],"h":9223372036854775807}"#);
    assert!(matches!(read_num(&v, "a"), Ok(NumF64::I(42))));
    assert!(matches!(read_num(&v, "b"), Ok(NumF64::F(f)) if f64::from_bits(f.bits) == 42.5));
    assert!(matches!(read_num(&v, "c"), Ok(NumF64::S(s)) if s == "42"));
    assert!(matches!(read_num(&v, "d"), Ok(NumF64::F(f)) if f64::from_bits(f.bits) == 18446744073709551615.0));
    assert!(matches!(read_num(&v, "e"), Ok(NumF64::I(-7))));
    assert!(matches!(read_num(&v, "f"), Ok(NumF64::S(s)) if s == "n/a"));
    assert!(matches!(read_num(&v, "h"), Ok(NumF64::I(i64::MAX))));
    assert_eq!(read_num(&v, "g").err(), Some(invalid("g")));
    assert_eq!(read_num(&v, "z").err(), Some(missing("z")));
}

#[test]
fn readers_of_single_members() {
    let v = value(r#"{"s":"text","i":-3,"f":2.5,"n":null,"b":false,"l":["x","y"],"e":[],"m":["x",null]}"#);
    assert_eq!(read_text(&v, "s"), Ok("text".to_string()));
    assert_eq!(read_text(&v, "i"), Err(invalid("i")));
    assert_eq!(read_text(&v, "n"), Err(invalid("n")));
    assert_eq!(read_text(&v, "q"), Err(missing("q")));
    assert_eq!(read_integer(&v, "i"), Ok(-3));
    assert_eq!(read_integer(&v, "f"), Err(invalid("f")));
    assert_eq!(read_integer(&v, "s"), Err(invalid("s")));
    assert_eq!(read_integer(&v, "q"), Err(missing("q")));
    assert_eq!(read_float(&v, "f").map(|x| f64::from_bits(x.bits)), Ok(2.5));
    assert_eq!(read_float(&v, "i").map(|x| f64::from_bits(x.bits)), Ok(-3.0));
    assert_eq!(read_float(&v, "s").map(|x| x.bits), Err(invalid("s")));
    assert_eq!(read_float(&v, "q").map(|x| x.bits), Err(missing("q")));
    assert_eq!(read_texts(&v, "l"), Ok(vec!["x".to_string(), "y".to_string()]));
    assert_eq!(read_texts(&v, "e"), Ok(vec![]));
    assert_eq!(read_texts(&v, "m"), Err(invalid("m")));
    assert_eq!(read_texts(&v, "s"), Err(invalid("s")));
    assert_eq!(read_texts(&v, "q"), Err(missing("q")));
    assert_eq!(read_texts_or_empty(&v, "l"), Ok(vec!["x".to_string(), "y".to_string()]));
    assert_eq!(read_texts_or_empty(&v, "q"), Ok(vec![]));
    assert_eq!(read_texts_or_empty(&v, "n"), Err(invalid("n")));
    assert_eq!(read_optional_text(&v, "s"), Ok(Some("text".to_string())));
    assert_eq!(read_optional_text(&v, "n"), Ok(None));
    assert_eq!(read_optional_text(&v, "q"), Ok(None));
    assert_eq!(read_optional_text(&v, "i"), Err(invalid("i")));
    assert_eq!(read_optional_integer(&v, "i"), Ok(Some(-3)));
    assert_eq!(read_optional_integer(&v, "n"), Ok(None));
    assert_eq!(read_optional_integer(&v, "q"), Ok(None));
    assert_eq!(read_optional_integer(&v, "f"), Err(invalid("f")));
    assert_eq!(read_optional_flag(&v, "b"), Ok(Some(false)));
    assert_eq!(read_optional_flag(&v, "n"), Ok(None));
    assert_eq!(read_optional_flag(&v, "q"), Ok(None));
    assert_eq!(read_optional_flag(&v, "s"), Err(invalid("s")));
    assert_eq!(required(&v, "s").map(|x| x.clone()), Ok(value(r#""text""#)));
    assert_eq!(required(&v, "q").map(|x| x.clone()), Err(missing("q")));
    assert_eq!(text_of(&value(r#""a""#), "k"), Ok("a".to_string()));
    assert_eq!(text_of(&value("1"), "k"), Err(invalid("k")));
    assert_eq!(texts_in(&value(r#"["a"]"#), "k"), Ok(vec!["a".to_string()]));
    assert_eq!(texts_in(&value(r#"{"a":1}"#), "k"), Err(invalid("k")));
    assert_eq!(required(&value("[1]"), "s").map(|x| x.clone()), Err(missing("s")));
}

#[test]
fn quotes_bars_and_books_decode() {
    let q = Quote::decode(&value(r#"{"S":"ETH/USD","bp":1999.5,"bs":2,"ap":2000.25,"as":1.5,"t":"2024-01-01T00:00:00Z"}"#)).unwrap();
    assert_eq!(q.symbol, "ETH/USD");
    assert_eq!(f64::from_bits(q.bid_price.bits), 1999.5);
    assert_eq!(f64::from_bits(q.bid_size.bits), 2.0);
    assert_eq!(f64::from_bits(q.ask_price.bits), 2000.25);
    assert_eq!(f64::from_bits(q.ask_size.bits), 1.5);
    let b = Bar::decode(&value(r#"{"S":"ETH/USD","o":1,"h":3,"l":0.5,"c":2,"v":"12.75","t":"now","extra":true}"#)).unwrap();
    assert_eq!(f64::from_bits(b.high.bits), 3.0);
    assert_eq!(f64::from_bits(b.low.bits), 0.5);
    assert!(matches!(&b.volume, NumF64::S(s) if s == "12.75"));
    let o = Orderbook::decode(&value(r#"{"S":"ETH/USD","t":"now","b":[{"p":1999.5,"s":2},{"p":1999,"s":0}],"a":[],"r":true}"#)).unwrap();
    assert_eq!(o.bids.len(), 2);
    assert_eq!(f64::from_bits(o.bids[1].p.bits), 1999.0);
    assert_eq!(f64::from_bits(o.bids[0].s.bits), 2.0);
    assert!(o.asks.is_empty());
    assert_eq!(o.reset, Some(true));
    let o = Orderbook::decode(&value(r#"{"S":"ETH/USD","t":"now","b":[],"a":[{"p":1,"s":2}]}"#)).unwrap();
    assert_eq!(o.reset, None);
    assert_eq!(o.asks.len(), 1);
    assert_eq!(Orderbook::decode(&value(r#"{"S":"E","t":"now","b":[{"p":1}],"a":[]}"#)).err(), Some(invalid("b")));
    assert_eq!(Orderbook::decode(&value(r#"{"S":"E","t":"now","b":[],"a":{}}"#)).err(), Some(invalid("a")));
    assert_eq!(Orderbook::decode(&value(r#"{"S":"E","t":"now","b":[]}"#)).err(), Some(missing("a")));
    assert_eq!(Orderbook::decode(&value(r#"{"S":"E","t":"now","b":[],"a":[],"r":"yes"}"#)).err(), Some(invalid("r")));
    assert_eq!(read_levels(&value(r#"{"b":[{"p":1,"s":"x"}]}"#), "b").err(), Some(invalid("b")));
    assert_eq!(Level::decode(&value(r#"{"p":1,"s":"x"}"#)).err(), Some(invalid("s")));
    assert_eq!(Level::decode(&value(r#"{"s":1}"#)).err(), Some(missing("p")));
}

#[test]
fn an_acknowledgement_fills_what_is_left_out() {
    let a = SubscriptionAck::decode(&value(r#"{"trades":["AAPL","GOOG"],"quotes":["TSLA"],"dailyBars":["MSFT"]}"#)).unwrap();
    assert_eq!(a.trades, vec!["AAPL", "GOOG"]);
    assert_eq!(a.quotes, vec!["TSLA"]);
    assert_eq!(a.daily_bars, vec!["MSFT"]);
    assert!(a.bars.is_empty());
    assert!(a.updated_bars.is_empty());
    assert!(a.orderbooks.is_empty());
    assert_eq!(SubscriptionAck::decode(&value(r#"{"trades":"AAPL"}"#)).err(), Some(invalid("trades")));
    assert_eq!(SubscriptionAck::decode(&value(r#"{"trades":[],"updatedBars":[1]}"#)).err(), Some(invalid("updatedBars")));
}
