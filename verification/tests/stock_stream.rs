use rpaca::market_data::v2::decode::DecodeError;
use rpaca::market_data::v2::message::{decode_document, decode_frame, Rejection, Role, WireMessage};
use rpaca::market_data::v2::session::{Command, Event, Frame, Phase, Session, StreamError};
use rpaca::market_data::v2::stock_websocket::{StockMsg, StockStreamParams, Subscribe};

type StockItem = Result<StockMsg, StreamError>;

fn frame(text: &str) -> Event {
    Event::Frame(Frame::Text(text.to_string()))
}

fn fakepaca() -> StockStreamParams {
    let mut subscription = Subscribe::new();
    subscription.trades = vec!["FAKEPACA".to_string()];
    subscription.quotes = vec!["FAKEPACA".to_string()];
    subscription.bars = vec!["FAKEPACA".to_string()];
    let mut params = StockStreamParams::new(subscription);
    params.feed_path = "v2/test".to_string();
    params
}

fn one(text: &str) -> Result<StockMsg, DecodeError> {
    let mut items: Vec<Result<StockMsg, DecodeError>> = decode_frame(text);
    assert_eq!(items.len(), 1);
    items.remove(0)
}

#[test]
fn the_address_joins_service_and_feed() {
    let params = fakepaca();
    assert_eq!(params.endpoint, "wss://stream.data.alpaca.markets/");
    assert_eq!(params.url(), "wss://stream.data.alpaca.markets/v2/test");
    let defaults = StockStreamParams::new(Subscribe::new());
    assert_eq!(defaults.url(), "wss://stream.data.alpaca.markets/v2/iex");
    let mut sandbox = StockStreamParams::new(Subscribe::new());
    sandbox.endpoint = "wss://stream.data.sandbox.alpaca.markets".to_string();
    sandbox.feed_path = "v2/sip".to_string();
    assert_eq!(sandbox.url(), "wss://stream.data.sandbox.alpaca.markets/v2/sip");
    sandbox.endpoint = "wss://host//".to_string();
    assert_eq!(sandbox.url(), "wss://host/v2/sip");
}

#[test]
fn stock_stream_handshake_and_data() {
    let params = fakepaca();
    let mut session: Session = params.session("key-id", "secret-key");
    assert_eq!(
        session.command(),
        Command::Connect("wss://stream.data.alpaca.markets/v2/test".to_string())
    );
    let _: Vec<StockItem> = session.step(Event::Connected);
    assert_eq!(
        session.command(),
        Command::Send(r#"{"action":"auth","key":"key-id","secret":"secret-key"}"#.to_string())
    );
    let _: Vec<StockItem> = session.step(Event::Sent);
    let out: Vec<StockItem> = session.step(frame(r#"[{"T":"success","msg":"connected"}]"#));
    assert!(out.is_empty());
    let out: Vec<StockItem> = session.step(frame(r#"[{"T":"success","msg":"authenticated"}]"#));
    assert!(out.is_empty());
    assert_eq!(
        session.command(),
        Command::Send(
            r#"{"action":"subscribe","bars":["FAKEPACA"],"quotes":["FAKEPACA"],"trades":["FAKEPACA"]}"#
                .to_string()
        )
    );
    let _: Vec<StockItem> = session.step(Event::Sent);
    assert_eq!(session.phase(), Phase::Streaming);

    let ack = r#"[{"T":"subscription","trades":["FAKEPACA"],"quotes":["FAKEPACA"],"bars":["FAKEPACA"],"updatedBars":[],"dailyBars":[],"statuses":[],"lulds":[],"corrections":["FAKEPACA"],"cancelErrors":["FAKEPACA"]}]"#;
    let out: Vec<StockItem> = session.step(frame(ack));
    match &out[0] {
        Ok(StockMsg::Subscription(a)) => {
            assert!(a.trades.contains(&"FAKEPACA".to_string()));
            assert_eq!(a.corrections, vec!["FAKEPACA".to_string()]);
            assert_eq!(a.cancel_errors, vec!["FAKEPACA".to_string()]);
            assert!(a.imbalances.is_empty());
        }
        other => panic!("expected an acknowledgement, got {:?}", other),
    }
    let data = r#"[{"T":"t","S":"FAKEPACA","i":96921,"x":"D","p":126.55,"s":1,"c":["@","I"],"t":"2021-02-22T15:51:44.208Z","z":"C"},
                   {"T":"q","S":"FAKEPACA","ax":"Q","ap":127.0,"as":3,"bx":"V","bp":126.5,"bs":4,"c":["R"],"t":"2021-02-22T15:51:45Z","z":"C"},
                   {"T":"b","S":"FAKEPACA","o":126,"h":127.5,"l":125.25,"c":127,"v":3500,"vw":126.8,"n":25,"t":"2021-02-22T15:51:00Z"}]"#;
    let out: Vec<StockItem> = session.step(frame(data));
    assert_eq!(out.len(), 3);
    match &out[0] {
        Ok(StockMsg::Trade(t)) => {
            assert_eq!(t.symbol, "FAKEPACA");
            assert_eq!(t.trade_id, 96921);
            assert_eq!(t.exchange, "D");
            assert_eq!(f64::from_bits(t.price.bits), 126.55);
            assert_eq!(t.size, 1);
            assert_eq!(t.conditions, vec!["@".to_string(), "I".to_string()]);
            assert_eq!(t.tape, "C");
        }
        other => panic!("expected a trade, got {:?}", other),
    }
    match &out[1] {
        Ok(StockMsg::Quote(q)) => {
            assert_eq!(q.symbol, "FAKEPACA");
            assert!(f64::from_bits(q.ask_price.bits) > 0.0 && f64::from_bits(q.bid_price.bits) > 0.0);
            assert_eq!((q.ask_size, q.bid_size), (3, 4));
            assert_eq!((q.ask_exchange.as_str(), q.bid_exchange.as_str()), ("Q", "V"));
        }
        other => panic!("expected a quote, got {:?}", other),
    }
    match &out[2] {
        Ok(StockMsg::Bar(b)) => {
            assert_eq!(b.symbol, "FAKEPACA");
            assert_eq!(f64::from_bits(b.open.bits), 126.0);
            assert_eq!(f64::from_bits(b.high.bits), 127.5);
            assert_eq!(f64::from_bits(b.low.bits), 125.25);
            assert_eq!(f64::from_bits(b.close.bits), 127.0);
            assert_eq!(f64::from_bits(b.volume_weighted_avg_price.bits), 126.8);
            assert_eq!((b.volume, b.number_of_trades), (3500, 25));
        }
        other => panic!("expected a bar, got {:?}", other),
    }
}

#[test]
fn every_kind_of_stock_message_decodes() {
    assert!(matches!(one(r#"[{"T":"d","S":"A","o":1,"h":2,"l":0.5,"c":1.5,"v":10,"vw":1.2,"n":3,"t":"x"}]"#), Ok(StockMsg::DailyBar(_))));
    assert!(matches!(one(r#"[{"T":"u","S":"A","o":1,"h":2,"l":0.5,"c":1.5,"v":10,"vw":1.2,"n":3,"t":"x"}]"#), Ok(StockMsg::UpdatedBar(_))));
    match one(r#"[{"T":"c","S":"A","x":"D","oi":"1","op":1.5,"os":100,"oc":["@"],"ci":"2","cp":1.25,"cs":90,"cc":[],"t":"x","z":"A"}]"#) {
        Ok(StockMsg::TradeCorrections(c)) => {
            assert_eq!((c.original_trade_id.as_str(), c.corrected_trade_id.as_str()), ("1", "2"));
            assert_eq!((c.original_trade_size, c.corrected_trade_size), (100, 90));
            assert_eq!(f64::from_bits(c.corrected_trade_price.bits), 1.25);
            assert!(c.corrected_trade_conditions.is_empty());
        }
        other => panic!("expected a correction, got {:?}", other),
    }
    match one(r#"[{"T":"x","S":"A","i":5,"x":"D","p":1.5,"s":100,"a":"C","t":"x","z":"B"}]"#) {
        Ok(StockMsg::TradeCancelsAndErrors(c)) => {
            assert_eq!((c.trade_id, c.trade_size), (5, 100));
            assert_eq!((c.action.as_str(), c.ape.as_str()), ("C", "B"));
        }
        other => panic!("expected a cancellation, got {:?}", other),
    }
    match one(r#"[{"T":"l","S":"A","u":2.5,"d":1.5,"i":"B","t":"x","z":"C"}]"#) {
        Ok(StockMsg::LimitUpLimitDown(l)) => {
            assert_eq!(f64::from_bits(l.limit_up_price.bits), 2.5);
            assert_eq!(f64::from_bits(l.limit_down_price.bits), 1.5);
            assert_eq!(l.indicator, "B");
        }
        other => panic!("expected a price band, got {:?}", other),
    }
    match one(r#"[{"T":"s","S":"A","sc":"H","sm":"Halted","rc":"T1","rm":"News","t":"x","z":"C"}]"#) {
        Ok(StockMsg::TradingStatus(s)) => {
            assert_eq!((s.status_code.as_str(), s.status_message.as_str()), ("H", "Halted"));
            assert_eq!((s.reason_code.as_str(), s.reason_message.as_str()), ("T1", "News"));
        }
        other => panic!("expected a status, got {:?}", other),
    }
    match one(r#"[{"T":"i","S":"A","p":9.75,"t":"x","z":"C"}]"#) {
        Ok(StockMsg::OrderImbalances(i)) => assert_eq!(f64::from_bits(i.price.bits), 9.75),
        other => panic!("expected an imbalance, got {:?}", other),
    }
}

#[test]
fn stock_integers_must_be_integers() {
    assert_eq!(
        one(r#"[{"T":"t","S":"A","i":1.5,"x":"D","p":1,"s":1,"c":[],"t":"x","z":"C"}]"#).err(),
        Some(DecodeError::InvalidField("i".to_string()))
    );
    assert_eq!(
        one(r#"[{"T":"t","S":"A","i":9223372036854775808,"x":"D","p":1,"s":1,"c":[],"t":"x","z":"C"}]"#).err(),
        Some(DecodeError::InvalidField("i".to_string()))
    );
    match one(r#"[{"T":"t","S":"A","i":-9223372036854775808,"x":"D","p":1,"s":9223372036854775807,"c":[],"t":"x","z":"C"}]"#) {
        Ok(StockMsg::Trade(t)) => {
            assert_eq!(t.trade_id, i64::MIN);
            assert_eq!(t.size, i64::MAX);
        }
        other => panic!("expected a trade, got {:?}", other),
    }
    assert_eq!(
        one(r#"[{"T":"t","S":"A","i":1,"x":"D","p":1,"s":1,"c":["@",7],"t":"x","z":"C"}]"#).err(),
        Some(DecodeError::InvalidField("c".to_string()))
    );
    assert_eq!(
        one(r#"[{"T":"t","S":"A","i":1,"x":"D","p":1,"s":1,"t":"x","z":"C"}]"#).err(),
        Some(DecodeError::MissingField("c".to_string()))
    );
}

#[test]
fn the_part_of_a_stock_message_in_the_handshake() {
    assert_eq!(one(r#"[{"T":"success","msg":"connected"}]"#).unwrap().role(), Role::Connected);
    assert_eq!(one(r#"[{"T":"success","msg":"authenticated"}]"#).unwrap().role(), Role::Authenticated);
    assert_eq!(one(r#"[{"T":"success","msg":"Authenticated"}]"#).unwrap().role(), Role::Data);
    assert_eq!(one(r#"[{"T":"success"}]"#).unwrap().role(), Role::Data);
    assert_eq!(
        one(r#"[{"T":"error","code":406,"msg":"connection limit exceeded"}]"#).unwrap().role(),
        Role::Rejected(Rejection { code: Some(406), msg: Some("connection limit exceeded".to_string()) })
    );
    assert_eq!(
        one(r#"[{"T":"error"}]"#).unwrap().role(),
        Role::Rejected(Rejection { code: None, msg: None })
    );
    assert_eq!(one(r#"[{"T":"subscription"}]"#).unwrap().role(), Role::Data);
}

#[test]
fn a_parsed_document_decodes_like_its_text() {
    let doc: serde_json::Value = serde_json::from_str(
        r#"[{"T":"i","S":"A","p":9.75,"t":"x","z":"C"},{"T":"i"},17]"#,
    )
    .unwrap();
    let items: Vec<Result<StockMsg, DecodeError>> = decode_document(&doc);
    assert_eq!(items.len(), 3);
    assert!(matches!(&items[0], Ok(StockMsg::OrderImbalances(i)) if i.symbol == "A"));
    assert_eq!(items[1].as_ref().err(), Some(&DecodeError::MissingField("S".to_string())));
    assert_eq!(items[2].as_ref().err(), Some(&DecodeError::MissingField("T".to_string())));
    let element = StockMsg::decode(&doc[0]);
    assert!(matches!(element, Ok(StockMsg::OrderImbalances(_))));
    let not_an_array: Vec<Result<StockMsg, DecodeError>> = decode_document(&doc[0]);
    assert_eq!(not_an_array.len(), 1);
    assert_eq!(not_an_array[0].as_ref().err(), Some(&DecodeError::NotAnArray));
}
