use rpaca::market_data::v2::crypto_websocket::{CryptoStreamParams, NumF64, StockMsg, Subscribe};
use rpaca::market_data::v2::decode::DecodeError;
use rpaca::market_data::v2::message::Rejection;
use rpaca::market_data::v2::session::{
    handshake_of_document, handshake_of_frame, relay_document, relay_frame, CloseReason, Command,
    Event, Frame, Handshake, Phase, Session, StreamError,
};

type Item = Result<StockMsg, StreamError>;

fn text(frame: &str) -> Event {
    Event::Frame(Frame::Text(frame.to_string()))
}

fn btc_session() -> Session {
    let mut subscription = Subscribe::new();
    subscription.trades = vec!["BTC/USD".to_string()];
    let params = CryptoStreamParams::new(subscription);
    Session::open(params.url(), "my-key", "my-secret", &params.subscription.action_json())
}

/// Drives a fresh session through a clean handshake into streaming.
fn streaming_session() -> Session {
    let mut session = btc_session();
    let _: Vec<Item> = session.step(Event::Connected);
    let _: Vec<Item> = session.step(Event::Sent);
    let _: Vec<Item> = session.step(text(r#"[{"T":"success","msg":"connected"}]"#));
    let _: Vec<Item> = session.step(text(r#"[{"T":"success","msg":"authenticated"}]"#));
    let _: Vec<Item> = session.step(Event::Sent);
    assert_eq!(session.phase(), Phase::Streaming);
    session
}

fn symbol_of(item: &Item) -> String {
    match item {
        Ok(StockMsg::Trade(t)) => t.symbol.clone(),
        Ok(StockMsg::Quote(q)) => q.symbol.clone(),
        other => panic!("neither trade nor quote: {:?}", other),
    }
}

const TRADE: &str =
    r#"[{"T":"t","S":"BTC/USD","p":50000.0,"s":0.1,"t":"2024-01-01T00:00:00Z","i":1,"tks":"B"}]"#;

#[test]
fn end_to_end_scenario_delivers_ack_then_trade() {
    let mut session = btc_session();
    assert_eq!(
        session.command(),
        Command::Connect("wss://stream.data.alpaca.markets/v1beta3/crypto/us".to_string())
    );
    let out: Vec<Item> = session.step(Event::Connected);
    assert!(out.is_empty());
    match session.command() {
        Command::Send(auth) => {
            let v: serde_json::Value = serde_json::from_str(&auth).unwrap();
            assert_eq!(v["action"], "auth");
            assert_eq!(v["key"], "my-key");
            assert_eq!(v["secret"], "my-secret");
            assert_eq!(v.as_object().unwrap().len(), 3);
        }
        other => panic!("expected the auth command, got {:?}", other),
    }
    let out: Vec<Item> = session.step(Event::Sent);
    assert!(out.is_empty());
    assert_eq!(session.command(), Command::Receive);

    let out: Vec<Item> = session.step(text(r#"[{"T":"success","msg":"connected"}]"#));
    assert!(out.is_empty());
    assert_eq!(session.phase(), Phase::Authenticating { sent: true });
    let out: Vec<Item> = session.step(text(r#"[{"T":"success","msg":"authenticated"}]"#));
    assert!(out.is_empty());
    assert_eq!(session.phase(), Phase::Subscribing);
    assert_eq!(
        session.command(),
        Command::Send(r#"{"action":"subscribe","trades":["BTC/USD"]}"#.to_string())
    );
    let out: Vec<Item> = session.step(Event::Sent);
    assert!(out.is_empty());
    assert_eq!(session.phase(), Phase::Streaming);
    assert_eq!(session.command(), Command::Receive);

    let out: Vec<Item> = session.step(text(r#"[{"T":"subscription","trades":["BTC/USD"]}]"#));
    assert_eq!(out.len(), 1);
    match &out[0] {
        Ok(StockMsg::Subscription(ack)) => {
            assert_eq!(ack.trades, vec!["BTC/USD".to_string()]);
            assert!(ack.quotes.is_empty());
            assert!(ack.orderbooks.is_empty());
        }
        other => panic!("expected an acknowledgement, got {:?}", other),
    }
    let out: Vec<Item> = session.step(text(TRADE));
    assert_eq!(out.len(), 1);
    match &out[0] {
        Ok(StockMsg::Trade(t)) => {
            assert_eq!(t.symbol, "BTC/USD");
            assert_eq!(f64::from_bits(t.price.bits), 50000.0);
            assert_eq!(f64::from_bits(t.size.bits), 0.1);
            assert_eq!(t.timestamp, "2024-01-01T00:00:00Z");
            assert!(matches!(t.trade_id, NumF64::I(1)));
            assert_eq!(t.taker_side, "B");
        }
        other => panic!("expected a trade, got {:?}", other),
    }
    assert_eq!(session.phase(), Phase::Streaming);
}

#[test]
fn frames_are_delivered_in_order() {
    let mut session = streaming_session();
    let first = r#"[{"T":"t","S":"A","p":1.0,"s":1.0,"t":"t1","i":1,"tks":"B"},
                    {"T":"q","S":"B","bp":1.0,"bs":1.0,"ap":2.0,"as":1.0,"t":"t2"}]"#;
    let second = r#"[{"T":"q","S":"C","bp":1.0,"bs":1.0,"ap":2.0,"as":1.0,"t":"t3"},
                     {"T":"t","S":"D","p":1.0,"s":1.0,"t":"t4","i":2,"tks":"S"}]"#;
    let mut seen: Vec<String> = Vec::new();
    let out: Vec<Item> = session.step(text(first));
    seen.extend(out.iter().map(symbol_of));
    let out: Vec<Item> = session.step(text(second));
    seen.extend(out.iter().map(symbol_of));
    assert_eq!(seen, vec!["A", "B", "C", "D"]);
}

#[test]
fn a_malformed_message_does_not_drop_its_neighbours() {
    let mut session = streaming_session();
    let frame = r#"[{"T":"t","S":"A","p":1.0,"s":1.0,"t":"t1","i":1,"tks":"B"},
                    {"T":"t","S":"B","p":"dear","s":1.0,"t":"t1","i":1,"tks":"B"},
                    {"T":"zz","S":"C"},
                    {"T":"q","S":"D","bp":1.0,"bs":1.0,"ap":2.0,"as":1.0,"t":"t2"}]"#;
    let out: Vec<Item> = session.step(text(frame));
    assert_eq!(out.len(), 4);
    assert_eq!(symbol_of(&out[0]), "A");
    assert_eq!(
        out[1].as_ref().err(),
        Some(&StreamError::Decode(DecodeError::InvalidField("p".to_string())))
    );
    assert_eq!(
        out[2].as_ref().err(),
        Some(&StreamError::Decode(DecodeError::UnknownTag("zz".to_string())))
    );
    assert_eq!(symbol_of(&out[3]), "D");
    assert_eq!(session.phase(), Phase::Streaming);
    assert_eq!(session.command(), Command::Receive);
}

#[test]
fn a_frame_that_is_no_json_yields_one_error_and_the_stream_goes_on() {
    let mut session = streaming_session();
    let out: Vec<Item> = session.step(text("not json"));
    assert_eq!(out.len(), 1);
    assert_eq!(out[0].as_ref().err(), Some(&StreamError::Decode(DecodeError::InvalidJson)));
    let out: Vec<Item> = session.step(text(r#"{"T":"t"}"#));
    assert_eq!(out.len(), 1);
    assert_eq!(out[0].as_ref().err(), Some(&StreamError::Decode(DecodeError::NotAnArray)));
    assert_eq!(session.phase(), Phase::Streaming);
    let out: Vec<Item> = session.step(text(TRADE));
    assert_eq!(symbol_of(&out[0]), "BTC/USD");
}

#[test]
fn frames_without_text_are_passed_over() {
    let mut session = streaming_session();
    let out: Vec<Item> = session.step(Event::Frame(Frame::Other));
    assert!(out.is_empty());
    let out: Vec<Item> = session.step(text(""));
    assert!(out.is_empty());
    let out: Vec<Item> = session.step(text("[]"));
    assert!(out.is_empty());
    assert_eq!(session.phase(), Phase::Streaming);
    assert_eq!(session.command(), Command::Receive);
}

#[test]
fn reconnect_replays_the_handshake_and_streams_again() {
    let mut session = streaming_session();
    let out: Vec<Item> = session.step(text(TRADE));
    assert_eq!(out.len(), 1);

    let out: Vec<Item> = session.step(Event::Frame(Frame::Close));
    assert_eq!(out.len(), 1);
    assert_eq!(out[0].as_ref().err(), Some(&StreamError::RemoteClosed));
    assert_eq!(
        session.phase(),
        Phase::Closed { reason: CloseReason::RemoteClosed, delay_ms: 250 }
    );
    assert_eq!(session.command(), Command::Sleep(250));

    let out: Vec<Item> = session.step(Event::Woke);
    assert!(out.is_empty());
    assert_eq!(
        session.command(),
        Command::Connect("wss://stream.data.alpaca.markets/v1beta3/crypto/us".to_string())
    );
    let _: Vec<Item> = session.step(Event::Connected);
    assert!(matches!(session.command(), Command::Send(_)));
    let _: Vec<Item> = session.step(Event::Sent);
    let out: Vec<Item> = session.step(text(
        r#"[{"T":"success","msg":"connected"},{"T":"success","msg":"authenticated"}]"#,
    ));
    assert!(out.is_empty());
    assert_eq!(
        session.command(),
        Command::Send(r#"{"action":"subscribe","trades":["BTC/USD"]}"#.to_string())
    );
    let _: Vec<Item> = session.step(Event::Sent);
    assert_eq!(session.phase(), Phase::Streaming);
    assert_eq!(session.attempt(), 0);
    let out: Vec<Item> = session.step(text(TRADE));
    assert_eq!(symbol_of(&out[0]), "BTC/USD");
    let quote = r#"[{"T":"q","S":"BTC/USD","bp":1.0,"bs":1.0,"ap":2.0,"as":1.0,"t":"t2"}]"#;
    let out: Vec<Item> = session.step(text(quote));
    assert_eq!(symbol_of(&out[0]), "BTC/USD");
}

#[test]
fn consecutive_failures_back_off_up_to_sixteen_seconds() {
    let mut session = btc_session();
    let mut delays: Vec<u64> = Vec::new();
    for _ in 0..8 {
        let out: Vec<Item> = session.step(Event::ConnectFailed("refused".to_string()));
        assert_eq!(out.len(), 1);
        assert_eq!(
            out[0].as_ref().err(),
            Some(&StreamError::Connect("refused".to_string()))
        );
        match session.command() {
            Command::Sleep(ms) => delays.push(ms),
            other => panic!("expected a wait, got {:?}", other),
        }
        let _: Vec<Item> = session.step(Event::Woke);
        assert_eq!(session.phase(), Phase::Connecting);
    }
    assert_eq!(delays, vec![250, 500, 1000, 2000, 4000, 8000, 16000, 16000]);
    assert_eq!(session.attempt(), 8);
}

#[test]
fn streaming_resets_the_backoff() {
    let mut session = btc_session();
    for _ in 0..3 {
        let _: Vec<Item> = session.step(Event::ConnectFailed("refused".to_string()));
        let _: Vec<Item> = session.step(Event::Woke);
    }
    assert_eq!(session.attempt(), 3);
    let _: Vec<Item> = session.step(Event::Connected);
    let _: Vec<Item> = session.step(Event::Sent);
    let _: Vec<Item> = session.step(text(r#"[{"T":"success","msg":"authenticated"}]"#));
    assert_eq!(session.attempt(), 3);
    let _: Vec<Item> = session.step(Event::Sent);
    assert_eq!(session.phase(), Phase::Streaming);
    assert_eq!(session.attempt(), 0);
    let _: Vec<Item> = session.step(Event::ReadFailed("reset by peer".to_string()));
    assert_eq!(session.command(), Command::Sleep(250));
}

#[test]
fn a_refused_handshake_is_reported_and_retried() {
    let mut session = btc_session();
    let _: Vec<Item> = session.step(Event::Connected);
    let _: Vec<Item> = session.step(Event::Sent);
    let out: Vec<Item> = session.step(text(
        r#"[{"T":"success","msg":"connected"},{"T":"error","code":402,"msg":"auth failed"},{"T":"success","msg":"authenticated"}]"#,
    ));
    assert_eq!(out.len(), 1);
    assert_eq!(
        out[0].as_ref().err(),
        Some(&StreamError::Handshake(Rejection {
            code: Some(402),
            msg: Some("auth failed".to_string())
        }))
    );
    assert_eq!(
        session.phase(),
        Phase::Closed { reason: CloseReason::AuthFailed, delay_ms: 250 }
    );
    let _: Vec<Item> = session.step(Event::Woke);
    let _: Vec<Item> = session.step(Event::Connected);
    let _: Vec<Item> = session.step(Event::Sent);
    let out: Vec<Item> = session.step(text(r#"[{"T":"error","code":402,"msg":"auth failed"}]"#));
    assert_eq!(out.len(), 1);
    assert_eq!(session.command(), Command::Sleep(500));
}

#[test]
fn data_during_the_handshake_is_forwarded() {
    let mut session = btc_session();
    let _: Vec<Item> = session.step(Event::Connected);
    let _: Vec<Item> = session.step(Event::Sent);
    let frame = r#"[{"T":"success","msg":"connected"},
                    {"T":"t","S":"BTC/USD","p":1.5,"s":2,"t":"now","i":"7","tks":"S"},
                    {"T":"success","msg":"something else"}]"#;
    let out: Vec<Item> = session.step(text(frame));
    assert_eq!(out.len(), 2);
    match &out[0] {
        Ok(StockMsg::Trade(t)) => {
            assert_eq!(f64::from_bits(t.size.bits), 2.0);
            assert!(matches!(&t.trade_id, NumF64::S(s) if s == "7"));
        }
        other => panic!("expected a trade, got {:?}", other),
    }
    assert!(matches!(&out[1], Ok(StockMsg::Success(s)) if s.msg.as_deref() == Some("something else")));
    assert_eq!(session.phase(), Phase::Authenticating { sent: true });
    assert_eq!(session.command(), Command::Receive);
}

#[test]
fn a_frame_that_does_not_decode_ends_the_handshake() {
    let mut session = btc_session();
    let _: Vec<Item> = session.step(Event::Connected);
    let _: Vec<Item> = session.step(Event::Sent);
    let out: Vec<Item> = session.step(text("{"));
    assert_eq!(out.len(), 1);
    assert_eq!(
        out[0].as_ref().err(),
        Some(&StreamError::DecodeDuringAuth(DecodeError::InvalidJson))
    );
    assert_eq!(
        session.phase(),
        Phase::Closed { reason: CloseReason::DecodeFailed, delay_ms: 250 }
    );
}

#[test]
fn every_failure_names_its_cause() {
    let mut session = btc_session();
    let _: Vec<Item> = session.step(Event::Connected);
    let out: Vec<Item> = session.step(Event::SendFailed("broken pipe".to_string()));
    assert_eq!(out[0].as_ref().err(), Some(&StreamError::SendAuth("broken pipe".to_string())));
    assert_eq!(session.phase(), Phase::Closed { reason: CloseReason::SendFailed, delay_ms: 250 });

    let _: Vec<Item> = session.step(Event::Woke);
    let _: Vec<Item> = session.step(Event::Connected);
    let _: Vec<Item> = session.step(Event::Sent);
    let out: Vec<Item> = session.step(Event::ReadFailed("timed out".to_string()));
    assert_eq!(
        out[0].as_ref().err(),
        Some(&StreamError::ReadDuringAuth("timed out".to_string()))
    );
    assert_eq!(session.phase(), Phase::Closed { reason: CloseReason::ReadFailed, delay_ms: 500 });

    let _: Vec<Item> = session.step(Event::Woke);
    let _: Vec<Item> = session.step(Event::Connected);
    let _: Vec<Item> = session.step(Event::Sent);
    let out: Vec<Item> = session.step(Event::Ended);
    assert_eq!(out[0].as_ref().err(), Some(&StreamError::RemoteClosed));
    assert_eq!(
        session.phase(),
        Phase::Closed { reason: CloseReason::RemoteClosed, delay_ms: 1000 }
    );

    let _: Vec<Item> = session.step(Event::Woke);
    let _: Vec<Item> = session.step(Event::Connected);
    let _: Vec<Item> = session.step(Event::Sent);
    let _: Vec<Item> = session.step(text(r#"[{"T":"success","msg":"authenticated"}]"#));
    let out: Vec<Item> = session.step(Event::SendFailed("broken pipe".to_string()));
    assert_eq!(
        out[0].as_ref().err(),
        Some(&StreamError::SendSubscribe("broken pipe".to_string()))
    );
    assert_eq!(session.command(), Command::Sleep(2000));

    let mut session = streaming_session();
    let out: Vec<Item> = session.step(Event::ReadFailed("reset".to_string()));
    assert_eq!(out[0].as_ref().err(), Some(&StreamError::Read("reset".to_string())));
}

#[test]
fn a_consumer_that_goes_away_stops_the_session_for_good() {
    let mut session = streaming_session();
    let out: Vec<Item> = session.step(Event::ConsumerGone);
    assert!(out.is_empty());
    assert_eq!(session.phase(), Phase::Stopped);
    assert_eq!(session.command(), Command::Stop);
    let out: Vec<Item> = session.step(text(TRADE));
    assert!(out.is_empty());
    let out: Vec<Item> = session.step(Event::Woke);
    assert!(out.is_empty());
    assert_eq!(session.phase(), Phase::Stopped);
}

#[test]
fn an_event_nobody_waits_for_changes_nothing() {
    let mut session = btc_session();
    let out: Vec<Item> = session.step(text(TRADE));
    assert!(out.is_empty());
    let out: Vec<Item> = session.step(Event::Sent);
    assert!(out.is_empty());
    assert_eq!(session.phase(), Phase::Connecting);
    let mut session = streaming_session();
    let out: Vec<Item> = session.step(Event::Connected);
    assert!(out.is_empty());
    assert_eq!(session.phase(), Phase::Streaming);
}

#[test]
fn a_handshake_over_a_parsed_frame() {
    let doc: serde_json::Value = serde_json::from_str(
        r#"[{"T":"success","msg":"connected"},{"T":"q","S":"X","bp":1,"bs":1,"ap":2,"as":1,"t":"t"},{"T":"success","msg":"authenticated"}]"#,
    )
    .unwrap();
    let h: Handshake<StockMsg> = handshake_of_document(&doc);
    assert!(h.authed);
    assert_eq!(h.failed, None);
    assert_eq!(h.emitted.len(), 1);
    assert_eq!(symbol_of(&h.emitted[0]), "X");

    let h: Handshake<StockMsg> = handshake_of_document(&doc[0]);
    assert!(!h.authed);
    assert_eq!(h.failed, Some(CloseReason::DecodeFailed));
    assert_eq!(
        h.emitted[0].as_ref().err(),
        Some(&StreamError::DecodeDuringAuth(DecodeError::NotAnArray))
    );

    let h: Handshake<StockMsg> = handshake_of_frame(
        r#"[{"T":"success","msg":"authenticated"},{"T":"error","code":1},{"T":"q","S":"X","bp":1,"bs":1,"ap":2,"as":1,"t":"t"}]"#,
    );
    assert!(h.authed);
    assert_eq!(h.failed, Some(CloseReason::AuthFailed));
    assert_eq!(h.emitted.len(), 1);
    assert_eq!(
        h.emitted[0].as_ref().err(),
        Some(&StreamError::Handshake(Rejection { code: Some(1), msg: None }))
    );

    let h: Handshake<StockMsg> = handshake_of_frame("[]");
    assert!(!h.authed && h.failed.is_none() && h.emitted.is_empty());
}

#[test]
fn relaying_a_parsed_frame() {
    let doc: serde_json::Value = serde_json::from_str(
        r#"[{"T":"success","msg":"connected"},{"T":"q"},{"T":"q","S":"X","bp":1,"bs":1,"ap":2,"as":1,"t":"t"}]"#,
    )
    .unwrap();
    let out: Vec<Item> = relay_document(&doc);
    assert_eq!(out.len(), 3);
    assert!(matches!(&out[0], Ok(StockMsg::Success(_))));
    assert_eq!(
        out[1].as_ref().err(),
        Some(&StreamError::Decode(DecodeError::MissingField("S".to_string())))
    );
    assert_eq!(symbol_of(&out[2]), "X");
    let out: Vec<Item> = relay_document(&doc[2]);
    assert_eq!(out.len(), 1);
    assert_eq!(out[0].as_ref().err(), Some(&StreamError::Decode(DecodeError::NotAnArray)));
    let out: Vec<Item> = relay_frame("nonsense");
    assert_eq!(out[0].as_ref().err(), Some(&StreamError::Decode(DecodeError::InvalidJson)));
}

#[test]
fn a_refused_connection_is_closed_for_that_reason() {
    let mut session = btc_session();
    let _: Vec<Item> = session.step(Event::ConnectFailed("no route".to_string()));
    assert_eq!(
        session.phase(),
        Phase::Closed { reason: CloseReason::ConnectFailed, delay_ms: 250 }
    );
    assert_eq!(session.attempt(), 1);
}
