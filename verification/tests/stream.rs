use libaegis::{
    AegisError, AggTrade, BookDepth, DataStream, Decoders, HandshakeResponse, Kline, LineRead,
    MarketData, Metrics, Opening, OpeningAction, OpeningEvent, OrderBook, PayloadKind, PriceLevel,
    RawEnvelope, StreamMessage, Trade,
};
use serde_json::Value;

fn step(o: &mut Opening, event: OpeningEvent) -> OpeningAction {
    assert!(o.accepts(&event));
    o.step(event)
}

fn opening() -> Opening {
    DataStream::connect("/tmp/data.sock", "cmp-1", "sess-1")
}

/// An opening that waits for the server's answer.
fn waiting() -> Opening {
    let mut o = opening();
    step(&mut o, OpeningEvent::Connected);
    step(&mut o, OpeningEvent::Sent);
    o
}

fn refused(action: OpeningAction) -> AegisError {
    match action {
        OpeningAction::Finish(Err(e)) => e,
        _ => panic!("no error"),
    }
}

fn answer(status: &str, message: Option<&str>, topics: Option<Vec<&str>>) -> OpeningEvent {
    OpeningEvent::Answered(Ok(HandshakeResponse {
        status: status.to_string(),
        message: message.map(|m| m.to_string()),
        topics: topics.map(|t| t.iter().map(|s| s.to_string()).collect()),
    }))
}

#[test]
fn the_handshake_in_order() {
    let mut o = opening();
    match step(&mut o, OpeningEvent::Connected) {
        OpeningAction::Greet(h) => {
            assert_eq!(h.component_id, "cmp-1");
            assert_eq!(h.session_token, "sess-1");
        }
        _ => panic!("no greeting"),
    }
    let a = step(&mut o, OpeningEvent::Sent);
    assert!(matches!(a, OpeningAction::Receive { deadline_secs: 3 }));
    match step(&mut o, answer("ok", None, Some(vec!["a", "b"]))) {
        OpeningAction::Finish(Ok(stream)) => assert_eq!(stream.topics, vec!["a", "b"]),
        _ => panic!("not open"),
    }
    assert!(!o.accepts(&OpeningEvent::Sent));
}

#[test]
fn an_answer_without_topics() {
    match step(&mut waiting(), answer("ok", None, None)) {
        OpeningAction::Finish(Ok(stream)) => assert!(stream.topics.is_empty()),
        _ => panic!("not open"),
    }
}

#[test]
fn a_rejected_handshake() {
    assert_eq!(
        refused(step(&mut waiting(), answer("error", Some("who?"), None))),
        AegisError::Connection("data stream handshake rejected: who?".to_string())
    );
    assert_eq!(
        refused(step(&mut waiting(), answer("OK", None, None))),
        AegisError::Connection("data stream handshake rejected: no message".to_string())
    );
}

#[test]
fn openings_that_fail() {
    assert_eq!(
        refused(step(&mut opening(), OpeningEvent::ConnectFailed("refused".to_string()))),
        AegisError::Connection("data stream connect /tmp/data.sock: refused".to_string())
    );
    let mut o = opening();
    step(&mut o, OpeningEvent::Connected);
    let broken = AegisError::Io("broken pipe".to_string());
    assert_eq!(refused(step(&mut o, OpeningEvent::SendFailed(broken.clone()))), broken);
    assert_eq!(refused(step(&mut waiting(), OpeningEvent::TimedOut)), AegisError::Timeout);
    assert_eq!(
        refused(step(&mut waiting(), OpeningEvent::ReadFailed("reset".to_string()))),
        AegisError::Io("reset".to_string())
    );
    assert_eq!(
        refused(step(&mut waiting(), OpeningEvent::Answered(Err("EOF".to_string())))),
        AegisError::Connection("handshake response parse: EOF".to_string())
    );
}

fn stream() -> DataStream {
    DataStream { topics: vec![] }
}

fn line(topic: &str, data: Value) -> LineRead<RawEnvelope> {
    LineRead::Line {
        bytes: 10,
        parsed: Ok(RawEnvelope {
            session_id: "sess-1".to_string(),
            topic: topic.to_string(),
            ts: 1234,
            data,
        }),
    }
}

fn price(v: &Value, key: &str) -> Result<f64, String> {
    v.get(key).and_then(|x| x.as_f64()).ok_or_else(|| format!("missing field `{key}`"))
}

fn no<T>(_: Value) -> Result<T, String> {
    Err("unexpected parser".to_string())
}

/// Parsers of which only the one for trades works.
fn trades() -> Decoders<
    fn(Value) -> Result<AggTrade<f64>, String>,
    fn(Value) -> Result<Trade<f64>, String>,
    fn(Value) -> Result<Kline<f64>, String>,
    fn(Value) -> Result<OrderBook<f64>, String>,
    fn(Value) -> Result<BookDepth<f64>, String>,
    fn(Value) -> Result<Metrics<f64>, String>,
> {
    fn trade(v: Value) -> Result<Trade<f64>, String> {
        Ok(Trade {
            id: 7,
            price: price(&v, "price")?,
            qty: price(&v, "qty")?,
            quote_qty: 0.0,
            time: 99,
            is_buyer_maker: true,
        })
    }
    Decoders {
        agg_trade: no,
        trade,
        kline: no,
        order_book: no,
        book_depth: no,
        metrics: no,
    }
}

fn object(text: &str) -> Value {
    serde_json::from_str(text).unwrap()
}

#[test]
fn the_next_message() {
    let msg = stream().next(line("aegis.s.trades.X", object("{\"price\":1.5}"))).unwrap();
    assert_eq!(msg.session_id, "sess-1");
    assert_eq!(msg.topic, "aegis.s.trades.X");
    assert_eq!(msg.ts, 1234);
    assert_eq!(msg.data, object("{\"price\":1.5}"));
    assert_eq!(msg.topic_parts().unwrap().symbol, "X");
}

#[test]
fn reads_without_a_message() {
    assert_eq!(
        stream().next(LineRead::Failed("reset".to_string())).unwrap_err(),
        AegisError::Io("reset".to_string())
    );
    assert_eq!(
        stream().next(LineRead::Line { bytes: 0, parsed: Err("EOF".to_string()) }).unwrap_err(),
        AegisError::Connection("data stream closed by server".to_string())
    );
    assert_eq!(
        stream().next(LineRead::Line { bytes: 3, parsed: Err("bad".to_string()) }).unwrap_err(),
        AegisError::Json("bad".to_string())
    );
    assert_eq!(
        stream().next(line("", Value::Null)).unwrap_err(),
        AegisError::Connection("received empty topic in frame".to_string())
    );
}

#[test]
fn kinds_of_payload() {
    assert_eq!(PayloadKind::of("aggTrades"), PayloadKind::AggTrade);
    assert_eq!(PayloadKind::of("trades"), PayloadKind::Trade);
    assert_eq!(PayloadKind::of("klines"), PayloadKind::Kline);
    assert_eq!(PayloadKind::of("orderBook"), PayloadKind::OrderBook);
    assert_eq!(PayloadKind::of("bookDepth"), PayloadKind::BookDepth);
    assert_eq!(PayloadKind::of("metrics"), PayloadKind::Metrics);
    assert_eq!(PayloadKind::of("Trades"), PayloadKind::Unknown);
    assert_eq!(PayloadKind::of(""), PayloadKind::Unknown);
}

#[test]
fn payloads_are_decoded_by_their_type() {
    let read = line("aegis.s.trades.X", object("{\"price\":1.5,\"qty\":2.0}"));
    let (msg, data) = stream().next_parsed(read, trades()).unwrap();
    assert_eq!(msg.ts, 1234);
    match data {
        MarketData::Trade(t) => {
            assert_eq!(t.price, 1.5);
            assert_eq!(t.qty, 2.0);
        }
        _ => panic!("no trade"),
    }
    for topic in ["aggTrades", "klines", "orderBook", "bookDepth", "metrics"] {
        let read = line(&format!("aegis.s.{topic}.X"), Value::Null);
        assert_eq!(
            stream().next_parsed(read, trades()).unwrap_err(),
            AegisError::Json("unexpected parser".to_string())
        );
    }
}

#[test]
fn payloads_of_another_form_are_errors() {
    let read = line("aegis.s.trades.X", object("{\"price\":1.5}"));
    assert_eq!(
        stream().next_parsed(read, trades()).unwrap_err(),
        AegisError::Json("missing field `qty`".to_string())
    );
}

#[test]
fn unknown_data_types_are_handed_on() {
    let read = line("aegis.s.funding.X.8h", object("{\"rate\":[1,2]}"));
    let (msg, data) = stream().next_parsed(read, trades()).unwrap();
    match data {
        MarketData::Unknown { data_type, payload } => {
            assert_eq!(data_type, "funding");
            assert_eq!(payload, object("{\"rate\":[1,2]}"));
        }
        _ => panic!("known"),
    }
    assert_eq!(msg.data, object("{\"rate\":[1,2]}"));
}

#[test]
fn topics_that_cannot_be_parsed() {
    let msg = StreamMessage {
        session_id: String::new(),
        topic: "aegis.s.trades".to_string(),
        ts: 0,
        data: Value::Null,
    };
    assert!(msg.topic_parts().is_none());
    assert_eq!(
        msg.parse(trades()).unwrap_err(),
        AegisError::Connection("unparseable topic: aegis.s.trades".to_string())
    );
    assert_eq!(
        stream().next_parsed(line("nonsense", Value::Null), trades()).unwrap_err(),
        AegisError::Connection("unparseable topic: nonsense".to_string())
    );
    let foreign = StreamMessage { topic: "nats.s1.trades.BTCUSDT".to_string(), ..msg };
    assert!(foreign.topic_parts().is_none());
    assert_eq!(
        foreign.parse(trades()).unwrap_err(),
        AegisError::Connection("unparseable topic: nats.s1.trades.BTCUSDT".to_string())
    );
}

#[test]
fn decoding_goes_by_type_and_payload() {
    for topic in ["aegis.s.trades.X", "aegis.other.trades.Y.1m"] {
        let msg = StreamMessage {
            session_id: topic.to_string(),
            topic: topic.to_string(),
            ts: topic.len() as i64,
            data: object("{\"price\":1.5,\"qty\":2.0}"),
        };
        for _ in 0..2 {
            match msg.parse(trades()).unwrap() {
                MarketData::Trade(t) => {
                    assert_eq!(t.price, 1.5);
                    assert_eq!(t.qty, 2.0);
                    assert_eq!(t.id, 7);
                }
                _ => panic!("no trade"),
            }
        }
    }
}

fn agg_trade(event_time: i64) -> AggTrade<f64> {
    AggTrade {
        event_time,
        symbol: String::new(),
        agg_trade_id: 1,
        price: 1.0,
        quantity: 1.0,
        normal_qty: 0.0,
        first_trade_id: 1,
        last_trade_id: 1,
        transact_time: 5,
        is_buyer_maker: false,
    }
}

#[test]
fn realtime_rows_have_an_event_time() {
    assert!(agg_trade(1).is_realtime());
    assert!(agg_trade(-1).is_realtime());
    assert!(!agg_trade(0).is_realtime());
}

fn book(event_time: i64, bids: Vec<f64>, asks: Vec<f64>) -> OrderBook<f64> {
    let level = |p: &f64| PriceLevel { price: *p, quantity: 1.0 };
    OrderBook {
        last_update_id: 3,
        event_time,
        bids: bids.iter().map(level).collect(),
        asks: asks.iter().map(level).collect(),
    }
}

#[test]
fn real_timestamps_are_large() {
    assert!(!book(1_000_000_000_000, vec![], vec![]).has_real_timestamp());
    assert!(book(1_000_000_000_001, vec![], vec![]).has_real_timestamp());
}

#[test]
fn best_levels_and_mid_price() {
    let above = |a: &f64, b: &f64| a > b;
    let mid = |b: &f64, a: &f64| (b + a) / 2.0;
    let b = book(0, vec![10.0, 9.0], vec![11.0, 12.0]);
    assert_eq!(b.best_bid(above).unwrap().price, 10.0);
    assert_eq!(b.best_ask(above).unwrap().price, 11.0);
    assert_eq!(b.mid_price(above, mid), Some(10.5));
    assert_eq!(book(0, vec![], vec![11.0]).mid_price(above, mid), None);
    assert_eq!(book(0, vec![10.0], vec![]).mid_price(above, mid), None);
    assert!(book(0, vec![], vec![]).best_bid(above).is_none());
    assert!(book(0, vec![], vec![]).best_ask(above).is_none());
}

#[test]
fn best_levels_need_not_come_first() {
    let above = |a: &f64, b: &f64| a > b;
    let mid = |b: &f64, a: &f64| (b + a) / 2.0;
    let b = book(0, vec![1.0, 2.0], vec![2.0, 1.0]);
    assert_eq!(b.best_bid(above).unwrap().price, 2.0);
    assert_eq!(b.best_ask(above).unwrap().price, 1.0);
    assert_eq!(b.mid_price(above, mid), Some(1.5));

    let b = book(0, vec![7.0, 9.0, 8.0, 3.0], vec![14.0, 13.0, 11.0, 12.0]);
    assert_eq!(b.best_bid(above).unwrap().price, 9.0);
    assert_eq!(b.best_ask(above).unwrap().price, 11.0);
    assert_eq!(b.mid_price(above, mid), Some(10.0));
}

#[test]
fn the_first_of_equal_levels_is_best() {
    let above = |a: &u64, b: &u64| a > b;
    let level = |price: u64, quantity: u64| PriceLevel { price, quantity };
    let b = OrderBook {
        last_update_id: 0,
        event_time: 0,
        bids: vec![level(4, 1), level(5, 2), level(5, 3)],
        asks: vec![level(8, 1), level(6, 2), level(6, 3)],
    };
    assert_eq!(b.best_bid(above).unwrap().quantity, 2);
    assert_eq!(b.best_ask(above).unwrap().quantity, 2);
}
