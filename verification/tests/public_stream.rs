use pacifica::binary64::{Binary64, NumericText};
use pacifica::json::print_json;
use pacifica::msg::{
    Bbo, BboFrame, Book, BookFrame, BookLevel, ChannelFrame, Trade, TradesFrame,
};
use pacifica::public_stream::{
    connect_failed, map_public_message, public_channel, send_failed, PublicChannel, PublicInput,
    PublicMessage, PublicOutput, PublicStream, PublicStreamError,
};
use pacifica::symbols::SymbolSet;
use pacifica::types::{
    LiveEvent, LOCAL_ASK_DEPTH_BBO_EVENT, LOCAL_ASK_DEPTH_EVENT, LOCAL_BID_DEPTH_BBO_EVENT,
    LOCAL_BID_DEPTH_EVENT, LOCAL_BUY_TRADE_EVENT, LOCAL_SELL_TRADE_EVENT,
};

fn number(value: f64) -> Binary64 {
    Binary64 { bits: value.to_bits() }
}

fn numeric(value: &serde_json::Value) -> NumericText {
    let text = value.as_str().unwrap();
    NumericText { text: text.to_string(), value: text.parse::<f64>().ok().map(number) }
}

fn text_of(value: &serde_json::Value) -> String {
    value.as_str().unwrap().to_string()
}

fn read(text: &str) -> PublicMessage {
    let unread = || "not read".to_string();
    let value: serde_json::Value = match serde_json::from_str(text) {
        Ok(value) => value,
        Err(error) => {
            return PublicMessage {
                channel: Err(error.to_string()),
                bbo: Err(unread()),
                book: Err(unread()),
                trades: Err(unread()),
            };
        }
    };
    let channel = text_of(&value["channel"]);
    let data = &value["data"];
    let bbo = match public_channel(&channel) {
        PublicChannel::Bbo => Ok(BboFrame {
            data: Bbo {
                symbol: text_of(&data["s"]),
                bid_px: numeric(&data["b"]),
                bid_qty: numeric(&data["B"]),
                ask_px: numeric(&data["a"]),
                ask_qty: numeric(&data["A"]),
                timestamp_ms: data["t"].as_i64().unwrap(),
                last_increment_id: data["li"].as_i64(),
            },
        }),
        _ => Err(unread()),
    };
    let book = match public_channel(&channel) {
        PublicChannel::Book => Ok(BookFrame {
            data: Book {
                symbol: text_of(&data["s"]),
                levels: data["l"]
                    .as_array()
                    .unwrap()
                    .iter()
                    .map(|side| {
                        side.as_array()
                            .unwrap()
                            .iter()
                            .map(|level| BookLevel {
                                price: numeric(&level["p"]),
                                amount: numeric(&level["a"]),
                            })
                            .collect()
                    })
                    .collect(),
                timestamp_ms: data["t"].as_i64().unwrap(),
                last_increment_id: data["li"].as_i64(),
            },
        }),
        _ => Err(unread()),
    };
    let trades = match public_channel(&channel) {
        PublicChannel::Trades => Ok(TradesFrame {
            data: data
                .as_array()
                .unwrap()
                .iter()
                .map(|trade| Trade {
                    symbol: text_of(&trade["s"]),
                    price: numeric(&trade["p"]),
                    amount: numeric(&trade["a"]),
                    direction: text_of(&trade["d"]),
                    timestamp_ms: trade["t"].as_i64().unwrap(),
                    last_increment_id: trade["li"].as_i64(),
                })
                .collect(),
        }),
        _ => Err(unread()),
    };
    PublicMessage { channel: Ok(ChannelFrame { channel }), bbo, book, trades }
}

const BBO: &str = r#"{"channel":"bbo","data":{"s":"BTC","b":"63440.5","B":"0.25","a":"63441","A":"1.5","t":1780919672151,"li":336542010}}"#;

#[test]
fn best_prices_become_two_events() {
    let events = map_public_message(&read(BBO), 123).unwrap();

    assert_eq!(events.len(), 2);
    assert_eq!(events[0].symbol, "BTC");
    assert_eq!(events[0].event.ev, LOCAL_BID_DEPTH_BBO_EVENT);
    assert_eq!(events[0].event.exch_ts, 1_780_919_672_151_000_000);
    assert_eq!(events[0].event.local_ts, 123);
    assert_eq!(events[0].event.px, number(63440.5));
    assert_eq!(events[0].event.qty, number(0.25));
    assert_eq!(events[0].event.ival, 336542010);
    assert_eq!(events[0].event.order_id, 0);
    assert_eq!(events[1].event.ev, LOCAL_ASK_DEPTH_BBO_EVENT);
    assert_eq!(events[1].event.px, number(63441.0));
    assert_eq!(events[1].event.qty, number(1.5));
}

#[test]
fn book_levels_become_bids_then_asks() {
    let events = map_public_message(
        &read(
            r#"{"channel":"book","data":{"s":"BTC","l":[[{"p":"100","a":"1"},{"p":"99","a":"2"}],[{"p":"101","a":"3"}]],"t":7,"li":8}}"#,
        ),
        456,
    )
    .unwrap();

    assert_eq!(events.len(), 3);
    assert_eq!(events[0].event.ev, LOCAL_BID_DEPTH_EVENT);
    assert_eq!(events[0].event.exch_ts, 7_000_000);
    assert_eq!(events[0].event.ival, 8);
    assert_eq!(events[1].event.px, number(99.0));
    assert_eq!(events[1].event.qty, number(2.0));
    assert_eq!(events[2].event.ev, LOCAL_ASK_DEPTH_EVENT);
    assert_eq!(events[2].event.px, number(101.0));
    assert_eq!(events[2].event.qty, number(3.0));
}

#[test]
fn trades_tell_who_started_them() {
    for (direction, ev) in [
        ("open_long", LOCAL_BUY_TRADE_EVENT),
        ("close_short", LOCAL_BUY_TRADE_EVENT),
        ("buy", LOCAL_BUY_TRADE_EVENT),
        ("bid", LOCAL_BUY_TRADE_EVENT),
        ("open_short", LOCAL_SELL_TRADE_EVENT),
        ("close_long", LOCAL_SELL_TRADE_EVENT),
        ("sell", LOCAL_SELL_TRADE_EVENT),
        ("ask", LOCAL_SELL_TRADE_EVENT),
    ] {
        let text = format!(
            r#"{{"channel":"trades","data":[{{"s":"BTC","p":"10","a":"0.5","d":"{direction}","t":3}}]}}"#
        );
        let events = map_public_message(&read(&text), 789).unwrap();
        assert_eq!(events.len(), 1);
        assert_eq!(events[0].event.ev, ev);
        assert_eq!(events[0].event.exch_ts, 3_000_000);
        assert_eq!(events[0].event.local_ts, 789);
        assert_eq!(events[0].event.px, number(10.0));
        assert_eq!(events[0].event.qty, number(0.5));
        assert_eq!(events[0].event.ival, 0);
    }
}

#[test]
fn first_fault_of_a_message_counts() {
    let message = |text: &str| map_public_message(&read(text), 0).unwrap_err().message();

    assert_eq!(
        message(r#"{"channel":"bbo","data":{"s":"BTC","b":"1","B":"x","a":"y","A":"1","t":1}}"#),
        "invalid numeric field bid_qty: x"
    );
    assert_eq!(
        message(r#"{"channel":"bbo","data":{"s":"BTC","b":"1","B":"1","a":"y","A":"z","t":1}}"#),
        "invalid numeric field ask_px: y"
    );
    assert_eq!(
        message(r#"{"channel":"book","data":{"s":"BTC","l":[[]],"t":1}}"#),
        "book frame must include bid and ask level arrays"
    );
    assert_eq!(
        message(
            r#"{"channel":"book","data":{"s":"BTC","l":[[{"p":"1","a":"1"}],[{"p":"1","a":""}]],"t":1}}"#
        ),
        "invalid numeric field ask_qty: "
    );
    assert_eq!(
        message(
            r#"{"channel":"trades","data":[{"s":"BTC","p":"1","a":"1","d":"buy","t":1},{"s":"BTC","p":"x","a":"1","d":"up","t":1}]}"#
        ),
        "unsupported trade direction: up"
    );
    assert_eq!(
        message(r#"{"channel":"trades","data":[{"s":"BTC","p":"x","a":"1","d":"buy","t":1}]}"#),
        "invalid numeric field trade_px: x"
    );
}

#[test]
fn other_channels_give_no_events() {
    for channel in ["subscribe", "pong", "candles"] {
        let text = format!(r#"{{"channel":"{channel}","data":{{}}}}"#);
        assert!(map_public_message(&read(&text), 0).unwrap().is_empty());
    }
}

#[test]
fn unreadable_messages_are_json_errors() {
    assert!(matches!(map_public_message(&read("{"), 0), Err(PublicStreamError::Json(_))));
    let mut message = read(BBO);
    message.bbo = Err("missing field `s`".to_string());
    assert_eq!(
        map_public_message(&message, 0).unwrap_err().message(),
        "json: missing field `s`"
    );
}

#[test]
fn stream_starts_with_the_subscriptions_of_every_symbol() {
    let mut symbols = SymbolSet::new();
    symbols.insert("ETH".to_string());
    symbols.insert("BTC".to_string());
    let requests: Vec<String> =
        PublicStream::new(1).start(&symbols).into_iter().map(print_json).collect();

    assert_eq!(requests.len(), 6);
    assert_eq!(
        requests[0],
        r#"{"method":"subscribe","params":{"agg_level":1,"source":"book","symbol":"BTC"}}"#
    );
    assert_eq!(
        requests[5],
        r#"{"method":"subscribe","params":{"source":"bbo","symbol":"ETH"}}"#
    );
}

#[test]
fn stream_answers_what_happens() {
    let stream = PublicStream::new(1);

    let PublicOutput::Send(requests) = stream.step(PublicInput::Tick) else {
        panic!("expected a ping");
    };
    assert_eq!(requests.len(), 1);
    let PublicOutput::Send(requests) = stream.step(PublicInput::Symbol("BTC".to_string())) else {
        panic!("expected subscriptions");
    };
    assert_eq!(requests.len(), 3);
    assert!(matches!(stream.step(PublicInput::SymbolsClosed), PublicOutput::Finish(Ok(()))));
    assert!(
        matches!(stream.step(PublicInput::SymbolsLagged), PublicOutput::Publish(events) if events.is_empty())
    );
    assert!(
        matches!(stream.step(PublicInput::Ignored), PublicOutput::Publish(events) if events.is_empty())
    );
    assert!(matches!(stream.step(PublicInput::Ping), PublicOutput::Pong));
    let PublicOutput::Finish(Err(error)) = stream.step(PublicInput::Closed) else {
        panic!("expected an end");
    };
    assert_eq!(error.message(), "websocket: connection interrupted");
    let PublicOutput::Finish(Err(error)) = stream.step(PublicInput::Failed("x".to_string())) else {
        panic!("expected an end");
    };
    assert_eq!(error.message(), "websocket: websocket: x");
    assert_eq!(send_failed("x".to_string()).message(), "tungstenite: x");
    assert_eq!(connect_failed("x".to_string()).message(), "websocket: websocket: x");
}

#[test]
fn stream_publishes_feed_events_with_the_local_time() {
    let before = chrono::Utc::now().timestamp_nanos_opt().unwrap();
    let PublicOutput::Publish(events) = PublicStream::new(1).step(PublicInput::Text(read(BBO))) else {
        panic!("expected events");
    };
    assert_eq!(events.len(), 2);
    let LiveEvent::Feed { symbol, event } = &events[0] else {
        panic!("expected a feed event");
    };
    assert_eq!(symbol, "BTC");
    assert!(before <= event.local_ts);
    let PublicOutput::Publish(events) =
        PublicStream::new(1).step_at(PublicInput::Text(read(BBO)), 5)
    else {
        panic!("expected events");
    };
    assert!(matches!(&events[1], LiveEvent::Feed { event, .. } if event.local_ts == 5));
}

#[test]
fn times_of_public_messages_fit_as_far_as_they_are_looked_at() {
    let late: i64 = 9_223_372_036_855;
    let fit = |text: String| read(&text).fits();
    let bbo = |t: i64| {
        format!(r#"{{"channel":"bbo","data":{{"s":"BTC","b":"x","B":"1","a":"1","A":"1","t":{t}}}}}"#)
    };
    let book = |l: &str, t: i64| {
        format!(r#"{{"channel":"book","data":{{"s":"BTC","l":{l},"t":{t}}}}}"#)
    };
    let trade = |d: &str, p: &str, t: i64| {
        format!(r#"{{"s":"BTC","p":"{p}","a":"1","d":"{d}","t":{t}}}"#)
    };
    let trades = |data: String| format!(r#"{{"channel":"trades","data":[{data}]}}"#);

    assert!(fit("{".to_string()));
    assert!(fit(bbo(late - 1)));
    assert!(!fit(bbo(late)));
    assert!(fit(book("[[],[]]", 1)));
    assert!(!fit(book("[[],[]]", late)));
    assert!(fit(book("[[]]", late)));
    assert!(fit(trades(trade("buy", "1", 1))));
    assert!(!fit(trades(trade("buy", "x", late))));
    assert!(fit(trades(trade("swap", "1", late))));
    assert!(fit(trades(format!("{},{}", trade("buy", "x", 1), trade("buy", "1", late)))));
    assert!(!fit(trades(format!("{},{}", trade("buy", "1", 1), trade("buy", "1", late)))));
    assert!(fit(format!(r#"{{"channel":"subscribe","data":{late}}}"#)));
}
