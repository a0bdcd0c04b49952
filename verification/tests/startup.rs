use pacifica::binary64::{Binary64, NumericText};
use pacifica::json::parse_json;
use pacifica::rest::{
    AccountInfo, BookLevel, BookSnapshot, MarketInfo, PositionSnapshot, RestEnvelope, RestPayload,
};
use pacifica::startup::{
    account_info, book_snapshot_events, book_snapshot_fits, ensure_success, market_info_for_symbol,
    position_snapshot_events, position_snapshot_fits, validate_no_unknown_open_orders,
    StartupError,
};
use pacifica::types::{
    LiveEvent, LOCAL_ASK_DEPTH_SNAPSHOT_EVENT, LOCAL_BID_DEPTH_SNAPSHOT_EVENT,
};

fn number(value: f64) -> Binary64 {
    Binary64 { bits: value.to_bits() }
}

fn numeric(text: &str) -> NumericText {
    NumericText { text: text.to_string(), value: text.parse::<f64>().ok().map(number) }
}

fn envelope<T>(
    text: &str,
    data: impl Fn(&serde_json::Value) -> T,
) -> Result<RestEnvelope<T>, String> {
    let value: serde_json::Value = serde_json::from_str(text).map_err(|error| error.to_string())?;
    let payload = &value["payload"];
    Ok(RestEnvelope {
        payload: RestPayload {
            success: payload["success"].as_bool(),
            data: data(&payload["data"]),
        },
    })
}

fn texts(value: &serde_json::Value, name: &str) -> Option<String> {
    value[name].as_str().map(String::from)
}

fn positions(text: &str) -> Result<RestEnvelope<Vec<PositionSnapshot>>, String> {
    envelope(text, |data| {
        data.as_array()
            .unwrap()
            .iter()
            .map(|item| PositionSnapshot {
                symbol: texts(item, "symbol"),
                short_symbol: texts(item, "s"),
                amount: item["amount"].as_str().map(numeric),
                short_amount: item["a"].as_str().map(numeric),
                side: texts(item, "side"),
                short_side: texts(item, "d"),
                updated_at: item["updated_at"].as_i64(),
                short_updated_at: item["ut"].as_i64(),
                created_at: item["created_at"].as_i64(),
            })
            .collect()
    })
}

fn markets(text: &str) -> Result<RestEnvelope<Vec<MarketInfo>>, String> {
    envelope(text, |data| {
        data.as_array()
            .unwrap()
            .iter()
            .map(|item| MarketInfo {
                symbol: texts(item, "symbol").unwrap(),
                tick_size: numeric(item["tick_size"].as_str().unwrap()),
                lot_size: numeric(item["lot_size"].as_str().unwrap()),
                min_order_size: numeric(item["min_order_size"].as_str().unwrap()),
            })
            .collect()
    })
}

fn book(text: &str) -> Result<RestEnvelope<BookSnapshot>, String> {
    envelope(text, |data| BookSnapshot {
        symbol: texts(data, "s").unwrap(),
        levels: data["l"]
            .as_array()
            .unwrap()
            .iter()
            .map(|side| {
                side.as_array()
                    .unwrap()
                    .iter()
                    .map(|level| BookLevel {
                        price: numeric(level["p"].as_str().unwrap()),
                        amount: numeric(level["a"].as_str().unwrap()),
                    })
                    .collect()
            })
            .collect(),
        timestamp_ms: data["t"].as_i64().unwrap(),
    })
}

fn orders(text: &str) -> Result<RestEnvelope<Vec<pacifica::json::Json>>, String> {
    envelope(text, |data| {
        data.as_array()
            .unwrap()
            .iter()
            .map(|item| parse_json(&item.to_string()).unwrap())
            .collect()
    })
}

#[test]
fn market_rules_are_those_of_the_symbol() {
    let text = r#"{"payload":{"success":true,"data":[{"symbol":"ETH","tick_size":"x","lot_size":"x","min_order_size":"x"},{"symbol":"BTC","tick_size":"1","lot_size":"0.00001","min_order_size":"10"},{"symbol":"BTC","tick_size":"2","lot_size":"2","min_order_size":"2"}]}}"#;
    let market = market_info_for_symbol(markets(text), "BTC").unwrap();

    assert_eq!(market.symbol, "BTC");
    assert_eq!(market.tick_size, number(1.0));
    assert_eq!(market.lot_size, number(0.00001));
    assert_eq!(market.min_order_size, number(10.0));
    assert_eq!(
        market_info_for_symbol(markets(text), "SOL").unwrap_err().message(),
        "missing market info for symbol: SOL"
    );
    assert_eq!(
        market_info_for_symbol(markets(text), "ETH").unwrap_err().message(),
        "invalid numeric field tick_size: x"
    );
}

#[test]
fn book_snapshot_gives_bids_then_asks() {
    let events = book_snapshot_events(
        book(
            r#"{"payload":{"success":true,"data":{"s":"BTC","l":[[{"p":"100","a":"1"}],[{"p":"101","a":"2"}]],"t":9}}}"#,
        ),
        111,
    )
    .unwrap();

    assert_eq!(events.len(), 2);
    let LiveEvent::Feed { symbol, event } = &events[0] else {
        panic!("expected feed event");
    };
    assert_eq!(symbol, "BTC");
    assert_eq!(event.ev, LOCAL_BID_DEPTH_SNAPSHOT_EVENT);
    assert_eq!(event.exch_ts, 9_000_000);
    assert_eq!(event.local_ts, 111);
    assert_eq!(event.px, number(100.0));
    assert_eq!(event.qty, number(1.0));
    assert_eq!(event.ival, 0);
    let LiveEvent::Feed { event, .. } = &events[1] else {
        panic!("expected feed event");
    };
    assert_eq!(event.ev, LOCAL_ASK_DEPTH_SNAPSHOT_EVENT);
    assert_eq!(event.px, number(101.0));
    assert_eq!(event.qty, number(2.0));
}

#[test]
fn book_snapshot_needs_both_sides() {
    let error = book_snapshot_events(
        book(r#"{"payload":{"data":{"s":"BTC","l":[[{"p":"100","a":"1"}]],"t":9}}}"#),
        0,
    )
    .unwrap_err();
    assert_eq!(error.message(), "book snapshot must include bid and ask level arrays");

    let events = book_snapshot_events(
        book(r#"{"payload":{"data":{"s":"BTC","l":[[],[]],"t":9223372036854775807}}}"#),
        0,
    )
    .unwrap();
    assert!(events.is_empty());
}

#[test]
fn startup_rejects_unknown_open_order_by_default() {
    let error = validate_no_unknown_open_orders(orders(
        r#"{"payload":{"success":true,"data":[{"symbol":"BTC","id":1}]}}"#,
    ))
    .unwrap_err();

    assert!(matches!(error, StartupError::UnknownOpenOrders(1)));
    assert_eq!(
        error.message(),
        "startup found 1 open order(s); fail_on_unknown_orders policy refuses to continue"
    );
}

#[test]
fn empty_open_orders_and_positions_are_valid() {
    let empty = r#"{"payload":{"success":true,"data":[]}}"#;

    validate_no_unknown_open_orders(orders(empty)).unwrap();
    assert!(position_snapshot_events(positions(empty)).unwrap().is_empty());
}

#[test]
fn startup_position_snapshot_maps_symbol_qty() {
    let positions = position_snapshot_events(positions(
        r#"{"payload":{"success":true,"data":[{"s":"BTC","a":"0.003","d":"ask","ut":42}]}}"#,
    ))
    .unwrap();

    assert_eq!(positions.len(), 1);
    let LiveEvent::Position { symbol, qty, exch_ts } = &positions[0] else {
        panic!("expected position event");
    };
    assert_eq!(symbol, "BTC");
    assert_eq!(*qty, number(-0.003));
    assert_eq!(*exch_ts, 42_000_000);
}

#[test]
fn long_names_count_before_short_ones() {
    let positions = position_snapshot_events(positions(
        r#"{"payload":{"data":[{"symbol":"ETH","s":"BTC","amount":"2","a":"3","side":"bid","d":"ask","updated_at":1,"ut":2,"created_at":3},{"s":"SOL","a":"1","created_at":4},{"a":"x"},{"s":"FLAT"},{"s":"ZERO","a":"-0"}]}}"#,
    ))
    .unwrap();

    assert_eq!(positions.len(), 2);
    let LiveEvent::Position { symbol, qty, exch_ts } = &positions[0] else {
        panic!("expected position event");
    };
    assert_eq!((symbol.as_str(), *qty, *exch_ts), ("ETH", number(2.0), 1_000_000));
    let LiveEvent::Position { symbol, qty, exch_ts } = &positions[1] else {
        panic!("expected position event");
    };
    assert_eq!((symbol.as_str(), *qty, *exch_ts), ("SOL", number(1.0), 4_000_000));
}

#[test]
fn failures_are_refused() {
    assert!(ensure_success(None).is_ok());
    assert!(ensure_success(Some(true)).is_ok());
    let error = ensure_success(Some(false)).unwrap_err();
    assert_eq!(error.message(), "REST response did not report success");

    let failed = r#"{"payload":{"success":false,"data":[]}}"#;
    assert!(matches!(
        position_snapshot_events(positions(failed)),
        Err(StartupError::RestFailure)
    ));
    assert!(matches!(
        validate_no_unknown_open_orders(orders(failed)),
        Err(StartupError::RestFailure)
    ));
    assert_eq!(
        validate_no_unknown_open_orders(orders("")).unwrap_err().message(),
        "json: EOF while parsing a value at line 1 column 0"
    );
    assert_eq!(
        position_snapshot_events(positions(r#"{"payload":{"data":[{"s":"B","a":"?"}]}}"#))
            .unwrap_err()
            .message(),
        "invalid numeric field position_amount: ?"
    );
}

#[test]
fn account_info_is_the_payload() {
    let info = account_info(Ok(RestEnvelope {
        payload: RestPayload {
            success: Some(true),
            data: AccountInfo {
                account_equity: "1".to_string(),
                available_to_spend: "2".to_string(),
                orders_count: 0,
                positions_count: 3,
                updated_at: 4,
            },
        },
    }))
    .unwrap();

    assert_eq!(info.account_equity, "1");
    assert_eq!(info.positions_count, 3);
    assert!(matches!(account_info(Err("e".to_string())), Err(StartupError::Json(_))));
}

#[test]
fn startup_times_fit_as_far_as_they_are_looked_at() {
    let late: i64 = 9_223_372_036_855;
    let book_fits = |success: bool, levels: &str, t: i64| {
        book_snapshot_fits(&book(&format!(
            r#"{{"payload":{{"success":{success},"data":{{"s":"BTC","l":{levels},"t":{t}}}}}}}"#
        )))
    };
    let level = r#"{"p":"1","a":"1"}"#;
    assert!(book_fits(true, &format!("[[],[{level}]]"), 1));
    assert!(!book_fits(true, &format!("[[],[{level}]]"), late));
    assert!(!book_fits(true, &format!("[[{level}],[]]"), late));
    assert!(book_fits(false, &format!("[[{level}],[]]"), late));
    assert!(book_fits(true, "[[],[]]", late));
    assert!(book_fits(true, &format!("[[{level}]]"), late));
    assert!(book_snapshot_fits(&Err("no".to_string())));

    let positions_fit = |success: bool, data: String| {
        position_snapshot_fits(&positions(&format!(
            r#"{{"payload":{{"success":{success},"data":[{data}]}}}}"#
        )))
    };
    let held = |amount: &str, t: i64| format!(r#"{{"s":"BTC","a":"{amount}","ut":{t}}}"#);
    assert!(positions_fit(true, held("1", 1)));
    assert!(!positions_fit(true, held("1", late)));
    assert!(!positions_fit(true, held("0", late)));
    assert!(positions_fit(true, held("x", late)));
    assert!(positions_fit(true, format!(r#"{{"a":"1","ut":{late}}}"#)));
    assert!(positions_fit(true, format!("{},{}", held("x", 1), held("1", late))));
    assert!(!positions_fit(true, format!("{},{}", held("1", 1), held("1", late))));
    assert!(positions_fit(false, held("1", late)));
    assert!(position_snapshot_fits(&Err("no".to_string())));
}
