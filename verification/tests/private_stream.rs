use pacifica::account_state::{AccountPosition, AccountPositionsFrame, AccountState};
use pacifica::binary64::{Binary64, NumericText};
use pacifica::connector::GetOrders;
use pacifica::json::print_json;
use pacifica::ordermanager::{
    FillNumbers, OrderManager, OrderManagerError, PacificaOrderStatus, QuoteText,
};
use pacifica::private_stream::{
    account_trades_fit, apply_account_trades, apply_account_trades_if_fresh, apply_order_updates,
    apply_order_updates_if_fresh, channel_name, connect_failed, handle_text, order_updates_fit,
    parse_account_trades, parse_order_updates, parse_status, position_events, position_events_fit,
    send_failed, AccountOrderUpdate, AccountTrade, AccountTradesFrame, OrderUpdatesFrame,
    PrivateInput, PrivateMessage, PrivateOutput, PrivateStream, PrivateStreamError,
};
use pacifica::symbols::SymbolSet;
use pacifica::types::{LiveEvent, OrdType, Order, Side, Status, TimeInForce};
use pacifica::websocket::WebSocketError;

fn number(value: f64) -> Binary64 {
    Binary64 { bits: value.to_bits() }
}

fn value(number: Binary64) -> f64 {
    f64::from_bits(number.bits)
}

fn numeric(text: &str) -> NumericText {
    NumericText { text: text.to_string(), value: text.parse::<f64>().ok().map(number) }
}

fn fill(order: Order, qty: Option<Binary64>, price: Option<Binary64>) -> FillNumbers {
    let qty = qty.map(value).unwrap_or(0.0);
    let price = price.map(value).unwrap_or(0.0);
    FillNumbers {
        exec_qty: number(value(order.exec_qty) + qty),
        leaves_qty: number((value(order.leaves_qty) - qty).max(0.0)),
        exec_price_tick: (price / value(order.tick_size)).round() as i64,
    }
}

fn items(text: &str) -> Result<Vec<serde_json::Value>, String> {
    let value: serde_json::Value = serde_json::from_str(text).map_err(|error| error.to_string())?;
    match value["data"].as_array() {
        Some(items) => Ok(items.clone()),
        None => Err("missing field `data`".to_string()),
    }
}

fn text_in(item: &serde_json::Value, name: &str) -> Result<String, String> {
    item[name].as_str().map(String::from).ok_or(format!("missing field `{name}`"))
}

fn int_in(item: &serde_json::Value, name: &str) -> Result<i64, String> {
    item[name].as_i64().ok_or(format!("missing field `{name}`"))
}

fn order_updates(text: &str) -> Result<OrderUpdatesFrame, String> {
    let mut data = Vec::new();
    for item in items(text)? {
        let amount = item["a"].as_str().and_then(|text| text.parse::<f64>().ok());
        let filled = item["f"].as_str().and_then(|text| text.parse::<f64>().ok());
        data.push(AccountOrderUpdate {
            client_order_id: item["I"].as_str().map(String::from),
            exchange_order_id: item["i"].as_i64(),
            symbol: text_in(&item, "s")?,
            side: item["d"].as_str().map(String::from),
            initial_price: item["ip"].as_str().map(String::from),
            amount: item["a"].as_str().map(numeric),
            filled_amount: item["f"].as_str().map(numeric),
            remaining: number((amount.unwrap_or(0.0) - filled.unwrap_or(0.0)).max(0.0)),
            last_price: item["lp"].as_str().map(numeric),
            average_price: item["p"].as_str().map(numeric),
            status: text_in(&item, "os")?,
            updated_at_ms: int_in(&item, "ut")?,
        });
    }
    Ok(OrderUpdatesFrame { data })
}

fn trades(text: &str) -> Result<AccountTradesFrame, String> {
    let mut data = Vec::new();
    for item in items(text)? {
        data.push(AccountTrade {
            client_order_id: item["I"].as_str().map(String::from),
            exchange_order_id: item["i"].as_i64(),
            symbol: text_in(&item, "s")?,
            amount: numeric(&text_in(&item, "a")?),
            price: numeric(&text_in(&item, "p")?),
            timestamp_ms: int_in(&item, "t")?,
        });
    }
    Ok(AccountTradesFrame { data })
}

fn positions(text: &str) -> Result<AccountPositionsFrame, String> {
    let value: serde_json::Value = serde_json::from_str(text).map_err(|error| error.to_string())?;
    let mut data = Vec::new();
    for item in items(text)? {
        data.push(AccountPosition {
            symbol: text_in(&item, "s")?,
            amount: numeric(&text_in(&item, "a")?),
            side: text_in(&item, "d")?,
            timestamp_ms: int_in(&item, "t")?,
        });
    }
    Ok(AccountPositionsFrame { data, last_increment_id: value["li"].as_i64() })
}

fn message(text: &str) -> PrivateMessage {
    PrivateMessage {
        text: text.to_string(),
        order_updates: order_updates(text),
        trades: trades(text),
        positions: positions(text),
    }
}

fn seeded_manager_with_client_order_id(price_tick: i64) -> (OrderManager, String) {
    let mut manager = OrderManager::new("pfhbt-");
    let order = Order::new(
        42,
        price_tick,
        number(1.0),
        number(0.0002),
        Side::Buy,
        OrdType::Limit,
        TimeInForce::GTX,
    );
    let quote = QuoteText {
        price: (price_tick as f64).to_string(),
        amount: 0.0002f64.to_string(),
    };
    let client_order_id = manager.new_order("BTC", order, &quote).unwrap().client_order_id;
    (manager, client_order_id)
}

fn seeded_manager(price_tick: i64) -> OrderManager {
    seeded_manager_with_client_order_id(price_tick).0
}

fn timestamp_from_order_update(text: &str) -> i64 {
    let frame: serde_json::Value = serde_json::from_str(text).unwrap();
    frame["data"][0]["ut"].as_i64().unwrap() * 1_000_000
}

fn order_in(event: &LiveEvent) -> (&str, Order) {
    let LiveEvent::Order { symbol, order } = event else {
        panic!("expected order event");
    };
    (symbol, *order)
}

fn open_text(id: &str) -> String {
    format!(
        r#"{{"channel":"account_order_updates","data":[{{"I":"{id}","a":"0.0002","d":"bid","f":"0","i":336542009,"ip":"63441","lp":"0","os":"open","p":"0","s":"BTC","ut":1780919672102}}]}}"#
    )
}

#[test]
fn order_update_cancelled_removes_active_order() {
    let (mut manager, client_order_id) = seeded_manager_with_client_order_id(63_441);
    let open_text = open_text(&client_order_id);
    let cancel_text = format!(
        r#"{{"channel":"account_order_updates","data":[{{"I":"{client_order_id}","a":"0.0002","d":"bid","f":"0","i":336542009,"ip":"63441","lp":"0","os":"cancelled","p":"0","s":"BTC","ut":1780919680798}}]}}"#
    );
    apply_order_updates(&mut manager, &order_updates(&open_text), fill).unwrap();
    let expected_ts = timestamp_from_order_update(&cancel_text);
    let events = apply_order_updates(&mut manager, &order_updates(&cancel_text), fill).unwrap();

    assert_eq!(events.len(), 1);
    let (_, order) = order_in(&events[0]);
    assert_eq!(order.status, Status::Canceled);
    assert_eq!(value(order.leaves_qty), 0.0002);
    assert_eq!(order.exch_timestamp, expected_ts);
    assert!(manager.orders(Some("BTC".to_string())).is_empty());
}

#[test]
fn order_update_open_then_filled_removes_active_order() {
    let (mut manager, id) = seeded_manager_with_client_order_id(63_441);
    let text = format!(
        r#"{{"channel":"account_order_updates","data":[{{"I":"{id}","a":"0.0002","d":"bid","f":"0","i":336542009,"ip":"63441","lp":"0","os":"open","p":"0","s":"BTC","ut":1780919672102}},{{"I":"{id}","a":"0.0002","d":"bid","f":"0.0002","i":336542009,"ip":"63441","lp":"63441","os":"filled","p":"63441","s":"BTC","ut":1780919672102}}]}}"#
    );

    let events = apply_order_updates(&mut manager, &order_updates(&text), fill).unwrap();

    assert_eq!(events.len(), 2);
    let (symbol, order) = order_in(&events[0]);
    assert_eq!(symbol, "BTC");
    assert_eq!(order.status, Status::New);
    assert_eq!(value(order.leaves_qty), 0.0002);
    assert_eq!(order.exch_timestamp, 1_780_919_672_102_000_000);
    let (_, order) = order_in(&events[1]);
    assert_eq!(order.status, Status::Filled);
    assert_eq!(value(order.leaves_qty), 0.0);
    assert_eq!(value(order.exec_qty), 0.0002);
    assert!(manager.orders(Some("BTC".to_string())).is_empty());
}

#[test]
fn unknown_order_update_is_ignored_without_interrupting_stream() {
    let mut manager = OrderManager::new("pfhbt-");
    let text = r#"{"channel":"account_order_updates","data":[{"I":"external-order","a":"0.0002","d":"bid","f":"0","i":336542009,"ip":"63441","lp":"0","os":"open","p":"0","s":"BTC","ut":1780919672102}]}"#;

    let events = apply_order_updates(&mut manager, &order_updates(text), fill).unwrap();

    assert!(events.is_empty());
}

#[test]
fn mixed_known_and_unknown_order_updates_keep_known_event() {
    let (mut manager, client_order_id) = seeded_manager_with_client_order_id(63_441);
    let text = format!(
        r#"{{"channel":"account_order_updates","data":[{{"I":"external-order","a":"0.0002","d":"bid","f":"0","i":336542009,"ip":"63441","lp":"0","os":"open","p":"0","s":"BTC","ut":1780919672102}},{{"I":"{client_order_id}","a":"0.0002","d":"bid","f":"0","i":336542010,"ip":"63441","lp":"0","os":"open","p":"0","s":"BTC","ut":1780919672103}}]}}"#
    );

    let events = apply_order_updates(&mut manager, &order_updates(&text), fill).unwrap();

    assert_eq!(events.len(), 1);
    let (_, order) = order_in(&events[0]);
    assert_eq!(order.status, Status::New);
    assert_eq!(order.exch_timestamp, 1_780_919_672_103_000_000);
}

#[test]
fn account_trade_updates_execution_fields() {
    let (mut manager, client_order_id) = seeded_manager_with_client_order_id(63_441);
    let text = format!(
        r#"{{"channel":"account_trades","data":[{{"I":"{client_order_id}","a":"0.0001","i":336542009,"p":"63441","s":"BTC","t":1780919672102,"ts":"open_long"}}]}}"#
    );

    let events = apply_account_trades(&mut manager, &trades(&text), fill).unwrap();

    assert_eq!(events.len(), 1);
    let (symbol, order) = order_in(&events[0]);
    assert_eq!(symbol, "BTC");
    assert_eq!(order.status, Status::PartiallyFilled);
    assert_eq!(value(order.leaves_qty), 0.0001);
    assert_eq!(value(order.exec_qty), 0.0001);
    assert_eq!(order.exec_price_tick, 63_441);
    assert_eq!(order.exch_timestamp, 1_780_919_672_102_000_000);
    assert_eq!(manager.orders(Some("BTC".to_string())).len(), 1);
}

#[test]
fn account_trade_full_fill_removes_active_order() {
    let (mut manager, client_order_id) = seeded_manager_with_client_order_id(63_441);
    let text = format!(
        r#"{{"channel":"account_trades","data":[{{"I":"{client_order_id}","a":"0.0002","i":336542009,"p":"63441","s":"BTC","t":1780919672102,"ts":"open_long"}}]}}"#
    );

    let events = apply_account_trades(&mut manager, &trades(&text), fill).unwrap();

    assert_eq!(events.len(), 1);
    let (_, order) = order_in(&events[0]);
    assert_eq!(order.status, Status::Filled);
    assert_eq!(value(order.leaves_qty), 0.0);
    assert_eq!(value(order.exec_qty), 0.0002);
    assert!(manager.orders(Some("BTC".to_string())).is_empty());
}

#[test]
fn unknown_account_trade_is_ignored_without_interrupting_stream() {
    let mut manager = OrderManager::new("pfhbt-");
    let text = r#"{"channel":"account_trades","data":[{"I":"external-order","a":"0.0002","i":336542009,"p":"63441","s":"BTC","t":1780919672102,"ts":"open_long"}]}"#;

    let events = apply_account_trades(&mut manager, &trades(text), fill).unwrap();

    assert!(events.is_empty());
}

#[test]
fn account_trade_parses_fill_fields() {
    let text = r#"{"channel":"account_trades","data":[{"I":"26350e10-72a4-4de1-b1f8-5bc671dd561b","a":"0.0002","i":336542009,"p":"63441","s":"BTC","t":1780919672102,"ts":"open_long"}]}"#;

    let updates = parse_account_trades(&trades(text)).unwrap();

    assert_eq!(updates.len(), 1);
    assert_eq!(updates[0].symbol, "BTC");
    assert_eq!(
        updates[0].client_order_id.as_deref(),
        Some("26350e10-72a4-4de1-b1f8-5bc671dd561b")
    );
    assert_eq!(updates[0].exchange_order_id, Some(336542009));
    assert_eq!(updates[0].status, PacificaOrderStatus::PartiallyFilled);
    assert_eq!(updates[0].exec_qty, Some(number(0.0002)));
    assert_eq!(updates[0].exec_price, Some(number(63441.0)));
    assert_eq!(updates[0].exch_timestamp, 1_780_919_672_102_000_000);
    assert!(updates[0].leaves_qty.is_none());
    assert!(updates[0].side.is_none());
}

#[test]
fn stale_order_update_li_is_ignored() {
    let mut state = AccountState::new();
    assert!(state.accept_frame_li(Some(10)));
    let mut manager = seeded_manager(63_441);
    let stale_text = r#"{"channel":"account_order_updates","data":[{"I":"pfhbt-btc-42","a":"0.0002","d":"bid","f":"0","i":336542009,"ip":"63441","li":9,"lp":"0","os":"open","p":"0","s":"BTC","ut":1780919672102}]}"#;

    let events = apply_order_updates_if_fresh(
        &mut manager,
        &mut state,
        stale_text,
        &order_updates(stale_text),
        fill,
    )
    .unwrap();

    assert!(events.is_empty());
}

#[test]
fn equal_trade_li_is_accepted() {
    let mut state = AccountState::new();
    assert!(state.accept_frame_li(Some(10)));
    let (mut manager, client_order_id) = seeded_manager_with_client_order_id(63_441);
    let text = format!(
        r#"{{"channel":"account_trades","data":[{{"I":"{client_order_id}","a":"0.0002","i":336542009,"li":10,"p":"63441","s":"BTC","t":1780919672102,"ts":"open_long"}}]}}"#
    );

    let events =
        apply_account_trades_if_fresh(&mut manager, &mut state, &text, &trades(&text), fill)
            .unwrap();

    assert_eq!(events.len(), 1);
}

#[test]
fn fresh_order_update_moves_the_increment_on() {
    let mut state = AccountState::new();
    let (mut manager, id) = seeded_manager_with_client_order_id(63_441);
    let text = format!(
        r#"{{"channel":"account_order_updates","li":12,"data":[{{"I":"{id}","li":11,"a":"0.0002","d":"bid","f":"0","i":1,"ip":"63441","lp":"0","os":"open","p":"0","s":"BTC","ut":5}}]}}"#
    );

    let events =
        apply_order_updates_if_fresh(&mut manager, &mut state, &text, &order_updates(&text), fill)
            .unwrap();

    assert_eq!(events.len(), 1);
    assert!(!state.accept_frame_li(Some(11)));
    assert!(state.accept_frame_li(Some(12)));
}

#[test]
fn order_update_leaves_what_is_not_filled() {
    let text = r#"{"data":[{"I":"c","a":"0.5","d":"ask","f":"0.125","i":7,"ip":"10","lp":"0","os":"partial","p":"10.5","s":"BTC","ut":-3}]}"#;

    let updates = parse_order_updates(&order_updates(text)).unwrap();

    assert_eq!(updates.len(), 1);
    assert_eq!(updates[0].symbol, "BTC");
    assert_eq!(updates[0].client_order_id.as_deref(), Some("c"));
    assert_eq!(updates[0].exchange_order_id, Some(7));
    assert_eq!(updates[0].side.as_deref(), Some("ask"));
    assert_eq!(updates[0].price.as_deref(), Some("10"));
    assert_eq!(updates[0].status, PacificaOrderStatus::PartiallyFilled);
    assert_eq!(updates[0].leaves_qty, Some(number(0.375)));
    assert_eq!(updates[0].exec_qty, Some(number(0.125)));
    assert_eq!(updates[0].exec_price, Some(number(10.5)));
    assert_eq!(updates[0].exch_timestamp, -3_000_000);
}

#[test]
fn order_update_without_fill_leaves_its_amount() {
    let text = r#"{"data":[{"a":"0.5","f":"","os":"open","lp":"","s":"BTC","ut":0}]}"#;
    let updates = parse_order_updates(&order_updates(text)).unwrap();
    assert_eq!(updates[0].leaves_qty, Some(number(0.5)));
    assert!(updates[0].exec_qty.is_none());
    assert!(updates[0].exec_price.is_none());

    let text = r#"{"data":[{"f":"0.5","os":"open","lp":"2","p":"x","s":"BTC","ut":0}]}"#;
    let updates = parse_order_updates(&order_updates(text)).unwrap();
    assert!(updates[0].leaves_qty.is_none());
    assert_eq!(updates[0].exec_qty, Some(number(0.5)));
    assert_eq!(updates[0].exec_price, Some(number(2.0)));
}

#[test]
fn first_fault_of_an_order_update_counts() {
    let fault = |text: &str| parse_order_updates(&order_updates(text)).unwrap_err().message();

    assert_eq!(
        fault(r#"{"data":[{"a":"x","f":"y","os":"z","s":"BTC","ut":0}]}"#),
        "invalid numeric field filled_amount: y"
    );
    assert_eq!(
        fault(r#"{"data":[{"a":"x","f":"1","os":"z","s":"BTC","ut":0}]}"#),
        "invalid numeric field amount: x"
    );
    assert_eq!(
        fault(r#"{"data":[{"a":"1","f":"1","lp":"0","p":"w","os":"z","s":"BTC","ut":0}]}"#),
        "invalid numeric field exec_price: w"
    );
    assert_eq!(
        fault(r#"{"data":[{"a":"1","f":"1","os":"z","s":"BTC","ut":0}]}"#),
        "unsupported order status: z"
    );
    assert_eq!(fault(r#"{"data":{}}"#), "json: missing field `data`");
}

#[test]
fn wrong_order_updates_change_nothing() {
    let (mut manager, id) = seeded_manager_with_client_order_id(63_441);
    let text = format!(
        r#"{{"data":[{{"I":"{id}","os":"open","s":"BTC","ut":1}},{{"I":"{id}","os":"lost","s":"BTC","ut":1}}]}}"#
    );

    let error = apply_order_updates(&mut manager, &order_updates(&text), fill).unwrap_err();

    assert!(matches!(error, PrivateStreamError::UnsupportedOrderStatus(status) if status == "lost"));
    assert!(manager.orders(None).is_empty());
}

#[test]
fn trade_faults_name_their_field() {
    let fault = |text: &str| parse_account_trades(&trades(text)).unwrap_err().message();

    assert_eq!(
        fault(r#"{"data":[{"a":"x","p":"y","s":"BTC","t":0}]}"#),
        "invalid numeric field trade_amount: x"
    );
    assert_eq!(
        fault(r#"{"data":[{"a":"1","p":"","s":"BTC","t":0}]}"#),
        "invalid numeric field trade_price: "
    );
}

#[test]
fn statuses_have_one_or_more_names() {
    for (name, status) in [
        ("open", PacificaOrderStatus::Open),
        ("partially_filled", PacificaOrderStatus::PartiallyFilled),
        ("partial_filled", PacificaOrderStatus::PartiallyFilled),
        ("partial", PacificaOrderStatus::PartiallyFilled),
        ("filled", PacificaOrderStatus::Filled),
        ("cancelled", PacificaOrderStatus::Cancelled),
        ("canceled", PacificaOrderStatus::Cancelled),
        ("rejected", PacificaOrderStatus::Rejected),
    ] {
        assert_eq!(parse_status(name).unwrap(), status);
    }
    assert!(matches!(
        parse_status("Open"),
        Err(PrivateStreamError::UnsupportedOrderStatus(name)) if name == "Open"
    ));
}

#[test]
fn positions_are_told_with_their_sign() {
    let text = r#"{"channel":"account_positions","data":[{"s":"BTC","a":"0.0002","d":"bid","t":1780919672151},{"s":"ETH","a":"2","d":"ask","t":1}],"li":336542010}"#;

    let events = position_events(&positions(text)).unwrap();

    assert_eq!(events.len(), 2);
    let LiveEvent::Position { symbol, qty, exch_ts } = &events[0] else {
        panic!("expected position event");
    };
    assert_eq!(symbol, "BTC");
    assert_eq!(value(*qty), 0.0002);
    assert_eq!(*exch_ts, 1_780_919_672_151_000_000);
    let LiveEvent::Position { symbol, qty, exch_ts } = &events[1] else {
        panic!("expected position event");
    };
    assert_eq!(symbol, "ETH");
    assert_eq!(value(*qty), -2.0);
    assert_eq!(*exch_ts, 1_000_000);
}

#[test]
fn no_positions_give_no_events_to_a_newcomer() {
    let text = r#"{"channel":"account_positions","data":[],"li":336542133}"#;

    assert!(position_events(&positions(text)).unwrap().is_empty());
    assert_eq!(
        position_events(&Err("no".to_string())).unwrap_err().message(),
        "account state: json: no"
    );
}

#[test]
fn channel_is_read_from_the_message() {
    assert_eq!(channel_name(r#"{"channel":"pong"}"#).unwrap().as_deref(), Some("pong"));
    assert_eq!(channel_name(r#"{"channel":5}"#).unwrap(), None);
    assert_eq!(channel_name(r#"[1]"#).unwrap(), None);
    let expected = serde_json::from_str::<serde_json::Value>("{").unwrap_err().to_string();
    assert_eq!(channel_name("{").unwrap_err(), expected);
}

#[test]
fn messages_go_by_their_channel() {
    let (mut manager, id) = seeded_manager_with_client_order_id(63_441);
    let mut state = AccountState::new();
    let mut symbols = SymbolSet::new();
    symbols.insert("BTC".to_string());

    let opened = message(&open_text(&id));
    assert_eq!(handle_text(&mut manager, &mut state, &symbols, &opened, fill).unwrap().len(), 1);
    let traded = message(&format!(
        r#"{{"channel":"account_trades","data":[{{"I":"{id}","a":"0.0001","i":1,"p":"63441","s":"BTC","t":1}}]}}"#
    ));
    assert_eq!(handle_text(&mut manager, &mut state, &symbols, &traded, fill).unwrap().len(), 1);
    let held = message(
        r#"{"channel":"account_positions","data":[{"s":"BTC","a":"0.0001","d":"bid","t":1}],"li":1}"#,
    );
    assert_eq!(handle_text(&mut manager, &mut state, &symbols, &held, fill).unwrap().len(), 1);
    assert_eq!(state.position_qty("BTC"), Some(number(0.0001)));
    for other in [
        r#"{"channel":"subscribe"}"#,
        r#"{"channel":"pong"}"#,
        r#"{"channel":"something"}"#,
        r#"{}"#,
    ] {
        let events =
            handle_text(&mut manager, &mut state, &symbols, &message(other), fill).unwrap();
        assert!(events.is_empty());
    }
}

#[test]
fn wrong_messages_end_the_stream_unless_they_are_about_fills() {
    let mut manager = seeded_manager(63_441);
    let mut state = AccountState::new();
    let symbols = SymbolSet::new();
    let mut handle = |text: &str| {
        handle_text(&mut manager, &mut state, &symbols, &message(text), fill)
    };

    assert!(handle(r#"{"channel":"account_trades","data":[{"a":"x","p":"1","s":"BTC","t":1}]}"#)
        .unwrap()
        .is_empty());
    assert!(handle(r#"{"channel":"account_trades"}"#).unwrap().is_empty());
    assert!(matches!(
        handle(r#"{"channel":"account_order_updates"}"#),
        Err(PrivateStreamError::Json(_))
    ));
    assert!(matches!(
        handle(r#"{"channel":"account_positions"}"#),
        Err(PrivateStreamError::AccountState(_))
    ));
    assert!(matches!(handle("{"), Err(PrivateStreamError::Json(_))));
}

#[test]
fn private_stream_answers_what_happens() {
    let stream = PrivateStream::new("acct".to_string());
    let mut manager = OrderManager::new("pfhbt-");
    let mut state = AccountState::new();
    let symbols = SymbolSet::new();
    let requests = stream.start();
    let sources: Vec<String> = requests.into_iter().map(print_json).collect();
    assert_eq!(sources.len(), 3);
    assert_eq!(
        sources[0],
        r#"{"method":"subscribe","params":{"account":"acct","source":"account_positions"}}"#
    );
    let mut step = |input| stream.step(&mut manager, &mut state, &symbols, input, fill);

    let PrivateOutput::Send(ping) = step(PrivateInput::Tick) else {
        panic!("expected a request");
    };
    assert_eq!(print_json(ping), r#"{"method":"ping"}"#);
    assert!(matches!(step(PrivateInput::Ping), PrivateOutput::Pong));
    assert!(matches!(
        step(PrivateInput::Ignored),
        PrivateOutput::Publish(events) if events.is_empty()
    ));
    assert!(matches!(
        step(PrivateInput::Closed),
        PrivateOutput::Finish(PrivateStreamError::WebSocket(WebSocketError::ConnectionInterrupted))
    ));
    assert!(matches!(
        step(PrivateInput::Failed("lost".to_string())),
        PrivateOutput::Finish(PrivateStreamError::WebSocket(WebSocketError::Tungstenite(error)))
            if error == "lost"
    ));
    assert!(matches!(
        step(PrivateInput::Text(message("{"))),
        PrivateOutput::Finish(PrivateStreamError::Json(_))
    ));
    assert!(matches!(
        step(PrivateInput::Text(message(r#"{"channel":"pong"}"#))),
        PrivateOutput::Publish(events) if events.is_empty()
    ));
}

#[test]
fn private_stream_errors_have_words() {
    assert_eq!(send_failed("no".to_string()).message(), "tungstenite: no");
    assert_eq!(
        connect_failed("no".to_string()).message(),
        format!("websocket: {}", WebSocketError::Tungstenite("no".to_string()).message())
    );
    assert_eq!(
        PrivateStreamError::OrderManager(OrderManagerError::OrderNotFound).message(),
        format!("order manager: {}", OrderManagerError::OrderNotFound.message())
    );
    assert_eq!(
        PrivateStreamError::MissingPositionSymbol.message(),
        "position update missing symbol"
    );
}

const LATE: i64 = 9_223_372_036_855;

#[test]
fn times_of_reports_fit_as_far_as_they_are_looked_at() {
    let fit = |text: String| order_updates_fit(&order_updates(&text));

    assert!(fit(r#"{"data":[]}"#.to_string()));
    assert!(fit("{".to_string()));
    assert!(fit(r#"{"data":[{"os":"open","s":"BTC","ut":1}]}"#.to_string()));
    assert!(!fit(format!(r#"{{"data":[{{"os":"open","s":"BTC","ut":{LATE}}}]}}"#)));
    assert!(fit(format!(r#"{{"data":[{{"os":"lost","s":"BTC","ut":{LATE}}}]}}"#)));
    assert!(fit(format!(
        r#"{{"data":[{{"os":"open","f":"x","s":"BTC","ut":1}},{{"os":"open","s":"BTC","ut":{LATE}}}]}}"#
    )));
    assert!(!fit(format!(
        r#"{{"data":[{{"os":"open","s":"BTC","ut":1}},{{"os":"open","s":"BTC","ut":{LATE}}}]}}"#
    )));
}

#[test]
fn times_of_fills_fit_as_far_as_they_are_looked_at() {
    let fit = |text: String| account_trades_fit(&trades(&text));

    assert!(fit("{".to_string()));
    assert!(fit(r#"{"data":[{"a":"1","p":"1","s":"BTC","t":1}]}"#.to_string()));
    assert!(!fit(format!(r#"{{"data":[{{"a":"1","p":"1","s":"BTC","t":{LATE}}}]}}"#)));
    assert!(fit(format!(r#"{{"data":[{{"a":"1","p":"x","s":"BTC","t":{LATE}}}]}}"#)));
    assert!(fit(format!(
        r#"{{"data":[{{"a":"x","p":"1","s":"BTC","t":1}},{{"a":"1","p":"1","s":"BTC","t":{LATE}}}]}}"#
    )));
}

#[test]
fn times_of_messages_count_for_their_channel() {
    let mut state = AccountState::new();
    let mut symbols = SymbolSet::new();
    symbols.insert("BTC".to_string());
    let order = |channel: &str, li: i64| {
        message(&format!(
            r#"{{"channel":"{channel}","li":{li},"data":[{{"os":"open","a":"1","p":"1","d":"bid","s":"BTC","ut":{LATE},"t":{LATE}}}]}}"#
        ))
    };

    for channel in ["account_order_updates", "account_trades", "account_positions"] {
        assert!(!order(channel, 5).fits(&state, &symbols));
    }
    assert!(order("subscribe", 5).fits(&state, &symbols));
    assert!(message("{").fits(&state, &symbols));
    assert!(state.accept_frame_li(Some(6)));
    for channel in ["account_order_updates", "account_trades", "account_positions"] {
        assert!(order(channel, 5).fits(&state, &symbols));
        assert!(!order(channel, 6).fits(&state, &symbols));
    }
}

#[test]
fn times_of_positions_fit_as_far_as_they_are_looked_at() {
    let mut state = AccountState::new();
    let mut symbols = SymbolSet::new();
    symbols.insert("BTC".to_string());
    let fit = |state: &AccountState, symbols: &SymbolSet, text: String| {
        state.positions_fit(&positions(&text).unwrap(), symbols)
    };

    let late = format!(r#"{{"data":[{{"s":"BTC","a":"1","d":"bid","t":{LATE}}}]}}"#);
    assert!(!fit(&state, &symbols, late.clone()));
    assert!(fit(&state, &SymbolSet::new(), late));
    assert!(fit(
        &state,
        &symbols,
        format!(r#"{{"data":[{{"s":"BTC","a":"x","d":"bid","t":{LATE}}}],"li":{LATE}}}"#)
    ));
    assert!(!fit(&state, &symbols, format!(r#"{{"data":[],"li":{LATE}}}"#)));
    assert!(fit(&state, &SymbolSet::new(), format!(r#"{{"data":[],"li":{LATE}}}"#)));
    let held = r#"{"data":[{"s":"BTC","a":"1","d":"bid","t":1}],"li":1}"#;
    state.apply_positions_text(&positions(held), &symbols).unwrap();
    assert!(fit(&state, &symbols, format!(r#"{{"data":[],"li":{LATE}}}"#)));
}

#[test]
fn times_of_a_newcomer_fit_as_far_as_they_are_looked_at() {
    let fit = |text: String| position_events_fit(&positions(&text));

    assert!(fit("{".to_string()));
    assert!(fit(format!(r#"{{"data":[],"li":{LATE}}}"#)));
    assert!(fit(r#"{"data":[{"s":"BTC","a":"1","d":"bid","t":1}]}"#.to_string()));
    assert!(!fit(format!(r#"{{"data":[{{"s":"BTC","a":"1","d":"bid","t":{LATE}}}]}}"#)));
    assert!(fit(format!(r#"{{"data":[{{"s":"BTC","a":"x","d":"bid","t":{LATE}}}]}}"#)));
}

#[test]
fn report_with_totals_can_be_taken_in_twice() {
    let (mut manager, id) = seeded_manager_with_client_order_id(63_441);
    let text = format!(
        r#"{{"data":[{{"I":"{id}","a":"0.0002","f":"0.0001","i":7,"ip":"63441","d":"bid","lp":"63440","os":"partially_filled","s":"BTC","ut":3}}]}}"#
    );

    let first = apply_order_updates(&mut manager, &order_updates(&text), fill).unwrap();
    let second = apply_order_updates(&mut manager, &order_updates(&text), fill).unwrap();

    assert_eq!(order_in(&first[0]), order_in(&second[0]));
    let (_, order) = order_in(&second[0]);
    assert_eq!(value(order.exec_qty), 0.0001);
    assert_eq!(value(order.leaves_qty), 0.0001);
    assert_eq!(order.exec_price_tick, 63_440);
    assert_eq!(manager.orders(None), vec![order]);
}
