use pacifica::binary64::{Binary64, NumericText};
use pacifica::config::{Config, ConfigError};
use pacifica::connector::{reject_modify, GetOrders};
use pacifica::msg::{Bbo, BboFrame, ChannelFrame};
use pacifica::ordermanager::{
    FillNumbers, OrderManager, OrderManagerError, PacificaOrderStatus, PacificaOrderUpdate,
    QuoteText,
};
use pacifica::pacifica::{
    after_stream, publish_connection_error, publish_order_error, Pacifica, PacificaError,
};
use pacifica::private_stream::{
    AccountOrderUpdate, OrderUpdatesFrame, PrivateInput, PrivateMessage, PrivateOutput,
    PrivateStream,
};
use pacifica::public_stream::{map_public_message, publish_feed, PublicMessage};
use pacifica::trade_stream::TradeError;
use pacifica::types::{
    ErrorDetail, ErrorKind, LiveEvent, OrdType, Order, OrderId, Side, Status, TimeInForce,
};
use pacifica::websocket::WebSocketError;

const SEED: [u8; 32] = [
    0x9d, 0x61, 0xb1, 0x9d, 0xef, 0xfd, 0x5a, 0x60, 0xba, 0x84, 0x4a, 0xf4, 0x92, 0xec, 0x2c, 0xc4,
    0x44, 0x49, 0xc5, 0x69, 0x7b, 0x32, 0x69, 0x19, 0x70, 0x3b, 0xac, 0x03, 0x1c, 0xae, 0x7f, 0x60,
];

const PUBLIC_KEY: [u8; 32] = [
    0xd7, 0x5a, 0x98, 0x01, 0x82, 0xb1, 0x0a, 0xb7, 0xd5, 0x4b, 0xfe, 0xd3, 0xc9, 0x64, 0x07, 0x3a,
    0x0e, 0xe1, 0x72, 0xf3, 0xda, 0xa6, 0x23, 0x25, 0xaf, 0x02, 0x1a, 0x68, 0xf7, 0x07, 0x51, 0x1a,
];

fn number(value: f64) -> Binary64 {
    Binary64 { bits: value.to_bits() }
}

fn value(number: Binary64) -> f64 {
    f64::from_bits(number.bits)
}

fn numeric(text: &str) -> NumericText {
    NumericText { text: text.to_string(), value: text.parse::<f64>().ok().map(number) }
}

fn fill(order: Order, qty: Option<Binary64>, price: Option<Binary64>) -> FillNumbers {
    let qty = qty.map(value).unwrap_or(0.0);
    let price = price.map(value).unwrap_or(0.0);
    FillNumbers {
        exec_qty: number(value(order.exec_qty) + qty),
        leaves_qty: number((value(order.leaves_qty) - qty).max(0.0)),
        exec_price_tick: (price / value(order.tick_size)).round() as i64,
    }
}

fn quote(order: &Order) -> QuoteText {
    QuoteText {
        price: (order.price_tick as f64 * value(order.tick_size)).to_string(),
        amount: value(order.qty).to_string(),
    }
}

fn limit_order(order_id: OrderId, price_tick: i64, qty: f64) -> Order {
    Order::new(
        order_id,
        price_tick,
        number(1.0),
        number(qty),
        Side::Buy,
        OrdType::Limit,
        TimeInForce::GTX,
    )
}

fn replacement_order(order_id: OrderId, price_tick: i64, qty: f64) -> Order {
    let mut order = limit_order(order_id, price_tick, qty);
    order.status = Status::New;
    order.req = Status::Replaced;
    order
}

fn config_of(text: &str) -> Result<Config, String> {
    let value: toml::Value = toml::from_str(text).map_err(|error: toml::de::Error| error.to_string())?;
    let field = |name: &str, default: &str| {
        value.get(name).and_then(|field| field.as_str()).unwrap_or(default).to_string()
    };
    let default = Config::default();
    Ok(Config {
        account: field("account", &default.account),
        private_key_file: field("private_key_file", &default.private_key_file),
        ..default
    })
}

fn build(text: &str) -> Result<Pacifica, PacificaError> {
    let none = Err("no file".to_string());
    Pacifica::build_from(config_of(text), &None, none.clone(), none)
}

fn test_connector() -> Pacifica {
    build(
        r#"
account = "acct"
private_key_file = "key.json"
"#,
    )
    .unwrap()
}

fn opened(created: &str) -> AccountOrderUpdate {
    AccountOrderUpdate {
        client_order_id: Some(created.to_string()),
        exchange_order_id: Some(336542009),
        symbol: "BTC".to_string(),
        side: Some("bid".to_string()),
        initial_price: Some("63441".to_string()),
        amount: Some(numeric("0.0002")),
        filled_amount: Some(numeric("0")),
        remaining: number(0.0002),
        last_price: Some(numeric("0")),
        average_price: Some(numeric("0")),
        status: "open".to_string(),
        updated_at_ms: 1780919672102,
    }
}

fn message(text: &str, data: Vec<AccountOrderUpdate>) -> PrivateMessage {
    PrivateMessage {
        text: text.to_string(),
        order_updates: Ok(OrderUpdatesFrame { data }),
        trades: Err("missing field".to_string()),
        positions: Err("missing field".to_string()),
    }
}

fn open_connector_order(connector: &mut Pacifica) -> String {
    let order = limit_order(42, 63_441, 0.0002);
    let created = connector.submit("BTC", order, &quote(&order)).unwrap().client_order_id;
    let stream = PrivateStream::new(connector.config().account.clone());
    let output = connector.private_step(
        &stream,
        PrivateInput::Text(message(
            r#"{"channel":"account_order_updates"}"#,
            vec![opened(&created)],
        )),
        fill,
    );
    assert!(matches!(output, PrivateOutput::Publish(events) if events.len() == 1));
    created
}

#[test]
fn default_modify_rejects_request_with_order_response() {
    let mut order = limit_order(42, 100, 0.001);
    order.req = Status::Replaced;
    order.status = Status::New;

    let LiveEvent::Order { symbol, order } = reject_modify("BTC".to_string(), order) else {
        panic!("expected rejected order response");
    };
    assert_eq!(symbol, "BTC");
    assert_eq!(order.order_id, 42);
    assert_eq!(order.req, Status::Unset);
    assert_eq!(order.status, Status::Rejected);
}

#[test]
fn build_from_valid_config() {
    let connector = build(
        r#"
account = "acct"
private_key_file = "key.json"
"#,
    )
    .unwrap();

    assert_eq!(connector.config().account, "acct");
    assert_eq!(connector.trade_client().key_file(), "key.json");
    assert_eq!(connector.trade_client().url(), "wss://test-ws.pacifica.fi/ws");
    assert_eq!(connector.symbols().len(), 0);
}

#[test]
fn build_from_rejects_missing_account_and_key() {
    let error = build(
        r#"
private_key_file = ""
"#,
    )
    .unwrap_err();

    assert!(matches!(error, PacificaError::InvalidConfig(ConfigError::Missing("account"))));
}

#[test]
fn build_from_derives_a_missing_account() {
    let mut pair = SEED.to_vec();
    pair.extend_from_slice(&PUBLIC_KEY);
    let connector = Pacifica::build_from(
        config_of(r#"private_key_file = "key.json""#),
        &None,
        Err("no file".to_string()),
        Ok(format!("{}\n", serde_json::to_string(&pair).unwrap())),
    )
    .unwrap();

    assert_eq!(connector.config().account, bs58::encode(PUBLIC_KEY).into_string());
}

#[test]
fn build_from_tells_what_is_wrong() {
    let error = Pacifica::build_from(Err("bad".to_string()), &None, Ok(String::new()), Ok(String::new()))
        .unwrap_err();
    assert_eq!(error.message(), "Config: bad");

    let error = build(r#"private_key_file = "key.json""#).unwrap_err();
    assert_eq!(
        error.message(),
        format!("InvalidConfig: {}", ConfigError::PrivateKey("no file".to_string()).message())
    );
    let ErrorDetail::Text(text) = PacificaError::Trade(TradeError::Timeout).to_value() else {
        panic!("expected string value");
    };
    assert_eq!(text, "Trade: order request timed out");
    assert_eq!(
        PacificaError::WebSocket(WebSocketError::ConnectionInterrupted).message(),
        "WebSocket: connection interrupted"
    );
}

#[test]
fn register_tracks_symbol_and_signals_subscription() {
    let mut connector = test_connector();

    let first = connector.register("BTC".to_string());
    let second = connector.register("BTC".to_string());

    assert!(first);
    assert!(!second);
    assert!(connector.symbols().contains("BTC"));
    assert_eq!(connector.symbols().len(), 1);
}

#[test]
fn connector_order_manager_exposes_active_orders() {
    let mut connector = test_connector();
    open_connector_order(&mut connector);

    let orders = connector.order_manager().orders(Some("BTC".to_string()));

    assert_eq!(orders.len(), 1);
    assert_eq!(orders[0].order_id, 42);
}

#[test]
fn connector_modify_sends_edit_order() {
    let mut connector = test_connector();
    let created = open_connector_order(&mut connector);
    let order = replacement_order(42, 63_442, 0.0002);

    let edit = connector.modify("BTC", order, &quote(&order)).unwrap();
    let request = connector
        .trade_client()
        .edit_request(&edit, Ok(serde_json::to_string(&SEED.to_vec()).unwrap()))
        .unwrap();
    let events = connector.modify_done(&edit.client_order_id, Ok(()));

    assert_eq!(request.operation_type, "edit_order");
    assert_eq!(request.body.get("symbol").unwrap().as_str(), Some("BTC"));
    assert_eq!(request.body.get("price").unwrap().as_str(), Some("63442"));
    assert_eq!(request.body.get("amount").unwrap().as_str(), Some("0.0002"));
    assert_eq!(request.body.get("client_order_id").unwrap().as_str(), Some(created.as_str()));
    assert_eq!(events.len(), 1);
    let LiveEvent::Order { symbol, order } = &events[0] else {
        panic!("expected order response");
    };
    assert_eq!(symbol, "BTC");
    assert_eq!(order.order_id, 42);
    assert_eq!(order.price_tick, 63_442);
    assert_eq!(order.req, Status::Unset);
    assert_eq!(order.status, Status::New);
}

#[test]
fn connector_modify_failure_does_not_drop_order() {
    let mut connector = test_connector();
    let created = open_connector_order(&mut connector);
    let order = replacement_order(42, 63_442, 0.0002);

    let edit = connector.modify("BTC", order, &quote(&order)).unwrap();
    let events = connector.modify_done(&edit.client_order_id, Err(TradeError::NotStarted));

    let LiveEvent::Order { order, .. } = &events[0] else {
        panic!("expected restored order response");
    };
    let active = connector.order_manager().orders(Some("BTC".to_string()));
    assert_eq!(order.order_id, 42);
    assert_eq!(order.price_tick, 63_441);
    assert_eq!(order.req, Status::Unset);
    assert_eq!(order.status, Status::New);
    assert_eq!(active.len(), 1);
    assert_eq!(active[0].price_tick, 63_441);
    assert_eq!(connector.cancel("BTC", 42).unwrap().client_order_id, created);
    assert_eq!(events.len(), 2);
    assert_order_error(&events[1], "trade command client has not been started");
}

fn assert_order_error(event: &LiveEvent, message: &str) {
    let LiveEvent::Error { kind, value: ErrorDetail::Entry { name, text } } = event else {
        panic!("expected error event");
    };
    assert_eq!(*kind, ErrorKind::OrderError);
    assert_eq!(name, "msg");
    assert_eq!(text, message);
}

#[test]
fn refused_submit_is_told_and_leaves_the_book() {
    let mut connector = test_connector();
    let order = limit_order(42, 63_441, 0.0002);
    let create = connector.submit("BTC", order, &quote(&order)).unwrap();
    assert!(connector.submit_done(&create.client_order_id, Ok(())).is_empty());

    let duplicate = connector.submit("BTC", order, &quote(&order)).unwrap_err();
    assert_order_error(&duplicate, &OrderManagerError::OrderAlreadyExists.message());

    let events = connector.submit_done(&create.client_order_id, Err(TradeError::Timeout));
    assert_eq!(events.len(), 2);
    let LiveEvent::Order { symbol, order } = &events[0] else {
        panic!("expected order event");
    };
    assert_eq!(symbol, "BTC");
    assert_eq!((order.req, order.status), (Status::Unset, Status::Rejected));
    assert_order_error(&events[1], "order request timed out");

    let gone = connector.submit_done(&create.client_order_id, Err(TradeError::Timeout));
    assert_eq!(gone.len(), 1);
    assert_order_error(&gone[0], "order request timed out");
}

#[test]
fn failed_cancel_is_told_and_keeps_the_order() {
    let mut connector = test_connector();
    let created = open_connector_order(&mut connector);
    let cancel = connector.cancel("BTC", 42).unwrap();
    assert_eq!(cancel.symbol, "BTC");
    assert_eq!(cancel.client_order_id, created);
    assert!(connector.cancel_done(&cancel.client_order_id, Ok(())).is_empty());

    let events = connector.cancel_done(&cancel.client_order_id, Err(TradeError::Stopped));

    assert_eq!(events.len(), 2);
    let LiveEvent::Order { order, .. } = &events[0] else {
        panic!("expected order event");
    };
    assert_eq!(order.status, Status::New);
    assert_order_error(&events[1], "trade command client stopped");
    assert_eq!(connector.order_manager().orders(None).len(), 1);
    let unknown = connector.cancel("BTC", 43).unwrap_err();
    assert_order_error(&unknown, &OrderManagerError::OrderNotFound.message());
}

#[test]
fn refused_modify_is_told() {
    let mut connector = test_connector();
    let order = replacement_order(42, 63_442, 0.0002);

    let event = connector.modify("BTC", order, &quote(&order)).unwrap_err();

    assert_order_error(&event, &OrderManagerError::OrderNotFound.message());
}

#[test]
fn error_events_have_their_kind() {
    assert_order_error(&publish_order_error("no".to_string()), "no");
    let LiveEvent::Error { kind, value: ErrorDetail::Text(text) } =
        publish_connection_error("lost".to_string())
    else {
        panic!("expected error event");
    };
    assert_eq!(kind, ErrorKind::ConnectionInterrupted);
    assert_eq!(text, "lost");
}

#[test]
fn bot_receives_feed_and_order_events() {
    let feed = PublicMessage {
        channel: Ok(ChannelFrame { channel: "bbo".to_string() }),
        bbo: Ok(BboFrame {
            data: Bbo {
                symbol: "BTC".to_string(),
                bid_px: numeric("63441"),
                bid_qty: numeric("1"),
                ask_px: numeric("63442"),
                ask_qty: numeric("2"),
                timestamp_ms: 5,
                last_increment_id: None,
            },
        }),
        book: Err("missing field".to_string()),
        trades: Err("missing field".to_string()),
    };
    let mut published = publish_feed(map_public_message(&feed, 100).unwrap());

    let mut order_manager = OrderManager::new("pfhbt-");
    let order = limit_order(42, 63_441, 0.0002);
    let created = order_manager.new_order("BTC", order, &quote(&order)).unwrap();
    let updated = order_manager
        .apply_update(
            PacificaOrderUpdate {
                symbol: "BTC".to_string(),
                client_order_id: Some(created.client_order_id),
                exchange_order_id: Some(336542009),
                side: Some("bid".to_string()),
                price: Some("63441".to_string()),
                status: PacificaOrderStatus::Open,
                leaves_qty: Some(number(0.0002)),
                exec_qty: None,
                exec_price: None,
                exch_timestamp: 1,
            },
            fill,
        )
        .unwrap();
    published.push(LiveEvent::Order { symbol: updated.symbol, order: updated.order });

    assert_eq!(published.len(), 3);
    assert!(matches!(published[0], LiveEvent::Feed { .. }));
    assert!(matches!(published[1], LiveEvent::Feed { .. }));
    let LiveEvent::Order { order, .. } = &published[2] else {
        panic!("expected order event");
    };
    assert_eq!(order.status, Status::New);
}

#[test]
fn message_with_a_time_too_late_changes_nothing() {
    let mut connector = test_connector();
    let order = limit_order(42, 63_441, 0.0002);
    let created = connector.submit("BTC", order, &quote(&order)).unwrap().client_order_id;
    let stream = PrivateStream::new("acct".to_string());
    let text = r#"{"channel":"account_order_updates"}"#;
    let late = AccountOrderUpdate { updated_at_ms: i64::MAX, ..opened(&created) };

    let output =
        connector.try_private_step(&stream, PrivateInput::Text(message(text, vec![late])), fill);

    assert!(output.is_none());
    assert!(connector.order_manager().orders(None).is_empty());
    let output = connector.try_private_step(
        &stream,
        PrivateInput::Text(message(text, vec![opened(&created)])),
        fill,
    );
    assert!(matches!(output, Some(PrivateOutput::Publish(events)) if events.len() == 1));
    assert_eq!(connector.order_manager().orders(None).len(), 1);
    assert!(matches!(
        connector.try_private_step(&stream, PrivateInput::Ping, fill),
        Some(PrivateOutput::Pong)
    ));
}

#[test]
fn interrupted_stream_is_told_and_waited_for() {
    assert!(after_stream(None).is_none());
    let Some((LiveEvent::Error { kind, value: ErrorDetail::Text(text) }, seconds)) =
        after_stream(Some("lost".to_string()))
    else {
        panic!("expected error event");
    };
    assert_eq!(kind, ErrorKind::ConnectionInterrupted);
    assert_eq!(text, "lost");
    assert_eq!(seconds, 1);
}
