use pacifica::binary64::Binary64;
use pacifica::connector::GetOrders;
use pacifica::ordermanager::{
    FillNumbers, OrderManager, OrderManagerError, PacificaOrderStatus, PacificaOrderUpdate,
    QuoteText,
};
use pacifica::types::{OrdType, Order, OrderId, Side, Status, TimeInForce};

fn number(value: f64) -> Binary64 {
    Binary64 { bits: value.to_bits() }
}

fn value(number: Binary64) -> f64 {
    f64::from_bits(number.bits)
}

fn quote(order: &Order) -> QuoteText {
    QuoteText {
        price: (order.price_tick as f64 * value(order.tick_size)).to_string(),
        amount: value(order.qty).to_string(),
    }
}

fn fill(order: Order, qty: Option<Binary64>, price: Option<Binary64>) -> FillNumbers {
    let qty = qty.map(value).unwrap_or(0.0);
    let price = price.map(value).unwrap_or(0.0);
    FillNumbers {
        exec_qty: number(value(order.exec_qty) + qty),
        leaves_qty: number((value(order.leaves_qty) - qty).max(0.0)),
        exec_price_tick: (price / value(order.tick_size)).round() as i64,
    }
}

fn test_order(order_id: OrderId, side: Side) -> Order {
    Order::new(order_id, 100, number(1.0), number(0.01), side, OrdType::Limit, TimeInForce::GTX)
}

fn replacement_order(order_id: OrderId, side: Side, price_tick: i64, qty: f64) -> Order {
    let mut order = Order::new(
        order_id,
        price_tick,
        number(1.0),
        number(qty),
        side,
        OrdType::Limit,
        TimeInForce::GTX,
    );
    order.status = Status::New;
    order.req = Status::Replaced;
    order
}

fn place(manager: &mut OrderManager, symbol: &str, order: Order) -> String {
    manager.new_order(symbol, order, &quote(&order)).unwrap().client_order_id
}

fn open_test_order(
    manager: &mut OrderManager,
    order_id: OrderId,
    exchange_order_id: i64,
) -> String {
    let created = place(manager, "BTC", test_order(order_id, Side::Buy));
    manager
        .apply_update(
            PacificaOrderUpdate {
                symbol: "BTC".to_string(),
                client_order_id: Some(created.clone()),
                exchange_order_id: Some(exchange_order_id),
                side: Some("bid".to_string()),
                price: Some("100".to_string()),
                status: PacificaOrderStatus::Open,
                leaves_qty: Some(number(0.01)),
                exec_qty: None,
                exec_price: None,
                exch_timestamp: 10,
            },
            fill,
        )
        .unwrap();
    created
}

fn edit(manager: &mut OrderManager, order: Order) -> Result<String, OrderManagerError> {
    manager.edit_order("BTC", order, &quote(&order)).map(|payload| payload.client_order_id)
}

fn assert_uuid_v4(value: &str) {
    let bytes = value.as_bytes();
    assert_eq!(bytes.len(), 36);
    assert_eq!(bytes[8], b'-');
    assert_eq!(bytes[13], b'-');
    assert_eq!(bytes[18], b'-');
    assert_eq!(bytes[23], b'-');
    assert_eq!(bytes[14], b'4');
    assert!(matches!(bytes[19], b'8' | b'9' | b'a' | b'b'));
}

#[test]
fn new_order_maps_hft_id_to_client_id() {
    let mut manager = OrderManager::new("pfhbt-");
    let order = test_order(42, Side::Buy);

    let payload = manager.new_order("BTC", order, &quote(&order)).unwrap();

    assert_uuid_v4(&payload.client_order_id);
    assert_eq!(payload.side, "bid");
    assert_eq!(payload.tif, "ALO");
}

#[test]
fn duplicate_hft_order_id_is_rejected() {
    let mut manager = OrderManager::new("pfhbt-");
    let order = test_order(42, Side::Buy);

    manager.new_order("BTC", order, &quote(&order)).unwrap();
    let error = manager.new_order("BTC", order, &quote(&order)).unwrap_err();

    assert_eq!(error, OrderManagerError::OrderAlreadyExists);
}

#[test]
fn cancel_order_uses_existing_client_id() {
    let mut manager = OrderManager::new("pfhbt-");

    let created = place(&mut manager, "BTC", test_order(42, Side::Buy));
    let payload = manager.cancel_order("BTC", 42).unwrap();

    assert_eq!(payload.client_order_id, created);
}

#[test]
fn edit_preserves_hft_order_and_client_id() {
    let mut manager = OrderManager::new("pfhbt-");
    let created = open_test_order(&mut manager, 42, 123);

    let order = replacement_order(42, Side::Buy, 101, 0.02);
    let payload = manager.edit_order("BTC", order, &quote(&order)).unwrap();
    let active = manager.orders(Some("BTC".to_string()));

    assert_eq!(payload.client_order_id, created);
    assert_eq!(payload.price, "101");
    assert_eq!(payload.amount, "0.02");
    assert_eq!(active.len(), 1);
    assert_eq!(active[0].order_id, 42);
    assert_eq!(active[0].price_tick, 101);
    assert_eq!(value(active[0].qty), 0.02);
    assert_eq!(active[0].req, Status::Replaced);
}

#[test]
fn edit_ack_clears_pending_request() {
    let mut manager = OrderManager::new("pfhbt-");
    let created = open_test_order(&mut manager, 42, 123);
    edit(&mut manager, replacement_order(42, Side::Buy, 101, 0.02)).unwrap();

    let acknowledged = manager.update_edit_ack(&created).unwrap();

    assert_eq!(acknowledged.order.price_tick, 101);
    assert_eq!(value(acknowledged.order.qty), 0.02);
    assert_eq!(acknowledged.order.status, Status::New);
    assert_eq!(acknowledged.order.req, Status::Unset);
}

#[test]
fn edit_failure_restores_previous_active_order() {
    let mut manager = OrderManager::new("pfhbt-");
    let created = open_test_order(&mut manager, 42, 123);
    edit(&mut manager, replacement_order(42, Side::Buy, 101, 0.02)).unwrap();

    let restored = manager.update_edit_fail(&created).unwrap();

    assert_eq!(restored.order.price_tick, 100);
    assert_eq!(value(restored.order.qty), 0.01);
    assert_eq!(restored.order.status, Status::New);
    assert_eq!(restored.order.req, Status::Unset);
    assert_eq!(manager.cancel_order("BTC", 42).unwrap().client_order_id, created);
}

#[test]
fn cancel_after_edit_uses_preserved_client_id() {
    let mut manager = OrderManager::new("pfhbt-");
    let created = open_test_order(&mut manager, 42, 123);

    edit(&mut manager, replacement_order(42, Side::Buy, 101, 0.02)).unwrap();
    let payload = manager.cancel_order("BTC", 42).unwrap();

    assert_eq!(payload.client_order_id, created);
}

#[test]
fn edit_response_updates_exchange_id() {
    let mut manager = OrderManager::new("pfhbt-");
    let created = open_test_order(&mut manager, 42, 123);
    edit(&mut manager, replacement_order(42, Side::Buy, 101, 0.02)).unwrap();

    let edited = manager.update_exchange_order_id(&created, 456).unwrap();
    let stale_error = manager
        .apply_update(
            PacificaOrderUpdate {
                symbol: "BTC".to_string(),
                client_order_id: None,
                exchange_order_id: Some(123),
                side: None,
                price: None,
                status: PacificaOrderStatus::PartiallyFilled,
                leaves_qty: Some(number(0.01)),
                exec_qty: Some(number(0.01)),
                exec_price: Some(number(101.0)),
                exch_timestamp: 20,
            },
            fill,
        )
        .unwrap_err();
    let update_by_new_exchange_id = manager
        .apply_update(
            PacificaOrderUpdate {
                symbol: "BTC".to_string(),
                client_order_id: None,
                exchange_order_id: Some(456),
                side: None,
                price: None,
                status: PacificaOrderStatus::PartiallyFilled,
                leaves_qty: Some(number(0.01)),
                exec_qty: Some(number(0.01)),
                exec_price: Some(number(101.0)),
                exch_timestamp: 30,
            },
            fill,
        )
        .unwrap();

    assert_eq!(edited.exchange_order_id, Some(456));
    assert_eq!(edited.order.req, Status::Unset);
    assert_eq!(stale_error, OrderManagerError::UnresolvedUpdate);
    assert_eq!(update_by_new_exchange_id.exchange_order_id, Some(456));
}

#[test]
fn rejected_create_clears_pending_state() {
    let mut manager = OrderManager::new("pfhbt-");
    let created = place(&mut manager, "BTC", test_order(42, Side::Buy));

    let updated = manager
        .apply_update(
            PacificaOrderUpdate {
                symbol: "BTC".to_string(),
                client_order_id: Some(created),
                exchange_order_id: Some(123),
                side: Some("bid".to_string()),
                price: Some("100".to_string()),
                status: PacificaOrderStatus::Rejected,
                leaves_qty: None,
                exec_qty: None,
                exec_price: None,
                exch_timestamp: 10,
            },
            fill,
        )
        .unwrap();

    assert_eq!(updated.order.status, Status::Rejected);
    assert!(manager.orders(Some("BTC".to_string())).is_empty());
    assert!(manager.cancel_order("BTC", 42).is_err());
}

#[test]
fn missing_client_id_update_resolves_pending_create() {
    let mut manager = OrderManager::new("pfhbt-");
    let created = place(&mut manager, "BTC", test_order(42, Side::Buy));

    let updated = manager
        .apply_update(
            PacificaOrderUpdate {
                symbol: "BTC".to_string(),
                client_order_id: None,
                exchange_order_id: Some(123),
                side: Some("bid".to_string()),
                price: Some("100".to_string()),
                status: PacificaOrderStatus::Open,
                leaves_qty: Some(number(0.01)),
                exec_qty: None,
                exec_price: None,
                exch_timestamp: 10,
            },
            fill,
        )
        .unwrap();

    assert_eq!(updated.client_order_id, created);
    assert_eq!(updated.exchange_order_id, Some(123));
    assert_eq!(
        manager.cancel_order("BTC", 42).unwrap().client_order_id,
        updated.client_order_id
    );
}

#[test]
fn exchange_id_update_resolves_known_order() {
    let mut manager = OrderManager::new("pfhbt-");
    place(&mut manager, "BTC", test_order(42, Side::Buy));
    manager
        .apply_update(
            PacificaOrderUpdate {
                symbol: "BTC".to_string(),
                client_order_id: None,
                exchange_order_id: Some(123),
                side: Some("bid".to_string()),
                price: Some("100".to_string()),
                status: PacificaOrderStatus::Open,
                leaves_qty: None,
                exec_qty: None,
                exec_price: None,
                exch_timestamp: 10,
            },
            fill,
        )
        .unwrap();

    let updated = manager
        .apply_update(
            PacificaOrderUpdate {
                symbol: "BTC".to_string(),
                client_order_id: None,
                exchange_order_id: Some(123),
                side: None,
                price: None,
                status: PacificaOrderStatus::PartiallyFilled,
                leaves_qty: Some(number(0.005)),
                exec_qty: Some(number(0.005)),
                exec_price: Some(number(100.0)),
                exch_timestamp: 20,
            },
            fill,
        )
        .unwrap();

    assert_eq!(updated.order.status, Status::PartiallyFilled);
    assert_eq!(value(updated.order.exec_qty), 0.005);
    assert_eq!(updated.order.exec_price_tick, 100);
}

#[test]
fn partial_trade_delta_keeps_order_active_until_remaining_quantity_is_filled() {
    let mut manager = OrderManager::new("pfhbt-");
    let created = place(&mut manager, "BTC", test_order(42, Side::Buy));

    let first = manager
        .apply_update(
            PacificaOrderUpdate {
                symbol: "BTC".to_string(),
                client_order_id: Some(created.clone()),
                exchange_order_id: Some(123),
                side: None,
                price: None,
                status: PacificaOrderStatus::PartiallyFilled,
                leaves_qty: None,
                exec_qty: Some(number(0.004)),
                exec_price: Some(number(100.0)),
                exch_timestamp: 10,
            },
            fill,
        )
        .unwrap();

    assert_eq!(first.order.status, Status::PartiallyFilled);
    assert_eq!(value(first.order.exec_qty), 0.004);
    assert_eq!(value(first.order.leaves_qty), 0.006);
    assert_eq!(manager.orders(Some("BTC".to_string())).len(), 1);

    let second = manager
        .apply_update(
            PacificaOrderUpdate {
                symbol: "BTC".to_string(),
                client_order_id: Some(created),
                exchange_order_id: Some(123),
                side: None,
                price: None,
                status: PacificaOrderStatus::PartiallyFilled,
                leaves_qty: None,
                exec_qty: Some(number(0.006)),
                exec_price: Some(number(100.0)),
                exch_timestamp: 20,
            },
            fill,
        )
        .unwrap();

    assert_eq!(second.order.status, Status::Filled);
    assert_eq!(value(second.order.exec_qty), 0.01);
    assert_eq!(value(second.order.leaves_qty), 0.0);
    assert!(manager.orders(Some("BTC".to_string())).is_empty());
}

#[test]
fn unknown_client_id_does_not_resolve_pending_create_by_price() {
    let mut manager = OrderManager::new("pfhbt-");
    place(&mut manager, "BTC", test_order(42, Side::Buy));

    let error = manager
        .apply_update(
            PacificaOrderUpdate {
                symbol: "BTC".to_string(),
                client_order_id: Some("external-order".to_string()),
                exchange_order_id: Some(123),
                side: Some("bid".to_string()),
                price: Some("100".to_string()),
                status: PacificaOrderStatus::Open,
                leaves_qty: None,
                exec_qty: None,
                exec_price: None,
                exch_timestamp: 10,
            },
            fill,
        )
        .unwrap_err();

    assert_eq!(error, OrderManagerError::UnresolvedUpdate);
}

#[test]
fn orders_of_other_kinds_are_refused() {
    let mut manager = OrderManager::new("pfhbt-");
    let mut market = test_order(1, Side::Buy);
    market.order_type = OrdType::Market;
    let mut resting = test_order(1, Side::Buy);
    resting.time_in_force = TimeInForce::GTC;
    let sideless = test_order(1, Side::Unset);
    let sidelong = test_order(1, Side::Unsupported);

    for (order, arg) in [
        (market, "order_type"),
        (resting, "time_in_force"),
        (sideless, "side"),
        (sidelong, "side"),
    ] {
        let error = manager.new_order("BTC", order, &quote(&order)).unwrap_err();
        assert_eq!(error, OrderManagerError::InvalidArg(arg));
        assert_eq!(error.message(), format!("invalid order argument: {arg}"));
    }
    assert!(manager.orders(None).is_empty());
}

#[test]
fn same_number_for_two_symbols_are_two_orders() {
    let mut manager = OrderManager::new("pfhbt-");
    let btc = place(&mut manager, "BTC", test_order(7, Side::Buy));
    let eth = place(&mut manager, "ETH", test_order(7, Side::Sell));

    assert_ne!(btc, eth);
    assert_eq!(manager.cancel_order("ETH", 7).unwrap().client_order_id, eth);
    assert_eq!(manager.cancel_order("BTC", 7).unwrap().symbol, "BTC");
    assert_eq!(manager.cancel_order("SOL", 7).unwrap_err(), OrderManagerError::OrderNotFound);
}

#[test]
fn given_name_that_is_taken_is_refused() {
    let mut manager = OrderManager::new("pfhbt-");
    let first = test_order(1, Side::Sell);
    let second = test_order(2, Side::Sell);

    let payload = manager.new_order_with_id("BTC", first, &quote(&first), "a".to_string()).unwrap();
    assert_eq!(payload.client_order_id, "a");
    assert_eq!(payload.side, "ask");
    assert_eq!(payload.price, "100");
    assert_eq!(payload.amount, "0.01");
    assert_eq!(
        manager.new_order_with_id("BTC", second, &quote(&second), "a".to_string()).unwrap_err(),
        OrderManagerError::OrderAlreadyExists
    );
}

#[test]
fn edit_needs_a_replacement_of_an_active_order() {
    let mut manager = OrderManager::new("pfhbt-");
    let mut order = replacement_order(42, Side::Buy, 101, 0.02);

    assert_eq!(edit(&mut manager, order).unwrap_err(), OrderManagerError::OrderNotFound);
    place(&mut manager, "BTC", test_order(42, Side::Buy));
    assert_eq!(edit(&mut manager, order).unwrap_err(), OrderManagerError::InvalidArg("status"));
    order.req = Status::New;
    assert_eq!(edit(&mut manager, order).unwrap_err(), OrderManagerError::InvalidArg("req"));
}

#[test]
fn answers_about_unknown_orders_are_refused() {
    let mut manager = OrderManager::new("pfhbt-");

    assert_eq!(manager.update_edit_ack("x").unwrap_err(), OrderManagerError::OrderNotFound);
    assert_eq!(manager.update_edit_fail("x").unwrap_err(), OrderManagerError::OrderNotFound);
    assert_eq!(manager.update_submit_fail("x").unwrap_err(), OrderManagerError::OrderNotFound);
    assert_eq!(manager.update_cancel_fail("x").unwrap_err(), OrderManagerError::OrderNotFound);
    let error = manager.update_exchange_order_id("x", 1).unwrap_err();
    assert_eq!(error.message(), "order not found");
}

#[test]
fn second_answer_to_a_replacement_is_refused() {
    let mut manager = OrderManager::new("pfhbt-");
    let created = open_test_order(&mut manager, 42, 123);
    edit(&mut manager, replacement_order(42, Side::Buy, 101, 0.02)).unwrap();

    manager.update_edit_ack(&created).unwrap();
    assert_eq!(manager.update_edit_fail(&created).unwrap_err(), OrderManagerError::OrderNotFound);
}

#[test]
fn filled_update_sets_totals_and_ends_the_order() {
    let mut manager = OrderManager::new("pfhbt-");
    open_test_order(&mut manager, 42, 123);

    let done = manager
        .apply_update(
            PacificaOrderUpdate {
                symbol: "BTC".to_string(),
                client_order_id: None,
                exchange_order_id: Some(123),
                side: None,
                price: None,
                status: PacificaOrderStatus::Filled,
                leaves_qty: None,
                exec_qty: Some(number(0.25)),
                exec_price: None,
                exch_timestamp: 77,
            },
            fill,
        )
        .unwrap();

    assert_eq!(done.order.status, Status::Filled);
    assert_eq!(value(done.order.exec_qty), 0.25);
    assert_eq!(value(done.order.leaves_qty), 0.01);
    assert_eq!(done.order.exec_price_tick, 0);
    assert_eq!(done.order.exch_timestamp, 77);
    assert!(manager.orders(None).is_empty());
    assert_eq!(manager.cancel_order("BTC", 42).unwrap_err(), OrderManagerError::OrderNotFound);
}

#[test]
fn words_for_refusals() {
    assert_eq!(OrderManagerError::OrderAlreadyExists.message(), "order already exists");
    assert_eq!(
        OrderManagerError::UnresolvedUpdate.message(),
        "order update could not be resolved"
    );
}

#[test]
fn working_orders_are_listed_by_symbol() {
    let mut manager = OrderManager::new("pfhbt-");
    let btc = place(&mut manager, "BTC", test_order(1, Side::Buy));
    let eth = place(&mut manager, "ETH", test_order(2, Side::Buy));
    place(&mut manager, "ETH", test_order(3, Side::Buy));
    manager.update_cancel_fail(&btc).unwrap();
    manager.update_cancel_fail(&eth).unwrap();

    let mut all: Vec<u64> = manager.orders(None).iter().map(|order| order.order_id).collect();
    all.sort();
    assert_eq!(all, vec![1, 2]);
    let eth: Vec<u64> =
        manager.orders(Some("ETH".to_string())).iter().map(|order| order.order_id).collect();
    assert_eq!(eth, vec![2]);
}
