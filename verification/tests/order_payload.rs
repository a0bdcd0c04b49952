use pacifica::json::{print_json, Json};
use pacifica::order_payload::{
    to_sorted_payload, CancelOrderPayload, CreateOrderPayload, EditOrderPayload, Payload,
};

#[test]
fn create_payload_uses_alo() {
    let payload = CreateOrderPayload::new("BTC", "100000.00", "0.001", "bid", "client");

    assert_eq!(payload.tif, "ALO");
    assert!(!payload.reduce_only);
}

#[test]
fn cancel_payload_contains_client_order_id() {
    let payload = CancelOrderPayload::new("BTC", "client");

    assert_eq!(payload.symbol, "BTC");
    assert_eq!(payload.client_order_id, "client");
}

#[test]
fn edit_payload_contains_price_amount_and_client_order_id() {
    let payload = EditOrderPayload::new("BTC", "99500", "0.002", "client");

    assert_eq!(payload.symbol, "BTC");
    assert_eq!(payload.price, "99500");
    assert_eq!(payload.amount, "0.002");
    assert_eq!(payload.client_order_id, "client");
}

#[test]
fn payloads_are_written_with_sorted_names() {
    assert_eq!(
        print_json(CreateOrderPayload::new("BTC", "1", "2", "bid", "c").to_json()),
        r#"{"amount":"2","client_order_id":"c","price":"1","reduce_only":false,"side":"bid","symbol":"BTC","tif":"ALO"}"#
    );
    assert_eq!(
        print_json(CancelOrderPayload::new("BTC", "c").to_json()),
        r#"{"client_order_id":"c","symbol":"BTC"}"#
    );
    assert_eq!(
        print_json(EditOrderPayload::new("BTC", "1", "2", "c").to_json()),
        r#"{"amount":"2","client_order_id":"c","price":"1","symbol":"BTC"}"#
    );
}

#[test]
fn sorted_payload_lists_the_members() {
    let members = to_sorted_payload(&CancelOrderPayload::new("BTC", "c"));

    assert_eq!(members.len(), 2);
    assert_eq!(members[0].0, "client_order_id");
    assert!(matches!(&members[1].1, Json::Text(text) if text == "BTC"));
}
