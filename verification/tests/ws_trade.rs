use pacifica::json::{parse_json, print_json, Json};
use pacifica::order_payload::{CancelOrderPayload, CreateOrderPayload, EditOrderPayload, Payload};
use pacifica::signing::PacificaSigner;
use pacifica::websocket::{
    ping_payload, private_subscriptions, public_subscriptions, WebSocketError,
};
use pacifica::ws_trade::{
    command_envelope, parse_trade_response, request_id, CancelAllOrdersPayload,
    CreateMarketOrderPayload, RawTradeResponse, WsTradeAction, WsTradeProtocolError,
};

fn raw(text: &str) -> Result<RawTradeResponse, String> {
    let value: serde_json::Value = serde_json::from_str(text).map_err(|error| error.to_string())?;
    let part = |name: &str| {
        value
            .get(name)
            .filter(|value| !value.is_null())
            .map(|value| parse_json(&value.to_string()).unwrap())
    };
    Ok(RawTradeResponse {
        code: value["code"].as_i64(),
        data: part("data"),
        error: part("error"),
        id: value["id"].as_str().map(String::from),
        timestamp_ms: value["t"].as_i64(),
        command_type: value["type"].as_str().map(String::from),
    })
}

fn signer() -> PacificaSigner {
    PacificaSigner::from_key_bytes(&[7u8; 32], "acct", 5000).unwrap()
}

fn params<'a>(request: &'a Json, action: &str) -> Option<&'a Json> {
    request.get("params").and_then(|params| params.get(action))
}

fn assert_uuid_v4(value: &str) {
    let bytes = value.as_bytes();
    assert_eq!(bytes.len(), 36);
    assert_eq!(bytes[8], b'-');
    assert_eq!(bytes[13], b'-');
    assert_eq!(bytes[18], b'-');
    assert_eq!(bytes[23], b'-');
    assert_eq!(bytes[14], b'4');
    assert!(matches!(bytes[19], b'8' | b'9' | b'a' | b'b'));
}

#[test]
fn create_command_holds_the_signed_body() {
    let payload = CreateOrderPayload::new("BTC", "100000.00", "0.001", "bid", "c");
    let signed = signer().sign_payload("create_order", &payload, 1).unwrap().into_value();
    let text = print_json(signed.copy());
    let request = command_envelope(
        "660065de-8f32-46ad-ba1e-83c93d3e3966",
        WsTradeAction::CreateOrder,
        signed,
    );

    assert_eq!(
        request.get("id").unwrap().as_str(),
        Some("660065de-8f32-46ad-ba1e-83c93d3e3966")
    );
    assert_eq!(print_json(params(&request, "create_order").unwrap().copy()), text);
    assert!(params(&request, "cancel_order").is_none());
    assert!(print_json(request).contains("signature"));
}

#[test]
fn cancel_and_edit_commands_hold_the_signed_body() {
    let cancel = CancelOrderPayload::new("BTC", "c");
    let signed = signer().sign_payload("cancel_order", &cancel, 1).unwrap().into_value();
    let request = command_envelope("id-1", WsTradeAction::CancelOrder, signed);
    assert!(params(&request, "cancel_order").is_some());
    assert!(params(&request, "create_order").is_none());

    let edit = EditOrderPayload::new("BTC", "99500", "0.002", "c");
    let signed = signer().sign_payload("edit_order", &edit, 1).unwrap().into_value();
    let request = command_envelope("id-2", WsTradeAction::EditOrder, signed);
    assert!(params(&request, "edit_order").is_some());
    assert!(params(&request, "create_order").is_none());
    assert!(params(&request, "cancel_order").is_none());
}

#[test]
fn command_is_written_as_the_exchange_expects() {
    let request = command_envelope("id", WsTradeAction::BatchOrders, parse_json("[1,{}]").unwrap());

    assert_eq!(print_json(request), r#"{"id":"id","params":{"batch_orders":[1,{}]}}"#);
}

#[test]
fn market_and_cancel_all_envelopes_match_docs() {
    let market = CreateMarketOrderPayload::new(
        "BTC",
        "0.001",
        "bid",
        "0.5",
        "79f948fd-7556-4066-a128-083f3ea49322",
        false,
    );
    let market_request = command_envelope(
        "660065de-8f32-46ad-ba1e-83c93d3e3966",
        WsTradeAction::CreateMarketOrder,
        market.to_json(),
    );
    let body = params(&market_request, "create_market_order").unwrap();

    assert_eq!(body.get("slippage_percent").unwrap().as_str(), Some("0.5"));
    assert!(matches!(body.get("reduce_only"), Some(Json::Bool(false))));

    let cancel_all = CancelAllOrdersPayload::all_symbols(false).to_json();
    let cancel_all_request = command_envelope(
        "4e9b4edb-b123-4759-9250-d19db61fabcb",
        WsTradeAction::CancelAllOrders,
        cancel_all,
    );
    let body = params(&cancel_all_request, "cancel_all_orders").unwrap();

    assert!(matches!(body.get("all_symbols"), Some(Json::Bool(true))));
    assert!(matches!(body.get("exclude_reduce_only"), Some(Json::Bool(false))));
    assert!(body.get("symbol").is_none());
}

#[test]
fn bodies_without_an_order_are_written_in_full() {
    assert_eq!(
        print_json(CancelAllOrdersPayload::for_symbol("BTC", true).to_json()),
        r#"{"all_symbols":false,"exclude_reduce_only":true,"symbol":"BTC"}"#
    );
    assert_eq!(
        print_json(CreateMarketOrderPayload::new("B", "1", "ask", "2", "c", true).to_json()),
        r#"{"amount":"1","client_order_id":"c","reduce_only":true,"side":"ask","slippage_percent":"2","symbol":"B"}"#
    );
}

#[test]
fn generated_request_id_is_uuid_v4_and_hides_signature() {
    let id = request_id();

    assert_uuid_v4(&id);
    assert!(!id.contains("signature"));
}

#[test]
fn parse_create_order_ws_success() {
    let text = r#"{"code":200,"data":{"I":"79f948fd-7556-4066-a128-083f3ea49322","i":645953,"s":"BTC"},"id":"660065de-8f32-46ad-ba1e-83c93d3e3966","t":1749223025962,"type":"create_order"}"#;

    let response =
        parse_trade_response(raw(text), Some("660065de-8f32-46ad-ba1e-83c93d3e3966")).unwrap();

    assert_eq!(response.request_id, "660065de-8f32-46ad-ba1e-83c93d3e3966");
    assert_eq!(response.command_type, "create_order");
    assert_eq!(response.code, 200);
    assert_eq!(response.data.i64_member("i"), Some(645953));
    assert_eq!(response.timestamp_ms, Some(1749223025962));
}

#[test]
fn parse_cancel_order_ws_success() {
    let text = r#"{"code":200,"data":{"I":"79f948fd-7556-4066-a128-083f3ea49322","i":null,"s":"BTC"},"id":"1bb2b72f-f545-4938-8a38-c5cda8823675","t":1749223343610,"type":"cancel_order"}"#;

    let response =
        parse_trade_response(raw(text), Some("1bb2b72f-f545-4938-8a38-c5cda8823675")).unwrap();

    assert_eq!(response.command_type, "cancel_order");
    assert_eq!(
        response.data.str_member("I"),
        Some("79f948fd-7556-4066-a128-083f3ea49322".to_string())
    );
    assert!(matches!(response.data.get("i"), Some(Json::Null)));
}

#[test]
fn parse_edit_order_ws_success() {
    let text = r#"{"code":200,"data":{"I":"79f948fd-7556-4066-a128-083f3ea49322","i":645954,"s":"BTC"},"id":"660065de-8f32-46ad-ba1e-83c93d3e3966","t":1749223026150,"type":"edit_order"}"#;

    let response =
        parse_trade_response(raw(text), Some("660065de-8f32-46ad-ba1e-83c93d3e3966")).unwrap();

    assert_eq!(response.command_type, "edit_order");
    assert_eq!(
        response.data.str_member("I"),
        Some("79f948fd-7556-4066-a128-083f3ea49322".to_string())
    );
    assert_eq!(response.data.i64_member("i"), Some(645954));
}

#[test]
fn parse_ws_command_error() {
    let text = r#"{"code":400,"error":"Invalid batch operation parameters","id":"660065de-8f32-46ad-ba1e-83c93d3e3966","type":"batch_orders"}"#;

    let error =
        parse_trade_response(raw(text), Some("660065de-8f32-46ad-ba1e-83c93d3e3966")).unwrap_err();

    assert!(matches!(error, WsTradeProtocolError::Command { code: Some(400), .. }));
    assert_eq!(
        error.message(),
        r#"websocket trade command failed: code=Some(400) error=Some(String("Invalid batch operation parameters"))"#
    );
}

#[test]
fn parse_ws_command_rejects_mismatched_id() {
    let text = r#"{"code":200,"data":{"I":"client","s":"BTC"},"id":"actual","t":1749223343610,"type":"cancel_order"}"#;

    let error = parse_trade_response(raw(text), Some("expected")).unwrap_err();

    assert!(matches!(error, WsTradeProtocolError::RequestIdMismatch { .. }));
    assert_eq!(
        error.message(),
        "websocket trade response id mismatch: expected expected, got actual"
    );
}

#[test]
fn parse_ws_command_needs_its_fields() {
    let error = parse_trade_response(raw(r#"{"code":200,"type":"x"}"#), None).unwrap_err();
    assert_eq!(error.message(), "missing websocket trade response id");
    let error = parse_trade_response(raw(r#"{"code":200,"id":"x"}"#), Some("x")).unwrap_err();
    assert_eq!(error.message(), "missing websocket trade response type");
    let error = parse_trade_response(raw(r#"{"id":"x","type":"y"}"#), None).unwrap_err();
    assert_eq!(error.message(), "websocket trade command failed: code=None error=None");
    let error = parse_trade_response(raw(r#"{"code":-5}"#), None).unwrap_err();
    assert_eq!(error.message(), "websocket trade command failed: code=Some(-5) error=None");
    let error = parse_trade_response(raw(r#"{"code":200,"error":{"a":1.5}}"#), None).unwrap_err();
    assert_eq!(
        error.message(),
        r#"websocket trade command failed: code=Some(200) error=Some(Object {"a": Number(1.5)})"#
    );
    let error = parse_trade_response(Err("EOF".to_string()), None).unwrap_err();
    assert_eq!(error.message(), "json: EOF");
    let response = parse_trade_response(raw(r#"{"code":200,"id":"x","type":"y"}"#), None).unwrap();
    assert!(matches!(response.data, Json::Null));
}

#[test]
fn commands_are_found_by_their_names() {
    for action in [
        WsTradeAction::CreateOrder,
        WsTradeAction::CancelOrder,
        WsTradeAction::EditOrder,
        WsTradeAction::CreateMarketOrder,
        WsTradeAction::CancelAllOrders,
        WsTradeAction::BatchOrders,
    ] {
        assert_eq!(WsTradeAction::from_operation_type(action.as_str()), Some(action));
    }
    assert_eq!(WsTradeAction::from_operation_type("Create_order"), None);
}

#[test]
fn public_stream_subscribes_registered_symbol() {
    let payloads = public_subscriptions("BTC", 1);
    let source = |i: usize| payloads[i].get("params").unwrap().str_member("source");

    assert_eq!(source(0), Some("book".to_string()));
    assert_eq!(payloads[0].get("params").unwrap().str_member("symbol"), Some("BTC".to_string()));
    assert_eq!(payloads[0].get("params").unwrap().i64_member("agg_level"), Some(1));
    assert_eq!(source(1), Some("trades".to_string()));
    assert_eq!(source(2), Some("bbo".to_string()));
}

#[test]
fn private_stream_subscribes_account_channels() {
    let payloads = private_subscriptions("acct");
    let member = |i: usize, name: &str| payloads[i].get("params").unwrap().str_member(name);

    assert_eq!(member(0, "source"), Some("account_positions".to_string()));
    assert_eq!(member(1, "source"), Some("account_order_updates".to_string()));
    assert_eq!(member(2, "source"), Some("account_trades".to_string()));
    assert_eq!(member(2, "account"), Some("acct".to_string()));
}

#[test]
fn ping_payload_matches_pacifica_heartbeat() {
    assert_eq!(print_json(ping_payload()), r#"{"method":"ping"}"#);
}

#[test]
fn subscriptions_are_written_with_sorted_names() {
    let texts: Vec<String> =
        public_subscriptions("BTC", -2).into_iter().map(print_json).collect();
    assert_eq!(
        texts[0],
        r#"{"method":"subscribe","params":{"agg_level":-2,"source":"book","symbol":"BTC"}}"#
    );
    assert_eq!(
        texts[2],
        r#"{"method":"subscribe","params":{"source":"bbo","symbol":"BTC"}}"#
    );
}

#[test]
fn words_for_socket_errors() {
    assert_eq!(WebSocketError::ConnectionInterrupted.message(), "connection interrupted");
    assert_eq!(WebSocketError::Tungstenite("x".to_string()).message(), "websocket: x");
    assert_eq!(WebSocketError::Json("x".to_string()).message(), "json: x");
}
