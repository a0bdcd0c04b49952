use pacifica::binary64::Binary64;
use pacifica::command_worker::{CommandWorker, WorkerAction, WorkerEvent};
use pacifica::config::Config;
use pacifica::json::{parse_json, print_json, Json};
use pacifica::order_payload::{CancelOrderPayload, CreateOrderPayload, EditOrderPayload};
use pacifica::ordermanager::{OrderManager, QuoteText};
use pacifica::signing::{PacificaSigner, SigningError};
use pacifica::trade_stream::{
    fail_pending, handle_response_text, is_pong, redacted_error_text, request_id, response_id,
    send_signed, Handover, PendingRequests, Reply, SignedTradeRequest, TradeClient, TradeError,
    EXPIRY_WINDOW_MS, ORDER_TIMEOUT_MS,
};
use pacifica::types::{ErrorDetail, OrdType, Order, Side, Status, TimeInForce};
use pacifica::websocket::WebSocketError;
use pacifica::ws_trade::{RawTradeResponse, WsTradeProtocolError};

const SEED: [u8; 32] = [
    0x9d, 0x61, 0xb1, 0x9d, 0xef, 0xfd, 0x5a, 0x60, 0xba, 0x84, 0x4a, 0xf4, 0x92, 0xec, 0x2c, 0xc4,
    0x44, 0x49, 0xc5, 0x69, 0x7b, 0x32, 0x69, 0x19, 0x70, 0x3b, 0xac, 0x03, 0x1c, 0xae, 0x7f, 0x60,
];

fn number(value: f64) -> Binary64 {
    Binary64 { bits: value.to_bits() }
}

fn assert_uuid_v4(value: &str) {
    let bytes = value.as_bytes();
    assert_eq!(bytes.len(), 36);
    assert_eq!(bytes[8], b'-');
    assert_eq!(bytes[13], b'-');
    assert_eq!(bytes[18], b'-');
    assert_eq!(bytes[23], b'-');
    assert_eq!(bytes[14], b'4');
    assert!(matches!(bytes[19], b'8' | b'9' | b'a' | b'b'));
}

fn quoted_order() -> (Order, QuoteText) {
    let order = Order::new(
        42,
        63_441,
        number(1.0),
        number(0.0002),
        Side::Buy,
        OrdType::Limit,
        TimeInForce::GTX,
    );
    let quote = QuoteText {
        price: (63_441f64 * 1.0).to_string(),
        amount: 0.0002f64.to_string(),
    };
    (order, quote)
}

fn new_order(manager: &mut OrderManager) -> CreateOrderPayload {
    let (order, quote) = quoted_order();
    manager.new_order("BTC", order, &quote).unwrap()
}

fn test_client() -> TradeClient {
    TradeClient::new(&Config {
        trade_url: "ws://example.invalid/ws".to_string(),
        account: "acct".to_string(),
        private_key_file: "key.json".to_string(),
        ..Config::default()
    })
}

fn key_text() -> String {
    format!(" {}\n", serde_json::to_string(&SEED.to_vec()).unwrap())
}

fn create_payload() -> CreateOrderPayload {
    CreateOrderPayload::new(
        "BTC",
        "63441",
        "0.0002",
        "bid",
        "79f948fd-7556-4066-a128-083f3ea49322",
    )
}

fn json_value(text: &str) -> Option<Json> {
    Some(parse_json(text).unwrap())
}

fn response(text: &str) -> Result<RawTradeResponse, String> {
    let value: serde_json::Value = serde_json::from_str(text).map_err(|error| error.to_string())?;
    let part = |name: &str| match &value[name] {
        serde_json::Value::Null => None,
        part => json_value(&part.to_string()),
    };
    Ok(RawTradeResponse {
        code: value["code"].as_i64(),
        id: value["id"].as_str().map(String::from),
        timestamp_ms: value["t"].as_i64(),
        command_type: value["type"].as_str().map(String::from),
        data: part("data"),
        error: part("error"),
    })
}

fn waiting_for(ids: &[&str]) -> PendingRequests {
    let mut pending = PendingRequests::new();
    for id in ids {
        pending.insert(id.to_string());
    }
    pending
}

fn words(result: Result<(), TradeError>) -> String {
    result.unwrap_err().message()
}

#[test]
fn submit_limit_gtx_builds_alo_create() {
    let mut manager = OrderManager::new("pfhbt-");
    let payload = new_order(&mut manager);

    assert_eq!(payload.symbol, "BTC");
    assert_eq!(payload.side, "bid");
    assert_eq!(payload.price, "63441");
    assert_eq!(payload.amount, "0.0002");
    assert_eq!(payload.tif, "ALO");
    assert_uuid_v4(&payload.client_order_id);
}

#[test]
fn cancel_builds_client_order_id_cancel() {
    let mut manager = OrderManager::new("pfhbt-");
    let created = new_order(&mut manager).client_order_id;

    let payload = manager.cancel_order("BTC", 42).unwrap();

    assert_eq!(payload.symbol, "BTC");
    assert_eq!(payload.client_order_id, created);
}

#[test]
fn request_ids_are_unique_and_hide_signature() {
    let first = request_id();
    let second = request_id();

    assert_uuid_v4(&first);
    assert_uuid_v4(&second);
    assert_ne!(first, second);
    assert!(!first.contains("signature"));
    assert!(!second.contains("signature"));
}

#[test]
fn trade_error_converts_to_value() {
    let ErrorDetail::Text(message) = TradeError::Timeout.to_value() else {
        panic!("expected string value");
    };
    assert_eq!(message, "order request timed out");
}

#[test]
fn create_failure_clears_pending_order() {
    let mut manager = OrderManager::new("pfhbt-");
    let created = new_order(&mut manager).client_order_id;

    let rejected = manager.update_submit_fail(&created).unwrap();

    assert_eq!(rejected.order.status, Status::Rejected);
    assert!(manager.cancel_order("BTC", 42).is_err());
}

#[test]
fn cancel_timeout_keeps_order_active_and_publishes_error() {
    let mut manager = OrderManager::new("pfhbt-");
    let created = new_order(&mut manager).client_order_id;

    let active = manager.update_cancel_fail(&created).unwrap();

    assert_eq!(active.order.status, Status::New);
    let ErrorDetail::Text(message) = TradeError::Timeout.to_value() else {
        panic!("expected string value");
    };
    assert!(message.contains("timed out"));
}

#[test]
fn ws_command_client_sends_to_worker_channel() {
    let request = test_client().create_limit_request(&create_payload(), Ok(key_text())).unwrap();

    assert_eq!(request.operation_type, "create_order");
    assert_uuid_v4(&request.request_id);
    assert_eq!(request.body.get("symbol").unwrap().as_str(), Some("BTC"));
    assert_eq!(request.body.get("tif").unwrap().as_str(), Some("ALO"));
    assert!(request.body.get("signature").unwrap().as_str().is_some());
    assert!(send_signed(Handover::Answered(Ok(()))).is_ok());
}

#[test]
fn edit_order_builds_signed_request() {
    let payload = EditOrderPayload::new(
        "BTC",
        "63442",
        "0.0002",
        "79f948fd-7556-4066-a128-083f3ea49322",
    );

    let request = test_client().edit_request(&payload, Ok(key_text())).unwrap();

    assert_eq!(request.operation_type, "edit_order");
    assert_eq!(request.body.get("symbol").unwrap().as_str(), Some("BTC"));
    assert_eq!(request.body.get("price").unwrap().as_str(), Some("63442"));
    assert_eq!(request.body.get("amount").unwrap().as_str(), Some("0.0002"));
    assert_eq!(
        request.body.get("client_order_id").unwrap().as_str(),
        Some("79f948fd-7556-4066-a128-083f3ea49322")
    );
    assert!(request.body.get("signature").unwrap().as_str().is_some());
}

#[test]
fn cancel_request_is_signed_now() {
    let before = chrono::Utc::now().timestamp_millis();
    let request = test_client()
        .cancel_request(&CancelOrderPayload::new("BTC", "c"), Ok(key_text()))
        .unwrap();
    let after = chrono::Utc::now().timestamp_millis();

    assert_eq!(request.operation_type, "cancel_order");
    assert_uuid_v4(&request.request_id);
    let timestamp = request.body.get("timestamp").unwrap().as_i64().unwrap();
    assert!(before <= timestamp && timestamp <= after);
}

#[test]
fn signed_request_holds_the_signature_of_its_payload() {
    let client = test_client();
    let payload = create_payload();

    let request = client
        .signed_request_at(
            "create_order",
            &payload,
            Ok(key_text()),
            1716200000000,
            "request".to_string(),
        )
        .unwrap();

    let signed = PacificaSigner::from_key_bytes(&SEED, "acct", 5000)
        .unwrap()
        .sign_payload("create_order", &payload, 1716200000000)
        .unwrap();
    assert_eq!(request.request_id, "request");
    assert_eq!(print_json(request.body), print_json(signed.into_value()));
}

#[test]
fn base58_key_file_signs_like_its_bytes() {
    let client = test_client();
    let payload = create_payload();
    let base58 = format!("\t{}\n", bs58::encode(&SEED).into_string());
    let at = |key: String| {
        let request = client
            .signed_request_at("create_order", &payload, Ok(key), 5, "request".to_string())
            .unwrap();
        print_json(request.body)
    };

    assert_eq!(at(base58), at(key_text()));
}

#[test]
fn key_faults_fail_the_request() {
    let client = test_client();
    let payload = create_payload();
    let fault = |key: Result<String, String>| {
        client.create_limit_request(&payload, key).unwrap_err()
    };

    assert_eq!(fault(Err("no file".to_string())).message(), "private key: no file");
    assert!(matches!(
        fault(Ok("[1,2,3]".to_string())),
        TradeError::Signing(SigningError::InvalidKeyLength(3))
    ));
    assert!(matches!(
        fault(Ok("[1,2".to_string())),
        TradeError::Signing(SigningError::InvalidJson(_))
    ));
    assert!(matches!(
        fault(Ok("0".to_string())),
        TradeError::Signing(SigningError::InvalidBase58(_))
    ));
}

#[test]
fn trade_client_takes_its_settings() {
    let client = test_client();
    assert_eq!(client.url(), "ws://example.invalid/ws");
    assert_eq!(client.key_file(), "key.json");
    assert_eq!(client.order_timeout_ms(), 10_000);
    assert_eq!(ORDER_TIMEOUT_MS, 10_000);
    assert_eq!(EXPIRY_WINDOW_MS, 5000);
}

#[test]
fn ws_command_client_times_out_pending_request() {
    let error = send_signed(Handover::TimedOut).unwrap_err();

    assert!(matches!(error, TradeError::Timeout));
}

#[test]
fn handover_fails_where_nobody_takes_commands() {
    assert_eq!(
        words(send_signed(Handover::NotStarted)),
        "trade command client has not been started"
    );
    assert_eq!(words(send_signed(Handover::Refused)), "trade command client stopped");
    assert_eq!(words(send_signed(Handover::Dropped)), "trade command client stopped");
    assert_eq!(
        words(send_signed(Handover::Answered(Err(TradeError::Order("no".to_string()))))),
        "order request failed: no"
    );
}

#[test]
fn ws_command_client_fails_pending_on_disconnect() {
    let mut pending = waiting_for(&["request"]);

    let mut replies = fail_pending(&mut pending, "connection interrupted".to_string());

    assert_eq!(replies.len(), 1);
    let reply = replies.remove(0);
    assert_eq!(reply.request_id, "request");
    assert!(words(reply.result).contains("connection interrupted"));
    assert!(pending.is_empty());
}

#[test]
fn ws_response_text_resolves_matching_pending_request() {
    let mut pending = waiting_for(&["request"]);
    let text = r#"{"code":200,"data":{"I":"client","i":645953,"s":"BTC"},"id":"request","t":1749223025962,"type":"create_order"}"#;

    let reply = handle_response_text(text, response(text), &mut pending).unwrap();

    assert_eq!(reply.request_id, "request");
    assert!(reply.result.is_ok());
    assert!(pending.is_empty());
}

#[test]
fn ws_error_message_redacts_signature() {
    let error = redacted_error_text(
        r#"{"code":400,"error":{"signature":"secret","nested":{"signature":"hidden"}},"id":"id","type":"create_order"}"#,
    );

    assert!(!error.contains("secret"));
    assert!(!error.contains("hidden"));
    assert!(error.contains("<REDACTED>"));
}

#[test]
fn redaction_covers_every_depth_and_keeps_the_rest() {
    assert_eq!(
        redacted_error_text(r#"[{"b":[{"signature":[1]}],"a":1.5},"signature",{"signature":null}]"#),
        r#"[{"a":1.5,"b":[{"signature":"<REDACTED>"}]},"signature",{"signature":"<REDACTED>"}]"#
    );
    let once = redacted_error_text(r#"{"signature":{"x":1}}"#);
    assert_eq!(redacted_error_text(&once), once);
    assert_eq!(redacted_error_text("signature: secret"), "signature: secret");
}

#[test]
fn refused_command_fails_with_its_redacted_answer() {
    let mut pending = waiting_for(&["request", "other"]);
    let text =
        r#"{"code":400,"error":{"signature":"secret"},"id":"request","type":"create_order"}"#;

    let reply = handle_response_text(text, response(text), &mut pending).unwrap();

    assert_eq!(reply.request_id, "request");
    assert_eq!(
        words(reply.result),
        r#"order request failed: {"code":400,"error":{"signature":"<REDACTED>"},"id":"request","type":"create_order"}"#
    );
    assert!(!pending.contains(&"request".to_string()));
    assert!(pending.contains(&"other".to_string()));
}

#[test]
fn unreadable_answer_fails_its_command() {
    let mut pending = waiting_for(&["request"]);
    let text = r#"{"code":"x","id":"request"}"#;

    let reply =
        handle_response_text(text, Err("invalid type".to_string()), &mut pending).unwrap();

    assert_eq!(reply.request_id, "request");
    assert!(matches!(
        reply.result,
        Err(TradeError::WsProtocol(WsTradeProtocolError::Json(error))) if error == "invalid type"
    ));
}

#[test]
fn answers_that_nobody_waits_for_are_passed_over() {
    let mut pending = waiting_for(&["request"]);
    for text in [
        r#"{"channel":"pong","id":"request","code":400}"#,
        r#"{"code":200,"data":{},"id":"other","t":1,"type":"create_order"}"#,
        r#"{"code":400,"error":"no","id":"other","type":"create_order"}"#,
        r#"{"code":400,"error":"no","type":"create_order"}"#,
    ] {
        assert!(handle_response_text(text, response(text), &mut pending).is_none());
    }
    assert!(handle_response_text("{", response("{"), &mut pending).is_none());
    assert!(pending.contains(&"request".to_string()));
}

#[test]
fn pong_and_identifier_are_read_from_the_text() {
    assert!(is_pong(r#"{"channel":"pong"}"#));
    assert!(!is_pong(r#"{"channel":"ping"}"#));
    assert!(!is_pong(r#"{"channel":1}"#));
    assert!(!is_pong("pong"));
    assert_eq!(response_id(r#"{"id":"a"}"#).as_deref(), Some("a"));
    assert_eq!(response_id(r#"{"id":1}"#), None);
    assert_eq!(response_id("a"), None);
}

#[test]
fn trade_errors_have_words() {
    assert_eq!(
        TradeError::Signing(SigningError::InvalidKeyLength(3)).message(),
        format!("signing: {}", SigningError::InvalidKeyLength(3).message())
    );
    assert_eq!(TradeError::Http("x".to_string()).message(), "http: x");
    assert_eq!(TradeError::Json("x".to_string()).message(), "json: x");
    assert_eq!(
        TradeError::WebSocket(WebSocketError::ConnectionInterrupted).message(),
        "websocket: connection interrupted"
    );
    assert_eq!(TradeError::Tungstenite("x".to_string()).message(), "tungstenite: x");
    assert_eq!(
        TradeError::WsProtocol(WsTradeProtocolError::Json("x".to_string())).message(),
        "websocket protocol: json: x"
    );
    assert_eq!(
        TradeError::UnsupportedOperation("swap").message(),
        "unsupported trade operation: swap"
    );
}

fn request(id: &str, operation_type: &'static str) -> SignedTradeRequest {
    SignedTradeRequest {
        request_id: id.to_string(),
        operation_type,
        body: parse_json(r#"{"symbol":"BTC"}"#).unwrap(),
    }
}

fn listening_worker(ids: &[&str]) -> CommandWorker {
    let mut worker = CommandWorker::new();
    for (i, id) in ids.iter().enumerate() {
        worker.step(WorkerEvent::Command(request(id, "create_order")));
        if i == 0 {
            worker.step(WorkerEvent::Connected);
        }
        worker.step(WorkerEvent::Sent);
    }
    worker
}

fn failures(replies: Vec<Reply>) -> Vec<(String, String)> {
    let mut failures: Vec<(String, String)> = replies
        .into_iter()
        .map(|reply| (reply.request_id, words(reply.result)))
        .collect();
    failures.sort();
    failures
}

fn failure(id: &str, words: &str) -> (String, String) {
    (id.to_string(), words.to_string())
}

#[test]
fn worker_opens_the_socket_for_the_first_command() {
    let mut worker = CommandWorker::new();
    assert!(!worker.connected());

    let (action, replies) = worker.step(WorkerEvent::Command(request("a", "create_order")));
    assert!(matches!(action, WorkerAction::Connect));
    assert!(replies.is_empty());
    let (action, replies) = worker.step(WorkerEvent::Connected);
    let WorkerAction::Send(sent) = action else {
        panic!("expected a request");
    };
    assert_eq!(print_json(sent), r#"{"id":"a","params":{"create_order":{"symbol":"BTC"}}}"#);
    assert!(replies.is_empty());
    assert!(worker.connected());
    assert!(worker.awaits(&"a".to_string()));
    let (action, _) = worker.step(WorkerEvent::Sent);
    assert!(matches!(action, WorkerAction::AwaitAny));
}

#[test]
fn worker_answers_where_the_socket_cannot_be_opened() {
    let mut worker = CommandWorker::new();
    worker.step(WorkerEvent::Command(request("a", "create_order")));

    let (action, replies) =
        worker.step(WorkerEvent::ConnectFailed(WebSocketError::Tungstenite("no".to_string())));

    assert!(matches!(action, WorkerAction::AwaitCommand));
    assert_eq!(failures(replies), vec![failure("a", "websocket: websocket: no")]);
    assert!(!worker.connected());
}

#[test]
fn worker_fails_everything_where_a_command_cannot_be_sent() {
    let mut worker = listening_worker(&["a"]);
    let (action, _) = worker.step(WorkerEvent::Command(request("b", "edit_order")));
    assert!(matches!(action, WorkerAction::Send(_)));

    let (action, replies) = worker.step(WorkerEvent::SendFailed("gone".to_string()));

    assert!(matches!(action, WorkerAction::AwaitCommand));
    assert_eq!(
        failures(replies),
        vec![
            failure("a", "order request failed: tungstenite: gone"),
            failure("b", "order request failed: tungstenite: gone"),
        ]
    );
    assert!(!worker.connected());
    assert!(!worker.awaits(&"a".to_string()));
}

#[test]
fn worker_gives_the_socket_up_for_an_unknown_operation() {
    let mut worker = listening_worker(&["a"]);

    let (action, replies) = worker.step(WorkerEvent::Command(request("b", "swap")));

    assert!(matches!(action, WorkerAction::AwaitCommand));
    assert_eq!(
        failures(replies),
        vec![
            failure("a", "order request failed: unsupported trade operation: swap"),
            failure("b", "trade command client stopped"),
        ]
    );
}

#[test]
fn worker_hands_answers_to_their_commands() {
    let mut worker = listening_worker(&["a", "b"]);
    let text = r#"{"code":200,"data":{},"id":"b","t":1,"type":"create_order"}"#;

    let (action, mut replies) =
        worker.step(WorkerEvent::Text { text: text.to_string(), frame: response(text) });

    assert!(matches!(action, WorkerAction::AwaitAny));
    assert_eq!(replies.len(), 1);
    let reply = replies.remove(0);
    assert_eq!(reply.request_id, "b");
    assert!(reply.result.is_ok());
    assert!(worker.awaits(&"a".to_string()));
    assert!(!worker.awaits(&"b".to_string()));
}

#[test]
fn worker_gives_signs_of_life() {
    let mut worker = listening_worker(&["a"]);

    let (action, _) = worker.step(WorkerEvent::Ping);
    assert!(matches!(action, WorkerAction::Pong));
    let (action, _) = worker.step(WorkerEvent::Sent);
    assert!(matches!(action, WorkerAction::AwaitAny));
    let (action, _) = worker.step(WorkerEvent::Tick);
    let WorkerAction::Send(ping) = action else {
        panic!("expected a request");
    };
    assert_eq!(print_json(ping), r#"{"method":"ping"}"#);
    let (action, replies) = worker.step(WorkerEvent::SendFailed("gone".to_string()));
    assert!(matches!(action, WorkerAction::AwaitCommand));
    assert_eq!(failures(replies), vec![failure("a", "order request failed: gone")]);
}

#[test]
fn worker_fails_everything_where_the_socket_is_lost() {
    let mut worker = listening_worker(&["a"]);
    let (_, replies) = worker.step(WorkerEvent::Closed);
    assert_eq!(failures(replies), vec![failure("a", "order request failed: connection interrupted")]);

    let mut worker = listening_worker(&["a"]);
    let (_, replies) = worker.step(WorkerEvent::SocketFailed("reset".to_string()));
    assert_eq!(failures(replies), vec![failure("a", "order request failed: reset")]);
}

#[test]
fn worker_stops_once_the_socket_is_gone_and_no_commands_come() {
    let mut worker = listening_worker(&["a"]);
    let (action, replies) = worker.step(WorkerEvent::CommandsClosed);
    assert!(matches!(action, WorkerAction::AwaitAny));
    assert!(replies.is_empty());
    let (action, replies) = worker.step(WorkerEvent::Ignored);
    assert!(matches!(action, WorkerAction::AwaitAny));
    assert!(replies.is_empty());

    worker.step(WorkerEvent::Closed);
    let (action, replies) = worker.step(WorkerEvent::CommandsClosed);

    assert!(matches!(action, WorkerAction::Stop));
    assert!(replies.is_empty());
}

#[test]
fn worker_answers_the_waiting_command_of_a_repeated_identifier() {
    let mut worker = listening_worker(&["a", "b"]);

    let (action, replies) = worker.step(WorkerEvent::Command(request("a", "swap")));

    assert!(matches!(action, WorkerAction::AwaitCommand));
    assert_eq!(
        failures(replies),
        vec![
            failure("a", "order request failed: unsupported trade operation: swap"),
            failure("b", "order request failed: unsupported trade operation: swap"),
        ]
    );
    assert!(!worker.awaits(&"a".to_string()));
}
