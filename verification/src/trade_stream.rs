//! Trading commands: signing them, sending them, and finding out what became of them.

use crate::clock::now_millis;
use crate::config::{file_read, Config, ConfigView};
use crate::json::{
    canonical, json_of_text, json_str_member, json_text, lemma_array_view, lemma_object_view,
    names_in_order, parse_json, print_json, Json, JsonView,
};
use crate::keyed::KeyedMap;
use crate::order_payload::{CancelOrderPayload, CreateOrderPayload, EditOrderPayload, Payload};
use crate::signing::{
    base58_bytes, byte_list, signer_of, PacificaSigner, SignerView, SigningError, SigningErrorView,
};
use crate::text::{option_text_eq, outcome, starts_with_char, text_eq, trim, trimmed};
use crate::types::{DetailView, ErrorDetail};
use crate::uuid::is_uuid_v4;
use crate::websocket::{WebSocketError, WebSocketErrorView};
use crate::ws_trade::{
    parse_trade_response, trade_response_of, ProtocolErrorView, RawTradeResponse,
    WsTradeProtocolError,
};
use vstd::prelude::*;
use vstd::string::StringExecFns;

verus! {

/// How long the answer to a command is waited for, in milliseconds.
pub const ORDER_TIMEOUT_MS: u64 = 10_000;

/// How long a signed command may take to arrive, in milliseconds.
pub const EXPIRY_WINDOW_MS: i64 = 5000;

/// Why a command failed.
#[derive(Debug)]
pub enum TradeError {
    Signing(SigningError),
    PrivateKey(String),
    Http(String),
    Json(String),
    WebSocket(WebSocketError),
    Tungstenite(String),
    WsProtocol(WsTradeProtocolError),
    Timeout,
    NotStarted,
    Stopped,
    UnsupportedOperation(&'static str),
    Order(String),
}

/// What a [`TradeError`] says.
pub enum TradeErrorView {
    Signing(SigningErrorView),
    PrivateKey(Seq<char>),
    Http(Seq<char>),
    Json(Seq<char>),
    WebSocket(WebSocketErrorView),
    Tungstenite(Seq<char>),
    WsProtocol(ProtocolErrorView),
    Timeout,
    NotStarted,
    Stopped,
    UnsupportedOperation(Seq<char>),
    Order(Seq<char>),
}

impl View for TradeError {
    type V = TradeErrorView;

    open spec fn view(&self) -> TradeErrorView {
        match *self {
            TradeError::Signing(error) => TradeErrorView::Signing(error@),
            TradeError::PrivateKey(error) => TradeErrorView::PrivateKey(error@),
            TradeError::Http(error) => TradeErrorView::Http(error@),
            TradeError::Json(error) => TradeErrorView::Json(error@),
            TradeError::WebSocket(error) => TradeErrorView::WebSocket(error@),
            TradeError::Tungstenite(error) => TradeErrorView::Tungstenite(error@),
            TradeError::WsProtocol(error) => TradeErrorView::WsProtocol(error@),
            TradeError::Timeout => TradeErrorView::Timeout,
            TradeError::NotStarted => TradeErrorView::NotStarted,
            TradeError::Stopped => TradeErrorView::Stopped,
            TradeError::UnsupportedOperation(operation) => TradeErrorView::UnsupportedOperation(
                operation@,
            ),
            TradeError::Order(error) => TradeErrorView::Order(error@),
        }
    }
}

impl TradeErrorView {
    /// The words for the error.
    pub open spec fn words(self) -> Seq<char> {
        match self {
            TradeErrorView::Signing(error) => "signing: "@ + error.words(),
            TradeErrorView::PrivateKey(error) => "private key: "@ + error,
            TradeErrorView::Http(error) => "http: "@ + error,
            TradeErrorView::Json(error) => "json: "@ + error,
            TradeErrorView::WebSocket(error) => "websocket: "@ + error.words(),
            TradeErrorView::Tungstenite(error) => "tungstenite: "@ + error,
            TradeErrorView::WsProtocol(error) => "websocket protocol: "@ + error.words(),
            TradeErrorView::Timeout => "order request timed out"@,
            TradeErrorView::NotStarted => "trade command client has not been started"@,
            TradeErrorView::Stopped => "trade command client stopped"@,
            TradeErrorView::UnsupportedOperation(operation) => "unsupported trade operation: "@
                + operation,
            TradeErrorView::Order(error) => "order request failed: "@ + error,
        }
    }

    /// The values in the error are ones that `serde_json` can hold.
    pub open spec fn wf(self) -> bool {
        self matches TradeErrorView::WsProtocol(error) ==> error.wf()
    }
}

impl TradeError {
    /// The words for the error.
    pub fn message(&self) -> (r: String)
        requires
            self@.wf(),
        ensures
            r@ == self@.words(),
    {
        match self {
            TradeError::Signing(error) => "signing: ".to_string().concat(error.message().as_str()),
            TradeError::PrivateKey(error) => "private key: ".to_string().concat(error.as_str()),
            TradeError::Http(error) => "http: ".to_string().concat(error.as_str()),
            TradeError::Json(error) => "json: ".to_string().concat(error.as_str()),
            TradeError::WebSocket(error) => "websocket: ".to_string().concat(
                error.message().as_str(),
            ),
            TradeError::Tungstenite(error) => "tungstenite: ".to_string().concat(error.as_str()),
            TradeError::WsProtocol(error) => "websocket protocol: ".to_string().concat(
                error.message().as_str(),
            ),
            TradeError::Timeout => "order request timed out".to_string(),
            TradeError::NotStarted => "trade command client has not been started".to_string(),
            TradeError::Stopped => "trade command client stopped".to_string(),
            TradeError::UnsupportedOperation(operation) =>
                "unsupported trade operation: ".to_string().concat(operation),
            TradeError::Order(error) => "order request failed: ".to_string().concat(
                error.as_str(),
            ),
        }
    }

    /// The error as details for a bot.
    pub fn to_value(&self) -> (r: ErrorDetail)
        requires
            self@.wf(),
        ensures
            r@ == DetailView::Text(self@.words()),
    {
        ErrorDetail::Text(self.message())
    }
}

/// A signed command.
#[derive(Debug)]
pub struct SignedTradeRequest {
    pub request_id: String,
    pub operation_type: &'static str,
    pub body: Json,
}

/// What a [`SignedTradeRequest`] says.
pub struct SignedTradeRequestView {
    pub request_id: Seq<char>,
    pub operation_type: Seq<char>,
    pub body: JsonView,
}

impl View for SignedTradeRequest {
    type V = SignedTradeRequestView;

    open spec fn view(&self) -> SignedTradeRequestView {
        SignedTradeRequestView {
            request_id: self.request_id@,
            operation_type: self.operation_type@,
            body: self.body@,
        }
    }
}

impl DeepView for SignedTradeRequest {
    type V = SignedTradeRequestView;

    open spec fn deep_view(&self) -> SignedTradeRequestView {
        self@
    }
}

/// Makes signed commands.
#[derive(Clone, Debug)]
pub struct TradeClient {
    trade_url: String,
    account: String,
    private_key_file: String,
    expiry_window: i64,
    order_timeout_ms: u64,
}

/// What a [`TradeClient`] works with.
pub struct TradeClientView {
    pub trade_url: Seq<char>,
    pub account: Seq<char>,
    pub private_key_file: Seq<char>,
    pub expiry_window: i64,
    pub order_timeout_ms: u64,
}

impl View for TradeClient {
    type V = TradeClientView;

    closed spec fn view(&self) -> TradeClientView {
        TradeClientView {
            trade_url: self.trade_url@,
            account: self.account@,
            private_key_file: self.private_key_file@,
            expiry_window: self.expiry_window,
            order_timeout_ms: self.order_timeout_ms,
        }
    }
}

/// The client that the settings give.
pub open spec fn client_of(config: ConfigView) -> TradeClientView {
    TradeClientView {
        trade_url: config.trade_url,
        account: config.account,
        private_key_file: config.private_key_file,
        expiry_window: EXPIRY_WINDOW_MS,
        order_timeout_ms: ORDER_TIMEOUT_MS,
    }
}

impl TradeClientView {
    /// The signer with the key in the key file.
    pub open spec fn signer(self, key_file: Result<Seq<char>, Seq<char>>) -> Result<
        SignerView,
        TradeErrorView,
    > {
        match key_file {
            Err(error) => Err(TradeErrorView::PrivateKey(error)),
            Ok(text) => {
                let key = trimmed(text);
                if key.len() > 0 && key[0] == '[' {
                    match byte_list(key) {
                        Ok(bytes) => signing_result(
                            signer_of(bytes, self.account, self.expiry_window),
                        ),
                        Err(error) => Err(
                            TradeErrorView::Signing(SigningErrorView::InvalidJson(error)),
                        ),
                    }
                } else {
                    match base58_bytes(key) {
                        Ok(bytes) => signing_result(
                            signer_of(bytes, self.account, self.expiry_window),
                        ),
                        Err(error) => Err(
                            TradeErrorView::Signing(SigningErrorView::InvalidBase58(error)),
                        ),
                    }
                }
            },
        }
    }

    /// The command for a request, signed at `timestamp`.
    pub open spec fn request_at(
        self,
        operation_type: Seq<char>,
        request: JsonView,
        key_file: Result<Seq<char>, Seq<char>>,
        timestamp: i64,
        request_id: Seq<char>,
    ) -> Result<SignedTradeRequestView, TradeErrorView> {
        match self.signer(key_file) {
            Err(error) => Err(error),
            Ok(signer) => Ok(
                SignedTradeRequestView {
                    request_id,
                    operation_type,
                    body: signer.signed(operation_type, request, timestamp).body(),
                },
            ),
        }
    }
}

/// A signer, or a fault in its key as an error of trading.
pub open spec fn signing_result(signer: Result<SignerView, SigningErrorView>) -> Result<
    SignerView,
    TradeErrorView,
> {
    match signer {
        Ok(signer) => Ok(signer),
        Err(error) => Err(TradeErrorView::Signing(error)),
    }
}

/// What became of handing a command over.
#[derive(Debug)]
pub enum Handover {
    /// There is nobody to hand it to.
    NotStarted,
    /// Whoever took commands is gone.
    Refused,
    /// No answer came in time.
    TimedOut,
    /// Whoever took the command is gone.
    Dropped,
    /// The answer.
    Answered(Result<(), TradeError>),
}

impl TradeClient {
    /// The client that the settings give.
    pub fn new(config: &Config) -> (r: Self)
        ensures
            r@ == client_of(config@),
    {
        TradeClient {
            trade_url: config.trade_url.clone(),
            account: config.account.clone(),
            private_key_file: config.private_key_file.clone(),
            expiry_window: EXPIRY_WINDOW_MS,
            order_timeout_ms: ORDER_TIMEOUT_MS,
        }
    }

    /// Where commands are sent.
    pub fn url(&self) -> (r: &str)
        ensures
            r@ == self@.trade_url,
    {
        self.trade_url.as_str()
    }

    /// The file that holds the key.
    pub fn key_file(&self) -> (r: &str)
        ensures
            r@ == self@.private_key_file,
    {
        self.private_key_file.as_str()
    }

    /// How long the answer to a command is waited for, in milliseconds.
    pub fn order_timeout_ms(&self) -> (r: u64)
        ensures
            r == self@.order_timeout_ms,
    {
        self.order_timeout_ms
    }

    /// The command that places an order. `key_file` is what was read of the key file.
    pub fn create_limit_request(
        &self,
        payload: &CreateOrderPayload,
        key_file: Result<String, String>,
    ) -> (r: Result<SignedTradeRequest, TradeError>)
        ensures
            exists|timestamp: i64, id: Seq<char>|
                is_uuid_v4(id) && outcome(r) == #[trigger] self@.request_at(
                    "create_order"@,
                    payload.json(),
                    file_read(key_file),
                    timestamp,
                    id,
                ),
            r matches Ok(request) ==> canonical(request.body@),
    {
        self.signed_request("create_order", payload, key_file)
    }

    /// The command that cancels an order. `key_file` is what was read of the key file.
    pub fn cancel_request(
        &self,
        payload: &CancelOrderPayload,
        key_file: Result<String, String>,
    ) -> (r: Result<SignedTradeRequest, TradeError>)
        ensures
            exists|timestamp: i64, id: Seq<char>|
                is_uuid_v4(id) && outcome(r) == #[trigger] self@.request_at(
                    "cancel_order"@,
                    payload.json(),
                    file_read(key_file),
                    timestamp,
                    id,
                ),
            r matches Ok(request) ==> canonical(request.body@),
    {
        self.signed_request("cancel_order", payload, key_file)
    }

    /// The command that changes an order. `key_file` is what was read of the key file.
    pub fn edit_request(
        &self,
        payload: &EditOrderPayload,
        key_file: Result<String, String>,
    ) -> (r: Result<SignedTradeRequest, TradeError>)
        ensures
            exists|timestamp: i64, id: Seq<char>|
                is_uuid_v4(id) && outcome(r) == #[trigger] self@.request_at(
                    "edit_order"@,
                    payload.json(),
                    file_read(key_file),
                    timestamp,
                    id,
                ),
            r matches Ok(request) ==> canonical(request.body@),
    {
        self.signed_request("edit_order", payload, key_file)
    }

    /// The command for a request, signed now.
    fn signed_request<T: Payload>(
        &self,
        operation_type: &'static str,
        payload: &T,
        key_file: Result<String, String>,
    ) -> (r: Result<SignedTradeRequest, TradeError>)
        ensures
            exists|timestamp: i64, id: Seq<char>|
                is_uuid_v4(id) && outcome(r) == #[trigger] self@.request_at(
                    operation_type@,
                    payload.json(),
                    file_read(key_file),
                    timestamp,
                    id,
                ),
            r matches Ok(request) ==> canonical(request.body@),
    {
        let timestamp = now_millis();
        let id = request_id();
        let ghost name = id@;
        assert(is_uuid_v4(name));
        self.signed_request_at(operation_type, payload, key_file, timestamp, id)
    }

    /// The command for a request, signed at `timestamp`.
    pub fn signed_request_at<T: Payload>(
        &self,
        operation_type: &'static str,
        payload: &T,
        key_file: Result<String, String>,
        timestamp: i64,
        request_id: String,
    ) -> (r: Result<SignedTradeRequest, TradeError>)
        ensures
            outcome(r) == self@.request_at(
                operation_type@,
                payload.json(),
                file_read(key_file),
                timestamp,
                request_id@,
            ),
            r matches Ok(request) ==> canonical(request.body@),
    {
        let signer = match self.signer(key_file) {
            Ok(signer) => signer,
            Err(error) => {
                return Err(error);
            },
        };
        match signer.sign_payload(operation_type, payload, timestamp) {
            Ok(signed) => Ok(
                SignedTradeRequest { request_id, operation_type, body: signed.into_value() },
            ),
            Err(error) => Err(TradeError::Signing(error)),
        }
    }

    /// The signer with the key in the key file.
    fn signer(&self, key_file: Result<String, String>) -> (r: Result<PacificaSigner, TradeError>)
        ensures
            outcome(r) == self@.signer(file_read(key_file)),
    {
        let text = match key_file {
            Ok(text) => text,
            Err(error) => {
                return Err(TradeError::PrivateKey(error));
            },
        };
        let key = trim(text.as_str());
        let signer = if starts_with_char(key, '[') {
            PacificaSigner::from_json_uint8_keypair(key, self.account.as_str(), self.expiry_window)
        } else {
            PacificaSigner::from_base58_keypair(key, self.account.as_str(), self.expiry_window)
        };
        match signer {
            Ok(signer) => Ok(signer),
            Err(error) => Err(TradeError::Signing(error)),
        }
    }
}

/// The result of a command that was handed over.
pub fn send_signed(handover: Handover) -> (r: Result<(), TradeError>)
    ensures
        outcome(r) == (match handover {
            Handover::NotStarted => Err::<(), TradeErrorView>(TradeErrorView::NotStarted),
            Handover::Refused => Err(TradeErrorView::Stopped),
            Handover::TimedOut => Err(TradeErrorView::Timeout),
            Handover::Dropped => Err(TradeErrorView::Stopped),
            Handover::Answered(result) => outcome(result),
        }),
{
    match handover {
        Handover::NotStarted => Err(TradeError::NotStarted),
        Handover::Refused => Err(TradeError::Stopped),
        Handover::TimedOut => Err(TradeError::Timeout),
        Handover::Dropped => Err(TradeError::Stopped),
        Handover::Answered(result) => result,
    }
}

/// A message says that the exchange is alive.
pub open spec fn says_pong(text: Seq<char>) -> bool {
    json_of_text(text) matches Ok(value) && json_str_member(value, "channel"@) == Some("pong"@)
}

/// Whether a message says that the exchange is alive.
pub fn is_pong(text: &str) -> (r: bool)
    ensures
        r == says_pong(text@),
{
    match parse_json(text) {
        Ok(value) => option_text_eq(&value.str_member("channel"), "pong"),
        Err(_) => false,
    }
}

/// The identifier of the command that a message answers.
pub open spec fn answered_id(text: Seq<char>) -> Option<Seq<char>> {
    match json_of_text(text) {
        Ok(value) => json_str_member(value, "id"@),
        Err(_) => None,
    }
}

/// The identifier of the command that a message answers.
pub fn response_id(text: &str) -> (r: Option<String>)
    ensures
        r.deep_view() == answered_id(text@),
{
    match parse_json(text) {
        Ok(value) => value.str_member("id"),
        Err(_) => None,
    }
}

/// The value with every signature in it covered.
pub open spec fn redacted(value: JsonView) -> JsonView
    decreases value,
{
    match value {
        JsonView::Array(items) => JsonView::Array(
            Seq::new(
                items.len(),
                |i: int|
                    if 0 <= i < items.len() {
                        redacted(items[i])
                    } else {
                        JsonView::Null
                    },
            ),
        ),
        JsonView::Object(members) => JsonView::Object(
            Seq::new(
                members.len(),
                |i: int|
                    if 0 <= i < members.len() {
                        (
                            members[i].0,
                            if members[i].0 == "signature"@ {
                                JsonView::Text("<REDACTED>"@)
                            } else {
                                redacted(members[i].1)
                            },
                        )
                    } else {
                        (Seq::empty(), JsonView::Null)
                    },
            ),
        ),
        other => other,
    }
}

/// No signature in the value can be read.
pub open spec fn signatures_covered(value: JsonView) -> bool
    decreases value,
{
    match value {
        JsonView::Array(items) => forall|i: int|
            0 <= i < items.len() ==> signatures_covered(#[trigger] items[i]),
        JsonView::Object(members) => forall|i: int|
            0 <= i < members.len() ==> if (#[trigger] members[i]).0 == "signature"@ {
                members[i].1 == JsonView::Text("<REDACTED>"@)
            } else {
                signatures_covered(members[i].1)
            },
        _ => true,
    }
}

/// After covering, no signature can be read, at any depth.
pub proof fn redacting_covers_every_signature(value: JsonView)
    ensures
        signatures_covered(redacted(value)),
    decreases value,
{
    match value {
        JsonView::Array(items) => {
            let after = redacted(value)->Array_0;
            assert forall|i: int| 0 <= i < after.len() implies signatures_covered(
                #[trigger] after[i],
            ) by {
                redacting_covers_every_signature(items[i]);
            }
        },
        JsonView::Object(members) => {
            let after = redacted(value)->Object_0;
            assert forall|i: int| 0 <= i < after.len() implies if (#[trigger] after[i]).0
                == "signature"@ {
                after[i].1 == JsonView::Text("<REDACTED>"@)
            } else {
                signatures_covered(after[i].1)
            } by {
                redacting_covers_every_signature(members[i].1);
            }
        },
        _ => {},
    }
}

/// A value in which no signature can be read stays as it is.
pub proof fn redacting_keeps_the_rest(value: JsonView)
    requires
        signatures_covered(value),
    ensures
        redacted(value) == value,
    decreases value,
{
    match value {
        JsonView::Array(items) => {
            assert forall|i: int| 0 <= i < items.len() implies redacted(#[trigger] items[i])
                == items[i] by {
                redacting_keeps_the_rest(items[i]);
            }
            assert(redacted(value)->Array_0 =~= items);
        },
        JsonView::Object(members) => {
            let after = redacted(value)->Object_0;
            assert forall|i: int| 0 <= i < members.len() implies (#[trigger] members[i])
                == after[i] by {
                if members[i].0 != "signature"@ {
                    redacting_keeps_the_rest(members[i].1);
                }
            }
            assert(after =~= members);
        },
        _ => {},
    }
}

proof fn lemma_redacted_is_canonical(value: JsonView)
    requires
        canonical(value),
    ensures
        canonical(redacted(value)),
    decreases value,
{
    match value {
        JsonView::Array(items) => {
            let after = redacted(value)->Array_0;
            assert forall|i: int| 0 <= i < after.len() implies canonical(#[trigger] after[i]) by {
                assert(canonical(items[i]));
                lemma_redacted_is_canonical(items[i]);
            }
        },
        JsonView::Object(members) => {
            let after = redacted(value)->Object_0;
            assert forall|i: int, j: int|
                #![trigger after[i], after[j]]
                0 <= i < j < after.len() implies crate::text::lex_less(after[i].0, after[j].0) by {
                assert(after[i].0 == members[i].0 && after[j].0 == members[j].0);
            }
            assert(names_in_order(after));
            assert(canonical(JsonView::Text("<REDACTED>"@)));
            assert forall|i: int| 0 <= i < after.len() implies canonical((#[trigger] after[i]).1) by {
                assert(canonical(members[i].1));
                lemma_redacted_is_canonical(members[i].1);
            }
            assert(canonical(JsonView::Object(after)));
        },
        _ => {},
    }
}

/// The value with every signature in it covered.
fn redact_signatures(value: &Json) -> (r: Json)
    ensures
        r@ == redacted(value@),
    decreases value,
{
    broadcast use {lemma_array_view, lemma_object_view};

    match value {
        Json::Object(members) => {
            let ghost said = members.deep_view();
            let mut covered: Vec<(String, Json)> = Vec::new();
            let mut i: usize = 0;
            while i < members.len()
                invariant
                    i <= members.len(),
                    covered.len() == i,
                    *value == Json::Object(*members),
                    said == members.deep_view(),
                    value@ == JsonView::Object(said),
                    forall|j: int|
                        0 <= j < i ==> (#[trigger] covered@[j]).deep_view() == redacted(
                            value@,
                        )->Object_0[j],
                decreases members.len() - i,
            {
                let member = &members[i];
                assert(said[i as int] == (member.0@, member.1@));
                assert(decreases_to!(*value => member.1)) by {
                    assert(decreases_to!(*value => value->Object_0));
                    assert(decreases_to!(value->Object_0 => (value->Object_0)@));
                    assert(decreases_to!(members@ => members@[i as int]));
                    assert(decreases_to!(members@[i as int] => members@[i as int].1));
                }
                if text_eq(member.0.as_str(), "signature") {
                    covered.push((member.0.clone(), Json::Text("<REDACTED>".to_string())));
                } else {
                    covered.push((member.0.clone(), redact_signatures(&member.1)));
                }
                i = i + 1;
            }
            assert(covered.deep_view() =~= redacted(value@)->Object_0);
            Json::Object(covered)
        },
        Json::Array(items) => {
            let ghost said = items.deep_view();
            let mut covered: Vec<Json> = Vec::new();
            let mut i: usize = 0;
            while i < items.len()
                invariant
                    i <= items.len(),
                    covered.len() == i,
                    *value == Json::Array(*items),
                    said == items.deep_view(),
                    value@ == JsonView::Array(said),
                    forall|j: int|
                        0 <= j < i ==> (#[trigger] covered@[j])@ == redacted(value@)->Array_0[j],
                decreases items.len() - i,
            {
                assert(said[i as int] == items@[i as int]@);
                assert(decreases_to!(*value => items@[i as int])) by {
                    assert(decreases_to!(*value => value->Array_0));
                    assert(decreases_to!(value->Array_0 => (value->Array_0)@));
                    assert(decreases_to!(items@ => items@[i as int]));
                }
                covered.push(redact_signatures(&items[i]));
                i = i + 1;
            }
            assert(covered.deep_view() =~= redacted(value@)->Array_0);
            Json::Array(covered)
        },
        other => other.copy(),
    }
}

/// A message with every signature in it covered, or as it is where it cannot be read.
pub open spec fn redacted_text(text: Seq<char>) -> Seq<char> {
    match json_of_text(text) {
        Ok(value) => json_text(redacted(value)),
        Err(_) => text,
    }
}

/// A message with every signature in it covered, or as it is where it cannot be read.
pub fn redacted_error_text(text: &str) -> (r: String)
    ensures
        r@ == redacted_text(text@),
{
    match parse_json(text) {
        Ok(value) => {
            proof {
                lemma_redacted_is_canonical(value@);
            }
            print_json(redact_signatures(&value))
        },
        Err(_) => text.to_string(),
    }
}

/// The commands whose answers are still to come.
#[derive(Debug)]
pub struct PendingRequests {
    ids: KeyedMap<String, ()>,
}

impl View for PendingRequests {
    type V = Set<Seq<char>>;

    closed spec fn view(&self) -> Set<Seq<char>> {
        self.ids@.dom()
    }
}

/// The result of a command.
#[derive(Debug)]
pub struct Reply {
    pub request_id: String,
    pub result: Result<(), TradeError>,
}

impl DeepView for Reply {
    type V = (Seq<char>, Result<(), TradeErrorView>);

    open spec fn deep_view(&self) -> (Seq<char>, Result<(), TradeErrorView>) {
        (self.request_id@, outcome(self.result))
    }
}

/// `list` holds the replies, one for each command, in some order.
pub open spec fn lists_replies(
    list: Seq<(Seq<char>, Result<(), TradeErrorView>)>,
    replies: Map<Seq<char>, Result<(), TradeErrorView>>,
) -> bool {
    &&& forall|i: int, j: int|
        #![trigger list[i], list[j]]
        0 <= i < j < list.len() ==> list[i].0 != list[j].0
    &&& forall|i: int|
        0 <= i < list.len() ==> #[trigger] replies.contains_key(list[i].0) && replies[list[i].0]
            == list[i].1
    &&& forall|id: Seq<char>| #[trigger]
        replies.contains_key(id) ==> exists|i: int| 0 <= i < list.len() && #[trigger] list[i].0 == id
}

/// Every command of a set fails with the same words.
pub open spec fn all_failed(ids: Set<Seq<char>>, message: Seq<char>) -> Map<
    Seq<char>,
    Result<(), TradeErrorView>,
> {
    Map::new(
        |id: Seq<char>| ids.contains(id),
        |id: Seq<char>| Err::<(), TradeErrorView>(TradeErrorView::Order(message)),
    )
}

/// The reply to one command.
pub open spec fn one_reply(id: Seq<char>, result: Result<(), TradeErrorView>) -> Map<
    Seq<char>,
    Result<(), TradeErrorView>,
> {
    Map::empty().insert(id, result)
}

impl PendingRequests {
    /// No commands.
    pub fn new() -> (r: Self)
        ensures
            r@ == Set::<Seq<char>>::empty(),
    {
        let r = PendingRequests { ids: KeyedMap::new() };
        assert(r@ =~= Set::<Seq<char>>::empty());
        r
    }

    /// Waits for the answer to a command.
    pub fn insert(&mut self, id: String)
        ensures
            final(self)@ == old(self)@.insert(id@),
    {
        self.ids.insert(id, ());
        assert(self@ =~= old(self)@.insert(id@));
    }

    /// Waits no longer for the answer to a command, and tells whether it was waited for.
    pub fn remove(&mut self, id: &String) -> (r: bool)
        ensures
            r == old(self)@.contains(id@),
            final(self)@ == old(self)@.remove(id@),
    {
        let r = self.ids.remove(id).is_some();
        assert(self@ =~= old(self)@.remove(id@));
        r
    }

    /// Whether the answer to a command is waited for.
    pub fn contains(&self, id: &String) -> (r: bool)
        ensures
            r == self@.contains(id@),
    {
        self.ids.contains_key(id)
    }

    /// How many answers are waited for.
    pub fn is_empty(&self) -> (r: bool)
        ensures
            r == (self@ == Set::<Seq<char>>::empty()),
    {
        let n: usize = self.ids.len();
        proof {
            if n == 0 {
                assert forall|id: Seq<char>| !self@.contains(id) by {
                    assert(self.ids.keys().to_set().contains(id) == self.ids@.dom().contains(id));
                }
                assert(self@ =~= Set::<Seq<char>>::empty());
            } else {
                assert(self.ids.keys().to_set().contains(self.ids.keys()[0]));
                assert(self@.contains(self.ids.keys()[0]));
            }
        }
        n == 0
    }
}

/// Fails every command whose answer is waited for.
pub fn fail_pending(pending: &mut PendingRequests, message: String) -> (r: Vec<Reply>)
    ensures
        final(pending)@ == Set::<Seq<char>>::empty(),
        lists_replies(r.deep_view(), all_failed(old(pending)@, message@)),
{
    let mut replies: Vec<Reply> = Vec::new();
    let n: usize = pending.ids.len();
    let mut i: usize = 0;
    let ghost keys = pending.ids.keys();
    let ghost dom = pending@;
    while i < n
        invariant
            i <= n,
            n == keys.len(),
            keys == pending.ids.keys(),
            replies.len() == i,
            forall|j: int|
                0 <= j < i ==> (#[trigger] replies@[j]).deep_view() == (
                    keys[j],
                    Err::<(), TradeErrorView>(TradeErrorView::Order(message@)),
                ),
        decreases n - i,
    {
        let entry = pending.ids.entry(i);
        replies.push(
            Reply {
                request_id: entry.0.clone(),
                result: Err(TradeError::Order(message.clone())),
            },
        );
        i = i + 1;
    }
    proof {
        let list = replies.deep_view();
        let expected = all_failed(dom, message@);
        assert(keys.to_set() == dom);
        assert forall|a: int, b: int|
            #![trigger list[a], list[b]]
            0 <= a < b < list.len() implies list[a].0 != list[b].0 by {
            assert(list[a] == replies@[a].deep_view() && list[b] == replies@[b].deep_view());
        }
        assert forall|a: int| 0 <= a < list.len() implies #[trigger] expected.contains_key(
            list[a].0,
        ) && expected[list[a].0] == list[a].1 by {
            assert(list[a] == replies@[a].deep_view());
            assert(keys.to_set().contains(keys[a]));
        }
        assert forall|id: Seq<char>| #[trigger] expected.contains_key(id) implies exists|a: int|
            0 <= a < list.len() && #[trigger] list[a].0 == id by {
            assert(keys.to_set().contains(id));
            assert(keys.contains(id));
            let a = choose|a: int| 0 <= a < keys.len() && keys[a] == id;
            assert(list[a] == replies@[a].deep_view());
            assert(list[a].0 == id);
        }
    }
    *pending = PendingRequests::new();
    replies
}

/// What a message means for the commands that are waited for: which of them it answers, and how.
pub open spec fn answer_in(
    text: Seq<char>,
    frame: Result<RawTradeResponse, String>,
    pending: Set<Seq<char>>,
) -> Option<(Seq<char>, Result<(), TradeErrorView>)> {
    if says_pong(text) {
        None
    } else {
        match trade_response_of(frame, None) {
            Ok(response) => if pending.contains(response.request_id) {
                Some((response.request_id, Ok(())))
            } else {
                None
            },
            Err(error) => match answered_id(text) {
                Some(id) => if pending.contains(id) {
                    Some(
                        (
                            id,
                            Err(
                                if error is Command {
                                    TradeErrorView::Order(redacted_text(text))
                                } else {
                                    TradeErrorView::WsProtocol(error)
                                },
                            ),
                        ),
                    )
                } else {
                    None
                },
                None => None,
            },
        }
    }
}

/// Takes in a message: the command that it answers is no longer waited for. `text` is the message,
/// `frame` what was read in it.
pub fn handle_response_text(
    text: &str,
    frame: Result<RawTradeResponse, String>,
    pending: &mut PendingRequests,
) -> (r: Option<Reply>)
    ensures
        r.deep_view() == answer_in(text@, frame, old(pending)@),
        final(pending)@ == (match answer_in(text@, frame, old(pending)@) {
            Some(reply) => old(pending)@.remove(reply.0),
            None => old(pending)@,
        }),
{
    if is_pong(text) {
        return None;
    }
    match parse_trade_response(frame, None) {
        Ok(response) => {
            if pending.contains(&response.request_id) {
                let _ = pending.remove(&response.request_id);
                return Some(Reply { request_id: response.request_id, result: Ok(()) });
            }
            None
        },
        Err(error) => {
            let id = match response_id(text) {
                Some(id) => id,
                None => {
                    return None;
                },
            };
            if !pending.contains(&id) {
                return None;
            }
            let _ = pending.remove(&id);
            let error = match error {
                WsTradeProtocolError::Command { .. } => TradeError::Order(
                    redacted_error_text(text),
                ),
                other => TradeError::WsProtocol(other),
            };
            Some(Reply { request_id: id, result: Err(error) })
        },
    }
}

/// An identifier for a command.
pub fn request_id() -> (r: String)
    ensures
        is_uuid_v4(r@),
{
    crate::ws_trade::request_id()
}

} // verus!
