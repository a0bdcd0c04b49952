//! The commands that are sent over the trading socket, and the answers to them.

use crate::json::{
    canonical, json_debug, lemma_object_view, names_in_order, show_json, Json, JsonView,
};
use crate::order_payload::Payload;
use crate::text::{lex_less, outcome, signed_decimal, signed_decimal_text, text_eq};
use crate::uuid::{is_uuid_v4, uuid_v4};
use vstd::prelude::*;
use vstd::string::StringExecFns;

verus! {

/// What a command does.
#[derive(Clone, Copy, Debug, PartialEq, Eq, Structural)]
pub enum WsTradeAction {
    CreateOrder,
    CancelOrder,
    EditOrder,
    CreateMarketOrder,
    CancelAllOrders,
    BatchOrders,
}

/// The command of that name.
pub open spec fn action_named(name: Seq<char>) -> Option<WsTradeAction> {
    if name == WsTradeAction::CreateOrder.name() {
        Some(WsTradeAction::CreateOrder)
    } else if name == WsTradeAction::CancelOrder.name() {
        Some(WsTradeAction::CancelOrder)
    } else if name == WsTradeAction::EditOrder.name() {
        Some(WsTradeAction::EditOrder)
    } else if name == WsTradeAction::CreateMarketOrder.name() {
        Some(WsTradeAction::CreateMarketOrder)
    } else if name == WsTradeAction::CancelAllOrders.name() {
        Some(WsTradeAction::CancelAllOrders)
    } else if name == WsTradeAction::BatchOrders.name() {
        Some(WsTradeAction::BatchOrders)
    } else {
        None
    }
}

impl WsTradeAction {
    /// The exchange's name of the command.
    pub open spec fn name(self) -> Seq<char> {
        match self {
            WsTradeAction::CreateOrder => "create_order"@,
            WsTradeAction::CancelOrder => "cancel_order"@,
            WsTradeAction::EditOrder => "edit_order"@,
            WsTradeAction::CreateMarketOrder => "create_market_order"@,
            WsTradeAction::CancelAllOrders => "cancel_all_orders"@,
            WsTradeAction::BatchOrders => "batch_orders"@,
        }
    }

    /// The exchange's name of the command.
    pub fn as_str(self) -> (r: &'static str)
        ensures
            r@ == self.name(),
    {
        match self {
            WsTradeAction::CreateOrder => "create_order",
            WsTradeAction::CancelOrder => "cancel_order",
            WsTradeAction::EditOrder => "edit_order",
            WsTradeAction::CreateMarketOrder => "create_market_order",
            WsTradeAction::CancelAllOrders => "cancel_all_orders",
            WsTradeAction::BatchOrders => "batch_orders",
        }
    }

    /// The command of that name.
    pub fn from_operation_type(operation_type: &str) -> (r: Option<Self>)
        ensures
            r == action_named(operation_type@),
    {
        if text_eq(operation_type, "create_order") {
            Some(WsTradeAction::CreateOrder)
        } else if text_eq(operation_type, "cancel_order") {
            Some(WsTradeAction::CancelOrder)
        } else if text_eq(operation_type, "edit_order") {
            Some(WsTradeAction::EditOrder)
        } else if text_eq(operation_type, "create_market_order") {
            Some(WsTradeAction::CreateMarketOrder)
        } else if text_eq(operation_type, "cancel_all_orders") {
            Some(WsTradeAction::CancelAllOrders)
        } else if text_eq(operation_type, "batch_orders") {
            Some(WsTradeAction::BatchOrders)
        } else {
            None
        }
    }
}

/// A command is found again by its name, and under no other.
pub proof fn commands_are_found_by_name(action: WsTradeAction, name: Seq<char>)
    ensures
        action_named(action.name()) == Some(action),
        action_named(name) == Some(action) ==> name == action.name(),
{
    reveal_strlit("create_order");
    reveal_strlit("cancel_order");
    reveal_strlit("edit_order");
    reveal_strlit("create_market_order");
    reveal_strlit("cancel_all_orders");
    reveal_strlit("batch_orders");
    assert("create_order"@[1] == 'r');
    assert("cancel_order"@[1] == 'a');
    assert("edit_order"@.len() == 10);
    assert("create_market_order"@.len() == 19);
    assert("cancel_all_orders"@.len() == 17);
    assert("batch_orders"@[0] == 'b');
    assert("create_order"@[0] == 'c');
    assert("cancel_order"@[0] == 'c');
}

/// A request to trade at the price of the market.
#[derive(Debug, PartialEq)]
pub struct CreateMarketOrderPayload {
    pub amount: String,
    pub client_order_id: String,
    pub reduce_only: bool,
    pub side: String,
    pub slippage_percent: String,
    pub symbol: String,
}

/// A request to cancel all orders, of one symbol or of all.
#[derive(Debug, PartialEq)]
pub struct CancelAllOrdersPayload {
    pub all_symbols: bool,
    pub exclude_reduce_only: bool,
    pub symbol: Option<String>,
}

impl CreateMarketOrderPayload {
    /// A request to trade at the price of the market.
    pub fn new(
        symbol: &str,
        amount: &str,
        side: &str,
        slippage_percent: &str,
        client_order_id: &str,
        reduce_only: bool,
    ) -> (r: Self)
        ensures
            r.amount@ == amount@,
            r.client_order_id@ == client_order_id@,
            r.reduce_only == reduce_only,
            r.side@ == side@,
            r.slippage_percent@ == slippage_percent@,
            r.symbol@ == symbol@,
    {
        CreateMarketOrderPayload {
            amount: amount.to_string(),
            client_order_id: client_order_id.to_string(),
            reduce_only,
            side: side.to_string(),
            slippage_percent: slippage_percent.to_string(),
            symbol: symbol.to_string(),
        }
    }
}

impl CancelAllOrdersPayload {
    /// A request to cancel the orders of one symbol.
    pub fn for_symbol(symbol: &str, exclude_reduce_only: bool) -> (r: Self)
        ensures
            !r.all_symbols,
            r.exclude_reduce_only == exclude_reduce_only,
            r.symbol.deep_view() == Some(symbol@),
    {
        CancelAllOrdersPayload {
            all_symbols: false,
            exclude_reduce_only,
            symbol: Some(symbol.to_string()),
        }
    }

    /// A request to cancel the orders of all symbols.
    pub fn all_symbols(exclude_reduce_only: bool) -> (r: Self)
        ensures
            r.all_symbols,
            r.exclude_reduce_only == exclude_reduce_only,
            r.symbol is None,
    {
        CancelAllOrdersPayload { all_symbols: true, exclude_reduce_only, symbol: None }
    }
}

impl Payload for CreateMarketOrderPayload {
    open spec fn json(&self) -> JsonView {
        JsonView::Object(
            seq![
                ("amount"@, JsonView::Text(self.amount@)),
                ("client_order_id"@, JsonView::Text(self.client_order_id@)),
                ("reduce_only"@, JsonView::Bool(self.reduce_only)),
                ("side"@, JsonView::Text(self.side@)),
                ("slippage_percent"@, JsonView::Text(self.slippage_percent@)),
                ("symbol"@, JsonView::Text(self.symbol@)),
            ],
        )
    }

    fn to_json(&self) -> (r: Json) {
        broadcast use lemma_object_view;

        let mut members: Vec<(String, Json)> = Vec::new();
        members.push(("amount".to_string(), Json::Text(self.amount.clone())));
        members.push(("client_order_id".to_string(), Json::Text(self.client_order_id.clone())));
        members.push(("reduce_only".to_string(), Json::Bool(self.reduce_only)));
        members.push(("side".to_string(), Json::Text(self.side.clone())));
        members.push(("slippage_percent".to_string(), Json::Text(self.slippage_percent.clone())));
        members.push(("symbol".to_string(), Json::Text(self.symbol.clone())));
        assert(members.deep_view() =~= self.json()->Object_0);
        proof {
            reveal_strlit("amount");
            reveal_strlit("client_order_id");
            reveal_strlit("reduce_only");
            reveal_strlit("side");
            reveal_strlit("slippage_percent");
            reveal_strlit("symbol");
            reveal_with_fuel(lex_less, 3);
            assert(names_in_order(members.deep_view()));
            reveal_with_fuel(canonical, 2);
        }
        Json::Object(members)
    }
}

impl Payload for CancelAllOrdersPayload {
    open spec fn json(&self) -> JsonView {
        let flags = seq![
            ("all_symbols"@, JsonView::Bool(self.all_symbols)),
            ("exclude_reduce_only"@, JsonView::Bool(self.exclude_reduce_only)),
        ];
        JsonView::Object(
            match self.symbol {
                Some(symbol) => flags.push(("symbol"@, JsonView::Text(symbol@))),
                None => flags,
            },
        )
    }

    fn to_json(&self) -> (r: Json) {
        broadcast use lemma_object_view;

        let mut members: Vec<(String, Json)> = Vec::new();
        members.push(("all_symbols".to_string(), Json::Bool(self.all_symbols)));
        members.push(("exclude_reduce_only".to_string(), Json::Bool(self.exclude_reduce_only)));
        match &self.symbol {
            Some(symbol) => {
                members.push(("symbol".to_string(), Json::Text(symbol.clone())));
            },
            None => {},
        }
        assert(members.deep_view() =~= self.json()->Object_0);
        proof {
            reveal_strlit("all_symbols");
            reveal_strlit("exclude_reduce_only");
            reveal_strlit("symbol");
            reveal_with_fuel(lex_less, 3);
            assert(names_in_order(members.deep_view()));
            reveal_with_fuel(canonical, 2);
        }
        Json::Object(members)
    }
}

/// A command around its signed body.
pub open spec fn command(request_id: Seq<char>, action: WsTradeAction, body: JsonView) -> JsonView {
    JsonView::Object(
        seq![
            ("id"@, JsonView::Text(request_id)),
            ("params"@, JsonView::Object(seq![(action.name(), body)])),
        ],
    )
}

/// Puts a signed body into a command.
pub fn command_envelope(request_id: &str, action: WsTradeAction, signed_body: Json) -> (r: Json)
    ensures
        r@ == command(request_id@, action, signed_body@),
        canonical(signed_body@) ==> canonical(r@),
{
    broadcast use lemma_object_view;

    let ghost said = signed_body@;
    let mut params: Vec<(String, Json)> = Vec::new();
    params.push((action.as_str().to_string(), signed_body));
    assert(params.deep_view() =~= seq![(action.name(), said)]);
    let mut members: Vec<(String, Json)> = Vec::new();
    members.push(("id".to_string(), Json::Text(request_id.to_string())));
    members.push(("params".to_string(), Json::Object(params)));
    proof {
        let list = members.deep_view();
        assert(list =~= command(request_id@, action, said)->Object_0);
        reveal_strlit("id");
        reveal_strlit("params");
        assert(names_in_order(list));
        if canonical(said) {
            let inner = seq![(action.name(), said)];
            assert forall|i: int| 0 <= i < inner.len() implies canonical((#[trigger] inner[i]).1) by {}
            assert(canonical(JsonView::Object(inner)));
            assert(canonical(JsonView::Text(request_id@)));
            assert forall|i: int| 0 <= i < list.len() implies canonical((#[trigger] list[i]).1) by {}
            assert(canonical(JsonView::Object(list)));
        }
    }
    Json::Object(members)
}

/// An identifier for a command.
pub fn request_id() -> (r: String)
    ensures
        is_uuid_v4(r@),
{
    uuid_v4()
}

/// An answer as it came.
#[derive(Debug)]
pub struct RawTradeResponse {
    pub code: Option<i64>,
    pub data: Option<Json>,
    pub error: Option<Json>,
    pub id: Option<String>,
    pub timestamp_ms: Option<i64>,
    pub command_type: Option<String>,
}

/// What a [`RawTradeResponse`] says.
pub struct RawTradeResponseView {
    pub code: Option<i64>,
    pub data: Option<JsonView>,
    pub error: Option<JsonView>,
    pub id: Option<Seq<char>>,
    pub timestamp_ms: Option<i64>,
    pub command_type: Option<Seq<char>>,
}

impl View for RawTradeResponse {
    type V = RawTradeResponseView;

    open spec fn view(&self) -> RawTradeResponseView {
        RawTradeResponseView {
            code: self.code,
            data: self.data.deep_view(),
            error: self.error.deep_view(),
            id: self.id.deep_view(),
            timestamp_ms: self.timestamp_ms,
            command_type: self.command_type.deep_view(),
        }
    }
}

/// The answer to a command that went through.
#[derive(Debug)]
pub struct WsTradeResponse {
    pub request_id: String,
    pub command_type: String,
    pub code: i64,
    pub data: Json,
    pub timestamp_ms: Option<i64>,
}

/// What a [`WsTradeResponse`] says.
pub struct WsTradeResponseView {
    pub request_id: Seq<char>,
    pub command_type: Seq<char>,
    pub code: i64,
    pub data: JsonView,
    pub timestamp_ms: Option<i64>,
}

impl DeepView for WsTradeResponse {
    type V = WsTradeResponseView;

    open spec fn deep_view(&self) -> WsTradeResponseView {
        WsTradeResponseView {
            request_id: self.request_id@,
            command_type: self.command_type@,
            code: self.code,
            data: self.data@,
            timestamp_ms: self.timestamp_ms,
        }
    }
}

/// Why an answer is no success.
#[derive(Debug)]
pub enum WsTradeProtocolError {
    Json(String),
    MissingRequestId,
    MissingCommandType,
    RequestIdMismatch { expected: String, actual: String },
    Command { code: Option<i64>, error: Option<Json> },
}

/// What a [`WsTradeProtocolError`] says.
pub enum ProtocolErrorView {
    Json(Seq<char>),
    MissingRequestId,
    MissingCommandType,
    RequestIdMismatch { expected: Seq<char>, actual: Seq<char> },
    Command { code: Option<i64>, error: Option<JsonView> },
}

impl View for WsTradeProtocolError {
    type V = ProtocolErrorView;

    open spec fn view(&self) -> ProtocolErrorView {
        match *self {
            WsTradeProtocolError::Json(error) => ProtocolErrorView::Json(error@),
            WsTradeProtocolError::MissingRequestId => ProtocolErrorView::MissingRequestId,
            WsTradeProtocolError::MissingCommandType => ProtocolErrorView::MissingCommandType,
            WsTradeProtocolError::RequestIdMismatch { expected, actual } =>
                ProtocolErrorView::RequestIdMismatch { expected: expected@, actual: actual@ },
            WsTradeProtocolError::Command { code, error } => ProtocolErrorView::Command {
                code,
                error: error.deep_view(),
            },
        }
    }
}

/// An optional number, shown for debugging.
pub open spec fn code_words(code: Option<i64>) -> Seq<char> {
    match code {
        Some(code) => "Some("@ + signed_decimal(code as int) + ")"@,
        None => "None"@,
    }
}

/// An optional value, shown for debugging.
pub open spec fn error_words(error: Option<JsonView>) -> Seq<char> {
    match error {
        Some(error) => "Some("@ + json_debug(error) + ")"@,
        None => "None"@,
    }
}

impl ProtocolErrorView {
    /// The words for the error.
    pub open spec fn words(self) -> Seq<char> {
        match self {
            ProtocolErrorView::Json(error) => "json: "@ + error,
            ProtocolErrorView::MissingRequestId => "missing websocket trade response id"@,
            ProtocolErrorView::MissingCommandType => "missing websocket trade response type"@,
            ProtocolErrorView::RequestIdMismatch { expected, actual } =>
                "websocket trade response id mismatch: expected "@ + expected + ", got "@ + actual,
            ProtocolErrorView::Command { code, error } =>
                "websocket trade command failed: code="@ + code_words(code) + " error="@
                    + error_words(error),
        }
    }

    /// The value in the error is one that `serde_json` can hold.
    pub open spec fn wf(self) -> bool {
        self matches ProtocolErrorView::Command { error: Some(error), .. } ==> canonical(error)
    }
}

impl WsTradeProtocolError {
    /// The words for the error.
    pub fn message(&self) -> (r: String)
        requires
            self@.wf(),
        ensures
            r@ == self@.words(),
    {
        match self {
            WsTradeProtocolError::Json(error) => "json: ".to_string().concat(error.as_str()),
            WsTradeProtocolError::MissingRequestId =>
                "missing websocket trade response id".to_string(),
            WsTradeProtocolError::MissingCommandType =>
                "missing websocket trade response type".to_string(),
            WsTradeProtocolError::RequestIdMismatch { expected, actual } =>
                "websocket trade response id mismatch: expected ".to_string().concat(
                expected.as_str(),
            ).concat(", got ").concat(actual.as_str()),
            WsTradeProtocolError::Command { code, error } => {
                let code = match code {
                    Some(code) => "Some(".to_string().concat(
                        signed_decimal_text(*code).as_str(),
                    ).concat(")"),
                    None => "None".to_string(),
                };
                let error = match error {
                    Some(error) => "Some(".to_string().concat(
                        show_json(error.copy()).as_str(),
                    ).concat(")"),
                    None => "None".to_string(),
                };
                "websocket trade command failed: code=".to_string().concat(code.as_str()).concat(
                    " error=",
                ).concat(error.as_str())
            },
        }
    }
}

/// What an answer means: a success bears the code 200, no error, the identifier of the command and
/// its kind. The first thing that is wrong counts.
pub open spec fn trade_response(
    frame: RawTradeResponseView,
    expected_request_id: Option<Seq<char>>,
) -> Result<WsTradeResponseView, ProtocolErrorView> {
    if frame.code != Some(200i64) || frame.error is Some {
        Err(ProtocolErrorView::Command { code: frame.code, error: frame.error })
    } else if frame.id is None {
        Err(ProtocolErrorView::MissingRequestId)
    } else if expected_request_id is Some && expected_request_id->0 != frame.id->0 {
        Err(
            ProtocolErrorView::RequestIdMismatch {
                expected: expected_request_id->0,
                actual: frame.id->0,
            },
        )
    } else if frame.command_type is None {
        Err(ProtocolErrorView::MissingCommandType)
    } else {
        Ok(
            WsTradeResponseView {
                request_id: frame.id->0,
                command_type: frame.command_type->0,
                code: 200,
                data: match frame.data {
                    Some(data) => data,
                    None => JsonView::Null,
                },
                timestamp_ms: frame.timestamp_ms,
            },
        )
    }
}

/// What an answer means, or why it could not be read.
pub open spec fn trade_response_of(
    frame: Result<RawTradeResponse, String>,
    expected_request_id: Option<Seq<char>>,
) -> Result<WsTradeResponseView, ProtocolErrorView> {
    match frame {
        Ok(frame) => trade_response(frame@, expected_request_id),
        Err(error) => Err(ProtocolErrorView::Json(error@)),
    }
}

/// What an answer means.
pub fn parse_trade_response(
    frame: Result<RawTradeResponse, String>,
    expected_request_id: Option<&str>,
) -> (r: Result<WsTradeResponse, WsTradeProtocolError>)
    ensures
        outcome(r) == trade_response_of(frame, expected_request_id.deep_view()),
{
    let frame = match frame {
        Ok(frame) => frame,
        Err(error) => {
            return Err(WsTradeProtocolError::Json(error));
        },
    };
    let succeeded = match frame.code {
        Some(code) => code == 200,
        None => false,
    };
    if !succeeded || frame.error.is_some() {
        return Err(WsTradeProtocolError::Command { code: frame.code, error: frame.error });
    }
    let request_id = match frame.id {
        Some(request_id) => request_id,
        None => {
            return Err(WsTradeProtocolError::MissingRequestId);
        },
    };
    match expected_request_id {
        Some(expected) => {
            if !text_eq(request_id.as_str(), expected) {
                return Err(
                    WsTradeProtocolError::RequestIdMismatch {
                        expected: expected.to_string(),
                        actual: request_id,
                    },
                );
            }
        },
        None => {},
    }
    let command_type = match frame.command_type {
        Some(command_type) => command_type,
        None => {
            return Err(WsTradeProtocolError::MissingCommandType);
        },
    };
    let data = match frame.data {
        Some(data) => data,
        None => Json::Null,
    };
    Ok(
        WsTradeResponse {
            request_id,
            command_type,
            code: 200,
            data,
            timestamp_ms: frame.timestamp_ms,
        },
    )
}

/// An answer succeeds only with the code 200, without an error, and for the command that was asked
/// about.
pub proof fn success_is_for_the_command(
    frame: RawTradeResponseView,
    expected_request_id: Option<Seq<char>>,
)
    requires
        trade_response(frame, expected_request_id) is Ok,
    ensures
        ({
            let response = trade_response(frame, expected_request_id)->Ok_0;
            &&& frame.code == Some(200i64) && frame.error is None
            &&& frame.id == Some(response.request_id)
            &&& expected_request_id matches Some(expected) ==> response.request_id == expected
        }),
{
}

} // verus!
