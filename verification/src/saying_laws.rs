//! What is said of values: the words for errors, and what events, requests and answers hold.

use crate::account_state::{AccountErrorView, AccountStateError};
use crate::binary64::{Binary64, NumericText};
use crate::command_worker::{ActionView, PhaseView, WorkerAction, WorkerPhase};
use crate::config::{ConfigError, ConfigErrorView};
use crate::json::{json_debug, Json, JsonNumber, JsonView};
use crate::order_payload::{CancelOrderPayload, CreateOrderPayload, EditOrderPayload};
use crate::ordermanager::OrderManagerError;
use crate::pacifica::{PacificaError, PacificaErrorView};
use crate::private_stream::{
    PrivateErrorView, PrivateOutput, PrivateOutputView, PrivateStreamError,
};
use crate::public_stream::{
    FeedEvent, PublicErrorView, PublicOutput, PublicOutputView, PublicStreamError,
};
use crate::rest::StartupPosition;
use crate::sanity::{
    text_list_debug, SanityArgs, SanityError, SanityErrorView, SanityPlan, SanitySummary,
};
use crate::sanity_run::{PlanTicks, SanityAction, SanityActionView};
use crate::signing::{SignedAction, SigningError, SigningErrorView};
use crate::startup::{MarketSpec, StartupError, StartupErrorView};
use crate::text::{decimal, outcome, signed_decimal};
use crate::trade_stream::{Reply, SignedTradeRequest, TradeError, TradeErrorView};
use crate::types::{DetailView, ErrorDetail, LiveEvent, LiveEventView};
use crate::websocket::{WebSocketError, WebSocketErrorView};
use crate::ws_trade::{ProtocolErrorView, WsTradeProtocolError, WsTradeResponse};
use vstd::prelude::*;

verus! {

/// The words for a refusal of the book say what is wrong.
pub proof fn words_for_refusals(error: OrderManagerError)
    ensures
        error matches OrderManagerError::InvalidArg(arg) ==> error.words()
            == "invalid order argument: "@ + arg@,
        error is OrderAlreadyExists ==> error.words() == "order already exists"@,
        error is OrderNotFound ==> error.words() == "order not found"@,
        error is UnresolvedUpdate ==> error.words() == "order update could not be resolved"@,
{
}

/// The words for faults of settings and keys say what is wrong and where.
pub proof fn words_for_settings_and_keys(config: ConfigErrorView, key: SigningErrorView)
    ensures
        config matches ConfigErrorView::Missing(field) ==> config.words()
            == "missing required config field: "@ + field,
        config matches ConfigErrorView::Invalid { field, reason } ==> config.words()
            == "invalid config field "@ + field + ": "@ + reason,
        config matches ConfigErrorView::PrivateKey(error) ==> config.words() == "private key: "@
            + error,
        config matches ConfigErrorView::ApiKey(error) ==> config.words() == "api key: "@ + error,
        config matches ConfigErrorView::AccountDerivation(error) ==> config.words()
            == "account derivation: "@ + error,
        key matches SigningErrorView::InvalidKeyLength(len) ==> key.words()
            == "invalid key length: expected 32 or 64 bytes, got "@ + decimal(len),
        key matches SigningErrorView::InvalidBase58(error) ==> key.words()
            == "invalid base58 key: "@ + error,
        key matches SigningErrorView::InvalidJson(error) ==> key.words() == "invalid json key: "@
            + error,
{
}

/// The words for faults of trading say what is wrong, and repeat the words of the fault inside.
pub proof fn words_for_trading(
    trade: TradeErrorView,
    answer: ProtocolErrorView,
    socket: WebSocketErrorView,
)
    ensures
        trade matches TradeErrorView::Signing(error) ==> trade.words() == "signing: "@
            + error.words(),
        trade matches TradeErrorView::PrivateKey(error) ==> trade.words() == "private key: "@
            + error,
        trade matches TradeErrorView::Http(error) ==> trade.words() == "http: "@ + error,
        trade matches TradeErrorView::Json(error) ==> trade.words() == "json: "@ + error,
        trade matches TradeErrorView::WebSocket(error) ==> trade.words() == "websocket: "@
            + error.words(),
        trade matches TradeErrorView::Tungstenite(error) ==> trade.words() == "tungstenite: "@
            + error,
        trade matches TradeErrorView::WsProtocol(error) ==> trade.words()
            == "websocket protocol: "@ + error.words(),
        trade is Timeout ==> trade.words() == "order request timed out"@,
        trade is NotStarted ==> trade.words() == "trade command client has not been started"@,
        trade is Stopped ==> trade.words() == "trade command client stopped"@,
        trade matches TradeErrorView::UnsupportedOperation(operation) ==> trade.words()
            == "unsupported trade operation: "@ + operation,
        trade matches TradeErrorView::Order(error) ==> trade.words() == "order request failed: "@
            + error,
        answer matches ProtocolErrorView::Json(error) ==> answer.words() == "json: "@ + error,
        answer is MissingRequestId ==> answer.words() == "missing websocket trade response id"@,
        answer is MissingCommandType ==> answer.words()
            == "missing websocket trade response type"@,
        answer matches ProtocolErrorView::RequestIdMismatch { expected, actual } ==> answer.words()
            == "websocket trade response id mismatch: expected "@ + expected + ", got "@ + actual,
        answer matches ProtocolErrorView::Command { code, error } ==> answer.words()
            == "websocket trade command failed: code="@ + (match code {
            Some(code) => "Some("@ + signed_decimal(code as int) + ")"@,
            None => "None"@,
        }) + " error="@ + (match error {
            Some(error) => "Some("@ + json_debug(error) + ")"@,
            None => "None"@,
        }),
        socket matches WebSocketErrorView::Tungstenite(error) ==> socket.words() == "websocket: "@
            + error,
        socket matches WebSocketErrorView::Json(error) ==> socket.words() == "json: "@ + error,
        socket is ConnectionInterrupted ==> socket.words() == "connection interrupted"@,
{
}

/// The words for faults of the streams say what is wrong, and repeat the words of the fault inside.
pub proof fn words_for_streams(
    public: PublicErrorView,
    private: PrivateErrorView,
    account: AccountErrorView,
)
    ensures
        public matches PublicErrorView::Json(error) ==> public.words() == "json: "@ + error,
        public matches PublicErrorView::InvalidNumber { field, value } ==> public.words()
            == "invalid numeric field "@ + field + ": "@ + value,
        public is MissingBookSide ==> public.words()
            == "book frame must include bid and ask level arrays"@,
        public matches PublicErrorView::UnsupportedTradeDirection(direction) ==> public.words()
            == "unsupported trade direction: "@ + direction,
        public matches PublicErrorView::UnsupportedChannel(channel) ==> public.words()
            == "unsupported public channel: "@ + channel,
        public matches PublicErrorView::WebSocket(error) ==> public.words() == "websocket: "@
            + error.words(),
        public matches PublicErrorView::Tungstenite(error) ==> public.words() == "tungstenite: "@
            + error,
        private matches PrivateErrorView::Json(error) ==> private.words() == "json: "@ + error,
        private matches PrivateErrorView::InvalidNumber { field, value } ==> private.words()
            == "invalid numeric field "@ + field + ": "@ + value,
        private matches PrivateErrorView::UnsupportedOrderStatus(status) ==> private.words()
            == "unsupported order status: "@ + status,
        private matches PrivateErrorView::OrderManager(error) ==> private.words()
            == "order manager: "@ + error.words(),
        private matches PrivateErrorView::AccountState(error) ==> private.words()
            == "account state: "@ + error.words(),
        private is MissingPositionSymbol ==> private.words() == "position update missing symbol"@,
        private matches PrivateErrorView::WebSocket(error) ==> private.words() == "websocket: "@
            + error.words(),
        private matches PrivateErrorView::Tungstenite(error) ==> private.words()
            == "tungstenite: "@ + error,
        account matches AccountErrorView::Json(error) ==> account.words() == "json: "@ + error,
        account matches AccountErrorView::InvalidNumber { field, value } ==> account.words()
            == "invalid numeric field "@ + field + ": "@ + value,
{
}

/// The words for faults at the start, of the run and of the connector say what is wrong, and repeat
/// the words of the fault inside.
pub proof fn words_for_the_rest(
    startup: StartupErrorView,
    run: SanityErrorView,
    connector: PacificaErrorView,
)
    ensures
        startup matches StartupErrorView::Json(error) ==> startup.words() == "json: "@ + error,
        startup is RestFailure ==> startup.words() == "REST response did not report success"@,
        startup matches StartupErrorView::MissingMarketInfo(symbol) ==> startup.words()
            == "missing market info for symbol: "@ + symbol,
        startup matches StartupErrorView::InvalidNumber { field, value } ==> startup.words()
            == "invalid numeric field "@ + field + ": "@ + value,
        startup is MissingBookSide ==> startup.words()
            == "book snapshot must include bid and ask level arrays"@,
        startup matches StartupErrorView::UnknownOpenOrders(n) ==> startup.words()
            == "startup found "@ + decimal(n)
            + " open order(s); fail_on_unknown_orders policy refuses to continue"@,
        run matches SanityErrorView::Config(error) ==> run.words() == "config: "@ + error,
        run matches SanityErrorView::InvalidConfig(error) ==> run.words() == "invalid config: "@
            + error.words(),
        run matches SanityErrorView::ReadConfig(error) ==> run.words() == "read config: "@ + error,
        run is MissingExecute ==> run.words() == "sanity refuses to submit without --execute"@,
        run is NonTestnet ==> run.words()
            == "sanity refuses non-testnet config without --allow-non-testnet"@,
        run matches SanityErrorView::InvalidSide(side) ==> run.words() == "invalid side: "@ + side,
        run matches SanityErrorView::Http(error) ==> run.words() == "http: "@ + error,
        run matches SanityErrorView::Json(error) ==> run.words() == "json: "@ + error,
        run matches SanityErrorView::Market(error) ==> run.words() == "market: "@ + error,
        run matches SanityErrorView::Trade(error) ==> run.words() == "trade: "@ + error.words(),
        run matches SanityErrorView::ResidualOrders(ids) ==> run.words()
            == "residual sanity client order ids remain open: "@ + text_list_debug(ids),
        connector matches PacificaErrorView::Config(error) ==> connector.words() == "Config: "@
            + error,
        connector matches PacificaErrorView::InvalidConfig(error) ==> connector.words()
            == "InvalidConfig: "@ + error.words(),
        connector matches PacificaErrorView::Trade(error) ==> connector.words() == "Trade: "@
            + error.words(),
        connector matches PacificaErrorView::WebSocket(error) ==> connector.words()
            == "WebSocket: "@ + error.words(),
{
}

/// What is said of an event is what stands in it.
pub proof fn events_say_what_they_hold(event: LiveEvent, feed: FeedEvent, detail: ErrorDetail)
    ensures
        event matches LiveEvent::Feed { symbol, event: inner } ==> event@ == (LiveEventView::Feed {
            symbol: symbol@,
            event: inner,
        }),
        event matches LiveEvent::Order { symbol, order } ==> event@ == (LiveEventView::Order {
            symbol: symbol@,
            order,
        }),
        event matches LiveEvent::Position { symbol, qty, exch_ts } ==> event@
            == (LiveEventView::Position { symbol: symbol@, qty, exch_ts }),
        event matches LiveEvent::Error { kind, value } ==> event@ == (LiveEventView::Error {
            kind,
            value: value@,
        }),
        feed.deep_view().symbol == feed.symbol@,
        feed.deep_view().event == feed.event,
        detail matches ErrorDetail::Text(text) ==> detail@ == DetailView::Text(text@),
        detail matches ErrorDetail::Entry { name, text } ==> detail@ == (DetailView::Entry {
            name: name@,
            text: text@,
        }),
{
}

/// What is said of a request is what stands in it.
pub proof fn requests_say_what_they_hold(
    create: CreateOrderPayload,
    cancel: CancelOrderPayload,
    edit: EditOrderPayload,
    signed: SignedAction,
    request: SignedTradeRequest,
)
    ensures
        create@.amount == create.amount@,
        create@.client_order_id == create.client_order_id@,
        create@.price == create.price@,
        create@.reduce_only == create.reduce_only,
        create@.side == create.side@,
        create@.symbol == create.symbol@,
        create@.tif == create.tif@,
        cancel@.client_order_id == cancel.client_order_id@,
        cancel@.symbol == cancel.symbol@,
        edit@.amount == edit.amount@,
        edit@.client_order_id == edit.client_order_id@,
        edit@.price == edit.price@,
        edit@.symbol == edit.symbol@,
        signed@.account == signed.account@,
        signed@.signature == signed.signature@,
        signed@.timestamp == signed.timestamp,
        signed@.expiry_window == signed.expiry_window,
        signed@.payload == signed.payload.deep_view(),
        request@.request_id == request.request_id@,
        request@.operation_type == request.operation_type@,
        request@.body == request.body@,
{
}

/// What is said of an answer, and of what is done about it, is what stands in it.
pub proof fn answers_say_what_they_hold(
    reply: Reply,
    response: WsTradeResponse,
    action: WorkerAction,
    phase: WorkerPhase,
    public: PublicOutput,
    private: PrivateOutput,
)
    ensures
        reply.deep_view().0 == reply.request_id@,
        reply.result is Ok <==> reply.deep_view().1 is Ok,
        reply.result matches Err(error) ==> reply.deep_view().1->Err_0 == error@,
        response.deep_view().request_id == response.request_id@,
        response.deep_view().command_type == response.command_type@,
        response.deep_view().code == response.code,
        response.deep_view().data == response.data@,
        response.deep_view().timestamp_ms == response.timestamp_ms,
        action matches WorkerAction::Send(request) <==> action@ is Send,
        action matches WorkerAction::Send(request) ==> action@ == ActionView::Send(request@),
        action is AwaitCommand <==> action@ is AwaitCommand,
        action is Connect <==> action@ is Connect,
        action is Pong <==> action@ is Pong,
        action is AwaitAny <==> action@ is AwaitAny,
        action is Stop <==> action@ is Stop,
        phase matches WorkerPhase::Connecting(request) ==> phase@ == PhaseView::Connecting(
            request@,
        ),
        phase matches WorkerPhase::Sending(id) ==> phase@ == PhaseView::Sending(id@),
        public matches PublicOutput::Send(requests) ==> public@ == PublicOutputView::Send(
            requests.deep_view(),
        ),
        public is Pong <==> public@ is Pong,
        public matches PublicOutput::Publish(events) ==> public@ == PublicOutputView::Publish(
            events.deep_view(),
        ),
        public matches PublicOutput::Finish(result) ==> public@ == PublicOutputView::Finish(
            outcome(result),
        ),
        private matches PrivateOutput::Send(request) ==> private@ == PrivateOutputView::Send(
            request@,
        ),
        private is Pong <==> private@ is Pong,
        private matches PrivateOutput::Publish(events) ==> private@ == PrivateOutputView::Publish(
            events.deep_view(),
        ),
        private matches PrivateOutput::Finish(error) ==> private@ == PrivateOutputView::Finish(
            error@,
        ),
{
}

/// What is said of a plan, of its arguments and of what came of it is what stands in them.
pub proof fn plans_say_what_they_hold(
    args: SanityArgs,
    plan: SanityPlan,
    ticks: PlanTicks,
    summary: SanitySummary,
    market: MarketSpec,
    position: StartupPosition,
)
    ensures
        args@.config == args.config@,
        args@.symbol == args.symbol@,
        args@.side == args.side@,
        args@.amount == args.amount,
        args@.quote_offset_ticks == args.quote_offset_ticks,
        args@.min_order_notional == args.min_order_notional,
        args@.execute == args.execute,
        args@.allow_non_testnet == args.allow_non_testnet,
        args@.settle_millis == args.settle_millis,
        plan@.symbol == plan.symbol@,
        plan@.first_price == plan.first_price,
        plan@.second_price == plan.second_price,
        plan@.tick_size == plan.tick_size,
        plan@.amount == plan.amount,
        plan@.side == plan.side,
        plan@.offset_ticks == plan.offset_ticks,
        ticks@.first_tick == ticks.first_tick,
        ticks@.second_tick == ticks.second_tick,
        ticks@.first_price == ticks.first_price@,
        ticks@.first == (ticks.first.price@, ticks.first.amount@),
        ticks@.second == (ticks.second.price@, ticks.second.amount@),
        summary.deep_view().creates_ok == summary.creates_ok,
        summary.deep_view().edits_ok == summary.edits_ok,
        summary.deep_view().cancels_ok == summary.cancels_ok,
        summary.deep_view().residual_client_order_ids
            == summary.residual_client_order_ids.deep_view(),
        summary.deep_view().edited_client_order_id == summary.edited_client_order_id.deep_view(),
        summary.deep_view().edited_exchange_order_id == summary.edited_exchange_order_id,
        market.deep_view().symbol == market.symbol@,
        market.deep_view().tick_size == market.tick_size,
        market.deep_view().lot_size == market.lot_size,
        market.deep_view().min_order_size == market.min_order_size,
        position.deep_view().symbol == position.symbol@,
        position.deep_view().qty == position.qty,
        position.deep_view().exch_ts == position.exch_ts,
{
}

/// What is said of what the run does next is what stands in it.
pub proof fn actions_say_what_they_hold(action: SanityAction)
    ensures
        action matches SanityAction::LoadConfig(path) ==> action@ == SanityActionView::LoadConfig(
            path@,
        ),
        action matches SanityAction::Get { url, path, query } ==> (
        action@ matches SanityActionView::Get { url: u, path: p, query: q } && u == url@ && p
            == path@ && (query is Some <==> q is Some) && (query matches Some((name, value)) ==> q
            == Some((name@, value@)))),
        action matches SanityAction::Quote(plan) ==> action@ == SanityActionView::Quote(plan@),
        action matches SanityAction::Submit(payload) ==> action@ == SanityActionView::Submit(
            payload@,
        ),
        action matches SanityAction::Edit(payload) ==> action@ == SanityActionView::Edit(payload@),
        action matches SanityAction::Cancel(payload) ==> action@ == SanityActionView::Cancel(
            payload@,
        ),
        action matches SanityAction::Sleep(millis) ==> action@ == SanityActionView::Sleep(millis),
        action is Wait <==> action@ is Wait,
        action matches SanityAction::Finish(result) ==> action@ == SanityActionView::Finish(
            outcome(result),
        ),
{
}

/// What is said of a JSON value and of a number is what stands in it.
pub proof fn values_say_what_they_hold(value: Json, number: NumericText)
    ensures
        value is Null ==> value@ == JsonView::Null,
        value matches Json::Bool(flag) ==> value@ == JsonView::Bool(flag),
        value matches Json::Number(JsonNumber::Int(n)) ==> value@ == JsonView::Int(n),
        value matches Json::Number(JsonNumber::UInt(n)) ==> value@ == JsonView::UInt(n),
        value matches Json::Number(JsonNumber::Float(n)) ==> value@ == JsonView::Float(n),
        value matches Json::Text(text) ==> value@ == JsonView::Text(text@),
        value matches Json::Array(items) ==> (value@ matches JsonView::Array(said) && said.len()
            == items@.len() && forall|i: int|
            0 <= i < items@.len() ==> #[trigger] said[i] == items@[i]@),
        value matches Json::Object(members) ==> (value@ matches JsonView::Object(said)
            && said.len() == members@.len() && forall|i: int|
            0 <= i < members@.len() ==> #[trigger] said[i] == (members@[i].0@, members@[i].1@)),
        number@.text == number.text@,
        number@.value == number.value,
{
}

/// What is said of an error is the error, with its fields.
pub proof fn errors_say_what_they_hold(
    trade: TradeError,
    answer: WsTradeProtocolError,
    socket: WebSocketError,
    key: SigningError,
    config: ConfigError,
)
    ensures
        trade matches TradeError::Signing(error) ==> trade@ == TradeErrorView::Signing(error@),
        trade matches TradeError::PrivateKey(error) ==> trade@ == TradeErrorView::PrivateKey(
            error@,
        ),
        trade matches TradeError::Http(error) ==> trade@ == TradeErrorView::Http(error@),
        trade matches TradeError::Json(error) ==> trade@ == TradeErrorView::Json(error@),
        trade matches TradeError::WebSocket(error) ==> trade@ == TradeErrorView::WebSocket(error@),
        trade matches TradeError::Tungstenite(error) ==> trade@ == TradeErrorView::Tungstenite(
            error@,
        ),
        trade matches TradeError::WsProtocol(error) ==> trade@ == TradeErrorView::WsProtocol(
            error@,
        ),
        trade is Timeout <==> trade@ is Timeout,
        trade is NotStarted <==> trade@ is NotStarted,
        trade is Stopped <==> trade@ is Stopped,
        trade matches TradeError::UnsupportedOperation(operation) ==> trade@
            == TradeErrorView::UnsupportedOperation(operation@),
        trade matches TradeError::Order(error) ==> trade@ == TradeErrorView::Order(error@),
        answer matches WsTradeProtocolError::Json(error) ==> answer@ == ProtocolErrorView::Json(
            error@,
        ),
        answer is MissingRequestId <==> answer@ is MissingRequestId,
        answer is MissingCommandType <==> answer@ is MissingCommandType,
        answer matches WsTradeProtocolError::RequestIdMismatch { expected, actual } ==> answer@
            == (ProtocolErrorView::RequestIdMismatch { expected: expected@, actual: actual@ }),
        answer matches WsTradeProtocolError::Command { code, error } ==> answer@
            == (ProtocolErrorView::Command { code, error: error.deep_view() }),
        socket matches WebSocketError::Tungstenite(error) ==> socket@
            == WebSocketErrorView::Tungstenite(error@),
        socket matches WebSocketError::Json(error) ==> socket@ == WebSocketErrorView::Json(error@),
        socket is ConnectionInterrupted <==> socket@ is ConnectionInterrupted,
        key matches SigningError::InvalidKeyLength(len) ==> key@
            == SigningErrorView::InvalidKeyLength(len as nat),
        key matches SigningError::InvalidBase58(error) ==> key@ == SigningErrorView::InvalidBase58(
            error@,
        ),
        key matches SigningError::InvalidJson(error) ==> key@ == SigningErrorView::InvalidJson(
            error@,
        ),
        config matches ConfigError::Missing(field) ==> config@ == ConfigErrorView::Missing(field@),
        config matches ConfigError::Invalid { field, reason } ==> config@
            == (ConfigErrorView::Invalid { field: field@, reason: reason@ }),
        config matches ConfigError::PrivateKey(error) ==> config@ == ConfigErrorView::PrivateKey(
            error@,
        ),
        config matches ConfigError::ApiKey(error) ==> config@ == ConfigErrorView::ApiKey(error@),
        config matches ConfigError::AccountDerivation(error) ==> config@
            == ConfigErrorView::AccountDerivation(error@),
{
}

/// What is said of an error of a stream, of the start, of the run or of the connector is the error,
/// with its fields.
pub proof fn other_errors_say_what_they_hold(
    public: PublicStreamError,
    private: PrivateStreamError,
    account: AccountStateError,
    startup: StartupError,
    run: SanityError,
    connector: PacificaError,
)
    ensures
        public matches PublicStreamError::Json(error) ==> public@ == PublicErrorView::Json(error@),
        public matches PublicStreamError::InvalidNumber { field, value } ==> public@
            == (PublicErrorView::InvalidNumber { field: field@, value: value@ }),
        public is MissingBookSide <==> public@ is MissingBookSide,
        public matches PublicStreamError::UnsupportedTradeDirection(direction) ==> public@
            == PublicErrorView::UnsupportedTradeDirection(direction@),
        public matches PublicStreamError::WebSocket(error) ==> public@
            == PublicErrorView::WebSocket(error@),
        public matches PublicStreamError::Tungstenite(error) ==> public@
            == PublicErrorView::Tungstenite(error@),
        private matches PrivateStreamError::Json(error) ==> private@ == PrivateErrorView::Json(
            error@,
        ),
        private matches PrivateStreamError::InvalidNumber { field, value } ==> private@
            == (PrivateErrorView::InvalidNumber { field: field@, value: value@ }),
        private matches PrivateStreamError::UnsupportedOrderStatus(status) ==> private@
            == PrivateErrorView::UnsupportedOrderStatus(status@),
        private matches PrivateStreamError::OrderManager(error) ==> private@
            == PrivateErrorView::OrderManager(error),
        private matches PrivateStreamError::AccountState(error) ==> private@
            == PrivateErrorView::AccountState(error@),
        private matches PrivateStreamError::WebSocket(error) ==> private@
            == PrivateErrorView::WebSocket(error@),
        private matches PrivateStreamError::Tungstenite(error) ==> private@
            == PrivateErrorView::Tungstenite(error@),
        account matches AccountStateError::Json(error) ==> account@ == AccountErrorView::Json(
            error@,
        ),
        account matches AccountStateError::InvalidNumber { field, value } ==> account@
            == (AccountErrorView::InvalidNumber { field: field@, value: value@ }),
        startup matches StartupError::Json(error) ==> startup@ == StartupErrorView::Json(error@),
        startup is RestFailure <==> startup@ is RestFailure,
        startup matches StartupError::MissingMarketInfo(symbol) ==> startup@
            == StartupErrorView::MissingMarketInfo(symbol@),
        startup matches StartupError::InvalidNumber { field, value } ==> startup@
            == (StartupErrorView::InvalidNumber { field: field@, value: value@ }),
        startup is MissingBookSide <==> startup@ is MissingBookSide,
        startup matches StartupError::UnknownOpenOrders(n) ==> startup@
            == StartupErrorView::UnknownOpenOrders(n as nat),
        run matches SanityError::Config(error) ==> run@ == SanityErrorView::Config(error@),
        run matches SanityError::InvalidConfig(error) ==> run@ == SanityErrorView::InvalidConfig(
            error@,
        ),
        run matches SanityError::ReadConfig(error) ==> run@ == SanityErrorView::ReadConfig(error@),
        run is MissingExecute <==> run@ is MissingExecute,
        run is NonTestnet <==> run@ is NonTestnet,
        run matches SanityError::InvalidSide(side) ==> run@ == SanityErrorView::InvalidSide(side@),
        run matches SanityError::Http(error) ==> run@ == SanityErrorView::Http(error@),
        run matches SanityError::Json(error) ==> run@ == SanityErrorView::Json(error@),
        run matches SanityError::Market(error) ==> run@ == SanityErrorView::Market(error@),
        run matches SanityError::Trade(error) ==> run@ == SanityErrorView::Trade(error@),
        run matches SanityError::ResidualOrders(ids) ==> run@ == SanityErrorView::ResidualOrders(
            ids.deep_view(),
        ),
        connector matches PacificaError::Config(error) ==> connector@
            == PacificaErrorView::Config(error@),
        connector matches PacificaError::InvalidConfig(error) ==> connector@
            == PacificaErrorView::InvalidConfig(error@),
        connector matches PacificaError::Trade(error) ==> connector@ == PacificaErrorView::Trade(
            error@,
        ),
        connector matches PacificaError::WebSocket(error) ==> connector@
            == PacificaErrorView::WebSocket(error@),
{
}

/// A number is above zero, equals zero, or is not above the smallest step from one, as its bits say;
/// the number under the other sign has the other sign bit and the same bits behind it.
pub proof fn numbers_compare_by_their_bits(x: Binary64)
    ensures
        x.positive() <==> 0 < x.bits <= 0x7ff0_0000_0000_0000,
        x.zero_valued() <==> x.bits == 0 || x.bits == 0x8000_0000_0000_0000,
        x.at_most(Binary64 { bits: 0x3cb0_0000_0000_0000 }) <==> x.bits <= 0x3cb0_0000_0000_0000 || (
        0x8000_0000_0000_0000 <= x.bits <= 0xfff0_0000_0000_0000),
        x.bits < 0x8000_0000_0000_0000 ==> x.negative().bits == x.bits + 0x8000_0000_0000_0000,
        x.bits >= 0x8000_0000_0000_0000 ==> x.negative().bits == x.bits - 0x8000_0000_0000_0000,
{
}

} // verus!
