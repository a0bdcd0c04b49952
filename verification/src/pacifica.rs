//! The connector: what it does about requests of a bot and about the answers of the exchange.

use crate::account_state::{AccountState, AccountView};
use crate::binary64::Binary64;
use crate::config::{file_read, Config, ConfigError, ConfigErrorView, ConfigView};
use crate::json::canonical;
use crate::order_laws::{answers_keep_consistency, refused_edit_is_undone};
use crate::order_payload::{
    CancelOrderPayload, CancelOrderView, CreateOrderPayload, CreateOrderView, EditOrderPayload,
    EditOrderView,
};
use crate::ordermanager::{
    FillNumbers, ManagerView, OrderExt, OrderExtView, OrderManager, OrderManagerError, QuoteText,
};
use crate::private_stream::{
    computes_fills, plain_answer, published, PrivateErrorView, PrivateInput, PrivateOutput,
    PrivateStream,
};
use crate::symbols::{in_order, SymbolSet};
use crate::text::outcome;
use crate::trade_stream::{client_of, TradeClient, TradeClientView, TradeError, TradeErrorView};
use crate::types::{
    DetailView, ErrorDetail, ErrorKind, LiveEvent, LiveEventView, Order, OrderId, Status,
};
use crate::uuid::is_uuid_v4;
use crate::websocket::{WebSocketError, WebSocketErrorView};
use vstd::prelude::*;
use vstd::string::StringExecFns;

verus! {

/// Why the connector cannot be built or used.
#[derive(Debug)]
pub enum PacificaError {
    Config(String),
    InvalidConfig(ConfigError),
    Trade(TradeError),
    WebSocket(WebSocketError),
}

/// What a [`PacificaError`] says.
pub enum PacificaErrorView {
    Config(Seq<char>),
    InvalidConfig(ConfigErrorView),
    Trade(TradeErrorView),
    WebSocket(WebSocketErrorView),
}

impl View for PacificaError {
    type V = PacificaErrorView;

    open spec fn view(&self) -> PacificaErrorView {
        match *self {
            PacificaError::Config(error) => PacificaErrorView::Config(error@),
            PacificaError::InvalidConfig(error) => PacificaErrorView::InvalidConfig(error@),
            PacificaError::Trade(error) => PacificaErrorView::Trade(error@),
            PacificaError::WebSocket(error) => PacificaErrorView::WebSocket(error@),
        }
    }
}

impl PacificaErrorView {
    /// The words for the error.
    pub open spec fn words(self) -> Seq<char> {
        match self {
            PacificaErrorView::Config(error) => "Config: "@ + error,
            PacificaErrorView::InvalidConfig(error) => "InvalidConfig: "@ + error.words(),
            PacificaErrorView::Trade(error) => "Trade: "@ + error.words(),
            PacificaErrorView::WebSocket(error) => "WebSocket: "@ + error.words(),
        }
    }

    /// The values in the error are ones that `serde_json` can hold.
    pub open spec fn wf(self) -> bool {
        self matches PacificaErrorView::Trade(error) ==> error.wf()
    }
}

impl PacificaError {
    /// The words for the error.
    pub fn message(&self) -> (r: String)
        requires
            self@.wf(),
        ensures
            r@ == self@.words(),
    {
        match self {
            PacificaError::Config(error) => "Config: ".to_string().concat(error.as_str()),
            PacificaError::InvalidConfig(error) => "InvalidConfig: ".to_string().concat(
                error.message().as_str(),
            ),
            PacificaError::Trade(error) => "Trade: ".to_string().concat(error.message().as_str()),
            PacificaError::WebSocket(error) => "WebSocket: ".to_string().concat(
                error.message().as_str(),
            ),
        }
    }

    /// The error as details for a bot.
    pub fn to_value(&self) -> (r: ErrorDetail)
        requires
            self@.wf(),
        ensures
            r@ == DetailView::Text(self@.words()),
    {
        ErrorDetail::Text(self.message())
    }
}

/// What a bot hears of a request that failed.
pub open spec fn order_error(message: Seq<char>) -> LiveEventView {
    LiveEventView::Error {
        kind: ErrorKind::OrderError,
        value: DetailView::Entry { name: "msg"@, text: message },
    }
}

/// What a bot hears of a request that failed.
pub fn publish_order_error(message: String) -> (r: LiveEvent)
    ensures
        r@ == order_error(message@),
{
    LiveEvent::Error {
        kind: ErrorKind::OrderError,
        value: ErrorDetail::Entry { name: "msg".to_string(), text: message },
    }
}

/// What a bot hears of a stream that was interrupted.
pub open spec fn connection_error(message: Seq<char>) -> LiveEventView {
    LiveEventView::Error {
        kind: ErrorKind::ConnectionInterrupted,
        value: DetailView::Text(message),
    }
}

/// What a bot hears of a stream that was interrupted.
pub fn publish_connection_error(message: String) -> (r: LiveEvent)
    ensures
        r@ == connection_error(message@),
{
    LiveEvent::Error {
        kind: ErrorKind::ConnectionInterrupted,
        value: ErrorDetail::Text(message),
    }
}

/// How long to wait before an interrupted stream is opened again, in seconds.
pub const RECONNECT_DELAY_SECS: u64 = 1;

/// What follows the end of a stream, which is then opened again: where it was interrupted, what a
/// bot hears of it, and how many seconds to wait.
pub fn after_stream(error: Option<String>) -> (r: Option<(LiveEvent, u64)>)
    ensures
        match (error, r) {
            (None, None) => true,
            (Some(message), Some((event, seconds))) => event@ == connection_error(message@)
                && seconds == RECONNECT_DELAY_SECS,
            _ => false,
        },
{
    match error {
        Some(message) => Some((publish_connection_error(message), RECONNECT_DELAY_SECS)),
        None => None,
    }
}

/// What the connector holds.
pub struct PacificaView {
    pub config: ConfigView,
    pub orders: ManagerView,
    pub account: AccountView,
    pub client: TradeClientView,
    pub symbols: Seq<Seq<char>>,
}

/// A request to send to the exchange, or what a bot hears of its refusal.
pub open spec fn asked<T>(request: Result<T, OrderManagerError>) -> Result<T, LiveEventView> {
    match request {
        Ok(request) => Ok(request),
        Err(error) => Err(order_error(error.words())),
    }
}

/// What a bot hears once a request was answered: the order, where the book still has it, and the
/// error, where there is one.
pub open spec fn told(
    order: Option<Result<OrderExtView, OrderManagerError>>,
    error: Option<Seq<char>>,
) -> Seq<LiveEventView> {
    let first = match order {
        Some(Ok(order)) => seq![LiveEventView::Order { symbol: order.symbol, order: order.order }],
        _ => Seq::empty(),
    };
    match error {
        Some(message) => first.push(order_error(message)),
        None => first,
    }
}

impl PacificaView {
    /// The connector that the settings give.
    pub open spec fn with_config(config: ConfigView) -> PacificaView {
        PacificaView {
            config,
            orders: ManagerView::empty(),
            account: AccountView::empty(),
            client: client_of(config),
            symbols: Seq::empty(),
        }
    }

    /// The connector with another book of orders.
    pub open spec fn with_orders(self, orders: ManagerView) -> PacificaView {
        PacificaView { orders, ..self }
    }

    /// A new order was answered.
    pub open spec fn after_submit(self, id: Seq<char>, result: Result<(), TradeErrorView>) -> (
        PacificaView,
        Seq<LiveEventView>,
    ) {
        match result {
            Ok(_) => (self, Seq::empty()),
            Err(error) => {
                let (orders, rejected) = self.orders.with_submit_fail(id);
                (self.with_orders(orders), told(Some(rejected), Some(error.words())))
            },
        }
    }

    /// The cancelling of an order was answered.
    pub open spec fn after_cancel(self, id: Seq<char>, result: Result<(), TradeErrorView>) -> (
        PacificaView,
        Seq<LiveEventView>,
    ) {
        match result {
            Ok(_) => (self, Seq::empty()),
            Err(error) => {
                let (orders, active) = self.orders.with_cancel_fail(id);
                (self.with_orders(orders), told(Some(active), Some(error.words())))
            },
        }
    }

    /// The replacement of an order was answered.
    pub open spec fn after_modify(self, id: Seq<char>, result: Result<(), TradeErrorView>) -> (
        PacificaView,
        Seq<LiveEventView>,
    ) {
        match result {
            Ok(_) => {
                let (orders, active) = self.orders.with_edit_ack(id);
                (self.with_orders(orders), told(Some(active), None))
            },
            Err(error) => {
                let (orders, active) = self.orders.with_edit_fail(id);
                (self.with_orders(orders), told(Some(active), Some(error.words())))
            },
        }
    }
}

/// The events about an order that was looked up, and about an error.
fn tell(order: Result<OrderExt, OrderManagerError>, error: Option<String>) -> (r: Vec<LiveEvent>)
    ensures
        r.deep_view() == told(Some(crate::text::viewed(order)), error.deep_view()),
{
    let ghost looked_up = crate::text::viewed(order);
    let mut events: Vec<LiveEvent> = Vec::new();
    match order {
        Ok(order_ext) => {
            events.push(LiveEvent::Order { symbol: order_ext.symbol, order: order_ext.order });
        },
        Err(_) => {},
    }
    let ghost first = told(Some(looked_up), None);
    assert(events.deep_view() =~= first);
    match error {
        Some(message) => {
            events.push(publish_order_error(message));
            assert(events.deep_view() =~= first.push(order_error(message@)));
        },
        None => {},
    }
    events
}

/// The connector.
#[derive(Debug)]
pub struct Pacifica {
    config: Config,
    order_manager: OrderManager,
    account_state: AccountState,
    trade_client: TradeClient,
    symbols: SymbolSet,
}

impl View for Pacifica {
    type V = PacificaView;

    closed spec fn view(&self) -> PacificaView {
        PacificaView {
            config: self.config@,
            orders: self.order_manager@,
            account: self.account_state@,
            client: self.trade_client@,
            symbols: self.symbols@,
        }
    }
}

impl DeepView for Pacifica {
    type V = PacificaView;

    open spec fn deep_view(&self) -> PacificaView {
        self@
    }
}

impl Pacifica {
    /// The connector that the settings give. `config` is what was read of them.
    pub fn build_from(
        config: Result<Config, String>,
        home: &Option<String>,
        api_key_file: Result<String, String>,
        private_key_file: Result<String, String>,
    ) -> (r: Result<Self, PacificaError>)
        ensures
            outcome(r) == (match config {
                Err(error) => Err::<PacificaView, PacificaErrorView>(
                    PacificaErrorView::Config(error@),
                ),
                Ok(config) => match config@.resolved(
                    home.deep_view(),
                    file_read(api_key_file),
                    file_read(private_key_file),
                ) {
                    Err(error) => Err(PacificaErrorView::InvalidConfig(error)),
                    Ok(resolved) => match resolved.fault() {
                        Some(error) => Err(PacificaErrorView::InvalidConfig(error)),
                        None => Ok(PacificaView::with_config(resolved)),
                    },
                },
            }),
    {
        let config = match config {
            Ok(config) => config,
            Err(error) => {
                return Err(PacificaError::Config(error));
            },
        };
        let config = match config.resolve(home, api_key_file, private_key_file) {
            Ok(config) => config,
            Err(error) => {
                return Err(PacificaError::InvalidConfig(error));
            },
        };
        match config.validate() {
            Ok(_) => {},
            Err(error) => {
                return Err(PacificaError::InvalidConfig(error));
            },
        }
        let order_manager = OrderManager::new(config.order_prefix.as_str());
        let trade_client = TradeClient::new(&config);
        Ok(
            Pacifica {
                config,
                order_manager,
                account_state: AccountState::new(),
                trade_client,
                symbols: SymbolSet::new(),
            },
        )
    }

    /// The settings.
    pub fn config(&self) -> (r: &Config)
        ensures
            r@ == self@.config,
    {
        &self.config
    }

    /// The book of orders.
    pub fn order_manager(&self) -> (r: &OrderManager)
        ensures
            r@ == self@.orders,
    {
        &self.order_manager
    }

    /// Whoever makes the signed commands.
    pub fn trade_client(&self) -> (r: &TradeClient)
        ensures
            r@ == self@.client,
    {
        &self.trade_client
    }

    /// The symbols that are followed.
    pub fn symbols(&self) -> (r: &SymbolSet)
        ensures
            r@ == self@.symbols,
    {
        &self.symbols
    }

    /// Follows a symbol, and tells whether it is new.
    pub fn register(&mut self, symbol: String) -> (r: bool)
        ensures
            r == !old(self)@.symbols.contains(symbol@),
            r ==> final(self)@.symbols.to_set() == old(self)@.symbols.to_set().insert(symbol@),
            !r ==> final(self)@.symbols == old(self)@.symbols,
            in_order(final(self)@.symbols),
            final(self)@.config == old(self)@.config,
            final(self)@.orders == old(self)@.orders,
            final(self)@.account == old(self)@.account,
            final(self)@.client == old(self)@.client,
    {
        self.symbols.insert(symbol)
    }

    /// Takes in a new order: the request that places it, or what the bot hears of its refusal.
    pub fn submit(&mut self, symbol: &str, order: Order, quote: &QuoteText) -> (r: Result<
        CreateOrderPayload,
        LiveEvent,
    >)
        ensures
            exists|id: Seq<char>| #[trigger]
                is_uuid_v4(id) && ({
                    let (orders, request) = old(self)@.orders.with_new_order(
                        symbol@,
                        order,
                        quote.price@,
                        quote.amount@,
                        id,
                    );
                    &&& final(self)@ == old(self)@.with_orders(orders)
                    &&& (match r {
                        Ok(payload) => Ok::<CreateOrderView, LiveEventView>(payload@),
                        Err(event) => Err(event@),
                    }) == asked(request)
                }),
    {
        match self.order_manager.new_order(symbol, order, quote) {
            Ok(create) => Ok(create),
            Err(error) => Err(publish_order_error(error.message())),
        }
    }

    /// Takes in the answer to a new order: one that failed leaves the book.
    pub fn submit_done(&mut self, client_order_id: &str, result: Result<(), TradeError>) -> (r: Vec<
        LiveEvent,
    >)
        requires
            result matches Err(error) ==> error@.wf(),
        ensures
            (final(self)@, r.deep_view()) == old(self)@.after_submit(
                client_order_id@,
                outcome(result),
            ),
    {
        match result {
            Ok(_) => {
                let events: Vec<LiveEvent> = Vec::new();
                assert(events.deep_view() =~= Seq::<LiveEventView>::empty());
                events
            },
            Err(error) => {
                let rejected = self.order_manager.update_submit_fail(client_order_id);
                tell(rejected, Some(error.message()))
            },
        }
    }

    /// The request that cancels an order, or what the bot hears of its refusal.
    pub fn cancel(&self, symbol: &str, order_id: OrderId) -> (r: Result<
        CancelOrderPayload,
        LiveEvent,
    >)
        ensures
            (match r {
                Ok(payload) => Ok::<CancelOrderView, LiveEventView>(payload@),
                Err(event) => Err(event@),
            }) == asked(self@.orders.cancel_request(symbol@, order_id)),
    {
        match self.order_manager.cancel_order(symbol, order_id) {
            Ok(cancel) => Ok(cancel),
            Err(error) => Err(publish_order_error(error.message())),
        }
    }

    /// Takes in the answer to the cancelling of an order: one that failed leaves it in the market.
    pub fn cancel_done(&mut self, client_order_id: &str, result: Result<(), TradeError>) -> (r: Vec<
        LiveEvent,
    >)
        requires
            result matches Err(error) ==> error@.wf(),
        ensures
            (final(self)@, r.deep_view()) == old(self)@.after_cancel(
                client_order_id@,
                outcome(result),
            ),
    {
        match result {
            Ok(_) => {
                let events: Vec<LiveEvent> = Vec::new();
                assert(events.deep_view() =~= Seq::<LiveEventView>::empty());
                events
            },
            Err(error) => {
                let active = self.order_manager.update_cancel_fail(client_order_id);
                tell(active, Some(error.message()))
            },
        }
    }

    /// Replaces an order: the request that changes it, or what the bot hears of its refusal.
    pub fn modify(&mut self, symbol: &str, order: Order, quote: &QuoteText) -> (r: Result<
        EditOrderPayload,
        LiveEvent,
    >)
        ensures
            ({
                let (orders, request) = old(self)@.orders.with_edit(
                    symbol@,
                    order,
                    quote.price@,
                    quote.amount@,
                );
                &&& final(self)@ == old(self)@.with_orders(orders)
                &&& (match r {
                    Ok(payload) => Ok::<EditOrderView, LiveEventView>(payload@),
                    Err(event) => Err(event@),
                }) == asked(request)
            }),
    {
        match self.order_manager.edit_order(symbol, order, quote) {
            Ok(edit) => Ok(edit),
            Err(error) => Err(publish_order_error(error.message())),
        }
    }

    /// Takes in the answer to the replacement of an order: one that failed leaves it as it was.
    pub fn modify_done(&mut self, client_order_id: &str, result: Result<(), TradeError>) -> (r: Vec<
        LiveEvent,
    >)
        requires
            result matches Err(error) ==> error@.wf(),
        ensures
            (final(self)@, r.deep_view()) == old(self)@.after_modify(
                client_order_id@,
                outcome(result),
            ),
    {
        match result {
            Ok(_) => {
                let active = self.order_manager.update_edit_ack(client_order_id);
                tell(active, None)
            },
            Err(error) => {
                let active = self.order_manager.update_edit_fail(client_order_id);
                tell(active, Some(error.message()))
            },
        }
    }

    /// What is to be done about something that happened at the stream of private messages.
    pub fn private_step<F: Fn(Order, Option<Binary64>, Option<Binary64>) -> FillNumbers + Copy>(
        &mut self,
        stream: &PrivateStream,
        input: PrivateInput,
        fill: F,
    ) -> (r: PrivateOutput)
        requires
            input matches PrivateInput::Text(message) ==> message.times_fit(
                old(self)@.account,
                old(self)@.symbols,
            ),
            computes_fills(fill),
        ensures
            match input {
                PrivateInput::Text(message) => exists|
                    result: Result<Seq<LiveEventView>, PrivateErrorView>,
                | #[trigger]
                    message.taken_in(
                        fill,
                        old(self)@.orders,
                        old(self)@.account,
                        old(self)@.symbols,
                        final(self)@.orders,
                        final(self)@.account,
                        result,
                    ) && r@ == published(result),
                _ => final(self)@ == old(self)@ && Some(r@) == plain_answer(input),
            },
            final(self)@.config == old(self)@.config,
            final(self)@.client == old(self)@.client,
            final(self)@.symbols == old(self)@.symbols,
            r matches PrivateOutput::Send(request) ==> canonical(request@),
    {
        let ghost before = self@;
        let output = stream.step(
            &mut self.order_manager,
            &mut self.account_state,
            &self.symbols,
            input,
            fill,
        );
        proof {
            if input is Text {
                let message = input->Text_0;
                let result = choose|result: Result<Seq<LiveEventView>, PrivateErrorView>| #[trigger]
                    message.taken_in(
                        fill,
                        before.orders,
                        before.account,
                        before.symbols,
                        self.order_manager@,
                        self.account_state@,
                        result,
                    ) && output@ == published(result);
                assert(message.taken_in(
                    fill,
                    before.orders,
                    before.account,
                    before.symbols,
                    self@.orders,
                    self@.account,
                    result,
                ));
            }
        }
        output
    }
}

impl Pacifica {
    /// What is to be done about something that happened at the stream of private messages, unless
    /// it is a message with a time that cannot be written in nanoseconds: that changes nothing.
    pub fn try_private_step<F: Fn(Order, Option<Binary64>, Option<Binary64>) -> FillNumbers + Copy>(
        &mut self,
        stream: &PrivateStream,
        input: PrivateInput,
        fill: F,
    ) -> (r: Option<PrivateOutput>)
        requires
            computes_fills(fill),
        ensures
            match r {
                None => final(self)@ == old(self)@ && (input matches PrivateInput::Text(message)
                    && !message.times_fit(old(self)@.account, old(self)@.symbols)),
                Some(output) => {
                    &&& match input {
                        PrivateInput::Text(message) => message.times_fit(
                            old(self)@.account,
                            old(self)@.symbols,
                        ) && exists|result: Result<Seq<LiveEventView>, PrivateErrorView>| #[trigger]
                            message.taken_in(
                                fill,
                                old(self)@.orders,
                                old(self)@.account,
                                old(self)@.symbols,
                                final(self)@.orders,
                                final(self)@.account,
                                result,
                            ) && output@ == published(result),
                        _ => final(self)@ == old(self)@ && Some(output@) == plain_answer(input),
                    }
                    &&& final(self)@.config == old(self)@.config
                    &&& final(self)@.client == old(self)@.client
                    &&& final(self)@.symbols == old(self)@.symbols
                    &&& output matches PrivateOutput::Send(request) ==> canonical(request@)
                },
            },
    {
        match &input {
            PrivateInput::Text(message) => {
                if !message.fits(&self.account_state, &self.symbols) {
                    return None;
                }
            },
            _ => {},
        }
        Some(self.private_step(stream, input, fill))
    }
}

/// A replacement that the exchange refuses does not cost the order: the bot is told of it as it
/// was, with no request under way, and of the error, and it stays in the book.
pub proof fn refused_replacement_keeps_the_order(
    connector: PacificaView,
    symbol: Seq<char>,
    order: Order,
    price: Seq<char>,
    amount: Seq<char>,
    error: TradeErrorView,
)
    requires
        connector.orders.with_edit(symbol, order, price, amount).1 is Ok,
    ensures
        ({
            let (orders, request) = connector.orders.with_edit(symbol, order, price, amount);
            let id = request->Ok_0.client_order_id;
            let before = connector.orders.orders[id];
            let (after, events) = connector.with_orders(orders).after_modify(id, Err(error));
            &&& after.orders.orders[id] == before.settled(before.order.status)
            &&& after.orders.works(id, None)
            &&& events == seq![
                LiveEventView::Order {
                    symbol: before.symbol,
                    order: Order { req: Status::Unset, ..before.order },
                },
                order_error(error.words()),
            ]
        }),
{
    refused_edit_is_undone(connector.orders, symbol, order, price, amount);
    let (orders, request) = connector.orders.with_edit(symbol, order, price, amount);
    let id = request->Ok_0.client_order_id;
    let before = connector.orders.orders[id];
    let (after, events) = connector.with_orders(orders).after_modify(id, Err(error));
    assert(events =~= seq![
        LiveEventView::Order {
            symbol: before.symbol,
            order: Order { req: Status::Unset, ..before.order },
        },
        order_error(error.words()),
    ]);
}

/// A new order that the exchange refuses leaves the book, and the bot is told that it was
/// rejected.
pub proof fn refused_order_is_rejected(
    connector: PacificaView,
    id: Seq<char>,
    error: TradeErrorView,
)
    requires
        connector.orders.orders.contains_key(id),
    ensures
        ({
            let before = connector.orders.orders[id];
            let (after, events) = connector.after_submit(id, Err(error));
            &&& !after.orders.orders.contains_key(id)
            &&& events == seq![
                LiveEventView::Order {
                    symbol: before.symbol,
                    order: Order {
                        req: Status::Unset,
                        status: Status::Rejected,
                        ..before.order
                    },
                },
                order_error(error.words()),
            ]
        }),
{
    let before = connector.orders.orders[id];
    let (after, events) = connector.after_submit(id, Err(error));
    assert(events =~= seq![
        LiveEventView::Order {
            symbol: before.symbol,
            order: Order { req: Status::Unset, status: Status::Rejected, ..before.order },
        },
        order_error(error.words()),
    ]);
}

/// An order whose cancelling fails stays in the market.
pub proof fn failed_cancel_keeps_the_order(
    connector: PacificaView,
    id: Seq<char>,
    error: TradeErrorView,
)
    requires
        connector.orders.orders.contains_key(id),
    ensures
        connector.after_cancel(id, Err(error)).0.orders.works(id, None),
{
}

/// The answers to requests, good or bad, keep the book of orders consistent.
pub proof fn answers_keep_the_connector_consistent(
    connector: PacificaView,
    id: Seq<char>,
    result: Result<(), TradeErrorView>,
)
    requires
        connector.orders.consistent(),
    ensures
        connector.after_submit(id, result).0.orders.consistent(),
        connector.after_cancel(id, result).0.orders.consistent(),
        connector.after_modify(id, result).0.orders.consistent(),
{
    answers_keep_consistency(connector.orders, id, 0);
}

} // verus!
