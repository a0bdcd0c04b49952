//! The book of the connector's own orders: by which names they are known, what has been asked of
//! the exchange, and what its reports change.

use crate::binary64::{Binary64, EPSILON};
use crate::connector::GetOrders;
use crate::keyed::{KeyedMap, MapKey};
use crate::order_payload::{
    create_request, CancelOrderPayload, CancelOrderView, CreateOrderPayload, CreateOrderView,
    EditOrderPayload, EditOrderView,
};
use crate::text::{clone_option_text, viewed};
use crate::types::{OrdType, Order, OrderId, Side, Status, TimeInForce};
use crate::uuid::{is_uuid_v4, uuid_v4};
use vstd::prelude::*;
use vstd::string::StringExecFns;

verus! {

/// Why the book refuses a request or a report.
#[derive(Clone, Copy, Debug, PartialEq, Eq)]
pub enum OrderManagerError {
    InvalidArg(&'static str),
    OrderAlreadyExists,
    OrderNotFound,
    UnresolvedUpdate,
}

impl OrderManagerError {
    /// The words for the error.
    pub open spec fn words(self) -> Seq<char> {
        match self {
            OrderManagerError::InvalidArg(arg) => "invalid order argument: "@ + arg@,
            OrderManagerError::OrderAlreadyExists => "order already exists"@,
            OrderManagerError::OrderNotFound => "order not found"@,
            OrderManagerError::UnresolvedUpdate => "order update could not be resolved"@,
        }
    }

    /// The words for the error.
    pub fn message(&self) -> (r: String)
        ensures
            r@ == self.words(),
    {
        match self {
            OrderManagerError::InvalidArg(arg) => "invalid order argument: ".to_string().concat(
                arg,
            ),
            OrderManagerError::OrderAlreadyExists => "order already exists".to_string(),
            OrderManagerError::OrderNotFound => "order not found".to_string(),
            OrderManagerError::UnresolvedUpdate => "order update could not be resolved".to_string(),
        }
    }
}

/// An order of the book, with the names by which the exchange knows it.
#[derive(Debug)]
pub struct OrderExt {
    pub symbol: String,
    pub client_order_id: String,
    pub exchange_order_id: Option<i64>,
    pub order: Order,
}

/// What an [`OrderExt`] says.
pub struct OrderExtView {
    pub symbol: Seq<char>,
    pub client_order_id: Seq<char>,
    pub exchange_order_id: Option<i64>,
    pub order: Order,
}

impl View for OrderExt {
    type V = OrderExtView;

    open spec fn view(&self) -> OrderExtView {
        OrderExtView {
            symbol: self.symbol@,
            client_order_id: self.client_order_id@,
            exchange_order_id: self.exchange_order_id,
            order: self.order,
        }
    }
}

impl DeepView for OrderExt {
    type V = OrderExtView;

    open spec fn deep_view(&self) -> OrderExtView {
        self@
    }
}

impl Clone for OrderExt {
    fn clone(&self) -> (r: Self)
        ensures
            r@ == self@,
    {
        OrderExt {
            symbol: self.symbol.clone(),
            client_order_id: self.client_order_id.clone(),
            exchange_order_id: self.exchange_order_id,
            order: self.order,
        }
    }
}

/// The name by which a bot knows an order.
#[derive(Debug)]
struct SymbolOrderId {
    symbol: String,
    order_id: OrderId,
}

impl DeepView for SymbolOrderId {
    type V = (Seq<char>, OrderId);

    closed spec fn deep_view(&self) -> (Seq<char>, OrderId) {
        (self.symbol@, self.order_id)
    }
}

impl MapKey for SymbolOrderId {
    fn same_key(&self, other: &Self) -> (r: bool) {
        self.symbol == other.symbol && self.order_id == other.order_id
    }
}

/// By what an order that the exchange has not confirmed yet can be recognised.
#[derive(Debug)]
struct PendingCreateKey {
    symbol: String,
    side: String,
    price: String,
}

impl DeepView for PendingCreateKey {
    type V = (Seq<char>, Seq<char>, Seq<char>);

    closed spec fn deep_view(&self) -> (Seq<char>, Seq<char>, Seq<char>) {
        (self.symbol@, self.side@, self.price@)
    }
}

impl MapKey for PendingCreateKey {
    fn same_key(&self, other: &Self) -> (r: bool) {
        self.symbol == other.symbol && self.side == other.side && self.price == other.price
    }
}

/// The state of an order in the words of the exchange.
#[derive(Clone, Copy, Debug, PartialEq, Eq, Structural)]
pub enum PacificaOrderStatus {
    Open,
    PartiallyFilled,
    Filled,
    Cancelled,
    Rejected,
}

/// A report of the exchange on one order.
#[derive(Clone, Debug, PartialEq)]
pub struct PacificaOrderUpdate {
    pub symbol: String,
    pub client_order_id: Option<String>,
    pub exchange_order_id: Option<i64>,
    pub side: Option<String>,
    pub price: Option<String>,
    pub status: PacificaOrderStatus,
    pub leaves_qty: Option<Binary64>,
    pub exec_qty: Option<Binary64>,
    pub exec_price: Option<Binary64>,
    pub exch_timestamp: i64,
}

/// What a [`PacificaOrderUpdate`] says.
#[verifier::ext_equal]
pub struct UpdateView {
    pub symbol: Seq<char>,
    pub client_order_id: Option<Seq<char>>,
    pub exchange_order_id: Option<i64>,
    pub side: Option<Seq<char>>,
    pub price: Option<Seq<char>>,
    pub status: PacificaOrderStatus,
    pub leaves_qty: Option<Binary64>,
    pub exec_qty: Option<Binary64>,
    pub exec_price: Option<Binary64>,
    pub exch_timestamp: i64,
}

impl View for PacificaOrderUpdate {
    type V = UpdateView;

    open spec fn view(&self) -> UpdateView {
        UpdateView {
            symbol: self.symbol@,
            client_order_id: self.client_order_id.deep_view(),
            exchange_order_id: self.exchange_order_id,
            side: self.side.deep_view(),
            price: self.price.deep_view(),
            status: self.status,
            leaves_qty: self.leaves_qty,
            exec_qty: self.exec_qty,
            exec_price: self.exec_price,
            exch_timestamp: self.exch_timestamp,
        }
    }
}

impl DeepView for PacificaOrderUpdate {
    type V = UpdateView;

    open spec fn deep_view(&self) -> UpdateView {
        self@
    }
}

impl UpdateView {
    /// By what the report can be matched with an order that is not confirmed yet.
    pub open spec fn pending_key(self) -> Option<(Seq<char>, Seq<char>, Seq<char>)> {
        match (self.side, self.price) {
            (Some(side), Some(price)) => Some((self.symbol, side, price)),
            _ => None,
        }
    }

    /// The report tells of one more fill, not of the totals.
    pub open spec fn is_fill(self) -> bool {
        &&& self.status == PacificaOrderStatus::PartiallyFilled
        &&& self.leaves_qty is None
        &&& self.exec_qty is Some
    }

    /// The order leaves the book of the exchange with this report.
    pub open spec fn ends_order(self) -> bool {
        ||| self.status == PacificaOrderStatus::Filled
        ||| self.status == PacificaOrderStatus::Cancelled
        ||| self.status == PacificaOrderStatus::Rejected
    }
}

/// The price and the amount of an order, as texts.
#[derive(Debug)]
pub struct QuoteText {
    pub price: String,
    pub amount: String,
}

/// The numbers of an order after a fill: the executed quantity with the fill added, the open
/// quantity with the fill taken off and not below zero, and the price of the fill in ticks.
#[derive(Clone, Copy, Debug, PartialEq, Eq, Structural)]
pub struct FillNumbers {
    pub exec_qty: Binary64,
    pub leaves_qty: Binary64,
    pub exec_price_tick: i64,
}

/// What a book holds.
#[verifier::ext_equal]
pub struct ManagerView {
    pub orders: Map<Seq<char>, OrderExtView>,
    pub order_ids: Map<(Seq<char>, OrderId), Seq<char>>,
    pub exchange_ids: Map<i64, Seq<char>>,
    pub pending_creates: Map<(Seq<char>, Seq<char>, Seq<char>), Seq<char>>,
    pub pending_edits: Map<Seq<char>, Order>,
}

/// The exchange's name of a side.
pub open spec fn side_name(side: Side) -> Result<Seq<char>, OrderManagerError> {
    match side {
        Side::Buy => Ok("bid"@),
        Side::Sell => Ok("ask"@),
        _ => Err(OrderManagerError::InvalidArg("side")),
    }
}

/// Orders are limit orders that only add to the book, and buy or sell.
pub open spec fn validated(order: Order) -> Result<(), OrderManagerError> {
    if order.order_type != OrdType::Limit {
        Err(OrderManagerError::InvalidArg("order_type"))
    } else if order.time_in_force != TimeInForce::GTX {
        Err(OrderManagerError::InvalidArg("time_in_force"))
    } else if order.side != Side::Buy && order.side != Side::Sell {
        Err(OrderManagerError::InvalidArg("side"))
    } else {
        Ok(())
    }
}

/// The state that the exchange's word for it means.
pub open spec fn status_of(status: PacificaOrderStatus) -> Status {
    match status {
        PacificaOrderStatus::Open => Status::New,
        PacificaOrderStatus::PartiallyFilled => Status::PartiallyFilled,
        PacificaOrderStatus::Filled => Status::Filled,
        PacificaOrderStatus::Cancelled => Status::Canceled,
        PacificaOrderStatus::Rejected => Status::Rejected,
    }
}

impl OrderExtView {
    /// The order with no request under way and in state `status`.
    pub open spec fn settled(self, status: Status) -> OrderExtView {
        OrderExtView { order: Order { req: Status::Unset, status, ..self.order }, ..self }
    }

    /// The order under another exchange identifier.
    pub open spec fn renamed(self, exchange_order_id: i64) -> OrderExtView {
        OrderExtView { exchange_order_id: Some(exchange_order_id), ..self }
    }

    /// The order back at `previous`, and in the market.
    pub open spec fn restored(self, previous: Order) -> OrderExtView {
        OrderExtView {
            order: Order {
                req: Status::Unset,
                status: if previous.is_active() {
                    previous.status
                } else {
                    Status::New
                },
                ..previous
            },
            ..self
        }
    }

    /// The order after a report, where `numbers` are its numbers after the fill in the report.
    pub open spec fn reported(self, update: UpdateView, numbers: FillNumbers) -> OrderExtView {
        OrderExtView {
            exchange_order_id: if update.exchange_order_id is Some {
                update.exchange_order_id
            } else {
                self.exchange_order_id
            },
            order: Order {
                req: Status::Unset,
                status: if update.is_fill() && numbers.leaves_qty.at_most(
                    Binary64 { bits: EPSILON },
                ) {
                    Status::Filled
                } else {
                    status_of(update.status)
                },
                exch_timestamp: update.exch_timestamp,
                leaves_qty: if update.is_fill() {
                    numbers.leaves_qty
                } else {
                    match update.leaves_qty {
                        Some(leaves_qty) => leaves_qty,
                        None => self.order.leaves_qty,
                    }
                },
                exec_qty: if update.is_fill() {
                    numbers.exec_qty
                } else {
                    match update.exec_qty {
                        Some(exec_qty) => exec_qty,
                        None => self.order.exec_qty,
                    }
                },
                exec_price_tick: if update.exec_price is Some {
                    numbers.exec_price_tick
                } else {
                    self.order.exec_price_tick
                },
                ..self.order
            },
            ..self
        }
    }
}

impl ManagerView {
    /// No orders.
    pub open spec fn empty() -> ManagerView {
        ManagerView {
            orders: Map::empty(),
            order_ids: Map::empty(),
            exchange_ids: Map::empty(),
            pending_creates: Map::empty(),
            pending_edits: Map::empty(),
        }
    }

    /// Taking in a new order under the name `id`: the book after it, and the request to send.
    pub open spec fn with_new_order(
        self,
        symbol: Seq<char>,
        order: Order,
        price: Seq<char>,
        amount: Seq<char>,
        id: Seq<char>,
    ) -> (ManagerView, Result<CreateOrderView, OrderManagerError>) {
        match (validated(order), side_name(order.side)) {
            (Err(error), _) => (self, Err(error)),
            (_, Err(error)) => (self, Err(error)),
            (Ok(_), Ok(side)) => if self.order_ids.contains_key((symbol, order.order_id))
                || self.orders.contains_key(id) {
                (self, Err(OrderManagerError::OrderAlreadyExists))
            } else {
                (
                    ManagerView {
                        orders: self.orders.insert(
                            id,
                            OrderExtView {
                                symbol,
                                client_order_id: id,
                                exchange_order_id: None,
                                order,
                            },
                        ),
                        order_ids: self.order_ids.insert((symbol, order.order_id), id),
                        pending_creates: self.pending_creates.insert((symbol, side, price), id),
                        ..self
                    },
                    Ok(create_request(symbol, price, amount, side, id)),
                )
            },
        }
    }

    /// The request that cancels an order.
    pub open spec fn cancel_request(self, symbol: Seq<char>, order_id: OrderId) -> Result<
        CancelOrderView,
        OrderManagerError,
    > {
        if self.order_ids.contains_key((symbol, order_id)) {
            Ok(
                CancelOrderView {
                    client_order_id: self.order_ids[(symbol, order_id)],
                    symbol,
                },
            )
        } else {
            Err(OrderManagerError::OrderNotFound)
        }
    }

    /// Replacing an order: the book after it, and the request to send.
    pub open spec fn with_edit(
        self,
        symbol: Seq<char>,
        order: Order,
        price: Seq<char>,
        amount: Seq<char>,
    ) -> (ManagerView, Result<EditOrderView, OrderManagerError>) {
        let key = (symbol, order.order_id);
        let id = self.order_ids[key];
        if validated(order) is Err {
            (self, Err(validated(order)->Err_0))
        } else if order.req != Status::Replaced {
            (self, Err(OrderManagerError::InvalidArg("req")))
        } else if !self.order_ids.contains_key(key) || !self.orders.contains_key(id) {
            (self, Err(OrderManagerError::OrderNotFound))
        } else if !self.orders[id].order.is_active() {
            (self, Err(OrderManagerError::InvalidArg("status")))
        } else {
            (
                ManagerView {
                    orders: self.orders.insert(id, OrderExtView { order, ..self.orders[id] }),
                    pending_edits: self.pending_edits.insert(id, self.orders[id].order),
                    ..self
                },
                Ok(EditOrderView { amount, client_order_id: id, price, symbol }),
            )
        }
    }

    /// The book with one order in another state.
    pub open spec fn with_order(self, id: Seq<char>, order: OrderExtView) -> ManagerView {
        ManagerView { orders: self.orders.insert(id, order), ..self }
    }

    /// The book without a replacement of order `id` under way.
    pub open spec fn without_pending_edit(self, id: Seq<char>) -> ManagerView {
        ManagerView { pending_edits: self.pending_edits.remove(id), ..self }
    }

    /// The exchange took the replacement of order `id`.
    pub open spec fn with_edit_ack(self, id: Seq<char>) -> (
        ManagerView,
        Result<OrderExtView, OrderManagerError>,
    ) {
        let cleared = self.without_pending_edit(id);
        if self.orders.contains_key(id) {
            let order = self.orders[id].settled(Status::New);
            (cleared.with_order(id, order), Ok(order))
        } else {
            (cleared, Err(OrderManagerError::OrderNotFound))
        }
    }

    /// The exchange refused the replacement of order `id`.
    pub open spec fn with_edit_fail(self, id: Seq<char>) -> (
        ManagerView,
        Result<OrderExtView, OrderManagerError>,
    ) {
        let cleared = self.without_pending_edit(id);
        if self.pending_edits.contains_key(id) && self.orders.contains_key(id) {
            let order = self.orders[id].restored(self.pending_edits[id]);
            (cleared.with_order(id, order), Ok(order))
        } else {
            (cleared, Err(OrderManagerError::OrderNotFound))
        }
    }

    /// The exchange identifiers after order `id`, known as `previous` so far, is known as
    /// `exchange_order_id`.
    pub open spec fn with_exchange_id(
        self,
        id: Seq<char>,
        previous: Option<i64>,
        exchange_order_id: i64,
    ) -> ManagerView {
        let kept = match previous {
            Some(previous) => if previous != exchange_order_id {
                self.exchange_ids.remove(previous)
            } else {
                self.exchange_ids
            },
            None => self.exchange_ids,
        };
        ManagerView { exchange_ids: kept.insert(exchange_order_id, id), ..self }
    }

    /// The exchange named order `id`.
    pub open spec fn with_exchange_order_id(self, id: Seq<char>, exchange_order_id: i64) -> (
        ManagerView,
        Result<OrderExtView, OrderManagerError>,
    ) {
        if self.orders.contains_key(id) {
            let order = self.orders[id].renamed(exchange_order_id).settled(Status::New);
            (
                self.with_exchange_id(
                    id,
                    self.orders[id].exchange_order_id,
                    exchange_order_id,
                ).without_pending_edit(id).with_order(id, order),
                Ok(order),
            )
        } else {
            (self, Err(OrderManagerError::OrderNotFound))
        }
    }

    /// The book in which the names of `order` lead nowhere.
    pub open spec fn without_names(self, order: OrderExtView) -> ManagerView {
        ManagerView {
            order_ids: self.order_ids.remove((order.symbol, order.order.order_id)),
            exchange_ids: match order.exchange_order_id {
                Some(exchange_order_id) => self.exchange_ids.remove(exchange_order_id),
                None => self.exchange_ids,
            },
            ..self
        }
    }

    /// The book without order `id`.
    pub open spec fn without_order(self, id: Seq<char>) -> ManagerView {
        ManagerView { orders: self.orders.remove(id), ..self }
    }

    /// Which order a report is about. A report that names an order by its client identifier is
    /// about that order or none; otherwise the exchange identifier counts, then the price level
    /// of an order that is not confirmed yet.
    pub open spec fn resolved(self, update: UpdateView) -> Option<Seq<char>> {
        if update.client_order_id is Some {
            if self.orders.contains_key(update.client_order_id->0) {
                update.client_order_id
            } else {
                None
            }
        } else if update.exchange_order_id is Some && self.exchange_ids.contains_key(
            update.exchange_order_id->0,
        ) {
            Some(self.exchange_ids[update.exchange_order_id->0])
        } else if update.pending_key() is Some && self.pending_creates.contains_key(
            update.pending_key()->0,
        ) {
            Some(self.pending_creates[update.pending_key()->0])
        } else {
            None
        }
    }

    /// Which order of the book a report is about, or why there is none.
    pub open spec fn update_target(self, update: UpdateView) -> Result<
        Seq<char>,
        OrderManagerError,
    > {
        match self.resolved(update) {
            None => Err(OrderManagerError::UnresolvedUpdate),
            Some(id) => if self.orders.contains_key(id) {
                Ok(id)
            } else {
                Err(OrderManagerError::OrderNotFound)
            },
        }
    }

    /// The order that a report is about, after it.
    pub open spec fn updated_order(
        self,
        id: Seq<char>,
        update: UpdateView,
        numbers: FillNumbers,
    ) -> OrderExtView {
        self.orders[id].reported(update, numbers)
    }

    /// The book after a report about order `id`. An order that is done leaves it.
    pub open spec fn with_update(
        self,
        id: Seq<char>,
        update: UpdateView,
        numbers: FillNumbers,
    ) -> ManagerView {
        let order = self.updated_order(id, update, numbers);
        let named = match update.exchange_order_id {
            Some(exchange_order_id) => self.with_exchange_id(
                id,
                self.orders[id].exchange_order_id,
                exchange_order_id,
            ),
            None => self,
        };
        let confirmed = ManagerView {
            pending_creates: match update.pending_key() {
                Some(key) => named.pending_creates.remove(key),
                None => named.pending_creates,
            },
            ..named
        }.without_pending_edit(id);
        if order.order.status == Status::Filled || update.ends_order() {
            confirmed.without_names(order).without_order(id)
        } else {
            confirmed.with_order(id, order)
        }
    }

    /// The exchange did not take the new order `id`.
    pub open spec fn with_submit_fail(self, id: Seq<char>) -> (
        ManagerView,
        Result<OrderExtView, OrderManagerError>,
    ) {
        if self.orders.contains_key(id) {
            let order = self.orders[id].settled(Status::Rejected);
            (self.without_order(id).without_names(order), Ok(order))
        } else {
            (self, Err(OrderManagerError::OrderNotFound))
        }
    }

    /// The exchange did not cancel order `id`.
    pub open spec fn with_cancel_fail(self, id: Seq<char>) -> (
        ManagerView,
        Result<OrderExtView, OrderManagerError>,
    ) {
        if self.orders.contains_key(id) {
            let order = self.orders[id].settled(Status::New);
            (self.with_order(id, order), Ok(order))
        } else {
            (self, Err(OrderManagerError::OrderNotFound))
        }
    }

    /// Order `id` is in the market, for the symbol where one is given.
    pub open spec fn works(self, id: Seq<char>, symbol: Option<Seq<char>>) -> bool {
        &&& self.orders.contains_key(id)
        &&& self.orders[id].order.is_active()
        &&& symbol matches Some(symbol) ==> self.orders[id].symbol == symbol
    }
}

/// The book of orders.
#[derive(Debug)]
pub struct OrderManager {
    orders: KeyedMap<String, OrderExt>,
    order_id_map: KeyedMap<SymbolOrderId, String>,
    exchange_id_map: KeyedMap<i64, String>,
    pending_create_map: KeyedMap<PendingCreateKey, String>,
    pending_edit_map: KeyedMap<String, Order>,
}

impl View for OrderManager {
    type V = ManagerView;

    closed spec fn view(&self) -> ManagerView {
        ManagerView {
            orders: self.orders@,
            order_ids: self.order_id_map@,
            exchange_ids: self.exchange_id_map@,
            pending_creates: self.pending_create_map@,
            pending_edits: self.pending_edit_map@,
        }
    }
}

impl OrderManager {
    /// A book without orders. The names of orders do not depend on the prefix.
    pub fn new(_prefix: &str) -> (r: Self)
        ensures
            r@ == ManagerView::empty(),
    {
        OrderManager {
            orders: KeyedMap::new(),
            order_id_map: KeyedMap::new(),
            exchange_id_map: KeyedMap::new(),
            pending_create_map: KeyedMap::new(),
            pending_edit_map: KeyedMap::new(),
        }
    }

    /// Takes in a new order under a random name, and gives the request that places it.
    pub fn new_order(&mut self, symbol: &str, order: Order, quote: &QuoteText) -> (r: Result<
        CreateOrderPayload,
        OrderManagerError,
    >)
        ensures
            exists|id: Seq<char>| #[trigger]
                is_uuid_v4(id) && (final(self)@, viewed(r)) == old(self)@.with_new_order(
                    symbol@,
                    order,
                    quote.price@,
                    quote.amount@,
                    id,
                ),
    {
        let id = self.client_order_id(symbol, order.order_id);
        let ghost name = id@;
        assert(is_uuid_v4(name));
        self.new_order_with_id(symbol, order, quote, id)
    }

    /// Takes in a new order under the name `id`, and gives the request that places it.
    pub fn new_order_with_id(
        &mut self,
        symbol: &str,
        order: Order,
        quote: &QuoteText,
        id: String,
    ) -> (r: Result<CreateOrderPayload, OrderManagerError>)
        ensures
            (final(self)@, viewed(r)) == old(self)@.with_new_order(
                symbol@,
                order,
                quote.price@,
                quote.amount@,
                id@,
            ),
    {
        match validate_new_order(&order) {
            Err(error) => {
                return Err(error);
            },
            Ok(_) => {},
        }
        let symbol_order_id = SymbolOrderId {
            symbol: symbol.to_string(),
            order_id: order.order_id,
        };
        if self.order_id_map.contains_key(&symbol_order_id) {
            return Err(OrderManagerError::OrderAlreadyExists);
        }
        if self.orders.contains_key(&id) {
            return Err(OrderManagerError::OrderAlreadyExists);
        }
        let side = match pacifica_side(order.side) {
            Ok(side) => side,
            Err(error) => {
                return Err(error);
            },
        };
        let payload = CreateOrderPayload::new(
            symbol,
            quote.price.as_str(),
            quote.amount.as_str(),
            side.as_str(),
            id.as_str(),
        );
        self.order_id_map.insert(symbol_order_id, id.clone());
        self.pending_create_map.insert(
            PendingCreateKey { symbol: symbol.to_string(), side, price: quote.price.clone() },
            id.clone(),
        );
        self.orders.insert(
            id.clone(),
            OrderExt {
                symbol: symbol.to_string(),
                client_order_id: id,
                exchange_order_id: None,
                order,
            },
        );
        Ok(payload)
    }

    /// The request that cancels an order.
    pub fn cancel_order(&self, symbol: &str, order_id: OrderId) -> (r: Result<
        CancelOrderPayload,
        OrderManagerError,
    >)
        ensures
            viewed(r) == self@.cancel_request(symbol@, order_id),
    {
        match self.order_id_map.get(&SymbolOrderId { symbol: symbol.to_string(), order_id }) {
            Some(client_order_id) => Ok(CancelOrderPayload::new(symbol, client_order_id.as_str())),
            None => Err(OrderManagerError::OrderNotFound),
        }
    }

    /// Replaces an order, keeps what it was until the exchange answers, and gives the request
    /// that changes it.
    pub fn edit_order(&mut self, symbol: &str, order: Order, quote: &QuoteText) -> (r: Result<
        EditOrderPayload,
        OrderManagerError,
    >)
        ensures
            (final(self)@, viewed(r)) == old(self)@.with_edit(
                symbol@,
                order,
                quote.price@,
                quote.amount@,
            ),
    {
        match validate_new_order(&order) {
            Err(error) => {
                return Err(error);
            },
            Ok(_) => {},
        }
        if order.req != Status::Replaced {
            return Err(OrderManagerError::InvalidArg("req"));
        }
        let client_order_id = match self.order_id_map.get(
            &SymbolOrderId { symbol: symbol.to_string(), order_id: order.order_id },
        ) {
            Some(client_order_id) => client_order_id.clone(),
            None => {
                return Err(OrderManagerError::OrderNotFound);
            },
        };
        let mut order_ext = match self.orders.get(&client_order_id) {
            Some(order_ext) => order_ext.clone(),
            None => {
                return Err(OrderManagerError::OrderNotFound);
            },
        };
        if !order_ext.order.active() {
            return Err(OrderManagerError::InvalidArg("status"));
        }
        let payload = EditOrderPayload::new(
            symbol,
            quote.price.as_str(),
            quote.amount.as_str(),
            client_order_id.as_str(),
        );
        self.pending_edit_map.insert(client_order_id.clone(), order_ext.order);
        order_ext.order = order;
        self.orders.insert(client_order_id, order_ext);
        Ok(payload)
    }

    /// Takes in that the exchange took the replacement of an order.
    pub fn update_edit_ack(&mut self, client_order_id: &str) -> (r: Result<
        OrderExt,
        OrderManagerError,
    >)
        ensures
            (final(self)@, viewed(r)) == old(self)@.with_edit_ack(client_order_id@),
    {
        let id = client_order_id.to_string();
        let _ = self.pending_edit_map.remove(&id);
        let mut order_ext = match self.orders.get(&id) {
            Some(order_ext) => order_ext.clone(),
            None => {
                return Err(OrderManagerError::OrderNotFound);
            },
        };
        order_ext.order.req = Status::Unset;
        order_ext.order.status = Status::New;
        self.orders.insert(id, order_ext.clone());
        Ok(order_ext)
    }

    /// Takes in that the exchange refused the replacement of an order: the order is what it was.
    pub fn update_edit_fail(&mut self, client_order_id: &str) -> (r: Result<
        OrderExt,
        OrderManagerError,
    >)
        ensures
            (final(self)@, viewed(r)) == old(self)@.with_edit_fail(client_order_id@),
    {
        let id = client_order_id.to_string();
        let previous_order = match self.pending_edit_map.remove(&id) {
            Some(previous_order) => previous_order,
            None => {
                return Err(OrderManagerError::OrderNotFound);
            },
        };
        let mut order_ext = match self.orders.get(&id) {
            Some(order_ext) => order_ext.clone(),
            None => {
                return Err(OrderManagerError::OrderNotFound);
            },
        };
        order_ext.order = previous_order;
        order_ext.order.req = Status::Unset;
        if !order_ext.order.active() {
            order_ext.order.status = Status::New;
        }
        self.orders.insert(id, order_ext.clone());
        Ok(order_ext)
    }

    /// Takes in the exchange's identifier of an order.
    pub fn update_exchange_order_id(&mut self, client_order_id: &str, exchange_order_id: i64) -> (r:
        Result<OrderExt, OrderManagerError>)
        ensures
            (final(self)@, viewed(r)) == old(self)@.with_exchange_order_id(
                client_order_id@,
                exchange_order_id,
            ),
    {
        let id = client_order_id.to_string();
        let mut order_ext = match self.orders.get(&id) {
            Some(order_ext) => order_ext.clone(),
            None => {
                return Err(OrderManagerError::OrderNotFound);
            },
        };
        self.update_exchange_id_mapping(&mut order_ext, exchange_order_id, client_order_id);
        let _ = self.pending_edit_map.remove(&id);
        order_ext.order.req = Status::Unset;
        order_ext.order.status = Status::New;
        self.orders.insert(id, order_ext.clone());
        Ok(order_ext)
    }

    /// Takes in a report of the exchange, and gives the order that it is about. `fill` computes
    /// the numbers of that order after a fill of the reported quantity at the reported price.
    pub fn apply_update<F: Fn(Order, Option<Binary64>, Option<Binary64>) -> FillNumbers>(
        &mut self,
        update: PacificaOrderUpdate,
        fill: F,
    ) -> (r: Result<OrderExt, OrderManagerError>)
        requires
            forall|order: Order| #[trigger]
                call_requires(fill, (order, update.exec_qty, update.exec_price)),
        ensures
            match old(self)@.update_target(update@) {
                Err(error) => r == Err::<OrderExt, OrderManagerError>(error) && final(self)@
                    == old(self)@,
                Ok(id) => exists|numbers: FillNumbers| #[trigger]
                    call_ensures(
                        fill,
                        (old(self)@.orders[id].order, update.exec_qty, update.exec_price),
                        numbers,
                    ) && final(self)@ == old(self)@.with_update(id, update@, numbers) && viewed(r)
                        == Ok::<OrderExtView, OrderManagerError>(
                        old(self)@.updated_order(id, update@, numbers),
                    ),
            },
    {
        let client_order_id = match self.resolve_client_order_id(&update) {
            Ok(client_order_id) => client_order_id,
            Err(error) => {
                return Err(error);
            },
        };
        let mut order_ext = match self.orders.get(&client_order_id) {
            Some(order_ext) => order_ext.clone(),
            None => {
                return Err(OrderManagerError::OrderNotFound);
            },
        };
        let numbers = fill(order_ext.order, update.exec_qty, update.exec_price);
        match update.exchange_order_id {
            Some(exchange_order_id) => {
                self.update_exchange_id_mapping(
                    &mut order_ext,
                    exchange_order_id,
                    client_order_id.as_str(),
                );
            },
            None => {},
        }
        let _ = self.pending_edit_map.remove(&client_order_id);
        order_ext.order.req = Status::Unset;
        order_ext.order.status = hft_status(&update.status);
        order_ext.order.exch_timestamp = update.exch_timestamp;
        match update.leaves_qty {
            Some(leaves_qty) => {
                order_ext.order.leaves_qty = leaves_qty;
            },
            None => {},
        }
        match update.exec_qty {
            Some(exec_qty) => {
                if update.status == PacificaOrderStatus::PartiallyFilled
                    && update.leaves_qty.is_none() {
                    order_ext.order.exec_qty = numbers.exec_qty;
                    order_ext.order.leaves_qty = numbers.leaves_qty;
                    if order_ext.order.leaves_qty.is_at_most_epsilon() {
                        order_ext.order.status = Status::Filled;
                    }
                } else {
                    order_ext.order.exec_qty = exec_qty;
                }
            },
            None => {},
        }
        if update.exec_price.is_some() {
            order_ext.order.exec_price_tick = numbers.exec_price_tick;
        }
        match pending_key_from_update(&update) {
            Some(key) => {
                let _ = self.pending_create_map.remove(&key);
            },
            None => {},
        }
        let terminal = order_ext.order.status == Status::Filled || update.status
            == PacificaOrderStatus::Filled || update.status == PacificaOrderStatus::Cancelled
            || update.status == PacificaOrderStatus::Rejected;
        if terminal {
            self.remove_maps(&order_ext);
            let _ = self.orders.remove(&client_order_id);
        } else {
            self.orders.insert(client_order_id, order_ext.clone());
        }
        Ok(order_ext)
    }

    /// Takes in that the exchange did not take a new order: it leaves the book.
    pub fn update_submit_fail(&mut self, client_order_id: &str) -> (r: Result<
        OrderExt,
        OrderManagerError,
    >)
        ensures
            (final(self)@, viewed(r)) == old(self)@.with_submit_fail(client_order_id@),
    {
        let mut order_ext = match self.orders.remove(&client_order_id.to_string()) {
            Some(order_ext) => order_ext,
            None => {
                assert(old(self)@.orders.remove(client_order_id@) =~= old(self)@.orders);
                return Err(OrderManagerError::OrderNotFound);
            },
        };
        order_ext.order.req = Status::Unset;
        order_ext.order.status = Status::Rejected;
        self.remove_maps(&order_ext);
        Ok(order_ext)
    }

    /// Takes in that the exchange did not cancel an order: it stays in the market.
    pub fn update_cancel_fail(&mut self, client_order_id: &str) -> (r: Result<
        OrderExt,
        OrderManagerError,
    >)
        ensures
            (final(self)@, viewed(r)) == old(self)@.with_cancel_fail(client_order_id@),
    {
        let id = client_order_id.to_string();
        let mut order_ext = match self.orders.get(&id) {
            Some(order_ext) => order_ext.clone(),
            None => {
                return Err(OrderManagerError::OrderNotFound);
            },
        };
        order_ext.order.req = Status::Unset;
        order_ext.order.status = Status::New;
        self.orders.insert(id, order_ext.clone());
        Ok(order_ext)
    }

    /// Which order a report is about.
    fn resolve_client_order_id(&self, update: &PacificaOrderUpdate) -> (r: Result<
        String,
        OrderManagerError,
    >)
        ensures
            viewed(r) == (match self@.resolved(update@) {
                Some(id) => Ok(id),
                None => Err(OrderManagerError::UnresolvedUpdate),
            }),
    {
        match &update.client_order_id {
            Some(client_order_id) => {
                if self.orders.contains_key(client_order_id) {
                    return Ok(client_order_id.clone());
                }
                return Err(OrderManagerError::UnresolvedUpdate);
            },
            None => {},
        }
        match update.exchange_order_id {
            Some(exchange_order_id) => {
                match self.exchange_id_map.get(&exchange_order_id) {
                    Some(client_order_id) => {
                        return Ok(client_order_id.clone());
                    },
                    None => {},
                }
            },
            None => {},
        }
        match pending_key_from_update(update) {
            Some(key) => {
                match self.pending_create_map.get(&key) {
                    Some(client_order_id) => {
                        return Ok(client_order_id.clone());
                    },
                    None => {},
                }
            },
            None => {},
        }
        Err(OrderManagerError::UnresolvedUpdate)
    }

    /// Forgets the names of an order.
    fn remove_maps(&mut self, order_ext: &OrderExt)
        ensures
            final(self)@ == old(self)@.without_names(order_ext@),
    {
        let _ = self.order_id_map.remove(
            &SymbolOrderId {
                symbol: order_ext.symbol.clone(),
                order_id: order_ext.order.order_id,
            },
        );
        match order_ext.exchange_order_id {
            Some(exchange_order_id) => {
                let _ = self.exchange_id_map.remove(&exchange_order_id);
            },
            None => {},
        }
    }

    /// A name for a new order.
    fn client_order_id(&self, _symbol: &str, _order_id: OrderId) -> (r: String)
        ensures
            is_uuid_v4(r@),
    {
        uuid_v4()
    }

    /// Gives an order the exchange's identifier, in place of the one it had.
    fn update_exchange_id_mapping(
        &mut self,
        order_ext: &mut OrderExt,
        exchange_order_id: i64,
        client_order_id: &str,
    )
        ensures
            final(self)@ == old(self)@.with_exchange_id(
                client_order_id@,
                old(order_ext)@.exchange_order_id,
                exchange_order_id,
            ),
            final(order_ext)@ == old(order_ext)@.renamed(exchange_order_id),
    {
        match order_ext.exchange_order_id {
            Some(previous_exchange_order_id) => {
                if previous_exchange_order_id != exchange_order_id {
                    let _ = self.exchange_id_map.remove(&previous_exchange_order_id);
                }
            },
            None => {},
        }
        order_ext.exchange_order_id = Some(exchange_order_id);
        self.exchange_id_map.insert(exchange_order_id, client_order_id.to_string());
    }
}

/// Whether an order is one that the connector places.
fn validate_new_order(order: &Order) -> (r: Result<(), OrderManagerError>)
    ensures
        r == validated(*order),
{
    if order.order_type != OrdType::Limit {
        return Err(OrderManagerError::InvalidArg("order_type"));
    }
    if order.time_in_force != TimeInForce::GTX {
        return Err(OrderManagerError::InvalidArg("time_in_force"));
    }
    match pacifica_side(order.side) {
        Ok(_) => Ok(()),
        Err(error) => Err(error),
    }
}

/// The exchange's name of a side.
fn pacifica_side(side: Side) -> (r: Result<String, OrderManagerError>)
    ensures
        viewed(r) == side_name(side),
{
    match side {
        Side::Buy => Ok("bid".to_string()),
        Side::Sell => Ok("ask".to_string()),
        Side::Unset | Side::Unsupported => Err(OrderManagerError::InvalidArg("side")),
    }
}

/// The state that the exchange's word for it means.
fn hft_status(status: &PacificaOrderStatus) -> (r: Status)
    ensures
        r == status_of(*status),
{
    match status {
        PacificaOrderStatus::Open => Status::New,
        PacificaOrderStatus::PartiallyFilled => Status::PartiallyFilled,
        PacificaOrderStatus::Filled => Status::Filled,
        PacificaOrderStatus::Cancelled => Status::Canceled,
        PacificaOrderStatus::Rejected => Status::Rejected,
    }
}

/// By what a report can be matched with an order that is not confirmed yet.
fn pending_key_from_update(update: &PacificaOrderUpdate) -> (r: Option<PendingCreateKey>)
    ensures
        r.deep_view() == update@.pending_key(),
{
    match (clone_option_text(&update.side), clone_option_text(&update.price)) {
        (Some(side), Some(price)) => Some(
            PendingCreateKey { symbol: update.symbol.clone(), side, price },
        ),
        _ => None,
    }
}

impl GetOrders for OrderManager {
    /// The orders that work are listed, each once.
    open spec fn lists(&self, symbol: Option<Seq<char>>, listed: Seq<Order>) -> bool {
        exists|ids: Seq<Seq<char>>| #[trigger]
            ids.no_duplicates() && ids.to_set() == Set::new(
                |id: Seq<char>| self@.works(id, symbol),
            ) && listed == ids.map_values(|id: Seq<char>| self@.orders[id].order)
    }

    /// The orders that are in the market, of one symbol or of all.
    fn orders(&self, symbol: Option<String>) -> (r: Vec<Order>) {
        let mut r: Vec<Order> = Vec::new();
        let ghost mut ids = Seq::<Seq<char>>::empty();
        let ghost wanted = symbol.deep_view();
        let n: usize = self.orders.len();
        let mut i: usize = 0;
        assert(r@ =~= ids.map_values(|id: Seq<char>| self@.orders[id].order));
        while i < n
            invariant
                i <= n,
                n == self.orders.keys().len(),
                self.orders.keys().no_duplicates(),
                self.orders.keys().to_set() == self@.orders.dom(),
                wanted == symbol.deep_view(),
                ids.no_duplicates(),
                forall|id: Seq<char>| #[trigger]
                    ids.contains(id) <==> self@.works(id, wanted) && exists|j: int|
                        0 <= j < i && #[trigger] self.orders.keys()[j] == id,
                r@ == ids.map_values(|id: Seq<char>| self@.orders[id].order),
            decreases n - i,
        {
            let entry = self.orders.entry(i);
            let ghost id = self.orders.keys()[i as int];
            let ghost before = ids;
            let asked = match &symbol {
                Some(symbol) => entry.1.symbol == *symbol,
                None => true,
            };
            if asked && entry.1.order.active() {
                r.push(entry.1.order);
                proof {
                    if before.contains(id) {
                        let j = choose|j: int| 0 <= j < i && #[trigger] self.orders.keys()[j] == id;
                        assert(self.orders.keys()[j] == self.orders.keys()[i as int]);
                        assert(false);
                    }
                    ids = before.push(id);
                    assert(r@ =~= ids.map_values(|id: Seq<char>| self@.orders[id].order));
                }
            }
            proof {
                assert forall|k: Seq<char>| #[trigger]
                    ids.contains(k) <==> self@.works(k, wanted) && exists|j: int|
                        0 <= j < i + 1 && #[trigger] self.orders.keys()[j] == k by {
                    if ids.contains(k) {
                        let x = choose|x: int| 0 <= x < ids.len() && ids[x] == k;
                        if x < before.len() {
                            assert(before[x] == k);
                            assert(before.contains(k));
                        }
                        assert(self.orders.keys()[i as int] == id);
                    }
                    if before.contains(k) {
                        let x = choose|x: int| 0 <= x < before.len() && before[x] == k;
                        assert(ids[x] == k);
                    }
                    if self@.works(k, wanted) && k == id {
                        assert(ids.last() == k);
                        assert(ids[ids.len() - 1] == k);
                    }
                }
            }
            i = i + 1;
        }
        proof {
            let working = Set::new(|id: Seq<char>| self@.works(id, wanted));
            assert forall|id: Seq<char>| #[trigger] ids.to_set().contains(id) <==> working.contains(
                id,
            ) by {
                if self@.works(id, wanted) {
                    assert(self.orders.keys().to_set().contains(id));
                    let j = choose|j: int|
                        0 <= j < self.orders.keys().len() && self.orders.keys()[j] == id;
                    assert(self.orders.keys()[j] == id);
                }
                assert(ids.contains(id) == ids.to_set().contains(id));
            }
            assert(ids.to_set() =~= working);
        }
        r
    }
}

} // verus!
