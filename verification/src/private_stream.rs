//! The private messages of the account: reports on orders, fills and positions.

use crate::account_state::{
    max_li, max_li_from_text, reports, tracked_symbols_from_positions_text, AccountErrorView,
    AccountPositionView, AccountPositionsFrame, AccountState, AccountStateError, AccountView,
};
use crate::binary64::{
    number_fault_message, number_fault_words, number_in, read_number, Binary64, NumberFault,
    NumberFaultView, NumericText, NumericView,
};
use crate::json::{
    canonical, json_of_text, json_str_member, parse_json, Json, JsonView,
};
use crate::order_laws::{repeated_totals_change_nothing, update_keeps_consistency};
use crate::ordermanager::{
    FillNumbers, ManagerView, OrderManager, OrderManagerError, PacificaOrderStatus,
    PacificaOrderUpdate, UpdateView,
};
use crate::symbols::{in_order, one_more_symbol, ordered_lists_are_unique, SymbolSet};
use crate::text::{clone_option_text, option_text_eq, outcome, text_eq};
use crate::types::{fits, fits_in_nanos, ms_to_ns, nanos, LiveEvent, LiveEventView, Order};
use crate::websocket::{
    ping, ping_payload, private_requests, private_subscriptions, WebSocketError, WebSocketErrorView,
};
use vstd::prelude::*;
use vstd::string::StringExecFns;

verus! {

/// Why the private stream ends.
#[derive(Debug)]
pub enum PrivateStreamError {
    Json(String),
    InvalidNumber { field: &'static str, value: String },
    UnsupportedOrderStatus(String),
    OrderManager(OrderManagerError),
    AccountState(AccountStateError),
    MissingPositionSymbol,
    WebSocket(WebSocketError),
    Tungstenite(String),
}

/// What a [`PrivateStreamError`] says.
pub enum PrivateErrorView {
    Json(Seq<char>),
    InvalidNumber { field: Seq<char>, value: Seq<char> },
    UnsupportedOrderStatus(Seq<char>),
    OrderManager(OrderManagerError),
    AccountState(AccountErrorView),
    MissingPositionSymbol,
    WebSocket(WebSocketErrorView),
    Tungstenite(Seq<char>),
}

impl View for PrivateStreamError {
    type V = PrivateErrorView;

    open spec fn view(&self) -> PrivateErrorView {
        match *self {
            PrivateStreamError::Json(error) => PrivateErrorView::Json(error@),
            PrivateStreamError::InvalidNumber { field, value } => PrivateErrorView::InvalidNumber {
                field: field@,
                value: value@,
            },
            PrivateStreamError::UnsupportedOrderStatus(status) =>
                PrivateErrorView::UnsupportedOrderStatus(status@),
            PrivateStreamError::OrderManager(error) => PrivateErrorView::OrderManager(error),
            PrivateStreamError::AccountState(error) => PrivateErrorView::AccountState(error@),
            PrivateStreamError::MissingPositionSymbol => PrivateErrorView::MissingPositionSymbol,
            PrivateStreamError::WebSocket(error) => PrivateErrorView::WebSocket(error@),
            PrivateStreamError::Tungstenite(error) => PrivateErrorView::Tungstenite(error@),
        }
    }
}

impl PrivateErrorView {
    /// The words for the error.
    pub open spec fn words(self) -> Seq<char> {
        match self {
            PrivateErrorView::Json(error) => "json: "@ + error,
            PrivateErrorView::InvalidNumber { field, value } => number_fault_words(field, value),
            PrivateErrorView::UnsupportedOrderStatus(status) => "unsupported order status: "@
                + status,
            PrivateErrorView::OrderManager(error) => "order manager: "@ + error.words(),
            PrivateErrorView::AccountState(error) => "account state: "@ + error.words(),
            PrivateErrorView::MissingPositionSymbol => "position update missing symbol"@,
            PrivateErrorView::WebSocket(error) => "websocket: "@ + error.words(),
            PrivateErrorView::Tungstenite(error) => "tungstenite: "@ + error,
        }
    }
}

impl PrivateStreamError {
    /// The words for the error.
    pub fn message(&self) -> (r: String)
        ensures
            r@ == self@.words(),
    {
        match self {
            PrivateStreamError::Json(error) => "json: ".to_string().concat(error.as_str()),
            PrivateStreamError::InvalidNumber { field, value } => number_fault_message(
                field,
                value.as_str(),
            ),
            PrivateStreamError::UnsupportedOrderStatus(status) =>
                "unsupported order status: ".to_string().concat(status.as_str()),
            PrivateStreamError::OrderManager(error) => "order manager: ".to_string().concat(
                error.message().as_str(),
            ),
            PrivateStreamError::AccountState(error) => "account state: ".to_string().concat(
                error.message().as_str(),
            ),
            PrivateStreamError::MissingPositionSymbol =>
                "position update missing symbol".to_string(),
            PrivateStreamError::WebSocket(error) => "websocket: ".to_string().concat(
                error.message().as_str(),
            ),
            PrivateStreamError::Tungstenite(error) => "tungstenite: ".to_string().concat(
                error.as_str(),
            ),
        }
    }
}

/// A message with reports on orders.
#[derive(Debug)]
pub struct OrderUpdatesFrame {
    pub data: Vec<AccountOrderUpdate>,
}

/// A report on an order as it came. `remaining` is the amount less the filled amount, and not
/// below zero, where both are numbers.
#[derive(Debug)]
pub struct AccountOrderUpdate {
    pub client_order_id: Option<String>,
    pub exchange_order_id: Option<i64>,
    pub symbol: String,
    pub side: Option<String>,
    pub initial_price: Option<String>,
    pub amount: Option<NumericText>,
    pub filled_amount: Option<NumericText>,
    pub remaining: Binary64,
    pub last_price: Option<NumericText>,
    pub average_price: Option<NumericText>,
    pub status: String,
    pub updated_at_ms: i64,
}

/// What an [`AccountOrderUpdate`] says.
pub struct AccountOrderUpdateView {
    pub client_order_id: Option<Seq<char>>,
    pub exchange_order_id: Option<i64>,
    pub symbol: Seq<char>,
    pub side: Option<Seq<char>>,
    pub initial_price: Option<Seq<char>>,
    pub amount: Option<NumericView>,
    pub filled_amount: Option<NumericView>,
    pub remaining: Binary64,
    pub last_price: Option<NumericView>,
    pub average_price: Option<NumericView>,
    pub status: Seq<char>,
    pub updated_at_ms: i64,
}

impl DeepView for AccountOrderUpdate {
    type V = AccountOrderUpdateView;

    open spec fn deep_view(&self) -> AccountOrderUpdateView {
        AccountOrderUpdateView {
            client_order_id: self.client_order_id.deep_view(),
            exchange_order_id: self.exchange_order_id,
            symbol: self.symbol@,
            side: self.side.deep_view(),
            initial_price: self.initial_price.deep_view(),
            amount: self.amount.deep_view(),
            filled_amount: self.filled_amount.deep_view(),
            remaining: self.remaining,
            last_price: self.last_price.deep_view(),
            average_price: self.average_price.deep_view(),
            status: self.status@,
            updated_at_ms: self.updated_at_ms,
        }
    }
}

/// A message with fills.
#[derive(Debug)]
pub struct AccountTradesFrame {
    pub data: Vec<AccountTrade>,
}

/// A fill as it came.
#[derive(Debug)]
pub struct AccountTrade {
    pub client_order_id: Option<String>,
    pub exchange_order_id: Option<i64>,
    pub symbol: String,
    pub amount: NumericText,
    pub price: NumericText,
    pub timestamp_ms: i64,
}

/// What an [`AccountTrade`] says.
pub struct AccountTradeView {
    pub client_order_id: Option<Seq<char>>,
    pub exchange_order_id: Option<i64>,
    pub symbol: Seq<char>,
    pub amount: NumericView,
    pub price: NumericView,
    pub timestamp_ms: i64,
}

impl DeepView for AccountTrade {
    type V = AccountTradeView;

    open spec fn deep_view(&self) -> AccountTradeView {
        AccountTradeView {
            client_order_id: self.client_order_id.deep_view(),
            exchange_order_id: self.exchange_order_id,
            symbol: self.symbol@,
            amount: self.amount@,
            price: self.price@,
            timestamp_ms: self.timestamp_ms,
        }
    }
}

/// A fault in a number, as an error of the private stream.
pub open spec fn private_fault(fault: NumberFaultView) -> PrivateErrorView {
    PrivateErrorView::InvalidNumber { field: fault.field, value: fault.value }
}

/// A fault in a number, as an error of the private stream.
fn private_error(fault: NumberFault) -> (r: PrivateStreamError)
    ensures
        r@ == private_fault(fault@),
{
    PrivateStreamError::InvalidNumber { field: fault.field, value: fault.value }
}

/// The number in a field that may be left out or empty.
pub open spec fn optional_number(field: Seq<char>, number: Option<NumericView>) -> Result<
    Option<Binary64>,
    NumberFaultView,
> {
    match number {
        Some(number) => if number.text.len() > 0 {
            match number_in(field, number) {
                Ok(value) => Ok(Some(value)),
                Err(fault) => Err(fault),
            }
        } else {
            Ok(None)
        },
        None => Ok(None),
    }
}

/// The first price above zero. The second one is looked at only where the first is none.
pub open spec fn positive_price(first: Option<NumericView>, second: Option<NumericView>) -> Result<
    Option<Binary64>,
    NumberFaultView,
> {
    match optional_number("exec_price"@, first) {
        Err(fault) => Err(fault),
        Ok(price) => if price matches Some(price) && price.positive() {
            Ok(price)
        } else {
            match optional_number("exec_price"@, second) {
                Err(fault) => Err(fault),
                Ok(price) => if price matches Some(price) && price.positive() {
                    Ok(price)
                } else {
                    Ok(None)
                },
            }
        },
    }
}

/// The state that the exchange's word stands for.
pub open spec fn status_named(status: Seq<char>) -> Option<PacificaOrderStatus> {
    if status == "open"@ {
        Some(PacificaOrderStatus::Open)
    } else if status == "partially_filled"@ || status == "partial_filled"@ || status == "partial"@ {
        Some(PacificaOrderStatus::PartiallyFilled)
    } else if status == "filled"@ {
        Some(PacificaOrderStatus::Filled)
    } else if status == "cancelled"@ || status == "canceled"@ {
        Some(PacificaOrderStatus::Cancelled)
    } else if status == "rejected"@ {
        Some(PacificaOrderStatus::Rejected)
    } else {
        None
    }
}

/// What a report on an order means: the first thing that is wrong in it counts.
pub open spec fn order_update(update: AccountOrderUpdateView) -> Result<
    UpdateView,
    PrivateErrorView,
> {
    let filled = optional_number("filled_amount"@, update.filled_amount);
    let amount = optional_number("amount"@, update.amount);
    let price = positive_price(update.last_price, update.average_price);
    if filled is Err {
        Err(private_fault(filled->Err_0))
    } else if amount is Err {
        Err(private_fault(amount->Err_0))
    } else if price is Err {
        Err(private_fault(price->Err_0))
    } else if status_named(update.status) is None {
        Err(PrivateErrorView::UnsupportedOrderStatus(update.status))
    } else {
        Ok(
            UpdateView {
                symbol: update.symbol,
                client_order_id: update.client_order_id,
                exchange_order_id: update.exchange_order_id,
                side: update.side,
                price: update.initial_price,
                status: status_named(update.status)->0,
                leaves_qty: match (amount->Ok_0, filled->Ok_0) {
                    (Some(_), Some(_)) => Some(update.remaining),
                    (Some(amount), None) => Some(amount),
                    (None, _) => None,
                },
                exec_qty: filled->Ok_0,
                exec_price: price->Ok_0,
                exch_timestamp: nanos(update.updated_at_ms),
            },
        )
    }
}

/// What the first `n` reports mean, or the first error in them.
pub open spec fn order_updates(data: Seq<AccountOrderUpdateView>, n: int) -> Result<
    Seq<UpdateView>,
    PrivateErrorView,
>
    decreases n,
{
    if n <= 0 {
        Ok(Seq::empty())
    } else {
        match order_updates(data, n - 1) {
            Err(error) => Err(error),
            Ok(updates) => match order_update(data[n - 1]) {
                Err(error) => Err(error),
                Ok(update) => Ok(updates.push(update)),
            },
        }
    }
}

/// What a fill means.
pub open spec fn trade_update(trade: AccountTradeView) -> Result<UpdateView, PrivateErrorView> {
    match (number_in("trade_amount"@, trade.amount), number_in("trade_price"@, trade.price)) {
        (Err(fault), _) => Err(private_fault(fault)),
        (_, Err(fault)) => Err(private_fault(fault)),
        (Ok(amount), Ok(price)) => Ok(
            UpdateView {
                symbol: trade.symbol,
                client_order_id: trade.client_order_id,
                exchange_order_id: trade.exchange_order_id,
                side: None,
                price: None,
                status: PacificaOrderStatus::PartiallyFilled,
                leaves_qty: None,
                exec_qty: Some(amount),
                exec_price: Some(price),
                exch_timestamp: nanos(trade.timestamp_ms),
            },
        ),
    }
}

/// What the first `n` fills mean, or the first error in them.
pub open spec fn trade_updates(data: Seq<AccountTradeView>, n: int) -> Result<
    Seq<UpdateView>,
    PrivateErrorView,
>
    decreases n,
{
    if n <= 0 {
        Ok(Seq::empty())
    } else {
        match trade_updates(data, n - 1) {
            Err(error) => Err(error),
            Ok(updates) => match trade_update(data[n - 1]) {
                Err(error) => Err(error),
                Ok(update) => Ok(updates.push(update)),
            },
        }
    }
}

proof fn lemma_order_error_stays(data: Seq<AccountOrderUpdateView>, n: int, m: int)
    requires
        0 <= n <= m,
        order_updates(data, n) is Err,
    ensures
        order_updates(data, m) == order_updates(data, n),
    decreases m,
{
    if n < m {
        lemma_order_error_stays(data, n, m - 1);
    }
}

proof fn lemma_trade_error_stays(data: Seq<AccountTradeView>, n: int, m: int)
    requires
        0 <= n <= m,
        trade_updates(data, n) is Err,
    ensures
        trade_updates(data, m) == trade_updates(data, n),
    decreases m,
{
    if n < m {
        lemma_trade_error_stays(data, n, m - 1);
    }
}

/// What the reports of a message mean.
pub open spec fn order_updates_of(frame: Result<OrderUpdatesFrame, String>) -> Result<
    Seq<UpdateView>,
    PrivateErrorView,
> {
    match frame {
        Ok(frame) => order_updates(frame.data.deep_view(), frame.data.len() as int),
        Err(error) => Err(PrivateErrorView::Json(error@)),
    }
}

/// What the fills of a message mean.
pub open spec fn trade_updates_of(frame: Result<AccountTradesFrame, String>) -> Result<
    Seq<UpdateView>,
    PrivateErrorView,
> {
    match frame {
        Ok(frame) => trade_updates(frame.data.deep_view(), frame.data.len() as int),
        Err(error) => Err(PrivateErrorView::Json(error@)),
    }
}

/// The times of the reports that are looked at can be written in nanoseconds.
pub open spec fn order_times_fit(frame: Result<OrderUpdatesFrame, String>) -> bool {
    frame matches Ok(frame) ==> {
        let data = frame.data.deep_view();
        forall|i: int|
            0 <= i < data.len() && order_update(#[trigger] data[i]) is Ok && order_updates(
                data,
                i,
            ) is Ok ==> fits_in_nanos(data[i].updated_at_ms)
    }
}

/// The times of the fills that are looked at can be written in nanoseconds.
pub open spec fn trade_times_fit(frame: Result<AccountTradesFrame, String>) -> bool {
    frame matches Ok(frame) ==> {
        let data = frame.data.deep_view();
        forall|i: int|
            0 <= i < data.len() && trade_update(#[trigger] data[i]) is Ok && trade_updates(
                data,
                i,
            ) is Ok ==> fits_in_nanos(data[i].timestamp_ms)
    }
}

/// The number in a field that may be left out or empty.
fn optional_f64(field: &'static str, number: &Option<NumericText>) -> (r: Result<
    Option<Binary64>,
    NumberFault,
>)
    ensures
        outcome(r) == optional_number(field@, number.deep_view()),
{
    match number {
        Some(number) => {
            if number.text.as_str().is_empty() {
                return Ok(None);
            }
            match read_number(field, number) {
                Ok(value) => Ok(Some(value)),
                Err(fault) => Err(fault),
            }
        },
        None => Ok(None),
    }
}

/// The first price above zero.
fn first_positive_price(first: &Option<NumericText>, second: &Option<NumericText>) -> (r: Result<
    Option<Binary64>,
    NumberFault,
>)
    ensures
        outcome(r) == positive_price(first.deep_view(), second.deep_view()),
{
    match optional_f64("exec_price", first) {
        Ok(Some(price)) => {
            if price.is_positive() {
                return Ok(Some(price));
            }
        },
        Ok(None) => {},
        Err(fault) => {
            return Err(fault);
        },
    }
    match optional_f64("exec_price", second) {
        Ok(Some(price)) => {
            if price.is_positive() {
                return Ok(Some(price));
            }
        },
        Ok(None) => {},
        Err(fault) => {
            return Err(fault);
        },
    }
    Ok(None)
}

/// The state that the exchange's word stands for.
pub fn parse_status(status: &str) -> (r: Result<PacificaOrderStatus, PrivateStreamError>)
    ensures
        match (status_named(status@), r) {
            (Some(named), Ok(found)) => named == found,
            (None, Err(error)) => error@ == PrivateErrorView::UnsupportedOrderStatus(status@),
            _ => false,
        },
{
    if text_eq(status, "open") {
        Ok(PacificaOrderStatus::Open)
    } else if text_eq(status, "partially_filled") || text_eq(status, "partial_filled") || text_eq(
        status,
        "partial",
    ) {
        Ok(PacificaOrderStatus::PartiallyFilled)
    } else if text_eq(status, "filled") {
        Ok(PacificaOrderStatus::Filled)
    } else if text_eq(status, "cancelled") || text_eq(status, "canceled") {
        Ok(PacificaOrderStatus::Cancelled)
    } else if text_eq(status, "rejected") {
        Ok(PacificaOrderStatus::Rejected)
    } else {
        Err(PrivateStreamError::UnsupportedOrderStatus(status.to_string()))
    }
}

/// What a report on an order means.
fn parse_order_update(update: &AccountOrderUpdate) -> (r: Result<
    PacificaOrderUpdate,
    PrivateStreamError,
>)
    requires
        order_update(update.deep_view()) is Ok ==> fits_in_nanos(update.updated_at_ms),
    ensures
        outcome(r) == order_update(update.deep_view()),
{
    let exec_qty = match optional_f64("filled_amount", &update.filled_amount) {
        Ok(exec_qty) => exec_qty,
        Err(fault) => {
            return Err(private_error(fault));
        },
    };
    let leaves_qty = match optional_f64("amount", &update.amount) {
        Ok(Some(amount)) => if exec_qty.is_some() {
            Some(update.remaining)
        } else {
            Some(amount)
        },
        Ok(None) => None,
        Err(fault) => {
            return Err(private_error(fault));
        },
    };
    let exec_price = match first_positive_price(&update.last_price, &update.average_price) {
        Ok(exec_price) => exec_price,
        Err(fault) => {
            return Err(private_error(fault));
        },
    };
    let status = match parse_status(update.status.as_str()) {
        Ok(status) => status,
        Err(error) => {
            return Err(error);
        },
    };
    Ok(
        PacificaOrderUpdate {
            symbol: update.symbol.clone(),
            client_order_id: clone_option_text(&update.client_order_id),
            exchange_order_id: update.exchange_order_id,
            side: clone_option_text(&update.side),
            price: clone_option_text(&update.initial_price),
            status,
            leaves_qty,
            exec_qty,
            exec_price,
            exch_timestamp: ms_to_ns(update.updated_at_ms),
        },
    )
}

/// Whether nothing is wrong in a report on an order.
fn order_update_is_right(update: &AccountOrderUpdate) -> (r: bool)
    ensures
        r == order_update(update.deep_view()) is Ok,
{
    optional_f64("filled_amount", &update.filled_amount).is_ok() && optional_f64(
        "amount",
        &update.amount,
    ).is_ok() && first_positive_price(&update.last_price, &update.average_price).is_ok()
        && parse_status(update.status.as_str()).is_ok()
}

/// Whether the times of the reports that are looked at can be written in nanoseconds.
pub fn order_updates_fit(frame: &Result<OrderUpdatesFrame, String>) -> (r: bool)
    ensures
        r == order_times_fit(*frame),
{
    let data = match frame {
        Ok(frame) => &frame.data,
        Err(_) => {
            return true;
        },
    };
    let ghost all = data.deep_view();
    let mut i: usize = 0;
    while i < data.len()
        invariant
            *frame is Ok && frame->Ok_0.data == *data,
            i <= data.len(),
            all == data.deep_view(),
            order_updates(all, i as int) is Ok,
            forall|j: int|
                0 <= j < i && order_update(#[trigger] all[j]) is Ok && order_updates(all, j) is Ok
                    ==> fits_in_nanos(all[j].updated_at_ms),
        decreases data.len() - i,
    {
        assert(all[i as int] == data@[i as int].deep_view());
        if !order_update_is_right(&data[i]) {
            proof {
                assert forall|j: int|
                    0 <= j < all.len() && order_update(#[trigger] all[j]) is Ok && order_updates(
                        all,
                        j,
                    ) is Ok implies fits_in_nanos(all[j].updated_at_ms) by {
                    if j > i {
                        lemma_order_error_stays(all, i as int + 1, j);
                    }
                }
            }
            return true;
        }
        if !fits(data[i].updated_at_ms) {
            assert(order_update(all[i as int]) is Ok);
            return false;
        }
        i = i + 1;
    }
    true
}

/// What the reports of a message mean.
pub fn parse_order_updates(frame: &Result<OrderUpdatesFrame, String>) -> (r: Result<
    Vec<PacificaOrderUpdate>,
    PrivateStreamError,
>)
    requires
        order_times_fit(*frame),
    ensures
        outcome(r) == order_updates_of(*frame),
{
    let data = match frame {
        Ok(frame) => &frame.data,
        Err(error) => {
            return Err(PrivateStreamError::Json(error.clone()));
        },
    };
    let ghost all = data.deep_view();
    let mut updates: Vec<PacificaOrderUpdate> = Vec::new();
    assert(updates.deep_view() =~= Seq::<UpdateView>::empty());
    let mut i: usize = 0;
    while i < data.len()
        invariant
            *frame is Ok && frame->Ok_0.data == *data,
            order_times_fit(*frame),
            i <= data.len(),
            all == data.deep_view(),
            order_updates(all, i as int) == Ok::<Seq<UpdateView>, PrivateErrorView>(
                updates.deep_view(),
            ),
        decreases data.len() - i,
    {
        assert(all[i as int] == data@[i as int].deep_view());
        let ghost said = updates.deep_view();
        match parse_order_update(&data[i]) {
            Ok(update) => {
                let ghost last = update@;
                updates.push(update);
                assert(updates.deep_view() =~= said.push(last));
            },
            Err(error) => {
                proof {
                    lemma_order_error_stays(all, i as int + 1, all.len() as int);
                }
                return Err(error);
            },
        }
        i = i + 1;
    }
    Ok(updates)
}

/// What a fill means.
fn parse_account_trade(trade: &AccountTrade) -> (r: Result<PacificaOrderUpdate, PrivateStreamError>)
    requires
        trade_update(trade.deep_view()) is Ok ==> fits_in_nanos(trade.timestamp_ms),
    ensures
        outcome(r) == trade_update(trade.deep_view()),
{
    let amount = match read_number("trade_amount", &trade.amount) {
        Ok(amount) => amount,
        Err(fault) => {
            return Err(private_error(fault));
        },
    };
    let price = match read_number("trade_price", &trade.price) {
        Ok(price) => price,
        Err(fault) => {
            return Err(private_error(fault));
        },
    };
    Ok(
        PacificaOrderUpdate {
            symbol: trade.symbol.clone(),
            client_order_id: clone_option_text(&trade.client_order_id),
            exchange_order_id: trade.exchange_order_id,
            side: None,
            price: None,
            status: PacificaOrderStatus::PartiallyFilled,
            leaves_qty: None,
            exec_qty: Some(amount),
            exec_price: Some(price),
            exch_timestamp: ms_to_ns(trade.timestamp_ms),
        },
    )
}

/// Whether the times of the fills that are looked at can be written in nanoseconds.
pub fn account_trades_fit(frame: &Result<AccountTradesFrame, String>) -> (r: bool)
    ensures
        r == trade_times_fit(*frame),
{
    let data = match frame {
        Ok(frame) => &frame.data,
        Err(_) => {
            return true;
        },
    };
    let ghost all = data.deep_view();
    let mut i: usize = 0;
    while i < data.len()
        invariant
            *frame is Ok && frame->Ok_0.data == *data,
            i <= data.len(),
            all == data.deep_view(),
            trade_updates(all, i as int) is Ok,
            forall|j: int|
                0 <= j < i && trade_update(#[trigger] all[j]) is Ok && trade_updates(all, j) is Ok
                    ==> fits_in_nanos(all[j].timestamp_ms),
        decreases data.len() - i,
    {
        assert(all[i as int] == data@[i as int].deep_view());
        if data[i].amount.value.is_none() || data[i].price.value.is_none() {
            proof {
                assert forall|j: int|
                    0 <= j < all.len() && trade_update(#[trigger] all[j]) is Ok && trade_updates(
                        all,
                        j,
                    ) is Ok implies fits_in_nanos(all[j].timestamp_ms) by {
                    if j > i {
                        lemma_trade_error_stays(all, i as int + 1, j);
                    }
                }
            }
            return true;
        }
        if !fits(data[i].timestamp_ms) {
            assert(trade_update(all[i as int]) is Ok);
            return false;
        }
        i = i + 1;
    }
    true
}

/// What the fills of a message mean.
pub fn parse_account_trades(frame: &Result<AccountTradesFrame, String>) -> (r: Result<
    Vec<PacificaOrderUpdate>,
    PrivateStreamError,
>)
    requires
        trade_times_fit(*frame),
    ensures
        outcome(r) == trade_updates_of(*frame),
{
    let data = match frame {
        Ok(frame) => &frame.data,
        Err(error) => {
            return Err(PrivateStreamError::Json(error.clone()));
        },
    };
    let ghost all = data.deep_view();
    let mut updates: Vec<PacificaOrderUpdate> = Vec::new();
    assert(updates.deep_view() =~= Seq::<UpdateView>::empty());
    let mut i: usize = 0;
    while i < data.len()
        invariant
            *frame is Ok && frame->Ok_0.data == *data,
            trade_times_fit(*frame),
            i <= data.len(),
            all == data.deep_view(),
            trade_updates(all, i as int) == Ok::<Seq<UpdateView>, PrivateErrorView>(
                updates.deep_view(),
            ),
        decreases data.len() - i,
    {
        assert(all[i as int] == data@[i as int].deep_view());
        let ghost said = updates.deep_view();
        match parse_account_trade(&data[i]) {
            Ok(update) => {
                let ghost last = update@;
                updates.push(update);
                assert(updates.deep_view() =~= said.push(last));
            },
            Err(error) => {
                proof {
                    lemma_trade_error_stays(all, i as int + 1, all.len() as int);
                }
                return Err(error);
            },
        }
        i = i + 1;
    }
    Ok(updates)
}

/// `fill` can be asked about every order, quantity and price.
pub open spec fn computes_fills<
    F: Fn(Order, Option<Binary64>, Option<Binary64>) -> FillNumbers,
>(fill: F) -> bool {
    forall|order: Order, qty: Option<Binary64>, price: Option<Binary64>| #[trigger]
        call_requires(fill, (order, qty, price))
}

/// The book took in a report, with the numbers that `fill` gives. One that is about no order of
/// the book is passed over.
pub open spec fn took_in<F: Fn(Order, Option<Binary64>, Option<Binary64>) -> FillNumbers>(
    fill: F,
    before: ManagerView,
    update: UpdateView,
    after: ManagerView,
    event: Option<LiveEventView>,
) -> bool {
    match before.update_target(update) {
        Err(_) => after == before && event is None,
        Ok(id) => exists|numbers: FillNumbers| #[trigger]
            call_ensures(
                fill,
                (before.orders[id].order, update.exec_qty, update.exec_price),
                numbers,
            ) && after == before.with_update(id, update, numbers) && event == Some(
                LiveEventView::Order {
                    symbol: before.updated_order(id, update, numbers).symbol,
                    order: before.updated_order(id, update, numbers).order,
                },
            ),
    }
}

/// The events with one more at the end, where there is one.
pub open spec fn with_event(
    events: Seq<LiveEventView>,
    event: Option<LiveEventView>,
) -> Seq<LiveEventView> {
    match event {
        Some(event) => events.push(event),
        None => events,
    }
}

/// The book took in one more report, whose event follows the earlier ones.
pub open spec fn took_in_next<F: Fn(Order, Option<Binary64>, Option<Binary64>) -> FillNumbers>(
    fill: F,
    between: ManagerView,
    earlier: Seq<LiveEventView>,
    update: UpdateView,
    after: ManagerView,
    events: Seq<LiveEventView>,
) -> bool {
    exists|event: Option<LiveEventView>| #[trigger]
        took_in(fill, between, update, after, event) && events == with_event(earlier, event)
}

/// The book took in the first `n` reports, one after the other.
pub open spec fn took_in_all<F: Fn(Order, Option<Binary64>, Option<Binary64>) -> FillNumbers>(
    fill: F,
    before: ManagerView,
    updates: Seq<UpdateView>,
    n: int,
    after: ManagerView,
    events: Seq<LiveEventView>,
) -> bool
    decreases n,
{
    if n <= 0 {
        after == before && events == Seq::<LiveEventView>::empty()
    } else {
        exists|between: ManagerView, earlier: Seq<LiveEventView>|
            took_in_all(fill, before, updates, n - 1, between, earlier) && #[trigger] took_in_next(
                fill,
                between,
                earlier,
                updates[n - 1],
                after,
                events,
            )
    }
}

proof fn lemma_one_more<F: Fn(Order, Option<Binary64>, Option<Binary64>) -> FillNumbers>(
    fill: F,
    before: ManagerView,
    updates: Seq<UpdateView>,
    n: int,
    between: ManagerView,
    earlier: Seq<LiveEventView>,
    after: ManagerView,
    event: Option<LiveEventView>,
)
    requires
        0 <= n < updates.len(),
        took_in_all(fill, before, updates, n, between, earlier),
        took_in(fill, between, updates[n], after, event),
    ensures
        took_in_all(fill, before, updates, n + 1, after, with_event(earlier, event)),
{
    assert(took_in_next(
        fill,
        between,
        earlier,
        updates[(n + 1) - 1],
        after,
        with_event(earlier, event),
    ));
}

/// The book took in what a message means, or nothing where the message is wrong.
pub open spec fn took_in_message<F: Fn(Order, Option<Binary64>, Option<Binary64>) -> FillNumbers>(
    fill: F,
    before: ManagerView,
    updates: Result<Seq<UpdateView>, PrivateErrorView>,
    after: ManagerView,
    result: Result<Seq<LiveEventView>, PrivateErrorView>,
) -> bool {
    match (updates, result) {
        (Err(error), Err(said)) => said == error && after == before,
        (Ok(updates), Ok(events)) => took_in_all(
            fill,
            before,
            updates,
            updates.len() as int,
            after,
            events,
        ),
        _ => false,
    }
}

/// Takes in a report, and gives the event about its order. One that is about no order of the book
/// is passed over.
fn apply_known_order_update<F: Fn(Order, Option<Binary64>, Option<Binary64>) -> FillNumbers>(
    order_manager: &mut OrderManager,
    update: PacificaOrderUpdate,
    fill: F,
) -> (r: Result<Option<LiveEvent>, PrivateStreamError>)
    requires
        computes_fills(fill),
    ensures
        r is Ok,
        took_in(
            fill,
            old(order_manager)@,
            update@,
            final(order_manager)@,
            r->Ok_0.deep_view(),
        ),
{
    match order_manager.apply_update(update, fill) {
        Ok(order_ext) => Ok(
            Some(LiveEvent::Order { symbol: order_ext.symbol, order: order_ext.order }),
        ),
        Err(OrderManagerError::UnresolvedUpdate) => Ok(None),
        Err(OrderManagerError::OrderNotFound) => Ok(None),
        Err(error) => Err(PrivateStreamError::OrderManager(error)),
    }
}

/// Takes in reports, one after the other.
fn apply_all<F: Fn(Order, Option<Binary64>, Option<Binary64>) -> FillNumbers + Copy>(
    order_manager: &mut OrderManager,
    updates: Vec<PacificaOrderUpdate>,
    fill: F,
) -> (r: Result<Vec<LiveEvent>, PrivateStreamError>)
    requires
        computes_fills(fill),
    ensures
        r is Ok,
        took_in_all(
            fill,
            old(order_manager)@,
            updates.deep_view(),
            updates.len() as int,
            final(order_manager)@,
            r->Ok_0.deep_view(),
        ),
{
    let ghost all = updates.deep_view();
    let ghost start = order_manager@;
    let mut updates = updates;
    let mut events: Vec<LiveEvent> = Vec::new();
    assert(events.deep_view() =~= Seq::<LiveEventView>::empty());
    let n: usize = updates.len();
    let mut i: usize = 0;
    while i < n
        invariant
            i <= n,
            n == all.len(),
            updates.len() == n - i,
            forall|j: int| 0 <= j < n - i ==> (#[trigger] updates@[j])@ == all[i + j],
            computes_fills(fill),
            took_in_all(fill, start, all, i as int, order_manager@, events.deep_view()),
        decreases n - i,
    {
        let ghost between = order_manager@;
        let ghost earlier = events.deep_view();
        let ghost left = updates@;
        assert(updates@[0]@ == all[i as int]);
        let update = updates.remove(0);
        assert forall|j: int| 0 <= j < n - i - 1 implies (#[trigger] updates@[j])@ == all[i + 1
            + j] by {
            assert(updates@[j] == left[j + 1]);
            assert(left[j + 1]@ == all[i + (j + 1)]);
        }
        match apply_known_order_update(order_manager, update, fill) {
            Ok(Some(event)) => {
                let ghost last = event@;
                events.push(event);
                assert(events.deep_view() =~= earlier.push(last));
                proof {
                    lemma_one_more(
                        fill,
                        start,
                        all,
                        i as int,
                        between,
                        earlier,
                        order_manager@,
                        Some(last),
                    );
                }
            },
            Ok(None) => {
                proof {
                    lemma_one_more(
                        fill,
                        start,
                        all,
                        i as int,
                        between,
                        earlier,
                        order_manager@,
                        None,
                    );
                }
            },
            Err(error) => {
                return Err(error);
            },
        }
        i = i + 1;
    }
    Ok(events)
}

/// Takes in the reports of a message, and gives the events about the orders.
pub fn apply_order_updates<
    F: Fn(Order, Option<Binary64>, Option<Binary64>) -> FillNumbers + Copy,
>(
    order_manager: &mut OrderManager,
    frame: &Result<OrderUpdatesFrame, String>,
    fill: F,
) -> (r: Result<Vec<LiveEvent>, PrivateStreamError>)
    requires
        order_times_fit(*frame),
        computes_fills(fill),
    ensures
        took_in_message(
            fill,
            old(order_manager)@,
            order_updates_of(*frame),
            final(order_manager)@,
            outcome(r),
        ),
{
    match parse_order_updates(frame) {
        Ok(updates) => apply_all(order_manager, updates, fill),
        Err(error) => Err(error),
    }
}

/// Takes in the fills of a message, and gives the events about the orders.
pub fn apply_account_trades<
    F: Fn(Order, Option<Binary64>, Option<Binary64>) -> FillNumbers + Copy,
>(
    order_manager: &mut OrderManager,
    frame: &Result<AccountTradesFrame, String>,
    fill: F,
) -> (r: Result<Vec<LiveEvent>, PrivateStreamError>)
    requires
        trade_times_fit(*frame),
        computes_fills(fill),
    ensures
        took_in_message(
            fill,
            old(order_manager)@,
            trade_updates_of(*frame),
            final(order_manager)@,
            outcome(r),
        ),
{
    match parse_account_trades(frame) {
        Ok(updates) => apply_all(order_manager, updates, fill),
        Err(error) => Err(error),
    }
}

/// A message is not out of date.
pub open spec fn fresh(state: AccountView, text: Seq<char>) -> bool {
    json_of_text(text) matches Ok(value) && state.accepts(max_li(value))
}

/// The book took in what a message means where the message is not out of date; its increment is
/// then the last one.
pub open spec fn took_in_if_fresh<F: Fn(Order, Option<Binary64>, Option<Binary64>) -> FillNumbers>(
    fill: F,
    manager: ManagerView,
    state: AccountView,
    text: Seq<char>,
    updates: Result<Seq<UpdateView>, PrivateErrorView>,
    manager_after: ManagerView,
    state_after: AccountView,
    result: Result<Seq<LiveEventView>, PrivateErrorView>,
) -> bool {
    match json_of_text(text) {
        Err(error) => {
            &&& manager_after == manager
            &&& state_after == state
            &&& result == Err::<Seq<LiveEventView>, PrivateErrorView>(
                PrivateErrorView::AccountState(AccountErrorView::Json(error)),
            )
        },
        Ok(value) => if state.accepts(max_li(value)) {
            &&& state_after == state.advanced(max_li(value))
            &&& took_in_message(fill, manager, updates, manager_after, result)
        } else {
            &&& manager_after == manager
            &&& state_after == state
            &&& result == Ok::<Seq<LiveEventView>, PrivateErrorView>(Seq::empty())
        },
    }
}

/// Takes in the reports of a message unless it is out of date. `text` is the message, `frame` what
/// was read in it.
pub fn apply_order_updates_if_fresh<
    F: Fn(Order, Option<Binary64>, Option<Binary64>) -> FillNumbers + Copy,
>(
    order_manager: &mut OrderManager,
    account_state: &mut AccountState,
    text: &str,
    frame: &Result<OrderUpdatesFrame, String>,
    fill: F,
) -> (r: Result<Vec<LiveEvent>, PrivateStreamError>)
    requires
        fresh(old(account_state)@, text@) ==> order_times_fit(*frame),
        computes_fills(fill),
    ensures
        took_in_if_fresh(
            fill,
            old(order_manager)@,
            old(account_state)@,
            text@,
            order_updates_of(*frame),
            final(order_manager)@,
            final(account_state)@,
            outcome(r),
        ),
{
    let li = match max_li_from_text(text) {
        Ok(li) => li,
        Err(error) => {
            return Err(PrivateStreamError::AccountState(error));
        },
    };
    if !account_state.accept_frame_li(li) {
        let events: Vec<LiveEvent> = Vec::new();
        assert(events.deep_view() =~= Seq::<LiveEventView>::empty());
        return Ok(events);
    }
    apply_order_updates(order_manager, frame, fill)
}

/// Takes in the fills of a message unless it is out of date. `text` is the message, `frame` what
/// was read in it.
pub fn apply_account_trades_if_fresh<
    F: Fn(Order, Option<Binary64>, Option<Binary64>) -> FillNumbers + Copy,
>(
    order_manager: &mut OrderManager,
    account_state: &mut AccountState,
    text: &str,
    frame: &Result<AccountTradesFrame, String>,
    fill: F,
) -> (r: Result<Vec<LiveEvent>, PrivateStreamError>)
    requires
        fresh(old(account_state)@, text@) ==> trade_times_fit(*frame),
        computes_fills(fill),
    ensures
        took_in_if_fresh(
            fill,
            old(order_manager)@,
            old(account_state)@,
            text@,
            trade_updates_of(*frame),
            final(order_manager)@,
            final(account_state)@,
            outcome(r),
        ),
{
    let li = match max_li_from_text(text) {
        Ok(li) => li,
        Err(error) => {
            return Err(PrivateStreamError::AccountState(error));
        },
    };
    if !account_state.accept_frame_li(li) {
        let events: Vec<LiveEvent> = Vec::new();
        assert(events.deep_view() =~= Seq::<LiveEventView>::empty());
        return Ok(events);
    }
    apply_account_trades(order_manager, frame, fill)
}

/// `symbols` are the symbols that a message reports on, in order.
pub open spec fn lists_symbols(symbols: Seq<Seq<char>>, data: Seq<AccountPositionView>) -> bool {
    &&& in_order(symbols)
    &&& forall|symbol: Seq<char>| #[trigger] symbols.contains(symbol) <==> reports(data, symbol)
}

/// The symbols that a message reports on, in order.
pub open spec fn symbols_in(data: Seq<AccountPositionView>) -> Seq<Seq<char>> {
    choose|symbols: Seq<Seq<char>>| lists_symbols(symbols, data)
}

/// Every message has one list of the symbols that it reports on.
pub proof fn reported_symbols_are_one_list(
    symbols: Seq<Seq<char>>,
    data: Seq<AccountPositionView>,
)
    ensures
        lists_symbols(symbols_in(data), data),
        lists_symbols(symbols, data) ==> symbols == symbols_in(data),
{
    let found = lemma_symbols_can_be_listed(data, data.len() as int);
    assert forall|symbol: Seq<char>| #[trigger] found.contains(symbol) <==> reports(
        data,
        symbol,
    ) by {
        if reports(data, symbol) {
            let i = choose|i: int| 0 <= i < data.len() && #[trigger] data[i].symbol == symbol;
            assert(data[i].symbol == symbol);
        }
    }
    assert(lists_symbols(found, data));
    if lists_symbols(symbols, data) {
        assert forall|symbol: Seq<char>| #[trigger] symbols.contains(symbol) <==> symbols_in(
            data,
        ).contains(symbol) by {}
        ordered_lists_are_unique(symbols, symbols_in(data));
    }
}

/// The symbols of the first `n` positions can be listed in order.
proof fn lemma_symbols_can_be_listed(data: Seq<AccountPositionView>, n: int) -> (found: Seq<
    Seq<char>,
>)
    requires
        0 <= n <= data.len(),
    ensures
        in_order(found),
        forall|symbol: Seq<char>| #[trigger]
            found.contains(symbol) <==> exists|i: int|
                0 <= i < n && #[trigger] data[i].symbol == symbol,
    decreases n,
{
    if n == 0 {
        Seq::empty()
    } else {
        let earlier = lemma_symbols_can_be_listed(data, n - 1);
        let found = one_more_symbol(earlier, data[n - 1].symbol);
        assert forall|symbol: Seq<char>| #[trigger] found.contains(symbol) <==> exists|i: int|
            0 <= i < n && #[trigger] data[i].symbol == symbol by {
            if earlier.contains(symbol) {
                let i = choose|i: int| 0 <= i < n - 1 && #[trigger] data[i].symbol == symbol;
                assert(data[i].symbol == symbol);
            }
            if symbol == data[n - 1].symbol {
                assert(data[n - 1].symbol == symbol);
            }
        }
        found
    }
}

/// The times that a newcomer computes from a message can be written in nanoseconds.
pub open spec fn newcomer_times_fit(frame: Result<AccountPositionsFrame, String>) -> bool {
    frame matches Ok(frame) ==> AccountView::empty().times_fit(
        frame.data.deep_view(),
        frame.last_increment_id,
        symbols_in(frame.data.deep_view()),
    )
}

/// Whether the times that a newcomer computes from a message can be written in nanoseconds.
pub fn position_events_fit(frame: &Result<AccountPositionsFrame, String>) -> (r: bool)
    ensures
        r == newcomer_times_fit(*frame),
{
    match (frame, tracked_symbols_from_positions_text(frame)) {
        (Ok(message), Ok(symbols)) => {
            proof {
                reported_symbols_are_one_list(symbols@, message.data.deep_view());
            }
            AccountState::new().positions_fit(message, &symbols)
        },
        _ => true,
    }
}

/// The events for the positions of a message, for those who know nothing of the account yet.
pub fn position_events(frame: &Result<AccountPositionsFrame, String>) -> (r: Result<
    Vec<LiveEvent>,
    PrivateStreamError,
>)
    requires
        newcomer_times_fit(*frame),
    ensures
        outcome(r) == (match *frame {
            Err(error) => Err::<Seq<LiveEventView>, PrivateErrorView>(
                PrivateErrorView::AccountState(AccountErrorView::Json(error@)),
            ),
            Ok(frame) => match AccountView::empty().with_positions(
                frame.data.deep_view(),
                frame.last_increment_id,
                symbols_in(frame.data.deep_view()),
            ).1 {
                Ok(events) => Ok(events),
                Err(error) => Err(PrivateErrorView::AccountState(error)),
            },
        }),
{
    let tracked_symbols = match tracked_symbols_from_positions_text(frame) {
        Ok(tracked_symbols) => tracked_symbols,
        Err(error) => {
            return Err(PrivateStreamError::AccountState(error));
        },
    };
    proof {
        reported_symbols_are_one_list(tracked_symbols@, frame->Ok_0.data.deep_view());
    }
    let mut state = AccountState::new();
    match state.apply_positions_text(frame, &tracked_symbols) {
        Ok(events) => Ok(events),
        Err(error) => Err(PrivateStreamError::AccountState(error)),
    }
}

/// The channel that a message belongs to.
pub fn channel_name(text: &str) -> (r: Result<Option<String>, String>)
    ensures
        match (json_of_text(text@), r) {
            (Ok(value), Ok(channel)) => channel.deep_view() == json_str_member(value, "channel"@),
            (Err(error), Err(said)) => said@ == error,
            _ => false,
        },
{
    match parse_json(text) {
        Ok(value) => Ok(value.str_member("channel")),
        Err(error) => Err(error),
    }
}

/// A private message: its text, and what was read in it for every channel that it may belong to.
#[derive(Debug)]
pub struct PrivateMessage {
    pub text: String,
    pub order_updates: Result<OrderUpdatesFrame, String>,
    pub trades: Result<AccountTradesFrame, String>,
    pub positions: Result<AccountPositionsFrame, String>,
}

impl PrivateMessage {
    /// The message belongs to the channel.
    pub open spec fn belongs_to(self, channel: Seq<char>) -> bool {
        json_of_text(self.text@) matches Ok(value) && json_str_member(value, "channel"@) == Some(
            channel,
        )
    }

    /// The times in the message that are looked at can be written in nanoseconds.
    pub open spec fn times_fit(self, state: AccountView, symbols: Seq<Seq<char>>) -> bool {
        &&& self.belongs_to("account_order_updates"@) && fresh(state, self.text@)
            ==> order_times_fit(self.order_updates)
        &&& self.belongs_to("account_trades"@) && fresh(state, self.text@) ==> trade_times_fit(
            self.trades,
        )
        &&& self.belongs_to("account_positions"@) && self.positions is Ok ==> state.times_fit(
            self.positions->Ok_0.data.deep_view(),
            self.positions->Ok_0.last_increment_id,
            symbols,
        )
    }

    /// What is known after the message, and the events or the error. A message with fills that is
    /// wrong gives no events; a message of another channel changes nothing.
    pub open spec fn taken_in<F: Fn(Order, Option<Binary64>, Option<Binary64>) -> FillNumbers>(
        self,
        fill: F,
        manager: ManagerView,
        state: AccountView,
        symbols: Seq<Seq<char>>,
        manager_after: ManagerView,
        state_after: AccountView,
        result: Result<Seq<LiveEventView>, PrivateErrorView>,
    ) -> bool {
        if json_of_text(self.text@) is Err {
            &&& manager_after == manager
            &&& state_after == state
            &&& result == Err::<Seq<LiveEventView>, PrivateErrorView>(
                PrivateErrorView::Json(json_of_text(self.text@)->Err_0),
            )
        } else if self.belongs_to("account_order_updates"@) {
            took_in_if_fresh(
                fill,
                manager,
                state,
                self.text@,
                order_updates_of(self.order_updates),
                manager_after,
                state_after,
                result,
            )
        } else if self.belongs_to("account_trades"@) {
            exists|inner: Result<Seq<LiveEventView>, PrivateErrorView>| #[trigger]
                took_in_if_fresh(
                    fill,
                    manager,
                    state,
                    self.text@,
                    trade_updates_of(self.trades),
                    manager_after,
                    state_after,
                    inner,
                ) && result == Ok::<Seq<LiveEventView>, PrivateErrorView>(
                    match inner {
                        Ok(events) => events,
                        Err(_) => Seq::empty(),
                    },
                )
        } else if self.belongs_to("account_positions"@) {
            match self.positions {
                Err(error) => {
                    &&& manager_after == manager
                    &&& state_after == state
                    &&& result == Err::<Seq<LiveEventView>, PrivateErrorView>(
                        PrivateErrorView::AccountState(AccountErrorView::Json(error@)),
                    )
                },
                Ok(frame) => {
                    let (after, events) = state.with_positions(
                        frame.data.deep_view(),
                        frame.last_increment_id,
                        symbols,
                    );
                    &&& manager_after == manager
                    &&& state_after == after
                    &&& result == (match events {
                        Ok(events) => Ok::<Seq<LiveEventView>, PrivateErrorView>(events),
                        Err(error) => Err(PrivateErrorView::AccountState(error)),
                    })
                },
            }
        } else {
            &&& manager_after == manager
            &&& state_after == state
            &&& result == Ok::<Seq<LiveEventView>, PrivateErrorView>(Seq::empty())
        }
    }
}

impl PrivateMessage {
    /// Whether the times in the message that are looked at can be written in nanoseconds.
    pub fn fits(&self, state: &AccountState, symbols: &SymbolSet) -> (r: bool)
        ensures
            r == self.times_fit(state@, symbols@),
    {
        let channel = match channel_name(self.text.as_str()) {
            Ok(channel) => channel,
            Err(_) => {
                return true;
            },
        };
        proof {
            reveal_strlit("account_order_updates");
            reveal_strlit("account_trades");
            reveal_strlit("account_positions");
            assert("account_order_updates"@.len() == 21);
            assert("account_trades"@.len() == 14);
            assert("account_positions"@.len() == 17);
        }
        let is_fresh = match max_li_from_text(self.text.as_str()) {
            Ok(li) => state.accepts(li),
            Err(_) => false,
        };
        if option_text_eq(&channel, "account_order_updates") {
            return !is_fresh || order_updates_fit(&self.order_updates);
        }
        if option_text_eq(&channel, "account_trades") {
            return !is_fresh || account_trades_fit(&self.trades);
        }
        if option_text_eq(&channel, "account_positions") {
            return match &self.positions {
                Ok(frame) => state.positions_fit(frame, symbols),
                Err(_) => true,
            };
        }
        true
    }
}

/// Takes in a private message, and gives the events to publish.
pub fn handle_text<F: Fn(Order, Option<Binary64>, Option<Binary64>) -> FillNumbers + Copy>(
    order_manager: &mut OrderManager,
    account_state: &mut AccountState,
    symbols: &SymbolSet,
    message: &PrivateMessage,
    fill: F,
) -> (r: Result<Vec<LiveEvent>, PrivateStreamError>)
    requires
        message.times_fit(old(account_state)@, symbols@),
        computes_fills(fill),
    ensures
        message.taken_in(
            fill,
            old(order_manager)@,
            old(account_state)@,
            symbols@,
            final(order_manager)@,
            final(account_state)@,
            outcome(r),
        ),
{
    let channel = match channel_name(message.text.as_str()) {
        Ok(channel) => channel,
        Err(error) => {
            return Err(PrivateStreamError::Json(error));
        },
    };
    let ghost nothing = Seq::<LiveEventView>::empty();
    proof {
        reveal_strlit("account_order_updates");
        reveal_strlit("account_trades");
        reveal_strlit("account_positions");
        assert("account_order_updates"@.len() == 21);
        assert("account_trades"@.len() == 14);
        assert("account_positions"@.len() == 17);
    }
    if option_text_eq(&channel, "account_order_updates") {
        return apply_order_updates_if_fresh(
            order_manager,
            account_state,
            message.text.as_str(),
            &message.order_updates,
            fill,
        );
    }
    if option_text_eq(&channel, "account_trades") {
        let result = apply_account_trades_if_fresh(
            order_manager,
            account_state,
            message.text.as_str(),
            &message.trades,
            fill,
        );
        let ghost inner = outcome(result);
        assert(took_in_if_fresh(
            fill,
            old(order_manager)@,
            old(account_state)@,
            message.text@,
            trade_updates_of(message.trades),
            order_manager@,
            account_state@,
            inner,
        ));
        return match result {
            Ok(events) => Ok(events),
            Err(_) => {
                let events: Vec<LiveEvent> = Vec::new();
                assert(events.deep_view() =~= nothing);
                Ok(events)
            },
        };
    }
    if option_text_eq(&channel, "account_positions") {
        return match account_state.apply_positions_text(&message.positions, symbols) {
            Ok(events) => Ok(events),
            Err(error) => Err(PrivateStreamError::AccountState(error)),
        };
    }
    let events: Vec<LiveEvent> = Vec::new();
    assert(events.deep_view() =~= nothing);
    Ok(events)
}

/// What happens at a stream of private messages.
#[derive(Debug)]
pub enum PrivateInput {
    /// It is time for a sign of life.
    Tick,
    /// A message came.
    Text(PrivateMessage),
    /// The exchange asks for a sign of life.
    Ping,
    /// The exchange closed the socket, or it ended.
    Closed,
    /// Something came that has no meaning here.
    Ignored,
    /// The socket failed.
    Failed(String),
}

/// What is to be done at a stream of private messages.
#[derive(Debug)]
pub enum PrivateOutput {
    /// Send a request.
    Send(Json),
    /// Answer with a sign of life.
    Pong,
    /// Publish events, in this order.
    Publish(Vec<LiveEvent>),
    /// Leave the stream.
    Finish(PrivateStreamError),
}

/// What a [`PrivateOutput`] says.
pub enum PrivateOutputView {
    Send(JsonView),
    Pong,
    Publish(Seq<LiveEventView>),
    Finish(PrivateErrorView),
}

impl View for PrivateOutput {
    type V = PrivateOutputView;

    open spec fn view(&self) -> PrivateOutputView {
        match *self {
            PrivateOutput::Send(request) => PrivateOutputView::Send(request@),
            PrivateOutput::Pong => PrivateOutputView::Pong,
            PrivateOutput::Publish(events) => PrivateOutputView::Publish(events.deep_view()),
            PrivateOutput::Finish(error) => PrivateOutputView::Finish(error@),
        }
    }
}

/// What is done about the result of a message.
pub open spec fn published(result: Result<Seq<LiveEventView>, PrivateErrorView>) -> PrivateOutputView {
    match result {
        Ok(events) => PrivateOutputView::Publish(events),
        Err(error) => PrivateOutputView::Finish(error),
    }
}

/// What is to be done about an input other than a message.
pub open spec fn plain_answer(input: PrivateInput) -> Option<PrivateOutputView> {
    match input {
        PrivateInput::Tick => Some(PrivateOutputView::Send(ping())),
        PrivateInput::Text(_) => None,
        PrivateInput::Ping => Some(PrivateOutputView::Pong),
        PrivateInput::Closed => Some(
            PrivateOutputView::Finish(
                PrivateErrorView::WebSocket(WebSocketErrorView::ConnectionInterrupted),
            ),
        ),
        PrivateInput::Ignored => Some(PrivateOutputView::Publish(Seq::empty())),
        PrivateInput::Failed(error) => Some(
            PrivateOutputView::Finish(
                PrivateErrorView::WebSocket(WebSocketErrorView::Tungstenite(error@)),
            ),
        ),
    }
}

/// What a stream of private messages does at each turn.
#[derive(Debug)]
pub struct PrivateStream {
    account: String,
}

impl PrivateStream {
    /// The account.
    pub closed spec fn owner(self) -> Seq<char> {
        self.account@
    }

    /// A stream for the account.
    pub fn new(account: String) -> (r: Self)
        ensures
            r.owner() == account@,
    {
        PrivateStream { account }
    }

    /// The requests to send once the socket is open.
    pub fn start(&self) -> (r: Vec<Json>)
        ensures
            r.deep_view() == private_requests(self.owner()),
            forall|i: int| 0 <= i < r.len() ==> canonical((#[trigger] r@[i])@),
    {
        private_subscriptions(self.account.as_str())
    }

    /// What is to be done about an input.
    pub fn step<F: Fn(Order, Option<Binary64>, Option<Binary64>) -> FillNumbers + Copy>(
        &self,
        order_manager: &mut OrderManager,
        account_state: &mut AccountState,
        symbols: &SymbolSet,
        input: PrivateInput,
        fill: F,
    ) -> (r: PrivateOutput)
        requires
            input matches PrivateInput::Text(message) ==> message.times_fit(
                old(account_state)@,
                symbols@,
            ),
            computes_fills(fill),
        ensures
            match input {
                PrivateInput::Text(message) => exists|
                    result: Result<Seq<LiveEventView>, PrivateErrorView>,
                | #[trigger]
                    message.taken_in(
                        fill,
                        old(order_manager)@,
                        old(account_state)@,
                        symbols@,
                        final(order_manager)@,
                        final(account_state)@,
                        result,
                    ) && r@ == published(result),
                _ => final(order_manager)@ == old(order_manager)@ && final(account_state)@ == old(
                    account_state,
                )@ && Some(r@) == plain_answer(input),
            },
            r matches PrivateOutput::Send(request) ==> canonical(request@),
    {
        match input {
            PrivateInput::Tick => PrivateOutput::Send(ping_payload()),
            PrivateInput::Text(message) => {
                let result = handle_text(order_manager, account_state, symbols, &message, fill);
                assert(message.taken_in(
                    fill,
                    old(order_manager)@,
                    old(account_state)@,
                    symbols@,
                    order_manager@,
                    account_state@,
                    outcome(result),
                ));
                match result {
                    Ok(events) => PrivateOutput::Publish(events),
                    Err(error) => PrivateOutput::Finish(error),
                }
            },
            PrivateInput::Ping => PrivateOutput::Pong,
            PrivateInput::Closed => PrivateOutput::Finish(
                PrivateStreamError::WebSocket(WebSocketError::ConnectionInterrupted),
            ),
            PrivateInput::Ignored => {
                let events: Vec<LiveEvent> = Vec::new();
                assert(events.deep_view() =~= Seq::<LiveEventView>::empty());
                PrivateOutput::Publish(events)
            },
            PrivateInput::Failed(error) => PrivateOutput::Finish(
                PrivateStreamError::WebSocket(WebSocketError::Tungstenite(error)),
            ),
        }
    }
}

/// Why the stream ends where a request could not be sent.
pub fn send_failed(error: String) -> (r: PrivateStreamError)
    ensures
        r@ == PrivateErrorView::Tungstenite(error@),
{
    PrivateStreamError::Tungstenite(error)
}

/// Why the stream ends where the socket could not be opened.
pub fn connect_failed(error: String) -> (r: PrivateStreamError)
    ensures
        r@ == PrivateErrorView::WebSocket(WebSocketErrorView::Tungstenite(error@)),
{
    PrivateStreamError::WebSocket(WebSocketError::Tungstenite(error))
}

/// Whatever numbers a fill has, taking in reports keeps the book consistent.
pub proof fn reports_keep_the_book_consistent<
    F: Fn(Order, Option<Binary64>, Option<Binary64>) -> FillNumbers,
>(
    fill: F,
    before: ManagerView,
    updates: Seq<UpdateView>,
    n: int,
    after: ManagerView,
    events: Seq<LiveEventView>,
)
    requires
        before.consistent(),
        took_in_all(fill, before, updates, n, after, events),
    ensures
        after.consistent(),
    decreases n,
{
    if n > 0 {
        let (between, earlier) = choose|between: ManagerView, earlier: Seq<LiveEventView>|
            took_in_all(fill, before, updates, n - 1, between, earlier) && #[trigger] took_in_next(
                fill,
                between,
                earlier,
                updates[n - 1],
                after,
                events,
            );
        reports_keep_the_book_consistent(fill, before, updates, n - 1, between, earlier);
        let event = choose|event: Option<LiveEventView>| #[trigger]
            took_in(fill, between, updates[n - 1], after, event) && events == with_event(
                earlier,
                event,
            );
        let update = updates[n - 1];
        if between.update_target(update) is Ok {
            let id = between.update_target(update)->Ok_0;
            let numbers = choose|numbers: FillNumbers| #[trigger]
                call_ensures(
                    fill,
                    (between.orders[id].order, update.exec_qty, update.exec_price),
                    numbers,
                ) && after == between.with_update(id, update, numbers) && event == Some(
                    LiveEventView::Order {
                        symbol: between.updated_order(id, update, numbers).symbol,
                        order: between.updated_order(id, update, numbers).order,
                    },
                );
            update_keeps_consistency(between, update, numbers);
        }
    }
}

/// A message that is out of date changes nothing and gives no events.
pub proof fn stale_messages_change_nothing<
    F: Fn(Order, Option<Binary64>, Option<Binary64>) -> FillNumbers,
>(
    message: PrivateMessage,
    fill: F,
    manager: ManagerView,
    state: AccountView,
    symbols: Seq<Seq<char>>,
    manager_after: ManagerView,
    state_after: AccountView,
    result: Result<Seq<LiveEventView>, PrivateErrorView>,
)
    requires
        json_of_text(message.text@) is Ok,
        !fresh(state, message.text@),
        message.belongs_to("account_order_updates"@) || message.belongs_to("account_trades"@),
        message.taken_in(
            fill,
            manager,
            state,
            symbols,
            manager_after,
            state_after,
            result,
        ),
    ensures
        manager_after == manager,
        state_after == state,
        result == Ok::<Seq<LiveEventView>, PrivateErrorView>(Seq::empty()),
{
}

/// A report about no order of the book gives no event and leaves the book as it is.
pub proof fn foreign_reports_are_passed_over<
    F: Fn(Order, Option<Binary64>, Option<Binary64>) -> FillNumbers,
>(
    fill: F,
    before: ManagerView,
    update: UpdateView,
    after: ManagerView,
    event: Option<LiveEventView>,
)
    requires
        before.update_target(update) is Err,
        took_in(fill, before, update, after, event),
    ensures
        after == before,
        event is None,
{
}

/// The price in ticks that `fill` gives depends on the fill and on the tick size of the order
/// alone.
pub open spec fn ticks_by_size<F: Fn(Order, Option<Binary64>, Option<Binary64>) -> FillNumbers>(
    fill: F,
) -> bool {
    forall|
        a: Order,
        b: Order,
        qty: Option<Binary64>,
        price: Option<Binary64>,
        m: FillNumbers,
        n: FillNumbers,
    |
        #![trigger call_ensures(fill, (a, qty, price), m), call_ensures(fill, (b, qty, price), n)]
        call_ensures(fill, (a, qty, price), m) && call_ensures(fill, (b, qty, price), n)
            && a.tick_size == b.tick_size ==> m.exec_price_tick == n.exec_price_tick
}

/// A report that gives the quantity left, of an order that stays in the market, can be taken in
/// twice: the second time the book stays as it is, and the event is the same.
pub proof fn repeated_reports_change_nothing<
    F: Fn(Order, Option<Binary64>, Option<Binary64>) -> FillNumbers,
>(
    fill: F,
    before: ManagerView,
    update: UpdateView,
    between: ManagerView,
    first: Option<LiveEventView>,
    after: ManagerView,
    second: Option<LiveEventView>,
)
    requires
        ticks_by_size(fill),
        before.update_target(update) is Ok,
        update.client_order_id is Some || update.exchange_order_id is Some,
        update.leaves_qty is Some,
        update.status == PacificaOrderStatus::Open || update.status
            == PacificaOrderStatus::PartiallyFilled,
        took_in(fill, before, update, between, first),
        took_in(fill, between, update, after, second),
    ensures
        after == between,
        second == first,
        first is Some,
{
    let id = before.update_target(update)->Ok_0;
    let m = choose|m: FillNumbers| #[trigger]
        call_ensures(fill, (before.orders[id].order, update.exec_qty, update.exec_price), m)
            && between == before.with_update(id, update, m) && first == Some(
            LiveEventView::Order {
                symbol: before.updated_order(id, update, m).symbol,
                order: before.updated_order(id, update, m).order,
            },
        );
    repeated_totals_change_nothing(before, update, m, m);
    let n = choose|n: FillNumbers| #[trigger]
        call_ensures(fill, (between.orders[id].order, update.exec_qty, update.exec_price), n)
            && after == between.with_update(id, update, n) && second == Some(
            LiveEventView::Order {
                symbol: between.updated_order(id, update, n).symbol,
                order: between.updated_order(id, update, n).order,
            },
        );
    assert(between.orders[id] == before.updated_order(id, update, m));
    repeated_totals_change_nothing(before, update, m, n);
}

} // verus!
