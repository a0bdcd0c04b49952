//! Orders, feed events and the events that a bot receives.

use crate::binary64::Binary64;
use vstd::prelude::*;

verus! {

/// The side of an order.
#[derive(Clone, Copy, Debug, PartialEq, Eq, Structural)]
pub enum Side {
    Buy,
    Sell,
    Unset,
    Unsupported,
}

/// The state of an order, or the request that is under way for it.
#[derive(Clone, Copy, Debug, PartialEq, Eq, Structural)]
pub enum Status {
    Unset,
    New,
    Expired,
    Filled,
    Canceled,
    PartiallyFilled,
    Rejected,
    Replaced,
    Unsupported,
}

/// How long an order stays in the book.
#[derive(Clone, Copy, Debug, PartialEq, Eq, Structural)]
pub enum TimeInForce {
    GTC,
    GTX,
    FOK,
    IOC,
    Unsupported,
}

/// How an order is priced.
#[derive(Clone, Copy, Debug, PartialEq, Eq, Structural)]
pub enum OrdType {
    Limit,
    Market,
    Unsupported,
}

/// The number by which a bot knows its order.
pub type OrderId = u64;

/// An order of a bot.
#[derive(Clone, Copy, Debug, PartialEq, Eq, Structural)]
pub struct Order {
    pub qty: Binary64,
    pub leaves_qty: Binary64,
    pub exec_qty: Binary64,
    pub exec_price_tick: i64,
    pub price_tick: i64,
    pub tick_size: Binary64,
    pub exch_timestamp: i64,
    pub local_timestamp: i64,
    pub order_id: OrderId,
    pub maker: bool,
    pub order_type: OrdType,
    pub req: Status,
    pub status: Status,
    pub side: Side,
    pub time_in_force: TimeInForce,
}

impl DeepView for Order {
    type V = Order;

    open spec fn deep_view(&self) -> Order {
        *self
    }
}

impl Order {
    /// An order that has been sent nowhere yet.
    pub fn new(
        order_id: OrderId,
        price_tick: i64,
        tick_size: Binary64,
        qty: Binary64,
        side: Side,
        order_type: OrdType,
        time_in_force: TimeInForce,
    ) -> (r: Order)
        ensures
            r == (Order {
                qty,
                leaves_qty: qty,
                exec_qty: Binary64 { bits: 0 },
                exec_price_tick: 0,
                price_tick,
                tick_size,
                exch_timestamp: 0,
                local_timestamp: 0,
                order_id,
                maker: false,
                order_type,
                req: Status::Unset,
                status: Status::Unset,
                side,
                time_in_force,
            }),
    {
        Order {
            qty,
            leaves_qty: qty,
            exec_qty: Binary64::zero(),
            exec_price_tick: 0,
            price_tick,
            tick_size,
            exch_timestamp: 0,
            local_timestamp: 0,
            order_id,
            maker: false,
            order_type,
            req: Status::Unset,
            status: Status::Unset,
            side,
            time_in_force,
        }
    }

    /// The order is in the market.
    pub open spec fn is_active(self) -> bool {
        self.status == Status::New || self.status == Status::PartiallyFilled
    }

    /// Whether the order is in the market.
    pub fn active(&self) -> (r: bool)
        ensures
            r == self.is_active(),
    {
        self.status == Status::New || self.status == Status::PartiallyFilled
    }
}

/// A change of the bid side of the book.
pub const LOCAL_BID_DEPTH_EVENT: u64 = 0x6000_0001;

/// A change of the ask side of the book.
pub const LOCAL_ASK_DEPTH_EVENT: u64 = 0x5000_0001;

/// A level of the bid side in a picture of the whole book.
pub const LOCAL_BID_DEPTH_SNAPSHOT_EVENT: u64 = 0x6000_0004;

/// A level of the ask side in a picture of the whole book.
pub const LOCAL_ASK_DEPTH_SNAPSHOT_EVENT: u64 = 0x5000_0004;

/// A change of the best bid.
pub const LOCAL_BID_DEPTH_BBO_EVENT: u64 = 0x6000_0005;

/// A change of the best ask.
pub const LOCAL_ASK_DEPTH_BBO_EVENT: u64 = 0x5000_0005;

/// A trade that a buyer started.
pub const LOCAL_BUY_TRADE_EVENT: u64 = 0x6000_0002;

/// A trade that a seller started.
pub const LOCAL_SELL_TRADE_EVENT: u64 = 0x5000_0002;

/// An event of the market data feed.
#[derive(Clone, Copy, Debug, PartialEq, Eq, Structural)]
pub struct Event {
    pub ev: u64,
    pub exch_ts: i64,
    pub local_ts: i64,
    pub px: Binary64,
    pub qty: Binary64,
    pub order_id: u64,
    pub ival: i64,
    pub fval: Binary64,
}

/// The feed event with those fields, and nothing in the others.
pub open spec fn feed_event(
    ev: u64,
    exch_ts: i64,
    local_ts: i64,
    px: Binary64,
    qty: Binary64,
    ival: i64,
) -> Event {
    Event { ev, exch_ts, local_ts, px, qty, order_id: 0, ival, fval: Binary64 { bits: 0 } }
}

/// Makes a feed event.
pub fn event(
    ev: u64,
    exch_ts: i64,
    local_ts: i64,
    px: Binary64,
    qty: Binary64,
    ival: i64,
) -> (r: Event)
    ensures
        r == feed_event(ev, exch_ts, local_ts, px, qty, ival),
{
    Event { ev, exch_ts, local_ts, px, qty, order_id: 0, ival, fval: Binary64::zero() }
}

/// The kind of a failure that a bot hears of.
#[derive(Clone, Copy, Debug, PartialEq, Eq, Structural)]
pub enum ErrorKind {
    ConnectionInterrupted,
    OrderError,
}

/// The details of a failure: a text, or a text under a name.
#[derive(Debug)]
pub enum ErrorDetail {
    Text(String),
    Entry { name: String, text: String },
}

/// What a [`ErrorDetail`] says.
pub enum DetailView {
    Text(Seq<char>),
    Entry { name: Seq<char>, text: Seq<char> },
}

impl View for ErrorDetail {
    type V = DetailView;

    open spec fn view(&self) -> DetailView {
        match *self {
            ErrorDetail::Text(text) => DetailView::Text(text@),
            ErrorDetail::Entry { name, text } => DetailView::Entry { name: name@, text: text@ },
        }
    }
}

/// What a bot receives.
#[derive(Debug)]
pub enum LiveEvent {
    Feed { symbol: String, event: Event },
    Order { symbol: String, order: Order },
    Position { symbol: String, qty: Binary64, exch_ts: i64 },
    Error { kind: ErrorKind, value: ErrorDetail },
}

/// What a [`LiveEvent`] says.
pub enum LiveEventView {
    Feed { symbol: Seq<char>, event: Event },
    Order { symbol: Seq<char>, order: Order },
    Position { symbol: Seq<char>, qty: Binary64, exch_ts: i64 },
    Error { kind: ErrorKind, value: DetailView },
}

impl View for LiveEvent {
    type V = LiveEventView;

    open spec fn view(&self) -> LiveEventView {
        match *self {
            LiveEvent::Feed { symbol, event } => LiveEventView::Feed { symbol: symbol@, event },
            LiveEvent::Order { symbol, order } => LiveEventView::Order { symbol: symbol@, order },
            LiveEvent::Position { symbol, qty, exch_ts } => LiveEventView::Position {
                symbol: symbol@,
                qty,
                exch_ts,
            },
            LiveEvent::Error { kind, value } => LiveEventView::Error { kind, value: value@ },
        }
    }
}

impl DeepView for LiveEvent {
    type V = LiveEventView;

    open spec fn deep_view(&self) -> LiveEventView {
        self@
    }
}

/// How many nanoseconds a millisecond has.
pub const NANOS_PER_MILLI: i64 = 1_000_000;

/// The time in nanoseconds still fits.
pub open spec fn fits_in_nanos(timestamp_ms: i64) -> bool {
    i64::MIN <= timestamp_ms * NANOS_PER_MILLI <= i64::MAX
}

/// Whether the time in nanoseconds still fits.
pub fn fits(timestamp_ms: i64) -> (r: bool)
    ensures
        r == fits_in_nanos(timestamp_ms),
{
    timestamp_ms.checked_mul(NANOS_PER_MILLI).is_some()
}

/// The same time in nanoseconds.
pub open spec fn nanos(timestamp_ms: i64) -> i64 {
    (timestamp_ms * NANOS_PER_MILLI) as i64
}

/// The same time in nanoseconds.
pub fn ms_to_ns(timestamp_ms: i64) -> (r: i64)
    requires
        fits_in_nanos(timestamp_ms),
    ensures
        r == nanos(timestamp_ms),
        r == timestamp_ms * NANOS_PER_MILLI,
{
    timestamp_ms * NANOS_PER_MILLI
}

} // verus!
