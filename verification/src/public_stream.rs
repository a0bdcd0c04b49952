//! The market data feed: from messages of the public channels to feed events.

use crate::binary64::{
    number_fault_message, number_fault_words, number_in, read_number, NumberFault, NumberFaultView,
};
use crate::clock::now_nanos;
use crate::json::{canonical, Json, JsonView};
use crate::msg::{
    Bbo, BboFrame, BboView, BookFrame, BookLevel, BookLevelView, BookView, ChannelFrame, Trade,
    TradeView, TradesFrame,
};
use crate::symbols::SymbolSet;
use crate::text::{outcome, text_eq};
use crate::types::{
    event, feed_event, fits, fits_in_nanos, ms_to_ns, nanos, Event, LiveEvent, LiveEventView,
    LOCAL_ASK_DEPTH_BBO_EVENT, LOCAL_ASK_DEPTH_EVENT, LOCAL_BID_DEPTH_BBO_EVENT,
    LOCAL_BID_DEPTH_EVENT, LOCAL_BUY_TRADE_EVENT, LOCAL_SELL_TRADE_EVENT,
};
use crate::websocket::{
    ping, ping_payload, public_requests, public_subscriptions, WebSocketError, WebSocketErrorView,
};
use vstd::prelude::*;
use vstd::string::StringExecFns;

verus! {

/// Why the public stream ends.
#[derive(Debug)]
pub enum PublicStreamError {
    Json(String),
    InvalidNumber { field: &'static str, value: String },
    MissingBookSide,
    UnsupportedTradeDirection(String),
    UnsupportedChannel(String),
    WebSocket(WebSocketError),
    Tungstenite(String),
}

/// What a [`PublicStreamError`] says.
pub enum PublicErrorView {
    Json(Seq<char>),
    InvalidNumber { field: Seq<char>, value: Seq<char> },
    MissingBookSide,
    UnsupportedTradeDirection(Seq<char>),
    UnsupportedChannel(Seq<char>),
    WebSocket(WebSocketErrorView),
    Tungstenite(Seq<char>),
}

impl View for PublicStreamError {
    type V = PublicErrorView;

    open spec fn view(&self) -> PublicErrorView {
        match *self {
            PublicStreamError::Json(error) => PublicErrorView::Json(error@),
            PublicStreamError::InvalidNumber { field, value } => PublicErrorView::InvalidNumber {
                field: field@,
                value: value@,
            },
            PublicStreamError::MissingBookSide => PublicErrorView::MissingBookSide,
            PublicStreamError::UnsupportedTradeDirection(direction) =>
                PublicErrorView::UnsupportedTradeDirection(direction@),
            PublicStreamError::UnsupportedChannel(channel) => PublicErrorView::UnsupportedChannel(
                channel@,
            ),
            PublicStreamError::WebSocket(error) => PublicErrorView::WebSocket(error@),
            PublicStreamError::Tungstenite(error) => PublicErrorView::Tungstenite(error@),
        }
    }
}

impl PublicErrorView {
    /// The words for the error.
    pub open spec fn words(self) -> Seq<char> {
        match self {
            PublicErrorView::Json(error) => "json: "@ + error,
            PublicErrorView::InvalidNumber { field, value } => number_fault_words(field, value),
            PublicErrorView::MissingBookSide =>
                "book frame must include bid and ask level arrays"@,
            PublicErrorView::UnsupportedTradeDirection(direction) =>
                "unsupported trade direction: "@ + direction,
            PublicErrorView::UnsupportedChannel(channel) => "unsupported public channel: "@
                + channel,
            PublicErrorView::WebSocket(error) => "websocket: "@ + error.words(),
            PublicErrorView::Tungstenite(error) => "tungstenite: "@ + error,
        }
    }
}

impl PublicStreamError {
    /// The words for the error.
    pub fn message(&self) -> (r: String)
        ensures
            r@ == self@.words(),
    {
        match self {
            PublicStreamError::Json(error) => "json: ".to_string().concat(error.as_str()),
            PublicStreamError::InvalidNumber { field, value } => number_fault_message(
                field,
                value.as_str(),
            ),
            PublicStreamError::MissingBookSide =>
                "book frame must include bid and ask level arrays".to_string(),
            PublicStreamError::UnsupportedTradeDirection(direction) =>
                "unsupported trade direction: ".to_string().concat(direction.as_str()),
            PublicStreamError::UnsupportedChannel(channel) =>
                "unsupported public channel: ".to_string().concat(channel.as_str()),
            PublicStreamError::WebSocket(error) => "websocket: ".to_string().concat(
                error.message().as_str(),
            ),
            PublicStreamError::Tungstenite(error) => "tungstenite: ".to_string().concat(
                error.as_str(),
            ),
        }
    }
}

/// An event of the feed of a symbol.
#[derive(Debug, PartialEq)]
pub struct FeedEvent {
    pub symbol: String,
    pub event: Event,
}

/// What a [`FeedEvent`] says.
pub struct FeedEventView {
    pub symbol: Seq<char>,
    pub event: Event,
}

impl DeepView for FeedEvent {
    type V = FeedEventView;

    open spec fn deep_view(&self) -> FeedEventView {
        FeedEventView { symbol: self.symbol@, event: self.event }
    }
}

/// When something happened, and its increment.
#[derive(Clone, Copy, Debug, PartialEq, Eq, Structural)]
pub struct FeedStamp {
    pub exch_ts: i64,
    pub local_ts: i64,
    pub ival: i64,
}

/// The kind of event that the levels of one side give, and the names of their fields.
#[derive(Clone, Copy, Debug)]
pub struct LevelKind {
    pub ev: u64,
    pub px_field: &'static str,
    pub qty_field: &'static str,
}

/// The number zero, where there is none.
pub open spec fn or_zero(n: Option<i64>) -> i64 {
    match n {
        Some(n) => n,
        None => 0,
    }
}

/// The number zero, where there is none.
pub fn unwrap_or_zero(n: Option<i64>) -> (r: i64)
    ensures
        r == or_zero(n),
{
    match n {
        Some(n) => n,
        None => 0,
    }
}

/// A price and a quantity as an event, unless one of them is no number. The price is looked at
/// first.
pub open spec fn priced_event(
    symbol: Seq<char>,
    kind: LevelKind,
    stamp: FeedStamp,
    level: BookLevelView,
) -> Result<FeedEventView, NumberFaultView> {
    match (number_in(kind.px_field@, level.price), number_in(kind.qty_field@, level.amount)) {
        (Err(fault), _) => Err(fault),
        (_, Err(fault)) => Err(fault),
        (Ok(px), Ok(qty)) => Ok(
            FeedEventView {
                symbol,
                event: feed_event(kind.ev, stamp.exch_ts, stamp.local_ts, px, qty, stamp.ival),
            },
        ),
    }
}

/// The first `n` levels of a side as events, or the first fault in them.
pub open spec fn level_events(
    symbol: Seq<char>,
    kind: LevelKind,
    stamp: FeedStamp,
    levels: Seq<BookLevelView>,
    n: int,
) -> Result<Seq<FeedEventView>, NumberFaultView>
    decreases n,
{
    if n <= 0 {
        Ok(Seq::empty())
    } else {
        match level_events(symbol, kind, stamp, levels, n - 1) {
            Err(fault) => Err(fault),
            Ok(events) => match priced_event(symbol, kind, stamp, levels[n - 1]) {
                Err(fault) => Err(fault),
                Ok(last) => Ok(events.push(last)),
            },
        }
    }
}

/// The bid levels, then the ask levels, as events.
pub open spec fn book_events(
    symbol: Seq<char>,
    bid: LevelKind,
    ask: LevelKind,
    stamp: FeedStamp,
    levels: Seq<Seq<BookLevelView>>,
) -> Result<Seq<FeedEventView>, NumberFaultView> {
    match level_events(symbol, bid, stamp, levels[0], levels[0].len() as int) {
        Err(fault) => Err(fault),
        Ok(bids) => match level_events(symbol, ask, stamp, levels[1], levels[1].len() as int) {
            Err(fault) => Err(fault),
            Ok(asks) => Ok(bids + asks),
        },
    }
}

proof fn lemma_fault_stays(
    symbol: Seq<char>,
    kind: LevelKind,
    stamp: FeedStamp,
    levels: Seq<BookLevelView>,
    n: int,
    m: int,
)
    requires
        0 <= n <= m,
        level_events(symbol, kind, stamp, levels, n) is Err,
    ensures
        level_events(symbol, kind, stamp, levels, m) == level_events(
            symbol,
            kind,
            stamp,
            levels,
            n,
        ),
    decreases m,
{
    if n < m {
        lemma_fault_stays(symbol, kind, stamp, levels, n, m - 1);
    }
}

/// A price and a quantity as an event.
fn price_event(
    symbol: &String,
    kind: LevelKind,
    stamp: FeedStamp,
    level: &BookLevel,
) -> (r: Result<FeedEvent, NumberFault>)
    ensures
        outcome(r) == priced_event(symbol@, kind, stamp, level.deep_view()),
{
    let px = match read_number(kind.px_field, &level.price) {
        Ok(px) => px,
        Err(fault) => {
            return Err(fault);
        },
    };
    let qty = match read_number(kind.qty_field, &level.amount) {
        Ok(qty) => qty,
        Err(fault) => {
            return Err(fault);
        },
    };
    Ok(
        FeedEvent {
            symbol: symbol.clone(),
            event: event(kind.ev, stamp.exch_ts, stamp.local_ts, px, qty, stamp.ival),
        },
    )
}

/// Adds the levels of a side.
fn push_levels(
    events: &mut Vec<FeedEvent>,
    symbol: &String,
    kind: LevelKind,
    stamp: FeedStamp,
    levels: &Vec<BookLevel>,
) -> (r: Result<(), NumberFault>)
    ensures
        match (
            level_events(symbol@, kind, stamp, levels.deep_view(), levels.len() as int),
            outcome(r),
        ) {
            (Ok(added), Ok(_)) => final(events).deep_view() == old(events).deep_view() + added,
            (Err(fault), Err(said)) => fault == said,
            _ => false,
        },
{
    let ghost before = events.deep_view();
    let ghost all = levels.deep_view();
    let mut i: usize = 0;
    assert(before + Seq::<FeedEventView>::empty() =~= before);
    while i < levels.len()
        invariant
            i <= levels.len(),
            all == levels.deep_view(),
            before == old(events).deep_view(),
            level_events(symbol@, kind, stamp, all, i as int) matches Ok(added)
                && events.deep_view() == before + added,
        decreases levels.len() - i,
    {
        let ghost said = events.deep_view();
        let ghost added = level_events(symbol@, kind, stamp, all, i as int)->Ok_0;
        assert(all[i as int] == levels@[i as int].deep_view());
        match price_event(symbol, kind, stamp, &levels[i]) {
            Ok(last) => {
                let ghost last_view = last.deep_view();
                events.push(last);
                assert(events.deep_view() =~= said.push(last_view));
                assert(said.push(last_view) =~= before + added.push(last_view));
            },
            Err(fault) => {
                proof {
                    lemma_fault_stays(symbol@, kind, stamp, all, i as int + 1, all.len() as int);
                }
                return Err(fault);
            },
        }
        i = i + 1;
    }
    Ok(())
}

/// The bid levels, then the ask levels, as events.
pub fn map_levels(
    symbol: &String,
    bid: LevelKind,
    ask: LevelKind,
    stamp: FeedStamp,
    levels: &Vec<Vec<BookLevel>>,
) -> (r: Result<Vec<FeedEvent>, NumberFault>)
    requires
        levels.len() >= 2,
    ensures
        outcome(r) == book_events(symbol@, bid, ask, stamp, levels.deep_view()),
{
    let ghost all = levels.deep_view();
    assert(all[0] == levels@[0].deep_view());
    assert(all[1] == levels@[1].deep_view());
    let mut events: Vec<FeedEvent> = Vec::new();
    assert(events.deep_view() =~= Seq::<FeedEventView>::empty());
    match push_levels(&mut events, symbol, bid, stamp, &levels[0]) {
        Ok(_) => {},
        Err(fault) => {
            return Err(fault);
        },
    }
    let ghost bids = level_events(symbol@, bid, stamp, all[0], all[0].len() as int)->Ok_0;
    assert(Seq::<FeedEventView>::empty() + bids =~= bids);
    match push_levels(&mut events, symbol, ask, stamp, &levels[1]) {
        Ok(_) => {},
        Err(fault) => {
            return Err(fault);
        },
    }
    Ok(events)
}

/// A fault in a number, as an error of the public stream.
pub open spec fn public_fault(fault: NumberFaultView) -> PublicErrorView {
    PublicErrorView::InvalidNumber { field: fault.field, value: fault.value }
}

/// A fault in a number, as an error of the public stream.
fn public_error(fault: NumberFault) -> (r: PublicStreamError)
    ensures
        r@ == public_fault(fault@),
{
    PublicStreamError::InvalidNumber { field: fault.field, value: fault.value }
}

/// The best bid.
pub open spec fn best_bid_kind() -> LevelKind {
    LevelKind { ev: LOCAL_BID_DEPTH_BBO_EVENT, px_field: "bid_px", qty_field: "bid_qty" }
}

/// The best ask.
pub open spec fn best_ask_kind() -> LevelKind {
    LevelKind { ev: LOCAL_ASK_DEPTH_BBO_EVENT, px_field: "ask_px", qty_field: "ask_qty" }
}

/// Levels of the bid side.
pub open spec fn bid_kind() -> LevelKind {
    LevelKind { ev: LOCAL_BID_DEPTH_EVENT, px_field: "bid_px", qty_field: "bid_qty" }
}

/// Levels of the ask side.
pub open spec fn ask_kind() -> LevelKind {
    LevelKind { ev: LOCAL_ASK_DEPTH_EVENT, px_field: "ask_px", qty_field: "ask_qty" }
}

/// The best prices as events: the bid, then the ask.
pub open spec fn bbo_feed(data: BboView, local_ts_ns: i64) -> Result<
    Seq<FeedEventView>,
    PublicErrorView,
> {
    let stamp = FeedStamp {
        exch_ts: nanos(data.timestamp_ms),
        local_ts: local_ts_ns,
        ival: or_zero(data.last_increment_id),
    };
    let bid = BookLevelView { price: data.bid_px, amount: data.bid_qty };
    let ask = BookLevelView { price: data.ask_px, amount: data.ask_qty };
    match (
        priced_event(data.symbol, best_bid_kind(), stamp, bid),
        priced_event(data.symbol, best_ask_kind(), stamp, ask),
    ) {
        (Err(fault), _) => Err(public_fault(fault)),
        (_, Err(fault)) => Err(public_fault(fault)),
        (Ok(bid), Ok(ask)) => Ok(seq![bid, ask]),
    }
}

/// The book as events.
pub open spec fn book_feed(data: BookView, local_ts_ns: i64) -> Result<
    Seq<FeedEventView>,
    PublicErrorView,
> {
    if data.levels.len() < 2 {
        Err(PublicErrorView::MissingBookSide)
    } else {
        let stamp = FeedStamp {
            exch_ts: nanos(data.timestamp_ms),
            local_ts: local_ts_ns,
            ival: or_zero(data.last_increment_id),
        };
        match book_events(data.symbol, bid_kind(), ask_kind(), stamp, data.levels) {
            Err(fault) => Err(public_fault(fault)),
            Ok(events) => Ok(events),
        }
    }
}

/// Which side started a trade, by the words of the exchange.
pub open spec fn trade_event_kind(direction: Seq<char>) -> Option<u64> {
    if direction == "open_long"@ || direction == "close_short"@ || direction == "buy"@ || direction
        == "bid"@ {
        Some(LOCAL_BUY_TRADE_EVENT)
    } else if direction == "open_short"@ || direction == "close_long"@ || direction == "sell"@
        || direction == "ask"@ {
        Some(LOCAL_SELL_TRADE_EVENT)
    } else {
        None
    }
}

/// A trade as an event.
pub open spec fn trade_feed(trade: TradeView, local_ts_ns: i64) -> Result<
    FeedEventView,
    PublicErrorView,
> {
    match trade_event_kind(trade.direction) {
        None => Err(PublicErrorView::UnsupportedTradeDirection(trade.direction)),
        Some(ev) => {
            let kind = LevelKind { ev, px_field: "trade_px", qty_field: "trade_qty" };
            let stamp = FeedStamp {
                exch_ts: nanos(trade.timestamp_ms),
                local_ts: local_ts_ns,
                ival: or_zero(trade.last_increment_id),
            };
            let level = BookLevelView { price: trade.price, amount: trade.amount };
            match priced_event(trade.symbol, kind, stamp, level) {
                Err(fault) => Err(public_fault(fault)),
                Ok(event) => Ok(event),
            }
        },
    }
}

/// The first `n` trades as events, or the first error in them.
pub open spec fn trades_feed(data: Seq<TradeView>, local_ts_ns: i64, n: int) -> Result<
    Seq<FeedEventView>,
    PublicErrorView,
>
    decreases n,
{
    if n <= 0 {
        Ok(Seq::empty())
    } else {
        match trades_feed(data, local_ts_ns, n - 1) {
            Err(error) => Err(error),
            Ok(events) => match trade_feed(data[n - 1], local_ts_ns) {
                Err(error) => Err(error),
                Ok(event) => Ok(events.push(event)),
            },
        }
    }
}

proof fn lemma_trade_error_stays(data: Seq<TradeView>, local_ts_ns: i64, n: int, m: int)
    requires
        0 <= n <= m,
        trades_feed(data, local_ts_ns, n) is Err,
    ensures
        trades_feed(data, local_ts_ns, m) == trades_feed(data, local_ts_ns, n),
    decreases m,
{
    if n < m {
        lemma_trade_error_stays(data, local_ts_ns, n, m - 1);
    }
}

/// A message of the public socket, read for every channel that it may belong to.
#[derive(Debug)]
pub struct PublicMessage {
    pub channel: Result<ChannelFrame, String>,
    pub bbo: Result<BboFrame, String>,
    pub book: Result<BookFrame, String>,
    pub trades: Result<TradesFrame, String>,
}

impl PublicMessage {
    /// The message belongs to the channel.
    pub open spec fn belongs_to(self, channel: Seq<char>) -> bool {
        self.channel matches Ok(frame) && frame.channel@ == channel
    }

    /// The feed events that the message gives. Other channels give none.
    pub open spec fn feed(self, local_ts_ns: i64) -> Result<Seq<FeedEventView>, PublicErrorView> {
        if self.channel is Err {
            Err(PublicErrorView::Json((self.channel->Err_0)@))
        } else if self.belongs_to("bbo"@) {
            match self.bbo {
                Ok(frame) => bbo_feed(frame.data@, local_ts_ns),
                Err(error) => Err(PublicErrorView::Json(error@)),
            }
        } else if self.belongs_to("book"@) {
            match self.book {
                Ok(frame) => book_feed(frame.data@, local_ts_ns),
                Err(error) => Err(PublicErrorView::Json(error@)),
            }
        } else if self.belongs_to("trades"@) {
            match self.trades {
                Ok(frame) => trades_feed(
                    frame.data.deep_view(),
                    local_ts_ns,
                    frame.data.len() as int,
                ),
                Err(error) => Err(PublicErrorView::Json(error@)),
            }
        } else {
            Ok(Seq::empty())
        }
    }

    /// The times in the message can be written in nanoseconds, as far as they are looked at.
    pub open spec fn times_fit(self) -> bool {
        &&& self.belongs_to("bbo"@) && self.bbo is Ok ==> fits_in_nanos(
            self.bbo->Ok_0.data.timestamp_ms,
        )
        &&& self.belongs_to("book"@) && self.book is Ok && self.book->Ok_0.data.levels.len() >= 2
            ==> fits_in_nanos(self.book->Ok_0.data.timestamp_ms)
        &&& self.belongs_to("trades"@) && self.trades is Ok ==> trade_times_fit(
            self.trades->Ok_0.data.deep_view(),
        )
    }
}

/// The times of the trades that are looked at can be written in nanoseconds.
pub open spec fn trade_times_fit(data: Seq<TradeView>) -> bool {
    forall|i: int|
        0 <= i < data.len() && trade_event_kind((#[trigger] data[i]).direction) is Some
            && trades_feed(data, 0, i) is Ok ==> fits_in_nanos(data[i].timestamp_ms)
}

/// Whether an error is found in a trade does not depend on the time at which it came.
proof fn lemma_errors_do_not_depend_on_time(data: Seq<TradeView>, a: i64, b: i64, n: int)
    ensures
        trades_feed(data, a, n) is Ok == trades_feed(data, b, n) is Ok,
    decreases n,
{
    if n > 0 {
        lemma_errors_do_not_depend_on_time(data, a, b, n - 1);
    }
}

/// Whether the times of the trades that are looked at can be written in nanoseconds.
fn trades_fit(data: &Vec<Trade>) -> (r: bool)
    ensures
        r == trade_times_fit(data.deep_view()),
{
    let ghost all = data.deep_view();
    let mut i: usize = 0;
    while i < data.len()
        invariant
            i <= data.len(),
            all == data.deep_view(),
            trades_feed(all, 0, i as int) is Ok,
            forall|j: int|
                0 <= j < i && trade_event_kind((#[trigger] all[j]).direction) is Some
                    && trades_feed(all, 0, j) is Ok ==> fits_in_nanos(all[j].timestamp_ms),
        decreases data.len() - i,
    {
        let trade = &data[i];
        assert(all[i as int] == trade.deep_view());
        let known = trade_kind(trade.direction.as_str()).is_some();
        if known && !fits(trade.timestamp_ms) {
            assert(trade_event_kind(all[i as int].direction) is Some);
            return false;
        }
        if !known || trade.price.value.is_none() || trade.amount.value.is_none() {
            proof {
                assert forall|j: int|
                    0 <= j < all.len() && trade_event_kind((#[trigger] all[j]).direction) is Some
                        && trades_feed(all, 0, j) is Ok implies fits_in_nanos(
                    all[j].timestamp_ms,
                ) by {
                    if j > i {
                        lemma_trade_error_stays(all, 0, i as int + 1, j);
                    }
                }
            }
            return true;
        }
        i = i + 1;
    }
    true
}

impl PublicMessage {
    /// Whether the times in the message that are looked at can be written in nanoseconds.
    pub fn fits(&self) -> (r: bool)
        ensures
            r == self.times_fit(),
    {
        let channel = match &self.channel {
            Ok(frame) => public_channel(frame.channel.as_str()),
            Err(_) => {
                return true;
            },
        };
        proof {
            reveal_strlit("bbo");
            reveal_strlit("book");
            reveal_strlit("trades");
            assert("bbo"@.len() == 3 && "book"@.len() == 4 && "trades"@.len() == 6);
        }
        match (channel, &self.bbo, &self.book, &self.trades) {
            (PublicChannel::Bbo, Ok(frame), _, _) => fits(frame.data.timestamp_ms),
            (PublicChannel::Book, _, Ok(frame), _) => frame.data.levels.len() < 2 || fits(
                frame.data.timestamp_ms,
            ),
            (PublicChannel::Trades, _, _, Ok(frame)) => trades_fit(&frame.data),
            _ => true,
        }
    }
}

/// The channels that are read.
#[derive(Clone, Copy, Debug, PartialEq, Eq, Structural)]
pub enum PublicChannel {
    Bbo,
    Book,
    Trades,
    Other,
}

/// The channel of that name.
pub open spec fn channel_named(name: Seq<char>) -> PublicChannel {
    if name == "bbo"@ {
        PublicChannel::Bbo
    } else if name == "book"@ {
        PublicChannel::Book
    } else if name == "trades"@ {
        PublicChannel::Trades
    } else {
        PublicChannel::Other
    }
}

/// For which channel a message of that channel has to be read.
pub fn public_channel(name: &str) -> (r: PublicChannel)
    ensures
        r == channel_named(name@),
{
    if text_eq(name, "bbo") {
        PublicChannel::Bbo
    } else if text_eq(name, "book") {
        PublicChannel::Book
    } else if text_eq(name, "trades") {
        PublicChannel::Trades
    } else {
        PublicChannel::Other
    }
}

/// The feed events that a message gives.
pub fn map_public_message(message: &PublicMessage, local_ts_ns: i64) -> (r: Result<
    Vec<FeedEvent>,
    PublicStreamError,
>)
    requires
        message.times_fit(),
    ensures
        outcome(r) == message.feed(local_ts_ns),
{
    let frame = match &message.channel {
        Ok(frame) => frame,
        Err(error) => {
            return Err(PublicStreamError::Json(error.clone()));
        },
    };
    proof {
        reveal_strlit("bbo");
        reveal_strlit("book");
        reveal_strlit("trades");
        assert("bbo"@.len() == 3 && "book"@.len() == 4 && "trades"@.len() == 6);
    }
    match public_channel(frame.channel.as_str()) {
        PublicChannel::Bbo => map_bbo_message(&message.bbo, local_ts_ns),
        PublicChannel::Book => map_book_message(&message.book, local_ts_ns),
        PublicChannel::Trades => map_trades_message(&message.trades, local_ts_ns),
        PublicChannel::Other => {
            let events: Vec<FeedEvent> = Vec::new();
            assert(events.deep_view() =~= Seq::<FeedEventView>::empty());
            Ok(events)
        },
    }
}

/// The best prices as events.
fn map_bbo_message(frame: &Result<BboFrame, String>, local_ts_ns: i64) -> (r: Result<
    Vec<FeedEvent>,
    PublicStreamError,
>)
    requires
        frame matches Ok(frame) ==> fits_in_nanos(frame.data.timestamp_ms),
    ensures
        outcome(r) == (match *frame {
            Ok(frame) => bbo_feed(frame.data@, local_ts_ns),
            Err(error) => Err(PublicErrorView::Json(error@)),
        }),
{
    let data: &Bbo = match frame {
        Ok(frame) => &frame.data,
        Err(error) => {
            return Err(PublicStreamError::Json(error.clone()));
        },
    };
    let stamp = FeedStamp {
        exch_ts: ms_to_ns(data.timestamp_ms),
        local_ts: local_ts_ns,
        ival: unwrap_or_zero(data.last_increment_id),
    };
    let bid_px = match read_number("bid_px", &data.bid_px) {
        Ok(px) => px,
        Err(fault) => {
            return Err(public_error(fault));
        },
    };
    let bid_qty = match read_number("bid_qty", &data.bid_qty) {
        Ok(qty) => qty,
        Err(fault) => {
            return Err(public_error(fault));
        },
    };
    let ask_px = match read_number("ask_px", &data.ask_px) {
        Ok(px) => px,
        Err(fault) => {
            return Err(public_error(fault));
        },
    };
    let ask_qty = match read_number("ask_qty", &data.ask_qty) {
        Ok(qty) => qty,
        Err(fault) => {
            return Err(public_error(fault));
        },
    };
    let mut events: Vec<FeedEvent> = Vec::new();
    events.push(
        FeedEvent {
            symbol: data.symbol.clone(),
            event: event(
                LOCAL_BID_DEPTH_BBO_EVENT,
                stamp.exch_ts,
                stamp.local_ts,
                bid_px,
                bid_qty,
                stamp.ival,
            ),
        },
    );
    events.push(
        FeedEvent {
            symbol: data.symbol.clone(),
            event: event(
                LOCAL_ASK_DEPTH_BBO_EVENT,
                stamp.exch_ts,
                stamp.local_ts,
                ask_px,
                ask_qty,
                stamp.ival,
            ),
        },
    );
    proof {
        assert(bbo_feed(data@, local_ts_ns) is Ok);
        assert(events.deep_view() =~= bbo_feed(data@, local_ts_ns)->Ok_0);
    }
    Ok(events)
}

/// The book as events.
fn map_book_message(frame: &Result<BookFrame, String>, local_ts_ns: i64) -> (r: Result<
    Vec<FeedEvent>,
    PublicStreamError,
>)
    requires
        frame matches Ok(frame) ==> (frame.data.levels.len() >= 2 ==> fits_in_nanos(
            frame.data.timestamp_ms,
        )),
    ensures
        outcome(r) == (match *frame {
            Ok(frame) => book_feed(frame.data@, local_ts_ns),
            Err(error) => Err(PublicErrorView::Json(error@)),
        }),
{
    let data = match frame {
        Ok(frame) => &frame.data,
        Err(error) => {
            return Err(PublicStreamError::Json(error.clone()));
        },
    };
    assert(data@.levels.len() == data.levels.len());
    if data.levels.len() < 2 {
        return Err(PublicStreamError::MissingBookSide);
    }
    let stamp = FeedStamp {
        exch_ts: ms_to_ns(data.timestamp_ms),
        local_ts: local_ts_ns,
        ival: unwrap_or_zero(data.last_increment_id),
    };
    let bid = LevelKind { ev: LOCAL_BID_DEPTH_EVENT, px_field: "bid_px", qty_field: "bid_qty" };
    let ask = LevelKind { ev: LOCAL_ASK_DEPTH_EVENT, px_field: "ask_px", qty_field: "ask_qty" };
    match map_levels(&data.symbol, bid, ask, stamp, &data.levels) {
        Ok(events) => Ok(events),
        Err(fault) => Err(public_error(fault)),
    }
}

/// The trades as events.
fn map_trades_message(frame: &Result<TradesFrame, String>, local_ts_ns: i64) -> (r: Result<
    Vec<FeedEvent>,
    PublicStreamError,
>)
    requires
        frame matches Ok(frame) ==> trade_times_fit(frame.data.deep_view()),
    ensures
        outcome(r) == (match *frame {
            Ok(frame) => trades_feed(frame.data.deep_view(), local_ts_ns, frame.data.len() as int),
            Err(error) => Err(PublicErrorView::Json(error@)),
        }),
{
    let data = match frame {
        Ok(frame) => &frame.data,
        Err(error) => {
            return Err(PublicStreamError::Json(error.clone()));
        },
    };
    let ghost all = data.deep_view();
    let mut events: Vec<FeedEvent> = Vec::new();
    assert(events.deep_view() =~= Seq::<FeedEventView>::empty());
    let mut i: usize = 0;
    while i < data.len()
        invariant
            *frame is Ok && frame->Ok_0.data == *data,
            i <= data.len(),
            all == data.deep_view(),
            trade_times_fit(all),
            outcome(Ok::<Vec<FeedEvent>, PublicStreamError>(events)) == trades_feed(
                all,
                local_ts_ns,
                i as int,
            ),
        decreases data.len() - i,
    {
        let ghost said = events.deep_view();
        assert(all[i as int] == data@[i as int].deep_view());
        proof {
            lemma_errors_do_not_depend_on_time(all, local_ts_ns, 0, i as int);
        }
        match map_trade(&data[i], local_ts_ns) {
            Ok(last) => {
                let ghost last_view = last.deep_view();
                events.push(last);
                assert(events.deep_view() =~= said.push(last_view));
            },
            Err(error) => {
                proof {
                    lemma_trade_error_stays(all, local_ts_ns, i as int + 1, all.len() as int);
                }
                return Err(error);
            },
        }
        i = i + 1;
    }
    Ok(events)
}

/// Which side started a trade, by the words of the exchange.
fn trade_kind(direction: &str) -> (r: Option<u64>)
    ensures
        r == trade_event_kind(direction@),
{
    if text_eq(direction, "open_long") || text_eq(direction, "close_short") || text_eq(
        direction,
        "buy",
    ) || text_eq(direction, "bid") {
        Some(LOCAL_BUY_TRADE_EVENT)
    } else if text_eq(direction, "open_short") || text_eq(direction, "close_long") || text_eq(
        direction,
        "sell",
    ) || text_eq(direction, "ask") {
        Some(LOCAL_SELL_TRADE_EVENT)
    } else {
        None
    }
}

/// A trade as an event.
fn map_trade(trade: &Trade, local_ts_ns: i64) -> (r: Result<FeedEvent, PublicStreamError>)
    requires
        trade_event_kind(trade.direction@) is Some ==> fits_in_nanos(trade.timestamp_ms),
    ensures
        outcome(r) == trade_feed(trade.deep_view(), local_ts_ns),
{
    let ev: u64 = match trade_kind(trade.direction.as_str()) {
        Some(ev) => ev,
        None => {
            return Err(PublicStreamError::UnsupportedTradeDirection(trade.direction.clone()));
        },
    };
    let exch_ts = ms_to_ns(trade.timestamp_ms);
    let px = match read_number("trade_px", &trade.price) {
        Ok(px) => px,
        Err(fault) => {
            return Err(public_error(fault));
        },
    };
    let qty = match read_number("trade_qty", &trade.amount) {
        Ok(qty) => qty,
        Err(fault) => {
            return Err(public_error(fault));
        },
    };
    Ok(
        FeedEvent {
            symbol: trade.symbol.clone(),
            event: event(ev, exch_ts, local_ts_ns, px, qty, unwrap_or_zero(trade.last_increment_id)),
        },
    )
}

/// What happens at a stream of public messages.
#[derive(Debug)]
pub enum PublicInput {
    /// It is time for a sign of life.
    Tick,
    /// Another symbol is to be followed.
    Symbol(String),
    /// No more symbols will come.
    SymbolsClosed,
    /// Some symbols were missed.
    SymbolsLagged,
    /// A message came.
    Text(PublicMessage),
    /// The exchange asks for a sign of life.
    Ping,
    /// The exchange closed the socket, or it ended.
    Closed,
    /// Something came that has no meaning here.
    Ignored,
    /// The socket failed.
    Failed(String),
}

/// What is to be done at a stream of public messages.
#[derive(Debug)]
pub enum PublicOutput {
    /// Send requests, in this order.
    Send(Vec<Json>),
    /// Answer with a sign of life.
    Pong,
    /// Publish events, in this order.
    Publish(Vec<LiveEvent>),
    /// Leave the stream.
    Finish(Result<(), PublicStreamError>),
}

/// What a [`PublicOutput`] says.
pub enum PublicOutputView {
    Send(Seq<JsonView>),
    Pong,
    Publish(Seq<LiveEventView>),
    Finish(Result<(), PublicErrorView>),
}

impl View for PublicOutput {
    type V = PublicOutputView;

    open spec fn view(&self) -> PublicOutputView {
        match *self {
            PublicOutput::Send(requests) => PublicOutputView::Send(requests.deep_view()),
            PublicOutput::Pong => PublicOutputView::Pong,
            PublicOutput::Publish(events) => PublicOutputView::Publish(events.deep_view()),
            PublicOutput::Finish(result) => PublicOutputView::Finish(outcome(result)),
        }
    }
}

/// Feed events as a bot receives them.
pub open spec fn live_feed(events: Seq<FeedEventView>) -> Seq<LiveEventView> {
    events.map_values(
        |feed: FeedEventView| LiveEventView::Feed { symbol: feed.symbol, event: feed.event },
    )
}

/// Feed events as a bot receives them.
pub fn publish_feed(feeds: Vec<FeedEvent>) -> (r: Vec<LiveEvent>)
    ensures
        r.deep_view() == live_feed(feeds.deep_view()),
{
    let ghost all = feeds.deep_view();
    let mut events: Vec<LiveEvent> = Vec::new();
    let mut i: usize = 0;
    while i < feeds.len()
        invariant
            i <= feeds.len(),
            all == feeds.deep_view(),
            events.len() == i,
            forall|j: int|
                0 <= j < i ==> (#[trigger] events@[j])@ == (LiveEventView::Feed {
                    symbol: all[j].symbol,
                    event: all[j].event,
                }),
        decreases feeds.len() - i,
    {
        assert(all[i as int] == feeds@[i as int].deep_view());
        events.push(
            LiveEvent::Feed { symbol: feeds[i].symbol.clone(), event: feeds[i].event },
        );
        i = i + 1;
    }
    assert(events.deep_view() =~= live_feed(all));
    events
}

impl PublicInput {
    /// The times in the message, if one came, can be written in nanoseconds.
    pub open spec fn times_fit(self) -> bool {
        self matches PublicInput::Text(message) ==> message.times_fit()
    }

    /// What is to be done, where a message came at `local_ts_ns`.
    pub open spec fn answer(self, agg_level: i64, local_ts_ns: i64) -> PublicOutputView {
        match self {
            PublicInput::Tick => PublicOutputView::Send(seq![ping()]),
            PublicInput::Symbol(symbol) => PublicOutputView::Send(
                public_requests(symbol@, agg_level),
            ),
            PublicInput::SymbolsClosed => PublicOutputView::Finish(Ok(())),
            PublicInput::SymbolsLagged => PublicOutputView::Publish(Seq::empty()),
            PublicInput::Text(message) => match message.feed(local_ts_ns) {
                Ok(events) => PublicOutputView::Publish(live_feed(events)),
                Err(error) => PublicOutputView::Finish(Err(error)),
            },
            PublicInput::Ping => PublicOutputView::Pong,
            PublicInput::Closed => PublicOutputView::Finish(
                Err(PublicErrorView::WebSocket(WebSocketErrorView::ConnectionInterrupted)),
            ),
            PublicInput::Ignored => PublicOutputView::Publish(Seq::empty()),
            PublicInput::Failed(error) => PublicOutputView::Finish(
                Err(PublicErrorView::WebSocket(WebSocketErrorView::Tungstenite(error@))),
            ),
        }
    }
}

/// The requests to follow the first `n` symbols.
pub open spec fn initial_requests(symbols: Seq<Seq<char>>, agg_level: i64, n: int) -> Seq<JsonView>
    decreases n,
{
    if n <= 0 {
        Seq::empty()
    } else {
        initial_requests(symbols, agg_level, n - 1) + public_requests(symbols[n - 1], agg_level)
    }
}

/// What a stream of public messages does at each turn.
#[derive(Debug)]
pub struct PublicStream {
    agg_level: i64,
}

impl PublicStream {
    /// The steps in which levels of the book are gathered.
    pub closed spec fn level(self) -> i64 {
        self.agg_level
    }

    /// A stream whose books are gathered in steps of `agg_level`.
    pub fn new(agg_level: i64) -> (r: Self)
        ensures
            r.level() == agg_level,
    {
        PublicStream { agg_level }
    }

    /// The requests to send once the socket is open.
    pub fn start(&self, symbols: &SymbolSet) -> (r: Vec<Json>)
        ensures
            r.deep_view() == initial_requests(symbols@, self.level(), symbols@.len() as int),
            forall|i: int| 0 <= i < r.len() ==> canonical((#[trigger] r@[i])@),
    {
        let mut requests: Vec<Json> = Vec::new();
        assert(requests.deep_view() =~= Seq::<JsonView>::empty());
        let n: usize = symbols.len();
        let mut i: usize = 0;
        while i < n
            invariant
                i <= n,
                n == symbols@.len(),
                requests.deep_view() == initial_requests(symbols@, self.level(), i as int),
                forall|j: int| 0 <= j < requests.len() ==> canonical((#[trigger] requests@[j])@),
            decreases n - i,
        {
            let ghost before = requests@;
            let mut added = public_subscriptions(symbols.symbol(i).as_str(), self.agg_level);
            let ghost new = added@;
            requests.append(&mut added);
            proof {
                assert(requests@ == before + new);
                assert(requests.deep_view() =~= before.map_values(|j: Json| j@) + new.map_values(
                    |j: Json| j@,
                ));
                assert(before.map_values(|j: Json| j@) =~= initial_requests(
                    symbols@,
                    self.level(),
                    i as int,
                ));
                assert(new.map_values(|j: Json| j@) =~= public_requests(
                    symbols@[i as int],
                    self.level(),
                ));
                assert forall|j: int| 0 <= j < requests.len() implies canonical(
                    (#[trigger] requests@[j])@,
                ) by {
                    if j < before.len() {
                        assert(requests@[j] == before[j]);
                    } else {
                        assert(requests@[j] == new[j - before.len()]);
                    }
                }
            }
            i = i + 1;
        }
        requests
    }

    /// What is to be done about an input that came at `local_ts_ns`.
    pub fn step_at(&self, input: PublicInput, local_ts_ns: i64) -> (r: PublicOutput)
        requires
            input.times_fit(),
        ensures
            r@ == input.answer(self.level(), local_ts_ns),
            r matches PublicOutput::Send(requests) ==> forall|i: int|
                0 <= i < requests.len() ==> canonical((#[trigger] requests@[i])@),
    {
        match input {
            PublicInput::Tick => {
                let mut requests: Vec<Json> = Vec::new();
                requests.push(ping_payload());
                assert(requests.deep_view() =~= seq![ping()]);
                PublicOutput::Send(requests)
            },
            PublicInput::Symbol(symbol) => PublicOutput::Send(
                public_subscriptions(symbol.as_str(), self.agg_level),
            ),
            PublicInput::SymbolsClosed => PublicOutput::Finish(Ok(())),
            PublicInput::SymbolsLagged | PublicInput::Ignored => {
                let events: Vec<LiveEvent> = Vec::new();
                assert(events.deep_view() =~= Seq::<LiveEventView>::empty());
                PublicOutput::Publish(events)
            },
            PublicInput::Text(message) => match map_public_message(&message, local_ts_ns) {
                Ok(feeds) => PublicOutput::Publish(publish_feed(feeds)),
                Err(error) => PublicOutput::Finish(Err(error)),
            },
            PublicInput::Ping => PublicOutput::Pong,
            PublicInput::Closed => PublicOutput::Finish(
                Err(PublicStreamError::WebSocket(WebSocketError::ConnectionInterrupted)),
            ),
            PublicInput::Failed(error) => PublicOutput::Finish(
                Err(PublicStreamError::WebSocket(WebSocketError::Tungstenite(error))),
            ),
        }
    }

    /// What is to be done about an input that comes now.
    pub fn step(&self, input: PublicInput) -> (r: PublicOutput)
        requires
            input.times_fit(),
        ensures
            exists|local_ts_ns: i64| r@ == #[trigger] input.answer(self.level(), local_ts_ns),
            r matches PublicOutput::Send(requests) ==> forall|i: int|
                0 <= i < requests.len() ==> canonical((#[trigger] requests@[i])@),
    {
        let local_ts_ns = now_nanos();
        self.step_at(input, local_ts_ns)
    }
}

/// Why the stream ends where a request could not be sent.
pub fn send_failed(error: String) -> (r: PublicStreamError)
    ensures
        r@ == PublicErrorView::Tungstenite(error@),
{
    PublicStreamError::Tungstenite(error)
}

/// Why the stream ends where the socket could not be opened.
pub fn connect_failed(error: String) -> (r: PublicStreamError)
    ensures
        r@ == PublicErrorView::WebSocket(WebSocketErrorView::Tungstenite(error@)),
{
    PublicStreamError::WebSocket(WebSocketError::Tungstenite(error))
}

/// A book gives one event for each level, the bids first, all of one symbol, exchange time and
/// increment, and each with the price and the amount of its level.
pub proof fn book_events_share_their_stamp(
    data: BookView,
    local_ts_ns: i64,
    i: int,
)
    requires
        book_feed(data, local_ts_ns) is Ok,
        0 <= i < book_feed(data, local_ts_ns)->Ok_0.len(),
    ensures
        ({
            let events = book_feed(data, local_ts_ns)->Ok_0;
            &&& events.len() == data.levels[0].len() + data.levels[1].len()
            &&& events[i].symbol == data.symbol
            &&& events[i].event.exch_ts == nanos(data.timestamp_ms)
            &&& events[i].event.local_ts == local_ts_ns
            &&& events[i].event.ival == or_zero(data.last_increment_id)
            &&& events[i].event.ev == if i < data.levels[0].len() {
                LOCAL_BID_DEPTH_EVENT
            } else {
                LOCAL_ASK_DEPTH_EVENT
            }
            &&& Some(events[i].event.px) == (if i < data.levels[0].len() {
                data.levels[0][i].price.value
            } else {
                data.levels[1][i - data.levels[0].len()].price.value
            })
            &&& Some(events[i].event.qty) == (if i < data.levels[0].len() {
                data.levels[0][i].amount.value
            } else {
                data.levels[1][i - data.levels[0].len()].amount.value
            })
        }),
{
    let stamp = FeedStamp {
        exch_ts: nanos(data.timestamp_ms),
        local_ts: local_ts_ns,
        ival: or_zero(data.last_increment_id),
    };
    let bids = data.levels[0];
    let asks = data.levels[1];
    lemma_level_events(data.symbol, bid_kind(), stamp, bids, bids.len() as int);
    lemma_level_events(data.symbol, ask_kind(), stamp, asks, asks.len() as int);
}

proof fn lemma_level_events(
    symbol: Seq<char>,
    kind: LevelKind,
    stamp: FeedStamp,
    levels: Seq<BookLevelView>,
    n: int,
)
    requires
        0 <= n <= levels.len(),
        level_events(symbol, kind, stamp, levels, n) is Ok,
    ensures
        level_events(symbol, kind, stamp, levels, n)->Ok_0.len() == n,
        forall|i: int|
            0 <= i < n ==> Ok::<FeedEventView, NumberFaultView>(
                #[trigger] level_events(symbol, kind, stamp, levels, n)->Ok_0[i],
            ) == priced_event(symbol, kind, stamp, levels[i]),
    decreases n,
{
    if n > 0 {
        lemma_level_events(symbol, kind, stamp, levels, n - 1);
    }
}

} // verus!
