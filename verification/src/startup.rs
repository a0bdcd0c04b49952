//! What is looked up before the connector trades.

use crate::binary64::{
    number_fault_message, number_fault_words, number_in, read_number, Binary64, NumberFault,
    NumberFaultView, NumericView,
};
use crate::json::Json;
use crate::public_stream::{
    book_events, live_feed, map_levels, or_zero, publish_feed, unwrap_or_zero, FeedStamp, LevelKind,
};
use crate::rest::{
    AccountInfo, BookSnapshot, BookSnapshotView, MarketInfo, MarketInfoView, PositionSnapshot,
    PositionSnapshotView, RestEnvelope, StartupPosition, StartupPositionView,
};
use crate::text::{decimal, decimal_text, outcome, text_eq};
use crate::types::{
    fits, fits_in_nanos, ms_to_ns, nanos, LiveEvent, LiveEventView, LOCAL_ASK_DEPTH_SNAPSHOT_EVENT,
    LOCAL_BID_DEPTH_SNAPSHOT_EVENT,
};
use vstd::prelude::*;
use vstd::string::StringExecFns;

verus! {

/// Why the connector does not start.
#[derive(Debug)]
pub enum StartupError {
    Json(String),
    RestFailure,
    MissingMarketInfo(String),
    InvalidNumber { field: &'static str, value: String },
    MissingBookSide,
    UnknownOpenOrders(usize),
}

/// What a [`StartupError`] says.
pub enum StartupErrorView {
    Json(Seq<char>),
    RestFailure,
    MissingMarketInfo(Seq<char>),
    InvalidNumber { field: Seq<char>, value: Seq<char> },
    MissingBookSide,
    UnknownOpenOrders(nat),
}

impl View for StartupError {
    type V = StartupErrorView;

    open spec fn view(&self) -> StartupErrorView {
        match *self {
            StartupError::Json(error) => StartupErrorView::Json(error@),
            StartupError::RestFailure => StartupErrorView::RestFailure,
            StartupError::MissingMarketInfo(symbol) => StartupErrorView::MissingMarketInfo(symbol@),
            StartupError::InvalidNumber { field, value } => StartupErrorView::InvalidNumber {
                field: field@,
                value: value@,
            },
            StartupError::MissingBookSide => StartupErrorView::MissingBookSide,
            StartupError::UnknownOpenOrders(n) => StartupErrorView::UnknownOpenOrders(n as nat),
        }
    }
}

impl StartupErrorView {
    /// The words for the error.
    pub open spec fn words(self) -> Seq<char> {
        match self {
            StartupErrorView::Json(error) => "json: "@ + error,
            StartupErrorView::RestFailure => "REST response did not report success"@,
            StartupErrorView::MissingMarketInfo(symbol) => "missing market info for symbol: "@
                + symbol,
            StartupErrorView::InvalidNumber { field, value } => number_fault_words(field, value),
            StartupErrorView::MissingBookSide =>
                "book snapshot must include bid and ask level arrays"@,
            StartupErrorView::UnknownOpenOrders(n) => "startup found "@ + decimal(n)
                + " open order(s); fail_on_unknown_orders policy refuses to continue"@,
        }
    }
}

impl StartupError {
    /// The words for the error.
    pub fn message(&self) -> (r: String)
        ensures
            r@ == self@.words(),
    {
        match self {
            StartupError::Json(error) => "json: ".to_string().concat(error.as_str()),
            StartupError::RestFailure => "REST response did not report success".to_string(),
            StartupError::MissingMarketInfo(symbol) =>
                "missing market info for symbol: ".to_string().concat(symbol.as_str()),
            StartupError::InvalidNumber { field, value } => number_fault_message(
                field,
                value.as_str(),
            ),
            StartupError::MissingBookSide =>
                "book snapshot must include bid and ask level arrays".to_string(),
            StartupError::UnknownOpenOrders(n) => "startup found ".to_string().concat(
                decimal_text(*n as u64).as_str(),
            ).concat(" open order(s); fail_on_unknown_orders policy refuses to continue"),
        }
    }
}

/// A fault in a number, as an error at the start.
pub open spec fn startup_fault(fault: NumberFaultView) -> StartupErrorView {
    StartupErrorView::InvalidNumber { field: fault.field, value: fault.value }
}

/// A fault in a number, as an error at the start.
fn startup_error(fault: NumberFault) -> (r: StartupError)
    ensures
        r@ == startup_fault(fault@),
{
    StartupError::InvalidNumber { field: fault.field, value: fault.value }
}

/// The rules of a market, as numbers.
#[derive(Debug, PartialEq)]
pub struct MarketSpec {
    pub symbol: String,
    pub tick_size: Binary64,
    pub lot_size: Binary64,
    pub min_order_size: Binary64,
}

/// What a [`MarketSpec`] says.
pub struct MarketSpecView {
    pub symbol: Seq<char>,
    pub tick_size: Binary64,
    pub lot_size: Binary64,
    pub min_order_size: Binary64,
}

impl DeepView for MarketSpec {
    type V = MarketSpecView;

    open spec fn deep_view(&self) -> MarketSpecView {
        MarketSpecView {
            symbol: self.symbol@,
            tick_size: self.tick_size,
            lot_size: self.lot_size,
            min_order_size: self.min_order_size,
        }
    }
}

/// The answer was not marked as a failure.
pub open spec fn succeeded(success: Option<bool>) -> bool {
    success != Some(false)
}

/// Whether an answer was not marked as a failure.
pub fn ensure_success(success: Option<bool>) -> (r: Result<(), StartupError>)
    ensures
        outcome(r) == (if succeeded(success) {
            Ok::<(), StartupErrorView>(())
        } else {
            Err(StartupErrorView::RestFailure)
        }),
{
    match success {
        Some(false) => Err(StartupError::RestFailure),
        _ => Ok(()),
    }
}

/// The payload of an answer that was read and not marked as a failure.
pub open spec fn payload_of<T: DeepView>(envelope: Result<RestEnvelope<T>, String>) -> Result<
    T::V,
    StartupErrorView,
> {
    match envelope {
        Err(error) => Err(StartupErrorView::Json(error@)),
        Ok(envelope) => if succeeded(envelope.payload.success) {
            Ok(envelope.payload.data.deep_view())
        } else {
            Err(StartupErrorView::RestFailure)
        },
    }
}

/// The payload of an answer that was read and not marked as a failure.
fn open_envelope<T: DeepView>(envelope: Result<RestEnvelope<T>, String>) -> (r: Result<
    T,
    StartupError,
>)
    ensures
        outcome(r) == payload_of(envelope),
{
    match envelope {
        Ok(envelope) => {
            match ensure_success(envelope.payload.success) {
                Ok(_) => Ok(envelope.payload.data),
                Err(error) => Err(error),
            }
        },
        Err(error) => Err(StartupError::Json(error)),
    }
}

/// The rules of the first market of that symbol among those from `i` on.
pub open spec fn market_named(markets: Seq<MarketInfoView>, symbol: Seq<char>, i: int) -> Option<
    MarketInfoView,
>
    decreases markets.len() - i,
{
    if i < 0 || i >= markets.len() {
        None
    } else if markets[i].symbol == symbol {
        Some(markets[i])
    } else {
        market_named(markets, symbol, i + 1)
    }
}

/// The rules of a market as numbers, or the first field that is none.
pub open spec fn market_numbers(info: MarketInfoView) -> Result<MarketSpecView, NumberFaultView> {
    match (
        number_in("tick_size"@, info.tick_size),
        number_in("lot_size"@, info.lot_size),
        number_in("min_order_size"@, info.min_order_size),
    ) {
        (Err(fault), _, _) => Err(fault),
        (_, Err(fault), _) => Err(fault),
        (_, _, Err(fault)) => Err(fault),
        (Ok(tick_size), Ok(lot_size), Ok(min_order_size)) => Ok(
            MarketSpecView { symbol: info.symbol, tick_size, lot_size, min_order_size },
        ),
    }
}

/// The rules of a market as numbers.
pub fn read_market(info: &MarketInfo) -> (r: Result<MarketSpec, NumberFault>)
    ensures
        outcome(r) == market_numbers(info.deep_view()),
{
    let tick_size = match read_number("tick_size", &info.tick_size) {
        Ok(tick_size) => tick_size,
        Err(fault) => {
            return Err(fault);
        },
    };
    let lot_size = match read_number("lot_size", &info.lot_size) {
        Ok(lot_size) => lot_size,
        Err(fault) => {
            return Err(fault);
        },
    };
    let min_order_size = match read_number("min_order_size", &info.min_order_size) {
        Ok(min_order_size) => min_order_size,
        Err(fault) => {
            return Err(fault);
        },
    };
    Ok(MarketSpec { symbol: info.symbol.clone(), tick_size, lot_size, min_order_size })
}

/// The rules of the first market of that symbol.
pub fn find_market<'a>(markets: &'a Vec<MarketInfo>, symbol: &str) -> (r: Option<&'a MarketInfo>)
    ensures
        r.deep_view() == market_named(markets.deep_view(), symbol@, 0),
{
    let ghost all = markets.deep_view();
    let mut i: usize = 0;
    while i < markets.len()
        invariant
            i <= markets.len(),
            all == markets.deep_view(),
            market_named(all, symbol@, 0) == market_named(all, symbol@, i as int),
        decreases markets.len() - i,
    {
        assert(all[i as int] == markets@[i as int].deep_view());
        if text_eq(markets[i].symbol.as_str(), symbol) {
            return Some(&markets[i]);
        }
        i = i + 1;
    }
    None
}

/// The rules of the market of a symbol.
pub open spec fn market_found(markets: Seq<MarketInfoView>, symbol: Seq<char>) -> Result<
    MarketSpecView,
    StartupErrorView,
> {
    match market_named(markets, symbol, 0) {
        None => Err(StartupErrorView::MissingMarketInfo(symbol)),
        Some(info) => match market_numbers(info) {
            Ok(market) => Ok(market),
            Err(fault) => Err(startup_fault(fault)),
        },
    }
}

/// The rules of the market of a symbol.
pub fn market_info_for_symbol(
    envelope: Result<RestEnvelope<Vec<MarketInfo>>, String>,
    symbol: &str,
) -> (r: Result<MarketSpec, StartupError>)
    ensures
        outcome(r) == (match payload_of(envelope) {
            Ok(markets) => market_found(markets, symbol@),
            Err(error) => Err(error),
        }),
{
    let markets = match open_envelope(envelope) {
        Ok(markets) => markets,
        Err(error) => {
            return Err(error);
        },
    };
    match find_market(&markets, symbol) {
        Some(info) => match read_market(info) {
            Ok(market) => Ok(market),
            Err(fault) => Err(startup_error(fault)),
        },
        None => Err(StartupError::MissingMarketInfo(symbol.to_string())),
    }
}

/// Levels of the bid side.
pub open spec fn bid_snapshot_kind() -> LevelKind {
    LevelKind { ev: LOCAL_BID_DEPTH_SNAPSHOT_EVENT, px_field: "bid_px", qty_field: "bid_qty" }
}

/// Levels of the ask side.
pub open spec fn ask_snapshot_kind() -> LevelKind {
    LevelKind { ev: LOCAL_ASK_DEPTH_SNAPSHOT_EVENT, px_field: "ask_px", qty_field: "ask_qty" }
}

/// The book as events.
pub open spec fn snapshot_feed(book: BookSnapshotView, local_ts_ns: i64) -> Result<
    Seq<LiveEventView>,
    StartupErrorView,
> {
    if book.levels.len() < 2 {
        Err(StartupErrorView::MissingBookSide)
    } else {
        let stamp = FeedStamp {
            exch_ts: nanos(book.timestamp_ms),
            local_ts: local_ts_ns,
            ival: 0,
        };
        match book_events(
            book.symbol,
            bid_snapshot_kind(),
            ask_snapshot_kind(),
            stamp,
            book.levels,
        ) {
            Err(fault) => Err(startup_fault(fault)),
            Ok(events) => Ok(live_feed(events)),
        }
    }
}

/// There is a level whose time has to be written in nanoseconds.
pub open spec fn has_levels(book: BookSnapshotView) -> bool {
    book.levels.len() >= 2 && (book.levels[0].len() > 0 || book.levels[1].len() > 0)
}

/// The time of the book can be written in nanoseconds, where it has to be.
pub open spec fn book_time_fits(envelope: Result<RestEnvelope<BookSnapshot>, String>) -> bool {
    payload_of(envelope) matches Ok(book) ==> (has_levels(book) ==> fits_in_nanos(
        book.timestamp_ms,
    ))
}

/// Whether the time of the book can be written in nanoseconds, where it has to be.
pub fn book_snapshot_fits(envelope: &Result<RestEnvelope<BookSnapshot>, String>) -> (r: bool)
    ensures
        r == book_time_fits(*envelope),
{
    match envelope {
        Ok(envelope) => {
            let book = &envelope.payload.data;
            assert(book@.levels.len() == book.levels.len());
            if ensure_success(envelope.payload.success).is_err() || book.levels.len() < 2 {
                return true;
            }
            assert(book@.levels[0] == book.levels@[0].deep_view());
            assert(book@.levels[1] == book.levels@[1].deep_view());
            (book.levels[0].len() == 0 && book.levels[1].len() == 0) || fits(book.timestamp_ms)
        },
        Err(_) => true,
    }
}

/// The book as events.
pub fn book_snapshot_events(
    envelope: Result<RestEnvelope<BookSnapshot>, String>,
    local_ts_ns: i64,
) -> (r: Result<Vec<LiveEvent>, StartupError>)
    requires
        book_time_fits(envelope),
    ensures
        outcome(r) == (match payload_of(envelope) {
            Ok(book) => snapshot_feed(book, local_ts_ns),
            Err(error) => Err(error),
        }),
{
    let book = match open_envelope(envelope) {
        Ok(book) => book,
        Err(error) => {
            return Err(error);
        },
    };
    assert(book@.levels.len() == book.levels.len());
    if book.levels.len() < 2 {
        return Err(StartupError::MissingBookSide);
    }
    assert(book@.levels[0] == book.levels@[0].deep_view());
    assert(book@.levels[1] == book.levels@[1].deep_view());
    if book.levels[0].len() == 0 && book.levels[1].len() == 0 {
        let events: Vec<LiveEvent> = Vec::new();
        proof {
            let stamp = FeedStamp {
                exch_ts: nanos(book.timestamp_ms),
                local_ts: local_ts_ns,
                ival: 0,
            };
            assert(book_events(
                book@.symbol,
                bid_snapshot_kind(),
                ask_snapshot_kind(),
                stamp,
                book@.levels,
            )->Ok_0 =~= Seq::empty());
            assert(events.deep_view() =~= snapshot_feed(book@, local_ts_ns)->Ok_0);
        }
        return Ok(events);
    }
    let stamp = FeedStamp {
        exch_ts: ms_to_ns(book.timestamp_ms),
        local_ts: local_ts_ns,
        ival: 0,
    };
    let bid = LevelKind {
        ev: LOCAL_BID_DEPTH_SNAPSHOT_EVENT,
        px_field: "bid_px",
        qty_field: "bid_qty",
    };
    let ask = LevelKind {
        ev: LOCAL_ASK_DEPTH_SNAPSHOT_EVENT,
        px_field: "ask_px",
        qty_field: "ask_qty",
    };
    match map_levels(&book.symbol, bid, ask, stamp, &book.levels) {
        Ok(events) => Ok(publish_feed(events)),
        Err(fault) => Err(startup_error(fault)),
    }
}

/// Whether the account has no open orders.
pub fn validate_no_unknown_open_orders(envelope: Result<RestEnvelope<Vec<Json>>, String>) -> (r:
    Result<(), StartupError>)
    ensures
        outcome(r) == (match payload_of(envelope) {
            Ok(orders) => if orders.len() == 0 {
                Ok::<(), StartupErrorView>(())
            } else {
                Err(StartupErrorView::UnknownOpenOrders(orders.len()))
            },
            Err(error) => Err(error),
        }),
{
    let orders = match open_envelope(envelope) {
        Ok(orders) => orders,
        Err(error) => {
            return Err(error);
        },
    };
    assert(orders.deep_view().len() == orders.len());
    if orders.len() == 0 {
        Ok(())
    } else {
        Err(StartupError::UnknownOpenOrders(orders.len()))
    }
}

/// The first of two, where there is one.
pub open spec fn either<T>(a: Option<T>, b: Option<T>) -> Option<T> {
    if a is Some {
        a
    } else {
        b
    }
}

impl PositionSnapshotView {
    /// The symbol, by its long name or else by its short one.
    pub open spec fn symbol_of(self) -> Option<Seq<char>> {
        either(self.symbol, self.short_symbol)
    }

    /// The amount, or zero where none is given.
    pub open spec fn amount_of(self) -> NumericView {
        match either(self.amount, self.short_amount) {
            Some(amount) => amount,
            None => NumericView { text: "0"@, value: Some(Binary64 { bits: 0 }) },
        }
    }

    /// When the position was last changed, or opened, or zero.
    pub open spec fn time_of(self) -> i64 {
        or_zero(either(either(self.updated_at, self.short_updated_at), self.created_at))
    }

    /// The signed quantity, below zero for a short position.
    pub open spec fn quantity(self) -> Result<Binary64, NumberFaultView> {
        match number_in("position_amount"@, self.amount_of()) {
            Ok(qty) => Ok(
                if either(self.side, self.short_side) == Some("ask"@) {
                    qty.negative()
                } else {
                    qty
                },
            ),
            Err(fault) => Err(fault),
        }
    }
}

/// The positions among the first `n`, or the first fault in them. Those without a symbol are
/// passed over, and those of quantity zero left out.
pub open spec fn open_positions(data: Seq<PositionSnapshotView>, n: int) -> Result<
    Seq<StartupPositionView>,
    NumberFaultView,
>
    decreases n,
{
    if n <= 0 {
        Ok(Seq::empty())
    } else {
        match open_positions(data, n - 1) {
            Err(fault) => Err(fault),
            Ok(positions) => {
                let position = data[n - 1];
                if position.symbol_of() is None {
                    Ok(positions)
                } else {
                    match position.quantity() {
                        Err(fault) => Err(fault),
                        Ok(qty) => if qty.zero_valued() {
                            Ok(positions)
                        } else {
                            Ok(
                                positions.push(
                                    StartupPositionView {
                                        symbol: position.symbol_of()->0,
                                        qty,
                                        exch_ts: nanos(position.time_of()),
                                    },
                                ),
                            )
                        },
                    }
                }
            },
        }
    }
}

/// The times of the positions that are looked at can be written in nanoseconds.
pub open spec fn position_times_fit(data: Seq<PositionSnapshotView>) -> bool {
    forall|i: int|
        0 <= i < data.len() && (#[trigger] data[i]).symbol_of() is Some && data[i].quantity() is Ok
            && open_positions(data, i) is Ok ==> fits_in_nanos(data[i].time_of())
}

proof fn lemma_position_fault_stays(data: Seq<PositionSnapshotView>, n: int, m: int)
    requires
        0 <= n <= m,
        open_positions(data, n) is Err,
    ensures
        open_positions(data, m) == open_positions(data, n),
    decreases m,
{
    if n < m {
        lemma_position_fault_stays(data, n, m - 1);
    }
}

/// Positions as a bot receives them.
pub open spec fn position_events_of(positions: Seq<StartupPositionView>) -> Seq<LiveEventView> {
    positions.map_values(
        |position: StartupPositionView|
            LiveEventView::Position {
                symbol: position.symbol,
                qty: position.qty,
                exch_ts: position.exch_ts,
            },
    )
}

/// Whether the times of the positions that are looked at can be written in nanoseconds.
pub fn position_snapshot_fits(envelope: &Result<RestEnvelope<Vec<PositionSnapshot>>, String>) -> (r:
    bool)
    ensures
        r == (payload_of(*envelope) matches Ok(data) ==> position_times_fit(data)),
{
    let data = match envelope {
        Ok(envelope) => {
            if ensure_success(envelope.payload.success).is_err() {
                return true;
            }
            &envelope.payload.data
        },
        Err(_) => {
            return true;
        },
    };
    let ghost all = data.deep_view();
    let mut i: usize = 0;
    while i < data.len()
        invariant
            payload_of(*envelope) == Ok::<Seq<PositionSnapshotView>, StartupErrorView>(all),
            i <= data.len(),
            all == data.deep_view(),
            open_positions(all, i as int) is Ok,
            forall|j: int|
                0 <= j < i && (#[trigger] all[j]).symbol_of() is Some && all[j].quantity() is Ok
                    && open_positions(all, j) is Ok ==> fits_in_nanos(all[j].time_of()),
        decreases data.len() - i,
    {
        assert(all[i as int] == data@[i as int].deep_view());
        if snapshot_symbol(&data[i]).is_some() {
            if snapshot_qty(&data[i]).is_err() {
                proof {
                    assert forall|j: int|
                        0 <= j < all.len() && (#[trigger] all[j]).symbol_of() is Some
                            && all[j].quantity() is Ok && open_positions(all, j) is Ok implies fits_in_nanos(
                        all[j].time_of(),
                    ) by {
                        if j > i {
                            lemma_position_fault_stays(all, i as int + 1, j);
                        }
                    }
                }
                return true;
            }
            if !fits(snapshot_time(&data[i])) {
                assert(all[i as int].symbol_of() is Some);
                return false;
            }
        }
        i = i + 1;
    }
    true
}

/// The open positions as events.
pub fn position_snapshot_events(envelope: Result<RestEnvelope<Vec<PositionSnapshot>>, String>) -> (r:
    Result<Vec<LiveEvent>, StartupError>)
    requires
        payload_of(envelope) matches Ok(data) ==> position_times_fit(data),
    ensures
        outcome(r) == (match payload_of(envelope) {
            Ok(data) => match open_positions(data, data.len() as int) {
                Ok(positions) => Ok::<Seq<LiveEventView>, StartupErrorView>(
                    position_events_of(positions),
                ),
                Err(fault) => Err(startup_fault(fault)),
            },
            Err(error) => Err(error),
        }),
{
    let positions = match parse_positions(envelope) {
        Ok(positions) => positions,
        Err(error) => {
            return Err(error);
        },
    };
    let ghost all = positions.deep_view();
    let mut events: Vec<LiveEvent> = Vec::new();
    let mut i: usize = 0;
    while i < positions.len()
        invariant
            i <= positions.len(),
            all == positions.deep_view(),
            events.len() == i,
            forall|j: int|
                0 <= j < i ==> (#[trigger] events@[j])@ == (LiveEventView::Position {
                    symbol: all[j].symbol,
                    qty: all[j].qty,
                    exch_ts: all[j].exch_ts,
                }),
        decreases positions.len() - i,
    {
        assert(all[i as int] == positions@[i as int].deep_view());
        events.push(
            LiveEvent::Position {
                symbol: positions[i].symbol.clone(),
                qty: positions[i].qty,
                exch_ts: positions[i].exch_ts,
            },
        );
        i = i + 1;
    }
    assert(events.deep_view() =~= position_events_of(all));
    Ok(events)
}

/// The state of the account.
pub fn account_info(envelope: Result<RestEnvelope<AccountInfo>, String>) -> (r: Result<
    AccountInfo,
    StartupError,
>)
    ensures
        outcome(r) == payload_of(envelope),
{
    open_envelope(envelope)
}

/// The symbol of a position.
fn snapshot_symbol(position: &PositionSnapshot) -> (r: Option<String>)
    ensures
        r.deep_view() == position.deep_view().symbol_of(),
{
    match &position.symbol {
        Some(symbol) => Some(symbol.clone()),
        None => match &position.short_symbol {
            Some(symbol) => Some(symbol.clone()),
            None => None,
        },
    }
}

/// The signed quantity of a position.
fn snapshot_qty(position: &PositionSnapshot) -> (r: Result<Binary64, NumberFault>)
    ensures
        outcome(r) == position.deep_view().quantity(),
{
    let qty = match &position.amount {
        Some(amount) => read_number("position_amount", amount),
        None => match &position.short_amount {
            Some(amount) => read_number("position_amount", amount),
            None => Ok(Binary64::zero()),
        },
    };
    let short = match &position.side {
        Some(side) => text_eq(side.as_str(), "ask"),
        None => match &position.short_side {
            Some(side) => text_eq(side.as_str(), "ask"),
            None => false,
        },
    };
    match qty {
        Ok(qty) => if short {
            Ok(qty.negated())
        } else {
            Ok(qty)
        },
        Err(fault) => Err(fault),
    }
}

/// When a position was last changed.
fn snapshot_time(position: &PositionSnapshot) -> (r: i64)
    ensures
        r == position.deep_view().time_of(),
{
    match position.updated_at {
        Some(updated_at) => updated_at,
        None => match position.short_updated_at {
            Some(updated_at) => updated_at,
            None => unwrap_or_zero(position.created_at),
        },
    }
}

/// The open positions.
fn parse_positions(envelope: Result<RestEnvelope<Vec<PositionSnapshot>>, String>) -> (r: Result<
    Vec<StartupPosition>,
    StartupError,
>)
    requires
        payload_of(envelope) matches Ok(data) ==> position_times_fit(data),
    ensures
        outcome(r) == (match payload_of(envelope) {
            Ok(data) => match open_positions(data, data.len() as int) {
                Ok(positions) => Ok::<Seq<StartupPositionView>, StartupErrorView>(positions),
                Err(fault) => Err(startup_fault(fault)),
            },
            Err(error) => Err(error),
        }),
{
    let ghost asked = payload_of(envelope);
    let data = match open_envelope(envelope) {
        Ok(data) => data,
        Err(error) => {
            return Err(error);
        },
    };
    let ghost all = data.deep_view();
    let mut positions: Vec<StartupPosition> = Vec::new();
    assert(positions.deep_view() =~= Seq::<StartupPositionView>::empty());
    let mut i: usize = 0;
    while i < data.len()
        invariant
            i <= data.len(),
            all == data.deep_view(),
            asked == payload_of(envelope),
            asked == Ok::<Seq<PositionSnapshotView>, StartupErrorView>(all),
            position_times_fit(all),
            open_positions(all, i as int) == Ok::<Seq<StartupPositionView>, NumberFaultView>(
                positions.deep_view(),
            ),
        decreases data.len() - i,
    {
        let position = &data[i];
        assert(all[i as int] == position.deep_view());
        let ghost said = positions.deep_view();
        match snapshot_symbol(position) {
            Some(symbol) => {
                let qty = match snapshot_qty(position) {
                    Ok(qty) => qty,
                    Err(fault) => {
                        proof {
                            lemma_position_fault_stays(all, i as int + 1, all.len() as int);
                        }
                        return Err(startup_error(fault));
                    },
                };
                let exch_ts = ms_to_ns(snapshot_time(position));
                if !qty.is_zero() {
                    let ghost called = symbol@;
                    positions.push(StartupPosition { symbol, qty, exch_ts });
                    assert(positions.deep_view() =~= said.push(
                        StartupPositionView { symbol: called, qty, exch_ts },
                    ));
                }
            },
            None => {},
        }
        i = i + 1;
    }
    Ok(positions)
}

/// No position of quantity zero is reported at the start.
pub proof fn open_positions_are_not_flat(data: Seq<PositionSnapshotView>, n: int)
    requires
        0 <= n <= data.len(),
        open_positions(data, n) is Ok,
    ensures
        forall|i: int|
            0 <= i < open_positions(data, n)->Ok_0.len()
                ==> !(#[trigger] open_positions(data, n)->Ok_0[i]).qty.zero_valued(),
    decreases n,
{
    if n > 0 {
        open_positions_are_not_flat(data, n - 1);
    }
}

/// The market that is found is the first of the symbol, and it is found where there is one.
pub proof fn market_found_is_the_first(markets: Seq<MarketInfoView>, symbol: Seq<char>)
    ensures
        market_named(markets, symbol, 0) is None <==> forall|i: int|
            0 <= i < markets.len() ==> (#[trigger] markets[i]).symbol != symbol,
        market_named(markets, symbol, 0) matches Some(info) ==> exists|i: int|
            0 <= i < markets.len() && #[trigger] markets[i] == info && info.symbol == symbol
                && forall|j: int| 0 <= j < i ==> (#[trigger] markets[j]).symbol != symbol,
{
    lemma_market_named(markets, symbol, 0);
}

proof fn lemma_market_named(markets: Seq<MarketInfoView>, symbol: Seq<char>, from: int)
    requires
        0 <= from <= markets.len(),
    ensures
        market_named(markets, symbol, from) is None <==> forall|i: int|
            from <= i < markets.len() ==> (#[trigger] markets[i]).symbol != symbol,
        market_named(markets, symbol, from) matches Some(info) ==> exists|i: int|
            from <= i < markets.len() && #[trigger] markets[i] == info && info.symbol == symbol
                && forall|j: int| from <= j < i ==> (#[trigger] markets[j]).symbol != symbol,
    decreases markets.len() - from,
{
    if from < markets.len() {
        if markets[from].symbol == symbol {
            assert(markets[from] == markets[from]);
        } else {
            lemma_market_named(markets, symbol, from + 1);
        }
    }
}

} // verus!
