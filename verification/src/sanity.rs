//! A guarded check of the connector against the test network: an order is placed, changed and
//! cancelled, and nothing may be left over.

use crate::binary64::{number_fault_message, number_fault_words, Binary64};
use crate::config::{Config, ConfigError, ConfigErrorView, ConfigView};
use crate::json::{
    canonical, json_get, json_of_text, json_str, member, parse_json, Json, JsonNumber, JsonView,
};
use crate::msg::{BookLevel, BookLevelView};
use crate::ordermanager::{
    side_name, FillNumbers, ManagerView, OrderManager, PacificaOrderStatus, PacificaOrderUpdate,
    UpdateView,
};
use crate::rest::{BookSnapshot, BookSnapshotView, MarketInfo, RestPayload};
use crate::startup::{
    find_market, market_named, market_numbers, read_market, MarketSpec, MarketSpecView,
};
use crate::text::{
    contains, has_substring, option_text_eq, outcome, parse_i64, signed_value, text_eq,
    trim_end_slashes, without_end_slashes, writes_i64,
};
use crate::trade_stream::{TradeError, TradeErrorView};
use crate::types::{OrdType, Order, Side, Status, TimeInForce};
use vstd::prelude::*;
use vstd::string::StringExecFns;

verus! {

/// What to check.
#[derive(Clone, Debug)]
pub struct SanityArgs {
    pub config: String,
    pub symbol: String,
    pub side: String,
    pub amount: Binary64,
    pub quote_offset_ticks: i64,
    pub min_order_notional: Binary64,
    pub execute: bool,
    pub allow_non_testnet: bool,
    pub settle_millis: u64,
}

/// What [`SanityArgs`] say.
pub struct SanityArgsView {
    pub config: Seq<char>,
    pub symbol: Seq<char>,
    pub side: Seq<char>,
    pub amount: Binary64,
    pub quote_offset_ticks: i64,
    pub min_order_notional: Binary64,
    pub execute: bool,
    pub allow_non_testnet: bool,
    pub settle_millis: u64,
}

impl View for SanityArgs {
    type V = SanityArgsView;

    open spec fn view(&self) -> SanityArgsView {
        SanityArgsView {
            config: self.config@,
            symbol: self.symbol@,
            side: self.side@,
            amount: self.amount,
            quote_offset_ticks: self.quote_offset_ticks,
            min_order_notional: self.min_order_notional,
            execute: self.execute,
            allow_non_testnet: self.allow_non_testnet,
            settle_millis: self.settle_millis,
        }
    }
}

/// Why the check fails.
#[derive(Debug)]
pub enum SanityError {
    Config(String),
    InvalidConfig(ConfigError),
    ReadConfig(String),
    MissingExecute,
    NonTestnet,
    InvalidSide(String),
    Http(String),
    Json(String),
    Market(String),
    Trade(TradeError),
    ResidualOrders(Vec<String>),
}

/// What a [`SanityError`] says.
pub enum SanityErrorView {
    Config(Seq<char>),
    InvalidConfig(ConfigErrorView),
    ReadConfig(Seq<char>),
    MissingExecute,
    NonTestnet,
    InvalidSide(Seq<char>),
    Http(Seq<char>),
    Json(Seq<char>),
    Market(Seq<char>),
    Trade(TradeErrorView),
    ResidualOrders(Seq<Seq<char>>),
}

impl View for SanityError {
    type V = SanityErrorView;

    open spec fn view(&self) -> SanityErrorView {
        match *self {
            SanityError::Config(error) => SanityErrorView::Config(error@),
            SanityError::InvalidConfig(error) => SanityErrorView::InvalidConfig(error@),
            SanityError::ReadConfig(error) => SanityErrorView::ReadConfig(error@),
            SanityError::MissingExecute => SanityErrorView::MissingExecute,
            SanityError::NonTestnet => SanityErrorView::NonTestnet,
            SanityError::InvalidSide(side) => SanityErrorView::InvalidSide(side@),
            SanityError::Http(error) => SanityErrorView::Http(error@),
            SanityError::Json(error) => SanityErrorView::Json(error@),
            SanityError::Market(error) => SanityErrorView::Market(error@),
            SanityError::Trade(error) => SanityErrorView::Trade(error@),
            SanityError::ResidualOrders(ids) => SanityErrorView::ResidualOrders(ids.deep_view()),
        }
    }
}

/// A list of texts, shown for debugging.
pub uninterp spec fn text_list_debug(texts: Seq<Seq<char>>) -> Seq<char>;

/// Shows a list of texts with its `Debug`. The text depends on the list alone.
#[verifier::external_body]
fn show_texts(texts: &Vec<String>) -> (r: String)
    ensures
        r@ == text_list_debug(texts.deep_view()),
{
    format!("{texts:?}")
}

impl SanityErrorView {
    /// The words for the error.
    pub open spec fn words(self) -> Seq<char> {
        match self {
            SanityErrorView::Config(error) => "config: "@ + error,
            SanityErrorView::InvalidConfig(error) => "invalid config: "@ + error.words(),
            SanityErrorView::ReadConfig(error) => "read config: "@ + error,
            SanityErrorView::MissingExecute => "sanity refuses to submit without --execute"@,
            SanityErrorView::NonTestnet =>
                "sanity refuses non-testnet config without --allow-non-testnet"@,
            SanityErrorView::InvalidSide(side) => "invalid side: "@ + side,
            SanityErrorView::Http(error) => "http: "@ + error,
            SanityErrorView::Json(error) => "json: "@ + error,
            SanityErrorView::Market(error) => "market: "@ + error,
            SanityErrorView::Trade(error) => "trade: "@ + error.words(),
            SanityErrorView::ResidualOrders(ids) =>
                "residual sanity client order ids remain open: "@ + text_list_debug(ids),
        }
    }

    /// The values in the error are ones that `serde_json` can hold.
    pub open spec fn wf(self) -> bool {
        self matches SanityErrorView::Trade(error) ==> error.wf()
    }
}

impl SanityError {
    /// The words for the error.
    pub fn message(&self) -> (r: String)
        requires
            self@.wf(),
        ensures
            r@ == self@.words(),
    {
        match self {
            SanityError::Config(error) => "config: ".to_string().concat(error.as_str()),
            SanityError::InvalidConfig(error) => "invalid config: ".to_string().concat(
                error.message().as_str(),
            ),
            SanityError::ReadConfig(error) => "read config: ".to_string().concat(error.as_str()),
            SanityError::MissingExecute => "sanity refuses to submit without --execute".to_string(),
            SanityError::NonTestnet =>
                "sanity refuses non-testnet config without --allow-non-testnet".to_string(),
            SanityError::InvalidSide(side) => "invalid side: ".to_string().concat(side.as_str()),
            SanityError::Http(error) => "http: ".to_string().concat(error.as_str()),
            SanityError::Json(error) => "json: ".to_string().concat(error.as_str()),
            SanityError::Market(error) => "market: ".to_string().concat(error.as_str()),
            SanityError::Trade(error) => "trade: ".to_string().concat(error.message().as_str()),
            SanityError::ResidualOrders(ids) =>
                "residual sanity client order ids remain open: ".to_string().concat(
                show_texts(ids).as_str(),
            ),
        }
    }
}

/// What is to be placed.
#[derive(Clone, Debug, PartialEq)]
pub struct SanityPlan {
    pub symbol: String,
    pub first_price: Binary64,
    pub second_price: Binary64,
    pub tick_size: Binary64,
    pub amount: Binary64,
    pub side: Side,
    pub offset_ticks: i64,
}

/// What a [`SanityPlan`] says.
pub struct SanityPlanView {
    pub symbol: Seq<char>,
    pub first_price: Binary64,
    pub second_price: Binary64,
    pub tick_size: Binary64,
    pub amount: Binary64,
    pub side: Side,
    pub offset_ticks: i64,
}

impl View for SanityPlan {
    type V = SanityPlanView;

    open spec fn view(&self) -> SanityPlanView {
        SanityPlanView {
            symbol: self.symbol@,
            first_price: self.first_price,
            second_price: self.second_price,
            tick_size: self.tick_size,
            amount: self.amount,
            side: self.side,
            offset_ticks: self.offset_ticks,
        }
    }
}

impl DeepView for SanityPlan {
    type V = SanityPlanView;

    open spec fn deep_view(&self) -> SanityPlanView {
        self@
    }
}

/// What came of the check.
#[derive(Clone, Debug, PartialEq)]
pub struct SanitySummary {
    pub creates_ok: usize,
    pub edits_ok: usize,
    pub cancels_ok: usize,
    pub residual_client_order_ids: Vec<String>,
    pub edited_client_order_id: Option<String>,
    pub edited_exchange_order_id: Option<i64>,
}

/// What a [`SanitySummary`] says.
#[verifier::ext_equal]
pub struct SanitySummaryView {
    pub creates_ok: usize,
    pub edits_ok: usize,
    pub cancels_ok: usize,
    pub residual_client_order_ids: Seq<Seq<char>>,
    pub edited_client_order_id: Option<Seq<char>>,
    pub edited_exchange_order_id: Option<i64>,
}

impl DeepView for SanitySummary {
    type V = SanitySummaryView;

    open spec fn deep_view(&self) -> SanitySummaryView {
        SanitySummaryView {
            creates_ok: self.creates_ok,
            edits_ok: self.edits_ok,
            cancels_ok: self.cancels_ok,
            residual_client_order_ids: self.residual_client_order_ids.deep_view(),
            edited_client_order_id: self.edited_client_order_id.deep_view(),
            edited_exchange_order_id: self.edited_exchange_order_id,
        }
    }
}

/// The settings are for the test network, by their mark and by every address.
pub open spec fn is_testnet(config: ConfigView) -> bool {
    &&& config.testnet
    &&& has_substring(config.rest_url, "test-"@)
    &&& has_substring(config.public_url, "test-"@)
    &&& has_substring(config.private_url, "test-"@)
    &&& has_substring(config.trade_url, "test-"@)
}

/// Whether the check may run with the settings.
pub fn validate_testnet_guard(config: &Config, allow_non_testnet: bool) -> (r: Result<
    (),
    SanityError,
>)
    ensures
        outcome(r) == (if allow_non_testnet || is_testnet(config@) {
            Ok::<(), SanityErrorView>(())
        } else {
            Err(SanityErrorView::NonTestnet)
        }),
{
    if allow_non_testnet {
        return Ok(());
    }
    if config.testnet && contains(config.rest_url.as_str(), "test-") && contains(
        config.public_url.as_str(),
        "test-",
    ) && contains(config.private_url.as_str(), "test-") && contains(
        config.trade_url.as_str(),
        "test-",
    ) {
        Ok(())
    } else {
        Err(SanityError::NonTestnet)
    }
}

/// The side of that name.
pub open spec fn side_named(side: Seq<char>) -> Option<Side> {
    if side == "bid"@ || side == "buy"@ {
        Some(Side::Buy)
    } else if side == "ask"@ || side == "sell"@ {
        Some(Side::Sell)
    } else {
        None
    }
}

/// The side of that name.
fn parse_side(side: &str) -> (r: Result<Side, SanityError>)
    ensures
        match (side_named(side@), r) {
            (Some(named), Ok(found)) => named == found,
            (None, Err(error)) => error@ == SanityErrorView::InvalidSide(side@),
            _ => false,
        },
{
    if text_eq(side, "bid") || text_eq(side, "buy") {
        Ok(Side::Buy)
    } else if text_eq(side, "ask") || text_eq(side, "sell") {
        Ok(Side::Sell)
    } else {
        Err(SanityError::InvalidSide(side.to_string()))
    }
}

/// What the prices and the amount of a plan are computed from.
#[derive(Clone, Copy, Debug, PartialEq, Eq, Structural)]
pub struct QuoteRequest {
    pub side: Side,
    pub best_price: Binary64,
    pub offset_ticks: i64,
    pub tick_size: Binary64,
    pub lot_size: Binary64,
    pub min_order_size: Binary64,
    pub min_order_notional: Binary64,
    pub base_amount: Binary64,
}

/// The prices and the amount of a plan.
#[derive(Clone, Copy, Debug, PartialEq, Eq, Structural)]
pub struct QuoteNumbers {
    pub first_price: Binary64,
    pub second_price: Binary64,
    pub amount: Binary64,
}

/// The best level of the side, where the book has one: the bids come first, then the asks.
pub open spec fn best_level(book: BookSnapshotView, side: Side) -> Option<BookLevelView> {
    let place: int = if side == Side::Buy {
        0
    } else {
        1
    };
    if place < book.levels.len() && book.levels[place].len() > 0 {
        Some(book.levels[place][0])
    } else {
        None
    }
}

/// What the prices and the amount are computed from, or why there is no plan.
pub open spec fn quote_request(
    args: SanityArgsView,
    market: MarketSpecView,
    book: BookSnapshotView,
) -> Result<QuoteRequest, SanityErrorView> {
    match side_named(args.side) {
        None => Err(SanityErrorView::InvalidSide(args.side)),
        Some(side) => match best_level(book, side) {
            None => Err(SanityErrorView::Market("missing book side"@)),
            Some(level) => match level.price.value {
                None => Err(SanityErrorView::Market("invalid book price: "@ + level.price.text)),
                Some(best_price) => Ok(
                    QuoteRequest {
                        side,
                        best_price,
                        offset_ticks: args.quote_offset_ticks,
                        tick_size: market.tick_size,
                        lot_size: market.lot_size,
                        min_order_size: market.min_order_size,
                        min_order_notional: args.min_order_notional,
                        base_amount: args.amount,
                    },
                ),
            },
        },
    }
}

/// The plan with those prices and that amount.
pub open spec fn plan_with(
    args: SanityArgsView,
    market: MarketSpecView,
    side: Side,
    numbers: QuoteNumbers,
) -> SanityPlanView {
    SanityPlanView {
        symbol: args.symbol,
        first_price: numbers.first_price,
        second_price: numbers.second_price,
        tick_size: market.tick_size,
        amount: numbers.amount,
        side,
        offset_ticks: args.quote_offset_ticks,
    }
}

/// What is to be placed. `quote` computes the prices and the amount.
pub fn plan_from_book<F: Fn(QuoteRequest) -> QuoteNumbers>(
    args: &SanityArgs,
    market: &MarketSpec,
    book: &BookSnapshot,
    quote: F,
) -> (r: Result<SanityPlan, SanityError>)
    requires
        forall|request: QuoteRequest| #[trigger] call_requires(quote, (request,)),
    ensures
        match quote_request(args@, market.deep_view(), book@) {
            Err(error) => outcome(r) == Err::<SanityPlanView, SanityErrorView>(error),
            Ok(request) => exists|numbers: QuoteNumbers| #[trigger]
                call_ensures(quote, (request,), numbers) && outcome(r) == Ok::<
                    SanityPlanView,
                    SanityErrorView,
                >(plan_with(args@, market.deep_view(), request.side, numbers)),
        },
{
    let side = match parse_side(args.side.as_str()) {
        Ok(side) => side,
        Err(error) => {
            return Err(error);
        },
    };
    let place: usize = if side == Side::Buy {
        0
    } else {
        1
    };
    assert(book@.levels.len() == book.levels.len());
    if place >= book.levels.len() {
        return Err(SanityError::Market("missing book side".to_string()));
    }
    assert(book@.levels[place as int] == book.levels@[place as int].deep_view());
    if book.levels[place].len() == 0 {
        return Err(SanityError::Market("missing book side".to_string()));
    }
    let level: &BookLevel = &book.levels[place][0];
    assert(book@.levels[place as int][0] == level.deep_view());
    let best_price = match level.price.value {
        Some(best_price) => best_price,
        None => {
            return Err(
                SanityError::Market(
                    "invalid book price: ".to_string().concat(level.price.text.as_str()),
                ),
            );
        },
    };
    let numbers = quote(
        QuoteRequest {
            side,
            best_price,
            offset_ticks: args.quote_offset_ticks,
            tick_size: market.tick_size,
            lot_size: market.lot_size,
            min_order_size: market.min_order_size,
            min_order_notional: args.min_order_notional,
            base_amount: args.amount,
        },
    );
    Ok(
        SanityPlan {
            symbol: args.symbol.clone(),
            first_price: numbers.first_price,
            second_price: numbers.second_price,
            tick_size: market.tick_size,
            amount: numbers.amount,
            side,
            offset_ticks: args.quote_offset_ticks,
        },
    )
}

/// The value under the first of three names that the value has.
pub open spec fn first_of(value: JsonView, a: Seq<char>, b: Seq<char>, c: Seq<char>) -> Option<
    JsonView,
> {
    match json_get(value, a) {
        Some(found) => Some(found),
        None => match json_get(value, b) {
            Some(found) => Some(found),
            None => json_get(value, c),
        },
    }
}

/// The client identifier of an order, by its long names.
pub open spec fn long_client_id(order: JsonView) -> Option<Seq<char>> {
    match first_of(order, "client_order_id"@, "clientOrderId"@, "coid"@) {
        Some(found) => json_str(found),
        None => None,
    }
}

/// The client identifier of an order, by its long names or else by its short one.
pub open spec fn any_client_id(order: JsonView) -> Option<Seq<char>> {
    match first_of(order, "client_order_id"@, "clientOrderId"@, "coid"@) {
        Some(found) => json_str(found),
        None => match json_get(order, "I"@) {
            Some(found) => json_str(found),
            None => None,
        },
    }
}

/// The client identifier of an order, by its long names.
fn long_client_order_id(order: &Json) -> (r: Option<String>)
    ensures
        r.deep_view() == long_client_id(order@),
{
    let found = match order.get("client_order_id") {
        Some(found) => Some(found),
        None => match order.get("clientOrderId") {
            Some(found) => Some(found),
            None => order.get("coid"),
        },
    };
    match found {
        Some(found) => match found.as_str() {
            Some(id) => Some(id.to_string()),
            None => None,
        },
        None => None,
    }
}

/// The client identifier of an order.
fn order_client_order_id(order: &Json) -> (r: Option<String>)
    ensures
        r.deep_view() == any_client_id(order@),
{
    let found = match order.get("client_order_id") {
        Some(found) => Some(found),
        None => match order.get("clientOrderId") {
            Some(found) => Some(found),
            None => match order.get("coid") {
                Some(found) => Some(found),
                None => order.get("I"),
            },
        },
    };
    match found {
        Some(found) => match found.as_str() {
            Some(id) => Some(id.to_string()),
            None => None,
        },
        None => None,
    }
}

/// The identifier that a value writes, as a number or as a text.
pub open spec fn id_in(value: JsonView) -> Option<i64> {
    match value {
        JsonView::Int(id) => Some(id),
        JsonView::Text(text) => if writes_i64(text) {
            Some(signed_value(text) as i64)
        } else {
            None
        },
        _ => None,
    }
}

/// The identifier under a name.
pub open spec fn id_under(order: JsonView, name: Seq<char>) -> Option<i64> {
    match json_get(order, name) {
        Some(value) => id_in(value),
        None => None,
    }
}

/// The exchange identifier of an order: the first of its names that holds one counts.
pub open spec fn exchange_id(order: JsonView) -> Option<i64> {
    if id_under(order, "order_id"@) is Some {
        id_under(order, "order_id"@)
    } else if id_under(order, "orderId"@) is Some {
        id_under(order, "orderId"@)
    } else if id_under(order, "exchange_order_id"@) is Some {
        id_under(order, "exchange_order_id"@)
    } else if id_under(order, "id"@) is Some {
        id_under(order, "id"@)
    } else {
        id_under(order, "i"@)
    }
}

/// The identifier under a name.
fn read_id(order: &Json, name: &str) -> (r: Option<i64>)
    ensures
        r == id_under(order@, name@),
{
    match order.get(name) {
        Some(Json::Number(JsonNumber::Int(id))) => Some(*id),
        Some(Json::Text(text)) => parse_i64(text.as_str()),
        _ => None,
    }
}

/// The exchange identifier of an order.
fn order_exchange_order_id(order: &Json) -> (r: Option<i64>)
    ensures
        r == exchange_id(order@),
{
    match read_id(order, "order_id") {
        Some(id) => {
            return Some(id);
        },
        None => {},
    }
    match read_id(order, "orderId") {
        Some(id) => {
            return Some(id);
        },
        None => {},
    }
    match read_id(order, "exchange_order_id") {
        Some(id) => {
            return Some(id);
        },
        None => {},
    }
    match read_id(order, "id") {
        Some(id) => {
            return Some(id);
        },
        None => {},
    }
    read_id(order, "i")
}

/// The expected identifiers among the first `n` orders, in the order of the orders.
pub open spec fn residual_ids(orders: Seq<JsonView>, expected: Seq<Seq<char>>, n: int) -> Seq<
    Seq<char>,
>
    decreases n,
{
    if n <= 0 {
        Seq::empty()
    } else {
        let earlier = residual_ids(orders, expected, n - 1);
        match long_client_id(orders[n - 1]) {
            Some(id) => if expected.contains(id) {
                earlier.push(id)
            } else {
                earlier
            },
            None => earlier,
        }
    }
}

/// The identifiers that are left over are those expected ones that an open order bears.
pub proof fn residual_ids_are_the_open_ones(
    orders: Seq<JsonView>,
    expected: Seq<Seq<char>>,
    n: int,
    id: Seq<char>,
)
    requires
        0 <= n <= orders.len(),
    ensures
        residual_ids(orders, expected, n).contains(id) <==> expected.contains(id) && exists|i: int|
            0 <= i < n && long_client_id(#[trigger] orders[i]) == Some(id),
    decreases n,
{
    if n > 0 {
        residual_ids_are_the_open_ones(orders, expected, n - 1, id);
        let earlier = residual_ids(orders, expected, n - 1);
        let all = residual_ids(orders, expected, n);
        if all.contains(id) && !earlier.contains(id) {
            let k = choose|k: int| 0 <= k < all.len() && all[k] == id;
            if k < earlier.len() {
                assert(earlier[k] == id);
            }
            assert(long_client_id(orders[n - 1]) == Some(id));
        }
        if earlier.contains(id) {
            let k = choose|k: int| 0 <= k < earlier.len() && earlier[k] == id;
            assert(all[k] == id);
        }
        if expected.contains(id) && long_client_id(orders[n - 1]) == Some(id) {
            assert(all.last() == id);
        }
    }
}

/// Whether a text is among others.
fn is_expected(expected: &Vec<String>, id: &str) -> (r: bool)
    ensures
        r == expected.deep_view().contains(id@),
{
    let mut i: usize = 0;
    while i < expected.len()
        invariant
            i <= expected.len(),
            forall|j: int| 0 <= j < i ==> #[trigger] expected.deep_view()[j] != id@,
        decreases expected.len() - i,
    {
        assert(expected.deep_view()[i as int] == expected@[i as int]@);
        if text_eq(expected[i].as_str(), id) {
            return true;
        }
        i = i + 1;
    }
    false
}

/// The orders in an answer, or why it could not be read.
pub open spec fn orders_in(payload: Result<RestPayload<Vec<Json>>, String>) -> Result<
    Seq<JsonView>,
    SanityErrorView,
> {
    match payload {
        Ok(payload) => Ok(payload.data.deep_view()),
        Err(error) => Err(SanityErrorView::Json(error@)),
    }
}

/// Which of the expected orders are still open.
pub fn residual_client_order_ids(
    payload: &Result<RestPayload<Vec<Json>>, String>,
    expected_client_order_ids: &Vec<String>,
) -> (r: Result<Vec<String>, SanityError>)
    ensures
        outcome(r) == (match orders_in(*payload) {
            Ok(orders) => Ok::<Seq<Seq<char>>, SanityErrorView>(
                residual_ids(orders, expected_client_order_ids.deep_view(), orders.len() as int),
            ),
            Err(error) => Err(error),
        }),
{
    let orders = match payload {
        Ok(payload) => &payload.data,
        Err(error) => {
            return Err(SanityError::Json(error.clone()));
        },
    };
    let ghost all = orders.deep_view();
    let ghost expected = expected_client_order_ids.deep_view();
    let mut residual: Vec<String> = Vec::new();
    assert(residual.deep_view() =~= Seq::<Seq<char>>::empty());
    let mut i: usize = 0;
    while i < orders.len()
        invariant
            i <= orders.len(),
            all == orders.deep_view(),
            expected == expected_client_order_ids.deep_view(),
            residual.deep_view() == residual_ids(all, expected, i as int),
        decreases orders.len() - i,
    {
        assert(all[i as int] == orders@[i as int]@);
        let ghost said = residual.deep_view();
        match long_client_order_id(&orders[i]) {
            Some(id) => {
                if is_expected(expected_client_order_ids, id.as_str()) {
                    let ghost last = id@;
                    residual.push(id);
                    assert(residual.deep_view() =~= said.push(last));
                }
            },
            None => {},
        }
        i = i + 1;
    }
    Ok(residual)
}

/// The exchange identifier of the first order of that client identifier among those from `i` on.
pub open spec fn open_id(orders: Seq<JsonView>, expected: Seq<char>, i: int) -> Option<i64>
    decreases orders.len() - i,
{
    if i < 0 || i >= orders.len() {
        None
    } else if any_client_id(orders[i]) == Some(expected) {
        exchange_id(orders[i])
    } else {
        open_id(orders, expected, i + 1)
    }
}

/// The exchange identifier of an open order.
pub fn open_order_exchange_id(
    payload: &Result<RestPayload<Vec<Json>>, String>,
    expected_client_order_id: &str,
) -> (r: Result<Option<i64>, SanityError>)
    ensures
        outcome(r) == (match orders_in(*payload) {
            Ok(orders) => Ok::<Option<i64>, SanityErrorView>(
                open_id(orders, expected_client_order_id@, 0),
            ),
            Err(error) => Err(error),
        }),
{
    let orders = match payload {
        Ok(payload) => &payload.data,
        Err(error) => {
            return Err(SanityError::Json(error.clone()));
        },
    };
    let ghost all = orders.deep_view();
    let mut i: usize = 0;
    while i < orders.len()
        invariant
            *payload is Ok && payload->Ok_0.data == *orders,
            i <= orders.len(),
            all == orders.deep_view(),
            open_id(all, expected_client_order_id@, 0) == open_id(
                all,
                expected_client_order_id@,
                i as int,
            ),
        decreases orders.len() - i,
    {
        assert(all[i as int] == orders@[i as int]@);
        if option_text_eq(&order_client_order_id(&orders[i]), expected_client_order_id) {
            return Ok(order_exchange_order_id(&orders[i]));
        }
        i = i + 1;
    }
    Ok(None)
}

/// The part of an answer that holds its payload: the member of that name, or the whole answer.
pub open spec fn payload_part(value: JsonView) -> JsonView {
    match json_get(value, "payload"@) {
        Some(payload) => payload,
        None => value,
    }
}

/// What is found in the text of an answer: the part that holds its payload.
pub open spec fn rest_part(text: Seq<char>) -> Result<JsonView, SanityErrorView> {
    match json_of_text(text) {
        Ok(value) => Ok(payload_part(value)),
        Err(error) => Err(SanityErrorView::Json(error)),
    }
}

/// An answer around its payload and the payload alone have the same part, the payload itself; so
/// the same is found in their texts.
pub proof fn wrapped_and_bare_answers_are_alike(
    wrapped: Seq<char>,
    bare: Seq<char>,
    payload: JsonView,
)
    requires
        json_get(payload, "payload"@) is None,
    ensures
        ({
            let answer = JsonView::Object(seq![("payload"@, payload)]);
            &&& payload_part(answer) == payload
            &&& payload_part(payload) == payload
            &&& json_of_text(wrapped) == Ok::<JsonView, Seq<char>>(answer) && json_of_text(bare)
                == Ok::<JsonView, Seq<char>>(payload) ==> rest_part(wrapped) == rest_part(bare)
        }),
{
    reveal_with_fuel(member, 2);
    let members = seq![("payload"@, payload)];
    assert(members.first() == members[0]);
}

/// The part of an answer that holds its payload.
pub fn parse_rest_payload(text: &str) -> (r: Result<Json, SanityError>)
    ensures
        outcome(r) == rest_part(text@),
        r matches Ok(payload) ==> canonical(payload@),
{
    match parse_json(text) {
        Ok(value) => {
            let payload = match value.get("payload") {
                Some(payload) => Some(payload.copy()),
                None => None,
            };
            match payload {
                Some(payload) => {
                    proof {
                        crate::json::members_are_canonical(value@, "payload"@);
                    }
                    Ok(payload)
                },
                None => Ok(value),
            }
        },
        Err(error) => Err(SanityError::Json(error)),
    }
}

/// The book in an answer.
pub fn parse_book(payload: Result<RestPayload<BookSnapshot>, String>) -> (r: Result<
    BookSnapshot,
    SanityError,
>)
    ensures
        outcome(r) == book_in(payload),
{
    match payload {
        Ok(payload) => Ok(payload.data),
        Err(error) => Err(SanityError::Json(error)),
    }
}

/// The book in an answer, or why it could not be read.
pub open spec fn book_in(payload: Result<RestPayload<BookSnapshot>, String>) -> Result<
    BookSnapshotView,
    SanityErrorView,
> {
    match payload {
        Ok(payload) => Ok(payload.data@),
        Err(error) => Err(SanityErrorView::Json(error@)),
    }
}

/// The book in an answer is its data: whether the answer is marked as a success does not count.
pub proof fn the_book_is_the_data(
    a: RestPayload<BookSnapshot>,
    b: RestPayload<BookSnapshot>,
)
    requires
        a.data@ == b.data@,
    ensures
        book_in(Ok(a)) == book_in(Ok(b)),
        book_in(Ok(a)) == Ok::<BookSnapshotView, SanityErrorView>(a.data@),
{
}

/// The rules of the market of a symbol in an answer.
pub open spec fn market_in(
    payload: Result<RestPayload<Vec<MarketInfo>>, String>,
    symbol: Seq<char>,
) -> Result<MarketSpecView, SanityErrorView> {
    match payload {
        Err(error) => Err(SanityErrorView::Json(error@)),
        Ok(payload) => match market_named(payload.data.deep_view(), symbol, 0) {
            None => Err(SanityErrorView::Market("missing market info for symbol: "@ + symbol)),
            Some(info) => match market_numbers(info) {
                Ok(market) => Ok(market),
                Err(fault) => Err(
                    SanityErrorView::Market(number_fault_words(fault.field, fault.value)),
                ),
            },
        },
    }
}

/// The rules of the market of a symbol in an answer.
pub fn parse_market_info_for_symbol(
    payload: Result<RestPayload<Vec<MarketInfo>>, String>,
    symbol: &str,
) -> (r: Result<MarketSpec, SanityError>)
    ensures
        outcome(r) == market_in(payload, symbol@),
{
    let payload = match payload {
        Ok(payload) => payload,
        Err(error) => {
            return Err(SanityError::Json(error));
        },
    };
    match find_market(&payload.data, symbol) {
        Some(info) => match read_market(info) {
            Ok(market) => Ok(market),
            Err(fault) => Err(
                SanityError::Market(number_fault_message(fault.field, fault.value.as_str())),
            ),
        },
        None => Err(
            SanityError::Market("missing market info for symbol: ".to_string().concat(symbol)),
        ),
    }
}

/// Where a resource of the REST interface is.
pub fn endpoint(config: &Config, path: &str) -> (r: String)
    ensures
        r@ == without_end_slashes(config@.rest_url) + path@,
{
    trim_end_slashes(config.rest_url.as_str()).to_string().concat(path)
}

/// The text of an answer. `answer` says whether its status is one of success, or why there is no
/// answer.
pub fn get_text(path: &str, answer: Result<(bool, String), String>) -> (r: Result<
    String,
    SanityError,
>)
    ensures
        outcome(r) == (match answer {
            Err(error) => Err::<Seq<char>, SanityErrorView>(SanityErrorView::Http(error@)),
            Ok((success, text)) => if success {
                Ok(text@)
            } else {
                Err(SanityErrorView::Market(path@ + " failed: "@ + text@))
            },
        }),
{
    match answer {
        Ok((success, text)) => if success {
            Ok(text)
        } else {
            Err(
                SanityError::Market(
                    path.to_string().concat(" failed: ").concat(text.as_str()),
                ),
            )
        },
        Err(error) => Err(SanityError::Http(error)),
    }
}

/// The order of a plan at a price, which is `price_tick` ticks.
pub open spec fn planned_order(order_id: u64, price_tick: i64, plan: SanityPlanView) -> Order {
    Order {
        qty: plan.amount,
        leaves_qty: plan.amount,
        exec_qty: Binary64 { bits: 0 },
        exec_price_tick: 0,
        price_tick,
        tick_size: plan.tick_size,
        exch_timestamp: 0,
        local_timestamp: 0,
        order_id,
        maker: false,
        order_type: OrdType::Limit,
        req: Status::New,
        status: Status::Unset,
        side: plan.side,
        time_in_force: TimeInForce::GTX,
    }
}

/// The order of a plan at a price, which is `price_tick` ticks.
pub fn sanity_order(order_id: u64, price_tick: i64, plan: &SanityPlan) -> (r: Order)
    ensures
        r == planned_order(order_id, price_tick, plan@),
{
    let mut order = Order::new(
        order_id,
        price_tick,
        plan.tick_size,
        plan.amount,
        plan.side,
        OrdType::Limit,
        TimeInForce::GTX,
    );
    order.req = Status::New;
    order
}

/// What replaces the order of a plan.
pub open spec fn planned_replacement(order_id: u64, price_tick: i64, plan: SanityPlanView) -> Order {
    Order {
        req: Status::Replaced,
        status: Status::New,
        ..planned_order(order_id, price_tick, plan)
    }
}

/// What replaces the order of a plan.
pub fn sanity_replacement_order(order_id: u64, price_tick: i64, plan: &SanityPlan) -> (r: Order)
    ensures
        r == planned_replacement(order_id, price_tick, plan@),
{
    let mut order = sanity_order(order_id, price_tick, plan);
    order.req = Status::Replaced;
    order.status = Status::New;
    order
}

/// The report that the order of a plan is open.
pub open spec fn open_report(
    plan: SanityPlanView,
    price: Seq<char>,
    client_order_id: Seq<char>,
    exchange_order_id: Option<i64>,
    exch_timestamp: i64,
) -> UpdateView {
    UpdateView {
        symbol: plan.symbol,
        client_order_id: Some(client_order_id),
        exchange_order_id,
        side: Some(side_name(plan.side)->Ok_0),
        price: Some(price),
        status: PacificaOrderStatus::Open,
        leaves_qty: Some(plan.amount),
        exec_qty: None,
        exec_price: None,
        exch_timestamp,
    }
}

/// No fill.
pub open spec fn no_fill() -> FillNumbers {
    FillNumbers {
        exec_qty: Binary64 { bits: 0 },
        leaves_qty: Binary64 { bits: 0 },
        exec_price_tick: 0,
    }
}

/// The book after the report that the order of a plan is open.
pub open spec fn marked_open(book: ManagerView, report: UpdateView) -> (
    ManagerView,
    Result<(), SanityErrorView>,
) {
    match book.update_target(report) {
        Ok(id) => (book.with_update(id, report, no_fill()), Ok(())),
        Err(error) => (book, Err(SanityErrorView::Market(error.words()))),
    }
}

/// Takes in that the order of a plan is open. `price` is its price as a text.
pub fn mark_order_open(
    manager: &mut OrderManager,
    plan: &SanityPlan,
    price: &str,
    client_order_id: &str,
    exchange_order_id: Option<i64>,
    exch_timestamp: i64,
) -> (r: Result<(), SanityError>)
    requires
        plan.side == Side::Buy || plan.side == Side::Sell,
    ensures
        (final(manager)@, outcome(r)) == marked_open(
            old(manager)@,
            open_report(plan@, price@, client_order_id@, exchange_order_id, exch_timestamp),
        ),
{
    let side = if plan.side == Side::Buy {
        "bid".to_string()
    } else {
        "ask".to_string()
    };
    let update = PacificaOrderUpdate {
        symbol: plan.symbol.clone(),
        client_order_id: Some(client_order_id.to_string()),
        exchange_order_id,
        side: Some(side),
        price: Some(price.to_string()),
        status: PacificaOrderStatus::Open,
        leaves_qty: Some(plan.amount),
        exec_qty: None,
        exec_price: None,
        exch_timestamp,
    };
    let ghost report = update@;
    assert(report == open_report(
        plan@,
        price@,
        client_order_id@,
        exchange_order_id,
        exch_timestamp,
    ));
    let fill = |order: Order, qty: Option<Binary64>, price: Option<Binary64>| -> (n: FillNumbers)
        ensures
            n == no_fill(),
        {
            FillNumbers {
                exec_qty: Binary64::zero(),
                leaves_qty: Binary64::zero(),
                exec_price_tick: 0,
            }
        };
    match manager.apply_update(update, fill) {
        Ok(_) => Ok(()),
        Err(error) => Err(SanityError::Market(error.message())),
    }
}

} // verus!
