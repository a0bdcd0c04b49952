//! What the guarded run asks for and finds, and what the connector tells its bots.

use crate::binary64::Binary64;
use crate::config::{file_read, ConfigView};
use crate::json::{json_get, JsonView};
use crate::ordermanager::{ManagerView, OrderExtView, OrderManagerError, PacificaOrderStatus};
use crate::pacifica::{asked, connection_error, order_error, PacificaView};
use crate::rest::{BookSnapshotView, MarketInfo, RestPayload};
use crate::sanity::{
    any_client_id, book_in, exchange_id, id_in, is_testnet, long_client_id, market_in, marked_open,
    open_id, open_report, orders_in, payload_part, plan_with, planned_order, planned_replacement,
    quote_request, residual_ids, QuoteNumbers, QuoteRequest, SanityArgsView, SanityErrorView,
    SanityPlanView, SanitySummaryView,
};
use crate::sanity_run::{SanityActionView, SanityInput, SanityStage, SanityView};
use crate::startup::{market_found, MarketSpecView, StartupErrorView};
use crate::text::{has_substring, signed_value, without_end_slashes, writes_i64};
use crate::trade_stream::{client_of, TradeErrorView};
use crate::types::{
    DetailView, ErrorKind, LiveEventView, OrdType, Order, Side, Status, TimeInForce,
};
use crate::uuid::is_uuid_v4;
use vstd::prelude::*;

verus! {

/// Settings are for the test network where they are marked so and every address is one of it.
pub proof fn the_test_network_is_known_by_mark_and_addresses(config: ConfigView)
    ensures
        is_testnet(config) <==> {
            &&& config.testnet
            &&& has_substring(config.rest_url, "test-"@)
            &&& has_substring(config.public_url, "test-"@)
            &&& has_substring(config.private_url, "test-"@)
            &&& has_substring(config.trade_url, "test-"@)
        },
{
}

/// A plan is made from the best level of its side: the first bid to buy, the first ask to sell.
/// What is handed to the arithmetic is the price of that level, the rules of the market and what
/// was asked for; a side that is none, a book without that side and a price that is no number are
/// told.
pub proof fn plans_start_from_the_best_level(
    args: SanityArgsView,
    market: MarketSpecView,
    book: BookSnapshotView,
)
    ensures
        ({
            let result = quote_request(args, market, book);
            let buys = args.side == "bid"@ || args.side == "buy"@;
            let sells = !buys && (args.side == "ask"@ || args.side == "sell"@);
            let place: int = if buys {
                0
            } else {
                1
            };
            let there = place < book.levels.len() && book.levels[place].len() > 0;
            let price = book.levels[place][0].price;
            &&& !buys && !sells ==> result == Err::<QuoteRequest, SanityErrorView>(
                SanityErrorView::InvalidSide(args.side),
            )
            &&& (buys || sells) && !there ==> result == Err::<QuoteRequest, SanityErrorView>(
                SanityErrorView::Market("missing book side"@),
            )
            &&& (buys || sells) && there && price.value is None ==> result == Err::<
                QuoteRequest,
                SanityErrorView,
            >(SanityErrorView::Market("invalid book price: "@ + price.text))
            &&& (buys || sells) && there && price.value is Some ==> (result matches Ok(request) && {
                &&& request.side == if buys {
                    Side::Buy
                } else {
                    Side::Sell
                }
                &&& Some(request.best_price) == price.value
                &&& request.offset_ticks == args.quote_offset_ticks
                &&& request.tick_size == market.tick_size
                &&& request.lot_size == market.lot_size
                &&& request.min_order_size == market.min_order_size
                &&& request.min_order_notional == args.min_order_notional
                &&& request.base_amount == args.amount
            })
        }),
{
}

/// A plan holds what was computed, for the symbol that was asked for.
pub proof fn plans_hold_what_was_computed(
    args: SanityArgsView,
    market: MarketSpecView,
    side: Side,
    numbers: QuoteNumbers,
)
    ensures
        ({
            let plan = plan_with(args, market, side, numbers);
            &&& plan.symbol == args.symbol
            &&& plan.first_price == numbers.first_price
            &&& plan.second_price == numbers.second_price
            &&& plan.tick_size == market.tick_size
            &&& plan.amount == numbers.amount
            &&& plan.side == side
            &&& plan.offset_ticks == args.quote_offset_ticks
        }),
{
}

/// The client identifier of an order stands under the first of its names that the order has; the
/// short name counts last, and not where orders are looked for that are left over. Something that
/// is no text under that name is no identifier.
pub proof fn client_identifiers_go_by_their_names(order: JsonView)
    ensures
        ({
            let a = json_get(order, "client_order_id"@);
            let b = json_get(order, "clientOrderId"@);
            let c = json_get(order, "coid"@);
            let d = json_get(order, "I"@);
            let long = if a is Some {
                a
            } else if b is Some {
                b
            } else {
                c
            };
            let any = if long is Some {
                long
            } else {
                d
            };
            &&& long matches Some(JsonView::Text(id)) ==> long_client_id(order) == Some(id)
            &&& !(long matches Some(JsonView::Text(_))) ==> long_client_id(order) is None
            &&& any matches Some(JsonView::Text(id)) ==> any_client_id(order) == Some(id)
            &&& !(any matches Some(JsonView::Text(_))) ==> any_client_id(order) is None
        }),
{
}

/// An exchange identifier is a number, or a text that writes one.
pub proof fn exchange_identifiers_are_numbers(value: JsonView)
    ensures
        value matches JsonView::Int(n) ==> id_in(value) == Some(n),
        value matches JsonView::Text(text) ==> if writes_i64(text) {
            id_in(value) matches Some(n) && n == signed_value(text)
        } else {
            id_in(value) is None
        },
        !(value is Int) && !(value is Text) ==> id_in(value) is None,
{
}

/// The names of the exchange identifier of an order, in the order in which they count.
pub open spec fn exchange_id_names() -> Seq<Seq<char>> {
    seq!["order_id"@, "orderId"@, "exchange_order_id"@, "id"@, "i"@]
}

/// The order has an exchange identifier under the name.
pub open spec fn has_id_under(order: JsonView, name: Seq<char>) -> bool {
    json_get(order, name) matches Some(value) && id_in(value) is Some
}

/// The exchange identifier of an order is the one under the first of its names that holds one, and
/// there is none where no name does.
pub proof fn the_first_exchange_identifier_counts(order: JsonView, k: int)
    requires
        0 <= k < 5,
        forall|j: int| 0 <= j < k ==> !has_id_under(order, #[trigger] exchange_id_names()[j]),
    ensures
        has_id_under(order, exchange_id_names()[k]) ==> exchange_id(order) == id_in(
            json_get(order, exchange_id_names()[k])->0,
        ),
        k == 4 && !has_id_under(order, exchange_id_names()[k]) ==> exchange_id(order) is None,
{
    let names = exchange_id_names();
    assert(names[0] == "order_id"@ && names[1] == "orderId"@ && names[2] == "exchange_order_id"@
        && names[3] == "id"@ && names[4] == "i"@);
    if k > 0 {
        assert(!has_id_under(order, names[0]));
    }
    if k > 1 {
        assert(!has_id_under(order, names[1]));
    }
    if k > 2 {
        assert(!has_id_under(order, names[2]));
    }
    if k > 3 {
        assert(!has_id_under(order, names[3]));
    }
}

/// The exchange identifier of an open order is that of the first order that bears its client
/// identifier, and there is none where no order does.
pub proof fn the_first_open_order_counts(orders: Seq<JsonView>, expected: Seq<char>, i: int)
    requires
        0 <= i <= orders.len(),
        forall|j: int| 0 <= j < i ==> any_client_id(#[trigger] orders[j]) != Some(expected),
    ensures
        i < orders.len() && any_client_id(orders[i]) == Some(expected) ==> open_id(
            orders,
            expected,
            0,
        ) == exchange_id(orders[i]),
        i == orders.len() ==> open_id(orders, expected, 0) is None,
{
    lemma_open_id(orders, expected, 0, i);
}

proof fn lemma_open_id(orders: Seq<JsonView>, expected: Seq<char>, from: int, i: int)
    requires
        0 <= from <= i <= orders.len(),
        forall|j: int| 0 <= j < i ==> any_client_id(#[trigger] orders[j]) != Some(expected),
    ensures
        open_id(orders, expected, from) == open_id(orders, expected, i),
    decreases i - from,
{
    if from < i {
        assert(any_client_id(orders[from]) != Some(expected));
        lemma_open_id(orders, expected, from + 1, i);
    }
}

/// `places` are the places among the first `n` orders that bear an expected identifier, in order.
pub open spec fn residual_places(
    orders: Seq<JsonView>,
    expected: Seq<Seq<char>>,
    n: int,
    places: Seq<int>,
) -> bool {
    &&& forall|k: int|
        0 <= k < places.len() ==> {
            &&& 0 <= #[trigger] places[k] < n
            &&& long_client_id(orders[places[k]]) is Some
            &&& expected.contains(long_client_id(orders[places[k]])->0)
        }
    &&& forall|a: int, b: int|
        #![trigger places[a], places[b]]
        0 <= a < b < places.len() ==> places[a] < places[b]
    &&& forall|i: int|
        0 <= i < n && long_client_id(#[trigger] orders[i]) is Some && expected.contains(
            long_client_id(orders[i])->0,
        ) ==> places.contains(i)
}

/// Every open order that bears an expected identifier is left over, in their order.
pub proof fn every_order_left_over_is_found(
    orders: Seq<JsonView>,
    expected: Seq<Seq<char>>,
    n: int,
) -> (places: Seq<int>)
    requires
        0 <= n <= orders.len(),
    ensures
        residual_places(orders, expected, n, places),
        residual_ids(orders, expected, n).len() == places.len(),
        forall|k: int|
            0 <= k < places.len() ==> Some(#[trigger] residual_ids(orders, expected, n)[k])
                == long_client_id(orders[places[k]]),
    decreases n,
{
    if n == 0 {
        Seq::empty()
    } else {
        let earlier = every_order_left_over_is_found(orders, expected, n - 1);
        let id = long_client_id(orders[n - 1]);
        if id is Some && expected.contains(id->0) {
            let places = earlier.push(n - 1);
            let before = residual_ids(orders, expected, n - 1);
            let found = residual_ids(orders, expected, n);
            assert forall|i: int|
                0 <= i < n && long_client_id(#[trigger] orders[i]) is Some && expected.contains(
                    long_client_id(orders[i])->0,
                ) implies places.contains(i) by {
                if i < n - 1 {
                    let k = choose|k: int| 0 <= k < earlier.len() && earlier[k] == i;
                    assert(places[k] == i);
                } else {
                    assert(places[earlier.len() as int] == i);
                }
            }
            assert forall|k: int| 0 <= k < places.len() implies Some(#[trigger] found[k])
                == long_client_id(orders[places[k]]) by {
                if k < before.len() {
                    assert(found[k] == before[k]);
                    assert(places[k] == earlier[k]);
                }
            }
            places
        } else {
            earlier
        }
    }
}

/// The part of an answer that holds its payload is what stands under that name, or else the whole
/// answer.
pub proof fn payloads_stand_under_their_name(value: JsonView)
    ensures
        json_get(value, "payload"@) matches Some(payload) ==> payload_part(value) == payload,
        json_get(value, "payload"@) is None ==> payload_part(value) == value,
{
}

/// Answers of the REST interface that cannot be read are told; the others give their data, and the
/// rules of a market are those that the start of the connector finds.
pub proof fn answers_give_their_data(
    orders: Result<RestPayload<Vec<crate::json::Json>>, String>,
    markets: Result<RestPayload<Vec<MarketInfo>>, String>,
    symbol: Seq<char>,
)
    ensures
        orders matches Ok(payload) ==> orders_in(orders) == Ok::<Seq<JsonView>, SanityErrorView>(
            payload.data.deep_view(),
        ),
        orders matches Err(error) ==> orders_in(orders) == Err::<Seq<JsonView>, SanityErrorView>(
            SanityErrorView::Json(error@),
        ),
        markets matches Err(error) ==> market_in(markets, symbol) == Err::<
            MarketSpecView,
            SanityErrorView,
        >(SanityErrorView::Json(error@)),
        markets matches Ok(payload) ==> {
            let found = market_found(payload.data.deep_view(), symbol);
            &&& found is Ok <==> market_in(markets, symbol) is Ok
            &&& found matches Ok(market) ==> market_in(markets, symbol)->Ok_0 == market
            &&& found matches Err(StartupErrorView::MissingMarketInfo(_)) ==> market_in(
                markets,
                symbol,
            )->Err_0 == SanityErrorView::Market("missing market info for symbol: "@ + symbol)
            &&& found matches Err(StartupErrorView::InvalidNumber { field, value }) ==> market_in(
                markets,
                symbol,
            )->Err_0 == SanityErrorView::Market("invalid numeric field "@ + field + ": "@ + value)
        },
{
}

/// The orders of a plan are limit orders that only add to the book, of its side, amount and tick
/// size; the second one replaces the first, which is in the market.
pub proof fn planned_orders_follow_the_plan(order_id: u64, price_tick: i64, plan: SanityPlanView)
    ensures
        ({
            let order = planned_order(order_id, price_tick, plan);
            let replacement = planned_replacement(order_id, price_tick, plan);
            &&& order.order_id == order_id
            &&& order.price_tick == price_tick
            &&& order.tick_size == plan.tick_size
            &&& order.qty == plan.amount
            &&& order.leaves_qty == plan.amount
            &&& order.exec_qty == Binary64 { bits: 0 }
            &&& order.exec_price_tick == 0
            &&& order.exch_timestamp == 0
            &&& order.local_timestamp == 0
            &&& order.side == plan.side
            &&& order.order_type == OrdType::Limit
            &&& order.time_in_force == TimeInForce::GTX
            &&& order.req == Status::New
            &&& order.status == Status::Unset
            &&& !order.maker
            &&& replacement == Order { req: Status::Replaced, status: Status::New, ..order }
        }),
{
}

/// The report that the order of a plan is open names that order, and its side, price and amount.
pub proof fn open_reports_name_the_order(
    plan: SanityPlanView,
    price: Seq<char>,
    id: Seq<char>,
    exchange_order_id: Option<i64>,
    exch_timestamp: i64,
    book: ManagerView,
)
    ensures
        ({
            let report = open_report(plan, price, id, exchange_order_id, exch_timestamp);
            let (after, result) = marked_open(book, report);
            &&& report.symbol == plan.symbol
            &&& report.client_order_id == Some(id)
            &&& report.exchange_order_id == exchange_order_id
            &&& plan.side == Side::Buy ==> report.side == Some("bid"@)
            &&& plan.side == Side::Sell ==> report.side == Some("ask"@)
            &&& report.price == Some(price)
            &&& report.status == PacificaOrderStatus::Open
            &&& report.leaves_qty == Some(plan.amount)
            &&& report.exec_qty is None
            &&& report.exec_price is None
            &&& report.exch_timestamp == exch_timestamp
            &&& result is Ok <==> book.orders.contains_key(id)
            &&& result is Err ==> after == book
            &&& result is Ok ==> {
                &&& after.orders.contains_key(id)
                &&& after.orders[id].order.status == Status::New
                &&& after.orders[id].order.req == Status::Unset
                &&& after.orders[id].order.leaves_qty == plan.amount
                &&& exchange_order_id is Some ==> after.orders[id].exchange_order_id
                    == exchange_order_id
            }
        }),
{
}

/// The run asks the REST interface for a resource: its address is that of the interface without
/// slashes at its end, and the path.
pub open spec fn asks_for(
    action: SanityActionView,
    config: ConfigView,
    path: Seq<char>,
    name: Seq<char>,
    value: Seq<char>,
) -> bool {
    action matches SanityActionView::Get { url, path: asked, query } && url
        == without_end_slashes(config.rest_url) + path && asked == path && query == Some(
        (name, value),
    )
}

/// The run is over, with that error.
pub open spec fn ends_with(
    after: SanityView,
    action: SanityActionView,
    error: SanityErrorView,
) -> bool {
    after.stage == SanityStage::Finished && action == SanityActionView::Finish(
        Err::<SanitySummaryView, SanityErrorView>(error),
    )
}

/// With its settings the run first asks for the rules of the markets, unless something is wrong
/// with the settings or they are not for the test network and others were not allowed: that is
/// told.
pub proof fn the_run_starts_with_its_settings<F: Fn(QuoteRequest) -> QuoteNumbers>(
    run: SanityView,
    input: SanityInput,
    quote: F,
    after: SanityView,
    action: SanityActionView,
)
    requires
        run.stage == SanityStage::Loading,
        run.stepped(input, quote, after, action),
    ensures
        input matches SanityInput::Config { file, home, api_key_file, private_key_file } ==> {
            &&& file matches Err(error) ==> ends_with(
                after,
                action,
                SanityErrorView::ReadConfig(error@),
            )
            &&& file matches Ok(Err(error)) ==> ends_with(
                after,
                action,
                SanityErrorView::Config(error@),
            )
            &&& file matches Ok(Ok(config)) ==> {
                let resolved = config@.resolved(
                    home.deep_view(),
                    file_read(api_key_file),
                    file_read(private_key_file),
                );
                let guarded = run.args.allow_non_testnet || is_testnet(resolved->Ok_0);
                &&& resolved matches Err(error) ==> ends_with(
                    after,
                    action,
                    SanityErrorView::InvalidConfig(error),
                )
                &&& resolved is Ok && resolved->Ok_0.fault() is Some ==> ends_with(
                    after,
                    action,
                    SanityErrorView::InvalidConfig(resolved->Ok_0.fault()->0),
                )
                &&& resolved is Ok && resolved->Ok_0.fault() is None && !guarded ==> ends_with(
                    after,
                    action,
                    SanityErrorView::NonTestnet,
                )
                &&& resolved is Ok && resolved->Ok_0.fault() is None && guarded ==> {
                    &&& after.stage == SanityStage::AskingMarket
                    &&& after.config == resolved->Ok_0
                    &&& after.args == run.args
                    &&& after.manager == run.manager
                    &&& action matches SanityActionView::Get { url, path, query } && url
                        == without_end_slashes(resolved->Ok_0.rest_url) + "/api/v1/info"@ && path
                        == "/api/v1/info"@ && query is None
                }
            }
        },
{
}

/// With the rules of the market the run asks for the book of its symbol, and with the book it
/// computes its plan. What is wrong with either is told.
pub proof fn the_run_looks_at_the_market<F: Fn(QuoteRequest) -> QuoteNumbers>(
    run: SanityView,
    input: SanityInput,
    quote: F,
    after: SanityView,
    action: SanityActionView,
)
    requires
        run.stage == SanityStage::AskingMarket || run.stage == SanityStage::AskingBook,
        run.stepped(input, quote, after, action),
    ensures
        run.stage == SanityStage::AskingMarket ==> {
            &&& input matches SanityInput::Market(Err(error)) ==> ends_with(after, action, error@)
            &&& input matches SanityInput::Market(Ok(payload)) ==> {
                let market = market_in(payload, run.args.symbol);
                &&& market matches Err(error) ==> ends_with(after, action, error)
                &&& market matches Ok(market) ==> {
                    &&& after.stage == SanityStage::AskingBook
                    &&& after.market == Some(market)
                    &&& after.config == run.config
                    &&& after.args == run.args
                    &&& after.manager == run.manager
                    &&& asks_for(action, run.config, "/api/v1/book"@, "symbol"@, run.args.symbol)
                }
            }
        },
        run.stage == SanityStage::AskingBook ==> {
            &&& input matches SanityInput::Book(Err(error)) ==> ends_with(after, action, error@)
            &&& input matches SanityInput::Book(Ok(payload)) ==> {
                let book = book_in(payload);
                &&& book matches Err(error) ==> ends_with(after, action, error)
                &&& book matches Ok(book) ==> {
                    let request = quote_request(run.args, run.market->0, book);
                    &&& request matches Err(error) ==> ends_with(after, action, error)
                    &&& request matches Ok(request) ==> exists|numbers: QuoteNumbers| #[trigger]
                        call_ensures(quote, (request,), numbers) && {
                            let plan = plan_with(run.args, run.market->0, request.side, numbers);
                            &&& after.stage == SanityStage::Quoting
                            &&& after.plan == Some(plan)
                            &&& after.config == run.config
                            &&& after.args == run.args
                            &&& after.manager == run.manager
                            &&& action == SanityActionView::Quote(plan)
                        }
                }
            }
        },
{
}

/// The order of the plan is placed at its first price, under a name of its own: the request asks
/// for the symbol and the side of the plan, and for the price and the amount that were written for
/// it. The run knows the order by that name.
pub proof fn the_run_places_its_order<F: Fn(QuoteRequest) -> QuoteNumbers>(
    run: SanityView,
    input: SanityInput,
    quote: F,
    after: SanityView,
    action: SanityActionView,
)
    requires
        run.wf(),
        run.stage == SanityStage::Quoting,
        run.stepped(input, quote, after, action),
    ensures
        input matches SanityInput::Ticks(ticks) ==> {
            let plan = run.plan->0;
            &&& action matches SanityActionView::Submit(request) && {
                &&& is_uuid_v4(request.client_order_id)
                &&& request.symbol == plan.symbol
                &&& plan.side == Side::Buy ==> request.side == "bid"@
                &&& plan.side == Side::Sell ==> request.side == "ask"@
                &&& request.price == ticks@.first.0
                &&& request.amount == ticks@.first.1
                &&& after.client_order_id == request.client_order_id
                &&& after.manager.orders.contains_key(request.client_order_id)
                &&& after.manager.orders[request.client_order_id].symbol == plan.symbol
                &&& after.manager.orders[request.client_order_id].order == planned_order(
                    1,
                    ticks@.first_tick,
                    plan,
                )
            }
            &&& after.stage == SanityStage::Submitting
            &&& after.ticks == Some(ticks@)
            &&& after.plan == run.plan
            &&& after.config == run.config
            &&& after.args == run.args
        },
{
}

/// A command that failed ends the run. One that succeeded is followed by a wait of the asked
/// length, and that by the question for the open orders of the account.
pub proof fn the_run_waits_and_looks<F: Fn(QuoteRequest) -> QuoteNumbers>(
    run: SanityView,
    input: SanityInput,
    quote: F,
    after: SanityView,
    action: SanityActionView,
)
    requires
        run.wf(),
        run.stepped(input, quote, after, action),
    ensures
        run.stage == SanityStage::Submitting || run.stage == SanityStage::Editing || run.stage
            == SanityStage::Cancelling ==> {
            &&& input matches SanityInput::Traded(Err(error)) ==> ends_with(
                after,
                action,
                SanityErrorView::Trade(error@),
            )
            &&& input matches SanityInput::Traded(Ok(_)) ==> {
                &&& action == SanityActionView::Sleep(run.args.settle_millis)
                &&& after.stage == if run.stage == SanityStage::Submitting {
                    SanityStage::SettlingCreate
                } else if run.stage == SanityStage::Editing {
                    SanityStage::SettlingEdit
                } else {
                    SanityStage::SettlingCancel
                }
                &&& after.client_order_id == run.client_order_id
                &&& after.edited_exchange_order_id == run.edited_exchange_order_id
                &&& after.manager == if run.stage == SanityStage::Editing {
                    run.manager.with_edit_ack(run.client_order_id).0
                } else {
                    run.manager
                }
                &&& after.plan == run.plan
                &&& after.ticks == run.ticks
                &&& after.config == run.config
                &&& after.args == run.args
            }
        },
        run.stage == SanityStage::SettlingCreate || run.stage == SanityStage::SettlingEdit
            || run.stage == SanityStage::SettlingCancel ==> (input is Slept ==> {
            &&& asks_for(action, run.config, "/api/v1/orders"@, "account"@, run.config.account)
            &&& after.stage == if run.stage == SanityStage::SettlingCreate {
                SanityStage::CheckingCreate
            } else if run.stage == SanityStage::SettlingEdit {
                SanityStage::CheckingEdit
            } else {
                SanityStage::CheckingCancel
            }
            &&& after.client_order_id == run.client_order_id
            &&& after.edited_exchange_order_id == run.edited_exchange_order_id
            &&& after.manager == run.manager
            &&& after.plan == run.plan
            &&& after.ticks == run.ticks
            &&& after.config == run.config
            &&& after.args == run.args
        }),
{
}

/// What the run does with the open orders. After placing it changes its order to the second price;
/// after changing it remembers the exchange identifier and cancels the order; after cancelling it
/// is over: with a summary of one order placed, changed and cancelled, or, where the order is left
/// over, with the orders that are. An answer that cannot be had or read is told.
pub proof fn the_run_goes_on_with_the_open_orders<F: Fn(QuoteRequest) -> QuoteNumbers>(
    run: SanityView,
    input: SanityInput,
    quote: F,
    after: SanityView,
    action: SanityActionView,
)
    requires
        run.wf(),
        run.stage == SanityStage::CheckingCreate || run.stage == SanityStage::CheckingEdit
            || run.stage == SanityStage::CheckingCancel,
        run.stepped(input, quote, after, action),
    ensures
        input matches SanityInput::Orders(Err(error)) ==> ends_with(after, action, error@),
        input matches SanityInput::Orders(Ok(Err(error))) ==> ends_with(
            after,
            action,
            SanityErrorView::Json(error@),
        ),
        input matches SanityInput::Orders(Ok(Ok(payload))) ==> {
            let orders = payload.data.deep_view();
            let id = run.client_order_id;
            let left = residual_ids(orders, seq![id], orders.len() as int);
            &&& run.stage == SanityStage::CheckingCreate ==> {
                &&& after.stage == SanityStage::Editing
                &&& after.client_order_id == id
                &&& after.edited_id == id
                &&& action matches SanityActionView::Edit(request) && {
                    &&& request.client_order_id == id
                    &&& request.symbol == run.plan->0.symbol
                    &&& request.price == run.ticks->0.second.0
                    &&& request.amount == run.ticks->0.second.1
                }
                &&& after.manager.orders[id].order == planned_replacement(
                    1,
                    run.ticks->0.second_tick,
                    run.plan->0,
                )
                &&& after.manager.orders[id].exchange_order_id == (if open_id(orders, id, 0)
                    is Some {
                    open_id(orders, id, 0)
                } else {
                    run.manager.orders[id].exchange_order_id
                })
                &&& after.manager.pending_edits.contains_key(id)
                &&& after.manager.pending_edits[id] == (Order {
                    req: Status::Unset,
                    status: Status::New,
                    exch_timestamp: 1,
                    leaves_qty: run.plan->0.amount,
                    ..run.manager.orders[id].order
                })
                &&& after.plan == run.plan
                &&& after.ticks == run.ticks
                &&& after.config == run.config
                &&& after.args == run.args
            }
            &&& run.stage == SanityStage::CheckingEdit ==> {
                &&& after.stage == SanityStage::Cancelling
                &&& after.client_order_id == id
                &&& after.edited_exchange_order_id == open_id(orders, id, 0)
                &&& after.manager == run.manager
                &&& after.plan == run.plan
                &&& after.ticks == run.ticks
                &&& after.config == run.config
                &&& after.args == run.args
                &&& action matches SanityActionView::Cancel(request) && request.client_order_id
                    == id && request.symbol == run.plan->0.symbol
            }
            &&& run.stage == SanityStage::CheckingCancel && left.len() > 0 ==> ends_with(
                after,
                action,
                SanityErrorView::ResidualOrders(left),
            )
            &&& run.stage == SanityStage::CheckingCancel && left.len() == 0 ==> {
                &&& after.stage == SanityStage::Finished
                &&& action matches SanityActionView::Finish(Ok(summary)) && {
                    &&& summary.creates_ok == 1
                    &&& summary.edits_ok == 1
                    &&& summary.cancels_ok == 1
                    &&& summary.residual_client_order_ids.len() == 0
                    &&& summary.edited_client_order_id == Some(id)
                    &&& summary.edited_exchange_order_id == run.edited_exchange_order_id
                }
            }
        },
{
}

/// What a bot hears: of a failed request that it is an error of an order, with the words under
/// `msg`; of an interrupted stream that the connection is, with the words.
pub proof fn failures_are_told_with_their_words(message: Seq<char>)
    ensures
        order_error(message) == (LiveEventView::Error {
            kind: ErrorKind::OrderError,
            value: DetailView::Entry { name: "msg"@, text: message },
        }),
        connection_error(message) == (LiveEventView::Error {
            kind: ErrorKind::ConnectionInterrupted,
            value: DetailView::Text(message),
        }),
{
}

/// A request that the book refuses is not sent, and the bot hears the words of the refusal; any
/// other is sent as the book gives it.
pub proof fn refusals_of_the_book_are_told<T>(request: Result<T, OrderManagerError>)
    ensures
        request matches Ok(request) ==> asked(Ok::<T, OrderManagerError>(request)) == Ok::<
            T,
            LiveEventView,
        >(request),
        request matches Err(error) ==> asked(request) == Err::<T, LiveEventView>(
            order_error(error.words()),
        ),
{
}

/// A connector starts with an empty book, nothing known of the account, no symbols, and the client
/// of its settings.
pub proof fn a_connector_starts_empty(config: ConfigView)
    ensures
        ({
            let connector = PacificaView::with_config(config);
            &&& connector.config == config
            &&& forall|id: Seq<char>| !#[trigger] connector.orders.orders.contains_key(id)
            &&& forall|key: (Seq<char>, u64)|
                !#[trigger] connector.orders.order_ids.contains_key(key)
            &&& forall|n: i64| !#[trigger] connector.orders.exchange_ids.contains_key(n)
            &&& forall|id: Seq<char>| !#[trigger] connector.orders.pending_edits.contains_key(id)
            &&& forall|key: (Seq<char>, Seq<char>, Seq<char>)|
                !#[trigger] connector.orders.pending_creates.contains_key(key)
            &&& forall|s: Seq<char>| !#[trigger] connector.account.positions.contains_key(s)
            &&& forall|s: Seq<char>| !#[trigger] connector.account.initialized.contains(s)
            &&& connector.account.last_private_li is None
            &&& connector.symbols.len() == 0
            &&& connector.client == client_of(config)
        }),
{
}

/// The events tell of the order where there is one, and then of the error.
pub open spec fn tells(
    events: Seq<LiveEventView>,
    order: Option<OrderExtView>,
    words: Option<Seq<char>>,
) -> bool {
    let orders: int = if order is Some {
        1
    } else {
        0
    };
    let errors: int = if words is Some {
        1
    } else {
        0
    };
    &&& events.len() == orders + errors
    &&& order matches Some(order) ==> events[0] == (LiveEventView::Order {
        symbol: order.symbol,
        order: order.order,
    })
    &&& words matches Some(words) ==> events[orders] == order_error(words)
}

/// What a bot hears once a request was answered, and what becomes of the book. A success of a new
/// order or of a cancel changes nothing and tells nothing; that of a replacement settles the order
/// and tells it. A failure takes the new order out, settles the order that was to be cancelled, or
/// puts the replaced order back; the order is told where the book has it, and then the error.
pub proof fn answers_are_told_to_the_bot(
    connector: PacificaView,
    id: Seq<char>,
    result: Result<(), TradeErrorView>,
)
    ensures
        ({
            let (submitted, of_submit) = connector.after_submit(id, result);
            let (cancelled, of_cancel) = connector.after_cancel(id, result);
            let (modified, of_modify) = connector.after_modify(id, result);
            let refused = connector.orders.with_submit_fail(id);
            let kept = connector.orders.with_cancel_fail(id);
            let settled = connector.orders.with_edit_ack(id);
            let restored = connector.orders.with_edit_fail(id);
            &&& result is Ok ==> {
                &&& submitted == connector && of_submit.len() == 0
                &&& cancelled == connector && of_cancel.len() == 0
                &&& modified.orders == settled.0
                &&& tells(
                    of_modify,
                    if settled.1 is Ok {
                        Some(settled.1->Ok_0)
                    } else {
                        None
                    },
                    None,
                )
            }
            &&& result matches Err(error) ==> {
                &&& submitted.orders == refused.0
                &&& tells(
                    of_submit,
                    if refused.1 is Ok {
                        Some(refused.1->Ok_0)
                    } else {
                        None
                    },
                    Some(error.words()),
                )
                &&& cancelled.orders == kept.0
                &&& tells(
                    of_cancel,
                    if kept.1 is Ok {
                        Some(kept.1->Ok_0)
                    } else {
                        None
                    },
                    Some(error.words()),
                )
                &&& modified.orders == restored.0
                &&& tells(
                    of_modify,
                    if restored.1 is Ok {
                        Some(restored.1->Ok_0)
                    } else {
                        None
                    },
                    Some(error.words()),
                )
            }
            &&& submitted.config == connector.config && submitted.account == connector.account
                && submitted.client == connector.client && submitted.symbols == connector.symbols
            &&& cancelled.config == connector.config && cancelled.account == connector.account
                && cancelled.client == connector.client && cancelled.symbols == connector.symbols
            &&& modified.config == connector.config && modified.account == connector.account
                && modified.client == connector.client && modified.symbols == connector.symbols
        }),
{
}

/// Another book of orders changes nothing else of the connector.
pub proof fn another_book_changes_nothing_else(connector: PacificaView, orders: ManagerView)
    ensures
        ({
            let after = connector.with_orders(orders);
            &&& after.orders == orders
            &&& after.config == connector.config
            &&& after.account == connector.account
            &&& after.client == connector.client
            &&& after.symbols == connector.symbols
        }),
{
}

} // verus!
