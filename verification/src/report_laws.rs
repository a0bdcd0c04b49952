//! What private messages become: report by report, fill by fill, event by event.

use crate::account_state::{max_li, AccountErrorView, AccountView};
use crate::binary64::{Binary64, NumericView};
use crate::feed_laws::same_time;
use crate::json::{json_get, json_of_text, JsonView};
use crate::ordermanager::{FillNumbers, ManagerView, PacificaOrderStatus, UpdateView};
use crate::private_stream::{
    fresh, order_update, order_updates, order_updates_of, plain_answer, published, took_in,
    took_in_all, took_in_if_fresh, took_in_message, took_in_next, trade_updates, trade_updates_of,
    with_event, AccountOrderUpdate, AccountOrderUpdateView, AccountTrade, AccountTradeView,
    AccountTradesFrame, OrderUpdatesFrame, PrivateErrorView, PrivateInput, PrivateMessage,
    PrivateOutputView,
};
use crate::types::{LiveEventView, Order};
use crate::websocket::WebSocketErrorView;
use vstd::prelude::*;

verus! {

/// A field is given: it is there, and not empty.
pub open spec fn given(number: Option<NumericView>) -> bool {
    number is Some && number->0.text.len() > 0
}

/// A field is given, and is no number.
pub open spec fn misread(number: Option<NumericView>) -> bool {
    given(number) && number->0.value is None
}

/// A field is given, and is a number above zero.
pub open spec fn above_zero(number: Option<NumericView>) -> bool {
    given(number) && number->0.value is Some && 0 < number->0.value->0.bits
        <= 0x7ff0_0000_0000_0000
}

/// The words of the exchange for the state of an order.
pub open spec fn means(status: Seq<char>, meaning: PacificaOrderStatus) -> bool {
    match meaning {
        PacificaOrderStatus::Open => status == "open"@,
        PacificaOrderStatus::PartiallyFilled => status == "partially_filled"@ || status
            == "partial_filled"@ || status == "partial"@,
        PacificaOrderStatus::Filled => status == "filled"@,
        PacificaOrderStatus::Cancelled => status == "cancelled"@ || status == "canceled"@,
        PacificaOrderStatus::Rejected => status == "rejected"@,
    }
}

/// The word is one for the state of an order.
pub open spec fn is_status(status: Seq<char>) -> bool {
    exists|meaning: PacificaOrderStatus| means(status, meaning)
}

/// Nothing is wrong in a report: the numbers that are given are numbers, as far as they are looked
/// at, and the word for the state is one.
pub open spec fn report_is_right(update: AccountOrderUpdateView) -> bool {
    &&& !misread(update.filled_amount)
    &&& !misread(update.amount)
    &&& !misread(update.last_price)
    &&& above_zero(update.last_price) || !misread(update.average_price)
    &&& is_status(update.status)
}

/// `meaning` is what the report says: of the same order, at the same time, in the named state. The
/// executed quantity is the filled amount; what is left is the amount less that; the price is the
/// last one above zero, or else the average one above zero.
pub open spec fn report_means(update: AccountOrderUpdateView, meaning: UpdateView) -> bool {
    &&& meaning.symbol == update.symbol
    &&& meaning.client_order_id == update.client_order_id
    &&& meaning.exchange_order_id == update.exchange_order_id
    &&& meaning.side == update.side
    &&& meaning.price == update.initial_price
    &&& means(update.status, meaning.status)
    &&& meaning.exec_qty == (if given(update.filled_amount) {
        update.filled_amount->0.value
    } else {
        None
    })
    &&& meaning.leaves_qty == (if !given(update.amount) {
        None
    } else if given(update.filled_amount) {
        Some(update.remaining)
    } else {
        update.amount->0.value
    })
    &&& meaning.exec_price == (if above_zero(update.last_price) {
        update.last_price->0.value
    } else if above_zero(update.average_price) {
        update.average_price->0.value
    } else {
        None
    })
    &&& same_time(meaning.exch_timestamp, update.updated_at_ms)
}

/// No word stands for two states.
pub proof fn words_for_states_are_apart(status: Seq<char>, a: PacificaOrderStatus, b: PacificaOrderStatus)
    requires
        means(status, a),
        means(status, b),
    ensures
        a == b,
{
    reveal_strlit("open");
    reveal_strlit("partially_filled");
    reveal_strlit("partial_filled");
    reveal_strlit("partial");
    reveal_strlit("filled");
    reveal_strlit("cancelled");
    reveal_strlit("canceled");
    reveal_strlit("rejected");
    assert("open"@.len() == 4 && "partially_filled"@.len() == 16 && "partial_filled"@.len() == 14);
    assert("partial"@.len() == 7 && "filled"@.len() == 6 && "cancelled"@.len() == 9);
    assert("canceled"@.len() == 8 && "rejected"@.len() == 8);
    assert("canceled"@[0] == 'c' && "rejected"@[0] == 'r');
}

/// What a report on an order means; and where something is wrong in it, what: the filled amount is
/// looked at first, then the amount, the last price, the average price and the state.
pub proof fn reports_are_read_in_full(update: AccountOrderUpdateView)
    ensures
        order_update(update) is Ok <==> report_is_right(update),
        order_update(update) matches Ok(meaning) ==> report_means(update, meaning),
        order_update(update) matches Err(error) ==> error == if misread(update.filled_amount) {
            PrivateErrorView::InvalidNumber {
                field: "filled_amount"@,
                value: update.filled_amount->0.text,
            }
        } else if misread(update.amount) {
            PrivateErrorView::InvalidNumber { field: "amount"@, value: update.amount->0.text }
        } else if misread(update.last_price) {
            PrivateErrorView::InvalidNumber {
                field: "exec_price"@,
                value: update.last_price->0.text,
            }
        } else if !above_zero(update.last_price) && misread(update.average_price) {
            PrivateErrorView::InvalidNumber {
                field: "exec_price"@,
                value: update.average_price->0.text,
            }
        } else {
            PrivateErrorView::UnsupportedOrderStatus(update.status)
        },
{
    let named = crate::private_stream::status_named(update.status);
    if is_status(update.status) {
        let meaning = choose|meaning: PacificaOrderStatus| means(update.status, meaning);
        assert(named is Some);
        assert(means(update.status, named->0));
    } else {
        assert(!means(update.status, PacificaOrderStatus::Open));
        assert(!means(update.status, PacificaOrderStatus::PartiallyFilled));
        assert(!means(update.status, PacificaOrderStatus::Filled));
        assert(!means(update.status, PacificaOrderStatus::Cancelled));
        assert(!means(update.status, PacificaOrderStatus::Rejected));
    }
}

/// Where nothing is wrong in the reports of a message, each is read, in their order.
pub proof fn every_report_is_read(data: Seq<AccountOrderUpdateView>, n: int)
    requires
        0 <= n <= data.len(),
        forall|i: int| 0 <= i < n ==> report_is_right(#[trigger] data[i]),
    ensures
        order_updates(data, n) is Ok,
        order_updates(data, n)->Ok_0.len() == n,
        forall|i: int|
            0 <= i < n ==> report_means(data[i], #[trigger] order_updates(data, n)->Ok_0[i]),
    decreases n,
{
    if n > 0 {
        every_report_is_read(data, n - 1);
        assert(report_is_right(data[n - 1]));
        reports_are_read_in_full(data[n - 1]);
        let all = order_updates(data, n)->Ok_0;
        let earlier = order_updates(data, n - 1)->Ok_0;
        assert forall|i: int| 0 <= i < n implies report_means(data[i], #[trigger] all[i]) by {
            if i < n - 1 {
                assert(all[i] == earlier[i]);
            }
        }
    }
}

/// Where something is wrong in the reports of a message, none is read, and the error is that of the
/// first wrong one.
pub proof fn the_first_wrong_report_is_told(data: Seq<AccountOrderUpdateView>, n: int, i: int)
    requires
        0 <= i < n <= data.len(),
        !report_is_right(data[i]),
        forall|j: int| 0 <= j < i ==> report_is_right(#[trigger] data[j]),
    ensures
        order_updates(data, n) is Err,
        order_updates(data, n)->Err_0 == order_update(data[i])->Err_0,
    decreases n,
{
    if n == i + 1 {
        every_report_is_read(data, i);
        reports_are_read_in_full(data[i]);
    } else {
        the_first_wrong_report_is_told(data, n - 1, i);
    }
}

/// Nothing is wrong in a fill.
pub open spec fn fill_is_right(trade: AccountTradeView) -> bool {
    trade.amount.value is Some && trade.price.value is Some
}

/// `meaning` is what the fill says: one more fill of the same order, of that amount at that price
/// and time.
pub open spec fn fill_means(trade: AccountTradeView, meaning: UpdateView) -> bool {
    &&& meaning.symbol == trade.symbol
    &&& meaning.client_order_id == trade.client_order_id
    &&& meaning.exchange_order_id == trade.exchange_order_id
    &&& meaning.side is None
    &&& meaning.price is None
    &&& meaning.status == PacificaOrderStatus::PartiallyFilled
    &&& meaning.leaves_qty is None
    &&& meaning.exec_qty == trade.amount.value
    &&& meaning.exec_price == trade.price.value
    &&& same_time(meaning.exch_timestamp, trade.timestamp_ms)
}

/// Where nothing is wrong in the fills of a message, each is read, in their order.
pub proof fn every_fill_is_read(data: Seq<AccountTradeView>, n: int)
    requires
        0 <= n <= data.len(),
        forall|i: int| 0 <= i < n ==> fill_is_right(#[trigger] data[i]),
    ensures
        trade_updates(data, n) is Ok,
        trade_updates(data, n)->Ok_0.len() == n,
        forall|i: int|
            0 <= i < n ==> fill_means(data[i], #[trigger] trade_updates(data, n)->Ok_0[i]),
    decreases n,
{
    if n > 0 {
        every_fill_is_read(data, n - 1);
        assert(fill_is_right(data[n - 1]));
        let all = trade_updates(data, n)->Ok_0;
        let earlier = trade_updates(data, n - 1)->Ok_0;
        assert forall|i: int| 0 <= i < n implies fill_means(data[i], #[trigger] all[i]) by {
            if i < n - 1 {
                assert(all[i] == earlier[i]);
            }
        }
    }
}

/// Where something is wrong in the fills of a message, none is read, and the error tells what is
/// wrong in the first such fill: its amount, then its price.
pub proof fn the_first_wrong_fill_is_told(data: Seq<AccountTradeView>, n: int, i: int)
    requires
        0 <= i < n <= data.len(),
        !fill_is_right(data[i]),
        forall|j: int| 0 <= j < i ==> fill_is_right(#[trigger] data[j]),
    ensures
        trade_updates(data, n) is Err,
        trade_updates(data, n)->Err_0 == if data[i].amount.value is None {
            PrivateErrorView::InvalidNumber {
                field: "trade_amount"@,
                value: data[i].amount.text,
            }
        } else {
            PrivateErrorView::InvalidNumber { field: "trade_price"@, value: data[i].price.text }
        },
    decreases n,
{
    if n == i + 1 {
        every_fill_is_read(data, i);
    } else {
        the_first_wrong_fill_is_told(data, n - 1, i);
    }
}

/// The whole of a message is read: every report or fill in it, or the error with which it could not
/// be read at all.
pub proof fn whole_messages_are_read(
    reports: Result<OrderUpdatesFrame, String>,
    fills: Result<AccountTradesFrame, String>,
)
    ensures
        reports matches Ok(frame) ==> order_updates_of(reports) == order_updates(
            frame.data.deep_view(),
            frame.data@.len() as int,
        ),
        reports matches Err(error) ==> order_updates_of(reports) == Err::<
            Seq<UpdateView>,
            PrivateErrorView,
        >(PrivateErrorView::Json(error@)),
        fills matches Ok(frame) ==> trade_updates_of(fills) == trade_updates(
            frame.data.deep_view(),
            frame.data@.len() as int,
        ),
        fills matches Err(error) ==> trade_updates_of(fills) == Err::<
            Seq<UpdateView>,
            PrivateErrorView,
        >(PrivateErrorView::Json(error@)),
{
}

/// What is said of reports and fills is what stands in them.
pub proof fn private_messages_say_what_they_hold(update: AccountOrderUpdate, trade: AccountTrade)
    ensures
        update.deep_view().client_order_id == update.client_order_id.deep_view(),
        update.deep_view().exchange_order_id == update.exchange_order_id,
        update.deep_view().symbol == update.symbol@,
        update.deep_view().side == update.side.deep_view(),
        update.deep_view().initial_price == update.initial_price.deep_view(),
        update.deep_view().amount == update.amount.deep_view(),
        update.deep_view().filled_amount == update.filled_amount.deep_view(),
        update.deep_view().remaining == update.remaining,
        update.deep_view().last_price == update.last_price.deep_view(),
        update.deep_view().average_price == update.average_price.deep_view(),
        update.deep_view().status == update.status@,
        update.deep_view().updated_at_ms == update.updated_at_ms,
        trade.deep_view().client_order_id == trade.client_order_id.deep_view(),
        trade.deep_view().exchange_order_id == trade.exchange_order_id,
        trade.deep_view().symbol == trade.symbol@,
        trade.deep_view().amount.text == trade.amount.text@,
        trade.deep_view().amount.value == trade.amount.value,
        trade.deep_view().price.text == trade.price.text@,
        trade.deep_view().price.value == trade.price.value,
        trade.deep_view().timestamp_ms == trade.timestamp_ms,
{
}

/// One report is taken in: one about an order of the book changes the book for that order, and its
/// event tells the order after it; one about no order of the book changes nothing and tells
/// nothing.
pub open spec fn one_report<F: Fn(Order, Option<Binary64>, Option<Binary64>) -> FillNumbers>(
    fill: F,
    before: ManagerView,
    update: UpdateView,
    after: ManagerView,
    told: Seq<LiveEventView>,
) -> bool {
    let target = before.update_target(update);
    &&& target is Err ==> after == before && told.len() == 0
    &&& target is Ok ==> {
        let id = target->Ok_0;
        &&& told.len() == 1
        &&& exists|numbers: FillNumbers| #[trigger]
            call_ensures(
                fill,
                (before.orders[id].order, update.exec_qty, update.exec_price),
                numbers,
            ) && after == before.with_update(id, update, numbers) && told[0]
                == (LiveEventView::Order {
                symbol: before.orders[id].symbol,
                order: before.updated_order(id, update, numbers).order,
            })
    }
}

/// The report at place `k` leads from one book to the next, and its events are those between two
/// ends.
pub open spec fn report_at<F: Fn(Order, Option<Binary64>, Option<Binary64>) -> FillNumbers>(
    fill: F,
    books: Seq<ManagerView>,
    updates: Seq<UpdateView>,
    ends: Seq<int>,
    events: Seq<LiveEventView>,
    k: int,
) -> bool {
    &&& 0 <= ends[k] <= ends[k + 1] <= events.len()
    &&& one_report(
        fill,
        books[k],
        updates[k],
        books[k + 1],
        events.subrange(ends[k], ends[k + 1]),
    )
}

/// The reports of a message are taken in one after the other, each of them, in their order: the
/// books in between lead from the first to the last, and the events are those of the reports, in
/// the same order. `ends` are the places in the events where those of a report begin.
pub proof fn every_report_is_taken_in<
    F: Fn(Order, Option<Binary64>, Option<Binary64>) -> FillNumbers,
>(
    fill: F,
    before: ManagerView,
    updates: Seq<UpdateView>,
    n: int,
    after: ManagerView,
    events: Seq<LiveEventView>,
) -> (r: (Seq<ManagerView>, Seq<int>))
    requires
        0 <= n <= updates.len(),
        took_in_all(fill, before, updates, n, after, events),
    ensures
        r.0.len() == n + 1,
        r.1.len() == n + 1,
        r.0[0] == before,
        r.0[n] == after,
        r.1[0] == 0,
        r.1[n] == events.len(),
        forall|k: int|
            0 <= k < n ==> #[trigger] report_at(fill, r.0, updates, r.1, events, k),
    decreases n,
{
    if n == 0 {
        (seq![before], seq![0int])
    } else {
        let (between, earlier) = choose|between: ManagerView, earlier: Seq<LiveEventView>|
            took_in_all(fill, before, updates, n - 1, between, earlier) && #[trigger] took_in_next(
                fill,
                between,
                earlier,
                updates[n - 1],
                after,
                events,
            );
        let event = choose|event: Option<LiveEventView>| #[trigger]
            took_in(fill, between, updates[n - 1], after, event) && events == with_event(
                earlier,
                event,
            );
        let (books, ends) = every_report_is_taken_in(
            fill,
            before,
            updates,
            n - 1,
            between,
            earlier,
        );
        let r = (books.push(after), ends.push(events.len() as int));
        let update = updates[n - 1];
        let last = events.subrange(earlier.len() as int, events.len() as int);
        if between.update_target(update) is Ok {
            let id = between.update_target(update)->Ok_0;
            let numbers = choose|numbers: FillNumbers| #[trigger]
                call_ensures(
                    fill,
                    (between.orders[id].order, update.exec_qty, update.exec_price),
                    numbers,
                ) && after == between.with_update(id, update, numbers) && event == Some(
                    LiveEventView::Order {
                        symbol: between.updated_order(id, update, numbers).symbol,
                        order: between.updated_order(id, update, numbers).order,
                    },
                );
            assert(call_ensures(
                fill,
                (between.orders[id].order, update.exec_qty, update.exec_price),
                numbers,
            ));
            assert(last[0] == event->0);
        }
        assert(one_report(fill, between, update, after, last));
        assert forall|k: int| 0 <= k < n implies #[trigger] report_at(
            fill,
            r.0,
            updates,
            r.1,
            events,
            k,
        ) by {
            if k < n - 1 {
                assert(report_at(fill, books, updates, ends, earlier, k));
                assert(r.1[k] == ends[k] && r.1[k + 1] == ends[k + 1]);
                assert(r.0[k] == books[k] && r.0[k + 1] == books[k + 1]);
                assert(events.subrange(r.1[k], r.1[k + 1]) =~= earlier.subrange(
                    ends[k],
                    ends[k + 1],
                ));
            } else {
                assert(r.1[k] == ends[n - 1] && r.1[k + 1] == events.len());
                assert(r.0[k] == books[n - 1]);
            }
        }
        r
    }
}

/// A message in which something is wrong changes nothing and gives the error; any other is taken in
/// as a whole.
pub proof fn wrong_messages_are_not_taken_in<
    F: Fn(Order, Option<Binary64>, Option<Binary64>) -> FillNumbers,
>(
    fill: F,
    before: ManagerView,
    updates: Result<Seq<UpdateView>, PrivateErrorView>,
    after: ManagerView,
    result: Result<Seq<LiveEventView>, PrivateErrorView>,
)
    requires
        took_in_message(fill, before, updates, after, result),
    ensures
        updates is Ok <==> result is Ok,
        updates matches Err(error) ==> result->Err_0 == error && after == before,
        updates matches Ok(updates) ==> took_in_all(
            fill,
            before,
            updates,
            updates.len() as int,
            after,
            result->Ok_0,
        ),
{
}

/// A message is out of date where it and the account have increments and its own is the smaller
/// one; a text that cannot be read is neither.
pub proof fn messages_are_fresh_by_their_increment(state: AccountView, text: Seq<char>)
    ensures
        json_of_text(text) matches Ok(value) ==> fresh(state, text) == !(max_li(value) is Some
            && state.last_private_li is Some && max_li(value)->0 < state.last_private_li->0),
        json_of_text(text) is Err ==> !fresh(state, text),
{
}

/// A message that is not out of date is taken in, and its increment is then the last one of the
/// account; one that is out of date changes nothing; one that cannot be read is an error.
pub proof fn fresh_messages_are_taken_in<
    F: Fn(Order, Option<Binary64>, Option<Binary64>) -> FillNumbers,
>(
    fill: F,
    manager: ManagerView,
    state: AccountView,
    text: Seq<char>,
    updates: Result<Seq<UpdateView>, PrivateErrorView>,
    manager_after: ManagerView,
    state_after: AccountView,
    result: Result<Seq<LiveEventView>, PrivateErrorView>,
)
    requires
        took_in_if_fresh(
            fill,
            manager,
            state,
            text,
            updates,
            manager_after,
            state_after,
            result,
        ),
    ensures
        json_of_text(text) matches Err(error) ==> {
            &&& manager_after == manager
            &&& state_after == state
            &&& result == Err::<Seq<LiveEventView>, PrivateErrorView>(
                PrivateErrorView::AccountState(AccountErrorView::Json(error)),
            )
        },
        json_of_text(text) matches Ok(value) ==> {
            let li = max_li(value);
            let stale = li is Some && state.last_private_li is Some && li->0
                < state.last_private_li->0;
            &&& stale ==> {
                &&& manager_after == manager
                &&& state_after == state
                &&& result matches Ok(events) && events.len() == 0
            }
            &&& !stale ==> {
                &&& took_in_message(fill, manager, updates, manager_after, result)
                &&& state_after.positions == state.positions
                &&& state_after.initialized == state.initialized
                &&& state_after.last_private_li == if li is Some {
                    li
                } else {
                    state.last_private_li
                }
            }
        },
{
}

/// A private message is taken in for the channel that it names: reports on orders, fills, or
/// positions. Where something is wrong in fills no events come of them; where something is wrong in
/// the others it is told. A message of another channel changes nothing.
pub proof fn private_messages_go_by_their_channel<
    F: Fn(Order, Option<Binary64>, Option<Binary64>) -> FillNumbers,
>(
    message: PrivateMessage,
    fill: F,
    manager: ManagerView,
    state: AccountView,
    symbols: Seq<Seq<char>>,
    manager_after: ManagerView,
    state_after: AccountView,
    result: Result<Seq<LiveEventView>, PrivateErrorView>,
)
    requires
        message.taken_in(
            fill,
            manager,
            state,
            symbols,
            manager_after,
            state_after,
            result,
        ),
    ensures
        json_of_text(message.text@) matches Err(error) ==> {
            &&& manager_after == manager
            &&& state_after == state
            &&& result == Err::<Seq<LiveEventView>, PrivateErrorView>(PrivateErrorView::Json(error))
        },
        json_of_text(message.text@) matches Ok(value) ==> {
            let channel = json_get(value, "channel"@);
            let of_orders = channel == Some(JsonView::Text("account_order_updates"@));
            let of_fills = channel == Some(JsonView::Text("account_trades"@));
            let of_positions = channel == Some(JsonView::Text("account_positions"@));
            &&& of_orders ==> took_in_if_fresh(
                fill,
                manager,
                state,
                message.text@,
                order_updates_of(message.order_updates),
                manager_after,
                state_after,
                result,
            )
            &&& of_fills ==> result is Ok && {
                ||| took_in_if_fresh(
                    fill,
                    manager,
                    state,
                    message.text@,
                    trade_updates_of(message.trades),
                    manager_after,
                    state_after,
                    result,
                )
                ||| result->Ok_0.len() == 0 && exists|error: PrivateErrorView|
                    took_in_if_fresh(
                        fill,
                        manager,
                        state,
                        message.text@,
                        trade_updates_of(message.trades),
                        manager_after,
                        state_after,
                        Err::<Seq<LiveEventView>, PrivateErrorView>(error),
                    )
            }
            &&& of_positions ==> {
                &&& manager_after == manager
                &&& message.positions matches Err(error) ==> state_after == state && result
                    == Err::<Seq<LiveEventView>, PrivateErrorView>(
                    PrivateErrorView::AccountState(AccountErrorView::Json(error@)),
                )
                &&& message.positions matches Ok(frame) ==> {
                    let (after, events) = state.with_positions(
                        frame.data.deep_view(),
                        frame.last_increment_id,
                        symbols,
                    );
                    &&& state_after == after
                    &&& events matches Ok(events) ==> result == Ok::<
                        Seq<LiveEventView>,
                        PrivateErrorView,
                    >(events)
                    &&& events matches Err(error) ==> result == Err::<
                        Seq<LiveEventView>,
                        PrivateErrorView,
                    >(PrivateErrorView::AccountState(error))
                }
            }
            &&& !of_orders && !of_fills && !of_positions ==> {
                &&& manager_after == manager
                &&& state_after == state
                &&& result matches Ok(events) && events.len() == 0
            }
        },
{
    reveal_strlit("account_order_updates");
    reveal_strlit("account_trades");
    reveal_strlit("account_positions");
    assert("account_order_updates"@.len() == 21);
    assert("account_trades"@.len() == 14);
    assert("account_positions"@.len() == 17);
    if json_of_text(message.text@) is Ok {
        let value = json_of_text(message.text@)->Ok_0;
        if json_get(value, "channel"@) == Some(JsonView::Text("account_trades"@)) {
            let inner = choose|inner: Result<Seq<LiveEventView>, PrivateErrorView>| #[trigger]
                took_in_if_fresh(
                    fill,
                    manager,
                    state,
                    message.text@,
                    trade_updates_of(message.trades),
                    manager_after,
                    state_after,
                    inner,
                ) && result == Ok::<Seq<LiveEventView>, PrivateErrorView>(
                    match inner {
                        Ok(events) => events,
                        Err(_) => Seq::empty(),
                    },
                );
            if inner is Err {
                let error = inner->Err_0;
                assert(inner == Err::<Seq<LiveEventView>, PrivateErrorView>(error));
            }
        }
    }
}

/// What the stream of private messages does about what happens to it: it publishes the events of a
/// message, it answers signs of life, and it leaves where a message is wrong or the socket is lost.
pub proof fn the_private_stream_answers_what_happens(
    input: PrivateInput,
    result: Result<Seq<LiveEventView>, PrivateErrorView>,
)
    ensures
        result matches Ok(events) ==> published(result) == PrivateOutputView::Publish(events),
        result matches Err(error) ==> published(result) == PrivateOutputView::Finish(error),
        input is Tick ==> (plain_answer(input) matches Some(PrivateOutputView::Send(request))
            && json_get(request, "method"@) == Some(JsonView::Text("ping"@))),
        input is Text ==> plain_answer(input) is None,
        input is Ping ==> plain_answer(input) == Some(PrivateOutputView::Pong),
        input is Ignored ==> (plain_answer(input) matches Some(PrivateOutputView::Publish(events))
            && events.len() == 0),
        input is Closed ==> plain_answer(input) == Some(
            PrivateOutputView::Finish(
                PrivateErrorView::WebSocket(WebSocketErrorView::ConnectionInterrupted),
            ),
        ),
        input matches PrivateInput::Failed(error) ==> plain_answer(input) == Some(
            PrivateOutputView::Finish(
                PrivateErrorView::WebSocket(WebSocketErrorView::Tungstenite(error@)),
            ),
        ),
{
    crate::feed_laws::ping_is_a_method();
}

} // verus!
