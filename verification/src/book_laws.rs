//! What becomes of an order in the book, field by field, and what stays as it is.

use crate::connector::GetOrders;
use crate::ordermanager::{
    FillNumbers, ManagerView, OrderExt, OrderManager, OrderManagerError, PacificaOrderStatus,
    PacificaOrderUpdate, UpdateView,
};
use crate::types::{OrdType, Order, OrderId, Side, Status, TimeInForce};
use vstd::prelude::*;

verus! {

/// A new order that is accepted stands in the book under its name exactly as the bot gave it, with
/// no exchange identifier, and everything else in the book stays. The request asks for that order:
/// its symbol, side, price, amount and name, to be added to the book only.
pub proof fn accepted_order_is_stored_as_given(
    book: ManagerView,
    symbol: Seq<char>,
    order: Order,
    price: Seq<char>,
    amount: Seq<char>,
    id: Seq<char>,
)
    requires
        book.with_new_order(symbol, order, price, amount, id).1 is Ok,
    ensures
        ({
            let (after, request) = book.with_new_order(symbol, order, price, amount, id);
            let request = request->Ok_0;
            &&& after.orders.contains_key(id)
            &&& after.orders[id].order == order
            &&& after.orders[id].symbol == symbol
            &&& after.orders[id].client_order_id == id
            &&& after.orders[id].exchange_order_id is None
            &&& forall|other: Seq<char>|
                #![trigger after.orders.contains_key(other)]
                #![trigger after.orders[other]]
                other != id ==> after.orders.contains_key(other) == book.orders.contains_key(other)
                    && after.orders[other] == book.orders[other]
            &&& after.order_ids.contains_key((symbol, order.order_id))
            &&& after.order_ids[(symbol, order.order_id)] == id
            &&& forall|key: (Seq<char>, OrderId)|
                #![trigger after.order_ids.contains_key(key)]
                #![trigger after.order_ids[key]]
                key != (symbol, order.order_id) ==> after.order_ids.contains_key(key)
                    == book.order_ids.contains_key(key) && after.order_ids[key]
                    == book.order_ids[key]
            &&& after.pending_creates.contains_key((symbol, request.side, price))
            &&& after.pending_creates[(symbol, request.side, price)] == id
            &&& forall|key: (Seq<char>, Seq<char>, Seq<char>)|
                #![trigger after.pending_creates.contains_key(key)]
                #![trigger after.pending_creates[key]]
                key != (symbol, request.side, price) ==> after.pending_creates.contains_key(key)
                    == book.pending_creates.contains_key(key) && after.pending_creates[key]
                    == book.pending_creates[key]
            &&& after.exchange_ids == book.exchange_ids
            &&& after.pending_edits == book.pending_edits
            &&& request.symbol == symbol
            &&& request.price == price
            &&& request.amount == amount
            &&& request.client_order_id == id
            &&& order.side == Side::Buy ==> request.side == "bid"@
            &&& order.side == Side::Sell ==> request.side == "ask"@
            &&& request.tif == "ALO"@
            &&& !request.reduce_only
        }),
{
}

/// A new order is accepted where it is a limit order that only adds to the book and buys or sells,
/// and where neither its number nor its name is taken; otherwise the first thing that is wrong is
/// told, and the book stays.
pub proof fn orders_are_accepted_where_they_can_be_placed(
    book: ManagerView,
    symbol: Seq<char>,
    order: Order,
    price: Seq<char>,
    amount: Seq<char>,
    id: Seq<char>,
)
    ensures
        ({
            let (after, request) = book.with_new_order(symbol, order, price, amount, id);
            let kind = order.order_type == OrdType::Limit;
            let adds = order.time_in_force == TimeInForce::GTX;
            let sided = order.side == Side::Buy || order.side == Side::Sell;
            let taken = book.order_ids.contains_key((symbol, order.order_id))
                || book.orders.contains_key(id);
            &&& request is Ok <==> kind && adds && sided && !taken
            &&& request is Err ==> after == book
            &&& !kind ==> (request matches Err(OrderManagerError::InvalidArg(arg)) && arg@
                == "order_type"@)
            &&& kind && !adds ==> (request matches Err(OrderManagerError::InvalidArg(arg)) && arg@
                == "time_in_force"@)
            &&& kind && adds && !sided ==> (request matches Err(OrderManagerError::InvalidArg(arg))
                && arg@ == "side"@)
            &&& kind && adds && sided && taken ==> (request matches Err(
                OrderManagerError::OrderAlreadyExists,
            ))
        }),
{
}

/// The request that cancels an order names it by its symbol and its client identifier; there is
/// one for every order that the bot has.
pub proof fn cancel_requests_name_the_order(
    book: ManagerView,
    symbol: Seq<char>,
    order_id: OrderId,
)
    ensures
        ({
            let request = book.cancel_request(symbol, order_id);
            if book.order_ids.contains_key((symbol, order_id)) {
                request matches Ok(cancel) && cancel.symbol == symbol && cancel.client_order_id
                    == book.order_ids[(symbol, order_id)]
            } else {
                request matches Err(OrderManagerError::OrderNotFound)
            }
        }),
{
}

/// A replacement that is accepted puts the new order in place of the old one under the same name,
/// symbol and exchange identifier, and keeps the old one until the exchange answers. Everything
/// else stays, and the request asks for the new price and amount under that name.
pub proof fn accepted_replacement_takes_the_place_of_the_order(
    book: ManagerView,
    symbol: Seq<char>,
    order: Order,
    price: Seq<char>,
    amount: Seq<char>,
)
    requires
        book.with_edit(symbol, order, price, amount).1 is Ok,
    ensures
        ({
            let (after, request) = book.with_edit(symbol, order, price, amount);
            let request = request->Ok_0;
            let id = book.order_ids[(symbol, order.order_id)];
            &&& request.client_order_id == id
            &&& request.symbol == symbol
            &&& request.price == price
            &&& request.amount == amount
            &&& after.orders.contains_key(id)
            &&& after.orders[id].order == order
            &&& after.orders[id].symbol == book.orders[id].symbol
            &&& after.orders[id].client_order_id == book.orders[id].client_order_id
            &&& after.orders[id].exchange_order_id == book.orders[id].exchange_order_id
            &&& after.pending_edits.contains_key(id)
            &&& after.pending_edits[id] == book.orders[id].order
            &&& forall|other: Seq<char>|
                #![trigger after.orders.contains_key(other)]
                #![trigger after.orders[other]]
                other != id ==> after.orders.contains_key(other) == book.orders.contains_key(other)
                    && after.orders[other] == book.orders[other]
            &&& forall|other: Seq<char>|
                #![trigger after.pending_edits.contains_key(other)]
                #![trigger after.pending_edits[other]]
                other != id ==> after.pending_edits.contains_key(other)
                    == book.pending_edits.contains_key(other) && after.pending_edits[other]
                    == book.pending_edits[other]
            &&& after.order_ids == book.order_ids
            &&& after.exchange_ids == book.exchange_ids
            &&& after.pending_creates == book.pending_creates
        }),
{
}

/// A replacement is accepted where it is one of an order that is in the market, for an order that
/// could be placed; otherwise the first thing that is wrong is told, and the book stays.
pub proof fn replacements_are_accepted_where_they_can_be_placed(
    book: ManagerView,
    symbol: Seq<char>,
    order: Order,
    price: Seq<char>,
    amount: Seq<char>,
)
    ensures
        ({
            let (after, request) = book.with_edit(symbol, order, price, amount);
            let key = (symbol, order.order_id);
            let id = book.order_ids[key];
            let kind = order.order_type == OrdType::Limit;
            let adds = order.time_in_force == TimeInForce::GTX;
            let sided = order.side == Side::Buy || order.side == Side::Sell;
            let replaces = order.req == Status::Replaced;
            let known = book.order_ids.contains_key(key) && book.orders.contains_key(id);
            let works = book.orders[id].order.status == Status::New || book.orders[id].order.status
                == Status::PartiallyFilled;
            let placed = kind && adds && sided;
            &&& request is Ok <==> placed && replaces && known && works
            &&& request is Err ==> after == book
            &&& !kind ==> (request matches Err(OrderManagerError::InvalidArg(arg)) && arg@
                == "order_type"@)
            &&& kind && !adds ==> (request matches Err(OrderManagerError::InvalidArg(arg)) && arg@
                == "time_in_force"@)
            &&& kind && adds && !sided ==> (request matches Err(OrderManagerError::InvalidArg(arg))
                && arg@ == "side"@)
            &&& placed && !replaces ==> (request matches Err(OrderManagerError::InvalidArg(arg))
                && arg@ == "req"@)
            &&& placed && replaces && !known ==> (request matches Err(
                OrderManagerError::OrderNotFound,
            ))
            &&& placed && replaces && known && !works ==> (request matches Err(
                OrderManagerError::InvalidArg(arg),
            ) && arg@ == "status"@)
        }),
{
}

/// An acknowledged replacement leaves the order as it is, new and with no request under way, and
/// there is nothing left to go back to. An unknown name is told, and everything else stays.
pub proof fn acknowledgement_settles_the_order(book: ManagerView, id: Seq<char>)
    ensures
        ({
            let (after, answer) = book.with_edit_ack(id);
            let before = book.orders[id];
            &&& answer is Ok <==> book.orders.contains_key(id)
            &&& answer is Err ==> (answer matches Err(OrderManagerError::OrderNotFound))
                && after.orders == book.orders
            &&& answer matches Ok(order) ==> {
                &&& after.orders.contains_key(id)
                &&& after.orders[id] == order
                &&& order.symbol == before.symbol
                &&& order.client_order_id == before.client_order_id
                &&& order.exchange_order_id == before.exchange_order_id
                &&& order.order == Order { req: Status::Unset, status: Status::New, ..before.order }
            }
            &&& !after.pending_edits.contains_key(id)
            &&& forall|other: Seq<char>|
                #![trigger after.orders.contains_key(other)]
                #![trigger after.orders[other]]
                #![trigger after.pending_edits.contains_key(other)]
                #![trigger after.pending_edits[other]]
                other != id ==> {
                    &&& after.orders.contains_key(other) == book.orders.contains_key(other)
                    &&& after.orders[other] == book.orders[other]
                    &&& after.pending_edits.contains_key(other) == book.pending_edits.contains_key(
                        other,
                    )
                    &&& after.pending_edits[other] == book.pending_edits[other]
                }
            &&& after.order_ids == book.order_ids
            &&& after.exchange_ids == book.exchange_ids
            &&& after.pending_creates == book.pending_creates
        }),
{
}

/// A refused replacement puts back the order that was kept, with no request under way and in the
/// market. Where nothing was kept, or the order is gone, that is told. Everything else stays.
pub proof fn refusal_puts_the_order_back(book: ManagerView, id: Seq<char>)
    ensures
        ({
            let (after, answer) = book.with_edit_fail(id);
            let before = book.orders[id];
            let kept = book.pending_edits[id];
            &&& answer is Ok <==> book.pending_edits.contains_key(id) && book.orders.contains_key(id)
            &&& answer is Err ==> (answer matches Err(OrderManagerError::OrderNotFound))
                && after.orders == book.orders
            &&& answer matches Ok(order) ==> {
                &&& after.orders.contains_key(id)
                &&& after.orders[id] == order
                &&& order.symbol == before.symbol
                &&& order.client_order_id == before.client_order_id
                &&& order.exchange_order_id == before.exchange_order_id
                &&& order.order == Order {
                    req: Status::Unset,
                    status: if kept.status == Status::PartiallyFilled {
                        Status::PartiallyFilled
                    } else {
                        Status::New
                    },
                    ..kept
                }
            }
            &&& !after.pending_edits.contains_key(id)
            &&& forall|other: Seq<char>|
                #![trigger after.orders.contains_key(other)]
                #![trigger after.orders[other]]
                #![trigger after.pending_edits.contains_key(other)]
                #![trigger after.pending_edits[other]]
                other != id ==> {
                    &&& after.orders.contains_key(other) == book.orders.contains_key(other)
                    &&& after.orders[other] == book.orders[other]
                    &&& after.pending_edits.contains_key(other) == book.pending_edits.contains_key(
                        other,
                    )
                    &&& after.pending_edits[other] == book.pending_edits[other]
                }
            &&& after.order_ids == book.order_ids
            &&& after.exchange_ids == book.exchange_ids
            &&& after.pending_creates == book.pending_creates
        }),
{
}

/// An order that the exchange names is found by that name and no longer by an earlier one; it is
/// new, with no request under way and nothing to go back to. Everything else stays.
pub proof fn naming_an_order_settles_it(
    book: ManagerView,
    id: Seq<char>,
    exchange_order_id: i64,
)
    ensures
        ({
            let (after, answer) = book.with_exchange_order_id(id, exchange_order_id);
            let before = book.orders[id];
            &&& answer is Ok <==> book.orders.contains_key(id)
            &&& answer is Err ==> (answer matches Err(OrderManagerError::OrderNotFound)) && after
                == book
            &&& answer matches Ok(order) ==> {
                &&& after.orders.contains_key(id)
                &&& after.orders[id] == order
                &&& order.symbol == before.symbol
                &&& order.client_order_id == before.client_order_id
                &&& order.exchange_order_id == Some(exchange_order_id)
                &&& order.order == Order { req: Status::Unset, status: Status::New, ..before.order }
                &&& !after.pending_edits.contains_key(id)
                &&& after.exchange_ids.contains_key(exchange_order_id)
                &&& after.exchange_ids[exchange_order_id] == id
                &&& forall|n: i64|
                    #![trigger after.exchange_ids.contains_key(n)]
                    #![trigger after.exchange_ids[n]]
                    n != exchange_order_id ==> if before.exchange_order_id == Some(n) {
                        !after.exchange_ids.contains_key(n)
                    } else {
                        after.exchange_ids.contains_key(n) == book.exchange_ids.contains_key(n)
                            && after.exchange_ids[n] == book.exchange_ids[n]
                    }
            }
            &&& forall|other: Seq<char>|
                #![trigger after.orders.contains_key(other)]
                #![trigger after.orders[other]]
                #![trigger after.pending_edits.contains_key(other)]
                #![trigger after.pending_edits[other]]
                other != id ==> {
                    &&& after.orders.contains_key(other) == book.orders.contains_key(other)
                    &&& after.orders[other] == book.orders[other]
                    &&& after.pending_edits.contains_key(other) == book.pending_edits.contains_key(
                        other,
                    )
                    &&& after.pending_edits[other] == book.pending_edits[other]
                }
            &&& after.order_ids == book.order_ids
            &&& after.pending_creates == book.pending_creates
        }),
{
}

/// An order that the exchange did not take is told as rejected, and neither its name nor its
/// number nor its exchange identifier leads to it any more. Everything else stays.
pub proof fn refused_order_is_taken_out(book: ManagerView, id: Seq<char>)
    ensures
        ({
            let (after, answer) = book.with_submit_fail(id);
            let before = book.orders[id];
            &&& answer is Ok <==> book.orders.contains_key(id)
            &&& answer is Err ==> (answer matches Err(OrderManagerError::OrderNotFound)) && after
                == book
            &&& answer matches Ok(order) ==> {
                &&& order.symbol == before.symbol
                &&& order.client_order_id == before.client_order_id
                &&& order.exchange_order_id == before.exchange_order_id
                &&& order.order == Order {
                    req: Status::Unset,
                    status: Status::Rejected,
                    ..before.order
                }
                &&& !after.orders.contains_key(id)
                &&& forall|key: (Seq<char>, OrderId)|
                    #![trigger after.order_ids.contains_key(key)]
                    #![trigger after.order_ids[key]]
                    if key == (before.symbol, before.order.order_id) {
                        !after.order_ids.contains_key(key)
                    } else {
                        after.order_ids.contains_key(key) == book.order_ids.contains_key(key)
                            && after.order_ids[key] == book.order_ids[key]
                    }
                &&& forall|n: i64|
                    #![trigger after.exchange_ids.contains_key(n)]
                    #![trigger after.exchange_ids[n]]
                    if before.exchange_order_id == Some(n) {
                        !after.exchange_ids.contains_key(n)
                    } else {
                        after.exchange_ids.contains_key(n) == book.exchange_ids.contains_key(n)
                            && after.exchange_ids[n] == book.exchange_ids[n]
                    }
            }
            &&& forall|other: Seq<char>|
                #![trigger after.orders.contains_key(other)]
                #![trigger after.orders[other]]
                other != id ==> after.orders.contains_key(other) == book.orders.contains_key(other)
                    && after.orders[other] == book.orders[other]
            &&& after.pending_creates == book.pending_creates
            &&& after.pending_edits == book.pending_edits
        }),
{
}

/// An order whose cancelling failed is told as new, with no request under way, and stays in the
/// book under all its names. Everything else stays.
pub proof fn failed_cancel_settles_the_order(book: ManagerView, id: Seq<char>)
    ensures
        ({
            let (after, answer) = book.with_cancel_fail(id);
            let before = book.orders[id];
            &&& answer is Ok <==> book.orders.contains_key(id)
            &&& answer is Err ==> (answer matches Err(OrderManagerError::OrderNotFound)) && after
                == book
            &&& answer matches Ok(order) ==> {
                &&& after.orders.contains_key(id)
                &&& after.orders[id] == order
                &&& order.symbol == before.symbol
                &&& order.client_order_id == before.client_order_id
                &&& order.exchange_order_id == before.exchange_order_id
                &&& order.order == Order { req: Status::Unset, status: Status::New, ..before.order }
            }
            &&& forall|other: Seq<char>|
                #![trigger after.orders.contains_key(other)]
                #![trigger after.orders[other]]
                other != id ==> after.orders.contains_key(other) == book.orders.contains_key(other)
                    && after.orders[other] == book.orders[other]
            &&& after.order_ids == book.order_ids
            &&& after.exchange_ids == book.exchange_ids
            &&& after.pending_creates == book.pending_creates
            &&& after.pending_edits == book.pending_edits
        }),
{
}

/// A report that names a client identifier is about the order of that name, or about none. Without
/// one, it is about the order of its exchange identifier; and where none has that, about the order
/// that was placed at its symbol, side and price.
pub proof fn reports_find_their_order(book: ManagerView, update: UpdateView)
    ensures
        ({
            let target = book.update_target(update);
            let by_exchange = update.exchange_order_id matches Some(n)
                && book.exchange_ids.contains_key(n);
            let level = (update.symbol, update.side->0, update.price->0);
            let by_level = update.side is Some && update.price is Some
                && book.pending_creates.contains_key(level);
            &&& update.client_order_id matches Some(id) ==> if book.orders.contains_key(id) {
                target == Ok::<Seq<char>, OrderManagerError>(id)
            } else {
                target matches Err(OrderManagerError::UnresolvedUpdate)
            }
            &&& update.client_order_id is None && by_exchange ==> {
                let id = book.exchange_ids[update.exchange_order_id->0];
                if book.orders.contains_key(id) {
                    target == Ok::<Seq<char>, OrderManagerError>(id)
                } else {
                    target matches Err(OrderManagerError::OrderNotFound)
                }
            }
            &&& update.client_order_id is None && !by_exchange && by_level ==> {
                let id = book.pending_creates[level];
                if book.orders.contains_key(id) {
                    target == Ok::<Seq<char>, OrderManagerError>(id)
                } else {
                    target matches Err(OrderManagerError::OrderNotFound)
                }
            }
            &&& update.client_order_id is None && !by_exchange && !by_level ==> (target matches Err(
                OrderManagerError::UnresolvedUpdate,
            ))
        }),
{
}

/// What a report makes of its order. The state is the reported one, at the reported time and with
/// no request under way. A reported quantity that is left counts, and so does a reported executed
/// quantity, unless the report is of one more fill: then the numbers of the fill count, and the
/// order is filled where nothing above the smallest step from one is left. Nothing else changes.
pub proof fn reported_orders_follow_the_report(
    book: ManagerView,
    id: Seq<char>,
    update: UpdateView,
    numbers: FillNumbers,
)
    ensures
        ({
            let before = book.orders[id];
            let after = book.updated_order(id, update, numbers);
            let fill = update.status == PacificaOrderStatus::PartiallyFilled && update.leaves_qty
                is None && update.exec_qty is Some;
            let bits = numbers.leaves_qty.bits;
            let nothing_left = bits <= 0x3cb0_0000_0000_0000 || (0x8000_0000_0000_0000 <= bits
                && bits <= 0xfff0_0000_0000_0000);
            &&& after.symbol == before.symbol
            &&& after.client_order_id == before.client_order_id
            &&& after.exchange_order_id == (if update.exchange_order_id is Some {
                update.exchange_order_id
            } else {
                before.exchange_order_id
            })
            &&& after.order.req == Status::Unset
            &&& after.order.exch_timestamp == update.exch_timestamp
            &&& update.status == PacificaOrderStatus::Open ==> after.order.status == Status::New
            &&& update.status == PacificaOrderStatus::Filled ==> after.order.status
                == Status::Filled
            &&& update.status == PacificaOrderStatus::Cancelled ==> after.order.status
                == Status::Canceled
            &&& update.status == PacificaOrderStatus::Rejected ==> after.order.status
                == Status::Rejected
            &&& update.status == PacificaOrderStatus::PartiallyFilled ==> after.order.status == (
            if fill && nothing_left {
                Status::Filled
            } else {
                Status::PartiallyFilled
            })
            &&& fill ==> after.order.leaves_qty == numbers.leaves_qty && after.order.exec_qty
                == numbers.exec_qty
            &&& !fill ==> after.order.leaves_qty == (match update.leaves_qty {
                Some(leaves_qty) => leaves_qty,
                None => before.order.leaves_qty,
            })
            &&& !fill ==> after.order.exec_qty == (match update.exec_qty {
                Some(exec_qty) => exec_qty,
                None => before.order.exec_qty,
            })
            &&& after.order.exec_price_tick == (if update.exec_price is Some {
                numbers.exec_price_tick
            } else {
                before.order.exec_price_tick
            })
            &&& after.order.qty == before.order.qty
            &&& after.order.price_tick == before.order.price_tick
            &&& after.order.tick_size == before.order.tick_size
            &&& after.order.local_timestamp == before.order.local_timestamp
            &&& after.order.order_id == before.order.order_id
            &&& after.order.maker == before.order.maker
            &&& after.order.order_type == before.order.order_type
            &&& after.order.side == before.order.side
            &&& after.order.time_in_force == before.order.time_in_force
        }),
{
}

/// What a report makes of the book. The order stands there as reported, unless it is filled,
/// cancelled or rejected: then neither its name nor its number nor its exchange identifier leads to
/// it. A reported exchange identifier takes the place of the earlier one. There is nothing to go
/// back to, and the reported price level waits for no order any more. Everything else stays.
pub proof fn reports_change_the_book_for_their_order(
    book: ManagerView,
    update: UpdateView,
    numbers: FillNumbers,
)
    requires
        book.update_target(update) is Ok,
    ensures
        ({
            let id = book.update_target(update)->Ok_0;
            let before = book.orders[id];
            let order = book.updated_order(id, update, numbers);
            let after = book.with_update(id, update, numbers);
            let done = order.order.status == Status::Filled || update.status
                == PacificaOrderStatus::Filled || update.status == PacificaOrderStatus::Cancelled
                || update.status == PacificaOrderStatus::Rejected;
            let old_name = before.exchange_order_id;
            let new_name = update.exchange_order_id;
            &&& done ==> !after.orders.contains_key(id)
            &&& !done ==> after.orders.contains_key(id) && after.orders[id] == order
            &&& !after.pending_edits.contains_key(id)
            &&& forall|other: Seq<char>|
                #![trigger after.orders.contains_key(other)]
                #![trigger after.orders[other]]
                #![trigger after.pending_edits.contains_key(other)]
                #![trigger after.pending_edits[other]]
                other != id ==> {
                    &&& after.orders.contains_key(other) == book.orders.contains_key(other)
                    &&& after.orders[other] == book.orders[other]
                    &&& after.pending_edits.contains_key(other) == book.pending_edits.contains_key(
                        other,
                    )
                    &&& after.pending_edits[other] == book.pending_edits[other]
                }
            &&& forall|key: (Seq<char>, OrderId)|
                #![trigger after.order_ids.contains_key(key)]
                #![trigger after.order_ids[key]]
                if done && key == (before.symbol, before.order.order_id) {
                    !after.order_ids.contains_key(key)
                } else {
                    after.order_ids.contains_key(key) == book.order_ids.contains_key(key)
                        && after.order_ids[key] == book.order_ids[key]
                }
            &&& forall|n: i64|
                #![trigger after.exchange_ids.contains_key(n)]
                #![trigger after.exchange_ids[n]]
                if new_name == Some(n) || (new_name is None && old_name == Some(n)) {
                    if done {
                        !after.exchange_ids.contains_key(n)
                    } else if new_name == Some(n) {
                        after.exchange_ids.contains_key(n) && after.exchange_ids[n] == id
                    } else {
                        after.exchange_ids.contains_key(n) == book.exchange_ids.contains_key(n)
                            && after.exchange_ids[n] == book.exchange_ids[n]
                    }
                } else if old_name == Some(n) {
                    !after.exchange_ids.contains_key(n)
                } else {
                    after.exchange_ids.contains_key(n) == book.exchange_ids.contains_key(n)
                        && after.exchange_ids[n] == book.exchange_ids[n]
                }
            &&& forall|key: (Seq<char>, Seq<char>, Seq<char>)|
                #![trigger after.pending_creates.contains_key(key)]
                #![trigger after.pending_creates[key]]
                if update.side is Some && update.price is Some && key == (
                    update.symbol,
                    update.side->0,
                    update.price->0,
                ) {
                    !after.pending_creates.contains_key(key)
                } else {
                    after.pending_creates.contains_key(key) == book.pending_creates.contains_key(key)
                        && after.pending_creates[key] == book.pending_creates[key]
                }
        }),
{
}

/// The list of working orders holds every order of the book that is new or filled in part, of the
/// symbol where one is given, and nothing else: every place of the list has an order of its own.
pub proof fn working_orders_are_listed(
    manager: OrderManager,
    symbol: Option<Seq<char>>,
    listed: Seq<Order>,
)
    requires
        manager.lists(symbol, listed),
    ensures
        forall|id: Seq<char>| #[trigger]
            manager@.orders.contains_key(id) && (manager@.orders[id].order.status == Status::New
                || manager@.orders[id].order.status == Status::PartiallyFilled) && (symbol is None
                || manager@.orders[id].symbol == symbol->0) ==> listed.contains(
                manager@.orders[id].order,
            ),
        exists|ids: Seq<Seq<char>>| #[trigger]
            ids.no_duplicates() && ids.len() == listed.len() && forall|i: int|
                0 <= i < listed.len() ==> {
                    &&& manager@.orders.contains_key(#[trigger] ids[i])
                    &&& listed[i] == manager@.orders[ids[i]].order
                    &&& listed[i].status == Status::New || listed[i].status
                        == Status::PartiallyFilled
                    &&& symbol is None || manager@.orders[ids[i]].symbol == symbol->0
                },
{
    let ids = choose|ids: Seq<Seq<char>>| #[trigger]
        ids.no_duplicates() && ids.to_set() == Set::new(
            |id: Seq<char>| manager@.works(id, symbol),
        ) && listed == ids.map_values(|id: Seq<char>| manager@.orders[id].order);
    assert forall|i: int| 0 <= i < listed.len() implies {
        &&& manager@.orders.contains_key(#[trigger] ids[i])
        &&& listed[i] == manager@.orders[ids[i]].order
        &&& listed[i].status == Status::New || listed[i].status == Status::PartiallyFilled
        &&& symbol is None || manager@.orders[ids[i]].symbol == symbol->0
    } by {
        assert(ids.to_set().contains(ids[i]));
        assert(manager@.works(ids[i], symbol));
    }
    assert forall|id: Seq<char>| #[trigger]
        manager@.orders.contains_key(id) && (manager@.orders[id].order.status == Status::New
            || manager@.orders[id].order.status == Status::PartiallyFilled) && (symbol is None
            || manager@.orders[id].symbol == symbol->0) implies listed.contains(
        manager@.orders[id].order,
    ) by {
        assert(manager@.works(id, symbol));
        assert(ids.to_set().contains(id));
        let i = choose|i: int| 0 <= i < ids.len() && ids[i] == id;
        assert(listed[i] == manager@.orders[id].order);
    }
}

/// What is said of an order, of a report and of a refusal is what stands in them.
pub proof fn orders_and_reports_say_what_they_hold(
    order: OrderExt,
    update: PacificaOrderUpdate,
)
    ensures
        order@.symbol == order.symbol@,
        order@.client_order_id == order.client_order_id@,
        order@.exchange_order_id == order.exchange_order_id,
        order@.order == order.order,
        update@.symbol == update.symbol@,
        update@.client_order_id is Some == update.client_order_id is Some,
        update.client_order_id matches Some(id) ==> update@.client_order_id == Some(id@),
        update@.exchange_order_id == update.exchange_order_id,
        update@.side is Some == update.side is Some,
        update.side matches Some(side) ==> update@.side == Some(side@),
        update@.price is Some == update.price is Some,
        update.price matches Some(price) ==> update@.price == Some(price@),
        update@.status == update.status,
        update@.leaves_qty == update.leaves_qty,
        update@.exec_qty == update.exec_qty,
        update@.exec_price == update.exec_price,
        update@.exch_timestamp == update.exch_timestamp,
{
}

} // verus!
