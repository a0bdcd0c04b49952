//! What holds of the book of orders whatever happens to it.

use crate::order_payload::EditOrderView;
use crate::ordermanager::{
    FillNumbers, ManagerView, OrderExtView, OrderManagerError, PacificaOrderStatus, UpdateView,
};
use crate::types::{Order, OrderId, Status};
use vstd::prelude::*;

verus! {

impl ManagerView {
    /// The names of the book fit together: an order stands under its own client identifier; the
    /// bot's name of an order leads to it, and to nothing else; an exchange identifier leads to
    /// an order that has it; and what an order was before a replacement has the same number.
    pub open spec fn consistent(self) -> bool {
        &&& forall|id: Seq<char>| #[trigger]
            self.orders.contains_key(id) ==> self.orders[id].client_order_id == id
        &&& forall|id: Seq<char>| #[trigger]
            self.orders.contains_key(id) ==> {
                let key = (self.orders[id].symbol, self.orders[id].order.order_id);
                self.order_ids.contains_key(key) && self.order_ids[key] == id
            }
        &&& forall|key: (Seq<char>, OrderId)| #[trigger]
            self.order_ids.contains_key(key) ==> {
                let id = self.order_ids[key];
                &&& self.orders.contains_key(id)
                &&& self.orders[id].symbol == key.0
                &&& self.orders[id].order.order_id == key.1
            }
        &&& forall|exchange_id: i64| #[trigger]
            self.exchange_ids.contains_key(exchange_id) ==> {
                let id = self.exchange_ids[exchange_id];
                &&& self.orders.contains_key(id)
                &&& self.orders[id].exchange_order_id == Some(exchange_id)
            }
        &&& forall|id: Seq<char>| #[trigger]
            self.pending_edits.contains_key(id) && self.orders.contains_key(id)
                ==> self.pending_edits[id].order_id == self.orders[id].order.order_id
    }
}

/// An empty book is consistent.
pub proof fn empty_book_is_consistent()
    ensures
        ManagerView::empty().consistent(),
{
}

/// Taking in an order keeps the book consistent, unless its name belonged to an order that left
/// the book while a replacement of it was under way.
pub proof fn new_order_keeps_consistency(
    book: ManagerView,
    symbol: Seq<char>,
    order: Order,
    price: Seq<char>,
    amount: Seq<char>,
    id: Seq<char>,
)
    requires
        book.consistent(),
        !book.pending_edits.contains_key(id),
    ensures
        book.with_new_order(symbol, order, price, amount, id).0.consistent(),
{
}

/// Replacing an order keeps the book consistent.
pub proof fn edit_keeps_consistency(
    book: ManagerView,
    symbol: Seq<char>,
    order: Order,
    price: Seq<char>,
    amount: Seq<char>,
)
    requires
        book.consistent(),
    ensures
        book.with_edit(symbol, order, price, amount).0.consistent(),
{
}

/// The answers to a request, good or bad, keep the book consistent.
pub proof fn answers_keep_consistency(book: ManagerView, id: Seq<char>, exchange_order_id: i64)
    requires
        book.consistent(),
    ensures
        book.with_edit_ack(id).0.consistent(),
        book.with_edit_fail(id).0.consistent(),
        book.with_submit_fail(id).0.consistent(),
        book.with_cancel_fail(id).0.consistent(),
        book.with_exchange_order_id(id, exchange_order_id).0.consistent(),
{
}

/// A report keeps the book consistent.
pub proof fn update_keeps_consistency(
    book: ManagerView,
    update: UpdateView,
    numbers: FillNumbers,
)
    requires
        book.consistent(),
        book.update_target(update) is Ok,
    ensures
        book.with_update(book.update_target(update)->Ok_0, update, numbers).consistent(),
{
}

/// In a consistent book a replacement is refused as unknown only where the bot has no such order,
/// and exactly the orders of the book can be cancelled.
pub proof fn refusals_of_a_consistent_book(
    book: ManagerView,
    symbol: Seq<char>,
    order: Order,
    price: Seq<char>,
    amount: Seq<char>,
)
    requires
        book.consistent(),
    ensures
        book.with_edit(symbol, order, price, amount).1 == Err::<EditOrderView, OrderManagerError>(
            OrderManagerError::OrderNotFound,
        ) ==> !book.order_ids.contains_key((symbol, order.order_id)),
        book.cancel_request(symbol, order.order_id) is Ok <==> exists|id: Seq<char>| #[trigger]
            book.orders.contains_key(id) && book.orders[id].symbol == symbol
                && book.orders[id].order.order_id == order.order_id,
{
    if book.cancel_request(symbol, order.order_id) is Ok {
        assert(book.orders.contains_key(book.order_ids[(symbol, order.order_id)]));
    }
}

/// An order that was taken in is cancelled under the name under which it was placed, and a second
/// order of that number is refused, under any name.
pub proof fn new_order_is_known(
    book: ManagerView,
    symbol: Seq<char>,
    order: Order,
    price: Seq<char>,
    amount: Seq<char>,
    id: Seq<char>,
    again: Order,
    other_id: Seq<char>,
)
    requires
        book.with_new_order(symbol, order, price, amount, id).1 is Ok,
        again.order_id == order.order_id,
    ensures
        ({
            let (after, request) = book.with_new_order(symbol, order, price, amount, id);
            &&& request->Ok_0.client_order_id == id
            &&& after.cancel_request(symbol, order.order_id) matches Ok(cancel)
                && cancel.client_order_id == id && cancel.symbol == symbol
            &&& after.with_new_order(symbol, again, price, amount, other_id).0 == after
            &&& after.with_new_order(symbol, again, price, amount, other_id).1 is Err
        }),
{
}

/// Replacing an order keeps its number and its names: it is cancelled under the same name, which
/// is also the name in the request.
pub proof fn edit_keeps_names(
    book: ManagerView,
    symbol: Seq<char>,
    order: Order,
    price: Seq<char>,
    amount: Seq<char>,
)
    requires
        book.with_edit(symbol, order, price, amount).1 is Ok,
    ensures
        ({
            let (after, request) = book.with_edit(symbol, order, price, amount);
            let id = request->Ok_0.client_order_id;
            &&& book.order_ids[(symbol, order.order_id)] == id
            &&& after.cancel_request(symbol, order.order_id) == book.cancel_request(
                symbol,
                order.order_id,
            )
            &&& after.orders[id].exchange_order_id == book.orders[id].exchange_order_id
            &&& after.orders[id].order == order
        }),
{
}

/// A refused replacement leaves no trace but for an earlier one that was under way: the order is
/// what it was, with no request under way.
pub proof fn refused_edit_is_undone(
    book: ManagerView,
    symbol: Seq<char>,
    order: Order,
    price: Seq<char>,
    amount: Seq<char>,
)
    requires
        book.with_edit(symbol, order, price, amount).1 is Ok,
    ensures
        ({
            let (asked, request) = book.with_edit(symbol, order, price, amount);
            let id = request->Ok_0.client_order_id;
            let (after, restored) = asked.with_edit_fail(id);
            &&& restored == Ok::<OrderExtView, OrderManagerError>(
                book.orders[id].settled(book.orders[id].order.status),
            )
            &&& after == book.without_pending_edit(id).with_order(id, restored->Ok_0)
        }),
{
    let (asked, request) = book.with_edit(symbol, order, price, amount);
    let id = request->Ok_0.client_order_id;
    let (after, restored) = asked.with_edit_fail(id);
    let expected = book.without_pending_edit(id).with_order(id, restored->Ok_0);
    assert(after.orders =~= expected.orders);
    assert(after.pending_edits =~= expected.pending_edits);
}

/// An acknowledged replacement stands, and a second answer to it is refused as unknown.
pub proof fn acknowledged_edit_stands(
    book: ManagerView,
    symbol: Seq<char>,
    order: Order,
    price: Seq<char>,
    amount: Seq<char>,
)
    requires
        book.with_edit(symbol, order, price, amount).1 is Ok,
    ensures
        ({
            let (asked, request) = book.with_edit(symbol, order, price, amount);
            let id = request->Ok_0.client_order_id;
            let (after, active) = asked.with_edit_ack(id);
            &&& active matches Ok(active) && active.order == (Order {
                req: Status::Unset,
                status: Status::New,
                ..order
            })
            &&& after.with_edit_fail(id).1 == Err::<OrderExtView, OrderManagerError>(
                OrderManagerError::OrderNotFound,
            )
        }),
{
}

/// An order that is done, or that the exchange did not take, leaves the book: no identifier
/// leads to it, and it cannot be cancelled.
pub proof fn done_orders_leave(book: ManagerView, update: UpdateView, numbers: FillNumbers)
    requires
        book.consistent(),
        book.update_target(update) is Ok,
        update.ends_order() || book.updated_order(
            book.update_target(update)->Ok_0,
            update,
            numbers,
        ).order.status == Status::Filled,
    ensures
        ({
            let id = book.update_target(update)->Ok_0;
            let after = book.with_update(id, update, numbers);
            let gone = book.orders[id];
            &&& !after.orders.contains_key(id)
            &&& after.cancel_request(gone.symbol, gone.order.order_id) is Err
            &&& forall|exchange_id: i64| #[trigger]
                after.exchange_ids.contains_key(exchange_id) ==> after.exchange_ids[exchange_id]
                    != id
        }),
{
    update_keeps_consistency(book, update, numbers);
}

/// An order that the exchange did not take leaves the book.
pub proof fn rejected_orders_leave(book: ManagerView, id: Seq<char>)
    requires
        book.consistent(),
        book.orders.contains_key(id),
    ensures
        ({
            let after = book.with_submit_fail(id).0;
            let gone = book.orders[id];
            &&& book.with_submit_fail(id).1 matches Ok(order) && order.order.status
                == Status::Rejected
            &&& !after.orders.contains_key(id)
            &&& after.cancel_request(gone.symbol, gone.order.order_id) is Err
            &&& forall|exchange_id: i64| #[trigger]
                after.exchange_ids.contains_key(exchange_id) ==> after.exchange_ids[exchange_id]
                    != id
        }),
{
    answers_keep_consistency(book, id, 0);
}

/// A report changes no other order, and never the number, symbol, side or name of its own.
pub proof fn update_changes_one_order(
    book: ManagerView,
    update: UpdateView,
    numbers: FillNumbers,
    other: Seq<char>,
)
    requires
        book.update_target(update) is Ok,
        other != book.update_target(update)->Ok_0,
    ensures
        ({
            let id = book.update_target(update)->Ok_0;
            let after = book.with_update(id, update, numbers);
            let order = book.updated_order(id, update, numbers);
            &&& after.orders.contains_key(other) == book.orders.contains_key(other)
            &&& after.orders[other] == book.orders[other]
            &&& after.pending_edits.contains_key(other) == book.pending_edits.contains_key(other)
            &&& order.symbol == book.orders[id].symbol
            &&& order.client_order_id == book.orders[id].client_order_id
            &&& order.order.order_id == book.orders[id].order.order_id
            &&& order.order.side == book.orders[id].order.side
            &&& order.order.price_tick == book.orders[id].order.price_tick
            &&& order.order.qty == book.orders[id].order.qty
        }),
{
}

/// A report that names an order of another client is about no order of the book, whatever its
/// price level and its exchange identifier.
pub proof fn foreign_orders_do_not_resolve(book: ManagerView, update: UpdateView)
    requires
        update.client_order_id is Some,
        !book.orders.contains_key(update.client_order_id->0),
    ensures
        book.update_target(update) == Err::<Seq<char>, OrderManagerError>(
            OrderManagerError::UnresolvedUpdate,
        ),
{
}

/// Once the exchange has given an order another identifier, reports under the new one are about
/// it, and reports that name only the old one are about no order.
pub proof fn renamed_orders_resolve_by_the_new_identifier(
    book: ManagerView,
    id: Seq<char>,
    exchange_order_id: i64,
    by_new: UpdateView,
    by_old: UpdateView,
)
    requires
        book.consistent(),
        book.orders.contains_key(id),
        book.orders[id].exchange_order_id matches Some(previous) && previous != exchange_order_id
            && by_old.exchange_order_id == Some(previous),
        by_new.client_order_id is None,
        by_new.exchange_order_id == Some(exchange_order_id),
        by_old.client_order_id is None,
        by_old.pending_key() is None,
    ensures
        ({
            let after = book.with_exchange_order_id(id, exchange_order_id).0;
            &&& after.update_target(by_new) == Ok::<Seq<char>, OrderManagerError>(id)
            &&& after.update_target(by_old) == Err::<Seq<char>, OrderManagerError>(
                OrderManagerError::UnresolvedUpdate,
            )
        }),
{
}

/// The first report on a new order that bears no client identifier is matched by symbol, side
/// and price.
pub proof fn new_order_resolves_by_price_level(
    book: ManagerView,
    symbol: Seq<char>,
    order: Order,
    price: Seq<char>,
    amount: Seq<char>,
    id: Seq<char>,
    update: UpdateView,
)
    requires
        book.with_new_order(symbol, order, price, amount, id).1 is Ok,
        update.client_order_id is None,
        update.exchange_order_id matches Some(exchange_id) ==> !book.exchange_ids.contains_key(
            exchange_id,
        ),
        update.pending_key() == Some(
            (
                symbol,
                book.with_new_order(symbol, order, price, amount, id).1->Ok_0.side,
                price,
            ),
        ),
    ensures
        book.with_new_order(symbol, order, price, amount, id).0.update_target(update) == Ok::<
            Seq<char>,
            OrderManagerError,
        >(id),
{
}

/// An order that is open, or filled in part with a quantity left, is in the market after the
/// report.
pub proof fn open_orders_work(
    book: ManagerView,
    update: UpdateView,
    numbers: FillNumbers,
)
    requires
        book.update_target(update) is Ok,
        update.status == PacificaOrderStatus::Open || update.status
            == PacificaOrderStatus::PartiallyFilled,
        book.updated_order(book.update_target(update)->Ok_0, update, numbers).order.status
            != Status::Filled,
    ensures
        ({
            let id = book.update_target(update)->Ok_0;
            let after = book.with_update(id, update, numbers);
            &&& after.works(id, None)
            &&& after.works(id, Some(book.orders[id].symbol))
            &&& after.orders[id].order.req == Status::Unset
        }),
{
}

/// A report that gives the quantity left, of an order that stays in the market, can be taken in
/// twice: the second time the order and the book stay as they are after the first. The price in
/// ticks has to be the same both times, where the report has a price.
pub proof fn repeated_totals_change_nothing(
    book: ManagerView,
    update: UpdateView,
    first: FillNumbers,
    second: FillNumbers,
)
    requires
        book.update_target(update) is Ok,
        update.client_order_id is Some || update.exchange_order_id is Some,
        update.leaves_qty is Some,
        update.status == PacificaOrderStatus::Open || update.status
            == PacificaOrderStatus::PartiallyFilled,
        update.exec_price is Some ==> first.exec_price_tick == second.exec_price_tick,
    ensures
        ({
            let id = book.update_target(update)->Ok_0;
            let after = book.with_update(id, update, first);
            let order = book.updated_order(id, update, first);
            &&& after.update_target(update) == Ok::<Seq<char>, OrderManagerError>(id)
            &&& after.updated_order(id, update, second) == order
            &&& after.with_update(id, update, second) == after
            &&& Some(order.order.leaves_qty) == update.leaves_qty
            &&& update.exec_qty matches Some(exec_qty) ==> order.order.exec_qty == exec_qty
        }),
{
    let id = book.update_target(update)->Ok_0;
    let after = book.with_update(id, update, first);
    let again = after.with_update(id, update, second);
    assert(again.orders =~= after.orders);
    assert(again.exchange_ids =~= after.exchange_ids);
    assert(again.pending_creates =~= after.pending_creates);
    assert(again.pending_edits =~= after.pending_edits);
}

} // verus!
