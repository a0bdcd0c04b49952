//! What holds of the positions of the account whatever messages come.

use crate::account_state::{
    data_items, largest_li, max_li, reports, reports_on_others_change_nothing, signed_amount,
    AccountErrorView, AccountPosition, AccountPositionView, AccountView, PositionState,
};
use crate::binary64::Binary64;
use crate::feed_laws::same_time;
use crate::json::{json_get, json_i64_member, JsonView};
use crate::symbols::in_order;
use crate::text::{lex_less, lex_less_is_total};
use crate::types::{nanos, LiveEventView};
use vstd::prelude::*;

verus! {

/// The increment of the last message never falls, a message that is refused changes nothing, and
/// one with the increment of the last message is accepted.
pub proof fn increments_never_fall(state: AccountView, li: Option<i64>)
    ensures
        state.last_private_li matches Some(last) ==> state.advanced(
            li,
        ).last_private_li matches Some(now) && last <= now,
        !state.accepts(li) ==> state.advanced(li) == state,
        state.accepts(state.last_private_li),
        state.accepts(None),
        state.advanced(None) == state,
{
}

/// Once a message was taken in, an older one is refused.
pub proof fn older_messages_are_refused(state: AccountView, newer: i64, older: i64)
    requires
        state.accepts(Some(newer)),
        older < newer,
    ensures
        !state.advanced(Some(newer)).accepts(Some(older)),
{
}

proof fn lemma_reported(
    state: AccountView,
    data: Seq<AccountPositionView>,
    followed: Seq<Seq<char>>,
    n: int,
)
    requires
        0 <= n <= data.len(),
    ensures
        ({
            let (after, events, error) = state.reported(data, followed, n);
            &&& after.last_private_li == state.last_private_li
            &&& forall|s: Seq<char>|
                #![trigger after.positions.contains_key(s)]
                #![trigger after.positions[s]]
                !followed.contains(s) ==> after.positions.contains_key(s)
                    == state.positions.contains_key(s) && after.positions[s] == state.positions[s]
            &&& forall|s: Seq<char>| #[trigger]
                after.initialized.contains(s) && !followed.contains(s)
                    ==> state.initialized.contains(s)
            &&& forall|s: Seq<char>|
                state.initialized.contains(s) ==> #[trigger] after.initialized.contains(s)
            &&& error is None ==> forall|i: int|
                0 <= i < n && followed.contains(#[trigger] data[i].symbol)
                    ==> after.initialized.contains(data[i].symbol) && after.positions.contains_key(
                    data[i].symbol,
                )
            &&& forall|e: int|
                0 <= e < events.len() ==> (#[trigger] events[e]) is Position && followed.contains(
                    events[e]->Position_symbol,
                )
        }),
    decreases n,
{
    if n > 0 {
        lemma_reported(state, data, followed, n - 1);
    }
}

/// Looking at the first symbols: what is set for those, and that nothing else changes.
proof fn lemma_flattened(
    state: AccountView,
    data: Seq<AccountPositionView>,
    followed: Seq<Seq<char>>,
    li: Option<i64>,
    n: int,
)
    requires
        0 <= n <= followed.len(),
        in_order(followed),
    ensures
        ({
            let (after, events) = state.flattened(data, followed, li, n);
            &&& after.last_private_li == state.last_private_li
            &&& forall|s: Seq<char>|
                #![trigger after.positions.contains_key(s)]
                #![trigger after.positions[s]]
                !followed.contains(s) || reports(data, s) ==> after.positions.contains_key(s)
                    == state.positions.contains_key(s) && after.positions[s] == state.positions[s]
            &&& forall|s: Seq<char>| #[trigger]
                after.initialized.contains(s) && !followed.contains(s)
                    ==> state.initialized.contains(s)
            &&& forall|s: Seq<char>|
                state.initialized.contains(s) ==> #[trigger] after.initialized.contains(s)
            &&& forall|k: int|
                0 <= k < n && !reports(data, #[trigger] followed[k]) ==> !after.flat_is_news(
                    followed[k],
                )
            &&& forall|e: int|
                0 <= e < events.len() ==> {
                    &&& (#[trigger] events[e]) is Position
                    &&& followed.contains(events[e]->Position_symbol)
                    &&& events[e]->Position_qty.zero_valued()
                }
        }),
    decreases n,
{
    if n > 0 {
        lemma_flattened(state, data, followed, li, n - 1);
        let before = state.flattened(data, followed, li, n - 1).0;
        let after = state.flattened(data, followed, li, n).0;
        let symbol = followed[n - 1];
        assert(followed.contains(symbol));
        assert forall|k: int| 0 <= k < n && !reports(data, #[trigger] followed[k]) implies !after.flat_is_news(
            followed[k],
        ) by {
            if k < n - 1 {
                lex_less_is_total(followed[k], symbol);
                assert(lex_less(followed[k], symbol));
                assert(!before.flat_is_news(followed[k]));
            }
        }
    }
}

/// After a message that was taken in, the position of every followed symbol is known, and those
/// that the message does not report are flat. Other symbols keep what was known of them.
pub proof fn followed_symbols_are_known(
    state: AccountView,
    data: Seq<AccountPositionView>,
    li: Option<i64>,
    followed: Seq<Seq<char>>,
)
    requires
        in_order(followed),
        state.accepts(li),
        state.with_positions(data, li, followed).1 is Ok,
    ensures
        ({
            let after = state.with_positions(data, li, followed).0;
            &&& forall|s: Seq<char>| #[trigger]
                followed.contains(s) ==> after.initialized.contains(s)
                    && after.positions.contains_key(s)
            &&& forall|s: Seq<char>| #[trigger]
                followed.contains(s) && !reports(data, s)
                    ==> after.positions[s].qty.zero_valued()
            &&& forall|s: Seq<char>|
                #![trigger after.positions.contains_key(s)]
                #![trigger after.positions[s]]
                !followed.contains(s) ==> after.positions.contains_key(s)
                    == state.positions.contains_key(s) && after.positions[s] == state.positions[s]
            &&& forall|s: Seq<char>|
                !followed.contains(s) ==> #[trigger] after.initialized.contains(s)
                    == state.initialized.contains(s)
        }),
{
    let start = state.advanced(li);
    let listed = start.reported(data, followed, data.len() as int).0;
    let after = state.with_positions(data, li, followed).0;
    lemma_reported(start, data, followed, data.len() as int);
    lemma_flattened(listed, data, followed, li, followed.len() as int);
    assert forall|s: Seq<char>| #[trigger] followed.contains(s) implies after.initialized.contains(s)
        && after.positions.contains_key(s) by {
        let k = choose|k: int| 0 <= k < followed.len() && followed[k] == s;
        if reports(data, s) {
            let i = choose|i: int| 0 <= i < data.len() && #[trigger] data[i].symbol == s;
            assert(followed.contains(data[i].symbol));
            assert(listed.positions.contains_key(s));
        } else {
            assert(!after.flat_is_news(followed[k]));
        }
    }
    assert forall|s: Seq<char>| #[trigger] followed.contains(s) && !reports(data, s)
        implies after.positions[s].qty.zero_valued() by {
        let k = choose|k: int| 0 <= k < followed.len() && followed[k] == s;
        assert(!after.flat_is_news(followed[k]));
    }
}

/// Events are only about followed symbols.
pub proof fn events_are_about_followed_symbols(
    state: AccountView,
    data: Seq<AccountPositionView>,
    li: Option<i64>,
    followed: Seq<Seq<char>>,
)
    requires
        in_order(followed),
        state.with_positions(data, li, followed).1 is Ok,
    ensures
        ({
            let events = state.with_positions(data, li, followed).1->Ok_0;
            forall|e: int|
                0 <= e < events.len() ==> (#[trigger] events[e]) is Position && followed.contains(
                    events[e]->Position_symbol,
                )
        }),
{
    if state.accepts(li) {
        let start = state.advanced(li);
        let (listed, first, _) = start.reported(data, followed, data.len() as int);
        let closed = listed.flattened(data, followed, li, followed.len() as int).1;
        lemma_reported(start, data, followed, data.len() as int);
        lemma_flattened(listed, data, followed, li, followed.len() as int);
        let events = state.with_positions(data, li, followed).1->Ok_0;
        assert forall|e: int| 0 <= e < events.len() implies (#[trigger] events[e]) is Position
            && followed.contains(events[e]->Position_symbol) by {
            if e < first.len() {
                assert(events[e] == first[e]);
            } else {
                assert(events[e] == closed[e - first.len()]);
            }
        }
    }
}

/// The last report on a symbol in a message counts.
pub proof fn last_report_counts(
    state: AccountView,
    data: Seq<AccountPositionView>,
    li: Option<i64>,
    followed: Seq<Seq<char>>,
    last: int,
)
    requires
        in_order(followed),
        state.accepts(li),
        state.with_positions(data, li, followed).1 is Ok,
        0 <= last < data.len(),
        followed.contains(data[last].symbol),
        forall|i: int| last < i < data.len() ==> #[trigger] data[i].symbol != data[last].symbol,
    ensures
        signed_amount(data[last]) is Ok,
        state.with_positions(data, li, followed).0.positions[data[last].symbol] == (PositionState {
            qty: signed_amount(data[last])->Ok_0,
            exch_ts: nanos(data[last].timestamp_ms),
        }),
{
    let start = state.advanced(li);
    let listed = start.reported(data, followed, data.len() as int).0;
    lemma_last_report(start, data, followed, last, data.len() as int);
    lemma_flattened(listed, data, followed, li, followed.len() as int);
    assert(reports(data, data[last].symbol));
}

proof fn lemma_last_report(
    state: AccountView,
    data: Seq<AccountPositionView>,
    followed: Seq<Seq<char>>,
    last: int,
    n: int,
)
    requires
        0 <= last < n <= data.len(),
        followed.contains(data[last].symbol),
        state.reported(data, followed, n).2 is None,
        forall|i: int| last < i < n ==> #[trigger] data[i].symbol != data[last].symbol,
    ensures
        signed_amount(data[last]) is Ok,
        state.reported(data, followed, n).0.positions.contains_key(data[last].symbol),
        state.reported(data, followed, n).0.positions[data[last].symbol] == (PositionState {
            qty: signed_amount(data[last])->Ok_0,
            exch_ts: nanos(data[last].timestamp_ms),
        }),
    decreases n,
{
    if n - 1 > last {
        lemma_last_report(state, data, followed, last, n - 1);
    }
}

/// A position that is gone was closed after its last change.
pub proof fn closing_follows_the_last_change(
    state: AccountView,
    symbol: Seq<char>,
    li: Option<i64>,
)
    requires
        0 < state.last_change(symbol) < i64::MAX,
    ensures
        state.last_change(symbol) < state.flat_time(symbol, li),
{
}

/// That a symbol is flat is told once: where a message was taken in, a later one that leaves out
/// no more followed symbols gives events only for the positions that it reports. The same message
/// a second time is such a one, and is taken in without an error.
pub proof fn flat_is_told_once(
    state: AccountView,
    data: Seq<AccountPositionView>,
    li: Option<i64>,
    again: Seq<AccountPositionView>,
    later: Option<i64>,
    followed: Seq<Seq<char>>,
)
    requires
        in_order(followed),
        state.accepts(li),
        state.with_positions(data, li, followed).1 is Ok,
        forall|s: Seq<char>|
            followed.contains(s) && #[trigger] reports(data, s) ==> reports(again, s),
    ensures
        ({
            let after = state.with_positions(data, li, followed).0;
            let second = after.with_positions(again, later, followed).1;
            &&& second matches Ok(events) ==> {
                &&& events == (if after.accepts(later) {
                    after.advanced(later).reported(again, followed, again.len() as int).1
                } else {
                    Seq::empty()
                })
                &&& forall|e: int|
                    0 <= e < events.len() ==> (#[trigger] events[e]) is Position && reports(
                        again,
                        events[e]->Position_symbol,
                    )
            }
            &&& again == data ==> second is Ok
        }),
{
    let start = state.advanced(li);
    let listed = start.reported(data, followed, data.len() as int).0;
    lemma_flattened(listed, data, followed, li, followed.len() as int);
    let after = state.with_positions(data, li, followed).0;
    if after.accepts(later) {
        let next = after.advanced(later);
        let (told, events, error) = next.reported(again, followed, again.len() as int);
        lemma_events_are_reported(next, again, followed, again.len() as int);
        if again == data {
            lemma_errors_are_in_the_message(start, next, data, followed, data.len() as int);
        }
        if error is None {
            assert forall|k: int|
                0 <= k < followed.len() && !reports(again, #[trigger] followed[k]) implies !told.flat_is_news(
                followed[k],
            ) by {
                assert(followed.contains(followed[k]));
                assert(!reports(data, followed[k]));
                assert(!after.flat_is_news(followed[k]));
                reports_on_others_change_nothing(
                    next,
                    again,
                    followed,
                    again.len() as int,
                    followed[k],
                );
            }
            lemma_nothing_new(told, again, followed, later, followed.len() as int);
            assert(after.with_positions(again, later, followed).1->Ok_0 =~= events);
        }
    }
}

/// The events for the positions of a message are about symbols that it reports.
proof fn lemma_events_are_reported(
    state: AccountView,
    data: Seq<AccountPositionView>,
    followed: Seq<Seq<char>>,
    n: int,
)
    requires
        0 <= n <= data.len(),
    ensures
        ({
            let events = state.reported(data, followed, n).1;
            forall|e: int|
                0 <= e < events.len() ==> (#[trigger] events[e]) is Position && reports(
                    data,
                    events[e]->Position_symbol,
                )
        }),
    decreases n,
{
    if n > 0 {
        lemma_events_are_reported(state, data, followed, n - 1);
        assert(reports(data, data[n - 1].symbol));
    }
}

/// Whether a message is wrong does not depend on what is known of the account.
proof fn lemma_errors_are_in_the_message(
    a: AccountView,
    b: AccountView,
    data: Seq<AccountPositionView>,
    followed: Seq<Seq<char>>,
    n: int,
)
    ensures
        a.reported(data, followed, n).2 == b.reported(data, followed, n).2,
    decreases n,
{
    if n > 0 {
        lemma_errors_are_in_the_message(a, b, data, followed, n - 1);
    }
}

proof fn lemma_nothing_new(
    state: AccountView,
    data: Seq<AccountPositionView>,
    followed: Seq<Seq<char>>,
    li: Option<i64>,
    n: int,
)
    requires
        0 <= n <= followed.len(),
        forall|k: int|
            0 <= k < followed.len() && !reports(data, #[trigger] followed[k])
                ==> !state.flat_is_news(followed[k]),
    ensures
        state.flattened(data, followed, li, n) == (state, Seq::<LiveEventView>::empty()),
    decreases n,
{
    if n > 0 {
        lemma_nothing_new(state, data, followed, li, n - 1);
    }
}

/// The increment of a message is one that it bears, and none that it bears is larger.
pub proof fn max_li_is_the_largest(value: JsonView)
    ensures
        max_li(value) matches Some(li) ==> json_i64_member(value, "li"@) == Some(li) || exists|i: int|
            0 <= i < data_items(value).len() && #[trigger] json_i64_member(
                data_items(value)[i],
                "li"@,
            ) == Some(li),
        json_i64_member(value, "li"@) matches Some(own) ==> max_li(value) matches Some(li) && own
            <= li,
        forall|i: int|
            0 <= i < data_items(value).len() ==> ((#[trigger] json_i64_member(
                data_items(value)[i],
                "li"@,
            )) matches Some(own) ==> max_li(value) matches Some(li) && own <= li),
{
    lemma_largest(value, data_items(value), data_items(value).len() as int);
}

proof fn lemma_largest(value: JsonView, items: Seq<JsonView>, n: int)
    requires
        0 <= n <= items.len(),
    ensures
        largest_li(value, items, n) matches Some(li) ==> json_i64_member(value, "li"@) == Some(li)
            || exists|i: int|
            0 <= i < n && #[trigger] json_i64_member(items[i], "li"@) == Some(li),
        json_i64_member(value, "li"@) matches Some(own) ==> largest_li(
            value,
            items,
            n,
        ) matches Some(li) && own <= li,
        forall|i: int|
            0 <= i < n ==> ((#[trigger] json_i64_member(items[i], "li"@)) matches Some(own)
                ==> largest_li(value, items, n) matches Some(li) && own <= li),
    decreases n,
{
    if n > 0 {
        lemma_largest(value, items, n - 1);
        let own = json_i64_member(items[n - 1], "li"@);
        assert(own == json_i64_member(items[n - 1], "li"@));
    }
}

/// A message is accepted unless both it and the account have an increment and its own is the
/// smaller one; its increment, where it has one, is then the last one, and nothing else changes.
pub proof fn increments_decide(state: AccountView, li: Option<i64>)
    ensures
        state.accepts(li) <==> !(li is Some && state.last_private_li is Some && li->0
            < state.last_private_li->0),
        state.accepts(li) && li is Some ==> state.advanced(li).last_private_li == li,
        state.accepts(li) && li is None ==> state.advanced(li).last_private_li
            == state.last_private_li,
        state.advanced(li).positions == state.positions,
        state.advanced(li).initialized == state.initialized,
{
}

/// The quantity of a position is its amount, under the other sign on the ask side; an amount that
/// is no number is told.
pub proof fn ask_positions_are_below_zero(position: AccountPositionView)
    ensures
        position.amount.value is None ==> signed_amount(position) == Err::<
            Binary64,
            AccountErrorView,
        >(
            AccountErrorView::InvalidNumber {
                field: "position_amount"@,
                value: position.amount.text,
            },
        ),
        position.amount.value matches Some(x) ==> (signed_amount(position) matches Ok(qty)
            && qty.bits == if position.side != "ask"@ {
            x.bits as int
        } else if x.bits < 0x8000_0000_0000_0000 {
            x.bits + 0x8000_0000_0000_0000
        } else {
            x.bits - 0x8000_0000_0000_0000
        }),
{
}

/// `places` are the places among the first `n` positions of a message whose symbols are followed,
/// in order.
pub open spec fn followed_places(
    data: Seq<AccountPositionView>,
    followed: Seq<Seq<char>>,
    n: int,
    places: Seq<int>,
) -> bool {
    &&& forall|k: int|
        0 <= k < places.len() ==> 0 <= #[trigger] places[k] < n && followed.contains(
            data[places[k]].symbol,
        )
    &&& forall|a: int, b: int|
        #![trigger places[a], places[b]]
        0 <= a < b < places.len() ==> places[a] < places[b]
    &&& forall|i: int|
        0 <= i < n && followed.contains(#[trigger] data[i].symbol) ==> places.contains(i)
}

/// Where the amounts of the followed symbols are numbers, every report on a followed symbol gives an
/// event, in their order, with its symbol, quantity and time. Symbols that are not followed give
/// none.
pub proof fn every_followed_report_gives_its_event(
    state: AccountView,
    data: Seq<AccountPositionView>,
    followed: Seq<Seq<char>>,
    n: int,
) -> (places: Seq<int>)
    requires
        0 <= n <= data.len(),
        forall|i: int|
            0 <= i < n && followed.contains(#[trigger] data[i].symbol) ==> data[i].amount.value
                is Some,
    ensures
        followed_places(data, followed, n, places),
        state.reported(data, followed, n).2 is None,
        ({
            let events = state.reported(data, followed, n).1;
            &&& events.len() == places.len()
            &&& forall|k: int|
                0 <= k < events.len() ==> {
                    let position = data[places[k]];
                    &&& (#[trigger] events[k]) is Position
                    &&& events[k]->Position_symbol == position.symbol
                    &&& (signed_amount(position) matches Ok(qty) && events[k]->Position_qty == qty)
                    &&& same_time(events[k]->Position_exch_ts, position.timestamp_ms)
                }
        }),
    decreases n,
{
    if n == 0 {
        Seq::empty()
    } else {
        let earlier = every_followed_report_gives_its_event(state, data, followed, n - 1);
        let position = data[n - 1];
        if followed.contains(position.symbol) {
            assert(data[n - 1].amount.value is Some);
            let places = earlier.push(n - 1);
            let before = state.reported(data, followed, n - 1).1;
            let events = state.reported(data, followed, n).1;
            assert(events.drop_last() =~= before);
            assert forall|i: int|
                0 <= i < n && followed.contains(#[trigger] data[i].symbol) implies places.contains(
                i,
            ) by {
                if i < n - 1 {
                    let k = choose|k: int| 0 <= k < earlier.len() && earlier[k] == i;
                    assert(places[k] == i);
                } else {
                    assert(places[earlier.len() as int] == i);
                }
            }
            assert forall|k: int| 0 <= k < events.len() implies {
                let position = data[places[k]];
                &&& (#[trigger] events[k]) is Position
                &&& events[k]->Position_symbol == position.symbol
                &&& (signed_amount(position) matches Ok(qty) && events[k]->Position_qty == qty)
                &&& same_time(events[k]->Position_exch_ts, position.timestamp_ms)
            } by {
                if k < before.len() {
                    assert(events[k] == before[k]);
                    assert(places[k] == earlier[k]);
                }
            }
            places
        } else {
            earlier
        }
    }
}

/// The first amount of a followed symbol that is no number is told; the reports before it count,
/// and those behind it do not.
pub proof fn the_first_wrong_amount_is_told(
    state: AccountView,
    data: Seq<AccountPositionView>,
    followed: Seq<Seq<char>>,
    n: int,
    i: int,
)
    requires
        0 <= i < n <= data.len(),
        followed.contains(data[i].symbol),
        data[i].amount.value is None,
        forall|j: int|
            0 <= j < i && followed.contains(#[trigger] data[j].symbol) ==> data[j].amount.value
                is Some,
    ensures
        state.reported(data, followed, n).0 == state.reported(data, followed, i).0,
        state.reported(data, followed, n).2 == Some(
            AccountErrorView::InvalidNumber {
                field: "position_amount"@,
                value: data[i].amount.text,
            },
        ),
    decreases n,
{
    if n == i + 1 {
        let _ = every_followed_report_gives_its_event(state, data, followed, i);
    } else {
        the_first_wrong_amount_is_told(state, data, followed, n - 1, i);
    }
}

/// It is news that a symbol has no open position: its position was not known, or was not zero.
pub open spec fn was_open(state: AccountView, symbol: Seq<char>) -> bool {
    ||| !state.initialized.contains(symbol)
    ||| !state.positions.contains_key(symbol)
    ||| state.positions[symbol].qty.bits != 0 && state.positions[symbol].qty.bits
        != 0x8000_0000_0000_0000
}

/// `places` are the places among the first `n` followed symbols of those that a message leaves out
/// and whose position was not known to be none, in order.
pub open spec fn closed_places(
    state: AccountView,
    data: Seq<AccountPositionView>,
    followed: Seq<Seq<char>>,
    n: int,
    places: Seq<int>,
) -> bool {
    &&& forall|k: int|
        0 <= k < places.len() ==> {
            &&& 0 <= #[trigger] places[k] < n
            &&& !reports(data, followed[places[k]])
            &&& was_open(state, followed[places[k]])
        }
    &&& forall|a: int, b: int|
        #![trigger places[a], places[b]]
        0 <= a < b < places.len() ==> places[a] < places[b]
    &&& forall|k: int|
        0 <= k < n && !reports(data, #[trigger] followed[k]) && was_open(state, followed[k])
            ==> places.contains(k)
}

/// Every followed symbol that a message leaves out, and whose position was not known to be none,
/// gives an event that it is flat: in the order of the symbols, just after its last change where
/// that is known, or else at the increment of the message.
pub proof fn every_closed_position_gives_its_event(
    state: AccountView,
    data: Seq<AccountPositionView>,
    followed: Seq<Seq<char>>,
    li: Option<i64>,
    n: int,
) -> (places: Seq<int>)
    requires
        0 <= n <= followed.len(),
        in_order(followed),
    ensures
        closed_places(state, data, followed, n, places),
        ({
            let events = state.flattened(data, followed, li, n).1;
            &&& events.len() == places.len()
            &&& forall|k: int|
                0 <= k < events.len() ==> {
                    let symbol = followed[places[k]];
                    let last = if state.positions.contains_key(symbol) {
                        state.positions[symbol].exch_ts
                    } else {
                        0
                    };
                    &&& (#[trigger] events[k]) is Position
                    &&& events[k]->Position_symbol == symbol
                    &&& events[k]->Position_qty.bits == 0
                    &&& 0 < last < i64::MAX ==> events[k]->Position_exch_ts == last + 1
                    &&& last == i64::MAX ==> events[k]->Position_exch_ts == i64::MAX
                    &&& last <= 0 ==> same_time(
                        events[k]->Position_exch_ts,
                        match li {
                            Some(li) => li,
                            None => 0,
                        },
                    )
                }
        }),
    decreases n,
{
    if n == 0 {
        Seq::empty()
    } else {
        let earlier = every_closed_position_gives_its_event(state, data, followed, li, n - 1);
        let symbol = followed[n - 1];
        lemma_others_stay(state, data, followed, li, n - 1, n - 1);
        let before = state.flattened(data, followed, li, n - 1).1;
        let events = state.flattened(data, followed, li, n).1;
        if !reports(data, symbol) && was_open(state, symbol) {
            let places = earlier.push(n - 1);
            assert(events.drop_last() =~= before);
            assert forall|k: int|
                0 <= k < n && !reports(data, #[trigger] followed[k]) && was_open(state, followed[k])
                implies places.contains(k) by {
                if k < n - 1 {
                    let j = choose|j: int| 0 <= j < earlier.len() && earlier[j] == k;
                    assert(places[j] == k);
                } else {
                    assert(places[earlier.len() as int] == k);
                }
            }
            assert forall|k: int| 0 <= k < before.len() implies #[trigger] events[k] == before[k]
                && places[k] == earlier[k] by {}
            places
        } else {
            assert(events == before);
            earlier
        }
    }
}

/// Looking at other symbols changes nothing for a symbol.
proof fn lemma_others_stay(
    state: AccountView,
    data: Seq<AccountPositionView>,
    followed: Seq<Seq<char>>,
    li: Option<i64>,
    n: int,
    k: int,
)
    requires
        in_order(followed),
        0 <= n <= k < followed.len(),
    ensures
        ({
            let after = state.flattened(data, followed, li, n).0;
            &&& after.initialized.contains(followed[k]) == state.initialized.contains(followed[k])
            &&& after.positions.contains_key(followed[k]) == state.positions.contains_key(
                followed[k],
            )
            &&& after.positions[followed[k]] == state.positions[followed[k]]
        }),
    decreases n,
{
    if n > 0 {
        lemma_others_stay(state, data, followed, li, n - 1, k);
        lex_less_is_total(followed[n - 1], followed[k]);
        assert(lex_less(followed[n - 1], followed[k]));
    }
}

/// A message that is accepted gives the events of its reports, then those of the closed positions;
/// where an amount is wrong it gives the error. The account is then what the last report on each
/// symbol says, and closed positions are at the time that was told. A message that is not accepted
/// changes nothing and gives no events.
pub proof fn positions_come_before_closings(
    state: AccountView,
    data: Seq<AccountPositionView>,
    li: Option<i64>,
    followed: Seq<Seq<char>>,
)
    ensures
        ({
            let (after, result) = state.with_positions(data, li, followed);
            let (listed, first, error) = state.advanced(li).reported(
                data,
                followed,
                data.len() as int,
            );
            let (closed, second) = listed.flattened(data, followed, li, followed.len() as int);
            &&& !state.accepts(li) ==> after == state && (result matches Ok(events) && events.len()
                == 0)
            &&& state.accepts(li) && error is None ==> {
                &&& after == closed
                &&& result matches Ok(events) && {
                    &&& events.len() == first.len() + second.len()
                    &&& forall|k: int| 0 <= k < first.len() ==> #[trigger] events[k] == first[k]
                    &&& forall|k: int|
                        first.len() <= k < events.len() ==> #[trigger] events[k] == second[k
                            - first.len()]
                }
            }
            &&& state.accepts(li) && error is Some ==> {
                &&& after == listed
                &&& result == Err::<Seq<LiveEventView>, AccountErrorView>(error->0)
            }
        }),
{
}

/// A closed position is known to be none from the time that was told on, and the position of a
/// symbol that the message reports, or that was known to be none, stays as it was.
pub proof fn closed_positions_are_known_to_be_none(
    state: AccountView,
    data: Seq<AccountPositionView>,
    followed: Seq<Seq<char>>,
    li: Option<i64>,
    k: int,
)
    requires
        in_order(followed),
        0 <= k < followed.len(),
    ensures
        ({
            let after = state.flattened(data, followed, li, followed.len() as int).0;
            let symbol = followed[k];
            &&& !reports(data, symbol) && was_open(state, symbol) ==> {
                &&& after.initialized.contains(symbol)
                &&& after.positions.contains_key(symbol)
                &&& after.positions[symbol].qty.bits == 0
                &&& after.positions[symbol].exch_ts == state.flat_time(symbol, li)
            }
            &&& reports(data, symbol) || !was_open(state, symbol) ==> {
                &&& after.initialized.contains(symbol) == state.initialized.contains(symbol)
                &&& after.positions.contains_key(symbol) == state.positions.contains_key(symbol)
                &&& after.positions[symbol] == state.positions[symbol]
            }
        }),
{
    lemma_closed(state, data, followed, li, followed.len() as int, k);
}

proof fn lemma_closed(
    state: AccountView,
    data: Seq<AccountPositionView>,
    followed: Seq<Seq<char>>,
    li: Option<i64>,
    n: int,
    k: int,
)
    requires
        in_order(followed),
        0 <= k < n <= followed.len(),
    ensures
        ({
            let after = state.flattened(data, followed, li, n).0;
            let symbol = followed[k];
            &&& !reports(data, symbol) && was_open(state, symbol) ==> {
                &&& after.initialized.contains(symbol)
                &&& after.positions.contains_key(symbol)
                &&& after.positions[symbol].qty.bits == 0
                &&& after.positions[symbol].exch_ts == state.flat_time(symbol, li)
            }
            &&& reports(data, symbol) || !was_open(state, symbol) ==> {
                &&& after.initialized.contains(symbol) == state.initialized.contains(symbol)
                &&& after.positions.contains_key(symbol) == state.positions.contains_key(symbol)
                &&& after.positions[symbol] == state.positions[symbol]
            }
        }),
    decreases n,
{
    if k == n - 1 {
        lemma_others_stay(state, data, followed, li, n - 1, k);
    } else {
        lemma_closed(state, data, followed, li, n - 1, k);
        lex_less_is_total(followed[k], followed[n - 1]);
        assert(lex_less(followed[k], followed[n - 1]));
    }
}

/// A message reports a symbol where one of its positions has it.
pub proof fn reported_symbols_have_a_position(data: Seq<AccountPositionView>, i: int, s: Seq<char>)
    ensures
        0 <= i < data.len() ==> reports(data, data[i].symbol),
        reports(data, s) ==> exists|k: int| 0 <= k < data.len() && (#[trigger] data[k]).symbol == s,
{
    if 0 <= i < data.len() {
        assert(data[i].symbol == data[i].symbol);
    }
    if reports(data, s) {
        let k = choose|k: int| 0 <= k < data.len() && #[trigger] data[k].symbol == s;
        assert(data[k].symbol == s);
    }
}

/// The items of a message are those of the array under the name `data`.
pub proof fn items_are_under_data(value: JsonView)
    ensures
        json_get(value, "data"@) matches Some(JsonView::Array(items)) ==> data_items(value)
            == items,
        !(json_get(value, "data"@) matches Some(JsonView::Array(_))) ==> data_items(value).len()
            == 0,
{
}

/// What is said of a position in a message is what stands in it.
pub proof fn positions_say_what_they_hold(position: AccountPosition)
    ensures
        position.deep_view().symbol == position.symbol@,
        position.deep_view().amount.text == position.amount.text@,
        position.deep_view().amount.value == position.amount.value,
        position.deep_view().side == position.side@,
        position.deep_view().timestamp_ms == position.timestamp_ms,
{
}

} // verus!
