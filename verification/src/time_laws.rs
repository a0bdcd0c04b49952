//! Which messages can be taken in: all whose times can be written in nanoseconds.

use crate::account_state::{AccountPositionView, AccountView};
use crate::private_stream::{
    newcomer_times_fit, order_times_fit, trade_times_fit, AccountTradesFrame, OrderUpdatesFrame,
    PrivateMessage,
};
use crate::public_stream::{trade_event_kind, trades_feed, PublicMessage};
use crate::rest::{BookSnapshot, PositionSnapshotView, RestEnvelope};
use crate::startup::{book_time_fits, open_positions, position_times_fit};
use crate::types::{fits_in_nanos, nanos};
use vstd::prelude::*;

verus! {

/// A time in milliseconds from which the time in nanoseconds can be written in 64 bits.
pub open spec fn in_time(ms: i64) -> bool {
    -9_223_372_036_854 <= ms <= 9_223_372_036_854
}

/// Those times can be written in nanoseconds, and no others; a millisecond has a million of them.
pub proof fn a_millisecond_has_a_million_nanoseconds(ms: i64)
    ensures
        fits_in_nanos(ms) <==> in_time(ms),
        in_time(ms) ==> nanos(ms) == ms * 1_000_000,
{
}

/// A public message whose times can be written can be taken in.
pub proof fn public_messages_in_time_fit(message: PublicMessage)
    requires
        message.bbo matches Ok(frame) ==> in_time(frame.data.timestamp_ms),
        message.book matches Ok(frame) ==> in_time(frame.data.timestamp_ms),
        message.trades matches Ok(frame) ==> forall|i: int|
            0 <= i < frame.data@.len() ==> in_time((#[trigger] frame.data@[i]).timestamp_ms),
    ensures
        message.times_fit(),
{
    if message.trades is Ok {
        let frame = message.trades->Ok_0;
        let data = frame.data.deep_view();
        assert forall|i: int| 0 <= i < data.len() implies fits_in_nanos(
            (#[trigger] data[i]).timestamp_ms,
        ) by {
            assert(data[i] == frame.data@[i].deep_view());
            assert(in_time(frame.data@[i].timestamp_ms));
        }
    }
}

/// Reports whose times can be written can be taken in.
pub proof fn reports_in_time_fit(frame: Result<OrderUpdatesFrame, String>)
    requires
        frame matches Ok(frame) ==> forall|i: int|
            0 <= i < frame.data@.len() ==> in_time((#[trigger] frame.data@[i]).updated_at_ms),
    ensures
        order_times_fit(frame),
{
    if frame is Ok {
        let frame = frame->Ok_0;
        let data = frame.data.deep_view();
        assert forall|i: int| 0 <= i < data.len() implies fits_in_nanos(
            (#[trigger] data[i]).updated_at_ms,
        ) by {
            assert(data[i] == frame.data@[i].deep_view());
            assert(in_time(frame.data@[i].updated_at_ms));
        }
    }
}

/// Fills whose times can be written can be taken in.
pub proof fn fills_in_time_fit(frame: Result<AccountTradesFrame, String>)
    requires
        frame matches Ok(frame) ==> forall|i: int|
            0 <= i < frame.data@.len() ==> in_time((#[trigger] frame.data@[i]).timestamp_ms),
    ensures
        trade_times_fit(frame),
{
    if frame is Ok {
        let frame = frame->Ok_0;
        let data = frame.data.deep_view();
        assert forall|i: int| 0 <= i < data.len() implies fits_in_nanos(
            (#[trigger] data[i]).timestamp_ms,
        ) by {
            assert(data[i] == frame.data@[i].deep_view());
            assert(in_time(frame.data@[i].timestamp_ms));
        }
    }
}

/// Positions whose times and increment can be written can be taken in, whatever is known of the
/// account.
pub proof fn positions_in_time_fit(
    state: AccountView,
    data: Seq<AccountPositionView>,
    li: Option<i64>,
    followed: Seq<Seq<char>>,
)
    requires
        forall|i: int| 0 <= i < data.len() ==> in_time((#[trigger] data[i]).timestamp_ms),
        li matches Some(li) ==> in_time(li),
    ensures
        state.times_fit(data, li, followed),
{
    assert forall|i: int| 0 <= i < data.len() implies fits_in_nanos(
        #[trigger] data[i].timestamp_ms,
    ) by {
        assert(in_time(data[i].timestamp_ms));
    }
}

/// A private message whose times and increment can be written can be taken in, whatever is known of
/// the account.
pub proof fn private_messages_in_time_fit(
    message: PrivateMessage,
    state: AccountView,
    symbols: Seq<Seq<char>>,
)
    requires
        message.order_updates matches Ok(frame) ==> forall|i: int|
            0 <= i < frame.data@.len() ==> in_time((#[trigger] frame.data@[i]).updated_at_ms),
        message.trades matches Ok(frame) ==> forall|i: int|
            0 <= i < frame.data@.len() ==> in_time((#[trigger] frame.data@[i]).timestamp_ms),
        message.positions matches Ok(frame) ==> (forall|i: int|
            0 <= i < frame.data@.len() ==> in_time((#[trigger] frame.data@[i]).timestamp_ms)) && (
        frame.last_increment_id matches Some(li) ==> in_time(li)),
    ensures
        message.times_fit(state, symbols),
        newcomer_times_fit(message.positions),
{
    reports_in_time_fit(message.order_updates);
    fills_in_time_fit(message.trades);
    if message.positions is Ok {
        let frame = message.positions->Ok_0;
        let data = frame.data.deep_view();
        assert forall|i: int| 0 <= i < data.len() implies in_time(
            (#[trigger] data[i]).timestamp_ms,
        ) by {
            assert(data[i] == frame.data@[i].deep_view());
            assert(in_time(frame.data@[i].timestamp_ms));
        }
        positions_in_time_fit(state, data, frame.last_increment_id, symbols);
        positions_in_time_fit(
            AccountView::empty(),
            data,
            frame.last_increment_id,
            crate::private_stream::symbols_in(data),
        );
    }
}

/// The book and the positions of the REST interface whose times can be written can be taken in.
pub proof fn snapshots_in_time_fit(
    book: Result<RestEnvelope<BookSnapshot>, String>,
    data: Seq<PositionSnapshotView>,
)
    requires
        book matches Ok(envelope) ==> in_time(envelope.payload.data.timestamp_ms),
        forall|i: int| 0 <= i < data.len() ==> in_time((#[trigger] data[i]).time_of()),
    ensures
        book_time_fits(book),
        position_times_fit(data),
{
    assert forall|i: int| 0 <= i < data.len() implies fits_in_nanos(
        (#[trigger] data[i]).time_of(),
    ) by {
        assert(in_time(data[i].time_of()));
    }
}

/// Only the times that are looked at count: that of the best prices, that of a book with two sides,
/// and those of the trades with a known direction before which no trade is wrong; each in a message
/// of its own channel.
pub proof fn public_messages_fit_by_the_times_that_count(message: PublicMessage)
    ensures
        message.times_fit() <==> (message.channel matches Ok(frame) ==> {
            &&& frame.channel@ == "bbo"@ ==> (message.bbo matches Ok(bbo) ==> in_time(
                bbo.data.timestamp_ms,
            ))
            &&& frame.channel@ == "book"@ ==> (message.book matches Ok(book) ==> (
            book.data.levels@.len() >= 2 ==> in_time(book.data.timestamp_ms)))
            &&& frame.channel@ == "trades"@ ==> (message.trades matches Ok(trades) ==> forall|i: int|
                0 <= i < trades.data@.len() && trade_event_kind(
                    (#[trigger] trades.data@[i]).direction@,
                ) is Some && trades_feed(trades.data.deep_view(), 0, i) is Ok ==> in_time(
                    trades.data@[i].timestamp_ms,
                ))
        }),
{
    if message.trades is Ok {
        let frame = message.trades->Ok_0;
        let data = frame.data.deep_view();
        assert forall|i: int| 0 <= i < data.len() implies #[trigger] data[i]
            == frame.data@[i].deep_view() by {}
        assert forall|i: int| 0 <= i < frame.data@.len() implies (
        #[trigger] frame.data@[i]).deep_view() == data[i] by {}
    }
}

/// The time of the book of the REST interface counts where the answer tells of no failure and one of
/// the two sides has a level.
pub proof fn books_fit_by_the_time_that_counts(book: Result<RestEnvelope<BookSnapshot>, String>)
    ensures
        book_time_fits(book) <==> (book matches Ok(envelope) ==> ({
            let levels = envelope.payload.data.levels@;
            &&& envelope.payload.success != Some(false)
            &&& levels.len() >= 2
            &&& levels[0]@.len() > 0 || levels[1]@.len() > 0
        } ==> in_time(envelope.payload.data.timestamp_ms))),
{
}

/// The time of a position of the REST interface counts where it has a symbol and a quantity and no
/// position before it is wrong.
pub proof fn positions_fit_by_the_times_that_count(data: Seq<PositionSnapshotView>)
    ensures
        position_times_fit(data) <==> forall|i: int|
            0 <= i < data.len() && !in_time((#[trigger] data[i]).time_of()) ==> {
                ||| data[i].symbol_of() is None
                ||| data[i].quantity() is Err
                ||| open_positions(data, i) is Err
            },
{
}

} // verus!
