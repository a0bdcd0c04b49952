//! What public messages and the answers of the REST interface become, item by item.

use crate::binary64::Binary64;
use crate::json::{json_get, members_are_found_by_name, names_in_order, JsonView};
use crate::msg::{Bbo, BboView, Book, BookLevel, BookLevelView, BookView, Trade, TradeView};
use crate::public_stream::{
    bbo_feed, book_feed, channel_named, initial_requests, level_events, live_feed, trades_feed, FeedEventView,
    FeedStamp, LevelKind, PublicChannel, PublicErrorView, PublicInput, PublicMessage,
    PublicOutputView,
};
use crate::rest::{
    BookSnapshot, BookSnapshotView, MarketInfo, MarketInfoView, PositionSnapshot,
    PositionSnapshotView, RestEnvelope, StartupPositionView,
};
use crate::startup::{
    market_found, market_named, open_positions, payload_of, position_events_of, snapshot_feed,
    StartupErrorView,
};
use crate::text::lex_less;
use crate::types::{
    LiveEventView, LOCAL_ASK_DEPTH_BBO_EVENT, LOCAL_ASK_DEPTH_EVENT, LOCAL_ASK_DEPTH_SNAPSHOT_EVENT,
    LOCAL_BID_DEPTH_BBO_EVENT, LOCAL_BID_DEPTH_EVENT, LOCAL_BID_DEPTH_SNAPSHOT_EVENT,
    LOCAL_BUY_TRADE_EVENT, LOCAL_SELL_TRADE_EVENT,
};
use crate::websocket::{ping, private_requests, public_requests, WebSocketErrorView};
use vstd::prelude::*;

verus! {

/// A time in milliseconds is this time in nanoseconds, where that can be written.
pub open spec fn same_time(ns: i64, ms: i64) -> bool {
    -9_223_372_036_854 <= ms <= 9_223_372_036_854 ==> ns == ms * 1_000_000
}

/// A direction of the exchange that says that the buyer started the trade.
pub open spec fn bought(direction: Seq<char>) -> bool {
    direction == "open_long"@ || direction == "close_short"@ || direction == "buy"@ || direction
        == "bid"@
}

/// A direction of the exchange that says that the seller started the trade.
pub open spec fn sold(direction: Seq<char>) -> bool {
    direction == "open_short"@ || direction == "close_long"@ || direction == "sell"@ || direction
        == "ask"@
}

/// Nothing is wrong in a trade.
pub open spec fn trade_is_right(trade: TradeView) -> bool {
    &&& bought(trade.direction) || sold(trade.direction)
    &&& trade.price.value is Some
    &&& trade.amount.value is Some
}

/// The event is that of the trade.
pub open spec fn tells_trade(event: FeedEventView, trade: TradeView, local_ts_ns: i64) -> bool {
    &&& event.symbol == trade.symbol
    &&& bought(trade.direction) ==> event.event.ev == LOCAL_BUY_TRADE_EVENT
    &&& sold(trade.direction) && !bought(trade.direction) ==> event.event.ev
        == LOCAL_SELL_TRADE_EVENT
    &&& Some(event.event.px) == trade.price.value
    &&& Some(event.event.qty) == trade.amount.value
    &&& same_time(event.event.exch_ts, trade.timestamp_ms)
    &&& event.event.local_ts == local_ts_ns
    &&& event.event.ival == (match trade.last_increment_id {
        Some(li) => li,
        None => 0,
    })
    &&& event.event.order_id == 0
    &&& event.event.fval == Binary64 { bits: 0 }
}

/// Where nothing is wrong in the trades of a message, it gives one event for each trade, in their
/// order, with its symbol, side, price, amount, time and increment.
pub proof fn every_trade_gives_its_event(data: Seq<TradeView>, local_ts_ns: i64, n: int)
    requires
        0 <= n <= data.len(),
        forall|i: int| 0 <= i < n ==> trade_is_right(#[trigger] data[i]),
    ensures
        trades_feed(data, local_ts_ns, n) is Ok,
        trades_feed(data, local_ts_ns, n)->Ok_0.len() == n,
        forall|i: int|
            0 <= i < n ==> tells_trade(
                #[trigger] trades_feed(data, local_ts_ns, n)->Ok_0[i],
                data[i],
                local_ts_ns,
            ),
    decreases n,
{
    if n > 0 {
        every_trade_gives_its_event(data, local_ts_ns, n - 1);
        assert(trade_is_right(data[n - 1]));
        let events = trades_feed(data, local_ts_ns, n)->Ok_0;
        let earlier = trades_feed(data, local_ts_ns, n - 1)->Ok_0;
        assert forall|i: int| 0 <= i < n implies tells_trade(
            #[trigger] events[i],
            data[i],
            local_ts_ns,
        ) by {
            if i < n - 1 {
                assert(events[i] == earlier[i]);
            }
        }
    }
}

/// Where something is wrong in the trades of a message, the message gives no events, and the error
/// tells what is wrong in the first such trade: its direction, then its price, then its amount.
pub proof fn the_first_wrong_trade_is_told(data: Seq<TradeView>, local_ts_ns: i64, n: int, i: int)
    requires
        0 <= i < n <= data.len(),
        forall|j: int| 0 <= j < i ==> trade_is_right(#[trigger] data[j]),
        !trade_is_right(data[i]),
    ensures
        ({
            let trade = data[i];
            let result = trades_feed(data, local_ts_ns, n);
            &&& result is Err
            &&& !bought(trade.direction) && !sold(trade.direction) ==> result->Err_0
                == PublicErrorView::UnsupportedTradeDirection(trade.direction)
            &&& (bought(trade.direction) || sold(trade.direction)) && trade.price.value is None
                ==> result->Err_0 == (PublicErrorView::InvalidNumber {
                field: "trade_px"@,
                value: trade.price.text,
            })
            &&& (bought(trade.direction) || sold(trade.direction)) && trade.price.value is Some
                ==> result->Err_0 == (PublicErrorView::InvalidNumber {
                field: "trade_qty"@,
                value: trade.amount.text,
            })
        }),
    decreases n,
{
    if n == i + 1 {
        every_trade_gives_its_event(data, local_ts_ns, i);
    } else {
        the_first_wrong_trade_is_told(data, local_ts_ns, n - 1, i);
    }
}

/// The event is that of a price and an amount.
pub open spec fn tells_level(
    event: FeedEventView,
    symbol: Seq<char>,
    ev: u64,
    price: Option<Binary64>,
    amount: Option<Binary64>,
    timestamp_ms: i64,
    local_ts_ns: i64,
    ival: i64,
) -> bool {
    &&& event.symbol == symbol
    &&& event.event.ev == ev
    &&& Some(event.event.px) == price
    &&& Some(event.event.qty) == amount
    &&& same_time(event.event.exch_ts, timestamp_ms)
    &&& event.event.local_ts == local_ts_ns
    &&& event.event.ival == ival
    &&& event.event.order_id == 0
    &&& event.event.fval == Binary64 { bits: 0 }
}

/// The best prices give two events, the bid and then the ask, each with its price and amount; where
/// one of the four numbers is none, the first such one is told.
pub proof fn best_prices_give_two_events(data: BboView, local_ts_ns: i64)
    ensures
        ({
            let result = bbo_feed(data, local_ts_ns);
            let li = match data.last_increment_id {
                Some(li) => li,
                None => 0,
            };
            let right = data.bid_px.value is Some && data.bid_qty.value is Some
                && data.ask_px.value is Some && data.ask_qty.value is Some;
            &&& result is Ok <==> right
            &&& result matches Ok(events) ==> {
                &&& events.len() == 2
                &&& tells_level(
                    events[0],
                    data.symbol,
                    LOCAL_BID_DEPTH_BBO_EVENT,
                    data.bid_px.value,
                    data.bid_qty.value,
                    data.timestamp_ms,
                    local_ts_ns,
                    li,
                )
                &&& tells_level(
                    events[1],
                    data.symbol,
                    LOCAL_ASK_DEPTH_BBO_EVENT,
                    data.ask_px.value,
                    data.ask_qty.value,
                    data.timestamp_ms,
                    local_ts_ns,
                    li,
                )
            }
            &&& result matches Err(error) ==> error == if data.bid_px.value is None {
                PublicErrorView::InvalidNumber { field: "bid_px"@, value: data.bid_px.text }
            } else if data.bid_qty.value is None {
                PublicErrorView::InvalidNumber { field: "bid_qty"@, value: data.bid_qty.text }
            } else if data.ask_px.value is None {
                PublicErrorView::InvalidNumber { field: "ask_px"@, value: data.ask_px.text }
            } else {
                PublicErrorView::InvalidNumber { field: "ask_qty"@, value: data.ask_qty.text }
            }
        }),
{
}

/// Nothing is wrong in a level.
pub open spec fn level_is_right(level: BookLevelView) -> bool {
    level.price.value is Some && level.amount.value is Some
}

/// Where nothing is wrong in the levels of a side, there is one event for each, in their order.
proof fn lemma_right_levels(
    symbol: Seq<char>,
    kind: LevelKind,
    stamp: FeedStamp,
    levels: Seq<BookLevelView>,
    n: int,
)
    requires
        0 <= n <= levels.len(),
        forall|i: int| 0 <= i < n ==> level_is_right(#[trigger] levels[i]),
    ensures
        level_events(symbol, kind, stamp, levels, n) is Ok,
        level_events(symbol, kind, stamp, levels, n)->Ok_0.len() == n,
        forall|i: int|
            0 <= i < n ==> {
                let event = #[trigger] level_events(symbol, kind, stamp, levels, n)->Ok_0[i];
                &&& event.symbol == symbol
                &&& event.event.ev == kind.ev
                &&& Some(event.event.px) == levels[i].price.value
                &&& Some(event.event.qty) == levels[i].amount.value
                &&& event.event.exch_ts == stamp.exch_ts
                &&& event.event.local_ts == stamp.local_ts
                &&& event.event.ival == stamp.ival
                &&& event.event.order_id == 0
                &&& event.event.fval == Binary64 { bits: 0 }
            },
    decreases n,
{
    if n > 0 {
        lemma_right_levels(symbol, kind, stamp, levels, n - 1);
        assert(level_is_right(levels[n - 1]));
        let events = level_events(symbol, kind, stamp, levels, n)->Ok_0;
        let earlier = level_events(symbol, kind, stamp, levels, n - 1)->Ok_0;
        assert forall|i: int| 0 <= i < n - 1 implies #[trigger] events[i] == earlier[i] by {}
    }
}

/// The first level in which something is wrong is told: its price, then its amount.
proof fn lemma_wrong_level(
    symbol: Seq<char>,
    kind: LevelKind,
    stamp: FeedStamp,
    levels: Seq<BookLevelView>,
    n: int,
    i: int,
)
    requires
        0 <= i < n <= levels.len(),
        forall|j: int| 0 <= j < i ==> level_is_right(#[trigger] levels[j]),
        !level_is_right(levels[i]),
    ensures
        ({
            let result = level_events(symbol, kind, stamp, levels, n);
            &&& result is Err
            &&& levels[i].price.value is None ==> result->Err_0.field == kind.px_field@
                && result->Err_0.value == levels[i].price.text
            &&& levels[i].price.value is Some ==> result->Err_0.field == kind.qty_field@
                && result->Err_0.value == levels[i].amount.text
        }),
    decreases n,
{
    if n == i + 1 {
        lemma_right_levels(symbol, kind, stamp, levels, i);
    } else {
        lemma_wrong_level(symbol, kind, stamp, levels, n - 1, i);
    }
}

/// A book with both sides, in which nothing is wrong, gives one event for each level: the bids in
/// their order, then the asks in theirs, each with its price and amount.
pub proof fn every_level_gives_its_event(data: BookView, local_ts_ns: i64)
    requires
        data.levels.len() >= 2,
        forall|i: int| 0 <= i < data.levels[0].len() ==> level_is_right(#[trigger] data.levels[0][i]),
        forall|i: int| 0 <= i < data.levels[1].len() ==> level_is_right(#[trigger] data.levels[1][i]),
    ensures
        ({
            let events = book_feed(data, local_ts_ns)->Ok_0;
            let bids = data.levels[0];
            let asks = data.levels[1];
            let li = match data.last_increment_id {
                Some(li) => li,
                None => 0,
            };
            &&& book_feed(data, local_ts_ns) is Ok
            &&& events.len() == bids.len() + asks.len()
            &&& forall|i: int|
                0 <= i < bids.len() ==> tells_level(
                    #[trigger] events[i],
                    data.symbol,
                    LOCAL_BID_DEPTH_EVENT,
                    bids[i].price.value,
                    bids[i].amount.value,
                    data.timestamp_ms,
                    local_ts_ns,
                    li,
                )
            &&& forall|i: int|
                bids.len() <= i < bids.len() + asks.len() ==> tells_level(
                    #[trigger] events[i],
                    data.symbol,
                    LOCAL_ASK_DEPTH_EVENT,
                    asks[i - bids.len()].price.value,
                    asks[i - bids.len()].amount.value,
                    data.timestamp_ms,
                    local_ts_ns,
                    li,
                )
        }),
{
    let stamp = FeedStamp {
        exch_ts: crate::types::nanos(data.timestamp_ms),
        local_ts: local_ts_ns,
        ival: crate::public_stream::or_zero(data.last_increment_id),
    };
    let bid = crate::public_stream::bid_kind();
    let ask = crate::public_stream::ask_kind();
    lemma_right_levels(data.symbol, bid, stamp, data.levels[0], data.levels[0].len() as int);
    lemma_right_levels(data.symbol, ask, stamp, data.levels[1], data.levels[1].len() as int);
    let bids = level_events(data.symbol, bid, stamp, data.levels[0], data.levels[0].len() as int)->Ok_0;
    let asks = level_events(data.symbol, ask, stamp, data.levels[1], data.levels[1].len() as int)->Ok_0;
    let events = book_feed(data, local_ts_ns)->Ok_0;
    assert(events == bids + asks);
    assert forall|i: int| 0 <= i < bids.len() implies #[trigger] events[i] == bids[i] by {}
    assert forall|i: int| bids.len() <= i < events.len() implies #[trigger] events[i] == asks[i
        - bids.len()] by {}
}

/// A book without both sides, or with a level in which something is wrong, gives no events. The
/// missing side is told, or the first wrong level: the bids are looked at before the asks.
pub proof fn the_first_wrong_level_is_told(data: BookView, local_ts_ns: i64, side: int, i: int)
    requires
        data.levels.len() >= 2 ==> {
            &&& side == 0 || side == 1
            &&& 0 <= i < data.levels[side].len()
            &&& !level_is_right(data.levels[side][i])
            &&& forall|j: int| 0 <= j < i ==> level_is_right(#[trigger] data.levels[side][j])
            &&& side == 1 ==> forall|j: int|
                0 <= j < data.levels[0].len() ==> level_is_right(#[trigger] data.levels[0][j])
        },
    ensures
        ({
            let result = book_feed(data, local_ts_ns);
            &&& result is Err
            &&& data.levels.len() < 2 ==> result->Err_0 == PublicErrorView::MissingBookSide
            &&& data.levels.len() >= 2 ==> {
                let level = data.levels[side][i];
                result->Err_0 == if level.price.value is None {
                    PublicErrorView::InvalidNumber {
                        field: if side == 0 {
                            "bid_px"@
                        } else {
                            "ask_px"@
                        },
                        value: level.price.text,
                    }
                } else {
                    PublicErrorView::InvalidNumber {
                        field: if side == 0 {
                            "bid_qty"@
                        } else {
                            "ask_qty"@
                        },
                        value: level.amount.text,
                    }
                }
            }
        }),
{
    if data.levels.len() >= 2 {
        let stamp = FeedStamp {
            exch_ts: crate::types::nanos(data.timestamp_ms),
            local_ts: local_ts_ns,
            ival: crate::public_stream::or_zero(data.last_increment_id),
        };
        let bid = crate::public_stream::bid_kind();
        let ask = crate::public_stream::ask_kind();
        let bids = data.levels[0];
        let asks = data.levels[1];
        if side == 0 {
            lemma_wrong_level(data.symbol, bid, stamp, bids, bids.len() as int, i);
        } else {
            lemma_right_levels(data.symbol, bid, stamp, bids, bids.len() as int);
            lemma_wrong_level(data.symbol, ask, stamp, asks, asks.len() as int, i);
        }
    }
}

/// A message gives the events of the channel that it names, and of no other: best prices, the book
/// or trades. Other channels give none, and a message that cannot be read for its channel is an
/// error.
pub proof fn messages_are_read_for_their_channel(message: PublicMessage, local_ts_ns: i64)
    ensures
        ({
            let result = message.feed(local_ts_ns);
            &&& message.channel matches Err(error) ==> result == Err::<
                Seq<FeedEventView>,
                PublicErrorView,
            >(PublicErrorView::Json(error@))
            &&& message.channel matches Ok(frame) ==> {
                let name = frame.channel@;
                &&& name == "bbo"@ ==> result == (match message.bbo {
                    Ok(frame) => bbo_feed(frame.data@, local_ts_ns),
                    Err(error) => Err(PublicErrorView::Json(error@)),
                })
                &&& name == "book"@ ==> result == (match message.book {
                    Ok(frame) => book_feed(frame.data@, local_ts_ns),
                    Err(error) => Err(PublicErrorView::Json(error@)),
                })
                &&& name == "trades"@ ==> result == (match message.trades {
                    Ok(frame) => trades_feed(
                        frame.data.deep_view(),
                        local_ts_ns,
                        frame.data@.len() as int,
                    ),
                    Err(error) => Err(PublicErrorView::Json(error@)),
                })
                &&& name != "bbo"@ && name != "book"@ && name != "trades"@ ==> result == Ok::<
                    Seq<FeedEventView>,
                    PublicErrorView,
                >(Seq::empty())
            }
        }),
{
    reveal_strlit("bbo");
    reveal_strlit("book");
    reveal_strlit("trades");
    assert("bbo"@.len() == 3 && "book"@.len() == 4 && "trades"@.len() == 6);
}

/// Three channels are read, each by its name.
pub proof fn channels_go_by_their_names(name: Seq<char>)
    ensures
        channel_named(name) == PublicChannel::Bbo <==> name == "bbo"@,
        channel_named(name) == PublicChannel::Book <==> name == "book"@,
        channel_named(name) == PublicChannel::Trades <==> name == "trades"@,
{
    reveal_strlit("bbo");
    reveal_strlit("book");
    reveal_strlit("trades");
    assert("bbo"@.len() == 3 && "book"@.len() == 4 && "trades"@.len() == 6);
}

/// A bot receives every feed event, in their order, with its symbol.
pub proof fn every_feed_event_is_published(events: Seq<FeedEventView>)
    ensures
        live_feed(events).len() == events.len(),
        forall|i: int|
            0 <= i < events.len() ==> #[trigger] live_feed(events)[i] == (LiveEventView::Feed {
                symbol: events[i].symbol,
                event: events[i].event,
            }),
{
}

/// What the stream of public messages does about what happens to it: it answers signs of life, it
/// follows new symbols, it publishes what a message gives, and it leaves where the socket is lost,
/// where a message is wrong, or where no more symbols will come.
pub proof fn the_public_stream_answers_what_happens(
    input: PublicInput,
    agg_level: i64,
    local_ts_ns: i64,
)
    ensures
        ({
            let answer = input.answer(agg_level, local_ts_ns);
            &&& input is Tick ==> (answer matches PublicOutputView::Send(requests) && requests.len()
                == 1 && requests[0] == ping())
            &&& input matches PublicInput::Symbol(symbol) ==> answer == PublicOutputView::Send(
                public_requests(symbol@, agg_level),
            )
            &&& input is SymbolsClosed ==> (answer matches PublicOutputView::Finish(Ok(_)))
            &&& input is SymbolsLagged || input is Ignored ==> (
            answer matches PublicOutputView::Publish(events) && events.len() == 0)
            &&& input matches PublicInput::Text(message) ==> {
                &&& message.feed(local_ts_ns) matches Ok(feed) ==> answer
                    == PublicOutputView::Publish(live_feed(feed))
                &&& message.feed(local_ts_ns) matches Err(error) ==> answer
                    == PublicOutputView::Finish(Err::<(), PublicErrorView>(error))
            }
            &&& input is Ping ==> answer is Pong
            &&& input is Closed ==> answer == PublicOutputView::Finish(
                Err::<(), PublicErrorView>(
                    PublicErrorView::WebSocket(WebSocketErrorView::ConnectionInterrupted),
                ),
            )
            &&& input matches PublicInput::Failed(error) ==> answer == PublicOutputView::Finish(
                Err::<(), PublicErrorView>(
                    PublicErrorView::WebSocket(WebSocketErrorView::Tungstenite(error@)),
                ),
            )
        }),
{
}

/// At the start the stream asks for the three channels of every symbol, symbol by symbol.
pub proof fn every_symbol_is_asked_for(symbols: Seq<Seq<char>>, agg_level: i64, n: int)
    requires
        0 <= n <= symbols.len(),
    ensures
        initial_requests(symbols, agg_level, n).len() == 3 * n,
        forall|i: int, k: int|
            #![trigger initial_requests(symbols, agg_level, n)[3 * i + k]]
            0 <= i < n && 0 <= k < 3 ==> initial_requests(symbols, agg_level, n)[3 * i + k]
                == public_requests(symbols[i], agg_level)[k],
    decreases n,
{
    if n > 0 {
        every_symbol_is_asked_for(symbols, agg_level, n - 1);
        let earlier = initial_requests(symbols, agg_level, n - 1);
        let all = initial_requests(symbols, agg_level, n);
        let added = public_requests(symbols[n - 1], agg_level);
        assert(all == earlier + added);
        assert forall|i: int, k: int|
            #![trigger all[3 * i + k]]
            0 <= i < n && 0 <= k < 3 implies all[3 * i + k] == public_requests(
            symbols[i],
            agg_level,
        )[k] by {
            if i < n - 1 {
                assert(3 * i + k < 3 * (n - 1));
                assert(all[3 * i + k] == earlier[3 * i + k]);
            } else {
                assert(all[3 * i + k] == added[k]);
            }
        }
    }
}

/// A request to follow a channel: it subscribes, with parameters.
pub open spec fn subscribes(request: JsonView, source: Seq<char>) -> bool {
    &&& json_get(request, "method"@) == Some(JsonView::Text("subscribe"@))
    &&& json_get(request, "params"@) matches Some(params) && json_get(params, "source"@) == Some(
        JsonView::Text(source),
    )
}

/// For a symbol its book, its trades and its best prices are asked for, the book in steps of
/// `agg_level`.
pub proof fn public_requests_name_the_symbol(symbol: Seq<char>, agg_level: i64)
    ensures
        ({
            let requests = public_requests(symbol, agg_level);
            &&& requests.len() == 3
            &&& subscribes(requests[0], "book"@)
            &&& subscribes(requests[1], "trades"@)
            &&& subscribes(requests[2], "bbo"@)
            &&& forall|i: int|
                0 <= i < 3 ==> json_get(
                    json_get(#[trigger] requests[i], "params"@)->0,
                    "symbol"@,
                ) == Some(JsonView::Text(symbol))
            &&& json_get(json_get(requests[0], "params"@)->0, "agg_level"@) == Some(
                JsonView::Int(agg_level),
            )
        }),
{
    let requests = public_requests(symbol, agg_level);
    reveal_strlit("method");
    reveal_strlit("params");
    reveal_strlit("agg_level");
    reveal_strlit("source");
    reveal_strlit("symbol");
    reveal_with_fuel(lex_less, 3);
    assert forall|i: int| 0 <= i < 3 implies {
        &&& json_get(#[trigger] requests[i], "method"@) == Some(JsonView::Text("subscribe"@))
        &&& json_get(requests[i], "params"@) is Some
        &&& json_get(json_get(requests[i], "params"@)->0, "symbol"@) == Some(JsonView::Text(symbol))
        &&& json_get(json_get(requests[i], "params"@)->0, "source"@) == Some(
            JsonView::Text(
                if i == 0 {
                    "book"@
                } else if i == 1 {
                    "trades"@
                } else {
                    "bbo"@
                },
            ),
        )
        &&& i == 0 ==> json_get(json_get(requests[i], "params"@)->0, "agg_level"@) == Some(
            JsonView::Int(agg_level),
        )
    } by {
        let members = requests[i]->Object_0;
        assert(names_in_order(members));
        members_are_found_by_name(members, "method"@);
        members_are_found_by_name(members, "params"@);
        assert(members[0].0 == "method"@ && members[1].0 == "params"@);
        let params = members[1].1->Object_0;
        assert(names_in_order(params));
        members_are_found_by_name(params, "symbol"@);
        members_are_found_by_name(params, "source"@);
        members_are_found_by_name(params, "agg_level"@);
        if i == 0 {
            assert(params[0].0 == "agg_level"@ && params[1].0 == "source"@ && params[2].0
                == "symbol"@);
        } else {
            assert(params[0].0 == "source"@ && params[1].0 == "symbol"@);
        }
    }
    assert(subscribes(requests[0], "book"@));
    assert(subscribes(requests[1], "trades"@));
    assert(subscribes(requests[2], "bbo"@));
}

/// For an account its positions, its orders and its trades are asked for.
pub proof fn private_requests_name_the_account(account: Seq<char>)
    ensures
        ({
            let requests = private_requests(account);
            &&& requests.len() == 3
            &&& subscribes(requests[0], "account_positions"@)
            &&& subscribes(requests[1], "account_order_updates"@)
            &&& subscribes(requests[2], "account_trades"@)
            &&& forall|i: int|
                0 <= i < 3 ==> json_get(
                    json_get(#[trigger] requests[i], "params"@)->0,
                    "account"@,
                ) == Some(JsonView::Text(account))
        }),
{
    let requests = private_requests(account);
    reveal_strlit("method");
    reveal_strlit("params");
    reveal_strlit("account");
    reveal_strlit("source");
    assert forall|i: int| 0 <= i < 3 implies {
        &&& json_get(#[trigger] requests[i], "method"@) == Some(JsonView::Text("subscribe"@))
        &&& json_get(requests[i], "params"@) is Some
        &&& json_get(json_get(requests[i], "params"@)->0, "account"@) == Some(
            JsonView::Text(account),
        )
        &&& json_get(json_get(requests[i], "params"@)->0, "source"@) == Some(
            JsonView::Text(
                if i == 0 {
                    "account_positions"@
                } else if i == 1 {
                    "account_order_updates"@
                } else {
                    "account_trades"@
                },
            ),
        )
    } by {
        let members = requests[i]->Object_0;
        assert(names_in_order(members));
        members_are_found_by_name(members, "method"@);
        members_are_found_by_name(members, "params"@);
        assert(members[0].0 == "method"@ && members[1].0 == "params"@);
        let params = members[1].1->Object_0;
        assert(names_in_order(params));
        members_are_found_by_name(params, "account"@);
        members_are_found_by_name(params, "source"@);
        assert(params[0].0 == "account"@ && params[1].0 == "source"@);
    }
    assert(subscribes(requests[0], "account_positions"@));
    assert(subscribes(requests[1], "account_order_updates"@));
    assert(subscribes(requests[2], "account_trades"@));
}

/// A sign of life is the method of that name, and nothing else.
pub proof fn ping_is_a_method()
    ensures
        json_get(ping(), "method"@) == Some(JsonView::Text("ping"@)),
        forall|name: Seq<char>| #[trigger]
            json_get(ping(), name) is Some ==> name == "method"@,
{
    let members = ping()->Object_0;
    assert(names_in_order(members));
    members_are_found_by_name(members, "method"@);
    assert(members[0].0 == "method"@);
    assert forall|name: Seq<char>| #[trigger] json_get(ping(), name) is Some implies name
        == "method"@ by {
        members_are_found_by_name(members, name);
    }
}

/// An answer counts where it was read and was not marked as a failure.
pub proof fn failures_of_the_exchange_are_told<T: DeepView>(
    envelope: Result<RestEnvelope<T>, String>,
)
    ensures
        envelope matches Err(error) ==> payload_of(envelope) == Err::<T::V, StartupErrorView>(
            StartupErrorView::Json(error@),
        ),
        envelope matches Ok(answer) ==> payload_of(envelope) == (if answer.payload.success == Some(
            false,
        ) {
            Err(StartupErrorView::RestFailure)
        } else {
            Ok(answer.payload.data.deep_view())
        }),
{
}

/// The rules of a market are the numbers of the first market of the symbol; a symbol without a
/// market is told, and so is the first field that is no number.
pub proof fn market_rules_are_those_of_the_symbol(markets: Seq<MarketInfoView>, symbol: Seq<char>)
    ensures
        ({
            let found = market_found(markets, symbol);
            &&& (forall|i: int| 0 <= i < markets.len() ==> (#[trigger] markets[i]).symbol != symbol)
                ==> (found matches Err(error) && error == StartupErrorView::MissingMarketInfo(symbol))
            &&& forall|i: int|
                #![trigger markets[i]]
                0 <= i < markets.len() && markets[i].symbol == symbol && (forall|j: int|
                    0 <= j < i ==> (#[trigger] markets[j]).symbol != symbol) ==> {
                    let info = markets[i];
                    let right = info.tick_size.value is Some && info.lot_size.value is Some
                        && info.min_order_size.value is Some;
                    &&& found is Ok <==> right
                    &&& found matches Ok(market) ==> {
                        &&& market.symbol == symbol
                        &&& Some(market.tick_size) == info.tick_size.value
                        &&& Some(market.lot_size) == info.lot_size.value
                        &&& Some(market.min_order_size) == info.min_order_size.value
                    }
                    &&& found matches Err(error) ==> error == if info.tick_size.value is None {
                        StartupErrorView::InvalidNumber {
                            field: "tick_size"@,
                            value: info.tick_size.text,
                        }
                    } else if info.lot_size.value is None {
                        StartupErrorView::InvalidNumber {
                            field: "lot_size"@,
                            value: info.lot_size.text,
                        }
                    } else {
                        StartupErrorView::InvalidNumber {
                            field: "min_order_size"@,
                            value: info.min_order_size.text,
                        }
                    }
                }
        }),
{
    crate::startup::market_found_is_the_first(markets, symbol);
    assert forall|i: int|
        #![trigger markets[i]]
        0 <= i < markets.len() && markets[i].symbol == symbol && (forall|j: int|
            0 <= j < i ==> (#[trigger] markets[j]).symbol != symbol) implies market_named(
        markets,
        symbol,
        0,
    ) == Some(markets[i]) by {
        lemma_first_market(markets, symbol, 0, i);
    }
}

proof fn lemma_first_market(markets: Seq<MarketInfoView>, symbol: Seq<char>, from: int, i: int)
    requires
        0 <= from <= i < markets.len(),
        markets[i].symbol == symbol,
        forall|j: int| from <= j < i ==> (#[trigger] markets[j]).symbol != symbol,
    ensures
        market_named(markets, symbol, from) == Some(markets[i]),
    decreases i - from,
{
    if from < i {
        assert(markets[from].symbol != symbol);
        lemma_first_market(markets, symbol, from + 1, i);
    }
}

/// A snapshot of the book with both sides, in which nothing is wrong, gives one event for each
/// level: the bids in their order, then the asks in theirs.
pub proof fn every_level_of_a_snapshot_gives_its_event(book: BookSnapshotView, local_ts_ns: i64)
    requires
        book.levels.len() >= 2,
        forall|i: int| 0 <= i < book.levels[0].len() ==> level_is_right(#[trigger] book.levels[0][i]),
        forall|i: int| 0 <= i < book.levels[1].len() ==> level_is_right(#[trigger] book.levels[1][i]),
    ensures
        ({
            let events = snapshot_feed(book, local_ts_ns)->Ok_0;
            let bids = book.levels[0];
            let asks = book.levels[1];
            &&& snapshot_feed(book, local_ts_ns) is Ok
            &&& events.len() == bids.len() + asks.len()
            &&& forall|i: int|
                0 <= i < events.len() ==> {
                    let told = #[trigger] events[i];
                    let bid = i < bids.len();
                    let level = if bid {
                        bids[i]
                    } else {
                        asks[i - bids.len()]
                    };
                    &&& told is Feed
                    &&& tells_level(
                        FeedEventView { symbol: told->Feed_symbol, event: told->Feed_event },
                        book.symbol,
                        if bid {
                            LOCAL_BID_DEPTH_SNAPSHOT_EVENT
                        } else {
                            LOCAL_ASK_DEPTH_SNAPSHOT_EVENT
                        },
                        level.price.value,
                        level.amount.value,
                        book.timestamp_ms,
                        local_ts_ns,
                        0,
                    )
                }
        }),
{
    let stamp = FeedStamp {
        exch_ts: crate::types::nanos(book.timestamp_ms),
        local_ts: local_ts_ns,
        ival: 0,
    };
    let bid = crate::startup::bid_snapshot_kind();
    let ask = crate::startup::ask_snapshot_kind();
    lemma_right_levels(book.symbol, bid, stamp, book.levels[0], book.levels[0].len() as int);
    lemma_right_levels(book.symbol, ask, stamp, book.levels[1], book.levels[1].len() as int);
    let bids = level_events(book.symbol, bid, stamp, book.levels[0], book.levels[0].len() as int)->Ok_0;
    let asks = level_events(book.symbol, ask, stamp, book.levels[1], book.levels[1].len() as int)->Ok_0;
    let events = snapshot_feed(book, local_ts_ns)->Ok_0;
    every_feed_event_is_published(bids + asks);
    assert(events == live_feed(bids + asks));
    assert forall|i: int| 0 <= i < events.len() implies #[trigger] events[i]
        == (LiveEventView::Feed { symbol: (bids + asks)[i].symbol, event: (bids + asks)[i].event }) by {}
    assert forall|i: int| 0 <= i < bids.len() implies #[trigger] (bids + asks)[i] == bids[i] by {}
    assert forall|i: int| bids.len() <= i < bids.len() + asks.len() implies #[trigger] (bids
        + asks)[i] == asks[i - bids.len()] by {}
}

/// A snapshot without both sides, or with a level in which something is wrong, gives no events. The
/// missing side is told, or the first wrong level: the bids are looked at before the asks.
pub proof fn the_first_wrong_level_of_a_snapshot_is_told(
    book: BookSnapshotView,
    local_ts_ns: i64,
    side: int,
    i: int,
)
    requires
        book.levels.len() >= 2 ==> {
            &&& side == 0 || side == 1
            &&& 0 <= i < book.levels[side].len()
            &&& !level_is_right(book.levels[side][i])
            &&& forall|j: int| 0 <= j < i ==> level_is_right(#[trigger] book.levels[side][j])
            &&& side == 1 ==> forall|j: int|
                0 <= j < book.levels[0].len() ==> level_is_right(#[trigger] book.levels[0][j])
        },
    ensures
        ({
            let result = snapshot_feed(book, local_ts_ns);
            &&& result is Err
            &&& book.levels.len() < 2 ==> result->Err_0 == StartupErrorView::MissingBookSide
            &&& book.levels.len() >= 2 ==> {
                let level = book.levels[side][i];
                result->Err_0 == if level.price.value is None {
                    StartupErrorView::InvalidNumber {
                        field: if side == 0 {
                            "bid_px"@
                        } else {
                            "ask_px"@
                        },
                        value: level.price.text,
                    }
                } else {
                    StartupErrorView::InvalidNumber {
                        field: if side == 0 {
                            "bid_qty"@
                        } else {
                            "ask_qty"@
                        },
                        value: level.amount.text,
                    }
                }
            }
        }),
{
    if book.levels.len() >= 2 {
        let stamp = FeedStamp {
            exch_ts: crate::types::nanos(book.timestamp_ms),
            local_ts: local_ts_ns,
            ival: 0,
        };
        let bid = crate::startup::bid_snapshot_kind();
        let ask = crate::startup::ask_snapshot_kind();
        let bids = book.levels[0];
        let asks = book.levels[1];
        if side == 0 {
            lemma_wrong_level(book.symbol, bid, stamp, bids, bids.len() as int, i);
        } else {
            lemma_right_levels(book.symbol, bid, stamp, bids, bids.len() as int);
            lemma_wrong_level(book.symbol, ask, stamp, asks, asks.len() as int, i);
        }
    }
}

/// The long name of a field counts before the short one: for the symbol, the amount and the side;
/// the time is that of the last change by its long or short name, or else that of the opening.
pub proof fn long_names_count_before_short_ones(position: PositionSnapshotView)
    ensures
        position.symbol is Some ==> position.symbol_of() == position.symbol,
        position.symbol is None ==> position.symbol_of() == position.short_symbol,
        position.amount matches Some(amount) ==> position.amount_of() == amount,
        position.amount is None ==> (position.short_amount matches Some(amount)
            ==> position.amount_of() == amount),
        position.amount is None && position.short_amount is None ==> position.amount_of().value
            == Some(Binary64 { bits: 0 }),
        position.updated_at matches Some(t) ==> position.time_of() == t,
        position.updated_at is None ==> (position.short_updated_at matches Some(t)
            ==> position.time_of() == t),
        position.updated_at is None && position.short_updated_at is None ==> (
        position.created_at matches Some(t) ==> position.time_of() == t),
        position.updated_at is None && position.short_updated_at is None && position.created_at
            is None ==> position.time_of() == 0,
{
}

/// A position is short where its side, by its long name or else by its short one, is the ask side:
/// its quantity is then the amount under the other sign, and otherwise the amount itself. An amount
/// that is no number is told.
pub proof fn short_positions_are_below_zero(position: PositionSnapshotView)
    ensures
        ({
            let amount = if position.amount is Some {
                position.amount
            } else {
                position.short_amount
            };
            let short = position.side == Some("ask"@) || (position.side is None
                && position.short_side == Some("ask"@));
            &&& amount is None ==> (position.quantity() matches Ok(qty) && qty.bits == if short {
                0x8000_0000_0000_0000int
            } else {
                0int
            })
            &&& amount matches Some(amount) ==> {
                &&& amount.value is None ==> (position.quantity() matches Err(fault) && fault.field
                    == "position_amount"@ && fault.value == amount.text)
                &&& amount.value matches Some(x) ==> (position.quantity() matches Ok(qty)
                    && qty.bits == if !short {
                    x.bits as int
                } else if x.bits < 0x8000_0000_0000_0000 {
                    x.bits + 0x8000_0000_0000_0000
                } else {
                    x.bits - 0x8000_0000_0000_0000
                })
            }
        }),
{
}

/// The position of a snapshot counts: it has a symbol, and its amount is a number other than zero.
pub open spec fn position_counts(position: PositionSnapshotView) -> bool {
    &&& position.symbol is Some || position.short_symbol is Some
    &&& position.quantity() matches Ok(qty) && qty.bits != 0 && qty.bits != 0x8000_0000_0000_0000
}

/// Something is wrong in a position of a snapshot: it has a symbol, and its amount is no number.
pub open spec fn position_is_wrong(position: PositionSnapshotView) -> bool {
    (position.symbol is Some || position.short_symbol is Some) && position.quantity() is Err
}

/// `places` are the places of the positions that count among the first `n`, in order.
pub open spec fn counting_places(
    data: Seq<PositionSnapshotView>,
    n: int,
    places: Seq<int>,
) -> bool {
    &&& forall|k: int|
        0 <= k < places.len() ==> 0 <= #[trigger] places[k] < n && position_counts(data[places[k]])
    &&& forall|a: int, b: int|
        #![trigger places[a], places[b]]
        0 <= a < b < places.len() ==> places[a] < places[b]
    &&& forall|i: int|
        0 <= i < n && position_counts(#[trigger] data[i]) ==> places.contains(i)
}

/// Where nothing is wrong in the positions of a snapshot, those that count are found, each once and
/// in their order, with their symbol, quantity and time.
pub proof fn every_open_position_is_found(data: Seq<PositionSnapshotView>, n: int) -> (places: Seq<
    int,
>)
    requires
        0 <= n <= data.len(),
        forall|i: int| 0 <= i < n ==> !position_is_wrong(#[trigger] data[i]),
    ensures
        counting_places(data, n, places),
        ({
            let found = open_positions(data, n)->Ok_0;
            &&& open_positions(data, n) is Ok
            &&& found.len() == places.len()
            &&& forall|k: int|
                0 <= k < found.len() ==> {
                    let position = data[places[k]];
                    &&& Some((#[trigger] found[k]).symbol) == position.symbol_of()
                    &&& (position.quantity() matches Ok(qty) && found[k].qty == qty)
                    &&& same_time(found[k].exch_ts, position.time_of())
                }
        }),
    decreases n,
{
    if n == 0 {
        Seq::empty()
    } else {
        let earlier = every_open_position_is_found(data, n - 1);
        let position = data[n - 1];
        assert(!position_is_wrong(position));
        if position_counts(position) {
            let places = earlier.push(n - 1);
            let before = open_positions(data, n - 1)->Ok_0;
            let found = open_positions(data, n)->Ok_0;
            assert(found.drop_last() =~= before);
            assert forall|i: int| 0 <= i < n && position_counts(#[trigger] data[i]) implies places.contains(
                i,
            ) by {
                if i < n - 1 {
                    let k = choose|k: int| 0 <= k < earlier.len() && earlier[k] == i;
                    assert(places[k] == i);
                } else {
                    assert(places[earlier.len() as int] == i);
                }
            }
            assert forall|k: int| 0 <= k < found.len() implies {
                let position = data[places[k]];
                &&& Some((#[trigger] found[k]).symbol) == position.symbol_of()
                &&& (position.quantity() matches Ok(qty) && found[k].qty == qty)
                &&& same_time(found[k].exch_ts, position.time_of())
            } by {
                if k < before.len() {
                    assert(found[k] == before[k]);
                    assert(places[k] == earlier[k]);
                }
            }
            places
        } else {
            earlier
        }
    }
}

/// Where something is wrong in the positions of a snapshot, none is told, and the error tells of
/// the first wrong one.
pub proof fn the_first_wrong_position_is_told(data: Seq<PositionSnapshotView>, n: int, i: int)
    requires
        0 <= i < n <= data.len(),
        position_is_wrong(data[i]),
        forall|j: int| 0 <= j < i ==> !position_is_wrong(#[trigger] data[j]),
    ensures
        open_positions(data, n) is Err,
        open_positions(data, n)->Err_0 == data[i].quantity()->Err_0,
    decreases n,
{
    if n == i + 1 {
        let _ = every_open_position_is_found(data, i);
    } else {
        the_first_wrong_position_is_told(data, n - 1, i);
    }
}

/// A bot receives every position that was found, in their order.
pub proof fn every_found_position_is_published(positions: Seq<StartupPositionView>)
    ensures
        position_events_of(positions).len() == positions.len(),
        forall|i: int|
            0 <= i < positions.len() ==> #[trigger] position_events_of(positions)[i]
                == (LiveEventView::Position {
                symbol: positions[i].symbol,
                qty: positions[i].qty,
                exch_ts: positions[i].exch_ts,
            }),
{
}

/// What is said of the messages of the public channels and of the REST interface is what stands in
/// them.
pub proof fn public_messages_say_what_they_hold(
    bbo: Bbo,
    book: Book,
    level: BookLevel,
    trade: Trade,
    snapshot: BookSnapshot,
    market: MarketInfo,
)
    ensures
        bbo@.symbol == bbo.symbol@,
        bbo@.bid_px == bbo.bid_px@,
        bbo@.bid_qty == bbo.bid_qty@,
        bbo@.ask_px == bbo.ask_px@,
        bbo@.ask_qty == bbo.ask_qty@,
        bbo@.timestamp_ms == bbo.timestamp_ms,
        bbo@.last_increment_id == bbo.last_increment_id,
        book@.symbol == book.symbol@,
        book@.timestamp_ms == book.timestamp_ms,
        book@.last_increment_id == book.last_increment_id,
        book@.levels.len() == book.levels@.len(),
        forall|i: int, j: int|
            #![trigger book@.levels[i][j]]
            0 <= i < book.levels@.len() && 0 <= j < book.levels@[i]@.len()
                ==> book@.levels[i].len() == book.levels@[i]@.len() && book@.levels[i][j]
                == book.levels@[i]@[j].deep_view(),
        level.deep_view().price.text == level.price.text@,
        level.deep_view().price.value == level.price.value,
        level.deep_view().amount.text == level.amount.text@,
        level.deep_view().amount.value == level.amount.value,
        trade.deep_view().symbol == trade.symbol@,
        trade.deep_view().price == trade.price@,
        trade.deep_view().amount == trade.amount@,
        trade.deep_view().direction == trade.direction@,
        trade.deep_view().timestamp_ms == trade.timestamp_ms,
        trade.deep_view().last_increment_id == trade.last_increment_id,
        snapshot@.symbol == snapshot.symbol@,
        snapshot@.timestamp_ms == snapshot.timestamp_ms,
        snapshot@.levels == snapshot.levels.deep_view(),
        market.deep_view().symbol == market.symbol@,
        market.deep_view().tick_size == market.tick_size@,
        market.deep_view().lot_size == market.lot_size@,
        market.deep_view().min_order_size == market.min_order_size@,
{
}

/// What is said of a position of the REST interface is what stands in it.
pub proof fn snapshots_say_what_they_hold(position: PositionSnapshot)
    ensures
        position.deep_view().symbol == position.symbol.deep_view(),
        position.deep_view().short_symbol == position.short_symbol.deep_view(),
        position.deep_view().amount == position.amount.deep_view(),
        position.deep_view().short_amount == position.short_amount.deep_view(),
        position.deep_view().side == position.side.deep_view(),
        position.deep_view().short_side == position.short_side.deep_view(),
        position.deep_view().updated_at == position.updated_at,
        position.deep_view().short_updated_at == position.short_updated_at,
        position.deep_view().created_at == position.created_at,
{
}

} // verus!
