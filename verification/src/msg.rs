//! The messages of the public channels.

use crate::binary64::{NumericText, NumericView};
use vstd::prelude::*;

verus! {

/// The channel that a message belongs to.
#[derive(Debug)]
pub struct ChannelFrame {
    pub channel: String,
}

/// A message with the best prices.
#[derive(Debug)]
pub struct BboFrame {
    pub data: Bbo,
}

/// The best prices of a symbol.
#[derive(Debug)]
pub struct Bbo {
    pub symbol: String,
    pub bid_px: NumericText,
    pub bid_qty: NumericText,
    pub ask_px: NumericText,
    pub ask_qty: NumericText,
    pub timestamp_ms: i64,
    pub last_increment_id: Option<i64>,
}

/// What a [`Bbo`] says.
pub struct BboView {
    pub symbol: Seq<char>,
    pub bid_px: NumericView,
    pub bid_qty: NumericView,
    pub ask_px: NumericView,
    pub ask_qty: NumericView,
    pub timestamp_ms: i64,
    pub last_increment_id: Option<i64>,
}

impl View for Bbo {
    type V = BboView;

    open spec fn view(&self) -> BboView {
        BboView {
            symbol: self.symbol@,
            bid_px: self.bid_px@,
            bid_qty: self.bid_qty@,
            ask_px: self.ask_px@,
            ask_qty: self.ask_qty@,
            timestamp_ms: self.timestamp_ms,
            last_increment_id: self.last_increment_id,
        }
    }
}

/// A message with the book.
#[derive(Debug)]
pub struct BookFrame {
    pub data: Book,
}

/// The book of a symbol: its bid levels, then its ask levels.
#[derive(Debug)]
pub struct Book {
    pub symbol: String,
    pub levels: Vec<Vec<BookLevel>>,
    pub timestamp_ms: i64,
    pub last_increment_id: Option<i64>,
}

/// What a [`Book`] says.
pub struct BookView {
    pub symbol: Seq<char>,
    pub levels: Seq<Seq<BookLevelView>>,
    pub timestamp_ms: i64,
    pub last_increment_id: Option<i64>,
}

impl View for Book {
    type V = BookView;

    open spec fn view(&self) -> BookView {
        BookView {
            symbol: self.symbol@,
            levels: self.levels.deep_view(),
            timestamp_ms: self.timestamp_ms,
            last_increment_id: self.last_increment_id,
        }
    }
}

/// A level of the book.
#[derive(Debug)]
pub struct BookLevel {
    pub price: NumericText,
    pub amount: NumericText,
}

/// What a [`BookLevel`] says.
pub struct BookLevelView {
    pub price: NumericView,
    pub amount: NumericView,
}

impl DeepView for BookLevel {
    type V = BookLevelView;

    open spec fn deep_view(&self) -> BookLevelView {
        BookLevelView { price: self.price@, amount: self.amount@ }
    }
}

/// A message with trades.
#[derive(Debug)]
pub struct TradesFrame {
    pub data: Vec<Trade>,
}

/// A trade.
#[derive(Debug)]
pub struct Trade {
    pub symbol: String,
    pub price: NumericText,
    pub amount: NumericText,
    pub direction: String,
    pub timestamp_ms: i64,
    pub last_increment_id: Option<i64>,
}

/// What a [`Trade`] says.
pub struct TradeView {
    pub symbol: Seq<char>,
    pub price: NumericView,
    pub amount: NumericView,
    pub direction: Seq<char>,
    pub timestamp_ms: i64,
    pub last_increment_id: Option<i64>,
}

impl DeepView for Trade {
    type V = TradeView;

    open spec fn deep_view(&self) -> TradeView {
        TradeView {
            symbol: self.symbol@,
            price: self.price@,
            amount: self.amount@,
            direction: self.direction@,
            timestamp_ms: self.timestamp_ms,
            last_increment_id: self.last_increment_id,
        }
    }
}

} // verus!
