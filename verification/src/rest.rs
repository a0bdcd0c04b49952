//! The answers of the REST interface.

use crate::binary64::{Binary64, NumericText, NumericView};
use vstd::prelude::*;

pub use crate::msg::{BookLevel, BookLevelView};

verus! {

/// An answer around its payload.
#[derive(Debug)]
pub struct RestEnvelope<T> {
    pub payload: RestPayload<T>,
}

/// What an answer holds.
#[derive(Debug)]
pub struct RestPayload<T> {
    pub success: Option<bool>,
    pub data: T,
}

/// The rules of a market.
#[derive(Debug)]
pub struct MarketInfo {
    pub symbol: String,
    pub tick_size: NumericText,
    pub lot_size: NumericText,
    pub min_order_size: NumericText,
}

/// What a [`MarketInfo`] says.
pub struct MarketInfoView {
    pub symbol: Seq<char>,
    pub tick_size: NumericView,
    pub lot_size: NumericView,
    pub min_order_size: NumericView,
}

impl DeepView for MarketInfo {
    type V = MarketInfoView;

    open spec fn deep_view(&self) -> MarketInfoView {
        MarketInfoView {
            symbol: self.symbol@,
            tick_size: self.tick_size@,
            lot_size: self.lot_size@,
            min_order_size: self.min_order_size@,
        }
    }
}

/// The book of a symbol: its bid levels, then its ask levels.
#[derive(Debug)]
pub struct BookSnapshot {
    pub symbol: String,
    pub levels: Vec<Vec<BookLevel>>,
    pub timestamp_ms: i64,
}

/// What a [`BookSnapshot`] says.
pub struct BookSnapshotView {
    pub symbol: Seq<char>,
    pub levels: Seq<Seq<BookLevelView>>,
    pub timestamp_ms: i64,
}

impl View for BookSnapshot {
    type V = BookSnapshotView;

    open spec fn view(&self) -> BookSnapshotView {
        BookSnapshotView {
            symbol: self.symbol@,
            levels: self.levels.deep_view(),
            timestamp_ms: self.timestamp_ms,
        }
    }
}

impl DeepView for BookSnapshot {
    type V = BookSnapshotView;

    open spec fn deep_view(&self) -> BookSnapshotView {
        self@
    }
}

/// The state of an account.
#[derive(Debug)]
pub struct AccountInfo {
    pub account_equity: String,
    pub available_to_spend: String,
    pub orders_count: i64,
    pub positions_count: i64,
    pub updated_at: i64,
}

/// What an [`AccountInfo`] says.
pub struct AccountInfoView {
    pub account_equity: Seq<char>,
    pub available_to_spend: Seq<char>,
    pub orders_count: i64,
    pub positions_count: i64,
    pub updated_at: i64,
}

impl DeepView for AccountInfo {
    type V = AccountInfoView;

    open spec fn deep_view(&self) -> AccountInfoView {
        AccountInfoView {
            account_equity: self.account_equity@,
            available_to_spend: self.available_to_spend@,
            orders_count: self.orders_count,
            positions_count: self.positions_count,
            updated_at: self.updated_at,
        }
    }
}

/// An open position, in the long or in the short names of its fields.
#[derive(Debug)]
pub struct PositionSnapshot {
    pub symbol: Option<String>,
    pub short_symbol: Option<String>,
    pub amount: Option<NumericText>,
    pub short_amount: Option<NumericText>,
    pub side: Option<String>,
    pub short_side: Option<String>,
    pub updated_at: Option<i64>,
    pub short_updated_at: Option<i64>,
    pub created_at: Option<i64>,
}

/// What a [`PositionSnapshot`] says.
pub struct PositionSnapshotView {
    pub symbol: Option<Seq<char>>,
    pub short_symbol: Option<Seq<char>>,
    pub amount: Option<NumericView>,
    pub short_amount: Option<NumericView>,
    pub side: Option<Seq<char>>,
    pub short_side: Option<Seq<char>>,
    pub updated_at: Option<i64>,
    pub short_updated_at: Option<i64>,
    pub created_at: Option<i64>,
}

impl DeepView for PositionSnapshot {
    type V = PositionSnapshotView;

    open spec fn deep_view(&self) -> PositionSnapshotView {
        PositionSnapshotView {
            symbol: self.symbol.deep_view(),
            short_symbol: self.short_symbol.deep_view(),
            amount: self.amount.deep_view(),
            short_amount: self.short_amount.deep_view(),
            side: self.side.deep_view(),
            short_side: self.short_side.deep_view(),
            updated_at: self.updated_at,
            short_updated_at: self.short_updated_at,
            created_at: self.created_at,
        }
    }
}

/// A position at the start.
#[derive(Debug, PartialEq)]
pub struct StartupPosition {
    pub symbol: String,
    pub qty: Binary64,
    pub exch_ts: i64,
}

/// What a [`StartupPosition`] says.
pub struct StartupPositionView {
    pub symbol: Seq<char>,
    pub qty: Binary64,
    pub exch_ts: i64,
}

impl DeepView for StartupPosition {
    type V = StartupPositionView;

    open spec fn deep_view(&self) -> StartupPositionView {
        StartupPositionView { symbol: self.symbol@, qty: self.qty, exch_ts: self.exch_ts }
    }
}

} // verus!
