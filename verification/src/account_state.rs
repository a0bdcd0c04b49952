//! The positions of the account, and which private messages are out of date.

use crate::binary64::{number_fault_message, number_fault_words, Binary64, NumericText, NumericView};
use crate::json::{
    json_get, json_i64_member, json_items, json_of_text, parse_json, JsonView,
};
use crate::keyed::KeyedMap;
use crate::symbols::{in_order, SymbolSet};
use crate::text::{outcome, text_eq};
use crate::types::{fits, fits_in_nanos, ms_to_ns, nanos, LiveEvent, LiveEventView};
use vstd::prelude::*;
use vstd::string::StringExecFns;

verus! {

/// Why a message on the account cannot be taken in.
#[derive(Debug)]
pub enum AccountStateError {
    Json(String),
    InvalidNumber { field: &'static str, value: String },
}

/// What an [`AccountStateError`] says.
pub enum AccountErrorView {
    Json(Seq<char>),
    InvalidNumber { field: Seq<char>, value: Seq<char> },
}

impl View for AccountStateError {
    type V = AccountErrorView;

    open spec fn view(&self) -> AccountErrorView {
        match *self {
            AccountStateError::Json(error) => AccountErrorView::Json(error@),
            AccountStateError::InvalidNumber { field, value } => AccountErrorView::InvalidNumber {
                field: field@,
                value: value@,
            },
        }
    }
}

impl AccountErrorView {
    /// The words for the error.
    pub open spec fn words(self) -> Seq<char> {
        match self {
            AccountErrorView::Json(error) => "json: "@ + error,
            AccountErrorView::InvalidNumber { field, value } => number_fault_words(field, value),
        }
    }
}

impl AccountStateError {
    /// The words for the error.
    pub fn message(&self) -> (r: String)
        ensures
            r@ == self@.words(),
    {
        match self {
            AccountStateError::Json(error) => "json: ".to_string().concat(error.as_str()),
            AccountStateError::InvalidNumber { field, value } => number_fault_message(
                field,
                value.as_str(),
            ),
        }
    }
}

/// A position: its signed quantity, and when the exchange last changed it.
#[derive(Clone, Copy, Debug, PartialEq, Eq, Structural)]
pub struct PositionState {
    pub qty: Binary64,
    pub exch_ts: i64,
}

impl DeepView for PositionState {
    type V = PositionState;

    open spec fn deep_view(&self) -> PositionState {
        *self
    }
}

/// One position of a message.
#[derive(Debug)]
pub struct AccountPosition {
    pub symbol: String,
    pub amount: NumericText,
    pub side: String,
    pub timestamp_ms: i64,
}

/// What an [`AccountPosition`] says.
pub struct AccountPositionView {
    pub symbol: Seq<char>,
    pub amount: NumericView,
    pub side: Seq<char>,
    pub timestamp_ms: i64,
}

impl DeepView for AccountPosition {
    type V = AccountPositionView;

    open spec fn deep_view(&self) -> AccountPositionView {
        AccountPositionView {
            symbol: self.symbol@,
            amount: self.amount@,
            side: self.side@,
            timestamp_ms: self.timestamp_ms,
        }
    }
}

/// A message that lists the open positions of the account.
#[derive(Debug)]
pub struct AccountPositionsFrame {
    pub data: Vec<AccountPosition>,
    pub last_increment_id: Option<i64>,
}

/// What the state of an account holds.
#[verifier::ext_equal]
pub struct AccountView {
    pub positions: Map<Seq<char>, PositionState>,
    pub initialized: Set<Seq<char>>,
    pub last_private_li: Option<i64>,
}

/// The quantity of a position, below zero for a short one.
pub open spec fn signed_amount(position: AccountPositionView) -> Result<Binary64, AccountErrorView> {
    match position.amount.value {
        Some(amount) => Ok(
            if position.side == "ask"@ {
                amount.negative()
            } else {
                amount
            },
        ),
        None => Err(
            AccountErrorView::InvalidNumber {
                field: "position_amount"@,
                value: position.amount.text,
            },
        ),
    }
}

/// A symbol occurs among the positions of a message.
pub open spec fn reports(data: Seq<AccountPositionView>, symbol: Seq<char>) -> bool {
    exists|i: int| 0 <= i < data.len() && #[trigger] data[i].symbol == symbol
}

impl AccountView {
    /// Nothing known of the account.
    pub open spec fn empty() -> AccountView {
        AccountView {
            positions: Map::empty(),
            initialized: Set::empty(),
            last_private_li: None,
        }
    }

    /// A message with that increment is not older than the last one.
    pub open spec fn accepts(self, li: Option<i64>) -> bool {
        match (li, self.last_private_li) {
            (Some(li), Some(last)) => last <= li,
            _ => true,
        }
    }

    /// The state after a message with that increment. One that bears none does not count.
    pub open spec fn advanced(self, li: Option<i64>) -> AccountView {
        if li is Some && self.accepts(li) {
            AccountView { last_private_li: li, ..self }
        } else {
            self
        }
    }

    /// The state with a position.
    pub open spec fn with_position(
        self,
        symbol: Seq<char>,
        qty: Binary64,
        exch_ts: i64,
    ) -> AccountView {
        AccountView {
            positions: self.positions.insert(symbol, PositionState { qty, exch_ts }),
            initialized: self.initialized.insert(symbol),
            ..self
        }
    }

    /// The state, the events and the error after the first `n` positions of a message. Symbols
    /// that are not followed are passed over, and nothing is done after an error.
    pub open spec fn reported(
        self,
        data: Seq<AccountPositionView>,
        followed: Seq<Seq<char>>,
        n: int,
    ) -> (AccountView, Seq<LiveEventView>, Option<AccountErrorView>)
        decreases n,
    {
        if n <= 0 {
            (self, Seq::empty(), None)
        } else {
            let (state, events, error) = self.reported(data, followed, n - 1);
            let position = data[n - 1];
            if error is Some || !followed.contains(position.symbol) {
                (state, events, error)
            } else {
                match signed_amount(position) {
                    Err(error) => (state, events, Some(error)),
                    Ok(qty) => {
                        let exch_ts = nanos(position.timestamp_ms);
                        (
                            state.with_position(position.symbol, qty, exch_ts),
                            events.push(
                                LiveEventView::Position { symbol: position.symbol, qty, exch_ts },
                            ),
                            None,
                        )
                    },
                }
            }
        }
    }

    /// A symbol without an open position is news: it was not known to have none.
    pub open spec fn flat_is_news(self, symbol: Seq<char>) -> bool {
        ||| !self.initialized.contains(symbol)
        ||| !self.positions.contains_key(symbol)
        ||| !self.positions[symbol].qty.zero_valued()
    }

    /// When the exchange last changed a position, or zero.
    pub open spec fn last_change(self, symbol: Seq<char>) -> i64 {
        if self.positions.contains_key(symbol) {
            self.positions[symbol].exch_ts
        } else {
            0
        }
    }

    /// When a position that is gone was closed: just after its last change, or at the increment
    /// of the message where none is known.
    pub open spec fn flat_time(self, symbol: Seq<char>, li: Option<i64>) -> i64 {
        if self.last_change(symbol) > 0 {
            if self.last_change(symbol) == i64::MAX {
                i64::MAX
            } else {
                (self.last_change(symbol) + 1) as i64
            }
        } else {
            nanos(
                match li {
                    Some(li) => li,
                    None => 0,
                },
            )
        }
    }

    /// The state and the events after the first `n` followed symbols were looked at: those that
    /// the message does not report have no open position.
    pub open spec fn flattened(
        self,
        data: Seq<AccountPositionView>,
        followed: Seq<Seq<char>>,
        li: Option<i64>,
        n: int,
    ) -> (AccountView, Seq<LiveEventView>)
        decreases n,
    {
        if n <= 0 {
            (self, Seq::empty())
        } else {
            let (state, events) = self.flattened(data, followed, li, n - 1);
            let symbol = followed[n - 1];
            if reports(data, symbol) || !state.flat_is_news(symbol) {
                (state, events)
            } else {
                let qty = Binary64 { bits: 0 };
                let exch_ts = state.flat_time(symbol, li);
                (
                    state.with_position(symbol, qty, exch_ts),
                    events.push(LiveEventView::Position { symbol, qty, exch_ts }),
                )
            }
        }
    }

    /// The state after a message that lists the open positions, and the events or the error.
    pub open spec fn with_positions(
        self,
        data: Seq<AccountPositionView>,
        li: Option<i64>,
        followed: Seq<Seq<char>>,
    ) -> (AccountView, Result<Seq<LiveEventView>, AccountErrorView>) {
        if !self.accepts(li) {
            (self, Ok(Seq::empty()))
        } else {
            let (state, events, error) = self.advanced(li).reported(
                data,
                followed,
                data.len() as int,
            );
            match error {
                Some(error) => (state, Err(error)),
                None => {
                    let (flat, closed) = state.flattened(data, followed, li, followed.len() as int);
                    (flat, Ok(events + closed))
                },
            }
        }
    }

    /// The times that taking in the message computes can be written in nanoseconds.
    pub open spec fn times_fit(
        self,
        data: Seq<AccountPositionView>,
        li: Option<i64>,
        followed: Seq<Seq<char>>,
    ) -> bool {
        self.accepts(li) ==> {
            let start = self.advanced(li);
            let (state, _, error) = start.reported(data, followed, data.len() as int);
            &&& forall|i: int|
                0 <= i < data.len() && followed.contains(#[trigger] data[i].symbol) && signed_amount(
                    data[i],
                ) is Ok && start.reported(data, followed, i).2 is None ==> fits_in_nanos(
                    data[i].timestamp_ms,
                )
            &&& error is None ==> forall|k: int|
                0 <= k < followed.len() && !reports(data, #[trigger] followed[k])
                    && state.flat_is_news(followed[k]) && state.last_change(followed[k]) <= 0
                    ==> fits_in_nanos(
                    match li {
                        Some(li) => li,
                        None => 0,
                    },
                )
        }
    }
}

proof fn lemma_error_stays(
    state: AccountView,
    data: Seq<AccountPositionView>,
    followed: Seq<Seq<char>>,
    n: int,
    m: int,
)
    requires
        0 <= n <= m,
        state.reported(data, followed, n).2 is Some,
    ensures
        state.reported(data, followed, m) == state.reported(data, followed, n),
    decreases m,
{
    if n < m {
        lemma_error_stays(state, data, followed, n, m - 1);
    }
}

/// What is known of the account.
#[derive(Debug)]
pub struct AccountState {
    positions: KeyedMap<String, PositionState>,
    initialized_symbols: SymbolSet,
    last_private_li: Option<i64>,
}

impl View for AccountState {
    type V = AccountView;

    closed spec fn view(&self) -> AccountView {
        AccountView {
            positions: self.positions@,
            initialized: self.initialized_symbols@.to_set(),
            last_private_li: self.last_private_li,
        }
    }
}

impl AccountState {
    /// Nothing known of the account.
    pub fn new() -> (r: Self)
        ensures
            r@ == AccountView::empty(),
    {
        let r = AccountState {
            positions: KeyedMap::new(),
            initialized_symbols: SymbolSet::new(),
            last_private_li: None,
        };
        assert(r@.initialized =~= Set::<Seq<char>>::empty());
        r
    }

    /// Whether a message with that increment is not older than the last one.
    pub fn accepts(&self, li: Option<i64>) -> (r: bool)
        ensures
            r == self@.accepts(li),
    {
        match (li, self.last_private_li) {
            (Some(li), Some(last_li)) => last_li <= li,
            _ => true,
        }
    }

    /// Whether a message with that increment is not older than the last one; then it is the last.
    pub fn accept_frame_li(&mut self, li: Option<i64>) -> (r: bool)
        ensures
            r == old(self)@.accepts(li),
            final(self)@ == old(self)@.advanced(li),
    {
        if !self.accepts(li) {
            return false;
        }
        if li.is_some() {
            self.last_private_li = li;
        }
        true
    }

    /// Gives a symbol a position.
    fn set_position(&mut self, symbol: &String, qty: Binary64, exch_ts: i64)
        ensures
            final(self)@ == old(self)@.with_position(symbol@, qty, exch_ts),
    {
        self.positions.insert(symbol.clone(), PositionState { qty, exch_ts });
        let _ = self.initialized_symbols.insert(symbol.clone());
        assert(self@.initialized =~= old(self)@.initialized.insert(symbol@));
    }

    /// Whether the times that taking in a message computes can be written in nanoseconds.
    pub fn positions_fit(&self, message: &AccountPositionsFrame, tracked_symbols: &SymbolSet) -> (r:
        bool)
        ensures
            r == self@.times_fit(
                message.data.deep_view(),
                message.last_increment_id,
                tracked_symbols@,
            ),
    {
        let ghost data = message.data.deep_view();
        let ghost followed = tracked_symbols@;
        let ghost li = message.last_increment_id;
        if !self.accepts(message.last_increment_id) {
            return true;
        }
        let ghost start = self@.advanced(li);
        let mut i: usize = 0;
        while i < message.data.len()
            invariant
                data == message.data.deep_view(),
                followed == tracked_symbols@,
                i <= message.data.len(),
                self@.accepts(li),
                li == message.last_increment_id,
                start == self@.advanced(li),
                start.reported(data, followed, i as int).2 is None,
                forall|j: int|
                    0 <= j < i && followed.contains(#[trigger] data[j].symbol) && signed_amount(
                        data[j],
                    ) is Ok && start.reported(data, followed, j).2 is None ==> fits_in_nanos(
                        data[j].timestamp_ms,
                    ),
            decreases message.data.len() - i,
        {
            let position = &message.data[i];
            assert(data[i as int] == position.deep_view());
            if tracked_symbols.contains(position.symbol.as_str()) {
                if position.amount.value.is_none() {
                    proof {
                        assert forall|j: int| i < j <= data.len() implies (#[trigger] start.reported(
                            data,
                            followed,
                            j,
                        )).2 is Some by {
                            lemma_error_stays(start, data, followed, i as int + 1, j);
                        }
                    }
                    return true;
                }
                assert(followed.contains(data[i as int].symbol));
                if !fits(position.timestamp_ms) {
                    return false;
                }
            }
            i = i + 1;
        }
        let ghost state = start.reported(data, followed, data.len() as int).0;
        let li_fits = fits(
            match message.last_increment_id {
                Some(li) => li,
                None => 0,
            },
        );
        let n: usize = tracked_symbols.len();
        let mut k: usize = 0;
        while k < n
            invariant
                data == message.data.deep_view(),
                followed == tracked_symbols@,
                k <= n,
                n == followed.len(),
                start == self@.advanced(li),
                self@.accepts(li),
                li == message.last_increment_id,
                state == start.reported(data, followed, data.len() as int).0,
                start.reported(data, followed, data.len() as int).2 is None,
                li_fits == fits_in_nanos(
                    match li {
                        Some(li) => li,
                        None => 0,
                    },
                ),
                forall|j: int|
                    0 <= j < k && !reports(data, #[trigger] followed[j]) && state.flat_is_news(
                        followed[j],
                    ) && state.last_change(followed[j]) <= 0 ==> li_fits,
            decreases n - k,
        {
            let symbol = tracked_symbols.symbol(k);
            if !reported_symbol(&message.data, symbol.as_str()) {
                proof {
                    reports_on_others_change_nothing(start, data, followed, data.len() as int, symbol@);
                }
                if self.should_emit_flat(symbol) && self.last_change(symbol) <= 0 && !li_fits {
                    assert(!reports(data, followed[k as int]));
                    return false;
                }
            }
            k = k + 1;
        }
        true
    }

    /// Takes in a message that lists the open positions, and gives the events for the followed
    /// symbols: those that are listed, then those whose position is gone, in the order of their
    /// names. A message that is out of date changes nothing.
    pub fn apply_positions_text(
        &mut self,
        frame: &Result<AccountPositionsFrame, String>,
        tracked_symbols: &SymbolSet,
    ) -> (r: Result<Vec<LiveEvent>, AccountStateError>)
        requires
            frame matches Ok(frame) ==> old(self)@.times_fit(
                frame.data.deep_view(),
                frame.last_increment_id,
                tracked_symbols@,
            ),
        ensures
            match *frame {
                Err(error) => outcome(r) == Err::<Seq<LiveEventView>, AccountErrorView>(
                    AccountErrorView::Json(error@),
                ) && final(self)@ == old(self)@,
                Ok(frame) => (final(self)@, outcome(r)) == old(self)@.with_positions(
                    frame.data.deep_view(),
                    frame.last_increment_id,
                    tracked_symbols@,
                ),
            },
    {
        let message = match frame {
            Ok(message) => message,
            Err(error) => {
                return Err(AccountStateError::Json(error.clone()));
            },
        };
        let ghost data = message.data.deep_view();
        let ghost followed = tracked_symbols@;
        let ghost li = message.last_increment_id;
        if !self.accept_frame_li(message.last_increment_id) {
            let events: Vec<LiveEvent> = Vec::new();
            assert(events.deep_view() =~= Seq::<LiveEventView>::empty());
            return Ok(events);
        }
        let ghost start = self@;
        let mut events: Vec<LiveEvent> = Vec::new();
        assert(events.deep_view() =~= Seq::<LiveEventView>::empty());
        let mut i: usize = 0;
        while i < message.data.len()
            invariant
                data == message.data.deep_view(),
                followed == tracked_symbols@,
                li == message.last_increment_id,
                *frame == Ok::<AccountPositionsFrame, String>(*message),
                i <= message.data.len(),
                old(self)@.accepts(li),
                start == old(self)@.advanced(li),
                old(self)@.times_fit(data, li, followed),
                (self@, events.deep_view(), None::<AccountErrorView>) == start.reported(
                    data,
                    followed,
                    i as int,
                ),
            decreases message.data.len() - i,
        {
            let position = &message.data[i];
            assert(data[i as int] == position.deep_view());
            if tracked_symbols.contains(position.symbol.as_str()) {
                let qty = match signed_qty(position) {
                    Ok(qty) => qty,
                    Err(error) => {
                        proof {
                            lemma_error_stays(
                                start,
                                data,
                                followed,
                                i as int + 1,
                                data.len() as int,
                            );
                        }
                        return Err(error);
                    },
                };
                assert(followed.contains(data[i as int].symbol));
                let exch_ts = ms_to_ns(position.timestamp_ms);
                self.set_position(&position.symbol, qty, exch_ts);
                let ghost before = events.deep_view();
                events.push(
                    LiveEvent::Position { symbol: position.symbol.clone(), qty, exch_ts },
                );
                assert(events.deep_view() =~= before.push(
                    LiveEventView::Position { symbol: position.symbol@, qty, exch_ts },
                ));
            }
            i = i + 1;
        }
        let ghost state = self@;
        let ghost listed = events.deep_view();
        let n: usize = tracked_symbols.len();
        let mut k: usize = 0;
        assert(listed + Seq::<LiveEventView>::empty() =~= listed);
        while k < n
            invariant
                data == message.data.deep_view(),
                followed == tracked_symbols@,
                li == message.last_increment_id,
                *frame == Ok::<AccountPositionsFrame, String>(*message),
                k <= n,
                n == followed.len(),
                in_order(followed),
                self@ == state.flattened(data, followed, li, k as int).0,
                events.deep_view() == listed + state.flattened(data, followed, li, k as int).1,
                forall|j: int|
                    0 <= j < followed.len() && !reports(data, #[trigger] followed[j])
                        && state.flat_is_news(followed[j]) && state.last_change(followed[j]) <= 0
                        ==> fits_in_nanos(
                        match li {
                            Some(li) => li,
                            None => 0,
                        },
                    ),
            decreases n - k,
        {
            let symbol = tracked_symbols.symbol(k);
            proof {
                lemma_flat_of_others(state, data, followed, li, k as int, k as int);
            }
            let ghost before = events.deep_view();
            let ghost closed = state.flattened(data, followed, li, k as int).1;
            if !reported_symbol(&message.data, symbol.as_str()) && self.should_emit_flat(symbol) {
                let exch_ts = self.flat_exch_ts(symbol, message.last_increment_id);
                self.set_position(symbol, Binary64::zero(), exch_ts);
                events.push(
                    LiveEvent::Position { symbol: symbol.clone(), qty: Binary64::zero(), exch_ts },
                );
                let ghost gone = LiveEventView::Position {
                    symbol: symbol@,
                    qty: Binary64 { bits: 0 },
                    exch_ts,
                };
                assert(events.deep_view() =~= before.push(gone));
                assert(before.push(gone) =~= listed + closed.push(gone));
            }
            k = k + 1;
        }
        Ok(events)
    }

    /// The quantity of a position.
    pub fn position_qty(&self, symbol: &str) -> (r: Option<Binary64>)
        ensures
            r == (if self@.positions.contains_key(symbol@) {
                Some(self@.positions[symbol@].qty)
            } else {
                None
            }),
    {
        match self.positions.get(&symbol.to_string()) {
            Some(position) => Some(position.qty),
            None => None,
        }
    }

    /// Whether the position of a symbol is known.
    pub fn position_initialized(&self, symbol: &str) -> (r: bool)
        ensures
            r == self@.initialized.contains(symbol@),
    {
        self.initialized_symbols.contains(symbol)
    }

    /// Whether it is news that a symbol has no open position.
    fn should_emit_flat(&self, symbol: &String) -> (r: bool)
        ensures
            r == self@.flat_is_news(symbol@),
    {
        if !self.position_initialized(symbol.as_str()) {
            return true;
        }
        match self.positions.get(symbol) {
            Some(position) => !position.qty.is_zero(),
            None => true,
        }
    }

    /// When the exchange last changed a position, or zero.
    fn last_change(&self, symbol: &String) -> (r: i64)
        ensures
            r == self@.last_change(symbol@),
    {
        match self.positions.get(symbol) {
            Some(position) => position.exch_ts,
            None => 0,
        }
    }

    /// When a position that is gone was closed.
    fn flat_exch_ts(&self, symbol: &String, frame_li: Option<i64>) -> (r: i64)
        requires
            self@.last_change(symbol@) <= 0 ==> fits_in_nanos(
                match frame_li {
                    Some(li) => li,
                    None => 0,
                },
            ),
        ensures
            r == self@.flat_time(symbol@, frame_li),
    {
        let previous: i64 = self.last_change(symbol);
        if previous > 0 {
            if previous == i64::MAX {
                previous
            } else {
                previous + 1
            }
        } else {
            let li: i64 = match frame_li {
                Some(li) => li,
                None => 0,
            };
            ms_to_ns(li)
        }
    }
}

/// Reports on other symbols change nothing for a symbol.
pub proof fn reports_on_others_change_nothing(
    state: AccountView,
    data: Seq<AccountPositionView>,
    followed: Seq<Seq<char>>,
    n: int,
    symbol: Seq<char>,
)
    requires
        0 <= n <= data.len(),
        !reports(data, symbol),
    ensures
        ({
            let after = state.reported(data, followed, n).0;
            &&& after.initialized.contains(symbol) == state.initialized.contains(symbol)
            &&& after.positions.contains_key(symbol) == state.positions.contains_key(symbol)
            &&& after.positions[symbol] == state.positions[symbol]
        }),
    decreases n,
{
    if n > 0 {
        reports_on_others_change_nothing(state, data, followed, n - 1, symbol);
        assert(data[n - 1].symbol != symbol);
    }
}

/// Looking at other symbols changes nothing for a symbol.
proof fn lemma_flat_of_others(
    state: AccountView,
    data: Seq<AccountPositionView>,
    followed: Seq<Seq<char>>,
    li: Option<i64>,
    n: int,
    k: int,
)
    requires
        in_order(followed),
        0 <= n <= k < followed.len(),
    ensures
        ({
            let after = state.flattened(data, followed, li, n).0;
            &&& after.initialized.contains(followed[k]) == state.initialized.contains(followed[k])
            &&& after.positions.contains_key(followed[k]) == state.positions.contains_key(followed[k])
            &&& after.positions[followed[k]] == state.positions[followed[k]]
        }),
    decreases n,
{
    if n > 0 {
        lemma_flat_of_others(state, data, followed, li, n - 1, k);
        crate::text::lex_less_is_total(followed[n - 1], followed[k]);
        assert(crate::text::lex_less(followed[n - 1], followed[k]));
    }
}

/// Whether a symbol occurs among the positions of a message.
fn reported_symbol(positions: &Vec<AccountPosition>, symbol: &str) -> (r: bool)
    ensures
        r == reports(positions.deep_view(), symbol@),
{
    let mut i: usize = 0;
    while i < positions.len()
        invariant
            i <= positions.len(),
            forall|j: int| 0 <= j < i ==> #[trigger] positions.deep_view()[j].symbol != symbol@,
        decreases positions.len() - i,
    {
        assert(positions.deep_view()[i as int].symbol == positions@[i as int].symbol@);
        if text_eq(positions[i].symbol.as_str(), symbol) {
            return true;
        }
        i = i + 1;
    }
    false
}

/// The largest increment of a message: that of the message itself and those of the first `n`
/// items of its data.
pub open spec fn largest_li(value: JsonView, items: Seq<JsonView>, n: int) -> Option<i64>
    decreases n,
{
    if n <= 0 {
        json_i64_member(value, "li"@)
    } else {
        match (largest_li(value, items, n - 1), json_i64_member(items[n - 1], "li"@)) {
            (Some(a), Some(b)) => Some(
                if b > a {
                    b
                } else {
                    a
                },
            ),
            (Some(a), None) => Some(a),
            (None, b) => b,
        }
    }
}

/// The items of a message.
pub open spec fn data_items(value: JsonView) -> Seq<JsonView> {
    match json_get(value, "data"@) {
        Some(data) => match json_items(data) {
            Some(items) => items,
            None => Seq::empty(),
        },
        None => Seq::empty(),
    }
}

/// The largest increment of a message.
pub open spec fn max_li(value: JsonView) -> Option<i64> {
    largest_li(value, data_items(value), data_items(value).len() as int)
}

/// The largest increment of a message.
pub fn max_li_from_text(text: &str) -> (r: Result<Option<i64>, AccountStateError>)
    ensures
        outcome(r) == (match json_of_text(text@) {
            Ok(value) => Ok::<Option<i64>, AccountErrorView>(max_li(value)),
            Err(error) => Err(AccountErrorView::Json(error)),
        }),
{
    let value = match parse_json(text) {
        Ok(value) => value,
        Err(error) => {
            return Err(AccountStateError::Json(error));
        },
    };
    let mut max_li: Option<i64> = value.i64_member("li");
    match value.get("data") {
        Some(data) => {
            match data.as_array() {
                Some(items) => {
                    let ghost said = items.deep_view();
                    let mut i: usize = 0;
                    while i < items.len()
                        invariant
                            said == items.deep_view(),
                            i <= items.len(),
                            max_li == largest_li(value@, said, i as int),
                        decreases items.len() - i,
                    {
                        assert(said[i as int] == items@[i as int]@);
                        match items[i].i64_member("li") {
                            Some(li) => {
                                max_li = match max_li {
                                    Some(current) => if li > current {
                                        Some(li)
                                    } else {
                                        Some(current)
                                    },
                                    None => Some(li),
                                };
                            },
                            None => {},
                        }
                        i = i + 1;
                    }
                },
                None => {},
            }
        },
        None => {},
    }
    Ok(max_li)
}

/// The symbols that a message reports on.
pub fn tracked_symbols_from_positions_text(frame: &Result<AccountPositionsFrame, String>) -> (r:
    Result<SymbolSet, AccountStateError>)
    ensures
        match (*frame, r) {
            (Err(error), Err(said)) => said@ == AccountErrorView::Json(error@),
            (Ok(frame), Ok(symbols)) => {
                &&& in_order(symbols@)
                &&& forall|symbol: Seq<char>| #[trigger]
                    symbols@.contains(symbol) <==> reports(frame.data.deep_view(), symbol)
            },
            _ => false,
        },
{
    let frame = match frame {
        Ok(frame) => frame,
        Err(error) => {
            return Err(AccountStateError::Json(error.clone()));
        },
    };
    let ghost data = frame.data.deep_view();
    let mut symbols = SymbolSet::new();
    let mut i: usize = 0;
    while i < frame.data.len()
        invariant
            data == frame.data.deep_view(),
            i <= frame.data.len(),
            in_order(symbols@),
            forall|symbol: Seq<char>| #[trigger]
                symbols@.contains(symbol) <==> exists|j: int|
                    0 <= j < i && #[trigger] data[j].symbol == symbol,
        decreases frame.data.len() - i,
    {
        let ghost before = symbols@;
        assert(data[i as int].symbol == frame.data@[i as int].symbol@);
        let added = symbols.insert(frame.data[i].symbol.clone());
        proof {
            assert forall|symbol: Seq<char>| #[trigger]
                symbols@.contains(symbol) <==> exists|j: int|
                    0 <= j < i + 1 && #[trigger] data[j].symbol == symbol by {
                assert(symbols@.to_set().contains(symbol) == symbols@.contains(symbol));
                assert(before.to_set().contains(symbol) == before.contains(symbol));
                if before.contains(symbol) {
                    let j = choose|j: int| 0 <= j < i && #[trigger] data[j].symbol == symbol;
                    assert(data[j].symbol == symbol);
                }
            }
        }
        i = i + 1;
    }
    Ok(symbols)
}

/// The quantity of a position, below zero for a short one.
fn signed_qty(position: &AccountPosition) -> (r: Result<Binary64, AccountStateError>)
    ensures
        outcome(r) == signed_amount(position.deep_view()),
{
    match position.amount.value {
        Some(qty) => if text_eq(position.side.as_str(), "ask") {
            Ok(qty.negated())
        } else {
            Ok(qty)
        },
        None => Err(
            AccountStateError::InvalidNumber {
                field: "position_amount",
                value: position.amount.text.clone(),
            },
        ),
    }
}

} // verus!
