//! The course of the check, step by step.

use crate::binary64::Binary64;
use crate::config::{file_read, Config, ConfigView};
use crate::json::{Json, JsonView};
use crate::order_payload::{
    CancelOrderPayload, CancelOrderView, CreateOrderPayload, CreateOrderView, EditOrderPayload,
    EditOrderView,
};
use crate::ordermanager::{ManagerView, OrderManager, QuoteText};
use crate::rest::{BookSnapshot, MarketInfo, RestPayload};
use crate::sanity::{
    book_in, endpoint, is_testnet, long_client_id, mark_order_open, market_in, marked_open, open_id,
    open_order_exchange_id, open_report, orders_in, parse_book, parse_market_info_for_symbol,
    plan_from_book, plan_with, planned_order, planned_replacement, quote_request,
    residual_client_order_ids, residual_ids, residual_ids_are_the_open_ones, sanity_order, sanity_replacement_order,
    validate_testnet_guard, QuoteNumbers, QuoteRequest, SanityArgs, SanityArgsView, SanityError,
    SanityErrorView, SanityPlan, SanityPlanView, SanitySummary, SanitySummaryView,
};
use crate::startup::{MarketSpec, MarketSpecView};
use crate::text::{outcome, without_end_slashes};
use crate::trade_stream::{TradeError, TradeErrorView};
use crate::types::Side;
use crate::uuid::is_uuid_v4;
use vstd::prelude::*;

verus! {

/// Where the check is.
#[derive(Clone, Copy, Debug, PartialEq, Eq, Structural)]
pub enum SanityStage {
    Loading,
    AskingMarket,
    AskingBook,
    Quoting,
    Submitting,
    SettlingCreate,
    CheckingCreate,
    Editing,
    SettlingEdit,
    CheckingEdit,
    Cancelling,
    SettlingCancel,
    CheckingCancel,
    Finished,
}

/// The orders of a plan in ticks, and the texts of their prices and amounts.
#[derive(Debug)]
pub struct PlanTicks {
    pub first_tick: i64,
    pub second_tick: i64,
    pub first_price: String,
    pub first: QuoteText,
    pub second: QuoteText,
}

/// What [`PlanTicks`] say.
pub struct PlanTicksView {
    pub first_tick: i64,
    pub second_tick: i64,
    pub first_price: Seq<char>,
    pub first: (Seq<char>, Seq<char>),
    pub second: (Seq<char>, Seq<char>),
}

impl View for PlanTicks {
    type V = PlanTicksView;

    open spec fn view(&self) -> PlanTicksView {
        PlanTicksView {
            first_tick: self.first_tick,
            second_tick: self.second_tick,
            first_price: self.first_price@,
            first: (self.first.price@, self.first.amount@),
            second: (self.second.price@, self.second.amount@),
        }
    }
}

/// What happens to the check.
#[derive(Debug)]
pub enum SanityInput {
    /// The settings were read: what was in the file, or why it could not be read; and what
    /// resolving them needs.
    Config {
        file: Result<Result<Config, String>, String>,
        home: Option<String>,
        api_key_file: Result<String, String>,
        private_key_file: Result<String, String>,
    },
    /// The rules of the markets came, or why they did not.
    Market(Result<Result<RestPayload<Vec<MarketInfo>>, String>, SanityError>),
    /// The book came, or why it did not.
    Book(Result<Result<RestPayload<BookSnapshot>, String>, SanityError>),
    /// The plan was written in ticks and texts.
    Ticks(PlanTicks),
    /// A command was answered.
    Traded(Result<(), TradeError>),
    /// The time to settle is over.
    Slept,
    /// The open orders came, or why they did not.
    Orders(Result<Result<RestPayload<Vec<Json>>, String>, SanityError>),
}

/// What the check does next.
#[derive(Debug)]
pub enum SanityAction {
    /// Read the settings.
    LoadConfig(String),
    /// Ask the REST interface for a resource.
    Get { url: String, path: &'static str, query: Option<(&'static str, String)> },
    /// Write the plan in ticks and texts.
    Quote(SanityPlan),
    /// Place an order.
    Submit(CreateOrderPayload),
    /// Change an order.
    Edit(EditOrderPayload),
    /// Cancel an order.
    Cancel(CancelOrderPayload),
    /// Wait so many milliseconds.
    Sleep(u64),
    /// Nothing was expected of this input.
    Wait,
    /// The check is over.
    Finish(Result<SanitySummary, SanityError>),
}

/// What a [`SanityAction`] says.
pub enum SanityActionView {
    LoadConfig(Seq<char>),
    Get { url: Seq<char>, path: Seq<char>, query: Option<(Seq<char>, Seq<char>)> },
    Quote(SanityPlanView),
    Submit(CreateOrderView),
    Edit(EditOrderView),
    Cancel(CancelOrderView),
    Sleep(u64),
    Wait,
    Finish(Result<SanitySummaryView, SanityErrorView>),
}

impl View for SanityAction {
    type V = SanityActionView;

    open spec fn view(&self) -> SanityActionView {
        match *self {
            SanityAction::LoadConfig(path) => SanityActionView::LoadConfig(path@),
            SanityAction::Get { url, path, query } => SanityActionView::Get {
                url: url@,
                path: path@,
                query: match query {
                    Some((name, value)) => Some((name@, value@)),
                    None => None,
                },
            },
            SanityAction::Quote(plan) => SanityActionView::Quote(plan@),
            SanityAction::Submit(payload) => SanityActionView::Submit(payload@),
            SanityAction::Edit(payload) => SanityActionView::Edit(payload@),
            SanityAction::Cancel(payload) => SanityActionView::Cancel(payload@),
            SanityAction::Sleep(millis) => SanityActionView::Sleep(millis),
            SanityAction::Wait => SanityActionView::Wait,
            SanityAction::Finish(result) => SanityActionView::Finish(outcome(result)),
        }
    }
}

/// What is known in the course of the check.
#[verifier::ext_equal]
pub struct SanityView {
    pub args: SanityArgsView,
    pub stage: SanityStage,
    pub config: ConfigView,
    pub market: Option<MarketSpecView>,
    pub plan: Option<SanityPlanView>,
    pub ticks: Option<PlanTicksView>,
    pub manager: ManagerView,
    pub client_order_id: Seq<char>,
    pub edited_id: Seq<char>,
    pub edited_exchange_order_id: Option<i64>,
}

/// The number of the order that the check places.
pub const SANITY_ORDER_ID: u64 = 1;

impl SanityView {
    /// The check was asked to trade, and may trade with its settings.
    pub open spec fn allowed(self) -> bool {
        self.args.execute && (self.args.allow_non_testnet || is_testnet(self.config))
    }

    /// There is a plan, and it buys or sells.
    pub open spec fn planned(self) -> bool {
        self.plan matches Some(plan) && (plan.side == Side::Buy || plan.side == Side::Sell)
    }

    /// The order of the check is in the book, and its number leads to it.
    pub open spec fn holds_order(self) -> bool {
        let key = (self.plan->0.symbol, SANITY_ORDER_ID);
        &&& self.manager.orders.contains_key(self.client_order_id)
        &&& self.manager.order_ids.contains_key(key)
        &&& self.manager.order_ids[key] == self.client_order_id
    }

    /// What is needed at a stage is known there.
    pub open spec fn wf(self) -> bool {
        match self.stage {
            SanityStage::Loading => self.args.execute && self.manager == ManagerView::empty(),
            SanityStage::AskingMarket => self.allowed() && self.manager == ManagerView::empty(),
            SanityStage::AskingBook => {
                &&& self.allowed()
                &&& self.market is Some
                &&& self.manager == ManagerView::empty()
            },
            SanityStage::Quoting => {
                &&& self.allowed()
                &&& self.planned()
                &&& self.manager == ManagerView::empty()
            },
            SanityStage::Finished => true,
            _ => {
                &&& self.allowed()
                &&& self.planned()
                &&& self.ticks is Some
                &&& self.holds_order()
                &&& self.stage == SanityStage::Editing ==> self.edited_id == self.client_order_id
            },
        }
    }

    /// How far the check is.
    pub open spec fn rank(self) -> int {
        match self.stage {
            SanityStage::Loading => 0,
            SanityStage::AskingMarket => 1,
            SanityStage::AskingBook => 2,
            SanityStage::Quoting => 3,
            SanityStage::Submitting => 4,
            SanityStage::SettlingCreate => 5,
            SanityStage::CheckingCreate => 6,
            SanityStage::Editing => 7,
            SanityStage::SettlingEdit => 8,
            SanityStage::CheckingEdit => 9,
            SanityStage::Cancelling => 10,
            SanityStage::SettlingCancel => 11,
            SanityStage::CheckingCancel => 12,
            SanityStage::Finished => 13,
        }
    }

    /// The check is over.
    pub open spec fn finished(self, result: Result<SanitySummaryView, SanityErrorView>) -> (
        SanityView,
        SanityActionView,
    ) {
        (
            SanityView { stage: SanityStage::Finished, ..self },
            SanityActionView::Finish(result),
        )
    }

    /// The check failed.
    pub open spec fn failed(self, error: SanityErrorView) -> (SanityView, SanityActionView) {
        self.finished(Err(error))
    }

    /// The check asks for a resource.
    pub open spec fn asks(
        self,
        stage: SanityStage,
        path: Seq<char>,
        query: Option<(Seq<char>, Seq<char>)>,
    ) -> (SanityView, SanityActionView) {
        (
            SanityView { stage, ..self },
            SanityActionView::Get {
                url: without_end_slashes(self.config.rest_url) + path,
                path,
                query,
            },
        )
    }

    /// The check asks for the open orders.
    pub open spec fn asks_orders(self, stage: SanityStage) -> (SanityView, SanityActionView) {
        self.asks(stage, "/api/v1/orders"@, Some(("account"@, self.config.account)))
    }

    /// The check waits for things to settle.
    pub open spec fn settles(self, stage: SanityStage) -> (SanityView, SanityActionView) {
        (SanityView { stage, ..self }, SanityActionView::Sleep(self.args.settle_millis))
    }

    /// The settings came.
    pub open spec fn on_config(
        self,
        file: Result<Result<Config, String>, String>,
        home: Option<Seq<char>>,
        api_key_file: Result<Seq<char>, Seq<char>>,
        private_key_file: Result<Seq<char>, Seq<char>>,
    ) -> (SanityView, SanityActionView) {
        match file {
            Err(error) => self.failed(SanityErrorView::ReadConfig(error@)),
            Ok(Err(error)) => self.failed(SanityErrorView::Config(error@)),
            Ok(Ok(config)) => match config@.resolved(home, api_key_file, private_key_file) {
                Err(error) => self.failed(SanityErrorView::InvalidConfig(error)),
                Ok(config) => match config.fault() {
                    Some(error) => self.failed(SanityErrorView::InvalidConfig(error)),
                    None => if self.args.allow_non_testnet || is_testnet(config) {
                        SanityView { config, ..self }.asks(
                            SanityStage::AskingMarket,
                            "/api/v1/info"@,
                            None,
                        )
                    } else {
                        self.failed(SanityErrorView::NonTestnet)
                    },
                },
            },
        }
    }

    /// The rules of the markets came.
    pub open spec fn on_market(
        self,
        answer: Result<Result<RestPayload<Vec<MarketInfo>>, String>, SanityError>,
    ) -> (SanityView, SanityActionView) {
        match answer {
            Err(error) => self.failed(error@),
            Ok(payload) => match market_in(payload, self.args.symbol) {
                Err(error) => self.failed(error),
                Ok(market) => SanityView { market: Some(market), ..self }.asks(
                    SanityStage::AskingBook,
                    "/api/v1/book"@,
                    Some(("symbol"@, self.args.symbol)),
                ),
            },
        }
    }

    /// What the book gives to compute with, or why there is no plan.
    pub open spec fn request_in(
        self,
        answer: Result<Result<RestPayload<BookSnapshot>, String>, SanityError>,
    ) -> Result<QuoteRequest, SanityErrorView> {
        match answer {
            Err(error) => Err(error@),
            Ok(payload) => match book_in(payload) {
                Err(error) => Err(error),
                Ok(book) => quote_request(self.args, self.market->0, book),
            },
        }
    }

    /// The book came, and `numbers` were computed from it.
    pub open spec fn on_book(self, request: QuoteRequest, numbers: QuoteNumbers) -> (
        SanityView,
        SanityActionView,
    ) {
        let plan = plan_with(self.args, self.market->0, request.side, numbers);
        (
            SanityView { stage: SanityStage::Quoting, plan: Some(plan), ..self },
            SanityActionView::Quote(plan),
        )
    }

    /// The plan was written in ticks, and the order is placed under the name `id`.
    pub open spec fn on_ticks(self, ticks: PlanTicksView, id: Seq<char>) -> (
        SanityView,
        SanityActionView,
    ) {
        let plan = self.plan->0;
        let (manager, request) = self.manager.with_new_order(
            plan.symbol,
            planned_order(SANITY_ORDER_ID, ticks.first_tick, plan),
            ticks.first.0,
            ticks.first.1,
            id,
        );
        let after = SanityView { manager, ticks: Some(ticks), ..self };
        match request {
            Err(error) => after.failed(SanityErrorView::Market(error.words())),
            Ok(request) => (
                SanityView {
                    stage: SanityStage::Submitting,
                    client_order_id: request.client_order_id,
                    ..after
                },
                SanityActionView::Submit(request),
            ),
        }
    }

    /// The open orders came after the order was placed: it is marked as open, and changed.
    pub open spec fn on_created(self, orders: Seq<JsonView>) -> (SanityView, SanityActionView) {
        let plan = self.plan->0;
        let ticks = self.ticks->0;
        let report = open_report(
            plan,
            ticks.first_price,
            self.client_order_id,
            open_id(orders, self.client_order_id, 0),
            1,
        );
        let (opened, marked) = marked_open(self.manager, report);
        match marked {
            Err(error) => SanityView { manager: opened, ..self }.failed(error),
            Ok(_) => {
                let (manager, request) = opened.with_edit(
                    plan.symbol,
                    planned_replacement(SANITY_ORDER_ID, ticks.second_tick, plan),
                    ticks.second.0,
                    ticks.second.1,
                );
                let after = SanityView { manager, ..self };
                match request {
                    Err(error) => after.failed(SanityErrorView::Market(error.words())),
                    Ok(request) => (
                        SanityView {
                            stage: SanityStage::Editing,
                            edited_id: request.client_order_id,
                            ..after
                        },
                        SanityActionView::Edit(request),
                    ),
                }
            },
        }
    }

    /// The order was changed.
    pub open spec fn on_edited(self) -> (SanityView, SanityActionView) {
        let (manager, active) = self.manager.with_edit_ack(self.edited_id);
        let after = SanityView { manager, ..self };
        match active {
            Err(error) => after.failed(SanityErrorView::Market(error.words())),
            Ok(_) => after.settles(SanityStage::SettlingEdit),
        }
    }

    /// The open orders came after the order was changed: it is cancelled.
    pub open spec fn on_edit_checked(self, orders: Seq<JsonView>) -> (
        SanityView,
        SanityActionView,
    ) {
        let after = SanityView {
            edited_exchange_order_id: open_id(orders, self.client_order_id, 0),
            ..self
        };
        match self.manager.cancel_request(self.plan->0.symbol, SANITY_ORDER_ID) {
            Err(error) => after.failed(SanityErrorView::Market(error.words())),
            Ok(request) => (
                SanityView { stage: SanityStage::Cancelling, ..after },
                SanityActionView::Cancel(request),
            ),
        }
    }

    /// The open orders came after the order was cancelled: it may not be among them.
    pub open spec fn on_cancel_checked(self, orders: Seq<JsonView>) -> (
        SanityView,
        SanityActionView,
    ) {
        let left = residual_ids(orders, seq![self.client_order_id], orders.len() as int);
        if left.len() > 0 {
            self.failed(SanityErrorView::ResidualOrders(left))
        } else {
            self.finished(
                Ok(
                    SanitySummaryView {
                        creates_ok: 1,
                        edits_ok: 1,
                        cancels_ok: 1,
                        residual_client_order_ids: left,
                        edited_client_order_id: Some(self.client_order_id),
                        edited_exchange_order_id: self.edited_exchange_order_id,
                    },
                ),
            )
        }
    }

    /// The open orders came.
    pub open spec fn on_orders(
        self,
        answer: Result<Result<RestPayload<Vec<Json>>, String>, SanityError>,
    ) -> (SanityView, SanityActionView) {
        match answer {
            Err(error) => self.failed(error@),
            Ok(payload) => match orders_in(payload) {
                Err(error) => self.failed(error),
                Ok(orders) => match self.stage {
                    SanityStage::CheckingCreate => self.on_created(orders),
                    SanityStage::CheckingEdit => self.on_edit_checked(orders),
                    _ => self.on_cancel_checked(orders),
                },
            },
        }
    }

    /// A command was answered.
    pub open spec fn on_traded(self, result: Result<(), TradeErrorView>) -> (
        SanityView,
        SanityActionView,
    ) {
        match result {
            Err(error) => self.failed(SanityErrorView::Trade(error)),
            Ok(_) => match self.stage {
                SanityStage::Submitting => self.settles(SanityStage::SettlingCreate),
                SanityStage::Editing => self.on_edited(),
                _ => self.settles(SanityStage::SettlingCancel),
            },
        }
    }

    /// The time to settle is over.
    pub open spec fn on_slept(self) -> (SanityView, SanityActionView) {
        match self.stage {
            SanityStage::SettlingCreate => self.asks_orders(SanityStage::CheckingCreate),
            SanityStage::SettlingEdit => self.asks_orders(SanityStage::CheckingEdit),
            _ => self.asks_orders(SanityStage::CheckingCancel),
        }
    }

    /// `after` and `action` are what comes of an input. Inputs that a stage does not expect
    /// change nothing.
    pub open spec fn stepped<F: Fn(QuoteRequest) -> QuoteNumbers>(
        self,
        input: SanityInput,
        quote: F,
        after: SanityView,
        action: SanityActionView,
    ) -> bool {
        match (self.stage, input) {
            (
                SanityStage::Loading,
                SanityInput::Config { file, home, api_key_file, private_key_file },
            ) => (after, action) == self.on_config(
                file,
                home.deep_view(),
                file_read(api_key_file),
                file_read(private_key_file),
            ),
            (SanityStage::AskingMarket, SanityInput::Market(answer)) => (after, action)
                == self.on_market(answer),
            (SanityStage::AskingBook, SanityInput::Book(answer)) => match self.request_in(answer) {
                Err(error) => (after, action) == self.failed(error),
                Ok(request) => exists|numbers: QuoteNumbers| #[trigger]
                    call_ensures(quote, (request,), numbers) && (after, action) == self.on_book(
                        request,
                        numbers,
                    ),
            },
            (SanityStage::Quoting, SanityInput::Ticks(ticks)) => exists|id: Seq<char>| #[trigger]
                is_uuid_v4(id) && (after, action) == self.on_ticks(ticks@, id),
            (SanityStage::Submitting, SanityInput::Traded(result)) => (after, action)
                == self.on_traded(outcome(result)),
            (SanityStage::Editing, SanityInput::Traded(result)) => (after, action)
                == self.on_traded(outcome(result)),
            (SanityStage::Cancelling, SanityInput::Traded(result)) => (after, action)
                == self.on_traded(outcome(result)),
            (SanityStage::SettlingCreate, SanityInput::Slept) => (after, action) == self.on_slept(),
            (SanityStage::SettlingEdit, SanityInput::Slept) => (after, action) == self.on_slept(),
            (SanityStage::SettlingCancel, SanityInput::Slept) => (after, action) == self.on_slept(),
            (SanityStage::CheckingCreate, SanityInput::Orders(answer)) => (after, action)
                == self.on_orders(answer),
            (SanityStage::CheckingEdit, SanityInput::Orders(answer)) => (after, action)
                == self.on_orders(answer),
            (SanityStage::CheckingCancel, SanityInput::Orders(answer)) => (after, action)
                == self.on_orders(answer),
            _ => after == self && action == SanityActionView::Wait,
        }
    }
}

/// What is known in the course of the check.
#[derive(Debug)]
struct SanityState {
    args: SanityArgs,
    stage: SanityStage,
    config: Config,
    market: Option<MarketSpec>,
    plan: Option<SanityPlan>,
    ticks: Option<PlanTicks>,
    manager: OrderManager,
    client_order_id: String,
    edited_id: String,
    edited_exchange_order_id: Option<i64>,
}

impl View for SanityState {
    type V = SanityView;

    closed spec fn view(&self) -> SanityView {
        SanityView {
            args: self.args@,
            stage: self.stage,
            config: self.config@,
            market: self.market.deep_view(),
            plan: match self.plan {
                Some(plan) => Some(plan@),
                None => None,
            },
            ticks: match self.ticks {
                Some(ticks) => Some(ticks@),
                None => None,
            },
            manager: self.manager@,
            client_order_id: self.client_order_id@,
            edited_id: self.edited_id@,
            edited_exchange_order_id: self.edited_exchange_order_id,
        }
    }
}

/// The course of the check.
#[derive(Debug)]
pub struct SanityRun {
    state: SanityState,
}

impl View for SanityRun {
    type V = SanityView;

    closed spec fn view(&self) -> SanityView {
        self.state@
    }
}

impl SanityRun {
    #[verifier::type_invariant]
    closed spec fn well_formed(self) -> bool {
        self.state@.wf()
    }

    /// The start of the check: the settings are to be read, unless nothing may be traded.
    pub fn new(args: SanityArgs) -> (r: (Self, SanityAction))
        ensures
            r.0@.args == args@,
            r.0@.manager == ManagerView::empty(),
            r.0@.wf(),
            if args.execute {
                r.0@.stage == SanityStage::Loading && r.1@ == SanityActionView::LoadConfig(
                    args.config@,
                )
            } else {
                r.0@.stage == SanityStage::Finished && r.1@ == SanityActionView::Finish(
                    Err(SanityErrorView::MissingExecute),
                )
            },
    {
        if args.execute {
            let path = args.config.clone();
            let run = SanityRun { state: SanityState::at(args, SanityStage::Loading) };
            (run, SanityAction::LoadConfig(path))
        } else {
            let run = SanityRun { state: SanityState::at(args, SanityStage::Finished) };
            (run, SanityAction::Finish(Err(SanityError::MissingExecute)))
        }
    }

    /// The settings, once they were read.
    pub fn config(&self) -> (r: &Config)
        ensures
            r@ == self@.config,
    {
        &self.state.config
    }

    /// Takes in an input, and tells what to do next. `quote` computes the prices and the amount of
    /// the plan.
    pub fn step<F: Fn(QuoteRequest) -> QuoteNumbers>(&mut self, input: SanityInput, quote: F) -> (r:
        SanityAction)
        requires
            forall|request: QuoteRequest| #[trigger] call_requires(quote, (request,)),
        ensures
            old(self)@.stepped(input, quote, final(self)@, r@),
            old(self)@.wf(),
            final(self)@.wf(),
    {
        proof {
            use_type_invariant(&*self);
        }
        let mut state = SanityState::over();
        core::mem::swap(&mut state, &mut self.state);
        let action = state.step(input, quote);
        self.state = state;
        action
    }
}

impl SanityState {
    /// Nothing known but what to check.
    fn at(args: SanityArgs, stage: SanityStage) -> (r: Self)
        ensures
            r@.args == args@,
            r@.stage == stage,
            r@.manager == ManagerView::empty(),
    {
        SanityState {
            args,
            stage,
            config: Config::default(),
            market: None,
            plan: None,
            ticks: None,
            manager: OrderManager::new(""),
            client_order_id: String::new(),
            edited_id: String::new(),
            edited_exchange_order_id: None,
        }
    }

    /// A check that is over, with nothing to check.
    fn over() -> (r: Self)
        ensures
            r@.wf(),
    {
        let args = SanityArgs {
            config: String::new(),
            symbol: String::new(),
            side: String::new(),
            amount: Binary64::zero(),
            quote_offset_ticks: 0,
            min_order_notional: Binary64::zero(),
            execute: false,
            allow_non_testnet: false,
            settle_millis: 0,
        };
        SanityState::at(args, SanityStage::Finished)
    }

    /// The check failed.
    fn fail(&mut self, error: SanityError) -> (r: SanityAction)
        ensures
            (final(self)@, r@) == old(self)@.failed(error@),
    {
        self.stage = SanityStage::Finished;
        SanityAction::Finish(Err(error))
    }

    /// The check asks for the open orders.
    fn ask_orders(&mut self, stage: SanityStage) -> (r: SanityAction)
        ensures
            (final(self)@, r@) == old(self)@.asks_orders(stage),
    {
        self.stage = stage;
        let path = "/api/v1/orders";
        SanityAction::Get {
            url: endpoint(&self.config, path),
            path,
            query: Some(("account", self.config.account.clone())),
        }
    }

    /// The check waits for things to settle.
    fn settle(&mut self, stage: SanityStage) -> (r: SanityAction)
        ensures
            (final(self)@, r@) == old(self)@.settles(stage),
    {
        self.stage = stage;
        SanityAction::Sleep(self.args.settle_millis)
    }

    /// The settings came.
    fn take_config(
        &mut self,
        file: Result<Result<Config, String>, String>,
        home: Option<String>,
        api_key_file: Result<String, String>,
        private_key_file: Result<String, String>,
    ) -> (r: SanityAction)
        ensures
            (final(self)@, r@) == old(self)@.on_config(
                file,
                home.deep_view(),
                file_read(api_key_file),
                file_read(private_key_file),
            ),
    {
        let config = match file {
            Ok(Ok(config)) => config,
            Ok(Err(error)) => {
                return self.fail(SanityError::Config(error));
            },
            Err(error) => {
                return self.fail(SanityError::ReadConfig(error));
            },
        };
        let config = match config.resolve(&home, api_key_file, private_key_file) {
            Ok(config) => config,
            Err(error) => {
                return self.fail(SanityError::InvalidConfig(error));
            },
        };
        match config.validate() {
            Ok(_) => {},
            Err(error) => {
                return self.fail(SanityError::InvalidConfig(error));
            },
        }
        match validate_testnet_guard(&config, self.args.allow_non_testnet) {
            Ok(_) => {},
            Err(error) => {
                return self.fail(error);
            },
        }
        self.config = config;
        self.stage = SanityStage::AskingMarket;
        let path = "/api/v1/info";
        SanityAction::Get { url: endpoint(&self.config, path), path, query: None }
    }

    /// The rules of the markets came.
    fn take_market(
        &mut self,
        answer: Result<Result<RestPayload<Vec<MarketInfo>>, String>, SanityError>,
    ) -> (r: SanityAction)
        ensures
            (final(self)@, r@) == old(self)@.on_market(answer),
    {
        let payload = match answer {
            Ok(payload) => payload,
            Err(error) => {
                return self.fail(error);
            },
        };
        match parse_market_info_for_symbol(payload, self.args.symbol.as_str()) {
            Ok(market) => {
                self.market = Some(market);
                self.stage = SanityStage::AskingBook;
                let path = "/api/v1/book";
                SanityAction::Get {
                    url: endpoint(&self.config, path),
                    path,
                    query: Some(("symbol", self.args.symbol.clone())),
                }
            },
            Err(error) => self.fail(error),
        }
    }

    /// The book came.
    fn take_book<F: Fn(QuoteRequest) -> QuoteNumbers>(
        &mut self,
        answer: Result<Result<RestPayload<BookSnapshot>, String>, SanityError>,
        quote: F,
    ) -> (r: SanityAction)
        requires
            old(self)@.market is Some,
            forall|request: QuoteRequest| #[trigger] call_requires(quote, (request,)),
        ensures
            match old(self)@.request_in(answer) {
                Err(error) => (final(self)@, r@) == old(self)@.failed(error),
                Ok(request) => exists|numbers: QuoteNumbers| #[trigger]
                    call_ensures(quote, (request,), numbers) && (final(self)@, r@) == old(
                        self,
                    )@.on_book(request, numbers),
            },
    {
        let payload = match answer {
            Ok(payload) => payload,
            Err(error) => {
                return self.fail(error);
            },
        };
        let book = match parse_book(payload) {
            Ok(book) => book,
            Err(error) => {
                return self.fail(error);
            },
        };
        let market = match &self.market {
            Some(market) => market,
            None => {
                return SanityAction::Wait;
            },
        };
        match plan_from_book(&self.args, market, &book, quote) {
            Ok(plan) => {
                let shown = SanityPlan {
                    symbol: plan.symbol.clone(),
                    first_price: plan.first_price,
                    second_price: plan.second_price,
                    tick_size: plan.tick_size,
                    amount: plan.amount,
                    side: plan.side,
                    offset_ticks: plan.offset_ticks,
                };
                self.plan = Some(plan);
                self.stage = SanityStage::Quoting;
                SanityAction::Quote(shown)
            },
            Err(error) => self.fail(error),
        }
    }

    /// The plan was written in ticks and texts: the order is placed.
    fn take_ticks(&mut self, ticks: PlanTicks) -> (r: SanityAction)
        requires
            old(self)@.plan is Some,
        ensures
            exists|id: Seq<char>| #[trigger]
                is_uuid_v4(id) && (final(self)@, r@) == old(self)@.on_ticks(ticks@, id),
    {
        let ghost before = self@;
        let plan = match &self.plan {
            Some(plan) => plan,
            None => {
                return SanityAction::Wait;
            },
        };
        let order = sanity_order(SANITY_ORDER_ID, ticks.first_tick, plan);
        let request = self.manager.new_order(plan.symbol.as_str(), order, &ticks.first);
        let ghost id = choose|id: Seq<char>| #[trigger]
            is_uuid_v4(id) && (self.manager@, crate::text::viewed(request))
                == before.manager.with_new_order(
                before.plan->0.symbol,
                order,
                ticks.first.price@,
                ticks.first.amount@,
                id,
            );
        self.ticks = Some(ticks);
        let action = match request {
            Ok(payload) => {
                self.client_order_id = payload.client_order_id.clone();
                self.stage = SanityStage::Submitting;
                SanityAction::Submit(payload)
            },
            Err(error) => self.fail(SanityError::Market(error.message())),
        };
        assert(is_uuid_v4(id) && (self@, action@) == before.on_ticks(ticks@, id));
        action
    }

    /// The open orders came after the order was placed: it is marked as open, and changed.
    fn take_created(&mut self, payload: &Result<RestPayload<Vec<Json>>, String>) -> (r: SanityAction)
        requires
            old(self)@.plan matches Some(plan) && (plan.side == Side::Buy || plan.side
                == Side::Sell),
            old(self)@.ticks is Some,
            old(self)@.stage == SanityStage::CheckingCreate,
        ensures
            (final(self)@, r@) == (match orders_in(*payload) {
                Ok(orders) => old(self)@.on_created(orders),
                Err(error) => old(self)@.failed(error),
            }),
    {
        let exchange_order_id = match open_order_exchange_id(
            payload,
            self.client_order_id.as_str(),
        ) {
            Ok(exchange_order_id) => exchange_order_id,
            Err(error) => {
                return self.fail(error);
            },
        };
        let (plan, ticks) = match (&self.plan, &self.ticks) {
            (Some(plan), Some(ticks)) => (plan, ticks),
            _ => {
                return SanityAction::Wait;
            },
        };
        match mark_order_open(
            &mut self.manager,
            plan,
            ticks.first_price.as_str(),
            self.client_order_id.as_str(),
            exchange_order_id,
            1,
        ) {
            Ok(_) => {},
            Err(error) => {
                return self.fail(error);
            },
        }
        let order = sanity_replacement_order(SANITY_ORDER_ID, ticks.second_tick, plan);
        match self.manager.edit_order(plan.symbol.as_str(), order, &ticks.second) {
            Ok(payload) => {
                self.edited_id = payload.client_order_id.clone();
                self.stage = SanityStage::Editing;
                SanityAction::Edit(payload)
            },
            Err(error) => self.fail(SanityError::Market(error.message())),
        }
    }

    /// The order was changed.
    fn take_edited(&mut self) -> (r: SanityAction)
        ensures
            (final(self)@, r@) == old(self)@.on_edited(),
    {
        match self.manager.update_edit_ack(self.edited_id.as_str()) {
            Ok(_) => self.settle(SanityStage::SettlingEdit),
            Err(error) => self.fail(SanityError::Market(error.message())),
        }
    }

    /// The open orders came after the order was changed: it is cancelled.
    fn take_edit_checked(&mut self, payload: &Result<RestPayload<Vec<Json>>, String>) -> (r:
        SanityAction)
        requires
            old(self)@.plan is Some,
        ensures
            (final(self)@, r@) == (match orders_in(*payload) {
                Ok(orders) => old(self)@.on_edit_checked(orders),
                Err(error) => old(self)@.failed(error),
            }),
    {
        match open_order_exchange_id(payload, self.client_order_id.as_str()) {
            Ok(exchange_order_id) => {
                self.edited_exchange_order_id = exchange_order_id;
            },
            Err(error) => {
                return self.fail(error);
            },
        }
        let plan = match &self.plan {
            Some(plan) => plan,
            None => {
                return SanityAction::Wait;
            },
        };
        match self.manager.cancel_order(plan.symbol.as_str(), SANITY_ORDER_ID) {
            Ok(payload) => {
                self.stage = SanityStage::Cancelling;
                SanityAction::Cancel(payload)
            },
            Err(error) => self.fail(SanityError::Market(error.message())),
        }
    }

    /// The open orders came after the order was cancelled: it may not be among them.
    fn take_cancel_checked(&mut self, payload: &Result<RestPayload<Vec<Json>>, String>) -> (r:
        SanityAction)
        ensures
            (final(self)@, r@) == (match orders_in(*payload) {
                Ok(orders) => old(self)@.on_cancel_checked(orders),
                Err(error) => old(self)@.failed(error),
            }),
    {
        let mut created_ids: Vec<String> = Vec::new();
        created_ids.push(self.client_order_id.clone());
        assert(created_ids.deep_view() =~= seq![self@.client_order_id]);
        match residual_client_order_ids(payload, &created_ids) {
            Ok(left) => {
                assert(left.deep_view().len() == left.len());
                if left.len() > 0 {
                    return self.fail(SanityError::ResidualOrders(left));
                }
                self.stage = SanityStage::Finished;
                SanityAction::Finish(
                    Ok(
                        SanitySummary {
                            creates_ok: 1,
                            edits_ok: 1,
                            cancels_ok: 1,
                            residual_client_order_ids: left,
                            edited_client_order_id: Some(self.client_order_id.clone()),
                            edited_exchange_order_id: self.edited_exchange_order_id,
                        },
                    ),
                )
            },
            Err(error) => self.fail(error),
        }
    }

    /// The open orders came.
    fn take_orders(
        &mut self,
        answer: Result<Result<RestPayload<Vec<Json>>, String>, SanityError>,
    ) -> (r: SanityAction)
        requires
            old(self)@.wf(),
            old(self)@.stage == SanityStage::CheckingCreate || old(self)@.stage
                == SanityStage::CheckingEdit || old(self)@.stage == SanityStage::CheckingCancel,
        ensures
            (final(self)@, r@) == old(self)@.on_orders(answer),
    {
        let payload = match answer {
            Ok(payload) => payload,
            Err(error) => {
                return self.fail(error);
            },
        };
        match self.stage {
            SanityStage::CheckingCreate => self.take_created(&payload),
            SanityStage::CheckingEdit => self.take_edit_checked(&payload),
            _ => self.take_cancel_checked(&payload),
        }
    }

    /// A command was answered.
    fn take_traded(&mut self, result: Result<(), TradeError>) -> (r: SanityAction)
        ensures
            (final(self)@, r@) == old(self)@.on_traded(outcome(result)),
    {
        match result {
            Ok(_) => match self.stage {
                SanityStage::Submitting => self.settle(SanityStage::SettlingCreate),
                SanityStage::Editing => self.take_edited(),
                _ => self.settle(SanityStage::SettlingCancel),
            },
            Err(error) => self.fail(SanityError::Trade(error)),
        }
    }

    /// The time to settle is over.
    fn take_slept(&mut self) -> (r: SanityAction)
        ensures
            (final(self)@, r@) == old(self)@.on_slept(),
    {
        match self.stage {
            SanityStage::SettlingCreate => self.ask_orders(SanityStage::CheckingCreate),
            SanityStage::SettlingEdit => self.ask_orders(SanityStage::CheckingEdit),
            _ => self.ask_orders(SanityStage::CheckingCancel),
        }
    }

    /// Takes in an input, and tells what to do next. `quote` computes the prices and the amount of
    /// the plan.
    fn step<F: Fn(QuoteRequest) -> QuoteNumbers>(&mut self, input: SanityInput, quote: F) -> (r:
        SanityAction)
        requires
            old(self)@.wf(),
            forall|request: QuoteRequest| #[trigger] call_requires(quote, (request,)),
        ensures
            old(self)@.stepped(input, quote, final(self)@, r@),
            final(self)@.wf(),
    {
        match (self.stage, input) {
            (
                SanityStage::Loading,
                SanityInput::Config { file, home, api_key_file, private_key_file },
            ) => self.take_config(file, home, api_key_file, private_key_file),
            (SanityStage::AskingMarket, SanityInput::Market(answer)) => self.take_market(answer),
            (SanityStage::AskingBook, SanityInput::Book(answer)) => self.take_book(answer, quote),
            (SanityStage::Quoting, SanityInput::Ticks(ticks)) => self.take_ticks(ticks),
            (SanityStage::Submitting, SanityInput::Traded(result))
            | (SanityStage::Editing, SanityInput::Traded(result))
            | (SanityStage::Cancelling, SanityInput::Traded(result)) => self.take_traded(result),
            (SanityStage::SettlingCreate, SanityInput::Slept)
            | (SanityStage::SettlingEdit, SanityInput::Slept)
            | (SanityStage::SettlingCancel, SanityInput::Slept) => self.take_slept(),
            (SanityStage::CheckingCreate, SanityInput::Orders(answer))
            | (SanityStage::CheckingEdit, SanityInput::Orders(answer))
            | (SanityStage::CheckingCancel, SanityInput::Orders(answer)) => self.take_orders(
                answer,
            ),
            _ => SanityAction::Wait,
        }
    }
}

/// Nothing is placed, changed or cancelled unless the check was asked to trade, and unless its
/// settings are for the test network or others were allowed.
pub proof fn trading_is_guarded<F: Fn(QuoteRequest) -> QuoteNumbers>(
    run: SanityView,
    input: SanityInput,
    quote: F,
    after: SanityView,
    action: SanityActionView,
)
    requires
        run.wf(),
        run.stepped(input, quote, after, action),
    ensures
        action is Submit || action is Edit || action is Cancel ==> run.args.execute && (
        run.args.allow_non_testnet || is_testnet(run.config)),
        after.args == run.args,
{
}

/// Every input that counts takes the check forward, so it comes to an end; the others change
/// nothing.
pub proof fn the_check_moves_forward<F: Fn(QuoteRequest) -> QuoteNumbers>(
    run: SanityView,
    input: SanityInput,
    quote: F,
    after: SanityView,
    action: SanityActionView,
)
    requires
        run.stepped(input, quote, after, action),
    ensures
        if action == SanityActionView::Wait {
            after == run
        } else {
            run.rank() < after.rank() && (after.stage == SanityStage::Finished <==> action is Finish)
        },
{
}

/// What is changed and cancelled is the order that was placed.
pub proof fn the_placed_order_is_changed_and_cancelled<F: Fn(QuoteRequest) -> QuoteNumbers>(
    run: SanityView,
    input: SanityInput,
    quote: F,
    after: SanityView,
    action: SanityActionView,
)
    requires
        run.wf(),
        run.stepped(input, quote, after, action),
    ensures
        action matches SanityActionView::Submit(request) ==> after.client_order_id
            == request.client_order_id && request.symbol == run.plan->0.symbol,
        action matches SanityActionView::Edit(request) ==> request.client_order_id
            == run.client_order_id && request.symbol == run.plan->0.symbol,
        action matches SanityActionView::Cancel(request) ==> request.client_order_id
            == run.client_order_id && request.symbol == run.plan->0.symbol,
        run.rank() >= 4 ==> after.client_order_id == run.client_order_id,
{
}

/// Once there is a plan, the check fails only where a command or a question to the exchange fails,
/// or where the order is left over at the end: the book of the check itself refuses nothing.
pub proof fn the_book_of_the_check_refuses_nothing<F: Fn(QuoteRequest) -> QuoteNumbers>(
    run: SanityView,
    input: SanityInput,
    quote: F,
    after: SanityView,
    action: SanityActionView,
)
    requires
        run.wf(),
        run.rank() >= 3,
        run.stepped(input, quote, after, action),
        action matches SanityActionView::Finish(Err(_)),
    ensures
        ({
            let error = action->Finish_0->Err_0;
            ||| input matches SanityInput::Traded(Err(failed)) && error == SanityErrorView::Trade(
                failed@,
            )
            ||| input matches SanityInput::Orders(Err(failed)) && error == failed@
            ||| input matches SanityInput::Orders(Ok(Err(failed))) && error
                == SanityErrorView::Json(failed@)
            ||| run.stage == SanityStage::CheckingCancel && error is ResidualOrders
        }),
{
}

/// The check succeeds only where the orders that are open at the end were looked at and the order
/// of the check is not among them.
pub proof fn success_leaves_nothing<F: Fn(QuoteRequest) -> QuoteNumbers>(
    run: SanityView,
    input: SanityInput,
    quote: F,
    after: SanityView,
    action: SanityActionView,
)
    requires
        run.wf(),
        run.stepped(input, quote, after, action),
        action matches SanityActionView::Finish(Ok(_)),
    ensures
        run.stage == SanityStage::CheckingCancel,
        input matches SanityInput::Orders(Ok(payload)) && (orders_in(payload) matches Ok(orders)
            && forall|i: int|
            0 <= i < orders.len() ==> long_client_id(#[trigger] orders[i]) != Some(
                run.client_order_id,
            )),
        action matches SanityActionView::Finish(Ok(summary)) && summary.residual_client_order_ids
            == Seq::<Seq<char>>::empty(),
{
    let id = run.client_order_id;
    let orders = orders_in(input->Orders_0->Ok_0)->Ok_0;
    let n = orders.len() as int;
    let left = residual_ids(orders, seq![id], n);
    assert forall|i: int| 0 <= i < n implies long_client_id(#[trigger] orders[i]) != Some(id) by {
        if long_client_id(orders[i]) == Some(id) {
            residual_ids_are_the_open_ones(orders, seq![id], n, id);
            assert(seq![id].contains(seq![id][0]));
            assert(left.contains(id));
        }
    }
}

} // verus!
