use pacifica::binary64::{Binary64, NumericText};
use pacifica::config::{Config, ConfigError};
use pacifica::json::{print_json, Json};
use pacifica::ordermanager::{OrderManager, QuoteText};
use pacifica::rest::{BookLevel, BookSnapshot, MarketInfo, RestPayload};
use pacifica::sanity::{
    endpoint, get_text, mark_order_open, open_order_exchange_id, parse_book,
    parse_market_info_for_symbol, parse_rest_payload, plan_from_book, residual_client_order_ids,
    sanity_order, sanity_replacement_order, validate_testnet_guard, QuoteNumbers, QuoteRequest,
    SanityArgs, SanityError, SanityPlan, SanitySummary,
};
use pacifica::sanity_run::{PlanTicks, SanityAction, SanityInput, SanityRun};
use pacifica::startup::MarketSpec;
use pacifica::trade_stream::TradeError;
use pacifica::types::{OrdType, Side, Status, TimeInForce};

fn number(value: f64) -> Binary64 {
    Binary64 { bits: value.to_bits() }
}

fn value(number: Binary64) -> f64 {
    f64::from_bits(number.bits)
}

fn numeric(text: &str) -> NumericText {
    NumericText { text: text.to_string(), value: text.parse::<f64>().ok().map(number) }
}

fn args() -> SanityArgs {
    SanityArgs {
        config: "config.toml".to_string(),
        symbol: "BTC".to_string(),
        side: "bid".to_string(),
        amount: number(0.0002),
        quote_offset_ticks: 500,
        min_order_notional: number(11.0),
        execute: false,
        allow_non_testnet: false,
        settle_millis: 0,
    }
}

fn market() -> MarketSpec {
    MarketSpec {
        symbol: "BTC".to_string(),
        tick_size: number(1.0),
        lot_size: number(0.00001),
        min_order_size: number(10.0),
    }
}

fn level(price: &str, amount: &str) -> BookLevel {
    BookLevel { price: numeric(price), amount: numeric(amount) }
}

fn book() -> BookSnapshot {
    BookSnapshot {
        symbol: "BTC".to_string(),
        levels: vec![vec![level("100000", "1")], vec![level("100001", "1")]],
        timestamp_ms: 1,
    }
}

fn floor_to_increment(value: f64, increment: f64) -> f64 {
    (value / increment).floor() * increment
}

fn ceil_to_increment(value: f64, increment: f64) -> f64 {
    (value / increment).ceil() * increment
}

fn quote(request: QuoteRequest) -> QuoteNumbers {
    let tick = value(request.tick_size);
    let lot = value(request.lot_size);
    let offset = request.offset_ticks as f64 * tick;
    let (first, second) = if request.side == Side::Buy {
        let first = floor_to_increment(value(request.best_price) - offset, tick);
        (first, floor_to_increment(first - tick, tick))
    } else {
        let first = ceil_to_increment(value(request.best_price) + offset, tick);
        (first, ceil_to_increment(first + tick, tick))
    };
    let required = value(request.min_order_size).max(value(request.min_order_notional));
    let base = floor_to_increment(value(request.base_amount), lot);
    let amount = if first * base >= required {
        base
    } else {
        ceil_to_increment(required / first, lot)
    };
    QuoteNumbers {
        first_price: number(first),
        second_price: number(second),
        amount: number(amount),
    }
}

fn ticks(plan: &SanityPlan) -> PlanTicks {
    let tick = |price: Binary64| (value(price) / value(plan.tick_size)).round() as i64;
    let text = |tick: i64| QuoteText {
        price: (tick as f64 * value(plan.tick_size)).to_string(),
        amount: value(plan.amount).to_string(),
    };
    PlanTicks {
        first_tick: tick(plan.first_price),
        second_tick: tick(plan.second_price),
        first_price: value(plan.first_price).to_string(),
        first: text(tick(plan.first_price)),
        second: text(tick(plan.second_price)),
    }
}

fn orders(text: &str) -> Result<RestPayload<Vec<Json>>, String> {
    let payload = parse_rest_payload(text).map_err(|error| error.message())?;
    let success = match payload.get("success") {
        Some(Json::Bool(success)) => Some(*success),
        _ => None,
    };
    let data = payload.get("data").ok_or("missing field `data`")?;
    let data = data.as_array().ok_or("expected a sequence")?;
    Ok(RestPayload { success, data: data.iter().map(|order| order.copy()).collect() })
}

fn testnet_config() -> Config {
    Config {
        account: "acct".to_string(),
        private_key_file: "key.json".to_string(),
        ..Config::default()
    }
}

fn mainnet_config() -> Config {
    Config {
        rest_url: "https://api.pacifica.fi".to_string(),
        public_url: "wss://ws.pacifica.fi/ws".to_string(),
        private_url: "wss://ws.pacifica.fi/ws".to_string(),
        trade_url: "wss://ws.pacifica.fi/ws".to_string(),
        account: "acct".to_string(),
        private_key_file: "key.json".to_string(),
        testnet: false,
        ..Config::default()
    }
}

fn plan() -> SanityPlan {
    plan_from_book(&args(), &market(), &book(), quote).unwrap()
}

#[test]
fn sanity_requires_execute_flag() {
    let (_, action) = SanityRun::new(args());

    assert!(matches!(action, SanityAction::Finish(Err(SanityError::MissingExecute))));
}

#[test]
fn sanity_rejects_non_testnet_without_override() {
    let config = mainnet_config();

    assert!(matches!(validate_testnet_guard(&config, false), Err(SanityError::NonTestnet)));
    assert!(validate_testnet_guard(&config, true).is_ok());
}

#[test]
fn guard_looks_at_the_mark_and_at_every_address() {
    assert!(validate_testnet_guard(&testnet_config(), false).is_ok());
    let away = "https://api.pacifica.fi".to_string();
    for config in [
        Config { testnet: false, ..testnet_config() },
        Config { rest_url: away.clone(), ..testnet_config() },
        Config { public_url: away.clone(), ..testnet_config() },
        Config { private_url: away.clone(), ..testnet_config() },
        Config { trade_url: away.clone(), ..testnet_config() },
    ] {
        assert!(validate_testnet_guard(&config, false).is_err());
    }
}

#[test]
fn sanity_price_levels_are_far_from_mid_for_bid() {
    let plan = plan_from_book(&args(), &market(), &book(), quote).unwrap();

    assert_eq!(value(plan.first_price), 99500.0);
    assert_eq!(value(plan.second_price), 99499.0);
    assert!(value(plan.first_price) < 100000.0);
    assert!(value(plan.amount) * value(plan.first_price) >= 11.0);
}

#[test]
fn sanity_price_levels_are_far_from_mid_for_ask() {
    let plan = plan_from_book(
        &SanityArgs { side: "ask".to_string(), ..args() },
        &market(),
        &book(),
        quote,
    )
    .unwrap();

    assert_eq!(value(plan.first_price), 100501.0);
    assert_eq!(value(plan.second_price), 100502.0);
}

#[test]
fn plan_needs_a_side_and_a_price() {
    let fault = |side: &str, book: &BookSnapshot| {
        plan_from_book(&SanityArgs { side: side.to_string(), ..args() }, &market(), book, quote)
            .unwrap_err()
            .message()
    };
    let bids = |levels| BookSnapshot { levels, ..book() };

    assert_eq!(fault("up", &book()), "invalid side: up");
    assert_eq!(fault("buy", &bids(vec![])), "market: missing book side");
    assert_eq!(fault("buy", &bids(vec![vec![]])), "market: missing book side");
    assert_eq!(fault("sell", &bids(vec![vec![level("1", "1")]])), "market: missing book side");
    assert_eq!(
        fault("bid", &bids(vec![vec![level("dear", "1")]])),
        "market: invalid book price: dear"
    );
}

#[test]
fn sanity_success_requires_no_residual_orders() {
    let expected = vec!["pfhbt-btc-1".to_string(), "pfhbt-btc-2".to_string()];
    let residual = residual_client_order_ids(
        &orders(r#"{"payload":{"success":true,"data":[{"client_order_id":"pfhbt-btc-2"}]}}"#),
        &expected,
    )
    .unwrap();

    assert_eq!(residual, vec!["pfhbt-btc-2"]);
}

#[test]
fn empty_orders_are_clean_success() {
    let expected = vec!["pfhbt-btc-1".to_string()];
    let residual = residual_client_order_ids(
        &orders(r#"{"payload":{"success":true,"data":[]}}"#),
        &expected,
    )
    .unwrap();

    assert!(residual.is_empty());
}

#[test]
fn residual_orders_go_by_their_long_names() {
    let expected = vec!["a".to_string(), "b".to_string()];
    let residual = residual_client_order_ids(
        &orders(
            r#"{"data":[{"coid":"b"},{"clientOrderId":"a"},{"I":"a"},{"client_order_id":"c"},{"client_order_id":1,"coid":"a"},{"coid":"b"}]}"#,
        ),
        &expected,
    )
    .unwrap();

    assert_eq!(residual, vec!["b", "a", "b"]);
    assert!(matches!(
        residual_client_order_ids(&Err("no".to_string()), &expected),
        Err(SanityError::Json(error)) if error == "no"
    ));
}

#[test]
fn open_order_exchange_id_accepts_rest_and_short_fields() {
    let rest = open_order_exchange_id(
        &orders(
            r#"{"payload":{"success":true,"data":[{"client_order_id":"client","order_id":"645954"}]}}"#,
        ),
        "client",
    )
    .unwrap();
    let short = open_order_exchange_id(
        &orders(r#"{"payload":{"success":true,"data":[{"I":"client","i":645955}]}}"#),
        "client",
    )
    .unwrap();

    assert_eq!(rest, Some(645954));
    assert_eq!(short, Some(645955));
}

#[test]
fn exchange_id_is_the_first_that_can_be_read() {
    let id = |text: &str| open_order_exchange_id(&orders(text), "c").unwrap();

    assert_eq!(id(r#"{"data":[{"coid":"d","i":1},{"coid":"c","id":2},{"coid":"c","id":3}]}"#), Some(2));
    assert_eq!(id(r#"{"data":[{"coid":"c","order_id":"x","orderId":1.5,"exchange_order_id":"+7"}]}"#), Some(7));
    assert_eq!(id(r#"{"data":[{"coid":"c","order_id":18446744073709551615,"i":-4}]}"#), Some(-4));
    assert_eq!(id(r#"{"data":[{"coid":"c"}]}"#), None);
    assert_eq!(id(r#"{"data":[{"coid":1,"I":"c","i":5}]}"#), None);
    assert_eq!(id(r#"{"data":[]}"#), None);
}

#[test]
fn payload_is_a_member_or_the_whole() {
    let part = |text: &str| print_json(parse_rest_payload(text).unwrap());

    assert_eq!(part(r#"{"payload":{"data":[]},"x":1}"#), r#"{"data":[]}"#);
    assert_eq!(part(r#"{"data":[]}"#), r#"{"data":[]}"#);
    assert_eq!(part(r#"{"payload":null}"#), "null");
    let expected = serde_json::from_str::<serde_json::Value>("[").unwrap_err().to_string();
    assert!(matches!(parse_rest_payload("["), Err(SanityError::Json(error)) if error == expected));
}

#[test]
fn market_is_found_by_its_symbol() {
    let info = |symbol: &str, tick: &str, lot: &str, least: &str| MarketInfo {
        symbol: symbol.to_string(),
        tick_size: numeric(tick),
        lot_size: numeric(lot),
        min_order_size: numeric(least),
    };
    let markets = |data| Ok(RestPayload { success: Some(true), data });

    let found = parse_market_info_for_symbol(
        markets(vec![info("ETH", "x", "x", "x"), info("BTC", "1", "0.00001", "10")]),
        "BTC",
    )
    .unwrap();
    assert_eq!(found, market());
    let fault = |payload| parse_market_info_for_symbol(payload, "BTC").unwrap_err().message();
    assert_eq!(fault(markets(vec![])), "market: missing market info for symbol: BTC");
    assert_eq!(
        fault(markets(vec![info("BTC", "1", "y", "z")])),
        "market: invalid numeric field lot_size: y"
    );
    assert_eq!(fault(Err("no".to_string())), "json: no");
}

#[test]
fn book_is_the_data_of_its_answer() {
    let found = parse_book(Ok(RestPayload { success: None, data: book() })).unwrap();
    assert_eq!(found.symbol, "BTC");
    assert_eq!(found.timestamp_ms, 1);
    assert!(matches!(parse_book(Err("no".to_string())), Err(SanityError::Json(_))));
}

#[test]
fn endpoints_have_one_slash() {
    let config = Config { rest_url: "https://host/x//".to_string(), ..Config::default() };
    assert_eq!(endpoint(&config, "/api/v1/info"), "https://host/x/api/v1/info");
}

#[test]
fn answers_count_where_their_status_is_success() {
    assert_eq!(get_text("/p", Ok((true, "body".to_string()))).unwrap(), "body");
    assert_eq!(
        get_text("/p", Ok((false, "body".to_string()))).unwrap_err().message(),
        "market: /p failed: body"
    );
    assert_eq!(get_text("/p", Err("down".to_string())).unwrap_err().message(), "http: down");
}

#[test]
fn sanity_orders_follow_the_plan() {
    let plan = plan();

    let order = sanity_order(1, 99500, &plan);
    assert_eq!(order.order_id, 1);
    assert_eq!(order.price_tick, 99500);
    assert_eq!(order.qty, plan.amount);
    assert_eq!(order.leaves_qty, plan.amount);
    assert_eq!(order.side, Side::Buy);
    assert_eq!(order.order_type, OrdType::Limit);
    assert_eq!(order.time_in_force, TimeInForce::GTX);
    assert_eq!((order.req, order.status), (Status::New, Status::Unset));
    let replacement = sanity_replacement_order(1, 99499, &plan);
    assert_eq!(replacement.price_tick, 99499);
    assert_eq!((replacement.req, replacement.status), (Status::Replaced, Status::New));
}

#[test]
fn marking_an_order_open_needs_the_order() {
    let plan = plan();
    let mut manager = OrderManager::new("pfhbt-");
    let order = sanity_order(1, 99500, &plan);
    let text = QuoteText { price: "99500".to_string(), amount: "1".to_string() };
    let id = manager.new_order("BTC", order, &text).unwrap().client_order_id;

    assert!(mark_order_open(&mut manager, &plan, "99500", &id, Some(7), 1).is_ok());
    assert!(matches!(
        mark_order_open(&mut manager, &plan, "99500", "other", None, 1),
        Err(SanityError::Market(_))
    ));
}

#[test]
fn residual_orders_are_shown_as_a_list() {
    let ids = vec!["a\"".to_string(), "b".to_string()];
    let expected = format!("residual sanity client order ids remain open: {ids:?}");
    assert_eq!(SanityError::ResidualOrders(ids).message(), expected);
}

#[test]
fn sanity_errors_have_words() {
    assert_eq!(SanityError::Config("x".to_string()).message(), "config: x");
    assert_eq!(SanityError::ReadConfig("x".to_string()).message(), "read config: x");
    assert_eq!(
        SanityError::InvalidConfig(ConfigError::Missing("account")).message(),
        format!("invalid config: {}", ConfigError::Missing("account").message())
    );
    assert_eq!(
        SanityError::MissingExecute.message(),
        "sanity refuses to submit without --execute"
    );
    assert_eq!(
        SanityError::NonTestnet.message(),
        "sanity refuses non-testnet config without --allow-non-testnet"
    );
    assert_eq!(SanityError::Trade(TradeError::Timeout).message(), "trade: order request timed out");
}

fn executing() -> SanityArgs {
    SanityArgs { execute: true, settle_millis: 750, ..args() }
}

fn loaded(file: Result<Result<Config, String>, String>) -> SanityInput {
    SanityInput::Config {
        file,
        home: None,
        api_key_file: Err("no file".to_string()),
        private_key_file: Err("no file".to_string()),
    }
}

fn markets_answer() -> SanityInput {
    SanityInput::Market(Ok(Ok(RestPayload {
        success: Some(true),
        data: vec![MarketInfo {
            symbol: "BTC".to_string(),
            tick_size: numeric("1"),
            lot_size: numeric("0.00001"),
            min_order_size: numeric("10"),
        }],
    })))
}

fn book_answer() -> SanityInput {
    SanityInput::Book(Ok(Ok(RestPayload { success: Some(true), data: book() })))
}

fn open_answer(id: &str, exchange_id: i64) -> SanityInput {
    SanityInput::Orders(Ok(orders(&format!(
        r#"{{"success":true,"data":[{{"client_order_id":"{id}","order_id":{exchange_id}}}]}}"#
    ))))
}

fn submitted() -> (SanityRun, String) {
    let (mut run, action) = SanityRun::new(executing());
    assert!(matches!(action, SanityAction::LoadConfig(path) if path == "config.toml"));

    let SanityAction::Get { url, path, query } = run.step(loaded(Ok(Ok(testnet_config()))), quote)
    else {
        panic!("expected a request");
    };
    assert_eq!(url, endpoint(&testnet_config(), "/api/v1/info"));
    assert_eq!(path, "/api/v1/info");
    assert_eq!(query, None);
    assert_eq!(run.config().account, "acct");

    let SanityAction::Get { url, path, query } = run.step(markets_answer(), quote) else {
        panic!("expected a request");
    };
    assert_eq!(url, endpoint(&testnet_config(), "/api/v1/book"));
    assert_eq!(path, "/api/v1/book");
    assert_eq!(query, Some(("symbol", "BTC".to_string())));

    let SanityAction::Quote(shown) = run.step(book_answer(), quote) else {
        panic!("expected a plan");
    };
    assert_eq!(shown, plan());

    let SanityAction::Submit(create) = run.step(SanityInput::Ticks(ticks(&shown)), quote) else {
        panic!("expected an order");
    };
    assert_eq!(create.symbol, "BTC");
    assert_eq!(create.side, "bid");
    assert_eq!(create.price, "99500");
    (run, create.client_order_id)
}

#[test]
fn sanity_run_places_changes_and_cancels() {
    let (mut run, id) = submitted();

    let action = run.step(SanityInput::Traded(Ok(())), quote);
    assert!(matches!(action, SanityAction::Sleep(750)));
    let SanityAction::Get { path, query, .. } = run.step(SanityInput::Slept, quote) else {
        panic!("expected a request");
    };
    assert_eq!(path, "/api/v1/orders");
    assert_eq!(query, Some(("account", "acct".to_string())));
    let SanityAction::Edit(edit) = run.step(open_answer(&id, 7), quote) else {
        panic!("expected a change");
    };
    assert_eq!(edit.client_order_id, id);
    assert_eq!(edit.price, "99499");

    assert!(matches!(run.step(SanityInput::Traded(Ok(())), quote), SanityAction::Sleep(750)));
    assert!(matches!(run.step(SanityInput::Slept, quote), SanityAction::Get { .. }));
    let SanityAction::Cancel(cancel) = run.step(open_answer(&id, 8), quote) else {
        panic!("expected a cancel");
    };
    assert_eq!(cancel.client_order_id, id);
    assert_eq!(cancel.symbol, "BTC");

    assert!(matches!(run.step(SanityInput::Traded(Ok(())), quote), SanityAction::Sleep(750)));
    assert!(matches!(run.step(SanityInput::Slept, quote), SanityAction::Get { .. }));
    let SanityAction::Finish(Ok(summary)) =
        run.step(SanityInput::Orders(Ok(orders(r#"{"data":[]}"#))), quote)
    else {
        panic!("expected the end");
    };
    assert_eq!(
        summary,
        SanitySummary {
            creates_ok: 1,
            edits_ok: 1,
            cancels_ok: 1,
            residual_client_order_ids: vec![],
            edited_client_order_id: Some(id),
            edited_exchange_order_id: Some(8),
        }
    );
}

#[test]
fn sanity_run_fails_where_the_order_is_left_over() {
    let (mut run, id) = submitted();
    for _ in 0..2 {
        run.step(SanityInput::Traded(Ok(())), quote);
        run.step(SanityInput::Slept, quote);
        run.step(open_answer(&id, 7), quote);
    }
    run.step(SanityInput::Traded(Ok(())), quote);
    run.step(SanityInput::Slept, quote);

    let action = run.step(open_answer(&id, 7), quote);

    assert!(matches!(
        action,
        SanityAction::Finish(Err(SanityError::ResidualOrders(ids))) if ids == vec![id]
    ));
}

#[test]
fn sanity_run_ends_with_the_first_failure() {
    let (mut run, _) = submitted();
    assert!(matches!(
        run.step(SanityInput::Traded(Err(TradeError::Timeout)), quote),
        SanityAction::Finish(Err(SanityError::Trade(TradeError::Timeout)))
    ));
    assert!(matches!(run.step(SanityInput::Slept, quote), SanityAction::Wait));

    let end = |input: SanityInput| {
        let (mut run, _) = SanityRun::new(executing());
        let SanityAction::Finish(Err(error)) = run.step(input, quote) else {
            panic!("expected the end");
        };
        error.message()
    };
    assert_eq!(end(loaded(Err("gone".to_string()))), "read config: gone");
    assert_eq!(end(loaded(Ok(Err("bad".to_string())))), "config: bad");
    assert_eq!(
        end(loaded(Ok(Ok(mainnet_config())))),
        "sanity refuses non-testnet config without --allow-non-testnet"
    );
    assert_eq!(
        end(loaded(Ok(Ok(Config { order_prefix: String::new(), ..testnet_config() })))),
        format!("invalid config: {}", ConfigError::Missing("order_prefix").message())
    );

    let (mut run, _) = SanityRun::new(executing());
    run.step(loaded(Ok(Ok(testnet_config()))), quote);
    assert!(matches!(
        run.step(SanityInput::Market(Err(SanityError::Http("down".to_string()))), quote),
        SanityAction::Finish(Err(SanityError::Http(_)))
    ));
}

#[test]
fn sanity_run_passes_over_what_it_does_not_expect() {
    let (mut run, _) = SanityRun::new(executing());
    assert!(matches!(run.step(SanityInput::Slept, quote), SanityAction::Wait));
    assert!(matches!(run.step(book_answer(), quote), SanityAction::Wait));
    assert!(matches!(
        run.step(loaded(Ok(Ok(testnet_config()))), quote),
        SanityAction::Get { .. }
    ));
}

#[test]
fn wrapped_answer_is_read_like_a_bare_one() {
    let bare = r#"{"success":false,"data":{"s":"BTC","l":[],"t":1}}"#;
    let wrapped = format!(r#"{{"payload":{bare}}}"#);

    assert_eq!(
        print_json(parse_rest_payload(bare).unwrap()),
        print_json(parse_rest_payload(&wrapped).unwrap())
    );
    for success in [None, Some(false), Some(true)] {
        let found = parse_book(Ok(RestPayload { success, data: book() })).unwrap();
        assert_eq!(found.symbol, "BTC");
        assert_eq!(found.levels.len(), 2);
        assert_eq!(found.levels[0][0].price.text, "100000");
        assert_eq!(found.timestamp_ms, 1);
    }
}
