use pacifica::account_state::{
    max_li_from_text, tracked_symbols_from_positions_text, AccountPosition, AccountPositionsFrame,
    AccountState, AccountStateError,
};
use pacifica::binary64::{Binary64, NumericText};
use pacifica::symbols::SymbolSet;
use pacifica::types::LiveEvent;

fn number(value: f64) -> Binary64 {
    Binary64 { bits: value.to_bits() }
}

fn numeric(text: &str) -> NumericText {
    NumericText { text: text.to_string(), value: text.parse::<f64>().ok().map(number) }
}

fn frame(text: &str) -> Result<AccountPositionsFrame, String> {
    let value: serde_json::Value = serde_json::from_str(text).map_err(|error| error.to_string())?;
    let mut data = Vec::new();
    for item in value["data"].as_array().ok_or("missing field `data`")? {
        data.push(AccountPosition {
            symbol: item["s"].as_str().unwrap().to_string(),
            amount: numeric(item["a"].as_str().unwrap()),
            side: item["d"].as_str().unwrap().to_string(),
            timestamp_ms: item["t"].as_i64().unwrap(),
        });
    }
    Ok(AccountPositionsFrame { data, last_increment_id: value["li"].as_i64() })
}

fn open_position() -> Result<AccountPositionsFrame, String> {
    frame(
        r#"{"channel":"account_positions","data":[{"a":"0.0002","d":"bid","f":"0","i":false,"l":null,"m":"0","p":"63441","s":"BTC","t":1780919672151}],"li":336542010}"#,
    )
}

fn followed<const N: usize>(symbols: [&str; N]) -> SymbolSet {
    let mut set = SymbolSet::new();
    for symbol in symbols {
        set.insert(symbol.to_string());
    }
    set
}

fn assert_position(event: &LiveEvent, expected_symbol: &str, expected_qty: f64, expected_ts: i64) {
    let LiveEvent::Position { symbol, qty, exch_ts } = event else {
        panic!("expected position event");
    };
    assert_eq!(symbol, expected_symbol);
    assert_eq!(f64::from_bits(qty.bits), expected_qty);
    assert_eq!(*exch_ts, expected_ts);
}

fn qty(state: &AccountState, symbol: &str) -> Option<f64> {
    state.position_qty(symbol).map(|qty| f64::from_bits(qty.bits))
}

#[test]
fn account_state_initializes_from_positions_snapshot() {
    let mut state = AccountState::new();
    let followed = followed(["BTC"]);
    let events = state.apply_positions_text(&open_position(), &followed).unwrap();

    assert_eq!(events.len(), 1);
    assert_eq!(qty(&state, "BTC"), Some(0.0002));
    assert!(state.position_initialized("BTC"));
}

#[test]
fn empty_positions_snapshot_emits_flat_for_tracked_symbol() {
    let mut state = AccountState::new();
    let followed = followed(["BTC"]);
    let events = state
        .apply_positions_text(
            &frame(r#"{"channel":"account_positions","data":[],"li":42}"#),
            &followed,
        )
        .unwrap();

    assert_eq!(events.len(), 1);
    assert_position(&events[0], "BTC", 0.0, 42_000_000);
    assert_eq!(qty(&state, "BTC"), Some(0.0));
}

#[test]
fn empty_positions_snapshot_closes_previous_position_with_monotonic_timestamp() {
    let mut state = AccountState::new();
    let followed = followed(["BTC"]);
    state.apply_positions_text(&open_position(), &followed).unwrap();
    let events = state
        .apply_positions_text(
            &frame(r#"{"channel":"account_positions","data":[],"li":336542133}"#),
            &followed,
        )
        .unwrap();

    assert_eq!(events.len(), 1);
    assert_position(&events[0], "BTC", 0.0, 1_780_919_672_151_000_001);
}

#[test]
fn omitted_symbol_emits_flat_after_initialization() {
    let mut state = AccountState::new();
    let followed = followed(["BTC", "ETH"]);
    let events = state.apply_positions_text(&open_position(), &followed).unwrap();

    assert_eq!(events.len(), 2);
    assert_position(&events[0], "BTC", 0.0002, 1_780_919_672_151_000_000);
    assert_position(&events[1], "ETH", 0.0, 336_542_010_000_000);
}

#[test]
fn unknown_symbol_is_not_emitted_or_flattened() {
    let mut state = AccountState::new();
    let events = state.apply_positions_text(&open_position(), &SymbolSet::new()).unwrap();

    assert!(events.is_empty());
    assert!(!state.position_initialized("BTC"));
}

#[test]
fn stale_position_li_is_ignored() {
    let mut state = AccountState::new();
    let followed = followed(["BTC"]);
    state.apply_positions_text(&open_position(), &followed).unwrap();
    let events = state
        .apply_positions_text(
            &frame(
                r#"{"channel":"account_positions","data":[{"a":"1","d":"ask","s":"BTC","t":1780919673000}],"li":336542009}"#,
            ),
            &followed,
        )
        .unwrap();

    assert!(events.is_empty());
    assert_eq!(qty(&state, "BTC"), Some(0.0002));
}

#[test]
fn equal_li_is_accepted_for_same_exchange_event() {
    let mut state = AccountState::new();

    assert!(state.accept_frame_li(Some(10)));
    assert!(state.accept_frame_li(Some(10)));
    assert!(!state.accept_frame_li(Some(9)));
}

#[test]
fn missing_li_uses_explicit_accept_without_advancing_ordering() {
    let mut state = AccountState::new();

    assert!(state.accept_frame_li(None));
    assert!(state.accept_frame_li(Some(10)));
    assert!(state.accept_frame_li(None));
    assert!(!state.accept_frame_li(Some(9)));
}

#[test]
fn max_li_uses_top_level_and_data_items() {
    let text = r#"{"channel":"account_order_updates","li":2,"data":[{"li":3},{"li":1}]}"#;

    assert_eq!(max_li_from_text(text).unwrap(), Some(3));
}

#[test]
fn max_li_is_none_without_increments_and_fails_on_bad_text() {
    assert_eq!(max_li_from_text(r#"{"data":[{"x":1},{"li":"7"},{"li":1.5}]}"#).unwrap(), None);
    assert_eq!(max_li_from_text(r#"{"data":7,"li":-4}"#).unwrap(), Some(-4));
    assert_eq!(max_li_from_text(r#"{"li":18446744073709551615}"#).unwrap(), None);
    let error = max_li_from_text("{").unwrap_err();
    assert!(matches!(error, AccountStateError::Json(_)));
    assert!(error.message().starts_with("json: EOF while parsing an object"));
}

#[test]
fn short_positions_are_negative_and_the_last_report_counts() {
    let mut state = AccountState::new();
    let followed = followed(["BTC"]);
    let events = state
        .apply_positions_text(
            &frame(
                r#"{"data":[{"a":"2","d":"bid","s":"BTC","t":5},{"a":"0.5","d":"ask","s":"BTC","t":6}],"li":1}"#,
            ),
            &followed,
        )
        .unwrap();

    assert_eq!(events.len(), 2);
    assert_position(&events[0], "BTC", 2.0, 5_000_000);
    assert_position(&events[1], "BTC", -0.5, 6_000_000);
    assert_eq!(qty(&state, "BTC"), Some(-0.5));
}

#[test]
fn bad_amount_stops_a_message_after_the_earlier_positions() {
    let mut state = AccountState::new();
    let followed = followed(["BTC", "ETH", "SOL"]);
    let error = state
        .apply_positions_text(
            &frame(
                r#"{"data":[{"a":"1","d":"bid","s":"BTC","t":5},{"a":"x","d":"bid","s":"ETH","t":5},{"a":"1","d":"bid","s":"SOL","t":5}],"li":1}"#,
            ),
            &followed,
        )
        .unwrap_err();

    assert_eq!(error.message(), "invalid numeric field position_amount: x");
    assert!(state.position_initialized("BTC"));
    assert!(!state.position_initialized("ETH"));
    assert!(!state.position_initialized("SOL"));
    assert!(!state.accept_frame_li(Some(0)));
}

#[test]
fn bad_amount_of_an_untracked_symbol_is_passed_over() {
    let mut state = AccountState::new();
    let events = state
        .apply_positions_text(
            &frame(r#"{"data":[{"a":"x","d":"bid","s":"DOGE","t":9223372036854775807}],"li":1}"#),
            &followed(["BTC"]),
        )
        .unwrap();

    assert_eq!(events.len(), 1);
    assert_position(&events[0], "BTC", 0.0, 1_000_000);
}

#[test]
fn flat_is_told_only_once() {
    let mut state = AccountState::new();
    let followed = followed(["BTC"]);
    let empty = frame(r#"{"data":[],"li":42}"#);

    assert_eq!(state.apply_positions_text(&empty, &followed).unwrap().len(), 1);
    assert!(state.apply_positions_text(&empty, &followed).unwrap().is_empty());
}

#[test]
fn unreadable_message_is_a_json_error() {
    let mut state = AccountState::new();
    let error = state
        .apply_positions_text(&Err("expected value".to_string()), &SymbolSet::new())
        .unwrap_err();

    assert_eq!(error.message(), "json: expected value");
}

#[test]
fn tracked_symbols_are_those_of_the_message() {
    let symbols = tracked_symbols_from_positions_text(&frame(
        r#"{"data":[{"a":"1","d":"bid","s":"ETH","t":5},{"a":"1","d":"bid","s":"BTC","t":5},{"a":"1","d":"bid","s":"ETH","t":5}]}"#,
    ))
    .unwrap();

    assert_eq!(symbols.len(), 2);
    assert_eq!(symbols.symbol(0), "BTC");
    assert_eq!(symbols.symbol(1), "ETH");
    assert!(tracked_symbols_from_positions_text(&Err("bad".to_string())).is_err());
}

#[test]
fn flat_is_not_told_again_by_the_same_message() {
    let mut state = AccountState::new();
    let followed = followed(["BTC", "ETH"]);

    let first = state.apply_positions_text(&open_position(), &followed).unwrap();
    let second = state.apply_positions_text(&open_position(), &followed).unwrap();

    assert_eq!(first.len(), 2);
    assert_position(&first[1], "ETH", 0.0, 336542010000000);
    assert_eq!(second.len(), 1);
    assert_position(&second[0], "BTC", 0.0002, 1780919672151000000);
}
