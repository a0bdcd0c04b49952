use pacifica::binary64::{read_number, Binary64, NumericText};
use pacifica::json::{parse_json, print_json, set_member, show_json, Json, JsonNumber};
use pacifica::keyed::KeyedMap;
use pacifica::symbols::SymbolSet;
use pacifica::text::{
    contains, decimal_text, is_blank, is_white_space, parse_i64, signed_decimal_text,
    starts_with_char, strip_prefix, text_less, trim, trim_end_slashes, trim_start,
};
use pacifica::types::{
    fits, ms_to_ns, OrdType, Order, Side, Status, TimeInForce, LOCAL_ASK_DEPTH_BBO_EVENT,
    LOCAL_ASK_DEPTH_EVENT, LOCAL_ASK_DEPTH_SNAPSHOT_EVENT, LOCAL_BID_DEPTH_BBO_EVENT,
    LOCAL_BID_DEPTH_EVENT, LOCAL_BID_DEPTH_SNAPSHOT_EVENT, LOCAL_BUY_TRADE_EVENT,
    LOCAL_SELL_TRADE_EVENT,
};
use pacifica::uuid::{uuid_of_bytes, uuid_v4};

#[test]
fn white_space_is_that_of_unicode() {
    for c in '\0'..=char::MAX {
        assert_eq!(is_white_space(c), c.is_whitespace());
    }
}

#[test]
fn trimming_takes_white_space_off_both_ends() {
    for text in ["", " ", "a", " a", "a ", "\t a b\u{3000}\n", "\u{a0}\u{e9}\u{2003}", "\u{200b} x"] {
        assert_eq!(trim(text), text.trim());
        assert_eq!(trim_start(text), text.trim_start());
        assert_eq!(is_blank(text), text.trim().is_empty());
    }
}

#[test]
fn end_slashes_are_taken_off() {
    for text in ["", "/", "//", "a", "a/", "/a//", "https://x/\u{e9}/"] {
        assert_eq!(trim_end_slashes(text), text.trim_end_matches('/'));
    }
}

#[test]
fn texts_are_searched_and_stripped() {
    for text in ["", "a", "ab", "aab", "test-", "wss://test-ws", "tes-", "ttest-"] {
        for pattern in ["", "a", "ab", "test-", "b"] {
            assert_eq!(contains(text, pattern), text.contains(pattern));
            assert_eq!(
                strip_prefix(text, pattern),
                text.strip_prefix(pattern).map(String::from)
            );
        }
        assert_eq!(starts_with_char(text, 'a'), text.starts_with('a'));
    }
}

#[test]
fn texts_are_in_the_order_of_std() {
    let texts = ["", "a", "aa", "ab", "b", "B", "\u{e9}", "\u{10000}", "\u{ffff}", "a\u{ffff}"];
    for a in texts {
        for b in texts {
            assert_eq!(text_less(a, b), a < b);
        }
    }
}

#[test]
fn integers_are_read_and_written_as_in_std() {
    for text in [
        "",
        "+",
        "-",
        "0",
        "-0",
        "+0",
        "007",
        "12x",
        "1 ",
        "--1",
        "9223372036854775807",
        "9223372036854775808",
        "-9223372036854775808",
        "-9223372036854775809",
        "00000000000000000000000000001",
        "\u{663}",
        "1.0",
    ] {
        assert_eq!(parse_i64(text), text.parse::<i64>().ok());
    }
    for n in [0, 7, 10, 1749223025962, u64::MAX] {
        assert_eq!(decimal_text(n), n.to_string());
    }
    for n in [0, -1, 10, i64::MIN, i64::MAX] {
        assert_eq!(signed_decimal_text(n), n.to_string());
    }
}

#[test]
fn numbers_compare_as_their_bits_say() {
    let values = [
        0.0,
        -0.0,
        1.0,
        -1.0,
        f64::EPSILON,
        f64::EPSILON * 2.0,
        -f64::EPSILON,
        f64::MIN_POSITIVE,
        5e-324,
        f64::INFINITY,
        f64::NEG_INFINITY,
        f64::NAN,
        -f64::NAN,
    ];
    for value in values {
        let number = Binary64 { bits: value.to_bits() };
        assert_eq!(number.is_zero(), value == 0.0);
        assert_eq!(number.is_positive(), value > 0.0);
        assert_eq!(number.is_at_most_epsilon(), value <= f64::EPSILON);
        assert_eq!(number.negated().bits, (-value).to_bits());
        assert_eq!(number.negated().negated(), number);
    }
    assert_eq!(Binary64::zero().bits, 0f64.to_bits());
}

#[test]
fn field_without_a_number_is_a_fault() {
    let one = Binary64 { bits: 1f64.to_bits() };
    let number = NumericText { text: "1".to_string(), value: Some(one) };
    assert_eq!(read_number("size", &number).unwrap(), one);
    let fault =
        read_number("size", &NumericText { text: "one".to_string(), value: None }).unwrap_err();
    assert_eq!((fault.field, fault.value.as_str()), ("size", "one"));
}

#[test]
fn json_is_read_and_printed_by_serde_json() {
    for text in [
        "null",
        "true",
        "-1",
        "18446744073709551615",
        "1.5",
        "1e300",
        r#""a\n\"é""#,
        "[]",
        "[1,[2],{}]",
        r#"{"b":1,"a":{"d":[],"c":null},"B":"x"}"#,
        r#"{"a":1,"a":2}"#,
    ] {
        let value: serde_json::Value = serde_json::from_str(text).unwrap();
        let read = parse_json(text).unwrap();
        assert_eq!(print_json(read.copy()), value.to_string());
        assert_eq!(show_json(read), format!("{value:?}"));
    }
    for text in ["", "{", "[1,]", "01", "nul"] {
        let error = serde_json::from_str::<serde_json::Value>(text).unwrap_err().to_string();
        assert_eq!(parse_json(text).unwrap_err(), error);
    }
}

#[test]
fn json_members_are_found_by_their_name() {
    let value = parse_json(r#"{"n":5,"t":"x","u":18446744073709551615,"l":[1],"z":null}"#).unwrap();

    assert_eq!(value.get("n").unwrap().as_i64(), Some(5));
    assert_eq!(value.i64_member("n"), Some(5));
    assert_eq!(value.i64_member("u"), None);
    assert_eq!(value.i64_member("t"), None);
    assert_eq!(value.str_member("t").as_deref(), Some("x"));
    assert_eq!(value.str_member("n"), None);
    assert_eq!(value.get("l").unwrap().as_array().unwrap().len(), 1);
    assert!(matches!(value.get("z"), Some(Json::Null)));
    assert!(value.get("missing").is_none());
    assert!(parse_json("[1]").unwrap().get("n").is_none());
}

#[test]
fn members_are_set_in_the_order_of_their_names() {
    let mut members: Vec<(String, Json)> = Vec::new();
    for (name, n) in [("b", 1), ("a", 2), ("c", 3), ("b", 4)] {
        set_member(&mut members, name.to_string(), Json::Number(JsonNumber::Int(n)));
    }

    assert_eq!(print_json(Json::Object(members)), r#"{"a":2,"b":4,"c":3}"#);
}

#[test]
fn keyed_map_holds_one_value_per_key() {
    let mut map: KeyedMap<String, i64> = KeyedMap::new();
    map.insert("a".to_string(), 1);
    map.insert("b".to_string(), 2);
    map.insert("a".to_string(), 3);

    assert_eq!(map.len(), 2);
    assert_eq!(map.get(&"a".to_string()), Some(&3));
    assert!(map.contains_key(&"b".to_string()));
    assert_eq!(map.remove(&"a".to_string()), Some(3));
    assert_eq!(map.remove(&"a".to_string()), None);
    assert_eq!(map.get(&"a".to_string()), None);
    assert_eq!(map.entry(0), &("b".to_string(), 2));
}

#[test]
fn symbols_are_kept_once_and_in_order() {
    let mut symbols = SymbolSet::new();
    assert!(symbols.insert("ETH".to_string()));
    assert!(symbols.insert("BTC".to_string()));
    assert!(!symbols.insert("ETH".to_string()));

    assert_eq!(symbols.len(), 2);
    assert_eq!(symbols.symbol(0), "BTC");
    assert_eq!(symbols.symbol(1), "ETH");
    assert!(symbols.contains("ETH"));
    assert!(!symbols.contains("eth"));
}

#[test]
fn events_have_the_marks_of_the_backtester() {
    assert_eq!(LOCAL_BID_DEPTH_EVENT, hftbacktest::types::LOCAL_BID_DEPTH_EVENT);
    assert_eq!(LOCAL_ASK_DEPTH_EVENT, hftbacktest::types::LOCAL_ASK_DEPTH_EVENT);
    assert_eq!(LOCAL_BID_DEPTH_SNAPSHOT_EVENT, hftbacktest::types::LOCAL_BID_DEPTH_SNAPSHOT_EVENT);
    assert_eq!(LOCAL_ASK_DEPTH_SNAPSHOT_EVENT, hftbacktest::types::LOCAL_ASK_DEPTH_SNAPSHOT_EVENT);
    assert_eq!(LOCAL_BID_DEPTH_BBO_EVENT, hftbacktest::types::LOCAL_BID_DEPTH_BBO_EVENT);
    assert_eq!(LOCAL_ASK_DEPTH_BBO_EVENT, hftbacktest::types::LOCAL_ASK_DEPTH_BBO_EVENT);
    assert_eq!(LOCAL_BUY_TRADE_EVENT, hftbacktest::types::LOCAL_BUY_TRADE_EVENT);
    assert_eq!(LOCAL_SELL_TRADE_EVENT, hftbacktest::types::LOCAL_SELL_TRADE_EVENT);
}

#[test]
fn new_order_is_that_of_the_backtester() {
    let number = |value: f64| Binary64 { bits: value.to_bits() };
    let order =
        Order::new(42, 100, number(0.5), number(2.0), Side::Sell, OrdType::Limit, TimeInForce::GTX);
    let other = hftbacktest::types::Order::new(
        42,
        100,
        0.5,
        2.0,
        hftbacktest::types::Side::Sell,
        hftbacktest::types::OrdType::Limit,
        hftbacktest::types::TimeInForce::GTX,
    );

    assert_eq!(order.order_id, other.order_id);
    assert_eq!(order.price_tick, other.price_tick);
    assert_eq!(order.qty, number(other.qty));
    assert_eq!(order.leaves_qty, number(other.leaves_qty));
    assert_eq!(order.exec_qty, number(other.exec_qty));
    assert_eq!(order.exec_price_tick, other.exec_price_tick);
    assert_eq!(order.tick_size, number(other.tick_size));
    assert_eq!(order.exch_timestamp, other.exch_timestamp);
    assert_eq!(order.local_timestamp, other.local_timestamp);
    assert_eq!(order.maker, other.maker);
    assert_eq!(other.req, hftbacktest::types::Status::None);
    assert_eq!(order.req, Status::Unset);
    assert_eq!(other.status, hftbacktest::types::Status::None);
    assert_eq!(order.status, Status::Unset);
    for (status, name) in [
        (Status::Unset, hftbacktest::types::Status::None),
        (Status::New, hftbacktest::types::Status::New),
        (Status::PartiallyFilled, hftbacktest::types::Status::PartiallyFilled),
        (Status::Filled, hftbacktest::types::Status::Filled),
        (Status::Canceled, hftbacktest::types::Status::Canceled),
    ] {
        let mut ours = order;
        let mut theirs = other.clone();
        ours.status = status;
        theirs.status = name;
        assert_eq!(ours.active(), theirs.active());
    }
}

#[test]
fn milliseconds_become_nanoseconds() {
    assert_eq!(ms_to_ns(1780919672102), 1_780_919_672_102_000_000);
    assert_eq!(ms_to_ns(-1), -1_000_000);
    for ms in [0, 1, -1, 9_223_372_036_854, 9_223_372_036_855, -9_223_372_036_854, i64::MIN, i64::MAX] {
        assert_eq!(fits(ms), ms.checked_mul(1_000_000).is_some());
    }
    assert!(!fits(9_223_372_036_855));
}

#[test]
fn uuid_marks_its_version_and_variant() {
    assert_eq!(uuid_of_bytes(vec![0u8; 16]), "00000000-0000-4000-8000-000000000000");
    assert_eq!(uuid_of_bytes(vec![0xffu8; 16]), "ffffffff-ffff-4fff-bfff-ffffffffffff");
    let bytes: Vec<u8> = (0..16).map(|i| i * 16 + 10).collect();
    assert_eq!(uuid_of_bytes(bytes), "0a1a2a3a-4a5a-4a7a-8a9a-aabacadaeafa");
    assert_ne!(uuid_v4(), uuid_v4());
}

#[test]
fn values_of_serde_json_go_back_and_forth() {
    for text in ["null", "-1", "18446744073709551615", "0.1", r#"{"b":[1.5,"x"],"a":{}}"#] {
        let value: serde_json::Value = serde_json::from_str(text).unwrap();
        let json = Json::from_value(value.clone());
        assert_eq!(print_json(json.copy()), value.to_string());
        assert_eq!(json.into_value(), value);
    }
}
