use polyfill::batch::BatchDecoder;
use polyfill::deserializers::{
    datetime_from_timestamp, decimal_from_any, decimal_from_string, number_from_string,
    optional_datetime_from_timestamp, optional_decimal_from_string,
    optional_decimal_from_string_default_on_error, optional_number_from_string, vec_from_null,
    ValueErrorKind,
};
use polyfill::fast_parse::{json_fast_from_parts, parse_address, parse_decimal, parse_json_fast, parse_json_fast_owned, parse_side, parse_u256};
use polyfill::json::{JsonNumber, JsonValue};
use polyfill::raw::{
    Decoder, RawBookLevel, RawMarketResponse, RawOrderBookResponse, RawOrderResponse, RawToken,
    RawTradeResponse,
};
use polyfill::stream::{parse_stream_messages, parse_stream_messages_bytes, StreamMessage};
use polyfill::types::{OrderStatus, OrderType, PolyfillError, Side};
use polyfill::values::{Decimal, UtcDateTime, MAX_UTC_TIMESTAMP, MIN_UTC_TIMESTAMP};

fn d(m: i128, s: u32) -> Decimal {
    Decimal { mantissa: m, scale: s }
}

fn text(s: &str) -> JsonValue {
    JsonValue::String(s.to_string())
}

fn whole(n: u64) -> JsonValue {
    JsonValue::Number(JsonNumber { as_u64: Some(n), text: n.to_string() })
}

fn float(t: &str) -> JsonValue {
    JsonValue::Number(JsonNumber { as_u64: None, text: t.to_string() })
}

fn parse_message(e: &PolyfillError) -> String {
    match e {
        PolyfillError::Parse { message } => message.clone(),
        PolyfillError::Json { .. } => panic!("expected a parse error"),
    }
}

// ---------------------------------------------------------------- framing

#[test]
fn frames_follow_braces_outside_strings() {
    let mut decoder = BatchDecoder::new();
    let data = br#"{"a":"}{"}{"b":{"c":"\"}"}}  {"d":1"#;
    let frames = decoder.take_frames(data);
    assert_eq!(frames.len(), 2);
    assert_eq!(frames[0], br#"{"a":"}{"}"#.to_vec());
    assert_eq!(frames[1], br#"{"b":{"c":"\"}"}}"#.to_vec());
    // the kept tail completes with the next call
    let frames = decoder.take_frames(b"}");
    assert_eq!(frames.len(), 1);
    assert_eq!(frames[0], br#"  {"d":1}"#.to_vec());
    assert!(decoder.take_frames(b"").is_empty());
}

#[test]
fn frames_and_tail_rebuild_the_input() {
    let mut decoder = BatchDecoder::new();
    let data = br#"{"x":1} {"y":[1,2]} {"z":"#;
    let frames = decoder.take_frames(data);
    let mut rebuilt: Vec<u8> = frames.concat();
    assert_eq!(frames.len(), 2);
    // the tail is handed out once it is complete
    let rest = decoder.take_frames(b"3}");
    assert_eq!(rest.len(), 1);
    rebuilt.extend_from_slice(&rest[0]);
    assert_eq!(rebuilt, br#"{"x":1} {"y":[1,2]} {"z":3}"#.to_vec());
}

#[test]
fn a_stray_closing_brace_does_not_end_a_frame() {
    let mut decoder = BatchDecoder::default();
    // depth goes to -1 at the first `}`, back to 0 at `{`, and -1 again: no frame
    let frames = decoder.take_frames(b"}{}");
    assert!(frames.is_empty());
    // a further `}` takes it to -2; only when depth climbs to 1 can a `}` close a frame
    assert!(decoder.take_frames(b"}").is_empty());
    assert!(decoder.take_frames(b"{{}").is_empty());
    let frames = decoder.take_frames(b"{{}");
    assert_eq!(frames.len(), 1);
    assert_eq!(frames[0], b"}{}}{{}{{}".to_vec());
}

#[test]
fn parse_json_stream_skips_frames_that_are_not_json() {
    let mut decoder = BatchDecoder::new();
    let results = decoder.parse_json_stream(br#"{"ok":1}{bad}{"ok":2}"#).unwrap();
    assert_eq!(results.len(), 2);
    match &results[1] {
        JsonValue::Object(m) => {
            assert_eq!(m[0].0, "ok");
            match &m[0].1 {
                JsonValue::Number(n) => assert_eq!(n.as_u64, Some(2)),
                _ => panic!("expected a number"),
            }
        },
        _ => panic!("expected an object"),
    }
}

// ---------------------------------------------------------------- fields

#[test]
fn number_from_string_reads_numbers_and_text() {
    assert_eq!(number_from_string(&whole(42)).unwrap(), 42);
    assert_eq!(number_from_string(&text("1700000000")).unwrap(), 1700000000);
    assert_eq!(number_from_string(&text("+7")).unwrap(), 7);
    assert_eq!(number_from_string(&text("18446744073709551615")).unwrap(), u64::MAX);
    assert_eq!(number_from_string(&float("1.5")).unwrap_err().kind, ValueErrorKind::FailedToDeserializeNumber);
    assert_eq!(number_from_string(&float("-3")).unwrap_err().kind, ValueErrorKind::FailedToDeserializeNumber);
    for bad in ["", "-1", " 1", "1_000", "18446744073709551616", "+"] {
        let e = number_from_string(&text(bad)).unwrap_err();
        assert_eq!(e.kind, ValueErrorKind::ParseFailed, "for {bad:?}");
        assert!(!e.detail.is_empty());
    }
    assert_eq!(number_from_string(&JsonValue::Null).unwrap_err().kind, ValueErrorKind::ExpectedNumberOrString);
    assert_eq!(number_from_string(&JsonValue::Bool(true)).unwrap_err().kind, ValueErrorKind::ExpectedNumberOrString);
}

#[test]
fn optional_number_is_absent_for_null_and_empty_text() {
    assert_eq!(optional_number_from_string(&JsonValue::Null).unwrap(), None);
    assert_eq!(optional_number_from_string(&text("")).unwrap(), None);
    assert_eq!(optional_number_from_string(&text("12")).unwrap(), Some(12));
    assert_eq!(optional_number_from_string(&whole(5)).unwrap(), Some(5));
    assert_eq!(optional_number_from_string(&text(" ")).unwrap_err().kind, ValueErrorKind::ParseFailed);
    assert_eq!(
        optional_number_from_string(&JsonValue::Array(vec![])).unwrap_err().kind,
        ValueErrorKind::ExpectedNumberStringOrNull
    );
}

#[test]
fn datetime_from_timestamp_covers_chronos_range() {
    let t = datetime_from_timestamp(&whole(1431648000)).unwrap();
    assert_eq!(t, UtcDateTime { timestamp: 1431648000 });
    let last = datetime_from_timestamp(&whole(MAX_UTC_TIMESTAMP as u64)).unwrap();
    assert_eq!(last.timestamp, MAX_UTC_TIMESTAMP);
    assert_eq!(
        datetime_from_timestamp(&whole(MAX_UTC_TIMESTAMP as u64 + 1)).unwrap_err().kind,
        ValueErrorKind::InvalidTimestamp
    );
    // seconds are taken as a signed number: this is the first representable second
    let wrapped = MIN_UTC_TIMESTAMP as u64;
    assert_eq!(datetime_from_timestamp(&whole(wrapped)).unwrap().timestamp, MIN_UTC_TIMESTAMP);
    assert_eq!(datetime_from_timestamp(&whole(wrapped - 1)).unwrap_err().kind, ValueErrorKind::InvalidTimestamp);
    assert_eq!(datetime_from_timestamp(&JsonValue::Null).unwrap_err().kind, ValueErrorKind::ExpectedNumberOrString);
    // the bounds agree with chrono
    assert!(chrono::DateTime::from_timestamp(MAX_UTC_TIMESTAMP, 0).is_some());
    assert!(chrono::DateTime::from_timestamp(MAX_UTC_TIMESTAMP + 1, 0).is_none());
    assert!(chrono::DateTime::from_timestamp(MIN_UTC_TIMESTAMP, 0).is_some());
    assert!(chrono::DateTime::from_timestamp(MIN_UTC_TIMESTAMP - 1, 0).is_none());
}

#[test]
fn optional_datetime_is_absent_with_the_number() {
    assert_eq!(optional_datetime_from_timestamp(&JsonValue::Null).unwrap(), None);
    assert_eq!(optional_datetime_from_timestamp(&text("")).unwrap(), None);
    assert_eq!(
        optional_datetime_from_timestamp(&text("1700000000")).unwrap(),
        Some(UtcDateTime { timestamp: 1700000000 })
    );
    assert_eq!(
        optional_datetime_from_timestamp(&text("9000000000000")).unwrap_err().kind,
        ValueErrorKind::InvalidTimestamp
    );
}

#[test]
fn vec_from_null_reads_null_as_empty() {
    assert!(vec_from_null::<u8>(None).is_empty());
    assert_eq!(vec_from_null(Some(vec![1, 2, 3])), vec![1, 2, 3]);
}

#[test]
fn optional_decimal_trims_text_and_reads_numbers() {
    assert_eq!(optional_decimal_from_string(&JsonValue::Null).unwrap(), None);
    assert_eq!(optional_decimal_from_string(&text("   ")).unwrap(), None);
    assert_eq!(optional_decimal_from_string(&text("  1.50 ")).unwrap(), Some(d(150, 2)));
    assert_eq!(optional_decimal_from_string(&float("2.5")).unwrap(), Some(d(25, 1)));
    assert_eq!(optional_decimal_from_string(&whole(7)).unwrap(), Some(d(7, 0)));
    assert_eq!(optional_decimal_from_string(&text("abc")).unwrap_err().kind, ValueErrorKind::ParseFailed);
    assert_eq!(
        optional_decimal_from_string(&JsonValue::Bool(false)).unwrap_err().kind,
        ValueErrorKind::UnexpectedDecimalJson
    );
}

#[test]
fn default_on_error_agrees_with_the_strict_reading() {
    for v in [JsonValue::Null, text(""), text(" 3.25 "), float("0.1"), text("abc"), JsonValue::Bool(true)] {
        let lenient = optional_decimal_from_string_default_on_error(&v).unwrap();
        match optional_decimal_from_string(&v) {
            Ok(x) => assert_eq!(lenient, x),
            Err(_) => assert_eq!(lenient, None),
        }
    }
}

#[test]
fn decimal_from_string_requires_a_value() {
    assert_eq!(decimal_from_string(&text("0.65")).unwrap(), d(65, 2));
    assert_eq!(decimal_from_string(&JsonValue::Null).unwrap_err().kind, ValueErrorKind::MissingDecimal);
    assert_eq!(decimal_from_string(&text(" ")).unwrap_err().kind, ValueErrorKind::MissingDecimal);
    // the reading that accepts any text agrees where the strict one succeeds
    assert_eq!(decimal_from_any(&text("0.65")).unwrap(), d(65, 2));
}

#[test]
fn decimal_from_any_reads_text_and_numbers_only() {
    assert_eq!(decimal_from_any(&text(" 12.5")).unwrap(), d(125, 1));
    assert_eq!(decimal_from_any(&float("0.25")).unwrap(), d(25, 2));
    assert_eq!(decimal_from_any(&text("")).unwrap_err().kind, ValueErrorKind::ParseFailed);
    assert_eq!(
        decimal_from_any(&JsonValue::Null).unwrap_err().kind,
        ValueErrorKind::ExpectedStringOrNumberForDecimal
    );
}

// ---------------------------------------------------------------- fast_parse

#[test]
fn parse_decimal_reports_the_crates_error() {
    assert_eq!(parse_decimal("-0.001").unwrap(), d(-1, 3));
    assert_eq!(parse_decimal("1e2").unwrap(), d(100, 0));
    let e = parse_decimal("1.2.3").unwrap_err();
    assert!(parse_message(&e).starts_with("Invalid decimal: "));
}

#[test]
fn parse_address_reads_forty_hex_digits() {
    let hex = "00112233445566778899aabbccddeeffAABBCCDD";
    let expected: [u8; 20] = [
        0x00, 0x11, 0x22, 0x33, 0x44, 0x55, 0x66, 0x77, 0x88, 0x99, 0xaa, 0xbb, 0xcc, 0xdd, 0xee, 0xff, 0xaa,
        0xbb, 0xcc, 0xdd,
    ];
    assert_eq!(parse_address(hex).unwrap().bytes, expected);
    assert_eq!(parse_address(&format!("0x{hex}")).unwrap().bytes, expected);
    assert_eq!(parse_address(&format!("0X{hex}")).unwrap().bytes, expected);
    for bad in [&hex[1..], "0x", "", "0x00112233445566778899aabbccddeeffaabbccdg"] {
        let e = parse_address(bad).unwrap_err();
        assert!(parse_message(&e).starts_with("Invalid address: "), "for {bad:?}");
    }
}

#[test]
fn parse_u256_reads_decimal_digits() {
    let v = parse_u256("1_000").unwrap();
    assert_eq!(v.limbs, [1000, 0, 0, 0]);
    assert_eq!(parse_u256("").unwrap().limbs, [0, 0, 0, 0]);
    assert_eq!(parse_u256("18446744073709551616").unwrap().limbs, [0, 1, 0, 0]);
    let max = "115792089237316195423570985008687907853269984665640564039457584007913129639935";
    assert_eq!(parse_u256(max).unwrap().limbs, [u64::MAX; 4]);
    let over = "115792089237316195423570985008687907853269984665640564039457584007913129639936";
    assert!(parse_message(&parse_u256(over).unwrap_err()).starts_with("Invalid U256: "));
    assert!(parse_message(&parse_u256("12a").unwrap_err()).starts_with("Invalid U256: "));
    assert!(parse_u256("-1").is_err());
}

#[test]
fn parse_side_uppercases_first() {
    assert_eq!(parse_side("Buy").unwrap(), Side::BUY);
    assert_eq!(parse_side("bUy").unwrap(), Side::BUY);
    assert_eq!(parse_message(&parse_side("hold").unwrap_err()), "Invalid side: hold");
    assert!(parse_side(" BUY").is_err());
}

#[test]
fn parse_json_fast_parses_and_reports_errors() {
    match parse_json_fast_owned(br#"{"a":[1,true,null]}"#).unwrap() {
        JsonValue::Object(m) => {
            assert_eq!(m.len(), 1);
            assert!(matches!(&m[0].1, JsonValue::Array(a) if a.len() == 3));
        },
        _ => panic!("expected an object"),
    }
    let e = parse_json_fast_owned(b"{not json").unwrap_err();
    assert!(parse_message(&e).starts_with("JSON parse error: "));
    let mut buf = b"[1, 2]".to_vec();
    assert!(matches!(parse_json_fast(&mut buf).unwrap(), JsonValue::Array(a) if a.len() == 2));
    assert_eq!(buf.len(), 6);
}

// ---------------------------------------------------------------- raw responses

fn order(status: &str, created_at: u64, expiration: u64) -> RawOrderResponse {
    RawOrderResponse {
        id: "o1".to_string(),
        status: status.to_string(),
        market: "m".to_string(),
        asset_id: "asset".to_string(),
        maker_address: "maker".to_string(),
        owner: "owner".to_string(),
        outcome: "Yes".to_string(),
        order_type: OrderType::GTC,
        side: Side::BUY,
        original_size: d(1050, 2),
        price: d(5, 1),
        size_matched: d(225, 2),
        expiration,
        created_at,
    }
}

#[test]
fn order_book_keeps_levels_in_order() {
    let raw = RawOrderBookResponse {
        market: "m".to_string(),
        asset_id: "token".to_string(),
        hash: "h".to_string(),
        timestamp: 1700000000,
        bids: vec![RawBookLevel { price: d(5, 1), size: d(10, 0) }, RawBookLevel { price: d(4, 1), size: d(3, 0) }],
        asks: vec![RawBookLevel { price: d(6, 1), size: d(1, 0) }],
    };
    let book = raw.decode().unwrap();
    assert_eq!(book.token_id, "token");
    assert_eq!(book.timestamp.timestamp, 1700000000);
    assert_eq!(book.bids.len(), 2);
    assert_eq!(book.bids[1].price, d(4, 1));
    assert_eq!(book.asks[0].size, d(1, 0));
    assert_eq!(book.sequence, 0);
    let bad = RawOrderBookResponse { timestamp: 9_000_000_000_000, ..raw };
    assert_eq!(parse_message(&bad.decode().unwrap_err()), "Invalid timestamp");
}

#[test]
fn order_decodes_status_times_and_remaining_size() {
    for (word, status) in [
        ("LIVE", OrderStatus::Live),
        ("CANCELLED", OrderStatus::Cancelled),
        ("FILLED", OrderStatus::Filled),
        ("PARTIAL", OrderStatus::Partial),
        ("EXPIRED", OrderStatus::Expired),
    ] {
        let o = order(word, 1700000000, 0).decode().unwrap();
        assert_eq!(o.status, status);
        assert_eq!(o.remaining_size, d(825, 2));
        assert_eq!(o.filled_size, d(225, 2));
        assert_eq!(o.created_at, o.updated_at);
        assert_eq!(o.expiration, None);
        assert!(o.client_id.is_none());
        assert_eq!(o.token_id, "asset");
    }
    let o = order("LIVE", 1700000000, 1800000000).decode().unwrap();
    assert_eq!(o.expiration, Some(UtcDateTime { timestamp: 1800000000 }));
    assert_eq!(parse_message(&order("live", 1, 0).decode().unwrap_err()), "Unknown order status: live");
    assert_eq!(
        parse_message(&order("LIVE", 9_000_000_000_000, 0).decode().unwrap_err()),
        "Invalid created_at timestamp"
    );
    assert_eq!(
        parse_message(&order("LIVE", 1, 9_000_000_000_000).decode().unwrap_err()),
        "Invalid expiration timestamp"
    );
}

#[test]
fn order_decode_checked_reports_overflow() {
    let max = polyfill::values::DECIMAL_MAX_MANTISSA;
    let mut raw = order("LIVE", 1, 0);
    raw.original_size = d(max, 0);
    raw.size_matched = d(-max, 0);
    assert!(raw.decode_checked().is_none());
    // where the checks fail first, the error comes back as before
    raw.status = "NOPE".to_string();
    assert!(matches!(raw.decode_checked(), Some(Err(_))));
    let ok = order("FILLED", 1, 0);
    assert_eq!(ok.decode_checked().unwrap().unwrap().remaining_size, d(825, 2));
}

fn trade(maker: &str, taker: &str, timestamp: u64) -> RawTradeResponse {
    RawTradeResponse {
        id: "t".to_string(),
        market: "m".to_string(),
        asset_id: "asset".to_string(),
        side: Side::SELL,
        price: d(65, 2),
        size: d(10, 0),
        maker_address: maker.to_string(),
        taker_address: taker.to_string(),
        timestamp,
    }
}

#[test]
fn trade_decodes_addresses_in_order() {
    let a = "0x1111111111111111111111111111111111111111";
    let b = "0x2222222222222222222222222222222222222222";
    let fill = trade(a, b, 1700000000).decode().unwrap();
    assert_eq!(fill.maker_address.bytes, [0x11; 20]);
    assert_eq!(fill.taker_address.bytes, [0x22; 20]);
    assert_eq!(fill.order_id, "");
    assert_eq!(fill.fee, d(0, 0));
    assert_eq!(fill.side, Side::SELL);
    assert_eq!(parse_message(&trade(a, b, 9_000_000_000_000).decode().unwrap_err()), "Invalid trade timestamp");
    assert!(parse_message(&trade("nope", "nope", 1).decode().unwrap_err()).starts_with("Invalid maker address: "));
    assert!(parse_message(&trade(a, "nope", 1).decode().unwrap_err()).starts_with("Invalid taker address: "));
}

#[test]
fn market_fills_defaults_and_slug() {
    let raw = RawMarketResponse {
        condition_id: "0xcond".to_string(),
        tokens: [
            RawToken { token_id: "1".to_string(), outcome: "Yes".to_string() },
            RawToken { token_id: "2".to_string(), outcome: "No".to_string() },
        ],
        active: true,
        closed: false,
        question: "Q?".to_string(),
        description: "desc".to_string(),
        category: Some("politics".to_string()),
        end_date_iso: None,
        minimum_order_size: d(5, 0),
        minimum_tick_size: d(1, 2),
    };
    let m = raw.decode().unwrap();
    assert_eq!(m.market_slug, "market-0xcond");
    assert_eq!(m.question_id, "0xcond");
    assert_eq!(m.tokens[1].outcome, "No");
    assert_eq!(m.tokens[0].price, d(0, 0));
    assert_eq!(m.rewards.max_spread, d(1, 0));
    assert_eq!(m.category.as_deref(), Some("politics"));
    assert!(m.active && !m.closed && !m.neg_risk);
    assert_eq!(m.minimum_tick_size, d(1, 2));
    assert_eq!(m.icon, "");
}

// ---------------------------------------------------------------- stream

#[test]
fn stream_ignores_unknown_and_untyped_objects() {
    assert!(parse_stream_messages(r#"{"event_type":"heartbeat"}"#).unwrap().is_empty());
    assert!(parse_stream_messages(r#"{"no_type":1}"#).unwrap().is_empty());
    assert!(parse_stream_messages(r#"{"event_type":5}"#).unwrap().is_empty());
    assert!(parse_stream_messages("42").unwrap().is_empty());
    assert!(matches!(parse_stream_messages("not json"), Err(PolyfillError::Json { .. })));
}

#[test]
fn stream_keeps_the_members_of_other_kinds() {
    let msgs = parse_stream_messages(r#"{"event_type":"book","asset_id":"x"}"#).unwrap();
    assert_eq!(msgs.len(), 1);
    match &msgs[0] {
        StreamMessage::Book(m) => assert_eq!(m.len(), 2),
        _ => panic!("expected a book message"),
    }
}

#[test]
fn a_single_bad_trade_is_an_error() {
    let json = r#"{"event_type":"trade","id":"t","market":"m","asset_id":"a","side":"HOLD","size":"1","price":"1"}"#;
    assert!(matches!(parse_stream_messages(json), Err(PolyfillError::Json { .. })));
}

#[test]
fn batches_skip_what_they_cannot_read() {
    let json = br#"[
        {"event_type":"trade","id":"t1","market":"m","asset_id":"a","side":"BUY","size":"1","price":"0.5"},
        {"event_type":"trade","id":"bad","market":"m","asset_id":"a","side":"BUY","size":"x","price":"0.5"},
        {"event_type":"mystery"},
        7,
        {"event_type":"order","id":"o"},
        {"event_type":"trade","id":"t2","market":"m","asset_id":"a","side":"SELL","size":"2","price":"0.5","status":"mined"}
    ]"#;
    let msgs = parse_stream_messages_bytes(json).unwrap();
    assert_eq!(msgs.len(), 3);
    assert!(matches!(&msgs[0], StreamMessage::Trade(t) if t.id == "t1"));
    assert!(matches!(&msgs[1], StreamMessage::Order(_)));
    match &msgs[2] {
        StreamMessage::Trade(t) => {
            assert_eq!(t.id, "t2");
            assert_eq!(t.status, polyfill::stream::TradeMessageStatus::Mined);
            assert_eq!(t.size, d(2, 0));
        },
        _ => panic!("expected a trade"),
    }
    assert!(parse_stream_messages_bytes(b"[]").unwrap().is_empty());
}

// ---------------------------------------------------------------- added laws and helpers

#[test]
fn white_space_list_matches_std() {
    let listed = |u: u32| {
        (0x09..=0x0d).contains(&u)
            || u == 0x20
            || u == 0x85
            || u == 0xa0
            || u == 0x1680
            || (0x2000..=0x200a).contains(&u)
            || u == 0x2028
            || u == 0x2029
            || u == 0x202f
            || u == 0x205f
            || u == 0x3000
    };
    for u in 0..=0x10ffffu32 {
        if let Some(c) = char::from_u32(u) {
            assert_eq!(c.is_whitespace(), listed(u), "U+{u:04X}");
        }
    }
    // blank text, non-breaking and ideographic spaces included, is an absent decimal
    assert_eq!(optional_decimal_from_string(&text("\u{a0}\t\u{3000} ")).unwrap(), None);
    assert_eq!(decimal_from_string(&text("")).unwrap_err().kind, ValueErrorKind::MissingDecimal);
}

#[test]
fn number_parse_errors_read_as_stds() {
    for bad in ["", "+", "-1", "1a", "99999999999999999999", "99999999999999999999x", "1 "] {
        let e = number_from_string(&text(bad)).unwrap_err();
        assert_eq!(e.detail, bad.parse::<u64>().unwrap_err().to_string(), "for {bad:?}");
    }
    assert_eq!(number_from_string(&text("+0018446744073709551615")).unwrap(), u64::MAX);
    assert_eq!(number_from_string(&text("1é")).unwrap_err().kind, ValueErrorKind::ParseFailed);
}

#[test]
fn chunking_does_not_change_the_frames() {
    let data = br#"{"a":"}"} {"b":[{"c":1}]}{"d":"\""}"#;
    for cut in 0..=data.len() {
        let mut split = BatchDecoder::new();
        let mut frames = split.take_frames(&data[..cut]);
        frames.extend(split.take_frames(&data[cut..]));
        let mut once = BatchDecoder::new();
        assert_eq!(frames, once.take_frames(data), "cut at {cut}");
        // and what is held afterwards behaves the same
        assert_eq!(split.take_frames(b"{}"), once.take_frames(b"{}"));
    }
}

#[test]
fn a_batch_reads_as_its_elements_read_alone() {
    let elements = [
        r#"{"event_type":"trade","id":"t1","market":"m","asset_id":"a","side":"BUY","size":"1","price":"0.5"}"#,
        r#"{"event_type":"trade","id":"t2","market":"m","asset_id":"a","side":"NONE","size":"1","price":"0.5"}"#,
        r#"{"event_type":"book","asset_id":"b"}"#,
    ];
    let batch = format!("[{}]", elements.join(","));
    let joined: Vec<StreamMessage> = elements
        .iter()
        .flat_map(|e| parse_stream_messages(e).unwrap_or_default())
        .collect();
    let read = parse_stream_messages(&batch).unwrap();
    assert_eq!(read.len(), joined.len());
    assert_eq!(read.len(), 2);
    assert!(matches!((&read[0], &joined[0]), (StreamMessage::Trade(x), StreamMessage::Trade(y)) if x.id == y.id));
    assert!(matches!((&read[1], &joined[1]), (StreamMessage::Book(x), StreamMessage::Book(y)) if x.len() == y.len()));
}

#[test]
fn checked_remaining_size_is_the_exact_difference() {
    assert_eq!(order("LIVE", 1, 0).checked_remaining_size(), Some(d(825, 2)));
    let mut raw = order("LIVE", 1, 0);
    raw.original_size = d(3, 0);
    raw.size_matched = d(5, 0);
    assert_eq!(raw.checked_remaining_size(), Some(d(-2, 0)));
    // different scales: rust_decimal aligns them
    raw.size_matched = d(15, 1);
    assert_eq!(raw.checked_remaining_size(), Some(d(15, 1)));
    let max = polyfill::values::DECIMAL_MAX_MANTISSA;
    raw.original_size = d(max, 0);
    raw.size_matched = d(-1, 0);
    assert_eq!(raw.checked_remaining_size(), None);
}

#[test]
fn fast_parse_falls_back_on_the_given_bytes() {
    // where the SIMD parser gave nothing, serde_json reads the input
    assert!(matches!(json_fast_from_parts(None, b"[1]").unwrap(), JsonValue::Array(a) if a.len() == 1));
    assert!(parse_message(&json_fast_from_parts(None, b"[1").unwrap_err()).starts_with("JSON parse error: "));
    // where it gave a document, that document is the result
    assert!(matches!(json_fast_from_parts(Some(JsonValue::Null), b"[1]").unwrap(), JsonValue::Null));
    // text with an escape that serde_json refuses fails; text it accepts parses
    let mut bad = br#"["a\nb\q"]"#.to_vec();
    assert!(parse_json_fast(&mut bad).is_err());
    let mut good = br#"["a\nb"]"#.to_vec();
    assert!(matches!(parse_json_fast(&mut good).unwrap(), JsonValue::Array(a) if a.len() == 1));
}
