use mcp_client::json::{put, JsonValue, Member};
use mcp_client::json_text::{parse, render};

fn member(key: &str, value: JsonValue) -> Member {
    Member { key: key.to_string(), value }
}

#[test]
fn parse_reads_every_kind_of_value() {
    let value = parse(r#"{"n":null,"t":true,"i":-3,"u":18446744073709551615,"s":"x","a":[1,"two"],"o":{"k":0}}"#)
        .unwrap();
    assert!(value.get("n").unwrap().is_null());
    assert_eq!(value.get("t").unwrap().as_bool(), Some(true));
    assert_eq!(value.get("i"), Some(&JsonValue::Int(-3)));
    assert_eq!(value.get("u"), Some(&JsonValue::UInt(18446744073709551615)));
    assert_eq!(value.get("u").unwrap().as_i64(), None);
    assert_eq!(value.get("s").unwrap().as_text(), Some("x"));
    let items = value.get("a").unwrap().as_array().unwrap();
    assert_eq!(items.len(), 2);
    assert_eq!(items[0], JsonValue::Int(1));
    assert_eq!(items[1], JsonValue::Text("two".to_string()));
    assert_eq!(value.get("o").unwrap().get("k"), Some(&JsonValue::Int(0)));
    assert_eq!(value.get("missing"), None);
}

#[test]
fn parse_refuses_what_is_not_json() {
    for text in ["", "{", "{\"a\":}", "[1,]", "nul", "{\"a\":1} x"] {
        let error = parse(text).unwrap_err();
        assert!(matches!(error, mcp_client::error::ClientError::Serialization(_)));
    }
}

#[test]
fn parse_keeps_the_digits_of_a_decimal() {
    let value = parse("[1.5, -0.25, 1e-7, 2.0]").unwrap();
    let items = value.as_array().unwrap();
    let digits: Vec<&str> = items
        .iter()
        .map(|item| match item {
            JsonValue::Decimal(d) => d.digits(),
            other => panic!("not a decimal: {:?}", other),
        })
        .collect();
    assert_eq!(digits, vec!["1.5", "-0.25", "1e-7", "2.0"]);
}

#[test]
fn render_writes_compact_text_with_sorted_keys() {
    let mut members = Vec::new();
    put(&mut members, "b", JsonValue::Int(2));
    put(&mut members, "a", JsonValue::Array(vec![JsonValue::Null, JsonValue::Bool(false)]));
    put(&mut members, "c", JsonValue::text("line\nfeed"));
    let text = render(&JsonValue::Object(members)).unwrap();
    assert_eq!(text, r#"{"a":[null,false],"b":2,"c":"line\nfeed"}"#);
    assert!(!text.contains('\n'));
}

#[test]
fn render_keeps_the_last_of_two_entries_with_one_key() {
    let value = JsonValue::Object(vec![
        member("k", JsonValue::Int(1)),
        member("k", JsonValue::Int(2)),
    ]);
    assert_eq!(value.get("k"), Some(&JsonValue::Int(2)));
    assert_eq!(render(&value).unwrap(), r#"{"k":2}"#);
}

#[test]
fn text_round_trip_gives_the_value_back() {
    let text = r#"{"a":[1,2.5,"x",{"y":null}],"big":18446744073709551615,"neg":-9223372036854775808,"t":true}"#;
    let value = parse(text).unwrap();
    assert_eq!(render(&value).unwrap(), text);
    assert_eq!(parse(&render(&value).unwrap()).unwrap(), value);
}

#[test]
fn render_agrees_with_serde_json() {
    let text = r#" { "z" : [ 1 , 2 ] , "a" : { "n" : -1.25e3 , "s" : "q\"uote" } } "#;
    let ours = render(&parse(text).unwrap()).unwrap();
    let theirs = serde_json::to_string(&serde_json::from_str::<serde_json::Value>(text).unwrap()).unwrap();
    assert_eq!(ours, theirs);
}

#[test]
fn integers_read_as_i64_where_they_fit() {
    assert_eq!(JsonValue::Int(-5).as_i64(), Some(-5));
    assert_eq!(JsonValue::UInt(5).as_i64(), Some(5));
    assert_eq!(JsonValue::UInt(9223372036854775807).as_i64(), Some(i64::MAX));
    assert_eq!(JsonValue::UInt(9223372036854775808).as_i64(), None);
    assert_eq!(JsonValue::text("5").as_i64(), None);
    assert_eq!(parse("5.0").unwrap().as_i64(), None);
}

#[test]
fn clone_copies_the_whole_value() {
    let value = parse(r#"{"a":[1,{"b":[2.5,"x"]}],"c":null}"#).unwrap();
    assert_eq!(value.clone(), value);
}

#[test]
fn accessors_refuse_other_kinds() {
    let value = JsonValue::Int(1);
    assert_eq!(value.get("a"), None);
    assert_eq!(value.as_text(), None);
    assert_eq!(value.as_bool(), None);
    assert!(value.as_array().is_none());
    assert!(!value.is_null());
    assert_eq!(JsonValue::empty_object(), JsonValue::Object(vec![]));
}

#[test]
fn decimals_are_written_back_as_they_were_read() {
    for text in [
        "0.1",
        "-0.0",
        "1e-7",
        "1.5e300",
        "1.7976931348623157e308",
        "5e-324",
        "2.2250738585072014e-308",
        "0.30000000000000004",
        "9007199254740993.0",
        "123456.789",
    ] {
        let value = parse(text).unwrap();
        assert!(matches!(value, JsonValue::Decimal(_)), "{}", text);
        let written = render(&value).unwrap();
        let theirs =
            serde_json::to_string(&serde_json::from_str::<serde_json::Value>(text).unwrap()).unwrap();
        assert_eq!(written, theirs, "{}", text);
        assert_eq!(parse(&written).unwrap(), parse(&theirs).unwrap(), "{}", text);
        let again = render(&parse(&written).unwrap()).unwrap();
        assert_eq!(again, written, "{}", text);
    }
}

#[test]
fn integers_keep_their_kind() {
    for text in ["0", "-1", "9223372036854775807", "9223372036854775808", "18446744073709551615", "-9223372036854775808"] {
        let value = parse(text).unwrap();
        assert!(matches!(value, JsonValue::Int(_) | JsonValue::UInt(_)), "{}", text);
        assert_eq!(render(&value).unwrap(), text);
    }
    assert_eq!(render(&JsonValue::UInt(7)).unwrap(), "7");
    assert_eq!(parse("7").unwrap(), JsonValue::Int(7));
    assert!(matches!(parse("18446744073709551616").unwrap(), JsonValue::Decimal(_)));
}

#[test]
fn strings_keep_every_character() {
    let text = "quote \" backslash \\ line\nfeed tab\t nul \u{0} snowman \u{2603} astral \u{1F600}";
    let value = JsonValue::text(text);
    let written = render(&value).unwrap();
    assert!(!written.contains('\n'));
    assert_eq!(parse(&written).unwrap(), value);
    let mut members = Vec::new();
    put(&mut members, text, JsonValue::Null);
    let object = JsonValue::Object(members);
    let written = render(&object).unwrap();
    assert!(!written.contains('\n'));
    assert_eq!(parse(&written).unwrap(), object);
}

#[test]
fn every_decimal_reads_back_from_its_digits() {
    let mut state: u64 = 0x9e3779b97f4a7c15;
    let mut checked = 0;
    while checked < 20000 {
        state = state.wrapping_mul(6364136223846793005).wrapping_add(1442695040888963407);
        let number = f64::from_bits(state);
        if !number.is_finite() {
            continue;
        }
        checked += 1;
        let text = serde_json::to_string(&number).unwrap();
        let value = parse(&text).unwrap();
        match &value {
            JsonValue::Decimal(d) => assert_eq!(d.digits(), text),
            other => panic!("not a decimal: {:?}", other),
        }
        assert_eq!(render(&value).unwrap(), text);
        assert_eq!(render(&value.clone()).unwrap(), text);
    }
}

#[test]
fn render_writes_no_carriage_return() {
    let value = JsonValue::Array(vec![JsonValue::text("\r"), JsonValue::text("a\r\nb")]);
    let text = render(&value).unwrap();
    assert_eq!(text, r#"["\r","a\r\nb"]"#);
    assert!(!text.contains('\r') && !text.contains('\n'));
}
