use nova_opensearch::error_chain::{flatten, ErrorChain};
use nova_opensearch::json::{Json, JsonNumber, JsonObject};
use nova_opensearch::text::{decimal_text, parse_u64, same_text, sorts_before};

fn text(s: &str) -> Json {
    Json::Text(s.to_string())
}

#[test]
fn text_agrees_with_serde_json() {
    let awkward = "a \"quoted\" back\\slash, a\nnewline, a\ttab, \u{1} and \u{7f}, é and 😀";
    let mut o = JsonObject::new();
    o.insert("z".to_string(), Json::Null);
    o.insert(awkward.to_string(), text(awkward));
    o.insert("é".to_string(), Json::Bool(false));
    o.insert("".to_string(), Json::Array(vec![]));
    o.insert(
        "n".to_string(),
        Json::Array(vec![
            Json::Number(JsonNumber::PosInt(u64::MAX)),
            Json::Number(JsonNumber::NegInt(i64::MIN)),
            Json::Number(JsonNumber::Float("2.5".to_string())),
            Json::Object(JsonObject::new()),
        ]),
    );
    let got = Json::Object(o).to_text();

    let mut m = serde_json::Map::new();
    m.insert("z".to_string(), serde_json::Value::Null);
    m.insert(awkward.to_string(), serde_json::Value::from(awkward));
    m.insert("é".to_string(), serde_json::Value::from(false));
    m.insert("".to_string(), serde_json::Value::Array(vec![]));
    m.insert(
        "n".to_string(),
        serde_json::Value::Array(vec![
            serde_json::Value::from(u64::MAX),
            serde_json::Value::from(i64::MIN),
            serde_json::Value::from(2.5),
            serde_json::Value::Object(serde_json::Map::new()),
        ]),
    );
    assert_eq!(got, serde_json::Value::Object(m).to_string());
}

#[test]
fn quotes_are_added_and_escaped() {
    assert_eq!(text("plain").to_text(), "\"plain\"");
    assert_eq!(text("a\"b").to_text(), "\"a\\\"b\"");
}

#[test]
fn members_are_replaced_and_found() {
    let mut o = JsonObject::new();
    for k in ["b", "a", "c", "b"] {
        o.insert(k.to_string(), text(k));
    }
    o.insert("a".to_string(), Json::Null);
    assert_eq!(o.len(), 3);
    assert!(o.get("a").unwrap().is_null());
    assert!(o.get("d").is_none());
    let keys: Vec<&str> = (0..o.len()).map(|i| o.entry(i).0).collect();
    assert_eq!(keys, ["a", "b", "c"]);
    let j = Json::Object(o);
    assert_eq!(j.index("b").as_str(), Some("b"));
    assert!(j.index("x").index("y").is_null());
    assert!(text("a").index("a").is_null());
}

#[test]
fn values_are_read_by_kind() {
    let n = Json::Number(JsonNumber::PosInt(7));
    assert_eq!(n.as_u64(), Some(7));
    assert_eq!(n.as_i64(), Some(7));
    assert!(n.as_number().is_some());
    assert!(n.as_str().is_none() && n.as_bool().is_none() && n.as_array().is_none());
    let big = Json::Number(JsonNumber::PosInt(1 << 63));
    assert_eq!(big.as_i64(), None);
    let negative = Json::Number(JsonNumber::NegInt(-7));
    assert_eq!(negative.as_u64(), None);
    assert_eq!(negative.as_i64(), Some(-7));
    let float = Json::Number(JsonNumber::Float("1.0".to_string()));
    assert_eq!(float.as_u64(), None);
    assert_eq!(float.as_i64(), None);
    assert_eq!(Json::Bool(true).as_bool(), Some(true));
    assert_eq!(Json::Array(vec![Json::Null]).as_array().unwrap().len(), 1);
}

#[test]
fn equality_goes_by_kind_and_value() {
    let float = |t: &str| Json::Number(JsonNumber::Float(t.to_string()));
    assert!(float("0.0").same(&float("-0.0")));
    assert!(!float("1.0").same(&Json::Number(JsonNumber::PosInt(1))));
    assert!(!float("1.0").same(&float("1.5")));
    assert!(!Json::Array(vec![Json::Null]).same(&Json::Array(vec![])));
    assert!(Json::Array(vec![text("x")]).same(&Json::Array(vec![text("x")])));
    let mut a = JsonObject::new();
    a.insert("k".to_string(), text("1"));
    let mut b = JsonObject::new();
    b.insert("l".to_string(), text("1"));
    assert!(!Json::Object(a).same(&Json::Object(b)));
}

#[test]
fn numbers_are_written_and_read_in_decimal() {
    assert_eq!(decimal_text(0), "0");
    assert_eq!(decimal_text(u64::MAX), "18446744073709551615");
    assert_eq!(parse_u64("18446744073709551615"), Some(u64::MAX));
    assert_eq!(parse_u64("18446744073709551616"), None);
    assert_eq!(parse_u64("99999999999999999999999"), None);
    for s in ["", "+", "-1", "+0012", " 1", "1 ", "1_0", "é", "007", "++1"] {
        assert_eq!(parse_u64(s), s.parse::<u64>().ok(), "{s}");
    }
}

#[test]
fn texts_are_compared_as_strings_are() {
    let all = ["", "a", "ab", "b", "é", "z", "\u{ffff}", "😀"];
    for a in all {
        for b in all {
            assert_eq!(same_text(a, b), a == b);
            assert_eq!(sorts_before(a, b), a < b);
        }
    }
}

#[test]
fn causes_are_joined() {
    let e = ErrorChain {
        message: "error sending request".to_string(),
        sources: vec!["connect".to_string(), "refused".to_string()],
    };
    assert_eq!(flatten(&e), "error sending request: connect: refused");
}
