use monday_claim::json::Json;

#[test]
fn parse_reads_an_object_member() {
    let tree = Json::parse("{\"text\":\"A\",\"n\":7}").unwrap();
    assert_eq!(tree.get("text").unwrap().as_str(), Some("A"));
    assert_eq!(tree.get("n").unwrap().as_i64(), Some(7));
    assert!(tree.get("missing").is_none());
}

#[test]
fn parse_refuses_broken_text() {
    let error = Json::parse("{\"text\":").unwrap_err();
    assert_eq!(error.message, "EOF while parsing a value at line 1 column 8");
    assert_eq!(error.text, "{\"text\":");
    let error = Json::parse("[1,]").unwrap_err();
    assert_eq!(error.message, "trailing comma at line 1 column 4");
}

#[test]
fn parse_refuses_trailing_characters() {
    assert!(Json::parse("{} x").is_err());
}

#[test]
fn parse_keeps_the_last_of_two_equal_keys() {
    let tree = Json::parse("{\"a\":1,\"a\":2}").unwrap();
    assert_eq!(tree.get("a").unwrap().as_i64(), Some(2));
}

#[test]
fn get_takes_the_last_of_two_equal_keys() {
    let tree = Json::Object(vec![("a".to_string(), Json::Int(1)), ("a".to_string(), Json::Int(2))]);
    assert_eq!(tree.get("a").unwrap().as_i64(), Some(2));
}

#[test]
fn get_on_a_value_that_is_no_object_finds_nothing() {
    assert!(Json::Array(vec![Json::Int(1)]).get("0").is_none());
    assert!(Json::Null.get("a").is_none());
    assert!(Json::Str("a".to_string()).get("a").is_none());
}

#[test]
fn accessors_answer_only_for_their_own_variant() {
    assert_eq!(Json::Int(5).as_str(), None);
    assert_eq!(Json::Str("5".to_string()).as_i64(), None);
    assert!(Json::Int(5).as_array().is_none());
    assert_eq!(Json::Array(vec![Json::Null]).as_array().unwrap().len(), 1);
    assert_eq!(Json::Bool(true).as_i64(), None);
}

#[test]
fn parse_tells_integers_from_other_numbers() {
    let tree = Json::parse("[1, -9223372036854775808, 18446744073709551615, 1.5]").unwrap();
    let items = tree.as_array().unwrap();
    assert_eq!(items[0].as_i64(), Some(1));
    assert_eq!(items[1].as_i64(), Some(i64::MIN));
    assert_eq!(items[2].as_i64(), None);
    assert!(matches!(&items[2], Json::Number(text) if text == "18446744073709551615"));
    assert_eq!(items[3].as_i64(), None);
    assert!(matches!(&items[3], Json::Number(text) if text == "1.5"));
}

#[test]
fn to_text_writes_compact_json_with_sorted_keys() {
    let tree = Json::Object(vec![
        ("b".to_string(), Json::Int(-3)),
        (
            "a".to_string(),
            Json::Array(vec![Json::Null, Json::Bool(true), Json::Str("x\"y".to_string())]),
        ),
    ]);
    assert_eq!(tree.to_text(), "{\"a\":[null,true,\"x\\\"y\"],\"b\":-3}");
}

#[test]
fn to_text_writes_back_what_parse_read() {
    let text = "{\"big\":18446744073709551615,\"half\":1.5,\"list\":[],\"s\":\"a\\nb\"}";
    assert_eq!(Json::parse(text).unwrap().to_text(), text);
}

#[test]
fn to_text_writes_null_for_a_number_text_that_is_no_number() {
    assert_eq!(Json::Number("abc".to_string()).to_text(), "null");
}

#[test]
fn string_object_and_array_build_the_variants() {
    assert!(matches!(Json::string("x"), Json::Str(text) if text == "x"));
    assert_eq!(Json::object(vec![]).to_text(), "{}");
    assert_eq!(Json::array(vec![Json::Int(1), Json::Int(2)]).to_text(), "[1,2]");
}
