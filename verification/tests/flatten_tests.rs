use monday_claim::flatten::collect_integers;
use monday_claim::flatten::collect_person_ids;
use monday_claim::flatten::flatten_column_value;
use monday_claim::flatten::flatten_json;
use monday_claim::flatten::flatten_read;
use monday_claim::flatten::join_numbers;
use monday_claim::flatten::Shape;
use monday_claim::json::Json;

fn shown(raw: &str) -> String {
    flatten_column_value(&Some(raw.to_string()))
}

#[test]
fn absent_value_flattens_to_empty() {
    assert_eq!(flatten_column_value(&None), "");
}

#[test]
fn text_field_is_shown_exactly() {
    assert_eq!(shown("{\"text\": \"some text\"}"), "some text");
    assert_eq!(shown("{\"text\":\"\"}"), "");
    assert_eq!(shown("{\"text\":\"a \\\"b\\\" \\u00e9\"}"), "a \"b\" \u{e9}");
}

#[test]
fn ids_are_joined_in_their_order() {
    assert_eq!(shown("{\"ids\": [3,1,2]}"), "3, 1, 2");
    assert_eq!(shown("{\"ids\":[17]}"), "17");
    assert_eq!(shown("{\"ids\":[-5,0,9223372036854775807]}"), "-5, 0, 9223372036854775807");
}

#[test]
fn empty_ids_flatten_to_empty() {
    assert_eq!(shown("{\"ids\": []}"), "");
}

#[test]
fn ids_that_are_no_integers_are_skipped() {
    assert_eq!(shown("{\"ids\":[1,\"2\",3.5,null,4,18446744073709551615]}"), "1, 4");
    assert_eq!(shown("{\"ids\":[\"a\"]}"), "");
}

#[test]
fn persons_and_teams_are_joined_by_id() {
    assert_eq!(shown("{\"personsAndTeams\":[{\"id\":1},{\"id\":2}]}"), "1, 2");
    assert_eq!(shown("{\"personsAndTeams\":[{\"id\":7,\"kind\":\"person\"}]}"), "7");
    assert_eq!(shown("{\"personsAndTeams\":[]}"), "");
}

#[test]
fn persons_without_a_numeric_id_are_skipped() {
    assert_eq!(
        shown("{\"personsAndTeams\":[{\"id\":1},{\"kind\":\"team\"},{\"id\":\"x\"},5,{\"id\":2}]}"),
        "1, 2"
    );
}

#[test]
fn text_beats_date() {
    assert_eq!(shown("{\"text\":\"A\",\"date\":\"2024-01-01\"}"), "A");
    assert_eq!(shown("{\"date\":\"2024-01-01\",\"text\":\"A\"}"), "A");
}

#[test]
fn date_is_shown_without_text() {
    assert_eq!(shown("{\"date\":\"2024-01-01\"}"), "2024-01-01");
    assert_eq!(shown("{\"date\":\"2024-01-01\",\"ids\":[1]}"), "2024-01-01");
}

#[test]
fn a_text_that_is_no_string_does_not_count() {
    assert_eq!(shown("{\"text\":5,\"date\":\"2024-01-01\"}"), "2024-01-01");
    assert_eq!(shown("{\"text\":null,\"index\":3}"), "3");
}

#[test]
fn the_shapes_are_probed_in_their_order() {
    assert_eq!(shown("{\"index\":1,\"personsAndTeams\":[{\"id\":9}],\"ids\":[4]}"), "4");
    assert_eq!(shown("{\"index\":1,\"personsAndTeams\":[{\"id\":9}]}"), "9");
    assert_eq!(shown("{\"index\":1,\"ids\":\"none\"}"), "1");
}

#[test]
fn index_is_shown_in_decimal() {
    assert_eq!(shown("{\"index\":0}"), "0");
    assert_eq!(shown("{\"index\":-12}"), "-12");
    assert_eq!(shown("{\"index\":1.5}"), "{\"index\":1.5}");
}

#[test]
fn quoted_plain_string_loses_its_quotes() {
    assert_eq!(shown("\"hello\""), "hello");
}

#[test]
fn plain_string_is_not_unescaped() {
    assert_eq!(shown("\"a\\nb\""), "a\\nb");
    assert_eq!(shown("12"), "12");
    assert_eq!(shown(""), "");
    assert_eq!(shown("\"\"x\"\""), "\"x\"");
}

#[test]
fn unparseable_value_is_returned_unchanged() {
    assert_eq!(shown("{not json"), "{not json");
    assert_eq!(shown("{\"text\":\"A\""), "{\"text\":\"A\"");
    assert_eq!(shown("[1,2"), "[1,2");
    assert_eq!(shown("{\"text\":\"A\"} trailing"), "{\"text\":\"A\"} trailing");
}

#[test]
fn a_value_of_no_known_shape_is_returned_unchanged() {
    assert_eq!(shown("{\"other\": 1}"), "{\"other\": 1}");
    assert_eq!(shown("[1, 2]"), "[1, 2]");
    assert_eq!(shown("{}"), "{}");
}

#[test]
fn a_text_that_does_not_begin_with_a_bracket_is_not_read() {
    assert_eq!(shown(" {\"text\":\"A\"}"), " {\"text\":\"A\"}");
    assert_eq!(shown("\"{\"text\":\"A\"}\""), "{\"text\":\"A\"}");
}

#[test]
fn flatten_read_takes_what_was_read() {
    let tree = Json::Object(vec![("text".to_string(), Json::Str("T".to_string()))]);
    assert_eq!(flatten_read("raw", &Some(tree)), "T");
    assert_eq!(flatten_read("raw", &None), "raw");
    assert_eq!(flatten_read("raw", &Some(Json::Null)), "raw");
}

#[test]
fn flatten_json_falls_back_to_the_raw_text() {
    assert_eq!(flatten_json("raw", &Json::Array(vec![])), "raw");
    let tree = Json::Object(vec![("index".to_string(), Json::Int(4))]);
    assert_eq!(flatten_json("raw", &tree), "4");
}

#[test]
fn each_shape_shows_its_own_member() {
    let tree = Json::parse(
        "{\"text\":\"T\",\"date\":\"D\",\"ids\":[1,2],\"personsAndTeams\":[{\"id\":3}],\"index\":4}",
    )
    .unwrap();
    assert_eq!(Shape::Text.show(&tree), Some("T".to_string()));
    assert_eq!(Shape::Date.show(&tree), Some("D".to_string()));
    assert_eq!(Shape::Ids.show(&tree), Some("1, 2".to_string()));
    assert_eq!(Shape::Persons.show(&tree), Some("3".to_string()));
    assert_eq!(Shape::Index.show(&tree), Some("4".to_string()));
    let empty = Json::Object(vec![]);
    assert_eq!(Shape::Text.show(&empty), None);
    assert_eq!(Shape::Ids.show(&empty), None);
    assert_eq!(Shape::Index.show(&empty), None);
}

#[test]
fn join_numbers_puts_comma_and_space_between() {
    assert_eq!(join_numbers(&vec![]), "");
    assert_eq!(join_numbers(&vec![5]), "5");
    assert_eq!(join_numbers(&vec![1, 2, 3]), "1, 2, 3");
    assert_eq!(join_numbers(&vec![-1, i64::MIN]), "-1, -9223372036854775808");
}

#[test]
fn collectors_keep_the_order_of_the_integers() {
    let items = vec![Json::Int(3), Json::Null, Json::Int(1), Json::Str("2".to_string())];
    assert_eq!(collect_integers(&items), vec![3, 1]);
    let persons = vec![
        Json::Object(vec![("id".to_string(), Json::Int(8))]),
        Json::Int(5),
        Json::Object(vec![("id".to_string(), Json::Int(6))]),
    ];
    assert_eq!(collect_person_ids(&persons), vec![8, 6]);
}
