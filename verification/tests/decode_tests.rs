use monday_claim::decode::board_outcome;
use monday_claim::decode::board_outcome_in;
use monday_claim::decode::create_outcome;
use monday_claim::decode::create_outcome_in;
use monday_claim::decode::envelope_outcome;
use monday_claim::decode::read_array;
use monday_claim::decode::read_board;
use monday_claim::decode::read_boards;
use monday_claim::decode::read_column_value;
use monday_claim::decode::read_column_values;
use monday_claim::decode::read_envelope;
use monday_claim::decode::read_errors;
use monday_claim::decode::read_group;
use monday_claim::decode::read_groups;
use monday_claim::decode::read_item;
use monday_claim::decode::read_items;
use monday_claim::decode::read_text;
use monday_claim::decode::response_errors;
use monday_claim::decode::BoardOutcome;
use monday_claim::decode::CreateOutcome;
use monday_claim::decode::ShapeFault;
use monday_claim::json::Json;
use monday_claim::models::BoardStructureResponse;
use monday_claim::models::GraphQLError;
use monday_claim::models::GraphQLResponse;

const BOARD: &str = "{\"data\":{\"boards\":[{\"name\":\"Claims\",\"id\":\"77\",\"groups\":[{\"id\":\"g1\",\"title\":\"2023\"},{\"id\":\"g2\",\"title\":\"2024\"}],\"items_page\":{\"items\":[{\"id\":\"1\",\"name\":\"First\",\"group\":{\"id\":\"g2\"},\"column_values\":[{\"id\":\"date4\",\"value\":\"{\\\"date\\\":\\\"2024-01-01\\\"}\"},{\"id\":\"text__1\",\"value\":null},{\"id\":\"status\"}]}]}}]}}";

fn parsed(text: &str) -> Json {
    Json::parse(text).unwrap()
}

#[test]
fn board_response_is_decoded_field_by_field() {
    match board_outcome(BOARD) {
        BoardOutcome::Board(board) => {
            assert_eq!(board.name, "Claims");
            assert_eq!(board.id, "77");
            assert_eq!(board.groups.len(), 2);
            assert_eq!(board.groups[1].id, "g2");
            assert_eq!(board.groups[1].title, "2024");
            let items = &board.items_page.items;
            assert_eq!(items.len(), 1);
            assert_eq!(items[0].id, "1");
            assert_eq!(items[0].name, "First");
            assert_eq!(items[0].group.id, "g2");
            assert_eq!(items[0].column_values.len(), 3);
            assert_eq!(items[0].column_values[0].id, "date4");
            assert_eq!(
                items[0].column_values[0].value,
                Some("{\"date\":\"2024-01-01\"}".to_string())
            );
            assert_eq!(items[0].column_values[1].value, None);
            assert_eq!(items[0].column_values[2].id, "status");
            assert_eq!(items[0].column_values[2].value, None);
        }
        other => panic!("{:?}", other),
    }
}

#[test]
fn errors_win_even_if_data_is_present() {
    let text = "{\"data\":{\"boards\":[]},\"errors\":[{\"message\":\"first\"},{\"message\":\"second\",\"extensions\":{}}]}";
    match board_outcome(text) {
        BoardOutcome::Errors(messages) => {
            assert_eq!(messages, vec!["first".to_string(), "second".to_string()])
        }
        other => panic!("{:?}", other),
    }
}

#[test]
fn errors_win_whatever_the_data_holds() {
    let text = "{\"errors\":[{\"message\":\"denied\"}],\"data\":{\"boards\":\"broken\"}}";
    assert!(matches!(board_outcome(text), BoardOutcome::Errors(m) if m == vec!["denied".to_string()]));
    let text = "{\"errors\":[],\"data\":5}";
    assert!(matches!(board_outcome(text), BoardOutcome::Errors(m) if m.is_empty()));
}

#[test]
fn null_errors_stand_for_no_errors() {
    let text = "{\"errors\":null,\"data\":{\"boards\":[]}}";
    assert!(matches!(board_outcome(text), BoardOutcome::NoBoards));
}

#[test]
fn malformed_errors_are_a_mismatch() {
    assert!(matches!(board_outcome("{\"errors\":[1]}"), BoardOutcome::Mismatch { .. }));
    assert!(matches!(board_outcome("{\"errors\":[{\"message\":5}]}"), BoardOutcome::Mismatch { .. }));
    assert!(matches!(board_outcome("{\"errors\":\"bad\"}"), BoardOutcome::Mismatch { .. }));
    assert!(matches!(board_outcome("{\"errors\":{}}"), BoardOutcome::Mismatch { .. }));
}

#[test]
fn missing_or_null_data_is_no_data() {
    assert!(matches!(board_outcome("{}"), BoardOutcome::NoData));
    assert!(matches!(board_outcome("{\"data\":null}"), BoardOutcome::NoData));
    assert!(matches!(board_outcome("{\"extensions\":{}}"), BoardOutcome::NoData));
}

#[test]
fn empty_boards_are_no_boards() {
    assert!(matches!(board_outcome("{\"data\":{\"boards\":[]}}"), BoardOutcome::NoBoards));
}

#[test]
fn text_that_is_no_json_fails_to_parse() {
    assert!(matches!(board_outcome("not json"), BoardOutcome::ParseFailed(_)));
    assert!(matches!(board_outcome(""), BoardOutcome::ParseFailed(_)));
}

#[test]
fn another_shape_is_a_mismatch_that_keeps_the_document() {
    match board_outcome(" {\"data\": {\"boards\":[{\"name\":\"x\"}]}}") {
        BoardOutcome::Mismatch { raw, mismatch } => {
            assert_eq!(raw, " {\"data\": {\"boards\":[{\"name\":\"x\"}]}}");
            assert_eq!(mismatch.fault, ShapeFault::Data);
            assert_eq!(mismatch.document.to_text(), "{\"data\":{\"boards\":[{\"name\":\"x\"}]}}")
        }
        other => panic!("{:?}", other),
    }
    assert!(matches!(board_outcome("[]"), BoardOutcome::Mismatch { .. }));
    assert!(matches!(board_outcome("null"), BoardOutcome::Mismatch { .. }));
    assert!(matches!(board_outcome("{\"data\":{}}"), BoardOutcome::Mismatch { .. }));
    assert!(matches!(board_outcome("{\"data\":[]}"), BoardOutcome::Mismatch { .. }));
}

#[test]
fn every_required_member_of_a_board_is_required() {
    let whole = "{\"name\":\"n\",\"id\":\"i\",\"groups\":[],\"items_page\":{\"items\":[]}}";
    assert!(read_board(&parsed(whole)).is_some());
    let broken = [
        "{\"id\":\"i\",\"groups\":[],\"items_page\":{\"items\":[]}}",
        "{\"name\":\"n\",\"groups\":[],\"items_page\":{\"items\":[]}}",
        "{\"name\":\"n\",\"id\":\"i\",\"items_page\":{\"items\":[]}}",
        "{\"name\":\"n\",\"id\":\"i\",\"groups\":[]}",
        "{\"name\":\"n\",\"id\":\"i\",\"groups\":[],\"items_page\":{}}",
        "{\"name\":null,\"id\":\"i\",\"groups\":[],\"items_page\":{\"items\":[]}}",
        "{\"name\":\"n\",\"id\":7,\"groups\":[],\"items_page\":{\"items\":[]}}",
        "{\"name\":\"n\",\"id\":\"i\",\"groups\":[{}],\"items_page\":{\"items\":[]}}",
        "{\"name\":\"n\",\"id\":\"i\",\"groups\":[],\"items_page\":{\"items\":[{}]}}",
    ];
    for text in broken {
        assert!(read_board(&parsed(text)).is_none(), "{}", text);
    }
}

#[test]
fn items_and_their_members() {
    let whole = "{\"id\":\"1\",\"name\":\"n\",\"group\":{\"id\":\"g\"},\"column_values\":[]}";
    let item = read_item(&parsed(whole)).unwrap();
    assert_eq!(item.group.id, "g");
    assert!(item.column_values.is_empty());
    let broken = [
        "{\"name\":\"n\",\"group\":{\"id\":\"g\"},\"column_values\":[]}",
        "{\"id\":\"1\",\"group\":{\"id\":\"g\"},\"column_values\":[]}",
        "{\"id\":\"1\",\"name\":\"n\",\"column_values\":[]}",
        "{\"id\":\"1\",\"name\":\"n\",\"group\":{},\"column_values\":[]}",
        "{\"id\":\"1\",\"name\":\"n\",\"group\":null,\"column_values\":[]}",
        "{\"id\":\"1\",\"name\":\"n\",\"group\":{\"id\":\"g\"}}",
        "{\"id\":\"1\",\"name\":\"n\",\"group\":{\"id\":\"g\"},\"column_values\":[{\"value\":\"x\"}]}",
    ];
    for text in broken {
        assert!(read_item(&parsed(text)).is_none(), "{}", text);
    }
    assert_eq!(read_items(parsed("[]").as_array().unwrap()).unwrap().len(), 0);
    assert!(read_items(parsed("[1]").as_array().unwrap()).is_none());
}

#[test]
fn column_values_may_lack_a_value() {
    let with = read_column_value(&parsed("{\"id\":\"c\",\"value\":\"\\\"x\\\"\"}")).unwrap();
    assert_eq!(with.value, Some("\"x\"".to_string()));
    assert_eq!(read_column_value(&parsed("{\"id\":\"c\",\"value\":null}")).unwrap().value, None);
    assert_eq!(read_column_value(&parsed("{\"id\":\"c\"}")).unwrap().value, None);
    assert!(read_column_value(&parsed("{\"id\":\"c\",\"value\":5}")).is_none());
    assert!(read_column_value(&parsed("{\"value\":\"x\"}")).is_none());
    let list = parsed("[{\"id\":\"a\"},{\"id\":\"b\",\"value\":\"v\"}]");
    let columns = read_column_values(list.as_array().unwrap()).unwrap();
    assert_eq!(columns.len(), 2);
    assert_eq!(columns[1].value, Some("v".to_string()));
}

#[test]
fn groups_and_errors_decode_all_or_nothing() {
    let groups = parsed("[{\"id\":\"a\",\"title\":\"A\"},{\"id\":\"b\",\"title\":\"B\"}]");
    assert_eq!(read_groups(groups.as_array().unwrap()).unwrap().len(), 2);
    let groups = parsed("[{\"id\":\"a\",\"title\":\"A\"},{\"id\":\"b\"}]");
    assert!(read_groups(groups.as_array().unwrap()).is_none());
    assert!(read_group(&parsed("{\"id\":\"a\",\"title\":1}")).is_none());
    let errors = parsed("[{\"message\":\"m\"}]");
    assert_eq!(read_errors(errors.as_array().unwrap()).unwrap()[0].message, "m");
    let errors = parsed("[{\"message\":\"m\"},{}]");
    assert!(read_errors(errors.as_array().unwrap()).is_none());
}

#[test]
fn read_text_and_read_array_want_their_kind() {
    let tree = parsed("{\"s\":\"x\",\"a\":[1],\"n\":null}");
    assert_eq!(read_text(&tree, "s"), Some("x".to_string()));
    assert_eq!(read_text(&tree, "a"), None);
    assert_eq!(read_text(&tree, "n"), None);
    assert_eq!(read_text(&tree, "zz"), None);
    assert_eq!(read_array(&tree, "a").unwrap().len(), 1);
    assert!(read_array(&tree, "s").is_none());
    assert!(read_array(&tree, "zz").is_none());
}

#[test]
fn read_boards_wants_an_array_of_boards() {
    assert_eq!(read_boards(&parsed("{\"boards\":[]}")).unwrap().boards.len(), 0);
    assert!(read_boards(&parsed("{\"boards\":{}}")).is_none());
    assert!(read_boards(&parsed("{}")).is_none());
    assert!(read_boards(&parsed("{\"boards\":[{}]}")).is_none());
}

#[test]
fn envelope_with_errors_does_not_read_the_data() {
    let envelope = read_envelope(parsed("{\"errors\":[{\"message\":\"m\"}],\"data\":{\"boards\":[]}}")).unwrap();
    assert!(envelope.data.is_none());
    assert_eq!(envelope.errors.unwrap()[0].message, "m");
    let envelope = read_envelope(parsed("{\"data\":{\"boards\":[]}}")).unwrap();
    assert!(envelope.errors.is_none());
    assert_eq!(envelope.data.unwrap().boards.len(), 0);
}

#[test]
fn envelope_outcome_goes_by_errors_first() {
    let envelope = GraphQLResponse {
        data: Some(BoardStructureResponse { boards: vec![] }),
        errors: Some(vec![GraphQLError { message: "m".to_string() }]),
    };
    assert!(matches!(envelope_outcome(envelope), BoardOutcome::Errors(m) if m == vec!["m".to_string()]));
    let envelope: GraphQLResponse<BoardStructureResponse> = GraphQLResponse { data: None, errors: None };
    assert!(matches!(envelope_outcome(envelope), BoardOutcome::NoData));
    let envelope = GraphQLResponse { data: Some(BoardStructureResponse { boards: vec![] }), errors: None };
    assert!(matches!(envelope_outcome(envelope), BoardOutcome::NoBoards));
}

#[test]
fn the_first_of_several_boards_is_taken() {
    let text = "{\"data\":{\"boards\":[{\"name\":\"one\",\"id\":\"1\",\"groups\":[],\"items_page\":{\"items\":[]}},{\"name\":\"two\",\"id\":\"2\",\"groups\":[],\"items_page\":{\"items\":[]}},{\"name\":\"three\",\"id\":\"3\",\"groups\":[],\"items_page\":{\"items\":[]}}]}}";
    assert!(matches!(board_outcome_in(text, parsed(text)), BoardOutcome::Board(board) if board.name == "one"));
}

#[test]
fn response_errors_writes_each_message_as_json() {
    let tree = parsed("{\"errors\":[{\"message\":\"a \\\"b\\\"\"},{\"message\":{\"k\":1}},{\"other\":1}]}");
    assert_eq!(
        response_errors(&tree),
        Some(vec!["\"a \\\"b\\\"\"".to_string(), "{\"k\":1}".to_string()])
    );
    assert_eq!(response_errors(&parsed("{\"data\":1}")), None);
    assert_eq!(response_errors(&parsed("[]")), None);
    assert_eq!(response_errors(&parsed("{\"errors\":5}")), Some(vec![]));
}

#[test]
fn creation_reports_the_id_as_json() {
    let text = "{\"data\":{\"create_item\":{\"id\":\"12345\",\"name\":\"n\"}}}";
    assert!(matches!(create_outcome(text), CreateOutcome::Created(Some(id)) if id == "\"12345\""));
    let text = "{\"data\":{\"create_item\":{\"id\":12345}}}";
    assert!(matches!(create_outcome(text), CreateOutcome::Created(Some(id)) if id == "12345"));
    let text = "{\"data\":{\"create_item\":{\"name\":\"n\"}}}";
    assert!(matches!(create_outcome(text), CreateOutcome::Created(None)));
    let text = "{\"data\":{\"create_item\":null}}";
    assert!(matches!(create_outcome(text), CreateOutcome::Created(None)));
}

#[test]
fn creation_says_what_is_missing() {
    assert!(matches!(create_outcome("{}"), CreateOutcome::NoData));
    assert!(matches!(create_outcome("{\"data\":{}}"), CreateOutcome::NoCreateItem));
    assert!(matches!(create_outcome("{\"data\":null}"), CreateOutcome::NoCreateItem));
    assert!(matches!(create_outcome("oops"), CreateOutcome::ParseFailed(_)));
}

#[test]
fn creation_errors_win_even_if_data_is_present() {
    let text = "{\"data\":{\"create_item\":{\"id\":\"1\"}},\"errors\":[{\"message\":\"no\"}]}";
    assert!(matches!(create_outcome(text), CreateOutcome::Errors(m) if m == vec!["\"no\"".to_string()]));
    let tree = parsed("{\"errors\":null,\"data\":{\"create_item\":{\"id\":\"1\"}}}");
    assert!(matches!(create_outcome_in(&tree), CreateOutcome::Errors(m) if m.is_empty()));
}

#[test]
fn a_mismatch_says_what_did_not_match() {
    let cases = [
        ("[]", ShapeFault::NotAnObject),
        ("null", ShapeFault::NotAnObject),
        ("\"text\"", ShapeFault::NotAnObject),
        ("{\"errors\":[1]}", ShapeFault::Errors),
        ("{\"errors\":\"bad\",\"data\":{\"boards\":[]}}", ShapeFault::Errors),
        ("{\"errors\":[{\"message\":\"m\"},{}],\"data\":5}", ShapeFault::Errors),
        ("{\"data\":5}", ShapeFault::Data),
        ("{\"data\":{\"boards\":[{}]}}", ShapeFault::Data),
        ("{\"errors\":null,\"data\":[]}", ShapeFault::Data),
    ];
    for (text, expected) in cases {
        match board_outcome(text) {
            BoardOutcome::Mismatch { raw, mismatch } => {
                assert_eq!(mismatch.fault, expected, "{}", text);
                assert_eq!(raw, text);
            }
            other => panic!("{}: {:?}", text, other),
        }
        assert_eq!(read_envelope(parsed(text)).unwrap_err().fault, expected);
    }
}

#[test]
fn a_parse_failure_hands_the_text_back() {
    match board_outcome("<html>busy</html>") {
        BoardOutcome::ParseFailed(error) => {
            assert_eq!(error.text, "<html>busy</html>");
            assert_eq!(error.message, "expected value at line 1 column 1");
        }
        other => panic!("{:?}", other),
    }
    match create_outcome("{\"data\"") {
        CreateOutcome::ParseFailed(error) => assert_eq!(error.text, "{\"data\""),
        other => panic!("{:?}", other),
    }
}

#[test]
fn board_outcome_in_keeps_the_text_it_is_given() {
    match board_outcome_in("the text", parsed("[1]")) {
        BoardOutcome::Mismatch { raw, mismatch } => {
            assert_eq!(raw, "the text");
            assert_eq!(mismatch.fault, ShapeFault::NotAnObject);
            assert_eq!(mismatch.document.to_text(), "[1]");
        }
        other => panic!("{:?}", other),
    }
    assert!(matches!(board_outcome_in("x", parsed("{}")), BoardOutcome::NoData));
}
