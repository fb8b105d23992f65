use monday_claim::activity::ActivityCode;
use monday_claim::json::Json;
use monday_claim::models::CreateItemVariables;
use monday_claim::models::GraphQLRequest;
use monday_claim::requests::board_request;
use monday_claim::requests::column_values;
use monday_claim::requests::create_item_request;
use monday_claim::requests::entry;
use monday_claim::requests::groups_request;
use monday_claim::requests::CREATE_ITEM_MUTATION;
use monday_claim::requests::MONDAY_API_URL;

#[test]
fn the_endpoint_is_the_v2_api() {
    assert_eq!(MONDAY_API_URL, "https://api.monday.com/v2");
}

#[test]
fn board_query_holds_the_id_and_the_limit() {
    let expected = format!(
        r#"
        query GetBoardStructure {{
            boards(ids: "{}") {{
                name
                id
                groups {{
                    id
                    title
                }}
                items_page(limit: {}) {{
                    items {{
                        id
                        name
                        group {{
                            id
                        }}
                        column_values {{
                            id
                            value
                        }}
                    }}
                }}
            }}
        }}
        "#,
        "1234567", "10"
    );
    let request = board_request("1234567", "10");
    assert_eq!(request.query, expected);
    assert_eq!(request.variables.unwrap().to_text(), "{}");
}

#[test]
fn groups_query_holds_the_id() {
    let expected = format!(
        r#"
        query GetBoardGroups {{
            boards(ids: "{}") {{
                groups {{
                    id
                    title
                }}
            }}
        }}
        "#,
        "987"
    );
    let request = groups_request("987");
    assert_eq!(request.query, expected);
    assert_eq!(request.variables.unwrap().to_text(), "{}");
}

#[test]
fn the_mutation_is_the_fixed_text() {
    let expected = r#"
        mutation CreateItem($boardId: ID!, $groupId: String!, $itemName: String!, $columnValues: JSON!) {
            create_item(
                board_id: $boardId,
                group_id: $groupId,
                item_name: $itemName,
                column_values: $columnValues
            ) {
                id
                name
            }
        }
    "#;
    assert_eq!(CREATE_ITEM_MUTATION, expected);
}

#[test]
fn column_values_hold_person_status_date_and_three_texts() {
    let values = column_values(42, ActivityCode::Billable, "2024-01-01", "ACME", "WI-1", "8");
    assert_eq!(
        values.to_text(),
        "{\"date4\":{\"date\":\"2024-01-01\"},\"numbers__1\":\"8\",\"person\":{\"personsAndTeams\":[{\"id\":42,\"kind\":\"person\"}]},\"status\":{\"index\":1},\"text8__1\":\"WI-1\",\"text__1\":\"ACME\"}"
    );
}

#[test]
fn column_values_keep_the_texts_verbatim() {
    let values = column_values(-7, ActivityCode::Illness, "", "A \"quoted\" client", "w\\i", "7.5");
    let person = values.get("person").unwrap().get("personsAndTeams").unwrap().as_array().unwrap();
    assert_eq!(person.len(), 1);
    assert_eq!(person[0].get("id").unwrap().as_i64(), Some(-7));
    assert_eq!(person[0].get("kind").unwrap().as_str(), Some("person"));
    assert_eq!(values.get("status").unwrap().get("index").unwrap().as_i64(), Some(8));
    assert_eq!(values.get("date4").unwrap().get("date").unwrap().as_str(), Some(""));
    assert_eq!(values.get("text__1").unwrap().as_str(), Some("A \"quoted\" client"));
    assert_eq!(values.get("text8__1").unwrap().as_str(), Some("w\\i"));
    assert_eq!(values.get("numbers__1").unwrap().as_str(), Some("7.5"));
}

#[test]
fn create_item_request_sends_the_column_values_as_one_string() {
    let values = column_values(42, ActivityCode::Vacation, "2024-02-03", "C", "W", "4");
    let request = create_item_request("b1", "g2", "My item", &values);
    assert_eq!(request.query, CREATE_ITEM_MUTATION);
    let variables = request.variables.unwrap();
    assert_eq!(variables.get("boardId").unwrap().as_str(), Some("b1"));
    assert_eq!(variables.get("groupId").unwrap().as_str(), Some("g2"));
    assert_eq!(variables.get("itemName").unwrap().as_str(), Some("My item"));
    assert_eq!(
        variables.get("columnValues").unwrap().as_str(),
        Some(values.to_text().as_str())
    );
}

#[test]
fn variables_go_under_the_names_of_the_mutation() {
    let variables = CreateItemVariables {
        board_id: "b".to_string(),
        group_id: "g".to_string(),
        item_name: "n".to_string(),
        column_values: "{}".to_string(),
    };
    assert_eq!(
        variables.to_json().to_text(),
        "{\"boardId\":\"b\",\"columnValues\":\"{}\",\"groupId\":\"g\",\"itemName\":\"n\"}"
    );
}

#[test]
fn body_holds_query_and_variables() {
    let request = GraphQLRequest {
        query: "query { me }".to_string(),
        variables: Some(Json::Object(vec![("a".to_string(), Json::Int(1))])),
    };
    assert_eq!(request.into_body(), "{\"query\":\"query { me }\",\"variables\":{\"a\":1}}");
}

#[test]
fn body_leaves_out_missing_variables() {
    let request = GraphQLRequest { query: "q".to_string(), variables: None };
    assert_eq!(request.into_body(), "{\"query\":\"q\"}");
    let request = GraphQLRequest { query: "line\nbreak \"x\"".to_string(), variables: None };
    assert_eq!(request.into_json().to_text(), "{\"query\":\"line\\nbreak \\\"x\\\"\"}");
}

#[test]
fn entry_pairs_a_key_with_a_value() {
    let (key, value) = entry("k", Json::Int(3));
    assert_eq!(key, "k");
    assert_eq!(value.as_i64(), Some(3));
}
