use crate::activity::ActivityCode;
use crate::json::json_text;
use crate::json::Json;
use crate::json::JsonValue;
use crate::models::CreateItemVariables;
use crate::models::CreateItemVariablesModel;
use crate::models::GraphQLRequest;
use crate::models::GraphQLRequestModel;
use vstd::prelude::*;
use vstd::string::*;

verus! {

/// The address of the GraphQL endpoint.
pub const MONDAY_API_URL: &'static str = "https://api.monday.com/v2";

/// The board query up to the board's id.
pub const BOARD_QUERY_HEAD: &'static str =
    "\n        query GetBoardStructure {\n            boards(ids: \"";

/// The board query between the board's id and the page size.
pub const BOARD_QUERY_MIDDLE: &'static str =
    "\") {\n                name\n                id\n                groups {\n                    id\n                    title\n                }\n                items_page(limit: ";

/// The board query after the page size.
pub const BOARD_QUERY_TAIL: &'static str =
    ") {\n                    items {\n                        id\n                        name\n                        group {\n                            id\n                        }\n                        column_values {\n                            id\n                            value\n                        }\n                    }\n                }\n            }\n        }\n        ";

/// The groups query up to the board's id.
pub const GROUPS_QUERY_HEAD: &'static str = "\n        query GetBoardGroups {\n            boards(ids: \"";

/// The groups query after the board's id.
pub const GROUPS_QUERY_TAIL: &'static str =
    "\") {\n                groups {\n                    id\n                    title\n                }\n            }\n        }\n        ";

/// The mutation that creates an item; its values travel as variables.
pub const CREATE_ITEM_MUTATION: &'static str =
    "\n        mutation CreateItem($boardId: ID!, $groupId: String!, $itemName: String!, $columnValues: JSON!) {\n            create_item(\n                board_id: $boardId,\n                group_id: $groupId,\n                item_name: $itemName,\n                column_values: $columnValues\n            ) {\n                id\n                name\n            }\n        }\n    ";

/// The text of the query for a board's name, id, groups and one page of
/// `limit` items. The id and the limit are put into the text as they are.
pub open spec fn board_query_text(board_id: Seq<char>, limit: Seq<char>) -> Seq<char> {
    BOARD_QUERY_HEAD@ + board_id + BOARD_QUERY_MIDDLE@ + limit + BOARD_QUERY_TAIL@
}

/// The text of the query for a board's groups.
pub open spec fn groups_query_text(board_id: Seq<char>) -> Seq<char> {
    GROUPS_QUERY_HEAD@ + board_id + GROUPS_QUERY_TAIL@
}

/// An object without members.
pub open spec fn empty_object() -> JsonValue {
    JsonValue::Object(seq![])
}

/// The request for a board's structure: the board query with no variables.
pub open spec fn board_request_model(board_id: Seq<char>, limit: Seq<char>) -> GraphQLRequestModel {
    GraphQLRequestModel {
        query: board_query_text(board_id, limit),
        variables: Some(empty_object()),
    }
}

/// The request for a board's groups: the groups query with no variables.
pub open spec fn groups_request_model(board_id: Seq<char>) -> GraphQLRequestModel {
    GraphQLRequestModel { query: groups_query_text(board_id), variables: Some(empty_object()) }
}

/// The request that creates an item: the mutation, and as its variables the
/// board, the group, the item's name and the column values as one string.
pub open spec fn create_request_model(
    board_id: Seq<char>,
    group_id: Seq<char>,
    item_name: Seq<char>,
    column_values: Seq<char>,
) -> GraphQLRequestModel {
    GraphQLRequestModel {
        query: CREATE_ITEM_MUTATION@,
        variables: Some(
            variables_value(
                CreateItemVariablesModel { board_id, group_id, item_name, column_values },
            ),
        ),
    }
}

/// The request for a board's structure.
pub fn board_request(board_id: &str, limit: &str) -> (res: GraphQLRequest)
    ensures
        res@ == board_request_model(board_id@, limit@),
{
    let mut query = BOARD_QUERY_HEAD.to_owned();
    query.append(board_id);
    query.append(BOARD_QUERY_MIDDLE);
    query.append(limit);
    query.append(BOARD_QUERY_TAIL);
    let variables = Json::object(Vec::new());
    assert(variables@->Object_0 =~= seq![]);
    GraphQLRequest { query, variables: Some(variables) }
}

/// The request for a board's groups.
pub fn groups_request(board_id: &str) -> (res: GraphQLRequest)
    ensures
        res@ == groups_request_model(board_id@),
{
    let mut query = GROUPS_QUERY_HEAD.to_owned();
    query.append(board_id);
    query.append(GROUPS_QUERY_TAIL);
    let variables = Json::object(Vec::new());
    assert(variables@->Object_0 =~= seq![]);
    GraphQLRequest { query, variables: Some(variables) }
}

/// One member of an object: its key and its value.
pub fn entry(key: &str, value: Json) -> (res: (String, Json))
    ensures
        res.0@ == key@,
        res.1 == value,
{
    (key.to_owned(), value)
}

/// The column values of a new item: the person column names the user, the
/// status column the activity's index, the date column the date; the client,
/// the work item and the hours stand as they were given.
pub open spec fn column_values_value(
    user_id: int,
    activity: ActivityCode,
    date: Seq<char>,
    client: Seq<char>,
    work_item: Seq<char>,
    hours: Seq<char>,
) -> JsonValue {
    JsonValue::Object(
        seq![
            (
                "person"@,
                JsonValue::Object(
                    seq![
                        (
                            "personsAndTeams"@,
                            JsonValue::Array(
                                seq![
                                    JsonValue::Object(
                                        seq![
                                            ("id"@, JsonValue::Int(user_id)),
                                            ("kind"@, JsonValue::Str("person"@)),
                                        ],
                                    ),
                                ],
                            ),
                        ),
                    ],
                ),
            ),
            ("status"@, JsonValue::Object(seq![("index"@, JsonValue::Int(activity.spec_index()))])),
            ("date4"@, JsonValue::Object(seq![("date"@, JsonValue::Str(date))])),
            ("text__1"@, JsonValue::Str(client)),
            ("text8__1"@, JsonValue::Str(work_item)),
            ("numbers__1"@, JsonValue::Str(hours)),
        ],
    )
}

/// Builds the column values of a new item.
pub fn column_values(
    user_id: i64,
    activity: ActivityCode,
    date: &str,
    client: &str,
    work_item: &str,
    hours: &str,
) -> (res: Json)
    ensures
        res@ == column_values_value(user_id as int, activity, date@, client@, work_item@, hours@),
{
    let user = Json::object(vec![entry("id", Json::Int(user_id)), entry("kind", Json::string("person"))]);
    assert(user@->Object_0 =~= seq![
        ("id"@, JsonValue::Int(user_id as int)),
        ("kind"@, JsonValue::Str("person"@)),
    ]);
    let users = Json::array(vec![user]);
    assert(users@->Array_0 =~= seq![user@]);
    let person = Json::object(vec![entry("personsAndTeams", users)]);
    assert(person@->Object_0 =~= seq![("personsAndTeams"@, users@)]);
    let status = Json::object(vec![entry("index", Json::Int(activity.index() as i64))]);
    assert(status@->Object_0 =~= seq![("index"@, JsonValue::Int(activity.spec_index()))]);
    let day = Json::object(vec![entry("date", Json::string(date))]);
    assert(day@->Object_0 =~= seq![("date"@, JsonValue::Str(date@))]);
    let res = Json::object(
        vec![
            entry("person", person),
            entry("status", status),
            entry("date4", day),
            entry("text__1", Json::string(client)),
            entry("text8__1", Json::string(work_item)),
            entry("numbers__1", Json::string(hours)),
        ],
    );
    assert(res@->Object_0 =~= seq![
        ("person"@, person@),
        ("status"@, status@),
        ("date4"@, day@),
        ("text__1"@, JsonValue::Str(client@)),
        ("text8__1"@, JsonValue::Str(work_item@)),
        ("numbers__1"@, JsonValue::Str(hours@)),
    ]);
    res
}

/// The variables of the mutation as a JSON object, under the names that the
/// mutation declares.
pub open spec fn variables_value(variables: CreateItemVariablesModel) -> JsonValue {
    JsonValue::Object(
        seq![
            ("boardId"@, JsonValue::Str(variables.board_id)),
            ("groupId"@, JsonValue::Str(variables.group_id)),
            ("itemName"@, JsonValue::Str(variables.item_name)),
            ("columnValues"@, JsonValue::Str(variables.column_values)),
        ],
    )
}

impl CreateItemVariables {
    /// The variables as a JSON object.
    pub fn to_json(&self) -> (res: Json)
        ensures
            res@ == variables_value(self@),
    {
        let res = Json::object(
            vec![
                entry("boardId", Json::string(self.board_id.as_str())),
                entry("groupId", Json::string(self.group_id.as_str())),
                entry("itemName", Json::string(self.item_name.as_str())),
                entry("columnValues", Json::string(self.column_values.as_str())),
            ],
        );
        assert(res@->Object_0 =~= variables_value(self@)->Object_0);
        res
    }
}

/// The request that creates an item named `item_name` in the group
/// `group_id` of the board `board_id`. The column values travel as one
/// string: the JSON text of `column_values`.
pub fn create_item_request(
    board_id: &str,
    group_id: &str,
    item_name: &str,
    column_values: &Json,
) -> (res: GraphQLRequest)
    ensures
        res@ == create_request_model(board_id@, group_id@, item_name@, json_text(column_values@)),
{
    let variables = CreateItemVariables {
        board_id: board_id.to_owned(),
        group_id: group_id.to_owned(),
        item_name: item_name.to_owned(),
        column_values: column_values.to_text(),
    };
    GraphQLRequest { query: CREATE_ITEM_MUTATION.to_owned(), variables: Some(variables.to_json()) }
}

/// A request as the JSON object that is sent: the query, and the variables
/// where there are any.
pub open spec fn request_value(request: GraphQLRequestModel) -> JsonValue {
    match request.variables {
        Some(variables) => JsonValue::Object(
            seq![("query"@, JsonValue::Str(request.query)), ("variables"@, variables)],
        ),
        None => JsonValue::Object(seq![("query"@, JsonValue::Str(request.query))]),
    }
}

impl GraphQLRequest {
    /// The request as a JSON object.
    pub fn into_json(self) -> (res: Json)
        ensures
            res@ == request_value(self@),
    {
        let query = Json::Str(self.query);
        match self.variables {
            Some(variables) => {
                let res = Json::object(vec![entry("query", query), entry("variables", variables)]);
                assert(res@->Object_0 =~= request_value(self@)->Object_0);
                res
            },
            None => {
                let res = Json::object(vec![entry("query", query)]);
                assert(res@->Object_0 =~= request_value(self@)->Object_0);
                res
            },
        }
    }

    /// The body of the HTTP request: the request as JSON text.
    pub fn into_body(self) -> (res: String)
        ensures
            res@ == json_text(request_value(self@)),
    {
        self.into_json().to_text()
    }
}

} // verus!
