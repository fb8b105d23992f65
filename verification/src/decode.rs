use crate::json::json_parse;
use crate::json::is_refusal_of;
use crate::json::json_text;
use crate::json::views;
use crate::json::Json;
use crate::json::JsonValue;
use crate::json::SyntaxError;
use crate::models::board_views;
use crate::models::column_value_views;
use crate::models::error_messages;
use crate::models::group_views;
use crate::models::item_views;
use crate::models::Board;
use crate::models::BoardModel;
use crate::models::BoardStructureResponse;
use crate::models::ColumnValue;
use crate::models::ColumnValueModel;
use crate::models::GraphQLError;
use crate::models::GraphQLResponse;
use crate::models::Group;
use crate::models::GroupModel;
use crate::models::GroupReference;
use crate::models::Item;
use crate::models::ItemModel;
use crate::models::ItemsPage;
use crate::text::string_views;
use vstd::prelude::*;

verus! {

/// The text of the member `key` of `value`, where that member is a string.
pub open spec fn text_member(value: JsonValue, key: Seq<char>) -> Option<Seq<char>> {
    match value.field(key) {
        Some(JsonValue::Str(text)) => Some(text),
        _ => None,
    }
}

/// The elements of the member `key` of `value`, where that member is an array.
pub open spec fn array_member(value: JsonValue, key: Seq<char>) -> Option<Seq<JsonValue>> {
    match value.field(key) {
        Some(JsonValue::Array(items)) => Some(items),
        _ => None,
    }
}

/// What each element of `items` decodes to, where every one of them decodes.
pub open spec fn decode_each<T>(
    items: Seq<JsonValue>,
    decode: spec_fn(JsonValue) -> Option<T>,
) -> Option<Seq<T>> {
    if forall|i: int| 0 <= i < items.len() ==> decode(#[trigger] items[i]) is Some {
        Some(Seq::new(items.len(), |i: int| decode(items[i])->Some_0))
    } else {
        None
    }
}

/// A group: an object with a string `id` and a string `title`.
pub open spec fn decode_group(value: JsonValue) -> Option<GroupModel> {
    match (text_member(value, "id"@), text_member(value, "title"@)) {
        (Some(id), Some(title)) => Some(GroupModel { id, title }),
        _ => None,
    }
}

/// A column value: an object with a string `id`; its `value` is a string,
/// or is `null` or missing, which both stand for no value.
pub open spec fn decode_column_value(value: JsonValue) -> Option<ColumnValueModel> {
    match text_member(value, "id"@) {
        Some(id) => match value.field("value"@) {
            None => Some(ColumnValueModel { id, value: None }),
            Some(JsonValue::Null) => Some(ColumnValueModel { id, value: None }),
            Some(JsonValue::Str(raw)) => Some(ColumnValueModel { id, value: Some(raw) }),
            Some(_) => None,
        },
        None => None,
    }
}

/// An item: an object with a string `id`, a string `name`, a `group` that is
/// an object with a string `id`, and an array `column_values` of column values.
pub open spec fn decode_item(value: JsonValue) -> Option<ItemModel> {
    match (
        text_member(value, "id"@),
        text_member(value, "name"@),
        value.field("group"@),
        array_member(value, "column_values"@),
    ) {
        (Some(id), Some(name), Some(group), Some(columns)) => match (
            text_member(group, "id"@),
            decode_each(columns, |v: JsonValue| decode_column_value(v)),
        ) {
            (Some(group_id), Some(column_values)) => Some(
                ItemModel { id, name, group_id, column_values },
            ),
            _ => None,
        },
        _ => None,
    }
}

/// A board: an object with a string `name`, a string `id`, an array `groups`
/// of groups, and an `items_page` that is an object with an array `items` of
/// items.
pub open spec fn decode_board(value: JsonValue) -> Option<BoardModel> {
    match (
        text_member(value, "name"@),
        text_member(value, "id"@),
        array_member(value, "groups"@),
        value.field("items_page"@),
    ) {
        (Some(name), Some(id), Some(groups), Some(page)) => match (
            decode_each(groups, |v: JsonValue| decode_group(v)),
            array_member(page, "items"@),
        ) {
            (Some(groups), Some(items)) => match decode_each(items, |v: JsonValue| decode_item(v)) {
                Some(items) => Some(BoardModel { name, id, groups, items }),
                None => None,
            },
            _ => None,
        },
        _ => None,
    }
}

/// The data of a board query: an object with an array `boards` of boards.
pub open spec fn decode_boards(value: JsonValue) -> Option<Seq<BoardModel>> {
    match array_member(value, "boards"@) {
        Some(boards) => decode_each(boards, |v: JsonValue| decode_board(v)),
        None => None,
    }
}

/// A reported error: an object with a string `message`.
pub open spec fn decode_error(value: JsonValue) -> Option<Seq<char>> {
    text_member(value, "message"@)
}

/// The value of a response envelope: the boards of its data and the
/// messages of its errors.
pub struct EnvelopeModel {
    pub data: Option<Seq<BoardModel>>,
    pub errors: Option<Seq<Seq<char>>>,
}

/// The value of a decoded board response.
pub open spec fn envelope_view(envelope: GraphQLResponse<BoardStructureResponse>) -> EnvelopeModel {
    EnvelopeModel {
        data: match envelope.data {
            Some(data) => Some(data@),
            None => None,
        },
        errors: match envelope.errors {
            Some(errors) => Some(error_messages(errors@)),
            None => None,
        },
    }
}

/// What keeps a JSON document from being a board response.
#[derive(Debug, Clone, Copy, PartialEq, Eq, Structural)]
pub enum ShapeFault {
    /// The document is not an object.
    NotAnObject,
    /// Its `errors` member is neither `null` nor an array of reported errors.
    Errors,
    /// Its `data` member is neither `null` nor the data of a board query.
    Data,
}

/// The envelope that a response decodes to, or what keeps it from having
/// the shape of one.
///
/// The response must be an object. Its `errors` member is read first: a
/// `null` or missing member stands for no errors; an array of reported errors
/// makes the response an error response, whose data is not read at all; any
/// other `errors` member is a fault. Without errors, a `null` or missing
/// `data` stands for no data, and any other `data` must decode.
pub open spec fn decode_envelope(response: JsonValue) -> Result<EnvelopeModel, ShapeFault> {
    if !(response is Object) {
        Err(ShapeFault::NotAnObject)
    } else {
        match response.field("errors"@) {
            Some(JsonValue::Array(items)) => match decode_each(
                items,
                |v: JsonValue| decode_error(v),
            ) {
                Some(messages) => Ok(EnvelopeModel { data: None, errors: Some(messages) }),
                None => Err(ShapeFault::Errors),
            },
            Some(JsonValue::Null) | None => match response.field("data"@) {
                Some(JsonValue::Null) | None => Ok(EnvelopeModel { data: None, errors: None }),
                Some(data) => match decode_boards(data) {
                    Some(boards) => Ok(EnvelopeModel { data: Some(boards), errors: None }),
                    None => Err(ShapeFault::Data),
                },
            },
            Some(_) => Err(ShapeFault::Errors),
        }
    }
}

/// Reads the string member `key` of `value`.
pub fn read_text(value: &Json, key: &str) -> (res: Option<String>)
    ensures
        match res {
            Some(text) => text_member(value@, key@) == Some(text@),
            None => text_member(value@, key@) is None,
        },
{
    match value.get(key) {
        Some(member) => match member.as_str() {
            Some(text) => Some(text.to_owned()),
            None => None,
        },
        None => None,
    }
}

/// Reads the array member `key` of `value`.
pub fn read_array<'a>(value: &'a Json, key: &str) -> (res: Option<&'a Vec<Json>>)
    ensures
        match res {
            Some(items) => array_member(value@, key@) == Some(views(items@)),
            None => array_member(value@, key@) is None,
        },
{
    match value.get(key) {
        Some(member) => member.as_array(),
        None => None,
    }
}

/// Decodes a group.
pub fn read_group(value: &Json) -> (res: Option<Group>)
    ensures
        match res {
            Some(group) => decode_group(value@) == Some(group@),
            None => decode_group(value@) is None,
        },
{
    let id = read_text(value, "id");
    let title = read_text(value, "title");
    match (id, title) {
        (Some(id), Some(title)) => Some(Group { id, title }),
        _ => None,
    }
}

/// Decodes an array of groups.
pub fn read_groups(items: &Vec<Json>) -> (res: Option<Vec<Group>>)
    ensures
        match res {
            Some(groups) => decode_each(views(items@), |v: JsonValue| decode_group(v)) == Some(
                group_views(groups@),
            ),
            None => decode_each(views(items@), |v: JsonValue| decode_group(v)) is None,
        },
{
    let ghost all = views(items@);
    let mut res: Vec<Group> = Vec::new();
    let mut i: usize = 0;
    while i < items.len()
        invariant
            i <= items.len(),
            all == views(items@),
            res@.len() == i,
            forall|k: int| 0 <= k < i ==> decode_group(#[trigger] all[k]) == Some(res@[k]@),
        decreases items.len() - i,
    {
        match read_group(&items[i]) {
            Some(group) => res.push(group),
            None => {
                assert(decode_group(all[i as int]) is None);
                return None;
            },
        }
        i += 1;
    }
    assert(decode_each(all, |v: JsonValue| decode_group(v))->Some_0 =~= group_views(res@));
    Some(res)
}

/// Decodes a column value.
pub fn read_column_value(value: &Json) -> (res: Option<ColumnValue>)
    ensures
        match res {
            Some(column) => decode_column_value(value@) == Some(column@),
            None => decode_column_value(value@) is None,
        },
{
    let id = match read_text(value, "id") {
        Some(id) => id,
        None => return None,
    };
    match value.get("value") {
        None => Some(ColumnValue { id, value: None }),
        Some(Json::Null) => Some(ColumnValue { id, value: None }),
        Some(Json::Str(raw)) => Some(ColumnValue { id, value: Some(raw.clone()) }),
        Some(_) => None,
    }
}

/// Decodes an array of column values.
pub fn read_column_values(items: &Vec<Json>) -> (res: Option<Vec<ColumnValue>>)
    ensures
        match res {
            Some(columns) => decode_each(views(items@), |v: JsonValue| decode_column_value(v))
                == Some(column_value_views(columns@)),
            None => decode_each(views(items@), |v: JsonValue| decode_column_value(v)) is None,
        },
{
    let ghost all = views(items@);
    let mut res: Vec<ColumnValue> = Vec::new();
    let mut i: usize = 0;
    while i < items.len()
        invariant
            i <= items.len(),
            all == views(items@),
            res@.len() == i,
            forall|k: int| 0 <= k < i ==> decode_column_value(#[trigger] all[k]) == Some(res@[k]@),
        decreases items.len() - i,
    {
        match read_column_value(&items[i]) {
            Some(column) => res.push(column),
            None => {
                assert(decode_column_value(all[i as int]) is None);
                return None;
            },
        }
        i += 1;
    }
    assert(decode_each(all, |v: JsonValue| decode_column_value(v))->Some_0
        =~= column_value_views(res@));
    Some(res)
}

/// Decodes an item.
pub fn read_item(value: &Json) -> (res: Option<Item>)
    ensures
        match res {
            Some(item) => decode_item(value@) == Some(item@),
            None => decode_item(value@) is None,
        },
{
    let id = match read_text(value, "id") {
        Some(id) => id,
        None => return None,
    };
    let name = match read_text(value, "name") {
        Some(name) => name,
        None => return None,
    };
    let group = match value.get("group") {
        Some(group) => group,
        None => return None,
    };
    let columns = match read_array(value, "column_values") {
        Some(columns) => columns,
        None => return None,
    };
    let group_id = match read_text(group, "id") {
        Some(group_id) => group_id,
        None => return None,
    };
    match read_column_values(columns) {
        Some(column_values) => Some(
            Item { id, name, group: GroupReference { id: group_id }, column_values },
        ),
        None => None,
    }
}

/// Decodes an array of items.
pub fn read_items(items: &Vec<Json>) -> (res: Option<Vec<Item>>)
    ensures
        match res {
            Some(decoded) => decode_each(views(items@), |v: JsonValue| decode_item(v)) == Some(
                item_views(decoded@),
            ),
            None => decode_each(views(items@), |v: JsonValue| decode_item(v)) is None,
        },
{
    let ghost all = views(items@);
    let mut res: Vec<Item> = Vec::new();
    let mut i: usize = 0;
    while i < items.len()
        invariant
            i <= items.len(),
            all == views(items@),
            res@.len() == i,
            forall|k: int| 0 <= k < i ==> decode_item(#[trigger] all[k]) == Some(res@[k]@),
        decreases items.len() - i,
    {
        match read_item(&items[i]) {
            Some(item) => res.push(item),
            None => {
                assert(decode_item(all[i as int]) is None);
                return None;
            },
        }
        i += 1;
    }
    assert(decode_each(all, |v: JsonValue| decode_item(v))->Some_0 =~= item_views(res@));
    Some(res)
}

/// Decodes a board.
pub fn read_board(value: &Json) -> (res: Option<Board>)
    ensures
        match res {
            Some(board) => decode_board(value@) == Some(board@),
            None => decode_board(value@) is None,
        },
{
    let name = match read_text(value, "name") {
        Some(name) => name,
        None => return None,
    };
    let id = match read_text(value, "id") {
        Some(id) => id,
        None => return None,
    };
    let groups = match read_array(value, "groups") {
        Some(groups) => groups,
        None => return None,
    };
    let page = match value.get("items_page") {
        Some(page) => page,
        None => return None,
    };
    let groups = match read_groups(groups) {
        Some(groups) => groups,
        None => return None,
    };
    let items = match read_array(page, "items") {
        Some(items) => items,
        None => return None,
    };
    match read_items(items) {
        Some(items) => Some(Board { name, id, groups, items_page: ItemsPage { items } }),
        None => None,
    }
}

/// Decodes the data of a board query.
pub fn read_boards(value: &Json) -> (res: Option<BoardStructureResponse>)
    ensures
        match res {
            Some(data) => decode_boards(value@) == Some(data@),
            None => decode_boards(value@) is None,
        },
{
    let items = match read_array(value, "boards") {
        Some(items) => items,
        None => return None,
    };
    let ghost all = views(items@);
    let mut boards: Vec<Board> = Vec::new();
    let mut i: usize = 0;
    while i < items.len()
        invariant
            i <= items.len(),
            all == views(items@),
            array_member(value@, "boards"@) == Some(all),
            boards@.len() == i,
            forall|k: int| 0 <= k < i ==> decode_board(#[trigger] all[k]) == Some(boards@[k]@),
        decreases items.len() - i,
    {
        match read_board(&items[i]) {
            Some(board) => boards.push(board),
            None => {
                assert(decode_board(all[i as int]) is None);
                return None;
            },
        }
        i += 1;
    }
    assert(decode_each(all, |v: JsonValue| decode_board(v))->Some_0 =~= board_views(boards@));
    Some(BoardStructureResponse { boards })
}

/// Decodes an array of reported errors.
pub fn read_errors(items: &Vec<Json>) -> (res: Option<Vec<GraphQLError>>)
    ensures
        match res {
            Some(errors) => decode_each(views(items@), |v: JsonValue| decode_error(v)) == Some(
                error_messages(errors@),
            ),
            None => decode_each(views(items@), |v: JsonValue| decode_error(v)) is None,
        },
{
    let ghost all = views(items@);
    let mut res: Vec<GraphQLError> = Vec::new();
    let mut i: usize = 0;
    while i < items.len()
        invariant
            i <= items.len(),
            all == views(items@),
            res@.len() == i,
            forall|k: int| 0 <= k < i ==> decode_error(#[trigger] all[k]) == Some(res@[k]@),
        decreases items.len() - i,
    {
        match read_text(&items[i], "message") {
            Some(message) => res.push(GraphQLError { message }),
            None => {
                assert(decode_error(all[i as int]) is None);
                return None;
            },
        }
        i += 1;
    }
    assert(decode_each(all, |v: JsonValue| decode_error(v))->Some_0 =~= error_messages(res@));
    Some(res)
}

/// A JSON document that does not have the shape of a board response, with
/// what keeps it from that.
#[derive(Debug)]
pub struct ShapeMismatch {
    pub fault: ShapeFault,
    pub document: Json,
}

/// Decodes a parsed board response into its envelope.
pub fn read_envelope(response: Json) -> (res: Result<
    GraphQLResponse<BoardStructureResponse>,
    ShapeMismatch,
>)
    ensures
        match res {
            Ok(envelope) => decode_envelope(response@) == Ok::<EnvelopeModel, ShapeFault>(
                envelope_view(envelope),
            ),
            Err(mismatch) => decode_envelope(response@) == Err::<EnvelopeModel, ShapeFault>(
                mismatch.fault,
            ) && mismatch.document == response,
        },
{
    let is_object = match &response {
        Json::Object(_) => true,
        _ => false,
    };
    if !is_object {
        return Err(ShapeMismatch { fault: ShapeFault::NotAnObject, document: response });
    }
    let errors = match response.get("errors") {
        Some(Json::Array(items)) => {
            assert(response@.field("errors"@)->Some_0->Array_0 =~= views(items@));
            match read_errors(items) {
                Some(errors) => Some(errors),
                None => return Err(ShapeMismatch { fault: ShapeFault::Errors, document: response }),
            }
        },
        Some(Json::Null) => None,
        None => None,
        Some(_) => return Err(ShapeMismatch { fault: ShapeFault::Errors, document: response }),
    };
    if errors.is_some() {
        return Ok(GraphQLResponse { data: None, errors });
    }
    let data = match response.get("data") {
        Some(Json::Null) => None,
        None => None,
        Some(data) => match read_boards(data) {
            Some(boards) => Some(boards),
            None => return Err(ShapeMismatch { fault: ShapeFault::Data, document: response }),
        },
    };
    Ok(GraphQLResponse { data, errors: None })
}

/// How the reading of a board response ended.
#[derive(Debug)]
pub enum BoardOutcome {
    /// The response is no JSON document; the error holds its text.
    ParseFailed(SyntaxError),
    /// The response is a JSON document of another shape; with its text.
    Mismatch { raw: String, mismatch: ShapeMismatch },
    /// The response reports errors.
    Errors(Vec<String>),
    /// The response holds no data.
    NoData,
    /// The data holds no board.
    NoBoards,
    /// The first board of the data.
    Board(Board),
}

/// Whether `outcome` is what the envelope `envelope` comes to: its errors
/// where it has any, even an empty list of them; else its first board, or
/// what is missing for one.
pub open spec fn is_outcome_of_envelope(outcome: BoardOutcome, envelope: EnvelopeModel) -> bool {
    match outcome {
        BoardOutcome::Errors(messages) => envelope.errors == Some(string_views(messages@)),
        BoardOutcome::NoData => envelope.errors is None && envelope.data is None,
        BoardOutcome::NoBoards => {
            &&& envelope.errors is None
            &&& envelope.data matches Some(boards)
            &&& boards.len() == 0
        },
        BoardOutcome::Board(board) => {
            &&& envelope.errors is None
            &&& envelope.data matches Some(boards)
            &&& boards.len() > 0
            &&& boards[0] == board@
        },
        _ => false,
    }
}

/// Whether `outcome` is how the reading of a board response ends that
/// parsed as `parsed`.
pub open spec fn is_board_outcome_of(outcome: BoardOutcome, parsed: Option<JsonValue>) -> bool {
    match outcome {
        BoardOutcome::ParseFailed(_) => parsed is None,
        BoardOutcome::Mismatch { raw, mismatch } => {
            &&& parsed matches Some(response)
            &&& decode_envelope(response) == Err::<EnvelopeModel, ShapeFault>(mismatch.fault)
            &&& mismatch.document@ == response
        },
        _ => {
            &&& parsed matches Some(response)
            &&& decode_envelope(response) matches Ok(envelope)
            &&& is_outcome_of_envelope(outcome, envelope)
        },
    }
}

/// What a decoded envelope comes to.
pub fn envelope_outcome(envelope: GraphQLResponse<BoardStructureResponse>) -> (res: BoardOutcome)
    ensures
        is_outcome_of_envelope(res, envelope_view(envelope)),
{
    if let Some(errors) = envelope.errors {
        let mut messages: Vec<String> = Vec::new();
        let ghost all = error_messages(errors@);
        let mut i: usize = 0;
        while i < errors.len()
            invariant
                i <= errors.len(),
                all == error_messages(errors@),
                messages@.len() == i,
                forall|k: int| 0 <= k < i ==> messages@[k]@ == all[k],
            decreases errors.len() - i,
        {
            messages.push(errors[i].message.clone());
            i += 1;
        }
        assert(string_views(messages@) =~= all);
        return BoardOutcome::Errors(messages);
    }
    match envelope.data {
        None => BoardOutcome::NoData,
        Some(data) => {
            let mut boards = data.boards;
            if boards.len() == 0 {
                BoardOutcome::NoBoards
            } else {
                let ghost first = boards@[0];
                let board = boards.swap_remove(0);
                assert(board == first);
                BoardOutcome::Board(board)
            }
        },
    }
}

/// Reads a parsed board response; `raw` is the text it was parsed from,
/// which is handed back with a mismatch.
pub fn board_outcome_in(raw: &str, response: Json) -> (res: BoardOutcome)
    ensures
        is_board_outcome_of(res, Some(response@)),
        res matches BoardOutcome::Mismatch { raw: kept, mismatch } ==> kept@ == raw@,
{
    match read_envelope(response) {
        Ok(envelope) => envelope_outcome(envelope),
        Err(mismatch) => BoardOutcome::Mismatch { raw: raw.to_owned(), mismatch },
    }
}

/// Reads the text of a board response. A text that is no JSON document, or
/// a document of another shape, is handed back with what was wrong.
pub fn board_outcome(response_text: &str) -> (res: BoardOutcome)
    ensures
        is_board_outcome_of(res, json_parse(response_text@)),
        res matches BoardOutcome::ParseFailed(error) ==> is_refusal_of(error, response_text@),
        res matches BoardOutcome::Mismatch { raw, mismatch } ==> raw@ == response_text@,
{
    match Json::parse(response_text) {
        Ok(response) => board_outcome_in(response_text, response),
        Err(error) => BoardOutcome::ParseFailed(error),
    }
}

/// Errors come before data: a response whose `errors` member is an array of
/// reported errors ends with the error outcome and the messages of those
/// errors, whatever its `data` member holds.
pub proof fn lemma_board_errors_take_precedence(
    response: JsonValue,
    items: Seq<JsonValue>,
    messages: Seq<Seq<char>>,
    outcome: BoardOutcome,
)
    requires
        response.field("errors"@) == Some(JsonValue::Array(items)),
        decode_each(items, |v: JsonValue| decode_error(v)) == Some(messages),
        is_board_outcome_of(outcome, Some(response)),
    ensures
        outcome matches BoardOutcome::Errors(reported) && string_views(reported@) == messages,
{
}

/// The messages of the elements of an `errors` array: for each element that
/// has a `message` member, in order, that member written as JSON.
pub open spec fn loose_messages(items: Seq<JsonValue>) -> Seq<Seq<char>>
    decreases items.len(),
{
    if items.len() == 0 {
        seq![]
    } else {
        let rest = loose_messages(items.drop_last());
        match items.last().field("message"@) {
            Some(message) => rest.push(json_text(message)),
            None => rest,
        }
    }
}

/// The errors that a response reports: `None` where it has no `errors`
/// member; else the messages of that member, none where it is not an array.
pub open spec fn reported_errors(response: JsonValue) -> Option<Seq<Seq<char>>> {
    match response.field("errors"@) {
        None => None,
        Some(JsonValue::Array(items)) => Some(loose_messages(items)),
        Some(_) => Some(seq![]),
    }
}

/// The errors that a response reports. A response with an `errors` member
/// reports errors, whatever else it holds.
pub fn response_errors(response: &Json) -> (res: Option<Vec<String>>)
    ensures
        match res {
            Some(messages) => reported_errors(response@) == Some(string_views(messages@)),
            None => reported_errors(response@) is None,
        },
{
    let errors = match response.get("errors") {
        Some(errors) => errors,
        None => return None,
    };
    let mut messages: Vec<String> = Vec::new();
    match errors.as_array() {
        Some(items) => {
            let ghost all = views(items@);
            let mut i: usize = 0;
            assert(all.take(0) =~= seq![]);
            assert(string_views(messages@) =~= seq![]);
            while i < items.len()
                invariant
                    i <= items.len(),
                    all == views(items@),
                    string_views(messages@) == loose_messages(all.take(i as int)),
                decreases items.len() - i,
            {
                let ghost before = string_views(messages@);
                proof {
                    assert(all.take(i + 1).drop_last() =~= all.take(i as int));
                    assert(all.take(i + 1).last() == items@[i as int]@);
                }
                if let Some(message) = items[i].get("message") {
                    let text = message.to_text();
                    messages.push(text);
                    assert(string_views(messages@) =~= before.push(json_text(message@)));
                }
                i += 1;
            }
            assert(all.take(items.len() as int) =~= all);
            Some(messages)
        },
        None => {
            assert(string_views(messages@) =~= seq![]);
            Some(messages)
        },
    }
}

/// How the reading of the response to an item's creation ended.
#[derive(Debug)]
pub enum CreateOutcome {
    /// The response is no JSON document.
    ParseFailed(SyntaxError),
    /// The response reports errors.
    Errors(Vec<String>),
    /// The response has no `data` member.
    NoData,
    /// `data` has no `create_item` member.
    NoCreateItem,
    /// The item was created; with its `id` written as JSON, where the
    /// response gives one.
    Created(Option<String>),
}

/// Whether `outcome` is how the reading of a creation response ends that
/// parsed as `parsed`: errors come first, then `data.create_item` and its id.
pub open spec fn is_create_outcome_of(outcome: CreateOutcome, parsed: Option<JsonValue>) -> bool {
    match outcome {
        CreateOutcome::ParseFailed(_) => parsed is None,
        CreateOutcome::Errors(messages) => {
            &&& parsed matches Some(response)
            &&& reported_errors(response) == Some(string_views(messages@))
        },
        CreateOutcome::NoData => {
            &&& parsed matches Some(response)
            &&& reported_errors(response) is None
            &&& response.field("data"@) is None
        },
        CreateOutcome::NoCreateItem => {
            &&& parsed matches Some(response)
            &&& reported_errors(response) is None
            &&& response.field("data"@) matches Some(data)
            &&& data.field("create_item"@) is None
        },
        CreateOutcome::Created(id) => {
            &&& parsed matches Some(response)
            &&& reported_errors(response) is None
            &&& response.field("data"@) matches Some(data)
            &&& data.field("create_item"@) matches Some(item)
            &&& match id {
                Some(text) => item.field("id"@) matches Some(value) && text@ == json_text(value),
                None => item.field("id"@) is None,
            }
        },
    }
}

/// Reads a parsed creation response.
pub fn create_outcome_in(response: &Json) -> (res: CreateOutcome)
    ensures
        is_create_outcome_of(res, Some(response@)),
{
    if let Some(messages) = response_errors(response) {
        return CreateOutcome::Errors(messages);
    }
    let data = match response.get("data") {
        Some(data) => data,
        None => return CreateOutcome::NoData,
    };
    let item = match data.get("create_item") {
        Some(item) => item,
        None => return CreateOutcome::NoCreateItem,
    };
    match item.get("id") {
        Some(id) => CreateOutcome::Created(Some(id.to_text())),
        None => CreateOutcome::Created(None),
    }
}

/// Reads the text of a creation response. A text that is no JSON document
/// fails with the reader's message and is handed back.
pub fn create_outcome(response_text: &str) -> (res: CreateOutcome)
    ensures
        is_create_outcome_of(res, json_parse(response_text@)),
        res matches CreateOutcome::ParseFailed(error) ==> is_refusal_of(error, response_text@),
{
    match Json::parse(response_text) {
        Ok(response) => create_outcome_in(&response),
        Err(error) => CreateOutcome::ParseFailed(error),
    }
}

/// Errors come before data: the outcome of a creation response with an
/// `errors` member is the error outcome, whatever its `data` member holds.
pub proof fn lemma_create_errors_take_precedence(response: JsonValue, outcome: CreateOutcome)
    requires
        response.field("errors"@) is Some,
        is_create_outcome_of(outcome, Some(response)),
    ensures
        outcome is Errors,
{
}

} // verus!
