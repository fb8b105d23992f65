use crate::json::Json;
use crate::json::JsonValue;
use vstd::prelude::*;

verus! {

/// A request to the GraphQL endpoint: the query text and its variables.
#[derive(Debug)]
pub struct GraphQLRequest {
    pub query: String,
    pub variables: Option<Json>,
}

/// The value of a [`GraphQLRequest`].
pub struct GraphQLRequestModel {
    pub query: Seq<char>,
    pub variables: Option<JsonValue>,
}

impl View for GraphQLRequest {
    type V = GraphQLRequestModel;

    open spec fn view(&self) -> GraphQLRequestModel {
        GraphQLRequestModel {
            query: self.query@,
            variables: match self.variables {
                Some(tree) => Some(tree@),
                None => None,
            },
        }
    }
}

/// The envelope of a GraphQL response.
#[derive(Debug)]
pub struct GraphQLResponse<T> {
    pub data: Option<T>,
    pub errors: Option<Vec<GraphQLError>>,
}

/// One error that the endpoint reports inside a response.
#[derive(Debug)]
pub struct GraphQLError {
    pub message: String,
}

impl View for GraphQLError {
    type V = Seq<char>;

    open spec fn view(&self) -> Seq<char> {
        self.message@
    }
}

/// The messages of a list of errors, one by one.
pub open spec fn error_messages(errors: Seq<GraphQLError>) -> Seq<Seq<char>> {
    Seq::new(errors.len(), |i: int| errors[i]@)
}

/// The data of a board query: the boards that matched.
#[derive(Debug)]
pub struct BoardStructureResponse {
    pub boards: Vec<Board>,
}

impl View for BoardStructureResponse {
    type V = Seq<BoardModel>;

    open spec fn view(&self) -> Seq<BoardModel> {
        board_views(self.boards@)
    }
}

/// A board with its groups and one page of its items.
#[derive(Debug)]
pub struct Board {
    pub name: String,
    pub id: String,
    pub groups: Vec<Group>,
    pub items_page: ItemsPage,
}

/// The value of a [`Board`].
pub struct BoardModel {
    pub name: Seq<char>,
    pub id: Seq<char>,
    pub groups: Seq<GroupModel>,
    pub items: Seq<ItemModel>,
}

impl View for Board {
    type V = BoardModel;

    open spec fn view(&self) -> BoardModel {
        BoardModel {
            name: self.name@,
            id: self.id@,
            groups: group_views(self.groups@),
            items: self.items_page@,
        }
    }
}

/// The values of a list of boards, one by one.
pub open spec fn board_views(boards: Seq<Board>) -> Seq<BoardModel> {
    Seq::new(boards.len(), |i: int| boards[i]@)
}

/// A named partition of a board's items.
#[derive(Debug)]
pub struct Group {
    pub id: String,
    pub title: String,
}

/// The value of a [`Group`].
pub struct GroupModel {
    pub id: Seq<char>,
    pub title: Seq<char>,
}

impl View for Group {
    type V = GroupModel;

    open spec fn view(&self) -> GroupModel {
        GroupModel { id: self.id@, title: self.title@ }
    }
}

/// The values of a list of groups, one by one.
pub open spec fn group_views(groups: Seq<Group>) -> Seq<GroupModel> {
    Seq::new(groups.len(), |i: int| groups[i]@)
}

/// One page of a board's items.
#[derive(Debug)]
pub struct ItemsPage {
    pub items: Vec<Item>,
}

impl View for ItemsPage {
    type V = Seq<ItemModel>;

    open spec fn view(&self) -> Seq<ItemModel> {
        item_views(self.items@)
    }
}

/// One row of a board.
#[derive(Debug)]
pub struct Item {
    pub id: String,
    pub name: String,
    pub group: GroupReference,
    pub column_values: Vec<ColumnValue>,
}

/// The value of an [`Item`]; `group_id` is the id that its group reference holds.
pub struct ItemModel {
    pub id: Seq<char>,
    pub name: Seq<char>,
    pub group_id: Seq<char>,
    pub column_values: Seq<ColumnValueModel>,
}

impl View for Item {
    type V = ItemModel;

    open spec fn view(&self) -> ItemModel {
        ItemModel {
            id: self.id@,
            name: self.name@,
            group_id: self.group@,
            column_values: column_value_views(self.column_values@),
        }
    }
}

/// The values of a list of items, one by one.
pub open spec fn item_views(items: Seq<Item>) -> Seq<ItemModel> {
    Seq::new(items.len(), |i: int| items[i]@)
}

/// The group an item belongs to, by the group's id.
#[derive(Debug)]
pub struct GroupReference {
    pub id: String,
}

impl View for GroupReference {
    type V = Seq<char>;

    open spec fn view(&self) -> Seq<char> {
        self.id@
    }
}

/// What one column holds for one item: the column's id and the raw value.
#[derive(Debug)]
pub struct ColumnValue {
    pub id: String,
    pub value: Option<String>,
}

/// The value of a [`ColumnValue`].
pub struct ColumnValueModel {
    pub id: Seq<char>,
    pub value: Option<Seq<char>>,
}

impl View for ColumnValue {
    type V = ColumnValueModel;

    open spec fn view(&self) -> ColumnValueModel {
        ColumnValueModel {
            id: self.id@,
            value: match self.value {
                Some(raw) => Some(raw@),
                None => None,
            },
        }
    }
}

/// The values of a list of column values, one by one.
pub open spec fn column_value_views(values: Seq<ColumnValue>) -> Seq<ColumnValueModel> {
    Seq::new(values.len(), |i: int| values[i]@)
}

/// The variables of the mutation that creates an item.
#[derive(Debug)]
pub struct CreateItemVariables {
    pub board_id: String,
    pub group_id: String,
    pub item_name: String,
    pub column_values: String,
}

/// The value of a [`CreateItemVariables`].
pub struct CreateItemVariablesModel {
    pub board_id: Seq<char>,
    pub group_id: Seq<char>,
    pub item_name: Seq<char>,
    pub column_values: Seq<char>,
}

impl View for CreateItemVariables {
    type V = CreateItemVariablesModel;

    open spec fn view(&self) -> CreateItemVariablesModel {
        CreateItemVariablesModel {
            board_id: self.board_id@,
            group_id: self.group_id@,
            item_name: self.item_name@,
            column_values: self.column_values@,
        }
    }
}

} // verus!
