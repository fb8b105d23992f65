use crate::json::json_parse;
use crate::json::is_refusal_of;
use crate::decode::reported_errors;
use crate::decode::response_errors;
use crate::json::views;
use crate::json::Json;
use crate::json::JsonValue;
use crate::json::SyntaxError;
use crate::models::group_views;
use crate::models::Group;
use crate::models::GroupModel;
use crate::text::str_eq;
use crate::text::string_views;
use vstd::prelude::*;

verus! {

/// The id of the first group of `groups` whose title is exactly `label`.
pub open spec fn resolve(groups: Seq<GroupModel>, label: Seq<char>) -> Option<Seq<char>>
    decreases groups.len(),
{
    if groups.len() == 0 {
        None
    } else if groups[0].title == label {
        Some(groups[0].id)
    } else {
        resolve(groups.drop_first(), label)
    }
}

/// The first match wins: where the group at `i` has the title `label` and no
/// group before it has, the label resolves to the id of the group at `i`.
pub proof fn lemma_resolve_first_match(groups: Seq<GroupModel>, label: Seq<char>, i: int)
    requires
        0 <= i < groups.len(),
        groups[i].title == label,
        forall|j: int| 0 <= j < i ==> groups[j].title != label,
    ensures
        resolve(groups, label) == Some(groups[i].id),
    decreases i,
{
    if i > 0 {
        lemma_resolve_first_match(groups.drop_first(), label, i - 1);
    }
}

/// A label resolves to nothing exactly when no group has it as its title.
pub proof fn lemma_resolve_none(groups: Seq<GroupModel>, label: Seq<char>)
    ensures
        resolve(groups, label) is None <==> forall|j: int|
            0 <= j < groups.len() ==> groups[j].title != label,
    decreases groups.len(),
{
    if groups.len() > 0 {
        let rest = groups.drop_first();
        lemma_resolve_none(rest, label);
        if resolve(groups, label) is None {
            assert forall|j: int| 0 <= j < groups.len() implies groups[j].title != label by {
                if j > 0 {
                    assert(rest[j - 1] == groups[j]);
                }
            }
        } else if groups[0].title != label {
            let j = choose|j: int| 0 <= j < rest.len() && rest[j].title == label;
            assert(groups[j + 1] == rest[j]);
        }
    }
}

/// Matching is exact: a label resolves only to the id of a group that has
/// this very label as its title.
pub proof fn lemma_resolve_is_exact(groups: Seq<GroupModel>, label: Seq<char>)
    ensures
        resolve(groups, label) matches Some(id) ==> exists|i: int|
            0 <= i < groups.len() && groups[i].title == label && groups[i].id == id,
    decreases groups.len(),
{
    if groups.len() > 0 && groups[0].title != label {
        let rest = groups.drop_first();
        lemma_resolve_is_exact(rest, label);
        if resolve(rest, label) is Some {
            let id = resolve(rest, label)->Some_0;
            let i = choose|i: int| 0 <= i < rest.len() && rest[i].title == label && rest[i].id == id;
            assert(groups[i + 1] == rest[i]);
        }
    }
}

/// A label that matched no group, with the groups that there are.
#[derive(Debug)]
pub struct GroupNotFound {
    pub label: String,
    pub available: Vec<Group>,
}

/// A copy of a list of groups.
pub fn copy_groups(groups: &Vec<Group>) -> (res: Vec<Group>)
    ensures
        group_views(res@) == group_views(groups@),
{
    let mut res: Vec<Group> = Vec::new();
    let mut i: usize = 0;
    while i < groups.len()
        invariant
            i <= groups.len(),
            res@.len() == i,
            forall|k: int| 0 <= k < i ==> res@[k]@ == groups@[k]@,
        decreases groups.len() - i,
    {
        res.push(Group { id: groups[i].id.clone(), title: groups[i].title.clone() });
        i += 1;
    }
    assert(group_views(res@) =~= group_views(groups@));
    res
}

/// Finds the group for a label: the id of the first group whose title is
/// exactly `label`, or the label and all the groups where none matches.
pub fn resolve_group(groups: &Vec<Group>, label: &str) -> (res: Result<String, GroupNotFound>)
    ensures
        match res {
            Ok(id) => resolve(group_views(groups@), label@) == Some(id@),
            Err(missing) => {
                &&& resolve(group_views(groups@), label@) is None
                &&& missing.label@ == label@
                &&& group_views(missing.available@) == group_views(groups@)
            },
        },
{
    let ghost all = group_views(groups@);
    let mut i: usize = 0;
    while i < groups.len()
        invariant
            i <= groups.len(),
            all == group_views(groups@),
            forall|j: int| 0 <= j < i ==> all[j].title != label@,
        decreases groups.len() - i,
    {
        if str_eq(groups[i].title.as_str(), label) {
            proof {
                lemma_resolve_first_match(all, label@, i as int);
            }
            return Ok(groups[i].id.clone());
        }
        i += 1;
    }
    proof {
        lemma_resolve_none(all, label@);
    }
    Err(GroupNotFound { label: label.to_owned(), available: copy_groups(groups) })
}

/// The groups that a JSON array of groups describes: in order, each element
/// that has a string `id` and a string `title`; any other element is left out.
pub open spec fn loose_groups(items: Seq<JsonValue>) -> Seq<GroupModel>
    decreases items.len(),
{
    if items.len() == 0 {
        seq![]
    } else {
        let rest = loose_groups(items.drop_last());
        match (items.last().field("id"@), items.last().field("title"@)) {
            (Some(JsonValue::Str(id)), Some(JsonValue::Str(title))) => rest.push(
                GroupModel { id, title },
            ),
            _ => rest,
        }
    }
}

/// Reads the groups out of a JSON array of groups.
pub fn groups_from_json(items: &Vec<Json>) -> (res: Vec<Group>)
    ensures
        group_views(res@) == loose_groups(views(items@)),
{
    let ghost all = views(items@);
    let mut res: Vec<Group> = Vec::new();
    let mut i: usize = 0;
    assert(all.take(0) =~= seq![]);
    while i < items.len()
        invariant
            i <= items.len(),
            all == views(items@),
            group_views(res@) == loose_groups(all.take(i as int)),
        decreases items.len() - i,
    {
        let ghost before = group_views(res@);
        proof {
            assert(all.take(i + 1).drop_last() =~= all.take(i as int));
            assert(all.take(i + 1).last() == items@[i as int]@);
        }
        let id = items[i].get("id");
        let title = items[i].get("title");
        if let (Some(id), Some(title)) = (id, title) {
            if let (Some(id), Some(title)) = (id.as_str(), title.as_str()) {
                res.push(Group { id: id.to_owned(), title: title.to_owned() });
                assert(group_views(res@) =~= before.push(GroupModel { id: id@, title: title@ }));
            }
        }
        i += 1;
    }
    assert(all.take(items.len() as int) =~= all);
    res
}

/// Why a response holds no list of groups.
#[derive(Debug, Clone, Copy, PartialEq, Eq, Structural)]
pub enum GroupsMissing {
    /// The response has no `data` member.
    NoData,
    /// `data` has no `boards` member.
    NoBoardsField,
    /// `boards` is not an array.
    BoardsNotArray,
    /// `boards` is an empty array.
    NoBoards,
    /// The first board has no `groups` member.
    NoGroupsField,
    /// `groups` is not an array.
    GroupsNotArray,
}

/// Where a response keeps the groups of its first board: the elements of
/// `data.boards[0].groups`, or what is missing on the way there.
pub open spec fn groups_array(response: JsonValue) -> Result<Seq<JsonValue>, GroupsMissing> {
    match response.field("data"@) {
        None => Err(GroupsMissing::NoData),
        Some(data) => match data.field("boards"@) {
            None => Err(GroupsMissing::NoBoardsField),
            Some(JsonValue::Array(boards)) => if boards.len() == 0 {
                Err(GroupsMissing::NoBoards)
            } else {
                match boards[0].field("groups"@) {
                    None => Err(GroupsMissing::NoGroupsField),
                    Some(JsonValue::Array(groups)) => Ok(groups),
                    Some(_) => Err(GroupsMissing::GroupsNotArray),
                }
            },
            Some(_) => Err(GroupsMissing::BoardsNotArray),
        },
    }
}

/// The groups of the first board of a response.
pub fn board_groups(response: &Json) -> (res: Result<Vec<Group>, GroupsMissing>)
    ensures
        match res {
            Ok(groups) => groups_array(response@) matches Ok(items) && group_views(groups@)
                == loose_groups(items),
            Err(missing) => groups_array(response@) == Err::<Seq<JsonValue>, GroupsMissing>(
                missing,
            ),
        },
{
    let data = match response.get("data") {
        Some(data) => data,
        None => return Err(GroupsMissing::NoData),
    };
    let boards = match data.get("boards") {
        Some(boards) => boards,
        None => return Err(GroupsMissing::NoBoardsField),
    };
    let boards = match boards.as_array() {
        Some(boards) => boards,
        None => return Err(GroupsMissing::BoardsNotArray),
    };
    if boards.len() == 0 {
        return Err(GroupsMissing::NoBoards);
    }
    let groups = match boards[0].get("groups") {
        Some(groups) => groups,
        None => return Err(GroupsMissing::NoGroupsField),
    };
    match groups.as_array() {
        Some(groups) => Ok(groups_from_json(groups)),
        None => Err(GroupsMissing::GroupsNotArray),
    }
}

/// How the search for a label's group in a response ended.
#[derive(Debug)]
pub enum GroupLookup {
    /// The response is no JSON document.
    ParseFailed(SyntaxError),
    /// The response reports errors.
    Errors(Vec<String>),
    /// The response holds no list of groups.
    Missing(GroupsMissing),
    /// No group has the label as its title.
    NotFound(GroupNotFound),
    /// The id of the first group with the label as its title.
    Found(String),
}

/// Whether `lookup` is how the search for `label` ends on a response that
/// parsed as `parsed`: errors come first, then the way to the groups, then
/// the search among them.
pub open spec fn is_lookup_of(lookup: GroupLookup, parsed: Option<JsonValue>, label: Seq<char>) -> bool {
    match lookup {
        GroupLookup::ParseFailed(_) => parsed is None,
        GroupLookup::Errors(messages) => {
            &&& parsed matches Some(response)
            &&& reported_errors(response) == Some(string_views(messages@))
        },
        GroupLookup::Missing(missing) => {
            &&& parsed matches Some(response)
            &&& reported_errors(response) is None
            &&& groups_array(response) == Err::<Seq<JsonValue>, GroupsMissing>(missing)
        },
        GroupLookup::NotFound(missing) => {
            &&& parsed matches Some(response)
            &&& reported_errors(response) is None
            &&& groups_array(response) matches Ok(items)
            &&& resolve(loose_groups(items), label) is None
            &&& missing.label@ == label
            &&& group_views(missing.available@) == loose_groups(items)
        },
        GroupLookup::Found(id) => {
            &&& parsed matches Some(response)
            &&& reported_errors(response) is None
            &&& groups_array(response) matches Ok(items)
            &&& resolve(loose_groups(items), label) == Some(id@)
        },
    }
}

/// Searches a parsed response for the group of `label`.
pub fn lookup_group_in(response: &Json, label: &str) -> (res: GroupLookup)
    ensures
        is_lookup_of(res, Some(response@), label@),
        !(res is ParseFailed),
{
    if let Some(messages) = response_errors(response) {
        return GroupLookup::Errors(messages);
    }
    match board_groups(response) {
        Err(missing) => GroupLookup::Missing(missing),
        Ok(groups) => match resolve_group(&groups, label) {
            Ok(id) => GroupLookup::Found(id),
            Err(missing) => GroupLookup::NotFound(missing),
        },
    }
}

/// Searches the text of a response for the group of `label`. A text that is
/// no JSON document fails with the reader's message and is handed back.
pub fn lookup_group(response_text: &str, label: &str) -> (res: GroupLookup)
    ensures
        is_lookup_of(res, json_parse(response_text@), label@),
        res matches GroupLookup::ParseFailed(error) ==> is_refusal_of(error, response_text@),
{
    match Json::parse(response_text) {
        Ok(response) => lookup_group_in(&response, label),
        Err(error) => GroupLookup::ParseFailed(error),
    }
}

/// Errors come before data: the search in a response with an `errors`
/// member ends with the error outcome, whatever its `data` member holds.
pub proof fn lemma_lookup_errors_take_precedence(
    response: JsonValue,
    label: Seq<char>,
    lookup: GroupLookup,
)
    requires
        response.field("errors"@) is Some,
        is_lookup_of(lookup, Some(response), label),
    ensures
        lookup is Errors,
{
}

} // verus!
