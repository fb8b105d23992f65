use crate::activity::ActivityCode;
use crate::config::Config;
use crate::config::ConfigModel;
use crate::decode::create_outcome;
use crate::decode::is_create_outcome_of;
use crate::decode::CreateOutcome;
use crate::groups::is_lookup_of;
use crate::groups::lookup_group;
use crate::groups::GroupLookup;
use crate::json::json_parse;
use crate::json::is_refusal_of;
use crate::json::json_text;
use crate::models::GraphQLRequest;
use crate::requests::board_request;
use crate::requests::board_request_model;
use crate::requests::column_values;
use crate::requests::column_values_value;
use crate::requests::create_item_request;
use crate::requests::create_request_model;
use crate::requests::groups_request;
use crate::requests::groups_request_model;
use crate::text::lowercased;
use crate::text::parse_i64;
use crate::text::spec_parse_i64;
use vstd::prelude::*;

verus! {

/// What the user asks to add: the year whose group takes the item, the
/// item's name, and what its columns are to hold.
#[derive(Debug)]
pub struct AddArgs {
    pub year: String,
    pub name: String,
    pub activity: String,
    pub date: String,
    pub client: String,
    pub work_item: String,
    pub hours: String,
}

/// The value of an [`AddArgs`].
pub struct AddArgsModel {
    pub year: Seq<char>,
    pub name: Seq<char>,
    pub activity: Seq<char>,
    pub date: Seq<char>,
    pub client: Seq<char>,
    pub work_item: Seq<char>,
    pub hours: Seq<char>,
}

impl View for AddArgs {
    type V = AddArgsModel;

    open spec fn view(&self) -> AddArgsModel {
        AddArgsModel {
            year: self.year@,
            name: self.name@,
            activity: self.activity@,
            date: self.date@,
            client: self.client@,
            work_item: self.work_item@,
            hours: self.hours@,
        }
    }
}

/// How far the adding of an item has come.
#[derive(Debug, Clone, Copy, PartialEq, Eq, Structural)]
pub enum AddState {
    /// Nothing was done yet.
    Start,
    /// The groups were asked for; the activity is known.
    AwaitingGroups(ActivityCode),
    /// The creation was asked for.
    AwaitingCreation,
    /// Nothing is left to do.
    Finished,
}

/// What happened since the last step.
#[derive(Debug)]
pub enum AddEvent {
    /// The run begins.
    Begin,
    /// The answer to the request that the last step sent.
    Response(String),
}

/// The value of an [`AddEvent`].
pub enum AddEventModel {
    Begin,
    Response(Seq<char>),
}

impl View for AddEvent {
    type V = AddEventModel;

    open spec fn view(&self) -> AddEventModel {
        match self {
            AddEvent::Begin => AddEventModel::Begin,
            AddEvent::Response(text) => AddEventModel::Response(text@),
        }
    }
}

/// How the adding of an item ended.
#[derive(Debug)]
pub enum AddResult {
    /// The activity label names no activity. Nothing was sent.
    InvalidActivity,
    /// The group of the year was not found; the lookup says why.
    LookupFailed(GroupLookup),
    /// The group with this id was found, but the configured user id is no
    /// integer.
    InvalidUserId(String),
    /// The creation was asked for; the outcome says what came back.
    Creation(CreateOutcome),
    /// The event does not fit the state. Nothing was sent.
    OutOfTurn,
}

/// What is to be done next.
#[derive(Debug)]
pub enum AddAction {
    /// Send the request for the board's groups.
    SendGroupsQuery(GraphQLRequest),
    /// Send the request that creates the item in the group found.
    SendCreateItem { group_id: String, activity: ActivityCode, request: GraphQLRequest },
    /// Stop, with the result to report.
    Stop(AddResult),
}

/// One step of the adding of an item: the state after it and what to do.
#[derive(Debug)]
pub struct AddStep {
    pub state: AddState,
    pub action: AddAction,
}

/// The id of the group that a response gives for `label`: the response
/// parsed, reports no errors, holds a list of groups, and the label resolves
/// in it.
pub open spec fn found_group(response: Seq<char>, label: Seq<char>) -> Option<Seq<char>> {
    match json_parse(response) {
        Some(parsed) => if crate::decode::reported_errors(parsed) is None {
            match crate::groups::groups_array(parsed) {
                Ok(items) => crate::groups::resolve(crate::groups::loose_groups(items), label),
                Err(_) => None,
            }
        } else {
            None
        },
        None => None,
    }
}

/// Whether `step` is the step that follows `event` in `state`.
///
/// At the start the activity label is put in lower case and looked up: an
/// unknown label ends the run, a known one asks for the board's groups. The
/// answer to that is searched for the group of the year: where it is found
/// and the user id is an integer, the item's creation is asked for; else the
/// run ends. The answer to the creation ends the run. An event that does not
/// fit the state ends the run too.
pub open spec fn is_add_step(
    step: AddStep,
    config: ConfigModel,
    args: AddArgsModel,
    state: AddState,
    event: AddEventModel,
) -> bool {
    match (state, event) {
        (AddState::Start, AddEventModel::Begin) => match ActivityCode::spec_from_label(
            lowercased(args.activity),
        ) {
            Some(code) => {
                &&& step.state == AddState::AwaitingGroups(code)
                &&& step.action matches AddAction::SendGroupsQuery(request)
                &&& request@ == groups_request_model(config.board_id)
            },
            None => {
                &&& step.state == AddState::Finished
                &&& step.action matches AddAction::Stop(AddResult::InvalidActivity)
            },
        },
        (AddState::AwaitingGroups(code), AddEventModel::Response(text)) => match (
            found_group(text, args.year),
            spec_parse_i64(config.user_id),
        ) {
            (Some(id), Some(user_id)) => {
                &&& step.state == AddState::AwaitingCreation
                &&& step.action matches AddAction::SendCreateItem { group_id, activity, request }
                &&& group_id@ == id
                &&& activity == code
                &&& request@ == create_request_model(
                    config.board_id,
                    id,
                    args.name,
                    json_text(
                        column_values_value(
                            user_id as int,
                            code,
                            args.date,
                            args.client,
                            args.work_item,
                            args.hours,
                        ),
                    ),
                )
            },
            (Some(id), None) => {
                &&& step.state == AddState::Finished
                &&& step.action matches AddAction::Stop(AddResult::InvalidUserId(group_id))
                &&& group_id@ == id
            },
            (None, _) => {
                &&& step.state == AddState::Finished
                &&& step.action matches AddAction::Stop(AddResult::LookupFailed(lookup))
                &&& is_lookup_of(lookup, json_parse(text), args.year)
                &&& lookup matches GroupLookup::ParseFailed(error) ==> is_refusal_of(error, text)
            },
        },
        (AddState::AwaitingCreation, AddEventModel::Response(text)) => {
            &&& step.state == AddState::Finished
            &&& step.action matches AddAction::Stop(AddResult::Creation(outcome))
            &&& is_create_outcome_of(outcome, json_parse(text))
            &&& outcome matches CreateOutcome::ParseFailed(error) ==> is_refusal_of(error, text)
        },
        _ => {
            &&& step.state == AddState::Finished
            &&& step.action matches AddAction::Stop(AddResult::OutOfTurn)
        },
    }
}

/// The first step: the activity label decides whether anything is sent.
pub fn add_begin(config: &Config, args: &AddArgs) -> (res: AddStep)
    ensures
        is_add_step(res, config@, args@, AddState::Start, AddEventModel::Begin),
{
    match ActivityCode::parse(args.activity.as_str()) {
        Some(code) => AddStep {
            state: AddState::AwaitingGroups(code),
            action: AddAction::SendGroupsQuery(groups_request(config.board_id.as_str())),
        },
        None => AddStep {
            state: AddState::Finished,
            action: AddAction::Stop(AddResult::InvalidActivity),
        },
    }
}

/// Whether `step` is the step that follows the end `lookup` of the search
/// for the group: where the group was found and the user id is an integer,
/// the creation of the item is asked for; else the run ends.
pub open spec fn is_step_after_lookup(
    step: AddStep,
    config: ConfigModel,
    args: AddArgsModel,
    activity: ActivityCode,
    lookup: GroupLookup,
) -> bool {
    match lookup {
        GroupLookup::Found(id) => match spec_parse_i64(config.user_id) {
            Some(user_id) => {
                &&& step.state == AddState::AwaitingCreation
                &&& step.action matches AddAction::SendCreateItem {
                    group_id,
                    activity: sent,
                    request,
                }
                &&& group_id@ == id@
                &&& sent == activity
                &&& request@ == create_request_model(
                    config.board_id,
                    id@,
                    args.name,
                    json_text(
                        column_values_value(
                            user_id as int,
                            activity,
                            args.date,
                            args.client,
                            args.work_item,
                            args.hours,
                        ),
                    ),
                )
            },
            None => {
                &&& step.state == AddState::Finished
                &&& step.action matches AddAction::Stop(AddResult::InvalidUserId(group_id))
                &&& group_id@ == id@
            },
        },
        _ => {
            &&& step.state == AddState::Finished
            &&& step.action matches AddAction::Stop(AddResult::LookupFailed(reported))
            &&& reported == lookup
        },
    }
}

/// The step after the search for the group.
pub fn add_after_lookup(
    config: &Config,
    args: &AddArgs,
    activity: ActivityCode,
    lookup: GroupLookup,
) -> (res: AddStep)
    ensures
        is_step_after_lookup(res, config@, args@, activity, lookup),
{
    match lookup {
        GroupLookup::Found(group_id) => match parse_i64(config.user_id.as_str()) {
            Some(user_id) => {
                let values = column_values(
                    user_id,
                    activity,
                    args.date.as_str(),
                    args.client.as_str(),
                    args.work_item.as_str(),
                    args.hours.as_str(),
                );
                let request = create_item_request(
                    config.board_id.as_str(),
                    group_id.as_str(),
                    args.name.as_str(),
                    &values,
                );
                AddStep {
                    state: AddState::AwaitingCreation,
                    action: AddAction::SendCreateItem { group_id, activity, request },
                }
            },
            None => AddStep {
                state: AddState::Finished,
                action: AddAction::Stop(AddResult::InvalidUserId(group_id)),
            },
        },
        other => AddStep {
            state: AddState::Finished,
            action: AddAction::Stop(AddResult::LookupFailed(other)),
        },
    }
}

/// One step of the adding of an item.
pub fn add_step(config: &Config, args: &AddArgs, state: AddState, event: AddEvent) -> (res: AddStep)
    ensures
        is_add_step(res, config@, args@, state, event@),
{
    match (state, event) {
        (AddState::Start, AddEvent::Begin) => add_begin(config, args),
        (AddState::AwaitingGroups(activity), AddEvent::Response(text)) => {
            let lookup = lookup_group(text.as_str(), args.year.as_str());
            add_after_lookup(config, args, activity, lookup)
        },
        (AddState::AwaitingCreation, AddEvent::Response(text)) => AddStep {
            state: AddState::Finished,
            action: AddAction::Stop(AddResult::Creation(create_outcome(text.as_str()))),
        },
        _ => AddStep { state: AddState::Finished, action: AddAction::Stop(AddResult::OutOfTurn) },
    }
}

/// The request with which a query of the board begins.
pub fn query_request(config: &Config, limit: &str) -> (res: GraphQLRequest)
    ensures
        res@ == board_request_model(config@.board_id, limit@),
{
    board_request(config.board_id.as_str(), limit)
}

/// An unknown activity label ends the run at once: the first step sends
/// nothing, and no step after the end sends anything.
pub proof fn lemma_unknown_activity_sends_nothing(
    config: ConfigModel,
    args: AddArgsModel,
    first: AddStep,
    event: AddEventModel,
    later: AddStep,
)
    requires
        ActivityCode::spec_from_label(lowercased(args.activity)) is None,
        is_add_step(first, config, args, AddState::Start, AddEventModel::Begin),
        is_add_step(later, config, args, first.state, event),
    ensures
        first.action matches AddAction::Stop(AddResult::InvalidActivity),
        first.state == AddState::Finished,
        later.action is Stop,
        later.state == AddState::Finished,
{
}

/// The creation of an item is asked for only in answer to a response in
/// which the group of the year was found.
pub proof fn lemma_creation_needs_group(
    config: ConfigModel,
    args: AddArgsModel,
    state: AddState,
    event: AddEventModel,
    step: AddStep,
)
    requires
        is_add_step(step, config, args, state, event),
        step.action is SendCreateItem,
    ensures
        state is AwaitingGroups,
        event matches AddEventModel::Response(text) && found_group(text, args.year) == Some(
            step.action->group_id@,
        ),
{
}

} // verus!
