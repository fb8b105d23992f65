use monday_claim::activity::ActivityCode;
use monday_claim::config::Config;
use monday_claim::decode::CreateOutcome;
use monday_claim::groups::GroupLookup;
use monday_claim::groups::GroupsMissing;
use monday_claim::requests::column_values;
use monday_claim::requests::CREATE_ITEM_MUTATION;
use monday_claim::workflow::add_after_lookup;
use monday_claim::workflow::add_begin;
use monday_claim::workflow::add_step;
use monday_claim::workflow::query_request;
use monday_claim::workflow::AddAction;
use monday_claim::workflow::AddArgs;
use monday_claim::workflow::AddEvent;
use monday_claim::workflow::AddResult;
use monday_claim::workflow::AddState;

const GROUPS: &str = "{\"data\":{\"boards\":[{\"groups\":[{\"id\":\"g1\",\"title\":\"2023\"},{\"id\":\"g2\",\"title\":\"2024\"}]}]}}";

fn config(user_id: &str) -> Config {
    Config { api_key: "key".to_string(), board_id: "555".to_string(), user_id: user_id.to_string() }
}

fn args(activity: &str, year: &str) -> AddArgs {
    AddArgs {
        year: year.to_string(),
        name: "Task".to_string(),
        activity: activity.to_string(),
        date: "2024-03-04".to_string(),
        client: "ACME".to_string(),
        work_item: "WI-9".to_string(),
        hours: "8".to_string(),
    }
}

#[test]
fn bogus_activity_stops_without_any_request() {
    let step = add_step(&config("42"), &args("bogus", "2024"), AddState::Start, AddEvent::Begin);
    assert_eq!(step.state, AddState::Finished);
    assert!(matches!(step.action, AddAction::Stop(AddResult::InvalidActivity)));
    let later = add_step(
        &config("42"),
        &args("bogus", "2024"),
        step.state,
        AddEvent::Response(GROUPS.to_string()),
    );
    assert_eq!(later.state, AddState::Finished);
    assert!(matches!(later.action, AddAction::Stop(AddResult::OutOfTurn)));
}

#[test]
fn known_activity_asks_for_the_groups_first() {
    let step = add_begin(&config("42"), &args("Billable", "2024"));
    assert_eq!(step.state, AddState::AwaitingGroups(ActivityCode::Billable));
    match step.action {
        AddAction::SendGroupsQuery(request) => {
            assert!(request.query.contains("query GetBoardGroups"));
            assert!(request.query.contains("boards(ids: \"555\")"));
        }
        other => panic!("{:?}", other),
    }
}

#[test]
fn found_group_leads_to_the_creation_request() {
    let step = add_step(
        &config("42"),
        &args("Billable", "2024"),
        AddState::AwaitingGroups(ActivityCode::Billable),
        AddEvent::Response(GROUPS.to_string()),
    );
    assert_eq!(step.state, AddState::AwaitingCreation);
    match step.action {
        AddAction::SendCreateItem { group_id, activity, request } => {
            assert_eq!(group_id, "g2");
            assert_eq!(activity, ActivityCode::Billable);
            assert_eq!(request.query, CREATE_ITEM_MUTATION);
            let expected = column_values(42, ActivityCode::Billable, "2024-03-04", "ACME", "WI-9", "8");
            let variables = request.variables.unwrap();
            assert_eq!(variables.get("boardId").unwrap().as_str(), Some("555"));
            assert_eq!(variables.get("groupId").unwrap().as_str(), Some("g2"));
            assert_eq!(variables.get("itemName").unwrap().as_str(), Some("Task"));
            assert_eq!(
                variables.get("columnValues").unwrap().as_str(),
                Some(expected.to_text().as_str())
            );
        }
        other => panic!("{:?}", other),
    }
}

#[test]
fn the_whole_run_ends_with_the_creation_outcome() {
    let config = config("42");
    let args = args("holiday", "2023");
    let first = add_step(&config, &args, AddState::Start, AddEvent::Begin);
    assert!(matches!(first.action, AddAction::SendGroupsQuery(_)));
    let second = add_step(&config, &args, first.state, AddEvent::Response(GROUPS.to_string()));
    assert!(matches!(&second.action, AddAction::SendCreateItem { group_id, .. } if group_id == "g1"));
    let third = add_step(
        &config,
        &args,
        second.state,
        AddEvent::Response("{\"data\":{\"create_item\":{\"id\":\"900\"}}}".to_string()),
    );
    assert_eq!(third.state, AddState::Finished);
    assert!(matches!(
        third.action,
        AddAction::Stop(AddResult::Creation(CreateOutcome::Created(Some(id)))) if id == "\"900\""
    ));
}

#[test]
fn unknown_year_stops_with_the_available_groups() {
    let step = add_step(
        &config("42"),
        &args("tbd", "1999"),
        AddState::AwaitingGroups(ActivityCode::Tbd),
        AddEvent::Response(GROUPS.to_string()),
    );
    assert_eq!(step.state, AddState::Finished);
    match step.action {
        AddAction::Stop(AddResult::LookupFailed(GroupLookup::NotFound(missing))) => {
            assert_eq!(missing.label, "1999");
            assert_eq!(missing.available.len(), 2);
        }
        other => panic!("{:?}", other),
    }
}

#[test]
fn failed_lookups_stop_the_run() {
    let state = AddState::AwaitingGroups(ActivityCode::Tbd);
    let step = add_step(&config("42"), &args("tbd", "2024"), state, AddEvent::Response("{".to_string()));
    assert!(matches!(
        step.action,
        AddAction::Stop(AddResult::LookupFailed(GroupLookup::ParseFailed(error)))
            if error.message == "EOF while parsing an object at line 1 column 1" && error.text == "{"
    ));
    let step = add_step(
        &config("42"),
        &args("tbd", "2024"),
        state,
        AddEvent::Response("{\"errors\":[{\"message\":\"m\"}]}".to_string()),
    );
    assert!(matches!(step.action, AddAction::Stop(AddResult::LookupFailed(GroupLookup::Errors(_)))));
    let step = add_step(&config("42"), &args("tbd", "2024"), state, AddEvent::Response("{}".to_string()));
    assert!(matches!(
        step.action,
        AddAction::Stop(AddResult::LookupFailed(GroupLookup::Missing(GroupsMissing::NoData)))
    ));
    assert_eq!(step.state, AddState::Finished);
}

#[test]
fn user_id_that_is_no_integer_stops_after_the_lookup() {
    let step = add_step(
        &config("forty-two"),
        &args("billable", "2024"),
        AddState::AwaitingGroups(ActivityCode::Billable),
        AddEvent::Response(GROUPS.to_string()),
    );
    assert_eq!(step.state, AddState::Finished);
    assert!(matches!(step.action, AddAction::Stop(AddResult::InvalidUserId(id)) if id == "g2"));
    let step = add_step(
        &config("forty-two"),
        &args("billable", "1999"),
        AddState::AwaitingGroups(ActivityCode::Billable),
        AddEvent::Response(GROUPS.to_string()),
    );
    assert!(matches!(step.action, AddAction::Stop(AddResult::LookupFailed(_))));
}

#[test]
fn add_after_lookup_goes_by_the_lookup() {
    let step = add_after_lookup(
        &config("7"),
        &args("tbd", "2024"),
        ActivityCode::Tbd,
        GroupLookup::Found("gx".to_string()),
    );
    assert!(matches!(&step.action, AddAction::SendCreateItem { group_id, .. } if group_id == "gx"));
    let step = add_after_lookup(
        &config("7"),
        &args("tbd", "2024"),
        ActivityCode::Tbd,
        GroupLookup::Missing(GroupsMissing::NoBoards),
    );
    assert!(matches!(
        step.action,
        AddAction::Stop(AddResult::LookupFailed(GroupLookup::Missing(GroupsMissing::NoBoards)))
    ));
}

#[test]
fn events_out_of_turn_stop_the_run() {
    let config = config("42");
    let args = args("tbd", "2024");
    let cases = [
        (AddState::Start, AddEvent::Response("{}".to_string())),
        (AddState::AwaitingGroups(ActivityCode::Tbd), AddEvent::Begin),
        (AddState::AwaitingCreation, AddEvent::Begin),
        (AddState::Finished, AddEvent::Begin),
        (AddState::Finished, AddEvent::Response("{}".to_string())),
    ];
    for (state, event) in cases {
        let step = add_step(&config, &args, state, event);
        assert_eq!(step.state, AddState::Finished);
        assert!(matches!(step.action, AddAction::Stop(AddResult::OutOfTurn)));
    }
}

#[test]
fn creation_answers_end_the_run_whatever_they_hold() {
    let step = add_step(
        &config("42"),
        &args("tbd", "2024"),
        AddState::AwaitingCreation,
        AddEvent::Response("{\"errors\":[{\"message\":\"m\"}],\"data\":{\"create_item\":{\"id\":1}}}".to_string()),
    );
    assert_eq!(step.state, AddState::Finished);
    assert!(matches!(step.action, AddAction::Stop(AddResult::Creation(CreateOutcome::Errors(_)))));
}

#[test]
fn query_request_asks_for_the_configured_board() {
    let request = query_request(&config("42"), "25");
    assert!(request.query.contains("query GetBoardStructure"));
    assert!(request.query.contains("boards(ids: \"555\")"));
    assert!(request.query.contains("items_page(limit: 25)"));
}
