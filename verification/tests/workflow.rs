use account_value::api::CollectiblesAccountValue;
use account_value::api::CollectiblesAccountValueCollectible;
use account_value::api::ExchangeRate;
use account_value::api::ProfileInfo;
use account_value::api::RemoteCall;
use account_value::api::RemoteReply;
use account_value::workflow::advance;
use account_value::workflow::begin;
use account_value::workflow::LookupError;
use account_value::workflow::LookupResult;
use account_value::workflow::WorkflowState;
use account_value::workflow::WorkflowStep;

fn item(name: &str, id: u64, serial: Option<u64>) -> CollectiblesAccountValueCollectible {
    CollectiblesAccountValueCollectible {
        name: name.to_string(),
        price: id * 10,
        id,
        serialnumber: serial,
        thumbnail: format!("{name}.png"),
    }
}

fn valuation() -> CollectiblesAccountValue {
    CollectiblesAccountValue {
        total_robux: 500,
        in_euro: 5,
        collectibles: vec![item("b", 2, None), item("a", 1, Some(7)), item("c", 3, None)],
    }
}

fn profile() -> ProfileInfo {
    ProfileInfo { username: "bob".to_string(), displayname: None, avatar: "u.png".to_string() }
}

#[test]
fn a_lookup_begins_with_the_visibility_check() {
    let (state, call) = begin(123);
    assert_eq!(state, WorkflowState::AwaitingVisibility { account_id: 123 });
    assert_eq!(call, RemoteCall::CanViewInventory(123));
    assert_eq!(state.awaits(), call);
    assert_eq!(state.account_id(), 123);
}

#[test]
fn a_public_inventory_leads_to_the_valuation() {
    let (state, _) = begin(123);
    let step = advance(state, RemoteReply::Visibility(true));
    assert_eq!(
        step,
        WorkflowStep::Call(
            WorkflowState::AwaitingValuation { account_id: 123 },
            RemoteCall::CollectiblesAccountValue(123)
        )
    );
}

#[test]
fn a_private_inventory_ends_the_lookup() {
    let (state, _) = begin(5);
    assert_eq!(
        advance(state, RemoteReply::Visibility(false)),
        WorkflowStep::Failed(LookupError::InventoryNotPublic)
    );
}

#[test]
fn a_failed_visibility_check_ends_the_lookup_the_same_way() {
    let (state, _) = begin(5);
    assert_eq!(
        advance(state, RemoteReply::Failed),
        WorkflowStep::Failed(LookupError::InventoryNotPublic)
    );
}

#[test]
fn an_answer_of_another_shape_fails_the_request_waited_for() {
    let (state, _) = begin(5);
    assert_eq!(
        advance(state, RemoteReply::Valuation(valuation())),
        WorkflowStep::Failed(LookupError::InventoryNotPublic)
    );
    assert_eq!(
        advance(WorkflowState::AwaitingValuation { account_id: 5 }, RemoteReply::Visibility(true)),
        WorkflowStep::Failed(LookupError::ValuationUnavailable)
    );
    assert_eq!(
        advance(WorkflowState::AwaitingValuation { account_id: 5 }, RemoteReply::Profile(profile())),
        WorkflowStep::Failed(LookupError::ValuationUnavailable)
    );
    assert_eq!(
        advance(
            WorkflowState::AwaitingProfile { account_id: 5, valuation: valuation() },
            RemoteReply::Rate(ExchangeRate { robux_per_euro: 3 })
        ),
        WorkflowStep::Failed(LookupError::ProfileUnavailable)
    );
}

#[test]
fn a_failed_valuation_ends_the_lookup() {
    let state = WorkflowState::AwaitingValuation { account_id: 9 };
    assert_eq!(state.awaits(), RemoteCall::CollectiblesAccountValue(9));
    assert_eq!(
        advance(state, RemoteReply::Failed),
        WorkflowStep::Failed(LookupError::ValuationUnavailable)
    );
}

#[test]
fn a_valuation_leads_to_the_profile() {
    let state = WorkflowState::AwaitingValuation { account_id: 9 };
    assert_eq!(
        advance(state, RemoteReply::Valuation(valuation())),
        WorkflowStep::Call(
            WorkflowState::AwaitingProfile { account_id: 9, valuation: valuation() },
            RemoteCall::ProfileInfo(9)
        )
    );
}

#[test]
fn a_failed_profile_ends_the_lookup() {
    let state = WorkflowState::AwaitingProfile { account_id: 9, valuation: valuation() };
    assert_eq!(state.awaits(), RemoteCall::ProfileInfo(9));
    assert_eq!(state.account_id(), 9);
    assert_eq!(
        advance(state, RemoteReply::Failed),
        WorkflowStep::Failed(LookupError::ProfileUnavailable)
    );
}

#[test]
fn three_good_answers_make_a_result() {
    let (state, first) = begin(123);
    let mut calls = vec![first];
    let state = match advance(state, RemoteReply::Visibility(true)) {
        WorkflowStep::Call(state, call) => {
            calls.push(call);
            state
        }
        other => panic!("the lookup stopped early: {other:?}"),
    };
    let state = match advance(state, RemoteReply::Valuation(valuation())) {
        WorkflowStep::Call(state, call) => {
            calls.push(call);
            state
        }
        other => panic!("the lookup stopped early: {other:?}"),
    };
    let result = match advance(state, RemoteReply::Profile(profile())) {
        WorkflowStep::Succeeded(result) => result,
        other => panic!("the lookup did not succeed: {other:?}"),
    };
    assert_eq!(
        calls,
        vec![
            RemoteCall::CanViewInventory(123),
            RemoteCall::CollectiblesAccountValue(123),
            RemoteCall::ProfileInfo(123)
        ]
    );
    assert_eq!(
        result,
        LookupResult {
            account_id: 123,
            total_value: 500,
            value_in_local_currency: 5,
            items: valuation().collectibles,
            profile: profile(),
        }
    );
}

#[test]
fn the_items_keep_the_order_of_the_service() {
    let state = WorkflowState::AwaitingProfile { account_id: 1, valuation: valuation() };
    match advance(state, RemoteReply::Profile(profile())) {
        WorkflowStep::Succeeded(result) => {
            let names: Vec<&str> = result.items.iter().map(|item| item.name.as_str()).collect();
            assert_eq!(names, vec!["b", "a", "c"]);
        }
        other => panic!("the lookup did not succeed: {other:?}"),
    }
}
