use account_value::api::CollectiblesAccountValueCollectible;
use account_value::api::ExchangeRate;
use account_value::api::ProfileInfo;
use account_value::api::RemoteReply;
use account_value::markup::inventory_markup;
use account_value::presenter::exchange_rate_text;
use account_value::presenter::ResultPanel;
use account_value::presenter::Screen;
use account_value::presenter::UiEvent;
use account_value::presenter::UiState;
use account_value::workflow::LookupError;
use account_value::workflow::LookupResult;

fn result(displayname: Option<&str>) -> LookupResult {
    LookupResult {
        account_id: 123,
        total_value: 500,
        value_in_local_currency: 5,
        items: Vec::new(),
        profile: ProfileInfo {
            username: "bob".to_string(),
            displayname: displayname.map(|name| name.to_string()),
            avatar: "u.png".to_string(),
        },
    }
}

fn expected_messages() -> [(LookupError, &'static str); 4] {
    [
        (LookupError::EmptyOrInvalidIdentifier, "Please insert a valid account id"),
        (
            LookupError::InventoryNotPublic,
            "Please make sure the account has inventory set as public",
        ),
        (LookupError::ValuationUnavailable, "Could not retrieve account value"),
        (LookupError::ProfileUnavailable, "Error getting profile info"),
    ]
}

#[test]
fn each_error_has_its_message() {
    for (error, message) in expected_messages() {
        assert_eq!(error.message(), message);
    }
}

#[test]
fn a_submit_with_an_identifier_starts_loading() {
    assert_eq!(UiState::Idle.transition(UiEvent::SubmitAccepted), UiState::Loading);
    assert_eq!(
        UiState::Error("x".to_string()).transition(UiEvent::SubmitAccepted),
        UiState::Loading
    );
    assert_eq!(UiState::Result(result(None)).transition(UiEvent::SubmitAccepted), UiState::Loading);
}

#[test]
fn a_submit_without_an_identifier_shows_its_error() {
    let expected = UiState::Error("Please insert a valid account id".to_string());
    assert_eq!(UiState::Idle.transition(UiEvent::SubmitRejected), expected);
    assert_eq!(UiState::Error("x".to_string()).transition(UiEvent::SubmitRejected), expected);
    assert_eq!(UiState::Result(result(None)).transition(UiEvent::SubmitRejected), expected);
}

#[test]
fn a_submit_during_loading_changes_nothing() {
    assert_eq!(UiState::Loading.transition(UiEvent::SubmitAccepted), UiState::Loading);
    assert_eq!(UiState::Loading.transition(UiEvent::SubmitRejected), UiState::Loading);
}

#[test]
fn the_end_of_a_lookup_leaves_loading() {
    assert_eq!(
        UiState::Loading.transition(UiEvent::LookupSucceeded(result(None))),
        UiState::Result(result(None))
    );
    for (error, message) in expected_messages() {
        assert_eq!(
            UiState::Loading.transition(UiEvent::LookupFailed(error)),
            UiState::Error(message.to_string())
        );
    }
}

#[test]
fn the_end_of_a_lookup_counts_only_during_loading() {
    assert_eq!(UiState::Idle.transition(UiEvent::LookupSucceeded(result(None))), UiState::Idle);
    assert_eq!(
        UiState::Idle.transition(UiEvent::LookupFailed(LookupError::ProfileUnavailable)),
        UiState::Idle
    );
    assert_eq!(
        UiState::Error("x".to_string())
            .transition(UiEvent::LookupFailed(LookupError::ProfileUnavailable)),
        UiState::Error("x".to_string())
    );
    assert_eq!(
        UiState::Result(result(None)).transition(UiEvent::LookupSucceeded(result(Some("B")))),
        UiState::Result(result(None))
    );
}

#[test]
fn only_loading_is_loading() {
    assert!(UiState::Loading.is_loading());
    assert!(!UiState::Idle.is_loading());
    assert!(!UiState::Error(String::new()).is_loading());
    assert!(!UiState::Result(result(None)).is_loading());
}

#[test]
fn the_idle_screen() {
    assert_eq!(
        UiState::Idle.screen(),
        Screen { controls_enabled: true, busy: false, error_text: None, result: None }
    );
}

#[test]
fn the_loading_screen_disables_the_controls() {
    assert_eq!(
        UiState::Loading.screen(),
        Screen { controls_enabled: false, busy: true, error_text: None, result: None }
    );
}

#[test]
fn the_error_screen_shows_the_message_and_hides_the_result() {
    assert_eq!(
        UiState::Error("Error getting profile info".to_string()).screen(),
        Screen {
            controls_enabled: true,
            busy: false,
            error_text: Some("Error getting profile info".to_string()),
            result: None,
        }
    );
}

#[test]
fn the_result_screen_shows_the_account() {
    let screen = UiState::Result(result(None)).screen();
    assert!(screen.controls_enabled);
    assert!(!screen.busy);
    assert_eq!(screen.error_text, None);
    assert_eq!(
        screen.result,
        Some(ResultPanel {
            avatar: "u.png".to_string(),
            avatar_alt: "u.png's avatar".to_string(),
            profile_link: "https://www.roblox.com/users/123/profile".to_string(),
            display_name: "bob".to_string(),
            handle: "@bob".to_string(),
            robux_text: "Robux: 500".to_string(),
            euro_text: "Euros: 5€".to_string(),
            inventory: Vec::new(),
        })
    );
}

#[test]
fn the_display_name_is_shown_where_there_is_one() {
    let panel = ResultPanel::new(&result(Some("Bobby")));
    assert_eq!(panel.display_name, "Bobby");
    assert_eq!(panel.handle, "@bob");
}

#[test]
fn the_user_name_stands_in_for_a_missing_display_name() {
    let panel = ResultPanel::new(&result(None));
    assert_eq!(panel.display_name, "bob");
}

#[test]
fn the_result_region_lists_the_items_in_order() {
    let mut found = result(None);
    found.items = vec![
        CollectiblesAccountValueCollectible {
            name: "Second".to_string(),
            price: 2,
            id: 20,
            serialnumber: None,
            thumbnail: "s.png".to_string(),
        },
        CollectiblesAccountValueCollectible {
            name: "First".to_string(),
            price: 1,
            id: 10,
            serialnumber: Some(7),
            thumbnail: "f.png".to_string(),
        },
    ];
    let panel = ResultPanel::new(&found);
    assert_eq!(panel.inventory.len(), 2);
    assert_eq!(panel.inventory[0].name, "Second");
    assert_eq!(panel.inventory[0].serial_badge, None);
    assert_eq!(panel.inventory[1].name, "First");
    assert_eq!(panel.inventory[1].serial_badge, Some("#7".to_string()));
    assert_eq!(panel.inventory[1].catalog_link, "https://www.roblox.com/catalog/10");
    assert_eq!(panel.inventory[1].price_text, "1 robux");
}

#[test]
fn an_empty_result_shows_the_placeholder() {
    let panel = ResultPanel::new(&result(None));
    assert_eq!(inventory_markup(&panel.inventory), "No items found :(");
}

#[test]
fn showing_a_state_does_not_change_it() {
    let state = UiState::Result(result(Some("B")));
    let first = state.screen();
    let second = state.screen();
    assert_eq!(first, second);
    assert_eq!(state, UiState::Result(result(Some("B"))));
}

#[test]
fn the_exchange_rate_line() {
    let reply = RemoteReply::Rate(ExchangeRate { robux_per_euro: 80 });
    assert_eq!(exchange_rate_text(&reply), "80 Robux per 1€");
}

#[test]
fn a_missing_exchange_rate_shows_as_zero() {
    assert_eq!(exchange_rate_text(&RemoteReply::Failed), "0 Robux per 1€");
    assert_eq!(exchange_rate_text(&RemoteReply::Visibility(true)), "0 Robux per 1€");
}
