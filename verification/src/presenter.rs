//! What the page shows.
//!
//! The page is in one of four states: idle, loading, showing an error or
//! showing a result. A submit and the end of a lookup move it from one to
//! another ([`ui_transition`]), and each state decides what is visible and
//! what can be used ([`screen_of`]). Showing a state changes nothing: the
//! screen is computed from the state and from nothing else.

use vstd::prelude::*;
use vstd::string::*;

use crate::api::ProfileView;
use crate::api::RemoteReply;
use crate::api::RemoteReplyView;
use crate::decimal::decimal_string;
use crate::decimal::decimal_text;
use crate::markup::card_views;
use crate::markup::cards_of;
use crate::markup::item_cards;
use crate::markup::ItemCard;
use crate::markup::ItemCardView;
use crate::workflow::LookupError;
use crate::workflow::LookupResult;
use crate::workflow::LookupResultView;

verus! {

/// Shown after a submit without a usable identifier.
pub const MESSAGE_INVALID_IDENTIFIER: &'static str = "Please insert a valid account id";

/// Shown when the inventory is private or its visibility could not be checked.
pub const MESSAGE_INVENTORY_NOT_PUBLIC: &'static str =
    "Please make sure the account has inventory set as public";

/// Shown when the value of the inventory could not be fetched.
pub const MESSAGE_VALUATION_UNAVAILABLE: &'static str = "Could not retrieve account value";

/// Shown when the profile could not be fetched.
pub const MESSAGE_PROFILE_UNAVAILABLE: &'static str = "Error getting profile info";

/// What stands before the total value.
pub const ROBUX_LABEL: &'static str = "Robux: ";

/// What stands before the value in euros.
pub const EURO_LABEL: &'static str = "Euros: ";

/// What stands after the value in euros.
pub const EURO_SIGN: &'static str = "€";

/// The address of the profile pages, to which an account's number is appended.
pub const PROFILE_URL: &'static str = "https://www.roblox.com/users/";

/// What ends the address of a profile page.
pub const PROFILE_URL_END: &'static str = "/profile";

/// What follows the avatar's address in the avatar's alternative text.
pub const AVATAR_ALT_END: &'static str = "'s avatar";

/// What stands before a user name.
pub const HANDLE_MARK: &'static str = "@";

/// What follows the exchange rate.
pub const RATE_UNIT: &'static str = " Robux per 1€";

/// The message that the page shows for `error`.
pub open spec fn error_message(error: LookupError) -> Seq<char> {
    match error {
        LookupError::EmptyOrInvalidIdentifier => MESSAGE_INVALID_IDENTIFIER@,
        LookupError::InventoryNotPublic => MESSAGE_INVENTORY_NOT_PUBLIC@,
        LookupError::ValuationUnavailable => MESSAGE_VALUATION_UNAVAILABLE@,
        LookupError::ProfileUnavailable => MESSAGE_PROFILE_UNAVAILABLE@,
    }
}

impl LookupError {
    /// The message that the page shows for this error.
    pub fn message(&self) -> (message: &'static str)
        ensures
            message@ == error_message(*self),
    {
        match self {
            LookupError::EmptyOrInvalidIdentifier => MESSAGE_INVALID_IDENTIFIER,
            LookupError::InventoryNotPublic => MESSAGE_INVENTORY_NOT_PUBLIC,
            LookupError::ValuationUnavailable => MESSAGE_VALUATION_UNAVAILABLE,
            LookupError::ProfileUnavailable => MESSAGE_PROFILE_UNAVAILABLE,
        }
    }
}

/// The state of the page.
#[derive(Debug, PartialEq, Eq)]
pub enum UiState {
    /// Nothing was looked up yet.
    Idle,
    /// A lookup is under way.
    Loading,
    /// The last submit ended with this message.
    Error(String),
    /// The last lookup brought this result.
    Result(LookupResult),
}

/// The mathematical content of a [`UiState`].
pub enum UiStateView {
    Idle,
    Loading,
    Error(Seq<char>),
    Result(LookupResultView),
}

impl View for UiState {
    type V = UiStateView;

    open spec fn view(&self) -> UiStateView {
        match self {
            UiState::Idle => UiStateView::Idle,
            UiState::Loading => UiStateView::Loading,
            UiState::Error(message) => UiStateView::Error(message@),
            UiState::Result(result) => UiStateView::Result(result@),
        }
    }
}

/// What can move the page from one state to another.
#[derive(Debug, PartialEq, Eq)]
pub enum UiEvent {
    /// The user submitted a text that holds an account identifier.
    SubmitAccepted,
    /// The user submitted a text that holds none.
    SubmitRejected,
    /// The lookup under way ended with a result.
    LookupSucceeded(LookupResult),
    /// The lookup under way ended with a failure.
    LookupFailed(LookupError),
}

/// The mathematical content of a [`UiEvent`].
pub enum UiEventView {
    SubmitAccepted,
    SubmitRejected,
    LookupSucceeded(LookupResultView),
    LookupFailed(LookupError),
}

impl View for UiEvent {
    type V = UiEventView;

    open spec fn view(&self) -> UiEventView {
        match self {
            UiEvent::SubmitAccepted => UiEventView::SubmitAccepted,
            UiEvent::SubmitRejected => UiEventView::SubmitRejected,
            UiEvent::LookupSucceeded(result) => UiEventView::LookupSucceeded(result@),
            UiEvent::LookupFailed(error) => UiEventView::LookupFailed(*error),
        }
    }
}

/// The state of the page after `event`.
///
/// A submit counts only while no lookup is under way, and the end of a lookup
/// only while one is: any other event leaves the state as it is.
pub open spec fn ui_transition(state: UiStateView, event: UiEventView) -> UiStateView {
    match event {
        UiEventView::SubmitAccepted => if state is Loading {
            state
        } else {
            UiStateView::Loading
        },
        UiEventView::SubmitRejected => if state is Loading {
            state
        } else {
            UiStateView::Error(error_message(LookupError::EmptyOrInvalidIdentifier))
        },
        UiEventView::LookupSucceeded(result) => if state is Loading {
            UiStateView::Result(result)
        } else {
            state
        },
        UiEventView::LookupFailed(error) => if state is Loading {
            UiStateView::Error(error_message(error))
        } else {
            state
        },
    }
}

/// The result region: who the account is and what its inventory is worth.
#[derive(Debug, PartialEq, Eq)]
pub struct ResultPanel {
    /// The address of the avatar's picture.
    pub avatar: String,
    /// The alternative text of the avatar's picture.
    pub avatar_alt: String,
    /// The address of the account's profile page.
    pub profile_link: String,
    /// The name to display: the display name, or the user name where the
    /// profile has no display name.
    pub display_name: String,
    /// The user name behind its mark.
    pub handle: String,
    /// The total value, in Robux.
    pub robux_text: String,
    /// The total value, in euros.
    pub euro_text: String,
    /// The entries of the item list, in the order in which the items came. The
    /// list shows its placeholder where there is no entry.
    pub inventory: Vec<ItemCard>,
}

/// The mathematical content of a [`ResultPanel`].
pub struct ResultPanelView {
    pub avatar: Seq<char>,
    pub avatar_alt: Seq<char>,
    pub profile_link: Seq<char>,
    pub display_name: Seq<char>,
    pub handle: Seq<char>,
    pub robux_text: Seq<char>,
    pub euro_text: Seq<char>,
    pub inventory: Seq<ItemCardView>,
}

impl View for ResultPanel {
    type V = ResultPanelView;

    open spec fn view(&self) -> ResultPanelView {
        ResultPanelView {
            avatar: self.avatar@,
            avatar_alt: self.avatar_alt@,
            profile_link: self.profile_link@,
            display_name: self.display_name@,
            handle: self.handle@,
            robux_text: self.robux_text@,
            euro_text: self.euro_text@,
            inventory: card_views(self.inventory@),
        }
    }
}

/// What is visible on the page and what can be used.
#[derive(Debug, PartialEq, Eq)]
pub struct Screen {
    /// Whether the identifier field and the submit control can be used.
    pub controls_enabled: bool,
    /// Whether the busy indicator is visible.
    pub busy: bool,
    /// The error text, where the error region is visible.
    pub error_text: Option<String>,
    /// The result region, where it is visible.
    pub result: Option<ResultPanel>,
}

/// The mathematical content of a [`Screen`].
pub struct ScreenView {
    pub controls_enabled: bool,
    pub busy: bool,
    pub error_text: Option<Seq<char>>,
    pub result: Option<ResultPanelView>,
}

impl View for Screen {
    type V = ScreenView;

    open spec fn view(&self) -> ScreenView {
        ScreenView {
            controls_enabled: self.controls_enabled,
            busy: self.busy,
            error_text: match self.error_text {
                Some(text) => Some(text@),
                None => None,
            },
            result: match self.result {
                Some(panel) => Some(panel@),
                None => None,
            },
        }
    }
}

/// The name that the page displays for a profile.
pub open spec fn displayed_name(profile: ProfileView) -> Seq<char> {
    match profile.displayname {
        Some(name) => name,
        None => profile.username,
    }
}

/// The result region that shows `result`.
pub open spec fn panel_of(result: LookupResultView) -> ResultPanelView {
    ResultPanelView {
        avatar: result.profile.avatar,
        avatar_alt: result.profile.avatar + AVATAR_ALT_END@,
        profile_link: PROFILE_URL@ + decimal_text(result.account_id as nat) + PROFILE_URL_END@,
        display_name: displayed_name(result.profile),
        handle: HANDLE_MARK@ + result.profile.username,
        robux_text: ROBUX_LABEL@ + decimal_text(result.total_value as nat),
        euro_text: EURO_LABEL@ + decimal_text(result.value_in_local_currency as nat) + EURO_SIGN@,
        inventory: cards_of(result.items),
    }
}

/// The screen of the page in `state`.
///
/// While a lookup is under way the controls are disabled, the busy indicator
/// is visible and neither an error nor a result is. In every other state the
/// controls are enabled and the busy indicator is hidden; the error text is
/// visible only in the error state and the result region only in the result
/// state.
pub open spec fn screen_of(state: UiStateView) -> ScreenView {
    match state {
        UiStateView::Idle => ScreenView {
            controls_enabled: true,
            busy: false,
            error_text: None,
            result: None,
        },
        UiStateView::Loading => ScreenView {
            controls_enabled: false,
            busy: true,
            error_text: None,
            result: None,
        },
        UiStateView::Error(message) => ScreenView {
            controls_enabled: true,
            busy: false,
            error_text: Some(message),
            result: None,
        },
        UiStateView::Result(result) => ScreenView {
            controls_enabled: true,
            busy: false,
            error_text: None,
            result: Some(panel_of(result)),
        },
    }
}

impl ResultPanel {
    /// The result region that shows `result`.
    pub fn new(result: &LookupResult) -> (panel: ResultPanel)
        ensures
            panel@ == panel_of(result@),
    {
        let mut avatar_alt = result.profile.avatar.clone();
        avatar_alt.append(AVATAR_ALT_END);
        let mut profile_link = String::from_str(PROFILE_URL);
        profile_link.append(decimal_string(result.account_id).as_str());
        profile_link.append(PROFILE_URL_END);
        let display_name = match &result.profile.displayname {
            Some(name) => name.clone(),
            None => result.profile.username.clone(),
        };
        let mut handle = String::from_str(HANDLE_MARK);
        handle.append(result.profile.username.as_str());
        let mut robux_text = String::from_str(ROBUX_LABEL);
        robux_text.append(decimal_string(result.total_value).as_str());
        let mut euro_text = String::from_str(EURO_LABEL);
        euro_text.append(decimal_string(result.value_in_local_currency).as_str());
        euro_text.append(EURO_SIGN);
        ResultPanel {
            avatar: result.profile.avatar.clone(),
            avatar_alt,
            profile_link,
            display_name,
            handle,
            robux_text,
            euro_text,
            inventory: item_cards(&result.items),
        }
    }
}

impl UiState {
    /// Whether a lookup is under way.
    pub fn is_loading(&self) -> (loading: bool)
        ensures
            loading == (self@ is Loading),
    {
        match self {
            UiState::Loading => true,
            _ => false,
        }
    }

    /// The state of the page after `event`.
    pub fn transition(self, event: UiEvent) -> (next: UiState)
        ensures
            next@ == ui_transition(self@, event@),
    {
        if self.is_loading() {
            match event {
                UiEvent::LookupSucceeded(result) => UiState::Result(result),
                UiEvent::LookupFailed(error) => UiState::Error(String::from_str(error.message())),
                _ => self,
            }
        } else {
            match event {
                UiEvent::SubmitAccepted => UiState::Loading,
                UiEvent::SubmitRejected => UiState::Error(
                    String::from_str(LookupError::EmptyOrInvalidIdentifier.message()),
                ),
                _ => self,
            }
        }
    }

    /// The screen of the page in this state. The controls are disabled exactly
    /// while a lookup is under way.
    pub fn screen(&self) -> (screen: Screen)
        ensures
            screen@ == screen_of(self@),
            screen.controls_enabled == !(self@ is Loading),
    {
        match self {
            UiState::Idle => Screen {
                controls_enabled: true,
                busy: false,
                error_text: None,
                result: None,
            },
            UiState::Loading => Screen {
                controls_enabled: false,
                busy: true,
                error_text: None,
                result: None,
            },
            UiState::Error(message) => Screen {
                controls_enabled: true,
                busy: false,
                error_text: Some(message.clone()),
                result: None,
            },
            UiState::Result(result) => Screen {
                controls_enabled: true,
                busy: false,
                error_text: None,
                result: Some(ResultPanel::new(result)),
            },
        }
    }
}

/// The rate that the page displays after the exchange rate was asked for: the
/// rate that came back, or zero where none did.
pub open spec fn displayed_rate(reply: RemoteReplyView) -> u64 {
    match reply {
        RemoteReplyView::Rate(rate) => rate.robux_per_euro,
        _ => 0,
    }
}

/// The line that shows the exchange rate.
pub open spec fn exchange_rate_line(reply: RemoteReplyView) -> Seq<char> {
    decimal_text(displayed_rate(reply) as nat) + RATE_UNIT@
}

/// The line that shows the exchange rate, from what the request for it
/// brought back. A failure is no obstacle: the line then shows a rate of
/// zero.
pub fn exchange_rate_text(reply: &RemoteReply) -> (line: String)
    ensures
        line@ == exchange_rate_line(reply@),
{
    let rate = match reply {
        RemoteReply::Rate(rate) => rate.robux_per_euro,
        _ => 0,
    };
    let mut line = decimal_string(rate);
    line.append(RATE_UNIT);
    line
}

} // verus!
