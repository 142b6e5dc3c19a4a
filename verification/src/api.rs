//! What the valuation service is asked and what it answers.
//!
//! The service offers four read-only operations. This module describes each
//! request as a value ([`RemoteCall`]), each answer as a value
//! ([`RemoteReply`]), and holds the data that the answers carry. Sending a
//! request is left to the caller, and so is decoding the body of an answer,
//! but for the visibility check, whose body is the plain text that
//! [`parse_visibility`] reads.

use vstd::prelude::*;
use vstd::string::*;

use crate::decimal::decimal_string;
use crate::decimal::decimal_text;

verus! {

/// Where the valuation service lives.
pub const API_URL: &'static str = "https://roblox-account-value-api.sly.ee";

/// The name of the query parameter that carries the account identifier.
pub const USER_ID_PARAMETER: &'static str = "userid";

/// One inventory item as the valuation service reports it.
#[derive(Debug, PartialEq, Eq)]
pub struct CollectiblesAccountValueCollectible {
    pub name: String,
    pub price: u64,
    pub id: u64,
    /// Present only for limited, serialised items.
    pub serialnumber: Option<u64>,
    pub thumbnail: String,
}

/// The mathematical content of a [`CollectiblesAccountValueCollectible`].
pub struct CollectibleView {
    pub name: Seq<char>,
    pub price: u64,
    pub id: u64,
    pub serialnumber: Option<u64>,
    pub thumbnail: Seq<char>,
}

impl View for CollectiblesAccountValueCollectible {
    type V = CollectibleView;

    open spec fn view(&self) -> CollectibleView {
        CollectibleView {
            name: self.name@,
            price: self.price,
            id: self.id,
            serialnumber: self.serialnumber,
            thumbnail: self.thumbnail@,
        }
    }
}

impl Clone for CollectiblesAccountValueCollectible {
    fn clone(&self) -> (copy: Self)
        ensures
            copy@ == self@,
    {
        CollectiblesAccountValueCollectible {
            name: self.name.clone(),
            price: self.price,
            id: self.id,
            serialnumber: self.serialnumber,
            thumbnail: self.thumbnail.clone(),
        }
    }
}

/// The contents of a list of items, in the order of the list.
pub open spec fn collectible_views(items: Seq<CollectiblesAccountValueCollectible>) -> Seq<
    CollectibleView,
> {
    Seq::new(items.len(), |i: int| items[i]@)
}

/// The value of an account's inventory: the totals and the items, in the
/// order in which the service lists them.
#[derive(Debug, PartialEq, Eq)]
pub struct CollectiblesAccountValue {
    pub total_robux: u64,
    pub in_euro: u64,
    pub collectibles: Vec<CollectiblesAccountValueCollectible>,
}

/// The mathematical content of a [`CollectiblesAccountValue`].
pub struct AccountValueView {
    pub total_robux: u64,
    pub in_euro: u64,
    pub collectibles: Seq<CollectibleView>,
}

impl View for CollectiblesAccountValue {
    type V = AccountValueView;

    open spec fn view(&self) -> AccountValueView {
        AccountValueView {
            total_robux: self.total_robux,
            in_euro: self.in_euro,
            collectibles: collectible_views(self.collectibles@),
        }
    }
}

impl Clone for CollectiblesAccountValue {
    fn clone(&self) -> (copy: Self)
        ensures
            copy@ == self@,
    {
        let mut collectibles: Vec<CollectiblesAccountValueCollectible> = Vec::new();
        let mut i: usize = 0;
        while i < self.collectibles.len()
            invariant
                i <= self.collectibles.len(),
                collectibles.len() == i,
                forall|k: int| 0 <= k < i ==> (#[trigger] collectibles[k])@ == self.collectibles[k]@,
            decreases self.collectibles.len() - i,
        {
            collectibles.push(self.collectibles[i].clone());
            i = i + 1;
        }
        assert(collectible_views(collectibles@) =~= collectible_views(self.collectibles@));
        CollectiblesAccountValue { total_robux: self.total_robux, in_euro: self.in_euro, collectibles }
    }
}

/// The public profile of an account.
#[derive(Debug, PartialEq, Eq)]
pub struct ProfileInfo {
    pub username: String,
    /// Absent where the service does not report one; the user name then
    /// stands in for it.
    pub displayname: Option<String>,
    pub avatar: String,
}

/// The mathematical content of a [`ProfileInfo`].
pub struct ProfileView {
    pub username: Seq<char>,
    pub displayname: Option<Seq<char>>,
    pub avatar: Seq<char>,
}

impl View for ProfileInfo {
    type V = ProfileView;

    open spec fn view(&self) -> ProfileView {
        ProfileView {
            username: self.username@,
            displayname: match self.displayname {
                Some(name) => Some(name@),
                None => None,
            },
            avatar: self.avatar@,
        }
    }
}

impl Clone for ProfileInfo {
    fn clone(&self) -> (copy: Self)
        ensures
            copy@ == self@,
    {
        let displayname = match &self.displayname {
            Some(name) => Some(name.clone()),
            None => None,
        };
        ProfileInfo { username: self.username.clone(), displayname, avatar: self.avatar.clone() }
    }
}

/// How many Robux one euro buys.
#[derive(Clone, Copy, Debug, PartialEq, Eq, Structural)]
pub struct ExchangeRate {
    pub robux_per_euro: u64,
}

/// One request to the valuation service.
#[derive(Clone, Copy, Debug, PartialEq, Eq, Structural)]
pub enum RemoteCall {
    /// Is the inventory of this account open to the public?
    CanViewInventory(u64),
    /// What is the inventory of this account worth?
    CollectiblesAccountValue(u64),
    /// Who is this account?
    ProfileInfo(u64),
    /// How many Robux does one euro buy?
    ExchangeRate,
}

/// The path of a request below [`API_URL`].
pub open spec fn call_path(call: RemoteCall) -> Seq<char> {
    match call {
        RemoteCall::CanViewInventory(_) => "/api/can-view-inventory"@,
        RemoteCall::CollectiblesAccountValue(_) => "/api/collectibles-account-value"@,
        RemoteCall::ProfileInfo(_) => "/api/profile-info"@,
        RemoteCall::ExchangeRate => "/api/exchange-rate"@,
    }
}

/// The account that a request is about, if it is about one.
pub open spec fn call_account(call: RemoteCall) -> Option<u64> {
    match call {
        RemoteCall::CanViewInventory(id) => Some(id),
        RemoteCall::CollectiblesAccountValue(id) => Some(id),
        RemoteCall::ProfileInfo(id) => Some(id),
        RemoteCall::ExchangeRate => None,
    }
}

impl RemoteCall {
    /// The account that this request is about. Only the exchange rate is asked
    /// of no account.
    pub fn account_id(&self) -> (id: Option<u64>)
        ensures
            id == call_account(*self),
    {
        match self {
            RemoteCall::CanViewInventory(id) => Some(*id),
            RemoteCall::CollectiblesAccountValue(id) => Some(*id),
            RemoteCall::ProfileInfo(id) => Some(*id),
            RemoteCall::ExchangeRate => None,
        }
    }

    /// The address to fetch: the service's address followed by the path of the
    /// operation, without the query.
    pub fn url(&self) -> (url: String)
        ensures
            url@ == API_URL@ + call_path(*self),
    {
        let mut url = String::from_str(API_URL);
        match self {
            RemoteCall::CanViewInventory(_) => url.append("/api/can-view-inventory"),
            RemoteCall::CollectiblesAccountValue(_) => url.append(
                "/api/collectibles-account-value",
            ),
            RemoteCall::ProfileInfo(_) => url.append("/api/profile-info"),
            RemoteCall::ExchangeRate => url.append("/api/exchange-rate"),
        }
        url
    }

    /// The value to send under [`USER_ID_PARAMETER`]: the account identifier
    /// in decimal digits, or nothing where the request is about no account.
    pub fn user_id_query(&self) -> (value: Option<String>)
        ensures
            match call_account(*self) {
                Some(id) => value matches Some(text) && text@ == decimal_text(id as nat),
                None => value is None,
            },
    {
        match self.account_id() {
            Some(id) => Some(decimal_string(id)),
            None => None,
        }
    }
}

/// What came back for a request.
#[derive(Debug, PartialEq, Eq)]
pub enum RemoteReply {
    /// The request could not be sent, or its answer could not be read.
    Failed,
    /// The answer to [`RemoteCall::CanViewInventory`].
    Visibility(bool),
    /// The answer to [`RemoteCall::CollectiblesAccountValue`].
    Valuation(CollectiblesAccountValue),
    /// The answer to [`RemoteCall::ProfileInfo`].
    Profile(ProfileInfo),
    /// The answer to [`RemoteCall::ExchangeRate`].
    Rate(ExchangeRate),
}

/// The mathematical content of a [`RemoteReply`].
pub enum RemoteReplyView {
    Failed,
    Visibility(bool),
    Valuation(AccountValueView),
    Profile(ProfileView),
    Rate(ExchangeRate),
}

impl View for RemoteReply {
    type V = RemoteReplyView;

    open spec fn view(&self) -> RemoteReplyView {
        match self {
            RemoteReply::Failed => RemoteReplyView::Failed,
            RemoteReply::Visibility(visible) => RemoteReplyView::Visibility(*visible),
            RemoteReply::Valuation(value) => RemoteReplyView::Valuation(value@),
            RemoteReply::Profile(profile) => RemoteReplyView::Profile(profile@),
            RemoteReply::Rate(rate) => RemoteReplyView::Rate(*rate),
        }
    }
}

/// What the body of an answer to the visibility check means: the text `true`
/// or the text `false`, and nothing else.
pub open spec fn visibility_of_body(body: Seq<char>) -> Option<bool> {
    if body == "true"@ {
        Some(true)
    } else if body == "false"@ {
        Some(false)
    } else {
        None
    }
}

/// Reads the body of an answer to the visibility check.
pub fn parse_visibility(body: &str) -> (visible: Option<bool>)
    ensures
        visible == visibility_of_body(body@),
{
    let text = String::from_str(body);
    if text == String::from_str("true") {
        Some(true)
    } else if text == String::from_str("false") {
        Some(false)
    } else {
        None
    }
}

} // verus!
