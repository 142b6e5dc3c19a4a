//! One lookup: three requests, one after the other.
//!
//! A lookup first asks whether the account's inventory is public, then what
//! the inventory is worth, then who the account is. Each request is sent only
//! after the one before it was answered well; the first bad answer ends the
//! lookup with the failure that belongs to that request. The caller sends the
//! requests and hands the answers in: [`begin`] names the first request and
//! [`advance`] takes one answer and names the next request or the outcome.

use vstd::prelude::*;

use crate::api::collectible_views;
use crate::api::AccountValueView;
use crate::api::CollectibleView;
use crate::api::CollectiblesAccountValue;
use crate::api::CollectiblesAccountValueCollectible;
use crate::api::ProfileInfo;
use crate::api::ProfileView;
use crate::api::RemoteCall;
use crate::api::RemoteReply;
use crate::api::RemoteReplyView;

verus! {

/// Why the page shows an error in place of a result.
#[derive(Clone, Copy, Debug, PartialEq, Eq, Structural)]
pub enum LookupError {
    /// The identifier field was empty or did not hold an identifier. No
    /// request is sent for such a submit.
    EmptyOrInvalidIdentifier,
    /// The visibility check failed, or said that the inventory is private.
    InventoryNotPublic,
    /// The value of the inventory could not be fetched.
    ValuationUnavailable,
    /// The profile could not be fetched.
    ProfileUnavailable,
}

/// Everything that the page shows of an account, gathered once all three
/// requests were answered well.
#[derive(Debug, PartialEq, Eq)]
pub struct LookupResult {
    /// The account that was looked up.
    pub account_id: u64,
    pub total_value: u64,
    pub value_in_local_currency: u64,
    /// The items in the order in which the service listed them.
    pub items: Vec<CollectiblesAccountValueCollectible>,
    pub profile: ProfileInfo,
}

/// The mathematical content of a [`LookupResult`].
pub struct LookupResultView {
    pub account_id: u64,
    pub total_value: u64,
    pub value_in_local_currency: u64,
    pub items: Seq<CollectibleView>,
    pub profile: ProfileView,
}

impl View for LookupResult {
    type V = LookupResultView;

    open spec fn view(&self) -> LookupResultView {
        LookupResultView {
            account_id: self.account_id,
            total_value: self.total_value,
            value_in_local_currency: self.value_in_local_currency,
            items: collectible_views(self.items@),
            profile: self.profile@,
        }
    }
}

/// The result that a valuation and a profile of one account make together.
pub open spec fn gathered(account_id: u64, valuation: AccountValueView, profile: ProfileView)
    -> LookupResultView {
    LookupResultView {
        account_id,
        total_value: valuation.total_robux,
        value_in_local_currency: valuation.in_euro,
        items: valuation.collectibles,
        profile,
    }
}

/// Where a lookup stands: which answer it waits for, and what it has gathered.
#[derive(Debug, PartialEq, Eq)]
pub enum WorkflowState {
    AwaitingVisibility { account_id: u64 },
    AwaitingValuation { account_id: u64 },
    AwaitingProfile { account_id: u64, valuation: CollectiblesAccountValue },
}

/// The mathematical content of a [`WorkflowState`].
pub enum WorkflowStateView {
    AwaitingVisibility { account_id: u64 },
    AwaitingValuation { account_id: u64 },
    AwaitingProfile { account_id: u64, valuation: AccountValueView },
}

impl View for WorkflowState {
    type V = WorkflowStateView;

    open spec fn view(&self) -> WorkflowStateView {
        match self {
            WorkflowState::AwaitingVisibility { account_id } => WorkflowStateView::AwaitingVisibility {
                account_id: *account_id,
            },
            WorkflowState::AwaitingValuation { account_id } => WorkflowStateView::AwaitingValuation {
                account_id: *account_id,
            },
            WorkflowState::AwaitingProfile { account_id, valuation } => WorkflowStateView::AwaitingProfile {
                account_id: *account_id,
                valuation: valuation@,
            },
        }
    }
}

/// What a lookup does on an answer.
#[derive(Debug, PartialEq, Eq)]
pub enum WorkflowStep {
    /// The lookup goes on: send this request and come back with its answer.
    Call(WorkflowState, RemoteCall),
    /// The lookup is over and this is its result.
    Succeeded(LookupResult),
    /// The lookup is over and this is why it failed.
    Failed(LookupError),
}

/// The mathematical content of a [`WorkflowStep`].
pub enum WorkflowStepView {
    Call(WorkflowStateView, RemoteCall),
    Succeeded(LookupResultView),
    Failed(LookupError),
}

impl View for WorkflowStep {
    type V = WorkflowStepView;

    open spec fn view(&self) -> WorkflowStepView {
        match self {
            WorkflowStep::Call(state, call) => WorkflowStepView::Call(state@, *call),
            WorkflowStep::Succeeded(result) => WorkflowStepView::Succeeded(result@),
            WorkflowStep::Failed(error) => WorkflowStepView::Failed(*error),
        }
    }
}

/// The account that a lookup is about.
pub open spec fn workflow_account(state: WorkflowStateView) -> u64 {
    match state {
        WorkflowStateView::AwaitingVisibility { account_id } => account_id,
        WorkflowStateView::AwaitingValuation { account_id } => account_id,
        WorkflowStateView::AwaitingProfile { account_id, .. } => account_id,
    }
}

/// The request whose answer a lookup waits for.
pub open spec fn workflow_awaits(state: WorkflowStateView) -> RemoteCall {
    match state {
        WorkflowStateView::AwaitingVisibility { account_id } => RemoteCall::CanViewInventory(
            account_id,
        ),
        WorkflowStateView::AwaitingValuation { account_id } => RemoteCall::CollectiblesAccountValue(
            account_id,
        ),
        WorkflowStateView::AwaitingProfile { account_id, .. } => RemoteCall::ProfileInfo(account_id),
    }
}

/// How a lookup starts: it waits for the visibility check of `account_id`.
pub open spec fn workflow_start(account_id: u64) -> WorkflowStateView {
    WorkflowStateView::AwaitingVisibility { account_id }
}

/// What a lookup in `state` does on `reply`.
///
/// Only the answer that the lookup waits for lets it go on. A failed request,
/// an inventory that is not public and an answer of another shape all end it,
/// with the failure of the request that was waited for.
pub open spec fn workflow_step(state: WorkflowStateView, reply: RemoteReplyView)
    -> WorkflowStepView {
    match state {
        WorkflowStateView::AwaitingVisibility { account_id } => match reply {
            RemoteReplyView::Visibility(true) => WorkflowStepView::Call(
                WorkflowStateView::AwaitingValuation { account_id },
                RemoteCall::CollectiblesAccountValue(account_id),
            ),
            _ => WorkflowStepView::Failed(LookupError::InventoryNotPublic),
        },
        WorkflowStateView::AwaitingValuation { account_id } => match reply {
            RemoteReplyView::Valuation(valuation) => WorkflowStepView::Call(
                WorkflowStateView::AwaitingProfile { account_id, valuation },
                RemoteCall::ProfileInfo(account_id),
            ),
            _ => WorkflowStepView::Failed(LookupError::ValuationUnavailable),
        },
        WorkflowStateView::AwaitingProfile { account_id, valuation } => match reply {
            RemoteReplyView::Profile(profile) => WorkflowStepView::Succeeded(
                gathered(account_id, valuation, profile),
            ),
            _ => WorkflowStepView::Failed(LookupError::ProfileUnavailable),
        },
    }
}

/// Starts a lookup of `account_id`: the state to keep and the request to send
/// first, which is the visibility check.
pub fn begin(account_id: u64) -> (start: (WorkflowState, RemoteCall))
    ensures
        start.0@ == workflow_start(account_id),
        start.1 == RemoteCall::CanViewInventory(account_id),
        start.1 == workflow_awaits(start.0@),
{
    (WorkflowState::AwaitingVisibility { account_id }, RemoteCall::CanViewInventory(account_id))
}

impl WorkflowState {
    /// The account that this lookup is about.
    pub fn account_id(&self) -> (id: u64)
        ensures
            id == workflow_account(self@),
    {
        match self {
            WorkflowState::AwaitingVisibility { account_id } => *account_id,
            WorkflowState::AwaitingValuation { account_id } => *account_id,
            WorkflowState::AwaitingProfile { account_id, .. } => *account_id,
        }
    }

    /// The request whose answer this lookup waits for.
    pub fn awaits(&self) -> (call: RemoteCall)
        ensures
            call == workflow_awaits(self@),
    {
        match self {
            WorkflowState::AwaitingVisibility { account_id } => RemoteCall::CanViewInventory(
                *account_id,
            ),
            WorkflowState::AwaitingValuation { account_id } => RemoteCall::CollectiblesAccountValue(
                *account_id,
            ),
            WorkflowState::AwaitingProfile { account_id, .. } => RemoteCall::ProfileInfo(
                *account_id,
            ),
        }
    }
}

/// Takes the answer to the request that the lookup waited for, and says how
/// the lookup goes on: with the next request, with the result, or with the
/// failure of the request that went wrong.
pub fn advance(state: WorkflowState, reply: RemoteReply) -> (step: WorkflowStep)
    ensures
        step@ == workflow_step(state@, reply@),
{
    match state {
        WorkflowState::AwaitingVisibility { account_id } => match reply {
            RemoteReply::Visibility(true) => WorkflowStep::Call(
                WorkflowState::AwaitingValuation { account_id },
                RemoteCall::CollectiblesAccountValue(account_id),
            ),
            _ => WorkflowStep::Failed(LookupError::InventoryNotPublic),
        },
        WorkflowState::AwaitingValuation { account_id } => match reply {
            RemoteReply::Valuation(valuation) => WorkflowStep::Call(
                WorkflowState::AwaitingProfile { account_id, valuation },
                RemoteCall::ProfileInfo(account_id),
            ),
            _ => WorkflowStep::Failed(LookupError::ValuationUnavailable),
        },
        WorkflowState::AwaitingProfile { account_id, valuation } => match reply {
            RemoteReply::Profile(profile) => WorkflowStep::Succeeded(
                LookupResult {
                    account_id,
                    total_value: valuation.total_robux,
                    value_in_local_currency: valuation.in_euro,
                    items: valuation.collectibles,
                    profile,
                },
            ),
            _ => WorkflowStep::Failed(LookupError::ProfileUnavailable),
        },
    }
}

/// What a lookup has done: the requests it has sent, in the order in which it
/// sent them, and how it ended, if it has ended.
pub struct LookupTrace {
    pub calls: Seq<RemoteCall>,
    pub outcome: Option<Result<LookupResultView, LookupError>>,
}

/// What a lookup in `state` does when the answers `replies` arrive one after
/// the other: the requests that it sends from then on, and its outcome. An
/// answer that arrives after the lookup has ended is not looked at.
pub open spec fn workflow_run(state: WorkflowStateView, replies: Seq<RemoteReplyView>)
    -> LookupTrace
    decreases replies.len(),
{
    if replies.len() == 0 {
        LookupTrace { calls: Seq::empty(), outcome: None }
    } else {
        match workflow_step(state, replies.first()) {
            WorkflowStepView::Call(next, call) => {
                let rest = workflow_run(next, replies.drop_first());
                LookupTrace { calls: seq![call] + rest.calls, outcome: rest.outcome }
            },
            WorkflowStepView::Succeeded(result) => LookupTrace {
                calls: Seq::empty(),
                outcome: Some(Ok(result)),
            },
            WorkflowStepView::Failed(error) => LookupTrace {
                calls: Seq::empty(),
                outcome: Some(Err(error)),
            },
        }
    }
}

/// What the lookup of `account_id` does from its start when the answers
/// `replies` arrive one after the other.
pub open spec fn lookup_trace(account_id: u64, replies: Seq<RemoteReplyView>) -> LookupTrace {
    let rest = workflow_run(workflow_start(account_id), replies);
    LookupTrace {
        calls: seq![RemoteCall::CanViewInventory(account_id)] + rest.calls,
        outcome: rest.outcome,
    }
}

/// The three requests of a lookup, in the order in which they are sent.
pub open spec fn lookup_calls(account_id: u64) -> Seq<RemoteCall> {
    seq![
        RemoteCall::CanViewInventory(account_id),
        RemoteCall::CollectiblesAccountValue(account_id),
        RemoteCall::ProfileInfo(account_id),
    ]
}

/// A lookup whose visibility check fails, or says that the inventory is not
/// public, sends no other request and ends as `InventoryNotPublic`, whatever
/// else arrives.
pub proof fn lemma_lookup_stops_at_private_inventory(
    account_id: u64,
    replies: Seq<RemoteReplyView>,
)
    requires
        replies.len() > 0,
        replies[0] != RemoteReplyView::Visibility(true),
    ensures
        lookup_trace(account_id, replies).calls == seq![RemoteCall::CanViewInventory(account_id)],
        lookup_trace(account_id, replies).outcome == Some(
            Err::<LookupResultView, LookupError>(LookupError::InventoryNotPublic),
        ),
{
    assert(lookup_trace(account_id, replies).calls =~= seq![
        RemoteCall::CanViewInventory(account_id),
    ]);
}

/// A lookup whose valuation cannot be fetched never asks for the profile and
/// ends as `ValuationUnavailable`.
pub proof fn lemma_lookup_stops_at_missing_valuation(
    account_id: u64,
    replies: Seq<RemoteReplyView>,
)
    requires
        replies.len() > 1,
        replies[0] == RemoteReplyView::Visibility(true),
        !(replies[1] is Valuation),
    ensures
        lookup_trace(account_id, replies).calls == lookup_calls(account_id).take(2),
        lookup_trace(account_id, replies).outcome == Some(
            Err::<LookupResultView, LookupError>(LookupError::ValuationUnavailable),
        ),
{
    reveal_with_fuel(workflow_run, 3);
    assert(lookup_trace(account_id, replies).calls =~= lookup_calls(account_id).take(2));
}

/// A lookup whose profile cannot be fetched ends as `ProfileUnavailable`,
/// after all three requests.
pub proof fn lemma_lookup_stops_at_missing_profile(account_id: u64, replies: Seq<RemoteReplyView>)
    requires
        replies.len() > 2,
        replies[0] == RemoteReplyView::Visibility(true),
        replies[1] is Valuation,
        !(replies[2] is Profile),
    ensures
        lookup_trace(account_id, replies).calls == lookup_calls(account_id),
        lookup_trace(account_id, replies).outcome == Some(
            Err::<LookupResultView, LookupError>(LookupError::ProfileUnavailable),
        ),
{
    reveal_with_fuel(workflow_run, 4);
    assert(lookup_trace(account_id, replies).calls =~= lookup_calls(account_id));
}

/// A lookup whose three requests are answered well ends with the result that
/// the valuation and the profile make together: the totals as they came, the
/// items in the order in which they came, and the profile.
pub proof fn lemma_lookup_gathers(account_id: u64, replies: Seq<RemoteReplyView>)
    requires
        replies.len() > 2,
        replies[0] == RemoteReplyView::Visibility(true),
        replies[1] is Valuation,
        replies[2] is Profile,
    ensures
        lookup_trace(account_id, replies).calls == lookup_calls(account_id),
        lookup_trace(account_id, replies).outcome == Some(
            Ok::<LookupResultView, LookupError>(
                gathered(account_id, replies[1]->Valuation_0, replies[2]->Profile_0),
            ),
        ),
{
    reveal_with_fuel(workflow_run, 4);
    assert(lookup_trace(account_id, replies).calls =~= lookup_calls(account_id));
}

/// The requests of a lookup go out in a fixed order, each at most once: what
/// a lookup has sent is always a beginning of its three requests, and one
/// more than the answers that let it go on.
pub proof fn lemma_lookup_keeps_order(account_id: u64, replies: Seq<RemoteReplyView>)
    ensures
        1 <= lookup_trace(account_id, replies).calls.len() <= 3,
        lookup_trace(account_id, replies).calls.len() <= replies.len() + 1,
        lookup_trace(account_id, replies).calls == lookup_calls(account_id).take(
            lookup_trace(account_id, replies).calls.len() as int,
        ),
{
    reveal_with_fuel(workflow_run, 4);
    let calls = lookup_trace(account_id, replies).calls;
    assert(calls =~= lookup_calls(account_id).take(calls.len() as int));
}

/// How a lookup ended tells how far it came. It fails only with the failure
/// of one of its own requests, which is the last request it has sent; it
/// succeeds only after all three; and while it has not ended, every answer so
/// far has led to one more request.
pub proof fn lemma_lookup_outcome_names_the_last_request(
    account_id: u64,
    replies: Seq<RemoteReplyView>,
)
    ensures
        match lookup_trace(account_id, replies).outcome {
            Some(Err(LookupError::InventoryNotPublic)) => lookup_trace(account_id, replies).calls
                == lookup_calls(account_id).take(1),
            Some(Err(LookupError::ValuationUnavailable)) => lookup_trace(account_id, replies).calls
                == lookup_calls(account_id).take(2),
            Some(Err(LookupError::ProfileUnavailable)) => lookup_trace(account_id, replies).calls
                == lookup_calls(account_id),
            Some(Err(LookupError::EmptyOrInvalidIdentifier)) => false,
            Some(Ok(_)) => lookup_trace(account_id, replies).calls == lookup_calls(account_id),
            None => lookup_trace(account_id, replies).calls.len() == replies.len() + 1,
        },
{
    reveal_with_fuel(workflow_run, 4);
    let calls = lookup_trace(account_id, replies).calls;
    assert(calls =~= lookup_calls(account_id).take(calls.len() as int));
    assert(lookup_calls(account_id).take(3) =~= lookup_calls(account_id));
}

/// Once a lookup has ended, answers that arrive later change neither its
/// outcome nor the requests it has sent. And a lookup that has ended with a
/// result had all three of its requests answered well.
pub proof fn lemma_lookup_outcome_is_final(
    account_id: u64,
    replies: Seq<RemoteReplyView>,
    later: Seq<RemoteReplyView>,
)
    requires
        lookup_trace(account_id, replies).outcome is Some,
    ensures
        lookup_trace(account_id, replies + later) == lookup_trace(account_id, replies),
        lookup_trace(account_id, replies).outcome matches Some(Ok(_)) ==> {
            &&& replies.len() > 2
            &&& replies[0] == RemoteReplyView::Visibility(true)
            &&& replies[1] is Valuation
            &&& replies[2] is Profile
        },
{
    lemma_run_outcome_is_final(workflow_start(account_id), replies, later);
    reveal_with_fuel(workflow_run, 4);
}

/// Once a run has ended, answers that arrive later change nothing of it.
pub proof fn lemma_run_outcome_is_final(
    state: WorkflowStateView,
    replies: Seq<RemoteReplyView>,
    later: Seq<RemoteReplyView>,
)
    requires
        workflow_run(state, replies).outcome is Some,
    ensures
        workflow_run(state, replies + later) == workflow_run(state, replies),
    decreases replies.len(),
{
    if let WorkflowStepView::Call(next, _) = workflow_step(state, replies.first()) {
        assert((replies + later).drop_first() =~= replies.drop_first() + later);
        lemma_run_outcome_is_final(next, replies.drop_first(), later);
    }
}

} // verus!
