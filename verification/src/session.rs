//! The page's one session: the state of the screen, the memory of the
//! identifier field and the lookup under way, if there is one.
//!
//! Three things happen to a session. The user edits the identifier field
//! ([`Session::edit`]), the user submits ([`Session::submit`]), and the answer
//! to a request arrives ([`Session::reply`]). A submit and an answer may name
//! a request: the caller sends it and comes back with its answer. At most one
//! lookup is under way at any time, because a submit during a lookup does
//! nothing.

use vstd::prelude::*;

use crate::api::RemoteCall;
use crate::api::RemoteReply;
use crate::api::RemoteReplyView;
use crate::decimal::decimal_value;
use crate::decimal::is_account_id_text;
use crate::decimal::parse_account_id;
use crate::guard::guard_accepts;
use crate::guard::guard_displays;
use crate::guard::guard_memory_is_valid;
use crate::guard::guard_remembers;
use crate::guard::GuardOutput;
use crate::guard::NumericInputGuard;
use crate::presenter::error_message;
use crate::presenter::screen_of;
use crate::presenter::ui_transition;
use crate::presenter::Screen;
use crate::presenter::UiEvent;
use crate::presenter::UiEventView;
use crate::presenter::UiState;
use crate::presenter::UiStateView;
use crate::workflow::advance;
use crate::workflow::begin;
use crate::workflow::lookup_trace;
use crate::workflow::workflow_awaits;
use crate::workflow::workflow_run;
use crate::workflow::workflow_start;
use crate::workflow::workflow_step;
use crate::workflow::LookupError;
use crate::workflow::WorkflowState;
use crate::workflow::WorkflowStateView;
use crate::workflow::WorkflowStep;
use crate::workflow::WorkflowStepView;

verus! {

/// The mathematical content of a [`Session`].
pub struct SessionView {
    /// The state of the page.
    pub ui: UiStateView,
    /// What the guard of the identifier field remembers.
    pub remembered: Option<Seq<char>>,
    /// Where the lookup under way stands, if one is under way.
    pub lookup: Option<WorkflowStateView>,
}

/// Whether `session` is a state that a session can be in: the page is loading
/// exactly while a lookup is under way, and the guard remembers nothing but
/// an identifier.
pub open spec fn session_is_consistent(session: SessionView) -> bool {
    &&& session.ui is Loading <==> session.lookup is Some
    &&& guard_memory_is_valid(session.remembered)
}

/// The session of a page that was just opened.
pub open spec fn session_start() -> SessionView {
    SessionView { ui: UiStateView::Idle, remembered: None, lookup: None }
}

/// The session after the identifier field was edited to `raw`. Only the
/// guard's memory can change.
pub open spec fn session_after_edit(session: SessionView, raw: Seq<char>) -> SessionView {
    SessionView { remembered: guard_remembers(session.remembered, raw), ..session }
}

/// The session after a submit with `text` in the identifier field, and the
/// request to send.
///
/// During a lookup a submit does nothing. Otherwise a text that holds an
/// identifier starts the lookup of that identifier, whose first request is the
/// visibility check, and any other text shows the error for a missing
/// identifier and sends nothing.
pub open spec fn session_after_submit(session: SessionView, text: Seq<char>) -> (
    SessionView,
    Option<RemoteCall>,
) {
    if session.ui is Loading {
        (session, None)
    } else if is_account_id_text(text) {
        let account_id = decimal_value(text) as u64;
        (
            SessionView {
                ui: ui_transition(session.ui, UiEventView::SubmitAccepted),
                lookup: Some(workflow_start(account_id)),
                ..session
            },
            Some(RemoteCall::CanViewInventory(account_id)),
        )
    } else {
        (
            SessionView {
                ui: ui_transition(session.ui, UiEventView::SubmitRejected),
                lookup: None,
                ..session
            },
            None,
        )
    }
}

/// The session after `reply` arrived, and the request to send next.
///
/// The answer goes to the lookup under way. Where the lookup goes on, the
/// page stays as it is and the next request is named. Where the lookup ends,
/// the page shows its result or the message of its failure, and nothing is
/// sent. Without a lookup under way an answer does nothing.
pub open spec fn session_after_reply(session: SessionView, reply: RemoteReplyView) -> (
    SessionView,
    Option<RemoteCall>,
) {
    match session.lookup {
        None => (session, None),
        Some(state) => match workflow_step(state, reply) {
            WorkflowStepView::Call(next, call) => (
                SessionView { lookup: Some(next), ..session },
                Some(call),
            ),
            WorkflowStepView::Succeeded(result) => (
                SessionView {
                    ui: ui_transition(session.ui, UiEventView::LookupSucceeded(result)),
                    lookup: None,
                    ..session
                },
                None,
            ),
            WorkflowStepView::Failed(error) => (
                SessionView {
                    ui: ui_transition(session.ui, UiEventView::LookupFailed(error)),
                    lookup: None,
                    ..session
                },
                None,
            ),
        },
    }
}

/// The session after the answers `replies` arrived one after the other.
pub open spec fn session_after_replies(session: SessionView, replies: Seq<RemoteReplyView>)
    -> SessionView
    decreases replies.len(),
{
    if replies.len() == 0 {
        session
    } else {
        session_after_replies(
            session_after_reply(session, replies.first()).0,
            replies.drop_first(),
        )
    }
}

/// The requests that the session names while the answers `replies` arrive one
/// after the other, in the order in which it names them.
pub open spec fn session_requests(session: SessionView, replies: Seq<RemoteReplyView>) -> Seq<
    RemoteCall,
>
    decreases replies.len(),
{
    if replies.len() == 0 {
        Seq::empty()
    } else {
        let (next, call) = session_after_reply(session, replies.first());
        let rest = session_requests(next, replies.drop_first());
        match call {
            Some(call) => seq![call] + rest,
            None => rest,
        }
    }
}

/// The single state of the page.
pub struct Session {
    ui: UiState,
    input: NumericInputGuard,
    lookup: Option<WorkflowState>,
}

impl View for Session {
    type V = SessionView;

    closed spec fn view(&self) -> SessionView {
        SessionView {
            ui: self.ui@,
            remembered: self.input@,
            lookup: match self.lookup {
                Some(state) => Some(state@),
                None => None,
            },
        }
    }
}

impl Session {
    #[verifier::type_invariant]
    closed spec fn loading_while_looking_up(&self) -> bool {
        self.ui@ is Loading <==> self.lookup is Some
    }

    /// The session of a page that was just opened: idle, with an empty
    /// identifier field and no lookup under way.
    pub fn new() -> (session: Session)
        ensures
            session@ == session_start(),
    {
        Session { ui: UiState::Idle, input: NumericInputGuard::new(), lookup: None }
    }

    /// The state of the page.
    pub fn ui(&self) -> (ui: &UiState)
        ensures
            ui@ == self@.ui,
            session_is_consistent(self@),
    {
        proof {
            use_type_invariant(self);
            use_type_invariant(&self.input);
        }
        &self.ui
    }

    /// Whether a lookup is under way.
    pub fn is_loading(&self) -> (loading: bool)
        ensures
            loading == (self@.ui is Loading),
            loading == (self@.lookup is Some),
    {
        proof {
            use_type_invariant(self);
        }
        self.ui.is_loading()
    }

    /// The request whose answer the session waits for, if a lookup is under
    /// way.
    pub fn awaited(&self) -> (call: Option<RemoteCall>)
        ensures
            call == match self@.lookup {
                Some(state) => Some(workflow_awaits(state)),
                None => None,
            },
    {
        match &self.lookup {
            Some(state) => Some(state.awaits()),
            None => None,
        }
    }

    /// What is visible on the page and what can be used. The controls are
    /// disabled exactly while a lookup is under way.
    pub fn screen(&self) -> (screen: Screen)
        ensures
            screen@ == screen_of(self@.ui),
            screen.controls_enabled == !(self@.ui is Loading),
    {
        self.ui.screen()
    }

    /// Takes the text of the identifier field after an edit and answers with
    /// the text that the field must display. Nothing but the guard's memory
    /// changes.
    pub fn edit(&mut self, raw: &str) -> (output: GuardOutput)
        ensures
            final(self)@ == session_after_edit(old(self)@, raw@),
            output.text@ == guard_displays(old(self)@.remembered, raw@),
            output.reverted == !guard_accepts(raw@),
            output.reverted == (output.text@ != raw@),
    {
        proof {
            use_type_invariant(&*self);
        }
        let mut current = Session::new();
        std::mem::swap(self, &mut current);
        let Session { ui, mut input, lookup } = current;
        let output = input.apply(raw);
        *self = Session { ui, input, lookup };
        output
    }

    /// Takes a submit with `text` in the identifier field and answers with the
    /// request to send, if a lookup starts.
    pub fn submit(&mut self, text: &str) -> (call: Option<RemoteCall>)
        ensures
            (final(self)@, call) == session_after_submit(old(self)@, text@),
    {
        proof {
            use_type_invariant(&*self);
        }
        if self.ui.is_loading() {
            return None;
        }
        let mut current = Session::new();
        std::mem::swap(self, &mut current);
        let Session { ui, input, lookup } = current;
        match parse_account_id(text) {
            Some(account_id) => {
                let (state, call) = begin(account_id);
                *self = Session { ui: ui.transition(UiEvent::SubmitAccepted), input, lookup: Some(state) };
                Some(call)
            },
            None => {
                *self = Session { ui: ui.transition(UiEvent::SubmitRejected), input, lookup: None };
                None
            },
        }
    }

    /// Takes the answer to the request that was sent last and answers with the
    /// request to send next, if the lookup goes on.
    pub fn reply(&mut self, reply: RemoteReply) -> (call: Option<RemoteCall>)
        ensures
            (final(self)@, call) == session_after_reply(old(self)@, reply@),
    {
        proof {
            use_type_invariant(&*self);
        }
        let mut current = Session::new();
        std::mem::swap(self, &mut current);
        let Session { ui, input, lookup } = current;
        match lookup {
            None => {
                *self = Session { ui, input, lookup: None };
                None
            },
            Some(state) => match advance(state, reply) {
                WorkflowStep::Call(next, call) => {
                    *self = Session { ui, input, lookup: Some(next) };
                    Some(call)
                },
                WorkflowStep::Succeeded(result) => {
                    *self = Session {
                        ui: ui.transition(UiEvent::LookupSucceeded(result)),
                        input,
                        lookup: None,
                    };
                    None
                },
                WorkflowStep::Failed(error) => {
                    *self = Session {
                        ui: ui.transition(UiEvent::LookupFailed(error)),
                        input,
                        lookup: None,
                    };
                    None
                },
            },
        }
    }
}

/// Every edit, submit and answer leaves the session in a state that a session
/// can be in.
pub proof fn lemma_session_stays_consistent(
    session: SessionView,
    text: Seq<char>,
    reply: RemoteReplyView,
)
    requires
        session_is_consistent(session),
    ensures
        session_is_consistent(session_start()),
        session_is_consistent(session_after_edit(session, text)),
        session_is_consistent(session_after_submit(session, text).0),
        session_is_consistent(session_after_reply(session, reply).0),
{
}

/// A submit during a lookup does nothing: it names no request, it leaves the
/// session as it is, and so whatever answers arrive afterwards lead to the
/// same requests and to the same end as without it.
pub proof fn lemma_submit_during_lookup_does_nothing(
    session: SessionView,
    text: Seq<char>,
    replies: Seq<RemoteReplyView>,
)
    requires
        session.ui is Loading,
    ensures
        session_after_submit(session, text) == (session, None::<RemoteCall>),
        session_requests(session_after_submit(session, text).0, replies) == session_requests(
            session,
            replies,
        ),
        session_after_replies(session_after_submit(session, text).0, replies)
            == session_after_replies(session, replies),
{
}

/// A submit without an identifier in the field names no request and shows the
/// message for a missing identifier, with the controls enabled.
pub proof fn lemma_rejected_submit_sends_nothing(session: SessionView, text: Seq<char>)
    requires
        !(session.ui is Loading),
        !is_account_id_text(text),
    ensures
        session_after_submit(session, text).1 is None,
        session_after_submit(session, text).0.lookup is None,
        session_after_submit(session, text).0.ui == UiStateView::Error(
            error_message(LookupError::EmptyOrInvalidIdentifier),
        ),
        screen_of(session_after_submit(session, text).0.ui).controls_enabled,
{
}

/// Without a lookup under way, answers change nothing and name no request.
pub proof fn lemma_answers_without_lookup_do_nothing(
    session: SessionView,
    replies: Seq<RemoteReplyView>,
)
    requires
        session.lookup is None,
    ensures
        session_after_replies(session, replies) == session,
        session_requests(session, replies) == Seq::<RemoteCall>::empty(),
    decreases replies.len(),
{
    if replies.len() > 0 {
        lemma_answers_without_lookup_do_nothing(session, replies.drop_first());
    }
}

/// A session with a lookup under way does what the lookup does: it names the
/// requests of the lookup, in their order, stays loading until the lookup has
/// ended, and then shows the lookup's result or the message of its failure.
/// What the guard remembers is left alone.
pub proof fn lemma_session_follows_run(
    session: SessionView,
    state: WorkflowStateView,
    replies: Seq<RemoteReplyView>,
)
    requires
        session.ui is Loading,
        session.lookup == Some(state),
    ensures
        session_requests(session, replies) == workflow_run(state, replies).calls,
        session_after_replies(session, replies).remembered == session.remembered,
        match workflow_run(state, replies).outcome {
            None => {
                &&& session_after_replies(session, replies).ui is Loading
                &&& session_after_replies(session, replies).lookup is Some
            },
            Some(Ok(result)) => {
                &&& session_after_replies(session, replies).ui == UiStateView::Result(result)
                &&& session_after_replies(session, replies).lookup is None
            },
            Some(Err(error)) => {
                &&& session_after_replies(session, replies).ui == UiStateView::Error(
                    error_message(error),
                )
                &&& session_after_replies(session, replies).lookup is None
            },
        },
    decreases replies.len(),
{
    if replies.len() > 0 {
        let next = session_after_reply(session, replies.first()).0;
        match workflow_step(state, replies.first()) {
            WorkflowStepView::Call(next_state, _) => {
                lemma_session_follows_run(next, next_state, replies.drop_first());
            },
            _ => {
                lemma_answers_without_lookup_do_nothing(next, replies.drop_first());
            },
        }
    }
}

/// From a submit to the end: a submit with an identifier in the field, outside
/// a lookup, names the visibility check, and the answers that arrive then lead
/// the session exactly where they lead the lookup of that identifier. The
/// requests named are those of the lookup; the page is loading, with the
/// controls disabled, until the lookup has ended, and then shows the result or
/// the message of the failure, with the controls enabled.
pub proof fn lemma_session_shows_lookup_outcome(
    session: SessionView,
    text: Seq<char>,
    replies: Seq<RemoteReplyView>,
)
    requires
        !(session.ui is Loading),
        is_account_id_text(text),
    ensures
        ({
            let account_id = decimal_value(text) as u64;
            let started = session_after_submit(session, text);
            let end = session_after_replies(started.0, replies);
            let trace = lookup_trace(account_id, replies);
            &&& started.1 == Some(RemoteCall::CanViewInventory(account_id))
            &&& screen_of(started.0.ui).controls_enabled == false
            &&& seq![RemoteCall::CanViewInventory(account_id)] + session_requests(
                started.0,
                replies,
            ) == trace.calls
            &&& end.remembered == session.remembered
            &&& match trace.outcome {
                None => end.ui is Loading && end.lookup is Some,
                Some(Ok(result)) => end.ui == UiStateView::Result(result) && end.lookup is None,
                Some(Err(error)) => end.ui == UiStateView::Error(error_message(error))
                    && end.lookup is None,
            }
            &&& trace.outcome is Some ==> screen_of(end.ui).controls_enabled
        }),
{
    let account_id = decimal_value(text) as u64;
    let started = session_after_submit(session, text);
    lemma_session_follows_run(started.0, workflow_start(account_id), replies);
}

} // verus!
