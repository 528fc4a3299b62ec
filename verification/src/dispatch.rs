use crate::event::{
    Command, CommandView, ConversationState, DownloadRequest, EventView, InboundEvent,
    RequestView, StateView,
};
use vstd::prelude::*;

verus! {

/// What the transport is to do after a message was routed. The router only
/// decides; it performs nothing itself.
#[derive(Clone, Debug, PartialEq, Eq)]
pub enum Effect {
    /// Send the list of commands.
    SendHelp,
    /// Fetch this file and tell the conversation the outcome.
    Fetch(DownloadRequest),
    /// A download was asked for, but the message carries no file: do nothing.
    NothingToFetch,
    /// The source was recorded; the next message starts the download.
    SourceRecorded,
    /// Tell the conversation that it was cancelled.
    CancelAcknowledged,
    /// Tell the conversation that the command does not fit its state.
    InvalidState,
    /// Tell the conversation that it may not do this. Nothing else happens.
    PermissionDenied,
}

/// What the contracts say of an [`Effect`].
pub enum EffectView {
    SendHelp,
    Fetch(RequestView),
    NothingToFetch,
    SourceRecorded,
    CancelAcknowledged,
    InvalidState,
    PermissionDenied,
}

impl View for Effect {
    type V = EffectView;

    open spec fn view(&self) -> EffectView {
        match self {
            Effect::SendHelp => EffectView::SendHelp,
            Effect::Fetch(request) => EffectView::Fetch(request@),
            Effect::NothingToFetch => EffectView::NothingToFetch,
            Effect::SourceRecorded => EffectView::SourceRecorded,
            Effect::CancelAcknowledged => EffectView::CancelAcknowledged,
            Effect::InvalidState => EffectView::InvalidState,
            Effect::PermissionDenied => EffectView::PermissionDenied,
        }
    }
}

/// The handler that a message is routed to.
pub enum Route {
    /// `Start` and `Help`.
    Help,
    /// `Start` and `Download`.
    Download,
    /// `Start` and `DownloadFromSource`.
    RecordSource { source: Seq<char> },
    /// `AwaitingChoice` and a message without a command.
    FetchPending { source: Seq<char> },
    /// `Cancel`, in every state.
    Cancel,
    /// Every other pair.
    Invalid,
}

/// The state that a message finds: a cancelled conversation is back at
/// `Start`, every other state is what it was.
pub open spec fn settled(state: StateView) -> StateView {
    match state {
        StateView::Terminal => StateView::Start,
        other => other,
    }
}

/// The routing table, by state first and by command second. The pairs it
/// lists are the defined ones; every other pair goes to `Route::Invalid`.
pub open spec fn route(state: StateView, command: Option<CommandView>) -> Route {
    match settled(state) {
        StateView::Start => match command {
            Some(CommandView::Help) => Route::Help,
            Some(CommandView::Download) => Route::Download,
            Some(CommandView::DownloadFromSource { source }) => Route::RecordSource { source },
            Some(CommandView::Cancel) => Route::Cancel,
            None => Route::Invalid,
        },
        StateView::AwaitingChoice { source } => match command {
            None => Route::FetchPending { source },
            Some(CommandView::Cancel) => Route::Cancel,
            Some(_) => Route::Invalid,
        },
        _ => match command {
            Some(CommandView::Cancel) => Route::Cancel,
            _ => Route::Invalid,
        },
    }
}

/// The handlers that only an authorized requester may reach: those that
/// start a download or prepare one.
pub open spec fn is_privileged(r: Route) -> bool {
    r is Download || r is RecordSource || r is FetchPending
}

/// The request that a `Download` command makes of the message's own file.
pub open spec fn own_request(event: EventView) -> Option<RequestView> {
    match event.attachment {
        Some(a) => Some(
            RequestView {
                remote_ref: a.remote_ref,
                suggested_name: a.suggested_name,
                conversation_id: event.conversation_id,
            },
        ),
        None => None,
    }
}

/// The request that the message after `DownloadFromSource` makes.
pub open spec fn pending_request(source: Seq<char>, event: EventView) -> RequestView {
    RequestView { remote_ref: source, suggested_name: None, conversation_id: event.conversation_id }
}

/// The whole decision for one message: the conversation's next state and the
/// effect. `authorized` is the policy's answer for the conversation.
pub open spec fn outcome(state: StateView, event: EventView, authorized: bool) -> (
    StateView,
    EffectView,
) {
    let r = route(state, event.command);
    if is_privileged(r) && !authorized {
        (settled(state), EffectView::PermissionDenied)
    } else {
        match r {
            Route::Help => (settled(state), EffectView::SendHelp),
            Route::Download => match own_request(event) {
                Some(request) => (StateView::Start, EffectView::Fetch(request)),
                None => (StateView::Start, EffectView::NothingToFetch),
            },
            Route::RecordSource { source } => (
                StateView::AwaitingChoice { source },
                EffectView::SourceRecorded,
            ),
            Route::FetchPending { source } => (
                StateView::Start,
                EffectView::Fetch(pending_request(source, event)),
            ),
            Route::Cancel => (StateView::Start, EffectView::CancelAcknowledged),
            Route::Invalid => (settled(state), EffectView::InvalidState),
        }
    }
}

/// A copy of an optional string.
fn copy_text(s: &Option<String>) -> (copy: Option<String>)
    ensures
        copy == *s,
{
    match s {
        Some(t) => Some(t.clone()),
        None => None,
    }
}

/// Decides what one message does to its conversation: see [`outcome`].
pub fn transition(state: &ConversationState, event: &InboundEvent, authorized: bool) -> (next: (
    ConversationState,
    Effect,
))
    ensures
        (next.0@, next.1@) == outcome(state@, event@, authorized),
{
    match (state, &event.command) {
        (_, Some(Command::Cancel)) => (ConversationState::Start, Effect::CancelAcknowledged),
        (ConversationState::Start | ConversationState::Terminal, Some(Command::Help)) => (
            ConversationState::Start,
            Effect::SendHelp,
        ),
        (ConversationState::Start | ConversationState::Terminal, Some(Command::Download)) => {
            if !authorized {
                (ConversationState::Start, Effect::PermissionDenied)
            } else {
                match &event.attachment {
                    Some(a) => (
                        ConversationState::Start,
                        Effect::Fetch(
                            DownloadRequest {
                                remote_ref: a.remote_ref.clone(),
                                suggested_name: copy_text(&a.suggested_name),
                                conversation_id: event.conversation_id.clone(),
                            },
                        ),
                    ),
                    None => (ConversationState::Start, Effect::NothingToFetch),
                }
            }
        },
        (
            ConversationState::Start | ConversationState::Terminal,
            Some(Command::DownloadFromSource { source }),
        ) => {
            if !authorized {
                (ConversationState::Start, Effect::PermissionDenied)
            } else {
                (
                    ConversationState::AwaitingChoice { source: source.clone() },
                    Effect::SourceRecorded,
                )
            }
        },
        (ConversationState::AwaitingChoice { source }, None) => {
            if !authorized {
                (state.clone(), Effect::PermissionDenied)
            } else {
                (
                    ConversationState::Start,
                    Effect::Fetch(
                        DownloadRequest {
                            remote_ref: source.clone(),
                            suggested_name: None,
                            conversation_id: event.conversation_id.clone(),
                        },
                    ),
                )
            }
        },
        (ConversationState::Terminal, _) => (ConversationState::Start, Effect::InvalidState),
        (_, _) => (state.clone(), Effect::InvalidState),
    }
}

/// The pairs of state and command that the routing table lists. `state` is
/// the state that the message finds, so it is never `Terminal`.
pub open spec fn is_defined(state: StateView, command: Option<CommandView>) -> bool {
    ||| command == Some(CommandView::Cancel)
    ||| state is Start && command is Some
    ||| state is AwaitingChoice && command is None
}

/// After a `Cancel` the conversation is at `Start`, whatever its state was
/// and whoever sent it, and the cancellation is acknowledged.
pub proof fn lemma_cancel_resets(state: StateView, event: EventView, authorized: bool)
    requires
        event.command == Some(CommandView::Cancel),
    ensures
        outcome(state, event, authorized) == (StateView::Start, EffectView::CancelAcknowledged),
{
}

/// Routing is total: a pair that the table does not list gets the
/// invalid-state answer and leaves the state as the message found it, for
/// every requester. Handling the same message again changes nothing more.
pub proof fn lemma_undefined_pairs_are_invalid(
    state: StateView,
    event: EventView,
    authorized: bool,
)
    requires
        !is_defined(settled(state), event.command),
    ensures
        outcome(state, event, authorized) == (settled(state), EffectView::InvalidState),
        state !is Terminal ==> outcome(state, event, authorized).0 == state,
        outcome(outcome(state, event, authorized).0, event, authorized) == outcome(
            state,
            event,
            authorized,
        ),
{
}

/// The invalid-state answer is given to the pairs that the table does not
/// list, and to no others.
pub proof fn lemma_invalid_iff_undefined(state: StateView, event: EventView, authorized: bool)
    ensures
        outcome(state, event, authorized).1 is InvalidState <==> !is_defined(
            settled(state),
            event.command,
        ),
{
}

/// A requester without authorization reaches no privileged handler: the
/// answer is the denial, the state stays as the message found it, and no
/// download is started or prepared.
pub proof fn lemma_denied_changes_nothing(state: StateView, event: EventView)
    requires
        is_privileged(route(state, event.command)),
    ensures
        outcome(state, event, false) == (settled(state), EffectView::PermissionDenied),
        state !is Terminal ==> outcome(state, event, false).0 == state,
{
}

/// Only an authorized requester causes a fetch or has a source recorded, and
/// only an unauthorized one is denied.
pub proof fn lemma_fetch_needs_authorization(state: StateView, event: EventView, authorized: bool)
    ensures
        outcome(state, event, authorized).1 is Fetch ==> authorized,
        outcome(state, event, authorized).1 is SourceRecorded ==> authorized,
        outcome(state, event, authorized).0 is AwaitingChoice && !(state is AwaitingChoice)
            ==> authorized,
        outcome(state, event, authorized).1 is PermissionDenied ==> !authorized,
{
}

/// A fetch is for the conversation that the message came from.
pub proof fn lemma_fetch_is_for_the_sender(state: StateView, event: EventView, authorized: bool)
    ensures
        outcome(state, event, authorized).1 matches EffectView::Fetch(request)
            ==> request.conversation_id == event.conversation_id,
{
}

/// A cancelled conversation answers as one at `Start` does, and no message
/// leaves a conversation cancelled.
pub proof fn lemma_terminal_is_start(event: EventView, authorized: bool)
    ensures
        outcome(StateView::Terminal, event, authorized) == outcome(
            StateView::Start,
            event,
            authorized,
        ),
        forall|state: StateView| !(#[trigger] outcome(state, event, authorized).0 is Terminal),
{
}

/// An authorized requester is never denied.
pub proof fn lemma_authorized_is_never_denied(state: StateView, event: EventView)
    ensures
        !(outcome(state, event, true).1 is PermissionDenied),
{
}

} // verus!
