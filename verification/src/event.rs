use vstd::prelude::*;

verus! {

/// The characters of an optional string.
pub open spec fn text_of(s: Option<String>) -> Option<Seq<char>> {
    match s {
        Some(t) => Some(t@),
        None => None,
    }
}

/// A command that a message may carry.
#[derive(Debug, PartialEq, Eq)]
pub enum Command {
    /// Asks for the list of commands.
    Help,
    /// Asks for the attachment of the same message to be stored.
    Download,
    /// Names a source to download from; the download follows with the next
    /// message of the conversation.
    DownloadFromSource { source: String },
    /// Ends whatever the conversation has begun.
    Cancel,
}

/// What the contracts say of a [`Command`].
pub enum CommandView {
    Help,
    Download,
    DownloadFromSource { source: Seq<char> },
    Cancel,
}

impl View for Command {
    type V = CommandView;

    open spec fn view(&self) -> CommandView {
        match self {
            Command::Help => CommandView::Help,
            Command::Download => CommandView::Download,
            Command::DownloadFromSource { source } => CommandView::DownloadFromSource {
                source: source@,
            },
            Command::Cancel => CommandView::Cancel,
        }
    }
}

impl Clone for Command {
    fn clone(&self) -> (copy: Self)
        ensures
            copy == *self,
    {
        match self {
            Command::Help => Command::Help,
            Command::Download => Command::Download,
            Command::DownloadFromSource { source } => Command::DownloadFromSource {
                source: source.clone(),
            },
            Command::Cancel => Command::Cancel,
        }
    }
}

/// A file that a message carries, not yet fetched.
#[derive(Clone, Debug, PartialEq, Eq)]
pub struct Attachment {
    /// The platform's reference to the file.
    pub remote_ref: String,
    /// The file name that the sender gave, if any.
    pub suggested_name: Option<String>,
    /// The size that the platform announced, if any.
    pub size_hint: Option<u64>,
}

/// What the contracts say of an [`Attachment`].
pub struct AttachmentView {
    pub remote_ref: Seq<char>,
    pub suggested_name: Option<Seq<char>>,
    pub size_hint: Option<u64>,
}

impl View for Attachment {
    type V = AttachmentView;

    open spec fn view(&self) -> AttachmentView {
        AttachmentView {
            remote_ref: self.remote_ref@,
            suggested_name: text_of(self.suggested_name),
            size_hint: self.size_hint,
        }
    }
}

/// One incoming message, as the transport hands it over.
#[derive(Clone, Debug, PartialEq, Eq)]
pub struct InboundEvent {
    /// The conversation that the message belongs to. It is also the identity
    /// that the authorization policy is asked about.
    pub conversation_id: String,
    /// The account that wrote the message.
    pub sender_id: String,
    /// The command that the message carries, if any.
    pub command: Option<Command>,
    /// The file that the message carries, if any.
    pub attachment: Option<Attachment>,
}

/// What the contracts say of an [`InboundEvent`].
pub struct EventView {
    pub conversation_id: Seq<char>,
    pub sender_id: Seq<char>,
    pub command: Option<CommandView>,
    pub attachment: Option<AttachmentView>,
}

impl View for InboundEvent {
    type V = EventView;

    open spec fn view(&self) -> EventView {
        EventView {
            conversation_id: self.conversation_id@,
            sender_id: self.sender_id@,
            command: match self.command {
                Some(c) => Some(c@),
                None => None,
            },
            attachment: match self.attachment {
                Some(a) => Some(a@),
                None => None,
            },
        }
    }
}

/// One file to fetch for one conversation. Made for one message and used up
/// by the fetch.
#[derive(Clone, Debug, PartialEq, Eq)]
pub struct DownloadRequest {
    /// The platform's reference to the file.
    pub remote_ref: String,
    /// The file name to store it under, if one was given.
    pub suggested_name: Option<String>,
    /// The conversation that asked, which is told the outcome.
    pub conversation_id: String,
}

/// What the contracts say of a [`DownloadRequest`].
pub struct RequestView {
    pub remote_ref: Seq<char>,
    pub suggested_name: Option<Seq<char>>,
    pub conversation_id: Seq<char>,
}

impl View for DownloadRequest {
    type V = RequestView;

    open spec fn view(&self) -> RequestView {
        RequestView {
            remote_ref: self.remote_ref@,
            suggested_name: text_of(self.suggested_name),
            conversation_id: self.conversation_id@,
        }
    }
}

/// The state of one conversation.
#[derive(Debug, PartialEq, Eq)]
pub enum ConversationState {
    /// Nothing is under way. Every conversation begins here.
    Start,
    /// A free-form answer is awaited.
    AwaitingInput,
    /// A source was named; the next message starts the download from it.
    AwaitingChoice { source: String },
    /// The conversation was cancelled. The next message finds it at `Start`.
    Terminal,
}

/// What the contracts say of a [`ConversationState`].
pub enum StateView {
    Start,
    AwaitingInput,
    AwaitingChoice { source: Seq<char> },
    Terminal,
}

impl View for ConversationState {
    type V = StateView;

    open spec fn view(&self) -> StateView {
        match self {
            ConversationState::Start => StateView::Start,
            ConversationState::AwaitingInput => StateView::AwaitingInput,
            ConversationState::AwaitingChoice { source } => StateView::AwaitingChoice {
                source: source@,
            },
            ConversationState::Terminal => StateView::Terminal,
        }
    }
}

impl Clone for ConversationState {
    fn clone(&self) -> (copy: Self)
        ensures
            copy == *self,
    {
        match self {
            ConversationState::Start => ConversationState::Start,
            ConversationState::AwaitingInput => ConversationState::AwaitingInput,
            ConversationState::AwaitingChoice { source } => ConversationState::AwaitingChoice {
                source: source.clone(),
            },
            ConversationState::Terminal => ConversationState::Terminal,
        }
    }
}

impl Default for ConversationState {
    fn default() -> (state: Self)
        ensures
            state == ConversationState::Start,
    {
        ConversationState::Start
    }
}

} // verus!
