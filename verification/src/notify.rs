use crate::dispatch::{Effect, EffectView};
use crate::fetch::{DownloadResult, FailureReason, ReasonView, ResultView};
use vstd::prelude::*;
use vstd::string::StringExecFns;

verus! {

/// The answer to a requester who is not on the allow-list.
pub const PERMISSION_DENIED: &'static str = "Permission Denied.";

/// The answer to a `Cancel`.
pub const CANCELLED: &'static str = "Cancel the dialogue";

/// The answer to a command that does not fit the conversation's state.
pub const INVALID_COMMAND: &'static str = "invalid command, please use /help ";

/// The report of a download that succeeded.
pub const DOWNLOAD_COMPLETE: &'static str = "Download Complete";

/// The beginning of the report of a download that failed.
pub const DOWNLOAD_FAILED: &'static str = "Download Failed: ";

/// One text for one conversation, to be sent by the transport.
#[derive(Clone, Debug, PartialEq, Eq)]
pub struct Notification {
    pub conversation_id: String,
    pub text: String,
}

/// What the contracts say of a [`Notification`].
pub struct NotificationView {
    pub conversation_id: Seq<char>,
    pub text: Seq<char>,
}

impl View for Notification {
    type V = NotificationView;

    open spec fn view(&self) -> NotificationView {
        NotificationView { conversation_id: self.conversation_id@, text: self.text@ }
    }
}

/// The text that an effect sends by itself, if any. The list of commands is
/// rendered by the transport, and a fetch is reported when it has ended.
pub open spec fn effect_text(effect: EffectView) -> Option<Seq<char>> {
    match effect {
        EffectView::PermissionDenied => Some(PERMISSION_DENIED@),
        EffectView::CancelAcknowledged => Some(CANCELLED@),
        EffectView::InvalidState => Some(INVALID_COMMAND@),
        _ => None,
    }
}

/// What went wrong, in words for the requester.
pub open spec fn reason_text(reason: ReasonView) -> Seq<char> {
    match reason {
        ReasonView::ResolutionFailed { detail } => "the file could not be resolved: "@ + detail,
        ReasonView::UnusableName => "no usable file name"@,
        ReasonView::DestinationExists { path } => "the file exists already: "@ + path,
        ReasonView::IoFailure { detail } => "the file could not be written: "@ + detail,
        ReasonView::UnexpectedEvent => "the download was interrupted"@,
    }
}

/// The report of a download.
pub open spec fn result_text(result: ResultView) -> Seq<char> {
    match result {
        ResultView::Success { .. } => DOWNLOAD_COMPLETE@,
        ResultView::Failure { reason } => DOWNLOAD_FAILED@ + reason_text(reason),
    }
}

/// The notification that an effect calls for, if it calls for one.
pub fn effect_notification(conversation_id: &str, effect: &Effect) -> (notice: Option<
    Notification,
>)
    ensures
        match notice {
            Some(n) => effect_text(effect@) == Some(n.text@) && n.conversation_id@
                == conversation_id@,
            None => effect_text(effect@) is None,
        },
{
    let text = match effect {
        Effect::PermissionDenied => PERMISSION_DENIED,
        Effect::CancelAcknowledged => CANCELLED,
        Effect::InvalidState => INVALID_COMMAND,
        _ => {
            return None;
        },
    };
    Some(Notification { conversation_id: conversation_id.to_owned(), text: text.to_owned() })
}

/// Says in words why a download failed: see [`reason_text`].
pub fn describe(reason: &FailureReason) -> (text: String)
    ensures
        text@ == reason_text(reason@),
{
    match reason {
        FailureReason::ResolutionFailed { detail } => String::from_str(
            "the file could not be resolved: ",
        ).concat(detail.as_str()),
        FailureReason::UnusableName => String::from_str("no usable file name"),
        FailureReason::DestinationExists { path } => String::from_str(
            "the file exists already: ",
        ).concat(path.as_str()),
        FailureReason::IoFailure { detail } => String::from_str(
            "the file could not be written: ",
        ).concat(detail.as_str()),
        FailureReason::UnexpectedEvent => String::from_str("the download was interrupted"),
    }
}

/// The notification that reports a download to the conversation that asked
/// for it. Every result is reported, success or failure.
pub fn result_notification(conversation_id: &str, result: &DownloadResult) -> (notice:
    Notification)
    ensures
        notice.conversation_id@ == conversation_id@,
        notice.text@ == result_text(result@),
{
    let text = match result {
        DownloadResult::Success { .. } => DOWNLOAD_COMPLETE.to_owned(),
        DownloadResult::Failure { reason } => {
            let why = describe(reason);
            String::from_str(DOWNLOAD_FAILED).concat(why.as_str())
        },
    };
    Notification { conversation_id: conversation_id.to_owned(), text }
}

} // verus!
