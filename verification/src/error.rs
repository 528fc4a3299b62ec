use crate::dispatch::{Effect, EffectView};
use crate::fetch::{FailureReason, ReasonView};
use vstd::prelude::*;

verus! {

/// The kinds of failure that the gateway knows. None of them ends the
/// process or touches another conversation.
#[derive(Clone, Copy, Debug, PartialEq, Eq, Structural)]
pub enum ErrorKind {
    /// The requester is not on the allow-list.
    AuthorizationDenied,
    /// The platform could not hand out the file.
    ResolutionFailed,
    /// The file could not be stored.
    IoFailure,
    /// A notification could not be delivered.
    NotifyFailed,
    /// The command does not fit the conversation's state.
    InvalidStateTransition,
}

/// The kind of failure that an effect stands for, if it stands for one.
pub open spec fn effect_kind(effect: EffectView) -> Option<ErrorKind> {
    match effect {
        EffectView::PermissionDenied => Some(ErrorKind::AuthorizationDenied),
        EffectView::InvalidState => Some(ErrorKind::InvalidStateTransition),
        _ => None,
    }
}

/// The kind of failure that ended a download. What the platform handed out
/// is at fault where it gives no handle and where it gives no usable name;
/// everything else happened while the file was stored.
pub open spec fn reason_kind(reason: ReasonView) -> ErrorKind {
    match reason {
        ReasonView::ResolutionFailed { .. } => ErrorKind::ResolutionFailed,
        ReasonView::UnusableName => ErrorKind::ResolutionFailed,
        ReasonView::DestinationExists { .. } => ErrorKind::IoFailure,
        ReasonView::IoFailure { .. } => ErrorKind::IoFailure,
        ReasonView::UnexpectedEvent => ErrorKind::IoFailure,
    }
}

impl ErrorKind {
    /// The requester is told of every failure but one: where a notification
    /// cannot be delivered there is no second channel to say so.
    pub open spec fn reported(self) -> bool {
        self != ErrorKind::NotifyFailed
    }

    /// What the operator's log records: the faults of the platform, of the
    /// disk and of the transport. A denial and a command out of place are the
    /// requester's doing and are only answered.
    pub open spec fn logged(self) -> bool {
        self == ErrorKind::ResolutionFailed || self == ErrorKind::IoFailure || self
            == ErrorKind::NotifyFailed
    }

    /// Whether the requester is told of a failure of this kind.
    pub fn is_reported(self) -> (told: bool)
        ensures
            told == self.reported(),
    {
        match self {
            ErrorKind::NotifyFailed => false,
            _ => true,
        }
    }

    /// Whether a failure of this kind goes to the operator's log.
    pub fn is_logged(self) -> (noted: bool)
        ensures
            noted == self.logged(),
    {
        match self {
            ErrorKind::ResolutionFailed | ErrorKind::IoFailure | ErrorKind::NotifyFailed => true,
            _ => false,
        }
    }
}

/// Classifies an effect: see [`effect_kind`].
pub fn kind_of_effect(effect: &Effect) -> (kind: Option<ErrorKind>)
    ensures
        kind == effect_kind(effect@),
{
    match effect {
        Effect::PermissionDenied => Some(ErrorKind::AuthorizationDenied),
        Effect::InvalidState => Some(ErrorKind::InvalidStateTransition),
        _ => None,
    }
}

/// Classifies the failure of a download: see [`reason_kind`].
pub fn kind_of_failure(reason: &FailureReason) -> (kind: ErrorKind)
    ensures
        kind == reason_kind(reason@),
{
    match reason {
        FailureReason::ResolutionFailed { .. } | FailureReason::UnusableName => {
            ErrorKind::ResolutionFailed
        },
        _ => ErrorKind::IoFailure,
    }
}

/// A denial and a command out of place are told to the requester and kept
/// out of the log; a download that fails is both told and logged.
pub proof fn lemma_failures_are_reported(effect: EffectView, reason: ReasonView)
    ensures
        effect_kind(effect) matches Some(kind) ==> kind.reported() && !kind.logged(),
        reason_kind(reason).reported() && reason_kind(reason).logged(),
{
}

} // verus!
