use crate::event::{DownloadRequest, RequestView};
use crate::filename::{derive_file_name, derived_name, join_path, joined_path, stays_within};
use vstd::prelude::*;

verus! {

/// Why a download failed.
#[derive(Clone, Debug, PartialEq, Eq)]
pub enum FailureReason {
    /// The platform could not turn the reference into a handle.
    ResolutionFailed { detail: String },
    /// Neither the suggested name nor the canonical identifier can stand as a
    /// file name.
    UnusableName,
    /// A file of that name is already there. It is left as it is.
    DestinationExists { path: String },
    /// The file could not be created or written.
    IoFailure { detail: String },
    /// The driver reported something that does not answer the pending step.
    UnexpectedEvent,
}

/// What the contracts say of a [`FailureReason`].
pub enum ReasonView {
    ResolutionFailed { detail: Seq<char> },
    UnusableName,
    DestinationExists { path: Seq<char> },
    IoFailure { detail: Seq<char> },
    UnexpectedEvent,
}

impl View for FailureReason {
    type V = ReasonView;

    open spec fn view(&self) -> ReasonView {
        match self {
            FailureReason::ResolutionFailed { detail } => ReasonView::ResolutionFailed {
                detail: detail@,
            },
            FailureReason::UnusableName => ReasonView::UnusableName,
            FailureReason::DestinationExists { path } => ReasonView::DestinationExists {
                path: path@,
            },
            FailureReason::IoFailure { detail } => ReasonView::IoFailure { detail: detail@ },
            FailureReason::UnexpectedEvent => ReasonView::UnexpectedEvent,
        }
    }
}

/// How a download ended.
#[derive(Clone, Debug, PartialEq, Eq)]
pub enum DownloadResult {
    /// The whole file is stored at `path` and is `byte_count` bytes long.
    Success { path: String, byte_count: u64 },
    /// Nothing usable is stored.
    Failure { reason: FailureReason },
}

/// What the contracts say of a [`DownloadResult`].
pub enum ResultView {
    Success { path: Seq<char>, byte_count: u64 },
    Failure { reason: ReasonView },
}

impl View for DownloadResult {
    type V = ResultView;

    open spec fn view(&self) -> ResultView {
        match self {
            DownloadResult::Success { path, byte_count } => ResultView::Success {
                path: path@,
                byte_count: *byte_count,
            },
            DownloadResult::Failure { reason } => ResultView::Failure { reason: reason@ },
        }
    }
}

/// What the driver reports after it has performed the pending step.
#[derive(Clone, Debug, PartialEq, Eq)]
pub enum FetchEvent {
    /// The reference was resolved.
    Resolved { handle: String, canonical_id: String },
    /// The reference could not be resolved.
    ResolveFailed { detail: String },
    /// The destination file was created and did not exist before.
    Created,
    /// The destination file exists already and was not touched.
    AlreadyExists,
    /// The destination file could not be created.
    CreateFailed { detail: String },
    /// The whole file was written; it is `byte_count` bytes long.
    Streamed { byte_count: u64 },
    /// Writing stopped before the end.
    StreamFailed { detail: String },
    /// The partial file was dealt with.
    Discarded,
}

/// What the contracts say of a [`FetchEvent`].
pub enum FetchEventView {
    Resolved { handle: Seq<char>, canonical_id: Seq<char> },
    ResolveFailed { detail: Seq<char> },
    Created,
    AlreadyExists,
    CreateFailed { detail: Seq<char> },
    Streamed { byte_count: u64 },
    StreamFailed { detail: Seq<char> },
    Discarded,
}

impl View for FetchEvent {
    type V = FetchEventView;

    open spec fn view(&self) -> FetchEventView {
        match self {
            FetchEvent::Resolved { handle, canonical_id } => FetchEventView::Resolved {
                handle: handle@,
                canonical_id: canonical_id@,
            },
            FetchEvent::ResolveFailed { detail } => FetchEventView::ResolveFailed {
                detail: detail@,
            },
            FetchEvent::Created => FetchEventView::Created,
            FetchEvent::AlreadyExists => FetchEventView::AlreadyExists,
            FetchEvent::CreateFailed { detail } => FetchEventView::CreateFailed { detail: detail@ },
            FetchEvent::Streamed { byte_count } => FetchEventView::Streamed {
                byte_count: *byte_count,
            },
            FetchEvent::StreamFailed { detail } => FetchEventView::StreamFailed { detail: detail@ },
            FetchEvent::Discarded => FetchEventView::Discarded,
        }
    }
}

/// Where one download stands. Each stage but the last names the step that
/// the driver is to perform next; the driver then reports what came of it.
#[derive(Clone, Debug, PartialEq, Eq)]
pub enum FetchStage {
    /// Resolve `request.remote_ref` to a handle.
    Resolve { request: DownloadRequest, destination_dir: String },
    /// Create the file at `path`, and fail if it is there already.
    Create { handle: String, path: String },
    /// Write what `handle` delivers into the file at `path`.
    Stream { handle: String, path: String },
    /// Remove the partial file at `path`.
    Discard { path: String, reason: FailureReason },
    /// The download has ended.
    Done { result: DownloadResult },
}

/// What the contracts say of a [`FetchStage`].
pub enum FetchStageView {
    Resolve { request: RequestView, destination_dir: Seq<char> },
    Create { handle: Seq<char>, path: Seq<char> },
    Stream { handle: Seq<char>, path: Seq<char> },
    Discard { path: Seq<char>, reason: ReasonView },
    Done { result: ResultView },
}

impl View for FetchStage {
    type V = FetchStageView;

    open spec fn view(&self) -> FetchStageView {
        match self {
            FetchStage::Resolve { request, destination_dir } => FetchStageView::Resolve {
                request: request@,
                destination_dir: destination_dir@,
            },
            FetchStage::Create { handle, path } => FetchStageView::Create {
                handle: handle@,
                path: path@,
            },
            FetchStage::Stream { handle, path } => FetchStageView::Stream {
                handle: handle@,
                path: path@,
            },
            FetchStage::Discard { path, reason } => FetchStageView::Discard {
                path: path@,
                reason: reason@,
            },
            FetchStage::Done { result } => FetchStageView::Done { result: result@ },
        }
    }
}

/// The stage that ends a download in failure.
pub open spec fn failed(reason: ReasonView) -> FetchStageView {
    FetchStageView::Done { result: ResultView::Failure { reason } }
}

/// The stage that follows when the driver reports `event`.
///
/// A file is discarded only after this download has created it: an
/// unexpected report while the file is being created ends the download and
/// leaves whatever is at the path alone.
pub open spec fn advanced(stage: FetchStageView, event: FetchEventView) -> FetchStageView {
    match stage {
        FetchStageView::Resolve { request, destination_dir } => match event {
            FetchEventView::Resolved { handle, canonical_id } => match derived_name(
                request.suggested_name,
                canonical_id,
            ) {
                Some(name) => FetchStageView::Create {
                    handle,
                    path: joined_path(destination_dir, name),
                },
                None => failed(ReasonView::UnusableName),
            },
            FetchEventView::ResolveFailed { detail } => failed(
                ReasonView::ResolutionFailed { detail },
            ),
            _ => failed(ReasonView::UnexpectedEvent),
        },
        FetchStageView::Create { handle, path } => match event {
            FetchEventView::Created => FetchStageView::Stream { handle, path },
            FetchEventView::AlreadyExists => failed(ReasonView::DestinationExists { path }),
            FetchEventView::CreateFailed { detail } => failed(ReasonView::IoFailure { detail }),
            _ => failed(ReasonView::UnexpectedEvent),
        },
        FetchStageView::Stream { handle, path } => match event {
            FetchEventView::Streamed { byte_count } => FetchStageView::Done {
                result: ResultView::Success { path, byte_count },
            },
            FetchEventView::StreamFailed { detail } => FetchStageView::Discard {
                path,
                reason: ReasonView::IoFailure { detail },
            },
            _ => FetchStageView::Discard { path, reason: ReasonView::UnexpectedEvent },
        },
        FetchStageView::Discard { path, reason } => failed(reason),
        FetchStageView::Done { result } => FetchStageView::Done { result },
    }
}

impl FetchStage {
    /// Begins the download of `request` into `destination_dir`.
    pub fn start(request: DownloadRequest, destination_dir: &str) -> (stage: FetchStage)
        ensures
            stage@ == (FetchStageView::Resolve {
                request: request@,
                destination_dir: destination_dir@,
            }),
    {
        FetchStage::Resolve { request, destination_dir: destination_dir.to_owned() }
    }

    /// Whether the download has ended.
    pub fn is_done(&self) -> (done: bool)
        ensures
            done == (self@ is Done),
    {
        match self {
            FetchStage::Done { .. } => true,
            _ => false,
        }
    }

    /// The result, once the download has ended.
    pub fn into_result(self) -> (result: Option<DownloadResult>)
        ensures
            match result {
                Some(r) => self@ == (FetchStageView::Done { result: r@ }),
                None => !(self@ is Done),
            },
    {
        match self {
            FetchStage::Done { result } => Some(result),
            _ => None,
        }
    }

    /// Takes the driver's report and moves on: see [`advanced`].
    pub fn advance(self, event: FetchEvent) -> (next: FetchStage)
        ensures
            next@ == advanced(self@, event@),
    {
        match self {
            FetchStage::Resolve { request, destination_dir } => match event {
                FetchEvent::Resolved { handle, canonical_id } => {
                    let suggested: Option<&str> = match &request.suggested_name {
                        Some(s) => Some(s.as_str()),
                        None => None,
                    };
                    match derive_file_name(suggested, canonical_id.as_str()) {
                        Some(name) => FetchStage::Create {
                            handle,
                            path: join_path(destination_dir.as_str(), name.as_str()),
                        },
                        None => fail(FailureReason::UnusableName),
                    }
                },
                FetchEvent::ResolveFailed { detail } => fail(
                    FailureReason::ResolutionFailed { detail },
                ),
                _ => fail(FailureReason::UnexpectedEvent),
            },
            FetchStage::Create { handle, path } => match event {
                FetchEvent::Created => FetchStage::Stream { handle, path },
                FetchEvent::AlreadyExists => fail(FailureReason::DestinationExists { path }),
                FetchEvent::CreateFailed { detail } => fail(FailureReason::IoFailure { detail }),
                _ => fail(FailureReason::UnexpectedEvent),
            },
            FetchStage::Stream { handle, path } => match event {
                FetchEvent::Streamed { byte_count } => FetchStage::Done {
                    result: DownloadResult::Success { path, byte_count },
                },
                FetchEvent::StreamFailed { detail } => FetchStage::Discard {
                    path,
                    reason: FailureReason::IoFailure { detail },
                },
                _ => FetchStage::Discard { path, reason: FailureReason::UnexpectedEvent },
            },
            FetchStage::Discard { path, reason } => fail(reason),
            FetchStage::Done { result } => FetchStage::Done { result },
        }
    }
}

/// The stage that ends a download in failure.
fn fail(reason: FailureReason) -> (stage: FetchStage)
    ensures
        stage@ == failed(reason@),
{
    FetchStage::Done { result: DownloadResult::Failure { reason } }
}

/// The download has ended and the file is stored.
pub open spec fn has_succeeded(stage: FetchStageView) -> bool {
    stage matches FetchStageView::Done { result: ResultView::Success { .. } }
}

/// How many reports a download at `stage` can still take before it has ended.
pub open spec fn remaining_steps(stage: FetchStageView) -> nat {
    match stage {
        FetchStageView::Resolve { .. } => 4,
        FetchStageView::Create { .. } => 3,
        FetchStageView::Stream { .. } => 2,
        FetchStageView::Discard { .. } => 1,
        FetchStageView::Done { .. } => 0,
    }
}

/// The stage reached from `stage` when the driver reports `events` in turn.
pub open spec fn run(stage: FetchStageView, events: Seq<FetchEventView>) -> FetchStageView
    decreases events.len(),
{
    if events.len() == 0 {
        stage
    } else {
        run(advanced(stage, events.first()), events.drop_first())
    }
}

/// Every stage of a download into `dir` keeps to `dir`: the path that it is
/// about to create, write, remove or report is `dir` followed by one safe
/// component.
pub open spec fn confined(stage: FetchStageView, dir: Seq<char>) -> bool {
    match stage {
        FetchStageView::Resolve { destination_dir, .. } => destination_dir == dir,
        FetchStageView::Create { path, .. } => stays_within(path, dir),
        FetchStageView::Stream { path, .. } => stays_within(path, dir),
        FetchStageView::Discard { path, .. } => stays_within(path, dir),
        FetchStageView::Done { result: ResultView::Success { path, .. } } => stays_within(
            path,
            dir,
        ),
        FetchStageView::Done { result: ResultView::Failure { .. } } => true,
    }
}

/// Whatever the driver reports, a download that has not ended comes closer
/// to its end.
pub proof fn lemma_advance_makes_progress(stage: FetchStageView, event: FetchEventView)
    requires
        !(stage is Done),
    ensures
        remaining_steps(advanced(stage, event)) < remaining_steps(stage),
{
}

/// A download that has ended keeps its result, whatever is reported later:
/// a request has one result and no second one.
pub proof fn lemma_result_is_final(result: ResultView, events: Seq<FetchEventView>)
    ensures
        run(FetchStageView::Done { result }, events) == (FetchStageView::Done { result }),
    decreases events.len(),
{
    if events.len() > 0 {
        lemma_result_is_final(result, events.drop_first());
    }
}

/// No download goes on for ever: after as many reports as the stage has
/// steps left, four at most, it has ended.
pub proof fn lemma_every_run_ends(stage: FetchStageView, events: Seq<FetchEventView>)
    requires
        events.len() >= remaining_steps(stage),
    ensures
        run(stage, events) is Done,
        remaining_steps(stage) <= 4,
    decreases events.len(),
{
    if events.len() > 0 {
        if stage is Done {
            lemma_result_is_final(stage->result, events);
        } else {
            lemma_advance_makes_progress(stage, events.first());
            lemma_every_run_ends(advanced(stage, events.first()), events.drop_first());
        }
    }
}

/// A download succeeds in one way only: the file was being written and the
/// driver reports that all of it is there. The result then names that file
/// and the number of bytes that the driver counted.
pub proof fn lemma_success_means_streamed(stage: FetchStageView, event: FetchEventView)
    requires
        !(stage is Done),
    ensures
        has_succeeded(advanced(stage, event)) <==> (stage is Stream && event is Streamed),
        stage matches FetchStageView::Stream { handle, path } ==> (forall|n: u64|
            #[trigger] advanced(stage, FetchEventView::Streamed { byte_count: n }) == (
            FetchStageView::Done { result: ResultView::Success { path, byte_count: n } })),
{
}

/// Once the file exists, a failure ends the download only after the partial
/// file was handed to the driver for removal.
pub proof fn lemma_failure_after_creation_discards(stage: FetchStageView, event: FetchEventView)
    requires
        stage is Stream,
        !(event is Streamed),
    ensures
        advanced(stage, event) matches FetchStageView::Discard { path, .. } && path
            == stage->Stream_path,
{
}

/// One report keeps a download within its directory.
pub proof fn lemma_advance_stays_confined(
    stage: FetchStageView,
    event: FetchEventView,
    dir: Seq<char>,
)
    requires
        confined(stage, dir),
    ensures
        confined(advanced(stage, event), dir),
{
    if let FetchStageView::Resolve { request, destination_dir } = stage {
        if let FetchEventView::Resolved { handle, canonical_id } = event {
            crate::filename::lemma_destination_stays_within(
                dir,
                request.suggested_name,
                canonical_id,
            );
        }
    }
}

/// A download never leaves its destination directory: whatever name was
/// suggested and whatever the driver reports, every path that the download
/// asks to have created, written or removed, and the path of its result,
/// is the directory followed by one safe component.
pub proof fn lemma_run_stays_confined(
    request: RequestView,
    dir: Seq<char>,
    events: Seq<FetchEventView>,
)
    ensures
        confined(run(FetchStageView::Resolve { request, destination_dir: dir }, events), dir),
{
    lemma_confined_run(FetchStageView::Resolve { request, destination_dir: dir }, events, dir);
}

/// Any number of reports keep a download within its directory.
pub proof fn lemma_confined_run(stage: FetchStageView, events: Seq<FetchEventView>, dir: Seq<char>)
    requires
        confined(stage, dir),
    ensures
        confined(run(stage, events), dir),
    decreases events.len(),
{
    if events.len() > 0 {
        lemma_advance_stays_confined(stage, events.first(), dir);
        lemma_confined_run(advanced(stage, events.first()), events.drop_first(), dir);
    }
}

} // verus!
