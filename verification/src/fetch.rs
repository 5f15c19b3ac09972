//! The atomic fetcher: a remote resource is streamed into `<destination>.part`,
//! checked for completeness, and only then renamed to its destination.
//!
//! The fetcher is a state machine. It decides; the caller performs each
//! [`FetchAction`] and reports what happened as a [`FetchEvent`]:
//!
//! ```text
//! Send -> EnsureParent -> RemoveTemp -> CreateTemp -> (Receive -> Write)* ->
//! Flush -> Sync -> Promote -> Succeed
//! ```
//!
//! Whatever fails, the machine asks for the temporary artifact to be removed
//! and then ends with [`FetchAction::Fail`].

use crate::error::{ErrorKind, ErrorView, SyncError};
use crate::path::{part_path, spec_part_path};
use crate::text::{decimal, int_to_string};
use vstd::prelude::*;
use vstd::string::*;

verus! {

/// Where the fetcher stands: the operation whose result it waits for.
#[derive(Debug, Clone, Copy, PartialEq, Eq, Structural)]
pub enum FetchStage {
    /// The request was sent; the response head is awaited.
    AwaitingResponse,
    /// The destination's parent directory is being created.
    EnsuringParent,
    /// A temporary artifact left by an earlier run is being removed.
    ClearingStale,
    /// The temporary artifact is being created.
    CreatingTemp,
    /// The next chunk of the body is awaited.
    Receiving,
    /// The chunk just received is being written to the temporary artifact.
    Writing,
    /// Buffered bytes are being flushed.
    Flushing,
    /// The temporary artifact is being forced to disk and closed.
    Syncing,
    /// The temporary artifact is being renamed to the destination.
    Promoting,
    /// A failure occurred; the temporary artifact is being removed.
    CleaningUp,
    /// The fetch is over.
    Done,
}

/// The fetcher's memory between two steps.
#[derive(Debug, Clone, PartialEq, Eq)]
pub struct FetchState {
    pub stage: FetchStage,
    /// The final path of the resource.
    pub destination: String,
    /// The content length the server announced, if it announced one.
    pub expected: Option<u64>,
    /// The number of bytes written to the temporary artifact so far.
    pub written: u64,
    /// The size of the chunk that is being written.
    pub pending: u64,
    /// The failure that ended the fetch, once there is one.
    pub failure: Option<SyncError>,
}

/// Mathematical view of a [`FetchState`].
pub struct FetchStateView {
    pub stage: FetchStage,
    pub destination: Seq<char>,
    pub expected: Option<u64>,
    pub written: u64,
    pub pending: u64,
    pub failure: Option<ErrorView>,
}

impl View for FetchState {
    type V = FetchStateView;

    open spec fn view(&self) -> FetchStateView {
        FetchStateView {
            stage: self.stage,
            destination: self.destination@,
            expected: self.expected,
            written: self.written,
            pending: self.pending,
            failure: match self.failure {
                Some(e) => Some(e@),
                None => None,
            },
        }
    }
}

/// What the caller reports after performing an action.
#[derive(Debug, Clone, PartialEq, Eq)]
pub enum FetchEvent {
    /// The server answered with this status and, possibly, a content length.
    Responded { status: u16, status_text: String, content_length: Option<u64> },
    /// The requested operation succeeded.
    Completed,
    /// A chunk of this many bytes was received.
    Chunk(u64),
    /// The body has ended.
    EndOfStream,
    /// The requested operation failed.
    Failed(String),
}

/// Mathematical view of a [`FetchEvent`].
pub enum FetchEventView {
    Responded { status: u16, status_text: Seq<char>, content_length: Option<u64> },
    Completed,
    Chunk(u64),
    EndOfStream,
    Failed(Seq<char>),
}

impl View for FetchEvent {
    type V = FetchEventView;

    open spec fn view(&self) -> FetchEventView {
        match self {
            FetchEvent::Responded { status, status_text, content_length } => FetchEventView::Responded {
                status: *status,
                status_text: status_text@,
                content_length: *content_length,
            },
            FetchEvent::Completed => FetchEventView::Completed,
            FetchEvent::Chunk(n) => FetchEventView::Chunk(*n),
            FetchEvent::EndOfStream => FetchEventView::EndOfStream,
            FetchEvent::Failed(m) => FetchEventView::Failed(m@),
        }
    }
}

/// What the fetcher asks the caller to do next.
#[derive(Debug, Clone, PartialEq, Eq)]
pub enum FetchAction {
    /// Send a GET request to `url` with `token` as the `Authorization` header,
    /// unchanged; report `Responded`, or `Failed` if no response arrived.
    Send { url: String, token: String },
    /// Create the parent directory of `path`, and its ancestors, where missing.
    EnsureParent { path: String },
    /// Release the temporary artifact if it is open and remove it. The result
    /// of the attempt is not looked at.
    RemoveTemp { path: String },
    /// Create the temporary artifact, empty.
    CreateTemp { path: String },
    /// Await the next chunk of the body; report `Chunk`, `EndOfStream` or `Failed`.
    Receive,
    /// Write the chunk just received to the temporary artifact.
    Write,
    /// Flush what is buffered for the temporary artifact.
    Flush,
    /// Force the temporary artifact to disk and close it.
    Sync,
    /// Rename `from` to `to`, atomically.
    Promote { from: String, to: String },
    /// The resource is at its destination. Nothing is left to do.
    Succeed,
    /// The fetch failed. Nothing is left to do.
    Fail(SyncError),
}

/// Mathematical view of a [`FetchAction`].
pub enum FetchActionView {
    Send { url: Seq<char>, token: Seq<char> },
    EnsureParent { path: Seq<char> },
    RemoveTemp { path: Seq<char> },
    CreateTemp { path: Seq<char> },
    Receive,
    Write,
    Flush,
    Sync,
    Promote { from: Seq<char>, to: Seq<char> },
    Succeed,
    Fail(ErrorView),
}

impl View for FetchAction {
    type V = FetchActionView;

    open spec fn view(&self) -> FetchActionView {
        match self {
            FetchAction::Send { url, token } => FetchActionView::Send { url: url@, token: token@ },
            FetchAction::EnsureParent { path } => FetchActionView::EnsureParent { path: path@ },
            FetchAction::RemoveTemp { path } => FetchActionView::RemoveTemp { path: path@ },
            FetchAction::CreateTemp { path } => FetchActionView::CreateTemp { path: path@ },
            FetchAction::Receive => FetchActionView::Receive,
            FetchAction::Write => FetchActionView::Write,
            FetchAction::Flush => FetchActionView::Flush,
            FetchAction::Sync => FetchActionView::Sync,
            FetchAction::Promote { from, to } => FetchActionView::Promote { from: from@, to: to@ },
            FetchAction::Succeed => FetchActionView::Succeed,
            FetchAction::Fail(e) => FetchActionView::Fail(e@),
        }
    }
}

/// Whether `code` is an HTTP success status (the 2xx class).
pub open spec fn spec_is_success(code: u16) -> bool {
    200 <= code < 300
}

/// Tells whether an HTTP status code belongs to the success class.
pub fn is_success(code: u16) -> (ok: bool)
    ensures
        ok == spec_is_success(code),
{
    200 <= code && code < 300
}

/// The message for a response whose status is not a success.
pub open spec fn http_error_message(status_text: Seq<char>) -> Seq<char> {
    "Erreur HTTP: "@ + status_text
}

/// The message for a body whose size differs from the announced one.
pub open spec fn incomplete_message(written: u64, expected: u64) -> Seq<char> {
    "incomplete download: wrote "@ + decimal(written as int) + ", expected "@ + decimal(
        expected as int,
    )
}

/// The message for an event that the stage in progress cannot have produced.
pub open spec fn unexpected_message() -> Seq<char> {
    "unexpected event"@
}

/// The message for a body too large to count.
pub open spec fn overflow_message() -> Seq<char> {
    "byte count overflow"@
}

/// The kind of failure that belongs to a stage: the network for the stages
/// that talk to the server, the filesystem for the others.
pub open spec fn stage_kind(stage: FetchStage) -> ErrorKind {
    match stage {
        FetchStage::AwaitingResponse | FetchStage::Receiving => ErrorKind::Transport,
        _ => ErrorKind::Filesystem,
    }
}

/// The first state of a fetch to `destination`.
pub open spec fn spec_begin_state(destination: Seq<char>) -> FetchStateView {
    FetchStateView {
        stage: FetchStage::AwaitingResponse,
        destination,
        expected: None,
        written: 0,
        pending: 0,
        failure: None,
    }
}

/// The step taken on a failure: remember it, and ask for the temporary
/// artifact to be removed.
pub open spec fn spec_abort(s: FetchStateView, kind: ErrorKind, message: Seq<char>) -> (
    FetchStateView,
    FetchActionView,
) {
    (
        FetchStateView {
            stage: FetchStage::CleaningUp,
            failure: Some(ErrorView { kind, message }),
            ..s
        },
        FetchActionView::RemoveTemp { path: spec_part_path(s.destination) },
    )
}

/// The step taken when an operation succeeded: move to `stage` and ask for
/// `action`.
pub open spec fn spec_advance(s: FetchStateView, stage: FetchStage, action: FetchActionView) -> (
    FetchStateView,
    FetchActionView,
) {
    (FetchStateView { stage, ..s }, action)
}

/// The step taken when the operation of stage `s.stage` reported something
/// other than success.
pub open spec fn spec_other(s: FetchStateView, e: FetchEventView) -> (
    FetchStateView,
    FetchActionView,
) {
    match e {
        FetchEventView::Failed(m) => spec_abort(s, stage_kind(s.stage), m),
        _ => spec_abort(s, stage_kind(s.stage), unexpected_message()),
    }
}

/// The verdict of a fetch that is over.
pub open spec fn spec_verdict(s: FetchStateView) -> FetchActionView {
    match s.failure {
        Some(e) => FetchActionView::Fail(e),
        None => FetchActionView::Succeed,
    }
}

/// The fetcher's transition function: the next state and the next action,
/// given the current state and what the caller reports.
pub open spec fn spec_step(s: FetchStateView, e: FetchEventView) -> (FetchStateView, FetchActionView) {
    match s.stage {
        FetchStage::AwaitingResponse => match e {
            FetchEventView::Responded { status, status_text, content_length } => {
                if spec_is_success(status) {
                    (
                        FetchStateView {
                            stage: FetchStage::EnsuringParent,
                            expected: content_length,
                            ..s
                        },
                        FetchActionView::EnsureParent { path: s.destination },
                    )
                } else {
                    spec_abort(s, ErrorKind::Transport, http_error_message(status_text))
                }
            },
            _ => spec_other(s, e),
        },
        FetchStage::EnsuringParent => match e {
            FetchEventView::Completed => spec_advance(
                s,
                FetchStage::ClearingStale,
                FetchActionView::RemoveTemp { path: spec_part_path(s.destination) },
            ),
            _ => spec_other(s, e),
        },
        FetchStage::ClearingStale => spec_advance(
            s,
            FetchStage::CreatingTemp,
            FetchActionView::CreateTemp { path: spec_part_path(s.destination) },
        ),
        FetchStage::CreatingTemp => match e {
            FetchEventView::Completed => (
                FetchStateView { stage: FetchStage::Receiving, written: 0, pending: 0, ..s },
                FetchActionView::Receive,
            ),
            _ => spec_other(s, e),
        },
        FetchStage::Receiving => match e {
            FetchEventView::Chunk(n) => (
                FetchStateView { stage: FetchStage::Writing, pending: n, ..s },
                FetchActionView::Write,
            ),
            FetchEventView::EndOfStream => spec_advance(s, FetchStage::Flushing, FetchActionView::Flush),
            _ => spec_other(s, e),
        },
        FetchStage::Writing => match e {
            FetchEventView::Completed => {
                if s.written + s.pending <= u64::MAX {
                    (
                        FetchStateView {
                            stage: FetchStage::Receiving,
                            written: (s.written + s.pending) as u64,
                            pending: 0,
                            ..s
                        },
                        FetchActionView::Receive,
                    )
                } else {
                    spec_abort(s, ErrorKind::Integrity, overflow_message())
                }
            },
            _ => spec_other(s, e),
        },
        FetchStage::Flushing => match e {
            FetchEventView::Completed => spec_advance(s, FetchStage::Syncing, FetchActionView::Sync),
            _ => spec_other(s, e),
        },
        FetchStage::Syncing => match e {
            FetchEventView::Completed => {
                if s.expected matches Some(m) && s.written != m {
                    spec_abort(s, ErrorKind::Integrity, incomplete_message(s.written, s.expected->0))
                } else {
                    spec_advance(
                        s,
                        FetchStage::Promoting,
                        FetchActionView::Promote {
                            from: spec_part_path(s.destination),
                            to: s.destination,
                        },
                    )
                }
            },
            _ => spec_other(s, e),
        },
        FetchStage::Promoting => match e {
            FetchEventView::Completed => spec_advance(s, FetchStage::Done, FetchActionView::Succeed),
            _ => spec_other(s, e),
        },
        FetchStage::CleaningUp => (FetchStateView { stage: FetchStage::Done, ..s }, spec_verdict(s)),
        FetchStage::Done => (s, spec_verdict(s)),
    }
}

/// Starts a fetch of `url` to `destination`: the first state, and the request
/// to send.
pub fn begin(url: &str, destination: &str, token: &str) -> (r: (FetchState, FetchAction))
    ensures
        r.0@ == spec_begin_state(destination@),
        r.1@ == (FetchActionView::Send { url: url@, token: token@ }),
{
    (
        FetchState {
            stage: FetchStage::AwaitingResponse,
            destination: destination.to_owned(),
            expected: None,
            written: 0,
            pending: 0,
            failure: None,
        },
        FetchAction::Send { url: url.to_owned(), token: token.to_owned() },
    )
}

/// Records a failure and asks for the temporary artifact to be removed.
fn abort(state: FetchState, kind: ErrorKind, message: String) -> (r: (FetchState, FetchAction))
    ensures
        (r.0@, r.1@) == spec_abort(state@, kind, message@),
{
    let path = part_path(state.destination.as_str());
    (
        FetchState {
            stage: FetchStage::CleaningUp,
            destination: state.destination,
            expected: state.expected,
            written: state.written,
            pending: state.pending,
            failure: Some(SyncError::new(kind, message)),
        },
        FetchAction::RemoveTemp { path },
    )
}

/// Moves to `stage` and asks for `action`.
fn advance(state: FetchState, stage: FetchStage, action: FetchAction) -> (r: (
    FetchState,
    FetchAction,
))
    ensures
        (r.0@, r.1@) == spec_advance(state@, stage, action@),
{
    (
        FetchState {
            stage,
            destination: state.destination,
            expected: state.expected,
            written: state.written,
            pending: state.pending,
            failure: state.failure,
        },
        action,
    )
}

/// Handles a report other than the success of the stage in progress.
fn other(state: FetchState, event: FetchEvent) -> (r: (FetchState, FetchAction))
    ensures
        (r.0@, r.1@) == spec_other(state@, event@),
{
    let kind = match state.stage {
        FetchStage::AwaitingResponse | FetchStage::Receiving => ErrorKind::Transport,
        _ => ErrorKind::Filesystem,
    };
    match event {
        FetchEvent::Failed(m) => abort(state, kind, m),
        _ => abort(state, kind, "unexpected event".to_owned()),
    }
}

/// The verdict of a fetch that is over.
fn verdict(state: &FetchState) -> (a: FetchAction)
    ensures
        a@ == spec_verdict(state@),
{
    match &state.failure {
        Some(e) => FetchAction::Fail(SyncError::new(e.kind, e.describe())),
        None => FetchAction::Succeed,
    }
}

/// Takes one step: given what the caller reports about the last action, says
/// what to do next.
pub fn step(state: FetchState, event: FetchEvent) -> (r: (FetchState, FetchAction))
    ensures
        (r.0@, r.1@) == spec_step(state@, event@),
{
    match state.stage {
        FetchStage::AwaitingResponse => match event {
            FetchEvent::Responded { status, status_text, content_length } => {
                if is_success(status) {
                    let path = state.destination.clone();
                    (
                        FetchState {
                            stage: FetchStage::EnsuringParent,
                            destination: state.destination,
                            expected: content_length,
                            written: state.written,
                            pending: state.pending,
                            failure: state.failure,
                        },
                        FetchAction::EnsureParent { path },
                    )
                } else {
                    let message = "Erreur HTTP: ".to_owned().concat(status_text.as_str());
                    abort(state, ErrorKind::Transport, message)
                }
            },
            _ => other(state, event),
        },
        FetchStage::EnsuringParent => match event {
            FetchEvent::Completed => {
                let path = part_path(state.destination.as_str());
                advance(state, FetchStage::ClearingStale, FetchAction::RemoveTemp { path })
            },
            _ => other(state, event),
        },
        FetchStage::ClearingStale => {
            let path = part_path(state.destination.as_str());
            advance(state, FetchStage::CreatingTemp, FetchAction::CreateTemp { path })
        },
        FetchStage::CreatingTemp => match event {
            FetchEvent::Completed => (
                FetchState {
                    stage: FetchStage::Receiving,
                    destination: state.destination,
                    expected: state.expected,
                    written: 0,
                    pending: 0,
                    failure: state.failure,
                },
                FetchAction::Receive,
            ),
            _ => other(state, event),
        },
        FetchStage::Receiving => match event {
            FetchEvent::Chunk(n) => (
                FetchState {
                    stage: FetchStage::Writing,
                    destination: state.destination,
                    expected: state.expected,
                    written: state.written,
                    pending: n,
                    failure: state.failure,
                },
                FetchAction::Write,
            ),
            FetchEvent::EndOfStream => advance(state, FetchStage::Flushing, FetchAction::Flush),
            _ => other(state, event),
        },
        FetchStage::Writing => match event {
            FetchEvent::Completed => match state.written.checked_add(state.pending) {
                Some(total) => (
                    FetchState {
                        stage: FetchStage::Receiving,
                        destination: state.destination,
                        expected: state.expected,
                        written: total,
                        pending: 0,
                        failure: state.failure,
                    },
                    FetchAction::Receive,
                ),
                None => abort(state, ErrorKind::Integrity, "byte count overflow".to_owned()),
            },
            _ => other(state, event),
        },
        FetchStage::Flushing => match event {
            FetchEvent::Completed => advance(state, FetchStage::Syncing, FetchAction::Sync),
            _ => other(state, event),
        },
        FetchStage::Syncing => match event {
            FetchEvent::Completed => {
                let mismatch: bool = match state.expected {
                    Some(m) => state.written != m,
                    None => false,
                };
                if mismatch {
                    let expected: u64 = match state.expected {
                        Some(m) => m,
                        None => 0,
                    };
                    let message = incomplete_download(state.written, expected);
                    abort(state, ErrorKind::Integrity, message)
                } else {
                    let from = part_path(state.destination.as_str());
                    let to = state.destination.clone();
                    advance(state, FetchStage::Promoting, FetchAction::Promote { from, to })
                }
            },
            _ => other(state, event),
        },
        FetchStage::Promoting => match event {
            FetchEvent::Completed => advance(state, FetchStage::Done, FetchAction::Succeed),
            _ => other(state, event),
        },
        FetchStage::CleaningUp => {
            let action = verdict(&state);
            (
                FetchState {
                    stage: FetchStage::Done,
                    destination: state.destination,
                    expected: state.expected,
                    written: state.written,
                    pending: state.pending,
                    failure: state.failure,
                },
                action,
            )
        },
        FetchStage::Done => {
            let action = verdict(&state);
            (state, action)
        },
    }
}

/// Words the failure of a download whose size is not the announced one.
pub fn incomplete_download(written: u64, expected: u64) -> (message: String)
    ensures
        message@ == incomplete_message(written, expected),
{
    let w = int_to_string(written as i128);
    let m = int_to_string(expected as i128);
    "incomplete download: wrote ".to_owned().concat(w.as_str()).concat(", expected ").concat(
        m.as_str(),
    )
}


/// Whether the bytes written are as many as the server announced, where it
/// announced a length.
pub open spec fn lengths_agree(s: FetchStateView) -> bool {
    s.expected matches Some(m) ==> s.written == m
}

/// The state reached, and the actions asked for, when `events` are reported
/// one after the other, starting in state `s`.
pub open spec fn spec_run(s: FetchStateView, events: Seq<FetchEventView>) -> (
    FetchStateView,
    Seq<FetchActionView>,
)
    decreases events.len(),
{
    if events.len() == 0 {
        (s, Seq::empty())
    } else {
        let (mid, actions) = spec_run(s, events.drop_last());
        let (next, action) = spec_step(mid, events.last());
        (next, actions.push(action))
    }
}

/// What holds of every state that a fetch to `destination` can reach.
pub open spec fn reachable_shape(s: FetchStateView, destination: Seq<char>) -> bool {
    &&& s.destination == destination
    &&& s.stage == FetchStage::Promoting ==> lengths_agree(s)
    &&& s.stage == FetchStage::CleaningUp ==> s.failure is Some
    &&& s.stage == FetchStage::Done && s.failure is None ==> lengths_agree(s)
    &&& s.stage != FetchStage::CleaningUp && s.stage != FetchStage::Done ==> s.failure is None
}

/// Whether the temporary artifact of `destination` is what `a` removes.
pub open spec fn removes_temp(a: FetchActionView, destination: Seq<char>) -> bool {
    a == (FetchActionView::RemoveTemp { path: spec_part_path(destination) })
}

/// What holds of every run of a fetch to `destination`, between the state
/// reached and the actions asked for so far.
pub open spec fn run_shape(s: FetchStateView, actions: Seq<FetchActionView>, destination: Seq<char>) -> bool {
    &&& reachable_shape(s, destination)
    &&& (exists|i: int|
        0 <= i < actions.len() && (#[trigger] actions[i] is Promote || actions[i] is Succeed)) ==> {
        &&& lengths_agree(s)
        &&& s.stage == FetchStage::Promoting || s.stage == FetchStage::CleaningUp || s.stage
            == FetchStage::Done
    }
    &&& s.stage == FetchStage::CleaningUp ==> actions.len() > 0 && removes_temp(
        actions.last(),
        destination,
    )
    &&& s.stage == FetchStage::Done ==> actions.len() > 0 && actions.last() == spec_verdict(s)
    &&& forall|i: int|
        0 <= i < actions.len() && #[trigger] actions[i] is Fail ==> i >= 1 && (removes_temp(
            actions[i - 1],
            destination,
        ) || actions[i - 1] is Fail)
    &&& forall|i: int|
        0 <= i < actions.len() && #[trigger] actions[i] is CreateTemp ==> i >= 1 && removes_temp(
            actions[i - 1],
            destination,
        )
    &&& forall|i: int|
        0 <= i < actions.len() && #[trigger] actions[i] is Promote ==> actions[i] == (
        FetchActionView::Promote { from: spec_part_path(destination), to: destination })
}

/// Every run of a fetch has the shape that `run_shape` describes.
proof fn lemma_run_shape(destination: Seq<char>, events: Seq<FetchEventView>)
    ensures
        run_shape(
            spec_run(spec_begin_state(destination), events).0,
            spec_run(spec_begin_state(destination), events).1,
            destination,
        ),
        spec_run(spec_begin_state(destination), events).1.len() == events.len(),
    decreases events.len(),
{
    let start = spec_begin_state(destination);
    if events.len() > 0 {
        lemma_run_shape(destination, events.drop_last());
        let (mid, before) = spec_run(start, events.drop_last());
        let (next, action) = spec_step(mid, events.last());
        let after = before.push(action);
        assert(spec_run(start, events) == (next, after));
        assert(reachable_shape(next, destination));
        assert forall|i: int| 0 <= i < after.len() && #[trigger] after[i] is Fail implies i >= 1 && (
        removes_temp(after[i - 1], destination) || after[i - 1] is Fail) by {
            if i < before.len() {
                assert(before[i] is Fail);
                assert(after[i - 1] == before[i - 1]);
            }
        }
        assert forall|i: int|
            0 <= i < after.len() && #[trigger] after[i] is CreateTemp implies i >= 1 && removes_temp(
            after[i - 1],
            destination,
        ) by {
            if i < before.len() {
                assert(before[i] is CreateTemp);
                assert(after[i - 1] == before[i - 1]);
            }
        }
        assert forall|i: int| 0 <= i < after.len() && #[trigger] after[i] is Promote implies after[i]
            == (FetchActionView::Promote { from: spec_part_path(destination), to: destination }) by {
            if i < before.len() {
                assert(before[i] is Promote);
            }
        }
        if exists|i: int|
            0 <= i < after.len() && (#[trigger] after[i] is Promote || after[i] is Succeed) {
            let i = choose|i: int|
                0 <= i < after.len() && (#[trigger] after[i] is Promote || after[i] is Succeed);
            if i < before.len() {
                assert(before[i] is Promote || before[i] is Succeed);
            }
        }
    }
}

/// Integrity. Take any fetch and any sequence of reports. If the server
/// announced a length and another number of bytes was written, then the
/// fetcher has not asked for the temporary artifact to be renamed to the
/// destination, and has not declared success.
pub proof fn law_incomplete_body_is_never_promoted(
    destination: Seq<char>,
    events: Seq<FetchEventView>,
)
    ensures
        ({
            let (s, actions) = spec_run(spec_begin_state(destination), events);
            !lengths_agree(s) ==> forall|i: int|
                0 <= i < actions.len() ==> !(#[trigger] actions[i] is Promote) && !(actions[i] is Succeed)
        }),
{
    lemma_run_shape(destination, events);
}

/// Cleanup. In every run of a fetch, a failure is declared only after the
/// removal of the temporary artifact was asked for: the action before the
/// first `Fail` is that removal. (A fetch that is over repeats its verdict.)
pub proof fn law_failure_follows_cleanup(destination: Seq<char>, events: Seq<FetchEventView>)
    ensures
        ({
            let actions = spec_run(spec_begin_state(destination), events).1;
            forall|i: int|
                0 <= i < actions.len() && #[trigger] actions[i] is Fail ==> i >= 1 && (removes_temp(
                    actions[i - 1],
                    destination,
                ) || actions[i - 1] is Fail)
        }),
{
    lemma_run_shape(destination, events);
}

/// No stale state. In every run of a fetch, the temporary artifact is created
/// only directly after the removal of whatever an earlier run left under its
/// name, and only `<destination>.part` is ever renamed, to `destination`.
pub proof fn law_temp_is_fresh(destination: Seq<char>, events: Seq<FetchEventView>)
    ensures
        ({
            let actions = spec_run(spec_begin_state(destination), events).1;
            &&& forall|i: int|
                0 <= i < actions.len() && #[trigger] actions[i] is CreateTemp ==> i >= 1
                    && removes_temp(actions[i - 1], destination)
            &&& forall|i: int|
                0 <= i < actions.len() && #[trigger] actions[i] is Promote ==> actions[i] == (
                FetchActionView::Promote { from: spec_part_path(destination), to: destination })
        }),
{
    lemma_run_shape(destination, events);
}

/// Cleanup is best effort: whatever is reported about the removal of the
/// temporary artifact, the fetch ends with the failure that caused it.
pub proof fn law_cleanup_result_is_ignored(s: FetchStateView, e1: FetchEventView, e2: FetchEventView)
    requires
        s.stage == FetchStage::CleaningUp,
    ensures
        spec_step(s, e1) == spec_step(s, e2),
        s.failure matches Some(f) ==> spec_step(s, e1).1 == FetchActionView::Fail(f),
{
}


/// What a disk holds, as far as a fetch is concerned: the size of the file at
/// each path that has one.
pub type Disk = Map<Seq<char>, nat>;

/// The disk after the operation that the fetcher waits for in state `s` was
/// reported as `e`, on the understanding that an operation reported as
/// completed has had the effect that its name says, and that any other
/// report leaves the disk as it was, except that a write that did not
/// complete may have left any number of bytes, `torn`, in the temporary
/// artifact.
pub open spec fn spec_disk_step(disk: Disk, s: FetchStateView, e: FetchEventView, torn: nat) -> Disk {
    let part = spec_part_path(s.destination);
    match s.stage {
        FetchStage::ClearingStale | FetchStage::CleaningUp => if e is Completed {
            disk.remove(part)
        } else {
            disk
        },
        FetchStage::CreatingTemp => if e is Completed {
            disk.insert(part, 0)
        } else {
            disk
        },
        FetchStage::Writing => if e is Completed {
            disk.insert(part, (disk[part] + s.pending) as nat)
        } else {
            disk.insert(part, torn)
        },
        FetchStage::Promoting => if e is Completed {
            disk.remove(part).insert(s.destination, disk[part])
        } else {
            disk
        },
        _ => disk,
    }
}

/// The disk after a whole run: `events` reported one after the other,
/// starting in state `s` with the disk `disk`. `torn` says, for each report,
/// how many bytes a write that did not complete has left.
pub open spec fn spec_disk_run(
    disk: Disk,
    s: FetchStateView,
    events: Seq<FetchEventView>,
    torn: spec_fn(int) -> nat,
) -> Disk
    decreases events.len(),
{
    if events.len() == 0 {
        disk
    } else {
        let before = spec_disk_run(disk, s, events.drop_last(), torn);
        let mid = spec_run(s, events.drop_last()).0;
        spec_disk_step(before, mid, events.last(), torn(events.len() - 1))
    }
}

/// Whether two disks hold the same at `path`: nothing, or a file of the same
/// size.
pub open spec fn same_at(a: Disk, b: Disk, path: Seq<char>) -> bool {
    a.dom().contains(path) == b.dom().contains(path) && (a.dom().contains(path) ==> a[path]
        == b[path])
}

/// Whether a fetch has ended well.
pub open spec fn has_succeeded(s: FetchStateView) -> bool {
    s.stage == FetchStage::Done && s.failure is None
}

/// Whether the temporary artifact is open for writing in this stage.
pub open spec fn is_streaming(stage: FetchStage) -> bool {
    stage == FetchStage::Receiving || stage == FetchStage::Writing || stage == FetchStage::Flushing
        || stage == FetchStage::Syncing || stage == FetchStage::Promoting
}

/// What holds between the disk and the state in every run of a fetch that
/// started with the disk `start`.
pub open spec fn disk_shape(disk: Disk, s: FetchStateView, start: Disk) -> bool {
    let part = spec_part_path(s.destination);
    &&& has_succeeded(s) ==> {
        &&& disk.dom().contains(s.destination)
        &&& disk[s.destination] == s.written
        &&& !disk.dom().contains(part)
    }
    &&& !has_succeeded(s) ==> same_at(disk, start, s.destination)
    &&& is_streaming(s.stage) ==> disk.dom().contains(part) && disk[part] == s.written
}

/// The temporary name of a path is another path.
pub proof fn lemma_part_path_differs(destination: Seq<char>)
    ensures
        spec_part_path(destination) != destination,
{
    assert(spec_part_path(destination).len() == destination.len() + 5);
}

/// Every run of a fetch keeps the disk in the shape that `disk_shape`
/// describes.
proof fn lemma_disk_shape(
    destination: Seq<char>,
    start: Disk,
    events: Seq<FetchEventView>,
    torn: spec_fn(int) -> nat,
)
    ensures
        disk_shape(
            spec_disk_run(start, spec_begin_state(destination), events, torn),
            spec_run(spec_begin_state(destination), events).0,
            start,
        ),
    decreases events.len(),
{
    let begin = spec_begin_state(destination);
    lemma_part_path_differs(destination);
    if events.len() > 0 {
        lemma_disk_shape(destination, start, events.drop_last(), torn);
        lemma_run_shape(destination, events.drop_last());
        lemma_run_shape(destination, events);
        let (mid, before) = spec_run(begin, events.drop_last());
        let (next, action) = spec_step(mid, events.last());
        assert(spec_run(begin, events) == (next, before.push(action)));
    }
}

/// Atomicity. Take any disk, any fetch and any sequence of reports, and let
/// the disk change as [`spec_disk_step`] says. Then at every moment the
/// destination holds what it held before the fetch began, until the fetch
/// has succeeded; and once it has, the destination holds a file of exactly as
/// many bytes as were written, which are as many as the server announced,
/// where it announced a length, and the temporary artifact is gone.
pub proof fn law_destination_is_never_partial(
    destination: Seq<char>,
    start: Disk,
    events: Seq<FetchEventView>,
    torn: spec_fn(int) -> nat,
)
    ensures
        ({
            let s = spec_run(spec_begin_state(destination), events).0;
            let disk = spec_disk_run(start, spec_begin_state(destination), events, torn);
            &&& s.destination == destination
            &&& !has_succeeded(s) ==> same_at(disk, start, destination)
            &&& has_succeeded(s) ==> {
                &&& disk.dom().contains(destination)
                &&& disk[destination] == s.written
                &&& s.expected matches Some(m) ==> disk[destination] == m
                &&& !disk.dom().contains(spec_part_path(destination))
            }
        }),
{
    lemma_disk_shape(destination, start, events, torn);
    lemma_run_shape(destination, events);
}

/// Nothing is left behind. Take any disk, any fetch and any sequence of
/// reports that brings the fetcher to clean up after a failure. If the
/// removal it asks for is then reported as completed, the fetch is over, it
/// has failed, the temporary artifact is gone, and the destination holds what
/// it held before the fetch began: nothing, if there was nothing.
pub proof fn law_failed_fetch_leaves_nothing(
    destination: Seq<char>,
    start: Disk,
    events: Seq<FetchEventView>,
    torn: spec_fn(int) -> nat,
)
    requires
        spec_run(spec_begin_state(destination), events).0.stage == FetchStage::CleaningUp,
    ensures
        ({
            let all = events.push(FetchEventView::Completed);
            let (s, actions) = spec_run(spec_begin_state(destination), all);
            let disk = spec_disk_run(start, spec_begin_state(destination), all, torn);
            &&& s.stage == FetchStage::Done
            &&& actions.last() is Fail
            &&& !disk.dom().contains(spec_part_path(destination))
            &&& same_at(disk, start, destination)
        }),
{
    let begin = spec_begin_state(destination);
    let all = events.push(FetchEventView::Completed);
    assert(all.drop_last() == events);
    lemma_disk_shape(destination, start, events, torn);
    lemma_disk_shape(destination, start, all, torn);
    lemma_run_shape(destination, events);
    lemma_run_shape(destination, all);
    lemma_part_path_differs(destination);
    let (mid, before) = spec_run(begin, events);
    let (next, action) = spec_step(mid, all.last());
    assert(spec_run(begin, all) == (next, before.push(action)));
}

/// A fetch that is over leaves the disk alone, whatever it is told.
pub proof fn law_finished_fetch_rests(disk: Disk, s: FetchStateView, e: FetchEventView, torn: nat)
    requires
        s.stage == FetchStage::Done,
    ensures
        spec_disk_step(disk, s, e, torn) == disk,
        spec_step(s, e).0 == s,
{
}

} // verus!
