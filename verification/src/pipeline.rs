//! The pipeline: one request, one outcome.
//!
//! ```text
//! RemoveStaleTemp -> Probe -> [Resolve] -> Fetch -> Tag -> Return
//! ```
//!
//! The pipeline is a state machine. It decides; the caller performs each
//! [`SyncAction`] (a file probe, or a whole run of the resolver, the fetcher
//! or the tag writer) and reports what happened as a [`SyncEvent`]. A fetch
//! that fails fails the call; every other ending is an outcome.

use crate::error::{ErrorKind, ErrorView, SyncError};
use crate::model::{
    has_value, is_populated, is_wanted, resp, text_of, wanted, RequestView, ResponseView,
    SoundCloudTrack, SyncTrackRequest, SyncTrackResponse, TrackView,
};
use crate::path::{
    destination_path, fallback_title, part_path, spec_destination, spec_fallback_title,
    spec_part_path,
};
use crate::resolve::{Resolution, ResolutionView};
use crate::tag::{spec_plan, TagPlan, TagPlanView};
use vstd::prelude::*;
use vstd::string::*;

verus! {

/// What a look at the destination found.
#[derive(Debug, Clone, Copy, PartialEq, Eq, Structural)]
pub enum FileProbe {
    /// A regular file.
    Regular,
    /// Nothing, or something that is not a regular file.
    NotRegular,
    /// The filesystem did not let itself be asked.
    Inaccessible,
}

/// Whether a probe shows that the track is already there. Only a regular
/// file counts; a probe that failed counts as absence.
pub open spec fn spec_already_exists(probe: FileProbe) -> bool {
    probe == FileProbe::Regular
}

/// Tells whether a probe shows that the track is already there.
pub fn already_exists(probe: FileProbe) -> (r: bool)
    ensures
        r == spec_already_exists(probe),
{
    match probe {
        FileProbe::Regular => true,
        _ => false,
    }
}

/// Where the pipeline stands: the operation whose result it waits for.
#[derive(Debug, Clone, Copy, PartialEq, Eq, Structural)]
pub enum SyncStage {
    /// What an earlier run may have left as a temporary artifact is being removed.
    RemovingStale,
    /// The destination is being probed.
    Probing,
    /// A media address is being looked up.
    Resolving,
    /// The track is being fetched.
    Fetching,
    /// The track is being tagged.
    Tagging,
    /// The request has been answered.
    Done,
}

/// The pipeline's memory between two steps.
#[derive(Debug, Clone, PartialEq, Eq)]
pub struct SyncState {
    pub stage: SyncStage,
    /// The request that is being served.
    pub request: SyncTrackRequest,
    /// The destination of the track.
    pub path: String,
}

/// Mathematical view of a [`SyncState`].
pub struct SyncStateView {
    pub stage: SyncStage,
    pub request: RequestView,
    pub path: Seq<char>,
}

impl View for SyncState {
    type V = SyncStateView;

    open spec fn view(&self) -> SyncStateView {
        SyncStateView { stage: self.stage, request: self.request@, path: self.path@ }
    }
}

/// What the caller reports after performing an action.
#[derive(Debug, Clone, PartialEq, Eq)]
pub enum SyncEvent {
    /// The requested operation succeeded.
    Completed,
    /// The destination was probed.
    Probed(FileProbe),
    /// The resolver has concluded.
    Resolved(Resolution),
    /// The requested operation failed.
    Failed(SyncError),
}

/// Mathematical view of a [`SyncEvent`].
pub enum SyncEventView {
    Completed,
    Probed(FileProbe),
    Resolved(ResolutionView),
    Failed(ErrorView),
}

impl View for SyncEvent {
    type V = SyncEventView;

    open spec fn view(&self) -> SyncEventView {
        match self {
            SyncEvent::Completed => SyncEventView::Completed,
            SyncEvent::Probed(p) => SyncEventView::Probed(*p),
            SyncEvent::Resolved(r) => SyncEventView::Resolved(r@),
            SyncEvent::Failed(e) => SyncEventView::Failed(e@),
        }
    }
}

/// What the pipeline asks the caller to do next.
#[derive(Debug, Clone, PartialEq, Eq)]
pub enum SyncAction {
    /// Remove the file at `path` if there is one. The result of the attempt
    /// is not looked at.
    RemoveStaleTemp { path: String },
    /// Look at `path`; report `Probed`.
    Probe { path: String },
    /// Run the stream resolver for this track; report `Resolved`.
    Resolve { api_base: String, track_id: i64, token: String },
    /// Run the fetcher; report `Completed`, or `Failed` with its failure.
    Fetch { url: String, path: String, token: String },
    /// Run the tag writer; report `Completed`, or `Failed` with its failure.
    Tag { path: String, plan: TagPlan },
    /// The request is answered with this outcome. Nothing is left to do.
    Return(SyncTrackResponse),
    /// The call fails. Nothing is left to do.
    Fail(SyncError),
}

/// Mathematical view of a [`SyncAction`].
pub enum SyncActionView {
    RemoveStaleTemp { path: Seq<char> },
    Probe { path: Seq<char> },
    Resolve { api_base: Seq<char>, track_id: i64, token: Seq<char> },
    Fetch { url: Seq<char>, path: Seq<char>, token: Seq<char> },
    Tag { path: Seq<char>, plan: TagPlanView },
    Return(ResponseView),
    Fail(ErrorView),
}

impl View for SyncAction {
    type V = SyncActionView;

    open spec fn view(&self) -> SyncActionView {
        match self {
            SyncAction::RemoveStaleTemp { path } => SyncActionView::RemoveStaleTemp { path: path@ },
            SyncAction::Probe { path } => SyncActionView::Probe { path: path@ },
            SyncAction::Resolve { api_base, track_id, token } => SyncActionView::Resolve {
                api_base: api_base@,
                track_id: *track_id,
                token: token@,
            },
            SyncAction::Fetch { url, path, token } => SyncActionView::Fetch {
                url: url@,
                path: path@,
                token: token@,
            },
            SyncAction::Tag { path, plan } => SyncActionView::Tag { path: path@, plan: plan@ },
            SyncAction::Return(r) => SyncActionView::Return(r@),
            SyncAction::Fail(e) => SyncActionView::Fail(e@),
        }
    }
}

/// The title under which a track is stored: its own, or `track-<id>` where
/// it has none.
pub open spec fn spec_title(track: TrackView) -> Seq<char> {
    if is_populated(track.title) {
        track.title->0
    } else {
        spec_fallback_title(track.id)
    }
}

/// The destination of the track of a request.
pub open spec fn spec_path(request: RequestView) -> Seq<char> {
    spec_destination(request.directory, request.playlist_title, spec_title(request.track))
}

/// An outcome with a reason.
pub open spec fn spec_outcome(action: Seq<char>, path: Seq<char>, reason: Seq<char>) -> ResponseView {
    ResponseView { action, path, reason: Some(reason) }
}

/// The outcome for a track that is already there.
pub open spec fn skipped(path: Seq<char>) -> ResponseView {
    spec_outcome("skipped"@, path, "already_exists"@)
}

/// The outcome for a track that cannot be streamed.
pub open spec fn unsupported(path: Seq<char>) -> ResponseView {
    spec_outcome("unsupported"@, path, "not_downloadable_nor_streamable"@)
}

/// The outcome for a track whose stream the service does not offer.
pub open spec fn unresolved(path: Seq<char>) -> ResponseView {
    spec_outcome("error"@, path, "stream_resolve_returned_null_or_unauthorized"@)
}

/// The outcome for a lookup that failed.
pub open spec fn resolve_failed(path: Seq<char>, detail: Seq<char>) -> ResponseView {
    spec_outcome("error"@, path, "stream_resolve_failed: "@ + detail)
}

/// The outcome for a track without a media address.
pub open spec fn missing_url(path: Seq<char>) -> ResponseView {
    spec_outcome("error"@, path, "missing_http_mp3_128_url"@)
}

/// The outcome for a track that was fetched but not tagged.
pub open spec fn tagging_failed(path: Seq<char>, detail: Seq<char>) -> ResponseView {
    spec_outcome("error"@, path, "tagging_failed: "@ + detail)
}

/// The outcome for a track that was fetched and tagged.
pub open spec fn streamed(path: Seq<char>) -> ResponseView {
    ResponseView { action: "streamed"@, path, reason: None }
}

/// The failure for a report that the stage in progress cannot have produced.
pub open spec fn misuse() -> ErrorView {
    ErrorView { kind: ErrorKind::Filesystem, message: "unexpected event"@ }
}

/// The end of a request with an outcome.
pub open spec fn spec_finish(s: SyncStateView, outcome: ResponseView) -> (
    SyncStateView,
    SyncActionView,
) {
    (SyncStateView { stage: SyncStage::Done, ..s }, SyncActionView::Return(outcome))
}

/// The end of a request with a failure of the call.
pub open spec fn spec_fail(s: SyncStateView, failure: ErrorView) -> (SyncStateView, SyncActionView) {
    (SyncStateView { stage: SyncStage::Done, ..s }, SyncActionView::Fail(failure))
}

/// The step taken once the media address is settled: fetch it where it is
/// worth using, answer that it is missing where it is not.
pub open spec fn spec_proceed(s: SyncStateView, url: Option<Seq<char>>) -> (
    SyncStateView,
    SyncActionView,
) {
    if wanted(url) {
        (
            SyncStateView { stage: SyncStage::Fetching, ..s },
            SyncActionView::Fetch { url: url->0, path: s.path, token: s.request.token },
        )
    } else {
        spec_finish(s, missing_url(s.path))
    }
}

/// The first state of the pipeline for a request.
pub open spec fn spec_begin_state(request: RequestView) -> SyncStateView {
    SyncStateView { stage: SyncStage::RemovingStale, request, path: spec_path(request) }
}

/// The first action of the pipeline for a request.
pub open spec fn spec_begin_action(request: RequestView) -> SyncActionView {
    SyncActionView::RemoveStaleTemp { path: spec_part_path(spec_path(request)) }
}

/// The pipeline's transition function: the next state and the next action,
/// given the current state and what the caller reports.
pub open spec fn spec_step(s: SyncStateView, e: SyncEventView) -> (SyncStateView, SyncActionView) {
    match s.stage {
        SyncStage::RemovingStale => (
            SyncStateView { stage: SyncStage::Probing, ..s },
            SyncActionView::Probe { path: s.path },
        ),
        SyncStage::Probing => match e {
            SyncEventView::Probed(probe) => {
                if spec_already_exists(probe) {
                    spec_finish(s, skipped(s.path))
                } else if !s.request.track.is_streamable() {
                    spec_finish(s, unsupported(s.path))
                } else if !is_populated(s.request.track.http_mp3_128_url) {
                    (
                        SyncStateView { stage: SyncStage::Resolving, ..s },
                        SyncActionView::Resolve {
                            api_base: s.request.api_base,
                            track_id: s.request.track.id,
                            token: s.request.token,
                        },
                    )
                } else {
                    spec_proceed(s, s.request.track.http_mp3_128_url)
                }
            },
            _ => spec_fail(s, misuse()),
        },
        SyncStage::Resolving => match e {
            SyncEventView::Resolved(ResolutionView::Stream(stream)) => spec_proceed(
                s,
                stream.http_mp3_128_url,
            ),
            SyncEventView::Resolved(ResolutionView::Unavailable) => spec_finish(
                s,
                unresolved(s.path),
            ),
            SyncEventView::Resolved(ResolutionView::Failed(failure)) => spec_finish(
                s,
                resolve_failed(s.path, failure.message),
            ),
            _ => spec_fail(s, misuse()),
        },
        SyncStage::Fetching => match e {
            SyncEventView::Completed => (
                SyncStateView { stage: SyncStage::Tagging, ..s },
                SyncActionView::Tag { path: s.path, plan: spec_plan(s.request.track) },
            ),
            SyncEventView::Failed(failure) => spec_fail(s, failure),
            _ => spec_fail(s, misuse()),
        },
        SyncStage::Tagging => match e {
            SyncEventView::Completed => spec_finish(s, streamed(s.path)),
            SyncEventView::Failed(failure) => spec_finish(s, tagging_failed(s.path, failure.message)),
            _ => spec_fail(s, misuse()),
        },
        SyncStage::Done => spec_fail(s, misuse()),
    }
}

/// The title under which a track is stored.
pub fn display_title(track: &SoundCloudTrack) -> (title: String)
    ensures
        title@ == spec_title(track@),
{
    if has_value(&track.title) {
        match &track.title {
            Some(t) => t.clone(),
            None => fallback_title(track.id),
        }
    } else {
        fallback_title(track.id)
    }
}

/// Starts the pipeline for a request: the first state, and the request to
/// remove what an earlier run may have left under the temporary name.
pub fn begin(request: SyncTrackRequest) -> (r: (SyncState, SyncAction))
    ensures
        r.0@ == spec_begin_state(request@),
        r.1@ == spec_begin_action(request@),
{
    let title = display_title(&request.track);
    let path = destination_path(
        request.directory.as_str(),
        request.playlist_title.as_str(),
        title.as_str(),
    );
    let stale = part_path(path.as_str());
    (
        SyncState { stage: SyncStage::RemovingStale, request, path },
        SyncAction::RemoveStaleTemp { path: stale },
    )
}

/// Ends the request with an outcome that has a reason.
fn finish(state: SyncState, action: &str, reason: &str) -> (r: (SyncState, SyncAction))
    ensures
        (r.0@, r.1@) == spec_finish(state@, spec_outcome(action@, state@.path, reason@)),
{
    let outcome = resp(action, state.path.as_str(), Some(reason));
    (
        SyncState { stage: SyncStage::Done, request: state.request, path: state.path },
        SyncAction::Return(outcome),
    )
}

/// Ends the request with a failure of the call.
fn fail(state: SyncState, failure: SyncError) -> (r: (SyncState, SyncAction))
    ensures
        (r.0@, r.1@) == spec_fail(state@, failure@),
{
    (
        SyncState { stage: SyncStage::Done, request: state.request, path: state.path },
        SyncAction::Fail(failure),
    )
}

/// Ends the request because of a report that does not fit.
fn reject(state: SyncState) -> (r: (SyncState, SyncAction))
    ensures
        (r.0@, r.1@) == spec_fail(state@, misuse()),
{
    fail(state, SyncError::new(ErrorKind::Filesystem, "unexpected event".to_owned()))
}

/// Fetches the media address where it is worth using.
fn proceed(state: SyncState, url: Option<String>) -> (r: (SyncState, SyncAction))
    ensures
        (r.0@, r.1@) == spec_proceed(state@, text_of(url)),
{
    if is_wanted(&url) {
        match url {
            Some(url) => {
                let path = state.path.clone();
                let token = state.request.token.clone();
                (
                    SyncState {
                        stage: SyncStage::Fetching,
                        request: state.request,
                        path: state.path,
                    },
                    SyncAction::Fetch { url, path, token },
                )
            },
            None => finish(state, "error", "missing_http_mp3_128_url"),
        }
    } else {
        finish(state, "error", "missing_http_mp3_128_url")
    }
}

/// Takes one step: given what the caller reports about the last action, says
/// what to do next.
pub fn step(state: SyncState, event: SyncEvent) -> (r: (SyncState, SyncAction))
    ensures
        (r.0@, r.1@) == spec_step(state@, event@),
{
    match state.stage {
        SyncStage::RemovingStale => {
            let path = state.path.clone();
            (
                SyncState { stage: SyncStage::Probing, request: state.request, path: state.path },
                SyncAction::Probe { path },
            )
        },
        SyncStage::Probing => match event {
            SyncEvent::Probed(probe) => {
                let streamable: bool = match state.request.track.streamable {
                    Some(b) => b,
                    None => false,
                };
                if already_exists(probe) {
                    finish(state, "skipped", "already_exists")
                } else if !streamable {
                    finish(state, "unsupported", "not_downloadable_nor_streamable")
                } else if !has_value(&state.request.track.http_mp3_128_url) {
                    let api_base = state.request.api_base.clone();
                    let track_id: i64 = state.request.track.id;
                    let token = state.request.token.clone();
                    (
                        SyncState {
                            stage: SyncStage::Resolving,
                            request: state.request,
                            path: state.path,
                        },
                        SyncAction::Resolve { api_base, track_id, token },
                    )
                } else {
                    let url = state.request.track.http_mp3_128_url.clone();
                    proceed(state, url)
                }
            },
            _ => reject(state),
        },
        SyncStage::Resolving => match event {
            SyncEvent::Resolved(Resolution::Stream(stream)) => proceed(
                state,
                stream.http_mp3_128_url,
            ),
            SyncEvent::Resolved(Resolution::Unavailable) => finish(
                state,
                "error",
                "stream_resolve_returned_null_or_unauthorized",
            ),
            SyncEvent::Resolved(Resolution::Failed(failure)) => {
                let reason = "stream_resolve_failed: ".to_owned().concat(failure.message.as_str());
                finish(state, "error", reason.as_str())
            },
            _ => reject(state),
        },
        SyncStage::Fetching => match event {
            SyncEvent::Completed => {
                let path = state.path.clone();
                let plan = TagPlan::for_track(&state.request.track);
                (
                    SyncState {
                        stage: SyncStage::Tagging,
                        request: state.request,
                        path: state.path,
                    },
                    SyncAction::Tag { path, plan },
                )
            },
            SyncEvent::Failed(failure) => fail(state, failure),
            _ => reject(state),
        },
        SyncStage::Tagging => match event {
            SyncEvent::Completed => {
                let outcome = resp("streamed", state.path.as_str(), None);
                (
                    SyncState { stage: SyncStage::Done, request: state.request, path: state.path },
                    SyncAction::Return(outcome),
                )
            },
            SyncEvent::Failed(failure) => {
                let reason = "tagging_failed: ".to_owned().concat(failure.message.as_str());
                finish(state, "error", reason.as_str())
            },
            _ => reject(state),
        },
        SyncStage::Done => reject(state),
    }
}


/// The state reached, and the actions asked for, when `events` are reported
/// one after the other, starting in state `s`.
pub open spec fn spec_run(s: SyncStateView, events: Seq<SyncEventView>) -> (
    SyncStateView,
    Seq<SyncActionView>,
)
    decreases events.len(),
{
    if events.len() == 0 {
        (s, Seq::empty())
    } else {
        let (mid, actions) = spec_run(s, events.drop_last());
        let (next, action) = spec_step(mid, events.last());
        (next, actions.push(action))
    }
}

/// Everything the pipeline asks for while it serves `request` and is told
/// `events`: its first action, then one action for each report.
pub open spec fn spec_trace(request: RequestView, events: Seq<SyncEventView>) -> Seq<SyncActionView> {
    seq![spec_begin_action(request)] + spec_run(spec_begin_state(request), events).1
}

/// Whether an action ends the request.
pub open spec fn is_final(a: SyncActionView) -> bool {
    a is Return || a is Fail
}

/// Whether an outcome is well formed: its action is one of `skipped`,
/// `streamed`, `unsupported` and `error`, and it gives a reason unless the
/// action is `streamed`.
pub open spec fn is_outcome(outcome: ResponseView) -> bool {
    &&& outcome.action == "skipped"@ || outcome.action == "streamed"@ || outcome.action
        == "unsupported"@ || outcome.action == "error"@
    &&& outcome.reason is None <==> outcome.action == "streamed"@
}

/// Whether an action, where it names a file, names the destination of the
/// request (or, for the stale artifact, its temporary name), and asks for the
/// plan and the credentials of the request.
pub open spec fn serves(a: SyncActionView, request: RequestView) -> bool {
    match a {
        SyncActionView::RemoveStaleTemp { path } => path == spec_part_path(spec_path(request)),
        SyncActionView::Probe { path } => path == spec_path(request),
        SyncActionView::Resolve { api_base, track_id, token } => api_base == request.api_base
            && track_id == request.track.id && token == request.token,
        SyncActionView::Fetch { url, path, token } => path == spec_path(request) && token
            == request.token && wanted(Some(url)),
        SyncActionView::Tag { path, plan } => path == spec_path(request) && plan == spec_plan(
            request.track,
        ),
        SyncActionView::Return(outcome) => outcome.path == spec_path(request) && is_outcome(
            outcome,
        ),
        SyncActionView::Fail(_) => true,
    }
}

/// What holds of every run of the pipeline for `request`, between the state
/// reached and the actions asked for after the first one.
pub open spec fn run_shape(s: SyncStateView, actions: Seq<SyncActionView>, request: RequestView) -> bool {
    &&& s.request == request
    &&& s.path == spec_path(request)
    &&& s.stage == SyncStage::RemovingStale <==> actions.len() == 0
    &&& actions.len() > 0 ==> actions[0] == (SyncActionView::Probe { path: spec_path(request) })
    &&& forall|i: int| 0 <= i < actions.len() ==> serves(#[trigger] actions[i], request)
    &&& forall|i: int|
        0 <= i < actions.len() ==> !(#[trigger] actions[i] is RemoveStaleTemp) && (actions[i] is Probe
            ==> i == 0)
    &&& forall|i: int| 0 <= i < actions.len() && is_final(#[trigger] actions[i]) ==> s.stage == SyncStage::Done
    &&& forall|i: int|
        0 <= i < actions.len() && #[trigger] actions[i] is Tag ==> s.stage == SyncStage::Tagging
            || s.stage == SyncStage::Done
    &&& forall|i: int, j: int|
        0 <= i < j < actions.len() && #[trigger] actions[i] is Tag ==> is_final(#[trigger] actions[j])
    &&& forall|i: int, j: int|
        0 <= i < j < actions.len() && is_final(#[trigger] actions[i]) ==> #[trigger] actions[j] is Fail
}

/// The four action tags are four different texts.
proof fn lemma_action_tags_differ()
    ensures
        "skipped"@ != "streamed"@,
        "unsupported"@ != "streamed"@,
        "error"@ != "streamed"@,
        "skipped"@ != "unsupported"@,
        "skipped"@ != "error"@,
        "unsupported"@ != "error"@,
{
    reveal_strlit("skipped");
    reveal_strlit("streamed");
    reveal_strlit("unsupported");
    reveal_strlit("error");
    assert("skipped"@.len() == 7);
    assert("streamed"@.len() == 8);
    assert("unsupported"@.len() == 11);
    assert("error"@.len() == 5);
}

/// Every run of the pipeline has the shape that `run_shape` describes.
proof fn lemma_run_shape(request: RequestView, events: Seq<SyncEventView>)
    ensures
        run_shape(
            spec_run(spec_begin_state(request), events).0,
            spec_run(spec_begin_state(request), events).1,
            request,
        ),
        spec_run(spec_begin_state(request), events).1.len() == events.len(),
    decreases events.len(),
{
    let start = spec_begin_state(request);
    if events.len() > 0 {
        lemma_run_shape(request, events.drop_last());
        lemma_action_tags_differ();
        let (mid, before) = spec_run(start, events.drop_last());
        let (next, action) = spec_step(mid, events.last());
        let after = before.push(action);
        assert(spec_run(start, events) == (next, after));
        let n: int = before.len() as int;
        assert(after[n] == action);
        assert(serves(action, request));
        assert forall|i: int| 0 <= i < after.len() implies serves(#[trigger] after[i], request) by {
            if i < n {
                assert(after[i] == before[i]);
            }
        }
        assert forall|i: int| 0 <= i < after.len() implies !(#[trigger] after[i] is RemoveStaleTemp)
            && (after[i] is Probe ==> i == 0) by {
            if i < n {
                assert(after[i] == before[i]);
            }
        }
        assert forall|i: int| 0 <= i < after.len() && is_final(#[trigger] after[i]) implies next.stage
            == SyncStage::Done by {
            if i < n {
                assert(after[i] == before[i]);
            }
        }
        assert forall|i: int| 0 <= i < after.len() && #[trigger] after[i] is Tag implies next.stage
            == SyncStage::Tagging || next.stage == SyncStage::Done by {
            if i < n {
                assert(after[i] == before[i]);
            }
        }
        assert forall|i: int, j: int|
            0 <= i < j < after.len() && #[trigger] after[i] is Tag implies is_final(
            #[trigger] after[j],
        ) by {
            assert(after[i] == before[i]);
            if j < n {
                assert(after[j] == before[j]);
            }
        }
        assert forall|i: int, j: int|
            0 <= i < j < after.len() && is_final(#[trigger] after[i]) implies #[trigger] after[j] is Fail by {
            assert(after[i] == before[i]);
            if j < n {
                assert(after[j] == before[j]);
            }
        }
        if n > 0 {
            assert(after[0] == before[0]);
        }
    }
}

/// A run that is told more goes on from where the shorter run stands: its
/// first actions are those of the shorter run.
pub proof fn lemma_run_prefix(s: SyncStateView, events: Seq<SyncEventView>, k: int)
    requires
        0 <= k <= events.len(),
    ensures
        spec_run(s, events.take(k)).1 == spec_run(s, events).1.take(k),
        spec_run(s, events).1.len() == events.len(),
    decreases events.len(),
{
    if events.len() == 0 {
        assert(events.take(k) == events);
        assert(spec_run(s, events).1.take(k) == spec_run(s, events).1);
    } else if k == events.len() {
        lemma_run_prefix(s, events.drop_last(), events.len() - 1);
        assert(events.take(k) == events);
        assert(spec_run(s, events).1.take(k) == spec_run(s, events).1);
    } else {
        lemma_run_prefix(s, events.drop_last(), k);
        assert(events.drop_last().take(k) == events.take(k));
        let shorter = spec_run(s, events.drop_last()).1;
        let (next, action) = spec_step(spec_run(s, events.drop_last()).0, events.last());
        assert(shorter.push(action).take(k) == shorter.take(k));
    }
}

/// One destination. Whatever the pipeline is told, every file it names while
/// it serves a request is the destination of that request, which depends on
/// the request alone, or the destination's temporary name; the credentials,
/// the track and the tag plan it hands on are those of the request; and it
/// asks for a fetch only of an address that is not blank.
pub proof fn law_one_destination(request: RequestView, events: Seq<SyncEventView>)
    ensures
        forall|i: int|
            0 <= i < spec_trace(request, events).len() ==> serves(
                #[trigger] spec_trace(request, events)[i],
                request,
            ),
{
    lemma_run_shape(request, events);
    let run = spec_run(spec_begin_state(request), events).1;
    let trace = spec_trace(request, events);
    assert forall|i: int| 0 <= i < trace.len() implies serves(#[trigger] trace[i], request) by {
        if i > 0 {
            assert(trace[i] == run[i - 1]);
        }
    }
}

/// Closed outcomes. Whatever the pipeline is told, every outcome it returns
/// has one of the four actions `skipped`, `streamed`, `unsupported` and
/// `error`, names the destination of the request, and gives a reason exactly
/// when its action is not `streamed`.
pub proof fn law_outcomes_are_well_formed(request: RequestView, events: Seq<SyncEventView>)
    ensures
        forall|i: int|
            0 <= i < spec_trace(request, events).len() ==> (#[trigger] spec_trace(
                request,
                events,
            )[i] matches SyncActionView::Return(outcome) ==> is_outcome(outcome) && outcome.path
                == spec_path(request)),
{
    law_one_destination(request, events);
}

/// Crash safety. The first thing the pipeline asks for is the removal of the
/// temporary artifact that an earlier run may have left; it never asks for
/// that again; the probe of the destination comes second, whatever the removal
/// gave; and nothing but that probe decides whether the track is skipped.
pub proof fn law_stale_artifact_goes_first(request: RequestView, events: Seq<SyncEventView>)
    ensures
        ({
            let trace = spec_trace(request, events);
            let path = spec_path(request);
            &&& trace.len() == events.len() + 1
            &&& trace[0] == (SyncActionView::RemoveStaleTemp { path: spec_part_path(path) })
            &&& forall|i: int| 1 <= i < trace.len() ==> !(#[trigger] trace[i] is RemoveStaleTemp)
            &&& events.len() >= 1 ==> trace[1] == (SyncActionView::Probe { path })
            &&& forall|i: int| 0 <= i < trace.len() && #[trigger] trace[i] is Probe ==> i == 1
            &&& events.len() >= 2 ==> (trace[2] == SyncActionView::Return(skipped(path))
                <==> events[1] == SyncEventView::Probed(FileProbe::Regular))
        }),
{
    lemma_run_shape(request, events);
    let start = spec_begin_state(request);
    let run = spec_run(start, events).1;
    let trace = spec_trace(request, events);
    assert forall|i: int| 1 <= i < trace.len() implies !(#[trigger] trace[i] is RemoveStaleTemp) by {
        assert(trace[i] == run[i - 1]);
    }
    assert forall|i: int| 0 <= i < trace.len() && #[trigger] trace[i] is Probe implies i == 1 by {
        if i > 0 {
            assert(trace[i] == run[i - 1]);
        }
    }
    if events.len() >= 1 {
        assert(trace[1] == run[0]);
    }
    if events.len() >= 2 {
        lemma_second_step(request, events);
        lemma_action_tags_differ();
        assert(trace[2] == run[1]);
    }
}

/// The second action after the first one is the pipeline's answer to the
/// second report, given in the probing stage.
proof fn lemma_second_step(request: RequestView, events: Seq<SyncEventView>)
    requires
        events.len() >= 2,
    ensures
        spec_run(spec_begin_state(request), events).1[1] == spec_step(
            SyncStateView { stage: SyncStage::Probing, ..spec_begin_state(request) },
            events[1],
        ).1,
{
    let start = spec_begin_state(request);
    lemma_run_prefix(start, events, 2);
    let two = events.take(2);
    let one = two.drop_last();
    assert(one.drop_last().len() == 0);
    assert(spec_run(start, one.drop_last()) == (start, Seq::<SyncActionView>::empty()));
    assert(one.last() == events[0]);
    assert(two.last() == events[1]);
    assert(spec_run(start, one).0.stage == SyncStage::Probing);
    assert(spec_run(start, events).1.take(2)[1] == spec_run(start, events).1[1]);
}

/// Idempotence. When the track is already at its destination, as it is after
/// a request that ended with `streamed`, the pipeline answers `skipped` with
/// the reason `already_exists` right after the probe, and asks for nothing
/// else: no lookup, no fetch, no tagging. The file is not touched.
pub proof fn law_existing_track_is_skipped(request: RequestView, events: Seq<SyncEventView>)
    requires
        events.len() >= 2,
        events[1] == SyncEventView::Probed(FileProbe::Regular),
    ensures
        ({
            let trace = spec_trace(request, events);
            &&& trace[2] == SyncActionView::Return(skipped(spec_path(request)))
            &&& forall|i: int| 3 <= i < trace.len() ==> #[trigger] trace[i] is Fail
            &&& forall|i: int|
                0 <= i < trace.len() ==> !(#[trigger] trace[i] is Resolve) && !(trace[i] is Fetch)
                    && !(trace[i] is Tag)
        }),
{
    lemma_run_shape(request, events);
    lemma_second_step(request, events);
    let run = spec_run(spec_begin_state(request), events).1;
    let trace = spec_trace(request, events);
    assert(trace[2] == run[1]);
    assert(is_final(run[1]));
    assert forall|i: int| 3 <= i < trace.len() implies #[trigger] trace[i] is Fail by {
        assert(trace[i] == run[i - 1]);
    }
    assert forall|i: int| 0 <= i < trace.len() implies !(#[trigger] trace[i] is Resolve) && !(
    trace[i] is Fetch) && !(trace[i] is Tag) by {
        if i >= 3 {
            assert(trace[i] is Fail);
        } else if i >= 1 {
            assert(trace[i] == run[i - 1]);
        }
    }
}

/// Tagging is not fatal. Once the pipeline has asked for tagging, which it
/// does only after a fetch that succeeded, it asks for nothing that could
/// touch the file again: what follows ends the request. And a tagging failure
/// is answered with the outcome `error` and the reason `tagging_failed: ...`
/// at the destination, not with a failure of the call.
pub proof fn law_tagging_failure_keeps_the_track(
    request: RequestView,
    events: Seq<SyncEventView>,
    failure: ErrorView,
)
    ensures
        ({
            let trace = spec_trace(request, events);
            forall|i: int, j: int|
                0 <= i < j < trace.len() && #[trigger] trace[i] is Tag ==> is_final(
                    #[trigger] trace[j],
                )
        }),
        ({
            let (s, actions) = spec_run(spec_begin_state(request), events);
            s.stage == SyncStage::Tagging ==> {
                &&& actions.last() is Tag
                &&& spec_step(s, SyncEventView::Failed(failure)).1 == SyncActionView::Return(
                    tagging_failed(spec_path(request), failure.message),
                )
                &&& spec_step(s, SyncEventView::Completed).1 == SyncActionView::Return(
                    streamed(spec_path(request)),
                )
            }
        }),
{
    lemma_run_shape(request, events);
    lemma_tagging_follows_tag(request, events);
    let run = spec_run(spec_begin_state(request), events).1;
    let trace = spec_trace(request, events);
    assert forall|i: int, j: int|
        0 <= i < j < trace.len() && #[trigger] trace[i] is Tag implies is_final(#[trigger] trace[j]) by {
        assert(trace[i] == run[i - 1]);
        assert(trace[j] == run[j - 1]);
    }
}

/// The pipeline is in the tagging stage only right after it asked for tagging.
proof fn lemma_tagging_follows_tag(request: RequestView, events: Seq<SyncEventView>)
    ensures
        ({
            let (s, actions) = spec_run(spec_begin_state(request), events);
            s.stage == SyncStage::Tagging ==> actions.len() > 0 && actions.last() is Tag
        }),
{
    if events.len() > 0 {
        let start = spec_begin_state(request);
        let (mid, before) = spec_run(start, events.drop_last());
        let (next, action) = spec_step(mid, events.last());
        assert(spec_run(start, events) == (next, before.push(action)));
    }
}

} // verus!
