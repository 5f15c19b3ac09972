//! The stream resolver: when a descriptor carries no media address, one is
//! looked up at the streams endpoint of the descriptor service.
//!
//! The resolver decides; the caller performs each [`ResolveAction`] and
//! reports what happened as a [`ResolveEvent`]. A refusal by the service (401
//! or 403), an empty body and the body `null` all mean that no stream is
//! available, which is an answer and not a failure.

use crate::error::{ErrorKind, ErrorView, SyncError};
use crate::fetch::{is_success, spec_is_success};
use crate::model::{Stream, StreamView};
use crate::text::{decimal, int_to_string, is_blank, str_trim, str_trim_end_matches, strip_trailing, trim_ws};
use vstd::prelude::*;
use vstd::string::*;

verus! {

/// The address of the streams endpoint for a track:
/// `<api_base without trailing slashes>/tracks/soundcloud:tracks:<id>/streams`.
pub open spec fn spec_streams_url(api_base: Seq<char>, track_id: i64) -> Seq<char> {
    strip_trailing(api_base, '/') + "/tracks/soundcloud:tracks:"@ + decimal(track_id as int)
        + "/streams"@
}

/// Builds the address of the streams endpoint for a track.
pub fn streams_url(api_base: &str, track_id: i64) -> (url: String)
    ensures
        url@ == spec_streams_url(api_base@, track_id),
{
    let base = str_trim_end_matches(api_base, '/');
    let id = int_to_string(track_id as i128);
    base.to_owned().concat("/tracks/soundcloud:tracks:").concat(id.as_str()).concat("/streams")
}

/// Whether the service refuses to tell: 401 Unauthorized or 403 Forbidden.
pub open spec fn spec_is_refusal(status: u16) -> bool {
    status == 401 || status == 403
}

/// Tells whether a status is a refusal by the service.
pub fn is_refusal(status: u16) -> (r: bool)
    ensures
        r == spec_is_refusal(status),
{
    status == 401 || status == 403
}

/// Whether a body says that there is no stream: nothing but whitespace, or
/// the word `null` with whitespace around it.
pub open spec fn spec_is_null_body(body: Seq<char>) -> bool {
    is_blank(body) || trim_ws(body) == "null"@
}

/// Tells whether a body says that there is no stream.
pub fn is_null_body(body: &str) -> (r: bool)
    ensures
        r == spec_is_null_body(body@),
{
    let trimmed = str_trim(body);
    if trimmed.is_empty() {
        true
    } else {
        let text = trimmed.to_owned();
        let null = "null".to_owned();
        text == null
    }
}

/// What the resolution of a stream ends with.
#[derive(Debug, Clone, PartialEq, Eq)]
pub enum Resolution {
    /// The service described the track's streams.
    Stream(Stream),
    /// The service has no stream to offer, or will not tell.
    Unavailable,
    /// The lookup failed.
    Failed(SyncError),
}

/// Mathematical view of a [`Resolution`].
pub enum ResolutionView {
    Stream(StreamView),
    Unavailable,
    Failed(ErrorView),
}

impl View for Resolution {
    type V = ResolutionView;

    open spec fn view(&self) -> ResolutionView {
        match self {
            Resolution::Stream(s) => ResolutionView::Stream(s@),
            Resolution::Unavailable => ResolutionView::Unavailable,
            Resolution::Failed(e) => ResolutionView::Failed(e@),
        }
    }
}

/// Where the resolver stands: the operation whose result it waits for.
#[derive(Debug, Clone, Copy, PartialEq, Eq, Structural)]
pub enum ResolveStage {
    /// The request was sent; the response head is awaited.
    AwaitingResponse,
    /// The body of the response is being read.
    ReadingBody,
    /// The body is being parsed as a stream description.
    Parsing,
    /// The resolution is over.
    Done,
}

/// What the caller reports after performing an action.
#[derive(Debug, Clone, PartialEq, Eq)]
pub enum ResolveEvent {
    /// The service answered with this status.
    Responded { status: u16, status_text: String },
    /// The body was read, as text.
    Body(String),
    /// The body was parsed.
    Parsed(Stream),
    /// The requested operation failed.
    Failed(String),
}

/// Mathematical view of a [`ResolveEvent`].
pub enum ResolveEventView {
    Responded { status: u16, status_text: Seq<char> },
    Body(Seq<char>),
    Parsed(StreamView),
    Failed(Seq<char>),
}

impl View for ResolveEvent {
    type V = ResolveEventView;

    open spec fn view(&self) -> ResolveEventView {
        match self {
            ResolveEvent::Responded { status, status_text } => ResolveEventView::Responded {
                status: *status,
                status_text: status_text@,
            },
            ResolveEvent::Body(b) => ResolveEventView::Body(b@),
            ResolveEvent::Parsed(s) => ResolveEventView::Parsed(s@),
            ResolveEvent::Failed(m) => ResolveEventView::Failed(m@),
        }
    }
}

/// What the resolver asks the caller to do next.
#[derive(Debug, Clone, PartialEq, Eq)]
pub enum ResolveAction {
    /// Send a GET request to `url` with `token` as the `Authorization` header,
    /// unchanged; report `Responded`, or `Failed` if no response arrived.
    Send { url: String, token: String },
    /// Read the whole body of the response as text; report `Body` or `Failed`.
    ReadBody,
    /// Parse `body` as a JSON stream description; report `Parsed` or `Failed`.
    Parse { body: String },
    /// The resolution is over, with this result. Nothing is left to do.
    Conclude(Resolution),
}

/// Mathematical view of a [`ResolveAction`].
pub enum ResolveActionView {
    Send { url: Seq<char>, token: Seq<char> },
    ReadBody,
    Parse { body: Seq<char> },
    Conclude(ResolutionView),
}

impl View for ResolveAction {
    type V = ResolveActionView;

    open spec fn view(&self) -> ResolveActionView {
        match self {
            ResolveAction::Send { url, token } => ResolveActionView::Send { url: url@, token: token@ },
            ResolveAction::ReadBody => ResolveActionView::ReadBody,
            ResolveAction::Parse { body } => ResolveActionView::Parse { body: body@ },
            ResolveAction::Conclude(r) => ResolveActionView::Conclude(r@),
        }
    }
}

/// The message for a status of the streams endpoint that is neither a
/// success nor a refusal.
pub open spec fn endpoint_error_message(status_text: Seq<char>) -> Seq<char> {
    "streams endpoint HTTP error: "@ + status_text
}

/// The end of a resolution with a failure.
pub open spec fn spec_give_up(kind: ErrorKind, message: Seq<char>) -> (
    ResolveStage,
    ResolveActionView,
) {
    (
        ResolveStage::Done,
        ResolveActionView::Conclude(ResolutionView::Failed(ErrorView { kind, message })),
    )
}

/// The end of a resolution without a stream.
pub open spec fn spec_unavailable() -> (ResolveStage, ResolveActionView) {
    (ResolveStage::Done, ResolveActionView::Conclude(ResolutionView::Unavailable))
}

/// The resolver's transition function: the next stage and the next action,
/// given the current stage and what the caller reports.
///
/// A failed request or a failed read is a transport failure, a body that does
/// not parse a parse failure; a report that the stage in progress cannot have
/// produced is a resolution failure.
pub open spec fn spec_step(stage: ResolveStage, e: ResolveEventView) -> (
    ResolveStage,
    ResolveActionView,
) {
    match (stage, e) {
        (ResolveStage::AwaitingResponse, ResolveEventView::Responded { status, status_text }) => {
            if spec_is_refusal(status) {
                spec_unavailable()
            } else if !spec_is_success(status) {
                spec_give_up(ErrorKind::Transport, endpoint_error_message(status_text))
            } else {
                (ResolveStage::ReadingBody, ResolveActionView::ReadBody)
            }
        },
        (ResolveStage::AwaitingResponse, ResolveEventView::Failed(m)) => spec_give_up(
            ErrorKind::Transport,
            m,
        ),
        (ResolveStage::ReadingBody, ResolveEventView::Body(body)) => {
            if spec_is_null_body(body) {
                spec_unavailable()
            } else {
                (ResolveStage::Parsing, ResolveActionView::Parse { body })
            }
        },
        (ResolveStage::ReadingBody, ResolveEventView::Failed(m)) => spec_give_up(
            ErrorKind::Transport,
            m,
        ),
        (ResolveStage::Parsing, ResolveEventView::Parsed(stream)) => (
            ResolveStage::Done,
            ResolveActionView::Conclude(ResolutionView::Stream(stream)),
        ),
        (ResolveStage::Parsing, ResolveEventView::Failed(m)) => spec_give_up(ErrorKind::Parse, m),
        _ => spec_give_up(ErrorKind::Resolution, "unexpected event"@),
    }
}

/// Starts the resolution of a track's stream: the first stage, and the
/// request to send.
pub fn begin(api_base: &str, track_id: i64, token: &str) -> (r: (ResolveStage, ResolveAction))
    ensures
        r.0 == ResolveStage::AwaitingResponse,
        r.1@ == (ResolveActionView::Send {
            url: spec_streams_url(api_base@, track_id),
            token: token@,
        }),
{
    (
        ResolveStage::AwaitingResponse,
        ResolveAction::Send { url: streams_url(api_base, track_id), token: token.to_owned() },
    )
}

/// Ends a resolution with a failure.
fn give_up(kind: ErrorKind, message: String) -> (r: (ResolveStage, ResolveAction))
    ensures
        (r.0, r.1@) == spec_give_up(kind, message@),
{
    (ResolveStage::Done, ResolveAction::Conclude(Resolution::Failed(SyncError::new(kind, message))))
}

/// Takes one step: given what the caller reports about the last action, says
/// what to do next.
pub fn step(stage: ResolveStage, event: ResolveEvent) -> (r: (ResolveStage, ResolveAction))
    ensures
        (r.0, r.1@) == spec_step(stage, event@),
{
    match (stage, event) {
        (ResolveStage::AwaitingResponse, ResolveEvent::Responded { status, status_text }) => {
            if is_refusal(status) {
                (ResolveStage::Done, ResolveAction::Conclude(Resolution::Unavailable))
            } else if !is_success(status) {
                let message = "streams endpoint HTTP error: ".to_owned().concat(
                    status_text.as_str(),
                );
                give_up(ErrorKind::Transport, message)
            } else {
                (ResolveStage::ReadingBody, ResolveAction::ReadBody)
            }
        },
        (ResolveStage::AwaitingResponse, ResolveEvent::Failed(m)) => give_up(
            ErrorKind::Transport,
            m,
        ),
        (ResolveStage::ReadingBody, ResolveEvent::Body(body)) => {
            if is_null_body(body.as_str()) {
                (ResolveStage::Done, ResolveAction::Conclude(Resolution::Unavailable))
            } else {
                (ResolveStage::Parsing, ResolveAction::Parse { body })
            }
        },
        (ResolveStage::ReadingBody, ResolveEvent::Failed(m)) => give_up(ErrorKind::Transport, m),
        (ResolveStage::Parsing, ResolveEvent::Parsed(stream)) => (
            ResolveStage::Done,
            ResolveAction::Conclude(Resolution::Stream(stream)),
        ),
        (ResolveStage::Parsing, ResolveEvent::Failed(m)) => give_up(ErrorKind::Parse, m),
        _ => give_up(ErrorKind::Resolution, "unexpected event".to_owned()),
    }
}

} // verus!
