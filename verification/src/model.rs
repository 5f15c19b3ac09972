//! The records exchanged with the caller: the request, the track descriptor
//! it carries, and the outcome that is handed back.

use crate::text::{is_blank, str_trim};
use vstd::prelude::*;

verus! {

/// The text of an optional string, as a sequence of characters.
pub open spec fn text_of(o: Option<String>) -> Option<Seq<char>> {
    match o {
        Some(s) => Some(s@),
        None => None,
    }
}

/// Whether an optional text carries a value: it is there and it is not empty.
pub open spec fn is_populated(o: Option<Seq<char>>) -> bool {
    o matches Some(s) && s.len() > 0
}

/// Whether an optional text is worth using: it is there, and not blank.
pub open spec fn wanted(value: Option<Seq<char>>) -> bool {
    value matches Some(s) && !is_blank(s)
}

/// Tells whether an optional string carries a value.
pub fn has_value(value: &Option<String>) -> (r: bool)
    ensures
        r == is_populated(text_of(*value)),
{
    match value {
        Some(s) => !s.as_str().is_empty(),
        None => false,
    }
}

/// Tells whether an optional string is worth using.
pub fn is_wanted(value: &Option<String>) -> (r: bool)
    ensures
        r == wanted(text_of(*value)),
{
    match value {
        Some(s) => !str_trim(s.as_str()).is_empty(),
        None => false,
    }
}

/// The author a track is attributed to.
#[derive(Debug, Clone, PartialEq, Eq)]
pub struct SoundCloudUser {
    pub username: Option<String>,
}

/// Mathematical view of a [`SoundCloudUser`].
pub struct UserView {
    pub username: Option<Seq<char>>,
}

impl View for SoundCloudUser {
    type V = UserView;

    open spec fn view(&self) -> UserView {
        UserView { username: text_of(self.username) }
    }
}

/// The descriptor of a remote track. Only `id` is always there.
#[derive(Debug, Clone, PartialEq, Eq)]
pub struct SoundCloudTrack {
    pub id: i64,
    pub title: Option<String>,
    pub streamable: Option<bool>,
    pub downloadable: Option<bool>,
    pub stream_url: Option<String>,
    pub download_url: Option<String>,
    pub http_mp3_128_url: Option<String>,
    pub artwork_url: Option<String>,
    pub user: Option<SoundCloudUser>,
    pub description: Option<String>,
    pub label_name: Option<String>,
    pub genre: Option<String>,
    pub tag_list: Option<String>,
}

/// Mathematical view of a [`SoundCloudTrack`].
pub struct TrackView {
    pub id: i64,
    pub title: Option<Seq<char>>,
    pub streamable: Option<bool>,
    pub downloadable: Option<bool>,
    pub stream_url: Option<Seq<char>>,
    pub download_url: Option<Seq<char>>,
    pub http_mp3_128_url: Option<Seq<char>>,
    pub artwork_url: Option<Seq<char>>,
    pub user: Option<UserView>,
    pub description: Option<Seq<char>>,
    pub label_name: Option<Seq<char>>,
    pub genre: Option<Seq<char>>,
    pub tag_list: Option<Seq<char>>,
}

impl TrackView {
    /// The name of the attributed author, if the descriptor names one.
    pub open spec fn artist(self) -> Option<Seq<char>> {
        match self.user {
            Some(u) => u.username,
            None => None,
        }
    }

    /// A track is streamable only when the descriptor says so.
    pub open spec fn is_streamable(self) -> bool {
        self.streamable == Some(true)
    }
}

impl View for SoundCloudTrack {
    type V = TrackView;

    open spec fn view(&self) -> TrackView {
        TrackView {
            id: self.id,
            title: text_of(self.title),
            streamable: self.streamable,
            downloadable: self.downloadable,
            stream_url: text_of(self.stream_url),
            download_url: text_of(self.download_url),
            http_mp3_128_url: text_of(self.http_mp3_128_url),
            artwork_url: text_of(self.artwork_url),
            user: match self.user {
                Some(u) => Some(u@),
                None => None,
            },
            description: text_of(self.description),
            label_name: text_of(self.label_name),
            genre: text_of(self.genre),
            tag_list: text_of(self.tag_list),
        }
    }
}

/// What the streams endpoint answers for a track.
#[derive(Debug, Clone, PartialEq, Eq)]
pub struct Stream {
    pub http_mp3_128_url: Option<String>,
}

/// Mathematical view of a [`Stream`].
pub struct StreamView {
    pub http_mp3_128_url: Option<Seq<char>>,
}

impl View for Stream {
    type V = StreamView;

    open spec fn view(&self) -> StreamView {
        StreamView { http_mp3_128_url: text_of(self.http_mp3_128_url) }
    }
}

/// One request to bring a track to disk. `playlist_title` and `directory`
/// come from the user and may hold any characters.
#[derive(Debug, Clone, PartialEq, Eq)]
pub struct SyncTrackRequest {
    pub track: SoundCloudTrack,
    pub playlist_title: String,
    pub directory: String,
    pub token: String,
    pub api_base: String,
}

/// Mathematical view of a [`SyncTrackRequest`].
pub struct RequestView {
    pub track: TrackView,
    pub playlist_title: Seq<char>,
    pub directory: Seq<char>,
    pub token: Seq<char>,
    pub api_base: Seq<char>,
}

impl View for SyncTrackRequest {
    type V = RequestView;

    open spec fn view(&self) -> RequestView {
        RequestView {
            track: self.track@,
            playlist_title: self.playlist_title@,
            directory: self.directory@,
            token: self.token@,
            api_base: self.api_base@,
        }
    }
}

/// The outcome of one request: what was done, where the track lives, and why
/// nothing more was done, if so.
#[derive(Debug, Clone, PartialEq, Eq)]
pub struct SyncTrackResponse {
    pub action: String,
    pub path: String,
    pub reason: Option<String>,
}

/// Mathematical view of a [`SyncTrackResponse`].
pub struct ResponseView {
    pub action: Seq<char>,
    pub path: Seq<char>,
    pub reason: Option<Seq<char>>,
}

impl View for SyncTrackResponse {
    type V = ResponseView;

    open spec fn view(&self) -> ResponseView {
        ResponseView { action: self.action@, path: self.path@, reason: text_of(self.reason) }
    }
}

/// The text of an optional string slice.
pub open spec fn str_text_of(o: Option<&str>) -> Option<Seq<char>> {
    match o {
        Some(s) => Some(s@),
        None => None,
    }
}

/// Builds an outcome from its three parts.
pub fn resp(action: &str, path: &str, reason: Option<&str>) -> (r: SyncTrackResponse)
    ensures
        r@ == (ResponseView { action: action@, path: path@, reason: str_text_of(reason) }),
{
    let reason = match reason {
        Some(s) => Some(s.to_owned()),
        None => None,
    };
    SyncTrackResponse { action: action.to_owned(), path: path.to_owned(), reason }
}

} // verus!
