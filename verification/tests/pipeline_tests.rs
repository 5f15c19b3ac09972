use tracksync::error::{ErrorKind, SyncError};
use tracksync::model::{
    has_value, SoundCloudTrack, SoundCloudUser, Stream, SyncTrackRequest, SyncTrackResponse,
};
use tracksync::pipeline::{
    already_exists, begin, display_title, step, FileProbe, SyncAction, SyncEvent, SyncStage,
    SyncState,
};
use tracksync::resolve::{
    begin as begin_resolution, step as resolve_step, Resolution, ResolveAction, ResolveEvent,
};
use tracksync::tag::TagPlan;

const PATH: &str = "/music/Faves/My Track.mp3";

fn some(s: &str) -> Option<String> {
    Some(s.to_string())
}

fn bare_track(id: i64) -> SoundCloudTrack {
    SoundCloudTrack {
        id,
        title: None,
        streamable: None,
        downloadable: None,
        stream_url: None,
        download_url: None,
        http_mp3_128_url: None,
        artwork_url: None,
        user: None,
        description: None,
        label_name: None,
        genre: None,
        tag_list: None,
    }
}

fn my_track() -> SoundCloudTrack {
    let mut t = bare_track(42);
    t.title = some("My Track");
    t.streamable = Some(true);
    t.http_mp3_128_url = some("https://x/42.mp3");
    t
}

fn request_for(track: SoundCloudTrack) -> SyncTrackRequest {
    SyncTrackRequest {
        track,
        playlist_title: "Faves".to_string(),
        directory: "/music".to_string(),
        token: "OAuth secret".to_string(),
        api_base: "https://api.example.com/".to_string(),
    }
}

fn outcome(action: &str, path: &str, reason: Option<&str>) -> SyncAction {
    SyncAction::Return(SyncTrackResponse {
        action: action.to_string(),
        path: path.to_string(),
        reason: reason.map(str::to_string),
    })
}

fn error(kind: ErrorKind, message: &str) -> SyncError {
    SyncError { kind, message: message.to_string() }
}

fn misuse() -> SyncAction {
    SyncAction::Fail(error(ErrorKind::Filesystem, "unexpected event"))
}

/// Feeds the events one by one and collects every action, the first included.
fn run_pipeline(req: SyncTrackRequest, events: Vec<SyncEvent>) -> (SyncState, Vec<SyncAction>) {
    let (mut state, first) = begin(req);
    let mut actions = vec![first];
    for e in events {
        let (next, action) = step(state, e);
        state = next;
        actions.push(action);
    }
    (state, actions)
}

fn touches_network_or_file(a: &SyncAction) -> bool {
    matches!(a, SyncAction::Resolve { .. } | SyncAction::Fetch { .. } | SyncAction::Tag { .. })
}

#[test]
fn only_a_regular_file_exists() {
    assert!(already_exists(FileProbe::Regular));
    assert!(!already_exists(FileProbe::NotRegular));
    assert!(!already_exists(FileProbe::Inaccessible));
}

#[test]
fn populated_values_are_not_empty() {
    assert!(has_value(&some("x")));
    assert!(has_value(&some(" ")));
    assert!(!has_value(&some("")));
    assert!(!has_value(&None));
}

#[test]
fn title_falls_back_to_the_id() {
    assert_eq!(display_title(&my_track()), "My Track");
    assert_eq!(display_title(&bare_track(7)), "track-7");
    let mut t = bare_track(-12);
    t.title = some("");
    assert_eq!(display_title(&t), "track--12");
    t.title = some(" ");
    assert_eq!(display_title(&t), " ");
}

#[test]
fn pipeline_begins_by_removing_the_stale_artifact() {
    let (state, action) = begin(request_for(my_track()));
    assert_eq!(
        action,
        SyncAction::RemoveStaleTemp { path: "/music/Faves/My Track.mp3.part".to_string() }
    );
    assert_eq!(state.stage, SyncStage::RemovingStale);
    assert_eq!(state.path, PATH);
    assert_eq!(state.request, request_for(my_track()));
}

#[test]
fn pipeline_sanitizes_untrusted_names() {
    let mut t = my_track();
    t.title = some(" AC/DC: Back In Black? ");
    let mut req = request_for(t);
    req.playlist_title = "Rock|Classics*".to_string();
    let (state, _) = begin(req);
    assert_eq!(state.path, "/music/Rock_Classics_/AC_DC_ Back In Black_.mp3");
}

#[test]
fn probe_follows_the_removal_whatever_it_gave() {
    for report in [
        SyncEvent::Completed,
        SyncEvent::Failed(error(ErrorKind::Filesystem, "no such file")),
        SyncEvent::Probed(FileProbe::Regular),
    ] {
        let (state, actions) = run_pipeline(request_for(my_track()), vec![report]);
        assert_eq!(actions[1], SyncAction::Probe { path: PATH.to_string() });
        assert_eq!(state.stage, SyncStage::Probing);
    }
}

#[test]
fn streamable_track_with_url_is_streamed() {
    let (state, actions) = run_pipeline(
        request_for(my_track()),
        vec![
            SyncEvent::Completed,
            SyncEvent::Probed(FileProbe::NotRegular),
            SyncEvent::Completed,
            SyncEvent::Completed,
        ],
    );
    assert_eq!(
        actions,
        vec![
            SyncAction::RemoveStaleTemp { path: "/music/Faves/My Track.mp3.part".to_string() },
            SyncAction::Probe { path: PATH.to_string() },
            SyncAction::Fetch {
                url: "https://x/42.mp3".to_string(),
                path: PATH.to_string(),
                token: "OAuth secret".to_string(),
            },
            SyncAction::Tag { path: PATH.to_string(), plan: TagPlan::for_track(&my_track()) },
            outcome("streamed", "/music/Faves/My Track.mp3", None),
        ]
    );
    assert_eq!(state.stage, SyncStage::Done);
}

#[test]
fn track_that_is_neither_streamable_nor_downloadable_is_unsupported() {
    let mut t = bare_track(7);
    t.streamable = Some(false);
    t.downloadable = Some(false);
    let (state, actions) =
        run_pipeline(request_for(t), vec![SyncEvent::Completed, SyncEvent::Probed(FileProbe::NotRegular)]);
    assert_eq!(
        actions[2],
        outcome("unsupported", "/music/Faves/track-7.mp3", Some("not_downloadable_nor_streamable"))
    );
    assert!(!actions.iter().any(touches_network_or_file));
    assert_eq!(state.stage, SyncStage::Done);
}

#[test]
fn track_without_flags_is_unsupported() {
    let (_, actions) = run_pipeline(
        request_for(bare_track(7)),
        vec![SyncEvent::Completed, SyncEvent::Probed(FileProbe::Inaccessible)],
    );
    assert_eq!(
        actions[2],
        outcome("unsupported", "/music/Faves/track-7.mp3", Some("not_downloadable_nor_streamable"))
    );
}

#[test]
fn downloadable_track_that_is_not_streamable_is_unsupported() {
    let mut t = my_track();
    t.streamable = Some(false);
    t.downloadable = Some(true);
    t.download_url = some("https://x/42.orig");
    let (_, actions) =
        run_pipeline(request_for(t), vec![SyncEvent::Completed, SyncEvent::Probed(FileProbe::NotRegular)]);
    assert_eq!(actions[2], outcome("unsupported", PATH, Some("not_downloadable_nor_streamable")));
    assert!(!actions.iter().any(touches_network_or_file));
}

#[test]
fn refused_resolution_is_an_error_outcome() {
    let mut t = my_track();
    t.http_mp3_128_url = None;
    let req = request_for(t);

    let (_, send) = begin_resolution(&req.api_base, req.track.id, &req.token);
    assert_eq!(
        send,
        ResolveAction::Send {
            url: "https://api.example.com/tracks/soundcloud:tracks:42/streams".to_string(),
            token: "OAuth secret".to_string(),
        }
    );
    let (stage, _) = begin_resolution(&req.api_base, req.track.id, &req.token);
    let (_, concluded) = resolve_step(
        stage,
        ResolveEvent::Responded { status: 403, status_text: "403 Forbidden".to_string() },
    );
    let resolution = match concluded {
        ResolveAction::Conclude(r) => r,
        _ => panic!("not concluded"),
    };
    assert_eq!(resolution, Resolution::Unavailable);

    let (state, actions) = run_pipeline(
        req,
        vec![
            SyncEvent::Completed,
            SyncEvent::Probed(FileProbe::NotRegular),
            SyncEvent::Resolved(resolution),
        ],
    );
    assert_eq!(
        actions[2],
        SyncAction::Resolve {
            api_base: "https://api.example.com/".to_string(),
            track_id: 42,
            token: "OAuth secret".to_string(),
        }
    );
    assert_eq!(
        actions[3],
        outcome("error", PATH, Some("stream_resolve_returned_null_or_unauthorized"))
    );
    assert_eq!(state.stage, SyncStage::Done);
    assert!(!actions.iter().any(|a| matches!(a, SyncAction::Fetch { .. })));
}

#[test]
fn existing_track_is_skipped() {
    let (state, actions) =
        run_pipeline(request_for(my_track()), vec![SyncEvent::Completed, SyncEvent::Probed(FileProbe::Regular)]);
    assert_eq!(actions[2], outcome("skipped", PATH, Some("already_exists")));
    assert_eq!(actions.len(), 3);
    assert!(!actions.iter().any(touches_network_or_file));
    assert_eq!(state.stage, SyncStage::Done);
}

#[test]
fn existing_track_is_skipped_even_if_unsupported() {
    let (_, actions) = run_pipeline(
        request_for(bare_track(7)),
        vec![SyncEvent::Completed, SyncEvent::Probed(FileProbe::Regular)],
    );
    assert_eq!(
        actions[2],
        outcome("skipped", "/music/Faves/track-7.mp3", Some("already_exists"))
    );
}

#[test]
fn second_run_of_a_streamed_request_is_skipped() {
    let first = run_pipeline(
        request_for(my_track()),
        vec![
            SyncEvent::Completed,
            SyncEvent::Probed(FileProbe::NotRegular),
            SyncEvent::Completed,
            SyncEvent::Completed,
        ],
    );
    let fetched_to = match &first.1[2] {
        SyncAction::Fetch { path, .. } => path.clone(),
        _ => panic!("no fetch"),
    };
    let second =
        run_pipeline(request_for(my_track()), vec![SyncEvent::Completed, SyncEvent::Probed(FileProbe::Regular)]);
    assert_eq!(second.1[1], SyncAction::Probe { path: fetched_to.clone() });
    assert_eq!(second.1[2], outcome("skipped", &fetched_to, Some("already_exists")));
    assert!(!second.1.iter().any(touches_network_or_file));
}

#[test]
fn directory_or_failed_probe_does_not_skip() {
    for probe in [FileProbe::NotRegular, FileProbe::Inaccessible] {
        let (state, actions) =
            run_pipeline(request_for(my_track()), vec![SyncEvent::Completed, SyncEvent::Probed(probe)]);
        assert!(matches!(actions[2], SyncAction::Fetch { .. }));
        assert_eq!(state.stage, SyncStage::Fetching);
    }
}

#[test]
fn empty_url_is_resolved() {
    for url in [None, some("")] {
        let mut t = my_track();
        t.http_mp3_128_url = url;
        let (state, actions) =
            run_pipeline(request_for(t), vec![SyncEvent::Completed, SyncEvent::Probed(FileProbe::NotRegular)]);
        assert!(matches!(actions[2], SyncAction::Resolve { .. }));
        assert_eq!(state.stage, SyncStage::Resolving);
    }
}

#[test]
fn blank_url_is_missing_without_resolution() {
    let mut t = my_track();
    t.http_mp3_128_url = some("   ");
    let (state, actions) =
        run_pipeline(request_for(t), vec![SyncEvent::Completed, SyncEvent::Probed(FileProbe::NotRegular)]);
    assert_eq!(actions[2], outcome("error", PATH, Some("missing_http_mp3_128_url")));
    assert_eq!(state.stage, SyncStage::Done);
}

#[test]
fn resolved_url_is_fetched() {
    let mut t = my_track();
    t.http_mp3_128_url = None;
    let stream = Stream { http_mp3_128_url: some("https://cdn/42-128.mp3") };
    let (state, actions) = run_pipeline(
        request_for(t),
        vec![
            SyncEvent::Completed,
            SyncEvent::Probed(FileProbe::NotRegular),
            SyncEvent::Resolved(Resolution::Stream(stream)),
        ],
    );
    assert_eq!(
        actions[3],
        SyncAction::Fetch {
            url: "https://cdn/42-128.mp3".to_string(),
            path: PATH.to_string(),
            token: "OAuth secret".to_string(),
        }
    );
    assert_eq!(state.stage, SyncStage::Fetching);
}

#[test]
fn resolution_without_url_is_missing() {
    for url in [None, some(""), some("  ")] {
        let mut t = my_track();
        t.http_mp3_128_url = None;
        let (_, actions) = run_pipeline(
            request_for(t),
            vec![
                SyncEvent::Completed,
                SyncEvent::Probed(FileProbe::NotRegular),
                SyncEvent::Resolved(Resolution::Stream(Stream { http_mp3_128_url: url })),
            ],
        );
        assert_eq!(actions[3], outcome("error", PATH, Some("missing_http_mp3_128_url")));
    }
}

#[test]
fn failed_resolution_is_an_error_outcome() {
    let mut t = my_track();
    t.http_mp3_128_url = None;
    let failure = error(ErrorKind::Transport, "streams endpoint HTTP error: 500 Internal Server Error");
    let (state, actions) = run_pipeline(
        request_for(t),
        vec![
            SyncEvent::Completed,
            SyncEvent::Probed(FileProbe::NotRegular),
            SyncEvent::Resolved(Resolution::Failed(failure)),
        ],
    );
    assert_eq!(
        actions[3],
        outcome(
            "error",
            PATH,
            Some("stream_resolve_failed: streams endpoint HTTP error: 500 Internal Server Error")
        )
    );
    assert_eq!(state.stage, SyncStage::Done);
}

#[test]
fn failed_fetch_fails_the_call() {
    let failure = error(ErrorKind::Integrity, "incomplete download: wrote 3, expected 5");
    let (state, actions) = run_pipeline(
        request_for(my_track()),
        vec![
            SyncEvent::Completed,
            SyncEvent::Probed(FileProbe::NotRegular),
            SyncEvent::Failed(failure.clone()),
        ],
    );
    assert_eq!(actions[3], SyncAction::Fail(failure));
    assert!(!actions.iter().any(|a| matches!(a, SyncAction::Return(_) | SyncAction::Tag { .. })));
    assert_eq!(state.stage, SyncStage::Done);
}

#[test]
fn failed_tagging_is_an_error_outcome() {
    let failure = error(ErrorKind::Parse, "unsupported image format");
    let (state, actions) = run_pipeline(
        request_for(my_track()),
        vec![
            SyncEvent::Completed,
            SyncEvent::Probed(FileProbe::NotRegular),
            SyncEvent::Completed,
            SyncEvent::Failed(failure),
        ],
    );
    assert_eq!(
        actions[4],
        outcome("error", PATH, Some("tagging_failed: unsupported image format"))
    );
    assert_eq!(state.stage, SyncStage::Done);
    assert!(!actions.iter().any(|a| matches!(a, SyncAction::Fail(_))));
    let after_tag = &actions[4..];
    assert!(!after_tag
        .iter()
        .any(|a| matches!(a, SyncAction::RemoveStaleTemp { .. } | SyncAction::Fetch { .. })));
}

#[test]
fn tag_plan_comes_from_the_descriptor() {
    let mut t = my_track();
    t.user = Some(SoundCloudUser { username: some("Someone") });
    t.artwork_url = some("https://i/a-large.jpg");
    t.description = some("About");
    t.tag_list = some("tag1 tag2");
    t.genre = some("House");
    t.label_name = some("Not used");
    let (_, actions) = run_pipeline(
        request_for(t),
        vec![
            SyncEvent::Completed,
            SyncEvent::Probed(FileProbe::NotRegular),
            SyncEvent::Completed,
        ],
    );
    assert_eq!(
        actions[3],
        SyncAction::Tag {
            path: PATH.to_string(),
            plan: TagPlan {
                artist: some("Someone"),
                artwork_url: some("https://i/a-large.jpg"),
                comment: some("About"),
                label: some("tag1 tag2"),
                genre: some("House"),
            },
        }
    );
}

#[test]
fn report_that_does_not_fit_fails_the_call() {
    let stream = Stream { http_mp3_128_url: None };
    let (_, actions) = run_pipeline(request_for(my_track()), vec![SyncEvent::Completed, SyncEvent::Completed]);
    assert_eq!(actions[2], misuse());
    let (_, actions) = run_pipeline(
        request_for(my_track()),
        vec![
            SyncEvent::Completed,
            SyncEvent::Probed(FileProbe::NotRegular),
            SyncEvent::Resolved(Resolution::Stream(stream)),
        ],
    );
    assert_eq!(actions[3], misuse());
    let (_, actions) = run_pipeline(
        request_for(my_track()),
        vec![
            SyncEvent::Completed,
            SyncEvent::Probed(FileProbe::NotRegular),
            SyncEvent::Completed,
            SyncEvent::Probed(FileProbe::Regular),
        ],
    );
    assert_eq!(actions[4], misuse());
}

#[test]
fn answered_request_takes_no_more_reports() {
    let (state, actions) = run_pipeline(
        request_for(my_track()),
        vec![
            SyncEvent::Completed,
            SyncEvent::Probed(FileProbe::Regular),
            SyncEvent::Completed,
            SyncEvent::Probed(FileProbe::NotRegular),
        ],
    );
    assert_eq!(actions[3], misuse());
    assert_eq!(actions[4], misuse());
    assert_eq!(state.stage, SyncStage::Done);
    assert_eq!(state.path, PATH);
}
