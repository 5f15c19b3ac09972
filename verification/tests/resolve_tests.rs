use tracksync::error::{ErrorKind, SyncError};
use tracksync::model::Stream;
use tracksync::resolve::{
    begin, is_null_body, is_refusal, step, streams_url, Resolution, ResolveAction, ResolveEvent,
    ResolveStage,
};

fn service_answered(status: u16, text: &str) -> ResolveEvent {
    ResolveEvent::Responded { status, status_text: text.to_string() }
}

fn failed(kind: ErrorKind, message: &str) -> ResolveAction {
    ResolveAction::Conclude(Resolution::Failed(SyncError { kind, message: message.to_string() }))
}

#[test]
fn streams_url_follows_the_template() {
    assert_eq!(
        streams_url("https://api.example.com", 42),
        "https://api.example.com/tracks/soundcloud:tracks:42/streams"
    );
}

#[test]
fn streams_url_tolerates_trailing_slashes() {
    assert_eq!(
        streams_url("https://api.example.com/", 42),
        "https://api.example.com/tracks/soundcloud:tracks:42/streams"
    );
    assert_eq!(
        streams_url("https://api.example.com///", 7),
        "https://api.example.com/tracks/soundcloud:tracks:7/streams"
    );
}

#[test]
fn streams_url_keeps_inner_slashes() {
    assert_eq!(
        streams_url("https://api.example.com/v2/x/", 1),
        "https://api.example.com/v2/x/tracks/soundcloud:tracks:1/streams"
    );
}

#[test]
fn streams_url_of_odd_bases() {
    assert_eq!(streams_url("", 5), "/tracks/soundcloud:tracks:5/streams");
    assert_eq!(streams_url("/", 5), "/tracks/soundcloud:tracks:5/streams");
    assert_eq!(streams_url("base", -3), "base/tracks/soundcloud:tracks:-3/streams");
}

#[test]
fn refusals_are_401_and_403() {
    assert!(is_refusal(401));
    assert!(is_refusal(403));
    assert!(!is_refusal(200));
    assert!(!is_refusal(400));
    assert!(!is_refusal(402));
    assert!(!is_refusal(404));
    assert!(!is_refusal(500));
}

#[test]
fn null_bodies_are_recognized() {
    assert!(is_null_body(""));
    assert!(is_null_body("   \n\t"));
    assert!(is_null_body("null"));
    assert!(is_null_body("  null\n"));
    assert!(!is_null_body("nul"));
    assert!(!is_null_body("nulll"));
    assert!(!is_null_body("NULL"));
    assert!(!is_null_body("n ull"));
    assert!(!is_null_body("{}"));
    assert!(!is_null_body("{\"http_mp3_128_url\":null}"));
}

#[test]
fn resolution_begins_with_the_request() {
    let (stage, action) = begin("https://api/", 42, "OAuth t");
    assert_eq!(stage, ResolveStage::AwaitingResponse);
    assert_eq!(
        action,
        ResolveAction::Send {
            url: "https://api/tracks/soundcloud:tracks:42/streams".to_string(),
            token: "OAuth t".to_string(),
        }
    );
}

#[test]
fn refusal_means_unavailable() {
    for (code, text) in [(401, "401 Unauthorized"), (403, "403 Forbidden")] {
        let (stage, action) = step(ResolveStage::AwaitingResponse, service_answered(code, text));
        assert_eq!(stage, ResolveStage::Done);
        assert_eq!(action, ResolveAction::Conclude(Resolution::Unavailable));
    }
}

#[test]
fn other_error_status_is_a_failure() {
    let (stage, action) =
        step(ResolveStage::AwaitingResponse, service_answered(500, "500 Internal Server Error"));
    assert_eq!(stage, ResolveStage::Done);
    assert_eq!(
        action,
        failed(ErrorKind::Transport, "streams endpoint HTTP error: 500 Internal Server Error")
    );
    let (_, action) = step(ResolveStage::AwaitingResponse, service_answered(404, "404 Not Found"));
    assert_eq!(action, failed(ErrorKind::Transport, "streams endpoint HTTP error: 404 Not Found"));
    let (_, action) = step(ResolveStage::AwaitingResponse, service_answered(302, "302 Found"));
    assert_eq!(action, failed(ErrorKind::Transport, "streams endpoint HTTP error: 302 Found"));
}

#[test]
fn unanswered_lookup_is_a_failure() {
    let (stage, action) =
        step(ResolveStage::AwaitingResponse, ResolveEvent::Failed("dns error".to_string()));
    assert_eq!(stage, ResolveStage::Done);
    assert_eq!(action, failed(ErrorKind::Transport, "dns error"));
}

#[test]
fn success_status_asks_for_the_body() {
    let (stage, action) = step(ResolveStage::AwaitingResponse, service_answered(200, "200 OK"));
    assert_eq!(stage, ResolveStage::ReadingBody);
    assert_eq!(action, ResolveAction::ReadBody);
}

#[test]
fn empty_or_null_body_means_unavailable() {
    for body in ["", "  ", "null", "\nnull  "] {
        let (stage, action) = step(ResolveStage::ReadingBody, ResolveEvent::Body(body.to_string()));
        assert_eq!(stage, ResolveStage::Done);
        assert_eq!(action, ResolveAction::Conclude(Resolution::Unavailable));
    }
}

#[test]
fn other_body_is_handed_to_the_parser_unchanged() {
    let body = " {\"http_mp3_128_url\":\"https://x/42.mp3\"} ";
    let (stage, action) = step(ResolveStage::ReadingBody, ResolveEvent::Body(body.to_string()));
    assert_eq!(stage, ResolveStage::Parsing);
    assert_eq!(action, ResolveAction::Parse { body: body.to_string() });
}

#[test]
fn unreadable_body_is_a_failure() {
    let (stage, action) =
        step(ResolveStage::ReadingBody, ResolveEvent::Failed("timed out".to_string()));
    assert_eq!(stage, ResolveStage::Done);
    assert_eq!(action, failed(ErrorKind::Transport, "timed out"));
}

#[test]
fn parsed_stream_is_the_result() {
    let stream = Stream { http_mp3_128_url: Some("https://x/42.mp3".to_string()) };
    let (stage, action) = step(ResolveStage::Parsing, ResolveEvent::Parsed(stream.clone()));
    assert_eq!(stage, ResolveStage::Done);
    assert_eq!(action, ResolveAction::Conclude(Resolution::Stream(stream)));
    let empty = Stream { http_mp3_128_url: None };
    let (_, action) = step(ResolveStage::Parsing, ResolveEvent::Parsed(empty.clone()));
    assert_eq!(action, ResolveAction::Conclude(Resolution::Stream(empty)));
}

#[test]
fn unparsable_body_is_a_parse_failure() {
    let (stage, action) =
        step(ResolveStage::Parsing, ResolveEvent::Failed("expected value".to_string()));
    assert_eq!(stage, ResolveStage::Done);
    assert_eq!(action, failed(ErrorKind::Parse, "expected value"));
}

#[test]
fn report_that_does_not_fit_ends_the_resolution() {
    let stream = Stream { http_mp3_128_url: None };
    let cases = vec![
        (ResolveStage::AwaitingResponse, ResolveEvent::Body("x".to_string())),
        (ResolveStage::AwaitingResponse, ResolveEvent::Parsed(stream.clone())),
        (ResolveStage::ReadingBody, service_answered(200, "200 OK")),
        (ResolveStage::ReadingBody, ResolveEvent::Parsed(stream.clone())),
        (ResolveStage::Parsing, ResolveEvent::Body("x".to_string())),
        (ResolveStage::Done, ResolveEvent::Failed("x".to_string())),
        (ResolveStage::Done, service_answered(200, "200 OK")),
    ];
    for (stage, event) in cases {
        let (next, action) = step(stage, event);
        assert_eq!(next, ResolveStage::Done);
        assert_eq!(action, failed(ErrorKind::Resolution, "unexpected event"));
    }
}
