use weave::asr::{AuthError, AuthRequest, ProcessError, Rejection, StreamingAsrService};
use weave::config::{AuthResponse, PlatformConfig, ProcessResponse, TranscriptionMessage};
use weave::http::HttpReply;
use weave::json::JsonMember;
use weave::session::SessionError;

fn ok(body: &str) -> HttpReply {
    HttpReply::Response { status: 200, body: Some(body.to_string()) }
}

fn service() -> StreamingAsrService {
    StreamingAsrService::new(PlatformConfig::default())
}

fn signed_in(token: &str) -> StreamingAsrService {
    let mut s = service();
    let body = format!("{{\"success\": true, \"session_token\": \"{}\"}}", token);
    assert_eq!(s.authenticate(&ok(&body)).unwrap(), token);
    s
}

#[test]
fn authenticate_returns_the_token_of_the_reply() {
    let mut s = service();
    let request = s.auth_request("dev-1", "1.0");
    assert_eq!(request.url, "http://localhost:9000/health");
    assert_eq!(request.fields.len(), 2);
    assert_eq!(request.fields[0].name, "device_id");
    assert_eq!(request.fields[0].value, "dev-1");
    assert_eq!(request.fields[1].name, "app_version");
    assert_eq!(request.fields[1].value, "1.0");
    assert!(request.bearer.is_none());
    assert!(request.timeout_secs.is_none());

    let token = s.authenticate(&ok("{\"success\": true, \"session_token\": \"tok-abc\"}")).unwrap();
    assert_eq!(token, "tok-abc");
    assert_eq!(s.session_token(), Some("tok-abc".to_string()));
}

#[test]
fn authenticate_keeps_the_token_exactly() {
    let mut s = service();
    let body = "{\"session_token\": \" t\\u00e9 \\\"q\\\" \", \"endpoints\": {\"a\": [1, 2]}, \"success\": true}";
    let token = s.authenticate(&ok(body)).unwrap();
    assert_eq!(token, " t\u{e9} \"q\" ");
    assert!(!token.is_empty());
    assert_eq!(s.session_token(), Some(token));
}

#[test]
fn authenticate_accepts_an_empty_token_as_the_reply_gives_it() {
    let mut s = service();
    let token = s.authenticate(&ok("{\"success\": true, \"session_token\": \"\"}")).unwrap();
    assert_eq!(token, "");
    assert_eq!(s.session_token(), Some(String::new()));
}

#[test]
fn authenticate_reports_transport_failure() {
    let mut s = service();
    let e = s.authenticate(&HttpReply::Unreachable("connection refused".to_string())).unwrap_err();
    assert!(matches!(&e, AuthError::Transport(r) if r == "connection refused"));
    assert_eq!(e.message(), "Failed to send auth request: connection refused");
    assert_eq!(s.session_token(), None);
}

#[test]
fn authenticate_reports_service_error_with_raw_body() {
    let mut s = service();
    let reply = HttpReply::Response { status: 503, body: Some("<h1>down</h1>".to_string()) };
    let e = s.authenticate(&reply).unwrap_err();
    assert!(matches!(&e, AuthError::Service { status: 503, body } if body == "<h1>down</h1>"));
    assert_eq!(e.message(), "Auth API error: <h1>down</h1>");
}

#[test]
fn authenticate_service_error_without_readable_body() {
    let mut s = service();
    let reply = HttpReply::Response { status: 500, body: None };
    let e = s.authenticate(&reply).unwrap_err();
    assert!(matches!(&e, AuthError::Service { status: 500, body } if body == "Unknown error"));
    assert_eq!(e.message(), "Auth API error: Unknown error");
}

#[test]
fn authenticate_status_bounds() {
    for status in [199u16, 300, 404] {
        let mut s = service();
        let reply = HttpReply::Response {
            status,
            body: Some("{\"success\": true, \"session_token\": \"t\"}".to_string()),
        };
        assert!(matches!(s.authenticate(&reply), Err(AuthError::Service { .. })));
    }
    for status in [200u16, 201, 299] {
        let mut s = service();
        let reply = HttpReply::Response {
            status,
            body: Some("{\"success\": true, \"session_token\": \"t\"}".to_string()),
        };
        assert_eq!(s.authenticate(&reply).unwrap(), "t");
    }
}

#[test]
fn authenticate_reports_protocol_error() {
    let bodies = [
        "",
        "not json",
        "{\"success\": true",
        "[true, \"tok\"]",
        "{\"session_token\": \"tok\"}",
        "{\"success\": \"yes\", \"session_token\": \"tok\"}",
        "{\"success\": true, \"session_token\": 7}",
        "{\"success\": false, \"session_token\": [\"tok\"]}",
    ];
    for body in bodies {
        let mut s = service();
        let e = s.authenticate(&ok(body)).unwrap_err();
        assert!(matches!(e, AuthError::Protocol), "{}", body);
        assert_eq!(e.message(), "Failed to parse auth response");
    }
    let mut s = service();
    let unread = HttpReply::Response { status: 200, body: None };
    assert!(matches!(s.authenticate(&unread), Err(AuthError::Protocol)));
}

#[test]
fn authenticate_reports_rejection() {
    let mut s = service();
    let e = s.authenticate(&ok("{\"success\": false}")).unwrap_err();
    assert!(matches!(e, AuthError::Rejected(Rejection::Denied)));
    assert_eq!(e.message(), "Authentication failed");

    let e = s.authenticate(&ok("{\"success\": false, \"session_token\": \"tok\"}")).unwrap_err();
    assert!(matches!(e, AuthError::Rejected(Rejection::Denied)));

    let e = s.authenticate(&ok("{\"success\": true}")).unwrap_err();
    assert!(matches!(e, AuthError::Rejected(Rejection::NoToken)));
    assert_eq!(e.message(), "No session token in response");

    let e = s.authenticate(&ok("{\"success\": true, \"session_token\": null}")).unwrap_err();
    assert!(matches!(e, AuthError::Rejected(Rejection::NoToken)));
}

#[test]
fn failed_reauthentication_gives_up_the_token() {
    let mut s = signed_in("tok-1");
    assert!(s.authenticate(&ok("{\"success\": false}")).is_err());
    assert_eq!(s.session_token(), None);

    let mut s = signed_in("tok-1");
    let _ = s.auth_request("dev-1", "1.0");
    assert_eq!(s.session_token(), None);
    assert!(matches!(s.start_streaming_transcription(), Err(SessionError::NotAuthenticated)));
}

#[test]
fn auth_response_decode() {
    let r = AuthResponse::decode("{\"success\": true, \"session_token\": \"a\"}").unwrap();
    assert!(r.success);
    assert_eq!(r.session_token.as_deref(), Some("a"));
    let r = AuthResponse::decode("{\"success\": false, \"endpoints\": null}").unwrap();
    assert!(!r.success);
    assert!(r.session_token.is_none());
    assert!(AuthResponse::decode("{}").is_none());
    assert!(AuthResponse::decode("{\"success\": 1}").is_none());
}

#[test]
fn streaming_needs_a_token() {
    let s = service();
    let e = s.start_streaming_transcription().unwrap_err();
    assert!(matches!(e, SessionError::NotAuthenticated));
    assert_eq!(e.message(), "Not authenticated");
}

#[test]
fn streaming_address_carries_the_token() {
    let s = signed_in("tok-abc");
    let pending = s.start_streaming_transcription().unwrap();
    assert_eq!(pending.url(), "ws://localhost:9000/ws/asr?token=tok-abc");
    let e = pending.refused("timed out".to_string());
    assert!(matches!(&e, SessionError::Connect(r) if r == "timed out"));
    assert_eq!(e.message(), "Failed to connect to WebSocket: timed out");
}

#[test]
fn process_request_needs_a_token() {
    let s = service();
    assert!(matches!(s.process_request("hello"), Err(ProcessError::NotAuthenticated)));
    let e = s.process_transcript(&ok("{\"processedText\": \"x\"}")).unwrap_err();
    assert!(matches!(e, ProcessError::NotAuthenticated));
    assert_eq!(e.message(), "Not authenticated");
}

#[test]
fn process_request_posts_the_transcript_with_the_token() {
    let s = signed_in("tok-9");
    let post = s.process_request("um hello").unwrap();
    assert_eq!(post.url, "http://localhost:9000/end-dictation");
    assert_eq!(post.bearer.as_deref(), Some("tok-9"));
    assert_eq!(post.fields.len(), 1);
    assert_eq!(post.fields[0].name, "transcript");
    assert_eq!(post.fields[0].value, "um hello");
    assert!(post.timeout_secs.is_none());
}

#[test]
fn process_transcript_reads_processed_text() {
    let s = signed_in("tok-9");
    let text = s.process_transcript(&ok("{\"processedText\": \"Hello.\", \"x\": 1}")).unwrap();
    assert_eq!(text, "Hello.");
    assert_eq!(ProcessResponse::decode("{\"processedText\": \"a\"}").unwrap().processed_text, "a");
    assert!(ProcessResponse::decode("{\"processed_text\": \"a\"}").is_none());
}

#[test]
fn process_transcript_accepts_cleaned_text() {
    let s = signed_in("tok-9");
    let text = s.process_transcript(&ok("{\"cleaned_text\": \"Hello there.\"}")).unwrap();
    assert_eq!(text, "Hello there.");
    assert_eq!(s.session_token().as_deref(), Some("tok-9"));

    let both = ok("{\"processedText\": \"old\", \"cleaned_text\": \"new\"}");
    assert_eq!(s.process_transcript(&both).unwrap(), "new");

    let fallback = ok("{\"cleaned_text\": null, \"processedText\": \"old\"}");
    assert_eq!(s.process_transcript(&fallback).unwrap(), "old");
    let fallback = ok("{\"cleaned_text\": 7, \"processedText\": \"old\"}");
    assert_eq!(s.process_transcript(&fallback).unwrap(), "old");

    let empty = ok("{\"cleaned_text\": \"\"}");
    assert_eq!(s.process_transcript(&empty).unwrap(), "");

    for body in ["{\"cleaned_text\": 7}", "{\"cleanedText\": \"x\"}", "{\"cleaned_text\": [\"x\"]}"] {
        assert!(matches!(s.process_transcript(&ok(body)), Err(ProcessError::Protocol)));
    }
}

#[test]
fn process_response_is_made_of_two_members() {
    let text = |t: &str| JsonMember::Text(t.to_string());
    assert_eq!(ProcessResponse::from_members(text("a"), JsonMember::Absent).unwrap().processed_text, "a");
    assert_eq!(ProcessResponse::from_members(JsonMember::Absent, text("b")).unwrap().processed_text, "b");
    assert_eq!(ProcessResponse::from_members(text("a"), text("b")).unwrap().processed_text, "a");
    assert_eq!(ProcessResponse::from_members(JsonMember::Other, text("b")).unwrap().processed_text, "b");
    assert!(ProcessResponse::from_members(JsonMember::Absent, JsonMember::Absent).is_none());
    assert!(ProcessResponse::from_members(JsonMember::Null, JsonMember::Flag(true)).is_none());
    assert_eq!(ProcessResponse::decode("{\"cleaned_text\": \"c\"}").unwrap().processed_text, "c");
}

#[test]
fn wire_types_can_be_copied() {
    let request = AuthRequest { device_id: "dev-1".to_string(), app_version: "1.0".to_string() };
    let copy = request.clone();
    assert_eq!(copy.device_id, "dev-1");
    assert_eq!(copy.app_version, "1.0");

    let response = AuthResponse { success: true, session_token: Some("t".to_string()) };
    let copy = response.clone();
    assert!(copy.success);
    assert_eq!(copy.session_token.as_deref(), Some("t"));
    assert_eq!(AuthResponse { success: false, session_token: None }.clone().session_token, None);

    assert_eq!(ProcessResponse { processed_text: "p".to_string() }.clone().processed_text, "p");
    assert_eq!(TranscriptionMessage { text: "m".to_string() }.clone().text, "m");
}

#[test]
fn process_transcript_errors() {
    let s = signed_in("tok-9");
    let e = s.process_transcript(&HttpReply::Unreachable("dns".to_string())).unwrap_err();
    assert!(matches!(&e, ProcessError::Transport(r) if r == "dns"));
    assert_eq!(e.message(), "Failed to send process request: dns");

    for status in [401u16, 403] {
        let reply = HttpReply::Response { status, body: Some("expired".to_string()) };
        let e = s.process_transcript(&reply).unwrap_err();
        assert!(matches!(&e, ProcessError::Unauthorized { body, .. } if body == "expired"));
        assert_eq!(e.message(), "Process API error: expired");
    }

    let reply = HttpReply::Response { status: 500, body: None };
    let e = s.process_transcript(&reply).unwrap_err();
    assert!(matches!(&e, ProcessError::Service { status: 500, body } if body == "Unknown error"));
    assert_eq!(e.message(), "Process API error: Unknown error");

    for body in ["{}", "{\"processedText\": null}", "oops"] {
        let e = s.process_transcript(&ok(body)).unwrap_err();
        assert!(matches!(e, ProcessError::Protocol));
        assert_eq!(e.message(), "Failed to parse process response");
    }
    let unread = HttpReply::Response { status: 200, body: None };
    assert!(matches!(s.process_transcript(&unread), Err(ProcessError::Protocol)));
}
