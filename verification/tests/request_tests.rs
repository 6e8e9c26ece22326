use rust_web::request::{
    decide_request, outcome_for, parse_request_line, resolve_resource, wants_sleep,
    HandlerOutcome, RequestDecision, Resource,
};

#[test]
fn parses_root_request() {
    let rl = parse_request_line(b"GET / HTTP/1.1\r\n").unwrap();
    assert_eq!(rl.method.as_slice(), b"GET");
    assert_eq!(rl.path.as_slice(), b"/");
    assert_eq!(rl.query.as_slice(), b"");
}

#[test]
fn parses_file_request() {
    let rl = parse_request_line(b"GET /abc.html HTTP/1.1\r\n").unwrap();
    assert_eq!(rl.path.as_slice(), b"/abc.html");
    assert_eq!(rl.query.as_slice(), b"");
    assert!(matches!(
        resolve_resource(&rl),
        Resource::FileAt(p) if p.as_slice() == b"abc.html"
    ));
}

#[test]
fn parses_sleep_query() {
    let rl = parse_request_line(b"GET /?sleep HTTP/1.1\r\n").unwrap();
    assert_eq!(rl.path.as_slice(), b"/");
    assert_eq!(rl.query.as_slice(), b"sleep");
    assert!(wants_sleep(&rl));
    assert!(matches!(outcome_for(&rl), HandlerOutcome::Continue));
}

#[test]
fn parses_quit_query() {
    let rl = parse_request_line(b"GET /?quit HTTP/1.1\r\n").unwrap();
    assert_eq!(rl.query.as_slice(), b"quit");
    assert!(!wants_sleep(&rl));
    assert!(matches!(outcome_for(&rl), HandlerOutcome::ShutdownRequested));
    // The quit request is still served the normal welcome page.
    assert!(matches!(resolve_resource(&rl), Resource::Welcome));
}

#[test]
fn parses_sleep_query_on_file_path() {
    let rl = parse_request_line(b"GET /abc.html?sleep HTTP/1.1\r\n").unwrap();
    assert_eq!(rl.path.as_slice(), b"/abc.html");
    assert!(wants_sleep(&rl));
}

#[test]
fn directive_must_match_whole_query() {
    let rl = parse_request_line(b"GET /?sleepy HTTP/1.1\r\n").unwrap();
    assert!(!wants_sleep(&rl));
    let rl = parse_request_line(b"GET /?quitx HTTP/1.1\r\n").unwrap();
    assert!(matches!(outcome_for(&rl), HandlerOutcome::Continue));
    let rl = parse_request_line(b"GET /?Sleep HTTP/1.1\r\n").unwrap();
    assert!(!wants_sleep(&rl));
}

#[test]
fn query_splits_at_first_question_mark_only() {
    let rl = parse_request_line(b"GET /a?b?c HTTP/1.1\r\n").unwrap();
    assert_eq!(rl.path.as_slice(), b"/a");
    assert_eq!(rl.query.as_slice(), b"b?c");
}

#[test]
fn rejects_line_with_two_tokens() {
    assert!(parse_request_line(b"GET /\r\n").is_none());
}

#[test]
fn rejects_line_with_one_token() {
    assert!(parse_request_line(b"GET\r\n").is_none());
}

#[test]
fn rejects_empty_line() {
    assert!(parse_request_line(b"").is_none());
}

#[test]
fn empty_tokens_count() {
    // Split on single spaces, empty tokens kept: two spaces in a row make
    // an empty second token, which still makes three tokens in all.
    let rl = parse_request_line(b"GET  / HTTP/1.1\r\n").unwrap();
    assert_eq!(rl.method.as_slice(), b"GET");
    assert_eq!(rl.path.as_slice(), b"");
    assert!(matches!(
        resolve_resource(&rl),
        Resource::FileAt(p) if p.as_slice() == b""
    ));
}

#[test]
fn path_without_leading_slash_is_kept() {
    let rl = parse_request_line(b"GET abc HTTP/1.1\r\n").unwrap();
    assert!(matches!(
        resolve_resource(&rl),
        Resource::FileAt(p) if p.as_slice() == b"abc"
    ));
}

#[test]
fn strips_one_leading_slash_only() {
    let rl = parse_request_line(b"GET //x HTTP/1.1\r\n").unwrap();
    assert!(matches!(
        resolve_resource(&rl),
        Resource::FileAt(p) if p.as_slice() == b"/x"
    ));
}

#[test]
fn decides_whole_request() {
    match decide_request(b"GET /missing.html?quit HTTP/1.1\r\n") {
        RequestDecision::Serve { pause, resource, path, outcome } => {
            assert!(!pause);
            assert!(matches!(resource, Resource::FileAt(p) if p.as_slice() == b"missing.html"));
            assert_eq!(path.as_slice(), b"/missing.html");
            assert!(matches!(outcome, HandlerOutcome::ShutdownRequested));
        },
        RequestDecision::Close => panic!("a well-formed request was rejected"),
    }
}

#[test]
fn decides_to_close_on_malformed_line() {
    assert!(matches!(decide_request(b"GET /\r\n"), RequestDecision::Close));
}
