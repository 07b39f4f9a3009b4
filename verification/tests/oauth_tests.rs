use account_switch::handshake::{
    handle_callback, oauth_step, reply_for, OAuthAction, OAuthError, OAuthEvent, OAuthState, OAuthStep,
};
use account_switch::oauth::{
    extract_code, find_code, is_space_char, read_request_target, QueryPair, CALLBACK_PORT,
};

fn pair(key: &str, value: &str) -> QueryPair {
    QueryPair { key: key.to_string(), value: value.to_string() }
}

#[test]
fn request_target_is_the_second_word_of_the_first_line() {
    assert_eq!(
        read_request_target("GET /oauth-callback?code=XXXX HTTP/1.1\r\nHost: localhost\r\n\r\n"),
        Some("/oauth-callback?code=XXXX".to_string())
    );
    assert_eq!(read_request_target("GET /x"), Some("/x".to_string()));
    assert_eq!(read_request_target("  GET \t /x  HTTP/1.1"), Some("/x".to_string()));
    assert_eq!(read_request_target("GET\n/x HTTP/1.1"), None);
    assert_eq!(read_request_target("GET"), None);
    assert_eq!(read_request_target("GET   "), None);
    assert_eq!(read_request_target(""), None);
    assert_eq!(read_request_target("\nGET /x HTTP/1.1"), None);
    assert_eq!(read_request_target("GET\u{a0}/x\u{3000}HTTP/1.1"), Some("/x".to_string()));
}

#[test]
fn space_characters() {
    for c in [' ', '\t', '\n', '\r', '\u{b}', '\u{c}', '\u{85}', '\u{a0}', '\u{1680}', '\u{2000}', '\u{200a}', '\u{2028}', '\u{2029}', '\u{202f}', '\u{205f}', '\u{3000}'] {
        assert!(is_space_char(c));
        assert!(c.is_whitespace());
    }
    for c in ['a', '/', '\u{0}', '\u{200b}', '\u{feff}', '?'] {
        assert!(!is_space_char(c));
        assert!(!c.is_whitespace());
    }
}

#[test]
fn code_is_the_value_of_the_first_pair_named_code() {
    assert_eq!(find_code(&vec![pair("code", "abc")]), Some("abc".to_string()));
    assert_eq!(
        find_code(&vec![pair("state", "s"), pair("code", "abc"), pair("scope", "x")]),
        Some("abc".to_string())
    );
    assert_eq!(find_code(&vec![pair("code", "one"), pair("code", "two")]), Some("one".to_string()));
    assert_eq!(find_code(&vec![pair("Code", "abc"), pair("codes", "x")]), None);
    assert_eq!(find_code(&Vec::new()), None);
}

#[test]
fn code_is_extracted_whatever_surrounds_it() {
    assert_eq!(extract_code("GET /oauth-callback?code=XXXX HTTP/1.1\r\n\r\n"), Some("XXXX".to_string()));
    assert_eq!(
        extract_code("GET /oauth-callback?state=1&code=4%2F0Ab-c&scope=email+profile HTTP/1.1\r\n"),
        Some("4/0Ab-c".to_string())
    );
    assert_eq!(
        extract_code("GET /cb?scope=a&state=b&code=last HTTP/1.1"),
        Some("last".to_string())
    );
    assert_eq!(extract_code("GET /cb?code=first&x=1#frag HTTP/1.1"), Some("first".to_string()));
    assert_eq!(extract_code("GET /cb?code= HTTP/1.1"), Some(String::new()));
}

#[test]
fn missing_code_gives_nothing() {
    assert_eq!(extract_code("GET /oauth-callback?error=access_denied HTTP/1.1\r\n"), None);
    assert_eq!(extract_code("GET /oauth-callback HTTP/1.1\r\n"), None);
    assert_eq!(extract_code("GET"), None);
    assert_eq!(extract_code(""), None);
    assert_eq!(extract_code("GET nonsense?code=1 HTTP/1.1"), None);
    assert_eq!(extract_code("GET /cb#code=1 HTTP/1.1"), None);
}

#[test]
fn callback_with_code_is_answered_200() {
    let reply = handle_callback("GET /oauth-callback?code=XYZ&state=1 HTTP/1.1\r\n\r\n");
    assert_eq!(reply.code, Some("XYZ".to_string()));
    assert_eq!(reply.status, 200);
    assert!(reply.response.starts_with("HTTP/1.1 200 OK\r\nContent-Type: text/html; charset=utf-8\r\n\r\n"));
    assert!(reply.response.contains("window.close()"));
    assert!(reply.response.ends_with("</body>\n        </html>"));
    assert_eq!(reply.event, OAuthEvent::CodeFound);
}

#[test]
fn callback_without_code_is_answered_400() {
    let reply = handle_callback("GET /oauth-callback?error=denied HTTP/1.1\r\n\r\n");
    assert_eq!(reply.code, None);
    assert_eq!(reply.status, 400);
    assert_eq!(
        reply.response,
        "HTTP/1.1 400 Bad Request\r\nContent-Type: text/html\r\n\r\n<h1>❌ 授权失败</h1>"
    );
    assert_eq!(reply.event, OAuthEvent::CodeMissing);
    let step = oauth_step(OAuthState::WaitingForCallback, reply.event);
    assert_eq!(step.next, OAuthState::Failed(OAuthError::CodeNotFound));
    assert_eq!(step.action, OAuthAction::Respond(400));
    let reply = reply_for(None);
    assert_eq!(reply.status, 400);
}

#[test]
fn handshake_runs_through_its_states() {
    let events = [
        OAuthEvent::Begin,
        OAuthEvent::Succeeded,
        OAuthEvent::Succeeded,
        OAuthEvent::Succeeded,
        OAuthEvent::CodeFound,
        OAuthEvent::Succeeded,
        OAuthEvent::Succeeded,
    ];
    let expected = [
        (OAuthState::Idle, OAuthAction::Bind(8888)),
        (OAuthState::ListenerBound, OAuthAction::OpenBrowser),
        (OAuthState::BrowserOpened, OAuthAction::Accept),
        (OAuthState::WaitingForCallback, OAuthAction::ReadRequest),
        (OAuthState::CodeReceived, OAuthAction::Respond(200)),
        (OAuthState::Exchanging, OAuthAction::Exchange),
        (OAuthState::Complete, OAuthAction::Finish),
    ];
    assert_eq!(CALLBACK_PORT, 8888);
    let mut state = OAuthState::Idle;
    for (event, (next, action)) in events.iter().zip(expected.iter()) {
        let step = oauth_step(state, *event);
        assert_eq!(step, OAuthStep { next: *next, action: *action });
        state = step.next;
    }
    assert_eq!(state, OAuthState::Complete);
}

#[test]
fn handshake_failures_name_their_cause() {
    let abort = |e: OAuthError| OAuthStep { next: OAuthState::Failed(e), action: OAuthAction::Abort(e) };
    assert_eq!(oauth_step(OAuthState::Idle, OAuthEvent::Failed), abort(OAuthError::Bind));
    assert_eq!(oauth_step(OAuthState::ListenerBound, OAuthEvent::Failed), abort(OAuthError::Launch));
    assert_eq!(oauth_step(OAuthState::BrowserOpened, OAuthEvent::Failed), abort(OAuthError::Connection));
    assert_eq!(oauth_step(OAuthState::WaitingForCallback, OAuthEvent::Failed), abort(OAuthError::Connection));
    assert_eq!(oauth_step(OAuthState::Exchanging, OAuthEvent::Failed), abort(OAuthError::Exchange));
    assert_eq!(
        oauth_step(OAuthState::Failed(OAuthError::CodeNotFound), OAuthEvent::Succeeded),
        abort(OAuthError::CodeNotFound)
    );
}

#[test]
fn browser_that_never_calls_back_leaves_the_flow_waiting() {
    let mut state = OAuthState::BrowserOpened;
    for _ in 0..100 {
        let step = oauth_step(state, OAuthEvent::Begin);
        assert_eq!(step.action, OAuthAction::Accept);
        assert_ne!(step.next, OAuthState::Complete);
        state = step.next;
    }
    assert_eq!(state, OAuthState::BrowserOpened);
}
