use oidc_login::{Listener, ListenerAction, RedirectTarget};

#[test]
fn new_listener_has_captured_nothing() {
    let listener = Listener::start(&RedirectTarget { port: 8250 });
    assert!(!listener.is_done());
    assert!(listener.finish().is_none());
}

#[test]
fn first_request_is_answered_and_ends_the_listener() {
    let mut listener = Listener::start(&RedirectTarget { port: 8250 });
    let action = listener.on_request("/oidc/callback?code=abc&state=xyz&nonce=123");
    assert_eq!(action, ListenerAction::RespondAndStop);
    assert!(listener.is_done());
    let params = listener.finish().unwrap();
    assert_eq!(params.code, "abc");
    assert_eq!(params.nonce, "123");
    assert_eq!(params.state, "xyz");
}

#[test]
fn second_request_does_not_alter_the_capture() {
    let mut listener = Listener::start(&RedirectTarget { port: 8250 });
    assert_eq!(
        listener.on_request("/oidc/callback?code=abc&state=xyz&nonce=123"),
        ListenerAction::RespondAndStop
    );
    assert_eq!(
        listener.on_request("/oidc/callback?code=evil&state=other&nonce=999"),
        ListenerAction::Ignore
    );
    assert_eq!(listener.on_request("/favicon.ico"), ListenerAction::Ignore);
    let params = listener.finish().unwrap();
    assert_eq!(params.code, "abc");
    assert_eq!(params.nonce, "123");
    assert_eq!(params.state, "xyz");
}

#[test]
fn request_without_params_still_counts_as_the_capture() {
    let mut listener = Listener::start(&RedirectTarget { port: 8250 });
    assert_eq!(listener.on_request("/favicon.ico"), ListenerAction::RespondAndStop);
    assert_eq!(listener.on_request("/oidc/callback?code=abc"), ListenerAction::Ignore);
    let params = listener.finish().unwrap();
    assert_eq!(params.code, "");
    assert_eq!(params.nonce, "");
    assert_eq!(params.state, "");
}

#[test]
fn malformed_request_does_not_fail_the_listener() {
    let mut listener = Listener::start(&RedirectTarget { port: 8250 });
    assert_eq!(listener.on_request("http://[::1?code=abc"), ListenerAction::RespondAndStop);
    let params = listener.finish().unwrap();
    assert_eq!(params.code, "");
}

#[test]
fn listener_resolves_against_its_own_port() {
    let mut listener = Listener::start(&RedirectTarget { port: 80 });
    assert_eq!(listener.on_request("?state=xyz"), ListenerAction::RespondAndStop);
    let params = listener.finish().unwrap();
    assert_eq!(params.state, "xyz");
}

#[test]
fn captured_request_is_answered_with_the_success_page() {
    let mut listener = Listener::start(&RedirectTarget { port: 8250 });
    let action = listener.on_request("/oidc/callback?code=abc");
    assert_eq!(action.response(), Some("Success!"));
}

#[test]
fn later_requests_get_no_answer() {
    let mut listener = Listener::start(&RedirectTarget { port: 8250 });
    listener.on_request("/oidc/callback?code=abc");
    let action = listener.on_request("/oidc/callback?code=def");
    assert_eq!(action.response(), None);
    assert_eq!(ListenerAction::Ignore.response(), None);
}
