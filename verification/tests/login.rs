use oidc_login::{
    ListenerAction, LoginAction, LoginEvent, LoginStage, OIDCLogin, SetupError,
};

fn default_login() -> OIDCLogin {
    OIDCLogin { port: None, role: None }
}

#[test]
fn begin_asks_the_backend_for_the_auth_url() {
    let login = default_login();
    let (stage, action) = login.login("oidc", LoginStage::Start, LoginEvent::Begin);
    assert!(matches!(stage, LoginStage::AwaitingAuthUrl));
    match action {
        LoginAction::RequestAuthUrl { mount, redirect_url, role } => {
            assert_eq!(mount, "oidc");
            assert_eq!(redirect_url, "http://localhost:8250/oidc/callback");
            assert_eq!(role, None);
        }
        other => panic!("unexpected action {:?}", other),
    }
}

#[test]
fn role_and_port_are_handed_to_the_backend() {
    let login = OIDCLogin { port: Some(9999), role: Some("admin".to_string()) };
    let (_, action) = login.login("custom/mount", LoginStage::Start, LoginEvent::Begin);
    match action {
        LoginAction::RequestAuthUrl { mount, redirect_url, role } => {
            assert_eq!(mount, "custom/mount");
            assert_eq!(redirect_url, "http://localhost:9999/oidc/callback");
            assert_eq!(role, Some("admin".to_string()));
        }
        other => panic!("unexpected action {:?}", other),
    }
}

#[test]
fn auth_url_starts_the_listener() {
    let login = default_login();
    let (stage, action) = login.login(
        "oidc",
        LoginStage::AwaitingAuthUrl,
        LoginEvent::AuthUrl("https://idp.example/authorize?client_id=x".to_string()),
    );
    match stage {
        LoginStage::Binding { auth_url } => {
            assert_eq!(auth_url, "https://idp.example/authorize?client_id=x")
        }
        other => panic!("unexpected stage {:?}", other),
    }
    match action {
        LoginAction::StartListener { address, mut listener } => {
            assert_eq!(address, "127.0.0.1:8250");
            assert!(!listener.is_done());
            assert_eq!(listener.on_request("/oidc/callback?code=abc"), ListenerAction::RespondAndStop);
            assert_eq!(listener.finish().unwrap().code, "abc");
        }
        other => panic!("unexpected action {:?}", other),
    }
}

#[test]
fn failed_auth_url_request_aborts_without_a_listener() {
    let login = default_login();
    let (stage, action) =
        login.login("oidc", LoginStage::AwaitingAuthUrl, LoginEvent::AuthUrlFailed);
    assert!(matches!(stage, LoginStage::Failed(SetupError::AuthUrlRequest)));
    assert!(matches!(action, LoginAction::Abort(SetupError::AuthUrlRequest)));
}

#[test]
fn failed_login_stays_failed() {
    let login = default_login();
    let mut stage = LoginStage::Failed(SetupError::AuthUrlRequest);
    let events = vec![
        LoginEvent::AuthUrl("https://idp.example/authorize".to_string()),
        LoginEvent::ListenerStarted,
        LoginEvent::Begin,
        LoginEvent::BindFailed,
        LoginEvent::AuthUrlFailed,
    ];
    for event in events {
        let (next, action) = login.login("oidc", stage, event);
        assert!(matches!(action, LoginAction::Ignore));
        assert!(matches!(next, LoginStage::Failed(SetupError::AuthUrlRequest)));
        stage = next;
    }
}

#[test]
fn started_listener_returns_the_pending_handshake() {
    let login = default_login();
    let (stage, action) = login.login(
        "oidc",
        LoginStage::Binding { auth_url: "https://idp.example/authorize?x=1".to_string() },
        LoginEvent::ListenerStarted,
    );
    assert!(matches!(stage, LoginStage::Pending));
    match action {
        LoginAction::Return(pending) => assert_eq!(pending.url, "https://idp.example/authorize?x=1"),
        other => panic!("unexpected action {:?}", other),
    }
}

#[test]
fn failed_bind_aborts() {
    let login = default_login();
    let (stage, action) = login.login(
        "oidc",
        LoginStage::Binding { auth_url: "https://idp.example/authorize".to_string() },
        LoginEvent::BindFailed,
    );
    assert!(matches!(stage, LoginStage::Failed(SetupError::Bind)));
    assert!(matches!(action, LoginAction::Abort(SetupError::Bind)));
}

#[test]
fn events_out_of_turn_change_nothing() {
    let login = default_login();
    let (stage, action) = login.login("oidc", LoginStage::Start, LoginEvent::ListenerStarted);
    assert!(matches!(stage, LoginStage::Start));
    assert!(matches!(action, LoginAction::Ignore));

    let (stage, action) = login.login(
        "oidc",
        LoginStage::Start,
        LoginEvent::AuthUrl("https://idp.example/authorize".to_string()),
    );
    assert!(matches!(stage, LoginStage::Start));
    assert!(matches!(action, LoginAction::Ignore));

    let (stage, action) = login.login("oidc", LoginStage::AwaitingAuthUrl, LoginEvent::Begin);
    assert!(matches!(stage, LoginStage::AwaitingAuthUrl));
    assert!(matches!(action, LoginAction::Ignore));

    let (stage, action) = login.login(
        "oidc",
        LoginStage::Binding { auth_url: "https://idp.example/a".to_string() },
        LoginEvent::AuthUrlFailed,
    );
    match stage {
        LoginStage::Binding { auth_url } => assert_eq!(auth_url, "https://idp.example/a"),
        other => panic!("unexpected stage {:?}", other),
    }
    assert!(matches!(action, LoginAction::Ignore));

    let (stage, action) = login.login("oidc", LoginStage::Pending, LoginEvent::Begin);
    assert!(matches!(stage, LoginStage::Pending));
    assert!(matches!(action, LoginAction::Ignore));
}

#[test]
fn login_takes_three_steps_and_no_redirect() {
    let login = default_login();
    let mut actions = Vec::new();
    let mut stage = LoginStage::Start;
    let events = vec![
        LoginEvent::Begin,
        LoginEvent::AuthUrl("https://idp.example/authorize?state=s".to_string()),
        LoginEvent::ListenerStarted,
    ];
    for event in events {
        let (next, action) = login.login("oidc", stage, event);
        stage = next;
        actions.push(action);
    }
    assert!(matches!(stage, LoginStage::Pending));
    assert_eq!(actions.len(), 3);
    assert!(matches!(actions[0], LoginAction::RequestAuthUrl { .. }));
    assert!(matches!(actions[1], LoginAction::StartListener { .. }));
    match &actions[2] {
        LoginAction::Return(pending) => assert_eq!(pending.url, "https://idp.example/authorize?state=s"),
        other => panic!("unexpected action {:?}", other),
    }
}

#[test]
fn no_listener_is_started_when_the_backend_fails() {
    let login = default_login();
    let mut stage = LoginStage::Start;
    let events = vec![
        LoginEvent::Begin,
        LoginEvent::AuthUrlFailed,
        LoginEvent::AuthUrl("https://idp.example/authorize".to_string()),
        LoginEvent::ListenerStarted,
    ];
    let mut aborted = 0;
    for event in events {
        let (next, action) = login.login("oidc", stage, event);
        assert!(!matches!(action, LoginAction::StartListener { .. }));
        assert!(!matches!(action, LoginAction::Return(_)));
        if matches!(action, LoginAction::Abort(SetupError::AuthUrlRequest)) {
            aborted += 1;
        }
        stage = next;
    }
    assert_eq!(aborted, 1);
    assert!(matches!(stage, LoginStage::Failed(SetupError::AuthUrlRequest)));
}

fn event(which: usize) -> LoginEvent {
    match which {
        0 => LoginEvent::Begin,
        1 => LoginEvent::AuthUrl("https://idp.example/authorize".to_string()),
        2 => LoginEvent::AuthUrlFailed,
        3 => LoginEvent::ListenerStarted,
        _ => LoginEvent::BindFailed,
    }
}

#[test]
fn nothing_is_asked_for_twice() {
    let login = default_login();
    let length = 6;
    let mut run = 0usize;
    while run < 5usize.pow(length) {
        let mut stage = LoginStage::Start;
        let mut requests = 0;
        let mut listeners = 0;
        let mut returns = 0;
        let mut aborts = 0;
        let mut rest = run;
        for _ in 0..length {
            let (next, action) = login.login("oidc", stage, event(rest % 5));
            rest /= 5;
            stage = next;
            match action {
                LoginAction::RequestAuthUrl { .. } => requests += 1,
                LoginAction::StartListener { .. } => listeners += 1,
                LoginAction::Return(_) => returns += 1,
                LoginAction::Abort(_) => aborts += 1,
                LoginAction::Ignore => {}
            }
        }
        assert!(requests <= 1);
        assert!(listeners <= requests);
        assert!(returns <= listeners);
        assert!(aborts <= 1);
        assert!(returns + aborts <= 1);
        run += 1;
    }
}
