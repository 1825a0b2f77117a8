use nacos_client::error::ErrorKind;
use nacos_client::security::{
    exhausted_error, login_request, proxy_after_login, refresh_step, Credentials, LoginResponse, RefreshAction,
    RefreshEvent, RefreshState, SecurityProxy,
};

fn credentials() -> Credentials {
    Credentials { username: Some("nacos".to_string()), password: Some("secret".to_string()) }
}

fn proxy(ttl: i64, last: i64, window: i64) -> SecurityProxy {
    SecurityProxy {
        credentials: Some(credentials()),
        access_token: "old".to_string(),
        context_path: "/nacos".to_string(),
        token_ttl: ttl,
        last_refresh_time: last,
        token_refresh_window: window,
    }
}

fn fresh(now: i64) -> SecurityProxy {
    proxy_after_login(
        credentials(),
        "/nacos",
        LoginResponse { token_ttl: 18000, global_admin: false, access_token: "new".to_string() },
        now,
    )
}

fn servers() -> Vec<String> {
    vec!["a:8848".to_string(), "b:8848".to_string(), "c:8848".to_string()]
}

#[test]
fn credentials_are_enabled_by_a_user_name_that_is_not_blank() {
    assert!(credentials().enabled());
    assert!(!Credentials { username: None, password: Some("p".to_string()) }.enabled());
    assert!(!Credentials { username: Some("  ".to_string()), password: None }.enabled());
    assert!(!Credentials { username: Some("".to_string()), password: None }.enabled());
    assert!(Credentials { username: Some(" x ".to_string()), password: None }.enabled());
}

#[test]
fn default_proxy_has_no_token() {
    let p = SecurityProxy::default();
    assert!(p.credentials.is_none());
    assert_eq!(p.access_token, "");
    assert_eq!(p.token_ttl, 0);
    assert_eq!(p.last_refresh_time, 0);
    assert_eq!(p.token_refresh_window, 0);
}

#[test]
fn login_request_goes_to_the_login_path_of_the_server() {
    let req = login_request(&credentials(), "127.0.0.1:8848", "/nacos").unwrap();
    assert_eq!(req.url, "http://127.0.0.1:8848/nacos/v1/auth/users/login");
    assert_eq!(req.username, "nacos");
    assert_eq!(req.password, "secret");
}

#[test]
fn no_login_request_without_enabled_credentials() {
    let disabled = Credentials { username: None, password: None };
    assert!(login_request(&disabled, "127.0.0.1:8848", "/nacos").is_none());
}

#[test]
fn login_request_without_password_posts_the_empty_password() {
    let c = Credentials { username: Some("nacos".to_string()), password: None };
    assert_eq!(login_request(&c, "h", "").unwrap().password, "");
}

#[test]
fn refresh_window_is_a_tenth_of_the_time_to_live() {
    let p = fresh(1000);
    assert_eq!(p.access_token, "new");
    assert_eq!(p.context_path, "/nacos");
    assert_eq!(p.token_ttl, 18000);
    assert_eq!(p.token_refresh_window, 1800);
    assert_eq!(p.last_refresh_time, 1000);
    assert!(p.credentials.is_some());
    let odd = proxy_after_login(
        credentials(),
        "",
        LoginResponse { token_ttl: 19, global_admin: true, access_token: "t".to_string() },
        5,
    );
    assert_eq!(odd.token_refresh_window, 1);
    let negative = proxy_after_login(
        credentials(),
        "",
        LoginResponse { token_ttl: -19, global_admin: false, access_token: "t".to_string() },
        5,
    );
    assert_eq!(negative.token_refresh_window, -1);
    assert_eq!(negative.token_ttl, -19);
}

#[test]
fn refresh_is_due_when_the_window_has_begun() {
    let p = proxy(1000, 5000, 100);
    assert!(!p.needs_refresh(5000));
    assert!(!p.needs_refresh(5899));
    assert!(p.needs_refresh(5900));
    assert!(p.needs_refresh(7000));
    let extreme = proxy(i64::MAX, i64::MIN, i64::MIN);
    assert!(extreme.needs_refresh(i64::MAX));
    let extreme = proxy(i64::MAX, i64::MAX, i64::MIN);
    assert!(!extreme.needs_refresh(i64::MIN));
}

#[test]
fn refresh_before_it_is_due_asks_for_no_login() {
    let mut p = proxy(1000, 5000, 100);
    let (state, action) =
        refresh_step(&mut p, RefreshState::Idle, RefreshEvent::Start { now: 5100 }, &servers());
    assert!(matches!(state, RefreshState::Done));
    assert!(matches!(action, RefreshAction::Finish(Ok(()))));
    assert_eq!(p.access_token, "old");
    assert_eq!(p.last_refresh_time, 5000);
}

#[test]
fn due_refresh_stops_at_the_first_login_that_succeeds() {
    let mut p = proxy(1000, 5000, 100);
    let list = servers();
    let (state, action) =
        refresh_step(&mut p, RefreshState::Idle, RefreshEvent::Start { now: 9000 }, &list);
    match &action {
        RefreshAction::Login { server, credentials, context_path } => {
            assert_eq!(*server, 0);
            assert_eq!(credentials.username, Some("nacos".to_string()));
            assert_eq!(context_path, "/nacos");
        }
        _ => panic!("a due refresh logs in"),
    }
    let (state, action) = refresh_step(&mut p, state, RefreshEvent::LoginFailed, &list);
    assert!(matches!(action, RefreshAction::Login { server: 1, .. }));
    assert_eq!(p.last_refresh_time, 5000);
    let (state, action) =
        refresh_step(&mut p, state, RefreshEvent::LoginSucceeded(fresh(9001)), &list);
    assert!(matches!(state, RefreshState::Done));
    assert!(matches!(action, RefreshAction::Finish(Ok(()))));
    assert_eq!(p.access_token, "new");
    assert_eq!(p.last_refresh_time, 9001);
    let (state, action) = refresh_step(&mut p, state, RefreshEvent::LoginFailed, &list);
    assert!(matches!(state, RefreshState::Done));
    assert!(matches!(action, RefreshAction::Ignored));
}

#[test]
fn refresh_fails_when_every_server_has_failed() {
    let mut p = proxy(1000, 5000, 100);
    let list = servers();
    let (mut state, mut action) =
        refresh_step(&mut p, RefreshState::Idle, RefreshEvent::Start { now: 9000 }, &list);
    let mut logins = 0;
    while let RefreshAction::Login { server, .. } = &action {
        assert_eq!(*server, logins);
        logins += 1;
        let next = refresh_step(&mut p, state, RefreshEvent::LoginFailed, &list);
        state = next.0;
        action = next.1;
    }
    assert_eq!(logins, 3);
    assert!(matches!(state, RefreshState::Failed));
    match action {
        RefreshAction::Finish(Err(e)) => {
            assert_eq!(e.kind, ErrorKind::Auth);
            assert_eq!(
                e.message,
                "none server login success, server list: [\"a:8848\", \"b:8848\", \"c:8848\"]"
            );
        }
        _ => panic!("the refresh fails"),
    }
    assert_eq!(p.access_token, "old");
    assert_eq!(p.last_refresh_time, 5000);
}

#[test]
fn due_refresh_without_credentials_fails_at_once() {
    let mut p = SecurityProxy::default();
    let (state, action) =
        refresh_step(&mut p, RefreshState::Idle, RefreshEvent::Start { now: 1 }, &servers());
    assert!(matches!(state, RefreshState::Failed));
    match action {
        RefreshAction::Finish(Err(e)) => {
            assert_eq!(e.kind, ErrorKind::Auth);
            assert_eq!(e.message, "no credentials specified.");
        }
        _ => panic!("the refresh fails"),
    }
}

#[test]
fn due_refresh_without_servers_fails_at_once() {
    let mut p = proxy(1000, 5000, 100);
    let (state, action) =
        refresh_step(&mut p, RefreshState::Idle, RefreshEvent::Start { now: 9000 }, &Vec::new());
    assert!(matches!(state, RefreshState::Failed));
    match action {
        RefreshAction::Finish(Err(e)) => {
            assert_eq!(e.message, "none server login success, server list: []");
        }
        _ => panic!("the refresh fails"),
    }
}

#[test]
fn exhausted_error_names_the_list() {
    let e = exhausted_error("[\"a\"]");
    assert_eq!(e.kind, ErrorKind::Auth);
    assert_eq!(e.message, "none server login success, server list: [\"a\"]");
}
