//! Credentials, the access token, and the decisions of its refresh.
//!
//! Logging in is an HTTP call, which this library does not make. It decides:
//! `login_request` says whether and where to post, `proxy_after_login` builds
//! the proxy from the reply, and `refresh_step` drives a refresh over the
//! candidate servers one event at a time.

use crate::error::{ErrorKind, NacosError, NacosResult};
use crate::text::{concat, debug_list, debug_string_list, is_blank, str_is_blank};
use vstd::prelude::*;

verus! {

pub const LOGIN_URL: &'static str = "/v1/auth/users/login";

pub const HTTP_PREFIX: &'static str = "http";

pub const HTTPS_PREFIX: &'static str = "https";

/// A user name and a password.
#[derive(Debug)]
pub struct Credentials {
    pub username: Option<String>,
    pub password: Option<String>,
}

impl Clone for Credentials {
    fn clone(&self) -> (c: Self)
        ensures
            c == *self,
    {
        let username = match &self.username {
            Some(s) => Some(s.clone()),
            None => None,
        };
        let password = match &self.password {
            Some(s) => Some(s.clone()),
            None => None,
        };
        Credentials { username, password }
    }
}

impl Credentials {
    /// Whether the credentials ask for authentication: there is a user name
    /// and it is not blank.
    pub open spec fn is_enabled(&self) -> bool {
        self.username matches Some(name) && !is_blank(name@)
    }

    /// Decides `is_enabled`.
    pub fn enabled(&self) -> (r: bool)
        ensures
            r == self.is_enabled(),
    {
        match &self.username {
            Some(name) => !str_is_blank(name.as_str()),
            None => false,
        }
    }
}

/// The token of a client and what is needed to renew it. The time to live,
/// the refresh window and the time of the last refresh are in one unit, the
/// one of the server's `tokenTtl`: seconds. `refresh_due` takes its `now` in
/// the same unit.
#[derive(Debug)]
pub struct SecurityProxy {
    /// Without credentials no authentication is needed.
    pub credentials: Option<Credentials>,
    pub access_token: String,
    pub context_path: String,
    pub token_ttl: i64,
    pub last_refresh_time: i64,
    pub token_refresh_window: i64,
}

impl Default for SecurityProxy {
    fn default() -> (p: Self)
        ensures
            p.credentials is None,
            p.access_token@ == Seq::<char>::empty(),
            p.context_path@ == Seq::<char>::empty(),
            p.token_ttl == 0,
            p.last_refresh_time == 0,
            p.token_refresh_window == 0,
    {
        SecurityProxy {
            credentials: None,
            access_token: String::new(),
            context_path: String::new(),
            token_ttl: 0,
            last_refresh_time: 0,
            token_refresh_window: 0,
        }
    }
}

impl SecurityProxy {
    /// Whether the token is due for a refresh at the time `now`.
    pub open spec fn refresh_due(&self, now: i64) -> bool {
        now - self.last_refresh_time >= self.token_ttl - self.token_refresh_window
    }

    /// Decides `refresh_due`.
    pub fn needs_refresh(&self, now: i64) -> (r: bool)
        ensures
            r == self.refresh_due(now),
    {
        (now as i128) - (self.last_refresh_time as i128) >= (self.token_ttl as i128) - (
        self.token_refresh_window as i128)
    }

    /// The token with which outbound calls are stamped.
    pub fn access_token(&self) -> (t: &String)
        ensures
            t == self.access_token,
    {
        &self.access_token
    }
}

/// What the login endpoint answers.
#[derive(Debug)]
pub struct LoginResponse {
    pub token_ttl: i64,
    pub global_admin: bool,
    pub access_token: String,
}

/// A login to carry out: a form POST of the user name and the password to `url`.
#[derive(Debug)]
pub struct LoginRequest {
    pub url: String,
    pub username: String,
    pub password: String,
}

/// The address of the login endpoint of a server.
pub open spec fn login_url(server_url: Seq<char>, context_path: Seq<char>) -> Seq<char> {
    "http"@ + "://"@ + server_url + context_path + "/v1/auth/users/login"@
}

/// The login that the credentials ask for at a server; none where they are
/// not enabled, in which case the client goes on with `SecurityProxy::default()`.
/// Credentials without a password log in with the empty password.
pub fn login_request(credentials: &Credentials, server_url: &str, context_path: &str) -> (r:
    Option<LoginRequest>)
    ensures
        r is Some <==> credentials.is_enabled(),
        r matches Some(req) ==> req.url@ == login_url(server_url@, context_path@)
            && credentials.username == Some(req.username) && req.password@ == (
        match credentials.password {
            Some(p) => p@,
            None => Seq::<char>::empty(),
        }),
{
    if !credentials.enabled() {
        return None;
    }
    let url = concat(
        concat(concat(concat(HTTP_PREFIX.to_owned(), "://"), server_url), context_path),
        LOGIN_URL,
    );
    let username = match &credentials.username {
        Some(s) => s.clone(),
        None => String::new(),
    };
    let password = match &credentials.password {
        Some(s) => s.clone(),
        None => String::new(),
    };
    Some(LoginRequest { url, username, password })
}

/// A tenth of a time to live, rounded towards zero.
pub open spec fn tenth(ttl: int) -> int {
    if ttl >= 0 {
        ttl / 10
    } else {
        -((-ttl) / 10)
    }
}

/// The proxy of a client that has just logged in at the time `now`: it holds
/// the token of the reply, and its refresh window is a tenth of the token's
/// time to live.
pub fn proxy_after_login(
    credentials: Credentials,
    context_path: &str,
    response: LoginResponse,
    now: i64,
) -> (p: SecurityProxy)
    ensures
        p.credentials == Some(credentials),
        p.access_token == response.access_token,
        p.context_path@ == context_path@,
        p.token_ttl == response.token_ttl,
        p.last_refresh_time == now,
        p.token_refresh_window == tenth(response.token_ttl as int),
{
    let token_ttl = response.token_ttl;
    let token_refresh_window = token_ttl / 10;
    SecurityProxy {
        credentials: Some(credentials),
        access_token: response.access_token,
        context_path: context_path.to_owned(),
        token_ttl,
        last_refresh_time: now,
        token_refresh_window,
    }
}

/// Where a refresh stands.
#[derive(Debug)]
pub enum RefreshState {
    /// Not begun.
    Idle,
    /// The login at server `next` was asked for and its outcome is awaited.
    /// The credentials and the context path are those that the proxy held
    /// when the refresh began.
    Trying { next: usize, credentials: Credentials, context_path: String },
    /// Ended well: no refresh was due, or a login succeeded.
    Done,
    /// Ended badly.
    Failed,
}

/// What happened since the last step.
#[derive(Debug)]
pub enum RefreshEvent {
    /// The refresh is asked for at the time `now`.
    Start { now: i64 },
    /// The login that was asked for gave this proxy.
    LoginSucceeded(SecurityProxy),
    /// The login that was asked for failed.
    LoginFailed,
}

/// What the caller is to do next.
#[derive(Debug)]
pub enum RefreshAction {
    /// Log in at server `server` of the list and report the outcome.
    Login { server: usize, credentials: Credentials, context_path: String },
    /// The refresh has ended with this result.
    Finish(NacosResult<()>),
    /// The event does not belong to the state; nothing has changed.
    Ignored,
}

/// A `RefreshAction` without its payload.
pub enum ActionView {
    Login { server: int },
    Succeed,
    Fail(ErrorKind),
    Ignored,
}

impl View for RefreshAction {
    type V = ActionView;

    open spec fn view(&self) -> ActionView {
        match self {
            RefreshAction::Login { server, .. } => ActionView::Login { server: *server as int },
            RefreshAction::Finish(Ok(_)) => ActionView::Succeed,
            RefreshAction::Finish(Err(e)) => ActionView::Fail(e.kind),
            RefreshAction::Ignored => ActionView::Ignored,
        }
    }
}

/// One step of a refresh over `n` candidate servers: the proxy, the state
/// and the action that follow from a proxy, a state and an event.
///
/// Before the refresh is due nothing changes and the refresh is done. A due
/// refresh needs credentials and tries the servers in order; the first
/// successful login replaces the proxy and ends the refresh; when the last
/// server has failed, the refresh has failed.
pub open spec fn step_spec(
    proxy: SecurityProxy,
    state: RefreshState,
    event: RefreshEvent,
    n: nat,
) -> (SecurityProxy, RefreshState, ActionView) {
    match (state, event) {
        (RefreshState::Idle, RefreshEvent::Start { now }) => {
            if !proxy.refresh_due(now) {
                (proxy, RefreshState::Done, ActionView::Succeed)
            } else {
                match proxy.credentials {
                    None => (proxy, RefreshState::Failed, ActionView::Fail(ErrorKind::Auth)),
                    Some(credentials) => if n == 0 {
                        (proxy, RefreshState::Failed, ActionView::Fail(ErrorKind::Auth))
                    } else {
                        (
                            proxy,
                            RefreshState::Trying {
                                next: 0,
                                credentials,
                                context_path: proxy.context_path,
                            },
                            ActionView::Login { server: 0 },
                        )
                    },
                }
            }
        },
        (
            RefreshState::Trying { next, credentials, context_path },
            RefreshEvent::LoginSucceeded(fresh),
        ) => (fresh, RefreshState::Done, ActionView::Succeed),
        (RefreshState::Trying { next, credentials, context_path }, RefreshEvent::LoginFailed) => {
            if next + 1 < n {
                (
                    proxy,
                    RefreshState::Trying { next: (next + 1) as usize, credentials, context_path },
                    ActionView::Login { server: next + 1 },
                )
            } else {
                (proxy, RefreshState::Failed, ActionView::Fail(ErrorKind::Auth))
            }
        },
        _ => (proxy, state, ActionView::Ignored),
    }
}

/// The message of a refresh that no server let succeed; `list` is the list
/// of the servers as text.
pub open spec fn exhausted_text(list: Seq<char>) -> Seq<char> {
    "none server login success, server list: "@ + list
}

/// The message of a refresh that no server let succeed: it names the servers
/// as `{:?}` writes them.
pub open spec fn exhausted_message(servers: Seq<Seq<char>>) -> Seq<char> {
    exhausted_text(debug_list(servers))
}

/// The error of a refresh that no server let succeed, from the list of the
/// servers as text.
pub fn exhausted_error(list: &str) -> (e: NacosError)
    ensures
        e.kind == ErrorKind::Auth,
        e.message@ == exhausted_text(list@),
{
    let text = concat("none server login success, server list: ".to_owned(), list);
    NacosError { kind: ErrorKind::Auth, message: text }
}

fn exhausted(server_urls: &Vec<String>) -> (e: NacosError)
    ensures
        e.kind == ErrorKind::Auth,
        e.message@ == exhausted_message(server_urls.deep_view()),
{
    let list = debug_string_list(server_urls);
    exhausted_error(list.as_str())
}

/// Takes one step of a refresh: what `step_spec` says, on the proxy in place.
///
/// A `Login` action carries the credentials and the context path of the
/// state that is returned with it. A failure for want of credentials says
/// so; a failure after the last server names the list of servers.
pub fn refresh_step(
    proxy: &mut SecurityProxy,
    state: RefreshState,
    event: RefreshEvent,
    server_urls: &Vec<String>,
) -> (r: (RefreshState, RefreshAction))
    ensures
        (*final(proxy), r.0, r.1@) == step_spec(*old(proxy), state, event, server_urls@.len()),
        r.1 matches RefreshAction::Login { server, credentials, context_path } ==> server
            < server_urls@.len() && r.0 == (RefreshState::Trying {
            next: server,
            credentials,
            context_path,
        }),
        r.1 matches RefreshAction::Finish(Err(e)) ==> e.message@ == (if state is Idle
            && old(proxy).credentials is None {
            "no credentials specified."@
        } else {
            exhausted_message(server_urls.deep_view())
        }),
{
    match state {
        RefreshState::Idle => match event {
            RefreshEvent::Start { now } => {
                if !proxy.needs_refresh(now) {
                    return (RefreshState::Done, RefreshAction::Finish(Ok(())));
                }
                let credentials = match &proxy.credentials {
                    Some(c) => c.clone(),
                    None => {
                        let e = NacosError::msg(ErrorKind::Auth, "no credentials specified.");
                        return (RefreshState::Failed, RefreshAction::Finish(Err(e)));
                    },
                };
                if server_urls.len() == 0 {
                    return (
                        RefreshState::Failed,
                        RefreshAction::Finish(Err(exhausted(server_urls))),
                    );
                }
                let context_path = proxy.context_path.clone();
                (
                    RefreshState::Trying {
                        next: 0,
                        credentials: credentials.clone(),
                        context_path: context_path.clone(),
                    },
                    RefreshAction::Login { server: 0, credentials, context_path },
                )
            },
            other => (RefreshState::Idle, RefreshAction::Ignored),
        },
        RefreshState::Trying { next, credentials, context_path } => match event {
            RefreshEvent::LoginSucceeded(fresh) => {
                *proxy = fresh;
                (RefreshState::Done, RefreshAction::Finish(Ok(())))
            },
            RefreshEvent::LoginFailed => {
                if next < server_urls.len() && next + 1 < server_urls.len() {
                    (
                        RefreshState::Trying {
                            next: next + 1,
                            credentials: credentials.clone(),
                            context_path: context_path.clone(),
                        },
                        RefreshAction::Login { server: next + 1, credentials, context_path },
                    )
                } else {
                    (RefreshState::Failed, RefreshAction::Finish(Err(exhausted(server_urls))))
                }
            },
            other => (
                RefreshState::Trying { next, credentials, context_path },
                RefreshAction::Ignored,
            ),
        },
        RefreshState::Done => (RefreshState::Done, RefreshAction::Ignored),
        RefreshState::Failed => (RefreshState::Failed, RefreshAction::Ignored),
    }
}

/// What a whole refresh comes to.
pub struct Run {
    /// The proxy at the end.
    pub proxy: SecurityProxy,
    /// The servers at which a login was made, in the order of the logins.
    pub attempts: Seq<int>,
    /// How the refresh ended; `None` where it has not ended.
    pub outcome: Option<ActionView>,
}

/// The event that reports the login at a server whose login gives `result`:
/// a proxy, or nothing where the login fails.
pub open spec fn login_event(result: Option<SecurityProxy>) -> RefreshEvent {
    match result {
        Some(fresh) => RefreshEvent::LoginSucceeded(fresh),
        None => RefreshEvent::LoginFailed,
    }
}

/// The steps left to the end of a refresh.
pub open spec fn steps_left(action: ActionView, n: nat) -> nat {
    match action {
        ActionView::Login { server } => if 0 <= server < n {
            (n - server) as nat
        } else {
            0
        },
        _ => 0,
    }
}

/// Carries out `action` and every action that follows from it, where the
/// login at server `i` gives `results[i]`.
pub open spec fn drive(
    proxy: SecurityProxy,
    state: RefreshState,
    action: ActionView,
    n: nat,
    results: Seq<Option<SecurityProxy>>,
) -> Run
    decreases steps_left(action, n),
{
    match action {
        ActionView::Login { server } => {
            if 0 <= server < n && (state matches RefreshState::Trying { next, .. } && next
                == server) {
                let after = step_spec(proxy, state, login_event(results[server]), n);
                let rest = drive(after.0, after.1, after.2, n, results);
                Run {
                    proxy: rest.proxy,
                    attempts: seq![server] + rest.attempts,
                    outcome: rest.outcome,
                }
            } else {
                Run { proxy, attempts: Seq::empty(), outcome: None }
            }
        },
        ActionView::Ignored => Run { proxy, attempts: Seq::empty(), outcome: None },
        ended => Run { proxy, attempts: Seq::empty(), outcome: Some(ended) },
    }
}

/// A whole refresh at the time `now` over `n` servers, where the login at
/// server `i` gives `results[i]`.
pub open spec fn refresh_run(
    proxy: SecurityProxy,
    now: i64,
    n: nat,
    results: Seq<Option<SecurityProxy>>,
) -> Run {
    let first = step_spec(proxy, RefreshState::Idle, RefreshEvent::Start { now }, n);
    drive(first.0, first.1, first.2, n, results)
}

/// The first server at or after `from` whose login succeeds, or the number
/// of servers where there is none.
pub open spec fn first_success(results: Seq<Option<SecurityProxy>>, from: int) -> int
    decreases results.len() - from,
{
    if from < 0 || from >= results.len() {
        results.len() as int
    } else if results[from] is Some {
        from
    } else {
        first_success(results, from + 1)
    }
}

/// The numbers from `from` up to, and without, `to`.
pub open spec fn count_up(from: int, to: int) -> Seq<int> {
    Seq::new((to - from) as nat, |i: int| from + i)
}

proof fn lemma_drive(
    proxy: SecurityProxy,
    credentials: Credentials,
    context_path: String,
    n: nat,
    results: Seq<Option<SecurityProxy>>,
    i: int,
)
    requires
        0 <= i < n,
        n == results.len(),
        n <= usize::MAX,
    ensures
        ({
            let state = RefreshState::Trying { next: i as usize, credentials, context_path };
            let run = drive(proxy, state, ActionView::Login { server: i }, n, results);
            let k = first_success(results, i);
            &&& i <= k <= n
            &&& forall|j: int| i <= j < k ==> results[j] is None
            &&& k < n ==> results[k] is Some && run.attempts == count_up(i, k + 1) && run.proxy
                == results[k].unwrap() && run.outcome == Some(ActionView::Succeed)
            &&& k == n ==> run.attempts == count_up(i, n as int) && run.proxy == proxy
                && run.outcome == Some(ActionView::Fail(ErrorKind::Auth))
        }),
    decreases n - i,
{
    let state = RefreshState::Trying { next: i as usize, credentials, context_path };
    let after = step_spec(proxy, state, login_event(results[i]), n);
    let rest = drive(after.0, after.1, after.2, n, results);
    let run = drive(proxy, state, ActionView::Login { server: i }, n, results);
    assert(run.attempts == seq![i] + rest.attempts);
    match results[i] {
        Some(fresh) => {
            assert(rest.attempts == Seq::<int>::empty());
            assert(seq![i] + Seq::<int>::empty() =~= count_up(i, i + 1));
        },
        None => {
            if i + 1 < n {
                lemma_drive(proxy, credentials, context_path, n, results, i + 1);
                let k = first_success(results, i + 1);
                if k < n {
                    assert(seq![i] + count_up(i + 1, k + 1) =~= count_up(i, k + 1));
                } else {
                    assert(seq![i] + count_up(i + 1, n as int) =~= count_up(i, n as int));
                }
            } else {
                assert(rest.attempts == Seq::<int>::empty());
                assert(seq![i] + Seq::<int>::empty() =~= count_up(i, n as int));
            }
        },
    }
}

/// Before the refresh is due, a refresh makes no login and leaves the proxy
/// as it is.
pub proof fn law_no_login_before_due(
    proxy: SecurityProxy,
    now: i64,
    n: nat,
    results: Seq<Option<SecurityProxy>>,
)
    requires
        !proxy.refresh_due(now),
    ensures
        refresh_run(proxy, now, n, results).attempts == Seq::<int>::empty(),
        refresh_run(proxy, now, n, results).proxy == proxy,
        refresh_run(proxy, now, n, results).outcome == Some(ActionView::Succeed),
{
}

/// A due refresh logs in at the servers in their order, at each of them at
/// most once, and stops at the first login that succeeds. The proxy is then
/// the one that this login gave. Where no login succeeds every server was
/// tried, the refresh fails, and the proxy is as it was.
pub proof fn law_due_refresh_stops_at_first_success(
    proxy: SecurityProxy,
    now: i64,
    results: Seq<Option<SecurityProxy>>,
)
    requires
        proxy.refresh_due(now),
        proxy.credentials is Some,
        results.len() <= usize::MAX,
    ensures
        ({
            let n = results.len();
            let run = refresh_run(proxy, now, n, results);
            let k = first_success(results, 0);
            &&& 0 <= k <= n
            &&& run.attempts.len() <= n
            &&& run.attempts.no_duplicates()
            &&& forall|j: int| 0 <= j < k ==> results[j] is None
            &&& k < n ==> results[k] is Some && run.attempts == count_up(0, k + 1) && run.proxy
                == results[k].unwrap() && run.outcome == Some(ActionView::Succeed)
            &&& k == n ==> run.attempts == count_up(0, n as int) && run.proxy == proxy
                && run.outcome == Some(ActionView::Fail(ErrorKind::Auth))
        }),
{
    let n = results.len();
    if n > 0 {
        lemma_drive(proxy, proxy.credentials.unwrap(), proxy.context_path, n, results, 0);
    } else {
        assert(count_up(0, 0) =~= Seq::<int>::empty());
    }
}

/// Without credentials a due refresh fails at once and makes no login.
pub proof fn law_due_refresh_needs_credentials(
    proxy: SecurityProxy,
    now: i64,
    n: nat,
    results: Seq<Option<SecurityProxy>>,
)
    requires
        proxy.refresh_due(now),
        proxy.credentials is None,
    ensures
        refresh_run(proxy, now, n, results).attempts == Seq::<int>::empty(),
        refresh_run(proxy, now, n, results).proxy == proxy,
        refresh_run(proxy, now, n, results).outcome == Some(ActionView::Fail(ErrorKind::Auth)),
{
}

} // verus!
