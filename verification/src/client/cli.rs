//! Settings of the transport, server addresses, and the dispatch of what
//! the server pushes.

use crate::client::conn::ServerInfo;
use crate::grpc::util::Payload;
use crate::number::{parse_u64, parse_unsigned, parse_unsigned_chars, parse_usize};
use crate::text::{from_chars, split, split_chars, sub_vec, to_chars};
use vstd::prelude::*;

verus! {

pub const CONNECTED: isize = 1;

pub const DISCONNECTED: isize = 0;

pub const DEFAULT_KEEP_ALIVE_TIME_MILLS: u64 = 360000;

pub const DEFAULT_TIMEOUT_MILLS: u64 = 5000;

pub const DEFAULT_CONNECT_TIMEOUT_MILLS: u64 = 5000;

pub const DEFAULT_CONCURRENCY_LIMIT: usize = 1024;

/// A setting read as a number no greater than `max`: its value where it is
/// set and reads as such a number, else the default.
pub open spec fn setting(raw: Option<Seq<char>>, max: nat, default: nat) -> nat {
    match raw {
        Some(text) => match parse_unsigned(text, max) {
            Some(n) => n,
            None => default,
        },
        None => default,
    }
}

/// The keep-alive time of the channel in milliseconds, from the setting
/// `nacos.remote.grpc.keep.alive.millis`.
pub fn keep_alive_time_mills(raw: Option<&str>) -> (mills: u64)
    ensures
        mills == setting(
            match raw {
                Some(s) => Some(s@),
                None => None,
            },
            u64::MAX as nat,
            DEFAULT_KEEP_ALIVE_TIME_MILLS as nat,
        ),
{
    match raw {
        Some(s) => match parse_u64(s) {
            Some(mills) => mills,
            None => DEFAULT_KEEP_ALIVE_TIME_MILLS,
        },
        None => DEFAULT_KEEP_ALIVE_TIME_MILLS,
    }
}

/// The timeout of a call in milliseconds, from the setting
/// `nacos.remote.grpc.timeout.millis`.
pub fn timeout_mills(raw: Option<&str>) -> (mills: u64)
    ensures
        mills == setting(
            match raw {
                Some(s) => Some(s@),
                None => None,
            },
            u64::MAX as nat,
            DEFAULT_TIMEOUT_MILLS as nat,
        ),
{
    match raw {
        Some(s) => match parse_u64(s) {
            Some(mills) => mills,
            None => DEFAULT_TIMEOUT_MILLS,
        },
        None => DEFAULT_TIMEOUT_MILLS,
    }
}

/// The timeout of connecting in milliseconds, from the setting
/// `nacos.remote.grpc.connect.timeout.millis`.
pub fn connect_timeout_mills(raw: Option<&str>) -> (mills: u64)
    ensures
        mills == setting(
            match raw {
                Some(s) => Some(s@),
                None => None,
            },
            u64::MAX as nat,
            DEFAULT_CONNECT_TIMEOUT_MILLS as nat,
        ),
{
    match raw {
        Some(s) => match parse_u64(s) {
            Some(mills) => mills,
            None => DEFAULT_CONNECT_TIMEOUT_MILLS,
        },
        None => DEFAULT_CONNECT_TIMEOUT_MILLS,
    }
}

/// The greatest number of calls in flight, from the setting
/// `nacos.remote.grpc.concurrency.limit`.
pub fn concurrency_limit(raw: Option<&str>) -> (limit: usize)
    ensures
        limit == setting(
            match raw {
                Some(s) => Some(s@),
                None => None,
            },
            usize::MAX as nat,
            DEFAULT_CONCURRENCY_LIMIT as nat,
        ),
{
    match raw {
        Some(s) => match parse_usize(s) {
            Some(limit) => limit,
            None => DEFAULT_CONCURRENCY_LIMIT,
        },
        None => DEFAULT_CONCURRENCY_LIMIT,
    }
}

/// The settings of the channel as the environment has them, unread.
#[derive(Debug)]
pub struct RawChannelSettings {
    /// `nacos.remote.grpc.keep.alive.millis`
    pub keep_alive_millis: Option<String>,
    /// `nacos.remote.grpc.timeout.millis`
    pub timeout_millis: Option<String>,
    /// `nacos.remote.grpc.connect.timeout.millis`
    pub connect_timeout_millis: Option<String>,
    /// `nacos.remote.grpc.concurrency.limit`
    pub concurrency_limit: Option<String>,
}

/// The settings with which a channel is opened. Times are in milliseconds.
#[derive(Clone, Copy, Debug, PartialEq, Eq, Structural)]
pub struct ChannelSettings {
    pub keep_alive_mills: u64,
    pub timeout_mills: u64,
    pub connect_timeout_mills: u64,
    pub concurrency_limit: usize,
}

/// The text of a setting, where it is set.
pub open spec fn raw_text(raw: Option<String>) -> Option<Seq<char>> {
    match raw {
        Some(s) => Some(s@),
        None => None,
    }
}

/// The settings that the raw settings come to: each one its value where it
/// is set and reads as a number, else its default.
pub open spec fn channel_settings_of(raw: RawChannelSettings) -> ChannelSettings {
    ChannelSettings {
        keep_alive_mills: setting(
            raw_text(raw.keep_alive_millis),
            u64::MAX as nat,
            DEFAULT_KEEP_ALIVE_TIME_MILLS as nat,
        ) as u64,
        timeout_mills: setting(
            raw_text(raw.timeout_millis),
            u64::MAX as nat,
            DEFAULT_TIMEOUT_MILLS as nat,
        ) as u64,
        connect_timeout_mills: setting(
            raw_text(raw.connect_timeout_millis),
            u64::MAX as nat,
            DEFAULT_CONNECT_TIMEOUT_MILLS as nat,
        ) as u64,
        concurrency_limit: setting(
            raw_text(raw.concurrency_limit),
            usize::MAX as nat,
            DEFAULT_CONCURRENCY_LIMIT as nat,
        ) as usize,
    }
}

fn as_text(raw: &Option<String>) -> (r: Option<&str>)
    ensures
        match r {
            Some(s) => raw_text(*raw) == Some(s@),
            None => raw_text(*raw) is None,
        },
{
    match raw {
        Some(s) => Some(s.as_str()),
        None => None,
    }
}

/// Reads the settings of the channel.
pub fn channel_settings(raw: &RawChannelSettings) -> (settings: ChannelSettings)
    ensures
        settings == channel_settings_of(*raw),
{
    ChannelSettings {
        keep_alive_mills: keep_alive_time_mills(as_text(&raw.keep_alive_millis)),
        timeout_mills: timeout_mills(as_text(&raw.timeout_millis)),
        connect_timeout_mills: connect_timeout_mills(as_text(&raw.connect_timeout_millis)),
        concurrency_limit: concurrency_limit(as_text(&raw.concurrency_limit)),
    }
}

/// That the client has connected to a server, or lost it.
#[derive(Clone, Copy, Debug, PartialEq, Eq, Structural)]
pub struct ConnectionEvent {
    event_type: isize,
}

impl ConnectionEvent {
    /// The kind of the event.
    pub closed spec fn kind(&self) -> isize {
        self.event_type
    }

    pub fn new(event_type: isize) -> (e: Self)
        ensures
            e.kind() == event_type,
    {
        ConnectionEvent { event_type }
    }

    pub fn is_connected(&self) -> (r: bool)
        ensures
            r == (self.kind() == CONNECTED),
    {
        self.event_type == CONNECTED
    }

    pub fn is_disconnected(&self) -> (r: bool)
        ensures
            r == (self.kind() == DISCONNECTED),
    {
        self.event_type == DISCONNECTED
    }
}

/// Where to reconnect to, and why.
#[derive(Debug)]
pub struct ReconnectContext {
    pub server_info: ServerInfo,
    pub on_request_fail: bool,
}

/// Whether `pat` stands in `s` at position `i`.
pub open spec fn occurs_at(s: Seq<char>, pat: Seq<char>, i: int) -> bool {
    0 <= i && i + pat.len() <= s.len() && s.subrange(i, i + pat.len()) == pat
}

/// Whether `pat` stands somewhere in `s`.
pub open spec fn contains_text(s: Seq<char>, pat: Seq<char>) -> bool {
    exists|i: int| occurs_at(s, pat, i)
}

fn matches_at(v: &Vec<char>, pat: &Vec<char>, i: usize) -> (r: bool)
    requires
        i + pat.len() <= v.len(),
    ensures
        r == occurs_at(v@, pat@, i as int),
{
    let mut k: usize = 0;
    while k < pat.len()
        invariant
            k <= pat.len(),
            i + pat.len() <= v.len(),
            v@.subrange(i as int, i + k) == pat@.take(k as int),
        decreases pat.len() - k,
    {
        if v[i + k] != pat[k] {
            proof {
                let whole = v@.subrange(i as int, i + pat.len());
                assert(whole[k as int] == v@[i + k]);
            }
            return false;
        }
        proof {
            assert(v@.subrange(i as int, i + k + 1) =~= v@.subrange(i as int, i + k).push(
                v@[i + k],
            ));
            assert(pat@.take(k as int + 1) =~= pat@.take(k as int).push(pat@[k as int]));
        }
        k = k + 1;
    }
    proof {
        assert(pat@.take(pat.len() as int) =~= pat@);
    }
    true
}

/// Decides `contains_text`.
pub fn chars_contain(v: &Vec<char>, pat: &Vec<char>) -> (r: bool)
    ensures
        r == contains_text(v@, pat@),
{
    if pat.len() > v.len() {
        return false;
    }
    let last: usize = v.len() - pat.len();
    let mut i: usize = 0;
    while i < last
        invariant
            i <= last,
            last == v.len() - pat.len(),
            forall|j: int| 0 <= j < i ==> !occurs_at(v@, pat@, j),
        decreases last - i,
    {
        if matches_at(v, pat, i) {
            return true;
        }
        i = i + 1;
    }
    matches_at(v, pat, last)
}

/// `s` without its occurrences of `//`, taken from the left.
pub open spec fn without_double_slash(s: Seq<char>) -> Seq<char>
    decreases s.len(),
{
    if s.len() < 2 {
        s
    } else if s[0] == '/' && s[1] == '/' {
        without_double_slash(s.skip(2))
    } else {
        seq![s[0]] + without_double_slash(s.skip(1))
    }
}

fn strip_double_slash(v: &Vec<char>) -> (out: Vec<char>)
    ensures
        out@ == without_double_slash(v@),
{
    let mut out: Vec<char> = Vec::new();
    let mut i: usize = 0;
    proof {
        assert(v@.skip(0) =~= v@);
        assert(Seq::<char>::empty() + without_double_slash(v@) =~= without_double_slash(v@));
    }
    while i < v.len()
        invariant
            i <= v.len(),
            without_double_slash(v@) == out@ + without_double_slash(v@.skip(i as int)),
        decreases v.len() - i,
    {
        let ghost rest = v@.skip(i as int);
        if i + 1 < v.len() && v[i] == '/' && v[i + 1] == '/' {
            proof {
                assert(rest.skip(2) =~= v@.skip(i as int + 2));
            }
            i = i + 2;
        } else {
            let ghost before = out@;
            out.push(v[i]);
            proof {
                assert(rest.skip(1) =~= v@.skip(i as int + 1));
                if rest.len() < 2 {
                    assert(rest.skip(1) =~= Seq::<char>::empty());
                    assert(without_double_slash(rest) =~= seq![rest[0]] + without_double_slash(
                        rest.skip(1),
                    ));
                }
                assert(before + (seq![rest[0]] + without_double_slash(rest.skip(1)))
                    =~= before.push(rest[0]) + without_double_slash(rest.skip(1)));
            }
            i = i + 1;
        }
    }
    proof {
        assert(v@.skip(v.len() as int) =~= Seq::<char>::empty());
        assert(out@ + Seq::<char>::empty() =~= out@);
    }
    out
}

/// The host and the port that a server address names. The address is split
/// at its colons. An address that holds `http` is a URL: its host is the
/// second part without `//`, its port the third part. Any other address has
/// its host first and its port second. Without a port part the port is
/// `default_port`. `None` where a URL has no colon or the port part is no port.
pub open spec fn resolved(address: Seq<char>, default_port: u16) -> Option<(Seq<char>, u16)> {
    let parts = split(address, ':');
    let url = contains_text(address, "http"@);
    let host_at: int = if url {
        1
    } else {
        0
    };
    if parts.len() <= host_at {
        None
    } else {
        let host = if url {
            without_double_slash(parts[host_at])
        } else {
            parts[host_at]
        };
        if parts.len() > host_at + 1 {
            match parse_unsigned(parts[host_at + 1], u16::MAX as nat) {
                Some(port) => Some((host, port as u16)),
                None => None,
            }
        } else {
            Some((host, default_port))
        }
    }
}

/// Reads a server address; `None` where `resolved` finds none.
pub fn try_resolve_server_info(server_address: &str, default_port: u16) -> (r: Option<ServerInfo>)
    ensures
        match r {
            Some(info) => resolved(server_address@, default_port) == Some(
                (info.server_ip@, info.server_port),
            ) && !info.enable_ssl,
            None => resolved(server_address@, default_port) is None,
        },
{
    let chars = to_chars(server_address);
    let http = to_chars("http");
    let url = chars_contain(&chars, &http);
    let parts = split_chars(&chars, ':');
    let host_at: usize = if url {
        1
    } else {
        0
    };
    proof {
        let all = parts.deep_view();
        assert(all.len() == parts.len());
        assert forall|k: int| 0 <= k < parts.len() implies all[k] == #[trigger] parts@[k]@ by {}
    }
    if parts.len() <= host_at {
        return None;
    }
    let host = if url {
        strip_double_slash(&parts[host_at])
    } else {
        copy_chars(&parts[host_at])
    };
    let port = if parts.len() > host_at + 1 {
        match parse_unsigned_chars(&parts[host_at + 1], 65535) {
            Some(port) => port as u16,
            None => {
                return None;
            },
        }
    } else {
        default_port
    };
    Some(ServerInfo { server_ip: from_chars(&host), server_port: port, enable_ssl: false })
}

fn copy_chars(v: &Vec<char>) -> (out: Vec<char>)
    ensures
        out@ == v@,
{
    let out = sub_vec(v, 0, v.len());
    proof {
        assert(v@.subrange(0, v.len() as int) =~= v@);
    }
    out
}

/// Reads a server address that names a host and, where it names a port, a
/// port below 65536.
pub fn resolve_server_info(server_address: String, default_port: u16) -> (info: ServerInfo)
    requires
        resolved(server_address@, default_port) is Some,
    ensures
        resolved(server_address@, default_port) == Some((info.server_ip@, info.server_port)),
        !info.enable_ssl,
{
    match try_resolve_server_info(server_address.as_str(), default_port) {
        Some(info) => info,
        None => ServerInfo { server_ip: server_address, server_port: default_port, enable_ssl: false },
    }
}

/// What a handler makes of a request that the server pushed.
pub enum HandlerReply {
    /// The request is not the handler's.
    Unclaimed,
    /// The handler has taken the request; it may have a reply for the server.
    Claimed(Option<Payload>),
}

/// The handlers for what the server pushes, in the order of their registration.
pub struct ServerRequestHandlerSet<H> {
    handlers: Vec<H>,
}

impl<H> ServerRequestHandlerSet<H> {
    /// The handlers, first registered first.
    pub closed spec fn handlers(&self) -> Seq<H> {
        self.handlers@
    }

    pub fn new() -> (s: ServerRequestHandlerSet<H>)
        ensures
            s.handlers() == Seq::<H>::empty(),
    {
        ServerRequestHandlerSet { handlers: Vec::new() }
    }

    /// Adds a handler behind those that are registered.
    pub fn register(&mut self, handler: H)
        ensures
            final(self).handlers() == old(self).handlers().push(handler),
    {
        self.handlers.push(handler);
    }

    /// The number of handlers.
    pub fn len(&self) -> (n: usize)
        ensures
            n == self.handlers().len(),
    {
        self.handlers.len()
    }
}

/// What became of a pushed request.
pub enum Dispatch {
    /// No handler claimed it; it is dropped.
    Dropped,
    /// The handler at this position took it and has no reply.
    Handled { handler: usize },
    /// The handler at this position took it and this is its reply, to be
    /// sent back to the server.
    Reply { handler: usize, reply: Payload },
}

impl Dispatch {
    /// The reply to send back, where there is one.
    pub fn into_reply(self) -> (r: Option<Payload>)
        ensures
            r == (match self {
                Dispatch::Reply { handler, reply } => Some(reply),
                _ => None,
            }),
    {
        match self {
            Dispatch::Reply { handler, reply } => Some(reply),
            _ => None,
        }
    }
}

/// What a dispatch says of the handlers: the handler that it names answered
/// as the dispatch reports, every handler before it did not claim the
/// request, and a dropped request was claimed by none.
pub open spec fn dispatched<H: Fn(&Payload) -> HandlerReply>(
    handlers: Seq<H>,
    request: &Payload,
    d: Dispatch,
) -> bool {
    match d {
        Dispatch::Dropped => forall|i: int|
            0 <= i < handlers.len() ==> call_ensures(
                #[trigger] handlers[i],
                (request,),
                HandlerReply::Unclaimed,
            ),
        Dispatch::Handled { handler } => {
            &&& handler < handlers.len()
            &&& call_ensures(handlers[handler as int], (request,), HandlerReply::Claimed(None))
            &&& forall|i: int|
                0 <= i < handler ==> call_ensures(
                    #[trigger] handlers[i],
                    (request,),
                    HandlerReply::Unclaimed,
                )
        },
        Dispatch::Reply { handler, reply } => {
            &&& handler < handlers.len()
            &&& call_ensures(
                handlers[handler as int],
                (request,),
                HandlerReply::Claimed(Some(reply)),
            )
            &&& forall|i: int|
                0 <= i < handler ==> call_ensures(
                    #[trigger] handlers[i],
                    (request,),
                    HandlerReply::Unclaimed,
                )
        },
    }
}

/// The receiving side of a client: its handlers, and when it last heard
/// from the server.
pub struct RpcClient<H> {
    pub name: String,
    pub last_active_timestamp: i64,
    pub server_request_handlers: ServerRequestHandlerSet<H>,
}

impl<H: Fn(&Payload) -> HandlerReply> RpcClient<H> {
    /// Takes a request that the server pushed at the time `now`: notes the
    /// time, and asks the handlers in order until one claims the request.
    pub fn handle_server_request(&mut self, request: &Payload, now: i64) -> (d: Dispatch)
        requires
            forall|i: int|
                0 <= i < old(self).server_request_handlers.handlers().len() ==> call_requires(
                    #[trigger] old(self).server_request_handlers.handlers()[i],
                    (request,),
                ),
        ensures
            final(self).last_active_timestamp == now,
            final(self).name == old(self).name,
            final(self).server_request_handlers == old(self).server_request_handlers,
            dispatched(old(self).server_request_handlers.handlers(), request, d),
    {
        self.last_active_timestamp = now;
        let n = self.server_request_handlers.handlers.len();
        let mut i: usize = 0;
        while i < n
            invariant
                i <= n,
                n == self.server_request_handlers.handlers().len(),
                self.server_request_handlers == old(self).server_request_handlers,
                self.name == old(self).name,
                self.last_active_timestamp == now,
                forall|k: int|
                    0 <= k < n ==> call_requires(
                        #[trigger] self.server_request_handlers.handlers()[k],
                        (request,),
                    ),
                forall|k: int|
                    0 <= k < i ==> call_ensures(
                        #[trigger] self.server_request_handlers.handlers()[k],
                        (request,),
                        HandlerReply::Unclaimed,
                    ),
            decreases n - i,
        {
            let handler = &self.server_request_handlers.handlers[i];
            match handler(request) {
                HandlerReply::Unclaimed => {},
                HandlerReply::Claimed(None) => {
                    return Dispatch::Handled { handler: i };
                },
                HandlerReply::Claimed(Some(reply)) => {
                    return Dispatch::Reply { handler: i, reply };
                },
            }
            i = i + 1;
        }
        Dispatch::Dropped
    }
}

} // verus!
