//! The handshake that makes a connection.
//!
//! Opening the channel, checking the server, binding the push stream and
//! sending the setup request are done by the caller. What to do next, and
//! what a failure means, is decided here, one event at a time.

use crate::ability::ClientAbilities;
use crate::client::cli::{
    channel_settings, channel_settings_of, ChannelSettings, RawChannelSettings,
};
use crate::client::conn::{channel_address, rpc_offset, ServerInfo};
use crate::env::{config_labels, create_config_labels, LabelEnv};
use crate::error::{ErrorKind, NacosError};
use crate::remote::request::{ConnectionSetupRequest, RpcRequest};
use crate::strmap::StrMap;
use vstd::prelude::*;

verus! {

/// The version that the client reports at setup.
pub const CLIENT_VERSION: &'static str = "Nacos-Rust-Sdk-0.1.0";

/// The deadline of the server check, in milliseconds.
pub const SERVER_CHECK_TIMEOUT_MILLS: u64 = 3000;

/// The capacity of the queue in front of the push stream.
pub const PUSH_QUEUE_CAPACITY: usize = 1024;

/// What a client brings to every connection it makes.
#[derive(Debug)]
pub struct GrpcClient {
    pub tenant: Option<String>,
    pub client_abilities: ClientAbilities,
    pub labels: StrMap<String>,
    pub last_active_timestamp: u64,
}

/// What a client takes from its environment when it connects: where its
/// labels come from, and the settings of the channel.
#[derive(Debug)]
pub struct ConnectEnv {
    pub labels: LabelEnv,
    pub channel: RawChannelSettings,
}

/// Where a connection stands in its life.
#[derive(Debug)]
pub enum ConnectState {
    /// Nothing has been asked for.
    Unconnected,
    /// The channel is being opened, or the server check is under way.
    Checking { server: ServerInfo, channel_open: bool },
    /// The server has given the connection its id; the push stream is being
    /// bound, or the setup request is being sent.
    SettingUp { server: ServerInfo, connection_id: String, stream_bound: bool },
    /// The connection can be used.
    Ready { server: ServerInfo, connection_id: String },
    /// The owner has given the connection up.
    Abandoned,
    /// The connection is gone and its resources are released.
    Closed,
}

/// What happened since the last step.
#[derive(Debug)]
pub enum ConnectEvent {
    /// A connection to this server is asked for.
    Connect(ServerInfo),
    /// The channel is open.
    ChannelOpened,
    /// The server check gave this connection id.
    ServerChecked(String),
    /// The push stream is bound.
    StreamBound,
    /// The setup request is on its way.
    SetupSent,
    /// What was asked for last has failed.
    Failed(NacosError),
    /// The owner gives the connection up.
    Abandon,
    /// The connection is to be closed.
    Close,
}

/// What the caller is to do next.
#[derive(Debug)]
pub enum ConnectAction {
    /// Open a channel to this address, with these settings.
    OpenChannel { url: String, settings: ChannelSettings },
    /// Make the server check with this deadline.
    CheckServer { timeout_mills: u64 },
    /// Bind the push stream behind a queue of this capacity.
    BindStream { capacity: usize },
    /// Send this setup request over the push stream, without waiting for a reply.
    SendSetup(ConnectionSetupRequest),
    /// Hand the connection, which has this id, to whoever asked for it.
    Established { connection_id: String },
    /// Release what was acquired and report this error; there is no connection.
    TearDown(NacosError),
    /// Release what the connection holds.
    Release,
    /// The event does not belong to the state; nothing has changed.
    Ignored,
}

/// A `ConnectAction` without its payload.
pub enum ConnectActionView {
    OpenChannel,
    CheckServer,
    BindStream,
    SendSetup,
    Established,
    TearDown(ErrorKind),
    Release,
    Ignored,
}

impl View for ConnectAction {
    type V = ConnectActionView;

    open spec fn view(&self) -> ConnectActionView {
        match self {
            ConnectAction::OpenChannel { .. } => ConnectActionView::OpenChannel,
            ConnectAction::CheckServer { .. } => ConnectActionView::CheckServer,
            ConnectAction::BindStream { .. } => ConnectActionView::BindStream,
            ConnectAction::SendSetup(_) => ConnectActionView::SendSetup,
            ConnectAction::Established { .. } => ConnectActionView::Established,
            ConnectAction::TearDown(e) => ConnectActionView::TearDown(e.kind),
            ConnectAction::Release => ConnectActionView::Release,
            ConnectAction::Ignored => ConnectActionView::Ignored,
        }
    }
}

/// Whether the port of the RPC endpoint of a server is a port.
pub open spec fn reachable(server: ServerInfo) -> bool {
    server.server_port + rpc_offset() <= u16::MAX
}

/// One step of the handshake: the state and the action that follow from a
/// state and an event.
pub open spec fn connect_spec(state: ConnectState, event: ConnectEvent) -> (
    ConnectState,
    ConnectActionView,
) {
    match (state, event) {
        (ConnectState::Unconnected, ConnectEvent::Connect(server)) => {
            if reachable(server) {
                (
                    ConnectState::Checking { server, channel_open: false },
                    ConnectActionView::OpenChannel,
                )
            } else {
                (ConnectState::Closed, ConnectActionView::TearDown(ErrorKind::InvalidArgument))
            }
        },
        (ConnectState::Checking { server, channel_open }, ConnectEvent::ChannelOpened) => {
            if channel_open {
                (state, ConnectActionView::Ignored)
            } else {
                (
                    ConnectState::Checking { server, channel_open: true },
                    ConnectActionView::CheckServer,
                )
            }
        },
        (
            ConnectState::Checking { server, channel_open },
            ConnectEvent::ServerChecked(connection_id),
        ) => {
            if channel_open {
                (
                    ConnectState::SettingUp { server, connection_id, stream_bound: false },
                    ConnectActionView::BindStream,
                )
            } else {
                (state, ConnectActionView::Ignored)
            }
        },
        (
            ConnectState::SettingUp { server, connection_id, stream_bound },
            ConnectEvent::StreamBound,
        ) => {
            if stream_bound {
                (state, ConnectActionView::Ignored)
            } else {
                (
                    ConnectState::SettingUp { server, connection_id, stream_bound: true },
                    ConnectActionView::SendSetup,
                )
            }
        },
        (
            ConnectState::SettingUp { server, connection_id, stream_bound },
            ConnectEvent::SetupSent,
        ) => {
            if stream_bound {
                (ConnectState::Ready { server, connection_id }, ConnectActionView::Established)
            } else {
                (state, ConnectActionView::Ignored)
            }
        },
        (ConnectState::Checking { .. }, ConnectEvent::Failed(e)) => (
            ConnectState::Closed,
            ConnectActionView::TearDown(e.kind),
        ),
        (ConnectState::SettingUp { .. }, ConnectEvent::Failed(e)) => (
            ConnectState::Closed,
            ConnectActionView::TearDown(e.kind),
        ),
        (ConnectState::Ready { .. }, ConnectEvent::Abandon) => (
            ConnectState::Abandoned,
            ConnectActionView::Ignored,
        ),
        (ConnectState::Ready { .. }, ConnectEvent::Close) => (
            ConnectState::Closed,
            ConnectActionView::Release,
        ),
        (ConnectState::Abandoned, ConnectEvent::Close) => (
            ConnectState::Closed,
            ConnectActionView::Release,
        ),
        _ => (state, ConnectActionView::Ignored),
    }
}

impl GrpcClient {
    /// The setup request of a connection of this client: its version, its
    /// abilities, its tenant or else the empty text, and the labels of a
    /// config client in the given environment; without headers and without
    /// an id.
    pub fn setup_request(&self, env: LabelEnv) -> (r: ConnectionSetupRequest)
        ensures
            r.inner.headers@ == Map::<Seq<char>, Seq<char>>::empty(),
            r.inner.request_id is None,
            r.client_version@ == "Nacos-Rust-Sdk-0.1.0"@,
            r.abilities == self.client_abilities,
            r.tenant@ == (match self.tenant {
                Some(t) => t@,
                None => Seq::<char>::empty(),
            }),
            r.labels@ == config_labels(env),
    {
        let tenant = match &self.tenant {
            Some(t) => t.clone(),
            None => String::new(),
        };
        ConnectionSetupRequest {
            inner: RpcRequest::default(),
            client_version: CLIENT_VERSION.to_owned(),
            abilities: self.client_abilities,
            tenant,
            labels: create_config_labels(env),
        }
    }

    /// Takes one step of the handshake: what `connect_spec` says. The action
    /// carries what it needs: the address and the settings of the channel,
    /// the deadline of the server check, the capacity of the queue, the setup
    /// request of this client with the labels of the environment, the
    /// connection's id, or the error that ended the attempt.
    pub fn connect_step(&self, state: ConnectState, event: ConnectEvent, env: &ConnectEnv) -> (r: (
        ConnectState,
        ConnectAction,
    ))
        ensures
            (r.0, r.1@) == connect_spec(state, event),
            match r.1 {
                ConnectAction::OpenChannel { url, settings } => event matches ConnectEvent::Connect(
                    server,
                ) && url@ == channel_address(
                    server.server_ip@,
                    server.server_port,
                    server.enable_ssl,
                ) && settings == channel_settings_of(env.channel),
                ConnectAction::CheckServer { timeout_mills } => timeout_mills
                    == SERVER_CHECK_TIMEOUT_MILLS,
                ConnectAction::BindStream { capacity } => capacity == PUSH_QUEUE_CAPACITY,
                ConnectAction::SendSetup(request) => request.inner.headers@ == Map::<
                    Seq<char>,
                    Seq<char>,
                >::empty() && request.inner.request_id is None && request.client_version@
                    == "Nacos-Rust-Sdk-0.1.0"@ && request.abilities == self.client_abilities
                    && request.labels@ == config_labels(env.labels) && request.tenant@ == (
                match self.tenant {
                    Some(t) => t@,
                    None => Seq::<char>::empty(),
                }),
                ConnectAction::Established { connection_id } => r.0 matches ConnectState::Ready {
                    connection_id: id,
                    ..
                } && id == connection_id,
                ConnectAction::TearDown(error) => r.0 is Closed && (event matches ConnectEvent::Failed(
                    e,
                ) ==> error == e),
                _ => true,
            },
    {
        match state {
            ConnectState::Unconnected => match event {
                ConnectEvent::Connect(server) => {
                    if server.server_port <= 64535 {
                        let url = server.channel_url();
                        let settings = channel_settings(&env.channel);
                        (
                            ConnectState::Checking { server, channel_open: false },
                            ConnectAction::OpenChannel { url, settings },
                        )
                    } else {
                        let e = NacosError::msg(
                            ErrorKind::InvalidArgument,
                            "the server's port leaves no room for the rpc port",
                        );
                        (ConnectState::Closed, ConnectAction::TearDown(e))
                    }
                },
                _ => (ConnectState::Unconnected, ConnectAction::Ignored),
            },
            ConnectState::Checking { server, channel_open } => match event {
                ConnectEvent::ChannelOpened => {
                    if channel_open {
                        (ConnectState::Checking { server, channel_open }, ConnectAction::Ignored)
                    } else {
                        (
                            ConnectState::Checking { server, channel_open: true },
                            ConnectAction::CheckServer {
                                timeout_mills: SERVER_CHECK_TIMEOUT_MILLS,
                            },
                        )
                    }
                },
                ConnectEvent::ServerChecked(connection_id) => {
                    if channel_open {
                        (
                            ConnectState::SettingUp { server, connection_id, stream_bound: false },
                            ConnectAction::BindStream { capacity: PUSH_QUEUE_CAPACITY },
                        )
                    } else {
                        (ConnectState::Checking { server, channel_open }, ConnectAction::Ignored)
                    }
                },
                ConnectEvent::Failed(e) => (ConnectState::Closed, ConnectAction::TearDown(e)),
                _ => (ConnectState::Checking { server, channel_open }, ConnectAction::Ignored),
            },
            ConnectState::SettingUp { server, connection_id, stream_bound } => match event {
                ConnectEvent::StreamBound => {
                    if stream_bound {
                        (
                            ConnectState::SettingUp { server, connection_id, stream_bound },
                            ConnectAction::Ignored,
                        )
                    } else {
                        (
                            ConnectState::SettingUp { server, connection_id, stream_bound: true },
                            ConnectAction::SendSetup(self.setup_request(env.labels.clone())),
                        )
                    }
                },
                ConnectEvent::SetupSent => {
                    if stream_bound {
                        let id = connection_id.clone();
                        (
                            ConnectState::Ready { server, connection_id },
                            ConnectAction::Established { connection_id: id },
                        )
                    } else {
                        (
                            ConnectState::SettingUp { server, connection_id, stream_bound },
                            ConnectAction::Ignored,
                        )
                    }
                },
                ConnectEvent::Failed(e) => (ConnectState::Closed, ConnectAction::TearDown(e)),
                _ => (
                    ConnectState::SettingUp { server, connection_id, stream_bound },
                    ConnectAction::Ignored,
                ),
            },
            ConnectState::Ready { server, connection_id } => match event {
                ConnectEvent::Abandon => (ConnectState::Abandoned, ConnectAction::Ignored),
                ConnectEvent::Close => (ConnectState::Closed, ConnectAction::Release),
                _ => (ConnectState::Ready { server, connection_id }, ConnectAction::Ignored),
            },
            ConnectState::Abandoned => match event {
                ConnectEvent::Close => (ConnectState::Closed, ConnectAction::Release),
                _ => (ConnectState::Abandoned, ConnectAction::Ignored),
            },
            ConnectState::Closed => (ConnectState::Closed, ConnectAction::Ignored),
        }
    }
}

/// What a run of events comes to: the state at the end, and the actions on the way.
pub open spec fn connect_run(state: ConnectState, events: Seq<ConnectEvent>) -> (
    ConnectState,
    Seq<ConnectActionView>,
)
    decreases events.len(),
{
    if events.len() == 0 {
        (state, Seq::empty())
    } else {
        let first = connect_spec(state, events[0]);
        let rest = connect_run(first.0, events.skip(1));
        (rest.0, seq![first.1] + rest.1)
    }
}

/// A handshake that fails before the connection is ready closes it, and the
/// caller is told to release what was acquired and to report the failure.
pub proof fn law_failed_handshake_closes(state: ConnectState, e: NacosError)
    requires
        state is Checking || state is SettingUp,
    ensures
        connect_spec(state, ConnectEvent::Failed(e)) == (
            ConnectState::Closed,
            ConnectActionView::TearDown(e.kind),
        ),
{
}

/// A closed connection stays closed, whatever happens: nothing is ever
/// established from it.
pub proof fn law_closed_is_final(events: Seq<ConnectEvent>)
    ensures
        connect_run(ConnectState::Closed, events).0 == ConnectState::Closed,
        forall|i: int|
            0 <= i < connect_run(ConnectState::Closed, events).1.len() ==> #[trigger] connect_run(
                ConnectState::Closed,
                events,
            ).1[i] == ConnectActionView::Ignored,
    decreases events.len(),
{
    if events.len() > 0 {
        law_closed_is_final(events.skip(1));
        let run = connect_run(ConnectState::Closed, events);
        let rest = connect_run(ConnectState::Closed, events.skip(1));
        assert forall|i: int| 0 <= i < run.1.len() implies #[trigger] run.1[i]
            == ConnectActionView::Ignored by {
            if i > 0 {
                assert(run.1[i] == rest.1[i - 1]);
            }
        }
    }
}

/// After a failed server check no connection exists, whatever follows: the
/// state is closed, and no action hands a connection out.
pub proof fn law_failed_server_check_leaves_no_connection(
    server: ServerInfo,
    channel_open: bool,
    e: NacosError,
    later: Seq<ConnectEvent>,
)
    ensures
        ({
            let events = seq![ConnectEvent::Failed(e)] + later;
            let run = connect_run(ConnectState::Checking { server, channel_open }, events);
            &&& run.0 == ConnectState::Closed
            &&& run.1.len() == events.len()
            &&& run.1[0] == ConnectActionView::TearDown(e.kind)
            &&& forall|i: int|
                0 <= i < run.1.len() ==> #[trigger] run.1[i] != ConnectActionView::Established
        }),
{
    let events = seq![ConnectEvent::Failed(e)] + later;
    assert(events.skip(1) =~= later);
    law_closed_is_final(later);
    lemma_run_length(ConnectState::Closed, later);
    let run = connect_run(ConnectState::Checking { server, channel_open }, events);
    let rest = connect_run(ConnectState::Closed, later);
    assert forall|i: int| 0 <= i < run.1.len() implies #[trigger] run.1[i]
        != ConnectActionView::Established by {
        if i > 0 {
            assert(run.1[i] == rest.1[i - 1]);
        }
    }
}

/// A run has one action for each event.
pub proof fn lemma_run_length(state: ConnectState, events: Seq<ConnectEvent>)
    ensures
        connect_run(state, events).1.len() == events.len(),
    decreases events.len(),
{
    if events.len() > 0 {
        lemma_run_length(connect_spec(state, events[0]).0, events.skip(1));
    }
}

/// Whether a state is one in which no server check has succeeded.
pub open spec fn unchecked(state: ConnectState) -> bool {
    state is Unconnected || state is Checking || state is Closed
}

/// Without a successful server check nothing is established: a run that
/// begins before the check and holds no such event never reaches a
/// connection that is ready, and hands none out.
pub proof fn law_no_connection_without_server_check(
    state: ConnectState,
    events: Seq<ConnectEvent>,
)
    requires
        unchecked(state),
        forall|i: int| 0 <= i < events.len() ==> !(#[trigger] events[i] is ServerChecked),
    ensures
        unchecked(connect_run(state, events).0),
        forall|i: int|
            0 <= i < connect_run(state, events).1.len() ==> #[trigger] connect_run(
                state,
                events,
            ).1[i] != ConnectActionView::Established,
    decreases events.len(),
{
    if events.len() > 0 {
        let first = connect_spec(state, events[0]);
        assert(!(events[0] is ServerChecked));
        assert(unchecked(first.0));
        assert forall|i: int| 0 <= i < events.skip(1).len() implies !(
        #[trigger] events.skip(1)[i] is ServerChecked) by {
            assert(events.skip(1)[i] == events[i + 1]);
        }
        law_no_connection_without_server_check(first.0, events.skip(1));
        let run = connect_run(state, events);
        let rest = connect_run(first.0, events.skip(1));
        assert forall|i: int| 0 <= i < run.1.len() implies #[trigger] run.1[i]
            != ConnectActionView::Established by {
            if i > 0 {
                assert(run.1[i] == rest.1[i - 1]);
            }
        }
    }
}

} // verus!
