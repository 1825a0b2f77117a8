use nacos_client::ability::ClientAbilities;
use nacos_client::client::cli::{
    channel_settings, concurrency_limit, connect_timeout_mills, keep_alive_time_mills,
    resolve_server_info, timeout_mills, try_resolve_server_info, ChannelSettings,
    ConnectionEvent, Dispatch, HandlerReply, RawChannelSettings, RpcClient,
    ServerRequestHandlerSet, CONNECTED, DISCONNECTED,
};
use nacos_client::client::conn::{rpc_port_offset, GrpcConnection, ServerInfo};
use nacos_client::client::grpc::{
    ConnectAction, ConnectEnv, ConnectEvent, ConnectState, GrpcClient,
};
use nacos_client::client::service::NacosConfigService;
use nacos_client::client::worker::ClientWorker;
use nacos_client::connection::{Connection, ConnectionMeta};
use nacos_client::env::{create_config_labels, get_user_tenant_for_acm, LabelEnv};
use nacos_client::error::{ErrorKind, NacosError};
use nacos_client::grpc::util::{Any, Metadata, Payload};
use nacos_client::strmap::StrMap;

fn payload(ty: &str) -> Payload {
    Payload {
        metadata: Some(Metadata {
            ty: ty.to_string(),
            client_ip: "".to_string(),
            headers: StrMap::new(),
        }),
        body: Some(Any { type_url: "".to_string(), value: b"{}".to_vec() }),
    }
}

fn tag(p: &Payload) -> String {
    p.metadata.as_ref().unwrap().ty.clone()
}

type Handler = Box<dyn Fn(&Payload) -> HandlerReply>;

fn handler_for(ty: &'static str, reply: Option<&'static str>) -> Handler {
    Box::new(move |p: &Payload| {
        if tag(p) == ty {
            HandlerReply::Claimed(reply.map(payload))
        } else {
            HandlerReply::Unclaimed
        }
    })
}

fn client(handlers: Vec<Handler>) -> RpcClient<Handler> {
    let mut set = ServerRequestHandlerSet::new();
    for h in handlers {
        set.register(h);
    }
    RpcClient { name: "config".to_string(), last_active_timestamp: 0, server_request_handlers: set }
}

#[test]
fn settings_fall_back_to_their_defaults() {
    assert_eq!(keep_alive_time_mills(None), 360000);
    assert_eq!(keep_alive_time_mills(Some("1500")), 1500);
    assert_eq!(keep_alive_time_mills(Some("soon")), 360000);
    assert_eq!(keep_alive_time_mills(Some("-1")), 360000);
    assert_eq!(timeout_mills(None), 5000);
    assert_eq!(timeout_mills(Some("250")), 250);
    assert_eq!(timeout_mills(Some("")), 5000);
    assert_eq!(connect_timeout_mills(None), 5000);
    assert_eq!(connect_timeout_mills(Some("+9")), 9);
    assert_eq!(connect_timeout_mills(Some("9s")), 5000);
    assert_eq!(concurrency_limit(None), 1024);
    assert_eq!(concurrency_limit(Some("400")), 400);
    assert_eq!(concurrency_limit(Some("99999999999999999999999")), 1024);
}

#[test]
fn connection_events() {
    assert!(ConnectionEvent::new(CONNECTED).is_connected());
    assert!(!ConnectionEvent::new(CONNECTED).is_disconnected());
    assert!(ConnectionEvent::new(DISCONNECTED).is_disconnected());
    assert!(!ConnectionEvent::new(7).is_connected());
    assert!(!ConnectionEvent::new(7).is_disconnected());
}

#[test]
fn rpc_port_is_a_thousand_above_the_server_port() {
    assert_eq!(rpc_port_offset(), 1000);
    let info = ServerInfo::new("127.0.0.1".to_string(), 8848);
    assert!(!info.enable_ssl);
    let rpc = info.rpc_offset_server_info();
    assert_eq!(rpc.server_ip, "127.0.0.1");
    assert_eq!(rpc.server_port, 9848);
    assert_eq!(info.channel_url(), "http://127.0.0.1:9848");
    let tls = ServerInfo { server_ip: "h".to_string(), server_port: 64535, enable_ssl: true };
    assert_eq!(tls.channel_url(), "https://h:65535");
}

#[test]
fn server_addresses_are_resolved() {
    let info = resolve_server_info("10.0.0.1:9000".to_string(), 8848);
    assert_eq!((info.server_ip.as_str(), info.server_port), ("10.0.0.1", 9000));
    let info = resolve_server_info("10.0.0.1".to_string(), 8848);
    assert_eq!((info.server_ip.as_str(), info.server_port), ("10.0.0.1", 8848));
    let info = resolve_server_info("http://nacos.local:80".to_string(), 8848);
    assert_eq!((info.server_ip.as_str(), info.server_port), ("nacos.local", 80));
    let info = resolve_server_info("https://nacos.local".to_string(), 8848);
    assert_eq!((info.server_ip.as_str(), info.server_port), ("nacos.local", 8848));
    let info = try_resolve_server_info("a:1:zzz", 8848).unwrap();
    assert_eq!((info.server_ip.as_str(), info.server_port), ("a", 1));
    assert!(try_resolve_server_info("a:port", 8848).is_none());
    assert!(try_resolve_server_info("a:65536", 8848).is_none());
    assert!(try_resolve_server_info("a:", 8848).is_none());
    assert!(try_resolve_server_info("httpserver", 8848).is_none());
    let info = try_resolve_server_info("myhttp:9", 8848).unwrap();
    assert_eq!((info.server_ip.as_str(), info.server_port), ("9", 8848));
    let info = try_resolve_server_info("", 8848).unwrap();
    assert_eq!((info.server_ip.as_str(), info.server_port), ("", 8848));
}

#[test]
fn first_claiming_handler_answers() {
    let mut c = client(vec![
        handler_for("A", Some("AckA")),
        handler_for("B", None),
        handler_for("A", Some("Late")),
    ]);
    match c.handle_server_request(&payload("A"), 17) {
        Dispatch::Reply { handler, reply } => {
            assert_eq!(handler, 0);
            assert_eq!(tag(&reply), "AckA");
        }
        _ => panic!("the first handler replies"),
    }
    assert_eq!(c.last_active_timestamp, 17);
    assert!(matches!(c.handle_server_request(&payload("B"), 18), Dispatch::Handled { handler: 1 }));
    assert_eq!(c.last_active_timestamp, 18);
    assert_eq!(c.server_request_handlers.len(), 3);
}

#[test]
fn unclaimed_request_is_dropped() {
    let mut c = client(vec![handler_for("A", Some("AckA"))]);
    let d = c.handle_server_request(&payload("C"), 5);
    assert!(matches!(d, Dispatch::Dropped));
    assert!(d.into_reply().is_none());
    assert_eq!(c.last_active_timestamp, 5);
    let mut none = client(Vec::new());
    assert!(matches!(none.handle_server_request(&payload("A"), 6), Dispatch::Dropped));
    let reply = Dispatch::Reply { handler: 0, reply: payload("R") }.into_reply();
    assert_eq!(tag(&reply.unwrap()), "R");
    assert!(Dispatch::Handled { handler: 0 }.into_reply().is_none());
}

fn grpc_client() -> GrpcClient {
    let mut labels = StrMap::new();
    labels.insert("module".to_string(), "config".to_string());
    GrpcClient {
        tenant: None,
        client_abilities: ClientAbilities::default(),
        labels,
        last_active_timestamp: 0,
    }
}

fn silent() -> ConnectEnv {
    ConnectEnv {
        labels: LabelEnv { task_id: None, app_name: None, vip_server_tag: None, amory_tag: None },
        channel: RawChannelSettings {
            keep_alive_millis: None,
            timeout_millis: None,
            connect_timeout_millis: None,
            concurrency_limit: None,
        },
    }
}

fn server() -> ServerInfo {
    ServerInfo { server_ip: "127.0.0.1".to_string(), server_port: 8848, enable_ssl: false }
}

#[test]
fn handshake_runs_from_channel_to_setup() {
    let c = grpc_client();
    let (s, a) = c.connect_step(ConnectState::Unconnected, ConnectEvent::Connect(server()), &silent());
    match a {
        ConnectAction::OpenChannel { url, settings } => {
            assert_eq!(url, "http://127.0.0.1:9848");
            assert_eq!(
                settings,
                ChannelSettings {
                    keep_alive_mills: 360000,
                    timeout_mills: 5000,
                    connect_timeout_mills: 5000,
                    concurrency_limit: 1024,
                }
            );
        }
        _ => panic!("the channel is opened first"),
    }
    assert!(matches!(s, ConnectState::Checking { channel_open: false, .. }));
    let (s, a) = c.connect_step(s, ConnectEvent::ChannelOpened, &silent());
    assert!(matches!(a, ConnectAction::CheckServer { timeout_mills: 3000 }));
    let (s, a) = c.connect_step(s, ConnectEvent::ServerChecked("conn-1".to_string()), &silent());
    assert!(matches!(a, ConnectAction::BindStream { capacity: 1024 }));
    assert!(matches!(s, ConnectState::SettingUp { stream_bound: false, .. }));
    let (s, a) = c.connect_step(s, ConnectEvent::StreamBound, &silent());
    match a {
        ConnectAction::SendSetup(request) => {
            assert_eq!(request.client_version, "Nacos-Rust-Sdk-0.1.0");
            assert_eq!(request.tenant, "");
            assert_eq!(request.labels.len(), 6);
            assert_eq!(request.labels.get("module"), Some(&"config".to_string()));
            assert_eq!(request.labels.get("source"), Some(&"sdk".to_string()));
            assert_eq!(request.labels.get("taskId"), Some(&"0".to_string()));
            assert_eq!(request.labels.get("AppName"), Some(&"unknown".to_string()));
            assert!(request.inner.request_id.is_none());
            assert!(request.abilities.remote_ability.support_remote_connection);
            assert_eq!(request.inner.headers.len(), 0);
        }
        _ => panic!("the setup request is sent"),
    }
    let (s, a) = c.connect_step(s, ConnectEvent::SetupSent, &silent());
    match a {
        ConnectAction::Established { connection_id } => assert_eq!(connection_id, "conn-1"),
        _ => panic!("the connection is established"),
    }
    match &s {
        ConnectState::Ready { server, connection_id } => {
            assert_eq!(connection_id, "conn-1");
            assert_eq!(server.server_port, 8848);
        }
        _ => panic!("the connection is ready"),
    }
    let (s, a) = c.connect_step(s, ConnectEvent::Failed(NacosError::msg(ErrorKind::ChannelClosed, "x")), &silent());
    assert!(matches!(s, ConnectState::Ready { .. }));
    assert!(matches!(a, ConnectAction::Ignored));
    let (s, a) = c.connect_step(s, ConnectEvent::Abandon, &silent());
    assert!(matches!(s, ConnectState::Abandoned));
    assert!(matches!(a, ConnectAction::Ignored));
    let (s, a) = c.connect_step(s, ConnectEvent::Close, &silent());
    assert!(matches!(s, ConnectState::Closed));
    assert!(matches!(a, ConnectAction::Release));
}

#[test]
fn failed_server_check_leaves_no_connection() {
    let c = grpc_client();
    let (s, _) = c.connect_step(ConnectState::Unconnected, ConnectEvent::Connect(server()), &silent());
    let (s, _) = c.connect_step(s, ConnectEvent::ChannelOpened, &silent());
    let failure = NacosError::msg(ErrorKind::Transport, "connection refused");
    let (s, a) = c.connect_step(s, ConnectEvent::Failed(failure), &silent());
    assert!(matches!(s, ConnectState::Closed));
    match a {
        ConnectAction::TearDown(e) => {
            assert_eq!(e.kind, ErrorKind::Transport);
            assert_eq!(e.message, "connection refused");
        }
        _ => panic!("the attempt is torn down"),
    }
    let (s, a) = c.connect_step(s, ConnectEvent::ServerChecked("late".to_string()), &silent());
    assert!(matches!(s, ConnectState::Closed));
    assert!(matches!(a, ConnectAction::Ignored));
    let (s, a) = c.connect_step(s, ConnectEvent::SetupSent, &silent());
    assert!(matches!(s, ConnectState::Closed));
    assert!(matches!(a, ConnectAction::Ignored));
}

#[test]
fn deadline_of_the_server_check_is_told_apart_from_other_failures() {
    let c = grpc_client();
    let (s, _) = c.connect_step(ConnectState::Unconnected, ConnectEvent::Connect(server()), &silent());
    let (s, _) = c.connect_step(s, ConnectEvent::ChannelOpened, &silent());
    let (_, a) = c.connect_step(s, ConnectEvent::Failed(NacosError::msg(ErrorKind::DeadlineExceeded, "3s")), &silent());
    match a {
        ConnectAction::TearDown(e) => assert!(e.is_timeout()),
        _ => panic!("the attempt is torn down"),
    }
}

#[test]
fn port_without_room_for_the_rpc_port_is_refused() {
    let c = grpc_client();
    let far = ServerInfo { server_ip: "h".to_string(), server_port: 64536, enable_ssl: false };
    let (s, a) = c.connect_step(ConnectState::Unconnected, ConnectEvent::Connect(far), &silent());
    assert!(matches!(s, ConnectState::Closed));
    match a {
        ConnectAction::TearDown(e) => assert_eq!(e.kind, ErrorKind::InvalidArgument),
        _ => panic!("the attempt is refused"),
    }
}

#[test]
fn events_out_of_turn_change_nothing() {
    let c = grpc_client();
    let (s, a) = c.connect_step(ConnectState::Unconnected, ConnectEvent::SetupSent, &silent());
    assert!(matches!(s, ConnectState::Unconnected));
    assert!(matches!(a, ConnectAction::Ignored));
    let (s, _) = c.connect_step(s, ConnectEvent::Connect(server()), &silent());
    let (s, a) = c.connect_step(s, ConnectEvent::ServerChecked("early".to_string()), &silent());
    assert!(matches!(s, ConnectState::Checking { channel_open: false, .. }));
    assert!(matches!(a, ConnectAction::Ignored));
}

#[test]
fn tenant_goes_into_the_setup_request() {
    let mut c = grpc_client();
    c.tenant = Some("dev".to_string());
    let env = LabelEnv {
        task_id: Some("42".to_string()),
        app_name: None,
        vip_server_tag: None,
        amory_tag: None,
    };
    let request = c.setup_request(env);
    assert_eq!(request.tenant, "dev");
    assert_eq!(request.labels.get("taskId"), Some(&"42".to_string()));
    assert_eq!(request.labels.get("AppName"), Some(&"unknown".to_string()));
}

#[test]
fn labels_default_when_the_environment_is_silent() {
    let labels = create_config_labels(LabelEnv {
        task_id: None,
        app_name: None,
        vip_server_tag: None,
        amory_tag: None,
    });
    assert_eq!(labels.len(), 6);
    assert_eq!(labels.get("module"), Some(&"config".to_string()));
    assert_eq!(labels.get("source"), Some(&"sdk".to_string()));
    assert_eq!(labels.get("taskId"), Some(&"0".to_string()));
    assert_eq!(labels.get("AppName"), Some(&"unknown".to_string()));
    assert_eq!(labels.get("Vipserver-Tag"), Some(&"".to_string()));
    assert_eq!(labels.get("Amory-Tag"), Some(&"".to_string()));
}

#[test]
fn labels_follow_the_environment() {
    let labels = create_config_labels(LabelEnv {
        task_id: Some("42".to_string()),
        app_name: Some("shop".to_string()),
        vip_server_tag: Some("v".to_string()),
        amory_tag: Some("m".to_string()),
    });
    assert_eq!(labels.get("taskId"), Some(&"42".to_string()));
    assert_eq!(labels.get("AppName"), Some(&"shop".to_string()));
    assert_eq!(labels.get("Vipserver-Tag"), Some(&"v".to_string()));
    assert_eq!(labels.get("Amory-Tag"), Some(&"m".to_string()));
}

#[test]
fn tenant_falls_back_to_the_namespace() {
    assert_eq!(get_user_tenant_for_acm(Some("t".to_string()), Some("ns".to_string())), "t");
    assert_eq!(get_user_tenant_for_acm(Some(" ".to_string()), Some("ns".to_string())), "ns");
    assert_eq!(get_user_tenant_for_acm(None, Some("ns".to_string())), "ns");
    assert_eq!(get_user_tenant_for_acm(None, None), "");
}

fn meta(source: Option<&str>) -> ConnectionMeta {
    let mut labels = StrMap::new();
    if let Some(s) = source {
        labels.insert("source".to_string(), s.to_string());
    }
    ConnectionMeta {
        connect_type: "GRPC".to_string(),
        client_ip: "1.1.1.1".to_string(),
        remote_ip: "2.2.2.2".to_string(),
        remote_port: 9848,
        local_port: 50000,
        version: "0.1.0".to_string(),
        connection_id: None,
        create_time: 1,
        last_active_time: 2,
        app_name: "unknown".to_string(),
        tenant: None,
        labels,
    }
}

#[test]
fn connection_meta_knows_its_source() {
    assert!(meta(Some("sdk")).is_sdk_source());
    assert!(meta(Some("SDK")).is_sdk_source());
    assert!(!meta(Some("sdk")).is_cluster_source());
    assert!(meta(Some("Cluster")).is_cluster_source());
    assert!(!meta(None).is_sdk_source());
    assert!(!meta(None).is_cluster_source());
}

#[test]
fn fresh_active_time_touches_the_metadata_only() {
    let mut c = Connection::default();
    c.fresh_active_time(9);
    assert!(c.meta_info.is_none());
    c.meta_info = Some(meta(Some("sdk")));
    c.fresh_active_time(99);
    let m = c.meta_info.as_ref().unwrap();
    assert_eq!(m.last_active_time, 99);
    assert_eq!(m.create_time, 1);
    assert_eq!(m.remote_port, 9848);
    assert!(m.is_sdk_source());
}

#[test]
fn new_connection_is_not_abandoned() {
    let c = GrpcConnection::new(server());
    assert!(!c.abandon);
    assert!(c.connection_id.is_none());
    assert!(c.connection.meta_info.is_none());
    let c = GrpcConnection::new_with_meta(server(), meta(None));
    assert!(c.connection.meta_info.is_some());
    assert!(c.request_sent(true).is_ok());
    let err = c.request_sent(false).unwrap_err();
    assert_eq!(err.kind, ErrorKind::ChannelClosed);
    assert_eq!(err.message, "config send failed");
    assert_eq!(c.response_sent(false).unwrap_err().message, "response send failed");
    assert!(c.response_sent(true).is_ok());
}

#[test]
fn service_status_follows_the_server() {
    let mut service = NacosConfigService {
        worker: ClientWorker::new(0u8, StrMap::new()),
        namespace: "".to_string(),
        filter_chain: 0u8,
    };
    assert_eq!(service.get_server_status(), "DOWN");
    service.worker.is_health_server = true;
    assert_eq!(service.get_server_status(), "UP");
}

#[test]
fn setup_request_takes_its_labels_from_the_environment_not_from_the_client() {
    let mut c = grpc_client();
    c.labels.insert("taskId".to_string(), "7".to_string());
    let mut env = silent();
    env.labels.task_id = Some("42".to_string());
    env.labels.app_name = Some("shop".to_string());
    let state = ConnectState::SettingUp {
        server: server(),
        connection_id: "id".to_string(),
        stream_bound: false,
    };
    match c.connect_step(state, ConnectEvent::StreamBound, &env).1 {
        ConnectAction::SendSetup(request) => {
            assert_eq!(request.labels.get("taskId"), Some(&"42".to_string()));
            assert_eq!(request.labels.get("AppName"), Some(&"shop".to_string()));
            assert_eq!(request.labels.get("module"), Some(&"config".to_string()));
        }
        _ => panic!("the setup request is sent"),
    }
}

#[test]
fn channel_settings_follow_the_environment() {
    let raw = RawChannelSettings {
        keep_alive_millis: Some("1000".to_string()),
        timeout_millis: Some("x".to_string()),
        connect_timeout_millis: Some("30".to_string()),
        concurrency_limit: Some("16".to_string()),
    };
    let expected = ChannelSettings {
        keep_alive_mills: 1000,
        timeout_mills: 5000,
        connect_timeout_mills: 30,
        concurrency_limit: 16,
    };
    assert_eq!(channel_settings(&raw), expected);
    let c = grpc_client();
    let env = ConnectEnv { labels: silent().labels, channel: raw };
    match c.connect_step(ConnectState::Unconnected, ConnectEvent::Connect(server()), &env).1 {
        ConnectAction::OpenChannel { settings, .. } => assert_eq!(settings, expected),
        _ => panic!("the channel is opened first"),
    }
}
