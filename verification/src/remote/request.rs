//! Messages from the client to the server, and server-initiated requests.
//!
//! Every request that carries headers embeds an `RpcRequest` and reaches its
//! headers through `RequestExt`.

use crate::ability::ClientAbilities;
use crate::strmap::StrMap;
use vstd::prelude::*;

verus! {

/// The kinds of request that the generic envelope distinguishes.
#[derive(Clone, Copy, Debug, PartialEq, Eq, Structural)]
pub enum RequestType {
    ConnectionSetupRequest,
}

/// Marks a request that the server sends to the client.
pub trait ServerRequest {

}

/// Marks a request that the client sends to the server.
pub trait ClientRequest {

}

/// A request of the `internal` module.
pub trait InternalRequest {
    fn get_module(&self) -> (m: String)
        ensures
            m@ == "internal"@,
    {
        "internal".to_owned()
    }
}

/// A request of the `config` module.
pub trait ConfigRequest {
    fn get_module(&self) -> (m: String)
        ensures
            m@ == "config"@,
    {
        "config".to_owned()
    }
}

/// A request of the `naming` module.
pub trait NamingRequest {
    fn get_module(&self) -> (m: String)
        ensures
            m@ == "naming"@,
    {
        "naming".to_owned()
    }
}

/// What every request has: headers and, optionally, an id.
#[derive(Clone, Debug)]
pub struct RpcRequest {
    pub headers: StrMap<String>,
    pub request_id: Option<String>,
}

impl Default for RpcRequest {
    fn default() -> (r: Self)
        ensures
            r.headers@ == Map::<Seq<char>, Seq<char>>::empty(),
            r.request_id is None,
    {
        RpcRequest { headers: StrMap::new(), request_id: None }
    }
}

/// What the codec needs of a request: the tag under which it travels, and
/// its headers.
pub trait RequestExt {
    /// The unqualified name of the request's type.
    spec fn tag(&self) -> Seq<char>;

    /// The tag under which every request of the type travels.
    spec fn type_tag() -> Seq<char>;

    /// The tag of the type, without a request at hand.
    fn ty() -> (n: String)
        ensures
            n@ == Self::type_tag(),
    ;

    /// The headers, as a mapping.
    spec fn header_map(&self) -> Map<Seq<char>, Seq<char>>;

    fn ty_name(&self) -> (n: String)
        ensures
            n@ == self.tag(),
            n@ == Self::type_tag(),
    ;

    fn headers(&self) -> (h: StrMap<String>)
        ensures
            h@ == self.header_map(),
    ;

    fn clear_headers(&mut self)
        ensures
            final(self).header_map() == Map::<Seq<char>, Seq<char>>::empty(),
            final(self).tag() == old(self).tag(),
    ;
}

impl RequestExt for RpcRequest {
    open spec fn tag(&self) -> Seq<char> {
        "RpcRequest"@
    }

    open spec fn type_tag() -> Seq<char> {
        "RpcRequest"@
    }

    fn ty() -> (n: String) {
        "RpcRequest".to_owned()
    }

    open spec fn header_map(&self) -> Map<Seq<char>, Seq<char>> {
        self.headers@
    }

    fn ty_name(&self) -> (n: String) {
        "RpcRequest".to_owned()
    }

    fn headers(&self) -> (h: StrMap<String>) {
        self.headers.duplicate()
    }

    fn clear_headers(&mut self) {
        self.headers.clear()
    }
}

#[derive(Clone, Debug)]
pub struct ClientDetectionRequest {
    pub inner: RpcRequest,
}

#[derive(Clone, Debug)]
pub struct ConnectionSetupRequest {
    pub inner: RpcRequest,
    pub client_version: String,
    pub abilities: ClientAbilities,
    pub tenant: String,
    pub labels: StrMap<String>,
}

#[derive(Clone, Debug)]
pub struct ConnectResetRequest {
    pub inner: RpcRequest,
    pub server_ip: String,
    pub server_port: String,
}

#[derive(Clone, Debug)]
pub struct HealthCheckRequest {
    pub inner: RpcRequest,
}

#[derive(Clone, Debug)]
pub struct PushAckRequest {
    pub inner: RpcRequest,
    pub request_id: String,
    pub success: bool,
    pub exception: Option<String>,
}

#[derive(Clone, Debug)]
pub struct ConfigChangeNotifyRequest {
    pub inner: RpcRequest,
    pub data_id: String,
    pub group: String,
    pub tenant: Option<String>,
}

#[derive(Clone, Debug)]
pub struct RequestMeta {
    pub connection_id: String,
    pub client_ip: String,
    pub client_version: String,
    pub labels: StrMap<String>,
}

#[derive(Clone, Debug)]
pub struct ServerCheckRequest {
    pub inner: RpcRequest,
}

impl ServerCheckRequest {
    /// A server check without headers or id.
    pub fn new() -> (r: Self)
        ensures
            r.inner.headers@ == Map::<Seq<char>, Seq<char>>::empty(),
            r.inner.request_id is None,
    {
        let request = RpcRequest::default();
        ServerCheckRequest { inner: request }
    }
}

#[derive(Clone, Debug)]
pub struct ServerLoaderInfoRequest {
    pub inner: RpcRequest,
}

#[derive(Clone, Debug)]
pub struct ServerReloadRequest {
    pub inner: RpcRequest,
    pub reload_count: usize,
    pub reload_server: String,
}

/// One config item in a batched listen request.
#[derive(Clone, Debug)]
pub struct ConfigListenContext {
    pub group: String,
    pub md5: Option<String>,
    pub data_id: String,
    pub tenant: Option<String>,
}

impl ConfigListenContext {
    pub fn new(group: String, md5: Option<String>, data_id: String, tenant: Option<String>) -> (c:
        Self)
        ensures
            c.group == group,
            c.md5 == md5,
            c.data_id == data_id,
            c.tenant == tenant,
    {
        ConfigListenContext { group, md5, data_id, tenant }
    }
}

/// Starts (`listen`) or stops listening to a batch of config items.
#[derive(Clone, Debug)]
pub struct ConfigBatchListenRequest {
    pub inner: RpcRequest,
    pub listen: bool,
    pub config_listen_contexts: Vec<ConfigListenContext>,
}

impl ConfigBatchListenRequest {
    pub fn new(inner: RpcRequest, listen: bool, config_listen_contexts: Vec<ConfigListenContext>) -> (r:
        Self)
        ensures
            r.inner == inner,
            r.listen == listen,
            r.config_listen_contexts == config_listen_contexts,
    {
        ConfigBatchListenRequest { inner, listen, config_listen_contexts }
    }
}

impl Default for ConfigBatchListenRequest {
    fn default() -> (r: Self)
        ensures
            r.inner.headers@ == Map::<Seq<char>, Seq<char>>::empty(),
            r.inner.request_id is None,
            r.listen,
            r.config_listen_contexts@.len() == 0,
    {
        ConfigBatchListenRequest {
            inner: RpcRequest::default(),
            listen: true,
            config_listen_contexts: Vec::new(),
        }
    }
}

impl InternalRequest for ServerReloadRequest {

}

impl InternalRequest for ServerLoaderInfoRequest {

}

impl InternalRequest for ServerCheckRequest {

}

impl InternalRequest for PushAckRequest {

}

impl InternalRequest for HealthCheckRequest {

}

impl InternalRequest for ConnectionSetupRequest {

}

impl ClientRequest for ServerReloadRequest {

}

impl ClientRequest for ServerLoaderInfoRequest {

}

impl ClientRequest for ServerCheckRequest {

}

impl ClientRequest for PushAckRequest {

}

impl ClientRequest for HealthCheckRequest {

}

impl ClientRequest for ConnectionSetupRequest {

}

impl ServerRequest for ConnectResetRequest {

}

impl ServerRequest for ClientDetectionRequest {

}

impl ServerRequest for ConfigChangeNotifyRequest {

}

impl ConfigRequest for ConfigBatchListenRequest {

}

impl ConfigRequest for ConfigChangeNotifyRequest {

}

impl RequestExt for ServerCheckRequest {
    open spec fn tag(&self) -> Seq<char> {
        "ServerCheckRequest"@
    }

    open spec fn type_tag() -> Seq<char> {
        "ServerCheckRequest"@
    }

    fn ty() -> (n: String) {
        "ServerCheckRequest".to_owned()
    }

    open spec fn header_map(&self) -> Map<Seq<char>, Seq<char>> {
        self.inner.headers@
    }

    fn ty_name(&self) -> (n: String) {
        "ServerCheckRequest".to_owned()
    }

    fn headers(&self) -> (h: StrMap<String>) {
        self.inner.headers.duplicate()
    }

    fn clear_headers(&mut self) {
        self.inner.headers.clear()
    }
}

impl RequestExt for HealthCheckRequest {
    open spec fn tag(&self) -> Seq<char> {
        "HealthCheckRequest"@
    }

    open spec fn type_tag() -> Seq<char> {
        "HealthCheckRequest"@
    }

    fn ty() -> (n: String) {
        "HealthCheckRequest".to_owned()
    }

    open spec fn header_map(&self) -> Map<Seq<char>, Seq<char>> {
        self.inner.headers@
    }

    fn ty_name(&self) -> (n: String) {
        "HealthCheckRequest".to_owned()
    }

    fn headers(&self) -> (h: StrMap<String>) {
        self.inner.headers.duplicate()
    }

    fn clear_headers(&mut self) {
        self.inner.headers.clear()
    }
}

impl RequestExt for ConnectionSetupRequest {
    open spec fn tag(&self) -> Seq<char> {
        "ConnectionSetupRequest"@
    }

    open spec fn type_tag() -> Seq<char> {
        "ConnectionSetupRequest"@
    }

    fn ty() -> (n: String) {
        "ConnectionSetupRequest".to_owned()
    }

    open spec fn header_map(&self) -> Map<Seq<char>, Seq<char>> {
        self.inner.headers@
    }

    fn ty_name(&self) -> (n: String) {
        "ConnectionSetupRequest".to_owned()
    }

    fn headers(&self) -> (h: StrMap<String>) {
        self.inner.headers.duplicate()
    }

    fn clear_headers(&mut self) {
        self.inner.headers.clear()
    }
}

impl RequestExt for ConfigChangeNotifyRequest {
    open spec fn tag(&self) -> Seq<char> {
        "ConfigChangeNotifyRequest"@
    }

    open spec fn type_tag() -> Seq<char> {
        "ConfigChangeNotifyRequest"@
    }

    fn ty() -> (n: String) {
        "ConfigChangeNotifyRequest".to_owned()
    }

    open spec fn header_map(&self) -> Map<Seq<char>, Seq<char>> {
        self.inner.headers@
    }

    fn ty_name(&self) -> (n: String) {
        "ConfigChangeNotifyRequest".to_owned()
    }

    fn headers(&self) -> (h: StrMap<String>) {
        self.inner.headers.duplicate()
    }

    fn clear_headers(&mut self) {
        self.inner.headers.clear()
    }
}

impl RequestExt for ConfigBatchListenRequest {
    open spec fn tag(&self) -> Seq<char> {
        "ConfigBatchListenRequest"@
    }

    open spec fn type_tag() -> Seq<char> {
        "ConfigBatchListenRequest"@
    }

    fn ty() -> (n: String) {
        "ConfigBatchListenRequest".to_owned()
    }

    open spec fn header_map(&self) -> Map<Seq<char>, Seq<char>> {
        self.inner.headers@
    }

    fn ty_name(&self) -> (n: String) {
        "ConfigBatchListenRequest".to_owned()
    }

    fn headers(&self) -> (h: StrMap<String>) {
        self.inner.headers.duplicate()
    }

    fn clear_headers(&mut self) {
        self.inner.headers.clear()
    }
}

} // verus!
