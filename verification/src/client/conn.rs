//! One cluster member, and the handshake that makes a connection to it.

use crate::connection::{Connection, ConnectionMeta};
use crate::error::{ErrorKind, NacosError, NacosResult};
use crate::number::{decimal_digits, u64_to_string};
use crate::text::concat;
use vstd::prelude::*;

verus! {

/// The offset from a server's port to the port of its RPC endpoint.
pub open spec fn rpc_offset() -> int {
    1000
}

/// The offset from a server's port to the port of its RPC endpoint.
pub fn rpc_port_offset() -> (offset: u16)
    ensures
        offset == rpc_offset(),
{
    1000
}

/// One cluster member.
#[derive(Debug)]
pub struct ServerInfo {
    pub server_ip: String,
    pub server_port: u16,
    pub enable_ssl: bool,
}

impl Clone for ServerInfo {
    fn clone(&self) -> (s: Self)
        ensures
            s == *self,
    {
        ServerInfo {
            server_ip: self.server_ip.clone(),
            server_port: self.server_port,
            enable_ssl: self.enable_ssl,
        }
    }
}

/// The address at which the RPC endpoint of a server is reached.
pub open spec fn channel_address(ip: Seq<char>, port: u16, enable_ssl: bool) -> Seq<char> {
    (if enable_ssl {
        "https"@
    } else {
        "http"@
    }) + "://"@ + ip + ":"@ + decimal_digits((port + rpc_offset()) as nat)
}

impl ServerInfo {
    /// A member that is reached without TLS.
    pub fn new(ip: String, port: u16) -> (s: Self)
        ensures
            s.server_ip == ip,
            s.server_port == port,
            !s.enable_ssl,
    {
        ServerInfo { server_ip: ip, server_port: port, enable_ssl: false }
    }

    /// The same member at the port of its RPC endpoint.
    pub fn rpc_offset_server_info(&self) -> (s: Self)
        requires
            self.server_port + rpc_offset() <= u16::MAX,
        ensures
            s.server_ip == self.server_ip,
            s.server_port == self.server_port + rpc_offset(),
            s.enable_ssl == self.enable_ssl,
    {
        ServerInfo {
            server_ip: self.server_ip.clone(),
            server_port: self.server_port + rpc_port_offset(),
            enable_ssl: self.enable_ssl,
        }
    }

    /// The address to open the transport channel to.
    pub fn channel_url(&self) -> (url: String)
        requires
            self.server_port + rpc_offset() <= u16::MAX,
        ensures
            url@ == channel_address(self.server_ip@, self.server_port, self.enable_ssl),
    {
        let target = self.rpc_offset_server_info();
        let schema = if self.enable_ssl {
            "https"
        } else {
            "http"
        };
        let port = u64_to_string(target.server_port as u64);
        concat(
            concat(concat(concat(schema.to_owned(), "://"), target.server_ip.as_str()), ":"),
            port.as_str(),
        )
    }
}

/// What a connection is, apart from the transport that carries it.
#[derive(Debug)]
pub struct GrpcConnection {
    pub connection: Connection,
    pub connection_id: Option<String>,
    pub abandon: bool,
    pub server_info: ServerInfo,
}

impl GrpcConnection {
    /// A connection to a server, before the server has given it an id.
    pub fn new(server_info: ServerInfo) -> (c: Self)
        ensures
            c.connection.meta_info is None,
            !c.connection.traced,
            c.connection_id is None,
            !c.abandon,
            c.server_info == server_info,
    {
        GrpcConnection {
            connection: Connection::default(),
            connection_id: None,
            abandon: false,
            server_info,
        }
    }

    /// A connection to a server with its metadata.
    pub fn new_with_meta(server_info: ServerInfo, meta_info: ConnectionMeta) -> (c: Self)
        ensures
            c.connection.meta_info == Some(meta_info),
            !c.connection.traced,
            c.connection_id is None,
            !c.abandon,
            c.server_info == server_info,
    {
        let mut connection = Connection::default();
        connection.meta_info = Some(meta_info);
        GrpcConnection { connection, connection_id: None, abandon: false, server_info }
    }

    /// What sending a request over the push stream comes to: the queue took
    /// it, or the channel is closed.
    pub fn request_sent(&self, delivered: bool) -> (r: NacosResult<()>)
        ensures
            r is Ok <==> delivered,
            r matches Err(e) ==> e.kind == ErrorKind::ChannelClosed && e.message@
                == "config send failed"@,
    {
        if delivered {
            Ok(())
        } else {
            Err(NacosError::msg(ErrorKind::ChannelClosed, "config send failed"))
        }
    }

    /// What sending a response over the push stream comes to.
    pub fn response_sent(&self, delivered: bool) -> (r: NacosResult<()>)
        ensures
            r is Ok <==> delivered,
            r matches Err(e) ==> e.kind == ErrorKind::ChannelClosed && e.message@
                == "response send failed"@,
    {
        if delivered {
            Ok(())
        } else {
            Err(NacosError::msg(ErrorKind::ChannelClosed, "response send failed"))
        }
    }
}

} // verus!
