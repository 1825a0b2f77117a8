//! The metadata of a connection.

use crate::ability::{default_abilities, ClientAbilities};
use crate::strmap::StrMap;
use crate::text::{eq_ignore_ascii_case, str_eq_ignore_ascii_case};
use vstd::prelude::*;

verus! {

/// Identity and activity of a connection. Times are in milliseconds, but for
/// `last_active_time`, which is in seconds.
#[derive(Debug)]
pub struct ConnectionMeta {
    pub connect_type: String,
    pub client_ip: String,
    pub remote_ip: String,
    pub remote_port: u16,
    pub local_port: u16,
    pub version: String,
    /// Assigned by the server; absent until the server check has answered.
    pub connection_id: Option<String>,
    pub create_time: i64,
    pub last_active_time: u64,
    pub app_name: String,
    pub tenant: Option<String>,
    pub labels: StrMap<String>,
}

/// Whether the labels name `source` as their source, in any case of letters.
pub open spec fn source_is(labels: Map<Seq<char>, Seq<char>>, source: Seq<char>) -> bool {
    labels.contains_key("source"@) && eq_ignore_ascii_case(labels["source"@], source)
}

impl ConnectionMeta {
    /// Whether the connection comes from an SDK.
    pub fn is_sdk_source(&self) -> (r: bool)
        ensures
            r == source_is(self.labels@, "sdk"@),
    {
        match self.labels.get("source") {
            Some(source) => str_eq_ignore_ascii_case(source.as_str(), "sdk"),
            None => false,
        }
    }

    /// Whether the connection comes from a member of the cluster.
    pub fn is_cluster_source(&self) -> (r: bool)
        ensures
            r == source_is(self.labels@, "cluster"@),
    {
        match self.labels.get("source") {
            Some(source) => str_eq_ignore_ascii_case(source.as_str(), "cluster"),
            None => false,
        }
    }
}

/// A connection as the protocol sees it.
#[derive(Debug)]
pub struct Connection {
    pub traced: bool,
    pub abilities: ClientAbilities,
    pub meta_info: Option<ConnectionMeta>,
}

impl Connection {
    /// Notes that the connection was active at the time `now`, in seconds.
    /// A connection without metadata stays as it is.
    pub fn fresh_active_time(&mut self, now: u64)
        ensures
            final(self).traced == old(self).traced,
            final(self).abilities == old(self).abilities,
            match old(self).meta_info {
                Some(before) => final(self).meta_info matches Some(after) && after.last_active_time
                    == now && after.connect_type == before.connect_type && after.client_ip
                    == before.client_ip && after.remote_ip == before.remote_ip && after.remote_port
                    == before.remote_port && after.local_port == before.local_port && after.version
                    == before.version && after.connection_id == before.connection_id
                    && after.create_time == before.create_time && after.app_name
                    == before.app_name && after.tenant == before.tenant && after.labels
                    == before.labels,
                None => final(self).meta_info is None,
            },
    {
        let mut meta_info: Option<ConnectionMeta> = None;
        core::mem::swap(&mut self.meta_info, &mut meta_info);
        match meta_info {
            Some(meta) => {
                let mut meta = meta;
                meta.last_active_time = now;
                self.meta_info = Some(meta);
            },
            None => {},
        }
    }
}

impl Default for Connection {
    fn default() -> (c: Self)
        ensures
            !c.traced,
            c.abilities == default_abilities(),
            c.meta_info is None,
    {
        Connection { traced: false, abilities: ClientAbilities::default(), meta_info: None }
    }
}

} // verus!
