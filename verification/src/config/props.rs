//! The settings of a client, as read from its configuration.

use crate::config::ty::ConfigType;
use vstd::prelude::*;

verus! {

/// The settings of a client. A setting that is absent is `None`.
#[derive(Debug)]
pub struct NacosConfigProperties {
    pub server_addrs: Option<Vec<String>>,
    pub context_path: Option<String>,
    pub encode: Option<String>,
    pub endpoint: Option<String>,
    pub namespace: Option<String>,
    pub access_key: Option<String>,
    pub secret_key: Option<String>,
    pub auto_refreshed: Option<bool>,
    pub data_ids: Option<Vec<String>>,
    pub group: Option<String>,
    pub ty: Option<ConfigType>,
    pub username: Option<String>,
    pub password: Option<String>,
    pub max_retry: Option<String>,
    pub long_poll_timeout: Option<String>,
    pub retry_time: Option<String>,
    pub enable_remote_sync_config: Option<bool>,
}

impl Default for NacosConfigProperties {
    /// One server at `127.0.0.1:8848`, an empty context path, UTF-8, the
    /// default group, the properties format, no automatic refresh; nothing
    /// else is set.
    fn default() -> (p: Self)
        ensures
            p.server_addrs matches Some(addrs) && addrs@.len() == 1 && addrs@[0]@
                == "127.0.0.1:8848"@,
            p.context_path matches Some(path) && path@ == Seq::<char>::empty(),
            p.encode matches Some(encode) && encode@ == "UTF-8"@,
            p.group matches Some(group) && group@ == "DEFAULT_GROUP"@,
            p.auto_refreshed == Some(false),
            p.ty == Some(ConfigType::PROPERTIES),
            p.endpoint is None,
            p.namespace is None,
            p.access_key is None,
            p.secret_key is None,
            p.data_ids is None,
            p.username is None,
            p.password is None,
            p.max_retry is None,
            p.long_poll_timeout is None,
            p.retry_time is None,
            p.enable_remote_sync_config is None,
    {
        let mut addrs: Vec<String> = Vec::new();
        addrs.push("127.0.0.1:8848".to_owned());
        NacosConfigProperties {
            server_addrs: Some(addrs),
            context_path: Some(String::new()),
            encode: Some("UTF-8".to_owned()),
            endpoint: None,
            namespace: None,
            access_key: None,
            secret_key: None,
            auto_refreshed: Some(false),
            data_ids: None,
            group: Some("DEFAULT_GROUP".to_owned()),
            ty: Some(ConfigType::PROPERTIES),
            username: None,
            password: None,
            max_retry: None,
            long_poll_timeout: None,
            retry_time: None,
            enable_remote_sync_config: None,
        }
    }
}

} // verus!
