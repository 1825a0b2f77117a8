//! The routes of the server's HTTP interface.

use vstd::prelude::*;

verus! {

/// The path under which configs are read.
pub const API_CONFIGS: &'static str = "/nacos/v1/cs/configs";

/// The parameters of reading a config.
#[derive(Debug)]
pub struct GetNacosConfigs {
    pub tenant: String,
    pub data_id: String,
    pub group: String,
}

} // verus!
