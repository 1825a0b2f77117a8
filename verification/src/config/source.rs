//! One config as a source of properties.

use crate::strmap::StrMap;
use vstd::prelude::*;

verus! {

/// The properties that one config item contributes.
#[derive(Debug)]
pub struct NacosPropertySource {
    pub group_id: String,
    pub data_id: String,
    pub c_type: String,
    pub auto_refreshed: bool,
    pub properties: StrMap<String>,
}

} // verus!
