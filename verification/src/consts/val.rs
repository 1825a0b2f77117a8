//! Default values of the client's properties.

use vstd::prelude::*;

verus! {

pub const CONFIG_LONG_POLL_TIMEOUT: i32 = 30000;

pub const MIN_CONFIG_LONG_POLL_TIMEOUT: i32 = 10000;

pub const CONFIG_RETRY_TIME: i32 = 1000;

pub const DEFAULT_NAMESPACE: &'static str = "";

pub const DEFAULT_GROUP: &'static str = "DEFAULT_GROUP";

} // verus!
