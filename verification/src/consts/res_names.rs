//! The fields of the login endpoint's answer.

use vstd::prelude::*;

verus! {

pub const RESP_ACCESS_TOKEN: &'static str = "accessToken";

pub const RESP_TOKEN_TTL: &'static str = "tokenTtl";

pub const RESP_GLOBAL_ADMIN: &'static str = "globalAdmin";

} // verus!
