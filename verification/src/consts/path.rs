//! Where the client keeps files.

use vstd::prelude::*;

verus! {

pub const FILE_PATH_PREFIX: &'static str = "nacos/conf";

} // verus!
