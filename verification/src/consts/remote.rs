//! The labels by which a connection says where it comes from.

use vstd::prelude::*;

verus! {

pub const LABEL_SOURCE: &'static str = "source";

pub const LABEL_SOURCE_SDK: &'static str = "sdk";

pub const LABEL_SOURCE_CLUSTER: &'static str = "cluster";

} // verus!
