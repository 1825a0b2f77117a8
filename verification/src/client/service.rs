//! The config service that applications talk to.

use crate::client::worker::ClientWorker;
use vstd::prelude::*;

verus! {

/// The status of a service whose server is healthy.
pub const UP: &'static str = "UP";

/// The status of a service whose server is not healthy.
pub const DOWN: &'static str = "DOWN";

/// The config service: its worker, its namespace and its filter chain.
pub struct NacosConfigService<F> {
    pub worker: ClientWorker<F>,
    pub namespace: String,
    pub filter_chain: F,
}

impl<F> NacosConfigService<F> {
    /// `UP` where the worker's server is healthy, else `DOWN`.
    pub fn get_server_status(&self) -> (status: String)
        ensures
            status@ == (if self.worker.is_health_server {
                "UP"@
            } else {
                "DOWN"@
            }),
    {
        if self.worker.is_health_server {
            UP.to_owned()
        } else {
            DOWN.to_owned()
        }
    }
}

} // verus!
