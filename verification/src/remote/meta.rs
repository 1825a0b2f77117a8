//! The generic request and response of the transport.

use crate::remote::request::RequestType;
use crate::remote::response::ResponseType;
use crate::strmap::StrMap;
use vstd::prelude::*;

verus! {

/// A request as the transport carries it.
#[derive(Debug)]
pub struct GRpcRequest {
    pub ty: RequestType,
    pub body: Vec<u8>,
    pub headers: StrMap<String>,
}

/// A response as the transport carries it.
#[derive(Debug)]
pub struct GRpcResponse {
    pub ty: ResponseType,
    pub body: Vec<u8>,
    pub headers: StrMap<String>,
}

} // verus!
