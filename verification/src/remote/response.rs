//! Messages from the server to the client, and replies to server requests.

use crate::strmap::StrMap;
use vstd::prelude::*;

verus! {

pub const CODE_SUCCESS: u16 = 200;

pub const CODE_FAIL: u16 = 500;

/// The kinds of response that the generic envelope distinguishes.
#[derive(Clone, Copy, Debug, PartialEq, Eq, Structural)]
pub enum ResponseType {
    Response,
}

/// A result code with its description.
#[derive(Clone, Copy, Debug)]
pub struct ResponseCode {
    pub code: u16,
    pub desc: &'static str,
}

impl ResponseCode {
    /// The code of a call that went well.
    pub fn success() -> (c: ResponseCode)
        ensures
            c.code == CODE_SUCCESS,
            c.desc@ == "Response ok"@,
    {
        ResponseCode { code: 200, desc: "Response ok" }
    }

    /// The code of a call that failed.
    pub fn fail() -> (c: ResponseCode)
        ensures
            c.code == CODE_FAIL,
            c.desc@ == "Response fail"@,
    {
        ResponseCode { code: 500, desc: "Response fail" }
    }

    /// The response code with the given number, where there is one.
    pub fn from_u16(code: u16) -> (r: Option<ResponseCode>)
        ensures
            r is Some <==> (code == CODE_SUCCESS || code == CODE_FAIL),
            r matches Some(c) ==> c.code == code && c.desc@ == (if code == CODE_SUCCESS {
                "Response ok"@
            } else {
                "Response fail"@
            }),
    {
        if code == CODE_SUCCESS {
            Some(ResponseCode::success())
        } else if code == CODE_FAIL {
            Some(ResponseCode::fail())
        } else {
            None
        }
    }
}

/// What every response has.
#[derive(Clone, Debug)]
pub struct RpcResponse {
    pub result_code: u16,
    pub error_code: u32,
    pub message: Option<String>,
    pub request_id: Option<String>,
}

/// What the codec needs of a response: the tag under which it travels.
pub trait ResponseExt {
    /// The unqualified name of the response's type.
    spec fn tag(&self) -> Seq<char>;

    /// The tag under which every response of the type travels.
    spec fn type_tag() -> Seq<char>;

    /// The tag of the type, without a response at hand.
    fn ty() -> (n: String)
        ensures
            n@ == Self::type_tag(),
    ;

    fn ty_name(&self) -> (n: String)
        ensures
            n@ == self.tag(),
            n@ == Self::type_tag(),
    ;
}

#[derive(Clone, Debug)]
pub struct Response {
    pub inner: RpcResponse,
}

#[derive(Clone, Debug)]
pub struct ClientDetectionResponse {
    pub inner: RpcResponse,
}

#[derive(Clone, Debug)]
pub struct ConnectResetResponse {
    pub inner: RpcResponse,
}

#[derive(Clone, Debug)]
pub struct ErrorResponse {
    pub inner: RpcResponse,
}

impl ErrorResponse {
    /// An error reply with the given error code and message. Its result code
    /// is `CODE_SUCCESS`, and it names no request.
    pub fn build(error_code: u32, msg: String) -> (r: ErrorResponse)
        ensures
            r.inner.result_code == CODE_SUCCESS,
            r.inner.error_code == error_code,
            r.inner.message == Some(msg),
            r.inner.request_id is None,
    {
        let response = RpcResponse {
            result_code: CODE_SUCCESS,
            error_code,
            message: Some(msg),
            request_id: None,
        };
        ErrorResponse { inner: response }
    }
}

#[derive(Clone, Debug)]
pub struct HealthCheckResponse {
    pub inner: RpcResponse,
}

#[derive(Clone, Debug)]
pub struct ServerCheckResponse {
    pub inner: RpcResponse,
    pub connection_id: String,
}

#[derive(Clone, Debug)]
pub struct ServerLoaderInfoResponse {
    pub inner: RpcResponse,
    pub address: String,
    pub loader_metrics: StrMap<Option<String>>,
}

#[derive(Clone, Debug)]
pub struct ServerReloadResponse {
    pub inner: RpcResponse,
}

impl ResponseExt for Response {
    open spec fn tag(&self) -> Seq<char> {
        "Response"@
    }

    open spec fn type_tag() -> Seq<char> {
        "Response"@
    }

    fn ty() -> (n: String) {
        "Response".to_owned()
    }

    fn ty_name(&self) -> (n: String) {
        "Response".to_owned()
    }
}

impl ResponseExt for ClientDetectionResponse {
    open spec fn tag(&self) -> Seq<char> {
        "ClientDetectionResponse"@
    }

    open spec fn type_tag() -> Seq<char> {
        "ClientDetectionResponse"@
    }

    fn ty() -> (n: String) {
        "ClientDetectionResponse".to_owned()
    }

    fn ty_name(&self) -> (n: String) {
        "ClientDetectionResponse".to_owned()
    }
}

impl ResponseExt for ConnectResetResponse {
    open spec fn tag(&self) -> Seq<char> {
        "ConnectResetResponse"@
    }

    open spec fn type_tag() -> Seq<char> {
        "ConnectResetResponse"@
    }

    fn ty() -> (n: String) {
        "ConnectResetResponse".to_owned()
    }

    fn ty_name(&self) -> (n: String) {
        "ConnectResetResponse".to_owned()
    }
}

impl ResponseExt for ErrorResponse {
    open spec fn tag(&self) -> Seq<char> {
        "ErrorResponse"@
    }

    open spec fn type_tag() -> Seq<char> {
        "ErrorResponse"@
    }

    fn ty() -> (n: String) {
        "ErrorResponse".to_owned()
    }

    fn ty_name(&self) -> (n: String) {
        "ErrorResponse".to_owned()
    }
}

impl ResponseExt for HealthCheckResponse {
    open spec fn tag(&self) -> Seq<char> {
        "HealthCheckResponse"@
    }

    open spec fn type_tag() -> Seq<char> {
        "HealthCheckResponse"@
    }

    fn ty() -> (n: String) {
        "HealthCheckResponse".to_owned()
    }

    fn ty_name(&self) -> (n: String) {
        "HealthCheckResponse".to_owned()
    }
}

impl ResponseExt for ServerCheckResponse {
    open spec fn tag(&self) -> Seq<char> {
        "ServerCheckResponse"@
    }

    open spec fn type_tag() -> Seq<char> {
        "ServerCheckResponse"@
    }

    fn ty() -> (n: String) {
        "ServerCheckResponse".to_owned()
    }

    fn ty_name(&self) -> (n: String) {
        "ServerCheckResponse".to_owned()
    }
}

impl ResponseExt for ServerLoaderInfoResponse {
    open spec fn tag(&self) -> Seq<char> {
        "ServerLoaderInfoResponse"@
    }

    open spec fn type_tag() -> Seq<char> {
        "ServerLoaderInfoResponse"@
    }

    fn ty() -> (n: String) {
        "ServerLoaderInfoResponse".to_owned()
    }

    fn ty_name(&self) -> (n: String) {
        "ServerLoaderInfoResponse".to_owned()
    }
}

impl ResponseExt for ServerReloadResponse {
    open spec fn tag(&self) -> Seq<char> {
        "ServerReloadResponse"@
    }

    open spec fn type_tag() -> Seq<char> {
        "ServerReloadResponse"@
    }

    fn ty() -> (n: String) {
        "ServerReloadResponse".to_owned()
    }

    fn ty_name(&self) -> (n: String) {
        "ServerReloadResponse".to_owned()
    }
}

} // verus!
