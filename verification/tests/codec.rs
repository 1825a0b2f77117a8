use nacos_client::error::ErrorKind;
use nacos_client::grpc::util::{
    check_ty, convert, convert_request, convert_response, get_type_name, local_ip_address,
    parse_request, parse_request_as, parse_response, parse_response_as, Metadata, Payload,
};
use nacos_client::remote::request::{
    ConfigBatchListenRequest, ConfigListenContext, ConfigRequest, HealthCheckRequest,
    InternalRequest, RequestExt, RpcRequest, ServerCheckRequest,
};
use nacos_client::remote::response::{
    ErrorResponse, ResponseCode, ResponseExt, ServerCheckResponse, RpcResponse,
};
use nacos_client::strmap::StrMap;

#[test]
fn decode_gives_back_what_encode_was_given() {
    let mut request = ServerCheckRequest::new();
    request.inner.headers.insert("token".to_string(), "abc".to_string());
    let body = b"{\"headers\":{}}".to_vec();
    let payload = convert_request(&request, "10.0.0.7", body.clone());
    let md = payload.metadata.as_ref().unwrap();
    assert_eq!(md.ty, "ServerCheckRequest");
    assert_eq!(md.client_ip, "10.0.0.7");
    assert_eq!(md.headers.get("token"), Some(&"abc".to_string()));
    assert_eq!(payload.body.as_ref().unwrap().type_url, "");
    let (headers, bytes) = parse_request(&payload, "ServerCheckRequest").unwrap();
    assert_eq!(bytes, body);
    assert_eq!(headers.len(), 1);
    assert_eq!(headers.get("token"), Some(&"abc".to_string()));
}

#[test]
fn decode_under_another_tag_is_a_type_mismatch() {
    let request = ServerCheckRequest::new();
    let payload = convert_request(&request, "10.0.0.7", b"{}".to_vec());
    let err = parse_request(&payload, "HealthCheckRequest").unwrap_err();
    assert_eq!(err.kind, ErrorKind::TypeMismatch);
    assert_eq!(err.message, "Unknown payload type: ServerCheckRequest");
    let err = parse_response(&payload, "ServerCheckResponse").unwrap_err();
    assert_eq!(err.kind, ErrorKind::TypeMismatch);
    assert_eq!(check_ty(&payload, "ServerCheckRequest").is_ok(), true);
}

#[test]
fn response_envelope_has_no_headers() {
    let response = ServerCheckResponse {
        inner: RpcResponse { result_code: 200, error_code: 0, message: None, request_id: None },
        connection_id: "c1".to_string(),
    };
    let payload = convert_response(&response, "10.0.0.7", b"{\"connectionId\":\"c1\"}".to_vec());
    let md = payload.metadata.as_ref().unwrap();
    assert_eq!(md.ty, "ServerCheckResponse");
    assert_eq!(md.headers.len(), 0);
    let bytes = parse_response(&payload, "ServerCheckResponse").unwrap();
    assert_eq!(bytes, b"{\"connectionId\":\"c1\"}".to_vec());
}

#[test]
fn envelope_without_metadata_or_body_is_a_protocol_error() {
    let empty = Payload { metadata: None, body: None };
    let err = parse_request(&empty, "ServerCheckRequest").unwrap_err();
    assert_eq!(err.kind, ErrorKind::Protocol);
    assert_eq!(err.message, "metadata is empty");
    let md = Metadata { ty: "T".to_string(), client_ip: "".to_string(), headers: StrMap::new() };
    let no_body = Payload { metadata: Some(md), body: None };
    let err = parse_request(&no_body, "T").unwrap_err();
    assert_eq!(err.kind, ErrorKind::Protocol);
    assert_eq!(err.message, "request data is empty");
    let err = parse_response(&no_body, "T").unwrap_err();
    assert_eq!(err.kind, ErrorKind::Protocol);
    assert_eq!(err.message, "payload body is empty");
    assert_eq!(parse_response(&no_body, "U").unwrap_err().kind, ErrorKind::TypeMismatch);
}

#[test]
fn convert_keeps_metadata_and_bytes() {
    let md = Metadata { ty: "T".to_string(), client_ip: "1.2.3.4".to_string(), headers: StrMap::new() };
    let payload = convert(md, vec![1, 2, 3]);
    assert_eq!(payload.metadata.as_ref().unwrap().ty, "T");
    assert_eq!(payload.body.as_ref().unwrap().value, vec![1, 2, 3]);
}

#[test]
fn type_name_is_what_follows_the_last_path_separator() {
    assert_eq!(get_type_name("a::b::ServerCheckRequest"), "ServerCheckRequest");
    assert_eq!(get_type_name("ServerCheckRequest"), "ServerCheckRequest");
    assert_eq!(get_type_name("a:::b"), "b");
    assert_eq!(get_type_name("a::"), "");
    assert_eq!(get_type_name(""), "");
    assert_eq!(get_type_name("a:b"), "a:b");
}

#[test]
fn client_ip_falls_back_to_loopback() {
    assert_eq!(local_ip_address(None), "127.0.0.1");
    assert_eq!(local_ip_address(Some("192.168.1.9".to_string())), "192.168.1.9");
}

#[test]
fn requests_know_their_names_and_modules() {
    let check = ServerCheckRequest::new();
    assert_eq!(check.ty_name(), "ServerCheckRequest");
    assert_eq!(InternalRequest::get_module(&check), "internal");
    let health = HealthCheckRequest { inner: RpcRequest::default() };
    assert_eq!(health.ty_name(), "HealthCheckRequest");
    let listen = ConfigBatchListenRequest::default();
    assert!(listen.listen);
    assert!(listen.config_listen_contexts.is_empty());
    assert_eq!(listen.ty_name(), "ConfigBatchListenRequest");
    assert_eq!(ConfigRequest::get_module(&listen), "config");
    assert_eq!(RpcRequest::default().ty_name(), "RpcRequest");
}

#[test]
fn headers_can_be_read_and_cleared() {
    let mut request = ServerCheckRequest::new();
    assert_eq!(request.headers().len(), 0);
    request.inner.headers.insert("k".to_string(), "v".to_string());
    assert_eq!(request.headers().get("k"), Some(&"v".to_string()));
    request.clear_headers();
    assert_eq!(request.headers().len(), 0);
}

#[test]
fn batch_listen_request_holds_its_contexts() {
    let context = ConfigListenContext::new("DEFAULT_GROUP".to_string(), None, String::from("test"), None);
    assert_eq!(context.group, "DEFAULT_GROUP");
    assert_eq!(context.data_id, "test");
    assert_eq!(context.md5, None);
    let request = ConfigBatchListenRequest::new(RpcRequest::default(), false, vec![context]);
    assert!(!request.listen);
    assert_eq!(request.config_listen_contexts.len(), 1);
}

#[test]
fn response_codes() {
    assert_eq!(ResponseCode::from_u16(200).unwrap().desc, "Response ok");
    assert_eq!(ResponseCode::from_u16(200).unwrap().code, 200);
    assert_eq!(ResponseCode::from_u16(500).unwrap().desc, "Response fail");
    assert!(ResponseCode::from_u16(404).is_none());
    assert_eq!(ResponseCode::success().code, 200);
    assert_eq!(ResponseCode::fail().code, 500);
}

#[test]
fn error_response_carries_code_and_message() {
    let response = ErrorResponse::build(403, "denied".to_string());
    assert_eq!(response.inner.result_code, 200);
    assert_eq!(response.inner.error_code, 403);
    assert_eq!(response.inner.message, Some("denied".to_string()));
    assert_eq!(response.inner.request_id, None);
    assert_eq!(response.ty_name(), "ErrorResponse");
}

#[test]
fn envelopes_are_read_by_type() {
    let request = ServerCheckRequest::new();
    let payload = convert_request(&request, "10.0.0.7", b"{}".to_vec());
    assert_eq!(ServerCheckRequest::ty(), "ServerCheckRequest");
    assert_eq!(HealthCheckRequest::ty(), request.ty_name().replace("ServerCheck", "HealthCheck"));
    assert_eq!(parse_request_as::<ServerCheckRequest>(&payload).unwrap().1, b"{}".to_vec());
    let err = parse_request_as::<HealthCheckRequest>(&payload).unwrap_err();
    assert_eq!(err.kind, ErrorKind::TypeMismatch);
    assert_eq!(ServerCheckResponse::ty(), "ServerCheckResponse");
    assert_eq!(ErrorResponse::ty(), "ErrorResponse");
    let err = parse_response_as::<ServerCheckResponse>(&payload).unwrap_err();
    assert_eq!(err.kind, ErrorKind::TypeMismatch);
}
