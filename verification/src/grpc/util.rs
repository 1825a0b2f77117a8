//! The envelope that carries every request and response, and the checks
//! that the codec makes on it.
//!
//! An envelope holds a type tag, the sender's address, headers and the
//! payload's bytes. The bytes are opaque here: the tag is the only thing
//! that tells what they hold.

use crate::error::{ErrorKind, NacosError, NacosResult};
use crate::remote::request::RequestExt;
use crate::remote::response::ResponseExt;
use crate::strmap::StrMap;
use crate::text::{concat, from_chars, sub_vec, to_chars};
use vstd::prelude::*;

verus! {

/// What an envelope says of its payload.
#[derive(Clone, Debug)]
pub struct Metadata {
    pub ty: String,
    pub client_ip: String,
    pub headers: StrMap<String>,
}

/// The payload's bytes.
#[derive(Clone, Debug)]
pub struct Any {
    pub type_url: String,
    pub value: Vec<u8>,
}

/// The envelope.
#[derive(Clone, Debug)]
pub struct Payload {
    pub metadata: Option<Metadata>,
    pub body: Option<Any>,
}

pub struct MetadataView {
    pub ty: Seq<char>,
    pub client_ip: Seq<char>,
    pub headers: Map<Seq<char>, Seq<char>>,
}

pub struct AnyView {
    pub type_url: Seq<char>,
    pub value: Seq<u8>,
}

pub struct PayloadView {
    pub metadata: Option<MetadataView>,
    pub body: Option<AnyView>,
}

impl View for Metadata {
    type V = MetadataView;

    open spec fn view(&self) -> MetadataView {
        MetadataView { ty: self.ty@, client_ip: self.client_ip@, headers: self.headers@ }
    }
}

impl View for Any {
    type V = AnyView;

    open spec fn view(&self) -> AnyView {
        AnyView { type_url: self.type_url@, value: self.value@ }
    }
}

impl View for Payload {
    type V = PayloadView;

    open spec fn view(&self) -> PayloadView {
        PayloadView {
            metadata: match self.metadata {
                Some(m) => Some(m@),
                None => None,
            },
            body: match self.body {
                Some(b) => Some(b@),
                None => None,
            },
        }
    }
}

/// The envelope of a payload: its tag, the sender, the headers and the bytes.
pub open spec fn encode(
    ty: Seq<char>,
    client_ip: Seq<char>,
    headers: Map<Seq<char>, Seq<char>>,
    body: Seq<u8>,
) -> PayloadView {
    PayloadView {
        metadata: Some(MetadataView { ty, client_ip, headers }),
        body: Some(AnyView { type_url: Seq::empty(), value: body }),
    }
}

/// Whether an envelope can be read as a payload of type `expected`.
pub open spec fn tag_check(p: PayloadView, expected: Seq<char>) -> Result<(), ErrorKind> {
    match p.metadata {
        None => Err(ErrorKind::Protocol),
        Some(md) => if md.ty == expected {
            Ok(())
        } else {
            Err(ErrorKind::TypeMismatch)
        },
    }
}

/// The headers and the bytes of an envelope that is read as a payload of type
/// `expected`. The tag is checked first, then the body must be there.
pub open spec fn decode(p: PayloadView, expected: Seq<char>) -> Result<
    (Map<Seq<char>, Seq<char>>, Seq<u8>),
    ErrorKind,
> {
    match tag_check(p, expected) {
        Err(kind) => Err(kind),
        Ok(_) => match p.body {
            None => Err(ErrorKind::Protocol),
            Some(b) => Ok((p.metadata.unwrap().headers, b.value)),
        },
    }
}

/// What was put into an envelope comes out of it when it is read under the
/// tag that it was written with.
pub proof fn law_decode_inverts_encode(
    ty: Seq<char>,
    client_ip: Seq<char>,
    headers: Map<Seq<char>, Seq<char>>,
    body: Seq<u8>,
)
    ensures
        decode(encode(ty, client_ip, headers, body), ty) == Ok::<
            (Map<Seq<char>, Seq<char>>, Seq<u8>),
            ErrorKind,
        >((headers, body)),
{
}

/// An envelope that is read under another tag than its own is a type mismatch.
pub proof fn law_decode_rejects_other_tag(
    ty: Seq<char>,
    client_ip: Seq<char>,
    headers: Map<Seq<char>, Seq<char>>,
    body: Seq<u8>,
    other: Seq<char>,
)
    requires
        other != ty,
    ensures
        decode(encode(ty, client_ip, headers, body), other) == Err::<
            (Map<Seq<char>, Seq<char>>, Seq<u8>),
            ErrorKind,
        >(ErrorKind::TypeMismatch),
{
}

/// The address that a client reports where its own could not be found.
pub open spec fn loopback() -> Seq<char> {
    "127.0.0.1"@
}

/// The client's address: the one found, else the loopback address.
pub fn local_ip_address(found: Option<String>) -> (ip: String)
    ensures
        ip@ == (match found {
            Some(s) => s@,
            None => loopback(),
        }),
{
    match found {
        Some(s) => s,
        None => "127.0.0.1".to_owned(),
    }
}

/// Puts metadata and bytes into an envelope.
pub fn convert(metadata: Metadata, body: Vec<u8>) -> (p: Payload)
    ensures
        p@ == (PayloadView {
            metadata: Some(metadata@),
            body: Some(AnyView { type_url: Seq::empty(), value: body@ }),
        }),
{
    Payload { metadata: Some(metadata), body: Some(Any { type_url: String::new(), value: body }) }
}

/// The envelope of a request: tagged with the request's type name, with the
/// request's headers, and with `body` as its bytes.
pub fn convert_request<Req: RequestExt>(request: &Req, client_ip: &str, body: Vec<u8>) -> (p:
    Payload)
    ensures
        p@ == encode(request.tag(), client_ip@, request.header_map(), body@),
        request.tag() == Req::type_tag(),
{
    let metadata = Metadata {
        ty: request.ty_name(),
        client_ip: client_ip.to_owned(),
        headers: request.headers(),
    };
    convert(metadata, body)
}

/// The envelope of a response: tagged with the response's type name, without
/// headers, and with `body` as its bytes.
pub fn convert_response<Resp: ResponseExt>(response: &Resp, client_ip: &str, body: Vec<u8>) -> (p:
    Payload)
    ensures
        p@ == encode(response.tag(), client_ip@, Map::empty(), body@),
        response.tag() == Resp::type_tag(),
{
    let metadata = Metadata {
        ty: response.ty_name(),
        client_ip: client_ip.to_owned(),
        headers: StrMap::new(),
    };
    convert(metadata, body)
}

/// Checks that an envelope carries a payload of type `expected`.
pub fn check_ty(payload: &Payload, expected: &str) -> (r: NacosResult<()>)
    ensures
        match r {
            Ok(_) => tag_check(payload@, expected@) is Ok,
            Err(e) => tag_check(payload@, expected@) == Err::<(), ErrorKind>(e.kind),
        },
        r matches Err(e) ==> e.message@ == (match payload@.metadata {
            None => "metadata is empty"@,
            Some(md) => "Unknown payload type: "@ + md.ty,
        }),
{
    match &payload.metadata {
        None => Err(NacosError::msg(ErrorKind::Protocol, "metadata is empty")),
        Some(md) => {
            let wanted = expected.to_owned();
            if md.ty == wanted {
                Ok(())
            } else {
                let text = concat("Unknown payload type: ".to_owned(), md.ty.as_str());
                Err(NacosError { kind: ErrorKind::TypeMismatch, message: text })
            }
        },
    }
}

fn copy_bytes(v: &Vec<u8>) -> (out: Vec<u8>)
    ensures
        out@ == v@,
{
    let mut out: Vec<u8> = Vec::new();
    let mut i: usize = 0;
    while i < v.len()
        invariant
            i <= v.len(),
            out@ == v@.take(i as int),
        decreases v.len() - i,
    {
        out.push(v[i]);
        i = i + 1;
    }
    out
}

/// Reads an envelope as a request of type `expected`: the headers to put
/// back into the request, and the bytes to build it from.
pub fn parse_request(payload: &Payload, expected: &str) -> (r: NacosResult<
    (StrMap<String>, Vec<u8>),
>)
    ensures
        match r {
            Ok((headers, body)) => decode(payload@, expected@) == Ok::<
                (Map<Seq<char>, Seq<char>>, Seq<u8>),
                ErrorKind,
            >((headers@, body@)),
            Err(e) => decode(payload@, expected@) == Err::<
                (Map<Seq<char>, Seq<char>>, Seq<u8>),
                ErrorKind,
            >(e.kind),
        },
{
    match check_ty(payload, expected) {
        Err(e) => {
            return Err(e);
        },
        Ok(_) => {},
    }
    match &payload.body {
        Some(body) => {
            let headers = match &payload.metadata {
                Some(md) => md.headers.duplicate(),
                None => StrMap::new(),
            };
            Ok((headers, copy_bytes(&body.value)))
        },
        None => Err(NacosError::msg(ErrorKind::Protocol, "request data is empty")),
    }
}

/// Reads an envelope as a response of type `expected`: the bytes to build it from.
pub fn parse_response(payload: &Payload, expected: &str) -> (r: NacosResult<Vec<u8>>)
    ensures
        match r {
            Ok(body) => decode(payload@, expected@) is Ok && decode(payload@, expected@).unwrap().1
                == body@,
            Err(e) => decode(payload@, expected@) == Err::<
                (Map<Seq<char>, Seq<char>>, Seq<u8>),
                ErrorKind,
            >(e.kind),
        },
{
    match check_ty(payload, expected) {
        Err(e) => {
            return Err(e);
        },
        Ok(_) => {},
    }
    match &payload.body {
        Some(body) => Ok(copy_bytes(&body.value)),
        None => Err(NacosError::msg(ErrorKind::Protocol, "payload body is empty")),
    }
}

/// Reads an envelope as a request of the type `Req`: the headers to put
/// back into the request, and the bytes to build it from.
pub fn parse_request_as<Req: RequestExt>(payload: &Payload) -> (r: NacosResult<
    (StrMap<String>, Vec<u8>),
>)
    ensures
        match r {
            Ok((headers, body)) => decode(payload@, Req::type_tag()) == Ok::<
                (Map<Seq<char>, Seq<char>>, Seq<u8>),
                ErrorKind,
            >((headers@, body@)),
            Err(e) => decode(payload@, Req::type_tag()) == Err::<
                (Map<Seq<char>, Seq<char>>, Seq<u8>),
                ErrorKind,
            >(e.kind),
        },
{
    let tag = Req::ty();
    parse_request(payload, tag.as_str())
}

/// Reads an envelope as a response of the type `Resp`: the bytes to build it from.
pub fn parse_response_as<Resp: ResponseExt>(payload: &Payload) -> (r: NacosResult<Vec<u8>>)
    ensures
        match r {
            Ok(body) => decode(payload@, Resp::type_tag()) is Ok && decode(
                payload@,
                Resp::type_tag(),
            ).unwrap().1 == body@,
            Err(e) => decode(payload@, Resp::type_tag()) == Err::<
                (Map<Seq<char>, Seq<char>>, Seq<u8>),
                ErrorKind,
            >(e.kind),
        },
{
    let tag = Resp::ty();
    parse_response(payload, tag.as_str())
}

/// Where the last `::` of `s` begins, or -1 where `s` has none.
pub open spec fn last_path_sep(s: Seq<char>) -> int
    decreases s.len(),
{
    if s.len() < 2 {
        -1
    } else if s[s.len() - 2] == ':' && s[s.len() - 1] == ':' {
        s.len() - 2
    } else {
        last_path_sep(s.drop_last())
    }
}

/// A type's name without the path in front of it.
pub open spec fn unqualified(s: Seq<char>) -> Seq<char> {
    let i = last_path_sep(s);
    if i >= 0 {
        s.skip(i + 2)
    } else {
        s
    }
}

/// The unqualified name of a type, from the name that the compiler gives it.
pub fn get_type_name(full_name: &str) -> (name: String)
    ensures
        name@ == unqualified(full_name@),
{
    let v = to_chars(full_name);
    let mut i: usize = v.len();
    proof {
        assert(v@.take(v.len() as int) == v@);
    }
    while i >= 2
        invariant
            i <= v.len(),
            v@ == full_name@,
            last_path_sep(v@) == last_path_sep(v@.take(i as int)),
        decreases i,
    {
        if v[i - 2] == ':' && v[i - 1] == ':' {
            let tail = sub_vec(&v, i, v.len());
            proof {
                let t = v@.take(i as int);
                assert(t[t.len() - 2] == ':' && t[t.len() - 1] == ':');
                assert(last_path_sep(t) == i - 2);
                assert(v@.subrange(i as int, v.len() as int) == v@.skip(i as int));
            }
            return from_chars(&tail);
        }
        proof {
            assert(v@.take(i as int).drop_last() == v@.take(i as int - 1));
        }
        i = i - 1;
    }
    from_chars(&v)
}

} // verus!
