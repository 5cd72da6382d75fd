//! Plain-value model of the HTTP data this crate handles.

use vstd::prelude::*;

verus! {

/// How a response body is delivered: `Full` buffers everything and hands the
/// body over with the head; `Chunked` streams frames after an explicit flush.
#[derive(Clone, Copy, Debug, PartialEq, Eq, Structural)]
pub enum ResponseType {
    Full,
    Chunked,
}

/// HTTP protocol versions the engine is told about.
#[derive(Clone, Copy, Debug, PartialEq, Eq, Structural)]
pub enum HttpVersion {
    Http09,
    Http10,
    Http11,
    Http2,
    Http3,
}

/// The engine's protocol number for a version: major * 1000 + minor * 100.
pub open spec fn spec_proto_num(v: HttpVersion) -> i32 {
    match v {
        HttpVersion::Http09 => 900,
        HttpVersion::Http10 => 1000,
        HttpVersion::Http11 => 1100,
        HttpVersion::Http2 => 2000,
        HttpVersion::Http3 => 3000,
    }
}

/// Returns the engine's protocol number for `v`.
pub fn proto_num(v: HttpVersion) -> (r: i32)
    ensures
        r == spec_proto_num(v),
{
    match v {
        HttpVersion::Http09 => 900,
        HttpVersion::Http10 => 1000,
        HttpVersion::Http11 => 1100,
        HttpVersion::Http2 => 2000,
        HttpVersion::Http3 => 3000,
    }
}

/// A response status code as it leaves this crate: within 100..=999.
pub open spec fn valid_status(s: u16) -> bool {
    100 <= s <= 999
}

/// The status the response carries for an engine-reported code: `0` and
/// out-of-range codes fall back to the default `200`.
pub open spec fn spec_effective_status(code: i32) -> u16 {
    if 100 <= code <= 999 {
        code as u16
    } else {
        200
    }
}

/// Maps the engine's raw response code to the status actually sent.
pub fn effective_status(code: i32) -> (r: u16)
    ensures
        r == spec_effective_status(code),
        valid_status(r),
{
    if 100 <= code && code <= 999 {
        code as u16
    } else {
        200
    }
}

/// Status and headers of a response, together with its delivery kind.
pub struct ResponseHead {
    pub status: u16,
    pub headers: Vec<(Vec<u8>, Vec<u8>)>,
    pub kind: ResponseType,
}

/// Mathematical image of a [`ResponseHead`].
pub ghost struct HeadView {
    pub status: u16,
    pub headers: Seq<(Seq<u8>, Seq<u8>)>,
    pub kind: ResponseType,
}

/// View of a header list as pairs of byte sequences.
pub open spec fn headers_view(headers: Seq<(Vec<u8>, Vec<u8>)>) -> Seq<(Seq<u8>, Seq<u8>)> {
    headers.map_values(|h: (Vec<u8>, Vec<u8>)| (h.0@, h.1@))
}

impl View for ResponseHead {
    type V = HeadView;

    open spec fn view(&self) -> HeadView {
        HeadView { status: self.status, headers: headers_view(self.headers@), kind: self.kind }
    }
}

/// A response head with the given status, no headers and a full body.
pub fn make_response(status: u16) -> (r: ResponseHead)
    requires
        valid_status(status),
    ensures
        r@.status == status,
        r@.headers.len() == 0,
        r@.kind == ResponseType::Full,
{
    let r = ResponseHead { status, headers: Vec::new(), kind: ResponseType::Full };
    assert(r@.headers =~= Seq::<(Seq<u8>, Seq<u8>)>::empty());
    r
}

/// Head of an empty 400 response, for requests the engine cannot represent.
pub fn bad_request() -> (r: ResponseHead)
    ensures
        r@.status == 400,
        r@.headers.len() == 0,
{
    make_response(400)
}

/// Head of an empty 500 response, for faults inside the execution.
pub fn internal_server_error() -> (r: ResponseHead)
    ensures
        r@.status == 500,
        r@.headers.len() == 0,
{
    make_response(500)
}

/// Head of an empty 503 response, for a refused per-request startup.
pub fn service_unavailable() -> (r: ResponseHead)
    ensures
        r@.status == 503,
        r@.headers.len() == 0,
{
    make_response(503)
}

/// Head of an empty 504 response, for requests cut off by the outer deadline.
pub fn gateway_timeout() -> (r: ResponseHead)
    ensures
        r@.status == 504,
        r@.headers.len() == 0,
{
    make_response(504)
}

/// Consumer side of a `Full` delivery: drains the received frames into the
/// one buffer the response carries.
pub fn assemble_full(frames: Vec<Vec<u8>>) -> (r: Vec<u8>)
    ensures
        r@ == crate::bytes_util::concat_seqs(frames.deep_view()),
{
    broadcast use crate::bytes_util::lemma_bytes_deep_view;

    let mut out: Vec<u8> = Vec::new();
    let n = frames.len();
    let mut i: usize = 0;
    proof {
        assert(frames.deep_view().take(0) =~= Seq::<Seq<u8>>::empty());
        assert(out@ =~= crate::bytes_util::concat_seqs(frames.deep_view().take(0)));
    }
    while i < n
        invariant
            n == frames@.len(),
            i <= n,
            out@ == crate::bytes_util::concat_seqs(frames.deep_view().take(i as int)),
        decreases n - i,
    {
        crate::bytes_util::push_all(&mut out, frames[i].as_slice());
        proof {
            assert(frames.deep_view().take(i + 1).drop_last() =~= frames.deep_view().take(
                i as int,
            ));
            assert(frames.deep_view().take(i + 1).last() == frames.deep_view()[i as int]);
        }
        i += 1;
    }
    proof {
        assert(frames.deep_view().take(n as int) =~= frames.deep_view());
    }
    out
}

/// A socket address as plain values: textual IP and port.
pub struct SocketAddress {
    pub ip: Vec<u8>,
    pub port: u16,
}

/// Mathematical image of a [`SocketAddress`].
pub ghost struct SocketAddressView {
    pub ip: Seq<u8>,
    pub port: u16,
}

impl View for SocketAddress {
    type V = SocketAddressView;

    open spec fn view(&self) -> SocketAddressView {
        SocketAddressView { ip: self.ip@, port: self.port }
    }
}

/// The two endpoints of the connection a request arrived on.
pub struct Stream {
    local_addr: SocketAddress,
    peer_addr: SocketAddress,
}

/// Mathematical image of a [`Stream`].
pub ghost struct StreamView {
    pub local_addr: SocketAddressView,
    pub peer_addr: SocketAddressView,
}

impl View for Stream {
    type V = StreamView;

    closed spec fn view(&self) -> StreamView {
        StreamView { local_addr: self.local_addr@, peer_addr: self.peer_addr@ }
    }
}

impl Stream {
    /// Pairs the local and peer addresses of a connection.
    pub fn new(local_addr: SocketAddress, peer_addr: SocketAddress) -> (r: Stream)
        ensures
            r@.local_addr == local_addr@,
            r@.peer_addr == peer_addr@,
    {
        Stream { local_addr, peer_addr }
    }

    /// The address this server accepted the connection on.
    pub fn local_addr(&self) -> (r: &SocketAddress)
        ensures
            r@ == self@.local_addr,
    {
        &self.local_addr
    }

    /// The client's address.
    pub fn peer_addr(&self) -> (r: &SocketAddress)
        ensures
            r@ == self@.peer_addr,
    {
        &self.peer_addr
    }
}

/// An inbound request as plain values. Header names are expected in their
/// lower-case form, as the connection layer normalizes them.
pub struct HttpRequest {
    pub method: Vec<u8>,
    pub uri_path: Vec<u8>,
    pub query: Option<Vec<u8>>,
    pub version: HttpVersion,
    pub headers: Vec<(Vec<u8>, Vec<u8>)>,
    pub body: Vec<u8>,
}

/// Mathematical image of an [`HttpRequest`].
pub ghost struct RequestView {
    pub method: Seq<u8>,
    pub uri_path: Seq<u8>,
    pub query: Option<Seq<u8>>,
    pub version: HttpVersion,
    pub headers: Seq<(Seq<u8>, Seq<u8>)>,
    pub body: Seq<u8>,
}

impl View for HttpRequest {
    type V = RequestView;

    open spec fn view(&self) -> RequestView {
        RequestView {
            method: self.method@,
            uri_path: self.uri_path@,
            query: match self.query {
                Option::Some(q) => Option::Some(q@),
                Option::None => Option::None,
            },
            version: self.version,
            headers: headers_view(self.headers@),
            body: self.body@,
        }
    }
}

/// Value of the first header named `name`, if any.
pub open spec fn spec_header_value(headers: Seq<(Seq<u8>, Seq<u8>)>, name: Seq<u8>) -> Option<
    Seq<u8>,
>
    decreases headers.len(),
{
    if headers.len() == 0 {
        Option::None
    } else if headers[0].0 == name {
        Option::Some(headers[0].1)
    } else {
        spec_header_value(headers.drop_first(), name)
    }
}

/// Looks up the first header named `name` and copies its value out.
pub fn header_value(headers: &Vec<(Vec<u8>, Vec<u8>)>, name: &[u8]) -> (r: Option<Vec<u8>>)
    ensures
        (match r {
            Option::Some(v) => spec_header_value(headers_view(headers@), name@) == Option::Some(
                v@,
            ),
            Option::None => spec_header_value(headers_view(headers@), name@) is None,
        }),
{
    let ghost all = headers_view(headers@);
    let n = headers.len();
    let mut i: usize = 0;
    proof {
        assert(all.skip(0) =~= all);
    }
    while i < n
        invariant
            n == headers@.len(),
            i <= n,
            all == headers_view(headers@),
            spec_header_value(all, name@) == spec_header_value(all.skip(i as int), name@),
        decreases n - i,
    {
        proof {
            assert(all.skip(i as int)[0] == (headers@[i as int].0@, headers@[i as int].1@));
            assert(all.skip(i as int).drop_first() =~= all.skip(i as int + 1));
        }
        if crate::bytes_util::bytes_eq(headers[i].0.as_slice(), name) {
            let v = crate::bytes_util::to_vec(headers[i].1.as_slice());
            return Some(v);
        }
        i += 1;
    }
    proof {
        assert(all.skip(n as int) =~= Seq::<(Seq<u8>, Seq<u8>)>::empty());
    }
    None
}

} // verus!
