//! The request-derived environment the engine exposes to scripts.
//!
//! Provide-environment hands the engine a fixed set of entries — method,
//! URI, script and residual paths, socket endpoints, protocol, host — and
//! one derived entry per inbound header, named by upper-casing the header
//! name, replacing dashes with underscores, under the `HTTP_` prefix.

use vstd::prelude::*;

use crate::bytes_util::dec_digits;
use crate::bytes_util::find_byte;
use crate::bytes_util::push_all;
use crate::bytes_util::to_vec;
use crate::bytes_util::u64_to_dec;
use crate::context::Context;
use crate::context::ContextView;
use crate::http::HttpVersion;
use crate::http::header_value;
use crate::http::headers_view;
use crate::http::spec_header_value;
use crate::sapi::spec_request_uri;

verus! {

/// ASCII for `SERVER_SOFTWARE`.
pub const SERVER_SOFTWARE_NAME: [u8; 15] = [83u8, 69u8, 82u8, 86u8, 69u8, 82u8, 95u8, 83u8, 79u8, 70u8, 84u8, 87u8, 65u8, 82u8, 69u8];

/// ASCII for `REQUEST_URI`.
pub const REQUEST_URI_NAME: [u8; 11] = [82u8, 69u8, 81u8, 85u8, 69u8, 83u8, 84u8, 95u8, 85u8, 82u8, 73u8];

/// ASCII for `REQUEST_METHOD`.
pub const REQUEST_METHOD_NAME: [u8; 14] = [82u8, 69u8, 81u8, 85u8, 69u8, 83u8, 84u8, 95u8, 77u8, 69u8, 84u8, 72u8, 79u8, 68u8];

/// ASCII for `QUERY_STRING`.
pub const QUERY_STRING_NAME: [u8; 12] = [81u8, 85u8, 69u8, 82u8, 89u8, 95u8, 83u8, 84u8, 82u8, 73u8, 78u8, 71u8];

/// ASCII for `PHP_SELF`.
pub const PHP_SELF_NAME: [u8; 8] = [80u8, 72u8, 80u8, 95u8, 83u8, 69u8, 76u8, 70u8];

/// ASCII for `SERVER_PROTOCOL`.
pub const SERVER_PROTOCOL_NAME: [u8; 15] = [83u8, 69u8, 82u8, 86u8, 69u8, 82u8, 95u8, 80u8, 82u8, 79u8, 84u8, 79u8, 67u8, 79u8, 76u8];

/// ASCII for `DOCUMENT_ROOT`.
pub const DOCUMENT_ROOT_NAME: [u8; 13] = [68u8, 79u8, 67u8, 85u8, 77u8, 69u8, 78u8, 84u8, 95u8, 82u8, 79u8, 79u8, 84u8];

/// ASCII for `REMOTE_ADDR`.
pub const REMOTE_ADDR_NAME: [u8; 11] = [82u8, 69u8, 77u8, 79u8, 84u8, 69u8, 95u8, 65u8, 68u8, 68u8, 82u8];

/// ASCII for `REMOTE_PORT`.
pub const REMOTE_PORT_NAME: [u8; 11] = [82u8, 69u8, 77u8, 79u8, 84u8, 69u8, 95u8, 80u8, 79u8, 82u8, 84u8];

/// ASCII for `SCRIPT_FILENAME`.
pub const SCRIPT_FILENAME_NAME: [u8; 15] = [83u8, 67u8, 82u8, 73u8, 80u8, 84u8, 95u8, 70u8, 73u8, 76u8, 69u8, 78u8, 65u8, 77u8, 69u8];

/// ASCII for `SERVER_ADDR`.
pub const SERVER_ADDR_NAME: [u8; 11] = [83u8, 69u8, 82u8, 86u8, 69u8, 82u8, 95u8, 65u8, 68u8, 68u8, 82u8];

/// ASCII for `SERVER_PORT`.
pub const SERVER_PORT_NAME: [u8; 11] = [83u8, 69u8, 82u8, 86u8, 69u8, 82u8, 95u8, 80u8, 79u8, 82u8, 84u8];

/// ASCII for `SCRIPT_NAME`.
pub const SCRIPT_NAME_NAME: [u8; 11] = [83u8, 67u8, 82u8, 73u8, 80u8, 84u8, 95u8, 78u8, 65u8, 77u8, 69u8];

/// ASCII for `PATH_INFO`.
pub const PATH_INFO_NAME: [u8; 9] = [80u8, 65u8, 84u8, 72u8, 95u8, 73u8, 78u8, 70u8, 79u8];

/// ASCII for `SERVER_NAME`.
pub const SERVER_NAME_NAME: [u8; 11] = [83u8, 69u8, 82u8, 86u8, 69u8, 82u8, 95u8, 78u8, 65u8, 77u8, 69u8];

/// ASCII for `HTTP_`.
pub const HTTP_PREFIX: [u8; 5] = [72u8, 84u8, 84u8, 80u8, 95u8];

/// ASCII for `host`.
pub const HOST_NAME: [u8; 4] = [104u8, 111u8, 115u8, 116u8];

/// ASCII for `HTTP/0.9`.
pub const VERSION_TEXT_09: [u8; 8] = [72u8, 84u8, 84u8, 80u8, 47u8, 48u8, 46u8, 57u8];

/// ASCII for `HTTP/1.0`.
pub const VERSION_TEXT_10: [u8; 8] = [72u8, 84u8, 84u8, 80u8, 47u8, 49u8, 46u8, 48u8];

/// ASCII for `HTTP/1.1`.
pub const VERSION_TEXT_11: [u8; 8] = [72u8, 84u8, 84u8, 80u8, 47u8, 49u8, 46u8, 49u8];

/// ASCII for `HTTP/2.0`.
pub const VERSION_TEXT_2: [u8; 8] = [72u8, 84u8, 84u8, 80u8, 47u8, 50u8, 46u8, 48u8];

/// ASCII for `HTTP/3.0`.
pub const VERSION_TEXT_3: [u8; 8] = [72u8, 84u8, 84u8, 80u8, 47u8, 51u8, 46u8, 48u8];

/// One byte of a derived header name: letters upper-cased, dashes turned
/// into underscores.
pub open spec fn env_byte(b: u8) -> u8 {
    if 97 <= b <= 122 {
        (b - 32) as u8
    } else if b == 45 {
        95u8
    } else {
        b
    }
}

/// The environment name a header is exposed under.
pub open spec fn spec_env_name(name: Seq<u8>) -> Seq<u8> {
    HTTP_PREFIX@ + name.map_values(|b: u8| env_byte(b))
}

/// Derives the environment name of one header.
pub fn header_env_name(name: &[u8]) -> (r: Vec<u8>)
    ensures
        r@ == spec_env_name(name@),
{
    let mut r = to_vec(HTTP_PREFIX.as_slice());
    let n = name.len();
    let mut i: usize = 0;
    proof {
        assert(r@ =~= HTTP_PREFIX@ + name@.take(0).map_values(|b: u8| env_byte(b)));
    }
    while i < n
        invariant
            n == name@.len(),
            i <= n,
            r@ == HTTP_PREFIX@ + name@.take(i as int).map_values(|b: u8| env_byte(b)),
        decreases n - i,
    {
        let b = name[i];
        let e = if 97 <= b && b <= 122 {
            b - 32
        } else if b == 45 {
            95u8
        } else {
            b
        };
        r.push(e);
        proof {
            assert(name@.take(i + 1) =~= name@.take(i as int).push(b));
            assert(name@.take(i + 1).map_values(|x: u8| env_byte(x)) =~= name@.take(
                i as int,
            ).map_values(|x: u8| env_byte(x)).push(env_byte(b)));
            assert(r@ =~= HTTP_PREFIX@ + name@.take(i + 1).map_values(|x: u8| env_byte(x)));
        }
        i += 1;
    }
    proof {
        assert(name@.take(n as int) =~= name@);
    }
    r
}

/// The protocol string a version is reported as.
pub open spec fn spec_version_text(v: HttpVersion) -> Seq<u8> {
    match v {
        HttpVersion::Http09 => VERSION_TEXT_09@,
        HttpVersion::Http10 => VERSION_TEXT_10@,
        HttpVersion::Http11 => VERSION_TEXT_11@,
        HttpVersion::Http2 => VERSION_TEXT_2@,
        HttpVersion::Http3 => VERSION_TEXT_3@,
    }
}

/// Renders the protocol string of a version.
pub fn version_text(v: HttpVersion) -> (r: Vec<u8>)
    ensures
        r@ == spec_version_text(v),
{
    match v {
        HttpVersion::Http09 => to_vec(VERSION_TEXT_09.as_slice()),
        HttpVersion::Http10 => to_vec(VERSION_TEXT_10.as_slice()),
        HttpVersion::Http11 => to_vec(VERSION_TEXT_11.as_slice()),
        HttpVersion::Http2 => to_vec(VERSION_TEXT_2.as_slice()),
        HttpVersion::Http3 => to_vec(VERSION_TEXT_3.as_slice()),
    }
}

/// The server name in a `host` header value: a bracketed address up to and
/// including its closing bracket, otherwise everything before the port
/// separator. `None` when the value is empty or an unclosed bracket form.
pub open spec fn spec_host_name(v: Seq<u8>) -> Option<Seq<u8>> {
    if v.len() == 0 {
        Option::None
    } else if v[0] == 91 {
        if exists|i: int| 0 <= i < v.len() && v[i] == 93 {
            let i = choose|i: int|
                0 <= i < v.len() && v[i] == 93 && forall|j: int| 0 <= j < i ==> v[j] != 93;
            Option::Some(v.take(i + 1))
        } else {
            Option::None
        }
    } else {
        if exists|i: int| 0 <= i < v.len() && v[i] == 58 {
            let i = choose|i: int|
                0 <= i < v.len() && v[i] == 58 && forall|j: int| 0 <= j < i ==> v[j] != 58;
            Option::Some(v.take(i))
        } else {
            Option::Some(v)
        }
    }
}

/// Extracts the server name from a `host` header value.
pub fn host_name(v: &[u8]) -> (r: Option<Vec<u8>>)
    ensures
        (match r {
            Option::Some(h) => spec_host_name(v@) == Option::Some(h@),
            Option::None => spec_host_name(v@) is None,
        }),
{
    if v.len() == 0 {
        return None;
    }
    if v[0] == 91 {
        match find_byte(v, 93) {
            Some(i) => {
                proof {
                    let wi = choose|w: int|
                        0 <= w < v@.len() && v@[w] == 93 && forall|k: int|
                            0 <= k < w ==> v@[k] != 93;
                    assert(wi == i as int);
                }
                let h = to_vec(vstd::slice::slice_subrange(v, 0, i + 1));
                proof {
                    assert(v@.take(i + 1) =~= h@);
                }
                Some(h)
            },
            None => {
                proof {
                    if exists|i: int| 0 <= i < v@.len() && v@[i] == 93 {
                        let i = choose|i: int| 0 <= i < v@.len() && v@[i] == 93;
                        assert(false);
                    }
                }
                None
            },
        }
    } else {
        match find_byte(v, 58) {
            Some(i) => {
                proof {
                    let wi = choose|w: int|
                        0 <= w < v@.len() && v@[w] == 58 && forall|k: int|
                            0 <= k < w ==> v@[k] != 58;
                    assert(wi == i as int);
                }
                let h = to_vec(vstd::slice::slice_subrange(v, 0, i));
                proof {
                    assert(v@.take(i as int) =~= h@);
                }
                Some(h)
            },
            None => {
                proof {
                    if exists|i: int| 0 <= i < v@.len() && v@[i] == 58 {
                        let i = choose|i: int| 0 <= i < v@.len() && v@[i] == 58;
                        assert(false);
                    }
                }
                let h = to_vec(v);
                Some(h)
            },
        }
    }
}

/// The fixed request-derived entries, in registration order: server
/// software, full URI, method, query string when present, the script's
/// `PHP_SELF`, protocol, document root, both socket endpoints, the
/// translated script filename, the script name, the residual path when
/// present, and the server name from the `host` header when one parses.
pub open spec fn spec_base_variables(c: ContextView, software: Seq<u8>) -> Seq<(Seq<u8>, Seq<u8>)> {
    seq![
        (SERVER_SOFTWARE_NAME@, software),
        (REQUEST_URI_NAME@, spec_request_uri(c.request)),
        (REQUEST_METHOD_NAME@, c.request.method),
    ] + (match c.request.query {
        Option::Some(q) => seq![(QUERY_STRING_NAME@, q)],
        Option::None => Seq::empty(),
    }) + seq![
        (PHP_SELF_NAME@, c.script_name + (match c.path_info {
            Option::Some(p) => p,
            Option::None => Seq::empty(),
        })),
        (SERVER_PROTOCOL_NAME@, spec_version_text(c.request.version)),
        (DOCUMENT_ROOT_NAME@, c.root),
        (REMOTE_ADDR_NAME@, c.stream.peer_addr.ip),
        (REMOTE_PORT_NAME@, dec_digits(c.stream.peer_addr.port as nat)),
        (SCRIPT_FILENAME_NAME@, c.root + c.script_name),
        (SERVER_ADDR_NAME@, c.stream.local_addr.ip),
        (SERVER_PORT_NAME@, dec_digits(c.stream.local_addr.port as nat)),
        (SCRIPT_NAME_NAME@, c.script_name),
    ] + (match c.path_info {
        Option::Some(p) => seq![(PATH_INFO_NAME@, p)],
        Option::None => Seq::empty(),
    }) + (match spec_header_value(c.request.headers, HOST_NAME@) {
        Option::Some(h) => match spec_host_name(h) {
            Option::Some(hn) => seq![(SERVER_NAME_NAME@, hn)],
            Option::None => Seq::empty(),
        },
        Option::None => Seq::empty(),
    })
}

/// All environment entries: the fixed ones, then one derived entry per
/// inbound header in order.
pub open spec fn spec_server_variables(c: ContextView, software: Seq<u8>) -> Seq<
    (Seq<u8>, Seq<u8>),
> {
    spec_base_variables(c, software) + c.request.headers.map_values(
        |h: (Seq<u8>, Seq<u8>)| (spec_env_name(h.0), h.1),
    )
}

/// Provide-environment: the entries the engine registers for a request, in
/// order.
pub fn server_variables(ctx: &Context, software: Vec<u8>) -> (r: Vec<(Vec<u8>, Vec<u8>)>)
    ensures
        headers_view(r@) == spec_server_variables(ctx@, software@),
{
    let ghost gsoft = software@;
    let mut vars: Vec<(Vec<u8>, Vec<u8>)> = Vec::new();
    let request = ctx.request();
    vars.push((to_vec(SERVER_SOFTWARE_NAME.as_slice()), software));
    let mut uri = to_vec(request.uri_path.as_slice());
    match &request.query {
        Some(q) => {
            uri.push(63u8);
            push_all(&mut uri, q.as_slice());
        },
        None => (),
    }
    assert(uri@ == spec_request_uri(ctx@.request));
    vars.push((to_vec(REQUEST_URI_NAME.as_slice()), uri));
    vars.push((to_vec(REQUEST_METHOD_NAME.as_slice()), to_vec(request.method.as_slice())));
    match &request.query {
        Some(q) => {
            vars.push((to_vec(QUERY_STRING_NAME.as_slice()), to_vec(q.as_slice())));
        },
        None => (),
    }
    let mut php_self = to_vec(ctx.script_name().as_slice());
    match ctx.path_info() {
        Some(p) => push_all(&mut php_self, p.as_slice()),
        None => (),
    }
    vars.push((to_vec(PHP_SELF_NAME.as_slice()), php_self));
    vars.push((to_vec(SERVER_PROTOCOL_NAME.as_slice()), version_text(request.version)));
    vars.push((to_vec(DOCUMENT_ROOT_NAME.as_slice()), to_vec(ctx.root().as_slice())));
    vars.push((to_vec(REMOTE_ADDR_NAME.as_slice()), to_vec(ctx.peer_addr().ip.as_slice())));
    vars.push((to_vec(REMOTE_PORT_NAME.as_slice()), u64_to_dec(ctx.peer_addr().port as u64)));
    let mut script_filename = to_vec(ctx.root().as_slice());
    push_all(&mut script_filename, ctx.script_name().as_slice());
    vars.push((to_vec(SCRIPT_FILENAME_NAME.as_slice()), script_filename));
    vars.push((to_vec(SERVER_ADDR_NAME.as_slice()), to_vec(ctx.local_addr().ip.as_slice())));
    vars.push((to_vec(SERVER_PORT_NAME.as_slice()), u64_to_dec(ctx.local_addr().port as u64)));
    vars.push((to_vec(SCRIPT_NAME_NAME.as_slice()), to_vec(ctx.script_name().as_slice())));
    match ctx.path_info() {
        Some(p) => {
            vars.push((to_vec(PATH_INFO_NAME.as_slice()), to_vec(p.as_slice())));
        },
        None => (),
    }
    match header_value(&request.headers, HOST_NAME.as_slice()) {
        Some(h) => {
            match host_name(h.as_slice()) {
                Some(hn) => {
                    vars.push((to_vec(SERVER_NAME_NAME.as_slice()), hn));
                },
                None => (),
            }
        },
        None => (),
    }
    proof {
        assert(headers_view(vars@) =~= spec_base_variables(ctx@, gsoft));
    }
    let ghost base = spec_base_variables(ctx@, gsoft);
    let ghost f = |h: (Seq<u8>, Seq<u8>)| (spec_env_name(h.0), h.1);
    let n = request.headers.len();
    let mut i: usize = 0;
    proof {
        assert(headers_view(vars@) =~= base + ctx@.request.headers.take(0).map_values(f));
    }
    while i < n
        invariant
            n == request.headers@.len(),
            i <= n,
            ctx@.request.headers == headers_view(request.headers@),
            base == spec_base_variables(ctx@, gsoft),
            f == (|h: (Seq<u8>, Seq<u8>)| (spec_env_name(h.0), h.1)),
            headers_view(vars@) == base + ctx@.request.headers.take(i as int).map_values(f),
        decreases n - i,
    {
        let ghost pre = headers_view(vars@);
        let ghost hv = ctx@.request.headers[i as int];
        let name = header_env_name(request.headers[i].0.as_slice());
        let value = to_vec(request.headers[i].1.as_slice());
        vars.push((name, value));
        proof {
            assert(headers_view(vars@) =~= pre.push(f(hv)));
            assert(ctx@.request.headers.take(i + 1) =~= ctx@.request.headers.take(
                i as int,
            ).push(hv));
            assert(ctx@.request.headers.take(i + 1).map_values(f)
                =~= ctx@.request.headers.take(i as int).map_values(f).push(f(hv)));
            assert(headers_view(vars@) =~= base + ctx@.request.headers.take(i + 1).map_values(
                f,
            ));
        }
        i += 1;
    }
    proof {
        assert(ctx@.request.headers.take(n as int) =~= ctx@.request.headers);
    }
    vars
}

} // verus!
