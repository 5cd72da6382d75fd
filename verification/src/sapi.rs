//! Engine-visible request metadata and header-line parsing.
//!
//! Before a request runs, the host populates the engine's request slots with
//! C-style strings; a field holding an embedded terminator byte cannot be
//! represented and surfaces as a startup failure rather than silent
//! truncation.

use vstd::prelude::*;

use crate::bytes_util::contains_byte;
use crate::bytes_util::dec_value;
use crate::bytes_util::find_byte;
use crate::bytes_util::is_dec_digits;
use crate::bytes_util::parse_u64;
use crate::bytes_util::push_all;
use crate::bytes_util::to_vec;
use crate::context::Context;
use crate::error::ExecutePhpError;
use crate::http::HttpVersion;
use crate::http::RequestView;
use crate::http::header_value;
use crate::http::proto_num;
use crate::http::spec_header_value;
use crate::http::spec_proto_num;

verus! {

/// ASCII for the `content-length` header name.
pub const CONTENT_LENGTH_NAME: [u8; 14] = [
    99u8,
    111u8,
    110u8,
    116u8,
    101u8,
    110u8,
    116u8,
    45u8,
    108u8,
    101u8,
    110u8,
    103u8,
    116u8,
    104u8,
];

/// ASCII for the `content-type` header name.
pub const CONTENT_TYPE_NAME: [u8; 12] = [
    99u8,
    111u8,
    110u8,
    116u8,
    101u8,
    110u8,
    116u8,
    45u8,
    116u8,
    121u8,
    112u8,
    101u8,
];

/// ASCII for the `authorization` header name.
pub const AUTHORIZATION_NAME: [u8; 13] = [
    97u8,
    117u8,
    116u8,
    104u8,
    111u8,
    114u8,
    105u8,
    122u8,
    97u8,
    116u8,
    105u8,
    111u8,
    110u8,
];

/// ASCII for the `cookie` header name.
pub const COOKIE_NAME: [u8; 6] = [99u8, 111u8, 111u8, 107u8, 105u8, 101u8];

/// The byte string holds no embedded terminator.
pub open spec fn nul_free(s: Seq<u8>) -> bool {
    forall|i: int| 0 <= i < s.len() ==> s[i] != 0
}

/// `None` for a missing value; a present one must be terminator-free.
pub open spec fn opt_nul_free(s: Option<Seq<u8>>) -> bool {
    match s {
        Option::Some(v) => nul_free(v),
        Option::None => true,
    }
}

/// The full request URI: path, and the query appended after `?`.
pub open spec fn spec_request_uri(r: RequestView) -> Seq<u8> {
    match r.query {
        Option::Some(q) => r.uri_path + seq![63u8] + q,
        Option::None => r.uri_path,
    }
}

/// The declared content length: the decimal value of the `content-length`
/// header, `0` when the header is missing or not a plain number.
pub open spec fn spec_content_length(headers: Seq<(Seq<u8>, Seq<u8>)>) -> u64 {
    match spec_header_value(headers, CONTENT_LENGTH_NAME@) {
        Option::Some(v) => if is_dec_digits(v) && dec_value(v) <= u64::MAX {
            dec_value(v) as u64
        } else {
            0
        },
        Option::None => 0,
    }
}

/// Every engine-visible field of the request can be carried as a C string.
pub open spec fn spec_encoding_ok(root: Seq<u8>, script: Seq<u8>, r: RequestView) -> bool {
    &&& nul_free(r.method)
    &&& opt_nul_free(r.query)
    &&& nul_free(root + script)
    &&& nul_free(spec_request_uri(r))
    &&& opt_nul_free(spec_header_value(r.headers, CONTENT_TYPE_NAME@))
    &&& opt_nul_free(spec_header_value(r.headers, AUTHORIZATION_NAME@))
}

/// Request metadata in the form the engine's request slots take.
pub struct RequestInfo {
    pub method: Vec<u8>,
    pub query: Option<Vec<u8>>,
    pub path_translated: Vec<u8>,
    pub request_uri: Vec<u8>,
    pub content_length: u64,
    pub content_type: Option<Vec<u8>>,
    pub auth: Option<Vec<u8>>,
    pub proto_num: i32,
}

/// Mathematical image of a [`RequestInfo`].
pub ghost struct RequestInfoView {
    pub method: Seq<u8>,
    pub query: Option<Seq<u8>>,
    pub path_translated: Seq<u8>,
    pub request_uri: Seq<u8>,
    pub content_length: u64,
    pub content_type: Option<Seq<u8>>,
    pub auth: Option<Seq<u8>>,
    pub proto_num: i32,
}

impl View for RequestInfo {
    type V = RequestInfoView;

    open spec fn view(&self) -> RequestInfoView {
        RequestInfoView {
            method: self.method@,
            query: match self.query {
                Option::Some(q) => Option::Some(q@),
                Option::None => Option::None,
            },
            path_translated: self.path_translated@,
            request_uri: self.request_uri@,
            content_length: self.content_length,
            content_type: match self.content_type {
                Option::Some(v) => Option::Some(v@),
                Option::None => Option::None,
            },
            auth: match self.auth {
                Option::Some(v) => Option::Some(v@),
                Option::None => Option::None,
            },
            proto_num: self.proto_num,
        }
    }
}

/// Checks that an optional field is terminator-free.
fn check_opt_nul_free(v: &Option<Vec<u8>>) -> (r: bool)
    ensures
        r == opt_nul_free(
            match v {
                Option::Some(x) => Option::Some(x@),
                Option::None => Option::None::<Seq<u8>>,
            },
        ),
{
    match v {
        Some(x) => !contains_byte(x.as_slice(), 0),
        None => true,
    }
}

/// Initialize-request-state: builds the engine-visible request metadata —
/// method, query string, translated script path, full URI, declared content
/// length, content type, auth passthrough and protocol number — and fails
/// with an encoding error as soon as any field holds an embedded terminator.
pub fn init_sapi_globals(ctx: &Context) -> (r: Result<RequestInfo, ExecutePhpError>)
    ensures
        (match r {
            Ok(info) => spec_encoding_ok(ctx@.root, ctx@.script_name, ctx@.request) && info@ == (
            RequestInfoView {
                method: ctx@.request.method,
                query: ctx@.request.query,
                path_translated: ctx@.root + ctx@.script_name,
                request_uri: spec_request_uri(ctx@.request),
                content_length: spec_content_length(ctx@.request.headers),
                content_type: spec_header_value(ctx@.request.headers, CONTENT_TYPE_NAME@),
                auth: spec_header_value(ctx@.request.headers, AUTHORIZATION_NAME@),
                proto_num: spec_proto_num(ctx@.request.version),
            }),
            Err(e) => e == ExecutePhpError::InitSapiGlobalsError && !spec_encoding_ok(
                ctx@.root,
                ctx@.script_name,
                ctx@.request,
            ),
        }),
{
    let request = ctx.request();
    let method = to_vec(request.method.as_slice());
    if contains_byte(method.as_slice(), 0) {
        return Err(ExecutePhpError::InitSapiGlobalsError);
    }
    let query = match &request.query {
        Some(q) => Some(to_vec(q.as_slice())),
        None => None,
    };
    if !check_opt_nul_free(&query) {
        return Err(ExecutePhpError::InitSapiGlobalsError);
    }
    let mut path_translated = to_vec(ctx.root().as_slice());
    push_all(&mut path_translated, ctx.script_name().as_slice());
    if contains_byte(path_translated.as_slice(), 0) {
        return Err(ExecutePhpError::InitSapiGlobalsError);
    }
    let mut request_uri = to_vec(request.uri_path.as_slice());
    if let Some(q) = &request.query {
        request_uri.push(63u8);
        push_all(&mut request_uri, q.as_slice());
    }
    assert(request_uri@ == spec_request_uri(ctx@.request));
    if contains_byte(request_uri.as_slice(), 0) {
        return Err(ExecutePhpError::InitSapiGlobalsError);
    }
    let content_type = header_value(&request.headers, CONTENT_TYPE_NAME.as_slice());
    if !check_opt_nul_free(&content_type) {
        return Err(ExecutePhpError::InitSapiGlobalsError);
    }
    let auth = header_value(&request.headers, AUTHORIZATION_NAME.as_slice());
    if !check_opt_nul_free(&auth) {
        return Err(ExecutePhpError::InitSapiGlobalsError);
    }
    let content_length = match header_value(&request.headers, CONTENT_LENGTH_NAME.as_slice()) {
        Some(v) => match parse_u64(v.as_slice()) {
            Some(n) => n,
            None => 0,
        },
        None => 0,
    };
    let info = RequestInfo {
        method,
        query,
        path_translated,
        request_uri,
        content_length,
        content_type,
        auth,
        proto_num: proto_num(request.version),
    };
    Ok(info)
}

/// Read-cookies callback: the value of the request's `cookie` header, if
/// one came in.
pub fn read_cookies(ctx: &Context) -> (r: Option<Vec<u8>>)
    ensures
        (match r {
            Option::Some(v) => spec_header_value(ctx@.request.headers, COOKIE_NAME@)
                == Option::Some(v@),
            Option::None => spec_header_value(ctx@.request.headers, COOKIE_NAME@) is None,
        }),
{
    header_value(&ctx.request().headers, COOKIE_NAME.as_slice())
}

/// Leading spaces and horizontal tabs removed.
pub open spec fn skip_leading_ws(s: Seq<u8>) -> Seq<u8>
    decreases s.len(),
{
    if s.len() > 0 && (s[0] == 32 || s[0] == 9) {
        skip_leading_ws(s.drop_first())
    } else {
        s
    }
}

/// A raw header line split at its first colon: the name before it and the
/// value after it with leading whitespace removed; `None` without a colon.
pub open spec fn spec_split_header(line: Seq<u8>) -> Option<(Seq<u8>, Seq<u8>)> {
    if exists|i: int| 0 <= i < line.len() && line[i] == 58 {
        let i = choose|i: int| 0 <= i < line.len() && line[i] == 58 && forall|j: int|
            0 <= j < i ==> line[j] != 58;
        Option::Some((line.take(i), skip_leading_ws(line.skip(i + 1))))
    } else {
        Option::None
    }
}

/// Emit-header front end: splits a raw `Name: value` line the way the
/// engine hands headers over; a line without a colon carries no value and
/// is ignored by the caller.
pub fn split_header_line(line: &[u8]) -> (r: Option<(Vec<u8>, Vec<u8>)>)
    ensures
        (match r {
            Option::Some(p) => spec_split_header(line@) == Option::Some((p.0@, p.1@)),
            Option::None => spec_split_header(line@) is None,
        }),
{
    let n = line.len();
    match find_byte(line, 58) {
        Some(i) => {
            let name = to_vec(vstd::slice::slice_subrange(line, 0, i));
            let mut j: usize = i + 1;
            while j < n && (line[j] == 32 || line[j] == 9)
                invariant
                    n == line@.len(),
                    i < j <= n,
                    skip_leading_ws(line@.skip(i + 1)) == skip_leading_ws(line@.skip(j as int)),
                decreases n - j,
            {
                proof {
                    assert(line@.skip(j as int)[0] == line@[j as int]);
                    assert(line@.skip(j as int).drop_first() =~= line@.skip(j as int + 1));
                }
                j += 1;
            }
            proof {
                if j < n {
                    assert(line@.skip(j as int)[0] == line@[j as int]);
                } else {
                    assert(line@.skip(j as int) =~= Seq::<u8>::empty());
                }
                assert(skip_leading_ws(line@.skip(j as int)) == line@.skip(j as int));
            }
            let value = to_vec(vstd::slice::slice_subrange(line, j, n));
            proof {
                let wi = choose|w: int|
                    0 <= w < line@.len() && line@[w] == 58 && forall|k: int|
                        0 <= k < w ==> line@[k] != 58;
                assert(wi == i as int);
                assert(line@.take(i as int) =~= name@);
                assert(line@.skip(j as int) =~= value@);
            }
            Some((name, value))
        },
        None => {
            proof {
                if exists|i: int| 0 <= i < line@.len() && line@[i] == 58 {
                    let i = choose|i: int| 0 <= i < line@.len() && line@[i] == 58;
                    assert(false);
                }
            }
            None
        },
    }
}

} // verus!
