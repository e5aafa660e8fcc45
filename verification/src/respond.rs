//! The response translator: turns the retrieved status/body pair, the
//! timeout, the CORS preflight and each error into a concrete HTTP reply.

use vstd::prelude::*;
use vstd::string::StrSliceExecFns;
use vstd::utf8::encode_utf8;

use crate::errors::GateError;

verus! {

/// The HTTP reply the gateway hands back: a status code, response headers
/// in order, and the raw body bytes.
pub struct HttpReply {
    pub status: u16,
    pub headers: Vec<(String, String)>,
    pub body: Vec<u8>,
}

/// What a query of the store for the body key observed.
pub enum BodyReply {
    /// The entry exists and holds these bytes.
    Present(Vec<u8>),
    /// The entry does not exist: the worker broke the result-record
    /// convention.
    Absent,
    /// The store could not be queried at all.
    Failed,
}

/// One response header with this name and value.
pub open spec fn header_is(h: (String, String), name: Seq<char>, value: Seq<char>) -> bool {
    h.0@ == name && h.1@ == value
}

/// True of the digit characters' byte values.
pub open spec fn is_dec_digits(s: Seq<u8>) -> bool {
    s.len() > 0 && forall|i: int| 0 <= i < s.len() ==> 48 <= #[trigger] s[i] <= 57
}

/// The number the digit bytes spell, most significant first.
pub open spec fn dec_value(s: Seq<u8>) -> int
    decreases s.len(),
{
    if s.len() == 0 {
        0
    } else {
        dec_value(s.drop_last()) * 10 + (s.last() - 48)
    }
}

/// The digit portion of the raw status bytes: everything after one
/// optional leading `+`.
pub open spec fn status_digits(s: Seq<u8>) -> Seq<u8> {
    if s.len() > 0 && s[0] == 43 {
        s.skip(1)
    } else {
        s
    }
}

/// The HTTP status the raw status bytes yield: their decimal value when
/// they parse as an unsigned 16-bit integer (an optional `+`, then digits
/// only, value at most 65535), and the 500 fallback otherwise.
pub open spec fn parsed_status(s: Seq<u8>) -> u16 {
    if is_dec_digits(status_digits(s)) && dec_value(status_digits(s)) <= 0xffff {
        dec_value(status_digits(s)) as u16
    } else {
        500
    }
}

/// The value of a digit string is never negative.
proof fn lemma_dec_value_nonneg(s: Seq<u8>)
    requires
        forall|i: int| 0 <= i < s.len() ==> 48 <= #[trigger] s[i],
    ensures
        dec_value(s) >= 0,
    decreases s.len(),
{
    if s.len() > 0 {
        lemma_dec_value_nonneg(s.drop_last());
    }
}

/// A digit string is worth at least any of its prefixes: appending digits
/// never shrinks the value.
proof fn lemma_dec_value_prefix_le(s: Seq<u8>, k: int)
    requires
        0 <= k <= s.len(),
        forall|i: int| 0 <= i < s.len() ==> 48 <= #[trigger] s[i],
    ensures
        dec_value(s.take(k)) <= dec_value(s),
    decreases s.len(),
{
    if k == s.len() {
        assert(s.take(k) =~= s);
    } else {
        lemma_dec_value_prefix_le(s.drop_last(), k);
        assert(s.drop_last().take(k) =~= s.take(k));
        lemma_dec_value_nonneg(s.drop_last());
    }
}

/// Parse the raw status bytes, falling back to 500 on anything that is not
/// a decimal unsigned 16-bit integer.
pub fn parse_status(s: &Vec<u8>) -> (st: u16)
    ensures
        st == parsed_status(s@),
{
    let n: usize = s.len();
    let mut i: usize = 0;
    if n > 0 && s[0] == 43 {
        i = 1;
    }
    proof {
        assert(status_digits(s@) =~= s@.skip(i as int));
    }
    if i >= n {
        proof {
            assert(!is_dec_digits(status_digits(s@)));
        }
        return 500;
    }
    let mut acc: u32 = 0;
    let mut j: usize = i;
    proof {
        assert(s@.skip(i as int).take(0) =~= Seq::<u8>::empty());
    }
    while j < n
        invariant
            i <= j <= n,
            n == s@.len(),
            status_digits(s@) == s@.skip(i as int),
            forall|k: int| i <= k < j ==> 48 <= #[trigger] s@[k] <= 57,
            acc as int == dec_value(s@.skip(i as int).take(j - i)),
            acc <= 0xffff,
        decreases n - j,
    {
        let b = s[j];
        if b < 48 || b > 57 {
            proof {
                assert(s@.skip(i as int)[j - i] == s@[j as int]);
                assert(!is_dec_digits(status_digits(s@)));
            }
            return 500;
        }
        let acc2: u32 = acc * 10 + (b - 48) as u32;
        proof {
            let t = s@.skip(i as int).take(j - i + 1);
            assert(t.drop_last() =~= s@.skip(i as int).take(j - i));
            assert(t.last() == s@[j as int]);
            assert(acc2 as int == dec_value(t));
        }
        if acc2 > 0xffff {
            proof {
                if is_dec_digits(status_digits(s@)) {
                    lemma_dec_value_prefix_le(s@.skip(i as int), j - i + 1);
                }
            }
            return 500;
        }
        acc = acc2;
        j = j + 1;
    }
    proof {
        assert(s@.skip(i as int).take(n - i) =~= s@.skip(i as int));
        assert(is_dec_digits(status_digits(s@)));
    }
    acc as u16
}

/// The fixed CORS preflight reply an OPTIONS request receives, before and
/// instead of the pipeline.
pub open spec fn is_preflight_reply(r: HttpReply) -> bool {
    &&& r.status == 200
    &&& r.body@ == encode_utf8("No data"@)
    &&& r.headers@.len() == 4
    &&& header_is(r.headers@[0], "http_gate_version"@, "0.2"@)
    &&& header_is(r.headers@[1], "Access-Control-Allow-Origin"@, "*"@)
    &&& header_is(r.headers@[2], "Access-Control-Allow-Methods"@, "POST, GET, OPTIONS"@)
    &&& header_is(r.headers@[3], "Access-Control-Allow-Headers"@, "X-PINGOTHER, Content-Type"@)
}

/// The timeout reply: 408, the CORS origin header, a fixed body.
pub open spec fn is_timeout_reply(r: HttpReply) -> bool {
    &&& r.status == 408
    &&& r.body@ == encode_utf8("Request Timeout"@)
    &&& r.headers@.len() == 1
    &&& header_is(r.headers@[0], "Access-Control-Allow-Origin"@, "*"@)
}

/// The reply for a retrieved result record: the parsed status, the body
/// bytes passed through unreinterpreted, the version marker and the CORS
/// origin header.
pub open spec fn is_found_reply(r: HttpReply, status_bytes: Seq<u8>, body: Seq<u8>) -> bool {
    &&& r.status == parsed_status(status_bytes)
    &&& r.body@ == body
    &&& r.headers@.len() == 2
    &&& header_is(r.headers@[0], "ef-http-gate-version"@, "1.0"@)
    &&& header_is(r.headers@[1], "Access-Control-Allow-Origin"@, "*"@)
}

/// The human-readable body each error response carries.
pub open spec fn error_text(e: GateError) -> Seq<char> {
    match e {
        GateError::Configuration => "store address missing"@,
        GateError::InvalidRequest => "proto_name is empty."@,
        GateError::UnsupportedMethod => "No data"@,
        GateError::UpstreamUnavailable => "Error querying Redis"@,
        GateError::MalformedResult => "empty response body."@,
    }
}

/// An error response: a server-error status with the error's fixed body.
pub open spec fn is_error_reply(r: HttpReply, e: GateError) -> bool {
    &&& r.status == 500
    &&& r.body@ == encode_utf8(error_text(e))
    &&& r.headers@.len() == 0
}

/// Build the CORS preflight reply.
pub fn preflight_reply() -> (r: HttpReply)
    ensures
        is_preflight_reply(r),
{
    let mut headers: Vec<(String, String)> = Vec::new();
    headers.push(("http_gate_version".to_owned(), "0.2".to_owned()));
    headers.push(("Access-Control-Allow-Origin".to_owned(), "*".to_owned()));
    headers.push(("Access-Control-Allow-Methods".to_owned(), "POST, GET, OPTIONS".to_owned()));
    headers.push(("Access-Control-Allow-Headers".to_owned(), "X-PINGOTHER, Content-Type".to_owned()));
    HttpReply { status: 200, headers, body: "No data".as_bytes_vec() }
}

/// Build the timeout reply.
pub fn timeout_reply() -> (r: HttpReply)
    ensures
        is_timeout_reply(r),
{
    let mut headers: Vec<(String, String)> = Vec::new();
    headers.push(("Access-Control-Allow-Origin".to_owned(), "*".to_owned()));
    HttpReply { status: 408, headers, body: "Request Timeout".as_bytes_vec() }
}

/// Build the error response for one error.
pub fn error_reply(e: &GateError) -> (r: HttpReply)
    ensures
        is_error_reply(r, *e),
{
    let body = match e {
        GateError::Configuration => "store address missing".as_bytes_vec(),
        GateError::InvalidRequest => "proto_name is empty.".as_bytes_vec(),
        GateError::UnsupportedMethod => "No data".as_bytes_vec(),
        GateError::UpstreamUnavailable => "Error querying Redis".as_bytes_vec(),
        GateError::MalformedResult => "empty response body.".as_bytes_vec(),
    };
    HttpReply { status: 500, headers: Vec::new(), body }
}

/// Translate what the store held for a found status entry. The body entry
/// present: the result record becomes the reply, status parsed with the 500
/// fallback, body passed through. Absent: the worker broke the convention —
/// an explicit malformed-result error, never a crash. Failed: the store
/// itself is unreachable.
pub fn translate_result(status_bytes: &Vec<u8>, body: BodyReply) -> (r: Result<
    HttpReply,
    GateError,
>)
    ensures
        body matches BodyReply::Failed ==> r matches Err(GateError::UpstreamUnavailable),
        body matches BodyReply::Absent ==> r matches Err(GateError::MalformedResult),
        body matches BodyReply::Present(b) ==> (r matches Ok(reply) && is_found_reply(
            reply, status_bytes@, b@)),
{
    match body {
        BodyReply::Failed => Err(GateError::UpstreamUnavailable),
        BodyReply::Absent => Err(GateError::MalformedResult),
        BodyReply::Present(b) => {
            let status = parse_status(status_bytes);
            let mut headers: Vec<(String, String)> = Vec::new();
            headers.push(("ef-http-gate-version".to_owned(), "1.0".to_owned()));
            headers.push(("Access-Control-Allow-Origin".to_owned(), "*".to_owned()));
            Ok(HttpReply { status, headers, body: b })
        },
    }
}

} // verus!
