//! The request classifier: derives the routing key from the path and the
//! action class plus optional payload data from the method, rejecting
//! malformed input before anything is published.

use vstd::prelude::*;
use vstd::string::StrSliceExecFns;

use crate::errors::GateError;

verus! {

/// The HTTP methods the gateway distinguishes. Anything outside GET, POST
/// and OPTIONS is `Other` and is rejected.
#[derive(Clone, Copy, Debug, PartialEq, Eq, Structural)]
pub enum Method {
    Get,
    Post,
    Options,
    Other,
}

/// The request's semantic class: post-class traffic goes to the single
/// coordinator channel, query-class traffic straight to a worker pool.
#[derive(Clone, Copy, Debug, PartialEq, Eq, Structural)]
pub enum Action {
    Post,
    Query,
}

/// Index of the first position at or after `i` holding no slash.
pub open spec fn scan_past_slashes(s: Seq<char>, i: int) -> int
    decreases s.len() - i,
{
    if i < 0 || i >= s.len() {
        i
    } else if s[i] == '/' {
        scan_past_slashes(s, i + 1)
    } else {
        i
    }
}

/// Index of the first slash at or after `i`.
pub open spec fn scan_to_slash(s: Seq<char>, i: int) -> int
    decreases s.len() - i,
{
    if i < 0 || i >= s.len() {
        i
    } else if s[i] != '/' {
        scan_to_slash(s, i + 1)
    } else {
        i
    }
}

/// The routing key a path yields: its first non-empty `/`-delimited segment
/// after stripping every leading slash; empty when the path has no such
/// segment, which is a classification error, never a valid key.
pub open spec fn spec_proto_name(s: Seq<char>) -> Seq<char> {
    s.subrange(scan_past_slashes(s, 0), scan_to_slash(s, scan_past_slashes(s, 0)))
}

/// The first `/`-delimited, non-empty segment of the path after stripping
/// leading slashes — the request's routing key; empty when no such segment
/// exists.
pub fn parse_proto_name(path: &str) -> (r: String)
    ensures
        r@ == spec_proto_name(path@),
{
    let n: usize = path.unicode_len();
    let mut i: usize = 0;
    while i < n && path.get_char(i) == '/'
        invariant
            i <= n,
            n == path@.len(),
            scan_past_slashes(path@, 0) == scan_past_slashes(path@, i as int),
        decreases n - i,
    {
        i = i + 1;
    }
    let start: usize = i;
    proof {
        assert(scan_past_slashes(path@, start as int) == start as int);
    }
    let mut j: usize = i;
    while j < n && path.get_char(j) != '/'
        invariant
            start <= j <= n,
            n == path@.len(),
            scan_to_slash(path@, start as int) == scan_to_slash(path@, j as int),
        decreases n - j,
    {
        j = j + 1;
    }
    proof {
        assert(scan_to_slash(path@, j as int) == j as int);
    }
    let seg = path.substring_char(start, j);
    seg.to_owned()
}

/// Named result of `String::from_utf8_lossy`: the characters decoded from
/// the given bytes, a function of the bytes alone.
pub uninterp spec fn lossy_utf8(bytes: Seq<u8>) -> Seq<char>;

/// Relies on `String::from_utf8_lossy`: decodes the bytes as UTF-8,
/// replacing each invalid sequence with U+FFFD; a pure function of the
/// bytes.
#[verifier::external_body]
fn utf8_lossy_string(bytes: &[u8]) -> (r: String)
    ensures
        r@ == lossy_utf8(bytes@),
{
    String::from_utf8_lossy(bytes).to_string()
}

/// One classified request, ready for envelope construction.
pub struct Classified {
    /// The routing key; never empty.
    pub proto: String,
    /// The action class the method mapped to.
    pub action: Action,
    /// The raw request data: the query string for GET, the lossily decoded
    /// body for POST; absent when that source is empty.
    pub reqdata: Option<String>,
}

/// Classify one request. OPTIONS is handled entirely outside this pipeline
/// and never reaches the classifier. Classification succeeds exactly for
/// GET and POST on a path with a non-empty routing key.
pub fn classify(method: &Method, path: &str, query: &str, body: &[u8]) -> (r: Result<
    Classified,
    GateError,
>)
    requires
        !(method matches Method::Options),
    ensures
        method matches Method::Other ==> r matches Err(GateError::UnsupportedMethod),
        (method matches Method::Get || method matches Method::Post) && spec_proto_name(
            path@).len() == 0 ==> r matches Err(GateError::InvalidRequest),
        method matches Method::Get && spec_proto_name(path@).len() > 0 ==> (r matches Ok(c)
            && c.proto@ == spec_proto_name(path@) && (c.action matches Action::Query) && (if query@.len()
            == 0 {
            c.reqdata matches Option::None
        } else {
            c.reqdata matches Option::Some(d) && d@ == query@
        })),
        method matches Method::Post && spec_proto_name(path@).len() > 0 ==> (r matches Ok(c)
            && c.proto@ == spec_proto_name(path@) && (c.action matches Action::Post) && (if body@.len()
            == 0 {
            c.reqdata matches Option::None
        } else {
            c.reqdata matches Option::Some(d) && d@ == lossy_utf8(body@)
        })),
{
    if let Method::Other = method {
        return Err(GateError::UnsupportedMethod);
    }
    let proto = parse_proto_name(path);
    if proto.as_str().is_empty() {
        return Err(GateError::InvalidRequest);
    }
    match method {
        Method::Get => {
            let reqdata = if query.is_empty() {
                Option::None
            } else {
                Option::Some(query.to_owned())
            };
            Ok(Classified { proto, action: Action::Query, reqdata })
        },
        _ => {
            let reqdata = if body.len() == 0 {
                Option::None
            } else {
                Option::Some(utf8_lossy_string(body))
            };
            Ok(Classified { proto, action: Action::Post, reqdata })
        },
    }
}

} // verus!
