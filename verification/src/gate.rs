//! The gateway's front decision: what to do with one incoming request —
//! answer at once (preflight or rejection) or publish an envelope and start
//! polling for its result.

use vstd::prelude::*;
use vstd::utf8::encode_utf8;

use crate::classify::classify;
use crate::classify::lossy_utf8;
use crate::classify::spec_proto_name;
use crate::classify::Method;
use crate::envelope::action_text;
use crate::envelope::build_envelope;
use crate::errors::GateError;
use crate::json::envelope_json;
use crate::json::opt_text;
use crate::json::payload_json;
use crate::respond::is_preflight_reply;
use crate::respond::preflight_reply;
use crate::respond::HttpReply;
use crate::route::channel_for;
use crate::route::post_channel_name;
use crate::route::query_channel_name;

verus! {

/// What the gateway does with one request after classification.
pub enum Plan {
    /// Answer immediately; nothing is published and the store is never
    /// queried.
    Respond(HttpReply),
    /// Publish `message` (as UTF-8 bytes) on `channel`, then poll the store
    /// under `reqid` for the result record.
    Publish { channel: String, message: String, reqid: String },
}

/// The wire message for one request: the envelope whose `data` field holds
/// the UTF-8 bytes of the payload record, with empty extension bytes.
pub open spec fn spec_message(
    proto: Seq<char>,
    path: Seq<char>,
    action: Seq<char>,
    reqid: Seq<char>,
    reqdata: Option<Seq<char>>,
) -> Seq<char> {
    envelope_json(proto, path, action, encode_utf8(payload_json(reqid, reqdata)), Seq::<u8>::empty())
}

/// The request data a GET carries: the raw query string when non-empty.
pub open spec fn query_reqdata(query: Seq<char>) -> Option<Seq<char>> {
    if query.len() == 0 {
        Option::None
    } else {
        Option::Some(query)
    }
}

/// The request data a POST carries: the lossily decoded body when
/// non-empty.
pub open spec fn post_reqdata(body: Seq<u8>) -> Option<Seq<char>> {
    if body.len() == 0 {
        Option::None
    } else {
        Option::Some(lossy_utf8(body))
    }
}

/// Decide one request. OPTIONS answers with the fixed preflight reply and
/// touches neither the bus nor the store; an unsupported method or an empty
/// routing key is rejected before anything is published; GET publishes to
/// the per-routing-key query channel and POST to the fixed post channel,
/// each with the exact wire message for this correlation id.
pub fn plan_request(method: &Method, path: &str, query: &str, body: &[u8], reqid: &str) -> (p:
    Result<Plan, GateError>)
    ensures
        method matches Method::Options ==> (p matches Ok(pl) && pl matches Plan::Respond(r)
            && is_preflight_reply(r)),
        method matches Method::Other ==> p matches Err(GateError::UnsupportedMethod),
        (method matches Method::Get || method matches Method::Post) && spec_proto_name(
            path@).len() == 0 ==> p matches Err(GateError::InvalidRequest),
        method matches Method::Get && spec_proto_name(path@).len() > 0 ==> (p matches Ok(pl)
            && pl matches Plan::Publish { channel, message, reqid: rid } && channel@
            == query_channel_name(spec_proto_name(path@)) && message@ == spec_message(
            spec_proto_name(path@), path@, "query"@, reqid@, query_reqdata(query@)) && rid@
            == reqid@),
        method matches Method::Post && spec_proto_name(path@).len() > 0 ==> (p matches Ok(pl)
            && pl matches Plan::Publish { channel, message, reqid: rid } && channel@
            == post_channel_name() && message@ == spec_message(
            spec_proto_name(path@), path@, "post"@, reqid@, post_reqdata(body@)) && rid@
            == reqid@),
{
    match method {
        Method::Options => Ok(Plan::Respond(preflight_reply())),
        Method::Other => Err(GateError::UnsupportedMethod),
        _ => {
            let c = match classify(method, path, query, body) {
                Err(e) => {
                    return Err(e);
                },
                Ok(c) => c,
            };
            let env = build_envelope(&c, path, reqid);
            let message = env.wire_text();
            let channel = channel_for(&c.action, c.proto.as_str());
            proof {
                assert(env.ext@ =~= Seq::<u8>::empty());
            }
            Ok(Plan::Publish { channel, message, reqid: reqid.to_owned() })
        },
    }
}

} // verus!
