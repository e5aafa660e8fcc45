//! The envelope builder: assembles the message published to the bus for a
//! single request and serializes it to its wire form.

use vstd::prelude::*;
use vstd::string::StrSliceExecFns;
use vstd::utf8::encode_utf8;

use crate::classify::Action;
use crate::classify::Classified;
use crate::json::envelope_json;
use crate::json::envelope_json_text;
use crate::json::opt_text;
use crate::json::payload_json;
use crate::json::payload_json_text;

verus! {

/// The character form of an action class on the wire.
pub open spec fn action_text(a: Action) -> Seq<char> {
    match a {
        Action::Post => "post"@,
        Action::Query => "query"@,
    }
}

/// The action class's wire name.
pub fn action_name(a: &Action) -> (r: &'static str)
    ensures
        r@ == action_text(*a),
{
    match a {
        Action::Post => "post",
        Action::Query => "query",
    }
}

/// The message published to the bus for a single request: the routing key,
/// the original path, the action class, the payload record's UTF-8 bytes,
/// and reserved extension bytes (empty today).
pub struct Envelope {
    pub proto: String,
    pub model: String,
    pub action: Action,
    pub data: Vec<u8>,
    pub ext: Vec<u8>,
}

/// Assemble the envelope for one classified request. The payload record
/// carries the correlation id and the optional request data; the extension
/// bytes stay empty.
pub fn build_envelope(c: &Classified, path: &str, reqid: &str) -> (e: Envelope)
    ensures
        e.proto@ == c.proto@,
        e.model@ == path@,
        e.action == c.action,
        e.data@ == encode_utf8(payload_json(reqid@, opt_text(&c.reqdata))),
        e.ext@.len() == 0,
{
    let payload = payload_json_text(reqid, &c.reqdata);
    let data = payload.as_str().as_bytes_vec();
    Envelope {
        proto: c.proto.clone(),
        model: path.to_owned(),
        action: c.action,
        data,
        ext: Vec::new(),
    }
}

impl Envelope {
    /// The serialized wire form: the JSON record whose UTF-8 bytes go on
    /// the bus.
    pub fn wire_text(&self) -> (r: String)
        ensures
            r@ == envelope_json(
                self.proto@,
                self.model@,
                action_text(self.action),
                self.data@,
                self.ext@,
            ),
    {
        let action = action_name(&self.action);
        envelope_json_text(self.proto.as_str(), self.model.as_str(), action, &self.data, &self.ext)
    }
}

} // verus!
