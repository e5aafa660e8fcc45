//! Channel routing and the store's key layout.
//!
//! Post-class requests go to one fixed coordinator channel; query-class
//! requests go to a per-routing-key worker channel. A worker deposits its
//! result under two transient keys derived from the correlation identifier.

use vstd::prelude::*;
use vstd::string::StringExecFns;

use crate::classify::Action;

verus! {

/// The fixed channel for post-class envelopes, independent of the routing key.
pub open spec fn post_channel_name() -> Seq<char> {
    "gate2vin"@
}

/// The per-routing-key channel for query-class envelopes.
pub open spec fn query_channel_name(proto: Seq<char>) -> Seq<char> {
    "vin2worker:"@ + proto
}

/// The store key under which a worker writes the decimal status text.
pub open spec fn status_key_name(reqid: Seq<char>) -> Seq<char> {
    "cache:status:"@ + reqid
}

/// The store key under which a worker writes the raw response body.
pub open spec fn body_key_name(reqid: Seq<char>) -> Seq<char> {
    "cache:"@ + reqid
}

/// The destination channel: a pure function of the action class and the
/// routing key, with no hidden state.
pub fn channel_for(action: &Action, proto: &str) -> (c: String)
    ensures
        action matches Action::Post ==> c@ == post_channel_name(),
        action matches Action::Query ==> c@ == query_channel_name(proto@),
{
    match action {
        Action::Post => "gate2vin".to_owned(),
        Action::Query => {
            let mut c = "vin2worker:".to_owned();
            c.append(proto);
            c
        },
    }
}

/// The status key for one correlation identifier.
pub fn status_key(reqid: &str) -> (k: String)
    ensures
        k@ == status_key_name(reqid@),
{
    let mut k = "cache:status:".to_owned();
    k.append(reqid);
    k
}

/// The body key for one correlation identifier.
pub fn body_key(reqid: &str) -> (k: String)
    ensures
        k@ == body_key_name(reqid@),
{
    let mut k = "cache:".to_owned();
    k.append(reqid);
    k
}

/// Routing correctness: the fixed post channel coincides with no query
/// channel, whatever the routing key — a post-class envelope is never
/// published where a query-class worker pool listens.
pub proof fn lemma_post_channel_is_no_query_channel(proto: Seq<char>)
    ensures
        post_channel_name() != query_channel_name(proto),
{
    reveal_strlit("gate2vin");
    reveal_strlit("vin2worker:");
    assert(post_channel_name().len() == 8);
    assert(query_channel_name(proto).len() >= 11);
}

} // verus!
