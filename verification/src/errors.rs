//! The gateway's error taxonomy. Every variant is surfaced to the caller as
//! an HTTP error response; none crashes the process. The timeout is not an
//! error: it is a defined terminal outcome with its own response.

use vstd::prelude::*;

verus! {

/// Why a request could not be completed.
#[derive(Clone, Copy, Debug, PartialEq, Eq, Structural)]
pub enum GateError {
    /// The required store address is missing from the configuration.
    Configuration,
    /// The path yields an empty routing key.
    InvalidRequest,
    /// The method is none of GET, POST, OPTIONS.
    UnsupportedMethod,
    /// The bus publish or a store query failed at the transport level.
    UpstreamUnavailable,
    /// A status entry was present but its body entry was not.
    MalformedResult,
}

} // verus!
