//! A synchronous-HTTP-to-asynchronous-worker gateway, verified.
//!
//! The gateway re-expresses an HTTP request as an envelope on a pub/sub bus,
//! then bridges the asynchronous worker reply back into a synchronous HTTP
//! response by polling a shared key-value store under a per-request
//! correlation identifier. This crate holds the request-correlation protocol
//! itself: classification, envelope construction and serialization, channel
//! routing, the bounded poll state machine, and response translation. The
//! HTTP listener, the bus and the store are external collaborators driven by
//! an unverified shell around this library.

pub mod classify;
pub mod envelope;
pub mod errors;
pub mod gate;
pub mod ident;
pub mod json;
pub mod poll;
pub mod respond;
pub mod route;
