//! A small publish/subscribe messaging core with automatic fallback between a
//! native transport and an in-process substitute.
//!
//! The library holds the verified heart of the pipeline: the message data
//! model and its validity rules, the fixed-size wire codec used by the native
//! transport, the in-process mock transport (a bounded consuming ring
//! buffer), the bounded display queue fed by the producer and consumer loops,
//! the transport selector, and the per-tick decision logic of both loops.
//! Timer scheduling, terminal rendering and the native transport bindings
//! live outside it and hand plain values in and out.

use vstd::prelude::*;

pub mod codec;
pub mod display;
pub mod message;
pub mod mock;
pub mod pipeline;
pub mod selector;
pub mod tui;

verus! {

/// The error kinds of the messaging core.
///
/// Decode failures are not listed: a message whose bytes do not decode is
/// treated as "no message" by design, not as an error.
#[derive(Clone, Copy, Debug, PartialEq, Eq, Structural)]
pub enum DdsError {
    /// The native transport could not be initialized (create returned null).
    Initialization,
    /// Message content violates the length or terminator invariant.
    Serialization,
    /// The native publish call reported a nonzero status.
    Transport,
}

} // verus!
