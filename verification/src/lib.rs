//! Core of a bridge between a synchronous, callback-driven native generation
//! engine and a single-threaded cooperative host runtime.
//!
//! The verified library holds the bridge's decisions: which payloads may cross
//! the foreign boundary, how streamed chunks are classified and delivered in
//! order, how tool-call rendezvous records are created and retired, and how
//! the one-time engine setup and the callback registration slots evolve.  The
//! unverified shell around it performs the foreign calls, the thread handoffs
//! and the host-runtime marshalling, consulting this library for every
//! decision.

use vstd::prelude::*;

pub mod availability;
pub mod lifecycle;
pub mod payload;
pub mod request;
pub mod registry;
pub mod relay;
pub mod tools;

verus! {

/// Field of a generation request whose payload was found invalid.
#[derive(Clone, Copy, PartialEq, Eq, Structural, Debug)]
pub enum PayloadKind {
    Messages,
    Tools,
    Schema,
    ToolResult,
}

/// Request-level failures surfaced to the caller of a single request.
#[derive(Clone, Copy, PartialEq, Eq, Structural, Debug)]
pub enum BridgeError {
    /// A payload holds an embedded terminator byte and cannot cross the
    /// foreign boundary.
    InvalidPayload(PayloadKind),
    /// The foreign engine returned no result for a blocking generation call.
    GenerationFailed,
}

} // verus!
