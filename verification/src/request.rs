//! Generation requests and their preparation for the foreign boundary.
//!
//! A request carries the opaque payload blobs and the scalar knobs of one
//! generation call.  Before the blocking call dispatcher or the streaming
//! relay may hand a request to the foreign engine, every blob must be turned
//! into a terminated foreign-compatible buffer; a blob holding an embedded
//! terminator is rejected here, before any foreign call is attempted.

use vstd::prelude::*;

use crate::payload::{lend, terminated, terminator_free};
use crate::{BridgeError, PayloadKind};

verus! {

/// One generation request, owned by the call that issues it.
#[derive(Clone, PartialEq, Eq, Debug)]
pub struct GenerationRequest {
    /// The opaque message-history blob.
    pub messages: Vec<u8>,
    /// The opaque tool-declaration blob, where tools are offered.
    pub tools: Option<Vec<u8>>,
    /// The opaque response-schema blob, where structured output is asked for.
    pub schema: Option<Vec<u8>>,
    /// The engine-defined temperature, carried opaquely as the raw bit
    /// pattern of the host's floating-point value; the bridge never reads it.
    pub temperature_bits: u64,
    /// The token budget; zero means the engine's default.
    pub max_tokens: i32,
    /// Whether generation stops immediately after any tool call.
    pub stop_after_tool_calls: bool,
}

/// An optional blob as the engine expects it: an empty blob counts as absent.
pub open spec fn nonempty_blob(b: Option<Vec<u8>>) -> Option<Vec<u8>> {
    match b {
        Some(v) => if v@.len() == 0 {
            None
        } else {
            Some(v)
        },
        None => None,
    }
}

/// Builds a request from the host's raw arguments: empty optional blobs count
/// as absent, a missing temperature means the bit pattern of zero, a missing
/// token budget means the engine default of zero, and generation stops after
/// tool calls unless the host says otherwise.
pub fn normalize_request(
    messages: Vec<u8>,
    tools: Option<Vec<u8>>,
    schema: Option<Vec<u8>>,
    temperature_bits: Option<u64>,
    max_tokens: Option<i32>,
    stop_after_tool_calls: Option<bool>,
) -> (r: GenerationRequest)
    ensures
        r.messages == messages,
        r.tools == nonempty_blob(tools),
        r.schema == nonempty_blob(schema),
        r.temperature_bits == match temperature_bits {
            Some(t) => t,
            None => 0u64,
        },
        r.max_tokens == match max_tokens {
            Some(m) => m,
            None => 0i32,
        },
        r.stop_after_tool_calls == match stop_after_tool_calls {
            Some(s) => s,
            None => true,
        },
{
    let tools_n = match tools {
        Some(t) => if t.len() == 0 {
            None
        } else {
            Some(t)
        },
        None => None,
    };
    let schema_n = match schema {
        Some(s) => if s.len() == 0 {
            None
        } else {
            Some(s)
        },
        None => None,
    };
    GenerationRequest {
        messages,
        tools: tools_n,
        schema: schema_n,
        temperature_bits: match temperature_bits {
            Some(t) => t,
            None => 0,
        },
        max_tokens: match max_tokens {
            Some(m) => m,
            None => 0,
        },
        stop_after_tool_calls: match stop_after_tool_calls {
            Some(s) => s,
            None => true,
        },
    }
}

/// A request whose every blob has been turned into a terminated
/// foreign-compatible buffer.  The buffers must stay alive for as long as the
/// foreign side may read them — for a streaming call, until the stream ends.
#[derive(Clone, PartialEq, Eq, Debug)]
pub struct PreparedRequest {
    /// The terminated message-history buffer.
    pub messages_buf: Vec<u8>,
    /// The terminated tool-declaration buffer, where the request has one.
    pub tools_buf: Option<Vec<u8>>,
    /// The terminated response-schema buffer, where the request has one.
    pub schema_buf: Option<Vec<u8>>,
    /// The temperature bit pattern, copied from the request.
    pub temperature_bits: u64,
    /// The token budget, copied from the request.
    pub max_tokens: i32,
    /// The stop-after-tool-calls flag, copied from the request.
    pub stop_after_tool_calls: bool,
}

impl PreparedRequest {
    /// This prepared value is exactly the given request, each blob closed by
    /// one terminator and the scalar knobs copied unchanged.
    pub open spec fn prepares(self, req: GenerationRequest) -> bool {
        &&& terminated(req.messages@, self.messages_buf@)
        &&& match (req.tools, self.tools_buf) {
            (Some(t), Some(b)) => terminated(t@, b@),
            (None, None) => true,
            _ => false,
        }
        &&& match (req.schema, self.schema_buf) {
            (Some(s), Some(b)) => terminated(s@, b@),
            (None, None) => true,
            _ => false,
        }
        &&& self.temperature_bits == req.temperature_bits
        &&& self.max_tokens == req.max_tokens
        &&& self.stop_after_tool_calls == req.stop_after_tool_calls
    }
}

/// Turns a request into foreign-compatible buffers, or rejects it.
///
/// Succeeds exactly when no blob holds an embedded terminator; the error
/// names the first offending blob, messages checked before tools and tools
/// before schema.  No part of a rejected request is fit to cross the foreign
/// boundary.
pub fn prepare_request(req: &GenerationRequest) -> (r: Result<PreparedRequest, BridgeError>)
    ensures
        match r {
            Ok(p) => {
                &&& terminator_free(req.messages@)
                &&& (req.tools matches Some(t) ==> terminator_free(t@))
                &&& (req.schema matches Some(s) ==> terminator_free(s@))
                &&& p.prepares(*req)
            },
            Err(e) => match e {
                BridgeError::InvalidPayload(PayloadKind::Messages) => !terminator_free(
                    req.messages@,
                ),
                BridgeError::InvalidPayload(PayloadKind::Tools) => {
                    &&& terminator_free(req.messages@)
                    &&& req.tools matches Some(t) && !terminator_free(t@)
                },
                BridgeError::InvalidPayload(PayloadKind::Schema) => {
                    &&& terminator_free(req.messages@)
                    &&& (req.tools matches Some(t) ==> terminator_free(t@))
                    &&& req.schema matches Some(s) && !terminator_free(s@)
                },
                _ => false,
            },
        },
{
    let messages_buf = match lend(&req.messages) {
        Some(b) => b,
        None => {
            return Err(BridgeError::InvalidPayload(PayloadKind::Messages));
        },
    };
    let tools_buf = match &req.tools {
        Some(t) => match lend(t) {
            Some(b) => Some(b),
            None => {
                return Err(BridgeError::InvalidPayload(PayloadKind::Tools));
            },
        },
        None => None,
    };
    let schema_buf = match &req.schema {
        Some(s) => match lend(s) {
            Some(b) => Some(b),
            None => {
                return Err(BridgeError::InvalidPayload(PayloadKind::Schema));
            },
        },
        None => None,
    };
    Ok(
        PreparedRequest {
            messages_buf,
            tools_buf,
            schema_buf,
            temperature_bits: req.temperature_bits,
            max_tokens: req.max_tokens,
            stop_after_tool_calls: req.stop_after_tool_calls,
        },
    )
}

/// Interprets what a blocking generation call handed back: a missing result
/// buffer is the engine reporting failure for that one request.
pub fn interpret_generation_result(res: Option<Vec<u8>>) -> (r: Result<Vec<u8>, BridgeError>)
    ensures
        res matches Some(b) ==> r == Ok::<Vec<u8>, BridgeError>(b),
        res is None ==> r == Err::<Vec<u8>, BridgeError>(BridgeError::GenerationFailed),
{
    match res {
        Some(b) => Ok(b),
        None => Err(BridgeError::GenerationFailed),
    }
}

} // verus!
