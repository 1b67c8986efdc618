//! The tool dispatch bridge.
//!
//! When the foreign engine requests a tool invocation, the callback running on
//! a foreign thread stores a one-shot rendezvous endpoint in a process-wide
//! mapping keyed by the engine-supplied identifier, forwards the request to
//! the host and then blocks on the endpoint with a fixed timeout.  The host
//! answers through `take`, which removes the record and hands back the
//! waiting endpoint; a wait that times out removes its own record and falls
//! back to the textual form of an empty object.  Either way, no identifier
//! ever outlives its call in the mapping.

use std::collections::HashMap;
use vstd::prelude::*;

use crate::payload::{lend, terminated, terminator_free};
use crate::{BridgeError, PayloadKind};

verus! {

broadcast use vstd::std_specs::hash::group_hash_axioms;

/// The two bytes of the textual form of an empty object, the fallback result
/// a timed-out tool call hands back to the foreign engine.
pub open spec fn empty_object() -> Seq<u8> {
    seq![123u8, 125u8]
}

/// Builds the textual form of an empty object.
pub fn empty_object_bytes() -> (r: Vec<u8>)
    ensures
        r@ == empty_object(),
{
    let mut r: Vec<u8> = Vec::new();
    r.push(123);
    r.push(125);
    proof {
        assert(r@ =~= empty_object());
    }
    r
}

/// The arguments blob a tool invocation carries to the host: the engine's
/// blob as it came, or the textual form of an empty object where the engine
/// passed none.
pub fn normalize_args(args: Option<Vec<u8>>) -> (r: Vec<u8>)
    ensures
        args matches Some(a) ==> r == a,
        args is None ==> r@ == empty_object(),
{
    match args {
        Some(a) => a,
        None => empty_object_bytes(),
    }
}

/// The process-wide mapping from pending tool identifiers to their rendezvous
/// endpoints.
///
/// `V` is the endpoint type the unverified shell waits on; the mapping never
/// reads into it.  Invariant of the protocol: an identifier maps to at most
/// one pending record, and every record is removed when its call returns.
#[verifier::reject_recursive_types(V)]
pub struct PendingTools<V> {
    map: HashMap<u64, V>,
}

impl<V> View for PendingTools<V> {
    type V = Map<u64, V>;

    closed spec fn view(&self) -> Map<u64, V> {
        self.map@
    }
}

impl<V> PendingTools<V> {
    /// An empty mapping.
    pub fn new() -> (r: Self)
        ensures
            r@ == Map::<u64, V>::empty(),
    {
        PendingTools { map: HashMap::new() }
    }

    /// Stores the rendezvous endpoint of a tool call that is about to wait,
    /// keyed by the engine-supplied identifier.
    pub fn begin(&mut self, id: u64, endpoint: V)
        ensures
            final(self)@ == old(self)@.insert(id, endpoint),
    {
        let _ = self.map.insert(id, endpoint);
    }

    /// Removes and returns the pending record of `id`, if one exists.
    ///
    /// This is both the host-side delivery step — the returned endpoint, if
    /// any, is still waiting and receives the result — and the timed-out
    /// waiter's own cleanup.  A delivery for an identifier with no pending
    /// record returns nothing and changes nothing: a late result is dropped
    /// silently.
    pub fn take(&mut self, id: u64) -> (endpoint: Option<V>)
        ensures
            final(self)@ == old(self)@.remove(id),
            endpoint == if old(self)@.contains_key(id) {
                Some(old(self)@[id])
            } else {
                None::<V>
            },
    {
        self.map.remove(&id)
    }

    /// Whether a record for `id` is pending.
    pub fn contains(&self, id: u64) -> (r: bool)
        ensures
            r == self@.contains_key(id),
    {
        self.map.contains_key(&id)
    }

    /// The number of pending records.
    pub fn count(&self) -> (r: usize)
        ensures
            r == self@.dom().len(),
    {
        self.map.len()
    }

    /// Ends the wait of the tool call `id` and picks the blob returned to the
    /// foreign engine: the host's result where one arrived before the
    /// timeout, the textual form of an empty object where none did.  Either
    /// way the call's record leaves the mapping.
    pub fn complete(&mut self, id: u64, received: Option<Vec<u8>>) -> (r: Vec<u8>)
        ensures
            final(self)@ == old(self)@.remove(id),
            received matches Some(b) ==> r == b,
            received is None ==> r@ == empty_object(),
    {
        let out = normalize_args(received);
        let _ = self.take(id);
        out
    }
}

/// Turns a host-supplied tool result into the terminated buffer that the
/// engine's result-notification entry point takes.  Rejected exactly when the
/// result holds an embedded terminator, before any foreign call is attempted.
pub fn prepare_tool_result(result: &Vec<u8>) -> (r: Result<Vec<u8>, BridgeError>)
    ensures
        match r {
            Ok(buf) => terminator_free(result@) && terminated(result@, buf@),
            Err(e) => !terminator_free(result@) && e == BridgeError::InvalidPayload(
                PayloadKind::ToolResult,
            ),
        },
{
    match lend(result) {
        Some(buf) => Ok(buf),
        None => Err(BridgeError::InvalidPayload(PayloadKind::ToolResult)),
    }
}

/// Builds the terminated buffer a tool dispatch returns across the foreign
/// boundary.  A result that cannot cross — it holds an embedded terminator —
/// becomes the empty-object fallback instead of a failure: nothing may unwind
/// across the foreign boundary, so this conversion is total.
pub fn prepare_dispatch_reply(result: &Vec<u8>) -> (r: Vec<u8>)
    ensures
        terminator_free(result@) ==> terminated(result@, r@),
        !terminator_free(result@) ==> terminated(empty_object(), r@),
{
    match lend(result) {
        Some(buf) => buf,
        None => {
            let fallback = empty_object_bytes();
            proof {
                assert(terminator_free(empty_object())) by {
                    assert(forall|i: int|
                        0 <= i < empty_object().len() ==> empty_object()[i] != 0);
                };
            }
            match lend(&fallback) {
                Some(buf) => buf,
                None => {
                    // Unreachable: the fallback is terminator-free.
                    fallback
                },
            }
        },
    }
}

/// Law: a completed tool call leaves no trace.  Beginning a call for an
/// identifier not already pending and then completing it — by result delivery
/// or by timeout, both of which remove the record — returns the pending
/// mapping to exactly its previous value.
pub proof fn lemma_pending_restored<V>(m: Map<u64, V>, id: u64, endpoint: V)
    requires
        !m.contains_key(id),
    ensures
        m.insert(id, endpoint).remove(id) == m,
{
    assert(m.insert(id, endpoint).remove(id) =~= m);
}

} // verus!
