//! Ownership-safe preparation of host payloads for the foreign boundary.
//!
//! Every buffer handed to the foreign engine is a byte string closed by a
//! single terminator byte.  A host payload may therefore not itself contain
//! that byte; this module decides which payloads may cross and builds the
//! terminated buffer for those that may.

use vstd::prelude::*;

verus! {

/// The byte that closes every buffer crossing the foreign boundary.
pub const TERMINATOR: u8 = 0;

/// A payload may cross the foreign boundary exactly when no byte of it equals
/// the terminator.
pub open spec fn terminator_free(b: Seq<u8>) -> bool {
    forall|i: int| 0 <= i < b.len() ==> b[i] != TERMINATOR
}

/// A terminated buffer is the payload followed by exactly one terminator.
pub open spec fn terminated(payload: Seq<u8>, buf: Seq<u8>) -> bool {
    buf == payload.push(TERMINATOR)
}

/// Decides whether a payload is free of embedded terminator bytes.
pub fn is_terminator_free(b: &Vec<u8>) -> (r: bool)
    ensures
        r == terminator_free(b@),
{
    let mut i: usize = 0;
    while i < b.len()
        invariant
            0 <= i <= b@.len(),
            forall|j: int| 0 <= j < i ==> b@[j] != TERMINATOR,
        decreases b@.len() - i,
    {
        if b[i] == TERMINATOR {
            return false;
        }
        i = i + 1;
    }
    true
}

/// Converts a host-owned payload into a foreign-compatible terminated buffer.
///
/// Succeeds exactly when the payload holds no embedded terminator; the
/// resulting buffer is the payload followed by one terminator byte.  The
/// caller must keep the buffer alive for as long as the foreign side may read
/// it.
pub fn lend(b: &Vec<u8>) -> (r: Option<Vec<u8>>)
    ensures
        r is Some <==> terminator_free(b@),
        r matches Some(buf) ==> terminated(b@, buf@),
{
    if is_terminator_free(b) {
        let mut buf: Vec<u8> = Vec::new();
        let mut i: usize = 0;
        while i < b.len()
            invariant
                0 <= i <= b@.len(),
                buf@ == b@.take(i as int),
            decreases b@.len() - i,
        {
            buf.push(b[i]);
            proof {
                assert(b@.take(i + 1 as int) =~= b@.take(i as int).push(b@[i as int]));
            }
            i = i + 1;
        }
        proof {
            assert(b@.take(b@.len() as int) =~= b@);
        }
        buf.push(TERMINATOR);
        Some(buf)
    } else {
        None
    }
}

} // verus!
