//! Availability and language-list queries: the one-shot decisions around the
//! simple foreign status calls.

use vstd::prelude::*;

verus! {

/// The foreign engine's status code meaning that the model is available.
pub const STATUS_AVAILABLE: i32 = 1;

/// What the host learns from an availability query.
pub struct ModelAvailability {
    /// Whether the model is available.
    pub available: bool,
    /// A human-readable reason.
    pub reason: String,
}

/// Interprets the foreign availability status: the available status code
/// means available with the fixed reason, every other code means unavailable
/// with the reason the engine supplied.
pub fn interpret_availability(status: i32, engine_reason: String) -> (r: ModelAvailability)
    ensures
        r.available == (status == STATUS_AVAILABLE),
        status == STATUS_AVAILABLE ==> r.reason@ == "Available"@,
        status != STATUS_AVAILABLE ==> r.reason == engine_reason,
{
    if status == STATUS_AVAILABLE {
        ModelAvailability { available: true, reason: "Available".to_owned() }
    } else {
        ModelAvailability { available: false, reason: engine_reason }
    }
}

/// The values present in a sequence of optional entries, in order.
pub open spec fn present_values<T>(s: Seq<Option<T>>) -> Seq<T>
    decreases s.len(),
{
    if s.len() == 0 {
        Seq::empty()
    } else {
        present_values(s.drop_last()) + match s.last() {
            Some(v) => seq![v],
            None => Seq::empty(),
        }
    }
}

/// Collects the supported languages the engine handed back, one per index
/// query: entries the engine answered, in index order, missing answers
/// skipped.
pub fn collect_languages(raw: Vec<Option<String>>) -> (r: Vec<String>)
    ensures
        r@ == present_values(raw@),
{
    let mut r: Vec<String> = Vec::new();
    let mut i: usize = 0;
    while i < raw.len()
        invariant
            0 <= i <= raw@.len(),
            r@ == present_values(raw@.take(i as int)),
        decreases raw@.len() - i,
    {
        proof {
            assert(raw@.take(i + 1 as int).drop_last() =~= raw@.take(i as int));
            assert(raw@.take(i + 1 as int).last() == raw@[i as int]);
        }
        match &raw[i] {
            Some(lang) => {
                r.push(lang.clone());
            },
            None => {},
        }
        i = i + 1;
    }
    proof {
        assert(raw@.take(raw@.len() as int) =~= raw@);
    }
    r
}

} // verus!
