//! The single owned registration slot for a delivery handle.
//!
//! The foreign interface accepts exactly one callback per kind, and the host
//! runtime requires that a handle it hands out is retired exactly once and
//! never invoked afterwards.  The slot records which handle is live and, as
//! ghost history, every handle ever retired; replacing or clearing always
//! retires the previous handle first, and a retired handle can never become
//! live again.

use vstd::prelude::*;

verus! {

/// A process-wide slot holding at most one live delivery handle.
///
/// Handles are named by identifiers that the unverified shell assigns
/// freshly, one per host-runtime callable it creates.
pub struct HandleSlot {
    /// The identifier of the live handle, if one is installed.
    pub active: Option<u64>,
    /// Every handle identifier that was ever retired from this slot.
    pub retired: Ghost<Set<u64>>,
}

impl HandleSlot {
    /// A live handle is never one that was already retired.
    pub open spec fn wf(self) -> bool {
        self.active matches Some(h) ==> !self.retired@.contains(h)
    }

    /// The slot permits invoking exactly the live handle.
    pub open spec fn may_invoke(self, h: u64) -> bool {
        self.active == Some(h)
    }

    /// An empty slot: nothing live, nothing retired.
    pub fn new() -> (s: Self)
        ensures
            s.wf(),
            s.active is None,
            s.retired@ == Set::<u64>::empty(),
    {
        HandleSlot { active: None, retired: Ghost(Set::empty()) }
    }

    /// Installs a fresh handle, retiring the previously live one.
    ///
    /// Returns the retired handle so the caller can release the underlying
    /// host-runtime callable; the returned handle may never be invoked again.
    pub fn install(&mut self, h: u64) -> (prev: Option<u64>)
        requires
            old(self).wf(),
            !old(self).retired@.contains(h),
            old(self).active != Some(h),
        ensures
            final(self).wf(),
            final(self).active == Some(h),
            prev == old(self).active,
            final(self).retired@ == match old(self).active {
                Some(p) => old(self).retired@.insert(p),
                None => old(self).retired@,
            },
            old(self).retired@.subset_of(final(self).retired@),
            (old(self).active matches Some(p) ==> !final(self).may_invoke(p)),
    {
        let prev = self.active;
        proof {
            match prev {
                Some(p) => {
                    self.retired@ = self.retired@.insert(p);
                },
                None => {},
            }
        }
        self.active = Some(h);
        prev
    }

    /// Retires the live handle, leaving the slot empty.
    ///
    /// Returns the retired handle so the caller can release the underlying
    /// host-runtime callable; the returned handle may never be invoked again.
    pub fn clear(&mut self) -> (prev: Option<u64>)
        requires
            old(self).wf(),
        ensures
            final(self).wf(),
            final(self).active is None,
            prev == old(self).active,
            final(self).retired@ == match old(self).active {
                Some(p) => old(self).retired@.insert(p),
                None => old(self).retired@,
            },
            old(self).retired@.subset_of(final(self).retired@),
            (old(self).active matches Some(p) ==> !final(self).may_invoke(p)),
    {
        let prev = self.active;
        proof {
            match prev {
                Some(p) => {
                    self.retired@ = self.retired@.insert(p);
                },
                None => {},
            }
        }
        self.active = None;
        prev
    }

    /// The identifier of the live handle, if any; the only handle the slot
    /// ever allows to be invoked.
    pub fn current(&self) -> (r: Option<u64>)
        ensures
            r == self.active,
            r matches Some(h) ==> self.may_invoke(h),
    {
        self.active
    }
}

/// Law: a handle that was retired from a well-formed slot can never be
/// invoked through it again, whatever installs or clears happened since —
/// every operation only grows the retired set, and a well-formed slot never
/// holds a retired handle live.
pub proof fn lemma_retired_never_invoked(s: HandleSlot, h: u64)
    requires
        s.wf(),
        s.retired@.contains(h),
    ensures
        !s.may_invoke(h),
{
}

/// What every slot operation guarantees of the states before and after it:
/// the result is well-formed and nothing leaves the retired set.  Both
/// `install` and `clear` ensure exactly this, beside their specific effects.
pub open spec fn slot_step(s: HandleSlot, t: HandleSlot) -> bool {
    &&& t.wf()
    &&& s.retired@.subset_of(t.retired@)
}

/// Law: once retired, retired forever.  Along any sequence of slot states,
/// each arising from the previous by an `install` or a `clear`, a handle
/// retired at one point stays retired — and so is never invocable again — at
/// every later point.
pub proof fn lemma_retired_stays_retired(trace: Seq<HandleSlot>, i: int, j: int, h: u64)
    requires
        forall|k: int| 0 <= k < trace.len() - 1 ==> #[trigger] slot_step(trace[k], trace[k + 1]),
        0 <= i <= j < trace.len(),
        trace[i].retired@.contains(h),
        trace[j].wf(),
    ensures
        trace[j].retired@.contains(h),
        !trace[j].may_invoke(h),
    decreases j - i,
{
    if i < j {
        assert(slot_step(trace[i], trace[i + 1]));
        lemma_retired_stays_retired(trace, i + 1, j, h);
    }
}

} // verus!
