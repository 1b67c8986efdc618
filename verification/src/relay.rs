//! The streaming chunk relay.
//!
//! A stream of generated text arrives as a sequence of chunk callbacks from an
//! arbitrary foreign thread, closed by a null chunk.  The relay owns the
//! single active-stream slot of its kind: it installs the delivery handle when
//! a stream starts (retiring any previous handle), classifies each arriving
//! chunk, and hands deliveries to the host in exactly the arrival order.  A
//! chunk whose first byte is the reserved error sentinel is a rejected
//! delivery whose message is the remaining bytes; an empty chunk is dropped;
//! the closing null chunk becomes one final empty successful delivery and
//! returns the slot to idle.

use vstd::prelude::*;

use crate::registry::HandleSlot;

verus! {

/// First byte of a chunk that encodes a stream-level error; the remaining
/// bytes are the error message.
pub const ERROR_SENTINEL: u8 = 2;

/// One delivery handed to the host: a successful chunk of generated text or a
/// rejected chunk carrying an error message.
#[derive(Clone, PartialEq, Eq, Debug)]
pub enum Delivery {
    Success(Vec<u8>),
    Failure(Vec<u8>),
}

/// The mathematical value of a delivery.
pub enum DeliveryView {
    Success(Seq<u8>),
    Failure(Seq<u8>),
}

impl View for Delivery {
    type V = DeliveryView;

    open spec fn view(&self) -> DeliveryView {
        match self {
            Delivery::Success(b) => DeliveryView::Success(b@),
            Delivery::Failure(b) => DeliveryView::Failure(b@),
        }
    }
}

impl DeepView for Delivery {
    type V = DeliveryView;

    open spec fn deep_view(&self) -> DeliveryView {
        self.view()
    }
}

/// What one non-null chunk becomes: nothing if it is empty, a rejected
/// delivery of the remaining bytes if it leads with the error sentinel, a
/// successful delivery of the whole chunk otherwise.
pub open spec fn chunk_delivery(b: Seq<u8>) -> Option<DeliveryView> {
    if b.len() == 0 {
        None
    } else if b[0] == ERROR_SENTINEL {
        Some(DeliveryView::Failure(b.skip(1)))
    } else {
        Some(DeliveryView::Success(b))
    }
}

/// The deliveries that a sequence of non-null chunks produces, in arrival
/// order, empty chunks dropped.
pub open spec fn chunk_deliveries(chunks: Seq<Seq<u8>>) -> Seq<DeliveryView>
    decreases chunks.len(),
{
    if chunks.len() == 0 {
        Seq::empty()
    } else {
        chunk_deliveries(chunks.drop_last()) + match chunk_delivery(chunks.last()) {
            Some(d) => seq![d],
            None => Seq::empty(),
        }
    }
}

/// The deliveries of a whole stream session: those of its chunks, in order,
/// followed by the single empty successful delivery that closes the stream.
pub open spec fn session_deliveries(chunks: Seq<Seq<u8>>) -> Seq<DeliveryView> {
    chunk_deliveries(chunks) + seq![DeliveryView::Success(Seq::empty())]
}

/// Copies the bytes of a payload from position `from` on into a host-owned
/// value.
fn copy_from(b: &Vec<u8>, from: usize) -> (r: Vec<u8>)
    requires
        from <= b@.len(),
    ensures
        r@ == b@.skip(from as int),
{
    let mut r: Vec<u8> = Vec::new();
    let mut i: usize = from;
    while i < b.len()
        invariant
            from <= i <= b@.len(),
            r@ == b@.subrange(from as int, i as int),
        decreases b@.len() - i,
    {
        r.push(b[i]);
        proof {
            assert(b@.subrange(from as int, i + 1 as int) =~= b@.subrange(
                from as int,
                i as int,
            ).push(b@[i as int]));
        }
        i = i + 1;
    }
    proof {
        assert(b@.subrange(from as int, b@.len() as int) =~= b@.skip(from as int));
    }
    r
}

/// Classifies one non-null chunk into its delivery, if any.
pub fn classify_chunk(b: &Vec<u8>) -> (d: Option<Delivery>)
    ensures
        d.deep_view() == chunk_delivery(b@),
{
    if b.len() == 0 {
        None
    } else if b[0] == ERROR_SENTINEL {
        Some(Delivery::Failure(copy_from(b, 1)))
    } else {
        proof {
            assert(b@.skip(0) =~= b@);
        }
        Some(Delivery::Success(copy_from(b, 0)))
    }
}

/// The single active-stream slot of one stream kind.
///
/// The relay is idle when no delivery handle is installed and active while
/// one is; chunk callbacks may arrive only while it is active.
pub struct StreamRelay {
    /// The delivery-handle slot; the stream is active exactly while a handle
    /// is installed.
    pub slot: HandleSlot,
}

impl StreamRelay {
    pub open spec fn wf(self) -> bool {
        self.slot.wf()
    }

    /// Whether a stream is in progress.
    pub open spec fn is_active(self) -> bool {
        self.slot.active is Some
    }

    /// A relay that has never carried a stream.
    pub fn new() -> (r: Self)
        ensures
            r.wf(),
            !r.is_active(),
            r.slot.retired@ == Set::<u64>::empty(),
    {
        StreamRelay { slot: HandleSlot::new() }
    }

    /// Starts a stream: installs the delivery handle for the new stream,
    /// first retiring the handle of any stream still active in this slot.
    ///
    /// Returns the retired handle so the caller can release it; it must never
    /// be invoked again.
    pub fn start(&mut self, handle: u64) -> (prev: Option<u64>)
        requires
            old(self).wf(),
            !old(self).slot.retired@.contains(handle),
            old(self).slot.active != Some(handle),
        ensures
            final(self).wf(),
            final(self).is_active(),
            final(self).slot.active == Some(handle),
            prev == old(self).slot.active,
            final(self).slot.retired@ == match old(self).slot.active {
                Some(p) => old(self).slot.retired@.insert(p),
                None => old(self).slot.retired@,
            },
            old(self).slot.retired@.subset_of(final(self).slot.retired@),
            (old(self).slot.active matches Some(p) ==> !final(self).slot.may_invoke(p)),
    {
        self.slot.install(handle)
    }

    /// The delivery handle of the stream in progress, if any; the only handle
    /// deliveries may go through.
    pub fn current_handle(&self) -> (r: Option<u64>)
        ensures
            r == self.slot.active,
            r matches Some(h) ==> self.slot.may_invoke(h),
    {
        self.slot.current()
    }

    /// Handles one chunk callback while the stream is active.
    ///
    /// A null chunk closes the stream: the result is the final empty
    /// successful delivery, the slot returns to idle and its handle is
    /// retired.  A non-null chunk leaves the stream active and yields the
    /// chunk's delivery, if any.
    pub fn on_chunk(&mut self, chunk: Option<&Vec<u8>>) -> (d: Option<Delivery>)
        requires
            old(self).wf(),
            old(self).is_active(),
        ensures
            final(self).wf(),
            match chunk {
                None => {
                    &&& !final(self).is_active()
                    &&& final(self).slot.retired@ == old(self).slot.retired@.insert(
                        old(self).slot.active->0,
                    )
                    &&& d.deep_view() == Some(DeliveryView::Success(Seq::<u8>::empty()))
                },
                Some(b) => {
                    &&& final(self).slot == old(self).slot
                    &&& d.deep_view() == chunk_delivery(b@)
                },
            },
    {
        match chunk {
            None => {
                let _ = self.slot.clear();
                Some(Delivery::Success(Vec::new()))
            },
            Some(b) => classify_chunk(b),
        }
    }

    /// Carries one whole stream session: every chunk in arrival order, then
    /// the closing null chunk.
    ///
    /// Law: for every sequence of chunk callbacks ending in a null chunk, the
    /// host receives exactly the chunks' successful and rejected deliveries
    /// in arrival order, followed by exactly one final empty successful
    /// delivery, and the slot returns to idle.
    pub fn run_session(&mut self, chunks: &Vec<Vec<u8>>) -> (out: Vec<Delivery>)
        requires
            old(self).wf(),
            old(self).is_active(),
        ensures
            final(self).wf(),
            !final(self).is_active(),
            out.deep_view() == session_deliveries(chunks.deep_view()),
    {
        let ghost cs: Seq<Seq<u8>> = chunks.deep_view();
        let mut out: Vec<Delivery> = Vec::new();
        let mut i: usize = 0;
        while i < chunks.len()
            invariant
                self.wf(),
                self.is_active(),
                self.slot == old(self).slot,
                0 <= i <= chunks@.len(),
                cs == chunks.deep_view(),
                cs.len() == chunks@.len(),
                out.deep_view() == chunk_deliveries(cs.take(i as int)),
            decreases chunks@.len() - i,
        {
            proof {
                assert(cs[i as int] =~= chunks@[i as int]@);
            }
            let ghost out_before: Seq<DeliveryView> = out.deep_view();
            let d = self.on_chunk(Some(&chunks[i]));
            match d {
                Some(del) => {
                    out.push(del);
                    proof {
                        assert(out.deep_view() =~= out_before.push(del.deep_view()));
                    }
                },
                None => {},
            }
            proof {
                assert(cs.take(i + 1 as int).drop_last() =~= cs.take(i as int));
                assert(cs.take(i + 1 as int).last() == cs[i as int]);
            }
            i = i + 1;
        }
        proof {
            assert(cs.take(cs.len() as int) =~= cs);
        }
        let ghost out_before: Seq<DeliveryView> = out.deep_view();
        let d = self.on_chunk(None);
        match d {
            Some(del) => {
                out.push(del);
                proof {
                    assert(out.deep_view() =~= out_before.push(del.deep_view()));
                }
            },
            None => {},
        }
        out
    }
}

} // verus!
