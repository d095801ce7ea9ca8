//! The laws that tie the handle operations together, stated over the same
//! spec functions that the operations' own contracts use.

use vstd::prelude::*;

use crate::heap::Heap;
use crate::narrow_box::NarrowBox;
use crate::payload::kind_of;
use crate::target::Concrete;
use crate::target::Target;

verus! {

/// Erasure followed by a downcast recovers the very value that was erased.
///
/// Erasing `v` leaves `h` whose payload is `v` wrapped; recovering a value
/// from `h` (by `downcast_unchecked` and `into_inner`, or through a
/// successful checked `downcast`) yields a `w` whose wrapping is that same
/// payload. Since a payload wraps exactly one value of its concrete type,
/// `w` is `v`.
pub proof fn lemma_erase_downcast_roundtrip<D: Target, T: Concrete>(
    heap: Heap,
    h: NarrowBox<D>,
    v: T,
    w: T,
)
    requires
        h.payload(heap) == v.wrap_spec(),
        w.wrap_spec() == h.payload(heap),
    ensures
        w == v,
{
    T::wrap_injective(w, v);
}

/// Constructing and then destroying a handle runs the payload's finalizer
/// exactly once.
///
/// Construction leaves the finalization record as it was; destruction
/// appends exactly the one entry for the stored value's kind.
pub proof fn lemma_destroy_finalizes_once<D: Target, T: Concrete>(
    heap0: Heap,
    heap1: Heap,
    heap2: Heap,
    h: NarrowBox<D>,
    v: T,
)
    requires
        h.payload(heap1) == v.wrap_spec(),
        heap1.log() == heap0.log(),
        heap2.log() == heap1.log().push(kind_of(h.payload(heap1))),
    ensures
        heap2.log() == heap0.log().push(kind_of(v.wrap_spec())),
        heap2.log().len() == heap0.log().len() + 1,
{
}

/// Constructing and then unwrapping a sized handle runs no finalizer at
/// all: neither step touches the finalization record.
pub proof fn lemma_unwrap_runs_no_finalizer(heap0: Heap, heap1: Heap, heap2: Heap)
    requires
        heap1.log() == heap0.log(),
        heap2.log() == heap1.log(),
    ensures
        heap2.log() == heap0.log(),
{
}

/// A handle stays well-formed under every operation that leaves its own
/// slot alone: its descriptor can never go stale while other blocks are
/// allocated, rewritten or freed, and finalizers never touch any slot.
pub proof fn lemma_wf_frame<D: Target>(h: NarrowBox<D>, heap0: Heap, heap1: Heap)
    requires
        h.wf(heap0),
        heap0.slots().len() <= heap1.slots().len(),
        heap1.slots()[h.addr_spec() as int] == heap0.slots()[h.addr_spec() as int],
    ensures
        h.wf(heap1),
{
}

/// Synthesizing a descriptor for the bare concrete/abstract pair equals
/// reading the descriptor off a genuine erased block of that pair: the
/// header that wraps the payload adds a fixed offset only and changes
/// nothing about the descriptor's content.
pub proof fn lemma_synthesis_agrees_with_block<D: Target>(heap: Heap, h: NarrowBox<D>)
    requires
        h.wf(heap),
        !D::sized_spec(),
    ensures
        heap.block_at(h.addr_spec()).metadata == D::descriptor_spec(kind_of(h.payload(heap))),
{
}

} // verus!
