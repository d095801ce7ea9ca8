//! The narrow handle: a single-word owning reference to one heap block.
//!
//! A `NarrowBox<D>` stores only its block's address. The block carries the
//! descriptor header in front of the payload, so the handle stays one word
//! whether `D` is a concrete type or an abstract target. Every access and
//! the final destruction rebuild the full reference from the address plus
//! the stored descriptor; validity of that descriptor for the exact
//! concrete/abstract pair that was allocated is part of the handle's
//! well-formedness and is established at erasure, never revalidated later.
//!
//! A handle owns its block alone: every consuming operation either frees
//! the block (`destroy`, `into_inner`) or hands it to exactly one successor
//! handle (`unsize`, the downcasts), so no block can be finalized twice.

use vstd::prelude::*;
use vstd::pervasive::unreached;

use std::marker::PhantomData;

use crate::descriptor::Descriptor;
use crate::descriptor::kind_from_descriptor;
use crate::descriptor::lookup_descriptor;
use crate::descriptor::seq_len_of;
use crate::heap::Block;
use crate::heap::Heap;
use crate::payload::Kind;
use crate::payload::FsFailure;
use crate::payload::Ints4;
use crate::payload::Ints6;
use crate::payload::ParseFailure;
use crate::payload::Payload;
use crate::payload::kind_of;
use crate::registry::Diagnosable;
use crate::registry::IntSeq;
use crate::registry::int_seq_view;
use crate::target::Concrete;
use crate::target::Target;
use crate::target::synthesize_metadata;

verus! {

/// A single-word owning handle over one block, typed by its target `D`.
pub struct NarrowBox<D> {
    addr: usize,
    target: PhantomData<D>,
}

impl<D: Target> NarrowBox<D> {
    /// The address of the handle's block.
    pub closed spec fn addr_spec(self) -> usize {
        self.addr
    }

    /// The stored value, as the block at the handle's address carries it.
    pub open spec fn payload(self, heap: Heap) -> Payload
        recommends
            heap.occupied(self.addr_spec()),
    {
        heap.block_at(self.addr_spec()).inner
    }

    /// Sole ownership of a valid block: the address is allocated, the
    /// stored payload satisfies the target, and -- when the target needs
    /// runtime shape information -- the descriptor in the header is exactly
    /// the one synthesized for the stored concrete type viewed as `D`.
    /// A sized target never reads its descriptor slot, so nothing is
    /// demanded of it.
    pub open spec fn wf(self, heap: Heap) -> bool {
        &&& heap.occupied(self.addr_spec())
        &&& D::admits(kind_of(self.payload(heap)))
        &&& !D::sized_spec() ==> heap.block_at(self.addr_spec()).metadata == D::descriptor_spec(
            kind_of(self.payload(heap)),
        )
    }

    /// Whether the target type is concretely sized, so that handles to it
    /// keep their descriptor slot inert.
    pub fn is_sized() -> (b: bool)
        ensures
            b == D::sized_spec(),
    {
        <D as Target>::is_sized()
    }

    /// The erased view of the handle: the bare block address, payload shape
    /// unknown. Enough for allocation bookkeeping, never for access.
    pub fn get_raw_erased(&self) -> (addr: usize)
        ensures
            addr == self.addr_spec(),
    {
        self.addr
    }

    /// As `get_raw_erased`, but gives up ownership of the block to the
    /// caller's bookkeeping.
    pub fn into_raw_erased(self) -> (addr: usize)
        ensures
            addr == self.addr_spec(),
    {
        self.addr
    }

    /// The full view of the handle: the address together with the stored
    /// descriptor, read back off the block header.
    pub fn get_raw_unsized(&self, heap: &Heap) -> (r: (usize, Descriptor))
        requires
            self.wf(*heap),
        ensures
            r.0 == self.addr_spec(),
            r.1 == heap.block_at(self.addr_spec()).metadata,
    {
        let b = heap.read(self.addr);
        (self.addr, b.metadata)
    }

    /// As `get_raw_unsized`, but gives up ownership of the block to the
    /// caller's bookkeeping.
    pub fn into_raw_unsized(self, heap: &Heap) -> (r: (usize, Descriptor))
        requires
            self.wf(*heap),
        ensures
            r.0 == self.addr_spec(),
            r.1 == heap.block_at(self.addr_spec()).metadata,
    {
        let r = self.get_raw_unsized(heap);
        r
    }

    /// Erasing construction: store a concrete value, synthesize the
    /// descriptor for the pair of its type and `D`, and hand back a
    /// `D`-typed handle. One allocation serves the payload and its
    /// abstract view.
    pub fn new_unsize<T: Concrete>(inner: T, heap: &mut Heap) -> (h: NarrowBox<D>)
        requires
            D::admits(T::kind_spec()),
        ensures
            h.wf(*final(heap)),
            h.addr_spec() == old(heap).slots().len(),
            h.payload(*final(heap)) == inner.wrap_spec(),
            final(heap).slots() == old(heap).slots().push(
                Some(
                    (Block {
                        metadata: D::descriptor_spec(T::kind_spec()),
                        inner: inner.wrap_spec(),
                    }),
                ),
            ),
            final(heap).log() == old(heap).log(),
    {
        proof {
            T::wrap_kind(inner);
        }
        let metadata = synthesize_metadata::<D>(T::kind());
        let addr = heap.allocate(Block { metadata, inner: inner.wrap() });
        NarrowBox { addr, target: PhantomData }
    }

    /// Unconditional downcast: reinterpret the handle as a sized handle of
    /// `T`, discarding the descriptor. The claim that the payload really is
    /// a `T` is the caller's to prove; nothing is checked at run time.
    pub fn downcast_unchecked<T: Concrete>(self, heap: &Heap) -> (h: NarrowBox<T>)
        requires
            self.wf(*heap),
            kind_of(self.payload(*heap)) == T::kind_spec(),
        ensures
            h.addr_spec() == self.addr_spec(),
            h.wf(*heap),
            h.payload(*heap) == self.payload(*heap),
    {
        proof {
            T::concrete_target(T::kind_spec());
        }
        NarrowBox { addr: self.into_raw_erased(), target: PhantomData }
    }

    /// Borrowing downcast: a shared reference to the payload, shaped as the
    /// concrete type the caller asserts it to be.
    pub fn downcast_ref_unchecked<'a, T: Concrete>(&self, heap: &'a Heap) -> (v: &'a T)
        requires
            self.wf(*heap),
            kind_of(self.payload(*heap)) == T::kind_spec(),
        ensures
            v.wrap_spec() == self.payload(*heap),
    {
        let b = heap.read(self.addr);
        T::unwrap_ref(&b.inner)
    }

    /// Borrowing downcast, mutable: the payload follows whatever value the
    /// caller leaves in the reference; block address and descriptor stay.
    pub fn downcast_mut_unchecked<'a, T: Concrete>(&self, heap: &'a mut Heap) -> (v: &'a mut T)
        requires
            self.wf(*old(heap)),
            kind_of(self.payload(*old(heap))) == T::kind_spec(),
        ensures
            (*v).wrap_spec() == self.payload(*old(heap)),
            final(heap).slots() == old(heap).slots().update(
                self.addr_spec() as int,
                Some(
                    (Block {
                        metadata: old(heap).block_at(self.addr_spec()).metadata,
                        inner: (*final(v)).wrap_spec(),
                    }),
                ),
            ),
            final(heap).log() == old(heap).log(),
    {
        let b = heap.borrow_mut(self.addr);
        T::unwrap_mut(&mut b.inner)
    }

    /// Destruction: rebuild the full reference and run the payload's own
    /// finalizer -- for an erased handle, dispatched through the recovered
    /// descriptor -- then release the exact block that construction
    /// allocated. Consuming the handle makes a second run impossible.
    pub fn destroy(self, heap: &mut Heap)
        requires
            self.wf(*old(heap)),
        ensures
            final(heap).slots() == old(heap).slots().update(self.addr_spec() as int, None),
            final(heap).log() == old(heap).log().push(kind_of(self.payload(*old(heap)))),
    {
        let b = heap.deallocate(self.addr);
        if <D as Target>::is_sized() {
            finalize_direct(b.inner, heap);
        } else {
            proof {
                D::descriptor_recovers(kind_of(b.inner));
            }
            finalize_by_descriptor(b.metadata, b.inner, heap);
        }
    }
}

impl<T: Concrete> NarrowBox<T> {
    /// Direct sized construction: one block holding the value, descriptor
    /// slot left inert but reserved for a later in-place erasure.
    pub fn new(inner: T, heap: &mut Heap) -> (h: NarrowBox<T>)
        ensures
            h.wf(*final(heap)),
            h.addr_spec() == old(heap).slots().len(),
            h.payload(*final(heap)) == inner.wrap_spec(),
            final(heap).slots() == old(heap).slots().push(
                Some((Block { metadata: Descriptor::Inert, inner: inner.wrap_spec() })),
            ),
            final(heap).log() == old(heap).log(),
    {
        proof {
            T::wrap_kind(inner);
            T::concrete_target(T::kind_spec());
        }
        let addr = heap.allocate(Block { metadata: Descriptor::Inert, inner: inner.wrap() });
        NarrowBox { addr, target: PhantomData }
    }

    /// In-place erasure: write the descriptor synthesized for the pair of
    /// `T` and `Dyn` into the reserved slot and re-type the handle. The
    /// block keeps its address; nothing is reallocated or moved, and the
    /// sized handle is consumed, so only the erased handle remains.
    pub fn unsize<Dyn: Target>(self, heap: &mut Heap) -> (h: NarrowBox<Dyn>)
        requires
            self.wf(*old(heap)),
            Dyn::admits(T::kind_spec()),
        ensures
            h.addr_spec() == self.addr_spec(),
            h.wf(*final(heap)),
            h.payload(*final(heap)) == self.payload(*old(heap)),
            final(heap).slots() == old(heap).slots().update(
                self.addr_spec() as int,
                Some(
                    (Block {
                        metadata: Dyn::descriptor_spec(T::kind_spec()),
                        inner: self.payload(*old(heap)),
                    }),
                ),
            ),
            final(heap).slots().len() == old(heap).slots().len(),
            final(heap).log() == old(heap).log(),
    {
        proof {
            T::concrete_target(kind_of(self.payload(*old(heap))));
        }
        let metadata = synthesize_metadata::<Dyn>(T::kind());
        heap.write_metadata(self.addr, metadata);
        NarrowBox { addr: self.addr, target: PhantomData }
    }

    /// Destructive unwrap: free the block's envelope and move the payload
    /// out by value. No finalizer runs -- the caller owns the value again.
    pub fn into_inner(self, heap: &mut Heap) -> (v: T)
        requires
            self.wf(*old(heap)),
        ensures
            v.wrap_spec() == self.payload(*old(heap)),
            final(heap).slots() == old(heap).slots().update(self.addr_spec() as int, None),
            final(heap).log() == old(heap).log(),
    {
        proof {
            T::concrete_target(kind_of(self.payload(*old(heap))));
        }
        let b = heap.deallocate(self.addr);
        T::unwrap(b.inner)
    }
}

impl NarrowBox<IntSeq> {
    /// The element count of the viewed sequence, as the stored descriptor
    /// reports it: the count is read off the block header, not recounted
    /// from the payload.
    pub fn len(&self, heap: &Heap) -> (n: usize)
        requires
            self.wf(*heap),
        ensures
            n == int_seq_view(self.payload(*heap)).len(),
            n == seq_len_of(kind_of(self.payload(*heap))),
    {
        let b = heap.read(self.addr);
        let n = match b.metadata {
            Descriptor::Count(c) => c,
            _ => unreached(),
        };
        match &b.inner {
            Payload::Ints4(v) => {
                v.length();
            },
            Payload::Ints6(v) => {
                v.length();
            },
            _ => unreached(),
        }
        n
    }

    /// Read one element of the viewed sequence.
    pub fn get(&self, heap: &Heap, i: usize) -> (x: i32)
        requires
            self.wf(*heap),
            i < int_seq_view(self.payload(*heap)).len(),
        ensures
            x == int_seq_view(self.payload(*heap))[i as int],
    {
        let b = heap.read(self.addr);
        match &b.inner {
            Payload::Ints4(v) => {
                let e = v.elems();
                e[i]
            },
            Payload::Ints6(v) => {
                let e = v.elems();
                e[i]
            },
            _ => unreached(),
        }
    }

    /// Overwrite one element of the viewed sequence, in place. The block
    /// keeps its address and its descriptor; every other slot is untouched.
    pub fn set(&self, heap: &mut Heap, i: usize, x: i32)
        requires
            self.wf(*old(heap)),
            i < int_seq_view(self.payload(*old(heap))).len(),
        ensures
            self.wf(*final(heap)),
            final(heap).slots().len() == old(heap).slots().len(),
            final(heap).log() == old(heap).log(),
            kind_of(self.payload(*final(heap))) == kind_of(self.payload(*old(heap))),
            int_seq_view(self.payload(*final(heap))) == int_seq_view(self.payload(*old(heap))).update(i as int, x),
            final(heap).block_at(self.addr_spec()).metadata == old(heap).block_at(
                self.addr_spec(),
            ).metadata,
            forall|a: usize|
                a < old(heap).slots().len() && a != self.addr_spec() ==> final(heap).slots()[a as int]
                    == old(heap).slots()[a as int],
    {
        let b = heap.borrow_mut(self.addr);
        match &mut b.inner {
            Payload::Ints4(v) => v.set(i, x),
            Payload::Ints6(v) => v.set(i, x),
            _ => unreached(),
        }
    }
}

impl NarrowBox<Diagnosable> {
    /// The payload's own runtime type-identity query: whether the stored
    /// value is of the concrete type `T`.
    pub fn is<T: Concrete>(&self, heap: &Heap) -> (b: bool)
        requires
            self.wf(*heap),
            Diagnosable::admits(T::kind_spec()),
        ensures
            b == (kind_of(self.payload(*heap)) == T::kind_spec()),
    {
        let b = heap.read(self.addr);
        let k = b.inner.kind();
        k == T::kind()
    }

    /// The identity of the stored failure, recovered through the dispatch
    /// table written at erasure: the payload itself is not consulted, yet
    /// descriptor validity makes the answer the payload's own identity.
    pub fn diagnose(&self, heap: &Heap) -> (k: Kind)
        requires
            self.wf(*heap),
        ensures
            k == kind_of(self.payload(*heap)),
    {
        let b = heap.read(self.addr);
        proof {
            Diagnosable::descriptor_recovers(kind_of(b.inner));
        }
        match lookup_descriptor(b.metadata) {
            Some(k) => k,
            None => unreached(),
        }
    }

    /// Checked downcast: query the payload's identity; on a match, the
    /// unchecked downcast; on a mismatch, the original handle, untouched
    /// and still fully usable.
    pub fn downcast<T: Concrete>(self, heap: &Heap) -> (r: Result<
        NarrowBox<T>,
        NarrowBox<Diagnosable>,
    >)
        requires
            self.wf(*heap),
            Diagnosable::admits(T::kind_spec()),
        ensures
            kind_of(self.payload(*heap)) == T::kind_spec() ==> (r matches Ok(h) && {
                &&& h.addr_spec() == self.addr_spec()
                &&& h.wf(*heap)
                &&& h.payload(*heap) == self.payload(*heap)
            }),
            kind_of(self.payload(*heap)) != T::kind_spec() ==> (r matches Err(h) && h == self),
    {
        if self.is::<T>(heap) {
            Ok(self.downcast_unchecked(heap))
        } else {
            Err(self)
        }
    }
}

/// Static dispatch for a sized handle's destruction: the payload's own tag
/// names its finalizer, as the concrete type is statically known.
fn finalize_direct(p: Payload, heap: &mut Heap)
    ensures
        final(heap).slots() == old(heap).slots(),
        final(heap).log() == old(heap).log().push(kind_of(p)),
{
    match p {
        Payload::Ints4(v) => v.finalize(heap),
        Payload::Ints6(v) => v.finalize(heap),
        Payload::FsFailure(v) => v.finalize(heap),
        Payload::ParseFailure(v) => v.finalize(heap),
    }
}

/// Dispatch through a recovered descriptor: the registry's reverse lookup
/// names the concrete type, and descriptor validity makes that the type
/// actually stored, so the right finalizer runs.
fn finalize_by_descriptor(d: Descriptor, p: Payload, heap: &mut Heap)
    requires
        kind_from_descriptor(d) == Some(kind_of(p)),
    ensures
        final(heap).slots() == old(heap).slots(),
        final(heap).log() == old(heap).log().push(kind_of(p)),
{
    match lookup_descriptor(d) {
        Some(Kind::Ints4) => Ints4::unwrap(p).finalize(heap),
        Some(Kind::Ints6) => Ints6::unwrap(p).finalize(heap),
        Some(Kind::FsFailure) => FsFailure::unwrap(p).finalize(heap),
        Some(Kind::ParseFailure) => ParseFailure::unwrap(p).finalize(heap),
        None => unreached(),
    }
}

} // verus!
