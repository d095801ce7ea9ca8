//! The block store: a model of the allocate/deallocate service the handles
//! depend on, together with a record of which payloads have been finalized.
//!
//! Each slot holds at most one block; a block's address is its slot index.
//! A block, once allocated, is never moved or resized: every operation
//! either fills a fresh slot, rewrites one in place, or empties it for good.
//! The finalization record exists so that destruction's central promise --
//! each payload is finalized exactly once, and never after an unwrap -- is
//! stated and checked rather than merely believed.

use vstd::prelude::*;
use vstd::pervasive::unreached;

use crate::descriptor::Descriptor;
use crate::payload::Kind;
use crate::payload::Payload;

verus! {

/// One heap allocation: the descriptor header followed by the payload.
pub struct Block {
    /// The descriptor slot. Meaningful only once the block has been erased
    /// to an abstract target; sized handles reserve it but never read it.
    pub metadata: Descriptor,
    /// The stored value, tagged with its concrete type.
    pub inner: Payload,
}

/// The block store, with a record of every finalizer that has run.
pub struct Heap {
    blocks: Vec<Option<Block>>,
    finalized: Vec<Kind>,
}

impl Heap {
    /// The slots, by address: `None` where nothing is allocated.
    pub closed spec fn slots(self) -> Seq<Option<Block>> {
        self.blocks@
    }

    /// The kinds whose finalizers have run, oldest first.
    pub closed spec fn log(self) -> Seq<Kind> {
        self.finalized@
    }

    /// Whether `addr` currently holds a block.
    pub open spec fn occupied(self, addr: usize) -> bool {
        addr < self.slots().len() && self.slots()[addr as int] is Some
    }

    /// The block at an occupied address.
    pub open spec fn block_at(self, addr: usize) -> Block
        recommends
            self.occupied(addr),
    {
        self.slots()[addr as int].unwrap()
    }

    /// An empty store with an empty finalization record.
    pub fn new() -> (h: Heap)
        ensures
            h.slots() == Seq::<Option<Block>>::empty(),
            h.log() == Seq::<Kind>::empty(),
    {
        Heap { blocks: Vec::new(), finalized: Vec::new() }
    }

    /// How many addresses have ever been handed out.
    pub fn size(&self) -> (n: usize)
        ensures
            n == self.slots().len(),
    {
        self.blocks.len()
    }

    /// The finalization record, for callers that audit destruction.
    pub fn finalized(&self) -> (r: &Vec<Kind>)
        ensures
            r@ == self.log(),
    {
        &self.finalized
    }

    /// Place one block in a fresh slot and return its address.
    pub fn allocate(&mut self, b: Block) -> (addr: usize)
        ensures
            final(self).slots() == old(self).slots().push(Some(b)),
            final(self).log() == old(self).log(),
            addr == old(self).slots().len(),
            final(self).occupied(addr),
            final(self).block_at(addr) == b,
    {
        let addr = self.blocks.len();
        self.blocks.push(Some(b));
        addr
    }

    /// Remove the block at `addr` and return it; the slot stays empty for
    /// good, so the address is never reused.
    pub fn deallocate(&mut self, addr: usize) -> (b: Block)
        requires
            old(self).occupied(addr),
        ensures
            b == old(self).block_at(addr),
            final(self).slots() == old(self).slots().update(addr as int, None),
            final(self).log() == old(self).log(),
    {
        let slot = &mut self.blocks[addr];
        let b = slot.take();
        b.unwrap()
    }

    /// Borrow the block at an occupied address.
    pub fn read(&self, addr: usize) -> (b: &Block)
        requires
            self.occupied(addr),
        ensures
            *b == self.block_at(addr),
    {
        match &self.blocks[addr] {
            Some(b) => b,
            None => unreached(),
        }
    }

    /// Borrow the block at an occupied address mutably. The slot keeps its
    /// address; whatever the caller leaves behind is the slot's new block.
    pub fn borrow_mut(&mut self, addr: usize) -> (b: &mut Block)
        requires
            old(self).occupied(addr),
        ensures
            *b == old(self).block_at(addr),
            final(self).slots() == old(self).slots().update(addr as int, Some(*final(b))),
            final(self).log() == old(self).log(),
    {
        match &mut self.blocks[addr] {
            Some(b) => b,
            None => unreached(),
        }
    }

    /// Overwrite the descriptor slot of the block at `addr`, leaving the
    /// payload in place.
    pub fn write_metadata(&mut self, addr: usize, d: Descriptor)
        requires
            old(self).occupied(addr),
        ensures
            final(self).slots() == old(self).slots().update(
                addr as int,
                Some((Block { metadata: d, inner: old(self).block_at(addr).inner })),
            ),
            final(self).log() == old(self).log(),
    {
        let b = self.borrow_mut(addr);
        b.metadata = d;
    }

    /// Note that the finalizer of a payload of kind `k` has run.
    pub(crate) fn record_finalize(&mut self, k: Kind)
        ensures
            final(self).slots() == old(self).slots(),
            final(self).log() == old(self).log().push(k),
    {
        self.finalized.push(k);
    }
}

} // verus!
