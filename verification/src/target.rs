//! Targets: the types a handle can be typed with, and descriptor synthesis.
//!
//! A target is either a concrete type itself (a sized target) or a marker
//! for an abstract view -- a capability set or a sequence shape -- that
//! several concrete types satisfy. The `Target` trait is the compile-time
//! registry interface: it says which concrete types satisfy the target and
//! which descriptor a full reference to each of them, viewed as the target,
//! carries. `synthesize_metadata` derives that descriptor from the type
//! pair alone, without an instance.

use vstd::prelude::*;

use crate::descriptor::Descriptor;
use crate::descriptor::kind_from_descriptor;
use crate::heap::Heap;
use crate::payload::Kind;
use crate::payload::Payload;
use crate::payload::kind_of;

verus! {

/// A type a handle can be typed with: a concrete type, or an abstract view
/// of one.
pub trait Target {
    /// Whether the target is concretely sized, so that no runtime shape
    /// information is needed to use it.
    spec fn sized_spec() -> bool;

    /// Which concrete types satisfy the target.
    spec fn admits(k: Kind) -> bool;

    /// The descriptor a full reference to a payload of kind `k`, viewed as
    /// this target, carries. A function of the type pair alone.
    spec fn descriptor_spec(k: Kind) -> Descriptor;

    /// Whether the target is sized.
    fn is_sized() -> (b: bool)
        ensures
            b == Self::sized_spec(),
    ;

    /// Derive the descriptor for the pair of `k` and this target.
    fn synthesize(k: Kind) -> (d: Descriptor)
        requires
            Self::admits(k),
        ensures
            d == Self::descriptor_spec(k),
    ;

    /// An unsized target's descriptors identify the concrete type in the
    /// registry, so that dispatch through a recovered descriptor reaches
    /// the finalizer of the type that was actually stored.
    proof fn descriptor_recovers(k: Kind)
        requires
            Self::admits(k),
            !Self::sized_spec(),
        ensures
            kind_from_descriptor(Self::descriptor_spec(k)) == Some(k),
    ;
}

/// A concrete type that can be stored as a payload: a sized target that
/// admits exactly itself.
pub trait Concrete: Target + Sized {
    /// The type's tag in the registry.
    spec fn kind_spec() -> Kind;

    /// The payload case that stores a value of this type.
    spec fn wrap_spec(self) -> Payload;

    /// The type's tag in the registry.
    fn kind() -> (k: Kind)
        ensures
            k == Self::kind_spec(),
    ;

    /// Store a value of this type as a payload.
    fn wrap(self) -> (p: Payload)
        ensures
            p == self.wrap_spec(),
    ;

    /// Recover the value from a payload known to store this type.
    fn unwrap(p: Payload) -> (v: Self)
        requires
            kind_of(p) == Self::kind_spec(),
        ensures
            v.wrap_spec() == p,
    ;

    /// Borrow the value out of a payload known to store this type.
    fn unwrap_ref(p: &Payload) -> (v: &Self)
        requires
            kind_of(*p) == Self::kind_spec(),
        ensures
            v.wrap_spec() == *p,
    ;

    /// Borrow the value out of a payload mutably; the payload follows
    /// whatever the caller leaves behind.
    fn unwrap_mut(p: &mut Payload) -> (v: &mut Self)
        requires
            kind_of(*old(p)) == Self::kind_spec(),
        ensures
            (*v).wrap_spec() == *old(p),
            *final(p) == (*final(v)).wrap_spec(),
    ;

    /// The type's own finalizer: consume the value and note that it ran.
    /// It touches no block, so a finalizer can never free or resize one.
    fn finalize(self, heap: &mut Heap)
        ensures
            final(heap).slots() == old(heap).slots(),
            final(heap).log() == old(heap).log().push(Self::kind_spec()),
    ;

    /// A concrete target is sized and admits exactly its own kind.
    proof fn concrete_target(k: Kind)
        ensures
            Self::sized_spec(),
            Self::admits(k) <==> k == Self::kind_spec(),
    ;

    /// Wrapping tags the payload with the type's own kind.
    proof fn wrap_kind(v: Self)
        ensures
            kind_of(v.wrap_spec()) == Self::kind_spec(),
    ;

    /// No two values of the type make the same payload, so recovering a
    /// value from a wrapped payload recovers the value that was stored.
    proof fn wrap_injective(a: Self, b: Self)
        requires
            a.wrap_spec() == b.wrap_spec(),
        ensures
            a == b,
    ;
}

/// Derive, from the type pair alone, the descriptor that a full reference
/// to a payload of kind `k`, viewed as target `D`, would carry. No instance
/// of the payload is involved: the descriptor is read off the registry the
/// way a coerced null reference's metadata would be read off the reference.
pub fn synthesize_metadata<D: Target>(k: Kind) -> (d: Descriptor)
    requires
        D::admits(k),
    ensures
        d == D::descriptor_spec(k),
{
    D::synthesize(k)
}

} // verus!
