//! The compile-time registry: which targets exist, which concrete types
//! satisfy them, and the descriptor each pair synthesizes to.
//!
//! Every concrete type is a sized target of its own, admitting exactly
//! itself with an inert descriptor. The two abstract targets are `IntSeq`,
//! a sequence view over the integer-array types whose descriptor is the
//! element count, and `Diagnosable`, a capability set over the failure
//! types whose descriptor is the concrete type's dispatch-table address.

use vstd::prelude::*;
use vstd::pervasive::unreached;

use crate::descriptor::Descriptor;
use crate::descriptor::FS_FAILURE_TABLE;
use crate::descriptor::PARSE_FAILURE_TABLE;
use crate::descriptor::seq_len_of;
use crate::descriptor::table_of;
use crate::heap::Heap;
use crate::payload::FsFailure;
use crate::payload::Ints4;
use crate::payload::Ints6;
use crate::payload::Kind;
use crate::payload::ParseFailure;
use crate::payload::Payload;
use crate::payload::kind_of;
use crate::target::Concrete;
use crate::target::Target;

verus! {

/// The abstract sequence-of-integers target: satisfied by every registered
/// integer-array type, whatever its length.
pub struct IntSeq;

/// The abstract diagnosable-failure target: satisfied by every registered
/// failure type, each of which can report its own type identity.
pub struct Diagnosable;

impl Target for IntSeq {
    open spec fn sized_spec() -> bool {
        false
    }

    open spec fn admits(k: Kind) -> bool {
        k == Kind::Ints4 || k == Kind::Ints6
    }

    open spec fn descriptor_spec(k: Kind) -> Descriptor {
        Descriptor::Count(seq_len_of(k))
    }

    fn is_sized() -> (b: bool) {
        false
    }

    fn synthesize(k: Kind) -> (d: Descriptor) {
        match k {
            Kind::Ints4 => Descriptor::Count(4),
            Kind::Ints6 => Descriptor::Count(6),
            _ => unreached(),
        }
    }

    proof fn descriptor_recovers(k: Kind) {
    }
}

impl Target for Diagnosable {
    open spec fn sized_spec() -> bool {
        false
    }

    open spec fn admits(k: Kind) -> bool {
        k == Kind::FsFailure || k == Kind::ParseFailure
    }

    open spec fn descriptor_spec(k: Kind) -> Descriptor {
        Descriptor::Table(table_of(k))
    }

    fn is_sized() -> (b: bool) {
        false
    }

    fn synthesize(k: Kind) -> (d: Descriptor) {
        match k {
            Kind::FsFailure => Descriptor::Table(FS_FAILURE_TABLE),
            Kind::ParseFailure => Descriptor::Table(PARSE_FAILURE_TABLE),
            _ => unreached(),
        }
    }

    proof fn descriptor_recovers(k: Kind) {
    }
}

impl Target for Ints4 {
    open spec fn sized_spec() -> bool {
        true
    }

    open spec fn admits(k: Kind) -> bool {
        k == Kind::Ints4
    }

    open spec fn descriptor_spec(k: Kind) -> Descriptor {
        Descriptor::Inert
    }

    fn is_sized() -> (b: bool) {
        true
    }

    fn synthesize(k: Kind) -> (d: Descriptor) {
        Descriptor::Inert
    }

    proof fn descriptor_recovers(k: Kind) {
    }
}

impl Concrete for Ints4 {
    open spec fn kind_spec() -> Kind {
        Kind::Ints4
    }

    open spec fn wrap_spec(self) -> Payload {
        Payload::Ints4(self)
    }

    fn kind() -> (k: Kind) {
        Kind::Ints4
    }

    fn wrap(self) -> (p: Payload) {
        Payload::Ints4(self)
    }

    fn unwrap(p: Payload) -> (v: Self) {
        match p {
            Payload::Ints4(v) => v,
            _ => unreached(),
        }
    }

    fn unwrap_ref(p: &Payload) -> (v: &Self) {
        match p {
            Payload::Ints4(v) => v,
            _ => unreached(),
        }
    }

    fn unwrap_mut(p: &mut Payload) -> (v: &mut Self) {
        match p {
            Payload::Ints4(v) => v,
            _ => unreached(),
        }
    }

    fn finalize(self, heap: &mut Heap) {
        heap.record_finalize(Kind::Ints4);
    }

    proof fn concrete_target(k: Kind) {
    }

    proof fn wrap_kind(v: Self) {
    }

    proof fn wrap_injective(a: Self, b: Self) {
    }
}

impl Target for Ints6 {
    open spec fn sized_spec() -> bool {
        true
    }

    open spec fn admits(k: Kind) -> bool {
        k == Kind::Ints6
    }

    open spec fn descriptor_spec(k: Kind) -> Descriptor {
        Descriptor::Inert
    }

    fn is_sized() -> (b: bool) {
        true
    }

    fn synthesize(k: Kind) -> (d: Descriptor) {
        Descriptor::Inert
    }

    proof fn descriptor_recovers(k: Kind) {
    }
}

impl Concrete for Ints6 {
    open spec fn kind_spec() -> Kind {
        Kind::Ints6
    }

    open spec fn wrap_spec(self) -> Payload {
        Payload::Ints6(self)
    }

    fn kind() -> (k: Kind) {
        Kind::Ints6
    }

    fn wrap(self) -> (p: Payload) {
        Payload::Ints6(self)
    }

    fn unwrap(p: Payload) -> (v: Self) {
        match p {
            Payload::Ints6(v) => v,
            _ => unreached(),
        }
    }

    fn unwrap_ref(p: &Payload) -> (v: &Self) {
        match p {
            Payload::Ints6(v) => v,
            _ => unreached(),
        }
    }

    fn unwrap_mut(p: &mut Payload) -> (v: &mut Self) {
        match p {
            Payload::Ints6(v) => v,
            _ => unreached(),
        }
    }

    fn finalize(self, heap: &mut Heap) {
        heap.record_finalize(Kind::Ints6);
    }

    proof fn concrete_target(k: Kind) {
    }

    proof fn wrap_kind(v: Self) {
    }

    proof fn wrap_injective(a: Self, b: Self) {
    }
}

impl Target for FsFailure {
    open spec fn sized_spec() -> bool {
        true
    }

    open spec fn admits(k: Kind) -> bool {
        k == Kind::FsFailure
    }

    open spec fn descriptor_spec(k: Kind) -> Descriptor {
        Descriptor::Inert
    }

    fn is_sized() -> (b: bool) {
        true
    }

    fn synthesize(k: Kind) -> (d: Descriptor) {
        Descriptor::Inert
    }

    proof fn descriptor_recovers(k: Kind) {
    }
}

impl Concrete for FsFailure {
    open spec fn kind_spec() -> Kind {
        Kind::FsFailure
    }

    open spec fn wrap_spec(self) -> Payload {
        Payload::FsFailure(self)
    }

    fn kind() -> (k: Kind) {
        Kind::FsFailure
    }

    fn wrap(self) -> (p: Payload) {
        Payload::FsFailure(self)
    }

    fn unwrap(p: Payload) -> (v: Self) {
        match p {
            Payload::FsFailure(v) => v,
            _ => unreached(),
        }
    }

    fn unwrap_ref(p: &Payload) -> (v: &Self) {
        match p {
            Payload::FsFailure(v) => v,
            _ => unreached(),
        }
    }

    fn unwrap_mut(p: &mut Payload) -> (v: &mut Self) {
        match p {
            Payload::FsFailure(v) => v,
            _ => unreached(),
        }
    }

    fn finalize(self, heap: &mut Heap) {
        heap.record_finalize(Kind::FsFailure);
    }

    proof fn concrete_target(k: Kind) {
    }

    proof fn wrap_kind(v: Self) {
    }

    proof fn wrap_injective(a: Self, b: Self) {
    }
}

impl Target for ParseFailure {
    open spec fn sized_spec() -> bool {
        true
    }

    open spec fn admits(k: Kind) -> bool {
        k == Kind::ParseFailure
    }

    open spec fn descriptor_spec(k: Kind) -> Descriptor {
        Descriptor::Inert
    }

    fn is_sized() -> (b: bool) {
        true
    }

    fn synthesize(k: Kind) -> (d: Descriptor) {
        Descriptor::Inert
    }

    proof fn descriptor_recovers(k: Kind) {
    }
}

impl Concrete for ParseFailure {
    open spec fn kind_spec() -> Kind {
        Kind::ParseFailure
    }

    open spec fn wrap_spec(self) -> Payload {
        Payload::ParseFailure(self)
    }

    fn kind() -> (k: Kind) {
        Kind::ParseFailure
    }

    fn wrap(self) -> (p: Payload) {
        Payload::ParseFailure(self)
    }

    fn unwrap(p: Payload) -> (v: Self) {
        match p {
            Payload::ParseFailure(v) => v,
            _ => unreached(),
        }
    }

    fn unwrap_ref(p: &Payload) -> (v: &Self) {
        match p {
            Payload::ParseFailure(v) => v,
            _ => unreached(),
        }
    }

    fn unwrap_mut(p: &mut Payload) -> (v: &mut Self) {
        match p {
            Payload::ParseFailure(v) => v,
            _ => unreached(),
        }
    }

    fn finalize(self, heap: &mut Heap) {
        heap.record_finalize(Kind::ParseFailure);
    }

    proof fn concrete_target(k: Kind) {
    }

    proof fn wrap_kind(v: Self) {
    }

    proof fn wrap_injective(a: Self, b: Self) {
    }
}

/// The sequence view that the `IntSeq` target gives a payload.
pub open spec fn int_seq_view(p: Payload) -> Seq<i32> {
    match p {
        Payload::Ints4(v) => v@,
        Payload::Ints6(v) => v@,
        Payload::FsFailure(_) => Seq::empty(),
        Payload::ParseFailure(_) => Seq::empty(),
    }
}

} // verus!
