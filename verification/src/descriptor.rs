//! Descriptors: the runtime metadata a block's header carries so that a bare
//! address can be resolved back into a fully shaped reference.
//!
//! For a sequence-like target the descriptor is the element count; for a
//! capability-set target it is the address of the concrete type's dispatch
//! table. A sized target needs no runtime information, so its slot is inert,
//! though space for it is still reserved in every block.
//!
//! The dispatch tables themselves live in a fixed compile-time registry: each
//! registered concrete type has a distinct table address, and
//! `kind_from_descriptor` is the registry's reverse lookup, used when
//! destruction dispatches through a recovered descriptor.

use vstd::prelude::*;

use crate::payload::Kind;

verus! {

/// Dispatch-table address of `FsFailure`'s capability implementations.
pub const FS_FAILURE_TABLE: usize = 1;

/// Dispatch-table address of `ParseFailure`'s capability implementations.
pub const PARSE_FAILURE_TABLE: usize = 2;

/// The metadata slot of a block header.
#[derive(Clone, Copy, PartialEq, Eq, Structural, Debug)]
pub enum Descriptor {
    /// The target is sized: no runtime shape information is needed. The
    /// slot is reserved so that the block can later be erased in place.
    Inert,
    /// The target is sequence-like: the element count of the payload.
    Count(usize),
    /// The target is a capability set: the address of the concrete type's
    /// dispatch table in the registry.
    Table(usize),
}

/// The element count a sequence view of the given concrete type reports.
/// A function of the type alone: the count is part of each array type.
/// Zero for the types no sequence target admits; no descriptor is ever
/// synthesized from those entries.
pub open spec fn seq_len_of(k: Kind) -> usize {
    match k {
        Kind::Ints4 => 4,
        Kind::Ints6 => 6,
        Kind::FsFailure => 0,
        Kind::ParseFailure => 0,
    }
}

/// The registry's dispatch-table address for the given concrete type.
/// Zero for the types no capability-set target admits; no descriptor is
/// ever synthesized from those entries.
pub open spec fn table_of(k: Kind) -> usize {
    match k {
        Kind::Ints4 => 0,
        Kind::Ints6 => 0,
        Kind::FsFailure => FS_FAILURE_TABLE,
        Kind::ParseFailure => PARSE_FAILURE_TABLE,
    }
}

/// Reverse lookup in the registry: which concrete type a meaningful
/// descriptor belongs to. An inert descriptor identifies no type.
pub open spec fn kind_from_descriptor(d: Descriptor) -> Option<Kind> {
    match d {
        Descriptor::Inert => None,
        Descriptor::Count(n) => if n == 4 {
            Some(Kind::Ints4)
        } else if n == 6 {
            Some(Kind::Ints6)
        } else {
            None
        },
        Descriptor::Table(t) => if t == FS_FAILURE_TABLE {
            Some(Kind::FsFailure)
        } else if t == PARSE_FAILURE_TABLE {
            Some(Kind::ParseFailure)
        } else {
            None
        },
    }
}

/// Runtime reverse lookup in the registry.
pub fn lookup_descriptor(d: Descriptor) -> (k: Option<Kind>)
    ensures
        k == kind_from_descriptor(d),
{
    match d {
        Descriptor::Inert => None,
        Descriptor::Count(n) => if n == 4 {
            Some(Kind::Ints4)
        } else if n == 6 {
            Some(Kind::Ints6)
        } else {
            None
        },
        Descriptor::Table(t) => if t == FS_FAILURE_TABLE {
            Some(Kind::FsFailure)
        } else if t == PARSE_FAILURE_TABLE {
            Some(Kind::ParseFailure)
        } else {
            None
        },
    }
}

} // verus!
