//! The concrete payload types that the block store can hold, and the tagged
//! union of them that an erased block carries.
//!
//! A handle's target may be one of these concrete types, or an abstract
//! target that several of them satisfy. Because the host language has no
//! manual memory layout, an erased payload is represented as one case of a
//! closed tagged union rather than as raw bytes; the `Kind` tag is the
//! runtime type identity that checked downcasts query.

use vstd::prelude::*;

verus! {

/// Runtime type identity of a payload: one tag per registered concrete type.
#[derive(Clone, Copy, PartialEq, Eq, Structural, Debug)]
pub enum Kind {
    Ints4,
    Ints6,
    FsFailure,
    ParseFailure,
}

/// A four-element array of integers. The length is part of the type, so a
/// descriptor for a sequence view of it can be derived without an instance.
pub struct Ints4 {
    elems: Vec<i32>,
}

/// A six-element array of integers.
pub struct Ints6 {
    elems: Vec<i32>,
}

/// A failure raised by a file system operation: an error code and the path
/// that the operation touched.
pub struct FsFailure {
    pub code: u32,
    pub path: String,
}

/// A failure raised by a parser: the position at which reading stopped.
pub struct ParseFailure {
    pub line: u32,
    pub column: u32,
}

impl View for Ints4 {
    type V = Seq<i32>;

    closed spec fn view(&self) -> Seq<i32> {
        self.elems@
    }
}

impl Ints4 {
    #[verifier::type_invariant]
    spec fn length_fixed(self) -> bool {
        self.elems@.len() == 4
    }

    pub fn new(elems: Vec<i32>) -> (r: Self)
        requires
            elems@.len() == 4,
        ensures
            r@ == elems@,
    {
        Ints4 { elems }
    }

    pub fn elems(&self) -> (r: &Vec<i32>)
        ensures
            r@ == self@,
            r@.len() == 4,
    {
        proof {
            use_type_invariant(self);
        }
        &self.elems
    }

    /// The element count, which the type alone fixes.
    pub fn length(&self) -> (n: usize)
        ensures
            n == self@.len(),
            n == 4,
    {
        proof {
            use_type_invariant(self);
        }
        4
    }

    pub fn set(&mut self, i: usize, x: i32)
        requires
            i < old(self)@.len(),
        ensures
            final(self)@ == old(self)@.update(i as int, x),
    {
        proof {
            use_type_invariant(&*self);
        }
        let r = &mut self.elems[i];
        *r = x;
    }
}

impl View for Ints6 {
    type V = Seq<i32>;

    closed spec fn view(&self) -> Seq<i32> {
        self.elems@
    }
}

impl Ints6 {
    #[verifier::type_invariant]
    spec fn length_fixed(self) -> bool {
        self.elems@.len() == 6
    }

    pub fn new(elems: Vec<i32>) -> (r: Self)
        requires
            elems@.len() == 6,
        ensures
            r@ == elems@,
    {
        Ints6 { elems }
    }

    pub fn elems(&self) -> (r: &Vec<i32>)
        ensures
            r@ == self@,
            r@.len() == 6,
    {
        proof {
            use_type_invariant(self);
        }
        &self.elems
    }

    /// The element count, which the type alone fixes.
    pub fn length(&self) -> (n: usize)
        ensures
            n == self@.len(),
            n == 6,
    {
        proof {
            use_type_invariant(self);
        }
        6
    }

    pub fn set(&mut self, i: usize, x: i32)
        requires
            i < old(self)@.len(),
        ensures
            final(self)@ == old(self)@.update(i as int, x),
    {
        proof {
            use_type_invariant(&*self);
        }
        let r = &mut self.elems[i];
        *r = x;
    }
}

/// An erased payload: exactly one of the registered concrete types.
pub enum Payload {
    Ints4(Ints4),
    Ints6(Ints6),
    FsFailure(FsFailure),
    ParseFailure(ParseFailure),
}

/// The type identity of a payload.
pub open spec fn kind_of(p: Payload) -> Kind {
    match p {
        Payload::Ints4(_) => Kind::Ints4,
        Payload::Ints6(_) => Kind::Ints6,
        Payload::FsFailure(_) => Kind::FsFailure,
        Payload::ParseFailure(_) => Kind::ParseFailure,
    }
}

impl Payload {
    /// The runtime type-identity query: reads the payload's own tag.
    pub fn kind(&self) -> (k: Kind)
        ensures
            k == kind_of(*self),
    {
        match self {
            Payload::Ints4(_) => Kind::Ints4,
            Payload::Ints6(_) => Kind::Ints6,
            Payload::FsFailure(_) => Kind::FsFailure,
            Payload::ParseFailure(_) => Kind::ParseFailure,
        }
    }
}

} // verus!
