//! Layered algebraic capability traits: magma, semigroup, quasigroup,
//! monoid, loop, group, abelian group, module, and vector space.  Each
//! level is an independent interface so that generic numeric code can
//! demand exactly the capability it needs, and each law is a proof
//! obligation on the implementing type.  The classification deliberately
//! ends at vector spaces: a euclidean-space level (norms, dot products) is
//! a known gap, left undeclared.

use vstd::prelude::*;
use vstd::std_specs::ops::AddSpec;
use crate::scal::Scal;

verus! {

/// A magma: a set closed under one binary operation.
///
/// The operation may be partial on a machine representation (`op_req`
/// says where it is defined); `op_spec` gives its value there, and
/// `operate` computes it.
pub trait AbstractMagma: Sized {
    /// Where the operation is defined.
    spec fn op_req(self, other: Self) -> bool;

    /// The value of the operation, where it is defined.
    spec fn op_spec(self, other: Self) -> Self;

    /// Performs the operation.
    fn operate(&self, other: &Self) -> (r: Self)
        requires
            self.op_req(*other),
        ensures
            r == self.op_spec(*other),
    ;
}

/// An identity element for the magma operation.
pub trait Identity: AbstractMagma {
    /// The identity element, as a specification-level value.
    spec fn spec_identity() -> Self;

    /// The identity element.
    fn identity() -> (r: Self)
        ensures
            r == Self::spec_identity(),
    ;

    /// Law: combining with the identity is always defined and leaves any
    /// element unchanged, on both sides.
    proof fn law_identity(a: Self)
        ensures
            a.op_req(Self::spec_identity()),
            Self::spec_identity().op_req(a),
            a.op_spec(Self::spec_identity()) == a,
            Self::spec_identity().op_spec(a) == a,
    ;
}

/// A two-sided inverse for the magma operation.
pub trait TwoSidedInverse: AbstractMagma {
    /// Where the inverse is defined.
    spec fn inverse_req(self) -> bool;

    /// The inverse, as a specification-level value.
    spec fn spec_inverse(self) -> Self;

    /// Computes the inverse.
    fn two_sided_inverse(&self) -> (r: Self)
        requires
            self.inverse_req(),
        ensures
            r == self.spec_inverse(),
    ;
}

/// A semigroup: a magma whose operation is associative.
pub trait AbstractSemigroup: AbstractMagma {
    /// Law: the operation is associative wherever both groupings are
    /// defined.
    proof fn law_associative(a: Self, b: Self, c: Self)
        requires
            a.op_req(b),
            a.op_spec(b).op_req(c),
            b.op_req(c),
            a.op_req(b.op_spec(c)),
        ensures
            a.op_spec(b).op_spec(c) == a.op_spec(b.op_spec(c)),
    ;
}

/// A quasigroup: a magma in which every element has a two-sided inverse
/// that cancels it.
pub trait AbstractQuasigroup: AbstractMagma + TwoSidedInverse {
    /// Law: wherever everything involved is defined, combining an operand
    /// first with an element and then with that element's inverse restores
    /// the operand.
    proof fn law_latin_square(a: Self, b: Self)
        requires
            a.inverse_req(),
            a.op_req(b),
            a.spec_inverse().op_req(a.op_spec(b)),
        ensures
            a.spec_inverse().op_spec(a.op_spec(b)) == b,
    ;
}

/// A monoid: an associative operation with an identity.
pub trait AbstractMonoid: AbstractSemigroup + Identity {

}

/// A loop: a quasigroup with an identity, in which each element's inverse
/// neutralizes it.
pub trait AbstractLoop: AbstractQuasigroup + Identity {
    /// Law: wherever the inverse is defined, combining an element with its
    /// inverse is defined and yields the identity, on both sides.
    proof fn law_two_sided_inverse(a: Self)
        requires
            a.inverse_req(),
        ensures
            a.op_req(a.spec_inverse()),
            a.spec_inverse().op_req(a),
            a.op_spec(a.spec_inverse()) == Self::spec_identity(),
            a.spec_inverse().op_spec(a) == Self::spec_identity(),
    ;
}

/// A group: an associative loop.
pub trait AbstractGroup: AbstractLoop + AbstractMonoid {

}

/// An abelian group: a group whose operation is commutative.
pub trait AbstractGroupAbelian: AbstractGroup {
    /// Law: definedness of the operation is symmetric, and the operation
    /// is commutative wherever it is defined.
    proof fn law_commutative(a: Self, b: Self)
        ensures
            a.op_req(b) == b.op_req(a),
            a.op_req(b) ==> a.op_spec(b) == b.op_spec(a),
    ;
}

/// An abelian group together with multiplication by elements of a
/// commutative ring, satisfying the module axioms.
pub trait AbstractModule: AbstractGroupAbelian {
    /// The ring of scalars.
    type AbstractRing: Scal;

    /// Where scalar multiplication is defined.
    spec fn multiply_req(self, r: Self::AbstractRing) -> bool;

    /// The value of scalar multiplication, where it is defined.
    spec fn spec_multiply(self, r: Self::AbstractRing) -> Self;

    /// Multiplies by a scalar.
    fn multiply_by(&self, r: Self::AbstractRing) -> (res: Self)
        requires
            self.multiply_req(r),
        ensures
            res == self.spec_multiply(r),
    ;

    /// Law: scalar multiplication distributes over the group operation,
    /// wherever everything involved is defined.
    proof fn law_multiply_distributes_over_op(a: Self, b: Self, r: Self::AbstractRing)
        requires
            a.op_req(b),
            a.op_spec(b).multiply_req(r),
            a.multiply_req(r),
            b.multiply_req(r),
            a.spec_multiply(r).op_req(b.spec_multiply(r)),
        ensures
            a.op_spec(b).spec_multiply(r) == a.spec_multiply(r).op_spec(b.spec_multiply(r)),
    ;

    /// Law: scalar multiplication distributes over ring addition, wherever
    /// everything involved is defined.
    proof fn law_multiply_distributes_over_ring_add(
        a: Self,
        r1: Self::AbstractRing,
        r2: Self::AbstractRing,
    )
        requires
            r1.add_req(r2),
            a.multiply_req(r1.add_spec(r2)),
            a.multiply_req(r1),
            a.multiply_req(r2),
            a.spec_multiply(r1).op_req(a.spec_multiply(r2)),
        ensures
            a.spec_multiply(r1.add_spec(r2)) == a.spec_multiply(r1).op_spec(a.spec_multiply(r2)),
    ;

    /// Law: multiplying by the ring's one is always defined and is the
    /// identity.
    proof fn law_multiply_one(a: Self)
        ensures
            a.multiply_req(Self::AbstractRing::spec_one()),
            a.spec_multiply(Self::AbstractRing::spec_one()) == a,
    ;
}

/// A module over a commutative ring.
pub trait Module: AbstractModule {
    /// The ring of scalars.
    type Ring;
}

/// A vector space: a module whose scalars form a field.
pub trait VectorSpace: Module {
    /// The field of scalars.
    type Field;
}

/// A marker for scalars that form a field: every non-zero element is
/// invertible under multiplication.  No machine integer type qualifies,
/// so the library declares no instances; it exists so that generic code
/// can demand a vector space rather than a bare module.
pub trait Field: crate::scal::Scal {

}

} // verus!
