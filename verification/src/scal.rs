use vstd::prelude::*;
use vstd::std_specs::ops::AddSpec;
use vstd::std_specs::ops::SubSpec;
use vstd::std_specs::ops::MulSpec;
use vstd::std_specs::ops::DivSpec;
use vstd::std_specs::ops::RemSpec;
use vstd::std_specs::ops::NegSpec;

verus! {

/// A scalar: a value type with equality, copy semantics, ring-like
/// arithmetic (`+ - * / %`), negation, and the additive and
/// multiplicative identities.
///
/// The arithmetic itself comes from the standard operator traits, so a
/// scalar's operations are exactly its native ones; each operator may be
/// partial (`add_req` and friends say where it is defined, e.g. where a
/// machine integer does not overflow).  On top of that, the trait demands
/// proof of the algebraic laws that the vector layer builds on: where the
/// operations are defined, addition is commutative and associative, zero
/// is a two-sided identity, negation yields a two-sided additive inverse,
/// multiplication is commutative with identity one, and multiplication
/// distributes over addition.
pub trait Scal: Sized + Copy + PartialEq + core::ops::Add<Output = Self> + core::ops::Sub<
    Output = Self,
> + core::ops::Mul<Output = Self> + core::ops::Div<Output = Self> + core::ops::Rem<
    Output = Self,
> + core::ops::Neg<Output = Self> + AddSpec + SubSpec + MulSpec + DivSpec + RemSpec + NegSpec {
    /// The additive identity, as a specification-level value.
    spec fn spec_zero() -> Self;

    /// The multiplicative identity, as a specification-level value.
    spec fn spec_one() -> Self;

    /// The additive identity.
    fn zero() -> (r: Self)
        ensures
            r == Self::spec_zero(),
    ;

    /// The multiplicative identity.
    fn one() -> (r: Self)
        ensures
            r == Self::spec_one(),
    ;

    /// Whether this value is the additive identity.
    fn is_zero(&self) -> (r: bool)
        ensures
            r == (*self == Self::spec_zero()),
    ;

    /// The standard operators on this type obey their vstd specifications,
    /// so `x + y` is `x.add_spec(y)` whenever `x.add_req(y)` holds, and so
    /// on for the other operators.
    proof fn obeys_arith()
        ensures
            Self::obeys_add_spec(),
            Self::obeys_sub_spec(),
            Self::obeys_mul_spec(),
            Self::obeys_div_spec(),
            Self::obeys_rem_spec(),
            Self::obeys_neg_spec(),
    ;

    /// Addition is commutative wherever it is defined, and definedness
    /// itself is symmetric.
    proof fn law_add_comm(a: Self, b: Self)
        ensures
            a.add_req(b) == b.add_req(a),
            a.add_req(b) ==> a.add_spec(b) == b.add_spec(a),
    ;

    /// Addition is associative wherever both groupings are defined.
    proof fn law_add_assoc(a: Self, b: Self, c: Self)
        requires
            a.add_req(b),
            a.add_spec(b).add_req(c),
            b.add_req(c),
            a.add_req(b.add_spec(c)),
        ensures
            a.add_spec(b).add_spec(c) == a.add_spec(b.add_spec(c)),
    ;

    /// Adding zero is always defined and is the identity, on both sides.
    proof fn law_add_zero(a: Self)
        ensures
            a.add_req(Self::spec_zero()),
            Self::spec_zero().add_req(a),
            a.add_spec(Self::spec_zero()) == a,
            Self::spec_zero().add_spec(a) == a,
    ;

    /// Wherever negation is defined, it yields a two-sided additive
    /// inverse.
    proof fn law_add_neg(a: Self)
        requires
            a.neg_req(),
        ensures
            a.add_req(a.neg_spec()),
            a.neg_spec().add_req(a),
            a.add_spec(a.neg_spec()) == Self::spec_zero(),
            a.neg_spec().add_spec(a) == Self::spec_zero(),
    ;

    /// Multiplication is commutative wherever it is defined, and
    /// definedness itself is symmetric.
    proof fn law_mul_comm(a: Self, b: Self)
        ensures
            a.mul_req(b) == b.mul_req(a),
            a.mul_req(b) ==> a.mul_spec(b) == b.mul_spec(a),
    ;

    /// Multiplying by one is always defined and is the identity.
    proof fn law_mul_one(a: Self)
        ensures
            a.mul_req(Self::spec_one()),
            a.mul_spec(Self::spec_one()) == a,
    ;

    /// Multiplication distributes over addition wherever every operation
    /// involved is defined.
    proof fn law_distributive(a: Self, b: Self, c: Self)
        requires
            a.add_req(b),
            a.add_spec(b).mul_req(c),
            a.mul_req(c),
            b.mul_req(c),
            a.mul_spec(c).add_req(b.mul_spec(c)),
        ensures
            a.add_spec(b).mul_spec(c) == a.mul_spec(c).add_spec(b.mul_spec(c)),
    ;
}

impl Scal for i32 {
    open spec fn spec_zero() -> i32 {
        0
    }

    open spec fn spec_one() -> i32 {
        1
    }

    fn zero() -> i32 {
        0
    }

    fn one() -> i32 {
        1
    }

    fn is_zero(&self) -> bool {
        *self == 0
    }

    proof fn obeys_arith() {
    }

    proof fn law_add_comm(a: i32, b: i32) {
    }

    proof fn law_add_assoc(a: i32, b: i32, c: i32) {
    }

    proof fn law_add_zero(a: i32) {
    }

    proof fn law_add_neg(a: i32) {
    }

    proof fn law_mul_comm(a: i32, b: i32) {
        assert(a.mul_req(b) == b.mul_req(a)) by (nonlinear_arith);
        assert(a * b == b * a) by (nonlinear_arith);
    }

    proof fn law_mul_one(a: i32) {
    }

    proof fn law_distributive(a: i32, b: i32, c: i32) {
        assert((a + b) * c == a * c + b * c) by (nonlinear_arith);
    }
}

impl Scal for i64 {
    open spec fn spec_zero() -> i64 {
        0
    }

    open spec fn spec_one() -> i64 {
        1
    }

    fn zero() -> i64 {
        0
    }

    fn one() -> i64 {
        1
    }

    fn is_zero(&self) -> bool {
        *self == 0
    }

    proof fn obeys_arith() {
    }

    proof fn law_add_comm(a: i64, b: i64) {
    }

    proof fn law_add_assoc(a: i64, b: i64, c: i64) {
    }

    proof fn law_add_zero(a: i64) {
    }

    proof fn law_add_neg(a: i64) {
    }

    proof fn law_mul_comm(a: i64, b: i64) {
        assert(a.mul_req(b) == b.mul_req(a)) by (nonlinear_arith);
        assert(a * b == b * a) by (nonlinear_arith);
    }

    proof fn law_mul_one(a: i64) {
    }

    proof fn law_distributive(a: i64, b: i64, c: i64) {
        assert((a + b) * c == a * c + b * c) by (nonlinear_arith);
    }
}

} // verus!
