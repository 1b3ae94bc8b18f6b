use vstd::prelude::*;
use vstd::std_specs::ops::AddSpec;
use vstd::std_specs::ops::AddSpecImpl;
use vstd::std_specs::ops::SubSpec;
use vstd::std_specs::ops::SubSpecImpl;
use vstd::std_specs::ops::MulSpec;
use vstd::std_specs::ops::MulSpecImpl;
use vstd::std_specs::ops::DivSpec;
use vstd::std_specs::ops::DivSpecImpl;
use vstd::std_specs::ops::RemSpec;
use vstd::std_specs::ops::RemSpecImpl;
use vstd::std_specs::ops::NegSpec;
use vstd::std_specs::ops::NegSpecImpl;
use crate::Scal;
use crate::algebra::AbstractMagma;
use crate::algebra::Identity;
use crate::algebra::TwoSidedInverse;
use crate::algebra::AbstractSemigroup;
use crate::algebra::AbstractQuasigroup;
use crate::algebra::AbstractMonoid;
use crate::algebra::AbstractLoop;
use crate::algebra::AbstractGroup;
use crate::algebra::AbstractGroupAbelian;
use crate::algebra::AbstractModule;
use crate::algebra::Module;
use crate::algebra::VectorSpace;
use crate::algebra::Field;

verus! {

/// A two-dimensional vector: exactly two scalar slots, owned exclusively,
/// each holding a fully initialized value at all times.
///
/// Its view is the length-two sequence of its components.
#[verifier::ext_equal]
#[derive(Clone, PartialEq, Debug)]
pub struct Vec2<T> {
    pub x: T,
    pub y: T,
}

impl<T: Copy> Copy for Vec2<T> {

}

impl<T> View for Vec2<T> {
    type V = Seq<T>;

    open spec fn view(&self) -> Seq<T> {
        seq![self.x, self.y]
    }
}

impl<T> Vec2<T> {
    /// Builds the vector with the given components.
    pub fn new(x: T, y: T) -> (r: Self)
        ensures
            r.x == x,
            r.y == y,
    {
        Vec2 { x, y }
    }

    /// A zero-copy view of the components, as a fixed-size array of
    /// references in positional order.
    pub fn as_array(&self) -> (r: [&T; 2])
        ensures
            r@ =~= seq![&self.x, &self.y],
    {
        [&self.x, &self.y]
    }

    /// A zero-copy mutable view of the components, as a fixed-size array
    /// of mutable references in positional order.
    pub fn as_array_mut(&mut self) -> (r: [&mut T; 2])
        ensures
            mut_ref_current(r@[0]) == old(self).x,
            mut_ref_current(r@[1]) == old(self).y,
            final (self).x == mut_ref_future(r@[0]),
            final (self).y == mut_ref_future(r@[1]),
    {
        [&mut self.x, &mut self.y]
    }

    /// The first component.
    pub fn x(&self) -> (r: &T)
        ensures
            *r == self.x,
    {
        &self.x
    }

    /// The second component.
    pub fn y(&self) -> (r: &T)
        ensures
            *r == self.y,
    {
        &self.y
    }

    /// Mutable access to the first component.
    pub fn x_mut(&mut self) -> (r: &mut T)
        ensures
            *r == old(self).x,
            final (self).x == *final (r),
            final (self).y == old(self).y,
    {
        &mut self.x
    }

    /// Mutable access to the second component.
    pub fn y_mut(&mut self) -> (r: &mut T)
        ensures
            *r == old(self).y,
            final (self).y == *final (r),
            final (self).x == old(self).x,
    {
        &mut self.y
    }

    /// The component at position `i`; `i` must be in bounds.
    pub fn index(&self, i: usize) -> (r: &T)
        requires
            i < 2,
        ensures
            *r == self@[i as int],
    {
        if i == 0 {
            &self.x
        } else {
            &self.y
        }
    }

    /// Mutable access to the component at position `i`; `i` must be in
    /// bounds.
    pub fn index_mut(&mut self, i: usize) -> (r: &mut T)
        requires
            i < 2,
        ensures
            *r == old(self)@[i as int],
            final (self)@ =~= old(self)@.update(i as int, *final (r)),
    {
        if i == 0 {
            &mut self.x
        } else {
            &mut self.y
        }
    }

    /// Consumes the vector and builds a new one by applying `f` to each
    /// component.  Every input slot is consumed exactly once and every
    /// output slot is written exactly once, in ascending index order; the
    /// element types need not be default-constructible.
    pub fn map<U, F: Fn(T) -> U>(self, f: F) -> (r: Vec2<U>)
        requires
            call_requires(f, (self.x,)),
            call_requires(f, (self.y,)),
        ensures
            call_ensures(f, (self.x,), r.x),
            call_ensures(f, (self.y,), r.y),
    {
        let Vec2 { x, y } = self;
        Vec2 { x: f(x), y: f(y) }
    }

    /// Transforms every component in place, in ascending index order.
    pub fn map_update<F: Fn(&mut T)>(&mut self, f: F)
        requires
            forall|m: &mut T| mut_ref_current(m) == old(self).x ==> call_requires(f, (m,)),
            forall|m: &mut T| mut_ref_current(m) == old(self).y ==> call_requires(f, (m,)),
        ensures
            exists|m: &mut T|
                {
                    &&& mut_ref_current(m) == old(self).x
                    &&& mut_ref_future(m) == final (self).x
                    &&& call_ensures(f, (m,), ())
                },
            exists|m: &mut T|
                {
                    &&& mut_ref_current(m) == old(self).y
                    &&& mut_ref_future(m) == final (self).y
                    &&& call_ensures(f, (m,), ())
                },
    {
        f(&mut self.x);
        f(&mut self.y);
    }

    /// Consumes `other` and combines it into `self` componentwise: for
    /// each index in ascending order, `f` receives mutable access to the
    /// slot of `self` and ownership of the corresponding component of
    /// `other`, which is consumed exactly once.
    pub fn map_assign<R, F: Fn(&mut T, R)>(&mut self, f: F, other: Vec2<R>)
        requires
            forall|m: &mut T| mut_ref_current(m) == old(self).x ==> call_requires(f, (m, other.x)),
            forall|m: &mut T| mut_ref_current(m) == old(self).y ==> call_requires(f, (m, other.y)),
        ensures
            exists|m: &mut T|
                {
                    &&& mut_ref_current(m) == old(self).x
                    &&& mut_ref_future(m) == final (self).x
                    &&& call_ensures(f, (m, other.x), ())
                },
            exists|m: &mut T|
                {
                    &&& mut_ref_current(m) == old(self).y
                    &&& mut_ref_future(m) == final (self).y
                    &&& call_ensures(f, (m, other.y), ())
                },
    {
        let Vec2 { x, y } = other;
        f(&mut self.x, x);
        f(&mut self.y, y);
    }

    /// Consumes both vectors and pairs their components positionally.
    pub fn zip<R>(self, other: Vec2<R>) -> (r: Vec2<(T, R)>)
        ensures
            r.x == (self.x, other.x),
            r.y == (self.y, other.y),
    {
        let Vec2 { x, y } = self;
        let Vec2 { x: ox, y: oy } = other;
        Vec2 { x: (x, ox), y: (y, oy) }
    }
}

impl<T: Copy> Vec2<T> {
    /// Builds the vector from the first two elements of a slice; the
    /// caller must supply at least two.
    pub fn from_slice(data: &[T]) -> (r: Self)
        requires
            data@.len() >= 2,
        ensures
            r.x == data@[0],
            r.y == data@[1],
    {
        Vec2::new(data[0], data[1])
    }

    /// Builds the vector from a slice, reading the elements at offsets
    /// `0` and `stride`; the caller must supply a slice long enough.
    pub fn from_slice_ext(data: &[T], stride: usize) -> (r: Self)
        requires
            stride < data@.len(),
        ensures
            r.x == data@[0],
            r.y == data@[stride as int],
    {
        Vec2::new(data[0], data[stride])
    }
}

impl<T: Scal> Vec2<T> {
    /// The all-zero vector, the additive identity.
    pub fn zero() -> (r: Self)
        ensures
            r.x == T::spec_zero(),
            r.y == T::spec_zero(),
    {
        Vec2::new(T::zero(), T::zero())
    }

    /// Whether every component is the scalar additive identity.
    pub fn is_zero(&self) -> (r: bool)
        ensures
            r == (self.x == T::spec_zero() && self.y == T::spec_zero()),
    {
        self.x().is_zero() && self.y().is_zero()
    }

    /// In-place componentwise addition, built on `map_assign`.
    pub fn add_assign(&mut self, other: Vec2<T>)
        requires
            old(self).x.add_req(other.x),
            old(self).y.add_req(other.y),
        ensures
            final (self).x == old(self).x.add_spec(other.x),
            final (self).y == old(self).y.add_spec(other.y),
    {
        self.map_assign(
            |m: &mut T, v: T|
                requires
                    (*m).add_req(v),
                ensures
                    *final (m) == (*old(m)).add_spec(v)
                {
                    proof { T::obeys_arith(); }
                    *m = (*m).add(v);
                },
            other,
        );
    }

    /// In-place componentwise subtraction, built on `map_assign`.
    pub fn sub_assign(&mut self, other: Vec2<T>)
        requires
            old(self).x.sub_req(other.x),
            old(self).y.sub_req(other.y),
        ensures
            final (self).x == old(self).x.sub_spec(other.x),
            final (self).y == old(self).y.sub_spec(other.y),
    {
        self.map_assign(
            |m: &mut T, v: T|
                requires
                    (*m).sub_req(v),
                ensures
                    *final (m) == (*old(m)).sub_spec(v)
                {
                    proof { T::obeys_arith(); }
                    *m = (*m).sub(v);
                },
            other,
        );
    }

    /// In-place componentwise multiplication, built on `map_assign`.
    pub fn mul_assign(&mut self, other: Vec2<T>)
        requires
            old(self).x.mul_req(other.x),
            old(self).y.mul_req(other.y),
        ensures
            final (self).x == old(self).x.mul_spec(other.x),
            final (self).y == old(self).y.mul_spec(other.y),
    {
        self.map_assign(
            |m: &mut T, v: T|
                requires
                    (*m).mul_req(v),
                ensures
                    *final (m) == (*old(m)).mul_spec(v)
                {
                    proof { T::obeys_arith(); }
                    *m = (*m).mul(v);
                },
            other,
        );
    }

    /// In-place componentwise division, built on `map_assign`.
    pub fn div_assign(&mut self, other: Vec2<T>)
        requires
            old(self).x.div_req(other.x),
            old(self).y.div_req(other.y),
        ensures
            final (self).x == old(self).x.div_spec(other.x),
            final (self).y == old(self).y.div_spec(other.y),
    {
        self.map_assign(
            |m: &mut T, v: T|
                requires
                    (*m).div_req(v),
                ensures
                    *final (m) == (*old(m)).div_spec(v)
                {
                    proof { T::obeys_arith(); }
                    *m = (*m).div(v);
                },
            other,
        );
    }

    /// In-place componentwise remainder, built on `map_assign`.
    pub fn rem_assign(&mut self, other: Vec2<T>)
        requires
            old(self).x.rem_req(other.x),
            old(self).y.rem_req(other.y),
        ensures
            final (self).x == old(self).x.rem_spec(other.x),
            final (self).y == old(self).y.rem_spec(other.y),
    {
        self.map_assign(
            |m: &mut T, v: T|
                requires
                    (*m).rem_req(v),
                ensures
                    *final (m) == (*old(m)).rem_spec(v)
                {
                    proof { T::obeys_arith(); }
                    *m = (*m).rem(v);
                },
            other,
        );
    }

    /// In-place broadcast multiplication by a scalar, built on
    /// `map_update`.
    pub fn mul_assign_scalar(&mut self, other: T)
        requires
            old(self).x.mul_req(other),
            old(self).y.mul_req(other),
        ensures
            final (self).x == old(self).x.mul_spec(other),
            final (self).y == old(self).y.mul_spec(other),
    {
        self.map_update(
            |m: &mut T|
                requires
                    (*m).mul_req(other),
                ensures
                    *final (m) == (*old(m)).mul_spec(other)
                {
                    proof { T::obeys_arith(); }
                    *m = (*m).mul(other);
                },
        );
    }

    /// In-place broadcast division by a scalar, built on `map_update`.
    pub fn div_assign_scalar(&mut self, other: T)
        requires
            old(self).x.div_req(other),
            old(self).y.div_req(other),
        ensures
            final (self).x == old(self).x.div_spec(other),
            final (self).y == old(self).y.div_spec(other),
    {
        self.map_update(
            |m: &mut T|
                requires
                    (*m).div_req(other),
                ensures
                    *final (m) == (*old(m)).div_spec(other)
                {
                    proof { T::obeys_arith(); }
                    *m = (*m).div(other);
                },
        );
    }

    /// In-place broadcast remainder by a scalar, built on `map_update`.
    pub fn rem_assign_scalar(&mut self, other: T)
        requires
            old(self).x.rem_req(other),
            old(self).y.rem_req(other),
        ensures
            final (self).x == old(self).x.rem_spec(other),
            final (self).y == old(self).y.rem_spec(other),
    {
        self.map_update(
            |m: &mut T|
                requires
                    (*m).rem_req(other),
                ensures
                    *final (m) == (*old(m)).rem_spec(other)
                {
                    proof { T::obeys_arith(); }
                    *m = (*m).rem(other);
                },
        );
    }
}

impl<T: Scal> core::ops::Neg for Vec2<T> {
    type Output = Vec2<T>;

    /// Componentwise negation, built on `map`.
    fn neg(self) -> Vec2<T> {
        self.map(
            |v: T| -> (r: T)
                requires
                    v.neg_req(),
                ensures
                    r == v.neg_spec()
                {
                    proof { T::obeys_arith(); }
                    v.neg()
                },
        )
    }
}

impl<T: Scal> NegSpecImpl for Vec2<T> {
    open spec fn obeys_neg_spec() -> bool {
        T::obeys_neg_spec()
    }

    open spec fn neg_req(self) -> bool {
        self.x.neg_req() && self.y.neg_req()
    }

    open spec fn neg_spec(self) -> Vec2<T> {
        Vec2 { x: self.x.neg_spec(), y: self.y.neg_spec() }
    }
}

impl<T: Scal> core::ops::Add for Vec2<T> {
    type Output = Vec2<T>;

    /// Componentwise addition, built on `zip` and `map`.
    fn add(self, other: Vec2<T>) -> Vec2<T> {
        self.zip(other).map(
            |p: (T, T)| -> (r: T)
                requires
                    p.0.add_req(p.1),
                ensures
                    r == p.0.add_spec(p.1)
                {
                    proof { T::obeys_arith(); }
                    p.0.add(p.1)
                },
        )
    }
}

impl<T: Scal> AddSpecImpl for Vec2<T> {
    open spec fn obeys_add_spec() -> bool {
        T::obeys_add_spec()
    }

    open spec fn add_req(self, rhs: Vec2<T>) -> bool {
        self.x.add_req(rhs.x) && self.y.add_req(rhs.y)
    }

    open spec fn add_spec(self, rhs: Vec2<T>) -> Vec2<T> {
        Vec2 { x: self.x.add_spec(rhs.x), y: self.y.add_spec(rhs.y) }
    }
}

impl<T: Scal> core::ops::Sub for Vec2<T> {
    type Output = Vec2<T>;

    /// Componentwise subtraction, built on `zip` and `map`.
    fn sub(self, other: Vec2<T>) -> Vec2<T> {
        self.zip(other).map(
            |p: (T, T)| -> (r: T)
                requires
                    p.0.sub_req(p.1),
                ensures
                    r == p.0.sub_spec(p.1)
                {
                    proof { T::obeys_arith(); }
                    p.0.sub(p.1)
                },
        )
    }
}

impl<T: Scal> SubSpecImpl for Vec2<T> {
    open spec fn obeys_sub_spec() -> bool {
        T::obeys_sub_spec()
    }

    open spec fn sub_req(self, rhs: Vec2<T>) -> bool {
        self.x.sub_req(rhs.x) && self.y.sub_req(rhs.y)
    }

    open spec fn sub_spec(self, rhs: Vec2<T>) -> Vec2<T> {
        Vec2 { x: self.x.sub_spec(rhs.x), y: self.y.sub_spec(rhs.y) }
    }
}

impl<T: Scal> core::ops::Mul for Vec2<T> {
    type Output = Vec2<T>;

    /// Componentwise multiplication, built on `zip` and `map`.
    fn mul(self, other: Vec2<T>) -> Vec2<T> {
        self.zip(other).map(
            |p: (T, T)| -> (r: T)
                requires
                    p.0.mul_req(p.1),
                ensures
                    r == p.0.mul_spec(p.1)
                {
                    proof { T::obeys_arith(); }
                    p.0.mul(p.1)
                },
        )
    }
}

impl<T: Scal> MulSpecImpl for Vec2<T> {
    open spec fn obeys_mul_spec() -> bool {
        T::obeys_mul_spec()
    }

    open spec fn mul_req(self, rhs: Vec2<T>) -> bool {
        self.x.mul_req(rhs.x) && self.y.mul_req(rhs.y)
    }

    open spec fn mul_spec(self, rhs: Vec2<T>) -> Vec2<T> {
        Vec2 { x: self.x.mul_spec(rhs.x), y: self.y.mul_spec(rhs.y) }
    }
}

impl<T: Scal> core::ops::Div for Vec2<T> {
    type Output = Vec2<T>;

    /// Componentwise division, built on `zip` and `map`.  Division by a
    /// zero component is excluded by the scalar's own precondition.
    fn div(self, other: Vec2<T>) -> Vec2<T> {
        self.zip(other).map(
            |p: (T, T)| -> (r: T)
                requires
                    p.0.div_req(p.1),
                ensures
                    r == p.0.div_spec(p.1)
                {
                    proof { T::obeys_arith(); }
                    p.0.div(p.1)
                },
        )
    }
}

impl<T: Scal> DivSpecImpl for Vec2<T> {
    open spec fn obeys_div_spec() -> bool {
        T::obeys_div_spec()
    }

    open spec fn div_req(self, rhs: Vec2<T>) -> bool {
        self.x.div_req(rhs.x) && self.y.div_req(rhs.y)
    }

    open spec fn div_spec(self, rhs: Vec2<T>) -> Vec2<T> {
        Vec2 { x: self.x.div_spec(rhs.x), y: self.y.div_spec(rhs.y) }
    }
}

impl<T: Scal> core::ops::Rem for Vec2<T> {
    type Output = Vec2<T>;

    /// Componentwise remainder, built on `zip` and `map`.
    fn rem(self, other: Vec2<T>) -> Vec2<T> {
        self.zip(other).map(
            |p: (T, T)| -> (r: T)
                requires
                    p.0.rem_req(p.1),
                ensures
                    r == p.0.rem_spec(p.1)
                {
                    proof { T::obeys_arith(); }
                    p.0.rem(p.1)
                },
        )
    }
}

impl<T: Scal> RemSpecImpl for Vec2<T> {
    open spec fn obeys_rem_spec() -> bool {
        T::obeys_rem_spec()
    }

    open spec fn rem_req(self, rhs: Vec2<T>) -> bool {
        self.x.rem_req(rhs.x) && self.y.rem_req(rhs.y)
    }

    open spec fn rem_spec(self, rhs: Vec2<T>) -> Vec2<T> {
        Vec2 { x: self.x.rem_spec(rhs.x), y: self.y.rem_spec(rhs.y) }
    }
}

impl<T: Scal> core::ops::Mul<T> for Vec2<T> {
    type Output = Vec2<T>;

    /// Broadcast multiplication: every component is multiplied by the
    /// scalar.
    fn mul(self, other: T) -> Vec2<T> {
        self.map(
            |v: T| -> (r: T)
                requires
                    v.mul_req(other),
                ensures
                    r == v.mul_spec(other)
                {
                    proof { T::obeys_arith(); }
                    v.mul(other)
                },
        )
    }
}

impl<T: Scal> MulSpecImpl<T> for Vec2<T> {
    open spec fn obeys_mul_spec() -> bool {
        T::obeys_mul_spec()
    }

    open spec fn mul_req(self, rhs: T) -> bool {
        self.x.mul_req(rhs) && self.y.mul_req(rhs)
    }

    open spec fn mul_spec(self, rhs: T) -> Vec2<T> {
        Vec2 { x: self.x.mul_spec(rhs), y: self.y.mul_spec(rhs) }
    }
}

impl<T: Scal> core::ops::Div<T> for Vec2<T> {
    type Output = Vec2<T>;

    /// Broadcast division: every component is divided by the scalar.
    fn div(self, other: T) -> Vec2<T> {
        self.map(
            |v: T| -> (r: T)
                requires
                    v.div_req(other),
                ensures
                    r == v.div_spec(other)
                {
                    proof { T::obeys_arith(); }
                    v.div(other)
                },
        )
    }
}

impl<T: Scal> DivSpecImpl<T> for Vec2<T> {
    open spec fn obeys_div_spec() -> bool {
        T::obeys_div_spec()
    }

    open spec fn div_req(self, rhs: T) -> bool {
        self.x.div_req(rhs) && self.y.div_req(rhs)
    }

    open spec fn div_spec(self, rhs: T) -> Vec2<T> {
        Vec2 { x: self.x.div_spec(rhs), y: self.y.div_spec(rhs) }
    }
}

impl<T: Scal> core::ops::Rem<T> for Vec2<T> {
    type Output = Vec2<T>;

    /// Broadcast remainder: every component is reduced by the scalar.
    fn rem(self, other: T) -> Vec2<T> {
        self.map(
            |v: T| -> (r: T)
                requires
                    v.rem_req(other),
                ensures
                    r == v.rem_spec(other)
                {
                    proof { T::obeys_arith(); }
                    v.rem(other)
                },
        )
    }
}

impl<T: Scal> RemSpecImpl<T> for Vec2<T> {
    open spec fn obeys_rem_spec() -> bool {
        T::obeys_rem_spec()
    }

    open spec fn rem_req(self, rhs: T) -> bool {
        self.x.rem_req(rhs) && self.y.rem_req(rhs)
    }

    open spec fn rem_spec(self, rhs: T) -> Vec2<T> {
        Vec2 { x: self.x.rem_spec(rhs), y: self.y.rem_spec(rhs) }
    }
}

impl<T: Scal> AbstractMagma for Vec2<T> {
    open spec fn op_req(self, other: Self) -> bool {
        AddSpec::add_req(self, other)
    }

    open spec fn op_spec(self, other: Self) -> Self {
        AddSpec::add_spec(self, other)
    }

    /// The magma operation is vector addition.
    fn operate(&self, other: &Self) -> Self {
        proof {
            T::obeys_arith();
        }
        core::ops::Add::add(*self, *other)
    }
}

impl<T: Scal> Identity for Vec2<T> {
    open spec fn spec_identity() -> Self {
        Vec2 { x: T::spec_zero(), y: T::spec_zero() }
    }

    /// The additive identity is the all-zero vector.
    fn identity() -> Self {
        let r = Vec2::zero();
        proof {
            assert(r =~= Self::spec_identity());
        }
        r
    }

    proof fn law_identity(a: Self) {
        T::law_add_zero(a.x);
        T::law_add_zero(a.y);
        assert(a.op_spec(Self::spec_identity()) =~= a);
        assert(Self::spec_identity().op_spec(a) =~= a);
    }
}

impl<T: Scal> TwoSidedInverse for Vec2<T> {
    open spec fn inverse_req(self) -> bool {
        NegSpec::neg_req(self)
    }

    open spec fn spec_inverse(self) -> Self {
        NegSpec::neg_spec(self)
    }

    /// The additive inverse is componentwise negation.
    fn two_sided_inverse(&self) -> Self {
        proof {
            T::obeys_arith();
        }
        core::ops::Neg::neg(*self)
    }
}

impl<T: Scal> AbstractSemigroup for Vec2<T> {
    proof fn law_associative(a: Self, b: Self, c: Self) {
        T::law_add_assoc(a.x, b.x, c.x);
        T::law_add_assoc(a.y, b.y, c.y);
        assert(a.op_spec(b).op_spec(c) =~= a.op_spec(b.op_spec(c)));
    }
}

impl<T: Scal> AbstractQuasigroup for Vec2<T> {
    proof fn law_latin_square(a: Self, b: Self) {
        T::law_add_neg(a.x);
        T::law_add_neg(a.y);
        T::law_add_zero(b.x);
        T::law_add_zero(b.y);
        T::law_add_assoc(a.x.neg_spec(), a.x, b.x);
        T::law_add_assoc(a.y.neg_spec(), a.y, b.y);
        assert(a.spec_inverse().op_spec(a.op_spec(b)) =~= b);
    }
}

impl<T: Scal> AbstractMonoid for Vec2<T> {

}

impl<T: Scal> AbstractLoop for Vec2<T> {
    proof fn law_two_sided_inverse(a: Self) {
        T::law_add_neg(a.x);
        T::law_add_neg(a.y);
        assert(a.op_spec(a.spec_inverse()) =~= Self::spec_identity());
        assert(a.spec_inverse().op_spec(a) =~= Self::spec_identity());
    }
}

impl<T: Scal> AbstractGroup for Vec2<T> {

}

impl<T: Scal> AbstractGroupAbelian for Vec2<T> {
    proof fn law_commutative(a: Self, b: Self) {
        T::law_add_comm(a.x, b.x);
        T::law_add_comm(a.y, b.y);
        if a.op_req(b) {
            assert(a.op_spec(b) =~= b.op_spec(a));
        }
    }
}

impl<T: Scal> AbstractModule for Vec2<T> {
    type AbstractRing = T;

    open spec fn multiply_req(self, r: T) -> bool {
        <Vec2<T> as MulSpec<T>>::mul_req(self, r)
    }

    open spec fn spec_multiply(self, r: T) -> Self {
        <Vec2<T> as MulSpec<T>>::mul_spec(self, r)
    }

    /// Module scalar multiplication is broadcast multiplication.
    fn multiply_by(&self, r: T) -> Self {
        proof {
            T::obeys_arith();
        }
        core::ops::Mul::mul(*self, r)
    }

    proof fn law_multiply_distributes_over_op(a: Self, b: Self, r: T) {
        T::law_distributive(a.x, b.x, r);
        T::law_distributive(a.y, b.y, r);
        assert(a.op_spec(b).spec_multiply(r) =~= a.spec_multiply(r).op_spec(b.spec_multiply(r)));
    }

    proof fn law_multiply_distributes_over_ring_add(a: Self, r1: T, r2: T) {
        T::law_mul_comm(a.x, r1.add_spec(r2));
        T::law_mul_comm(a.y, r1.add_spec(r2));
        T::law_mul_comm(a.x, r1);
        T::law_mul_comm(a.x, r2);
        T::law_mul_comm(a.y, r1);
        T::law_mul_comm(a.y, r2);
        T::law_distributive(r1, r2, a.x);
        T::law_distributive(r1, r2, a.y);
        assert(a.spec_multiply(r1.add_spec(r2)) =~= a.spec_multiply(r1).op_spec(a.spec_multiply(r2)));
    }

    proof fn law_multiply_one(a: Self) {
        T::law_mul_one(a.x);
        T::law_mul_one(a.y);
        assert(a.spec_multiply(T::spec_one()) =~= a);
    }
}

impl<T: Scal> Module for Vec2<T> {
    type Ring = T;
}

impl<T: Scal + Field> VectorSpace for Vec2<T> {
    type Field = T;
}

/// Law: construction round-trip.  A vector built from components `a` and
/// `b` holds exactly those components, whether read by name or by
/// position.
pub proof fn lemma_construction_round_trip<T>(v: Vec2<T>, a: T, b: T)
    requires
        v.x == a,
        v.y == b,
    ensures
        v@.len() == 2,
        v@[0] == a,
        v@[1] == b,
{
}

/// Law: operator/assignment equivalence.  For each arithmetic operation,
/// the by-value operator (whose result is the `..._spec` value on the
/// whole vectors) and the in-place assignment form (whose result is the
/// componentwise `..._spec` values) are defined on the same operands and
/// produce the same vector.
pub proof fn lemma_operator_assignment_equivalence<T: Scal>(u: Vec2<T>, v: Vec2<T>)
    ensures
        <Vec2<T> as AddSpec>::add_req(u, v) == (u.x.add_req(v.x) && u.y.add_req(v.y)),
        <Vec2<T> as AddSpec>::add_spec(u, v) == (Vec2 { x: u.x.add_spec(v.x), y: u.y.add_spec(v.y) }),
        <Vec2<T> as SubSpec>::sub_req(u, v) == (u.x.sub_req(v.x) && u.y.sub_req(v.y)),
        <Vec2<T> as SubSpec>::sub_spec(u, v) == (Vec2 { x: u.x.sub_spec(v.x), y: u.y.sub_spec(v.y) }),
        <Vec2<T> as MulSpec>::mul_req(u, v) == (u.x.mul_req(v.x) && u.y.mul_req(v.y)),
        <Vec2<T> as MulSpec>::mul_spec(u, v) == (Vec2 { x: u.x.mul_spec(v.x), y: u.y.mul_spec(v.y) }),
        <Vec2<T> as DivSpec>::div_req(u, v) == (u.x.div_req(v.x) && u.y.div_req(v.y)),
        <Vec2<T> as DivSpec>::div_spec(u, v) == (Vec2 { x: u.x.div_spec(v.x), y: u.y.div_spec(v.y) }),
        <Vec2<T> as RemSpec>::rem_req(u, v) == (u.x.rem_req(v.x) && u.y.rem_req(v.y)),
        <Vec2<T> as RemSpec>::rem_spec(u, v) == (Vec2 { x: u.x.rem_spec(v.x), y: u.y.rem_spec(v.y) }),
{
}

/// Law: scalar broadcast.  Multiplying, dividing, or taking the remainder
/// of a vector by a scalar acts on every component independently, at its
/// own position.
pub proof fn lemma_scalar_broadcast<T: Scal>(v: Vec2<T>, s: T)
    ensures
        <Vec2<T> as MulSpec<T>>::mul_spec(v, s)@[0] == v@[0].mul_spec(s),
        <Vec2<T> as MulSpec<T>>::mul_spec(v, s)@[1] == v@[1].mul_spec(s),
        <Vec2<T> as DivSpec<T>>::div_spec(v, s)@[0] == v@[0].div_spec(s),
        <Vec2<T> as DivSpec<T>>::div_spec(v, s)@[1] == v@[1].div_spec(s),
        <Vec2<T> as RemSpec<T>>::rem_spec(v, s)@[0] == v@[0].rem_spec(s),
        <Vec2<T> as RemSpec<T>>::rem_spec(v, s)@[1] == v@[1].rem_spec(s),
{
}

} // verus!

