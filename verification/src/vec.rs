use vstd::prelude::*;

pub mod vec2;

verus! {

/// A numeric element type for the dimension-generic container: a copyable
/// value with an additive identity.
pub trait Num: Sized + Copy {
    /// The additive identity, as a specification-level value.
    spec fn spec_zero() -> Self;

    /// The additive identity.
    fn zero() -> (r: Self)
        ensures
            r == Self::spec_zero(),
    ;
}

impl Num for i32 {
    open spec fn spec_zero() -> i32 {
        0
    }

    fn zero() -> i32 {
        0
    }
}

impl Num for i64 {
    open spec fn spec_zero() -> i64 {
        0
    }

    fn zero() -> i64 {
        0
    }
}

/// A type-level natural number.
pub trait StaticUsize {
    const VALUE: usize;
}

/// A type-level array length: for an element type `T`, the array type of
/// that length and a constructor filling every slot with one value.
pub trait StaticArray<T: Num>: StaticUsize {
    /// The fixed-size array type of this length.
    type Array;

    /// The filled array, as a specification-level value.
    spec fn spec_filled(value: T) -> Self::Array;

    /// Builds the array with every slot holding `value`.
    fn filled(value: T) -> (r: Self::Array)
        ensures
            r == Self::spec_filled(value),
    ;
}

/// A dimension usable for the dimension-generic container.
pub trait Dim<T: Num>: StaticArray<T> {

}

/// The type-level number zero.
pub struct N0 {}

impl StaticUsize for N0 {
    const VALUE: usize = 0;
}

impl<T: Num> StaticArray<T> for N0 {
    type Array = [T; 0];

    open spec fn spec_filled(value: T) -> [T; 0] {
        []
    }

    fn filled(value: T) -> [T; 0] {
        []
    }
}

impl<T: Num> Dim<T> for N0 {

}

/// The type-level number one.
pub struct N1 {}

impl StaticUsize for N1 {
    const VALUE: usize = 1;
}

impl<T: Num> StaticArray<T> for N1 {
    type Array = [T; 1];

    open spec fn spec_filled(value: T) -> [T; 1] {
        [value]
    }

    fn filled(value: T) -> [T; 1] {
        [value]
    }
}

impl<T: Num> Dim<T> for N1 {

}

/// The type-level number two.
pub struct N2 {}

impl StaticUsize for N2 {
    const VALUE: usize = 2;
}

impl<T: Num> StaticArray<T> for N2 {
    type Array = [T; 2];

    open spec fn spec_filled(value: T) -> [T; 2] {
        [value, value]
    }

    fn filled(value: T) -> [T; 2] {
        [value, value]
    }
}

impl<T: Num> Dim<T> for N2 {

}

/// The type-level number three.
pub struct N3 {}

impl StaticUsize for N3 {
    const VALUE: usize = 3;
}

impl<T: Num> StaticArray<T> for N3 {
    type Array = [T; 3];

    open spec fn spec_filled(value: T) -> [T; 3] {
        [value, value, value]
    }

    fn filled(value: T) -> [T; 3] {
        [value, value, value]
    }
}

impl<T: Num> Dim<T> for N3 {

}

/// The type-level number four.
pub struct N4 {}

impl StaticUsize for N4 {
    const VALUE: usize = 4;
}

impl<T: Num> StaticArray<T> for N4 {
    type Array = [T; 4];

    open spec fn spec_filled(value: T) -> [T; 4] {
        [value, value, value, value]
    }

    fn filled(value: T) -> [T; 4] {
        [value, value, value, value]
    }
}

impl<T: Num> Dim<T> for N4 {

}

/// A dimension-generic vector container, sized by a type-level number.
///
/// This is a design alternative to the fixed two-dimensional vector: it
/// carries its length in the `Dim` type parameter.  Only zero-filled
/// construction is provided; the fixed-size vector is the functional
/// container.
#[allow(non_camel_case_types)]
pub struct vec<T: Num, N: Dim<T>> {
    pub v: <N as StaticArray<T>>::Array,
}

impl<T: Num, N: Dim<T>> vec<T, N> {
    /// Builds the container with every slot holding zero.
    pub fn new() -> (r: Self)
        ensures
            r.v == N::spec_filled(T::spec_zero()),
    {
        vec::<T, N> { v: <N as StaticArray<T>>::filled(T::zero()) }
    }
}

} // verus!
