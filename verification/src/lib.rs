//! A small fixed-dimension vector algebra library.
//!
//! Vectors own exactly two scalar slots and support componentwise
//! arithmetic, scalar broadcast arithmetic, and in-place assignment forms,
//! all built on a small elementwise transformation engine (`map`, `zip`,
//! `map_assign`, `map_update`) that consumes each input slot exactly once
//! and never requires the element type to be default-constructible.
//! A layered set of algebraic capability traits classifies the vector type
//! as an abelian group under addition, a module over its scalar ring, and
//! a vector space.

pub mod algebra;
pub mod scal;
pub mod vec;

pub use scal::Scal;
