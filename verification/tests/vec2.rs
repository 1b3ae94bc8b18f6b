use vecalg::Scal;
use vecalg::algebra::AbstractMagma;
use vecalg::algebra::AbstractModule;
use vecalg::algebra::Identity;
use vecalg::algebra::TwoSidedInverse;
use vecalg::vec::N0;
use vecalg::vec::N1;
use vecalg::vec::N2;
use vecalg::vec::N3;
use vecalg::vec::N4;
use vecalg::vec::StaticArray;
use vecalg::vec::StaticUsize;
use vecalg::vec::vec2::Vec2;

#[test]
fn access() {
    let v = Vec2::<i32>::new(1, 2);
    assert_eq!(*v.x(), 1);
    assert_eq!(*v.y(), 2);
    assert_eq!(*v.index(0), 1);
    assert_eq!(*v.index(1), 2);
}

#[test]
fn arithmetics() {
    assert_eq!(-Vec2::new(1, 2), Vec2::new(-1, -2));

    assert_eq!(Vec2::new(1, 2) + Vec2::new(3, 4), Vec2::new(4, 6));
    assert_eq!(Vec2::new(1, 4) - Vec2::new(3, 2), Vec2::new(-2, 2));
    assert_eq!(Vec2::new(1, 2) * Vec2::new(3, 4), Vec2::new(3, 8));
    assert_eq!(Vec2::new(3, 4) / Vec2::new(1, 2), Vec2::new(3, 2));
    assert_eq!(Vec2::new(5, 4) % Vec2::new(2, 3), Vec2::new(1, 1));
    assert_eq!(Vec2::new(1, 3) * 2, Vec2::new(2, 6));
    assert_eq!(Vec2::new(1, 3) / 2, Vec2::new(0, 1));
    assert_eq!(Vec2::new(5, 6) % 3, Vec2::new(2, 0));

    let mut v = Vec2::new(1, 2);
    v.add_assign(Vec2::new(3, 4));
    assert_eq!(v, Vec2::new(4, 6));

    let mut v = Vec2::new(1, 4);
    v.sub_assign(Vec2::new(3, 2));
    assert_eq!(v, Vec2::new(-2, 2));

    let mut v = Vec2::new(1, 2);
    v.mul_assign(Vec2::new(3, 4));
    assert_eq!(v, Vec2::new(3, 8));

    let mut v = Vec2::new(3, 4);
    v.div_assign(Vec2::new(1, 2));
    assert_eq!(v, Vec2::new(3, 2));

    let mut v = Vec2::new(5, 4);
    v.rem_assign(Vec2::new(2, 3));
    assert_eq!(v, Vec2::new(1, 1));

    let mut v = Vec2::new(1, 3);
    v.mul_assign_scalar(2);
    assert_eq!(v, Vec2::new(2, 6));

    let mut v = Vec2::new(1, 3);
    v.div_assign_scalar(2);
    assert_eq!(v, Vec2::new(0, 1));

    let mut v = Vec2::new(5, 6);
    v.rem_assign_scalar(3);
    assert_eq!(v, Vec2::new(2, 0));
}

#[test]
fn mutable_access() {
    let mut v = Vec2::new(1, 2);
    *v.x_mut() = 10;
    *v.y_mut() = 20;
    assert_eq!(v, Vec2::new(10, 20));
    *v.index_mut(0) = 30;
    *v.index_mut(1) = 40;
    assert_eq!(v, Vec2::new(30, 40));
}

#[test]
fn mutable_array_view() {
    let mut v = Vec2::new(1, 2);
    let [a, b] = v.as_array_mut();
    *a = 5;
    *b = 6;
    assert_eq!(v, Vec2::new(5, 6));
}

#[test]
fn array_view() {
    let v = Vec2::new(8, 9);
    let a = v.as_array();
    assert_eq!(*a[0], 8);
    assert_eq!(*a[1], 9);
}

#[test]
fn map_transforms_each_component() {
    let v = Vec2::new(2, 5);
    let r = v.map(|c| c * 10);
    assert_eq!(r, Vec2::new(20, 50));
    let b = Vec2::new(2, 5).map(|c| c > 2);
    assert_eq!(b, Vec2::new(false, true));
}

#[test]
fn map_applies_exactly_once_per_slot() {
    let calls = std::cell::Cell::new(0usize);
    let v = Vec2::new(3, 4);
    let r = v.map(|c| {
        calls.set(calls.get() + 1);
        c
    });
    assert_eq!(calls.get(), 2);
    assert_eq!(*r.x(), 3);
    assert_eq!(*r.y(), 4);
}

#[test]
fn engine_handles_non_copy_elements() {
    let v = Vec2::new(String::from("a"), String::from("b"));
    let r = v.map(|s| s + "!");
    assert_eq!(*r.x(), "a!");
    assert_eq!(*r.y(), "b!");

    let u = Vec2::new(String::from("l"), String::from("r"));
    let w = Vec2::new(1, 2);
    let z = u.zip(w);
    assert_eq!(*z.x(), (String::from("l"), 1));
    assert_eq!(*z.y(), (String::from("r"), 2));
}

#[test]
fn zip_pairs_components_positionally() {
    let a = Vec2::new(1, 2);
    let b = Vec2::new(30, 40);
    let z = a.zip(b);
    assert_eq!(z, Vec2::new((1, 30), (2, 40)));
}

#[test]
fn map_assign_consumes_other() {
    let mut a = Vec2::new(1, 2);
    a.map_assign(|m: &mut i32, v: i32| *m += v, Vec2::new(10, 20));
    assert_eq!(a, Vec2::new(11, 22));
}

#[test]
fn map_update_transforms_in_place() {
    let mut a = Vec2::new(1, 2);
    a.map_update(|m: &mut i32| *m *= 3);
    assert_eq!(a, Vec2::new(3, 6));
}

#[test]
fn slice_construction() {
    let data = [7, 8, 9, 10];
    let v = Vec2::from_slice(&data);
    assert_eq!(v, Vec2::new(7, 8));
}

#[test]
fn strided_slice_construction() {
    let data = [7, 8, 9, 10];
    let v = Vec2::from_slice_ext(&data, 2);
    assert_eq!(v, Vec2::new(7, 9));
    let w = Vec2::from_slice_ext(&data, 3);
    assert_eq!(w, Vec2::new(7, 10));
}

#[test]
fn zero_vector() {
    let z = Vec2::<i32>::zero();
    assert_eq!(z, Vec2::new(0, 0));
    assert!(z.is_zero());
    assert!(!Vec2::new(0, 1).is_zero());
    assert!(!Vec2::new(1, 0).is_zero());
}

#[test]
fn additive_identity_law_concrete() {
    let v = Vec2::new(5, -7);
    let z = Vec2::<i32>::zero();
    assert_eq!(v + z, v);
    assert_eq!(z + v, v);
}

#[test]
fn additive_inverse_law_concrete() {
    let v = Vec2::new(5, -7);
    assert_eq!(v + (-v), Vec2::<i32>::zero());
    assert_eq!((-v) + v, Vec2::<i32>::zero());
}

#[test]
fn addition_commutative_associative_concrete() {
    let u = Vec2::new(1, -2);
    let v = Vec2::new(30, 4);
    let w = Vec2::new(-5, 60);
    assert_eq!(u + v, v + u);
    assert_eq!((u + v) + w, u + (v + w));
}

#[test]
fn operator_assignment_equivalence_concrete() {
    let u = Vec2::new(9, -14);
    let v = Vec2::new(3, 4);
    let mut t = u;
    t.add_assign(v);
    assert_eq!(u + v, t);
    let mut t = u;
    t.sub_assign(v);
    assert_eq!(u - v, t);
    let mut t = u;
    t.mul_assign(v);
    assert_eq!(u * v, t);
    let mut t = u;
    t.div_assign(v);
    assert_eq!(u / v, t);
    let mut t = u;
    t.rem_assign(v);
    assert_eq!(u % v, t);
}

#[test]
fn scalar_broadcast_concrete() {
    let v = Vec2::new(7, -9);
    let s = 4;
    assert_eq!(*(v * s).index(0), *v.index(0) * s);
    assert_eq!(*(v * s).index(1), *v.index(1) * s);
    assert_eq!(*(v / s).index(0), *v.index(0) / s);
    assert_eq!(*(v / s).index(1), *v.index(1) / s);
    assert_eq!(*(v % s).index(0), *v.index(0) % s);
    assert_eq!(*(v % s).index(1), *v.index(1) % s);
}

#[test]
fn algebraic_structure_operations() {
    let a = Vec2::new(1, 2);
    let b = Vec2::new(3, 4);
    assert_eq!(a.operate(&b), Vec2::new(4, 6));
    assert_eq!(Vec2::<i32>::identity(), Vec2::new(0, 0));
    assert_eq!(a.two_sided_inverse(), Vec2::new(-1, -2));
    assert_eq!(a.multiply_by(5), Vec2::new(5, 10));
}

#[test]
fn scalar_identities() {
    assert_eq!(<i32 as Scal>::zero(), 0);
    assert_eq!(<i32 as Scal>::one(), 1);
    assert_eq!(<i64 as Scal>::zero(), 0);
    assert_eq!(<i64 as Scal>::one(), 1);
    assert!(Scal::is_zero(&0i32));
    assert!(!Scal::is_zero(&3i32));
}

#[test]
fn scalar_vectors_of_i64() {
    let a = Vec2::new(1i64, 2i64);
    let b = Vec2::new(3i64, 4i64);
    assert_eq!(a + b, Vec2::new(4i64, 6i64));
    assert_eq!(a * 3i64, Vec2::new(3i64, 6i64));
}

#[test]
fn dimension_tags() {
    assert_eq!(N0::VALUE, 0);
    assert_eq!(N1::VALUE, 1);
    assert_eq!(N2::VALUE, 2);
    assert_eq!(N3::VALUE, 3);
    assert_eq!(N4::VALUE, 4);
    assert_eq!(<N2 as StaticArray<i32>>::filled(5), [5, 5]);
    assert_eq!(<N4 as StaticArray<i32>>::filled(1), [1, 1, 1, 1]);
}

#[test]
fn dimension_generic_container() {
    let a = vecalg::vec::vec::<i32, N2>::new();
    assert_eq!(a.v, [0, 0]);
    let b = vecalg::vec::vec::<i64, N3>::new();
    assert_eq!(b.v, [0, 0, 0]);
}
