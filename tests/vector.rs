use linalg::{vec1, vec2, vec3, vec4};

#[test]
fn vectors_are_built_and_indexed_in_declared_order() {
    let v = vec4::new(1i64, 2, 3, 4);
    assert_eq!(v.len(), 4);
    assert_eq!(*v.index(0), 1);
    assert_eq!(*v.index(1), 2);
    assert_eq!(*v.index(2), 3);
    assert_eq!(*v.index(3), 4);
    let u = vec3::new(7i64, 8, 9);
    assert_eq!(u.len(), 3);
    assert_eq!(*u.index(2), 9);
    let w = vec2::new(5i64, 6);
    assert_eq!(w.len(), 2);
    assert_eq!(*w.index(1), 6);
    let s = vec1::new(11i64);
    assert_eq!(s.len(), 1);
    assert_eq!(*s.index(0), 11);
}

#[test]
fn vectors_default_to_zero() {
    assert_eq!(vec4::<i64>::default(), vec4::new(0, 0, 0, 0));
    assert_eq!(vec4::<i64>::zero(), vec4::new(0, 0, 0, 0));
    assert_eq!(vec3::<i64>::zero(), vec3::new(0, 0, 0));
    assert_eq!(vec2::<i64>::zero(), vec2::new(0, 0));
    assert_eq!(vec1::<i64>::zero(), vec1::new(0));
}

#[test]
fn splat_repeats_one_component() {
    let v = vec4::new(1i64, 2, 3, 4);
    assert_eq!(v.splat_x(), vec4::new(1, 1, 1, 1));
    assert_eq!(v.splat_y(), vec4::new(2, 2, 2, 2));
    assert_eq!(v.splat_z(), vec4::new(3, 3, 3, 3));
    assert_eq!(v.splat_w(), vec4::new(4, 4, 4, 4));
    let u = vec3::new(5i64, 6, 7);
    assert_eq!(u.splat_x(), vec3::new(5, 5, 5));
    assert_eq!(u.splat_y(), vec3::new(6, 6, 6));
    assert_eq!(u.splat_z(), vec3::new(7, 7, 7));
    let w = vec2::new(8i64, 9);
    assert_eq!(w.splat_x(), vec2::new(8, 8));
    assert_eq!(w.splat_y(), vec2::new(9, 9));
    assert_eq!(vec1::new(3i64).splat_x(), vec1::new(3));
}

#[test]
fn arithmetic_is_component_wise() {
    let a = vec4::new(10i64, -20, 30, -40);
    let b = vec4::new(3i64, 4, -5, 6);
    assert_eq!(a + b, vec4::new(13, -16, 25, -34));
    assert_eq!(a - b, vec4::new(7, -24, 35, -46));
    assert_eq!(a * b, vec4::new(30, -80, -150, -240));
    assert_eq!(a / b, vec4::new(3, -5, -6, -6));
    assert_eq!(a % b, vec4::new(1, 0, 0, -4));
    assert_eq!(-a, vec4::new(-10, 20, -30, 40));
}

#[test]
fn division_rounds_toward_zero() {
    let a = vec2::new(-7i64, 7);
    assert_eq!(a / vec2::new(2, -2), vec2::new(-3, -3));
    assert_eq!(a % vec2::new(2, -2), vec2::new(-1, 1));
    assert_eq!(vec1::new(-7i64) / 2, vec1::new(-3));
    assert_eq!(vec1::new(-7i64) % -2, vec1::new(-1));
}

#[test]
fn scalar_operands_broadcast_on_either_side() {
    let v = vec3::new(1i64, 2, 3);
    assert_eq!(v + 10, vec3::new(11, 12, 13));
    assert_eq!(v - 1, vec3::new(0, 1, 2));
    assert_eq!(v * 3, vec3::new(3, 6, 9));
    assert_eq!(v / 2, vec3::new(0, 1, 1));
    assert_eq!(v % 2, vec3::new(1, 0, 1));
    assert_eq!(10 - v, vec3::new(9, 8, 7));
    assert_eq!(12 / v, vec3::new(12, 6, 4));
    assert_eq!(7 % v, vec3::new(0, 1, 1));
    assert_eq!(2 * v, vec3::new(2, 4, 6));
    assert_eq!(5 + v, vec3::new(6, 7, 8));
}

#[test]
fn one_component_vectors_broadcast_on_either_side() {
    let v = vec4::new(4i64, 8, 12, 16);
    let s = vec1::new(4i64);
    assert_eq!(v + s, vec4::new(8, 12, 16, 20));
    assert_eq!(v - s, vec4::new(0, 4, 8, 12));
    assert_eq!(v * s, vec4::new(16, 32, 48, 64));
    assert_eq!(v / s, vec4::new(1, 2, 3, 4));
    assert_eq!(v % vec1::new(5i64), vec4::new(4, 3, 2, 1));
    assert_eq!(s - v, vec4::new(0, -4, -8, -12));
    assert_eq!(vec1::new(48i64) / v, vec4::new(12, 6, 4, 3));
    let u = vec2::new(3i64, 5);
    assert_eq!(u + vec1::new(1i64), vec2::new(4, 6));
    assert_eq!(vec1::new(1i64) - u, vec2::new(-2, -4));
}

#[test]
fn broadcast_matches_the_filled_vector() {
    let v = vec4::new(9i64, -3, 14, 0);
    let s = 4i64;
    let f = vec4::new(s, s, s, s);
    assert_eq!(v + s, v + f);
    assert_eq!(v - s, v - f);
    assert_eq!(v * s, v * f);
    assert_eq!(v / s, v / f);
    assert_eq!(v % s, v % f);
    assert_eq!(s - v, f - v);
    assert_eq!(v + vec1::new(s), v + f);
    let u = vec3::new(5i64, 6, 7);
    let g = vec3::new(2i64, 2, 2);
    assert_eq!(u / 2, u / g);
    assert_eq!(2 - u, g - u);
    let w = vec2::new(-8i64, 8);
    assert_eq!(w % 3, w % vec2::new(3, 3));
}

#[test]
fn bitwise_and_shift_operators() {
    let a = vec3::new(0b1100i64, 0b1010, -1);
    let b = vec3::new(0b1010i64, 0b0110, 5);
    assert_eq!(a & b, vec3::new(0b1000, 0b0010, 5));
    assert_eq!(a | b, vec3::new(0b1110, 0b1110, -1));
    assert_eq!(a ^ b, vec3::new(0b0110, 0b1100, -6));
    assert_eq!(!vec2::new(0i64, -1), vec2::new(-1, 0));
    assert_eq!(vec2::new(1i64, 3) << 2u32, vec2::new(4, 12));
    assert_eq!(vec2::new(16i64, -16) >> 2u32, vec2::new(4, -4));
    assert_eq!(vec2::new(1i64, 1) << vec2::new(1u32, 3), vec2::new(2, 8));
    assert_eq!(1i64 << vec4::new(0u32, 1, 2, 3), vec4::new(1, 2, 4, 8));
    assert_eq!(vec4::new(1i64, 2, 4, 8) & 6, vec4::new(0, 2, 4, 0));
}

#[test]
fn compound_assignment_updates_in_place() {
    let mut v = vec3::new(1i64, 2, 3);
    v.add_assign(vec3::new(1i64, 1, 1));
    assert_eq!(v, vec3::new(2, 3, 4));
    v.mul_assign(3i64);
    assert_eq!(v, vec3::new(6, 9, 12));
    v.sub_assign(vec1::new(6i64));
    assert_eq!(v, vec3::new(0, 3, 6));
    v.div_assign(3i64);
    assert_eq!(v, vec3::new(0, 1, 2));
    v.rem_assign(vec3::new(5i64, 5, 2));
    assert_eq!(v, vec3::new(0, 1, 0));
    v.bitor_assign(6i64);
    assert_eq!(v, vec3::new(6, 7, 6));
    v.bitand_assign(vec3::new(2i64, 3, 4));
    assert_eq!(v, vec3::new(2, 3, 4));
    v.bitxor_assign(1i64);
    assert_eq!(v, vec3::new(3, 2, 5));
    v.shl_assign(1u32);
    assert_eq!(v, vec3::new(6, 4, 10));
    v.shr_assign(vec3::new(1u32, 2, 1));
    assert_eq!(v, vec3::new(3, 1, 5));
}

#[test]
fn dot_products() {
    assert_eq!(vec2::new(1i64, 2).dot(vec2::new(3, 4)), 11);
    assert_eq!(vec3::new(1i64, 2, 3).dot(vec3::new(4, -5, 6)), 12);
    assert_eq!(vec4::new(1i64, 2, 3, 4).dot(vec4::new(5, 6, 7, 8)), 70);
}

#[test]
fn dot_product_is_symmetric() {
    let a = vec4::new(3i64, -1, 4, -1);
    let b = vec4::new(5i64, 9, -2, 6);
    assert_eq!(a.dot(b), b.dot(a));
    let c = vec3::new(2i64, 7, -1);
    let d = vec3::new(-8i64, 2, 8);
    assert_eq!(c.dot(d), d.dot(c));
    let e = vec2::new(2i64, 7);
    let f = vec2::new(-3i64, 4);
    assert_eq!(e.dot(f), f.dot(e));
}

#[test]
fn components_are_written_through_index_mut() {
    let mut v = vec3::new(1i64, 2, 3);
    *v.index_mut(1) = 20;
    assert_eq!(v, vec3::new(1, 20, 3));
    let mut w = vec4::new(1i64, 2, 3, 4);
    *w.index_mut(3) += 6;
    assert_eq!(w, vec4::new(1, 2, 3, 10));
    let mut s = vec1::new(0i64);
    *s.index_mut(0) = -5;
    assert_eq!(s, vec1::new(-5));
}
