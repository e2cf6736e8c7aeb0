use linalg::{mat2, mat3, mat4, vec2, vec3, vec4};

fn diag4(a: i64, b: i64, c: i64, d: i64) -> mat4<i64> {
    mat4::new(
        vec4::new(a, 0, 0, 0),
        vec4::new(0, b, 0, 0),
        vec4::new(0, 0, c, 0),
        vec4::new(0, 0, 0, d),
    )
}

#[test]
fn matrices_hold_columns_in_order() {
    let m = mat2::new([vec2::new(1i64, 2), vec2::new(3, 4)]);
    assert_eq!(m.len(), 2);
    assert_eq!(*m.index(1), vec2::new(3, 4));
    assert_eq!(*m.index(0).index(1), 2);
    assert_eq!(m.as_slice(), &[vec2::new(1, 2), vec2::new(3, 4)][..]);
    let n = mat3::new([vec3::new(1i64, 2, 3), vec3::new(4, 5, 6), vec3::new(7, 8, 9)]);
    assert_eq!(n.len(), 3);
    assert_eq!(*n.index(2).index(0), 7);
    let p = diag4(1, 2, 3, 4);
    assert_eq!(p.len(), 4);
    assert_eq!(p.as_slice().len(), 4);
    assert_eq!(*p.index(3).index(3), 4);
}

#[test]
fn identity_and_default() {
    assert_eq!(mat2::<i64>::identity(), mat2::new([vec2::new(1, 0), vec2::new(0, 1)]));
    assert_eq!(
        mat3::<i64>::identity(),
        mat3::new([vec3::new(1, 0, 0), vec3::new(0, 1, 0), vec3::new(0, 0, 1)])
    );
    assert_eq!(mat4::<i64>::identity(), diag4(1, 1, 1, 1));
    assert_eq!(mat2::<i64>::default(), mat2::identity());
    assert_eq!(mat3::<i64>::default(), mat3::identity());
    assert_eq!(mat4::<i64>::default(), mat4::identity());
}

#[test]
fn identity_is_neutral_for_products() {
    let a = mat2::new([vec2::new(1i64, -2), vec2::new(3, 4)]);
    assert_eq!(a * mat2::identity(), a);
    assert_eq!(mat2::identity() * a, a);
    let b = mat3::new([vec3::new(1i64, 2, 3), vec3::new(-4, 5, 6), vec3::new(7, 8, -9)]);
    assert_eq!(b * mat3::identity(), b);
    assert_eq!(mat3::identity() * b, b);
    let c = mat4::new(
        vec4::new(1i64, 2, 3, 4),
        vec4::new(5, 6, 7, 8),
        vec4::new(-9, 10, 11, 12),
        vec4::new(13, 14, -15, 16),
    );
    assert_eq!(c * mat4::identity(), c);
    assert_eq!(mat4::identity() * c, c);
}

#[test]
fn matrix_acts_on_column_and_row_vectors() {
    let a = mat2::new([vec2::new(1i64, 2), vec2::new(3, 4)]);
    assert_eq!(a * vec2::new(5, 6), vec2::new(23, 34));
    assert_eq!(vec2::new(5i64, 6) * a, vec2::new(17, 39));
    let b = mat3::new([vec3::new(1i64, 0, 2), vec3::new(0, 1, 0), vec3::new(3, 0, 1)]);
    assert_eq!(b * vec3::new(1, 2, 3), vec3::new(10, 2, 5));
    assert_eq!(vec3::new(1i64, 2, 3) * b, vec3::new(7, 2, 6));
    let c = diag4(2, 3, 4, 5);
    assert_eq!(c * vec4::new(1, 1, 1, 1), vec4::new(2, 3, 4, 5));
    assert_eq!(vec4::new(1i64, 2, 3, 4) * c, vec4::new(2, 6, 12, 20));
}

#[test]
fn product_of_two_by_two_matrices() {
    let a = mat2::new([vec2::new(1i64, 2), vec2::new(3, 4)]);
    let b = mat2::new([vec2::new(5i64, 6), vec2::new(7, 8)]);
    assert_eq!(a * b, mat2::new([vec2::new(23, 34), vec2::new(31, 46)]));
}

#[test]
fn product_of_scale_matrices() {
    assert_eq!(diag4(2, 3, 4, 1) * diag4(5, 1, 1, 1), diag4(10, 3, 4, 1));
}

#[test]
fn product_acts_as_composition() {
    let a = mat3::new([vec3::new(1i64, 2, 3), vec3::new(-4, 5, 6), vec3::new(7, 8, -9)]);
    let b = mat3::new([vec3::new(2i64, 0, 1), vec3::new(1, 3, 0), vec3::new(0, -1, 2)]);
    let v = vec3::new(3i64, -2, 5);
    assert_eq!((a * b) * v, a * (b * v));
    let c = mat4::new(
        vec4::new(1i64, 2, 3, 4),
        vec4::new(5, 6, 7, 8),
        vec4::new(-9, 10, 11, 12),
        vec4::new(13, 14, -15, 16),
    );
    let d = diag4(2, -3, 4, 1);
    let w = vec4::new(1i64, -1, 2, -2);
    assert_eq!((c * d) * w, c * (d * w));
    let e = mat2::new([vec2::new(1i64, 2), vec2::new(3, 4)]);
    let f = mat2::new([vec2::new(-5i64, 6), vec2::new(7, 8)]);
    let u = vec2::new(9i64, -1);
    assert_eq!((e * f) * u, e * (f * u));
}

#[test]
fn inverse_of_unimodular_matrices_is_exact() {
    let a = mat2::new([vec2::new(2i64, 1), vec2::new(1, 1)]);
    assert_eq!(a.inverse(), mat2::new([vec2::new(1, -1), vec2::new(-1, 2)]));
    assert_eq!(a * a.inverse(), mat2::identity());
    let b = mat3::new([vec3::new(1i64, 0, 0), vec3::new(2, 1, 0), vec3::new(3, 4, 1)]);
    assert_eq!(b.inverse(), mat3::new([vec3::new(1, 0, 0), vec3::new(-2, 1, 0), vec3::new(5, -4, 1)]));
    assert_eq!(b * b.inverse(), mat3::identity());
    let c = mat4::new(
        vec4::new(1i64, 0, 0, 0),
        vec4::new(2, 1, 0, 0),
        vec4::new(0, 3, 1, 0),
        vec4::new(4, 0, 5, 1),
    );
    assert_eq!(c * c.inverse(), mat4::identity());
    assert_eq!(c.inverse() * c, mat4::identity());
}

#[test]
fn inverse_with_negative_determinant() {
    let a = mat2::new([vec2::new(0i64, 1), vec2::new(1, 0)]);
    assert_eq!(a.inverse(), a);
    let b = diag4(1, -1, 1, 1);
    assert_eq!(b.inverse(), b);
    assert_eq!(b * b.inverse(), mat4::identity());
}

#[test]
fn integer_inverse_rounds_the_reciprocal_of_the_determinant() {
    let a = mat2::new([vec2::new(2i64, 0), vec2::new(0, 2)]);
    assert_eq!(a.inverse(), mat2::new([vec2::new(0, 0), vec2::new(0, 0)]));
    let b = mat3::new([vec3::new(3i64, 0, 0), vec3::new(0, 1, 0), vec3::new(0, 0, 1)]);
    assert_eq!(b.inverse(), mat3::new([vec3::new(0, 0, 0), vec3::new(0, 0, 0), vec3::new(0, 0, 0)]));
}

#[test]
fn division_by_a_matrix_uses_its_inverse() {
    let m = mat2::new([vec2::new(2i64, 1), vec2::new(1, 1)]);
    let v = vec2::new(3i64, 4);
    assert_eq!(m / v, m.inverse() * v);
    assert_eq!(m / v, vec2::new(-1, 5));
    assert_eq!(v / m, v * m.inverse());
    assert_eq!(v / m, vec2::new(-1, 5));
    let a = mat2::new([vec2::new(1i64, 2), vec2::new(3, 4)]);
    assert_eq!(a / m, a * m.inverse());
    assert_eq!((a / m) * m, a);
    let b = mat3::new([vec3::new(1i64, 0, 0), vec3::new(2, 1, 0), vec3::new(3, 4, 1)]);
    let w = vec3::new(1i64, 1, 1);
    assert_eq!(b / w, b.inverse() * w);
    assert_eq!(w / b, w * b.inverse());
    let c = diag4(1, -1, 1, -1);
    let u = vec4::new(1i64, 2, 3, 4);
    assert_eq!(c / u, vec4::new(1, -2, 3, -4));
    assert_eq!(u / c, vec4::new(1, -2, 3, -4));
    assert_eq!(c / c, mat4::identity());
}

#[test]
fn ortho_of_the_unit_box() {
    let m = mat4::<i64>::ortho(-1, 1, -1, 1);
    assert_eq!(m, diag4(1, 1, -1, 1));
}

#[test]
fn ortho_scales_and_translates() {
    let m = mat4::<i64>::ortho(0, 2, 0, 1);
    assert_eq!(
        m,
        mat4::new(
            vec4::new(1, 0, 0, 0),
            vec4::new(0, 2, 0, 0),
            vec4::new(0, 0, -1, 0),
            vec4::new(-1, -1, 0, 1),
        )
    );
}

#[test]
fn component_wise_matrix_arithmetic() {
    let a = mat2::new([vec2::new(1i64, 2), vec2::new(3, 4)]);
    let b = mat2::new([vec2::new(5i64, 6), vec2::new(7, 8)]);
    assert_eq!(a + b, mat2::new([vec2::new(6, 8), vec2::new(10, 12)]));
    assert_eq!(b - a, mat2::new([vec2::new(4, 4), vec2::new(4, 4)]));
    assert_eq!(-a, mat2::new([vec2::new(-1, -2), vec2::new(-3, -4)]));
    assert_eq!(a + 1, mat2::new([vec2::new(2, 3), vec2::new(4, 5)]));
    assert_eq!(10 - a, mat2::new([vec2::new(9, 8), vec2::new(7, 6)]));
    assert_eq!(a * 2, mat2::new([vec2::new(2, 4), vec2::new(6, 8)]));
    assert_eq!(3 * a, mat2::new([vec2::new(3, 6), vec2::new(9, 12)]));
    assert_eq!(b / 2, mat2::new([vec2::new(2, 3), vec2::new(3, 4)]));
    assert_eq!(12 / a, mat2::new([vec2::new(12, 6), vec2::new(4, 3)]));
    let c = diag4(2, 4, 6, 8);
    assert_eq!(c / 2, diag4(1, 2, 3, 4));
    assert_eq!(-c, diag4(-2, -4, -6, -8));
    let d = mat3::identity();
    assert_eq!(d + d, mat3::new([vec3::new(2, 0, 0), vec3::new(0, 2, 0), vec3::new(0, 0, 2)]));
}

#[test]
fn matrix_compound_assignment() {
    let mut a = mat2::new([vec2::new(1i64, 2), vec2::new(3, 4)]);
    a.add_assign(mat2::new([vec2::new(1i64, 1), vec2::new(1, 1)]));
    assert_eq!(a, mat2::new([vec2::new(2, 3), vec2::new(4, 5)]));
    a.sub_assign(1i64);
    assert_eq!(a, mat2::new([vec2::new(1, 2), vec2::new(3, 4)]));
    a.mul_assign(mat2::new([vec2::new(5i64, 6), vec2::new(7, 8)]));
    assert_eq!(a, mat2::new([vec2::new(23, 34), vec2::new(31, 46)]));
    a.mul_assign(2i64);
    assert_eq!(a, mat2::new([vec2::new(46, 68), vec2::new(62, 92)]));
    a.div_assign(2i64);
    assert_eq!(a, mat2::new([vec2::new(23, 34), vec2::new(31, 46)]));
    let m = mat2::new([vec2::new(2i64, 1), vec2::new(1, 1)]);
    let mut b = m;
    b.div_assign(m);
    assert_eq!(b, mat2::identity());
    let mut c = diag4(1, 2, 3, 4);
    c.mul_assign(diag4(2, 2, 2, 2));
    assert_eq!(c, diag4(2, 4, 6, 8));
}

#[test]
fn columns_are_written_through_index_mut() {
    let mut m = mat2::new([vec2::new(1i64, 2), vec2::new(3, 4)]);
    *m.index_mut(0) = vec2::new(9, 8);
    *m.index_mut(1).index_mut(1) = 7;
    assert_eq!(m, mat2::new([vec2::new(9, 8), vec2::new(3, 7)]));
    let mut n = mat4::<i64>::identity();
    *n.index_mut(3).index_mut(0) = 5;
    assert_eq!(*n.index(3), vec4::new(5, 0, 0, 1));
    let mut p = mat3::<i64>::identity();
    *p.index_mut(2) = vec3::new(1, 1, 1);
    assert_eq!(*p.index(2), vec3::new(1, 1, 1));
}
