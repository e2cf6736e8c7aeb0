//! Inversion of square matrices by the closed-form adjugate over the
//! determinant, and division by a matrix defined through it.
use vstd::prelude::*;

use crate::algebra::{
    identity, lemma_sum2, lemma_sum3, lemma_sum4, mat_mul, mat_scale, mat_vec, row, square, vec_mat,
};
use crate::func_geometric::{dot2_fits, dot3_fits, dot4_fits};
use crate::scalar::{div_i64, fits, quot};
use crate::type_mat2x2::mat2;
use crate::type_mat3x3::mat3;
use crate::type_mat4x4::{fold4_fits, mat4};
use crate::type_vec2::vec2;
use crate::type_vec3::vec3;
use crate::type_vec4::vec4;

verus! {

/// `+1` at even positions, `-1` at odd ones.
pub open spec fn sign(k: int) -> int {
    if k % 2 == 0 {
        1
    } else {
        -1
    }
}

/// The `i`-th of the indices `0, 1, 2, ...` once `j` is left out.
pub open spec fn skip(j: int, i: int) -> int {
    if i < j {
        i
    } else {
        i + 1
    }
}

/// Determinant of the two-by-two submatrix on columns `c0`, `c1` and rows
/// `t0`, `t1`.
pub open spec fn det2_at(m: Seq<Seq<int>>, c0: int, c1: int, t0: int, t1: int) -> int {
    m[c0][t0] * m[c1][t1] - m[c1][t0] * m[c0][t1]
}

/// Determinant of the three-by-three submatrix on columns `c0`, `c1`, `c2`
/// and rows `t0`, `t1`, `t2`, expanded along its first column.
pub open spec fn det3_at(
    m: Seq<Seq<int>>,
    c0: int,
    c1: int,
    c2: int,
    t0: int,
    t1: int,
    t2: int,
) -> int {
    m[c0][t0] * det2_at(m, c1, c2, t1, t2) - m[c0][t1] * det2_at(m, c1, c2, t0, t2) + m[c0][t2]
        * det2_at(m, c1, c2, t0, t1)
}

/// Determinant of order two.
pub open spec fn det2(m: Seq<Seq<int>>) -> int {
    det2_at(m, 0, 1, 0, 1)
}

/// Determinant of order three, expanded along the first column.
pub open spec fn det3(m: Seq<Seq<int>>) -> int {
    det3_at(m, 0, 1, 2, 0, 1, 2)
}

/// Determinant of order four, expanded along the first column.
pub open spec fn det4(m: Seq<Seq<int>>) -> int {
    m[0][0] * det3_at(m, 1, 2, 3, 1, 2, 3) - m[0][1] * det3_at(m, 1, 2, 3, 0, 2, 3) + m[0][2]
        * det3_at(m, 1, 2, 3, 0, 1, 3) - m[0][3] * det3_at(m, 1, 2, 3, 0, 1, 2)
}

/// The adjugate of order two: entry `[c][r]` is the cofactor of row `c`,
/// column `r`.
pub open spec fn adjugate2(m: Seq<Seq<int>>) -> Seq<Seq<int>> {
    seq![seq![m[1][1], -m[0][1]], seq![-m[1][0], m[0][0]]]
}

/// The adjugate of order three: entry `[c][r]` is the cofactor of row `c`,
/// column `r`, the signed determinant of what is left without them.
pub open spec fn adjugate3(m: Seq<Seq<int>>) -> Seq<Seq<int>> {
    Seq::new(
        3,
        |c: int|
            Seq::new(
                3,
                |r: int| sign(r + c) * det2_at(m, skip(r, 0), skip(r, 1), skip(c, 0), skip(c, 1)),
            ),
    )
}

/// The adjugate of order four: entry `[c][r]` is the cofactor of row `c`,
/// column `r`, the signed determinant of what is left without them.
pub open spec fn adjugate4(m: Seq<Seq<int>>) -> Seq<Seq<int>> {
    Seq::new(
        4,
        |c: int|
            Seq::new(
                4,
                |r: int|
                    sign(r + c) * det3_at(
                        m,
                        skip(r, 0),
                        skip(r, 1),
                        skip(r, 2),
                        skip(c, 0),
                        skip(c, 1),
                        skip(c, 2),
                    ),
            ),
    )
}

/// The inverse of order two in `i64` arithmetic: the adjugate times
/// `1 / det`, rounded toward zero.
pub open spec fn inverse2(m: Seq<Seq<int>>) -> Seq<Seq<int>> {
    mat_scale(adjugate2(m), quot(1, det2(m)))
}

/// The inverse of order three in `i64` arithmetic: the adjugate times
/// `1 / det`, rounded toward zero.
pub open spec fn inverse3(m: Seq<Seq<int>>) -> Seq<Seq<int>> {
    mat_scale(adjugate3(m), quot(1, det3(m)))
}

/// The inverse of order four in `i64` arithmetic: the adjugate times
/// `1 / det`, rounded toward zero.
pub open spec fn inverse4(m: Seq<Seq<int>>) -> Seq<Seq<int>> {
    mat_scale(adjugate4(m), quot(1, det4(m)))
}

/// `a*b - c*d` with both products and the difference in range.
pub open spec fn cross_fits(a: int, b: int, c: int, d: int) -> bool {
    fits(a * b) && fits(c * d) && fits(a * b - c * d)
}

/// Every entry of the adjugate, multiplied by `k`, stays in range.
pub open spec fn scaled_fits(adj: Seq<Seq<int>>, k: int, n: int) -> bool {
    forall|c: int, r: int| 0 <= c < n && 0 <= r < n ==> fits((#[trigger] adj[c][r]) * k)
}

/// The inverse of order two can be computed in `i64`: the determinant is not
/// zero, and no product, difference or negation on the way leaves `i64`.
pub open spec fn inverse2_ok(m: Seq<Seq<int>>) -> bool {
    &&& cross_fits(m[0][0], m[1][1], m[1][0], m[0][1])
    &&& det2(m) != 0
    &&& fits(-m[0][1])
    &&& fits(-m[1][0])
    &&& scaled_fits(adjugate2(m), quot(1, det2(m)), 2)
}

/// The inverse of order three can be computed in `i64`: the determinant is
/// not zero, and no product, difference or negation on the way leaves `i64`.
pub open spec fn inverse3_ok(m: Seq<Seq<int>>) -> bool {
    &&& cross_fits(m[1][1], m[2][2], m[2][1], m[1][2])
    &&& cross_fits(m[0][1], m[2][2], m[2][1], m[0][2])
    &&& fits(-(m[0][1] * m[2][2] - m[2][1] * m[0][2]))
    &&& cross_fits(m[0][1], m[1][2], m[1][1], m[0][2])
    &&& cross_fits(m[1][0], m[2][2], m[2][0], m[1][2])
    &&& fits(-(m[1][0] * m[2][2] - m[2][0] * m[1][2]))
    &&& cross_fits(m[0][0], m[2][2], m[2][0], m[0][2])
    &&& cross_fits(m[0][0], m[1][2], m[1][0], m[0][2])
    &&& fits(-(m[0][0] * m[1][2] - m[1][0] * m[0][2]))
    &&& cross_fits(m[1][0], m[2][1], m[2][0], m[1][1])
    &&& cross_fits(m[0][0], m[2][1], m[2][0], m[0][1])
    &&& fits(-(m[0][0] * m[2][1] - m[2][0] * m[0][1]))
    &&& cross_fits(m[0][0], m[1][1], m[1][0], m[0][1])
    &&& fits(m[0][0] * (m[1][1] * m[2][2] - m[2][1] * m[1][2]))
    &&& fits(m[1][0] * (m[0][1] * m[2][2] - m[2][1] * m[0][2]))
    &&& fits(m[2][0] * (m[0][1] * m[1][2] - m[1][1] * m[0][2]))
    &&& fits(
        m[0][0] * (m[1][1] * m[2][2] - m[2][1] * m[1][2]) - m[1][0] * (m[0][1] * m[2][2] - m[2][1]
            * m[0][2]),
    )
    &&& fits(det3(m))
    &&& det3(m) != 0
    &&& scaled_fits(adjugate3(m), quot(1, det3(m)), 3)
}

/// The inverse of order four can be computed in `i64`: the determinant is not
/// zero, and no product, sum, difference or negation on the way leaves `i64`.
pub open spec fn inverse4_ok(m: Seq<Seq<int>>) -> bool {
    &&& cross_fits(m[2][0], m[3][1], m[3][0], m[2][1])
    &&& cross_fits(m[2][0], m[3][2], m[3][0], m[2][2])
    &&& cross_fits(m[2][0], m[3][3], m[3][0], m[2][3])
    &&& cross_fits(m[2][1], m[3][2], m[3][1], m[2][2])
    &&& cross_fits(m[2][1], m[3][3], m[3][1], m[2][3])
    &&& cross_fits(m[2][2], m[3][3], m[3][2], m[2][3])
    &&& cross_fits(m[1][0], m[3][1], m[3][0], m[1][1])
    &&& cross_fits(m[1][0], m[3][2], m[3][0], m[1][2])
    &&& cross_fits(m[1][0], m[3][3], m[3][0], m[1][3])
    &&& cross_fits(m[1][1], m[3][2], m[3][1], m[1][2])
    &&& cross_fits(m[1][1], m[3][3], m[3][1], m[1][3])
    &&& cross_fits(m[1][2], m[3][3], m[3][2], m[1][3])
    &&& cross_fits(m[1][0], m[2][1], m[2][0], m[1][1])
    &&& cross_fits(m[1][0], m[2][2], m[2][0], m[1][2])
    &&& cross_fits(m[1][0], m[2][3], m[2][0], m[1][3])
    &&& cross_fits(m[1][1], m[2][2], m[2][1], m[1][2])
    &&& cross_fits(m[1][1], m[2][3], m[2][1], m[1][3])
    &&& cross_fits(m[1][2], m[2][3], m[2][2], m[1][3])
    &&& fits(m[1][1] * det2_at(m, 2, 3, 2, 3))
    &&& fits(m[1][2] * det2_at(m, 2, 3, 1, 3))
    &&& fits(m[1][3] * det2_at(m, 2, 3, 1, 2))
    &&& fits(m[1][1] * det2_at(m, 2, 3, 2, 3) - m[1][2] * det2_at(m, 2, 3, 1, 3))
    &&& fits(m[1][1] * det2_at(m, 2, 3, 2, 3) - m[1][2] * det2_at(m, 2, 3, 1, 3) + m[1][3] * det2_at(m, 2, 3, 1, 2))
    &&& fits(m[0][1] * det2_at(m, 2, 3, 2, 3))
    &&& fits(m[0][2] * det2_at(m, 2, 3, 1, 3))
    &&& fits(m[0][3] * det2_at(m, 2, 3, 1, 2))
    &&& fits(m[0][1] * det2_at(m, 2, 3, 2, 3) - m[0][2] * det2_at(m, 2, 3, 1, 3))
    &&& fits(m[0][1] * det2_at(m, 2, 3, 2, 3) - m[0][2] * det2_at(m, 2, 3, 1, 3) + m[0][3] * det2_at(m, 2, 3, 1, 2))
    &&& fits(-(m[0][1] * det2_at(m, 2, 3, 2, 3) - m[0][2] * det2_at(m, 2, 3, 1, 3) + m[0][3] * det2_at(m, 2, 3, 1, 2)))
    &&& fits(m[0][1] * det2_at(m, 1, 3, 2, 3))
    &&& fits(m[0][2] * det2_at(m, 1, 3, 1, 3))
    &&& fits(m[0][3] * det2_at(m, 1, 3, 1, 2))
    &&& fits(m[0][1] * det2_at(m, 1, 3, 2, 3) - m[0][2] * det2_at(m, 1, 3, 1, 3))
    &&& fits(m[0][1] * det2_at(m, 1, 3, 2, 3) - m[0][2] * det2_at(m, 1, 3, 1, 3) + m[0][3] * det2_at(m, 1, 3, 1, 2))
    &&& fits(m[0][1] * det2_at(m, 1, 2, 2, 3))
    &&& fits(m[0][2] * det2_at(m, 1, 2, 1, 3))
    &&& fits(m[0][3] * det2_at(m, 1, 2, 1, 2))
    &&& fits(m[0][1] * det2_at(m, 1, 2, 2, 3) - m[0][2] * det2_at(m, 1, 2, 1, 3))
    &&& fits(m[0][1] * det2_at(m, 1, 2, 2, 3) - m[0][2] * det2_at(m, 1, 2, 1, 3) + m[0][3] * det2_at(m, 1, 2, 1, 2))
    &&& fits(-(m[0][1] * det2_at(m, 1, 2, 2, 3) - m[0][2] * det2_at(m, 1, 2, 1, 3) + m[0][3] * det2_at(m, 1, 2, 1, 2)))
    &&& fits(m[1][0] * det2_at(m, 2, 3, 2, 3))
    &&& fits(m[1][2] * det2_at(m, 2, 3, 0, 3))
    &&& fits(m[1][3] * det2_at(m, 2, 3, 0, 2))
    &&& fits(m[1][0] * det2_at(m, 2, 3, 2, 3) - m[1][2] * det2_at(m, 2, 3, 0, 3))
    &&& fits(m[1][0] * det2_at(m, 2, 3, 2, 3) - m[1][2] * det2_at(m, 2, 3, 0, 3) + m[1][3] * det2_at(m, 2, 3, 0, 2))
    &&& fits(-(m[1][0] * det2_at(m, 2, 3, 2, 3) - m[1][2] * det2_at(m, 2, 3, 0, 3) + m[1][3] * det2_at(m, 2, 3, 0, 2)))
    &&& fits(m[0][0] * det2_at(m, 2, 3, 2, 3))
    &&& fits(m[0][2] * det2_at(m, 2, 3, 0, 3))
    &&& fits(m[0][3] * det2_at(m, 2, 3, 0, 2))
    &&& fits(m[0][0] * det2_at(m, 2, 3, 2, 3) - m[0][2] * det2_at(m, 2, 3, 0, 3))
    &&& fits(m[0][0] * det2_at(m, 2, 3, 2, 3) - m[0][2] * det2_at(m, 2, 3, 0, 3) + m[0][3] * det2_at(m, 2, 3, 0, 2))
    &&& fits(m[0][0] * det2_at(m, 1, 3, 2, 3))
    &&& fits(m[0][2] * det2_at(m, 1, 3, 0, 3))
    &&& fits(m[0][3] * det2_at(m, 1, 3, 0, 2))
    &&& fits(m[0][0] * det2_at(m, 1, 3, 2, 3) - m[0][2] * det2_at(m, 1, 3, 0, 3))
    &&& fits(m[0][0] * det2_at(m, 1, 3, 2, 3) - m[0][2] * det2_at(m, 1, 3, 0, 3) + m[0][3] * det2_at(m, 1, 3, 0, 2))
    &&& fits(-(m[0][0] * det2_at(m, 1, 3, 2, 3) - m[0][2] * det2_at(m, 1, 3, 0, 3) + m[0][3] * det2_at(m, 1, 3, 0, 2)))
    &&& fits(m[0][0] * det2_at(m, 1, 2, 2, 3))
    &&& fits(m[0][2] * det2_at(m, 1, 2, 0, 3))
    &&& fits(m[0][3] * det2_at(m, 1, 2, 0, 2))
    &&& fits(m[0][0] * det2_at(m, 1, 2, 2, 3) - m[0][2] * det2_at(m, 1, 2, 0, 3))
    &&& fits(m[0][0] * det2_at(m, 1, 2, 2, 3) - m[0][2] * det2_at(m, 1, 2, 0, 3) + m[0][3] * det2_at(m, 1, 2, 0, 2))
    &&& fits(m[1][0] * det2_at(m, 2, 3, 1, 3))
    &&& fits(m[1][1] * det2_at(m, 2, 3, 0, 3))
    &&& fits(m[1][3] * det2_at(m, 2, 3, 0, 1))
    &&& fits(m[1][0] * det2_at(m, 2, 3, 1, 3) - m[1][1] * det2_at(m, 2, 3, 0, 3))
    &&& fits(m[1][0] * det2_at(m, 2, 3, 1, 3) - m[1][1] * det2_at(m, 2, 3, 0, 3) + m[1][3] * det2_at(m, 2, 3, 0, 1))
    &&& fits(m[0][0] * det2_at(m, 2, 3, 1, 3))
    &&& fits(m[0][1] * det2_at(m, 2, 3, 0, 3))
    &&& fits(m[0][3] * det2_at(m, 2, 3, 0, 1))
    &&& fits(m[0][0] * det2_at(m, 2, 3, 1, 3) - m[0][1] * det2_at(m, 2, 3, 0, 3))
    &&& fits(m[0][0] * det2_at(m, 2, 3, 1, 3) - m[0][1] * det2_at(m, 2, 3, 0, 3) + m[0][3] * det2_at(m, 2, 3, 0, 1))
    &&& fits(-(m[0][0] * det2_at(m, 2, 3, 1, 3) - m[0][1] * det2_at(m, 2, 3, 0, 3) + m[0][3] * det2_at(m, 2, 3, 0, 1)))
    &&& fits(m[0][0] * det2_at(m, 1, 3, 1, 3))
    &&& fits(m[0][1] * det2_at(m, 1, 3, 0, 3))
    &&& fits(m[0][3] * det2_at(m, 1, 3, 0, 1))
    &&& fits(m[0][0] * det2_at(m, 1, 3, 1, 3) - m[0][1] * det2_at(m, 1, 3, 0, 3))
    &&& fits(m[0][0] * det2_at(m, 1, 3, 1, 3) - m[0][1] * det2_at(m, 1, 3, 0, 3) + m[0][3] * det2_at(m, 1, 3, 0, 1))
    &&& fits(m[0][0] * det2_at(m, 1, 2, 1, 3))
    &&& fits(m[0][1] * det2_at(m, 1, 2, 0, 3))
    &&& fits(m[0][3] * det2_at(m, 1, 2, 0, 1))
    &&& fits(m[0][0] * det2_at(m, 1, 2, 1, 3) - m[0][1] * det2_at(m, 1, 2, 0, 3))
    &&& fits(m[0][0] * det2_at(m, 1, 2, 1, 3) - m[0][1] * det2_at(m, 1, 2, 0, 3) + m[0][3] * det2_at(m, 1, 2, 0, 1))
    &&& fits(-(m[0][0] * det2_at(m, 1, 2, 1, 3) - m[0][1] * det2_at(m, 1, 2, 0, 3) + m[0][3] * det2_at(m, 1, 2, 0, 1)))
    &&& fits(m[1][0] * det2_at(m, 2, 3, 1, 2))
    &&& fits(m[1][1] * det2_at(m, 2, 3, 0, 2))
    &&& fits(m[1][2] * det2_at(m, 2, 3, 0, 1))
    &&& fits(m[1][0] * det2_at(m, 2, 3, 1, 2) - m[1][1] * det2_at(m, 2, 3, 0, 2))
    &&& fits(m[1][0] * det2_at(m, 2, 3, 1, 2) - m[1][1] * det2_at(m, 2, 3, 0, 2) + m[1][2] * det2_at(m, 2, 3, 0, 1))
    &&& fits(-(m[1][0] * det2_at(m, 2, 3, 1, 2) - m[1][1] * det2_at(m, 2, 3, 0, 2) + m[1][2] * det2_at(m, 2, 3, 0, 1)))
    &&& fits(m[0][0] * det2_at(m, 2, 3, 1, 2))
    &&& fits(m[0][1] * det2_at(m, 2, 3, 0, 2))
    &&& fits(m[0][2] * det2_at(m, 2, 3, 0, 1))
    &&& fits(m[0][0] * det2_at(m, 2, 3, 1, 2) - m[0][1] * det2_at(m, 2, 3, 0, 2))
    &&& fits(m[0][0] * det2_at(m, 2, 3, 1, 2) - m[0][1] * det2_at(m, 2, 3, 0, 2) + m[0][2] * det2_at(m, 2, 3, 0, 1))
    &&& fits(m[0][0] * det2_at(m, 1, 3, 1, 2))
    &&& fits(m[0][1] * det2_at(m, 1, 3, 0, 2))
    &&& fits(m[0][2] * det2_at(m, 1, 3, 0, 1))
    &&& fits(m[0][0] * det2_at(m, 1, 3, 1, 2) - m[0][1] * det2_at(m, 1, 3, 0, 2))
    &&& fits(m[0][0] * det2_at(m, 1, 3, 1, 2) - m[0][1] * det2_at(m, 1, 3, 0, 2) + m[0][2] * det2_at(m, 1, 3, 0, 1))
    &&& fits(-(m[0][0] * det2_at(m, 1, 3, 1, 2) - m[0][1] * det2_at(m, 1, 3, 0, 2) + m[0][2] * det2_at(m, 1, 3, 0, 1)))
    &&& fits(m[0][0] * det2_at(m, 1, 2, 1, 2))
    &&& fits(m[0][1] * det2_at(m, 1, 2, 0, 2))
    &&& fits(m[0][2] * det2_at(m, 1, 2, 0, 1))
    &&& fits(m[0][0] * det2_at(m, 1, 2, 1, 2) - m[0][1] * det2_at(m, 1, 2, 0, 2))
    &&& fits(m[0][0] * det2_at(m, 1, 2, 1, 2) - m[0][1] * det2_at(m, 1, 2, 0, 2) + m[0][2] * det2_at(m, 1, 2, 0, 1))
    &&& fits(m[0][0] * adjugate4(m)[0][0])
    &&& fits(m[0][1] * adjugate4(m)[1][0])
    &&& fits(m[0][2] * adjugate4(m)[2][0])
    &&& fits(m[0][3] * adjugate4(m)[3][0])
    &&& fits(m[0][0] * adjugate4(m)[0][0] + m[0][1] * adjugate4(m)[1][0])
    &&& fits(m[0][2] * adjugate4(m)[2][0] + m[0][3] * adjugate4(m)[3][0])
    &&& fits(det4(m))
    &&& det4(m) != 0
    &&& scaled_fits(adjugate4(m), quot(1, det4(m)), 4)
}

impl mat2<i64> {
    /// The inverse, as the adjugate times `1 / det` in `i64` arithmetic: exact
    /// when the determinant is `1` or `-1`, and the zero matrix for any other
    /// determinant, since `1 / det` is then zero.
    pub fn inverse(&self) -> (r: Self)
        requires
            inverse2_ok(self@),
        ensures
            r@ == inverse2(self@),
    {
        let one_over_determinant = div_i64(
            1,
            self.value[0].x * self.value[1].y - self.value[1].x * self.value[0].y,
        );
        let ghost adj = adjugate2(self@);
        proof {
            assert(fits(adj[0][0] * one_over_determinant));
            assert(fits(adj[0][1] * one_over_determinant));
            assert(fits(adj[1][0] * one_over_determinant));
            assert(fits(adj[1][1] * one_over_determinant));
        }
        let inverse = mat2::new(
            [
                vec2::new(
                    self.value[1].y * one_over_determinant,
                    -self.value[0].y * one_over_determinant,
                ),
                vec2::new(
                    -self.value[1].x * one_over_determinant,
                    self.value[0].x * one_over_determinant,
                ),
            ],
        );
        assert(inverse@ =~~= mat_scale(adj, quot(1, det2(self@))));
        inverse
    }
}

impl mat3<i64> {
    /// The inverse, as the adjugate times `1 / det` in `i64` arithmetic: exact
    /// when the determinant is `1` or `-1`, and the zero matrix for any other
    /// determinant, since `1 / det` is then zero.
    pub fn inverse(&self) -> (r: Self)
        requires
            inverse3_ok(self@),
        ensures
            r@ == inverse3(self@),
    {
        let ghost m = self@;
        let ghost adj = adjugate3(m);
        proof {
            lemma_det3_first_row(m);
            lemma_adjugate3(m);
        }
        let one_over_determinant = div_i64(
            1,
            self.value[0].x * (self.value[1].y * self.value[2].z - self.value[2].y * self.value[1].z)
                - self.value[1].x * (self.value[0].y * self.value[2].z - self.value[2].y
                * self.value[0].z) + self.value[2].x * (self.value[0].y * self.value[1].z
                - self.value[1].y * self.value[0].z),
        );
        let a00 = self.value[1].y * self.value[2].z - self.value[2].y * self.value[1].z;
        let a01 = -(self.value[0].y * self.value[2].z - self.value[2].y * self.value[0].z);
        let a02 = self.value[0].y * self.value[1].z - self.value[1].y * self.value[0].z;
        let a10 = -(self.value[1].x * self.value[2].z - self.value[2].x * self.value[1].z);
        let a11 = self.value[0].x * self.value[2].z - self.value[2].x * self.value[0].z;
        let a12 = -(self.value[0].x * self.value[1].z - self.value[1].x * self.value[0].z);
        let a20 = self.value[1].x * self.value[2].y - self.value[2].x * self.value[1].y;
        let a21 = -(self.value[0].x * self.value[2].y - self.value[2].x * self.value[0].y);
        let a22 = self.value[0].x * self.value[1].y - self.value[1].x * self.value[0].y;
        proof {
            assert(a00 == adj[0][0]);
            assert(fits(adj[0][0] * one_over_determinant));
            assert(a01 == adj[0][1]);
            assert(fits(adj[0][1] * one_over_determinant));
            assert(a02 == adj[0][2]);
            assert(fits(adj[0][2] * one_over_determinant));
            assert(a10 == adj[1][0]);
            assert(fits(adj[1][0] * one_over_determinant));
            assert(a11 == adj[1][1]);
            assert(fits(adj[1][1] * one_over_determinant));
            assert(a12 == adj[1][2]);
            assert(fits(adj[1][2] * one_over_determinant));
            assert(a20 == adj[2][0]);
            assert(fits(adj[2][0] * one_over_determinant));
            assert(a21 == adj[2][1]);
            assert(fits(adj[2][1] * one_over_determinant));
            assert(a22 == adj[2][2]);
            assert(fits(adj[2][2] * one_over_determinant));
        }
        let inverse = mat3::new(
            [
                vec3::new(a00 * one_over_determinant, a01 * one_over_determinant, a02 * one_over_determinant),
                vec3::new(a10 * one_over_determinant, a11 * one_over_determinant, a12 * one_over_determinant),
                vec3::new(a20 * one_over_determinant, a21 * one_over_determinant, a22 * one_over_determinant),
            ],
        );
        assert(inverse@ =~~= mat_scale(adj, quot(1, det3(m))));
        inverse
    }
}

impl mat4<i64> {
    /// The inverse, as the adjugate times `1 / det` in `i64` arithmetic: exact
    /// when the determinant is `1` or `-1`, and the zero matrix for any other
    /// determinant, since `1 / det` is then zero. The cofactors come from the
    /// two-by-two minors of the last three columns, and the determinant from
    /// the first column against the first row of the adjugate.
    #[verifier::rlimit(60)]
    pub fn inverse(&self) -> (r: Self)
        requires
            inverse4_ok(self@),
        ensures
            r@ == inverse4(self@),
    {
        let ghost m = self@;
        let ghost adj = adjugate4(m);
        proof {
            lemma_adjugate4(m);
        }
        let coef00 = self.value[2].z * self.value[3].w - self.value[3].z * self.value[2].w;
        let coef02 = self.value[1].z * self.value[3].w - self.value[3].z * self.value[1].w;
        let coef03 = self.value[1].z * self.value[2].w - self.value[2].z * self.value[1].w;

        let coef04 = self.value[2].y * self.value[3].w - self.value[3].y * self.value[2].w;
        let coef06 = self.value[1].y * self.value[3].w - self.value[3].y * self.value[1].w;
        let coef07 = self.value[1].y * self.value[2].w - self.value[2].y * self.value[1].w;

        let coef08 = self.value[2].y * self.value[3].z - self.value[3].y * self.value[2].z;
        let coef10 = self.value[1].y * self.value[3].z - self.value[3].y * self.value[1].z;
        let coef11 = self.value[1].y * self.value[2].z - self.value[2].y * self.value[1].z;

        let coef12 = self.value[2].x * self.value[3].w - self.value[3].x * self.value[2].w;
        let coef14 = self.value[1].x * self.value[3].w - self.value[3].x * self.value[1].w;
        let coef15 = self.value[1].x * self.value[2].w - self.value[2].x * self.value[1].w;

        let coef16 = self.value[2].x * self.value[3].z - self.value[3].x * self.value[2].z;
        let coef18 = self.value[1].x * self.value[3].z - self.value[3].x * self.value[1].z;
        let coef19 = self.value[1].x * self.value[2].z - self.value[2].x * self.value[1].z;

        let coef20 = self.value[2].x * self.value[3].y - self.value[3].x * self.value[2].y;
        let coef22 = self.value[1].x * self.value[3].y - self.value[3].x * self.value[1].y;
        let coef23 = self.value[1].x * self.value[2].y - self.value[2].x * self.value[1].y;

        let fac0 = vec4::new(coef00, coef00, coef02, coef03);
        let fac1 = vec4::new(coef04, coef04, coef06, coef07);
        let fac2 = vec4::new(coef08, coef08, coef10, coef11);
        let fac3 = vec4::new(coef12, coef12, coef14, coef15);
        let fac4 = vec4::new(coef16, coef16, coef18, coef19);
        let fac5 = vec4::new(coef20, coef20, coef22, coef23);

        let vec0 = vec4::new(self.value[1].x, self.value[0].x, self.value[0].x, self.value[0].x);
        let vec1 = vec4::new(self.value[1].y, self.value[0].y, self.value[0].y, self.value[0].y);
        let vec2 = vec4::new(self.value[1].z, self.value[0].z, self.value[0].z, self.value[0].z);
        let vec3 = vec4::new(self.value[1].w, self.value[0].w, self.value[0].w, self.value[0].w);

        let inv0 = vec4::new(
            vec1.x * fac0.x - vec2.x * fac1.x + vec3.x * fac2.x,
            vec1.y * fac0.y - vec2.y * fac1.y + vec3.y * fac2.y,
            vec1.z * fac0.z - vec2.z * fac1.z + vec3.z * fac2.z,
            vec1.w * fac0.w - vec2.w * fac1.w + vec3.w * fac2.w,
        );
        let inv1 = vec4::new(
            vec0.x * fac0.x - vec2.x * fac3.x + vec3.x * fac4.x,
            vec0.y * fac0.y - vec2.y * fac3.y + vec3.y * fac4.y,
            vec0.z * fac0.z - vec2.z * fac3.z + vec3.z * fac4.z,
            vec0.w * fac0.w - vec2.w * fac3.w + vec3.w * fac4.w,
        );
        let inv2 = vec4::new(
            vec0.x * fac1.x - vec1.x * fac3.x + vec3.x * fac5.x,
            vec0.y * fac1.y - vec1.y * fac3.y + vec3.y * fac5.y,
            vec0.z * fac1.z - vec1.z * fac3.z + vec3.z * fac5.z,
            vec0.w * fac1.w - vec1.w * fac3.w + vec3.w * fac5.w,
        );
        let inv3 = vec4::new(
            vec0.x * fac2.x - vec1.x * fac4.x + vec2.x * fac5.x,
            vec0.y * fac2.y - vec1.y * fac4.y + vec2.y * fac5.y,
            vec0.z * fac2.z - vec1.z * fac4.z + vec2.z * fac5.z,
            vec0.w * fac2.w - vec1.w * fac4.w + vec2.w * fac5.w,
        );

        let sign_a = vec4::new(1i64, -1i64, 1i64, -1i64);
        let sign_b = vec4::new(-1i64, 1i64, -1i64, 1i64);
        proof {
            assert(inv0.x * sign(0) == adj[0][0]);
            assert(inv0.y * sign(1) == adj[0][1]);
            assert(inv0.z * sign(2) == adj[0][2]);
            assert(inv0.w * sign(3) == adj[0][3]);
            assert(inv1.x * sign(1) == adj[1][0]);
            assert(inv1.y * sign(2) == adj[1][1]);
            assert(inv1.z * sign(3) == adj[1][2]);
            assert(inv1.w * sign(4) == adj[1][3]);
            assert(inv2.x * sign(2) == adj[2][0]);
            assert(inv2.y * sign(3) == adj[2][1]);
            assert(inv2.z * sign(4) == adj[2][2]);
            assert(inv2.w * sign(5) == adj[2][3]);
            assert(inv3.x * sign(3) == adj[3][0]);
            assert(inv3.y * sign(4) == adj[3][1]);
            assert(inv3.z * sign(5) == adj[3][2]);
            assert(inv3.w * sign(6) == adj[3][3]);
        }
        let inverse = mat4::new(
            vec4::new(inv0.x * sign_a.x, inv0.y * sign_a.y, inv0.z * sign_a.z, inv0.w * sign_a.w),
            vec4::new(inv1.x * sign_b.x, inv1.y * sign_b.y, inv1.z * sign_b.z, inv1.w * sign_b.w),
            vec4::new(inv2.x * sign_a.x, inv2.y * sign_a.y, inv2.z * sign_a.z, inv2.w * sign_a.w),
            vec4::new(inv3.x * sign_b.x, inv3.y * sign_b.y, inv3.z * sign_b.z, inv3.w * sign_b.w),
        );

        let row0 = vec4::new(inverse.value[0].x, inverse.value[1].x, inverse.value[2].x, inverse.value[3].x);

        let dot0 = vec4::new(
            self.value[0].x * row0.x,
            self.value[0].y * row0.y,
            self.value[0].z * row0.z,
            self.value[0].w * row0.w,
        );
        proof {
            lemma_mul_neg(m[0][1], det3_at(m, 1, 2, 3, 0, 2, 3));
            lemma_mul_neg(m[0][3], det3_at(m, 1, 2, 3, 0, 1, 2));
            assert(dot0.x + dot0.y + (dot0.z + dot0.w) == det4(m));
        }
        let dot1 = (dot0.x + dot0.y) + (dot0.z + dot0.w);

        let one_over_determinant = div_i64(1, dot1);
        proof {
            assert(fits(adj[0][0] * one_over_determinant));
            assert(fits(adj[0][1] * one_over_determinant));
            assert(fits(adj[0][2] * one_over_determinant));
            assert(fits(adj[0][3] * one_over_determinant));
            assert(fits(adj[1][0] * one_over_determinant));
            assert(fits(adj[1][1] * one_over_determinant));
            assert(fits(adj[1][2] * one_over_determinant));
            assert(fits(adj[1][3] * one_over_determinant));
            assert(fits(adj[2][0] * one_over_determinant));
            assert(fits(adj[2][1] * one_over_determinant));
            assert(fits(adj[2][2] * one_over_determinant));
            assert(fits(adj[2][3] * one_over_determinant));
            assert(fits(adj[3][0] * one_over_determinant));
            assert(fits(adj[3][1] * one_over_determinant));
            assert(fits(adj[3][2] * one_over_determinant));
            assert(fits(adj[3][3] * one_over_determinant));
        }
        let result = mat4::new(
            vec4::new(inverse.value[0].x * one_over_determinant, inverse.value[0].y * one_over_determinant, inverse.value[0].z * one_over_determinant, inverse.value[0].w * one_over_determinant),
            vec4::new(inverse.value[1].x * one_over_determinant, inverse.value[1].y * one_over_determinant, inverse.value[1].z * one_over_determinant, inverse.value[1].w * one_over_determinant),
            vec4::new(inverse.value[2].x * one_over_determinant, inverse.value[2].y * one_over_determinant, inverse.value[2].z * one_over_determinant, inverse.value[2].w * one_over_determinant),
            vec4::new(inverse.value[3].x * one_over_determinant, inverse.value[3].y * one_over_determinant, inverse.value[3].z * one_over_determinant, inverse.value[3].w * one_over_determinant),
        );
        assert(result@ =~~= mat_scale(adj, quot(1, det4(m))));
        result
    }
}

/// The entries of the adjugate of order 3, one by one.
pub proof fn lemma_adjugate3(m: Seq<Seq<int>>)
    ensures
        square(adjugate3(m), 3),
        adjugate3(m)[0][0] == det2_at(m, 1, 2, 1, 2),
        adjugate3(m)[0][1] == -det2_at(m, 0, 2, 1, 2),
        adjugate3(m)[0][2] == det2_at(m, 0, 1, 1, 2),
        adjugate3(m)[1][0] == -det2_at(m, 1, 2, 0, 2),
        adjugate3(m)[1][1] == det2_at(m, 0, 2, 0, 2),
        adjugate3(m)[1][2] == -det2_at(m, 0, 1, 0, 2),
        adjugate3(m)[2][0] == det2_at(m, 1, 2, 0, 1),
        adjugate3(m)[2][1] == -det2_at(m, 0, 2, 0, 1),
        adjugate3(m)[2][2] == det2_at(m, 0, 1, 0, 1),
{
    lemma_signs();
    assert(adjugate3(m)[0][0] == sign(0) * det2_at(m, 1, 2, 1, 2));
    assert(adjugate3(m)[0][1] == sign(1) * det2_at(m, 0, 2, 1, 2));
    assert(adjugate3(m)[0][2] == sign(2) * det2_at(m, 0, 1, 1, 2));
    assert(adjugate3(m)[1][0] == sign(1) * det2_at(m, 1, 2, 0, 2));
    assert(adjugate3(m)[1][1] == sign(2) * det2_at(m, 0, 2, 0, 2));
    assert(adjugate3(m)[1][2] == sign(3) * det2_at(m, 0, 1, 0, 2));
    assert(adjugate3(m)[2][0] == sign(2) * det2_at(m, 1, 2, 0, 1));
    assert(adjugate3(m)[2][1] == sign(3) * det2_at(m, 0, 2, 0, 1));
    assert(adjugate3(m)[2][2] == sign(4) * det2_at(m, 0, 1, 0, 1));
}

/// The entries of the adjugate of order 4, one by one.
pub proof fn lemma_adjugate4(m: Seq<Seq<int>>)
    ensures
        square(adjugate4(m), 4),
        adjugate4(m)[0][0] == det3_at(m, 1, 2, 3, 1, 2, 3),
        adjugate4(m)[0][1] == -det3_at(m, 0, 2, 3, 1, 2, 3),
        adjugate4(m)[0][2] == det3_at(m, 0, 1, 3, 1, 2, 3),
        adjugate4(m)[0][3] == -det3_at(m, 0, 1, 2, 1, 2, 3),
        adjugate4(m)[1][0] == -det3_at(m, 1, 2, 3, 0, 2, 3),
        adjugate4(m)[1][1] == det3_at(m, 0, 2, 3, 0, 2, 3),
        adjugate4(m)[1][2] == -det3_at(m, 0, 1, 3, 0, 2, 3),
        adjugate4(m)[1][3] == det3_at(m, 0, 1, 2, 0, 2, 3),
        adjugate4(m)[2][0] == det3_at(m, 1, 2, 3, 0, 1, 3),
        adjugate4(m)[2][1] == -det3_at(m, 0, 2, 3, 0, 1, 3),
        adjugate4(m)[2][2] == det3_at(m, 0, 1, 3, 0, 1, 3),
        adjugate4(m)[2][3] == -det3_at(m, 0, 1, 2, 0, 1, 3),
        adjugate4(m)[3][0] == -det3_at(m, 1, 2, 3, 0, 1, 2),
        adjugate4(m)[3][1] == det3_at(m, 0, 2, 3, 0, 1, 2),
        adjugate4(m)[3][2] == -det3_at(m, 0, 1, 3, 0, 1, 2),
        adjugate4(m)[3][3] == det3_at(m, 0, 1, 2, 0, 1, 2),
{
    lemma_signs();
    assert(adjugate4(m)[0][0] == sign(0) * det3_at(m, 1, 2, 3, 1, 2, 3));
    assert(adjugate4(m)[0][1] == sign(1) * det3_at(m, 0, 2, 3, 1, 2, 3));
    assert(adjugate4(m)[0][2] == sign(2) * det3_at(m, 0, 1, 3, 1, 2, 3));
    assert(adjugate4(m)[0][3] == sign(3) * det3_at(m, 0, 1, 2, 1, 2, 3));
    assert(adjugate4(m)[1][0] == sign(1) * det3_at(m, 1, 2, 3, 0, 2, 3));
    assert(adjugate4(m)[1][1] == sign(2) * det3_at(m, 0, 2, 3, 0, 2, 3));
    assert(adjugate4(m)[1][2] == sign(3) * det3_at(m, 0, 1, 3, 0, 2, 3));
    assert(adjugate4(m)[1][3] == sign(4) * det3_at(m, 0, 1, 2, 0, 2, 3));
    assert(adjugate4(m)[2][0] == sign(2) * det3_at(m, 1, 2, 3, 0, 1, 3));
    assert(adjugate4(m)[2][1] == sign(3) * det3_at(m, 0, 2, 3, 0, 1, 3));
    assert(adjugate4(m)[2][2] == sign(4) * det3_at(m, 0, 1, 3, 0, 1, 3));
    assert(adjugate4(m)[2][3] == sign(5) * det3_at(m, 0, 1, 2, 0, 1, 3));
    assert(adjugate4(m)[3][0] == sign(3) * det3_at(m, 1, 2, 3, 0, 1, 2));
    assert(adjugate4(m)[3][1] == sign(4) * det3_at(m, 0, 2, 3, 0, 1, 2));
    assert(adjugate4(m)[3][2] == sign(5) * det3_at(m, 0, 1, 3, 0, 1, 2));
    assert(adjugate4(m)[3][3] == sign(6) * det3_at(m, 0, 1, 2, 0, 1, 2));
}

pub proof fn lemma_mul_neg(a: int, b: int)
    ensures
        a * (-b) == -(a * b),
{
    assert(a * (-b) == -(a * b)) by (nonlinear_arith);
}

/// The signs at the positions the cofactors use.
pub proof fn lemma_signs()
    ensures
        sign(0) == 1,
        sign(1) == -1,
        sign(2) == 1,
        sign(3) == -1,
        sign(4) == 1,
        sign(5) == -1,
        sign(6) == 1,
{
    assert(1int % 2 == 1 && 3int % 2 == 1 && 5int % 2 == 1) by (nonlinear_arith);
    assert(0int % 2 == 0 && 2int % 2 == 0 && 4int % 2 == 0 && 6int % 2 == 0) by (nonlinear_arith);
}

impl std::ops::Div<vec2<i64>> for mat2<i64> {
    type Output = vec2<i64>;

    fn div(self, rhs: vec2<i64>) -> vec2<i64> {
        self.inverse() * rhs
    }
}

impl vstd::std_specs::ops::DivSpecImpl<vec2<i64>> for mat2<i64> {
    open spec fn obeys_div_spec() -> bool {
        true
    }

    open spec fn div_req(self, rhs: vec2<i64>) -> bool {
        inverse2_ok(self@) && dot2_fits(row(inverse2(self@), 0), rhs@) && dot2_fits(row(inverse2(self@), 1), rhs@)
    }

    /// The inverse acting on `rhs` as a column vector.
    open spec fn div_spec(self, rhs: vec2<i64>) -> vec2<i64> {
        vec2::from_seq(mat_vec(inverse2(self@), rhs@))
    }
}

impl std::ops::Div<mat2<i64>> for vec2<i64> {
    type Output = vec2<i64>;

    fn div(self, rhs: mat2<i64>) -> vec2<i64> {
        self * rhs.inverse()
    }
}

impl vstd::std_specs::ops::DivSpecImpl<mat2<i64>> for vec2<i64> {
    open spec fn obeys_div_spec() -> bool {
        true
    }

    open spec fn div_req(self, rhs: mat2<i64>) -> bool {
        inverse2_ok(rhs@) && dot2_fits(self@, inverse2(rhs@)[0]) && dot2_fits(self@, inverse2(rhs@)[1])
    }

    /// `self` as a row vector acting on the inverse.
    open spec fn div_spec(self, rhs: mat2<i64>) -> vec2<i64> {
        vec2::from_seq(vec_mat(self@, inverse2(rhs@)))
    }
}

impl std::ops::Div<mat2<i64>> for mat2<i64> {
    type Output = mat2<i64>;

    fn div(self, rhs: mat2<i64>) -> mat2<i64> {
        self * rhs.inverse()
    }
}

impl vstd::std_specs::ops::DivSpecImpl<mat2<i64>> for mat2<i64> {
    open spec fn obeys_div_spec() -> bool {
        true
    }

    open spec fn div_req(self, rhs: mat2<i64>) -> bool {
        inverse2_ok(rhs@)
            && dot2_fits(row(self@, 0), inverse2(rhs@)[0])
            && dot2_fits(row(self@, 1), inverse2(rhs@)[0])
            && dot2_fits(row(self@, 0), inverse2(rhs@)[1])
            && dot2_fits(row(self@, 1), inverse2(rhs@)[1])
    }

    /// `self` times the inverse of `rhs`.
    open spec fn div_spec(self, rhs: mat2<i64>) -> mat2<i64> {
        mat2::from_seq(mat_mul(self@, inverse2(rhs@)))
    }
}

impl std::ops::Div<vec3<i64>> for mat3<i64> {
    type Output = vec3<i64>;

    fn div(self, rhs: vec3<i64>) -> vec3<i64> {
        self.inverse() * rhs
    }
}

impl vstd::std_specs::ops::DivSpecImpl<vec3<i64>> for mat3<i64> {
    open spec fn obeys_div_spec() -> bool {
        true
    }

    open spec fn div_req(self, rhs: vec3<i64>) -> bool {
        inverse3_ok(self@) && dot3_fits(row(inverse3(self@), 0), rhs@) && dot3_fits(row(inverse3(self@), 1), rhs@) && dot3_fits(row(inverse3(self@), 2), rhs@)
    }

    /// The inverse acting on `rhs` as a column vector.
    open spec fn div_spec(self, rhs: vec3<i64>) -> vec3<i64> {
        vec3::from_seq(mat_vec(inverse3(self@), rhs@))
    }
}

impl std::ops::Div<mat3<i64>> for vec3<i64> {
    type Output = vec3<i64>;

    fn div(self, rhs: mat3<i64>) -> vec3<i64> {
        self * rhs.inverse()
    }
}

impl vstd::std_specs::ops::DivSpecImpl<mat3<i64>> for vec3<i64> {
    open spec fn obeys_div_spec() -> bool {
        true
    }

    open spec fn div_req(self, rhs: mat3<i64>) -> bool {
        inverse3_ok(rhs@) && dot3_fits(self@, inverse3(rhs@)[0]) && dot3_fits(self@, inverse3(rhs@)[1]) && dot3_fits(self@, inverse3(rhs@)[2])
    }

    /// `self` as a row vector acting on the inverse.
    open spec fn div_spec(self, rhs: mat3<i64>) -> vec3<i64> {
        vec3::from_seq(vec_mat(self@, inverse3(rhs@)))
    }
}

impl std::ops::Div<mat3<i64>> for mat3<i64> {
    type Output = mat3<i64>;

    fn div(self, rhs: mat3<i64>) -> mat3<i64> {
        self * rhs.inverse()
    }
}

impl vstd::std_specs::ops::DivSpecImpl<mat3<i64>> for mat3<i64> {
    open spec fn obeys_div_spec() -> bool {
        true
    }

    open spec fn div_req(self, rhs: mat3<i64>) -> bool {
        inverse3_ok(rhs@)
            && dot3_fits(row(self@, 0), inverse3(rhs@)[0])
            && dot3_fits(row(self@, 1), inverse3(rhs@)[0])
            && dot3_fits(row(self@, 2), inverse3(rhs@)[0])
            && dot3_fits(row(self@, 0), inverse3(rhs@)[1])
            && dot3_fits(row(self@, 1), inverse3(rhs@)[1])
            && dot3_fits(row(self@, 2), inverse3(rhs@)[1])
            && dot3_fits(row(self@, 0), inverse3(rhs@)[2])
            && dot3_fits(row(self@, 1), inverse3(rhs@)[2])
            && dot3_fits(row(self@, 2), inverse3(rhs@)[2])
    }

    /// `self` times the inverse of `rhs`.
    open spec fn div_spec(self, rhs: mat3<i64>) -> mat3<i64> {
        mat3::from_seq(mat_mul(self@, inverse3(rhs@)))
    }
}

impl std::ops::Div<vec4<i64>> for mat4<i64> {
    type Output = vec4<i64>;

    fn div(self, rhs: vec4<i64>) -> vec4<i64> {
        self.inverse() * rhs
    }
}

impl vstd::std_specs::ops::DivSpecImpl<vec4<i64>> for mat4<i64> {
    open spec fn obeys_div_spec() -> bool {
        true
    }

    open spec fn div_req(self, rhs: vec4<i64>) -> bool {
        inverse4_ok(self@) && dot4_fits(row(inverse4(self@), 0), rhs@) && dot4_fits(row(inverse4(self@), 1), rhs@) && dot4_fits(row(inverse4(self@), 2), rhs@) && dot4_fits(row(inverse4(self@), 3), rhs@)
    }

    /// The inverse acting on `rhs` as a column vector.
    open spec fn div_spec(self, rhs: vec4<i64>) -> vec4<i64> {
        vec4::from_seq(mat_vec(inverse4(self@), rhs@))
    }
}

impl std::ops::Div<mat4<i64>> for vec4<i64> {
    type Output = vec4<i64>;

    fn div(self, rhs: mat4<i64>) -> vec4<i64> {
        self * rhs.inverse()
    }
}

impl vstd::std_specs::ops::DivSpecImpl<mat4<i64>> for vec4<i64> {
    open spec fn obeys_div_spec() -> bool {
        true
    }

    open spec fn div_req(self, rhs: mat4<i64>) -> bool {
        inverse4_ok(rhs@) && dot4_fits(self@, inverse4(rhs@)[0]) && dot4_fits(self@, inverse4(rhs@)[1]) && dot4_fits(self@, inverse4(rhs@)[2]) && dot4_fits(self@, inverse4(rhs@)[3])
    }

    /// `self` as a row vector acting on the inverse.
    open spec fn div_spec(self, rhs: mat4<i64>) -> vec4<i64> {
        vec4::from_seq(vec_mat(self@, inverse4(rhs@)))
    }
}

impl std::ops::Div<mat4<i64>> for mat4<i64> {
    type Output = mat4<i64>;

    fn div(self, rhs: mat4<i64>) -> mat4<i64> {
        self * rhs.inverse()
    }
}

impl vstd::std_specs::ops::DivSpecImpl<mat4<i64>> for mat4<i64> {
    open spec fn obeys_div_spec() -> bool {
        true
    }

    open spec fn div_req(self, rhs: mat4<i64>) -> bool {
        inverse4_ok(rhs@)
            && fold4_fits(row(self@, 0), inverse4(rhs@)[0])
            && fold4_fits(row(self@, 1), inverse4(rhs@)[0])
            && fold4_fits(row(self@, 2), inverse4(rhs@)[0])
            && fold4_fits(row(self@, 3), inverse4(rhs@)[0])
            && fold4_fits(row(self@, 0), inverse4(rhs@)[1])
            && fold4_fits(row(self@, 1), inverse4(rhs@)[1])
            && fold4_fits(row(self@, 2), inverse4(rhs@)[1])
            && fold4_fits(row(self@, 3), inverse4(rhs@)[1])
            && fold4_fits(row(self@, 0), inverse4(rhs@)[2])
            && fold4_fits(row(self@, 1), inverse4(rhs@)[2])
            && fold4_fits(row(self@, 2), inverse4(rhs@)[2])
            && fold4_fits(row(self@, 3), inverse4(rhs@)[2])
            && fold4_fits(row(self@, 0), inverse4(rhs@)[3])
            && fold4_fits(row(self@, 1), inverse4(rhs@)[3])
            && fold4_fits(row(self@, 2), inverse4(rhs@)[3])
            && fold4_fits(row(self@, 3), inverse4(rhs@)[3])
    }

    /// `self` times the inverse of `rhs`.
    open spec fn div_spec(self, rhs: mat4<i64>) -> mat4<i64> {
        mat4::from_seq(mat_mul(self@, inverse4(rhs@)))
    }
}

/// The determinant of order three expanded along the first row, as the
/// inverse computes it, is `det3`.
pub proof fn lemma_det3_first_row(m: Seq<Seq<int>>)
    ensures
        det3(m) == m[0][0] * (m[1][1] * m[2][2] - m[2][1] * m[1][2]) - m[1][0] * (m[0][1] * m[2][2]
            - m[2][1] * m[0][2]) + m[2][0] * (m[0][1] * m[1][2] - m[1][1] * m[0][2]),
{
    lemma_expand3(m[0][0], m[0][1], m[0][2], m[1][0], m[1][1], m[1][2], m[2][0], m[2][1], m[2][2]);
}

proof fn lemma_expand3(a: int, b: int, c: int, d: int, e: int, f: int, g: int, h: int, i: int)
    ensures
        a * (e * i - h * f) - b * (d * i - g * f) + c * (d * h - g * e) == a * (e * i - h * f) - d
            * (b * i - h * c) + g * (b * f - e * c),
{
    assert(b * (d * i - g * f) == d * (b * i) - g * (b * f)) by (nonlinear_arith);
    assert(c * (d * h - g * e) == d * (h * c) - g * (e * c)) by (nonlinear_arith);
    assert(d * (b * i - h * c) == d * (b * i) - d * (h * c)) by (nonlinear_arith);
    assert(g * (b * f - e * c) == g * (b * f) - g * (e * c)) by (nonlinear_arith);
}

/// Each column of the matrix against each column of the adjugate of order
/// 2: the determinant on the diagonal, zero elsewhere.
proof fn lemma_cofactor_expansion2(a00: int, a01: int, a10: int, a11: int)
    ensures
        a00 * (a11) + a10 * (-(a01)) == a00 * a11 - a10 * a01,
        a01 * (a11) + a11 * (-(a01)) == 0,
        a00 * (-(a10)) + a10 * (a00) == 0,
        a01 * (-(a10)) + a11 * (a00) == a00 * a11 - a10 * a01,
{
    assert(a10 * a01 == a01 * a10) by (nonlinear_arith);
    assert(a00 * (a11) == a00 * a11) by (nonlinear_arith);
    assert(a10 * (-a01) == -(a01 * a10)) by (nonlinear_arith);
    assert(a01 * (a11) == a01 * a11) by (nonlinear_arith);
    assert(a11 * (-a01) == -(a01 * a11)) by (nonlinear_arith);
    assert(a00 * (-a10) == -(a00 * a10)) by (nonlinear_arith);
    assert(a10 * (a00) == a00 * a10) by (nonlinear_arith);
    assert(a01 * (-a10) == -(a01 * a10)) by (nonlinear_arith);
    assert(a11 * (a00) == a00 * a11) by (nonlinear_arith);
}


/// Each column of the matrix against each column of the adjugate of order
/// 3: the determinant on the diagonal, zero elsewhere.
proof fn lemma_cofactor_expansion3(a00: int, a01: int, a02: int, a10: int, a11: int, a12: int, a20: int, a21: int, a22: int)
    ensures
        a00 * (a11 * a22 - a21 * a12) + a10 * (-(a01 * a22 - a21 * a02)) + a20 * (a01 * a12 - a11 * a02) == a00 * (a11 * a22 - a21 * a12) - a01 * (a10 * a22 - a20 * a12) + a02 * (a10 * a21 - a20 * a11),
        a01 * (a11 * a22 - a21 * a12) + a11 * (-(a01 * a22 - a21 * a02)) + a21 * (a01 * a12 - a11 * a02) == 0,
        a02 * (a11 * a22 - a21 * a12) + a12 * (-(a01 * a22 - a21 * a02)) + a22 * (a01 * a12 - a11 * a02) == 0,
        a00 * (-(a10 * a22 - a20 * a12)) + a10 * (a00 * a22 - a20 * a02) + a20 * (-(a00 * a12 - a10 * a02)) == 0,
        a01 * (-(a10 * a22 - a20 * a12)) + a11 * (a00 * a22 - a20 * a02) + a21 * (-(a00 * a12 - a10 * a02)) == a00 * (a11 * a22 - a21 * a12) - a01 * (a10 * a22 - a20 * a12) + a02 * (a10 * a21 - a20 * a11),
        a02 * (-(a10 * a22 - a20 * a12)) + a12 * (a00 * a22 - a20 * a02) + a22 * (-(a00 * a12 - a10 * a02)) == 0,
        a00 * (a10 * a21 - a20 * a11) + a10 * (-(a00 * a21 - a20 * a01)) + a20 * (a00 * a11 - a10 * a01) == 0,
        a01 * (a10 * a21 - a20 * a11) + a11 * (-(a00 * a21 - a20 * a01)) + a21 * (a00 * a11 - a10 * a01) == 0,
        a02 * (a10 * a21 - a20 * a11) + a12 * (-(a00 * a21 - a20 * a01)) + a22 * (a00 * a11 - a10 * a01) == a00 * (a11 * a22 - a21 * a12) - a01 * (a10 * a22 - a20 * a12) + a02 * (a10 * a21 - a20 * a11),
{
    assert(a21 * a12 == a12 * a21) by (nonlinear_arith);
    assert(a00 * (a11 * a22 - a12 * a21) == a00 * a11 * a22 - a00 * a12 * a21) by (nonlinear_arith);
    assert(a20 * a12 == a12 * a20) by (nonlinear_arith);
    assert(a01 * (a10 * a22 - a12 * a20) == a01 * a10 * a22 - a01 * a12 * a20) by (nonlinear_arith);
    assert(a20 * a11 == a11 * a20) by (nonlinear_arith);
    assert(a02 * (a10 * a21 - a11 * a20) == a02 * a10 * a21 - a02 * a11 * a20) by (nonlinear_arith);
    assert(a21 * a02 == a02 * a21) by (nonlinear_arith);
    assert(a11 * a02 == a02 * a11) by (nonlinear_arith);
    assert(a20 * a02 == a02 * a20) by (nonlinear_arith);
    assert(a10 * a02 == a02 * a10) by (nonlinear_arith);
    assert(a20 * a01 == a01 * a20) by (nonlinear_arith);
    assert(a10 * a01 == a01 * a10) by (nonlinear_arith);
    assert(a10 * (-(a01 * a22) + a02 * a21) == -(a01 * a10 * a22) + a02 * a10 * a21) by (nonlinear_arith);
    assert(a20 * (a01 * a12 - a02 * a11) == a01 * a12 * a20 - a02 * a11 * a20) by (nonlinear_arith);
    assert(a01 * (a11 * a22 - a12 * a21) == a01 * a11 * a22 - a01 * a12 * a21) by (nonlinear_arith);
    assert(a11 * (-(a01 * a22) + a02 * a21) == -(a01 * a11 * a22) + a02 * a11 * a21) by (nonlinear_arith);
    assert(a21 * (a01 * a12 - a02 * a11) == a01 * a12 * a21 - a02 * a11 * a21) by (nonlinear_arith);
    assert(a02 * (a11 * a22 - a12 * a21) == a02 * a11 * a22 - a02 * a12 * a21) by (nonlinear_arith);
    assert(a12 * (-(a01 * a22) + a02 * a21) == -(a01 * a12 * a22) + a02 * a12 * a21) by (nonlinear_arith);
    assert(a22 * (a01 * a12 - a02 * a11) == a01 * a12 * a22 - a02 * a11 * a22) by (nonlinear_arith);
    assert(a00 * (-(a10 * a22) + a12 * a20) == -(a00 * a10 * a22) + a00 * a12 * a20) by (nonlinear_arith);
    assert(a10 * (a00 * a22 - a02 * a20) == a00 * a10 * a22 - a02 * a10 * a20) by (nonlinear_arith);
    assert(a20 * (-(a00 * a12) + a02 * a10) == -(a00 * a12 * a20) + a02 * a10 * a20) by (nonlinear_arith);
    assert(a01 * (-(a10 * a22) + a12 * a20) == -(a01 * a10 * a22) + a01 * a12 * a20) by (nonlinear_arith);
    assert(a11 * (a00 * a22 - a02 * a20) == a00 * a11 * a22 - a02 * a11 * a20) by (nonlinear_arith);
    assert(a21 * (-(a00 * a12) + a02 * a10) == -(a00 * a12 * a21) + a02 * a10 * a21) by (nonlinear_arith);
    assert(a02 * (-(a10 * a22) + a12 * a20) == -(a02 * a10 * a22) + a02 * a12 * a20) by (nonlinear_arith);
    assert(a12 * (a00 * a22 - a02 * a20) == a00 * a12 * a22 - a02 * a12 * a20) by (nonlinear_arith);
    assert(a22 * (-(a00 * a12) + a02 * a10) == -(a00 * a12 * a22) + a02 * a10 * a22) by (nonlinear_arith);
    assert(a00 * (a10 * a21 - a11 * a20) == a00 * a10 * a21 - a00 * a11 * a20) by (nonlinear_arith);
    assert(a10 * (-(a00 * a21) + a01 * a20) == -(a00 * a10 * a21) + a01 * a10 * a20) by (nonlinear_arith);
    assert(a20 * (a00 * a11 - a01 * a10) == a00 * a11 * a20 - a01 * a10 * a20) by (nonlinear_arith);
    assert(a01 * (a10 * a21 - a11 * a20) == a01 * a10 * a21 - a01 * a11 * a20) by (nonlinear_arith);
    assert(a11 * (-(a00 * a21) + a01 * a20) == -(a00 * a11 * a21) + a01 * a11 * a20) by (nonlinear_arith);
    assert(a21 * (a00 * a11 - a01 * a10) == a00 * a11 * a21 - a01 * a10 * a21) by (nonlinear_arith);
    assert(a12 * (-(a00 * a21) + a01 * a20) == -(a00 * a12 * a21) + a01 * a12 * a20) by (nonlinear_arith);
    assert(a22 * (a00 * a11 - a01 * a10) == a00 * a11 * a22 - a01 * a10 * a22) by (nonlinear_arith);
}


proof fn lemma_mul_rotate(x: int, y: int, k: int)
    ensures
        x * (y * k) == k * (x * y),
{
    assert(x * (y * k) == k * (x * y)) by (nonlinear_arith);
}

proof fn lemma_mul_distrib3(k: int, a: int, b: int, c: int)
    ensures
        k * a + k * b + k * c == k * (a + b + c),
{
    assert(k * a + k * b + k * c == k * (a + b + c)) by (nonlinear_arith);
}

proof fn lemma_mul_distrib2(k: int, a: int, b: int)
    ensures
        k * a + k * b == k * (a + b),
{
    assert(k * a + k * b == k * (a + b)) by (nonlinear_arith);
}

/// A matrix of order 2 whose determinant is `1` or `-1` has an exact inverse
/// in integer arithmetic: the matrix times its inverse is the identity. (Any
/// other determinant makes `1 / det` round to zero.)
pub proof fn inverse2_round_trip(m: Seq<Seq<int>>)
    requires
        square(m, 2),
        det2(m) == 1 || det2(m) == -1,
    ensures
        mat_mul(m, inverse2(m)) == identity(2),
{
    let adj = adjugate2(m);
    let inv = inverse2(m);
    let k = quot(1, det2(m));
    if det2(m) == 1 {
        assert(k == 1);
    } else {
        assert(k == -1);
    }
    assert(k * det2(m) == 1);
    lemma_cofactor_expansion2(m[0][0], m[0][1], m[1][0], m[1][1]);
    lemma_sum2(|j: int| row(m, 0)[j] * inv[0][j]);
    lemma_mul_rotate(m[0][0], adj[0][0], k);
    lemma_mul_rotate(m[1][0], adj[0][1], k);
    lemma_mul_distrib2(k, m[0][0] * adj[0][0], m[1][0] * adj[0][1]);
    assert(mat_mul(m, inv)[0][0] == identity(2)[0][0]);
    lemma_sum2(|j: int| row(m, 1)[j] * inv[0][j]);
    lemma_mul_rotate(m[0][1], adj[0][0], k);
    lemma_mul_rotate(m[1][1], adj[0][1], k);
    lemma_mul_distrib2(k, m[0][1] * adj[0][0], m[1][1] * adj[0][1]);
    assert(mat_mul(m, inv)[0][1] == identity(2)[0][1]);
    lemma_sum2(|j: int| row(m, 0)[j] * inv[1][j]);
    lemma_mul_rotate(m[0][0], adj[1][0], k);
    lemma_mul_rotate(m[1][0], adj[1][1], k);
    lemma_mul_distrib2(k, m[0][0] * adj[1][0], m[1][0] * adj[1][1]);
    assert(mat_mul(m, inv)[1][0] == identity(2)[1][0]);
    lemma_sum2(|j: int| row(m, 1)[j] * inv[1][j]);
    lemma_mul_rotate(m[0][1], adj[1][0], k);
    lemma_mul_rotate(m[1][1], adj[1][1], k);
    lemma_mul_distrib2(k, m[0][1] * adj[1][0], m[1][1] * adj[1][1]);
    assert(mat_mul(m, inv)[1][1] == identity(2)[1][1]);
    assert(mat_mul(m, inv) =~~= identity(2));
}

/// A matrix of order 3 whose determinant is `1` or `-1` has an exact inverse
/// in integer arithmetic: the matrix times its inverse is the identity. (Any
/// other determinant makes `1 / det` round to zero.)
pub proof fn inverse3_round_trip(m: Seq<Seq<int>>)
    requires
        square(m, 3),
        det3(m) == 1 || det3(m) == -1,
    ensures
        mat_mul(m, inverse3(m)) == identity(3),
{
    let adj = adjugate3(m);
    let inv = inverse3(m);
    let k = quot(1, det3(m));
    if det3(m) == 1 {
        assert(k == 1);
    } else {
        assert(k == -1);
    }
    assert(k * det3(m) == 1);
    lemma_adjugate3(m);
    lemma_cofactor_expansion3(m[0][0], m[0][1], m[0][2], m[1][0], m[1][1], m[1][2], m[2][0], m[2][1], m[2][2]);
    lemma_sum3(|j: int| row(m, 0)[j] * inv[0][j]);
    lemma_mul_rotate(m[0][0], adj[0][0], k);
    lemma_mul_rotate(m[1][0], adj[0][1], k);
    lemma_mul_rotate(m[2][0], adj[0][2], k);
    lemma_mul_distrib3(k, m[0][0] * adj[0][0], m[1][0] * adj[0][1], m[2][0] * adj[0][2]);
    assert(mat_mul(m, inv)[0][0] == identity(3)[0][0]);
    lemma_sum3(|j: int| row(m, 1)[j] * inv[0][j]);
    lemma_mul_rotate(m[0][1], adj[0][0], k);
    lemma_mul_rotate(m[1][1], adj[0][1], k);
    lemma_mul_rotate(m[2][1], adj[0][2], k);
    lemma_mul_distrib3(k, m[0][1] * adj[0][0], m[1][1] * adj[0][1], m[2][1] * adj[0][2]);
    assert(mat_mul(m, inv)[0][1] == identity(3)[0][1]);
    lemma_sum3(|j: int| row(m, 2)[j] * inv[0][j]);
    lemma_mul_rotate(m[0][2], adj[0][0], k);
    lemma_mul_rotate(m[1][2], adj[0][1], k);
    lemma_mul_rotate(m[2][2], adj[0][2], k);
    lemma_mul_distrib3(k, m[0][2] * adj[0][0], m[1][2] * adj[0][1], m[2][2] * adj[0][2]);
    assert(mat_mul(m, inv)[0][2] == identity(3)[0][2]);
    lemma_sum3(|j: int| row(m, 0)[j] * inv[1][j]);
    lemma_mul_rotate(m[0][0], adj[1][0], k);
    lemma_mul_rotate(m[1][0], adj[1][1], k);
    lemma_mul_rotate(m[2][0], adj[1][2], k);
    lemma_mul_distrib3(k, m[0][0] * adj[1][0], m[1][0] * adj[1][1], m[2][0] * adj[1][2]);
    assert(mat_mul(m, inv)[1][0] == identity(3)[1][0]);
    lemma_sum3(|j: int| row(m, 1)[j] * inv[1][j]);
    lemma_mul_rotate(m[0][1], adj[1][0], k);
    lemma_mul_rotate(m[1][1], adj[1][1], k);
    lemma_mul_rotate(m[2][1], adj[1][2], k);
    lemma_mul_distrib3(k, m[0][1] * adj[1][0], m[1][1] * adj[1][1], m[2][1] * adj[1][2]);
    assert(mat_mul(m, inv)[1][1] == identity(3)[1][1]);
    lemma_sum3(|j: int| row(m, 2)[j] * inv[1][j]);
    lemma_mul_rotate(m[0][2], adj[1][0], k);
    lemma_mul_rotate(m[1][2], adj[1][1], k);
    lemma_mul_rotate(m[2][2], adj[1][2], k);
    lemma_mul_distrib3(k, m[0][2] * adj[1][0], m[1][2] * adj[1][1], m[2][2] * adj[1][2]);
    assert(mat_mul(m, inv)[1][2] == identity(3)[1][2]);
    lemma_sum3(|j: int| row(m, 0)[j] * inv[2][j]);
    lemma_mul_rotate(m[0][0], adj[2][0], k);
    lemma_mul_rotate(m[1][0], adj[2][1], k);
    lemma_mul_rotate(m[2][0], adj[2][2], k);
    lemma_mul_distrib3(k, m[0][0] * adj[2][0], m[1][0] * adj[2][1], m[2][0] * adj[2][2]);
    assert(mat_mul(m, inv)[2][0] == identity(3)[2][0]);
    lemma_sum3(|j: int| row(m, 1)[j] * inv[2][j]);
    lemma_mul_rotate(m[0][1], adj[2][0], k);
    lemma_mul_rotate(m[1][1], adj[2][1], k);
    lemma_mul_rotate(m[2][1], adj[2][2], k);
    lemma_mul_distrib3(k, m[0][1] * adj[2][0], m[1][1] * adj[2][1], m[2][1] * adj[2][2]);
    assert(mat_mul(m, inv)[2][1] == identity(3)[2][1]);
    lemma_sum3(|j: int| row(m, 2)[j] * inv[2][j]);
    lemma_mul_rotate(m[0][2], adj[2][0], k);
    lemma_mul_rotate(m[1][2], adj[2][1], k);
    lemma_mul_rotate(m[2][2], adj[2][2], k);
    lemma_mul_distrib3(k, m[0][2] * adj[2][0], m[1][2] * adj[2][1], m[2][2] * adj[2][2]);
    assert(mat_mul(m, inv)[2][2] == identity(3)[2][2]);
    assert(mat_mul(m, inv) =~~= identity(3));
}

proof fn lemma_distrib6(x: int, p1: int, p2: int, p3: int, p4: int, p5: int, p6: int)
    ensures
        x * (p1 + p2 + p3 + p4 + p5 + p6) == x * p1 + x * p2 + x * p3 + x * p4 + x * p5 + x * p6,
{
    assert(x * (p1 + p2 + p3 + p4 + p5 + p6) == x * p1 + x * p2 + x * p3 + x * p4 + x * p5 + x
        * p6) by (nonlinear_arith);
}

/// Each column of the matrix against each column of the adjugate of order
/// 4: the determinant on the diagonal, zero elsewhere.
proof fn lemma_cofactor_expansion4(a00: int, a01: int, a02: int, a03: int, a10: int, a11: int, a12: int, a13: int, a20: int, a21: int, a22: int, a23: int, a30: int, a31: int, a32: int, a33: int)
    ensures
        a00 * (a11 * (a22 * a33 - a32 * a23) - a12 * (a21 * a33 - a31 * a23) + a13 * (a21 * a32 - a31 * a22)) + a10 * (-(a01 * (a22 * a33 - a32 * a23) - a02 * (a21 * a33 - a31 * a23) + a03 * (a21 * a32 - a31 * a22))) + a20 * (a01 * (a12 * a33 - a32 * a13) - a02 * (a11 * a33 - a31 * a13) + a03 * (a11 * a32 - a31 * a12)) + a30 * (-(a01 * (a12 * a23 - a22 * a13) - a02 * (a11 * a23 - a21 * a13) + a03 * (a11 * a22 - a21 * a12))) == a00 * (a11 * (a22 * a33 - a32 * a23) - a12 * (a21 * a33 - a31 * a23) + a13 * (a21 * a32 - a31 * a22)) - a01 * (a10 * (a22 * a33 - a32 * a23) - a12 * (a20 * a33 - a30 * a23) + a13 * (a20 * a32 - a30 * a22)) + a02 * (a10 * (a21 * a33 - a31 * a23) - a11 * (a20 * a33 - a30 * a23) + a13 * (a20 * a31 - a30 * a21)) - a03 * (a10 * (a21 * a32 - a31 * a22) - a11 * (a20 * a32 - a30 * a22) + a12 * (a20 * a31 - a30 * a21)),
        a01 * (a11 * (a22 * a33 - a32 * a23) - a12 * (a21 * a33 - a31 * a23) + a13 * (a21 * a32 - a31 * a22)) + a11 * (-(a01 * (a22 * a33 - a32 * a23) - a02 * (a21 * a33 - a31 * a23) + a03 * (a21 * a32 - a31 * a22))) + a21 * (a01 * (a12 * a33 - a32 * a13) - a02 * (a11 * a33 - a31 * a13) + a03 * (a11 * a32 - a31 * a12)) + a31 * (-(a01 * (a12 * a23 - a22 * a13) - a02 * (a11 * a23 - a21 * a13) + a03 * (a11 * a22 - a21 * a12))) == 0,
        a02 * (a11 * (a22 * a33 - a32 * a23) - a12 * (a21 * a33 - a31 * a23) + a13 * (a21 * a32 - a31 * a22)) + a12 * (-(a01 * (a22 * a33 - a32 * a23) - a02 * (a21 * a33 - a31 * a23) + a03 * (a21 * a32 - a31 * a22))) + a22 * (a01 * (a12 * a33 - a32 * a13) - a02 * (a11 * a33 - a31 * a13) + a03 * (a11 * a32 - a31 * a12)) + a32 * (-(a01 * (a12 * a23 - a22 * a13) - a02 * (a11 * a23 - a21 * a13) + a03 * (a11 * a22 - a21 * a12))) == 0,
        a03 * (a11 * (a22 * a33 - a32 * a23) - a12 * (a21 * a33 - a31 * a23) + a13 * (a21 * a32 - a31 * a22)) + a13 * (-(a01 * (a22 * a33 - a32 * a23) - a02 * (a21 * a33 - a31 * a23) + a03 * (a21 * a32 - a31 * a22))) + a23 * (a01 * (a12 * a33 - a32 * a13) - a02 * (a11 * a33 - a31 * a13) + a03 * (a11 * a32 - a31 * a12)) + a33 * (-(a01 * (a12 * a23 - a22 * a13) - a02 * (a11 * a23 - a21 * a13) + a03 * (a11 * a22 - a21 * a12))) == 0,
        a00 * (-(a10 * (a22 * a33 - a32 * a23) - a12 * (a20 * a33 - a30 * a23) + a13 * (a20 * a32 - a30 * a22))) + a10 * (a00 * (a22 * a33 - a32 * a23) - a02 * (a20 * a33 - a30 * a23) + a03 * (a20 * a32 - a30 * a22)) + a20 * (-(a00 * (a12 * a33 - a32 * a13) - a02 * (a10 * a33 - a30 * a13) + a03 * (a10 * a32 - a30 * a12))) + a30 * (a00 * (a12 * a23 - a22 * a13) - a02 * (a10 * a23 - a20 * a13) + a03 * (a10 * a22 - a20 * a12)) == 0,
        a01 * (-(a10 * (a22 * a33 - a32 * a23) - a12 * (a20 * a33 - a30 * a23) + a13 * (a20 * a32 - a30 * a22))) + a11 * (a00 * (a22 * a33 - a32 * a23) - a02 * (a20 * a33 - a30 * a23) + a03 * (a20 * a32 - a30 * a22)) + a21 * (-(a00 * (a12 * a33 - a32 * a13) - a02 * (a10 * a33 - a30 * a13) + a03 * (a10 * a32 - a30 * a12))) + a31 * (a00 * (a12 * a23 - a22 * a13) - a02 * (a10 * a23 - a20 * a13) + a03 * (a10 * a22 - a20 * a12)) == a00 * (a11 * (a22 * a33 - a32 * a23) - a12 * (a21 * a33 - a31 * a23) + a13 * (a21 * a32 - a31 * a22)) - a01 * (a10 * (a22 * a33 - a32 * a23) - a12 * (a20 * a33 - a30 * a23) + a13 * (a20 * a32 - a30 * a22)) + a02 * (a10 * (a21 * a33 - a31 * a23) - a11 * (a20 * a33 - a30 * a23) + a13 * (a20 * a31 - a30 * a21)) - a03 * (a10 * (a21 * a32 - a31 * a22) - a11 * (a20 * a32 - a30 * a22) + a12 * (a20 * a31 - a30 * a21)),
        a02 * (-(a10 * (a22 * a33 - a32 * a23) - a12 * (a20 * a33 - a30 * a23) + a13 * (a20 * a32 - a30 * a22))) + a12 * (a00 * (a22 * a33 - a32 * a23) - a02 * (a20 * a33 - a30 * a23) + a03 * (a20 * a32 - a30 * a22)) + a22 * (-(a00 * (a12 * a33 - a32 * a13) - a02 * (a10 * a33 - a30 * a13) + a03 * (a10 * a32 - a30 * a12))) + a32 * (a00 * (a12 * a23 - a22 * a13) - a02 * (a10 * a23 - a20 * a13) + a03 * (a10 * a22 - a20 * a12)) == 0,
        a03 * (-(a10 * (a22 * a33 - a32 * a23) - a12 * (a20 * a33 - a30 * a23) + a13 * (a20 * a32 - a30 * a22))) + a13 * (a00 * (a22 * a33 - a32 * a23) - a02 * (a20 * a33 - a30 * a23) + a03 * (a20 * a32 - a30 * a22)) + a23 * (-(a00 * (a12 * a33 - a32 * a13) - a02 * (a10 * a33 - a30 * a13) + a03 * (a10 * a32 - a30 * a12))) + a33 * (a00 * (a12 * a23 - a22 * a13) - a02 * (a10 * a23 - a20 * a13) + a03 * (a10 * a22 - a20 * a12)) == 0,
        a00 * (a10 * (a21 * a33 - a31 * a23) - a11 * (a20 * a33 - a30 * a23) + a13 * (a20 * a31 - a30 * a21)) + a10 * (-(a00 * (a21 * a33 - a31 * a23) - a01 * (a20 * a33 - a30 * a23) + a03 * (a20 * a31 - a30 * a21))) + a20 * (a00 * (a11 * a33 - a31 * a13) - a01 * (a10 * a33 - a30 * a13) + a03 * (a10 * a31 - a30 * a11)) + a30 * (-(a00 * (a11 * a23 - a21 * a13) - a01 * (a10 * a23 - a20 * a13) + a03 * (a10 * a21 - a20 * a11))) == 0,
        a01 * (a10 * (a21 * a33 - a31 * a23) - a11 * (a20 * a33 - a30 * a23) + a13 * (a20 * a31 - a30 * a21)) + a11 * (-(a00 * (a21 * a33 - a31 * a23) - a01 * (a20 * a33 - a30 * a23) + a03 * (a20 * a31 - a30 * a21))) + a21 * (a00 * (a11 * a33 - a31 * a13) - a01 * (a10 * a33 - a30 * a13) + a03 * (a10 * a31 - a30 * a11)) + a31 * (-(a00 * (a11 * a23 - a21 * a13) - a01 * (a10 * a23 - a20 * a13) + a03 * (a10 * a21 - a20 * a11))) == 0,
        a02 * (a10 * (a21 * a33 - a31 * a23) - a11 * (a20 * a33 - a30 * a23) + a13 * (a20 * a31 - a30 * a21)) + a12 * (-(a00 * (a21 * a33 - a31 * a23) - a01 * (a20 * a33 - a30 * a23) + a03 * (a20 * a31 - a30 * a21))) + a22 * (a00 * (a11 * a33 - a31 * a13) - a01 * (a10 * a33 - a30 * a13) + a03 * (a10 * a31 - a30 * a11)) + a32 * (-(a00 * (a11 * a23 - a21 * a13) - a01 * (a10 * a23 - a20 * a13) + a03 * (a10 * a21 - a20 * a11))) == a00 * (a11 * (a22 * a33 - a32 * a23) - a12 * (a21 * a33 - a31 * a23) + a13 * (a21 * a32 - a31 * a22)) - a01 * (a10 * (a22 * a33 - a32 * a23) - a12 * (a20 * a33 - a30 * a23) + a13 * (a20 * a32 - a30 * a22)) + a02 * (a10 * (a21 * a33 - a31 * a23) - a11 * (a20 * a33 - a30 * a23) + a13 * (a20 * a31 - a30 * a21)) - a03 * (a10 * (a21 * a32 - a31 * a22) - a11 * (a20 * a32 - a30 * a22) + a12 * (a20 * a31 - a30 * a21)),
        a03 * (a10 * (a21 * a33 - a31 * a23) - a11 * (a20 * a33 - a30 * a23) + a13 * (a20 * a31 - a30 * a21)) + a13 * (-(a00 * (a21 * a33 - a31 * a23) - a01 * (a20 * a33 - a30 * a23) + a03 * (a20 * a31 - a30 * a21))) + a23 * (a00 * (a11 * a33 - a31 * a13) - a01 * (a10 * a33 - a30 * a13) + a03 * (a10 * a31 - a30 * a11)) + a33 * (-(a00 * (a11 * a23 - a21 * a13) - a01 * (a10 * a23 - a20 * a13) + a03 * (a10 * a21 - a20 * a11))) == 0,
        a00 * (-(a10 * (a21 * a32 - a31 * a22) - a11 * (a20 * a32 - a30 * a22) + a12 * (a20 * a31 - a30 * a21))) + a10 * (a00 * (a21 * a32 - a31 * a22) - a01 * (a20 * a32 - a30 * a22) + a02 * (a20 * a31 - a30 * a21)) + a20 * (-(a00 * (a11 * a32 - a31 * a12) - a01 * (a10 * a32 - a30 * a12) + a02 * (a10 * a31 - a30 * a11))) + a30 * (a00 * (a11 * a22 - a21 * a12) - a01 * (a10 * a22 - a20 * a12) + a02 * (a10 * a21 - a20 * a11)) == 0,
        a01 * (-(a10 * (a21 * a32 - a31 * a22) - a11 * (a20 * a32 - a30 * a22) + a12 * (a20 * a31 - a30 * a21))) + a11 * (a00 * (a21 * a32 - a31 * a22) - a01 * (a20 * a32 - a30 * a22) + a02 * (a20 * a31 - a30 * a21)) + a21 * (-(a00 * (a11 * a32 - a31 * a12) - a01 * (a10 * a32 - a30 * a12) + a02 * (a10 * a31 - a30 * a11))) + a31 * (a00 * (a11 * a22 - a21 * a12) - a01 * (a10 * a22 - a20 * a12) + a02 * (a10 * a21 - a20 * a11)) == 0,
        a02 * (-(a10 * (a21 * a32 - a31 * a22) - a11 * (a20 * a32 - a30 * a22) + a12 * (a20 * a31 - a30 * a21))) + a12 * (a00 * (a21 * a32 - a31 * a22) - a01 * (a20 * a32 - a30 * a22) + a02 * (a20 * a31 - a30 * a21)) + a22 * (-(a00 * (a11 * a32 - a31 * a12) - a01 * (a10 * a32 - a30 * a12) + a02 * (a10 * a31 - a30 * a11))) + a32 * (a00 * (a11 * a22 - a21 * a12) - a01 * (a10 * a22 - a20 * a12) + a02 * (a10 * a21 - a20 * a11)) == 0,
        a03 * (-(a10 * (a21 * a32 - a31 * a22) - a11 * (a20 * a32 - a30 * a22) + a12 * (a20 * a31 - a30 * a21))) + a13 * (a00 * (a21 * a32 - a31 * a22) - a01 * (a20 * a32 - a30 * a22) + a02 * (a20 * a31 - a30 * a21)) + a23 * (-(a00 * (a11 * a32 - a31 * a12) - a01 * (a10 * a32 - a30 * a12) + a02 * (a10 * a31 - a30 * a11))) + a33 * (a00 * (a11 * a22 - a21 * a12) - a01 * (a10 * a22 - a20 * a12) + a02 * (a10 * a21 - a20 * a11)) == a00 * (a11 * (a22 * a33 - a32 * a23) - a12 * (a21 * a33 - a31 * a23) + a13 * (a21 * a32 - a31 * a22)) - a01 * (a10 * (a22 * a33 - a32 * a23) - a12 * (a20 * a33 - a30 * a23) + a13 * (a20 * a32 - a30 * a22)) + a02 * (a10 * (a21 * a33 - a31 * a23) - a11 * (a20 * a33 - a30 * a23) + a13 * (a20 * a31 - a30 * a21)) - a03 * (a10 * (a21 * a32 - a31 * a22) - a11 * (a20 * a32 - a30 * a22) + a12 * (a20 * a31 - a30 * a21)),
{
    lemma_cofactor_expansion4_00(a00, a01, a02, a03, a10, a11, a12, a13, a20, a21, a22, a23, a30, a31, a32, a33);
    lemma_cofactor_expansion4_01(a00, a01, a02, a03, a10, a11, a12, a13, a20, a21, a22, a23, a30, a31, a32, a33);
    lemma_cofactor_expansion4_02(a00, a01, a02, a03, a10, a11, a12, a13, a20, a21, a22, a23, a30, a31, a32, a33);
    lemma_cofactor_expansion4_03(a00, a01, a02, a03, a10, a11, a12, a13, a20, a21, a22, a23, a30, a31, a32, a33);
    lemma_cofactor_expansion4_10(a00, a01, a02, a03, a10, a11, a12, a13, a20, a21, a22, a23, a30, a31, a32, a33);
    lemma_cofactor_expansion4_11(a00, a01, a02, a03, a10, a11, a12, a13, a20, a21, a22, a23, a30, a31, a32, a33);
    lemma_cofactor_expansion4_12(a00, a01, a02, a03, a10, a11, a12, a13, a20, a21, a22, a23, a30, a31, a32, a33);
    lemma_cofactor_expansion4_13(a00, a01, a02, a03, a10, a11, a12, a13, a20, a21, a22, a23, a30, a31, a32, a33);
    lemma_cofactor_expansion4_20(a00, a01, a02, a03, a10, a11, a12, a13, a20, a21, a22, a23, a30, a31, a32, a33);
    lemma_cofactor_expansion4_21(a00, a01, a02, a03, a10, a11, a12, a13, a20, a21, a22, a23, a30, a31, a32, a33);
    lemma_cofactor_expansion4_22(a00, a01, a02, a03, a10, a11, a12, a13, a20, a21, a22, a23, a30, a31, a32, a33);
    lemma_cofactor_expansion4_23(a00, a01, a02, a03, a10, a11, a12, a13, a20, a21, a22, a23, a30, a31, a32, a33);
    lemma_cofactor_expansion4_30(a00, a01, a02, a03, a10, a11, a12, a13, a20, a21, a22, a23, a30, a31, a32, a33);
    lemma_cofactor_expansion4_31(a00, a01, a02, a03, a10, a11, a12, a13, a20, a21, a22, a23, a30, a31, a32, a33);
    lemma_cofactor_expansion4_32(a00, a01, a02, a03, a10, a11, a12, a13, a20, a21, a22, a23, a30, a31, a32, a33);
    lemma_cofactor_expansion4_33(a00, a01, a02, a03, a10, a11, a12, a13, a20, a21, a22, a23, a30, a31, a32, a33);
}

proof fn lemma_cofactor_expansion4_00(a00: int, a01: int, a02: int, a03: int, a10: int, a11: int, a12: int, a13: int, a20: int, a21: int, a22: int, a23: int, a30: int, a31: int, a32: int, a33: int)
    ensures
        a00 * (a11 * (a22 * a33 - a32 * a23) - a12 * (a21 * a33 - a31 * a23) + a13 * (a21 * a32 - a31 * a22)) + a10 * (-(a01 * (a22 * a33 - a32 * a23) - a02 * (a21 * a33 - a31 * a23) + a03 * (a21 * a32 - a31 * a22))) + a20 * (a01 * (a12 * a33 - a32 * a13) - a02 * (a11 * a33 - a31 * a13) + a03 * (a11 * a32 - a31 * a12)) + a30 * (-(a01 * (a12 * a23 - a22 * a13) - a02 * (a11 * a23 - a21 * a13) + a03 * (a11 * a22 - a21 * a12))) == a00 * (a11 * (a22 * a33 - a32 * a23) - a12 * (a21 * a33 - a31 * a23) + a13 * (a21 * a32 - a31 * a22)) - a01 * (a10 * (a22 * a33 - a32 * a23) - a12 * (a20 * a33 - a30 * a23) + a13 * (a20 * a32 - a30 * a22)) + a02 * (a10 * (a21 * a33 - a31 * a23) - a11 * (a20 * a33 - a30 * a23) + a13 * (a20 * a31 - a30 * a21)) - a03 * (a10 * (a21 * a32 - a31 * a22) - a11 * (a20 * a32 - a30 * a22) + a12 * (a20 * a31 - a30 * a21)),
{
    assert(a32 * a23 == a23 * a32) by (nonlinear_arith);
    assert(a11 * (a22 * a33 - a23 * a32) == a11 * a22 * a33 - a11 * a23 * a32) by (nonlinear_arith);
    assert(a31 * a23 == a23 * a31) by (nonlinear_arith);
    assert(a12 * (a21 * a33 - a23 * a31) == a12 * a21 * a33 - a12 * a23 * a31) by (nonlinear_arith);
    assert(a31 * a22 == a22 * a31) by (nonlinear_arith);
    assert(a13 * (a21 * a32 - a22 * a31) == a13 * a21 * a32 - a13 * a22 * a31) by (nonlinear_arith);
    lemma_distrib6(a00, a11 * a22 * a33, -(a11 * a23 * a32), -(a12 * a21 * a33), a12 * a23 * a31, a13 * a21 * a32, -(a13 * a22 * a31));
    assert(a00 * (a11 * a22 * a33) == a00 * a11 * a22 * a33) by (nonlinear_arith);
    lemma_mul_neg(a00, a11 * a23 * a32);
    assert(a00 * (a11 * a23 * a32) == a00 * a11 * a23 * a32) by (nonlinear_arith);
    lemma_mul_neg(a00, a12 * a21 * a33);
    assert(a00 * (a12 * a21 * a33) == a00 * a12 * a21 * a33) by (nonlinear_arith);
    assert(a00 * (a12 * a23 * a31) == a00 * a12 * a23 * a31) by (nonlinear_arith);
    assert(a00 * (a13 * a21 * a32) == a00 * a13 * a21 * a32) by (nonlinear_arith);
    lemma_mul_neg(a00, a13 * a22 * a31);
    assert(a00 * (a13 * a22 * a31) == a00 * a13 * a22 * a31) by (nonlinear_arith);
    assert(a01 * (a22 * a33 - a23 * a32) == a01 * a22 * a33 - a01 * a23 * a32) by (nonlinear_arith);
    assert(a02 * (a21 * a33 - a23 * a31) == a02 * a21 * a33 - a02 * a23 * a31) by (nonlinear_arith);
    assert(a03 * (a21 * a32 - a22 * a31) == a03 * a21 * a32 - a03 * a22 * a31) by (nonlinear_arith);
    lemma_distrib6(a10, a01 * a22 * a33, -(a01 * a23 * a32), -(a02 * a21 * a33), a02 * a23 * a31, a03 * a21 * a32, -(a03 * a22 * a31));
    assert(a10 * (a01 * a22 * a33) == a01 * a10 * a22 * a33) by (nonlinear_arith);
    lemma_mul_neg(a10, a01 * a23 * a32);
    assert(a10 * (a01 * a23 * a32) == a01 * a10 * a23 * a32) by (nonlinear_arith);
    lemma_mul_neg(a10, a02 * a21 * a33);
    assert(a10 * (a02 * a21 * a33) == a02 * a10 * a21 * a33) by (nonlinear_arith);
    assert(a10 * (a02 * a23 * a31) == a02 * a10 * a23 * a31) by (nonlinear_arith);
    assert(a10 * (a03 * a21 * a32) == a03 * a10 * a21 * a32) by (nonlinear_arith);
    lemma_mul_neg(a10, a03 * a22 * a31);
    assert(a10 * (a03 * a22 * a31) == a03 * a10 * a22 * a31) by (nonlinear_arith);
    lemma_mul_neg(a10, a01 * (a22 * a33 - a32 * a23) - a02 * (a21 * a33 - a31 * a23) + a03 * (a21 * a32 - a31 * a22));
    assert(a32 * a13 == a13 * a32) by (nonlinear_arith);
    assert(a01 * (a12 * a33 - a13 * a32) == a01 * a12 * a33 - a01 * a13 * a32) by (nonlinear_arith);
    assert(a31 * a13 == a13 * a31) by (nonlinear_arith);
    assert(a02 * (a11 * a33 - a13 * a31) == a02 * a11 * a33 - a02 * a13 * a31) by (nonlinear_arith);
    assert(a31 * a12 == a12 * a31) by (nonlinear_arith);
    assert(a03 * (a11 * a32 - a12 * a31) == a03 * a11 * a32 - a03 * a12 * a31) by (nonlinear_arith);
    lemma_distrib6(a20, a01 * a12 * a33, -(a01 * a13 * a32), -(a02 * a11 * a33), a02 * a13 * a31, a03 * a11 * a32, -(a03 * a12 * a31));
    assert(a20 * (a01 * a12 * a33) == a01 * a12 * a20 * a33) by (nonlinear_arith);
    lemma_mul_neg(a20, a01 * a13 * a32);
    assert(a20 * (a01 * a13 * a32) == a01 * a13 * a20 * a32) by (nonlinear_arith);
    lemma_mul_neg(a20, a02 * a11 * a33);
    assert(a20 * (a02 * a11 * a33) == a02 * a11 * a20 * a33) by (nonlinear_arith);
    assert(a20 * (a02 * a13 * a31) == a02 * a13 * a20 * a31) by (nonlinear_arith);
    assert(a20 * (a03 * a11 * a32) == a03 * a11 * a20 * a32) by (nonlinear_arith);
    lemma_mul_neg(a20, a03 * a12 * a31);
    assert(a20 * (a03 * a12 * a31) == a03 * a12 * a20 * a31) by (nonlinear_arith);
    assert(a22 * a13 == a13 * a22) by (nonlinear_arith);
    assert(a01 * (a12 * a23 - a13 * a22) == a01 * a12 * a23 - a01 * a13 * a22) by (nonlinear_arith);
    assert(a21 * a13 == a13 * a21) by (nonlinear_arith);
    assert(a02 * (a11 * a23 - a13 * a21) == a02 * a11 * a23 - a02 * a13 * a21) by (nonlinear_arith);
    assert(a21 * a12 == a12 * a21) by (nonlinear_arith);
    assert(a03 * (a11 * a22 - a12 * a21) == a03 * a11 * a22 - a03 * a12 * a21) by (nonlinear_arith);
    lemma_distrib6(a30, a01 * a12 * a23, -(a01 * a13 * a22), -(a02 * a11 * a23), a02 * a13 * a21, a03 * a11 * a22, -(a03 * a12 * a21));
    assert(a30 * (a01 * a12 * a23) == a01 * a12 * a23 * a30) by (nonlinear_arith);
    lemma_mul_neg(a30, a01 * a13 * a22);
    assert(a30 * (a01 * a13 * a22) == a01 * a13 * a22 * a30) by (nonlinear_arith);
    lemma_mul_neg(a30, a02 * a11 * a23);
    assert(a30 * (a02 * a11 * a23) == a02 * a11 * a23 * a30) by (nonlinear_arith);
    assert(a30 * (a02 * a13 * a21) == a02 * a13 * a21 * a30) by (nonlinear_arith);
    assert(a30 * (a03 * a11 * a22) == a03 * a11 * a22 * a30) by (nonlinear_arith);
    lemma_mul_neg(a30, a03 * a12 * a21);
    assert(a30 * (a03 * a12 * a21) == a03 * a12 * a21 * a30) by (nonlinear_arith);
    lemma_mul_neg(a30, a01 * (a12 * a23 - a22 * a13) - a02 * (a11 * a23 - a21 * a13) + a03 * (a11 * a22 - a21 * a12));
    lemma_distrib6(a00, a11 * a22 * a33, -(a11 * a23 * a32), -(a12 * a21 * a33), a12 * a23 * a31, a13 * a21 * a32, -(a13 * a22 * a31));
    assert(a00 * (a11 * a22 * a33) == a00 * a11 * a22 * a33) by (nonlinear_arith);
    lemma_mul_neg(a00, a11 * a23 * a32);
    assert(a00 * (a11 * a23 * a32) == a00 * a11 * a23 * a32) by (nonlinear_arith);
    lemma_mul_neg(a00, a12 * a21 * a33);
    assert(a00 * (a12 * a21 * a33) == a00 * a12 * a21 * a33) by (nonlinear_arith);
    assert(a00 * (a12 * a23 * a31) == a00 * a12 * a23 * a31) by (nonlinear_arith);
    assert(a00 * (a13 * a21 * a32) == a00 * a13 * a21 * a32) by (nonlinear_arith);
    lemma_mul_neg(a00, a13 * a22 * a31);
    assert(a00 * (a13 * a22 * a31) == a00 * a13 * a22 * a31) by (nonlinear_arith);
    assert(a10 * (a22 * a33 - a23 * a32) == a10 * a22 * a33 - a10 * a23 * a32) by (nonlinear_arith);
    assert(a30 * a23 == a23 * a30) by (nonlinear_arith);
    assert(a12 * (a20 * a33 - a23 * a30) == a12 * a20 * a33 - a12 * a23 * a30) by (nonlinear_arith);
    assert(a30 * a22 == a22 * a30) by (nonlinear_arith);
    assert(a13 * (a20 * a32 - a22 * a30) == a13 * a20 * a32 - a13 * a22 * a30) by (nonlinear_arith);
    lemma_distrib6(a01, a10 * a22 * a33, -(a10 * a23 * a32), -(a12 * a20 * a33), a12 * a23 * a30, a13 * a20 * a32, -(a13 * a22 * a30));
    assert(a01 * (a10 * a22 * a33) == a01 * a10 * a22 * a33) by (nonlinear_arith);
    lemma_mul_neg(a01, a10 * a23 * a32);
    assert(a01 * (a10 * a23 * a32) == a01 * a10 * a23 * a32) by (nonlinear_arith);
    lemma_mul_neg(a01, a12 * a20 * a33);
    assert(a01 * (a12 * a20 * a33) == a01 * a12 * a20 * a33) by (nonlinear_arith);
    assert(a01 * (a12 * a23 * a30) == a01 * a12 * a23 * a30) by (nonlinear_arith);
    assert(a01 * (a13 * a20 * a32) == a01 * a13 * a20 * a32) by (nonlinear_arith);
    lemma_mul_neg(a01, a13 * a22 * a30);
    assert(a01 * (a13 * a22 * a30) == a01 * a13 * a22 * a30) by (nonlinear_arith);
    assert(a10 * (a21 * a33 - a23 * a31) == a10 * a21 * a33 - a10 * a23 * a31) by (nonlinear_arith);
    assert(a11 * (a20 * a33 - a23 * a30) == a11 * a20 * a33 - a11 * a23 * a30) by (nonlinear_arith);
    assert(a30 * a21 == a21 * a30) by (nonlinear_arith);
    assert(a13 * (a20 * a31 - a21 * a30) == a13 * a20 * a31 - a13 * a21 * a30) by (nonlinear_arith);
    lemma_distrib6(a02, a10 * a21 * a33, -(a10 * a23 * a31), -(a11 * a20 * a33), a11 * a23 * a30, a13 * a20 * a31, -(a13 * a21 * a30));
    assert(a02 * (a10 * a21 * a33) == a02 * a10 * a21 * a33) by (nonlinear_arith);
    lemma_mul_neg(a02, a10 * a23 * a31);
    assert(a02 * (a10 * a23 * a31) == a02 * a10 * a23 * a31) by (nonlinear_arith);
    lemma_mul_neg(a02, a11 * a20 * a33);
    assert(a02 * (a11 * a20 * a33) == a02 * a11 * a20 * a33) by (nonlinear_arith);
    assert(a02 * (a11 * a23 * a30) == a02 * a11 * a23 * a30) by (nonlinear_arith);
    assert(a02 * (a13 * a20 * a31) == a02 * a13 * a20 * a31) by (nonlinear_arith);
    lemma_mul_neg(a02, a13 * a21 * a30);
    assert(a02 * (a13 * a21 * a30) == a02 * a13 * a21 * a30) by (nonlinear_arith);
    assert(a10 * (a21 * a32 - a22 * a31) == a10 * a21 * a32 - a10 * a22 * a31) by (nonlinear_arith);
    assert(a11 * (a20 * a32 - a22 * a30) == a11 * a20 * a32 - a11 * a22 * a30) by (nonlinear_arith);
    assert(a12 * (a20 * a31 - a21 * a30) == a12 * a20 * a31 - a12 * a21 * a30) by (nonlinear_arith);
    lemma_distrib6(a03, a10 * a21 * a32, -(a10 * a22 * a31), -(a11 * a20 * a32), a11 * a22 * a30, a12 * a20 * a31, -(a12 * a21 * a30));
    assert(a03 * (a10 * a21 * a32) == a03 * a10 * a21 * a32) by (nonlinear_arith);
    lemma_mul_neg(a03, a10 * a22 * a31);
    assert(a03 * (a10 * a22 * a31) == a03 * a10 * a22 * a31) by (nonlinear_arith);
    lemma_mul_neg(a03, a11 * a20 * a32);
    assert(a03 * (a11 * a20 * a32) == a03 * a11 * a20 * a32) by (nonlinear_arith);
    assert(a03 * (a11 * a22 * a30) == a03 * a11 * a22 * a30) by (nonlinear_arith);
    assert(a03 * (a12 * a20 * a31) == a03 * a12 * a20 * a31) by (nonlinear_arith);
    lemma_mul_neg(a03, a12 * a21 * a30);
    assert(a03 * (a12 * a21 * a30) == a03 * a12 * a21 * a30) by (nonlinear_arith);
}

proof fn lemma_cofactor_expansion4_01(a00: int, a01: int, a02: int, a03: int, a10: int, a11: int, a12: int, a13: int, a20: int, a21: int, a22: int, a23: int, a30: int, a31: int, a32: int, a33: int)
    ensures
        a01 * (a11 * (a22 * a33 - a32 * a23) - a12 * (a21 * a33 - a31 * a23) + a13 * (a21 * a32 - a31 * a22)) + a11 * (-(a01 * (a22 * a33 - a32 * a23) - a02 * (a21 * a33 - a31 * a23) + a03 * (a21 * a32 - a31 * a22))) + a21 * (a01 * (a12 * a33 - a32 * a13) - a02 * (a11 * a33 - a31 * a13) + a03 * (a11 * a32 - a31 * a12)) + a31 * (-(a01 * (a12 * a23 - a22 * a13) - a02 * (a11 * a23 - a21 * a13) + a03 * (a11 * a22 - a21 * a12))) == 0,
{
    assert(a32 * a23 == a23 * a32) by (nonlinear_arith);
    assert(a11 * (a22 * a33 - a23 * a32) == a11 * a22 * a33 - a11 * a23 * a32) by (nonlinear_arith);
    assert(a31 * a23 == a23 * a31) by (nonlinear_arith);
    assert(a12 * (a21 * a33 - a23 * a31) == a12 * a21 * a33 - a12 * a23 * a31) by (nonlinear_arith);
    assert(a31 * a22 == a22 * a31) by (nonlinear_arith);
    assert(a13 * (a21 * a32 - a22 * a31) == a13 * a21 * a32 - a13 * a22 * a31) by (nonlinear_arith);
    lemma_distrib6(a01, a11 * a22 * a33, -(a11 * a23 * a32), -(a12 * a21 * a33), a12 * a23 * a31, a13 * a21 * a32, -(a13 * a22 * a31));
    assert(a01 * (a11 * a22 * a33) == a01 * a11 * a22 * a33) by (nonlinear_arith);
    lemma_mul_neg(a01, a11 * a23 * a32);
    assert(a01 * (a11 * a23 * a32) == a01 * a11 * a23 * a32) by (nonlinear_arith);
    lemma_mul_neg(a01, a12 * a21 * a33);
    assert(a01 * (a12 * a21 * a33) == a01 * a12 * a21 * a33) by (nonlinear_arith);
    assert(a01 * (a12 * a23 * a31) == a01 * a12 * a23 * a31) by (nonlinear_arith);
    assert(a01 * (a13 * a21 * a32) == a01 * a13 * a21 * a32) by (nonlinear_arith);
    lemma_mul_neg(a01, a13 * a22 * a31);
    assert(a01 * (a13 * a22 * a31) == a01 * a13 * a22 * a31) by (nonlinear_arith);
    assert(a01 * (a22 * a33 - a23 * a32) == a01 * a22 * a33 - a01 * a23 * a32) by (nonlinear_arith);
    assert(a02 * (a21 * a33 - a23 * a31) == a02 * a21 * a33 - a02 * a23 * a31) by (nonlinear_arith);
    assert(a03 * (a21 * a32 - a22 * a31) == a03 * a21 * a32 - a03 * a22 * a31) by (nonlinear_arith);
    lemma_distrib6(a11, a01 * a22 * a33, -(a01 * a23 * a32), -(a02 * a21 * a33), a02 * a23 * a31, a03 * a21 * a32, -(a03 * a22 * a31));
    assert(a11 * (a01 * a22 * a33) == a01 * a11 * a22 * a33) by (nonlinear_arith);
    lemma_mul_neg(a11, a01 * a23 * a32);
    assert(a11 * (a01 * a23 * a32) == a01 * a11 * a23 * a32) by (nonlinear_arith);
    lemma_mul_neg(a11, a02 * a21 * a33);
    assert(a11 * (a02 * a21 * a33) == a02 * a11 * a21 * a33) by (nonlinear_arith);
    assert(a11 * (a02 * a23 * a31) == a02 * a11 * a23 * a31) by (nonlinear_arith);
    assert(a11 * (a03 * a21 * a32) == a03 * a11 * a21 * a32) by (nonlinear_arith);
    lemma_mul_neg(a11, a03 * a22 * a31);
    assert(a11 * (a03 * a22 * a31) == a03 * a11 * a22 * a31) by (nonlinear_arith);
    lemma_mul_neg(a11, a01 * (a22 * a33 - a32 * a23) - a02 * (a21 * a33 - a31 * a23) + a03 * (a21 * a32 - a31 * a22));
    assert(a32 * a13 == a13 * a32) by (nonlinear_arith);
    assert(a01 * (a12 * a33 - a13 * a32) == a01 * a12 * a33 - a01 * a13 * a32) by (nonlinear_arith);
    assert(a31 * a13 == a13 * a31) by (nonlinear_arith);
    assert(a02 * (a11 * a33 - a13 * a31) == a02 * a11 * a33 - a02 * a13 * a31) by (nonlinear_arith);
    assert(a31 * a12 == a12 * a31) by (nonlinear_arith);
    assert(a03 * (a11 * a32 - a12 * a31) == a03 * a11 * a32 - a03 * a12 * a31) by (nonlinear_arith);
    lemma_distrib6(a21, a01 * a12 * a33, -(a01 * a13 * a32), -(a02 * a11 * a33), a02 * a13 * a31, a03 * a11 * a32, -(a03 * a12 * a31));
    assert(a21 * (a01 * a12 * a33) == a01 * a12 * a21 * a33) by (nonlinear_arith);
    lemma_mul_neg(a21, a01 * a13 * a32);
    assert(a21 * (a01 * a13 * a32) == a01 * a13 * a21 * a32) by (nonlinear_arith);
    lemma_mul_neg(a21, a02 * a11 * a33);
    assert(a21 * (a02 * a11 * a33) == a02 * a11 * a21 * a33) by (nonlinear_arith);
    assert(a21 * (a02 * a13 * a31) == a02 * a13 * a21 * a31) by (nonlinear_arith);
    assert(a21 * (a03 * a11 * a32) == a03 * a11 * a21 * a32) by (nonlinear_arith);
    lemma_mul_neg(a21, a03 * a12 * a31);
    assert(a21 * (a03 * a12 * a31) == a03 * a12 * a21 * a31) by (nonlinear_arith);
    assert(a22 * a13 == a13 * a22) by (nonlinear_arith);
    assert(a01 * (a12 * a23 - a13 * a22) == a01 * a12 * a23 - a01 * a13 * a22) by (nonlinear_arith);
    assert(a21 * a13 == a13 * a21) by (nonlinear_arith);
    assert(a02 * (a11 * a23 - a13 * a21) == a02 * a11 * a23 - a02 * a13 * a21) by (nonlinear_arith);
    assert(a21 * a12 == a12 * a21) by (nonlinear_arith);
    assert(a03 * (a11 * a22 - a12 * a21) == a03 * a11 * a22 - a03 * a12 * a21) by (nonlinear_arith);
    lemma_distrib6(a31, a01 * a12 * a23, -(a01 * a13 * a22), -(a02 * a11 * a23), a02 * a13 * a21, a03 * a11 * a22, -(a03 * a12 * a21));
    assert(a31 * (a01 * a12 * a23) == a01 * a12 * a23 * a31) by (nonlinear_arith);
    lemma_mul_neg(a31, a01 * a13 * a22);
    assert(a31 * (a01 * a13 * a22) == a01 * a13 * a22 * a31) by (nonlinear_arith);
    lemma_mul_neg(a31, a02 * a11 * a23);
    assert(a31 * (a02 * a11 * a23) == a02 * a11 * a23 * a31) by (nonlinear_arith);
    assert(a31 * (a02 * a13 * a21) == a02 * a13 * a21 * a31) by (nonlinear_arith);
    assert(a31 * (a03 * a11 * a22) == a03 * a11 * a22 * a31) by (nonlinear_arith);
    lemma_mul_neg(a31, a03 * a12 * a21);
    assert(a31 * (a03 * a12 * a21) == a03 * a12 * a21 * a31) by (nonlinear_arith);
    lemma_mul_neg(a31, a01 * (a12 * a23 - a22 * a13) - a02 * (a11 * a23 - a21 * a13) + a03 * (a11 * a22 - a21 * a12));
}

proof fn lemma_cofactor_expansion4_02(a00: int, a01: int, a02: int, a03: int, a10: int, a11: int, a12: int, a13: int, a20: int, a21: int, a22: int, a23: int, a30: int, a31: int, a32: int, a33: int)
    ensures
        a02 * (a11 * (a22 * a33 - a32 * a23) - a12 * (a21 * a33 - a31 * a23) + a13 * (a21 * a32 - a31 * a22)) + a12 * (-(a01 * (a22 * a33 - a32 * a23) - a02 * (a21 * a33 - a31 * a23) + a03 * (a21 * a32 - a31 * a22))) + a22 * (a01 * (a12 * a33 - a32 * a13) - a02 * (a11 * a33 - a31 * a13) + a03 * (a11 * a32 - a31 * a12)) + a32 * (-(a01 * (a12 * a23 - a22 * a13) - a02 * (a11 * a23 - a21 * a13) + a03 * (a11 * a22 - a21 * a12))) == 0,
{
    assert(a32 * a23 == a23 * a32) by (nonlinear_arith);
    assert(a11 * (a22 * a33 - a23 * a32) == a11 * a22 * a33 - a11 * a23 * a32) by (nonlinear_arith);
    assert(a31 * a23 == a23 * a31) by (nonlinear_arith);
    assert(a12 * (a21 * a33 - a23 * a31) == a12 * a21 * a33 - a12 * a23 * a31) by (nonlinear_arith);
    assert(a31 * a22 == a22 * a31) by (nonlinear_arith);
    assert(a13 * (a21 * a32 - a22 * a31) == a13 * a21 * a32 - a13 * a22 * a31) by (nonlinear_arith);
    lemma_distrib6(a02, a11 * a22 * a33, -(a11 * a23 * a32), -(a12 * a21 * a33), a12 * a23 * a31, a13 * a21 * a32, -(a13 * a22 * a31));
    assert(a02 * (a11 * a22 * a33) == a02 * a11 * a22 * a33) by (nonlinear_arith);
    lemma_mul_neg(a02, a11 * a23 * a32);
    assert(a02 * (a11 * a23 * a32) == a02 * a11 * a23 * a32) by (nonlinear_arith);
    lemma_mul_neg(a02, a12 * a21 * a33);
    assert(a02 * (a12 * a21 * a33) == a02 * a12 * a21 * a33) by (nonlinear_arith);
    assert(a02 * (a12 * a23 * a31) == a02 * a12 * a23 * a31) by (nonlinear_arith);
    assert(a02 * (a13 * a21 * a32) == a02 * a13 * a21 * a32) by (nonlinear_arith);
    lemma_mul_neg(a02, a13 * a22 * a31);
    assert(a02 * (a13 * a22 * a31) == a02 * a13 * a22 * a31) by (nonlinear_arith);
    assert(a01 * (a22 * a33 - a23 * a32) == a01 * a22 * a33 - a01 * a23 * a32) by (nonlinear_arith);
    assert(a02 * (a21 * a33 - a23 * a31) == a02 * a21 * a33 - a02 * a23 * a31) by (nonlinear_arith);
    assert(a03 * (a21 * a32 - a22 * a31) == a03 * a21 * a32 - a03 * a22 * a31) by (nonlinear_arith);
    lemma_distrib6(a12, a01 * a22 * a33, -(a01 * a23 * a32), -(a02 * a21 * a33), a02 * a23 * a31, a03 * a21 * a32, -(a03 * a22 * a31));
    assert(a12 * (a01 * a22 * a33) == a01 * a12 * a22 * a33) by (nonlinear_arith);
    lemma_mul_neg(a12, a01 * a23 * a32);
    assert(a12 * (a01 * a23 * a32) == a01 * a12 * a23 * a32) by (nonlinear_arith);
    lemma_mul_neg(a12, a02 * a21 * a33);
    assert(a12 * (a02 * a21 * a33) == a02 * a12 * a21 * a33) by (nonlinear_arith);
    assert(a12 * (a02 * a23 * a31) == a02 * a12 * a23 * a31) by (nonlinear_arith);
    assert(a12 * (a03 * a21 * a32) == a03 * a12 * a21 * a32) by (nonlinear_arith);
    lemma_mul_neg(a12, a03 * a22 * a31);
    assert(a12 * (a03 * a22 * a31) == a03 * a12 * a22 * a31) by (nonlinear_arith);
    lemma_mul_neg(a12, a01 * (a22 * a33 - a32 * a23) - a02 * (a21 * a33 - a31 * a23) + a03 * (a21 * a32 - a31 * a22));
    assert(a32 * a13 == a13 * a32) by (nonlinear_arith);
    assert(a01 * (a12 * a33 - a13 * a32) == a01 * a12 * a33 - a01 * a13 * a32) by (nonlinear_arith);
    assert(a31 * a13 == a13 * a31) by (nonlinear_arith);
    assert(a02 * (a11 * a33 - a13 * a31) == a02 * a11 * a33 - a02 * a13 * a31) by (nonlinear_arith);
    assert(a31 * a12 == a12 * a31) by (nonlinear_arith);
    assert(a03 * (a11 * a32 - a12 * a31) == a03 * a11 * a32 - a03 * a12 * a31) by (nonlinear_arith);
    lemma_distrib6(a22, a01 * a12 * a33, -(a01 * a13 * a32), -(a02 * a11 * a33), a02 * a13 * a31, a03 * a11 * a32, -(a03 * a12 * a31));
    assert(a22 * (a01 * a12 * a33) == a01 * a12 * a22 * a33) by (nonlinear_arith);
    lemma_mul_neg(a22, a01 * a13 * a32);
    assert(a22 * (a01 * a13 * a32) == a01 * a13 * a22 * a32) by (nonlinear_arith);
    lemma_mul_neg(a22, a02 * a11 * a33);
    assert(a22 * (a02 * a11 * a33) == a02 * a11 * a22 * a33) by (nonlinear_arith);
    assert(a22 * (a02 * a13 * a31) == a02 * a13 * a22 * a31) by (nonlinear_arith);
    assert(a22 * (a03 * a11 * a32) == a03 * a11 * a22 * a32) by (nonlinear_arith);
    lemma_mul_neg(a22, a03 * a12 * a31);
    assert(a22 * (a03 * a12 * a31) == a03 * a12 * a22 * a31) by (nonlinear_arith);
    assert(a22 * a13 == a13 * a22) by (nonlinear_arith);
    assert(a01 * (a12 * a23 - a13 * a22) == a01 * a12 * a23 - a01 * a13 * a22) by (nonlinear_arith);
    assert(a21 * a13 == a13 * a21) by (nonlinear_arith);
    assert(a02 * (a11 * a23 - a13 * a21) == a02 * a11 * a23 - a02 * a13 * a21) by (nonlinear_arith);
    assert(a21 * a12 == a12 * a21) by (nonlinear_arith);
    assert(a03 * (a11 * a22 - a12 * a21) == a03 * a11 * a22 - a03 * a12 * a21) by (nonlinear_arith);
    lemma_distrib6(a32, a01 * a12 * a23, -(a01 * a13 * a22), -(a02 * a11 * a23), a02 * a13 * a21, a03 * a11 * a22, -(a03 * a12 * a21));
    assert(a32 * (a01 * a12 * a23) == a01 * a12 * a23 * a32) by (nonlinear_arith);
    lemma_mul_neg(a32, a01 * a13 * a22);
    assert(a32 * (a01 * a13 * a22) == a01 * a13 * a22 * a32) by (nonlinear_arith);
    lemma_mul_neg(a32, a02 * a11 * a23);
    assert(a32 * (a02 * a11 * a23) == a02 * a11 * a23 * a32) by (nonlinear_arith);
    assert(a32 * (a02 * a13 * a21) == a02 * a13 * a21 * a32) by (nonlinear_arith);
    assert(a32 * (a03 * a11 * a22) == a03 * a11 * a22 * a32) by (nonlinear_arith);
    lemma_mul_neg(a32, a03 * a12 * a21);
    assert(a32 * (a03 * a12 * a21) == a03 * a12 * a21 * a32) by (nonlinear_arith);
    lemma_mul_neg(a32, a01 * (a12 * a23 - a22 * a13) - a02 * (a11 * a23 - a21 * a13) + a03 * (a11 * a22 - a21 * a12));
}

proof fn lemma_cofactor_expansion4_03(a00: int, a01: int, a02: int, a03: int, a10: int, a11: int, a12: int, a13: int, a20: int, a21: int, a22: int, a23: int, a30: int, a31: int, a32: int, a33: int)
    ensures
        a03 * (a11 * (a22 * a33 - a32 * a23) - a12 * (a21 * a33 - a31 * a23) + a13 * (a21 * a32 - a31 * a22)) + a13 * (-(a01 * (a22 * a33 - a32 * a23) - a02 * (a21 * a33 - a31 * a23) + a03 * (a21 * a32 - a31 * a22))) + a23 * (a01 * (a12 * a33 - a32 * a13) - a02 * (a11 * a33 - a31 * a13) + a03 * (a11 * a32 - a31 * a12)) + a33 * (-(a01 * (a12 * a23 - a22 * a13) - a02 * (a11 * a23 - a21 * a13) + a03 * (a11 * a22 - a21 * a12))) == 0,
{
    assert(a32 * a23 == a23 * a32) by (nonlinear_arith);
    assert(a11 * (a22 * a33 - a23 * a32) == a11 * a22 * a33 - a11 * a23 * a32) by (nonlinear_arith);
    assert(a31 * a23 == a23 * a31) by (nonlinear_arith);
    assert(a12 * (a21 * a33 - a23 * a31) == a12 * a21 * a33 - a12 * a23 * a31) by (nonlinear_arith);
    assert(a31 * a22 == a22 * a31) by (nonlinear_arith);
    assert(a13 * (a21 * a32 - a22 * a31) == a13 * a21 * a32 - a13 * a22 * a31) by (nonlinear_arith);
    lemma_distrib6(a03, a11 * a22 * a33, -(a11 * a23 * a32), -(a12 * a21 * a33), a12 * a23 * a31, a13 * a21 * a32, -(a13 * a22 * a31));
    assert(a03 * (a11 * a22 * a33) == a03 * a11 * a22 * a33) by (nonlinear_arith);
    lemma_mul_neg(a03, a11 * a23 * a32);
    assert(a03 * (a11 * a23 * a32) == a03 * a11 * a23 * a32) by (nonlinear_arith);
    lemma_mul_neg(a03, a12 * a21 * a33);
    assert(a03 * (a12 * a21 * a33) == a03 * a12 * a21 * a33) by (nonlinear_arith);
    assert(a03 * (a12 * a23 * a31) == a03 * a12 * a23 * a31) by (nonlinear_arith);
    assert(a03 * (a13 * a21 * a32) == a03 * a13 * a21 * a32) by (nonlinear_arith);
    lemma_mul_neg(a03, a13 * a22 * a31);
    assert(a03 * (a13 * a22 * a31) == a03 * a13 * a22 * a31) by (nonlinear_arith);
    assert(a01 * (a22 * a33 - a23 * a32) == a01 * a22 * a33 - a01 * a23 * a32) by (nonlinear_arith);
    assert(a02 * (a21 * a33 - a23 * a31) == a02 * a21 * a33 - a02 * a23 * a31) by (nonlinear_arith);
    assert(a03 * (a21 * a32 - a22 * a31) == a03 * a21 * a32 - a03 * a22 * a31) by (nonlinear_arith);
    lemma_distrib6(a13, a01 * a22 * a33, -(a01 * a23 * a32), -(a02 * a21 * a33), a02 * a23 * a31, a03 * a21 * a32, -(a03 * a22 * a31));
    assert(a13 * (a01 * a22 * a33) == a01 * a13 * a22 * a33) by (nonlinear_arith);
    lemma_mul_neg(a13, a01 * a23 * a32);
    assert(a13 * (a01 * a23 * a32) == a01 * a13 * a23 * a32) by (nonlinear_arith);
    lemma_mul_neg(a13, a02 * a21 * a33);
    assert(a13 * (a02 * a21 * a33) == a02 * a13 * a21 * a33) by (nonlinear_arith);
    assert(a13 * (a02 * a23 * a31) == a02 * a13 * a23 * a31) by (nonlinear_arith);
    assert(a13 * (a03 * a21 * a32) == a03 * a13 * a21 * a32) by (nonlinear_arith);
    lemma_mul_neg(a13, a03 * a22 * a31);
    assert(a13 * (a03 * a22 * a31) == a03 * a13 * a22 * a31) by (nonlinear_arith);
    lemma_mul_neg(a13, a01 * (a22 * a33 - a32 * a23) - a02 * (a21 * a33 - a31 * a23) + a03 * (a21 * a32 - a31 * a22));
    assert(a32 * a13 == a13 * a32) by (nonlinear_arith);
    assert(a01 * (a12 * a33 - a13 * a32) == a01 * a12 * a33 - a01 * a13 * a32) by (nonlinear_arith);
    assert(a31 * a13 == a13 * a31) by (nonlinear_arith);
    assert(a02 * (a11 * a33 - a13 * a31) == a02 * a11 * a33 - a02 * a13 * a31) by (nonlinear_arith);
    assert(a31 * a12 == a12 * a31) by (nonlinear_arith);
    assert(a03 * (a11 * a32 - a12 * a31) == a03 * a11 * a32 - a03 * a12 * a31) by (nonlinear_arith);
    lemma_distrib6(a23, a01 * a12 * a33, -(a01 * a13 * a32), -(a02 * a11 * a33), a02 * a13 * a31, a03 * a11 * a32, -(a03 * a12 * a31));
    assert(a23 * (a01 * a12 * a33) == a01 * a12 * a23 * a33) by (nonlinear_arith);
    lemma_mul_neg(a23, a01 * a13 * a32);
    assert(a23 * (a01 * a13 * a32) == a01 * a13 * a23 * a32) by (nonlinear_arith);
    lemma_mul_neg(a23, a02 * a11 * a33);
    assert(a23 * (a02 * a11 * a33) == a02 * a11 * a23 * a33) by (nonlinear_arith);
    assert(a23 * (a02 * a13 * a31) == a02 * a13 * a23 * a31) by (nonlinear_arith);
    assert(a23 * (a03 * a11 * a32) == a03 * a11 * a23 * a32) by (nonlinear_arith);
    lemma_mul_neg(a23, a03 * a12 * a31);
    assert(a23 * (a03 * a12 * a31) == a03 * a12 * a23 * a31) by (nonlinear_arith);
    assert(a22 * a13 == a13 * a22) by (nonlinear_arith);
    assert(a01 * (a12 * a23 - a13 * a22) == a01 * a12 * a23 - a01 * a13 * a22) by (nonlinear_arith);
    assert(a21 * a13 == a13 * a21) by (nonlinear_arith);
    assert(a02 * (a11 * a23 - a13 * a21) == a02 * a11 * a23 - a02 * a13 * a21) by (nonlinear_arith);
    assert(a21 * a12 == a12 * a21) by (nonlinear_arith);
    assert(a03 * (a11 * a22 - a12 * a21) == a03 * a11 * a22 - a03 * a12 * a21) by (nonlinear_arith);
    lemma_distrib6(a33, a01 * a12 * a23, -(a01 * a13 * a22), -(a02 * a11 * a23), a02 * a13 * a21, a03 * a11 * a22, -(a03 * a12 * a21));
    assert(a33 * (a01 * a12 * a23) == a01 * a12 * a23 * a33) by (nonlinear_arith);
    lemma_mul_neg(a33, a01 * a13 * a22);
    assert(a33 * (a01 * a13 * a22) == a01 * a13 * a22 * a33) by (nonlinear_arith);
    lemma_mul_neg(a33, a02 * a11 * a23);
    assert(a33 * (a02 * a11 * a23) == a02 * a11 * a23 * a33) by (nonlinear_arith);
    assert(a33 * (a02 * a13 * a21) == a02 * a13 * a21 * a33) by (nonlinear_arith);
    assert(a33 * (a03 * a11 * a22) == a03 * a11 * a22 * a33) by (nonlinear_arith);
    lemma_mul_neg(a33, a03 * a12 * a21);
    assert(a33 * (a03 * a12 * a21) == a03 * a12 * a21 * a33) by (nonlinear_arith);
    lemma_mul_neg(a33, a01 * (a12 * a23 - a22 * a13) - a02 * (a11 * a23 - a21 * a13) + a03 * (a11 * a22 - a21 * a12));
}

proof fn lemma_cofactor_expansion4_10(a00: int, a01: int, a02: int, a03: int, a10: int, a11: int, a12: int, a13: int, a20: int, a21: int, a22: int, a23: int, a30: int, a31: int, a32: int, a33: int)
    ensures
        a00 * (-(a10 * (a22 * a33 - a32 * a23) - a12 * (a20 * a33 - a30 * a23) + a13 * (a20 * a32 - a30 * a22))) + a10 * (a00 * (a22 * a33 - a32 * a23) - a02 * (a20 * a33 - a30 * a23) + a03 * (a20 * a32 - a30 * a22)) + a20 * (-(a00 * (a12 * a33 - a32 * a13) - a02 * (a10 * a33 - a30 * a13) + a03 * (a10 * a32 - a30 * a12))) + a30 * (a00 * (a12 * a23 - a22 * a13) - a02 * (a10 * a23 - a20 * a13) + a03 * (a10 * a22 - a20 * a12)) == 0,
{
    assert(a32 * a23 == a23 * a32) by (nonlinear_arith);
    assert(a10 * (a22 * a33 - a23 * a32) == a10 * a22 * a33 - a10 * a23 * a32) by (nonlinear_arith);
    assert(a30 * a23 == a23 * a30) by (nonlinear_arith);
    assert(a12 * (a20 * a33 - a23 * a30) == a12 * a20 * a33 - a12 * a23 * a30) by (nonlinear_arith);
    assert(a30 * a22 == a22 * a30) by (nonlinear_arith);
    assert(a13 * (a20 * a32 - a22 * a30) == a13 * a20 * a32 - a13 * a22 * a30) by (nonlinear_arith);
    lemma_distrib6(a00, a10 * a22 * a33, -(a10 * a23 * a32), -(a12 * a20 * a33), a12 * a23 * a30, a13 * a20 * a32, -(a13 * a22 * a30));
    assert(a00 * (a10 * a22 * a33) == a00 * a10 * a22 * a33) by (nonlinear_arith);
    lemma_mul_neg(a00, a10 * a23 * a32);
    assert(a00 * (a10 * a23 * a32) == a00 * a10 * a23 * a32) by (nonlinear_arith);
    lemma_mul_neg(a00, a12 * a20 * a33);
    assert(a00 * (a12 * a20 * a33) == a00 * a12 * a20 * a33) by (nonlinear_arith);
    assert(a00 * (a12 * a23 * a30) == a00 * a12 * a23 * a30) by (nonlinear_arith);
    assert(a00 * (a13 * a20 * a32) == a00 * a13 * a20 * a32) by (nonlinear_arith);
    lemma_mul_neg(a00, a13 * a22 * a30);
    assert(a00 * (a13 * a22 * a30) == a00 * a13 * a22 * a30) by (nonlinear_arith);
    lemma_mul_neg(a00, a10 * (a22 * a33 - a32 * a23) - a12 * (a20 * a33 - a30 * a23) + a13 * (a20 * a32 - a30 * a22));
    assert(a00 * (a22 * a33 - a23 * a32) == a00 * a22 * a33 - a00 * a23 * a32) by (nonlinear_arith);
    assert(a02 * (a20 * a33 - a23 * a30) == a02 * a20 * a33 - a02 * a23 * a30) by (nonlinear_arith);
    assert(a03 * (a20 * a32 - a22 * a30) == a03 * a20 * a32 - a03 * a22 * a30) by (nonlinear_arith);
    lemma_distrib6(a10, a00 * a22 * a33, -(a00 * a23 * a32), -(a02 * a20 * a33), a02 * a23 * a30, a03 * a20 * a32, -(a03 * a22 * a30));
    assert(a10 * (a00 * a22 * a33) == a00 * a10 * a22 * a33) by (nonlinear_arith);
    lemma_mul_neg(a10, a00 * a23 * a32);
    assert(a10 * (a00 * a23 * a32) == a00 * a10 * a23 * a32) by (nonlinear_arith);
    lemma_mul_neg(a10, a02 * a20 * a33);
    assert(a10 * (a02 * a20 * a33) == a02 * a10 * a20 * a33) by (nonlinear_arith);
    assert(a10 * (a02 * a23 * a30) == a02 * a10 * a23 * a30) by (nonlinear_arith);
    assert(a10 * (a03 * a20 * a32) == a03 * a10 * a20 * a32) by (nonlinear_arith);
    lemma_mul_neg(a10, a03 * a22 * a30);
    assert(a10 * (a03 * a22 * a30) == a03 * a10 * a22 * a30) by (nonlinear_arith);
    assert(a32 * a13 == a13 * a32) by (nonlinear_arith);
    assert(a00 * (a12 * a33 - a13 * a32) == a00 * a12 * a33 - a00 * a13 * a32) by (nonlinear_arith);
    assert(a30 * a13 == a13 * a30) by (nonlinear_arith);
    assert(a02 * (a10 * a33 - a13 * a30) == a02 * a10 * a33 - a02 * a13 * a30) by (nonlinear_arith);
    assert(a30 * a12 == a12 * a30) by (nonlinear_arith);
    assert(a03 * (a10 * a32 - a12 * a30) == a03 * a10 * a32 - a03 * a12 * a30) by (nonlinear_arith);
    lemma_distrib6(a20, a00 * a12 * a33, -(a00 * a13 * a32), -(a02 * a10 * a33), a02 * a13 * a30, a03 * a10 * a32, -(a03 * a12 * a30));
    assert(a20 * (a00 * a12 * a33) == a00 * a12 * a20 * a33) by (nonlinear_arith);
    lemma_mul_neg(a20, a00 * a13 * a32);
    assert(a20 * (a00 * a13 * a32) == a00 * a13 * a20 * a32) by (nonlinear_arith);
    lemma_mul_neg(a20, a02 * a10 * a33);
    assert(a20 * (a02 * a10 * a33) == a02 * a10 * a20 * a33) by (nonlinear_arith);
    assert(a20 * (a02 * a13 * a30) == a02 * a13 * a20 * a30) by (nonlinear_arith);
    assert(a20 * (a03 * a10 * a32) == a03 * a10 * a20 * a32) by (nonlinear_arith);
    lemma_mul_neg(a20, a03 * a12 * a30);
    assert(a20 * (a03 * a12 * a30) == a03 * a12 * a20 * a30) by (nonlinear_arith);
    lemma_mul_neg(a20, a00 * (a12 * a33 - a32 * a13) - a02 * (a10 * a33 - a30 * a13) + a03 * (a10 * a32 - a30 * a12));
    assert(a22 * a13 == a13 * a22) by (nonlinear_arith);
    assert(a00 * (a12 * a23 - a13 * a22) == a00 * a12 * a23 - a00 * a13 * a22) by (nonlinear_arith);
    assert(a20 * a13 == a13 * a20) by (nonlinear_arith);
    assert(a02 * (a10 * a23 - a13 * a20) == a02 * a10 * a23 - a02 * a13 * a20) by (nonlinear_arith);
    assert(a20 * a12 == a12 * a20) by (nonlinear_arith);
    assert(a03 * (a10 * a22 - a12 * a20) == a03 * a10 * a22 - a03 * a12 * a20) by (nonlinear_arith);
    lemma_distrib6(a30, a00 * a12 * a23, -(a00 * a13 * a22), -(a02 * a10 * a23), a02 * a13 * a20, a03 * a10 * a22, -(a03 * a12 * a20));
    assert(a30 * (a00 * a12 * a23) == a00 * a12 * a23 * a30) by (nonlinear_arith);
    lemma_mul_neg(a30, a00 * a13 * a22);
    assert(a30 * (a00 * a13 * a22) == a00 * a13 * a22 * a30) by (nonlinear_arith);
    lemma_mul_neg(a30, a02 * a10 * a23);
    assert(a30 * (a02 * a10 * a23) == a02 * a10 * a23 * a30) by (nonlinear_arith);
    assert(a30 * (a02 * a13 * a20) == a02 * a13 * a20 * a30) by (nonlinear_arith);
    assert(a30 * (a03 * a10 * a22) == a03 * a10 * a22 * a30) by (nonlinear_arith);
    lemma_mul_neg(a30, a03 * a12 * a20);
    assert(a30 * (a03 * a12 * a20) == a03 * a12 * a20 * a30) by (nonlinear_arith);
}

proof fn lemma_cofactor_expansion4_11(a00: int, a01: int, a02: int, a03: int, a10: int, a11: int, a12: int, a13: int, a20: int, a21: int, a22: int, a23: int, a30: int, a31: int, a32: int, a33: int)
    ensures
        a01 * (-(a10 * (a22 * a33 - a32 * a23) - a12 * (a20 * a33 - a30 * a23) + a13 * (a20 * a32 - a30 * a22))) + a11 * (a00 * (a22 * a33 - a32 * a23) - a02 * (a20 * a33 - a30 * a23) + a03 * (a20 * a32 - a30 * a22)) + a21 * (-(a00 * (a12 * a33 - a32 * a13) - a02 * (a10 * a33 - a30 * a13) + a03 * (a10 * a32 - a30 * a12))) + a31 * (a00 * (a12 * a23 - a22 * a13) - a02 * (a10 * a23 - a20 * a13) + a03 * (a10 * a22 - a20 * a12)) == a00 * (a11 * (a22 * a33 - a32 * a23) - a12 * (a21 * a33 - a31 * a23) + a13 * (a21 * a32 - a31 * a22)) - a01 * (a10 * (a22 * a33 - a32 * a23) - a12 * (a20 * a33 - a30 * a23) + a13 * (a20 * a32 - a30 * a22)) + a02 * (a10 * (a21 * a33 - a31 * a23) - a11 * (a20 * a33 - a30 * a23) + a13 * (a20 * a31 - a30 * a21)) - a03 * (a10 * (a21 * a32 - a31 * a22) - a11 * (a20 * a32 - a30 * a22) + a12 * (a20 * a31 - a30 * a21)),
{
    assert(a32 * a23 == a23 * a32) by (nonlinear_arith);
    assert(a10 * (a22 * a33 - a23 * a32) == a10 * a22 * a33 - a10 * a23 * a32) by (nonlinear_arith);
    assert(a30 * a23 == a23 * a30) by (nonlinear_arith);
    assert(a12 * (a20 * a33 - a23 * a30) == a12 * a20 * a33 - a12 * a23 * a30) by (nonlinear_arith);
    assert(a30 * a22 == a22 * a30) by (nonlinear_arith);
    assert(a13 * (a20 * a32 - a22 * a30) == a13 * a20 * a32 - a13 * a22 * a30) by (nonlinear_arith);
    lemma_distrib6(a01, a10 * a22 * a33, -(a10 * a23 * a32), -(a12 * a20 * a33), a12 * a23 * a30, a13 * a20 * a32, -(a13 * a22 * a30));
    assert(a01 * (a10 * a22 * a33) == a01 * a10 * a22 * a33) by (nonlinear_arith);
    lemma_mul_neg(a01, a10 * a23 * a32);
    assert(a01 * (a10 * a23 * a32) == a01 * a10 * a23 * a32) by (nonlinear_arith);
    lemma_mul_neg(a01, a12 * a20 * a33);
    assert(a01 * (a12 * a20 * a33) == a01 * a12 * a20 * a33) by (nonlinear_arith);
    assert(a01 * (a12 * a23 * a30) == a01 * a12 * a23 * a30) by (nonlinear_arith);
    assert(a01 * (a13 * a20 * a32) == a01 * a13 * a20 * a32) by (nonlinear_arith);
    lemma_mul_neg(a01, a13 * a22 * a30);
    assert(a01 * (a13 * a22 * a30) == a01 * a13 * a22 * a30) by (nonlinear_arith);
    lemma_mul_neg(a01, a10 * (a22 * a33 - a32 * a23) - a12 * (a20 * a33 - a30 * a23) + a13 * (a20 * a32 - a30 * a22));
    assert(a00 * (a22 * a33 - a23 * a32) == a00 * a22 * a33 - a00 * a23 * a32) by (nonlinear_arith);
    assert(a02 * (a20 * a33 - a23 * a30) == a02 * a20 * a33 - a02 * a23 * a30) by (nonlinear_arith);
    assert(a03 * (a20 * a32 - a22 * a30) == a03 * a20 * a32 - a03 * a22 * a30) by (nonlinear_arith);
    lemma_distrib6(a11, a00 * a22 * a33, -(a00 * a23 * a32), -(a02 * a20 * a33), a02 * a23 * a30, a03 * a20 * a32, -(a03 * a22 * a30));
    assert(a11 * (a00 * a22 * a33) == a00 * a11 * a22 * a33) by (nonlinear_arith);
    lemma_mul_neg(a11, a00 * a23 * a32);
    assert(a11 * (a00 * a23 * a32) == a00 * a11 * a23 * a32) by (nonlinear_arith);
    lemma_mul_neg(a11, a02 * a20 * a33);
    assert(a11 * (a02 * a20 * a33) == a02 * a11 * a20 * a33) by (nonlinear_arith);
    assert(a11 * (a02 * a23 * a30) == a02 * a11 * a23 * a30) by (nonlinear_arith);
    assert(a11 * (a03 * a20 * a32) == a03 * a11 * a20 * a32) by (nonlinear_arith);
    lemma_mul_neg(a11, a03 * a22 * a30);
    assert(a11 * (a03 * a22 * a30) == a03 * a11 * a22 * a30) by (nonlinear_arith);
    assert(a32 * a13 == a13 * a32) by (nonlinear_arith);
    assert(a00 * (a12 * a33 - a13 * a32) == a00 * a12 * a33 - a00 * a13 * a32) by (nonlinear_arith);
    assert(a30 * a13 == a13 * a30) by (nonlinear_arith);
    assert(a02 * (a10 * a33 - a13 * a30) == a02 * a10 * a33 - a02 * a13 * a30) by (nonlinear_arith);
    assert(a30 * a12 == a12 * a30) by (nonlinear_arith);
    assert(a03 * (a10 * a32 - a12 * a30) == a03 * a10 * a32 - a03 * a12 * a30) by (nonlinear_arith);
    lemma_distrib6(a21, a00 * a12 * a33, -(a00 * a13 * a32), -(a02 * a10 * a33), a02 * a13 * a30, a03 * a10 * a32, -(a03 * a12 * a30));
    assert(a21 * (a00 * a12 * a33) == a00 * a12 * a21 * a33) by (nonlinear_arith);
    lemma_mul_neg(a21, a00 * a13 * a32);
    assert(a21 * (a00 * a13 * a32) == a00 * a13 * a21 * a32) by (nonlinear_arith);
    lemma_mul_neg(a21, a02 * a10 * a33);
    assert(a21 * (a02 * a10 * a33) == a02 * a10 * a21 * a33) by (nonlinear_arith);
    assert(a21 * (a02 * a13 * a30) == a02 * a13 * a21 * a30) by (nonlinear_arith);
    assert(a21 * (a03 * a10 * a32) == a03 * a10 * a21 * a32) by (nonlinear_arith);
    lemma_mul_neg(a21, a03 * a12 * a30);
    assert(a21 * (a03 * a12 * a30) == a03 * a12 * a21 * a30) by (nonlinear_arith);
    lemma_mul_neg(a21, a00 * (a12 * a33 - a32 * a13) - a02 * (a10 * a33 - a30 * a13) + a03 * (a10 * a32 - a30 * a12));
    assert(a22 * a13 == a13 * a22) by (nonlinear_arith);
    assert(a00 * (a12 * a23 - a13 * a22) == a00 * a12 * a23 - a00 * a13 * a22) by (nonlinear_arith);
    assert(a20 * a13 == a13 * a20) by (nonlinear_arith);
    assert(a02 * (a10 * a23 - a13 * a20) == a02 * a10 * a23 - a02 * a13 * a20) by (nonlinear_arith);
    assert(a20 * a12 == a12 * a20) by (nonlinear_arith);
    assert(a03 * (a10 * a22 - a12 * a20) == a03 * a10 * a22 - a03 * a12 * a20) by (nonlinear_arith);
    lemma_distrib6(a31, a00 * a12 * a23, -(a00 * a13 * a22), -(a02 * a10 * a23), a02 * a13 * a20, a03 * a10 * a22, -(a03 * a12 * a20));
    assert(a31 * (a00 * a12 * a23) == a00 * a12 * a23 * a31) by (nonlinear_arith);
    lemma_mul_neg(a31, a00 * a13 * a22);
    assert(a31 * (a00 * a13 * a22) == a00 * a13 * a22 * a31) by (nonlinear_arith);
    lemma_mul_neg(a31, a02 * a10 * a23);
    assert(a31 * (a02 * a10 * a23) == a02 * a10 * a23 * a31) by (nonlinear_arith);
    assert(a31 * (a02 * a13 * a20) == a02 * a13 * a20 * a31) by (nonlinear_arith);
    assert(a31 * (a03 * a10 * a22) == a03 * a10 * a22 * a31) by (nonlinear_arith);
    lemma_mul_neg(a31, a03 * a12 * a20);
    assert(a31 * (a03 * a12 * a20) == a03 * a12 * a20 * a31) by (nonlinear_arith);
    assert(a11 * (a22 * a33 - a23 * a32) == a11 * a22 * a33 - a11 * a23 * a32) by (nonlinear_arith);
    assert(a31 * a23 == a23 * a31) by (nonlinear_arith);
    assert(a12 * (a21 * a33 - a23 * a31) == a12 * a21 * a33 - a12 * a23 * a31) by (nonlinear_arith);
    assert(a31 * a22 == a22 * a31) by (nonlinear_arith);
    assert(a13 * (a21 * a32 - a22 * a31) == a13 * a21 * a32 - a13 * a22 * a31) by (nonlinear_arith);
    lemma_distrib6(a00, a11 * a22 * a33, -(a11 * a23 * a32), -(a12 * a21 * a33), a12 * a23 * a31, a13 * a21 * a32, -(a13 * a22 * a31));
    assert(a00 * (a11 * a22 * a33) == a00 * a11 * a22 * a33) by (nonlinear_arith);
    lemma_mul_neg(a00, a11 * a23 * a32);
    assert(a00 * (a11 * a23 * a32) == a00 * a11 * a23 * a32) by (nonlinear_arith);
    lemma_mul_neg(a00, a12 * a21 * a33);
    assert(a00 * (a12 * a21 * a33) == a00 * a12 * a21 * a33) by (nonlinear_arith);
    assert(a00 * (a12 * a23 * a31) == a00 * a12 * a23 * a31) by (nonlinear_arith);
    assert(a00 * (a13 * a21 * a32) == a00 * a13 * a21 * a32) by (nonlinear_arith);
    lemma_mul_neg(a00, a13 * a22 * a31);
    assert(a00 * (a13 * a22 * a31) == a00 * a13 * a22 * a31) by (nonlinear_arith);
    lemma_distrib6(a01, a10 * a22 * a33, -(a10 * a23 * a32), -(a12 * a20 * a33), a12 * a23 * a30, a13 * a20 * a32, -(a13 * a22 * a30));
    assert(a01 * (a10 * a22 * a33) == a01 * a10 * a22 * a33) by (nonlinear_arith);
    lemma_mul_neg(a01, a10 * a23 * a32);
    assert(a01 * (a10 * a23 * a32) == a01 * a10 * a23 * a32) by (nonlinear_arith);
    lemma_mul_neg(a01, a12 * a20 * a33);
    assert(a01 * (a12 * a20 * a33) == a01 * a12 * a20 * a33) by (nonlinear_arith);
    assert(a01 * (a12 * a23 * a30) == a01 * a12 * a23 * a30) by (nonlinear_arith);
    assert(a01 * (a13 * a20 * a32) == a01 * a13 * a20 * a32) by (nonlinear_arith);
    lemma_mul_neg(a01, a13 * a22 * a30);
    assert(a01 * (a13 * a22 * a30) == a01 * a13 * a22 * a30) by (nonlinear_arith);
    assert(a10 * (a21 * a33 - a23 * a31) == a10 * a21 * a33 - a10 * a23 * a31) by (nonlinear_arith);
    assert(a11 * (a20 * a33 - a23 * a30) == a11 * a20 * a33 - a11 * a23 * a30) by (nonlinear_arith);
    assert(a30 * a21 == a21 * a30) by (nonlinear_arith);
    assert(a13 * (a20 * a31 - a21 * a30) == a13 * a20 * a31 - a13 * a21 * a30) by (nonlinear_arith);
    lemma_distrib6(a02, a10 * a21 * a33, -(a10 * a23 * a31), -(a11 * a20 * a33), a11 * a23 * a30, a13 * a20 * a31, -(a13 * a21 * a30));
    assert(a02 * (a10 * a21 * a33) == a02 * a10 * a21 * a33) by (nonlinear_arith);
    lemma_mul_neg(a02, a10 * a23 * a31);
    assert(a02 * (a10 * a23 * a31) == a02 * a10 * a23 * a31) by (nonlinear_arith);
    lemma_mul_neg(a02, a11 * a20 * a33);
    assert(a02 * (a11 * a20 * a33) == a02 * a11 * a20 * a33) by (nonlinear_arith);
    assert(a02 * (a11 * a23 * a30) == a02 * a11 * a23 * a30) by (nonlinear_arith);
    assert(a02 * (a13 * a20 * a31) == a02 * a13 * a20 * a31) by (nonlinear_arith);
    lemma_mul_neg(a02, a13 * a21 * a30);
    assert(a02 * (a13 * a21 * a30) == a02 * a13 * a21 * a30) by (nonlinear_arith);
    assert(a10 * (a21 * a32 - a22 * a31) == a10 * a21 * a32 - a10 * a22 * a31) by (nonlinear_arith);
    assert(a11 * (a20 * a32 - a22 * a30) == a11 * a20 * a32 - a11 * a22 * a30) by (nonlinear_arith);
    assert(a12 * (a20 * a31 - a21 * a30) == a12 * a20 * a31 - a12 * a21 * a30) by (nonlinear_arith);
    lemma_distrib6(a03, a10 * a21 * a32, -(a10 * a22 * a31), -(a11 * a20 * a32), a11 * a22 * a30, a12 * a20 * a31, -(a12 * a21 * a30));
    assert(a03 * (a10 * a21 * a32) == a03 * a10 * a21 * a32) by (nonlinear_arith);
    lemma_mul_neg(a03, a10 * a22 * a31);
    assert(a03 * (a10 * a22 * a31) == a03 * a10 * a22 * a31) by (nonlinear_arith);
    lemma_mul_neg(a03, a11 * a20 * a32);
    assert(a03 * (a11 * a20 * a32) == a03 * a11 * a20 * a32) by (nonlinear_arith);
    assert(a03 * (a11 * a22 * a30) == a03 * a11 * a22 * a30) by (nonlinear_arith);
    assert(a03 * (a12 * a20 * a31) == a03 * a12 * a20 * a31) by (nonlinear_arith);
    lemma_mul_neg(a03, a12 * a21 * a30);
    assert(a03 * (a12 * a21 * a30) == a03 * a12 * a21 * a30) by (nonlinear_arith);
}

proof fn lemma_cofactor_expansion4_12(a00: int, a01: int, a02: int, a03: int, a10: int, a11: int, a12: int, a13: int, a20: int, a21: int, a22: int, a23: int, a30: int, a31: int, a32: int, a33: int)
    ensures
        a02 * (-(a10 * (a22 * a33 - a32 * a23) - a12 * (a20 * a33 - a30 * a23) + a13 * (a20 * a32 - a30 * a22))) + a12 * (a00 * (a22 * a33 - a32 * a23) - a02 * (a20 * a33 - a30 * a23) + a03 * (a20 * a32 - a30 * a22)) + a22 * (-(a00 * (a12 * a33 - a32 * a13) - a02 * (a10 * a33 - a30 * a13) + a03 * (a10 * a32 - a30 * a12))) + a32 * (a00 * (a12 * a23 - a22 * a13) - a02 * (a10 * a23 - a20 * a13) + a03 * (a10 * a22 - a20 * a12)) == 0,
{
    assert(a32 * a23 == a23 * a32) by (nonlinear_arith);
    assert(a10 * (a22 * a33 - a23 * a32) == a10 * a22 * a33 - a10 * a23 * a32) by (nonlinear_arith);
    assert(a30 * a23 == a23 * a30) by (nonlinear_arith);
    assert(a12 * (a20 * a33 - a23 * a30) == a12 * a20 * a33 - a12 * a23 * a30) by (nonlinear_arith);
    assert(a30 * a22 == a22 * a30) by (nonlinear_arith);
    assert(a13 * (a20 * a32 - a22 * a30) == a13 * a20 * a32 - a13 * a22 * a30) by (nonlinear_arith);
    lemma_distrib6(a02, a10 * a22 * a33, -(a10 * a23 * a32), -(a12 * a20 * a33), a12 * a23 * a30, a13 * a20 * a32, -(a13 * a22 * a30));
    assert(a02 * (a10 * a22 * a33) == a02 * a10 * a22 * a33) by (nonlinear_arith);
    lemma_mul_neg(a02, a10 * a23 * a32);
    assert(a02 * (a10 * a23 * a32) == a02 * a10 * a23 * a32) by (nonlinear_arith);
    lemma_mul_neg(a02, a12 * a20 * a33);
    assert(a02 * (a12 * a20 * a33) == a02 * a12 * a20 * a33) by (nonlinear_arith);
    assert(a02 * (a12 * a23 * a30) == a02 * a12 * a23 * a30) by (nonlinear_arith);
    assert(a02 * (a13 * a20 * a32) == a02 * a13 * a20 * a32) by (nonlinear_arith);
    lemma_mul_neg(a02, a13 * a22 * a30);
    assert(a02 * (a13 * a22 * a30) == a02 * a13 * a22 * a30) by (nonlinear_arith);
    lemma_mul_neg(a02, a10 * (a22 * a33 - a32 * a23) - a12 * (a20 * a33 - a30 * a23) + a13 * (a20 * a32 - a30 * a22));
    assert(a00 * (a22 * a33 - a23 * a32) == a00 * a22 * a33 - a00 * a23 * a32) by (nonlinear_arith);
    assert(a02 * (a20 * a33 - a23 * a30) == a02 * a20 * a33 - a02 * a23 * a30) by (nonlinear_arith);
    assert(a03 * (a20 * a32 - a22 * a30) == a03 * a20 * a32 - a03 * a22 * a30) by (nonlinear_arith);
    lemma_distrib6(a12, a00 * a22 * a33, -(a00 * a23 * a32), -(a02 * a20 * a33), a02 * a23 * a30, a03 * a20 * a32, -(a03 * a22 * a30));
    assert(a12 * (a00 * a22 * a33) == a00 * a12 * a22 * a33) by (nonlinear_arith);
    lemma_mul_neg(a12, a00 * a23 * a32);
    assert(a12 * (a00 * a23 * a32) == a00 * a12 * a23 * a32) by (nonlinear_arith);
    lemma_mul_neg(a12, a02 * a20 * a33);
    assert(a12 * (a02 * a20 * a33) == a02 * a12 * a20 * a33) by (nonlinear_arith);
    assert(a12 * (a02 * a23 * a30) == a02 * a12 * a23 * a30) by (nonlinear_arith);
    assert(a12 * (a03 * a20 * a32) == a03 * a12 * a20 * a32) by (nonlinear_arith);
    lemma_mul_neg(a12, a03 * a22 * a30);
    assert(a12 * (a03 * a22 * a30) == a03 * a12 * a22 * a30) by (nonlinear_arith);
    assert(a32 * a13 == a13 * a32) by (nonlinear_arith);
    assert(a00 * (a12 * a33 - a13 * a32) == a00 * a12 * a33 - a00 * a13 * a32) by (nonlinear_arith);
    assert(a30 * a13 == a13 * a30) by (nonlinear_arith);
    assert(a02 * (a10 * a33 - a13 * a30) == a02 * a10 * a33 - a02 * a13 * a30) by (nonlinear_arith);
    assert(a30 * a12 == a12 * a30) by (nonlinear_arith);
    assert(a03 * (a10 * a32 - a12 * a30) == a03 * a10 * a32 - a03 * a12 * a30) by (nonlinear_arith);
    lemma_distrib6(a22, a00 * a12 * a33, -(a00 * a13 * a32), -(a02 * a10 * a33), a02 * a13 * a30, a03 * a10 * a32, -(a03 * a12 * a30));
    assert(a22 * (a00 * a12 * a33) == a00 * a12 * a22 * a33) by (nonlinear_arith);
    lemma_mul_neg(a22, a00 * a13 * a32);
    assert(a22 * (a00 * a13 * a32) == a00 * a13 * a22 * a32) by (nonlinear_arith);
    lemma_mul_neg(a22, a02 * a10 * a33);
    assert(a22 * (a02 * a10 * a33) == a02 * a10 * a22 * a33) by (nonlinear_arith);
    assert(a22 * (a02 * a13 * a30) == a02 * a13 * a22 * a30) by (nonlinear_arith);
    assert(a22 * (a03 * a10 * a32) == a03 * a10 * a22 * a32) by (nonlinear_arith);
    lemma_mul_neg(a22, a03 * a12 * a30);
    assert(a22 * (a03 * a12 * a30) == a03 * a12 * a22 * a30) by (nonlinear_arith);
    lemma_mul_neg(a22, a00 * (a12 * a33 - a32 * a13) - a02 * (a10 * a33 - a30 * a13) + a03 * (a10 * a32 - a30 * a12));
    assert(a22 * a13 == a13 * a22) by (nonlinear_arith);
    assert(a00 * (a12 * a23 - a13 * a22) == a00 * a12 * a23 - a00 * a13 * a22) by (nonlinear_arith);
    assert(a20 * a13 == a13 * a20) by (nonlinear_arith);
    assert(a02 * (a10 * a23 - a13 * a20) == a02 * a10 * a23 - a02 * a13 * a20) by (nonlinear_arith);
    assert(a20 * a12 == a12 * a20) by (nonlinear_arith);
    assert(a03 * (a10 * a22 - a12 * a20) == a03 * a10 * a22 - a03 * a12 * a20) by (nonlinear_arith);
    lemma_distrib6(a32, a00 * a12 * a23, -(a00 * a13 * a22), -(a02 * a10 * a23), a02 * a13 * a20, a03 * a10 * a22, -(a03 * a12 * a20));
    assert(a32 * (a00 * a12 * a23) == a00 * a12 * a23 * a32) by (nonlinear_arith);
    lemma_mul_neg(a32, a00 * a13 * a22);
    assert(a32 * (a00 * a13 * a22) == a00 * a13 * a22 * a32) by (nonlinear_arith);
    lemma_mul_neg(a32, a02 * a10 * a23);
    assert(a32 * (a02 * a10 * a23) == a02 * a10 * a23 * a32) by (nonlinear_arith);
    assert(a32 * (a02 * a13 * a20) == a02 * a13 * a20 * a32) by (nonlinear_arith);
    assert(a32 * (a03 * a10 * a22) == a03 * a10 * a22 * a32) by (nonlinear_arith);
    lemma_mul_neg(a32, a03 * a12 * a20);
    assert(a32 * (a03 * a12 * a20) == a03 * a12 * a20 * a32) by (nonlinear_arith);
}

proof fn lemma_cofactor_expansion4_13(a00: int, a01: int, a02: int, a03: int, a10: int, a11: int, a12: int, a13: int, a20: int, a21: int, a22: int, a23: int, a30: int, a31: int, a32: int, a33: int)
    ensures
        a03 * (-(a10 * (a22 * a33 - a32 * a23) - a12 * (a20 * a33 - a30 * a23) + a13 * (a20 * a32 - a30 * a22))) + a13 * (a00 * (a22 * a33 - a32 * a23) - a02 * (a20 * a33 - a30 * a23) + a03 * (a20 * a32 - a30 * a22)) + a23 * (-(a00 * (a12 * a33 - a32 * a13) - a02 * (a10 * a33 - a30 * a13) + a03 * (a10 * a32 - a30 * a12))) + a33 * (a00 * (a12 * a23 - a22 * a13) - a02 * (a10 * a23 - a20 * a13) + a03 * (a10 * a22 - a20 * a12)) == 0,
{
    assert(a32 * a23 == a23 * a32) by (nonlinear_arith);
    assert(a10 * (a22 * a33 - a23 * a32) == a10 * a22 * a33 - a10 * a23 * a32) by (nonlinear_arith);
    assert(a30 * a23 == a23 * a30) by (nonlinear_arith);
    assert(a12 * (a20 * a33 - a23 * a30) == a12 * a20 * a33 - a12 * a23 * a30) by (nonlinear_arith);
    assert(a30 * a22 == a22 * a30) by (nonlinear_arith);
    assert(a13 * (a20 * a32 - a22 * a30) == a13 * a20 * a32 - a13 * a22 * a30) by (nonlinear_arith);
    lemma_distrib6(a03, a10 * a22 * a33, -(a10 * a23 * a32), -(a12 * a20 * a33), a12 * a23 * a30, a13 * a20 * a32, -(a13 * a22 * a30));
    assert(a03 * (a10 * a22 * a33) == a03 * a10 * a22 * a33) by (nonlinear_arith);
    lemma_mul_neg(a03, a10 * a23 * a32);
    assert(a03 * (a10 * a23 * a32) == a03 * a10 * a23 * a32) by (nonlinear_arith);
    lemma_mul_neg(a03, a12 * a20 * a33);
    assert(a03 * (a12 * a20 * a33) == a03 * a12 * a20 * a33) by (nonlinear_arith);
    assert(a03 * (a12 * a23 * a30) == a03 * a12 * a23 * a30) by (nonlinear_arith);
    assert(a03 * (a13 * a20 * a32) == a03 * a13 * a20 * a32) by (nonlinear_arith);
    lemma_mul_neg(a03, a13 * a22 * a30);
    assert(a03 * (a13 * a22 * a30) == a03 * a13 * a22 * a30) by (nonlinear_arith);
    lemma_mul_neg(a03, a10 * (a22 * a33 - a32 * a23) - a12 * (a20 * a33 - a30 * a23) + a13 * (a20 * a32 - a30 * a22));
    assert(a00 * (a22 * a33 - a23 * a32) == a00 * a22 * a33 - a00 * a23 * a32) by (nonlinear_arith);
    assert(a02 * (a20 * a33 - a23 * a30) == a02 * a20 * a33 - a02 * a23 * a30) by (nonlinear_arith);
    assert(a03 * (a20 * a32 - a22 * a30) == a03 * a20 * a32 - a03 * a22 * a30) by (nonlinear_arith);
    lemma_distrib6(a13, a00 * a22 * a33, -(a00 * a23 * a32), -(a02 * a20 * a33), a02 * a23 * a30, a03 * a20 * a32, -(a03 * a22 * a30));
    assert(a13 * (a00 * a22 * a33) == a00 * a13 * a22 * a33) by (nonlinear_arith);
    lemma_mul_neg(a13, a00 * a23 * a32);
    assert(a13 * (a00 * a23 * a32) == a00 * a13 * a23 * a32) by (nonlinear_arith);
    lemma_mul_neg(a13, a02 * a20 * a33);
    assert(a13 * (a02 * a20 * a33) == a02 * a13 * a20 * a33) by (nonlinear_arith);
    assert(a13 * (a02 * a23 * a30) == a02 * a13 * a23 * a30) by (nonlinear_arith);
    assert(a13 * (a03 * a20 * a32) == a03 * a13 * a20 * a32) by (nonlinear_arith);
    lemma_mul_neg(a13, a03 * a22 * a30);
    assert(a13 * (a03 * a22 * a30) == a03 * a13 * a22 * a30) by (nonlinear_arith);
    assert(a32 * a13 == a13 * a32) by (nonlinear_arith);
    assert(a00 * (a12 * a33 - a13 * a32) == a00 * a12 * a33 - a00 * a13 * a32) by (nonlinear_arith);
    assert(a30 * a13 == a13 * a30) by (nonlinear_arith);
    assert(a02 * (a10 * a33 - a13 * a30) == a02 * a10 * a33 - a02 * a13 * a30) by (nonlinear_arith);
    assert(a30 * a12 == a12 * a30) by (nonlinear_arith);
    assert(a03 * (a10 * a32 - a12 * a30) == a03 * a10 * a32 - a03 * a12 * a30) by (nonlinear_arith);
    lemma_distrib6(a23, a00 * a12 * a33, -(a00 * a13 * a32), -(a02 * a10 * a33), a02 * a13 * a30, a03 * a10 * a32, -(a03 * a12 * a30));
    assert(a23 * (a00 * a12 * a33) == a00 * a12 * a23 * a33) by (nonlinear_arith);
    lemma_mul_neg(a23, a00 * a13 * a32);
    assert(a23 * (a00 * a13 * a32) == a00 * a13 * a23 * a32) by (nonlinear_arith);
    lemma_mul_neg(a23, a02 * a10 * a33);
    assert(a23 * (a02 * a10 * a33) == a02 * a10 * a23 * a33) by (nonlinear_arith);
    assert(a23 * (a02 * a13 * a30) == a02 * a13 * a23 * a30) by (nonlinear_arith);
    assert(a23 * (a03 * a10 * a32) == a03 * a10 * a23 * a32) by (nonlinear_arith);
    lemma_mul_neg(a23, a03 * a12 * a30);
    assert(a23 * (a03 * a12 * a30) == a03 * a12 * a23 * a30) by (nonlinear_arith);
    lemma_mul_neg(a23, a00 * (a12 * a33 - a32 * a13) - a02 * (a10 * a33 - a30 * a13) + a03 * (a10 * a32 - a30 * a12));
    assert(a22 * a13 == a13 * a22) by (nonlinear_arith);
    assert(a00 * (a12 * a23 - a13 * a22) == a00 * a12 * a23 - a00 * a13 * a22) by (nonlinear_arith);
    assert(a20 * a13 == a13 * a20) by (nonlinear_arith);
    assert(a02 * (a10 * a23 - a13 * a20) == a02 * a10 * a23 - a02 * a13 * a20) by (nonlinear_arith);
    assert(a20 * a12 == a12 * a20) by (nonlinear_arith);
    assert(a03 * (a10 * a22 - a12 * a20) == a03 * a10 * a22 - a03 * a12 * a20) by (nonlinear_arith);
    lemma_distrib6(a33, a00 * a12 * a23, -(a00 * a13 * a22), -(a02 * a10 * a23), a02 * a13 * a20, a03 * a10 * a22, -(a03 * a12 * a20));
    assert(a33 * (a00 * a12 * a23) == a00 * a12 * a23 * a33) by (nonlinear_arith);
    lemma_mul_neg(a33, a00 * a13 * a22);
    assert(a33 * (a00 * a13 * a22) == a00 * a13 * a22 * a33) by (nonlinear_arith);
    lemma_mul_neg(a33, a02 * a10 * a23);
    assert(a33 * (a02 * a10 * a23) == a02 * a10 * a23 * a33) by (nonlinear_arith);
    assert(a33 * (a02 * a13 * a20) == a02 * a13 * a20 * a33) by (nonlinear_arith);
    assert(a33 * (a03 * a10 * a22) == a03 * a10 * a22 * a33) by (nonlinear_arith);
    lemma_mul_neg(a33, a03 * a12 * a20);
    assert(a33 * (a03 * a12 * a20) == a03 * a12 * a20 * a33) by (nonlinear_arith);
}

proof fn lemma_cofactor_expansion4_20(a00: int, a01: int, a02: int, a03: int, a10: int, a11: int, a12: int, a13: int, a20: int, a21: int, a22: int, a23: int, a30: int, a31: int, a32: int, a33: int)
    ensures
        a00 * (a10 * (a21 * a33 - a31 * a23) - a11 * (a20 * a33 - a30 * a23) + a13 * (a20 * a31 - a30 * a21)) + a10 * (-(a00 * (a21 * a33 - a31 * a23) - a01 * (a20 * a33 - a30 * a23) + a03 * (a20 * a31 - a30 * a21))) + a20 * (a00 * (a11 * a33 - a31 * a13) - a01 * (a10 * a33 - a30 * a13) + a03 * (a10 * a31 - a30 * a11)) + a30 * (-(a00 * (a11 * a23 - a21 * a13) - a01 * (a10 * a23 - a20 * a13) + a03 * (a10 * a21 - a20 * a11))) == 0,
{
    assert(a31 * a23 == a23 * a31) by (nonlinear_arith);
    assert(a10 * (a21 * a33 - a23 * a31) == a10 * a21 * a33 - a10 * a23 * a31) by (nonlinear_arith);
    assert(a30 * a23 == a23 * a30) by (nonlinear_arith);
    assert(a11 * (a20 * a33 - a23 * a30) == a11 * a20 * a33 - a11 * a23 * a30) by (nonlinear_arith);
    assert(a30 * a21 == a21 * a30) by (nonlinear_arith);
    assert(a13 * (a20 * a31 - a21 * a30) == a13 * a20 * a31 - a13 * a21 * a30) by (nonlinear_arith);
    lemma_distrib6(a00, a10 * a21 * a33, -(a10 * a23 * a31), -(a11 * a20 * a33), a11 * a23 * a30, a13 * a20 * a31, -(a13 * a21 * a30));
    assert(a00 * (a10 * a21 * a33) == a00 * a10 * a21 * a33) by (nonlinear_arith);
    lemma_mul_neg(a00, a10 * a23 * a31);
    assert(a00 * (a10 * a23 * a31) == a00 * a10 * a23 * a31) by (nonlinear_arith);
    lemma_mul_neg(a00, a11 * a20 * a33);
    assert(a00 * (a11 * a20 * a33) == a00 * a11 * a20 * a33) by (nonlinear_arith);
    assert(a00 * (a11 * a23 * a30) == a00 * a11 * a23 * a30) by (nonlinear_arith);
    assert(a00 * (a13 * a20 * a31) == a00 * a13 * a20 * a31) by (nonlinear_arith);
    lemma_mul_neg(a00, a13 * a21 * a30);
    assert(a00 * (a13 * a21 * a30) == a00 * a13 * a21 * a30) by (nonlinear_arith);
    assert(a00 * (a21 * a33 - a23 * a31) == a00 * a21 * a33 - a00 * a23 * a31) by (nonlinear_arith);
    assert(a01 * (a20 * a33 - a23 * a30) == a01 * a20 * a33 - a01 * a23 * a30) by (nonlinear_arith);
    assert(a03 * (a20 * a31 - a21 * a30) == a03 * a20 * a31 - a03 * a21 * a30) by (nonlinear_arith);
    lemma_distrib6(a10, a00 * a21 * a33, -(a00 * a23 * a31), -(a01 * a20 * a33), a01 * a23 * a30, a03 * a20 * a31, -(a03 * a21 * a30));
    assert(a10 * (a00 * a21 * a33) == a00 * a10 * a21 * a33) by (nonlinear_arith);
    lemma_mul_neg(a10, a00 * a23 * a31);
    assert(a10 * (a00 * a23 * a31) == a00 * a10 * a23 * a31) by (nonlinear_arith);
    lemma_mul_neg(a10, a01 * a20 * a33);
    assert(a10 * (a01 * a20 * a33) == a01 * a10 * a20 * a33) by (nonlinear_arith);
    assert(a10 * (a01 * a23 * a30) == a01 * a10 * a23 * a30) by (nonlinear_arith);
    assert(a10 * (a03 * a20 * a31) == a03 * a10 * a20 * a31) by (nonlinear_arith);
    lemma_mul_neg(a10, a03 * a21 * a30);
    assert(a10 * (a03 * a21 * a30) == a03 * a10 * a21 * a30) by (nonlinear_arith);
    lemma_mul_neg(a10, a00 * (a21 * a33 - a31 * a23) - a01 * (a20 * a33 - a30 * a23) + a03 * (a20 * a31 - a30 * a21));
    assert(a31 * a13 == a13 * a31) by (nonlinear_arith);
    assert(a00 * (a11 * a33 - a13 * a31) == a00 * a11 * a33 - a00 * a13 * a31) by (nonlinear_arith);
    assert(a30 * a13 == a13 * a30) by (nonlinear_arith);
    assert(a01 * (a10 * a33 - a13 * a30) == a01 * a10 * a33 - a01 * a13 * a30) by (nonlinear_arith);
    assert(a30 * a11 == a11 * a30) by (nonlinear_arith);
    assert(a03 * (a10 * a31 - a11 * a30) == a03 * a10 * a31 - a03 * a11 * a30) by (nonlinear_arith);
    lemma_distrib6(a20, a00 * a11 * a33, -(a00 * a13 * a31), -(a01 * a10 * a33), a01 * a13 * a30, a03 * a10 * a31, -(a03 * a11 * a30));
    assert(a20 * (a00 * a11 * a33) == a00 * a11 * a20 * a33) by (nonlinear_arith);
    lemma_mul_neg(a20, a00 * a13 * a31);
    assert(a20 * (a00 * a13 * a31) == a00 * a13 * a20 * a31) by (nonlinear_arith);
    lemma_mul_neg(a20, a01 * a10 * a33);
    assert(a20 * (a01 * a10 * a33) == a01 * a10 * a20 * a33) by (nonlinear_arith);
    assert(a20 * (a01 * a13 * a30) == a01 * a13 * a20 * a30) by (nonlinear_arith);
    assert(a20 * (a03 * a10 * a31) == a03 * a10 * a20 * a31) by (nonlinear_arith);
    lemma_mul_neg(a20, a03 * a11 * a30);
    assert(a20 * (a03 * a11 * a30) == a03 * a11 * a20 * a30) by (nonlinear_arith);
    assert(a21 * a13 == a13 * a21) by (nonlinear_arith);
    assert(a00 * (a11 * a23 - a13 * a21) == a00 * a11 * a23 - a00 * a13 * a21) by (nonlinear_arith);
    assert(a20 * a13 == a13 * a20) by (nonlinear_arith);
    assert(a01 * (a10 * a23 - a13 * a20) == a01 * a10 * a23 - a01 * a13 * a20) by (nonlinear_arith);
    assert(a20 * a11 == a11 * a20) by (nonlinear_arith);
    assert(a03 * (a10 * a21 - a11 * a20) == a03 * a10 * a21 - a03 * a11 * a20) by (nonlinear_arith);
    lemma_distrib6(a30, a00 * a11 * a23, -(a00 * a13 * a21), -(a01 * a10 * a23), a01 * a13 * a20, a03 * a10 * a21, -(a03 * a11 * a20));
    assert(a30 * (a00 * a11 * a23) == a00 * a11 * a23 * a30) by (nonlinear_arith);
    lemma_mul_neg(a30, a00 * a13 * a21);
    assert(a30 * (a00 * a13 * a21) == a00 * a13 * a21 * a30) by (nonlinear_arith);
    lemma_mul_neg(a30, a01 * a10 * a23);
    assert(a30 * (a01 * a10 * a23) == a01 * a10 * a23 * a30) by (nonlinear_arith);
    assert(a30 * (a01 * a13 * a20) == a01 * a13 * a20 * a30) by (nonlinear_arith);
    assert(a30 * (a03 * a10 * a21) == a03 * a10 * a21 * a30) by (nonlinear_arith);
    lemma_mul_neg(a30, a03 * a11 * a20);
    assert(a30 * (a03 * a11 * a20) == a03 * a11 * a20 * a30) by (nonlinear_arith);
    lemma_mul_neg(a30, a00 * (a11 * a23 - a21 * a13) - a01 * (a10 * a23 - a20 * a13) + a03 * (a10 * a21 - a20 * a11));
}

proof fn lemma_cofactor_expansion4_21(a00: int, a01: int, a02: int, a03: int, a10: int, a11: int, a12: int, a13: int, a20: int, a21: int, a22: int, a23: int, a30: int, a31: int, a32: int, a33: int)
    ensures
        a01 * (a10 * (a21 * a33 - a31 * a23) - a11 * (a20 * a33 - a30 * a23) + a13 * (a20 * a31 - a30 * a21)) + a11 * (-(a00 * (a21 * a33 - a31 * a23) - a01 * (a20 * a33 - a30 * a23) + a03 * (a20 * a31 - a30 * a21))) + a21 * (a00 * (a11 * a33 - a31 * a13) - a01 * (a10 * a33 - a30 * a13) + a03 * (a10 * a31 - a30 * a11)) + a31 * (-(a00 * (a11 * a23 - a21 * a13) - a01 * (a10 * a23 - a20 * a13) + a03 * (a10 * a21 - a20 * a11))) == 0,
{
    assert(a31 * a23 == a23 * a31) by (nonlinear_arith);
    assert(a10 * (a21 * a33 - a23 * a31) == a10 * a21 * a33 - a10 * a23 * a31) by (nonlinear_arith);
    assert(a30 * a23 == a23 * a30) by (nonlinear_arith);
    assert(a11 * (a20 * a33 - a23 * a30) == a11 * a20 * a33 - a11 * a23 * a30) by (nonlinear_arith);
    assert(a30 * a21 == a21 * a30) by (nonlinear_arith);
    assert(a13 * (a20 * a31 - a21 * a30) == a13 * a20 * a31 - a13 * a21 * a30) by (nonlinear_arith);
    lemma_distrib6(a01, a10 * a21 * a33, -(a10 * a23 * a31), -(a11 * a20 * a33), a11 * a23 * a30, a13 * a20 * a31, -(a13 * a21 * a30));
    assert(a01 * (a10 * a21 * a33) == a01 * a10 * a21 * a33) by (nonlinear_arith);
    lemma_mul_neg(a01, a10 * a23 * a31);
    assert(a01 * (a10 * a23 * a31) == a01 * a10 * a23 * a31) by (nonlinear_arith);
    lemma_mul_neg(a01, a11 * a20 * a33);
    assert(a01 * (a11 * a20 * a33) == a01 * a11 * a20 * a33) by (nonlinear_arith);
    assert(a01 * (a11 * a23 * a30) == a01 * a11 * a23 * a30) by (nonlinear_arith);
    assert(a01 * (a13 * a20 * a31) == a01 * a13 * a20 * a31) by (nonlinear_arith);
    lemma_mul_neg(a01, a13 * a21 * a30);
    assert(a01 * (a13 * a21 * a30) == a01 * a13 * a21 * a30) by (nonlinear_arith);
    assert(a00 * (a21 * a33 - a23 * a31) == a00 * a21 * a33 - a00 * a23 * a31) by (nonlinear_arith);
    assert(a01 * (a20 * a33 - a23 * a30) == a01 * a20 * a33 - a01 * a23 * a30) by (nonlinear_arith);
    assert(a03 * (a20 * a31 - a21 * a30) == a03 * a20 * a31 - a03 * a21 * a30) by (nonlinear_arith);
    lemma_distrib6(a11, a00 * a21 * a33, -(a00 * a23 * a31), -(a01 * a20 * a33), a01 * a23 * a30, a03 * a20 * a31, -(a03 * a21 * a30));
    assert(a11 * (a00 * a21 * a33) == a00 * a11 * a21 * a33) by (nonlinear_arith);
    lemma_mul_neg(a11, a00 * a23 * a31);
    assert(a11 * (a00 * a23 * a31) == a00 * a11 * a23 * a31) by (nonlinear_arith);
    lemma_mul_neg(a11, a01 * a20 * a33);
    assert(a11 * (a01 * a20 * a33) == a01 * a11 * a20 * a33) by (nonlinear_arith);
    assert(a11 * (a01 * a23 * a30) == a01 * a11 * a23 * a30) by (nonlinear_arith);
    assert(a11 * (a03 * a20 * a31) == a03 * a11 * a20 * a31) by (nonlinear_arith);
    lemma_mul_neg(a11, a03 * a21 * a30);
    assert(a11 * (a03 * a21 * a30) == a03 * a11 * a21 * a30) by (nonlinear_arith);
    lemma_mul_neg(a11, a00 * (a21 * a33 - a31 * a23) - a01 * (a20 * a33 - a30 * a23) + a03 * (a20 * a31 - a30 * a21));
    assert(a31 * a13 == a13 * a31) by (nonlinear_arith);
    assert(a00 * (a11 * a33 - a13 * a31) == a00 * a11 * a33 - a00 * a13 * a31) by (nonlinear_arith);
    assert(a30 * a13 == a13 * a30) by (nonlinear_arith);
    assert(a01 * (a10 * a33 - a13 * a30) == a01 * a10 * a33 - a01 * a13 * a30) by (nonlinear_arith);
    assert(a30 * a11 == a11 * a30) by (nonlinear_arith);
    assert(a03 * (a10 * a31 - a11 * a30) == a03 * a10 * a31 - a03 * a11 * a30) by (nonlinear_arith);
    lemma_distrib6(a21, a00 * a11 * a33, -(a00 * a13 * a31), -(a01 * a10 * a33), a01 * a13 * a30, a03 * a10 * a31, -(a03 * a11 * a30));
    assert(a21 * (a00 * a11 * a33) == a00 * a11 * a21 * a33) by (nonlinear_arith);
    lemma_mul_neg(a21, a00 * a13 * a31);
    assert(a21 * (a00 * a13 * a31) == a00 * a13 * a21 * a31) by (nonlinear_arith);
    lemma_mul_neg(a21, a01 * a10 * a33);
    assert(a21 * (a01 * a10 * a33) == a01 * a10 * a21 * a33) by (nonlinear_arith);
    assert(a21 * (a01 * a13 * a30) == a01 * a13 * a21 * a30) by (nonlinear_arith);
    assert(a21 * (a03 * a10 * a31) == a03 * a10 * a21 * a31) by (nonlinear_arith);
    lemma_mul_neg(a21, a03 * a11 * a30);
    assert(a21 * (a03 * a11 * a30) == a03 * a11 * a21 * a30) by (nonlinear_arith);
    assert(a21 * a13 == a13 * a21) by (nonlinear_arith);
    assert(a00 * (a11 * a23 - a13 * a21) == a00 * a11 * a23 - a00 * a13 * a21) by (nonlinear_arith);
    assert(a20 * a13 == a13 * a20) by (nonlinear_arith);
    assert(a01 * (a10 * a23 - a13 * a20) == a01 * a10 * a23 - a01 * a13 * a20) by (nonlinear_arith);
    assert(a20 * a11 == a11 * a20) by (nonlinear_arith);
    assert(a03 * (a10 * a21 - a11 * a20) == a03 * a10 * a21 - a03 * a11 * a20) by (nonlinear_arith);
    lemma_distrib6(a31, a00 * a11 * a23, -(a00 * a13 * a21), -(a01 * a10 * a23), a01 * a13 * a20, a03 * a10 * a21, -(a03 * a11 * a20));
    assert(a31 * (a00 * a11 * a23) == a00 * a11 * a23 * a31) by (nonlinear_arith);
    lemma_mul_neg(a31, a00 * a13 * a21);
    assert(a31 * (a00 * a13 * a21) == a00 * a13 * a21 * a31) by (nonlinear_arith);
    lemma_mul_neg(a31, a01 * a10 * a23);
    assert(a31 * (a01 * a10 * a23) == a01 * a10 * a23 * a31) by (nonlinear_arith);
    assert(a31 * (a01 * a13 * a20) == a01 * a13 * a20 * a31) by (nonlinear_arith);
    assert(a31 * (a03 * a10 * a21) == a03 * a10 * a21 * a31) by (nonlinear_arith);
    lemma_mul_neg(a31, a03 * a11 * a20);
    assert(a31 * (a03 * a11 * a20) == a03 * a11 * a20 * a31) by (nonlinear_arith);
    lemma_mul_neg(a31, a00 * (a11 * a23 - a21 * a13) - a01 * (a10 * a23 - a20 * a13) + a03 * (a10 * a21 - a20 * a11));
}

proof fn lemma_cofactor_expansion4_22(a00: int, a01: int, a02: int, a03: int, a10: int, a11: int, a12: int, a13: int, a20: int, a21: int, a22: int, a23: int, a30: int, a31: int, a32: int, a33: int)
    ensures
        a02 * (a10 * (a21 * a33 - a31 * a23) - a11 * (a20 * a33 - a30 * a23) + a13 * (a20 * a31 - a30 * a21)) + a12 * (-(a00 * (a21 * a33 - a31 * a23) - a01 * (a20 * a33 - a30 * a23) + a03 * (a20 * a31 - a30 * a21))) + a22 * (a00 * (a11 * a33 - a31 * a13) - a01 * (a10 * a33 - a30 * a13) + a03 * (a10 * a31 - a30 * a11)) + a32 * (-(a00 * (a11 * a23 - a21 * a13) - a01 * (a10 * a23 - a20 * a13) + a03 * (a10 * a21 - a20 * a11))) == a00 * (a11 * (a22 * a33 - a32 * a23) - a12 * (a21 * a33 - a31 * a23) + a13 * (a21 * a32 - a31 * a22)) - a01 * (a10 * (a22 * a33 - a32 * a23) - a12 * (a20 * a33 - a30 * a23) + a13 * (a20 * a32 - a30 * a22)) + a02 * (a10 * (a21 * a33 - a31 * a23) - a11 * (a20 * a33 - a30 * a23) + a13 * (a20 * a31 - a30 * a21)) - a03 * (a10 * (a21 * a32 - a31 * a22) - a11 * (a20 * a32 - a30 * a22) + a12 * (a20 * a31 - a30 * a21)),
{
    assert(a31 * a23 == a23 * a31) by (nonlinear_arith);
    assert(a10 * (a21 * a33 - a23 * a31) == a10 * a21 * a33 - a10 * a23 * a31) by (nonlinear_arith);
    assert(a30 * a23 == a23 * a30) by (nonlinear_arith);
    assert(a11 * (a20 * a33 - a23 * a30) == a11 * a20 * a33 - a11 * a23 * a30) by (nonlinear_arith);
    assert(a30 * a21 == a21 * a30) by (nonlinear_arith);
    assert(a13 * (a20 * a31 - a21 * a30) == a13 * a20 * a31 - a13 * a21 * a30) by (nonlinear_arith);
    lemma_distrib6(a02, a10 * a21 * a33, -(a10 * a23 * a31), -(a11 * a20 * a33), a11 * a23 * a30, a13 * a20 * a31, -(a13 * a21 * a30));
    assert(a02 * (a10 * a21 * a33) == a02 * a10 * a21 * a33) by (nonlinear_arith);
    lemma_mul_neg(a02, a10 * a23 * a31);
    assert(a02 * (a10 * a23 * a31) == a02 * a10 * a23 * a31) by (nonlinear_arith);
    lemma_mul_neg(a02, a11 * a20 * a33);
    assert(a02 * (a11 * a20 * a33) == a02 * a11 * a20 * a33) by (nonlinear_arith);
    assert(a02 * (a11 * a23 * a30) == a02 * a11 * a23 * a30) by (nonlinear_arith);
    assert(a02 * (a13 * a20 * a31) == a02 * a13 * a20 * a31) by (nonlinear_arith);
    lemma_mul_neg(a02, a13 * a21 * a30);
    assert(a02 * (a13 * a21 * a30) == a02 * a13 * a21 * a30) by (nonlinear_arith);
    assert(a00 * (a21 * a33 - a23 * a31) == a00 * a21 * a33 - a00 * a23 * a31) by (nonlinear_arith);
    assert(a01 * (a20 * a33 - a23 * a30) == a01 * a20 * a33 - a01 * a23 * a30) by (nonlinear_arith);
    assert(a03 * (a20 * a31 - a21 * a30) == a03 * a20 * a31 - a03 * a21 * a30) by (nonlinear_arith);
    lemma_distrib6(a12, a00 * a21 * a33, -(a00 * a23 * a31), -(a01 * a20 * a33), a01 * a23 * a30, a03 * a20 * a31, -(a03 * a21 * a30));
    assert(a12 * (a00 * a21 * a33) == a00 * a12 * a21 * a33) by (nonlinear_arith);
    lemma_mul_neg(a12, a00 * a23 * a31);
    assert(a12 * (a00 * a23 * a31) == a00 * a12 * a23 * a31) by (nonlinear_arith);
    lemma_mul_neg(a12, a01 * a20 * a33);
    assert(a12 * (a01 * a20 * a33) == a01 * a12 * a20 * a33) by (nonlinear_arith);
    assert(a12 * (a01 * a23 * a30) == a01 * a12 * a23 * a30) by (nonlinear_arith);
    assert(a12 * (a03 * a20 * a31) == a03 * a12 * a20 * a31) by (nonlinear_arith);
    lemma_mul_neg(a12, a03 * a21 * a30);
    assert(a12 * (a03 * a21 * a30) == a03 * a12 * a21 * a30) by (nonlinear_arith);
    lemma_mul_neg(a12, a00 * (a21 * a33 - a31 * a23) - a01 * (a20 * a33 - a30 * a23) + a03 * (a20 * a31 - a30 * a21));
    assert(a31 * a13 == a13 * a31) by (nonlinear_arith);
    assert(a00 * (a11 * a33 - a13 * a31) == a00 * a11 * a33 - a00 * a13 * a31) by (nonlinear_arith);
    assert(a30 * a13 == a13 * a30) by (nonlinear_arith);
    assert(a01 * (a10 * a33 - a13 * a30) == a01 * a10 * a33 - a01 * a13 * a30) by (nonlinear_arith);
    assert(a30 * a11 == a11 * a30) by (nonlinear_arith);
    assert(a03 * (a10 * a31 - a11 * a30) == a03 * a10 * a31 - a03 * a11 * a30) by (nonlinear_arith);
    lemma_distrib6(a22, a00 * a11 * a33, -(a00 * a13 * a31), -(a01 * a10 * a33), a01 * a13 * a30, a03 * a10 * a31, -(a03 * a11 * a30));
    assert(a22 * (a00 * a11 * a33) == a00 * a11 * a22 * a33) by (nonlinear_arith);
    lemma_mul_neg(a22, a00 * a13 * a31);
    assert(a22 * (a00 * a13 * a31) == a00 * a13 * a22 * a31) by (nonlinear_arith);
    lemma_mul_neg(a22, a01 * a10 * a33);
    assert(a22 * (a01 * a10 * a33) == a01 * a10 * a22 * a33) by (nonlinear_arith);
    assert(a22 * (a01 * a13 * a30) == a01 * a13 * a22 * a30) by (nonlinear_arith);
    assert(a22 * (a03 * a10 * a31) == a03 * a10 * a22 * a31) by (nonlinear_arith);
    lemma_mul_neg(a22, a03 * a11 * a30);
    assert(a22 * (a03 * a11 * a30) == a03 * a11 * a22 * a30) by (nonlinear_arith);
    assert(a21 * a13 == a13 * a21) by (nonlinear_arith);
    assert(a00 * (a11 * a23 - a13 * a21) == a00 * a11 * a23 - a00 * a13 * a21) by (nonlinear_arith);
    assert(a20 * a13 == a13 * a20) by (nonlinear_arith);
    assert(a01 * (a10 * a23 - a13 * a20) == a01 * a10 * a23 - a01 * a13 * a20) by (nonlinear_arith);
    assert(a20 * a11 == a11 * a20) by (nonlinear_arith);
    assert(a03 * (a10 * a21 - a11 * a20) == a03 * a10 * a21 - a03 * a11 * a20) by (nonlinear_arith);
    lemma_distrib6(a32, a00 * a11 * a23, -(a00 * a13 * a21), -(a01 * a10 * a23), a01 * a13 * a20, a03 * a10 * a21, -(a03 * a11 * a20));
    assert(a32 * (a00 * a11 * a23) == a00 * a11 * a23 * a32) by (nonlinear_arith);
    lemma_mul_neg(a32, a00 * a13 * a21);
    assert(a32 * (a00 * a13 * a21) == a00 * a13 * a21 * a32) by (nonlinear_arith);
    lemma_mul_neg(a32, a01 * a10 * a23);
    assert(a32 * (a01 * a10 * a23) == a01 * a10 * a23 * a32) by (nonlinear_arith);
    assert(a32 * (a01 * a13 * a20) == a01 * a13 * a20 * a32) by (nonlinear_arith);
    assert(a32 * (a03 * a10 * a21) == a03 * a10 * a21 * a32) by (nonlinear_arith);
    lemma_mul_neg(a32, a03 * a11 * a20);
    assert(a32 * (a03 * a11 * a20) == a03 * a11 * a20 * a32) by (nonlinear_arith);
    lemma_mul_neg(a32, a00 * (a11 * a23 - a21 * a13) - a01 * (a10 * a23 - a20 * a13) + a03 * (a10 * a21 - a20 * a11));
    assert(a32 * a23 == a23 * a32) by (nonlinear_arith);
    assert(a11 * (a22 * a33 - a23 * a32) == a11 * a22 * a33 - a11 * a23 * a32) by (nonlinear_arith);
    assert(a12 * (a21 * a33 - a23 * a31) == a12 * a21 * a33 - a12 * a23 * a31) by (nonlinear_arith);
    assert(a31 * a22 == a22 * a31) by (nonlinear_arith);
    assert(a13 * (a21 * a32 - a22 * a31) == a13 * a21 * a32 - a13 * a22 * a31) by (nonlinear_arith);
    lemma_distrib6(a00, a11 * a22 * a33, -(a11 * a23 * a32), -(a12 * a21 * a33), a12 * a23 * a31, a13 * a21 * a32, -(a13 * a22 * a31));
    assert(a00 * (a11 * a22 * a33) == a00 * a11 * a22 * a33) by (nonlinear_arith);
    lemma_mul_neg(a00, a11 * a23 * a32);
    assert(a00 * (a11 * a23 * a32) == a00 * a11 * a23 * a32) by (nonlinear_arith);
    lemma_mul_neg(a00, a12 * a21 * a33);
    assert(a00 * (a12 * a21 * a33) == a00 * a12 * a21 * a33) by (nonlinear_arith);
    assert(a00 * (a12 * a23 * a31) == a00 * a12 * a23 * a31) by (nonlinear_arith);
    assert(a00 * (a13 * a21 * a32) == a00 * a13 * a21 * a32) by (nonlinear_arith);
    lemma_mul_neg(a00, a13 * a22 * a31);
    assert(a00 * (a13 * a22 * a31) == a00 * a13 * a22 * a31) by (nonlinear_arith);
    assert(a10 * (a22 * a33 - a23 * a32) == a10 * a22 * a33 - a10 * a23 * a32) by (nonlinear_arith);
    assert(a12 * (a20 * a33 - a23 * a30) == a12 * a20 * a33 - a12 * a23 * a30) by (nonlinear_arith);
    assert(a30 * a22 == a22 * a30) by (nonlinear_arith);
    assert(a13 * (a20 * a32 - a22 * a30) == a13 * a20 * a32 - a13 * a22 * a30) by (nonlinear_arith);
    lemma_distrib6(a01, a10 * a22 * a33, -(a10 * a23 * a32), -(a12 * a20 * a33), a12 * a23 * a30, a13 * a20 * a32, -(a13 * a22 * a30));
    assert(a01 * (a10 * a22 * a33) == a01 * a10 * a22 * a33) by (nonlinear_arith);
    lemma_mul_neg(a01, a10 * a23 * a32);
    assert(a01 * (a10 * a23 * a32) == a01 * a10 * a23 * a32) by (nonlinear_arith);
    lemma_mul_neg(a01, a12 * a20 * a33);
    assert(a01 * (a12 * a20 * a33) == a01 * a12 * a20 * a33) by (nonlinear_arith);
    assert(a01 * (a12 * a23 * a30) == a01 * a12 * a23 * a30) by (nonlinear_arith);
    assert(a01 * (a13 * a20 * a32) == a01 * a13 * a20 * a32) by (nonlinear_arith);
    lemma_mul_neg(a01, a13 * a22 * a30);
    assert(a01 * (a13 * a22 * a30) == a01 * a13 * a22 * a30) by (nonlinear_arith);
    lemma_distrib6(a02, a10 * a21 * a33, -(a10 * a23 * a31), -(a11 * a20 * a33), a11 * a23 * a30, a13 * a20 * a31, -(a13 * a21 * a30));
    assert(a02 * (a10 * a21 * a33) == a02 * a10 * a21 * a33) by (nonlinear_arith);
    lemma_mul_neg(a02, a10 * a23 * a31);
    assert(a02 * (a10 * a23 * a31) == a02 * a10 * a23 * a31) by (nonlinear_arith);
    lemma_mul_neg(a02, a11 * a20 * a33);
    assert(a02 * (a11 * a20 * a33) == a02 * a11 * a20 * a33) by (nonlinear_arith);
    assert(a02 * (a11 * a23 * a30) == a02 * a11 * a23 * a30) by (nonlinear_arith);
    assert(a02 * (a13 * a20 * a31) == a02 * a13 * a20 * a31) by (nonlinear_arith);
    lemma_mul_neg(a02, a13 * a21 * a30);
    assert(a02 * (a13 * a21 * a30) == a02 * a13 * a21 * a30) by (nonlinear_arith);
    assert(a10 * (a21 * a32 - a22 * a31) == a10 * a21 * a32 - a10 * a22 * a31) by (nonlinear_arith);
    assert(a11 * (a20 * a32 - a22 * a30) == a11 * a20 * a32 - a11 * a22 * a30) by (nonlinear_arith);
    assert(a12 * (a20 * a31 - a21 * a30) == a12 * a20 * a31 - a12 * a21 * a30) by (nonlinear_arith);
    lemma_distrib6(a03, a10 * a21 * a32, -(a10 * a22 * a31), -(a11 * a20 * a32), a11 * a22 * a30, a12 * a20 * a31, -(a12 * a21 * a30));
    assert(a03 * (a10 * a21 * a32) == a03 * a10 * a21 * a32) by (nonlinear_arith);
    lemma_mul_neg(a03, a10 * a22 * a31);
    assert(a03 * (a10 * a22 * a31) == a03 * a10 * a22 * a31) by (nonlinear_arith);
    lemma_mul_neg(a03, a11 * a20 * a32);
    assert(a03 * (a11 * a20 * a32) == a03 * a11 * a20 * a32) by (nonlinear_arith);
    assert(a03 * (a11 * a22 * a30) == a03 * a11 * a22 * a30) by (nonlinear_arith);
    assert(a03 * (a12 * a20 * a31) == a03 * a12 * a20 * a31) by (nonlinear_arith);
    lemma_mul_neg(a03, a12 * a21 * a30);
    assert(a03 * (a12 * a21 * a30) == a03 * a12 * a21 * a30) by (nonlinear_arith);
}

proof fn lemma_cofactor_expansion4_23(a00: int, a01: int, a02: int, a03: int, a10: int, a11: int, a12: int, a13: int, a20: int, a21: int, a22: int, a23: int, a30: int, a31: int, a32: int, a33: int)
    ensures
        a03 * (a10 * (a21 * a33 - a31 * a23) - a11 * (a20 * a33 - a30 * a23) + a13 * (a20 * a31 - a30 * a21)) + a13 * (-(a00 * (a21 * a33 - a31 * a23) - a01 * (a20 * a33 - a30 * a23) + a03 * (a20 * a31 - a30 * a21))) + a23 * (a00 * (a11 * a33 - a31 * a13) - a01 * (a10 * a33 - a30 * a13) + a03 * (a10 * a31 - a30 * a11)) + a33 * (-(a00 * (a11 * a23 - a21 * a13) - a01 * (a10 * a23 - a20 * a13) + a03 * (a10 * a21 - a20 * a11))) == 0,
{
    assert(a31 * a23 == a23 * a31) by (nonlinear_arith);
    assert(a10 * (a21 * a33 - a23 * a31) == a10 * a21 * a33 - a10 * a23 * a31) by (nonlinear_arith);
    assert(a30 * a23 == a23 * a30) by (nonlinear_arith);
    assert(a11 * (a20 * a33 - a23 * a30) == a11 * a20 * a33 - a11 * a23 * a30) by (nonlinear_arith);
    assert(a30 * a21 == a21 * a30) by (nonlinear_arith);
    assert(a13 * (a20 * a31 - a21 * a30) == a13 * a20 * a31 - a13 * a21 * a30) by (nonlinear_arith);
    lemma_distrib6(a03, a10 * a21 * a33, -(a10 * a23 * a31), -(a11 * a20 * a33), a11 * a23 * a30, a13 * a20 * a31, -(a13 * a21 * a30));
    assert(a03 * (a10 * a21 * a33) == a03 * a10 * a21 * a33) by (nonlinear_arith);
    lemma_mul_neg(a03, a10 * a23 * a31);
    assert(a03 * (a10 * a23 * a31) == a03 * a10 * a23 * a31) by (nonlinear_arith);
    lemma_mul_neg(a03, a11 * a20 * a33);
    assert(a03 * (a11 * a20 * a33) == a03 * a11 * a20 * a33) by (nonlinear_arith);
    assert(a03 * (a11 * a23 * a30) == a03 * a11 * a23 * a30) by (nonlinear_arith);
    assert(a03 * (a13 * a20 * a31) == a03 * a13 * a20 * a31) by (nonlinear_arith);
    lemma_mul_neg(a03, a13 * a21 * a30);
    assert(a03 * (a13 * a21 * a30) == a03 * a13 * a21 * a30) by (nonlinear_arith);
    assert(a00 * (a21 * a33 - a23 * a31) == a00 * a21 * a33 - a00 * a23 * a31) by (nonlinear_arith);
    assert(a01 * (a20 * a33 - a23 * a30) == a01 * a20 * a33 - a01 * a23 * a30) by (nonlinear_arith);
    assert(a03 * (a20 * a31 - a21 * a30) == a03 * a20 * a31 - a03 * a21 * a30) by (nonlinear_arith);
    lemma_distrib6(a13, a00 * a21 * a33, -(a00 * a23 * a31), -(a01 * a20 * a33), a01 * a23 * a30, a03 * a20 * a31, -(a03 * a21 * a30));
    assert(a13 * (a00 * a21 * a33) == a00 * a13 * a21 * a33) by (nonlinear_arith);
    lemma_mul_neg(a13, a00 * a23 * a31);
    assert(a13 * (a00 * a23 * a31) == a00 * a13 * a23 * a31) by (nonlinear_arith);
    lemma_mul_neg(a13, a01 * a20 * a33);
    assert(a13 * (a01 * a20 * a33) == a01 * a13 * a20 * a33) by (nonlinear_arith);
    assert(a13 * (a01 * a23 * a30) == a01 * a13 * a23 * a30) by (nonlinear_arith);
    assert(a13 * (a03 * a20 * a31) == a03 * a13 * a20 * a31) by (nonlinear_arith);
    lemma_mul_neg(a13, a03 * a21 * a30);
    assert(a13 * (a03 * a21 * a30) == a03 * a13 * a21 * a30) by (nonlinear_arith);
    lemma_mul_neg(a13, a00 * (a21 * a33 - a31 * a23) - a01 * (a20 * a33 - a30 * a23) + a03 * (a20 * a31 - a30 * a21));
    assert(a31 * a13 == a13 * a31) by (nonlinear_arith);
    assert(a00 * (a11 * a33 - a13 * a31) == a00 * a11 * a33 - a00 * a13 * a31) by (nonlinear_arith);
    assert(a30 * a13 == a13 * a30) by (nonlinear_arith);
    assert(a01 * (a10 * a33 - a13 * a30) == a01 * a10 * a33 - a01 * a13 * a30) by (nonlinear_arith);
    assert(a30 * a11 == a11 * a30) by (nonlinear_arith);
    assert(a03 * (a10 * a31 - a11 * a30) == a03 * a10 * a31 - a03 * a11 * a30) by (nonlinear_arith);
    lemma_distrib6(a23, a00 * a11 * a33, -(a00 * a13 * a31), -(a01 * a10 * a33), a01 * a13 * a30, a03 * a10 * a31, -(a03 * a11 * a30));
    assert(a23 * (a00 * a11 * a33) == a00 * a11 * a23 * a33) by (nonlinear_arith);
    lemma_mul_neg(a23, a00 * a13 * a31);
    assert(a23 * (a00 * a13 * a31) == a00 * a13 * a23 * a31) by (nonlinear_arith);
    lemma_mul_neg(a23, a01 * a10 * a33);
    assert(a23 * (a01 * a10 * a33) == a01 * a10 * a23 * a33) by (nonlinear_arith);
    assert(a23 * (a01 * a13 * a30) == a01 * a13 * a23 * a30) by (nonlinear_arith);
    assert(a23 * (a03 * a10 * a31) == a03 * a10 * a23 * a31) by (nonlinear_arith);
    lemma_mul_neg(a23, a03 * a11 * a30);
    assert(a23 * (a03 * a11 * a30) == a03 * a11 * a23 * a30) by (nonlinear_arith);
    assert(a21 * a13 == a13 * a21) by (nonlinear_arith);
    assert(a00 * (a11 * a23 - a13 * a21) == a00 * a11 * a23 - a00 * a13 * a21) by (nonlinear_arith);
    assert(a20 * a13 == a13 * a20) by (nonlinear_arith);
    assert(a01 * (a10 * a23 - a13 * a20) == a01 * a10 * a23 - a01 * a13 * a20) by (nonlinear_arith);
    assert(a20 * a11 == a11 * a20) by (nonlinear_arith);
    assert(a03 * (a10 * a21 - a11 * a20) == a03 * a10 * a21 - a03 * a11 * a20) by (nonlinear_arith);
    lemma_distrib6(a33, a00 * a11 * a23, -(a00 * a13 * a21), -(a01 * a10 * a23), a01 * a13 * a20, a03 * a10 * a21, -(a03 * a11 * a20));
    assert(a33 * (a00 * a11 * a23) == a00 * a11 * a23 * a33) by (nonlinear_arith);
    lemma_mul_neg(a33, a00 * a13 * a21);
    assert(a33 * (a00 * a13 * a21) == a00 * a13 * a21 * a33) by (nonlinear_arith);
    lemma_mul_neg(a33, a01 * a10 * a23);
    assert(a33 * (a01 * a10 * a23) == a01 * a10 * a23 * a33) by (nonlinear_arith);
    assert(a33 * (a01 * a13 * a20) == a01 * a13 * a20 * a33) by (nonlinear_arith);
    assert(a33 * (a03 * a10 * a21) == a03 * a10 * a21 * a33) by (nonlinear_arith);
    lemma_mul_neg(a33, a03 * a11 * a20);
    assert(a33 * (a03 * a11 * a20) == a03 * a11 * a20 * a33) by (nonlinear_arith);
    lemma_mul_neg(a33, a00 * (a11 * a23 - a21 * a13) - a01 * (a10 * a23 - a20 * a13) + a03 * (a10 * a21 - a20 * a11));
}

proof fn lemma_cofactor_expansion4_30(a00: int, a01: int, a02: int, a03: int, a10: int, a11: int, a12: int, a13: int, a20: int, a21: int, a22: int, a23: int, a30: int, a31: int, a32: int, a33: int)
    ensures
        a00 * (-(a10 * (a21 * a32 - a31 * a22) - a11 * (a20 * a32 - a30 * a22) + a12 * (a20 * a31 - a30 * a21))) + a10 * (a00 * (a21 * a32 - a31 * a22) - a01 * (a20 * a32 - a30 * a22) + a02 * (a20 * a31 - a30 * a21)) + a20 * (-(a00 * (a11 * a32 - a31 * a12) - a01 * (a10 * a32 - a30 * a12) + a02 * (a10 * a31 - a30 * a11))) + a30 * (a00 * (a11 * a22 - a21 * a12) - a01 * (a10 * a22 - a20 * a12) + a02 * (a10 * a21 - a20 * a11)) == 0,
{
    assert(a31 * a22 == a22 * a31) by (nonlinear_arith);
    assert(a10 * (a21 * a32 - a22 * a31) == a10 * a21 * a32 - a10 * a22 * a31) by (nonlinear_arith);
    assert(a30 * a22 == a22 * a30) by (nonlinear_arith);
    assert(a11 * (a20 * a32 - a22 * a30) == a11 * a20 * a32 - a11 * a22 * a30) by (nonlinear_arith);
    assert(a30 * a21 == a21 * a30) by (nonlinear_arith);
    assert(a12 * (a20 * a31 - a21 * a30) == a12 * a20 * a31 - a12 * a21 * a30) by (nonlinear_arith);
    lemma_distrib6(a00, a10 * a21 * a32, -(a10 * a22 * a31), -(a11 * a20 * a32), a11 * a22 * a30, a12 * a20 * a31, -(a12 * a21 * a30));
    assert(a00 * (a10 * a21 * a32) == a00 * a10 * a21 * a32) by (nonlinear_arith);
    lemma_mul_neg(a00, a10 * a22 * a31);
    assert(a00 * (a10 * a22 * a31) == a00 * a10 * a22 * a31) by (nonlinear_arith);
    lemma_mul_neg(a00, a11 * a20 * a32);
    assert(a00 * (a11 * a20 * a32) == a00 * a11 * a20 * a32) by (nonlinear_arith);
    assert(a00 * (a11 * a22 * a30) == a00 * a11 * a22 * a30) by (nonlinear_arith);
    assert(a00 * (a12 * a20 * a31) == a00 * a12 * a20 * a31) by (nonlinear_arith);
    lemma_mul_neg(a00, a12 * a21 * a30);
    assert(a00 * (a12 * a21 * a30) == a00 * a12 * a21 * a30) by (nonlinear_arith);
    lemma_mul_neg(a00, a10 * (a21 * a32 - a31 * a22) - a11 * (a20 * a32 - a30 * a22) + a12 * (a20 * a31 - a30 * a21));
    assert(a00 * (a21 * a32 - a22 * a31) == a00 * a21 * a32 - a00 * a22 * a31) by (nonlinear_arith);
    assert(a01 * (a20 * a32 - a22 * a30) == a01 * a20 * a32 - a01 * a22 * a30) by (nonlinear_arith);
    assert(a02 * (a20 * a31 - a21 * a30) == a02 * a20 * a31 - a02 * a21 * a30) by (nonlinear_arith);
    lemma_distrib6(a10, a00 * a21 * a32, -(a00 * a22 * a31), -(a01 * a20 * a32), a01 * a22 * a30, a02 * a20 * a31, -(a02 * a21 * a30));
    assert(a10 * (a00 * a21 * a32) == a00 * a10 * a21 * a32) by (nonlinear_arith);
    lemma_mul_neg(a10, a00 * a22 * a31);
    assert(a10 * (a00 * a22 * a31) == a00 * a10 * a22 * a31) by (nonlinear_arith);
    lemma_mul_neg(a10, a01 * a20 * a32);
    assert(a10 * (a01 * a20 * a32) == a01 * a10 * a20 * a32) by (nonlinear_arith);
    assert(a10 * (a01 * a22 * a30) == a01 * a10 * a22 * a30) by (nonlinear_arith);
    assert(a10 * (a02 * a20 * a31) == a02 * a10 * a20 * a31) by (nonlinear_arith);
    lemma_mul_neg(a10, a02 * a21 * a30);
    assert(a10 * (a02 * a21 * a30) == a02 * a10 * a21 * a30) by (nonlinear_arith);
    assert(a31 * a12 == a12 * a31) by (nonlinear_arith);
    assert(a00 * (a11 * a32 - a12 * a31) == a00 * a11 * a32 - a00 * a12 * a31) by (nonlinear_arith);
    assert(a30 * a12 == a12 * a30) by (nonlinear_arith);
    assert(a01 * (a10 * a32 - a12 * a30) == a01 * a10 * a32 - a01 * a12 * a30) by (nonlinear_arith);
    assert(a30 * a11 == a11 * a30) by (nonlinear_arith);
    assert(a02 * (a10 * a31 - a11 * a30) == a02 * a10 * a31 - a02 * a11 * a30) by (nonlinear_arith);
    lemma_distrib6(a20, a00 * a11 * a32, -(a00 * a12 * a31), -(a01 * a10 * a32), a01 * a12 * a30, a02 * a10 * a31, -(a02 * a11 * a30));
    assert(a20 * (a00 * a11 * a32) == a00 * a11 * a20 * a32) by (nonlinear_arith);
    lemma_mul_neg(a20, a00 * a12 * a31);
    assert(a20 * (a00 * a12 * a31) == a00 * a12 * a20 * a31) by (nonlinear_arith);
    lemma_mul_neg(a20, a01 * a10 * a32);
    assert(a20 * (a01 * a10 * a32) == a01 * a10 * a20 * a32) by (nonlinear_arith);
    assert(a20 * (a01 * a12 * a30) == a01 * a12 * a20 * a30) by (nonlinear_arith);
    assert(a20 * (a02 * a10 * a31) == a02 * a10 * a20 * a31) by (nonlinear_arith);
    lemma_mul_neg(a20, a02 * a11 * a30);
    assert(a20 * (a02 * a11 * a30) == a02 * a11 * a20 * a30) by (nonlinear_arith);
    lemma_mul_neg(a20, a00 * (a11 * a32 - a31 * a12) - a01 * (a10 * a32 - a30 * a12) + a02 * (a10 * a31 - a30 * a11));
    assert(a21 * a12 == a12 * a21) by (nonlinear_arith);
    assert(a00 * (a11 * a22 - a12 * a21) == a00 * a11 * a22 - a00 * a12 * a21) by (nonlinear_arith);
    assert(a20 * a12 == a12 * a20) by (nonlinear_arith);
    assert(a01 * (a10 * a22 - a12 * a20) == a01 * a10 * a22 - a01 * a12 * a20) by (nonlinear_arith);
    assert(a20 * a11 == a11 * a20) by (nonlinear_arith);
    assert(a02 * (a10 * a21 - a11 * a20) == a02 * a10 * a21 - a02 * a11 * a20) by (nonlinear_arith);
    lemma_distrib6(a30, a00 * a11 * a22, -(a00 * a12 * a21), -(a01 * a10 * a22), a01 * a12 * a20, a02 * a10 * a21, -(a02 * a11 * a20));
    assert(a30 * (a00 * a11 * a22) == a00 * a11 * a22 * a30) by (nonlinear_arith);
    lemma_mul_neg(a30, a00 * a12 * a21);
    assert(a30 * (a00 * a12 * a21) == a00 * a12 * a21 * a30) by (nonlinear_arith);
    lemma_mul_neg(a30, a01 * a10 * a22);
    assert(a30 * (a01 * a10 * a22) == a01 * a10 * a22 * a30) by (nonlinear_arith);
    assert(a30 * (a01 * a12 * a20) == a01 * a12 * a20 * a30) by (nonlinear_arith);
    assert(a30 * (a02 * a10 * a21) == a02 * a10 * a21 * a30) by (nonlinear_arith);
    lemma_mul_neg(a30, a02 * a11 * a20);
    assert(a30 * (a02 * a11 * a20) == a02 * a11 * a20 * a30) by (nonlinear_arith);
}

proof fn lemma_cofactor_expansion4_31(a00: int, a01: int, a02: int, a03: int, a10: int, a11: int, a12: int, a13: int, a20: int, a21: int, a22: int, a23: int, a30: int, a31: int, a32: int, a33: int)
    ensures
        a01 * (-(a10 * (a21 * a32 - a31 * a22) - a11 * (a20 * a32 - a30 * a22) + a12 * (a20 * a31 - a30 * a21))) + a11 * (a00 * (a21 * a32 - a31 * a22) - a01 * (a20 * a32 - a30 * a22) + a02 * (a20 * a31 - a30 * a21)) + a21 * (-(a00 * (a11 * a32 - a31 * a12) - a01 * (a10 * a32 - a30 * a12) + a02 * (a10 * a31 - a30 * a11))) + a31 * (a00 * (a11 * a22 - a21 * a12) - a01 * (a10 * a22 - a20 * a12) + a02 * (a10 * a21 - a20 * a11)) == 0,
{
    assert(a31 * a22 == a22 * a31) by (nonlinear_arith);
    assert(a10 * (a21 * a32 - a22 * a31) == a10 * a21 * a32 - a10 * a22 * a31) by (nonlinear_arith);
    assert(a30 * a22 == a22 * a30) by (nonlinear_arith);
    assert(a11 * (a20 * a32 - a22 * a30) == a11 * a20 * a32 - a11 * a22 * a30) by (nonlinear_arith);
    assert(a30 * a21 == a21 * a30) by (nonlinear_arith);
    assert(a12 * (a20 * a31 - a21 * a30) == a12 * a20 * a31 - a12 * a21 * a30) by (nonlinear_arith);
    lemma_distrib6(a01, a10 * a21 * a32, -(a10 * a22 * a31), -(a11 * a20 * a32), a11 * a22 * a30, a12 * a20 * a31, -(a12 * a21 * a30));
    assert(a01 * (a10 * a21 * a32) == a01 * a10 * a21 * a32) by (nonlinear_arith);
    lemma_mul_neg(a01, a10 * a22 * a31);
    assert(a01 * (a10 * a22 * a31) == a01 * a10 * a22 * a31) by (nonlinear_arith);
    lemma_mul_neg(a01, a11 * a20 * a32);
    assert(a01 * (a11 * a20 * a32) == a01 * a11 * a20 * a32) by (nonlinear_arith);
    assert(a01 * (a11 * a22 * a30) == a01 * a11 * a22 * a30) by (nonlinear_arith);
    assert(a01 * (a12 * a20 * a31) == a01 * a12 * a20 * a31) by (nonlinear_arith);
    lemma_mul_neg(a01, a12 * a21 * a30);
    assert(a01 * (a12 * a21 * a30) == a01 * a12 * a21 * a30) by (nonlinear_arith);
    lemma_mul_neg(a01, a10 * (a21 * a32 - a31 * a22) - a11 * (a20 * a32 - a30 * a22) + a12 * (a20 * a31 - a30 * a21));
    assert(a00 * (a21 * a32 - a22 * a31) == a00 * a21 * a32 - a00 * a22 * a31) by (nonlinear_arith);
    assert(a01 * (a20 * a32 - a22 * a30) == a01 * a20 * a32 - a01 * a22 * a30) by (nonlinear_arith);
    assert(a02 * (a20 * a31 - a21 * a30) == a02 * a20 * a31 - a02 * a21 * a30) by (nonlinear_arith);
    lemma_distrib6(a11, a00 * a21 * a32, -(a00 * a22 * a31), -(a01 * a20 * a32), a01 * a22 * a30, a02 * a20 * a31, -(a02 * a21 * a30));
    assert(a11 * (a00 * a21 * a32) == a00 * a11 * a21 * a32) by (nonlinear_arith);
    lemma_mul_neg(a11, a00 * a22 * a31);
    assert(a11 * (a00 * a22 * a31) == a00 * a11 * a22 * a31) by (nonlinear_arith);
    lemma_mul_neg(a11, a01 * a20 * a32);
    assert(a11 * (a01 * a20 * a32) == a01 * a11 * a20 * a32) by (nonlinear_arith);
    assert(a11 * (a01 * a22 * a30) == a01 * a11 * a22 * a30) by (nonlinear_arith);
    assert(a11 * (a02 * a20 * a31) == a02 * a11 * a20 * a31) by (nonlinear_arith);
    lemma_mul_neg(a11, a02 * a21 * a30);
    assert(a11 * (a02 * a21 * a30) == a02 * a11 * a21 * a30) by (nonlinear_arith);
    assert(a31 * a12 == a12 * a31) by (nonlinear_arith);
    assert(a00 * (a11 * a32 - a12 * a31) == a00 * a11 * a32 - a00 * a12 * a31) by (nonlinear_arith);
    assert(a30 * a12 == a12 * a30) by (nonlinear_arith);
    assert(a01 * (a10 * a32 - a12 * a30) == a01 * a10 * a32 - a01 * a12 * a30) by (nonlinear_arith);
    assert(a30 * a11 == a11 * a30) by (nonlinear_arith);
    assert(a02 * (a10 * a31 - a11 * a30) == a02 * a10 * a31 - a02 * a11 * a30) by (nonlinear_arith);
    lemma_distrib6(a21, a00 * a11 * a32, -(a00 * a12 * a31), -(a01 * a10 * a32), a01 * a12 * a30, a02 * a10 * a31, -(a02 * a11 * a30));
    assert(a21 * (a00 * a11 * a32) == a00 * a11 * a21 * a32) by (nonlinear_arith);
    lemma_mul_neg(a21, a00 * a12 * a31);
    assert(a21 * (a00 * a12 * a31) == a00 * a12 * a21 * a31) by (nonlinear_arith);
    lemma_mul_neg(a21, a01 * a10 * a32);
    assert(a21 * (a01 * a10 * a32) == a01 * a10 * a21 * a32) by (nonlinear_arith);
    assert(a21 * (a01 * a12 * a30) == a01 * a12 * a21 * a30) by (nonlinear_arith);
    assert(a21 * (a02 * a10 * a31) == a02 * a10 * a21 * a31) by (nonlinear_arith);
    lemma_mul_neg(a21, a02 * a11 * a30);
    assert(a21 * (a02 * a11 * a30) == a02 * a11 * a21 * a30) by (nonlinear_arith);
    lemma_mul_neg(a21, a00 * (a11 * a32 - a31 * a12) - a01 * (a10 * a32 - a30 * a12) + a02 * (a10 * a31 - a30 * a11));
    assert(a21 * a12 == a12 * a21) by (nonlinear_arith);
    assert(a00 * (a11 * a22 - a12 * a21) == a00 * a11 * a22 - a00 * a12 * a21) by (nonlinear_arith);
    assert(a20 * a12 == a12 * a20) by (nonlinear_arith);
    assert(a01 * (a10 * a22 - a12 * a20) == a01 * a10 * a22 - a01 * a12 * a20) by (nonlinear_arith);
    assert(a20 * a11 == a11 * a20) by (nonlinear_arith);
    assert(a02 * (a10 * a21 - a11 * a20) == a02 * a10 * a21 - a02 * a11 * a20) by (nonlinear_arith);
    lemma_distrib6(a31, a00 * a11 * a22, -(a00 * a12 * a21), -(a01 * a10 * a22), a01 * a12 * a20, a02 * a10 * a21, -(a02 * a11 * a20));
    assert(a31 * (a00 * a11 * a22) == a00 * a11 * a22 * a31) by (nonlinear_arith);
    lemma_mul_neg(a31, a00 * a12 * a21);
    assert(a31 * (a00 * a12 * a21) == a00 * a12 * a21 * a31) by (nonlinear_arith);
    lemma_mul_neg(a31, a01 * a10 * a22);
    assert(a31 * (a01 * a10 * a22) == a01 * a10 * a22 * a31) by (nonlinear_arith);
    assert(a31 * (a01 * a12 * a20) == a01 * a12 * a20 * a31) by (nonlinear_arith);
    assert(a31 * (a02 * a10 * a21) == a02 * a10 * a21 * a31) by (nonlinear_arith);
    lemma_mul_neg(a31, a02 * a11 * a20);
    assert(a31 * (a02 * a11 * a20) == a02 * a11 * a20 * a31) by (nonlinear_arith);
}

proof fn lemma_cofactor_expansion4_32(a00: int, a01: int, a02: int, a03: int, a10: int, a11: int, a12: int, a13: int, a20: int, a21: int, a22: int, a23: int, a30: int, a31: int, a32: int, a33: int)
    ensures
        a02 * (-(a10 * (a21 * a32 - a31 * a22) - a11 * (a20 * a32 - a30 * a22) + a12 * (a20 * a31 - a30 * a21))) + a12 * (a00 * (a21 * a32 - a31 * a22) - a01 * (a20 * a32 - a30 * a22) + a02 * (a20 * a31 - a30 * a21)) + a22 * (-(a00 * (a11 * a32 - a31 * a12) - a01 * (a10 * a32 - a30 * a12) + a02 * (a10 * a31 - a30 * a11))) + a32 * (a00 * (a11 * a22 - a21 * a12) - a01 * (a10 * a22 - a20 * a12) + a02 * (a10 * a21 - a20 * a11)) == 0,
{
    assert(a31 * a22 == a22 * a31) by (nonlinear_arith);
    assert(a10 * (a21 * a32 - a22 * a31) == a10 * a21 * a32 - a10 * a22 * a31) by (nonlinear_arith);
    assert(a30 * a22 == a22 * a30) by (nonlinear_arith);
    assert(a11 * (a20 * a32 - a22 * a30) == a11 * a20 * a32 - a11 * a22 * a30) by (nonlinear_arith);
    assert(a30 * a21 == a21 * a30) by (nonlinear_arith);
    assert(a12 * (a20 * a31 - a21 * a30) == a12 * a20 * a31 - a12 * a21 * a30) by (nonlinear_arith);
    lemma_distrib6(a02, a10 * a21 * a32, -(a10 * a22 * a31), -(a11 * a20 * a32), a11 * a22 * a30, a12 * a20 * a31, -(a12 * a21 * a30));
    assert(a02 * (a10 * a21 * a32) == a02 * a10 * a21 * a32) by (nonlinear_arith);
    lemma_mul_neg(a02, a10 * a22 * a31);
    assert(a02 * (a10 * a22 * a31) == a02 * a10 * a22 * a31) by (nonlinear_arith);
    lemma_mul_neg(a02, a11 * a20 * a32);
    assert(a02 * (a11 * a20 * a32) == a02 * a11 * a20 * a32) by (nonlinear_arith);
    assert(a02 * (a11 * a22 * a30) == a02 * a11 * a22 * a30) by (nonlinear_arith);
    assert(a02 * (a12 * a20 * a31) == a02 * a12 * a20 * a31) by (nonlinear_arith);
    lemma_mul_neg(a02, a12 * a21 * a30);
    assert(a02 * (a12 * a21 * a30) == a02 * a12 * a21 * a30) by (nonlinear_arith);
    lemma_mul_neg(a02, a10 * (a21 * a32 - a31 * a22) - a11 * (a20 * a32 - a30 * a22) + a12 * (a20 * a31 - a30 * a21));
    assert(a00 * (a21 * a32 - a22 * a31) == a00 * a21 * a32 - a00 * a22 * a31) by (nonlinear_arith);
    assert(a01 * (a20 * a32 - a22 * a30) == a01 * a20 * a32 - a01 * a22 * a30) by (nonlinear_arith);
    assert(a02 * (a20 * a31 - a21 * a30) == a02 * a20 * a31 - a02 * a21 * a30) by (nonlinear_arith);
    lemma_distrib6(a12, a00 * a21 * a32, -(a00 * a22 * a31), -(a01 * a20 * a32), a01 * a22 * a30, a02 * a20 * a31, -(a02 * a21 * a30));
    assert(a12 * (a00 * a21 * a32) == a00 * a12 * a21 * a32) by (nonlinear_arith);
    lemma_mul_neg(a12, a00 * a22 * a31);
    assert(a12 * (a00 * a22 * a31) == a00 * a12 * a22 * a31) by (nonlinear_arith);
    lemma_mul_neg(a12, a01 * a20 * a32);
    assert(a12 * (a01 * a20 * a32) == a01 * a12 * a20 * a32) by (nonlinear_arith);
    assert(a12 * (a01 * a22 * a30) == a01 * a12 * a22 * a30) by (nonlinear_arith);
    assert(a12 * (a02 * a20 * a31) == a02 * a12 * a20 * a31) by (nonlinear_arith);
    lemma_mul_neg(a12, a02 * a21 * a30);
    assert(a12 * (a02 * a21 * a30) == a02 * a12 * a21 * a30) by (nonlinear_arith);
    assert(a31 * a12 == a12 * a31) by (nonlinear_arith);
    assert(a00 * (a11 * a32 - a12 * a31) == a00 * a11 * a32 - a00 * a12 * a31) by (nonlinear_arith);
    assert(a30 * a12 == a12 * a30) by (nonlinear_arith);
    assert(a01 * (a10 * a32 - a12 * a30) == a01 * a10 * a32 - a01 * a12 * a30) by (nonlinear_arith);
    assert(a30 * a11 == a11 * a30) by (nonlinear_arith);
    assert(a02 * (a10 * a31 - a11 * a30) == a02 * a10 * a31 - a02 * a11 * a30) by (nonlinear_arith);
    lemma_distrib6(a22, a00 * a11 * a32, -(a00 * a12 * a31), -(a01 * a10 * a32), a01 * a12 * a30, a02 * a10 * a31, -(a02 * a11 * a30));
    assert(a22 * (a00 * a11 * a32) == a00 * a11 * a22 * a32) by (nonlinear_arith);
    lemma_mul_neg(a22, a00 * a12 * a31);
    assert(a22 * (a00 * a12 * a31) == a00 * a12 * a22 * a31) by (nonlinear_arith);
    lemma_mul_neg(a22, a01 * a10 * a32);
    assert(a22 * (a01 * a10 * a32) == a01 * a10 * a22 * a32) by (nonlinear_arith);
    assert(a22 * (a01 * a12 * a30) == a01 * a12 * a22 * a30) by (nonlinear_arith);
    assert(a22 * (a02 * a10 * a31) == a02 * a10 * a22 * a31) by (nonlinear_arith);
    lemma_mul_neg(a22, a02 * a11 * a30);
    assert(a22 * (a02 * a11 * a30) == a02 * a11 * a22 * a30) by (nonlinear_arith);
    lemma_mul_neg(a22, a00 * (a11 * a32 - a31 * a12) - a01 * (a10 * a32 - a30 * a12) + a02 * (a10 * a31 - a30 * a11));
    assert(a21 * a12 == a12 * a21) by (nonlinear_arith);
    assert(a00 * (a11 * a22 - a12 * a21) == a00 * a11 * a22 - a00 * a12 * a21) by (nonlinear_arith);
    assert(a20 * a12 == a12 * a20) by (nonlinear_arith);
    assert(a01 * (a10 * a22 - a12 * a20) == a01 * a10 * a22 - a01 * a12 * a20) by (nonlinear_arith);
    assert(a20 * a11 == a11 * a20) by (nonlinear_arith);
    assert(a02 * (a10 * a21 - a11 * a20) == a02 * a10 * a21 - a02 * a11 * a20) by (nonlinear_arith);
    lemma_distrib6(a32, a00 * a11 * a22, -(a00 * a12 * a21), -(a01 * a10 * a22), a01 * a12 * a20, a02 * a10 * a21, -(a02 * a11 * a20));
    assert(a32 * (a00 * a11 * a22) == a00 * a11 * a22 * a32) by (nonlinear_arith);
    lemma_mul_neg(a32, a00 * a12 * a21);
    assert(a32 * (a00 * a12 * a21) == a00 * a12 * a21 * a32) by (nonlinear_arith);
    lemma_mul_neg(a32, a01 * a10 * a22);
    assert(a32 * (a01 * a10 * a22) == a01 * a10 * a22 * a32) by (nonlinear_arith);
    assert(a32 * (a01 * a12 * a20) == a01 * a12 * a20 * a32) by (nonlinear_arith);
    assert(a32 * (a02 * a10 * a21) == a02 * a10 * a21 * a32) by (nonlinear_arith);
    lemma_mul_neg(a32, a02 * a11 * a20);
    assert(a32 * (a02 * a11 * a20) == a02 * a11 * a20 * a32) by (nonlinear_arith);
}

proof fn lemma_cofactor_expansion4_33(a00: int, a01: int, a02: int, a03: int, a10: int, a11: int, a12: int, a13: int, a20: int, a21: int, a22: int, a23: int, a30: int, a31: int, a32: int, a33: int)
    ensures
        a03 * (-(a10 * (a21 * a32 - a31 * a22) - a11 * (a20 * a32 - a30 * a22) + a12 * (a20 * a31 - a30 * a21))) + a13 * (a00 * (a21 * a32 - a31 * a22) - a01 * (a20 * a32 - a30 * a22) + a02 * (a20 * a31 - a30 * a21)) + a23 * (-(a00 * (a11 * a32 - a31 * a12) - a01 * (a10 * a32 - a30 * a12) + a02 * (a10 * a31 - a30 * a11))) + a33 * (a00 * (a11 * a22 - a21 * a12) - a01 * (a10 * a22 - a20 * a12) + a02 * (a10 * a21 - a20 * a11)) == a00 * (a11 * (a22 * a33 - a32 * a23) - a12 * (a21 * a33 - a31 * a23) + a13 * (a21 * a32 - a31 * a22)) - a01 * (a10 * (a22 * a33 - a32 * a23) - a12 * (a20 * a33 - a30 * a23) + a13 * (a20 * a32 - a30 * a22)) + a02 * (a10 * (a21 * a33 - a31 * a23) - a11 * (a20 * a33 - a30 * a23) + a13 * (a20 * a31 - a30 * a21)) - a03 * (a10 * (a21 * a32 - a31 * a22) - a11 * (a20 * a32 - a30 * a22) + a12 * (a20 * a31 - a30 * a21)),
{
    assert(a31 * a22 == a22 * a31) by (nonlinear_arith);
    assert(a10 * (a21 * a32 - a22 * a31) == a10 * a21 * a32 - a10 * a22 * a31) by (nonlinear_arith);
    assert(a30 * a22 == a22 * a30) by (nonlinear_arith);
    assert(a11 * (a20 * a32 - a22 * a30) == a11 * a20 * a32 - a11 * a22 * a30) by (nonlinear_arith);
    assert(a30 * a21 == a21 * a30) by (nonlinear_arith);
    assert(a12 * (a20 * a31 - a21 * a30) == a12 * a20 * a31 - a12 * a21 * a30) by (nonlinear_arith);
    lemma_distrib6(a03, a10 * a21 * a32, -(a10 * a22 * a31), -(a11 * a20 * a32), a11 * a22 * a30, a12 * a20 * a31, -(a12 * a21 * a30));
    assert(a03 * (a10 * a21 * a32) == a03 * a10 * a21 * a32) by (nonlinear_arith);
    lemma_mul_neg(a03, a10 * a22 * a31);
    assert(a03 * (a10 * a22 * a31) == a03 * a10 * a22 * a31) by (nonlinear_arith);
    lemma_mul_neg(a03, a11 * a20 * a32);
    assert(a03 * (a11 * a20 * a32) == a03 * a11 * a20 * a32) by (nonlinear_arith);
    assert(a03 * (a11 * a22 * a30) == a03 * a11 * a22 * a30) by (nonlinear_arith);
    assert(a03 * (a12 * a20 * a31) == a03 * a12 * a20 * a31) by (nonlinear_arith);
    lemma_mul_neg(a03, a12 * a21 * a30);
    assert(a03 * (a12 * a21 * a30) == a03 * a12 * a21 * a30) by (nonlinear_arith);
    lemma_mul_neg(a03, a10 * (a21 * a32 - a31 * a22) - a11 * (a20 * a32 - a30 * a22) + a12 * (a20 * a31 - a30 * a21));
    assert(a00 * (a21 * a32 - a22 * a31) == a00 * a21 * a32 - a00 * a22 * a31) by (nonlinear_arith);
    assert(a01 * (a20 * a32 - a22 * a30) == a01 * a20 * a32 - a01 * a22 * a30) by (nonlinear_arith);
    assert(a02 * (a20 * a31 - a21 * a30) == a02 * a20 * a31 - a02 * a21 * a30) by (nonlinear_arith);
    lemma_distrib6(a13, a00 * a21 * a32, -(a00 * a22 * a31), -(a01 * a20 * a32), a01 * a22 * a30, a02 * a20 * a31, -(a02 * a21 * a30));
    assert(a13 * (a00 * a21 * a32) == a00 * a13 * a21 * a32) by (nonlinear_arith);
    lemma_mul_neg(a13, a00 * a22 * a31);
    assert(a13 * (a00 * a22 * a31) == a00 * a13 * a22 * a31) by (nonlinear_arith);
    lemma_mul_neg(a13, a01 * a20 * a32);
    assert(a13 * (a01 * a20 * a32) == a01 * a13 * a20 * a32) by (nonlinear_arith);
    assert(a13 * (a01 * a22 * a30) == a01 * a13 * a22 * a30) by (nonlinear_arith);
    assert(a13 * (a02 * a20 * a31) == a02 * a13 * a20 * a31) by (nonlinear_arith);
    lemma_mul_neg(a13, a02 * a21 * a30);
    assert(a13 * (a02 * a21 * a30) == a02 * a13 * a21 * a30) by (nonlinear_arith);
    assert(a31 * a12 == a12 * a31) by (nonlinear_arith);
    assert(a00 * (a11 * a32 - a12 * a31) == a00 * a11 * a32 - a00 * a12 * a31) by (nonlinear_arith);
    assert(a30 * a12 == a12 * a30) by (nonlinear_arith);
    assert(a01 * (a10 * a32 - a12 * a30) == a01 * a10 * a32 - a01 * a12 * a30) by (nonlinear_arith);
    assert(a30 * a11 == a11 * a30) by (nonlinear_arith);
    assert(a02 * (a10 * a31 - a11 * a30) == a02 * a10 * a31 - a02 * a11 * a30) by (nonlinear_arith);
    lemma_distrib6(a23, a00 * a11 * a32, -(a00 * a12 * a31), -(a01 * a10 * a32), a01 * a12 * a30, a02 * a10 * a31, -(a02 * a11 * a30));
    assert(a23 * (a00 * a11 * a32) == a00 * a11 * a23 * a32) by (nonlinear_arith);
    lemma_mul_neg(a23, a00 * a12 * a31);
    assert(a23 * (a00 * a12 * a31) == a00 * a12 * a23 * a31) by (nonlinear_arith);
    lemma_mul_neg(a23, a01 * a10 * a32);
    assert(a23 * (a01 * a10 * a32) == a01 * a10 * a23 * a32) by (nonlinear_arith);
    assert(a23 * (a01 * a12 * a30) == a01 * a12 * a23 * a30) by (nonlinear_arith);
    assert(a23 * (a02 * a10 * a31) == a02 * a10 * a23 * a31) by (nonlinear_arith);
    lemma_mul_neg(a23, a02 * a11 * a30);
    assert(a23 * (a02 * a11 * a30) == a02 * a11 * a23 * a30) by (nonlinear_arith);
    lemma_mul_neg(a23, a00 * (a11 * a32 - a31 * a12) - a01 * (a10 * a32 - a30 * a12) + a02 * (a10 * a31 - a30 * a11));
    assert(a21 * a12 == a12 * a21) by (nonlinear_arith);
    assert(a00 * (a11 * a22 - a12 * a21) == a00 * a11 * a22 - a00 * a12 * a21) by (nonlinear_arith);
    assert(a20 * a12 == a12 * a20) by (nonlinear_arith);
    assert(a01 * (a10 * a22 - a12 * a20) == a01 * a10 * a22 - a01 * a12 * a20) by (nonlinear_arith);
    assert(a20 * a11 == a11 * a20) by (nonlinear_arith);
    assert(a02 * (a10 * a21 - a11 * a20) == a02 * a10 * a21 - a02 * a11 * a20) by (nonlinear_arith);
    lemma_distrib6(a33, a00 * a11 * a22, -(a00 * a12 * a21), -(a01 * a10 * a22), a01 * a12 * a20, a02 * a10 * a21, -(a02 * a11 * a20));
    assert(a33 * (a00 * a11 * a22) == a00 * a11 * a22 * a33) by (nonlinear_arith);
    lemma_mul_neg(a33, a00 * a12 * a21);
    assert(a33 * (a00 * a12 * a21) == a00 * a12 * a21 * a33) by (nonlinear_arith);
    lemma_mul_neg(a33, a01 * a10 * a22);
    assert(a33 * (a01 * a10 * a22) == a01 * a10 * a22 * a33) by (nonlinear_arith);
    assert(a33 * (a01 * a12 * a20) == a01 * a12 * a20 * a33) by (nonlinear_arith);
    assert(a33 * (a02 * a10 * a21) == a02 * a10 * a21 * a33) by (nonlinear_arith);
    lemma_mul_neg(a33, a02 * a11 * a20);
    assert(a33 * (a02 * a11 * a20) == a02 * a11 * a20 * a33) by (nonlinear_arith);
    assert(a32 * a23 == a23 * a32) by (nonlinear_arith);
    assert(a11 * (a22 * a33 - a23 * a32) == a11 * a22 * a33 - a11 * a23 * a32) by (nonlinear_arith);
    assert(a31 * a23 == a23 * a31) by (nonlinear_arith);
    assert(a12 * (a21 * a33 - a23 * a31) == a12 * a21 * a33 - a12 * a23 * a31) by (nonlinear_arith);
    assert(a13 * (a21 * a32 - a22 * a31) == a13 * a21 * a32 - a13 * a22 * a31) by (nonlinear_arith);
    lemma_distrib6(a00, a11 * a22 * a33, -(a11 * a23 * a32), -(a12 * a21 * a33), a12 * a23 * a31, a13 * a21 * a32, -(a13 * a22 * a31));
    assert(a00 * (a11 * a22 * a33) == a00 * a11 * a22 * a33) by (nonlinear_arith);
    lemma_mul_neg(a00, a11 * a23 * a32);
    assert(a00 * (a11 * a23 * a32) == a00 * a11 * a23 * a32) by (nonlinear_arith);
    lemma_mul_neg(a00, a12 * a21 * a33);
    assert(a00 * (a12 * a21 * a33) == a00 * a12 * a21 * a33) by (nonlinear_arith);
    assert(a00 * (a12 * a23 * a31) == a00 * a12 * a23 * a31) by (nonlinear_arith);
    assert(a00 * (a13 * a21 * a32) == a00 * a13 * a21 * a32) by (nonlinear_arith);
    lemma_mul_neg(a00, a13 * a22 * a31);
    assert(a00 * (a13 * a22 * a31) == a00 * a13 * a22 * a31) by (nonlinear_arith);
    assert(a10 * (a22 * a33 - a23 * a32) == a10 * a22 * a33 - a10 * a23 * a32) by (nonlinear_arith);
    assert(a30 * a23 == a23 * a30) by (nonlinear_arith);
    assert(a12 * (a20 * a33 - a23 * a30) == a12 * a20 * a33 - a12 * a23 * a30) by (nonlinear_arith);
    assert(a13 * (a20 * a32 - a22 * a30) == a13 * a20 * a32 - a13 * a22 * a30) by (nonlinear_arith);
    lemma_distrib6(a01, a10 * a22 * a33, -(a10 * a23 * a32), -(a12 * a20 * a33), a12 * a23 * a30, a13 * a20 * a32, -(a13 * a22 * a30));
    assert(a01 * (a10 * a22 * a33) == a01 * a10 * a22 * a33) by (nonlinear_arith);
    lemma_mul_neg(a01, a10 * a23 * a32);
    assert(a01 * (a10 * a23 * a32) == a01 * a10 * a23 * a32) by (nonlinear_arith);
    lemma_mul_neg(a01, a12 * a20 * a33);
    assert(a01 * (a12 * a20 * a33) == a01 * a12 * a20 * a33) by (nonlinear_arith);
    assert(a01 * (a12 * a23 * a30) == a01 * a12 * a23 * a30) by (nonlinear_arith);
    assert(a01 * (a13 * a20 * a32) == a01 * a13 * a20 * a32) by (nonlinear_arith);
    lemma_mul_neg(a01, a13 * a22 * a30);
    assert(a01 * (a13 * a22 * a30) == a01 * a13 * a22 * a30) by (nonlinear_arith);
    assert(a10 * (a21 * a33 - a23 * a31) == a10 * a21 * a33 - a10 * a23 * a31) by (nonlinear_arith);
    assert(a11 * (a20 * a33 - a23 * a30) == a11 * a20 * a33 - a11 * a23 * a30) by (nonlinear_arith);
    assert(a13 * (a20 * a31 - a21 * a30) == a13 * a20 * a31 - a13 * a21 * a30) by (nonlinear_arith);
    lemma_distrib6(a02, a10 * a21 * a33, -(a10 * a23 * a31), -(a11 * a20 * a33), a11 * a23 * a30, a13 * a20 * a31, -(a13 * a21 * a30));
    assert(a02 * (a10 * a21 * a33) == a02 * a10 * a21 * a33) by (nonlinear_arith);
    lemma_mul_neg(a02, a10 * a23 * a31);
    assert(a02 * (a10 * a23 * a31) == a02 * a10 * a23 * a31) by (nonlinear_arith);
    lemma_mul_neg(a02, a11 * a20 * a33);
    assert(a02 * (a11 * a20 * a33) == a02 * a11 * a20 * a33) by (nonlinear_arith);
    assert(a02 * (a11 * a23 * a30) == a02 * a11 * a23 * a30) by (nonlinear_arith);
    assert(a02 * (a13 * a20 * a31) == a02 * a13 * a20 * a31) by (nonlinear_arith);
    lemma_mul_neg(a02, a13 * a21 * a30);
    assert(a02 * (a13 * a21 * a30) == a02 * a13 * a21 * a30) by (nonlinear_arith);
    lemma_distrib6(a03, a10 * a21 * a32, -(a10 * a22 * a31), -(a11 * a20 * a32), a11 * a22 * a30, a12 * a20 * a31, -(a12 * a21 * a30));
    assert(a03 * (a10 * a21 * a32) == a03 * a10 * a21 * a32) by (nonlinear_arith);
    lemma_mul_neg(a03, a10 * a22 * a31);
    assert(a03 * (a10 * a22 * a31) == a03 * a10 * a22 * a31) by (nonlinear_arith);
    lemma_mul_neg(a03, a11 * a20 * a32);
    assert(a03 * (a11 * a20 * a32) == a03 * a11 * a20 * a32) by (nonlinear_arith);
    assert(a03 * (a11 * a22 * a30) == a03 * a11 * a22 * a30) by (nonlinear_arith);
    assert(a03 * (a12 * a20 * a31) == a03 * a12 * a20 * a31) by (nonlinear_arith);
    lemma_mul_neg(a03, a12 * a21 * a30);
    assert(a03 * (a12 * a21 * a30) == a03 * a12 * a21 * a30) by (nonlinear_arith);
}

proof fn lemma_mul_distrib4(k: int, a: int, b: int, c: int, d: int)
    ensures
        k * a + k * b + k * c + k * d == k * (a + b + c + d),
{
    assert(k * a + k * b + k * c + k * d == k * (a + b + c + d)) by (nonlinear_arith);
}

/// A matrix of order 4 whose determinant is `1` or `-1` has an exact inverse
/// in integer arithmetic: the matrix times its inverse is the identity. (Any
/// other determinant makes `1 / det` round to zero.)
pub proof fn inverse4_round_trip(m: Seq<Seq<int>>)
    requires
        square(m, 4),
        det4(m) == 1 || det4(m) == -1,
    ensures
        mat_mul(m, inverse4(m)) == identity(4),
{
    let adj = adjugate4(m);
    let inv = inverse4(m);
    let k = quot(1, det4(m));
    if det4(m) == 1 {
        assert(k == 1);
    } else {
        assert(k == -1);
    }
    assert(k * det4(m) == 1);
    lemma_adjugate4(m);
    lemma_cofactor_expansion4(m[0][0], m[0][1], m[0][2], m[0][3], m[1][0], m[1][1], m[1][2], m[1][3], m[2][0], m[2][1], m[2][2], m[2][3], m[3][0], m[3][1], m[3][2], m[3][3]);
    lemma_sum4(|j: int| row(m, 0)[j] * inv[0][j]);
    lemma_mul_rotate(m[0][0], adj[0][0], k);
    lemma_mul_rotate(m[1][0], adj[0][1], k);
    lemma_mul_rotate(m[2][0], adj[0][2], k);
    lemma_mul_rotate(m[3][0], adj[0][3], k);
    lemma_mul_distrib4(k, m[0][0] * adj[0][0], m[1][0] * adj[0][1], m[2][0] * adj[0][2], m[3][0] * adj[0][3]);
    assert(mat_mul(m, inv)[0][0] == identity(4)[0][0]);
    lemma_sum4(|j: int| row(m, 1)[j] * inv[0][j]);
    lemma_mul_rotate(m[0][1], adj[0][0], k);
    lemma_mul_rotate(m[1][1], adj[0][1], k);
    lemma_mul_rotate(m[2][1], adj[0][2], k);
    lemma_mul_rotate(m[3][1], adj[0][3], k);
    lemma_mul_distrib4(k, m[0][1] * adj[0][0], m[1][1] * adj[0][1], m[2][1] * adj[0][2], m[3][1] * adj[0][3]);
    assert(mat_mul(m, inv)[0][1] == identity(4)[0][1]);
    lemma_sum4(|j: int| row(m, 2)[j] * inv[0][j]);
    lemma_mul_rotate(m[0][2], adj[0][0], k);
    lemma_mul_rotate(m[1][2], adj[0][1], k);
    lemma_mul_rotate(m[2][2], adj[0][2], k);
    lemma_mul_rotate(m[3][2], adj[0][3], k);
    lemma_mul_distrib4(k, m[0][2] * adj[0][0], m[1][2] * adj[0][1], m[2][2] * adj[0][2], m[3][2] * adj[0][3]);
    assert(mat_mul(m, inv)[0][2] == identity(4)[0][2]);
    lemma_sum4(|j: int| row(m, 3)[j] * inv[0][j]);
    lemma_mul_rotate(m[0][3], adj[0][0], k);
    lemma_mul_rotate(m[1][3], adj[0][1], k);
    lemma_mul_rotate(m[2][3], adj[0][2], k);
    lemma_mul_rotate(m[3][3], adj[0][3], k);
    lemma_mul_distrib4(k, m[0][3] * adj[0][0], m[1][3] * adj[0][1], m[2][3] * adj[0][2], m[3][3] * adj[0][3]);
    assert(mat_mul(m, inv)[0][3] == identity(4)[0][3]);
    lemma_sum4(|j: int| row(m, 0)[j] * inv[1][j]);
    lemma_mul_rotate(m[0][0], adj[1][0], k);
    lemma_mul_rotate(m[1][0], adj[1][1], k);
    lemma_mul_rotate(m[2][0], adj[1][2], k);
    lemma_mul_rotate(m[3][0], adj[1][3], k);
    lemma_mul_distrib4(k, m[0][0] * adj[1][0], m[1][0] * adj[1][1], m[2][0] * adj[1][2], m[3][0] * adj[1][3]);
    assert(mat_mul(m, inv)[1][0] == identity(4)[1][0]);
    lemma_sum4(|j: int| row(m, 1)[j] * inv[1][j]);
    lemma_mul_rotate(m[0][1], adj[1][0], k);
    lemma_mul_rotate(m[1][1], adj[1][1], k);
    lemma_mul_rotate(m[2][1], adj[1][2], k);
    lemma_mul_rotate(m[3][1], adj[1][3], k);
    lemma_mul_distrib4(k, m[0][1] * adj[1][0], m[1][1] * adj[1][1], m[2][1] * adj[1][2], m[3][1] * adj[1][3]);
    assert(mat_mul(m, inv)[1][1] == identity(4)[1][1]);
    lemma_sum4(|j: int| row(m, 2)[j] * inv[1][j]);
    lemma_mul_rotate(m[0][2], adj[1][0], k);
    lemma_mul_rotate(m[1][2], adj[1][1], k);
    lemma_mul_rotate(m[2][2], adj[1][2], k);
    lemma_mul_rotate(m[3][2], adj[1][3], k);
    lemma_mul_distrib4(k, m[0][2] * adj[1][0], m[1][2] * adj[1][1], m[2][2] * adj[1][2], m[3][2] * adj[1][3]);
    assert(mat_mul(m, inv)[1][2] == identity(4)[1][2]);
    lemma_sum4(|j: int| row(m, 3)[j] * inv[1][j]);
    lemma_mul_rotate(m[0][3], adj[1][0], k);
    lemma_mul_rotate(m[1][3], adj[1][1], k);
    lemma_mul_rotate(m[2][3], adj[1][2], k);
    lemma_mul_rotate(m[3][3], adj[1][3], k);
    lemma_mul_distrib4(k, m[0][3] * adj[1][0], m[1][3] * adj[1][1], m[2][3] * adj[1][2], m[3][3] * adj[1][3]);
    assert(mat_mul(m, inv)[1][3] == identity(4)[1][3]);
    lemma_sum4(|j: int| row(m, 0)[j] * inv[2][j]);
    lemma_mul_rotate(m[0][0], adj[2][0], k);
    lemma_mul_rotate(m[1][0], adj[2][1], k);
    lemma_mul_rotate(m[2][0], adj[2][2], k);
    lemma_mul_rotate(m[3][0], adj[2][3], k);
    lemma_mul_distrib4(k, m[0][0] * adj[2][0], m[1][0] * adj[2][1], m[2][0] * adj[2][2], m[3][0] * adj[2][3]);
    assert(mat_mul(m, inv)[2][0] == identity(4)[2][0]);
    lemma_sum4(|j: int| row(m, 1)[j] * inv[2][j]);
    lemma_mul_rotate(m[0][1], adj[2][0], k);
    lemma_mul_rotate(m[1][1], adj[2][1], k);
    lemma_mul_rotate(m[2][1], adj[2][2], k);
    lemma_mul_rotate(m[3][1], adj[2][3], k);
    lemma_mul_distrib4(k, m[0][1] * adj[2][0], m[1][1] * adj[2][1], m[2][1] * adj[2][2], m[3][1] * adj[2][3]);
    assert(mat_mul(m, inv)[2][1] == identity(4)[2][1]);
    lemma_sum4(|j: int| row(m, 2)[j] * inv[2][j]);
    lemma_mul_rotate(m[0][2], adj[2][0], k);
    lemma_mul_rotate(m[1][2], adj[2][1], k);
    lemma_mul_rotate(m[2][2], adj[2][2], k);
    lemma_mul_rotate(m[3][2], adj[2][3], k);
    lemma_mul_distrib4(k, m[0][2] * adj[2][0], m[1][2] * adj[2][1], m[2][2] * adj[2][2], m[3][2] * adj[2][3]);
    assert(mat_mul(m, inv)[2][2] == identity(4)[2][2]);
    lemma_sum4(|j: int| row(m, 3)[j] * inv[2][j]);
    lemma_mul_rotate(m[0][3], adj[2][0], k);
    lemma_mul_rotate(m[1][3], adj[2][1], k);
    lemma_mul_rotate(m[2][3], adj[2][2], k);
    lemma_mul_rotate(m[3][3], adj[2][3], k);
    lemma_mul_distrib4(k, m[0][3] * adj[2][0], m[1][3] * adj[2][1], m[2][3] * adj[2][2], m[3][3] * adj[2][3]);
    assert(mat_mul(m, inv)[2][3] == identity(4)[2][3]);
    lemma_sum4(|j: int| row(m, 0)[j] * inv[3][j]);
    lemma_mul_rotate(m[0][0], adj[3][0], k);
    lemma_mul_rotate(m[1][0], adj[3][1], k);
    lemma_mul_rotate(m[2][0], adj[3][2], k);
    lemma_mul_rotate(m[3][0], adj[3][3], k);
    lemma_mul_distrib4(k, m[0][0] * adj[3][0], m[1][0] * adj[3][1], m[2][0] * adj[3][2], m[3][0] * adj[3][3]);
    assert(mat_mul(m, inv)[3][0] == identity(4)[3][0]);
    lemma_sum4(|j: int| row(m, 1)[j] * inv[3][j]);
    lemma_mul_rotate(m[0][1], adj[3][0], k);
    lemma_mul_rotate(m[1][1], adj[3][1], k);
    lemma_mul_rotate(m[2][1], adj[3][2], k);
    lemma_mul_rotate(m[3][1], adj[3][3], k);
    lemma_mul_distrib4(k, m[0][1] * adj[3][0], m[1][1] * adj[3][1], m[2][1] * adj[3][2], m[3][1] * adj[3][3]);
    assert(mat_mul(m, inv)[3][1] == identity(4)[3][1]);
    lemma_sum4(|j: int| row(m, 2)[j] * inv[3][j]);
    lemma_mul_rotate(m[0][2], adj[3][0], k);
    lemma_mul_rotate(m[1][2], adj[3][1], k);
    lemma_mul_rotate(m[2][2], adj[3][2], k);
    lemma_mul_rotate(m[3][2], adj[3][3], k);
    lemma_mul_distrib4(k, m[0][2] * adj[3][0], m[1][2] * adj[3][1], m[2][2] * adj[3][2], m[3][2] * adj[3][3]);
    assert(mat_mul(m, inv)[3][2] == identity(4)[3][2]);
    lemma_sum4(|j: int| row(m, 3)[j] * inv[3][j]);
    lemma_mul_rotate(m[0][3], adj[3][0], k);
    lemma_mul_rotate(m[1][3], adj[3][1], k);
    lemma_mul_rotate(m[2][3], adj[3][2], k);
    lemma_mul_rotate(m[3][3], adj[3][3], k);
    lemma_mul_distrib4(k, m[0][3] * adj[3][0], m[1][3] * adj[3][1], m[2][3] * adj[3][2], m[3][3] * adj[3][3]);
    assert(mat_mul(m, inv)[3][3] == identity(4)[3][3]);
    assert(mat_mul(m, inv) =~~= identity(4));
}

} // verus!
