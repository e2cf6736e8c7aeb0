//! The orthographic projection onto clip space, with depth fixed at `-z`.
use vstd::prelude::*;

use crate::algebra::identity;
use crate::scalar::{div_i64, div_ok, fits, quot};
use crate::type_mat4x4::mat4;

verus! {

/// The projection of `ortho`: the identity with the scale of `x` and `y` on
/// the diagonal, `-1` for `z`, and the offsets of `x` and `y` in the last
/// column.
pub open spec fn ortho_matrix(left: int, right: int, bottom: int, top: int) -> Seq<Seq<int>> {
    seq![
        seq![quot(2, right - left), 0, 0, 0],
        seq![0, quot(2, top - bottom), 0, 0],
        seq![0, 0, -1, 0],
        seq![quot(-(right + left), right - left), quot(-(top + bottom), top - bottom), 0, 1],
    ]
}

impl mat4<i64> {
    /// Maps the box `[left, right] x [bottom, top]` onto `[-1, 1] x [-1, 1]`,
    /// in `i64` arithmetic; there are no near and far planes.
    pub fn ortho(left: i64, right: i64, bottom: i64, top: i64) -> (r: Self)
        requires
            right != left,
            top != bottom,
            fits(right - left),
            fits(top - bottom),
            fits(right + left),
            fits(top + bottom),
            fits(-(right + left)),
            fits(-(top + bottom)),
            div_ok((-(right + left)) as i64, (right - left) as i64),
            div_ok((-(top + bottom)) as i64, (top - bottom) as i64),
        ensures
            r@ == ortho_matrix(left as int, right as int, bottom as int, top as int),
    {
        let result = Self::identity();
        let mut c0 = result.value[0];
        let mut c1 = result.value[1];
        let mut c2 = result.value[2];
        let mut c3 = result.value[3];
        proof {
            assert(result@ == identity(4));
            assert(identity(4)[3][3] == 1);
        }
        c0.x = div_i64(2, right - left);
        c1.y = div_i64(2, top - bottom);
        c2.z = -1;
        c3.x = div_i64(-(right + left), right - left);
        c3.y = div_i64(-(top + bottom), top - bottom);
        let r = mat4::new(c0, c1, c2, c3);
        assert(r@ =~~= ortho_matrix(left as int, right as int, bottom as int, top as int));
        r
    }
}

} // verus!
