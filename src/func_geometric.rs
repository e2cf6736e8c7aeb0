//! The dot product, summed in a fixed grouping per arity.
use vstd::prelude::*;

use crate::algebra::{dot, lemma_sum2, lemma_sum3, lemma_sum4};
use crate::scalar::fits;
use crate::type_vec2::vec2;
use crate::type_vec3::vec3;
use crate::type_vec4::vec4;

verus! {

/// No product and no partial sum of `a[0]*b[0] + a[1]*b[1]` leaves `i64`.
pub open spec fn dot2_fits(a: Seq<int>, b: Seq<int>) -> bool {
    &&& fits(a[0] * b[0])
    &&& fits(a[1] * b[1])
    &&& fits(a[0] * b[0] + a[1] * b[1])
}

/// No product and no partial sum of `(a[0]*b[0] + a[1]*b[1]) + a[2]*b[2]`
/// leaves `i64`.
pub open spec fn dot3_fits(a: Seq<int>, b: Seq<int>) -> bool {
    &&& fits(a[0] * b[0])
    &&& fits(a[1] * b[1])
    &&& fits(a[2] * b[2])
    &&& fits(a[0] * b[0] + a[1] * b[1])
    &&& fits(a[0] * b[0] + a[1] * b[1] + a[2] * b[2])
}

/// No product and no partial sum of
/// `(a[0]*b[0] + a[1]*b[1]) + (a[2]*b[2] + a[3]*b[3])` leaves `i64`.
pub open spec fn dot4_fits(a: Seq<int>, b: Seq<int>) -> bool {
    &&& fits(a[0] * b[0])
    &&& fits(a[1] * b[1])
    &&& fits(a[2] * b[2])
    &&& fits(a[3] * b[3])
    &&& fits(a[0] * b[0] + a[1] * b[1])
    &&& fits(a[2] * b[2] + a[3] * b[3])
    &&& fits(a[0] * b[0] + a[1] * b[1] + (a[2] * b[2] + a[3] * b[3]))
}

impl vec2<i64> {
    /// `x*x' + y*y'`.
    pub fn dot(self, other: Self) -> (r: i64)
        requires
            dot2_fits(self@, other@),
        ensures
            r == dot(self@, other@),
    {
        proof {
            lemma_sum2(|i: int| self@[i] * other@[i]);
        }
        let tmp = vec2::new(self.x * other.x, self.y * other.y);
        tmp.x + tmp.y
    }
}

impl vec3<i64> {
    /// `(x*x' + y*y') + z*z'`.
    pub fn dot(self, other: Self) -> (r: i64)
        requires
            dot3_fits(self@, other@),
        ensures
            r == dot(self@, other@),
    {
        proof {
            lemma_sum3(|i: int| self@[i] * other@[i]);
        }
        let tmp = vec3::new(self.x * other.x, self.y * other.y, self.z * other.z);
        tmp.x + tmp.y + tmp.z
    }
}

impl vec4<i64> {
    /// `(x*x' + y*y') + (z*z' + w*w')`.
    pub fn dot(self, other: Self) -> (r: i64)
        requires
            dot4_fits(self@, other@),
        ensures
            r == dot(self@, other@),
    {
        proof {
            lemma_sum4(|i: int| self@[i] * other@[i]);
        }
        let tmp = vec4::new(self.x * other.x, self.y * other.y, self.z * other.z, self.w * other.w);
        (tmp.x + tmp.y) + (tmp.z + tmp.w)
    }
}

} // verus!
