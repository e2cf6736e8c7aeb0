//! Square matrices of order three, stored column by column.
use vstd::prelude::*;
use vstd::std_specs::ops::{AddSpec, DivSpec, MulSpec, NegSpec, SubSpec};

use crate::algebra::{identity, lemma_sum3, mat_mul, mat_vec, row, vec_mat};
use crate::func_geometric::dot3_fits;

use crate::type_vec3::vec3;

verus! {

/// A square matrix of order three, stored as its columns: `value[c]` is
/// column `c`, and its components are the entries of that column from the
/// top row down.
#[derive(Clone, Copy, Debug, PartialEq, Eq, Hash)]
pub struct mat3<T> {
    pub value: [vec3<T>; 3],
}

impl<T> mat3<T> {
    /// The matrix with these columns, in order.
    pub fn new(value: [vec3<T>; 3]) -> (r: Self)
        ensures
            r.value == value,
    {
        mat3 { value }
    }

    /// The number of columns.
    pub fn len(&self) -> (r: usize)
        ensures
            r == 3,
    {
        3
    }

    /// The columns, in order, as one contiguous slice.
    pub fn as_slice(&self) -> (r: &[vec3<T>])
        ensures
            r@ == self.value@,
    {
        self.value.as_slice()
    }

    /// Column `c`, to be written through; an index past the last column is
    /// refused.
    pub fn index_mut(&mut self, c: usize) -> (r: &mut vec3<T>)
        requires
            c < 3,
        ensures
            *r == old(self).value[c as int],
            final(self).value@ == old(self).value@.update(c as int, *final(r)),
    {
        &mut self.value[c]
    }

    /// Column `c`; an index past the last column is refused.
    pub fn index(&self, c: usize) -> (r: &vec3<T>)
        requires
            c < 3,
        ensures
            *r == self.value[c as int],
    {
        &self.value[c]
    }
}

impl View for mat3<i64> {
    type V = Seq<Seq<int>>;

    open spec fn view(&self) -> Seq<Seq<int>> {
        seq![self.value[0]@, self.value[1]@, self.value[2]@]
    }
}

impl mat3<i64> {
    /// The matrix whose column `c` holds the entries of `m[c]`, as `i64`.
    pub open spec fn from_seq(m: Seq<Seq<int>>) -> Self {
        mat3 { value: [vec3::from_seq(m[0]), vec3::from_seq(m[1]), vec3::from_seq(m[2])] }
    }

    /// Ones on the diagonal, zeros elsewhere.
    pub fn identity() -> (r: Self)
        ensures
            r@ == identity(3),
    {
        let r = mat3 {
            value: [
                vec3::new(1, 0, 0),
                vec3::new(0, 1, 0),
                vec3::new(0, 0, 1),
            ],
        };
        assert(r@ =~~= identity(3));
        r
    }
}

impl Default for mat3<i64> {
    /// The identity matrix.
    fn default() -> (r: Self)
        ensures
            r@ == identity(3),
    {
        Self::identity()
    }
}

impl std::ops::Neg for mat3<i64> {
    type Output = mat3<i64>;

    fn neg(self) -> mat3<i64> {
        mat3 { value: [std::ops::Neg::neg(self.value[0]), std::ops::Neg::neg(self.value[1]), std::ops::Neg::neg(self.value[2])] }
    }
}

impl vstd::std_specs::ops::NegSpecImpl for mat3<i64> {
    open spec fn obeys_neg_spec() -> bool {
        true
    }

    open spec fn neg_req(self) -> bool {
        NegSpec::neg_req(self.value[0]) && NegSpec::neg_req(self.value[1]) && NegSpec::neg_req(self.value[2])
    }

    open spec fn neg_spec(self) -> mat3<i64> {
        mat3 { value: [NegSpec::neg_spec(self.value[0]), NegSpec::neg_spec(self.value[1]), NegSpec::neg_spec(self.value[2])] }
    }
}

impl std::ops::Add<i64> for mat3<i64> {
    type Output = mat3<i64>;

    fn add(self, rhs: i64) -> mat3<i64> {
        mat3 { value: [self.value[0] + rhs, self.value[1] + rhs, self.value[2] + rhs] }
    }
}

impl vstd::std_specs::ops::AddSpecImpl<i64> for mat3<i64> {
    open spec fn obeys_add_spec() -> bool {
        true
    }

    open spec fn add_req(self, rhs: i64) -> bool {
        AddSpec::add_req(self.value[0], rhs) && AddSpec::add_req(self.value[1], rhs) && AddSpec::add_req(self.value[2], rhs)
    }

    open spec fn add_spec(self, rhs: i64) -> mat3<i64> {
        mat3 { value: [AddSpec::add_spec(self.value[0], rhs), AddSpec::add_spec(self.value[1], rhs), AddSpec::add_spec(self.value[2], rhs)] }
    }
}

impl std::ops::Add<mat3<i64>> for i64 {
    type Output = mat3<i64>;

    fn add(self, rhs: mat3<i64>) -> mat3<i64> {
        mat3 { value: [self + rhs.value[0], self + rhs.value[1], self + rhs.value[2]] }
    }
}

impl vstd::std_specs::ops::AddSpecImpl<mat3<i64>> for i64 {
    open spec fn obeys_add_spec() -> bool {
        true
    }

    open spec fn add_req(self, rhs: mat3<i64>) -> bool {
        AddSpec::add_req(self, rhs.value[0]) && AddSpec::add_req(self, rhs.value[1]) && AddSpec::add_req(self, rhs.value[2])
    }

    open spec fn add_spec(self, rhs: mat3<i64>) -> mat3<i64> {
        mat3 { value: [AddSpec::add_spec(self, rhs.value[0]), AddSpec::add_spec(self, rhs.value[1]), AddSpec::add_spec(self, rhs.value[2])] }
    }
}

impl std::ops::Add<mat3<i64>> for mat3<i64> {
    type Output = mat3<i64>;

    fn add(self, rhs: mat3<i64>) -> mat3<i64> {
        mat3 { value: [self.value[0] + rhs.value[0], self.value[1] + rhs.value[1], self.value[2] + rhs.value[2]] }
    }
}

impl vstd::std_specs::ops::AddSpecImpl<mat3<i64>> for mat3<i64> {
    open spec fn obeys_add_spec() -> bool {
        true
    }

    open spec fn add_req(self, rhs: mat3<i64>) -> bool {
        AddSpec::add_req(self.value[0], rhs.value[0]) && AddSpec::add_req(self.value[1], rhs.value[1]) && AddSpec::add_req(self.value[2], rhs.value[2])
    }

    open spec fn add_spec(self, rhs: mat3<i64>) -> mat3<i64> {
        mat3 { value: [AddSpec::add_spec(self.value[0], rhs.value[0]), AddSpec::add_spec(self.value[1], rhs.value[1]), AddSpec::add_spec(self.value[2], rhs.value[2])] }
    }
}

impl std::ops::Sub<i64> for mat3<i64> {
    type Output = mat3<i64>;

    fn sub(self, rhs: i64) -> mat3<i64> {
        mat3 { value: [self.value[0] - rhs, self.value[1] - rhs, self.value[2] - rhs] }
    }
}

impl vstd::std_specs::ops::SubSpecImpl<i64> for mat3<i64> {
    open spec fn obeys_sub_spec() -> bool {
        true
    }

    open spec fn sub_req(self, rhs: i64) -> bool {
        SubSpec::sub_req(self.value[0], rhs) && SubSpec::sub_req(self.value[1], rhs) && SubSpec::sub_req(self.value[2], rhs)
    }

    open spec fn sub_spec(self, rhs: i64) -> mat3<i64> {
        mat3 { value: [SubSpec::sub_spec(self.value[0], rhs), SubSpec::sub_spec(self.value[1], rhs), SubSpec::sub_spec(self.value[2], rhs)] }
    }
}

impl std::ops::Sub<mat3<i64>> for i64 {
    type Output = mat3<i64>;

    fn sub(self, rhs: mat3<i64>) -> mat3<i64> {
        mat3 { value: [self - rhs.value[0], self - rhs.value[1], self - rhs.value[2]] }
    }
}

impl vstd::std_specs::ops::SubSpecImpl<mat3<i64>> for i64 {
    open spec fn obeys_sub_spec() -> bool {
        true
    }

    open spec fn sub_req(self, rhs: mat3<i64>) -> bool {
        SubSpec::sub_req(self, rhs.value[0]) && SubSpec::sub_req(self, rhs.value[1]) && SubSpec::sub_req(self, rhs.value[2])
    }

    open spec fn sub_spec(self, rhs: mat3<i64>) -> mat3<i64> {
        mat3 { value: [SubSpec::sub_spec(self, rhs.value[0]), SubSpec::sub_spec(self, rhs.value[1]), SubSpec::sub_spec(self, rhs.value[2])] }
    }
}

impl std::ops::Sub<mat3<i64>> for mat3<i64> {
    type Output = mat3<i64>;

    fn sub(self, rhs: mat3<i64>) -> mat3<i64> {
        mat3 { value: [self.value[0] - rhs.value[0], self.value[1] - rhs.value[1], self.value[2] - rhs.value[2]] }
    }
}

impl vstd::std_specs::ops::SubSpecImpl<mat3<i64>> for mat3<i64> {
    open spec fn obeys_sub_spec() -> bool {
        true
    }

    open spec fn sub_req(self, rhs: mat3<i64>) -> bool {
        SubSpec::sub_req(self.value[0], rhs.value[0]) && SubSpec::sub_req(self.value[1], rhs.value[1]) && SubSpec::sub_req(self.value[2], rhs.value[2])
    }

    open spec fn sub_spec(self, rhs: mat3<i64>) -> mat3<i64> {
        mat3 { value: [SubSpec::sub_spec(self.value[0], rhs.value[0]), SubSpec::sub_spec(self.value[1], rhs.value[1]), SubSpec::sub_spec(self.value[2], rhs.value[2])] }
    }
}

impl std::ops::Mul<i64> for mat3<i64> {
    type Output = mat3<i64>;

    fn mul(self, rhs: i64) -> mat3<i64> {
        mat3 { value: [self.value[0] * rhs, self.value[1] * rhs, self.value[2] * rhs] }
    }
}

impl vstd::std_specs::ops::MulSpecImpl<i64> for mat3<i64> {
    open spec fn obeys_mul_spec() -> bool {
        true
    }

    open spec fn mul_req(self, rhs: i64) -> bool {
        MulSpec::mul_req(self.value[0], rhs) && MulSpec::mul_req(self.value[1], rhs) && MulSpec::mul_req(self.value[2], rhs)
    }

    open spec fn mul_spec(self, rhs: i64) -> mat3<i64> {
        mat3 { value: [MulSpec::mul_spec(self.value[0], rhs), MulSpec::mul_spec(self.value[1], rhs), MulSpec::mul_spec(self.value[2], rhs)] }
    }
}

impl std::ops::Mul<mat3<i64>> for i64 {
    type Output = mat3<i64>;

    fn mul(self, rhs: mat3<i64>) -> mat3<i64> {
        mat3 { value: [self * rhs.value[0], self * rhs.value[1], self * rhs.value[2]] }
    }
}

impl vstd::std_specs::ops::MulSpecImpl<mat3<i64>> for i64 {
    open spec fn obeys_mul_spec() -> bool {
        true
    }

    open spec fn mul_req(self, rhs: mat3<i64>) -> bool {
        MulSpec::mul_req(self, rhs.value[0]) && MulSpec::mul_req(self, rhs.value[1]) && MulSpec::mul_req(self, rhs.value[2])
    }

    open spec fn mul_spec(self, rhs: mat3<i64>) -> mat3<i64> {
        mat3 { value: [MulSpec::mul_spec(self, rhs.value[0]), MulSpec::mul_spec(self, rhs.value[1]), MulSpec::mul_spec(self, rhs.value[2])] }
    }
}

impl std::ops::Div<i64> for mat3<i64> {
    type Output = mat3<i64>;

    fn div(self, rhs: i64) -> mat3<i64> {
        mat3 { value: [self.value[0] / rhs, self.value[1] / rhs, self.value[2] / rhs] }
    }
}

impl vstd::std_specs::ops::DivSpecImpl<i64> for mat3<i64> {
    open spec fn obeys_div_spec() -> bool {
        true
    }

    open spec fn div_req(self, rhs: i64) -> bool {
        DivSpec::div_req(self.value[0], rhs) && DivSpec::div_req(self.value[1], rhs) && DivSpec::div_req(self.value[2], rhs)
    }

    open spec fn div_spec(self, rhs: i64) -> mat3<i64> {
        mat3 { value: [DivSpec::div_spec(self.value[0], rhs), DivSpec::div_spec(self.value[1], rhs), DivSpec::div_spec(self.value[2], rhs)] }
    }
}

impl std::ops::Div<mat3<i64>> for i64 {
    type Output = mat3<i64>;

    fn div(self, rhs: mat3<i64>) -> mat3<i64> {
        mat3 { value: [self / rhs.value[0], self / rhs.value[1], self / rhs.value[2]] }
    }
}

impl vstd::std_specs::ops::DivSpecImpl<mat3<i64>> for i64 {
    open spec fn obeys_div_spec() -> bool {
        true
    }

    open spec fn div_req(self, rhs: mat3<i64>) -> bool {
        DivSpec::div_req(self, rhs.value[0]) && DivSpec::div_req(self, rhs.value[1]) && DivSpec::div_req(self, rhs.value[2])
    }

    open spec fn div_spec(self, rhs: mat3<i64>) -> mat3<i64> {
        mat3 { value: [DivSpec::div_spec(self, rhs.value[0]), DivSpec::div_spec(self, rhs.value[1]), DivSpec::div_spec(self, rhs.value[2])] }
    }
}

impl std::ops::Mul<vec3<i64>> for mat3<i64> {
    type Output = vec3<i64>;

    fn mul(self, rhs: vec3<i64>) -> vec3<i64> {
        proof {
            lemma_sum3(|k: int| row(self@, 0)[k] * rhs@[k]);
            lemma_sum3(|k: int| row(self@, 1)[k] * rhs@[k]);
            lemma_sum3(|k: int| row(self@, 2)[k] * rhs@[k]);
        }
        self.value[0] * rhs.splat_x() + self.value[1] * rhs.splat_y() + self.value[2] * rhs.splat_z()
    }
}

impl vstd::std_specs::ops::MulSpecImpl<vec3<i64>> for mat3<i64> {
    open spec fn obeys_mul_spec() -> bool {
        true
    }

    open spec fn mul_req(self, rhs: vec3<i64>) -> bool {
        dot3_fits(row(self@, 0), rhs@) && dot3_fits(row(self@, 1), rhs@) && dot3_fits(row(self@, 2), rhs@)
    }

    /// The matrix acting on `rhs` as a column vector.
    open spec fn mul_spec(self, rhs: vec3<i64>) -> vec3<i64> {
        vec3::from_seq(mat_vec(self@, rhs@))
    }
}

impl std::ops::Mul<mat3<i64>> for vec3<i64> {
    type Output = vec3<i64>;

    fn mul(self, rhs: mat3<i64>) -> vec3<i64> {
        vec3 { x: self.dot(rhs.value[0]), y: self.dot(rhs.value[1]), z: self.dot(rhs.value[2]) }
    }
}

impl vstd::std_specs::ops::MulSpecImpl<mat3<i64>> for vec3<i64> {
    open spec fn obeys_mul_spec() -> bool {
        true
    }

    open spec fn mul_req(self, rhs: mat3<i64>) -> bool {
        dot3_fits(self@, rhs@[0]) && dot3_fits(self@, rhs@[1]) && dot3_fits(self@, rhs@[2])
    }

    /// `self` acting on the matrix as a row vector.
    open spec fn mul_spec(self, rhs: mat3<i64>) -> vec3<i64> {
        vec3::from_seq(vec_mat(self@, rhs@))
    }
}

impl std::ops::Mul<mat3<i64>> for mat3<i64> {
    type Output = mat3<i64>;

    fn mul(self, rhs: mat3<i64>) -> mat3<i64> {
        proof {
            lemma_sum3(|k: int| row(self@, 0)[k] * rhs@[0][k]);
            lemma_sum3(|k: int| row(self@, 1)[k] * rhs@[0][k]);
            lemma_sum3(|k: int| row(self@, 2)[k] * rhs@[0][k]);
            lemma_sum3(|k: int| row(self@, 0)[k] * rhs@[1][k]);
            lemma_sum3(|k: int| row(self@, 1)[k] * rhs@[1][k]);
            lemma_sum3(|k: int| row(self@, 2)[k] * rhs@[1][k]);
            lemma_sum3(|k: int| row(self@, 0)[k] * rhs@[2][k]);
            lemma_sum3(|k: int| row(self@, 1)[k] * rhs@[2][k]);
            lemma_sum3(|k: int| row(self@, 2)[k] * rhs@[2][k]);
        }
        let src_a0 = self.value[0];
        let src_a1 = self.value[1];
        let src_a2 = self.value[2];

        let src_b0 = rhs.value[0];
        let src_b1 = rhs.value[1];
        let src_b2 = rhs.value[2];

        let mut tmp0 = src_a0 * src_b0.x;
        tmp0.add_assign(src_a1 * src_b0.y);
        tmp0.add_assign(src_a2 * src_b0.z);
        let mut tmp1 = src_a0 * src_b1.x;
        tmp1.add_assign(src_a1 * src_b1.y);
        tmp1.add_assign(src_a2 * src_b1.z);
        let mut tmp2 = src_a0 * src_b2.x;
        tmp2.add_assign(src_a1 * src_b2.y);
        tmp2.add_assign(src_a2 * src_b2.z);

        mat3::new([tmp0, tmp1, tmp2])
    }
}

impl vstd::std_specs::ops::MulSpecImpl<mat3<i64>> for mat3<i64> {
    open spec fn obeys_mul_spec() -> bool {
        true
    }

    open spec fn mul_req(self, rhs: mat3<i64>) -> bool {
        dot3_fits(row(self@, 0), rhs@[0])
        && dot3_fits(row(self@, 1), rhs@[0])
        && dot3_fits(row(self@, 2), rhs@[0])
        && dot3_fits(row(self@, 0), rhs@[1])
        && dot3_fits(row(self@, 1), rhs@[1])
        && dot3_fits(row(self@, 2), rhs@[1])
        && dot3_fits(row(self@, 0), rhs@[2])
        && dot3_fits(row(self@, 1), rhs@[2])
        && dot3_fits(row(self@, 2), rhs@[2])
    }

    /// The product: column `c` is `self` acting on column `c` of `rhs`.
    open spec fn mul_spec(self, rhs: mat3<i64>) -> mat3<i64> {
        mat3::from_seq(mat_mul(self@, rhs@))
    }
}

impl mat3<i64> {
    /// `self += rhs`, for every right operand that `+` takes with a
    /// matrix result.
    pub fn add_assign<R>(&mut self, rhs: R)
        where
            mat3<i64>: std::ops::Add<R, Output = mat3<i64>>,
        requires
            <mat3<i64> as AddSpec<R>>::obeys_add_spec(),
            old(self).add_req(rhs),
        ensures
            *final(self) == old(self).add_spec(rhs),
    {
        *self = *self + rhs;
    }

    /// `self -= rhs`, for every right operand that `-` takes with a
    /// matrix result.
    pub fn sub_assign<R>(&mut self, rhs: R)
        where
            mat3<i64>: std::ops::Sub<R, Output = mat3<i64>>,
        requires
            <mat3<i64> as SubSpec<R>>::obeys_sub_spec(),
            old(self).sub_req(rhs),
        ensures
            *final(self) == old(self).sub_spec(rhs),
    {
        *self = *self - rhs;
    }

    /// `self *= rhs`, for every right operand that `*` takes with a
    /// matrix result.
    pub fn mul_assign<R>(&mut self, rhs: R)
        where
            mat3<i64>: std::ops::Mul<R, Output = mat3<i64>>,
        requires
            <mat3<i64> as MulSpec<R>>::obeys_mul_spec(),
            old(self).mul_req(rhs),
        ensures
            *final(self) == old(self).mul_spec(rhs),
    {
        *self = *self * rhs;
    }

    /// `self /= rhs`, for every right operand that `/` takes with a
    /// matrix result.
    pub fn div_assign<R>(&mut self, rhs: R)
        where
            mat3<i64>: std::ops::Div<R, Output = mat3<i64>>,
        requires
            <mat3<i64> as DivSpec<R>>::obeys_div_spec(),
            old(self).div_req(rhs),
        ensures
            *final(self) == old(self).div_spec(rhs),
    {
        *self = *self / rhs;
    }
}

} // verus!
