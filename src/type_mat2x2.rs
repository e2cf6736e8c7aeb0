//! Square matrices of order two, stored column by column.
use vstd::prelude::*;
use vstd::std_specs::ops::{AddSpec, DivSpec, MulSpec, NegSpec, SubSpec};

use crate::algebra::{identity, lemma_sum2, mat_mul, mat_vec, row, vec_mat};
use crate::func_geometric::dot2_fits;

use crate::type_vec2::vec2;

verus! {

/// A square matrix of order two, stored as its columns: `value[c]` is
/// column `c`, and its components are the entries of that column from the
/// top row down.
#[derive(Clone, Copy, Debug, PartialEq, Eq, Hash)]
pub struct mat2<T> {
    pub value: [vec2<T>; 2],
}

impl<T> mat2<T> {
    /// The matrix with these columns, in order.
    pub fn new(value: [vec2<T>; 2]) -> (r: Self)
        ensures
            r.value == value,
    {
        mat2 { value }
    }

    /// The number of columns.
    pub fn len(&self) -> (r: usize)
        ensures
            r == 2,
    {
        2
    }

    /// The columns, in order, as one contiguous slice.
    pub fn as_slice(&self) -> (r: &[vec2<T>])
        ensures
            r@ == self.value@,
    {
        self.value.as_slice()
    }

    /// Column `c`, to be written through; an index past the last column is
    /// refused.
    pub fn index_mut(&mut self, c: usize) -> (r: &mut vec2<T>)
        requires
            c < 2,
        ensures
            *r == old(self).value[c as int],
            final(self).value@ == old(self).value@.update(c as int, *final(r)),
    {
        &mut self.value[c]
    }

    /// Column `c`; an index past the last column is refused.
    pub fn index(&self, c: usize) -> (r: &vec2<T>)
        requires
            c < 2,
        ensures
            *r == self.value[c as int],
    {
        &self.value[c]
    }
}

impl View for mat2<i64> {
    type V = Seq<Seq<int>>;

    open spec fn view(&self) -> Seq<Seq<int>> {
        seq![self.value[0]@, self.value[1]@]
    }
}

impl mat2<i64> {
    /// The matrix whose column `c` holds the entries of `m[c]`, as `i64`.
    pub open spec fn from_seq(m: Seq<Seq<int>>) -> Self {
        mat2 { value: [vec2::from_seq(m[0]), vec2::from_seq(m[1])] }
    }

    /// Ones on the diagonal, zeros elsewhere.
    pub fn identity() -> (r: Self)
        ensures
            r@ == identity(2),
    {
        let r = mat2 {
            value: [
                vec2::new(1, 0),
                vec2::new(0, 1),
            ],
        };
        assert(r@ =~~= identity(2));
        r
    }
}

impl Default for mat2<i64> {
    /// The identity matrix.
    fn default() -> (r: Self)
        ensures
            r@ == identity(2),
    {
        Self::identity()
    }
}

impl std::ops::Neg for mat2<i64> {
    type Output = mat2<i64>;

    fn neg(self) -> mat2<i64> {
        mat2 { value: [std::ops::Neg::neg(self.value[0]), std::ops::Neg::neg(self.value[1])] }
    }
}

impl vstd::std_specs::ops::NegSpecImpl for mat2<i64> {
    open spec fn obeys_neg_spec() -> bool {
        true
    }

    open spec fn neg_req(self) -> bool {
        NegSpec::neg_req(self.value[0]) && NegSpec::neg_req(self.value[1])
    }

    open spec fn neg_spec(self) -> mat2<i64> {
        mat2 { value: [NegSpec::neg_spec(self.value[0]), NegSpec::neg_spec(self.value[1])] }
    }
}

impl std::ops::Add<i64> for mat2<i64> {
    type Output = mat2<i64>;

    fn add(self, rhs: i64) -> mat2<i64> {
        mat2 { value: [self.value[0] + rhs, self.value[1] + rhs] }
    }
}

impl vstd::std_specs::ops::AddSpecImpl<i64> for mat2<i64> {
    open spec fn obeys_add_spec() -> bool {
        true
    }

    open spec fn add_req(self, rhs: i64) -> bool {
        AddSpec::add_req(self.value[0], rhs) && AddSpec::add_req(self.value[1], rhs)
    }

    open spec fn add_spec(self, rhs: i64) -> mat2<i64> {
        mat2 { value: [AddSpec::add_spec(self.value[0], rhs), AddSpec::add_spec(self.value[1], rhs)] }
    }
}

impl std::ops::Add<mat2<i64>> for i64 {
    type Output = mat2<i64>;

    fn add(self, rhs: mat2<i64>) -> mat2<i64> {
        mat2 { value: [self + rhs.value[0], self + rhs.value[1]] }
    }
}

impl vstd::std_specs::ops::AddSpecImpl<mat2<i64>> for i64 {
    open spec fn obeys_add_spec() -> bool {
        true
    }

    open spec fn add_req(self, rhs: mat2<i64>) -> bool {
        AddSpec::add_req(self, rhs.value[0]) && AddSpec::add_req(self, rhs.value[1])
    }

    open spec fn add_spec(self, rhs: mat2<i64>) -> mat2<i64> {
        mat2 { value: [AddSpec::add_spec(self, rhs.value[0]), AddSpec::add_spec(self, rhs.value[1])] }
    }
}

impl std::ops::Add<mat2<i64>> for mat2<i64> {
    type Output = mat2<i64>;

    fn add(self, rhs: mat2<i64>) -> mat2<i64> {
        mat2 { value: [self.value[0] + rhs.value[0], self.value[1] + rhs.value[1]] }
    }
}

impl vstd::std_specs::ops::AddSpecImpl<mat2<i64>> for mat2<i64> {
    open spec fn obeys_add_spec() -> bool {
        true
    }

    open spec fn add_req(self, rhs: mat2<i64>) -> bool {
        AddSpec::add_req(self.value[0], rhs.value[0]) && AddSpec::add_req(self.value[1], rhs.value[1])
    }

    open spec fn add_spec(self, rhs: mat2<i64>) -> mat2<i64> {
        mat2 { value: [AddSpec::add_spec(self.value[0], rhs.value[0]), AddSpec::add_spec(self.value[1], rhs.value[1])] }
    }
}

impl std::ops::Sub<i64> for mat2<i64> {
    type Output = mat2<i64>;

    fn sub(self, rhs: i64) -> mat2<i64> {
        mat2 { value: [self.value[0] - rhs, self.value[1] - rhs] }
    }
}

impl vstd::std_specs::ops::SubSpecImpl<i64> for mat2<i64> {
    open spec fn obeys_sub_spec() -> bool {
        true
    }

    open spec fn sub_req(self, rhs: i64) -> bool {
        SubSpec::sub_req(self.value[0], rhs) && SubSpec::sub_req(self.value[1], rhs)
    }

    open spec fn sub_spec(self, rhs: i64) -> mat2<i64> {
        mat2 { value: [SubSpec::sub_spec(self.value[0], rhs), SubSpec::sub_spec(self.value[1], rhs)] }
    }
}

impl std::ops::Sub<mat2<i64>> for i64 {
    type Output = mat2<i64>;

    fn sub(self, rhs: mat2<i64>) -> mat2<i64> {
        mat2 { value: [self - rhs.value[0], self - rhs.value[1]] }
    }
}

impl vstd::std_specs::ops::SubSpecImpl<mat2<i64>> for i64 {
    open spec fn obeys_sub_spec() -> bool {
        true
    }

    open spec fn sub_req(self, rhs: mat2<i64>) -> bool {
        SubSpec::sub_req(self, rhs.value[0]) && SubSpec::sub_req(self, rhs.value[1])
    }

    open spec fn sub_spec(self, rhs: mat2<i64>) -> mat2<i64> {
        mat2 { value: [SubSpec::sub_spec(self, rhs.value[0]), SubSpec::sub_spec(self, rhs.value[1])] }
    }
}

impl std::ops::Sub<mat2<i64>> for mat2<i64> {
    type Output = mat2<i64>;

    fn sub(self, rhs: mat2<i64>) -> mat2<i64> {
        mat2 { value: [self.value[0] - rhs.value[0], self.value[1] - rhs.value[1]] }
    }
}

impl vstd::std_specs::ops::SubSpecImpl<mat2<i64>> for mat2<i64> {
    open spec fn obeys_sub_spec() -> bool {
        true
    }

    open spec fn sub_req(self, rhs: mat2<i64>) -> bool {
        SubSpec::sub_req(self.value[0], rhs.value[0]) && SubSpec::sub_req(self.value[1], rhs.value[1])
    }

    open spec fn sub_spec(self, rhs: mat2<i64>) -> mat2<i64> {
        mat2 { value: [SubSpec::sub_spec(self.value[0], rhs.value[0]), SubSpec::sub_spec(self.value[1], rhs.value[1])] }
    }
}

impl std::ops::Mul<i64> for mat2<i64> {
    type Output = mat2<i64>;

    fn mul(self, rhs: i64) -> mat2<i64> {
        mat2 { value: [self.value[0] * rhs, self.value[1] * rhs] }
    }
}

impl vstd::std_specs::ops::MulSpecImpl<i64> for mat2<i64> {
    open spec fn obeys_mul_spec() -> bool {
        true
    }

    open spec fn mul_req(self, rhs: i64) -> bool {
        MulSpec::mul_req(self.value[0], rhs) && MulSpec::mul_req(self.value[1], rhs)
    }

    open spec fn mul_spec(self, rhs: i64) -> mat2<i64> {
        mat2 { value: [MulSpec::mul_spec(self.value[0], rhs), MulSpec::mul_spec(self.value[1], rhs)] }
    }
}

impl std::ops::Mul<mat2<i64>> for i64 {
    type Output = mat2<i64>;

    fn mul(self, rhs: mat2<i64>) -> mat2<i64> {
        mat2 { value: [self * rhs.value[0], self * rhs.value[1]] }
    }
}

impl vstd::std_specs::ops::MulSpecImpl<mat2<i64>> for i64 {
    open spec fn obeys_mul_spec() -> bool {
        true
    }

    open spec fn mul_req(self, rhs: mat2<i64>) -> bool {
        MulSpec::mul_req(self, rhs.value[0]) && MulSpec::mul_req(self, rhs.value[1])
    }

    open spec fn mul_spec(self, rhs: mat2<i64>) -> mat2<i64> {
        mat2 { value: [MulSpec::mul_spec(self, rhs.value[0]), MulSpec::mul_spec(self, rhs.value[1])] }
    }
}

impl std::ops::Div<i64> for mat2<i64> {
    type Output = mat2<i64>;

    fn div(self, rhs: i64) -> mat2<i64> {
        mat2 { value: [self.value[0] / rhs, self.value[1] / rhs] }
    }
}

impl vstd::std_specs::ops::DivSpecImpl<i64> for mat2<i64> {
    open spec fn obeys_div_spec() -> bool {
        true
    }

    open spec fn div_req(self, rhs: i64) -> bool {
        DivSpec::div_req(self.value[0], rhs) && DivSpec::div_req(self.value[1], rhs)
    }

    open spec fn div_spec(self, rhs: i64) -> mat2<i64> {
        mat2 { value: [DivSpec::div_spec(self.value[0], rhs), DivSpec::div_spec(self.value[1], rhs)] }
    }
}

impl std::ops::Div<mat2<i64>> for i64 {
    type Output = mat2<i64>;

    fn div(self, rhs: mat2<i64>) -> mat2<i64> {
        mat2 { value: [self / rhs.value[0], self / rhs.value[1]] }
    }
}

impl vstd::std_specs::ops::DivSpecImpl<mat2<i64>> for i64 {
    open spec fn obeys_div_spec() -> bool {
        true
    }

    open spec fn div_req(self, rhs: mat2<i64>) -> bool {
        DivSpec::div_req(self, rhs.value[0]) && DivSpec::div_req(self, rhs.value[1])
    }

    open spec fn div_spec(self, rhs: mat2<i64>) -> mat2<i64> {
        mat2 { value: [DivSpec::div_spec(self, rhs.value[0]), DivSpec::div_spec(self, rhs.value[1])] }
    }
}

impl std::ops::Mul<vec2<i64>> for mat2<i64> {
    type Output = vec2<i64>;

    fn mul(self, rhs: vec2<i64>) -> vec2<i64> {
        proof {
            lemma_sum2(|k: int| row(self@, 0)[k] * rhs@[k]);
            lemma_sum2(|k: int| row(self@, 1)[k] * rhs@[k]);
        }
        vec2 {
            x: self.value[0].x * rhs.x + self.value[1].x * rhs.y,
            y: self.value[0].y * rhs.x + self.value[1].y * rhs.y,
        }
    }
}

impl vstd::std_specs::ops::MulSpecImpl<vec2<i64>> for mat2<i64> {
    open spec fn obeys_mul_spec() -> bool {
        true
    }

    open spec fn mul_req(self, rhs: vec2<i64>) -> bool {
        dot2_fits(row(self@, 0), rhs@) && dot2_fits(row(self@, 1), rhs@)
    }

    /// The matrix acting on `rhs` as a column vector.
    open spec fn mul_spec(self, rhs: vec2<i64>) -> vec2<i64> {
        vec2::from_seq(mat_vec(self@, rhs@))
    }
}

impl std::ops::Mul<mat2<i64>> for vec2<i64> {
    type Output = vec2<i64>;

    fn mul(self, rhs: mat2<i64>) -> vec2<i64> {
        proof {
            lemma_sum2(|k: int| self@[k] * rhs@[0][k]);
            lemma_sum2(|k: int| self@[k] * rhs@[1][k]);
        }
        vec2 {
            x: self.x * rhs.value[0].x + self.y * rhs.value[0].y,
            y: self.x * rhs.value[1].x + self.y * rhs.value[1].y,
        }
    }
}

impl vstd::std_specs::ops::MulSpecImpl<mat2<i64>> for vec2<i64> {
    open spec fn obeys_mul_spec() -> bool {
        true
    }

    open spec fn mul_req(self, rhs: mat2<i64>) -> bool {
        dot2_fits(self@, rhs@[0]) && dot2_fits(self@, rhs@[1])
    }

    /// `self` acting on the matrix as a row vector.
    open spec fn mul_spec(self, rhs: mat2<i64>) -> vec2<i64> {
        vec2::from_seq(vec_mat(self@, rhs@))
    }
}

impl std::ops::Mul<mat2<i64>> for mat2<i64> {
    type Output = mat2<i64>;

    fn mul(self, rhs: mat2<i64>) -> mat2<i64> {
        proof {
            lemma_sum2(|k: int| row(self@, 0)[k] * rhs@[0][k]);
            lemma_sum2(|k: int| row(self@, 1)[k] * rhs@[0][k]);
            lemma_sum2(|k: int| row(self@, 0)[k] * rhs@[1][k]);
            lemma_sum2(|k: int| row(self@, 1)[k] * rhs@[1][k]);
        }
        mat2 {
            value: [
                vec2 {
                    x: self.value[0].x * rhs.value[0].x + self.value[1].x * rhs.value[0].y,
                    y: self.value[0].y * rhs.value[0].x + self.value[1].y * rhs.value[0].y,
                },
                vec2 {
                    x: self.value[0].x * rhs.value[1].x + self.value[1].x * rhs.value[1].y,
                    y: self.value[0].y * rhs.value[1].x + self.value[1].y * rhs.value[1].y,
                },
            ],
        }
    }
}

impl vstd::std_specs::ops::MulSpecImpl<mat2<i64>> for mat2<i64> {
    open spec fn obeys_mul_spec() -> bool {
        true
    }

    open spec fn mul_req(self, rhs: mat2<i64>) -> bool {
        dot2_fits(row(self@, 0), rhs@[0])
        && dot2_fits(row(self@, 1), rhs@[0])
        && dot2_fits(row(self@, 0), rhs@[1])
        && dot2_fits(row(self@, 1), rhs@[1])
    }

    /// The product: column `c` is `self` acting on column `c` of `rhs`.
    open spec fn mul_spec(self, rhs: mat2<i64>) -> mat2<i64> {
        mat2::from_seq(mat_mul(self@, rhs@))
    }
}

impl mat2<i64> {
    /// `self += rhs`, for every right operand that `+` takes with a
    /// matrix result.
    pub fn add_assign<R>(&mut self, rhs: R)
        where
            mat2<i64>: std::ops::Add<R, Output = mat2<i64>>,
        requires
            <mat2<i64> as AddSpec<R>>::obeys_add_spec(),
            old(self).add_req(rhs),
        ensures
            *final(self) == old(self).add_spec(rhs),
    {
        *self = *self + rhs;
    }

    /// `self -= rhs`, for every right operand that `-` takes with a
    /// matrix result.
    pub fn sub_assign<R>(&mut self, rhs: R)
        where
            mat2<i64>: std::ops::Sub<R, Output = mat2<i64>>,
        requires
            <mat2<i64> as SubSpec<R>>::obeys_sub_spec(),
            old(self).sub_req(rhs),
        ensures
            *final(self) == old(self).sub_spec(rhs),
    {
        *self = *self - rhs;
    }

    /// `self *= rhs`, for every right operand that `*` takes with a
    /// matrix result.
    pub fn mul_assign<R>(&mut self, rhs: R)
        where
            mat2<i64>: std::ops::Mul<R, Output = mat2<i64>>,
        requires
            <mat2<i64> as MulSpec<R>>::obeys_mul_spec(),
            old(self).mul_req(rhs),
        ensures
            *final(self) == old(self).mul_spec(rhs),
    {
        *self = *self * rhs;
    }

    /// `self /= rhs`, for every right operand that `/` takes with a
    /// matrix result.
    pub fn div_assign<R>(&mut self, rhs: R)
        where
            mat2<i64>: std::ops::Div<R, Output = mat2<i64>>,
        requires
            <mat2<i64> as DivSpec<R>>::obeys_div_spec(),
            old(self).div_req(rhs),
        ensures
            *final(self) == old(self).div_spec(rhs),
    {
        *self = *self / rhs;
    }
}

} // verus!
