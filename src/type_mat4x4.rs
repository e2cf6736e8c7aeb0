//! Square matrices of order four, stored column by column.
use vstd::prelude::*;
use vstd::std_specs::ops::{AddSpec, DivSpec, MulSpec, NegSpec, SubSpec};

use crate::algebra::{identity, lemma_sum4, mat_mul, mat_vec, row, vec_mat};
use crate::func_geometric::dot4_fits;
use crate::scalar::fits;
use crate::type_vec4::vec4;

verus! {

/// A square matrix of order four, stored as its columns: `value[c]` is
/// column `c`, and its components are the entries of that column from the
/// top row down.
#[derive(Clone, Copy, Debug, PartialEq, Eq, Hash)]
pub struct mat4<T> {
    pub value: [vec4<T>; 4],
}

/// No product and no partial sum of
/// `((a[0]*b[0] + a[1]*b[1]) + a[2]*b[2]) + a[3]*b[3]` leaves `i64`.
pub open spec fn fold4_fits(a: Seq<int>, b: Seq<int>) -> bool {
    &&& fits(a[0] * b[0])
    &&& fits(a[1] * b[1])
    &&& fits(a[2] * b[2])
    &&& fits(a[3] * b[3])
    &&& fits(a[0] * b[0] + a[1] * b[1])
    &&& fits(a[0] * b[0] + a[1] * b[1] + a[2] * b[2])
    &&& fits(a[0] * b[0] + a[1] * b[1] + a[2] * b[2] + a[3] * b[3])
}

impl<T> mat4<T> {
    /// The matrix with these columns, in order.
    pub fn new(v0: vec4<T>, v1: vec4<T>, v2: vec4<T>, v3: vec4<T>) -> (r: Self)
        ensures
            r.value@ == seq![v0, v1, v2, v3],
    {
        let r = mat4 { value: [v0, v1, v2, v3] };
        assert(r.value@ =~= seq![v0, v1, v2, v3]);
        r
    }

    /// The number of columns.
    pub fn len(&self) -> (r: usize)
        ensures
            r == 4,
    {
        4
    }

    /// The columns, in order, as one contiguous slice.
    pub fn as_slice(&self) -> (r: &[vec4<T>])
        ensures
            r@ == self.value@,
    {
        self.value.as_slice()
    }

    /// Column `c`, to be written through; an index past the last column is
    /// refused.
    pub fn index_mut(&mut self, c: usize) -> (r: &mut vec4<T>)
        requires
            c < 4,
        ensures
            *r == old(self).value[c as int],
            final(self).value@ == old(self).value@.update(c as int, *final(r)),
    {
        &mut self.value[c]
    }

    /// Column `c`; an index past the last column is refused.
    pub fn index(&self, c: usize) -> (r: &vec4<T>)
        requires
            c < 4,
        ensures
            *r == self.value[c as int],
    {
        &self.value[c]
    }
}

impl View for mat4<i64> {
    type V = Seq<Seq<int>>;

    open spec fn view(&self) -> Seq<Seq<int>> {
        seq![self.value[0]@, self.value[1]@, self.value[2]@, self.value[3]@]
    }
}

impl mat4<i64> {
    /// The matrix whose column `c` holds the entries of `m[c]`, as `i64`.
    pub open spec fn from_seq(m: Seq<Seq<int>>) -> Self {
        mat4 { value: [vec4::from_seq(m[0]), vec4::from_seq(m[1]), vec4::from_seq(m[2]), vec4::from_seq(m[3])] }
    }

    /// Ones on the diagonal, zeros elsewhere.
    pub fn identity() -> (r: Self)
        ensures
            r@ == identity(4),
    {
        let r = mat4 {
            value: [
                vec4::new(1, 0, 0, 0),
                vec4::new(0, 1, 0, 0),
                vec4::new(0, 0, 1, 0),
                vec4::new(0, 0, 0, 1),
            ],
        };
        assert(r@ =~~= identity(4));
        r
    }
}

impl Default for mat4<i64> {
    /// The identity matrix.
    fn default() -> (r: Self)
        ensures
            r@ == identity(4),
    {
        Self::identity()
    }
}

impl std::ops::Neg for mat4<i64> {
    type Output = mat4<i64>;

    fn neg(self) -> mat4<i64> {
        mat4 { value: [std::ops::Neg::neg(self.value[0]), std::ops::Neg::neg(self.value[1]), std::ops::Neg::neg(self.value[2]), std::ops::Neg::neg(self.value[3])] }
    }
}

impl vstd::std_specs::ops::NegSpecImpl for mat4<i64> {
    open spec fn obeys_neg_spec() -> bool {
        true
    }

    open spec fn neg_req(self) -> bool {
        NegSpec::neg_req(self.value[0]) && NegSpec::neg_req(self.value[1]) && NegSpec::neg_req(self.value[2]) && NegSpec::neg_req(self.value[3])
    }

    open spec fn neg_spec(self) -> mat4<i64> {
        mat4 { value: [NegSpec::neg_spec(self.value[0]), NegSpec::neg_spec(self.value[1]), NegSpec::neg_spec(self.value[2]), NegSpec::neg_spec(self.value[3])] }
    }
}

impl std::ops::Add<i64> for mat4<i64> {
    type Output = mat4<i64>;

    fn add(self, rhs: i64) -> mat4<i64> {
        mat4 { value: [self.value[0] + rhs, self.value[1] + rhs, self.value[2] + rhs, self.value[3] + rhs] }
    }
}

impl vstd::std_specs::ops::AddSpecImpl<i64> for mat4<i64> {
    open spec fn obeys_add_spec() -> bool {
        true
    }

    open spec fn add_req(self, rhs: i64) -> bool {
        AddSpec::add_req(self.value[0], rhs) && AddSpec::add_req(self.value[1], rhs) && AddSpec::add_req(self.value[2], rhs) && AddSpec::add_req(self.value[3], rhs)
    }

    open spec fn add_spec(self, rhs: i64) -> mat4<i64> {
        mat4 { value: [AddSpec::add_spec(self.value[0], rhs), AddSpec::add_spec(self.value[1], rhs), AddSpec::add_spec(self.value[2], rhs), AddSpec::add_spec(self.value[3], rhs)] }
    }
}

impl std::ops::Add<mat4<i64>> for i64 {
    type Output = mat4<i64>;

    fn add(self, rhs: mat4<i64>) -> mat4<i64> {
        mat4 { value: [self + rhs.value[0], self + rhs.value[1], self + rhs.value[2], self + rhs.value[3]] }
    }
}

impl vstd::std_specs::ops::AddSpecImpl<mat4<i64>> for i64 {
    open spec fn obeys_add_spec() -> bool {
        true
    }

    open spec fn add_req(self, rhs: mat4<i64>) -> bool {
        AddSpec::add_req(self, rhs.value[0]) && AddSpec::add_req(self, rhs.value[1]) && AddSpec::add_req(self, rhs.value[2]) && AddSpec::add_req(self, rhs.value[3])
    }

    open spec fn add_spec(self, rhs: mat4<i64>) -> mat4<i64> {
        mat4 { value: [AddSpec::add_spec(self, rhs.value[0]), AddSpec::add_spec(self, rhs.value[1]), AddSpec::add_spec(self, rhs.value[2]), AddSpec::add_spec(self, rhs.value[3])] }
    }
}

impl std::ops::Add<mat4<i64>> for mat4<i64> {
    type Output = mat4<i64>;

    fn add(self, rhs: mat4<i64>) -> mat4<i64> {
        mat4 { value: [self.value[0] + rhs.value[0], self.value[1] + rhs.value[1], self.value[2] + rhs.value[2], self.value[3] + rhs.value[3]] }
    }
}

impl vstd::std_specs::ops::AddSpecImpl<mat4<i64>> for mat4<i64> {
    open spec fn obeys_add_spec() -> bool {
        true
    }

    open spec fn add_req(self, rhs: mat4<i64>) -> bool {
        AddSpec::add_req(self.value[0], rhs.value[0]) && AddSpec::add_req(self.value[1], rhs.value[1]) && AddSpec::add_req(self.value[2], rhs.value[2]) && AddSpec::add_req(self.value[3], rhs.value[3])
    }

    open spec fn add_spec(self, rhs: mat4<i64>) -> mat4<i64> {
        mat4 { value: [AddSpec::add_spec(self.value[0], rhs.value[0]), AddSpec::add_spec(self.value[1], rhs.value[1]), AddSpec::add_spec(self.value[2], rhs.value[2]), AddSpec::add_spec(self.value[3], rhs.value[3])] }
    }
}

impl std::ops::Sub<i64> for mat4<i64> {
    type Output = mat4<i64>;

    fn sub(self, rhs: i64) -> mat4<i64> {
        mat4 { value: [self.value[0] - rhs, self.value[1] - rhs, self.value[2] - rhs, self.value[3] - rhs] }
    }
}

impl vstd::std_specs::ops::SubSpecImpl<i64> for mat4<i64> {
    open spec fn obeys_sub_spec() -> bool {
        true
    }

    open spec fn sub_req(self, rhs: i64) -> bool {
        SubSpec::sub_req(self.value[0], rhs) && SubSpec::sub_req(self.value[1], rhs) && SubSpec::sub_req(self.value[2], rhs) && SubSpec::sub_req(self.value[3], rhs)
    }

    open spec fn sub_spec(self, rhs: i64) -> mat4<i64> {
        mat4 { value: [SubSpec::sub_spec(self.value[0], rhs), SubSpec::sub_spec(self.value[1], rhs), SubSpec::sub_spec(self.value[2], rhs), SubSpec::sub_spec(self.value[3], rhs)] }
    }
}

impl std::ops::Sub<mat4<i64>> for i64 {
    type Output = mat4<i64>;

    fn sub(self, rhs: mat4<i64>) -> mat4<i64> {
        mat4 { value: [self - rhs.value[0], self - rhs.value[1], self - rhs.value[2], self - rhs.value[3]] }
    }
}

impl vstd::std_specs::ops::SubSpecImpl<mat4<i64>> for i64 {
    open spec fn obeys_sub_spec() -> bool {
        true
    }

    open spec fn sub_req(self, rhs: mat4<i64>) -> bool {
        SubSpec::sub_req(self, rhs.value[0]) && SubSpec::sub_req(self, rhs.value[1]) && SubSpec::sub_req(self, rhs.value[2]) && SubSpec::sub_req(self, rhs.value[3])
    }

    open spec fn sub_spec(self, rhs: mat4<i64>) -> mat4<i64> {
        mat4 { value: [SubSpec::sub_spec(self, rhs.value[0]), SubSpec::sub_spec(self, rhs.value[1]), SubSpec::sub_spec(self, rhs.value[2]), SubSpec::sub_spec(self, rhs.value[3])] }
    }
}

impl std::ops::Sub<mat4<i64>> for mat4<i64> {
    type Output = mat4<i64>;

    fn sub(self, rhs: mat4<i64>) -> mat4<i64> {
        mat4 { value: [self.value[0] - rhs.value[0], self.value[1] - rhs.value[1], self.value[2] - rhs.value[2], self.value[3] - rhs.value[3]] }
    }
}

impl vstd::std_specs::ops::SubSpecImpl<mat4<i64>> for mat4<i64> {
    open spec fn obeys_sub_spec() -> bool {
        true
    }

    open spec fn sub_req(self, rhs: mat4<i64>) -> bool {
        SubSpec::sub_req(self.value[0], rhs.value[0]) && SubSpec::sub_req(self.value[1], rhs.value[1]) && SubSpec::sub_req(self.value[2], rhs.value[2]) && SubSpec::sub_req(self.value[3], rhs.value[3])
    }

    open spec fn sub_spec(self, rhs: mat4<i64>) -> mat4<i64> {
        mat4 { value: [SubSpec::sub_spec(self.value[0], rhs.value[0]), SubSpec::sub_spec(self.value[1], rhs.value[1]), SubSpec::sub_spec(self.value[2], rhs.value[2]), SubSpec::sub_spec(self.value[3], rhs.value[3])] }
    }
}

impl std::ops::Mul<i64> for mat4<i64> {
    type Output = mat4<i64>;

    fn mul(self, rhs: i64) -> mat4<i64> {
        mat4 { value: [self.value[0] * rhs, self.value[1] * rhs, self.value[2] * rhs, self.value[3] * rhs] }
    }
}

impl vstd::std_specs::ops::MulSpecImpl<i64> for mat4<i64> {
    open spec fn obeys_mul_spec() -> bool {
        true
    }

    open spec fn mul_req(self, rhs: i64) -> bool {
        MulSpec::mul_req(self.value[0], rhs) && MulSpec::mul_req(self.value[1], rhs) && MulSpec::mul_req(self.value[2], rhs) && MulSpec::mul_req(self.value[3], rhs)
    }

    open spec fn mul_spec(self, rhs: i64) -> mat4<i64> {
        mat4 { value: [MulSpec::mul_spec(self.value[0], rhs), MulSpec::mul_spec(self.value[1], rhs), MulSpec::mul_spec(self.value[2], rhs), MulSpec::mul_spec(self.value[3], rhs)] }
    }
}

impl std::ops::Mul<mat4<i64>> for i64 {
    type Output = mat4<i64>;

    fn mul(self, rhs: mat4<i64>) -> mat4<i64> {
        mat4 { value: [self * rhs.value[0], self * rhs.value[1], self * rhs.value[2], self * rhs.value[3]] }
    }
}

impl vstd::std_specs::ops::MulSpecImpl<mat4<i64>> for i64 {
    open spec fn obeys_mul_spec() -> bool {
        true
    }

    open spec fn mul_req(self, rhs: mat4<i64>) -> bool {
        MulSpec::mul_req(self, rhs.value[0]) && MulSpec::mul_req(self, rhs.value[1]) && MulSpec::mul_req(self, rhs.value[2]) && MulSpec::mul_req(self, rhs.value[3])
    }

    open spec fn mul_spec(self, rhs: mat4<i64>) -> mat4<i64> {
        mat4 { value: [MulSpec::mul_spec(self, rhs.value[0]), MulSpec::mul_spec(self, rhs.value[1]), MulSpec::mul_spec(self, rhs.value[2]), MulSpec::mul_spec(self, rhs.value[3])] }
    }
}

impl std::ops::Div<i64> for mat4<i64> {
    type Output = mat4<i64>;

    fn div(self, rhs: i64) -> mat4<i64> {
        mat4 { value: [self.value[0] / rhs, self.value[1] / rhs, self.value[2] / rhs, self.value[3] / rhs] }
    }
}

impl vstd::std_specs::ops::DivSpecImpl<i64> for mat4<i64> {
    open spec fn obeys_div_spec() -> bool {
        true
    }

    open spec fn div_req(self, rhs: i64) -> bool {
        DivSpec::div_req(self.value[0], rhs) && DivSpec::div_req(self.value[1], rhs) && DivSpec::div_req(self.value[2], rhs) && DivSpec::div_req(self.value[3], rhs)
    }

    open spec fn div_spec(self, rhs: i64) -> mat4<i64> {
        mat4 { value: [DivSpec::div_spec(self.value[0], rhs), DivSpec::div_spec(self.value[1], rhs), DivSpec::div_spec(self.value[2], rhs), DivSpec::div_spec(self.value[3], rhs)] }
    }
}

impl std::ops::Div<mat4<i64>> for i64 {
    type Output = mat4<i64>;

    fn div(self, rhs: mat4<i64>) -> mat4<i64> {
        mat4 { value: [self / rhs.value[0], self / rhs.value[1], self / rhs.value[2], self / rhs.value[3]] }
    }
}

impl vstd::std_specs::ops::DivSpecImpl<mat4<i64>> for i64 {
    open spec fn obeys_div_spec() -> bool {
        true
    }

    open spec fn div_req(self, rhs: mat4<i64>) -> bool {
        DivSpec::div_req(self, rhs.value[0]) && DivSpec::div_req(self, rhs.value[1]) && DivSpec::div_req(self, rhs.value[2]) && DivSpec::div_req(self, rhs.value[3])
    }

    open spec fn div_spec(self, rhs: mat4<i64>) -> mat4<i64> {
        mat4 { value: [DivSpec::div_spec(self, rhs.value[0]), DivSpec::div_spec(self, rhs.value[1]), DivSpec::div_spec(self, rhs.value[2]), DivSpec::div_spec(self, rhs.value[3])] }
    }
}

impl std::ops::Mul<vec4<i64>> for mat4<i64> {
    type Output = vec4<i64>;

    fn mul(self, rhs: vec4<i64>) -> vec4<i64> {
        proof {
            lemma_sum4(|k: int| row(self@, 0)[k] * rhs@[k]);
            lemma_sum4(|k: int| row(self@, 1)[k] * rhs@[k]);
            lemma_sum4(|k: int| row(self@, 2)[k] * rhs@[k]);
            lemma_sum4(|k: int| row(self@, 3)[k] * rhs@[k]);
        }
        let mov0 = rhs.x;
        let mov1 = rhs.y;
        let mul0 = self.value[0] * mov0;
        let mul1 = self.value[1] * mov1;
        let add0 = mul0 + mul1;
        let mov2 = rhs.z;
        let mov3 = rhs.w;
        let mul2 = self.value[2] * mov2;
        let mul3 = self.value[3] * mov3;
        let add1 = mul2 + mul3;
        add0 + add1
    }
}

impl vstd::std_specs::ops::MulSpecImpl<vec4<i64>> for mat4<i64> {
    open spec fn obeys_mul_spec() -> bool {
        true
    }

    open spec fn mul_req(self, rhs: vec4<i64>) -> bool {
        dot4_fits(row(self@, 0), rhs@) && dot4_fits(row(self@, 1), rhs@) && dot4_fits(row(self@, 2), rhs@) && dot4_fits(row(self@, 3), rhs@)
    }

    /// The matrix acting on `rhs` as a column vector.
    open spec fn mul_spec(self, rhs: vec4<i64>) -> vec4<i64> {
        vec4::from_seq(mat_vec(self@, rhs@))
    }
}

impl std::ops::Mul<mat4<i64>> for vec4<i64> {
    type Output = vec4<i64>;

    fn mul(self, rhs: mat4<i64>) -> vec4<i64> {
        vec4 { x: self.dot(rhs.value[0]), y: self.dot(rhs.value[1]), z: self.dot(rhs.value[2]), w: self.dot(rhs.value[3]) }
    }
}

impl vstd::std_specs::ops::MulSpecImpl<mat4<i64>> for vec4<i64> {
    open spec fn obeys_mul_spec() -> bool {
        true
    }

    open spec fn mul_req(self, rhs: mat4<i64>) -> bool {
        dot4_fits(self@, rhs@[0]) && dot4_fits(self@, rhs@[1]) && dot4_fits(self@, rhs@[2]) && dot4_fits(self@, rhs@[3])
    }

    /// `self` acting on the matrix as a row vector.
    open spec fn mul_spec(self, rhs: mat4<i64>) -> vec4<i64> {
        vec4::from_seq(vec_mat(self@, rhs@))
    }
}

impl std::ops::Mul<mat4<i64>> for mat4<i64> {
    type Output = mat4<i64>;

    fn mul(self, rhs: mat4<i64>) -> mat4<i64> {
        proof {
            lemma_sum4(|k: int| row(self@, 0)[k] * rhs@[0][k]);
            lemma_sum4(|k: int| row(self@, 1)[k] * rhs@[0][k]);
            lemma_sum4(|k: int| row(self@, 2)[k] * rhs@[0][k]);
            lemma_sum4(|k: int| row(self@, 3)[k] * rhs@[0][k]);
            lemma_sum4(|k: int| row(self@, 0)[k] * rhs@[1][k]);
            lemma_sum4(|k: int| row(self@, 1)[k] * rhs@[1][k]);
            lemma_sum4(|k: int| row(self@, 2)[k] * rhs@[1][k]);
            lemma_sum4(|k: int| row(self@, 3)[k] * rhs@[1][k]);
            lemma_sum4(|k: int| row(self@, 0)[k] * rhs@[2][k]);
            lemma_sum4(|k: int| row(self@, 1)[k] * rhs@[2][k]);
            lemma_sum4(|k: int| row(self@, 2)[k] * rhs@[2][k]);
            lemma_sum4(|k: int| row(self@, 3)[k] * rhs@[2][k]);
            lemma_sum4(|k: int| row(self@, 0)[k] * rhs@[3][k]);
            lemma_sum4(|k: int| row(self@, 1)[k] * rhs@[3][k]);
            lemma_sum4(|k: int| row(self@, 2)[k] * rhs@[3][k]);
            lemma_sum4(|k: int| row(self@, 3)[k] * rhs@[3][k]);
        }
        let src_a0 = self.value[0];
        let src_a1 = self.value[1];
        let src_a2 = self.value[2];
        let src_a3 = self.value[3];

        let src_b0 = rhs.value[0];
        let src_b1 = rhs.value[1];
        let src_b2 = rhs.value[2];
        let src_b3 = rhs.value[3];

        let mut tmp0 = src_a0 * src_b0.x;
        tmp0.add_assign(src_a1 * src_b0.y);
        tmp0.add_assign(src_a2 * src_b0.z);
        tmp0.add_assign(src_a3 * src_b0.w);
        let mut tmp1 = src_a0 * src_b1.x;
        tmp1.add_assign(src_a1 * src_b1.y);
        tmp1.add_assign(src_a2 * src_b1.z);
        tmp1.add_assign(src_a3 * src_b1.w);
        let mut tmp2 = src_a0 * src_b2.x;
        tmp2.add_assign(src_a1 * src_b2.y);
        tmp2.add_assign(src_a2 * src_b2.z);
        tmp2.add_assign(src_a3 * src_b2.w);
        let mut tmp3 = src_a0 * src_b3.x;
        tmp3.add_assign(src_a1 * src_b3.y);
        tmp3.add_assign(src_a2 * src_b3.z);
        tmp3.add_assign(src_a3 * src_b3.w);

        mat4 { value: [tmp0, tmp1, tmp2, tmp3] }
    }
}

impl vstd::std_specs::ops::MulSpecImpl<mat4<i64>> for mat4<i64> {
    open spec fn obeys_mul_spec() -> bool {
        true
    }

    open spec fn mul_req(self, rhs: mat4<i64>) -> bool {
        fold4_fits(row(self@, 0), rhs@[0])
        && fold4_fits(row(self@, 1), rhs@[0])
        && fold4_fits(row(self@, 2), rhs@[0])
        && fold4_fits(row(self@, 3), rhs@[0])
        && fold4_fits(row(self@, 0), rhs@[1])
        && fold4_fits(row(self@, 1), rhs@[1])
        && fold4_fits(row(self@, 2), rhs@[1])
        && fold4_fits(row(self@, 3), rhs@[1])
        && fold4_fits(row(self@, 0), rhs@[2])
        && fold4_fits(row(self@, 1), rhs@[2])
        && fold4_fits(row(self@, 2), rhs@[2])
        && fold4_fits(row(self@, 3), rhs@[2])
        && fold4_fits(row(self@, 0), rhs@[3])
        && fold4_fits(row(self@, 1), rhs@[3])
        && fold4_fits(row(self@, 2), rhs@[3])
        && fold4_fits(row(self@, 3), rhs@[3])
    }

    /// The product: column `c` is `self` acting on column `c` of `rhs`.
    open spec fn mul_spec(self, rhs: mat4<i64>) -> mat4<i64> {
        mat4::from_seq(mat_mul(self@, rhs@))
    }
}

impl mat4<i64> {
    /// `self += rhs`, for every right operand that `+` takes with a
    /// matrix result.
    pub fn add_assign<R>(&mut self, rhs: R)
        where
            mat4<i64>: std::ops::Add<R, Output = mat4<i64>>,
        requires
            <mat4<i64> as AddSpec<R>>::obeys_add_spec(),
            old(self).add_req(rhs),
        ensures
            *final(self) == old(self).add_spec(rhs),
    {
        *self = *self + rhs;
    }

    /// `self -= rhs`, for every right operand that `-` takes with a
    /// matrix result.
    pub fn sub_assign<R>(&mut self, rhs: R)
        where
            mat4<i64>: std::ops::Sub<R, Output = mat4<i64>>,
        requires
            <mat4<i64> as SubSpec<R>>::obeys_sub_spec(),
            old(self).sub_req(rhs),
        ensures
            *final(self) == old(self).sub_spec(rhs),
    {
        *self = *self - rhs;
    }

    /// `self *= rhs`, for every right operand that `*` takes with a
    /// matrix result.
    pub fn mul_assign<R>(&mut self, rhs: R)
        where
            mat4<i64>: std::ops::Mul<R, Output = mat4<i64>>,
        requires
            <mat4<i64> as MulSpec<R>>::obeys_mul_spec(),
            old(self).mul_req(rhs),
        ensures
            *final(self) == old(self).mul_spec(rhs),
    {
        *self = *self * rhs;
    }

    /// `self /= rhs`, for every right operand that `/` takes with a
    /// matrix result.
    pub fn div_assign<R>(&mut self, rhs: R)
        where
            mat4<i64>: std::ops::Div<R, Output = mat4<i64>>,
        requires
            <mat4<i64> as DivSpec<R>>::obeys_div_spec(),
            old(self).div_req(rhs),
        ensures
            *final(self) == old(self).div_spec(rhs),
    {
        *self = *self / rhs;
    }
}

} // verus!
