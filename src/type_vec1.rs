//! Vectors of one component.
use vstd::prelude::*;
use vstd::std_specs::ops::{AddSpec, SubSpec, MulSpec, DivSpec, RemSpec, BitAndSpec, BitOrSpec, BitXorSpec, ShlSpec, ShrSpec};

use crate::scalar::{div_i64, div_ok, fits, quot, rem, rem_i64};

verus! {

/// A vector of one component, `x` in that order.
#[derive(Clone, Copy, Debug, Default, PartialEq, Eq, Hash)]
pub struct vec1<T> {
    pub x: T,
}

impl<T> vec1<T> {
    /// The components in order.
    pub open spec fn components(self) -> Seq<T> {
        seq![self.x]
    }

    /// The vector whose components all equal `s`.
    pub open spec fn filled(s: T) -> Self {
        vec1 { x: s }
    }

    /// The vector with these components.
    pub fn new(x: T) -> (r: Self)
        ensures
            r.x == x,
    {
        vec1 { x }
    }

    /// The number of components.
    pub fn len(&self) -> (r: usize)
        ensures
            r == 1,
    {
        1
    }

    /// Component `i`, to be written through; an index past the last
    /// component is refused.
    pub fn index_mut(&mut self, i: usize) -> (r: &mut T)
        requires
            i < 1,
        ensures
            *r == old(self).components()[i as int],
            final(self).components() == old(self).components().update(i as int, *final(r)),
    {
        if i == 0 {
            &mut self.x
        } else {
            unreached()
        }
    }

    /// Component `i`; an index past the last component is refused.
    pub fn index(&self, i: usize) -> (r: &T)
        requires
            i < 1,
        ensures
            *r == self.components()[i as int],
    {
        let parts = [&self.x];
        parts[i]
    }
}

impl View for vec1<i64> {
    type V = Seq<int>;

    open spec fn view(&self) -> Seq<int> {
        seq![self.x as int]
    }
}

impl vec1<i64> {
    /// The vector whose components are the first 1 entries of `s`, as `i64`.
    pub open spec fn from_seq(s: Seq<int>) -> Self {
        vec1 { x: s[0] as i64 }
    }

    /// The vector of zeros.
    pub fn zero() -> (r: Self)
        ensures
            r@ == Seq::new(1, |i: int| 0int),
    {
        let r = vec1 { x: 0 };
        assert(r@ =~= Seq::new(1, |i: int| 0int));
        r
    }
}

impl std::ops::Neg for vec1<i64> {
    type Output = vec1<i64>;

    fn neg(self) -> vec1<i64> {
        vec1 { x: -self.x }
    }
}

impl vstd::std_specs::ops::NegSpecImpl for vec1<i64> {
    open spec fn obeys_neg_spec() -> bool {
        true
    }

    open spec fn neg_req(self) -> bool {
        self.x != i64::MIN
    }

    open spec fn neg_spec(self) -> vec1<i64> {
        vec1 { x: (-self.x) as i64 }
    }
}

impl std::ops::Not for vec1<i64> {
    type Output = vec1<i64>;

    fn not(self) -> vec1<i64> {
        vec1 { x: !self.x }
    }
}

impl vstd::std_specs::ops::NotSpecImpl for vec1<i64> {
    open spec fn obeys_not_spec() -> bool {
        true
    }

    open spec fn not_req(self) -> bool {
        true
    }

    open spec fn not_spec(self) -> vec1<i64> {
        vec1 { x: !self.x }
    }
}

impl std::ops::Add<vec1<i64>> for vec1<i64> {
    type Output = vec1<i64>;

    fn add(self, rhs: vec1<i64>) -> vec1<i64> {
        vec1 { x: self.x + rhs.x }
    }
}

impl vstd::std_specs::ops::AddSpecImpl<vec1<i64>> for vec1<i64> {
    open spec fn obeys_add_spec() -> bool {
        true
    }

    open spec fn add_req(self, rhs: vec1<i64>) -> bool {
        fits(self.x + rhs.x)
    }

    open spec fn add_spec(self, rhs: vec1<i64>) -> vec1<i64> {
        vec1 { x: (self.x + rhs.x) as i64 }
    }
}

impl std::ops::Add<i64> for vec1<i64> {
    type Output = vec1<i64>;

    fn add(self, rhs: i64) -> vec1<i64> {
        vec1 { x: self.x + rhs }
    }
}

impl vstd::std_specs::ops::AddSpecImpl<i64> for vec1<i64> {
    open spec fn obeys_add_spec() -> bool {
        true
    }

    open spec fn add_req(self, rhs: i64) -> bool {
        fits(self.x + rhs)
    }

    open spec fn add_spec(self, rhs: i64) -> vec1<i64> {
        vec1 { x: (self.x + rhs) as i64 }
    }
}

impl std::ops::Add<vec1<i64>> for i64 {
    type Output = vec1<i64>;

    fn add(self, rhs: vec1<i64>) -> vec1<i64> {
        vec1 { x: self + rhs.x }
    }
}

impl vstd::std_specs::ops::AddSpecImpl<vec1<i64>> for i64 {
    open spec fn obeys_add_spec() -> bool {
        true
    }

    open spec fn add_req(self, rhs: vec1<i64>) -> bool {
        fits(self + rhs.x)
    }

    open spec fn add_spec(self, rhs: vec1<i64>) -> vec1<i64> {
        vec1 { x: (self + rhs.x) as i64 }
    }
}

impl std::ops::Sub<vec1<i64>> for vec1<i64> {
    type Output = vec1<i64>;

    fn sub(self, rhs: vec1<i64>) -> vec1<i64> {
        vec1 { x: self.x - rhs.x }
    }
}

impl vstd::std_specs::ops::SubSpecImpl<vec1<i64>> for vec1<i64> {
    open spec fn obeys_sub_spec() -> bool {
        true
    }

    open spec fn sub_req(self, rhs: vec1<i64>) -> bool {
        fits(self.x - rhs.x)
    }

    open spec fn sub_spec(self, rhs: vec1<i64>) -> vec1<i64> {
        vec1 { x: (self.x - rhs.x) as i64 }
    }
}

impl std::ops::Sub<i64> for vec1<i64> {
    type Output = vec1<i64>;

    fn sub(self, rhs: i64) -> vec1<i64> {
        vec1 { x: self.x - rhs }
    }
}

impl vstd::std_specs::ops::SubSpecImpl<i64> for vec1<i64> {
    open spec fn obeys_sub_spec() -> bool {
        true
    }

    open spec fn sub_req(self, rhs: i64) -> bool {
        fits(self.x - rhs)
    }

    open spec fn sub_spec(self, rhs: i64) -> vec1<i64> {
        vec1 { x: (self.x - rhs) as i64 }
    }
}

impl std::ops::Sub<vec1<i64>> for i64 {
    type Output = vec1<i64>;

    fn sub(self, rhs: vec1<i64>) -> vec1<i64> {
        vec1 { x: self - rhs.x }
    }
}

impl vstd::std_specs::ops::SubSpecImpl<vec1<i64>> for i64 {
    open spec fn obeys_sub_spec() -> bool {
        true
    }

    open spec fn sub_req(self, rhs: vec1<i64>) -> bool {
        fits(self - rhs.x)
    }

    open spec fn sub_spec(self, rhs: vec1<i64>) -> vec1<i64> {
        vec1 { x: (self - rhs.x) as i64 }
    }
}

impl std::ops::Mul<vec1<i64>> for vec1<i64> {
    type Output = vec1<i64>;

    fn mul(self, rhs: vec1<i64>) -> vec1<i64> {
        vec1 { x: self.x * rhs.x }
    }
}

impl vstd::std_specs::ops::MulSpecImpl<vec1<i64>> for vec1<i64> {
    open spec fn obeys_mul_spec() -> bool {
        true
    }

    open spec fn mul_req(self, rhs: vec1<i64>) -> bool {
        fits(self.x * rhs.x)
    }

    open spec fn mul_spec(self, rhs: vec1<i64>) -> vec1<i64> {
        vec1 { x: (self.x * rhs.x) as i64 }
    }
}

impl std::ops::Mul<i64> for vec1<i64> {
    type Output = vec1<i64>;

    fn mul(self, rhs: i64) -> vec1<i64> {
        vec1 { x: self.x * rhs }
    }
}

impl vstd::std_specs::ops::MulSpecImpl<i64> for vec1<i64> {
    open spec fn obeys_mul_spec() -> bool {
        true
    }

    open spec fn mul_req(self, rhs: i64) -> bool {
        fits(self.x * rhs)
    }

    open spec fn mul_spec(self, rhs: i64) -> vec1<i64> {
        vec1 { x: (self.x * rhs) as i64 }
    }
}

impl std::ops::Mul<vec1<i64>> for i64 {
    type Output = vec1<i64>;

    fn mul(self, rhs: vec1<i64>) -> vec1<i64> {
        vec1 { x: self * rhs.x }
    }
}

impl vstd::std_specs::ops::MulSpecImpl<vec1<i64>> for i64 {
    open spec fn obeys_mul_spec() -> bool {
        true
    }

    open spec fn mul_req(self, rhs: vec1<i64>) -> bool {
        fits(self * rhs.x)
    }

    open spec fn mul_spec(self, rhs: vec1<i64>) -> vec1<i64> {
        vec1 { x: (self * rhs.x) as i64 }
    }
}

impl std::ops::Div<vec1<i64>> for vec1<i64> {
    type Output = vec1<i64>;

    fn div(self, rhs: vec1<i64>) -> vec1<i64> {
        vec1 { x: div_i64(self.x, rhs.x) }
    }
}

impl vstd::std_specs::ops::DivSpecImpl<vec1<i64>> for vec1<i64> {
    open spec fn obeys_div_spec() -> bool {
        true
    }

    open spec fn div_req(self, rhs: vec1<i64>) -> bool {
        div_ok(self.x, rhs.x)
    }

    open spec fn div_spec(self, rhs: vec1<i64>) -> vec1<i64> {
        vec1 { x: quot(self.x as int, rhs.x as int) as i64 }
    }
}

impl std::ops::Div<i64> for vec1<i64> {
    type Output = vec1<i64>;

    fn div(self, rhs: i64) -> vec1<i64> {
        vec1 { x: div_i64(self.x, rhs) }
    }
}

impl vstd::std_specs::ops::DivSpecImpl<i64> for vec1<i64> {
    open spec fn obeys_div_spec() -> bool {
        true
    }

    open spec fn div_req(self, rhs: i64) -> bool {
        div_ok(self.x, rhs)
    }

    open spec fn div_spec(self, rhs: i64) -> vec1<i64> {
        vec1 { x: quot(self.x as int, rhs as int) as i64 }
    }
}

impl std::ops::Div<vec1<i64>> for i64 {
    type Output = vec1<i64>;

    fn div(self, rhs: vec1<i64>) -> vec1<i64> {
        vec1 { x: div_i64(self, rhs.x) }
    }
}

impl vstd::std_specs::ops::DivSpecImpl<vec1<i64>> for i64 {
    open spec fn obeys_div_spec() -> bool {
        true
    }

    open spec fn div_req(self, rhs: vec1<i64>) -> bool {
        div_ok(self, rhs.x)
    }

    open spec fn div_spec(self, rhs: vec1<i64>) -> vec1<i64> {
        vec1 { x: quot(self as int, rhs.x as int) as i64 }
    }
}

impl std::ops::Rem<vec1<i64>> for vec1<i64> {
    type Output = vec1<i64>;

    fn rem(self, rhs: vec1<i64>) -> vec1<i64> {
        vec1 { x: rem_i64(self.x, rhs.x) }
    }
}

impl vstd::std_specs::ops::RemSpecImpl<vec1<i64>> for vec1<i64> {
    open spec fn obeys_rem_spec() -> bool {
        true
    }

    open spec fn rem_req(self, rhs: vec1<i64>) -> bool {
        div_ok(self.x, rhs.x)
    }

    open spec fn rem_spec(self, rhs: vec1<i64>) -> vec1<i64> {
        vec1 { x: rem(self.x as int, rhs.x as int) as i64 }
    }
}

impl std::ops::Rem<i64> for vec1<i64> {
    type Output = vec1<i64>;

    fn rem(self, rhs: i64) -> vec1<i64> {
        vec1 { x: rem_i64(self.x, rhs) }
    }
}

impl vstd::std_specs::ops::RemSpecImpl<i64> for vec1<i64> {
    open spec fn obeys_rem_spec() -> bool {
        true
    }

    open spec fn rem_req(self, rhs: i64) -> bool {
        div_ok(self.x, rhs)
    }

    open spec fn rem_spec(self, rhs: i64) -> vec1<i64> {
        vec1 { x: rem(self.x as int, rhs as int) as i64 }
    }
}

impl std::ops::Rem<vec1<i64>> for i64 {
    type Output = vec1<i64>;

    fn rem(self, rhs: vec1<i64>) -> vec1<i64> {
        vec1 { x: rem_i64(self, rhs.x) }
    }
}

impl vstd::std_specs::ops::RemSpecImpl<vec1<i64>> for i64 {
    open spec fn obeys_rem_spec() -> bool {
        true
    }

    open spec fn rem_req(self, rhs: vec1<i64>) -> bool {
        div_ok(self, rhs.x)
    }

    open spec fn rem_spec(self, rhs: vec1<i64>) -> vec1<i64> {
        vec1 { x: rem(self as int, rhs.x as int) as i64 }
    }
}

impl std::ops::BitAnd<vec1<i64>> for vec1<i64> {
    type Output = vec1<i64>;

    fn bitand(self, rhs: vec1<i64>) -> vec1<i64> {
        vec1 { x: self.x & rhs.x }
    }
}

impl vstd::std_specs::ops::BitAndSpecImpl<vec1<i64>> for vec1<i64> {
    open spec fn obeys_bitand_spec() -> bool {
        true
    }

    open spec fn bitand_req(self, rhs: vec1<i64>) -> bool {
        true
    }

    open spec fn bitand_spec(self, rhs: vec1<i64>) -> vec1<i64> {
        vec1 { x: self.x & rhs.x }
    }
}

impl std::ops::BitAnd<i64> for vec1<i64> {
    type Output = vec1<i64>;

    fn bitand(self, rhs: i64) -> vec1<i64> {
        vec1 { x: self.x & rhs }
    }
}

impl vstd::std_specs::ops::BitAndSpecImpl<i64> for vec1<i64> {
    open spec fn obeys_bitand_spec() -> bool {
        true
    }

    open spec fn bitand_req(self, rhs: i64) -> bool {
        true
    }

    open spec fn bitand_spec(self, rhs: i64) -> vec1<i64> {
        vec1 { x: self.x & rhs }
    }
}

impl std::ops::BitAnd<vec1<i64>> for i64 {
    type Output = vec1<i64>;

    fn bitand(self, rhs: vec1<i64>) -> vec1<i64> {
        vec1 { x: self & rhs.x }
    }
}

impl vstd::std_specs::ops::BitAndSpecImpl<vec1<i64>> for i64 {
    open spec fn obeys_bitand_spec() -> bool {
        true
    }

    open spec fn bitand_req(self, rhs: vec1<i64>) -> bool {
        true
    }

    open spec fn bitand_spec(self, rhs: vec1<i64>) -> vec1<i64> {
        vec1 { x: self & rhs.x }
    }
}

impl std::ops::BitOr<vec1<i64>> for vec1<i64> {
    type Output = vec1<i64>;

    fn bitor(self, rhs: vec1<i64>) -> vec1<i64> {
        vec1 { x: self.x | rhs.x }
    }
}

impl vstd::std_specs::ops::BitOrSpecImpl<vec1<i64>> for vec1<i64> {
    open spec fn obeys_bitor_spec() -> bool {
        true
    }

    open spec fn bitor_req(self, rhs: vec1<i64>) -> bool {
        true
    }

    open spec fn bitor_spec(self, rhs: vec1<i64>) -> vec1<i64> {
        vec1 { x: self.x | rhs.x }
    }
}

impl std::ops::BitOr<i64> for vec1<i64> {
    type Output = vec1<i64>;

    fn bitor(self, rhs: i64) -> vec1<i64> {
        vec1 { x: self.x | rhs }
    }
}

impl vstd::std_specs::ops::BitOrSpecImpl<i64> for vec1<i64> {
    open spec fn obeys_bitor_spec() -> bool {
        true
    }

    open spec fn bitor_req(self, rhs: i64) -> bool {
        true
    }

    open spec fn bitor_spec(self, rhs: i64) -> vec1<i64> {
        vec1 { x: self.x | rhs }
    }
}

impl std::ops::BitOr<vec1<i64>> for i64 {
    type Output = vec1<i64>;

    fn bitor(self, rhs: vec1<i64>) -> vec1<i64> {
        vec1 { x: self | rhs.x }
    }
}

impl vstd::std_specs::ops::BitOrSpecImpl<vec1<i64>> for i64 {
    open spec fn obeys_bitor_spec() -> bool {
        true
    }

    open spec fn bitor_req(self, rhs: vec1<i64>) -> bool {
        true
    }

    open spec fn bitor_spec(self, rhs: vec1<i64>) -> vec1<i64> {
        vec1 { x: self | rhs.x }
    }
}

impl std::ops::BitXor<vec1<i64>> for vec1<i64> {
    type Output = vec1<i64>;

    fn bitxor(self, rhs: vec1<i64>) -> vec1<i64> {
        vec1 { x: self.x ^ rhs.x }
    }
}

impl vstd::std_specs::ops::BitXorSpecImpl<vec1<i64>> for vec1<i64> {
    open spec fn obeys_bitxor_spec() -> bool {
        true
    }

    open spec fn bitxor_req(self, rhs: vec1<i64>) -> bool {
        true
    }

    open spec fn bitxor_spec(self, rhs: vec1<i64>) -> vec1<i64> {
        vec1 { x: self.x ^ rhs.x }
    }
}

impl std::ops::BitXor<i64> for vec1<i64> {
    type Output = vec1<i64>;

    fn bitxor(self, rhs: i64) -> vec1<i64> {
        vec1 { x: self.x ^ rhs }
    }
}

impl vstd::std_specs::ops::BitXorSpecImpl<i64> for vec1<i64> {
    open spec fn obeys_bitxor_spec() -> bool {
        true
    }

    open spec fn bitxor_req(self, rhs: i64) -> bool {
        true
    }

    open spec fn bitxor_spec(self, rhs: i64) -> vec1<i64> {
        vec1 { x: self.x ^ rhs }
    }
}

impl std::ops::BitXor<vec1<i64>> for i64 {
    type Output = vec1<i64>;

    fn bitxor(self, rhs: vec1<i64>) -> vec1<i64> {
        vec1 { x: self ^ rhs.x }
    }
}

impl vstd::std_specs::ops::BitXorSpecImpl<vec1<i64>> for i64 {
    open spec fn obeys_bitxor_spec() -> bool {
        true
    }

    open spec fn bitxor_req(self, rhs: vec1<i64>) -> bool {
        true
    }

    open spec fn bitxor_spec(self, rhs: vec1<i64>) -> vec1<i64> {
        vec1 { x: self ^ rhs.x }
    }
}

impl std::ops::Shl<vec1<u32>> for vec1<i64> {
    type Output = vec1<i64>;

    fn shl(self, rhs: vec1<u32>) -> vec1<i64> {
        vec1 { x: self.x << rhs.x }
    }
}

impl vstd::std_specs::ops::ShlSpecImpl<vec1<u32>> for vec1<i64> {
    open spec fn obeys_shl_spec() -> bool {
        true
    }

    open spec fn shl_req(self, rhs: vec1<u32>) -> bool {
        rhs.x < 64
    }

    open spec fn shl_spec(self, rhs: vec1<u32>) -> vec1<i64> {
        vec1 { x: self.x << rhs.x }
    }
}

impl std::ops::Shl<u32> for vec1<i64> {
    type Output = vec1<i64>;

    fn shl(self, rhs: u32) -> vec1<i64> {
        vec1 { x: self.x << rhs }
    }
}

impl vstd::std_specs::ops::ShlSpecImpl<u32> for vec1<i64> {
    open spec fn obeys_shl_spec() -> bool {
        true
    }

    open spec fn shl_req(self, rhs: u32) -> bool {
        rhs < 64
    }

    open spec fn shl_spec(self, rhs: u32) -> vec1<i64> {
        vec1 { x: self.x << rhs }
    }
}

impl std::ops::Shl<vec1<u32>> for i64 {
    type Output = vec1<i64>;

    fn shl(self, rhs: vec1<u32>) -> vec1<i64> {
        vec1 { x: self << rhs.x }
    }
}

impl vstd::std_specs::ops::ShlSpecImpl<vec1<u32>> for i64 {
    open spec fn obeys_shl_spec() -> bool {
        true
    }

    open spec fn shl_req(self, rhs: vec1<u32>) -> bool {
        rhs.x < 64
    }

    open spec fn shl_spec(self, rhs: vec1<u32>) -> vec1<i64> {
        vec1 { x: self << rhs.x }
    }
}

impl std::ops::Shr<vec1<u32>> for vec1<i64> {
    type Output = vec1<i64>;

    fn shr(self, rhs: vec1<u32>) -> vec1<i64> {
        vec1 { x: self.x >> rhs.x }
    }
}

impl vstd::std_specs::ops::ShrSpecImpl<vec1<u32>> for vec1<i64> {
    open spec fn obeys_shr_spec() -> bool {
        true
    }

    open spec fn shr_req(self, rhs: vec1<u32>) -> bool {
        rhs.x < 64
    }

    open spec fn shr_spec(self, rhs: vec1<u32>) -> vec1<i64> {
        vec1 { x: self.x >> rhs.x }
    }
}

impl std::ops::Shr<u32> for vec1<i64> {
    type Output = vec1<i64>;

    fn shr(self, rhs: u32) -> vec1<i64> {
        vec1 { x: self.x >> rhs }
    }
}

impl vstd::std_specs::ops::ShrSpecImpl<u32> for vec1<i64> {
    open spec fn obeys_shr_spec() -> bool {
        true
    }

    open spec fn shr_req(self, rhs: u32) -> bool {
        rhs < 64
    }

    open spec fn shr_spec(self, rhs: u32) -> vec1<i64> {
        vec1 { x: self.x >> rhs }
    }
}

impl std::ops::Shr<vec1<u32>> for i64 {
    type Output = vec1<i64>;

    fn shr(self, rhs: vec1<u32>) -> vec1<i64> {
        vec1 { x: self >> rhs.x }
    }
}

impl vstd::std_specs::ops::ShrSpecImpl<vec1<u32>> for i64 {
    open spec fn obeys_shr_spec() -> bool {
        true
    }

    open spec fn shr_req(self, rhs: vec1<u32>) -> bool {
        rhs.x < 64
    }

    open spec fn shr_spec(self, rhs: vec1<u32>) -> vec1<i64> {
        vec1 { x: self >> rhs.x }
    }
}

impl vec1<i64> {
    /// `self += rhs`, for every right operand that `+` takes.
    pub fn add_assign<R>(&mut self, rhs: R)
        where
            vec1<i64>: std::ops::Add<R, Output = vec1<i64>>,
        requires
            <vec1<i64> as AddSpec<R>>::obeys_add_spec(),
            old(self).add_req(rhs),
        ensures
            *final(self) == old(self).add_spec(rhs),
    {
        *self = *self + rhs;
    }

    /// `self -= rhs`, for every right operand that `-` takes.
    pub fn sub_assign<R>(&mut self, rhs: R)
        where
            vec1<i64>: std::ops::Sub<R, Output = vec1<i64>>,
        requires
            <vec1<i64> as SubSpec<R>>::obeys_sub_spec(),
            old(self).sub_req(rhs),
        ensures
            *final(self) == old(self).sub_spec(rhs),
    {
        *self = *self - rhs;
    }

    /// `self *= rhs`, for every right operand that `*` takes.
    pub fn mul_assign<R>(&mut self, rhs: R)
        where
            vec1<i64>: std::ops::Mul<R, Output = vec1<i64>>,
        requires
            <vec1<i64> as MulSpec<R>>::obeys_mul_spec(),
            old(self).mul_req(rhs),
        ensures
            *final(self) == old(self).mul_spec(rhs),
    {
        *self = *self * rhs;
    }

    /// `self /= rhs`, for every right operand that `/` takes.
    pub fn div_assign<R>(&mut self, rhs: R)
        where
            vec1<i64>: std::ops::Div<R, Output = vec1<i64>>,
        requires
            <vec1<i64> as DivSpec<R>>::obeys_div_spec(),
            old(self).div_req(rhs),
        ensures
            *final(self) == old(self).div_spec(rhs),
    {
        *self = *self / rhs;
    }

    /// `self %= rhs`, for every right operand that `%` takes.
    pub fn rem_assign<R>(&mut self, rhs: R)
        where
            vec1<i64>: std::ops::Rem<R, Output = vec1<i64>>,
        requires
            <vec1<i64> as RemSpec<R>>::obeys_rem_spec(),
            old(self).rem_req(rhs),
        ensures
            *final(self) == old(self).rem_spec(rhs),
    {
        *self = *self % rhs;
    }

    /// `self &= rhs`, for every right operand that `&` takes.
    pub fn bitand_assign<R>(&mut self, rhs: R)
        where
            vec1<i64>: std::ops::BitAnd<R, Output = vec1<i64>>,
        requires
            <vec1<i64> as BitAndSpec<R>>::obeys_bitand_spec(),
            old(self).bitand_req(rhs),
        ensures
            *final(self) == old(self).bitand_spec(rhs),
    {
        *self = *self & rhs;
    }

    /// `self |= rhs`, for every right operand that `|` takes.
    pub fn bitor_assign<R>(&mut self, rhs: R)
        where
            vec1<i64>: std::ops::BitOr<R, Output = vec1<i64>>,
        requires
            <vec1<i64> as BitOrSpec<R>>::obeys_bitor_spec(),
            old(self).bitor_req(rhs),
        ensures
            *final(self) == old(self).bitor_spec(rhs),
    {
        *self = *self | rhs;
    }

    /// `self ^= rhs`, for every right operand that `^` takes.
    pub fn bitxor_assign<R>(&mut self, rhs: R)
        where
            vec1<i64>: std::ops::BitXor<R, Output = vec1<i64>>,
        requires
            <vec1<i64> as BitXorSpec<R>>::obeys_bitxor_spec(),
            old(self).bitxor_req(rhs),
        ensures
            *final(self) == old(self).bitxor_spec(rhs),
    {
        *self = *self ^ rhs;
    }

    /// `self <<= rhs`, for every right operand that `<<` takes.
    pub fn shl_assign<R>(&mut self, rhs: R)
        where
            vec1<i64>: std::ops::Shl<R, Output = vec1<i64>>,
        requires
            <vec1<i64> as ShlSpec<R>>::obeys_shl_spec(),
            old(self).shl_req(rhs),
        ensures
            *final(self) == old(self).shl_spec(rhs),
    {
        *self = *self << rhs;
    }

    /// `self >>= rhs`, for every right operand that `>>` takes.
    pub fn shr_assign<R>(&mut self, rhs: R)
        where
            vec1<i64>: std::ops::Shr<R, Output = vec1<i64>>,
        requires
            <vec1<i64> as ShrSpec<R>>::obeys_shr_spec(),
            old(self).shr_req(rhs),
        ensures
            *final(self) == old(self).shr_spec(rhs),
    {
        *self = *self >> rhs;
    }
}

/// Combining a vector with a scalar, on either side, is
/// combining it with the vector that repeats that value in every component:
/// the same result, under the same condition, for `+`, `-`, `*`, `/` and `%`.
pub proof fn broadcast_is_filled(v: vec1<i64>, s: i64)
    ensures
        AddSpec::add_req(v, s) == AddSpec::add_req(v, vec1::filled(s)),
        AddSpec::add_spec(v, s) == AddSpec::add_spec(v, vec1::filled(s)),
        AddSpec::add_req(s, v) == AddSpec::add_req(vec1::filled(s), v),
        AddSpec::add_spec(s, v) == AddSpec::add_spec(vec1::filled(s), v),
        SubSpec::sub_req(v, s) == SubSpec::sub_req(v, vec1::filled(s)),
        SubSpec::sub_spec(v, s) == SubSpec::sub_spec(v, vec1::filled(s)),
        SubSpec::sub_req(s, v) == SubSpec::sub_req(vec1::filled(s), v),
        SubSpec::sub_spec(s, v) == SubSpec::sub_spec(vec1::filled(s), v),
        MulSpec::mul_req(v, s) == MulSpec::mul_req(v, vec1::filled(s)),
        MulSpec::mul_spec(v, s) == MulSpec::mul_spec(v, vec1::filled(s)),
        MulSpec::mul_req(s, v) == MulSpec::mul_req(vec1::filled(s), v),
        MulSpec::mul_spec(s, v) == MulSpec::mul_spec(vec1::filled(s), v),
        DivSpec::div_req(v, s) == DivSpec::div_req(v, vec1::filled(s)),
        DivSpec::div_spec(v, s) == DivSpec::div_spec(v, vec1::filled(s)),
        DivSpec::div_req(s, v) == DivSpec::div_req(vec1::filled(s), v),
        DivSpec::div_spec(s, v) == DivSpec::div_spec(vec1::filled(s), v),
        RemSpec::rem_req(v, s) == RemSpec::rem_req(v, vec1::filled(s)),
        RemSpec::rem_spec(v, s) == RemSpec::rem_spec(v, vec1::filled(s)),
        RemSpec::rem_req(s, v) == RemSpec::rem_req(vec1::filled(s), v),
        RemSpec::rem_spec(s, v) == RemSpec::rem_spec(vec1::filled(s), v),
{
}

} // verus!
