//! Vectors of three components.
use vstd::prelude::*;
use vstd::std_specs::ops::{AddSpec, SubSpec, MulSpec, DivSpec, RemSpec, BitAndSpec, BitOrSpec, BitXorSpec, ShlSpec, ShrSpec};

use crate::scalar::{div_i64, div_ok, fits, quot, rem, rem_i64};
use crate::type_vec1::vec1;

verus! {

/// A vector of three components, `x`, `y`, `z` in that order.
#[derive(Clone, Copy, Debug, Default, PartialEq, Eq, Hash)]
pub struct vec3<T> {
    pub x: T,
    pub y: T,
    pub z: T,
}

impl<T> vec3<T> {
    /// The components in order.
    pub open spec fn components(self) -> Seq<T> {
        seq![self.x, self.y, self.z]
    }

    /// The vector whose components all equal `s`.
    pub open spec fn filled(s: T) -> Self {
        vec3 { x: s, y: s, z: s }
    }

    /// The vector with these components.
    pub fn new(x: T, y: T, z: T) -> (r: Self)
        ensures
            r.x == x,
            r.y == y,
            r.z == z,
    {
        vec3 { x, y, z }
    }

    /// The number of components.
    pub fn len(&self) -> (r: usize)
        ensures
            r == 3,
    {
        3
    }

    /// Component `i`, to be written through; an index past the last
    /// component is refused.
    pub fn index_mut(&mut self, i: usize) -> (r: &mut T)
        requires
            i < 3,
        ensures
            *r == old(self).components()[i as int],
            final(self).components() == old(self).components().update(i as int, *final(r)),
    {
        if i == 0 {
            &mut self.x
        } else if i == 1 {
            &mut self.y
        } else if i == 2 {
            &mut self.z
        } else {
            unreached()
        }
    }

    /// Component `i`; an index past the last component is refused.
    pub fn index(&self, i: usize) -> (r: &T)
        requires
            i < 3,
        ensures
            *r == self.components()[i as int],
    {
        let parts = [&self.x, &self.y, &self.z];
        parts[i]
    }
}

impl View for vec3<i64> {
    type V = Seq<int>;

    open spec fn view(&self) -> Seq<int> {
        seq![self.x as int, self.y as int, self.z as int]
    }
}

impl vec3<i64> {
    /// The vector whose components are the first 3 entries of `s`, as `i64`.
    pub open spec fn from_seq(s: Seq<int>) -> Self {
        vec3 { x: s[0] as i64, y: s[1] as i64, z: s[2] as i64 }
    }

    /// The vector of zeros.
    pub fn zero() -> (r: Self)
        ensures
            r@ == Seq::new(3, |i: int| 0int),
    {
        let r = vec3 { x: 0, y: 0, z: 0 };
        assert(r@ =~= Seq::new(3, |i: int| 0int));
        r
    }
}

impl std::ops::Neg for vec3<i64> {
    type Output = vec3<i64>;

    fn neg(self) -> vec3<i64> {
        vec3 { x: -self.x, y: -self.y, z: -self.z }
    }
}

impl vstd::std_specs::ops::NegSpecImpl for vec3<i64> {
    open spec fn obeys_neg_spec() -> bool {
        true
    }

    open spec fn neg_req(self) -> bool {
        self.x != i64::MIN && self.y != i64::MIN && self.z != i64::MIN
    }

    open spec fn neg_spec(self) -> vec3<i64> {
        vec3 { x: (-self.x) as i64, y: (-self.y) as i64, z: (-self.z) as i64 }
    }
}

impl std::ops::Not for vec3<i64> {
    type Output = vec3<i64>;

    fn not(self) -> vec3<i64> {
        vec3 { x: !self.x, y: !self.y, z: !self.z }
    }
}

impl vstd::std_specs::ops::NotSpecImpl for vec3<i64> {
    open spec fn obeys_not_spec() -> bool {
        true
    }

    open spec fn not_req(self) -> bool {
        true
    }

    open spec fn not_spec(self) -> vec3<i64> {
        vec3 { x: !self.x, y: !self.y, z: !self.z }
    }
}

impl std::ops::Add<vec3<i64>> for vec3<i64> {
    type Output = vec3<i64>;

    fn add(self, rhs: vec3<i64>) -> vec3<i64> {
        vec3 { x: self.x + rhs.x, y: self.y + rhs.y, z: self.z + rhs.z }
    }
}

impl vstd::std_specs::ops::AddSpecImpl<vec3<i64>> for vec3<i64> {
    open spec fn obeys_add_spec() -> bool {
        true
    }

    open spec fn add_req(self, rhs: vec3<i64>) -> bool {
        fits(self.x + rhs.x) && fits(self.y + rhs.y) && fits(self.z + rhs.z)
    }

    open spec fn add_spec(self, rhs: vec3<i64>) -> vec3<i64> {
        vec3 { x: (self.x + rhs.x) as i64, y: (self.y + rhs.y) as i64, z: (self.z + rhs.z) as i64 }
    }
}

impl std::ops::Add<i64> for vec3<i64> {
    type Output = vec3<i64>;

    fn add(self, rhs: i64) -> vec3<i64> {
        vec3 { x: self.x + rhs, y: self.y + rhs, z: self.z + rhs }
    }
}

impl vstd::std_specs::ops::AddSpecImpl<i64> for vec3<i64> {
    open spec fn obeys_add_spec() -> bool {
        true
    }

    open spec fn add_req(self, rhs: i64) -> bool {
        fits(self.x + rhs) && fits(self.y + rhs) && fits(self.z + rhs)
    }

    open spec fn add_spec(self, rhs: i64) -> vec3<i64> {
        vec3 { x: (self.x + rhs) as i64, y: (self.y + rhs) as i64, z: (self.z + rhs) as i64 }
    }
}

impl std::ops::Add<vec1<i64>> for vec3<i64> {
    type Output = vec3<i64>;

    fn add(self, rhs: vec1<i64>) -> vec3<i64> {
        vec3 { x: self.x + rhs.x, y: self.y + rhs.x, z: self.z + rhs.x }
    }
}

impl vstd::std_specs::ops::AddSpecImpl<vec1<i64>> for vec3<i64> {
    open spec fn obeys_add_spec() -> bool {
        true
    }

    open spec fn add_req(self, rhs: vec1<i64>) -> bool {
        fits(self.x + rhs.x) && fits(self.y + rhs.x) && fits(self.z + rhs.x)
    }

    open spec fn add_spec(self, rhs: vec1<i64>) -> vec3<i64> {
        vec3 { x: (self.x + rhs.x) as i64, y: (self.y + rhs.x) as i64, z: (self.z + rhs.x) as i64 }
    }
}

impl std::ops::Add<vec3<i64>> for i64 {
    type Output = vec3<i64>;

    fn add(self, rhs: vec3<i64>) -> vec3<i64> {
        vec3 { x: self + rhs.x, y: self + rhs.y, z: self + rhs.z }
    }
}

impl vstd::std_specs::ops::AddSpecImpl<vec3<i64>> for i64 {
    open spec fn obeys_add_spec() -> bool {
        true
    }

    open spec fn add_req(self, rhs: vec3<i64>) -> bool {
        fits(self + rhs.x) && fits(self + rhs.y) && fits(self + rhs.z)
    }

    open spec fn add_spec(self, rhs: vec3<i64>) -> vec3<i64> {
        vec3 { x: (self + rhs.x) as i64, y: (self + rhs.y) as i64, z: (self + rhs.z) as i64 }
    }
}

impl std::ops::Add<vec3<i64>> for vec1<i64> {
    type Output = vec3<i64>;

    fn add(self, rhs: vec3<i64>) -> vec3<i64> {
        vec3 { x: self.x + rhs.x, y: self.x + rhs.y, z: self.x + rhs.z }
    }
}

impl vstd::std_specs::ops::AddSpecImpl<vec3<i64>> for vec1<i64> {
    open spec fn obeys_add_spec() -> bool {
        true
    }

    open spec fn add_req(self, rhs: vec3<i64>) -> bool {
        fits(self.x + rhs.x) && fits(self.x + rhs.y) && fits(self.x + rhs.z)
    }

    open spec fn add_spec(self, rhs: vec3<i64>) -> vec3<i64> {
        vec3 { x: (self.x + rhs.x) as i64, y: (self.x + rhs.y) as i64, z: (self.x + rhs.z) as i64 }
    }
}

impl std::ops::Sub<vec3<i64>> for vec3<i64> {
    type Output = vec3<i64>;

    fn sub(self, rhs: vec3<i64>) -> vec3<i64> {
        vec3 { x: self.x - rhs.x, y: self.y - rhs.y, z: self.z - rhs.z }
    }
}

impl vstd::std_specs::ops::SubSpecImpl<vec3<i64>> for vec3<i64> {
    open spec fn obeys_sub_spec() -> bool {
        true
    }

    open spec fn sub_req(self, rhs: vec3<i64>) -> bool {
        fits(self.x - rhs.x) && fits(self.y - rhs.y) && fits(self.z - rhs.z)
    }

    open spec fn sub_spec(self, rhs: vec3<i64>) -> vec3<i64> {
        vec3 { x: (self.x - rhs.x) as i64, y: (self.y - rhs.y) as i64, z: (self.z - rhs.z) as i64 }
    }
}

impl std::ops::Sub<i64> for vec3<i64> {
    type Output = vec3<i64>;

    fn sub(self, rhs: i64) -> vec3<i64> {
        vec3 { x: self.x - rhs, y: self.y - rhs, z: self.z - rhs }
    }
}

impl vstd::std_specs::ops::SubSpecImpl<i64> for vec3<i64> {
    open spec fn obeys_sub_spec() -> bool {
        true
    }

    open spec fn sub_req(self, rhs: i64) -> bool {
        fits(self.x - rhs) && fits(self.y - rhs) && fits(self.z - rhs)
    }

    open spec fn sub_spec(self, rhs: i64) -> vec3<i64> {
        vec3 { x: (self.x - rhs) as i64, y: (self.y - rhs) as i64, z: (self.z - rhs) as i64 }
    }
}

impl std::ops::Sub<vec1<i64>> for vec3<i64> {
    type Output = vec3<i64>;

    fn sub(self, rhs: vec1<i64>) -> vec3<i64> {
        vec3 { x: self.x - rhs.x, y: self.y - rhs.x, z: self.z - rhs.x }
    }
}

impl vstd::std_specs::ops::SubSpecImpl<vec1<i64>> for vec3<i64> {
    open spec fn obeys_sub_spec() -> bool {
        true
    }

    open spec fn sub_req(self, rhs: vec1<i64>) -> bool {
        fits(self.x - rhs.x) && fits(self.y - rhs.x) && fits(self.z - rhs.x)
    }

    open spec fn sub_spec(self, rhs: vec1<i64>) -> vec3<i64> {
        vec3 { x: (self.x - rhs.x) as i64, y: (self.y - rhs.x) as i64, z: (self.z - rhs.x) as i64 }
    }
}

impl std::ops::Sub<vec3<i64>> for i64 {
    type Output = vec3<i64>;

    fn sub(self, rhs: vec3<i64>) -> vec3<i64> {
        vec3 { x: self - rhs.x, y: self - rhs.y, z: self - rhs.z }
    }
}

impl vstd::std_specs::ops::SubSpecImpl<vec3<i64>> for i64 {
    open spec fn obeys_sub_spec() -> bool {
        true
    }

    open spec fn sub_req(self, rhs: vec3<i64>) -> bool {
        fits(self - rhs.x) && fits(self - rhs.y) && fits(self - rhs.z)
    }

    open spec fn sub_spec(self, rhs: vec3<i64>) -> vec3<i64> {
        vec3 { x: (self - rhs.x) as i64, y: (self - rhs.y) as i64, z: (self - rhs.z) as i64 }
    }
}

impl std::ops::Sub<vec3<i64>> for vec1<i64> {
    type Output = vec3<i64>;

    fn sub(self, rhs: vec3<i64>) -> vec3<i64> {
        vec3 { x: self.x - rhs.x, y: self.x - rhs.y, z: self.x - rhs.z }
    }
}

impl vstd::std_specs::ops::SubSpecImpl<vec3<i64>> for vec1<i64> {
    open spec fn obeys_sub_spec() -> bool {
        true
    }

    open spec fn sub_req(self, rhs: vec3<i64>) -> bool {
        fits(self.x - rhs.x) && fits(self.x - rhs.y) && fits(self.x - rhs.z)
    }

    open spec fn sub_spec(self, rhs: vec3<i64>) -> vec3<i64> {
        vec3 { x: (self.x - rhs.x) as i64, y: (self.x - rhs.y) as i64, z: (self.x - rhs.z) as i64 }
    }
}

impl std::ops::Mul<vec3<i64>> for vec3<i64> {
    type Output = vec3<i64>;

    fn mul(self, rhs: vec3<i64>) -> vec3<i64> {
        vec3 { x: self.x * rhs.x, y: self.y * rhs.y, z: self.z * rhs.z }
    }
}

impl vstd::std_specs::ops::MulSpecImpl<vec3<i64>> for vec3<i64> {
    open spec fn obeys_mul_spec() -> bool {
        true
    }

    open spec fn mul_req(self, rhs: vec3<i64>) -> bool {
        fits(self.x * rhs.x) && fits(self.y * rhs.y) && fits(self.z * rhs.z)
    }

    open spec fn mul_spec(self, rhs: vec3<i64>) -> vec3<i64> {
        vec3 { x: (self.x * rhs.x) as i64, y: (self.y * rhs.y) as i64, z: (self.z * rhs.z) as i64 }
    }
}

impl std::ops::Mul<i64> for vec3<i64> {
    type Output = vec3<i64>;

    fn mul(self, rhs: i64) -> vec3<i64> {
        vec3 { x: self.x * rhs, y: self.y * rhs, z: self.z * rhs }
    }
}

impl vstd::std_specs::ops::MulSpecImpl<i64> for vec3<i64> {
    open spec fn obeys_mul_spec() -> bool {
        true
    }

    open spec fn mul_req(self, rhs: i64) -> bool {
        fits(self.x * rhs) && fits(self.y * rhs) && fits(self.z * rhs)
    }

    open spec fn mul_spec(self, rhs: i64) -> vec3<i64> {
        vec3 { x: (self.x * rhs) as i64, y: (self.y * rhs) as i64, z: (self.z * rhs) as i64 }
    }
}

impl std::ops::Mul<vec1<i64>> for vec3<i64> {
    type Output = vec3<i64>;

    fn mul(self, rhs: vec1<i64>) -> vec3<i64> {
        vec3 { x: self.x * rhs.x, y: self.y * rhs.x, z: self.z * rhs.x }
    }
}

impl vstd::std_specs::ops::MulSpecImpl<vec1<i64>> for vec3<i64> {
    open spec fn obeys_mul_spec() -> bool {
        true
    }

    open spec fn mul_req(self, rhs: vec1<i64>) -> bool {
        fits(self.x * rhs.x) && fits(self.y * rhs.x) && fits(self.z * rhs.x)
    }

    open spec fn mul_spec(self, rhs: vec1<i64>) -> vec3<i64> {
        vec3 { x: (self.x * rhs.x) as i64, y: (self.y * rhs.x) as i64, z: (self.z * rhs.x) as i64 }
    }
}

impl std::ops::Mul<vec3<i64>> for i64 {
    type Output = vec3<i64>;

    fn mul(self, rhs: vec3<i64>) -> vec3<i64> {
        vec3 { x: self * rhs.x, y: self * rhs.y, z: self * rhs.z }
    }
}

impl vstd::std_specs::ops::MulSpecImpl<vec3<i64>> for i64 {
    open spec fn obeys_mul_spec() -> bool {
        true
    }

    open spec fn mul_req(self, rhs: vec3<i64>) -> bool {
        fits(self * rhs.x) && fits(self * rhs.y) && fits(self * rhs.z)
    }

    open spec fn mul_spec(self, rhs: vec3<i64>) -> vec3<i64> {
        vec3 { x: (self * rhs.x) as i64, y: (self * rhs.y) as i64, z: (self * rhs.z) as i64 }
    }
}

impl std::ops::Mul<vec3<i64>> for vec1<i64> {
    type Output = vec3<i64>;

    fn mul(self, rhs: vec3<i64>) -> vec3<i64> {
        vec3 { x: self.x * rhs.x, y: self.x * rhs.y, z: self.x * rhs.z }
    }
}

impl vstd::std_specs::ops::MulSpecImpl<vec3<i64>> for vec1<i64> {
    open spec fn obeys_mul_spec() -> bool {
        true
    }

    open spec fn mul_req(self, rhs: vec3<i64>) -> bool {
        fits(self.x * rhs.x) && fits(self.x * rhs.y) && fits(self.x * rhs.z)
    }

    open spec fn mul_spec(self, rhs: vec3<i64>) -> vec3<i64> {
        vec3 { x: (self.x * rhs.x) as i64, y: (self.x * rhs.y) as i64, z: (self.x * rhs.z) as i64 }
    }
}

impl std::ops::Div<vec3<i64>> for vec3<i64> {
    type Output = vec3<i64>;

    fn div(self, rhs: vec3<i64>) -> vec3<i64> {
        vec3 { x: div_i64(self.x, rhs.x), y: div_i64(self.y, rhs.y), z: div_i64(self.z, rhs.z) }
    }
}

impl vstd::std_specs::ops::DivSpecImpl<vec3<i64>> for vec3<i64> {
    open spec fn obeys_div_spec() -> bool {
        true
    }

    open spec fn div_req(self, rhs: vec3<i64>) -> bool {
        div_ok(self.x, rhs.x) && div_ok(self.y, rhs.y) && div_ok(self.z, rhs.z)
    }

    open spec fn div_spec(self, rhs: vec3<i64>) -> vec3<i64> {
        vec3 { x: quot(self.x as int, rhs.x as int) as i64, y: quot(self.y as int, rhs.y as int) as i64, z: quot(self.z as int, rhs.z as int) as i64 }
    }
}

impl std::ops::Div<i64> for vec3<i64> {
    type Output = vec3<i64>;

    fn div(self, rhs: i64) -> vec3<i64> {
        vec3 { x: div_i64(self.x, rhs), y: div_i64(self.y, rhs), z: div_i64(self.z, rhs) }
    }
}

impl vstd::std_specs::ops::DivSpecImpl<i64> for vec3<i64> {
    open spec fn obeys_div_spec() -> bool {
        true
    }

    open spec fn div_req(self, rhs: i64) -> bool {
        div_ok(self.x, rhs) && div_ok(self.y, rhs) && div_ok(self.z, rhs)
    }

    open spec fn div_spec(self, rhs: i64) -> vec3<i64> {
        vec3 { x: quot(self.x as int, rhs as int) as i64, y: quot(self.y as int, rhs as int) as i64, z: quot(self.z as int, rhs as int) as i64 }
    }
}

impl std::ops::Div<vec1<i64>> for vec3<i64> {
    type Output = vec3<i64>;

    fn div(self, rhs: vec1<i64>) -> vec3<i64> {
        vec3 { x: div_i64(self.x, rhs.x), y: div_i64(self.y, rhs.x), z: div_i64(self.z, rhs.x) }
    }
}

impl vstd::std_specs::ops::DivSpecImpl<vec1<i64>> for vec3<i64> {
    open spec fn obeys_div_spec() -> bool {
        true
    }

    open spec fn div_req(self, rhs: vec1<i64>) -> bool {
        div_ok(self.x, rhs.x) && div_ok(self.y, rhs.x) && div_ok(self.z, rhs.x)
    }

    open spec fn div_spec(self, rhs: vec1<i64>) -> vec3<i64> {
        vec3 { x: quot(self.x as int, rhs.x as int) as i64, y: quot(self.y as int, rhs.x as int) as i64, z: quot(self.z as int, rhs.x as int) as i64 }
    }
}

impl std::ops::Div<vec3<i64>> for i64 {
    type Output = vec3<i64>;

    fn div(self, rhs: vec3<i64>) -> vec3<i64> {
        vec3 { x: div_i64(self, rhs.x), y: div_i64(self, rhs.y), z: div_i64(self, rhs.z) }
    }
}

impl vstd::std_specs::ops::DivSpecImpl<vec3<i64>> for i64 {
    open spec fn obeys_div_spec() -> bool {
        true
    }

    open spec fn div_req(self, rhs: vec3<i64>) -> bool {
        div_ok(self, rhs.x) && div_ok(self, rhs.y) && div_ok(self, rhs.z)
    }

    open spec fn div_spec(self, rhs: vec3<i64>) -> vec3<i64> {
        vec3 { x: quot(self as int, rhs.x as int) as i64, y: quot(self as int, rhs.y as int) as i64, z: quot(self as int, rhs.z as int) as i64 }
    }
}

impl std::ops::Div<vec3<i64>> for vec1<i64> {
    type Output = vec3<i64>;

    fn div(self, rhs: vec3<i64>) -> vec3<i64> {
        vec3 { x: div_i64(self.x, rhs.x), y: div_i64(self.x, rhs.y), z: div_i64(self.x, rhs.z) }
    }
}

impl vstd::std_specs::ops::DivSpecImpl<vec3<i64>> for vec1<i64> {
    open spec fn obeys_div_spec() -> bool {
        true
    }

    open spec fn div_req(self, rhs: vec3<i64>) -> bool {
        div_ok(self.x, rhs.x) && div_ok(self.x, rhs.y) && div_ok(self.x, rhs.z)
    }

    open spec fn div_spec(self, rhs: vec3<i64>) -> vec3<i64> {
        vec3 { x: quot(self.x as int, rhs.x as int) as i64, y: quot(self.x as int, rhs.y as int) as i64, z: quot(self.x as int, rhs.z as int) as i64 }
    }
}

impl std::ops::Rem<vec3<i64>> for vec3<i64> {
    type Output = vec3<i64>;

    fn rem(self, rhs: vec3<i64>) -> vec3<i64> {
        vec3 { x: rem_i64(self.x, rhs.x), y: rem_i64(self.y, rhs.y), z: rem_i64(self.z, rhs.z) }
    }
}

impl vstd::std_specs::ops::RemSpecImpl<vec3<i64>> for vec3<i64> {
    open spec fn obeys_rem_spec() -> bool {
        true
    }

    open spec fn rem_req(self, rhs: vec3<i64>) -> bool {
        div_ok(self.x, rhs.x) && div_ok(self.y, rhs.y) && div_ok(self.z, rhs.z)
    }

    open spec fn rem_spec(self, rhs: vec3<i64>) -> vec3<i64> {
        vec3 { x: rem(self.x as int, rhs.x as int) as i64, y: rem(self.y as int, rhs.y as int) as i64, z: rem(self.z as int, rhs.z as int) as i64 }
    }
}

impl std::ops::Rem<i64> for vec3<i64> {
    type Output = vec3<i64>;

    fn rem(self, rhs: i64) -> vec3<i64> {
        vec3 { x: rem_i64(self.x, rhs), y: rem_i64(self.y, rhs), z: rem_i64(self.z, rhs) }
    }
}

impl vstd::std_specs::ops::RemSpecImpl<i64> for vec3<i64> {
    open spec fn obeys_rem_spec() -> bool {
        true
    }

    open spec fn rem_req(self, rhs: i64) -> bool {
        div_ok(self.x, rhs) && div_ok(self.y, rhs) && div_ok(self.z, rhs)
    }

    open spec fn rem_spec(self, rhs: i64) -> vec3<i64> {
        vec3 { x: rem(self.x as int, rhs as int) as i64, y: rem(self.y as int, rhs as int) as i64, z: rem(self.z as int, rhs as int) as i64 }
    }
}

impl std::ops::Rem<vec1<i64>> for vec3<i64> {
    type Output = vec3<i64>;

    fn rem(self, rhs: vec1<i64>) -> vec3<i64> {
        vec3 { x: rem_i64(self.x, rhs.x), y: rem_i64(self.y, rhs.x), z: rem_i64(self.z, rhs.x) }
    }
}

impl vstd::std_specs::ops::RemSpecImpl<vec1<i64>> for vec3<i64> {
    open spec fn obeys_rem_spec() -> bool {
        true
    }

    open spec fn rem_req(self, rhs: vec1<i64>) -> bool {
        div_ok(self.x, rhs.x) && div_ok(self.y, rhs.x) && div_ok(self.z, rhs.x)
    }

    open spec fn rem_spec(self, rhs: vec1<i64>) -> vec3<i64> {
        vec3 { x: rem(self.x as int, rhs.x as int) as i64, y: rem(self.y as int, rhs.x as int) as i64, z: rem(self.z as int, rhs.x as int) as i64 }
    }
}

impl std::ops::Rem<vec3<i64>> for i64 {
    type Output = vec3<i64>;

    fn rem(self, rhs: vec3<i64>) -> vec3<i64> {
        vec3 { x: rem_i64(self, rhs.x), y: rem_i64(self, rhs.y), z: rem_i64(self, rhs.z) }
    }
}

impl vstd::std_specs::ops::RemSpecImpl<vec3<i64>> for i64 {
    open spec fn obeys_rem_spec() -> bool {
        true
    }

    open spec fn rem_req(self, rhs: vec3<i64>) -> bool {
        div_ok(self, rhs.x) && div_ok(self, rhs.y) && div_ok(self, rhs.z)
    }

    open spec fn rem_spec(self, rhs: vec3<i64>) -> vec3<i64> {
        vec3 { x: rem(self as int, rhs.x as int) as i64, y: rem(self as int, rhs.y as int) as i64, z: rem(self as int, rhs.z as int) as i64 }
    }
}

impl std::ops::Rem<vec3<i64>> for vec1<i64> {
    type Output = vec3<i64>;

    fn rem(self, rhs: vec3<i64>) -> vec3<i64> {
        vec3 { x: rem_i64(self.x, rhs.x), y: rem_i64(self.x, rhs.y), z: rem_i64(self.x, rhs.z) }
    }
}

impl vstd::std_specs::ops::RemSpecImpl<vec3<i64>> for vec1<i64> {
    open spec fn obeys_rem_spec() -> bool {
        true
    }

    open spec fn rem_req(self, rhs: vec3<i64>) -> bool {
        div_ok(self.x, rhs.x) && div_ok(self.x, rhs.y) && div_ok(self.x, rhs.z)
    }

    open spec fn rem_spec(self, rhs: vec3<i64>) -> vec3<i64> {
        vec3 { x: rem(self.x as int, rhs.x as int) as i64, y: rem(self.x as int, rhs.y as int) as i64, z: rem(self.x as int, rhs.z as int) as i64 }
    }
}

impl std::ops::BitAnd<vec3<i64>> for vec3<i64> {
    type Output = vec3<i64>;

    fn bitand(self, rhs: vec3<i64>) -> vec3<i64> {
        vec3 { x: self.x & rhs.x, y: self.y & rhs.y, z: self.z & rhs.z }
    }
}

impl vstd::std_specs::ops::BitAndSpecImpl<vec3<i64>> for vec3<i64> {
    open spec fn obeys_bitand_spec() -> bool {
        true
    }

    open spec fn bitand_req(self, rhs: vec3<i64>) -> bool {
        true
    }

    open spec fn bitand_spec(self, rhs: vec3<i64>) -> vec3<i64> {
        vec3 { x: self.x & rhs.x, y: self.y & rhs.y, z: self.z & rhs.z }
    }
}

impl std::ops::BitAnd<i64> for vec3<i64> {
    type Output = vec3<i64>;

    fn bitand(self, rhs: i64) -> vec3<i64> {
        vec3 { x: self.x & rhs, y: self.y & rhs, z: self.z & rhs }
    }
}

impl vstd::std_specs::ops::BitAndSpecImpl<i64> for vec3<i64> {
    open spec fn obeys_bitand_spec() -> bool {
        true
    }

    open spec fn bitand_req(self, rhs: i64) -> bool {
        true
    }

    open spec fn bitand_spec(self, rhs: i64) -> vec3<i64> {
        vec3 { x: self.x & rhs, y: self.y & rhs, z: self.z & rhs }
    }
}

impl std::ops::BitAnd<vec1<i64>> for vec3<i64> {
    type Output = vec3<i64>;

    fn bitand(self, rhs: vec1<i64>) -> vec3<i64> {
        vec3 { x: self.x & rhs.x, y: self.y & rhs.x, z: self.z & rhs.x }
    }
}

impl vstd::std_specs::ops::BitAndSpecImpl<vec1<i64>> for vec3<i64> {
    open spec fn obeys_bitand_spec() -> bool {
        true
    }

    open spec fn bitand_req(self, rhs: vec1<i64>) -> bool {
        true
    }

    open spec fn bitand_spec(self, rhs: vec1<i64>) -> vec3<i64> {
        vec3 { x: self.x & rhs.x, y: self.y & rhs.x, z: self.z & rhs.x }
    }
}

impl std::ops::BitAnd<vec3<i64>> for i64 {
    type Output = vec3<i64>;

    fn bitand(self, rhs: vec3<i64>) -> vec3<i64> {
        vec3 { x: self & rhs.x, y: self & rhs.y, z: self & rhs.z }
    }
}

impl vstd::std_specs::ops::BitAndSpecImpl<vec3<i64>> for i64 {
    open spec fn obeys_bitand_spec() -> bool {
        true
    }

    open spec fn bitand_req(self, rhs: vec3<i64>) -> bool {
        true
    }

    open spec fn bitand_spec(self, rhs: vec3<i64>) -> vec3<i64> {
        vec3 { x: self & rhs.x, y: self & rhs.y, z: self & rhs.z }
    }
}

impl std::ops::BitAnd<vec3<i64>> for vec1<i64> {
    type Output = vec3<i64>;

    fn bitand(self, rhs: vec3<i64>) -> vec3<i64> {
        vec3 { x: self.x & rhs.x, y: self.x & rhs.y, z: self.x & rhs.z }
    }
}

impl vstd::std_specs::ops::BitAndSpecImpl<vec3<i64>> for vec1<i64> {
    open spec fn obeys_bitand_spec() -> bool {
        true
    }

    open spec fn bitand_req(self, rhs: vec3<i64>) -> bool {
        true
    }

    open spec fn bitand_spec(self, rhs: vec3<i64>) -> vec3<i64> {
        vec3 { x: self.x & rhs.x, y: self.x & rhs.y, z: self.x & rhs.z }
    }
}

impl std::ops::BitOr<vec3<i64>> for vec3<i64> {
    type Output = vec3<i64>;

    fn bitor(self, rhs: vec3<i64>) -> vec3<i64> {
        vec3 { x: self.x | rhs.x, y: self.y | rhs.y, z: self.z | rhs.z }
    }
}

impl vstd::std_specs::ops::BitOrSpecImpl<vec3<i64>> for vec3<i64> {
    open spec fn obeys_bitor_spec() -> bool {
        true
    }

    open spec fn bitor_req(self, rhs: vec3<i64>) -> bool {
        true
    }

    open spec fn bitor_spec(self, rhs: vec3<i64>) -> vec3<i64> {
        vec3 { x: self.x | rhs.x, y: self.y | rhs.y, z: self.z | rhs.z }
    }
}

impl std::ops::BitOr<i64> for vec3<i64> {
    type Output = vec3<i64>;

    fn bitor(self, rhs: i64) -> vec3<i64> {
        vec3 { x: self.x | rhs, y: self.y | rhs, z: self.z | rhs }
    }
}

impl vstd::std_specs::ops::BitOrSpecImpl<i64> for vec3<i64> {
    open spec fn obeys_bitor_spec() -> bool {
        true
    }

    open spec fn bitor_req(self, rhs: i64) -> bool {
        true
    }

    open spec fn bitor_spec(self, rhs: i64) -> vec3<i64> {
        vec3 { x: self.x | rhs, y: self.y | rhs, z: self.z | rhs }
    }
}

impl std::ops::BitOr<vec1<i64>> for vec3<i64> {
    type Output = vec3<i64>;

    fn bitor(self, rhs: vec1<i64>) -> vec3<i64> {
        vec3 { x: self.x | rhs.x, y: self.y | rhs.x, z: self.z | rhs.x }
    }
}

impl vstd::std_specs::ops::BitOrSpecImpl<vec1<i64>> for vec3<i64> {
    open spec fn obeys_bitor_spec() -> bool {
        true
    }

    open spec fn bitor_req(self, rhs: vec1<i64>) -> bool {
        true
    }

    open spec fn bitor_spec(self, rhs: vec1<i64>) -> vec3<i64> {
        vec3 { x: self.x | rhs.x, y: self.y | rhs.x, z: self.z | rhs.x }
    }
}

impl std::ops::BitOr<vec3<i64>> for i64 {
    type Output = vec3<i64>;

    fn bitor(self, rhs: vec3<i64>) -> vec3<i64> {
        vec3 { x: self | rhs.x, y: self | rhs.y, z: self | rhs.z }
    }
}

impl vstd::std_specs::ops::BitOrSpecImpl<vec3<i64>> for i64 {
    open spec fn obeys_bitor_spec() -> bool {
        true
    }

    open spec fn bitor_req(self, rhs: vec3<i64>) -> bool {
        true
    }

    open spec fn bitor_spec(self, rhs: vec3<i64>) -> vec3<i64> {
        vec3 { x: self | rhs.x, y: self | rhs.y, z: self | rhs.z }
    }
}

impl std::ops::BitOr<vec3<i64>> for vec1<i64> {
    type Output = vec3<i64>;

    fn bitor(self, rhs: vec3<i64>) -> vec3<i64> {
        vec3 { x: self.x | rhs.x, y: self.x | rhs.y, z: self.x | rhs.z }
    }
}

impl vstd::std_specs::ops::BitOrSpecImpl<vec3<i64>> for vec1<i64> {
    open spec fn obeys_bitor_spec() -> bool {
        true
    }

    open spec fn bitor_req(self, rhs: vec3<i64>) -> bool {
        true
    }

    open spec fn bitor_spec(self, rhs: vec3<i64>) -> vec3<i64> {
        vec3 { x: self.x | rhs.x, y: self.x | rhs.y, z: self.x | rhs.z }
    }
}

impl std::ops::BitXor<vec3<i64>> for vec3<i64> {
    type Output = vec3<i64>;

    fn bitxor(self, rhs: vec3<i64>) -> vec3<i64> {
        vec3 { x: self.x ^ rhs.x, y: self.y ^ rhs.y, z: self.z ^ rhs.z }
    }
}

impl vstd::std_specs::ops::BitXorSpecImpl<vec3<i64>> for vec3<i64> {
    open spec fn obeys_bitxor_spec() -> bool {
        true
    }

    open spec fn bitxor_req(self, rhs: vec3<i64>) -> bool {
        true
    }

    open spec fn bitxor_spec(self, rhs: vec3<i64>) -> vec3<i64> {
        vec3 { x: self.x ^ rhs.x, y: self.y ^ rhs.y, z: self.z ^ rhs.z }
    }
}

impl std::ops::BitXor<i64> for vec3<i64> {
    type Output = vec3<i64>;

    fn bitxor(self, rhs: i64) -> vec3<i64> {
        vec3 { x: self.x ^ rhs, y: self.y ^ rhs, z: self.z ^ rhs }
    }
}

impl vstd::std_specs::ops::BitXorSpecImpl<i64> for vec3<i64> {
    open spec fn obeys_bitxor_spec() -> bool {
        true
    }

    open spec fn bitxor_req(self, rhs: i64) -> bool {
        true
    }

    open spec fn bitxor_spec(self, rhs: i64) -> vec3<i64> {
        vec3 { x: self.x ^ rhs, y: self.y ^ rhs, z: self.z ^ rhs }
    }
}

impl std::ops::BitXor<vec1<i64>> for vec3<i64> {
    type Output = vec3<i64>;

    fn bitxor(self, rhs: vec1<i64>) -> vec3<i64> {
        vec3 { x: self.x ^ rhs.x, y: self.y ^ rhs.x, z: self.z ^ rhs.x }
    }
}

impl vstd::std_specs::ops::BitXorSpecImpl<vec1<i64>> for vec3<i64> {
    open spec fn obeys_bitxor_spec() -> bool {
        true
    }

    open spec fn bitxor_req(self, rhs: vec1<i64>) -> bool {
        true
    }

    open spec fn bitxor_spec(self, rhs: vec1<i64>) -> vec3<i64> {
        vec3 { x: self.x ^ rhs.x, y: self.y ^ rhs.x, z: self.z ^ rhs.x }
    }
}

impl std::ops::BitXor<vec3<i64>> for i64 {
    type Output = vec3<i64>;

    fn bitxor(self, rhs: vec3<i64>) -> vec3<i64> {
        vec3 { x: self ^ rhs.x, y: self ^ rhs.y, z: self ^ rhs.z }
    }
}

impl vstd::std_specs::ops::BitXorSpecImpl<vec3<i64>> for i64 {
    open spec fn obeys_bitxor_spec() -> bool {
        true
    }

    open spec fn bitxor_req(self, rhs: vec3<i64>) -> bool {
        true
    }

    open spec fn bitxor_spec(self, rhs: vec3<i64>) -> vec3<i64> {
        vec3 { x: self ^ rhs.x, y: self ^ rhs.y, z: self ^ rhs.z }
    }
}

impl std::ops::BitXor<vec3<i64>> for vec1<i64> {
    type Output = vec3<i64>;

    fn bitxor(self, rhs: vec3<i64>) -> vec3<i64> {
        vec3 { x: self.x ^ rhs.x, y: self.x ^ rhs.y, z: self.x ^ rhs.z }
    }
}

impl vstd::std_specs::ops::BitXorSpecImpl<vec3<i64>> for vec1<i64> {
    open spec fn obeys_bitxor_spec() -> bool {
        true
    }

    open spec fn bitxor_req(self, rhs: vec3<i64>) -> bool {
        true
    }

    open spec fn bitxor_spec(self, rhs: vec3<i64>) -> vec3<i64> {
        vec3 { x: self.x ^ rhs.x, y: self.x ^ rhs.y, z: self.x ^ rhs.z }
    }
}

impl std::ops::Shl<vec3<u32>> for vec3<i64> {
    type Output = vec3<i64>;

    fn shl(self, rhs: vec3<u32>) -> vec3<i64> {
        vec3 { x: self.x << rhs.x, y: self.y << rhs.y, z: self.z << rhs.z }
    }
}

impl vstd::std_specs::ops::ShlSpecImpl<vec3<u32>> for vec3<i64> {
    open spec fn obeys_shl_spec() -> bool {
        true
    }

    open spec fn shl_req(self, rhs: vec3<u32>) -> bool {
        rhs.x < 64 && rhs.y < 64 && rhs.z < 64
    }

    open spec fn shl_spec(self, rhs: vec3<u32>) -> vec3<i64> {
        vec3 { x: self.x << rhs.x, y: self.y << rhs.y, z: self.z << rhs.z }
    }
}

impl std::ops::Shl<u32> for vec3<i64> {
    type Output = vec3<i64>;

    fn shl(self, rhs: u32) -> vec3<i64> {
        vec3 { x: self.x << rhs, y: self.y << rhs, z: self.z << rhs }
    }
}

impl vstd::std_specs::ops::ShlSpecImpl<u32> for vec3<i64> {
    open spec fn obeys_shl_spec() -> bool {
        true
    }

    open spec fn shl_req(self, rhs: u32) -> bool {
        rhs < 64 && rhs < 64 && rhs < 64
    }

    open spec fn shl_spec(self, rhs: u32) -> vec3<i64> {
        vec3 { x: self.x << rhs, y: self.y << rhs, z: self.z << rhs }
    }
}

impl std::ops::Shl<vec1<u32>> for vec3<i64> {
    type Output = vec3<i64>;

    fn shl(self, rhs: vec1<u32>) -> vec3<i64> {
        vec3 { x: self.x << rhs.x, y: self.y << rhs.x, z: self.z << rhs.x }
    }
}

impl vstd::std_specs::ops::ShlSpecImpl<vec1<u32>> for vec3<i64> {
    open spec fn obeys_shl_spec() -> bool {
        true
    }

    open spec fn shl_req(self, rhs: vec1<u32>) -> bool {
        rhs.x < 64 && rhs.x < 64 && rhs.x < 64
    }

    open spec fn shl_spec(self, rhs: vec1<u32>) -> vec3<i64> {
        vec3 { x: self.x << rhs.x, y: self.y << rhs.x, z: self.z << rhs.x }
    }
}

impl std::ops::Shl<vec3<u32>> for i64 {
    type Output = vec3<i64>;

    fn shl(self, rhs: vec3<u32>) -> vec3<i64> {
        vec3 { x: self << rhs.x, y: self << rhs.y, z: self << rhs.z }
    }
}

impl vstd::std_specs::ops::ShlSpecImpl<vec3<u32>> for i64 {
    open spec fn obeys_shl_spec() -> bool {
        true
    }

    open spec fn shl_req(self, rhs: vec3<u32>) -> bool {
        rhs.x < 64 && rhs.y < 64 && rhs.z < 64
    }

    open spec fn shl_spec(self, rhs: vec3<u32>) -> vec3<i64> {
        vec3 { x: self << rhs.x, y: self << rhs.y, z: self << rhs.z }
    }
}

impl std::ops::Shl<vec3<u32>> for vec1<i64> {
    type Output = vec3<i64>;

    fn shl(self, rhs: vec3<u32>) -> vec3<i64> {
        vec3 { x: self.x << rhs.x, y: self.x << rhs.y, z: self.x << rhs.z }
    }
}

impl vstd::std_specs::ops::ShlSpecImpl<vec3<u32>> for vec1<i64> {
    open spec fn obeys_shl_spec() -> bool {
        true
    }

    open spec fn shl_req(self, rhs: vec3<u32>) -> bool {
        rhs.x < 64 && rhs.y < 64 && rhs.z < 64
    }

    open spec fn shl_spec(self, rhs: vec3<u32>) -> vec3<i64> {
        vec3 { x: self.x << rhs.x, y: self.x << rhs.y, z: self.x << rhs.z }
    }
}

impl std::ops::Shr<vec3<u32>> for vec3<i64> {
    type Output = vec3<i64>;

    fn shr(self, rhs: vec3<u32>) -> vec3<i64> {
        vec3 { x: self.x >> rhs.x, y: self.y >> rhs.y, z: self.z >> rhs.z }
    }
}

impl vstd::std_specs::ops::ShrSpecImpl<vec3<u32>> for vec3<i64> {
    open spec fn obeys_shr_spec() -> bool {
        true
    }

    open spec fn shr_req(self, rhs: vec3<u32>) -> bool {
        rhs.x < 64 && rhs.y < 64 && rhs.z < 64
    }

    open spec fn shr_spec(self, rhs: vec3<u32>) -> vec3<i64> {
        vec3 { x: self.x >> rhs.x, y: self.y >> rhs.y, z: self.z >> rhs.z }
    }
}

impl std::ops::Shr<u32> for vec3<i64> {
    type Output = vec3<i64>;

    fn shr(self, rhs: u32) -> vec3<i64> {
        vec3 { x: self.x >> rhs, y: self.y >> rhs, z: self.z >> rhs }
    }
}

impl vstd::std_specs::ops::ShrSpecImpl<u32> for vec3<i64> {
    open spec fn obeys_shr_spec() -> bool {
        true
    }

    open spec fn shr_req(self, rhs: u32) -> bool {
        rhs < 64 && rhs < 64 && rhs < 64
    }

    open spec fn shr_spec(self, rhs: u32) -> vec3<i64> {
        vec3 { x: self.x >> rhs, y: self.y >> rhs, z: self.z >> rhs }
    }
}

impl std::ops::Shr<vec1<u32>> for vec3<i64> {
    type Output = vec3<i64>;

    fn shr(self, rhs: vec1<u32>) -> vec3<i64> {
        vec3 { x: self.x >> rhs.x, y: self.y >> rhs.x, z: self.z >> rhs.x }
    }
}

impl vstd::std_specs::ops::ShrSpecImpl<vec1<u32>> for vec3<i64> {
    open spec fn obeys_shr_spec() -> bool {
        true
    }

    open spec fn shr_req(self, rhs: vec1<u32>) -> bool {
        rhs.x < 64 && rhs.x < 64 && rhs.x < 64
    }

    open spec fn shr_spec(self, rhs: vec1<u32>) -> vec3<i64> {
        vec3 { x: self.x >> rhs.x, y: self.y >> rhs.x, z: self.z >> rhs.x }
    }
}

impl std::ops::Shr<vec3<u32>> for i64 {
    type Output = vec3<i64>;

    fn shr(self, rhs: vec3<u32>) -> vec3<i64> {
        vec3 { x: self >> rhs.x, y: self >> rhs.y, z: self >> rhs.z }
    }
}

impl vstd::std_specs::ops::ShrSpecImpl<vec3<u32>> for i64 {
    open spec fn obeys_shr_spec() -> bool {
        true
    }

    open spec fn shr_req(self, rhs: vec3<u32>) -> bool {
        rhs.x < 64 && rhs.y < 64 && rhs.z < 64
    }

    open spec fn shr_spec(self, rhs: vec3<u32>) -> vec3<i64> {
        vec3 { x: self >> rhs.x, y: self >> rhs.y, z: self >> rhs.z }
    }
}

impl std::ops::Shr<vec3<u32>> for vec1<i64> {
    type Output = vec3<i64>;

    fn shr(self, rhs: vec3<u32>) -> vec3<i64> {
        vec3 { x: self.x >> rhs.x, y: self.x >> rhs.y, z: self.x >> rhs.z }
    }
}

impl vstd::std_specs::ops::ShrSpecImpl<vec3<u32>> for vec1<i64> {
    open spec fn obeys_shr_spec() -> bool {
        true
    }

    open spec fn shr_req(self, rhs: vec3<u32>) -> bool {
        rhs.x < 64 && rhs.y < 64 && rhs.z < 64
    }

    open spec fn shr_spec(self, rhs: vec3<u32>) -> vec3<i64> {
        vec3 { x: self.x >> rhs.x, y: self.x >> rhs.y, z: self.x >> rhs.z }
    }
}

impl vec3<i64> {
    /// `self += rhs`, for every right operand that `+` takes.
    pub fn add_assign<R>(&mut self, rhs: R)
        where
            vec3<i64>: std::ops::Add<R, Output = vec3<i64>>,
        requires
            <vec3<i64> as AddSpec<R>>::obeys_add_spec(),
            old(self).add_req(rhs),
        ensures
            *final(self) == old(self).add_spec(rhs),
    {
        *self = *self + rhs;
    }

    /// `self -= rhs`, for every right operand that `-` takes.
    pub fn sub_assign<R>(&mut self, rhs: R)
        where
            vec3<i64>: std::ops::Sub<R, Output = vec3<i64>>,
        requires
            <vec3<i64> as SubSpec<R>>::obeys_sub_spec(),
            old(self).sub_req(rhs),
        ensures
            *final(self) == old(self).sub_spec(rhs),
    {
        *self = *self - rhs;
    }

    /// `self *= rhs`, for every right operand that `*` takes.
    pub fn mul_assign<R>(&mut self, rhs: R)
        where
            vec3<i64>: std::ops::Mul<R, Output = vec3<i64>>,
        requires
            <vec3<i64> as MulSpec<R>>::obeys_mul_spec(),
            old(self).mul_req(rhs),
        ensures
            *final(self) == old(self).mul_spec(rhs),
    {
        *self = *self * rhs;
    }

    /// `self /= rhs`, for every right operand that `/` takes.
    pub fn div_assign<R>(&mut self, rhs: R)
        where
            vec3<i64>: std::ops::Div<R, Output = vec3<i64>>,
        requires
            <vec3<i64> as DivSpec<R>>::obeys_div_spec(),
            old(self).div_req(rhs),
        ensures
            *final(self) == old(self).div_spec(rhs),
    {
        *self = *self / rhs;
    }

    /// `self %= rhs`, for every right operand that `%` takes.
    pub fn rem_assign<R>(&mut self, rhs: R)
        where
            vec3<i64>: std::ops::Rem<R, Output = vec3<i64>>,
        requires
            <vec3<i64> as RemSpec<R>>::obeys_rem_spec(),
            old(self).rem_req(rhs),
        ensures
            *final(self) == old(self).rem_spec(rhs),
    {
        *self = *self % rhs;
    }

    /// `self &= rhs`, for every right operand that `&` takes.
    pub fn bitand_assign<R>(&mut self, rhs: R)
        where
            vec3<i64>: std::ops::BitAnd<R, Output = vec3<i64>>,
        requires
            <vec3<i64> as BitAndSpec<R>>::obeys_bitand_spec(),
            old(self).bitand_req(rhs),
        ensures
            *final(self) == old(self).bitand_spec(rhs),
    {
        *self = *self & rhs;
    }

    /// `self |= rhs`, for every right operand that `|` takes.
    pub fn bitor_assign<R>(&mut self, rhs: R)
        where
            vec3<i64>: std::ops::BitOr<R, Output = vec3<i64>>,
        requires
            <vec3<i64> as BitOrSpec<R>>::obeys_bitor_spec(),
            old(self).bitor_req(rhs),
        ensures
            *final(self) == old(self).bitor_spec(rhs),
    {
        *self = *self | rhs;
    }

    /// `self ^= rhs`, for every right operand that `^` takes.
    pub fn bitxor_assign<R>(&mut self, rhs: R)
        where
            vec3<i64>: std::ops::BitXor<R, Output = vec3<i64>>,
        requires
            <vec3<i64> as BitXorSpec<R>>::obeys_bitxor_spec(),
            old(self).bitxor_req(rhs),
        ensures
            *final(self) == old(self).bitxor_spec(rhs),
    {
        *self = *self ^ rhs;
    }

    /// `self <<= rhs`, for every right operand that `<<` takes.
    pub fn shl_assign<R>(&mut self, rhs: R)
        where
            vec3<i64>: std::ops::Shl<R, Output = vec3<i64>>,
        requires
            <vec3<i64> as ShlSpec<R>>::obeys_shl_spec(),
            old(self).shl_req(rhs),
        ensures
            *final(self) == old(self).shl_spec(rhs),
    {
        *self = *self << rhs;
    }

    /// `self >>= rhs`, for every right operand that `>>` takes.
    pub fn shr_assign<R>(&mut self, rhs: R)
        where
            vec3<i64>: std::ops::Shr<R, Output = vec3<i64>>,
        requires
            <vec3<i64> as ShrSpec<R>>::obeys_shr_spec(),
            old(self).shr_req(rhs),
        ensures
            *final(self) == old(self).shr_spec(rhs),
    {
        *self = *self >> rhs;
    }
}

/// Combining a vector with a scalar or a one-component vector, on either side, is
/// combining it with the vector that repeats that value in every component:
/// the same result, under the same condition, for `+`, `-`, `*`, `/` and `%`.
pub proof fn broadcast_is_filled(v: vec3<i64>, s: i64, w: vec1<i64>)
    ensures
        AddSpec::add_req(v, s) == AddSpec::add_req(v, vec3::filled(s)),
        AddSpec::add_spec(v, s) == AddSpec::add_spec(v, vec3::filled(s)),
        AddSpec::add_req(s, v) == AddSpec::add_req(vec3::filled(s), v),
        AddSpec::add_spec(s, v) == AddSpec::add_spec(vec3::filled(s), v),
        AddSpec::add_req(v, w) == AddSpec::add_req(v, vec3::filled(w.x)),
        AddSpec::add_spec(v, w) == AddSpec::add_spec(v, vec3::filled(w.x)),
        AddSpec::add_req(w, v) == AddSpec::add_req(vec3::filled(w.x), v),
        AddSpec::add_spec(w, v) == AddSpec::add_spec(vec3::filled(w.x), v),
        SubSpec::sub_req(v, s) == SubSpec::sub_req(v, vec3::filled(s)),
        SubSpec::sub_spec(v, s) == SubSpec::sub_spec(v, vec3::filled(s)),
        SubSpec::sub_req(s, v) == SubSpec::sub_req(vec3::filled(s), v),
        SubSpec::sub_spec(s, v) == SubSpec::sub_spec(vec3::filled(s), v),
        SubSpec::sub_req(v, w) == SubSpec::sub_req(v, vec3::filled(w.x)),
        SubSpec::sub_spec(v, w) == SubSpec::sub_spec(v, vec3::filled(w.x)),
        SubSpec::sub_req(w, v) == SubSpec::sub_req(vec3::filled(w.x), v),
        SubSpec::sub_spec(w, v) == SubSpec::sub_spec(vec3::filled(w.x), v),
        MulSpec::mul_req(v, s) == MulSpec::mul_req(v, vec3::filled(s)),
        MulSpec::mul_spec(v, s) == MulSpec::mul_spec(v, vec3::filled(s)),
        MulSpec::mul_req(s, v) == MulSpec::mul_req(vec3::filled(s), v),
        MulSpec::mul_spec(s, v) == MulSpec::mul_spec(vec3::filled(s), v),
        MulSpec::mul_req(v, w) == MulSpec::mul_req(v, vec3::filled(w.x)),
        MulSpec::mul_spec(v, w) == MulSpec::mul_spec(v, vec3::filled(w.x)),
        MulSpec::mul_req(w, v) == MulSpec::mul_req(vec3::filled(w.x), v),
        MulSpec::mul_spec(w, v) == MulSpec::mul_spec(vec3::filled(w.x), v),
        DivSpec::div_req(v, s) == DivSpec::div_req(v, vec3::filled(s)),
        DivSpec::div_spec(v, s) == DivSpec::div_spec(v, vec3::filled(s)),
        DivSpec::div_req(s, v) == DivSpec::div_req(vec3::filled(s), v),
        DivSpec::div_spec(s, v) == DivSpec::div_spec(vec3::filled(s), v),
        DivSpec::div_req(v, w) == DivSpec::div_req(v, vec3::filled(w.x)),
        DivSpec::div_spec(v, w) == DivSpec::div_spec(v, vec3::filled(w.x)),
        DivSpec::div_req(w, v) == DivSpec::div_req(vec3::filled(w.x), v),
        DivSpec::div_spec(w, v) == DivSpec::div_spec(vec3::filled(w.x), v),
        RemSpec::rem_req(v, s) == RemSpec::rem_req(v, vec3::filled(s)),
        RemSpec::rem_spec(v, s) == RemSpec::rem_spec(v, vec3::filled(s)),
        RemSpec::rem_req(s, v) == RemSpec::rem_req(vec3::filled(s), v),
        RemSpec::rem_spec(s, v) == RemSpec::rem_spec(vec3::filled(s), v),
        RemSpec::rem_req(v, w) == RemSpec::rem_req(v, vec3::filled(w.x)),
        RemSpec::rem_spec(v, w) == RemSpec::rem_spec(v, vec3::filled(w.x)),
        RemSpec::rem_req(w, v) == RemSpec::rem_req(vec3::filled(w.x), v),
        RemSpec::rem_spec(w, v) == RemSpec::rem_spec(vec3::filled(w.x), v),
{
}

} // verus!
