//! Broadcasting one component of a vector across all of its components.
use vstd::prelude::*;

use crate::type_vec1::vec1;
use crate::type_vec2::vec2;
use crate::type_vec3::vec3;
use crate::type_vec4::vec4;

verus! {

impl<T> vec1<T> {
    /// The vector with every component equal to `x`.
    pub fn splat_x(self) -> (r: Self)
        ensures
            r == Self::filled(self.x),
    {
        vec1 { x: self.x }
    }
}

impl<T: Copy> vec2<T> {
    /// The vector with every component equal to `x`.
    pub fn splat_x(self) -> (r: Self)
        ensures
            r == Self::filled(self.x),
    {
        vec2 { x: self.x, y: self.x }
    }

    /// The vector with every component equal to `y`.
    pub fn splat_y(self) -> (r: Self)
        ensures
            r == Self::filled(self.y),
    {
        vec2 { x: self.y, y: self.y }
    }
}

impl<T: Copy> vec3<T> {
    /// The vector with every component equal to `x`.
    pub fn splat_x(self) -> (r: Self)
        ensures
            r == Self::filled(self.x),
    {
        vec3 { x: self.x, y: self.x, z: self.x }
    }

    /// The vector with every component equal to `y`.
    pub fn splat_y(self) -> (r: Self)
        ensures
            r == Self::filled(self.y),
    {
        vec3 { x: self.y, y: self.y, z: self.y }
    }

    /// The vector with every component equal to `z`.
    pub fn splat_z(self) -> (r: Self)
        ensures
            r == Self::filled(self.z),
    {
        vec3 { x: self.z, y: self.z, z: self.z }
    }
}

impl<T: Copy> vec4<T> {
    /// The vector with every component equal to `x`.
    pub fn splat_x(self) -> (r: Self)
        ensures
            r == Self::filled(self.x),
    {
        vec4 { x: self.x, y: self.x, z: self.x, w: self.x }
    }

    /// The vector with every component equal to `y`.
    pub fn splat_y(self) -> (r: Self)
        ensures
            r == Self::filled(self.y),
    {
        vec4 { x: self.y, y: self.y, z: self.y, w: self.y }
    }

    /// The vector with every component equal to `z`.
    pub fn splat_z(self) -> (r: Self)
        ensures
            r == Self::filled(self.z),
    {
        vec4 { x: self.z, y: self.z, z: self.z, w: self.z }
    }

    /// The vector with every component equal to `w`.
    pub fn splat_w(self) -> (r: Self)
        ensures
            r == Self::filled(self.w),
    {
        vec4 { x: self.w, y: self.w, z: self.w, w: self.w }
    }
}

} // verus!
