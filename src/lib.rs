//! Small fixed-size vectors and square matrices over `i64`: component-wise
//! arithmetic with scalar broadcasting, dot products, matrix products,
//! closed-form inversion and an orthographic projection, each with a contract
//! over the integer model in `algebra`.
#![allow(non_camel_case_types)]

// Leaves first: each module uses the operators of those above it.
pub mod algebra;
pub mod scalar;
pub mod type_vec1;
pub mod type_vec2;
pub mod type_vec3;
pub mod type_vec4;
pub mod func_common;
pub mod func_geometric;
pub mod type_mat2x2;
pub mod type_mat3x3;
pub mod type_mat4x4;
pub mod func_matrix;
pub mod matrix_clip_space;

pub use type_mat2x2::mat2;
pub use type_mat3x3::mat3;
pub use type_mat4x4::mat4;
pub use type_vec1::vec1;
pub use type_vec2::vec2;
pub use type_vec3::vec3;
pub use type_vec4::{bvec4, ivec4, uvec4, vec4};
