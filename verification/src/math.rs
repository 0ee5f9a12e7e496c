//! Vectors, matrices and the scalars they are made of.

pub mod algebra;
pub mod mat4;
pub mod scalar;
pub mod vec2;
pub mod vec3;
pub mod vec4;

pub use self::mat4::Mat4;
pub use self::scalar::{clamp, Scalar, VecType};
pub use self::vec2::Vec2;
pub use self::vec3::Vec3;
pub use self::vec4::Vec4;
