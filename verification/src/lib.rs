//! Fixed-length numeric vector types.
//!
//! The crate offers three small product types, [`Vector2`], [`Vector3`] and
//! [`Vector4`], holding two, three and four components of one element type.
//! Each carries the same family of operations: construction, component
//! access, element-wise and scalar arithmetic, conversions to and from
//! arrays, tuples and `Vec`s, and decimal rendering.

pub mod decimal;
pub mod error;
pub mod numeric;
pub mod traits;
pub mod vector2;
pub mod vector3;
pub mod vector4;

pub use error::VectorError;
pub use traits::{Vector, IntegerVector, TuplableVector};
pub use vector2::Vector2;
pub use vector3::Vector3;
pub use vector4::Vector4;
