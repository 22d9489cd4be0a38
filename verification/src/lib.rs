//! A collection of small generic tools: a fully generic exponentiation engine,
//! interpolation, two-variant sum types, a write-once cell, splitting with
//! escapes and vector zipping helpers.

pub mod auto_escape;
pub mod cargo_tools;
pub mod either;
pub mod interpolation;
pub mod iter_split;
pub mod iter_tools;
pub mod linear;
pub mod new_types;
pub mod pow;
pub mod singleton;
pub mod union;
pub mod vec;
pub mod vec_zip;

pub use self::linear::{lerp, MapRange};
pub use self::singleton::Singleton;
