//! Fully generic exponentiation: integer powers by squaring, roots by Newton's
//! iteration, and rational powers composed of the two.

pub mod integers;
pub mod machine;
pub mod multiple;
pub mod powi;
pub mod precision;
pub mod root;
pub mod traits;

pub use self::multiple::{from_integer, mul_by_add};
pub use self::powi::{powi, powi_ref};
pub use self::precision::PowPrecision;
pub use self::root::{newton_step, pow, pow_fraction, root, PowError, RootError};
pub use self::traits::{Abs, Integer, Numeric, Rational};
