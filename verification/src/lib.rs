//! A relativistic four-vector — an energy component and three spatial
//! momentum components, each a double-precision value carried as its IEEE-754
//! bit pattern — with a componentwise arithmetic suite: addition,
//! subtraction, scalar multiplication and scalar division, each in a
//! value-returning and an in-place form, plus equality with the usual
//! floating-point semantics (NaN is equal to nothing, the two zeros are equal
//! to each other) and an all-zero default value.

use vstd::prelude::*;

pub mod scalar;
pub mod vector;

verus! {

pub use crate::vector::LorentzVector;

pub use crate::vector::scalar_multiply_left;

} // verus!
