//! Triangular membership functions for fuzzy inference, decided on the
//! bit patterns of IEEE-754 binary32 values.
use vstd::prelude::*;

pub mod binary32;
pub mod traits;
pub mod tri;

verus! {

pub use traits::Membership;
pub use tri::{Segment, TriParams};

} // verus!
