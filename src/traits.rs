//! Capabilities shared by membership-function shapes.
use vstd::prelude::*;

verus! {

/// Marker for a degree or structure of membership that an output shape of a
/// defuzzification stage hands back.
pub trait Membership {}

} // verus!
