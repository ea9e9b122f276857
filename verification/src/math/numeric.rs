use std::ops::{Add, Sub};
use vstd::prelude::*;

verus! {

/// Marker for component types a vector can be built from.
pub trait Numeric: Default + PartialEq + PartialOrd + Copy + Clone + Add + Sub {
}

} // verus!
