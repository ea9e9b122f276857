//! Small vector types and interpolation.

mod numeric;
mod vector2;
mod vector3;

use std::ops::{Add, Mul, Sub};
use vstd::prelude::*;
use vstd::std_specs::ops::{AddSpec, MulSpec, SubSpec};

pub use numeric::Numeric;
pub use vector2::Vec2;
pub use vector3::Vec3;

verus! {

/// `lerp` may be called: the operators of the type compute what `sub_spec`,
/// `mul_spec` and `add_spec` say, and neither the difference, the product
/// nor the sum leaves the type's range.
pub open spec fn lerp_req<T>(a: T, b: T, alpha: T) -> bool where
    T: Sub<Output = T> + Add<Output = T> + Mul<Output = T> + Copy,
 {
    &&& T::obeys_sub_spec()
    &&& T::obeys_mul_spec()
    &&& T::obeys_add_spec()
    &&& b.sub_req(a)
    &&& b.sub_spec(a).mul_req(alpha)
    &&& a.add_req(b.sub_spec(a).mul_spec(alpha))
}

/// The value of `lerp` in the type's own arithmetic: `a + (b - a) * alpha`.
pub open spec fn lerp_spec<T>(a: T, b: T, alpha: T) -> T where
    T: Sub<Output = T> + Add<Output = T> + Mul<Output = T> + Copy,
 {
    a.add_spec(b.sub_spec(a).mul_spec(alpha))
}

/// Linear interpolation from `a` towards `b` by `alpha`. On vectors every
/// operation is component-wise, so each axis has its own factor.
pub fn lerp<T>(a: T, b: T, alpha: T) -> (r: T) where
    T: Sub<Output = T> + Add<Output = T> + Mul<Output = T> + Copy,

    requires
        lerp_req(a, b, alpha),
    ensures
        r == lerp_spec(a, b, alpha),
{
    let c = b - a;
    a + (c * alpha)
}

} // verus!
