use std::ops::{Add, Mul, Sub};
use vstd::prelude::*;
use vstd::std_specs::ops::{AddSpec, AddSpecImpl, MulSpec, MulSpecImpl, SubSpec, SubSpecImpl};

verus! {

/// A point or direction in the plane.
#[derive(Debug, Clone, Copy, PartialEq, PartialOrd)]
pub struct Vec2<T> {
    pub x: T,
    pub y: T,
}

impl<T> Vec2<T> {
    pub fn new(x: T, y: T) -> (v: Self)
        ensures
            v == (Vec2 { x, y }),
    {
        Vec2 { x, y }
    }
}

impl<T> Add for Vec2<T> where T: Add<Output = T> {
    type Output = Self;

    /// Component-wise sum.
    fn add(self, rhs: Vec2<T>) -> (sum: Self) {
        Vec2::new(self.x + rhs.x, self.y + rhs.y)
    }
}

impl<T> AddSpecImpl for Vec2<T> where T: Add<Output = T> {
    open spec fn obeys_add_spec() -> bool {
        T::obeys_add_spec()
    }

    open spec fn add_req(self, rhs: Vec2<T>) -> bool {
        self.x.add_req(rhs.x) && self.y.add_req(rhs.y)
    }

    open spec fn add_spec(self, rhs: Vec2<T>) -> Vec2<T> {
        Vec2 { x: self.x.add_spec(rhs.x), y: self.y.add_spec(rhs.y) }
    }
}

impl<T> Sub for Vec2<T> where T: Sub<Output = T> {
    type Output = Self;

    /// Component-wise difference.
    fn sub(self, rhs: Vec2<T>) -> (difference: Self) {
        Vec2::new(self.x - rhs.x, self.y - rhs.y)
    }
}

impl<T> SubSpecImpl for Vec2<T> where T: Sub<Output = T> {
    open spec fn obeys_sub_spec() -> bool {
        T::obeys_sub_spec()
    }

    open spec fn sub_req(self, rhs: Vec2<T>) -> bool {
        self.x.sub_req(rhs.x) && self.y.sub_req(rhs.y)
    }

    open spec fn sub_spec(self, rhs: Vec2<T>) -> Vec2<T> {
        Vec2 { x: self.x.sub_spec(rhs.x), y: self.y.sub_spec(rhs.y) }
    }
}

impl<T> Mul for Vec2<T> where T: Mul<Output = T> {
    type Output = Self;

    /// Component-wise product.
    fn mul(self, rhs: Vec2<T>) -> (product: Self) {
        Vec2::new(self.x * rhs.x, self.y * rhs.y)
    }
}

impl<T> MulSpecImpl for Vec2<T> where T: Mul<Output = T> {
    open spec fn obeys_mul_spec() -> bool {
        T::obeys_mul_spec()
    }

    open spec fn mul_req(self, rhs: Vec2<T>) -> bool {
        self.x.mul_req(rhs.x) && self.y.mul_req(rhs.y)
    }

    open spec fn mul_spec(self, rhs: Vec2<T>) -> Vec2<T> {
        Vec2 { x: self.x.mul_spec(rhs.x), y: self.y.mul_spec(rhs.y) }
    }
}

/// A machine vector stands for the vector of its components as
/// mathematical integers.
impl View for Vec2<i32> {
    type V = Vec2<int>;

    open spec fn view(&self) -> Vec2<int> {
        Vec2 { x: self.x as int, y: self.y as int }
    }
}

impl Vec2<int> {
    /// Component-wise sum.
    pub open spec fn plus(self, rhs: Vec2<int>) -> Vec2<int> {
        Vec2 { x: self.x + rhs.x, y: self.y + rhs.y }
    }

    /// Component-wise difference.
    pub open spec fn minus(self, rhs: Vec2<int>) -> Vec2<int> {
        Vec2 { x: self.x - rhs.x, y: self.y - rhs.y }
    }

    /// Component-wise product.
    pub open spec fn times(self, rhs: Vec2<int>) -> Vec2<int> {
        Vec2 { x: self.x * rhs.x, y: self.y * rhs.y }
    }

    /// `self + (to - self) * t`, each axis interpolated by its own
    /// component of `t`.
    pub open spec fn lerp(self, to: Vec2<int>, t: Vec2<int>) -> Vec2<int> {
        self.plus(to.minus(self).times(t))
    }

    /// Both components lie in `lo..=hi`.
    pub open spec fn within(self, lo: int, hi: int) -> bool {
        lo <= self.x <= hi && lo <= self.y <= hi
    }
}

impl Vec2<i32> {
    /// On components small enough that no difference, product or sum
    /// leaves the 32-bit range, [`crate::math::lerp`] computes the integer
    /// interpolation.
    pub proof fn lemma_lerp_exact(self, to: Vec2<i32>, t: Vec2<i32>)
        requires
            self@.within(-0x4000, 0x4000),
            to@.within(-0x4000, 0x4000),
            t@.within(-0x4000, 0x4000),
        ensures
            crate::math::lerp_req(self, to, t),
            crate::math::lerp_spec(self, to, t)@ == self@.lerp(to@, t@),
    {
        let dx = to.x - self.x;
        let dy = to.y - self.y;
        assert(-0x2000_0000 <= dx * t.x <= 0x2000_0000) by (nonlinear_arith)
            requires
                -0x8000 <= dx <= 0x8000,
                -0x4000 <= t.x <= 0x4000,
        ;
        assert(-0x2000_0000 <= dy * t.y <= 0x2000_0000) by (nonlinear_arith)
            requires
                -0x8000 <= dy <= 0x8000,
                -0x4000 <= t.y <= 0x4000,
        ;
    }
}

} // verus!
