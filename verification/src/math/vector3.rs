use std::ops::{Add, Div, Mul, Sub};
use vstd::prelude::*;
use vstd::std_specs::ops::{
    AddSpec, AddSpecImpl, DivSpec, DivSpecImpl, MulSpec, SubSpec, SubSpecImpl,
};

verus! {

/// A point or direction in space.
#[derive(Debug, Clone, Copy, PartialEq, PartialOrd)]
pub struct Vec3<T> {
    pub x: T,
    pub y: T,
    pub z: T,
}

impl<T> Vec3<T> {
    pub fn new(x: T, y: T, z: T) -> (v: Self)
        ensures
            v == (Vec3 { x, y, z }),
    {
        Vec3 { x, y, z }
    }
}

impl<T> Add for Vec3<T> where T: Add<Output = T> {
    type Output = Self;

    /// Component-wise sum.
    fn add(self, rhs: Vec3<T>) -> (sum: Self) {
        Vec3::new(self.x + rhs.x, self.y + rhs.y, self.z + rhs.z)
    }
}

impl<T> AddSpecImpl for Vec3<T> where T: Add<Output = T> {
    open spec fn obeys_add_spec() -> bool {
        T::obeys_add_spec()
    }

    open spec fn add_req(self, rhs: Vec3<T>) -> bool {
        self.x.add_req(rhs.x) && self.y.add_req(rhs.y) && self.z.add_req(rhs.z)
    }

    open spec fn add_spec(self, rhs: Vec3<T>) -> Vec3<T> {
        Vec3 {
            x: self.x.add_spec(rhs.x),
            y: self.y.add_spec(rhs.y),
            z: self.z.add_spec(rhs.z),
        }
    }
}

impl<T> Sub for Vec3<T> where T: Sub<Output = T> {
    type Output = Self;

    /// Component-wise difference.
    fn sub(self, rhs: Vec3<T>) -> (difference: Self) {
        Vec3::new(self.x - rhs.x, self.y - rhs.y, self.z - rhs.z)
    }
}

impl<T> SubSpecImpl for Vec3<T> where T: Sub<Output = T> {
    open spec fn obeys_sub_spec() -> bool {
        T::obeys_sub_spec()
    }

    open spec fn sub_req(self, rhs: Vec3<T>) -> bool {
        self.x.sub_req(rhs.x) && self.y.sub_req(rhs.y) && self.z.sub_req(rhs.z)
    }

    open spec fn sub_spec(self, rhs: Vec3<T>) -> Vec3<T> {
        Vec3 {
            x: self.x.sub_spec(rhs.x),
            y: self.y.sub_spec(rhs.y),
            z: self.z.sub_spec(rhs.z),
        }
    }
}

impl<T> Div<i32> for Vec3<T> where T: Div<i32, Output = T> {
    type Output = Self;

    /// Every component divided by the same whole number.
    fn div(self, rhs: i32) -> (quotient: Self) {
        Vec3::new(self.x / rhs, self.y / rhs, self.z / rhs)
    }
}

impl<T> DivSpecImpl<i32> for Vec3<T> where T: Div<i32, Output = T> {
    open spec fn obeys_div_spec() -> bool {
        <T as DivSpec<i32>>::obeys_div_spec()
    }

    open spec fn div_req(self, rhs: i32) -> bool {
        self.x.div_req(rhs) && self.y.div_req(rhs) && self.z.div_req(rhs)
    }

    open spec fn div_spec(self, rhs: i32) -> Vec3<T> {
        Vec3 {
            x: self.x.div_spec(rhs),
            y: self.y.div_spec(rhs),
            z: self.z.div_spec(rhs),
        }
    }
}

impl<T> Vec3<T> where T: Sub<Output = T> + Mul<Output = T> + Copy {
    /// `cross` may be called: the operators of the component type compute
    /// what `mul_spec` and `sub_spec` say, and none of the six products and
    /// three differences leaves the type's range.
    pub open spec fn cross_req(self, b: Vec3<T>) -> bool {
        &&& T::obeys_mul_spec()
        &&& T::obeys_sub_spec()
        &&& self.y.mul_req(b.z) && self.z.mul_req(b.y)
        &&& self.x.mul_req(b.z) && self.z.mul_req(b.x)
        &&& self.x.mul_req(b.y) && self.y.mul_req(b.x)
        &&& self.y.mul_spec(b.z).sub_req(self.z.mul_spec(b.y))
        &&& self.x.mul_spec(b.z).sub_req(self.z.mul_spec(b.x))
        &&& self.x.mul_spec(b.y).sub_req(self.y.mul_spec(b.x))
    }

    /// The value of `cross` in the component type's own arithmetic.
    pub open spec fn cross_spec(self, b: Vec3<T>) -> Vec3<T> {
        Vec3 {
            x: self.y.mul_spec(b.z).sub_spec(self.z.mul_spec(b.y)),
            y: self.x.mul_spec(b.z).sub_spec(self.z.mul_spec(b.x)),
            z: self.x.mul_spec(b.y).sub_spec(self.y.mul_spec(b.x)),
        }
    }

    /// The library's cross product. Its middle component is
    /// `x * b.z - z * b.x`, the opposite sign of the textbook product;
    /// the cube generator's corner orders are chosen for this sign.
    pub fn cross(&self, b: Vec3<T>) -> (r: Vec3<T>)
        requires
            self.cross_req(b),
        ensures
            r == self.cross_spec(b),
    {
        let x = (self.y * b.z) - (self.z * b.y);
        let y = (self.x * b.z) - (self.z * b.x);
        let z = (self.x * b.y) - (self.y * b.x);
        Vec3::new(x, y, z)
    }
}

/// A machine vector stands for the vector of its components as
/// mathematical integers.
impl View for Vec3<i32> {
    type V = Vec3<int>;

    open spec fn view(&self) -> Vec3<int> {
        Vec3 { x: self.x as int, y: self.y as int, z: self.z as int }
    }
}

impl Vec3<int> {
    /// Component-wise sum.
    pub open spec fn plus(self, rhs: Vec3<int>) -> Vec3<int> {
        Vec3 { x: self.x + rhs.x, y: self.y + rhs.y, z: self.z + rhs.z }
    }

    /// Component-wise difference.
    pub open spec fn minus(self, rhs: Vec3<int>) -> Vec3<int> {
        Vec3 { x: self.x - rhs.x, y: self.y - rhs.y, z: self.z - rhs.z }
    }

    /// The cross product with the sign convention of [`Vec3::cross`].
    pub open spec fn cross_product(self, b: Vec3<int>) -> Vec3<int> {
        Vec3 {
            x: self.y * b.z - self.z * b.y,
            y: self.x * b.z - self.z * b.x,
            z: self.x * b.y - self.y * b.x,
        }
    }

    /// All three components lie in `lo..=hi`.
    pub open spec fn within(self, lo: int, hi: int) -> bool {
        lo <= self.x <= hi && lo <= self.y <= hi && lo <= self.z <= hi
    }
}

impl Vec3<i32> {
    /// On components small enough that no product or difference leaves the
    /// 32-bit range, `cross` computes the integer cross product.
    pub proof fn lemma_cross_exact(self, b: Vec3<i32>)
        requires
            self@.within(-0x4000, 0x4000),
            b@.within(-0x4000, 0x4000),
        ensures
            self.cross_req(b),
            self.cross_spec(b)@ == self@.cross_product(b@),
    {
        let a = self;
        assert(-0x1000_0000 <= a.y * b.z <= 0x1000_0000) by (nonlinear_arith)
            requires
                -0x4000 <= a.y <= 0x4000,
                -0x4000 <= b.z <= 0x4000,
        ;
        assert(-0x1000_0000 <= a.z * b.y <= 0x1000_0000) by (nonlinear_arith)
            requires
                -0x4000 <= a.z <= 0x4000,
                -0x4000 <= b.y <= 0x4000,
        ;
        assert(-0x1000_0000 <= a.x * b.z <= 0x1000_0000) by (nonlinear_arith)
            requires
                -0x4000 <= a.x <= 0x4000,
                -0x4000 <= b.z <= 0x4000,
        ;
        assert(-0x1000_0000 <= a.z * b.x <= 0x1000_0000) by (nonlinear_arith)
            requires
                -0x4000 <= a.z <= 0x4000,
                -0x4000 <= b.x <= 0x4000,
        ;
        assert(-0x1000_0000 <= a.x * b.y <= 0x1000_0000) by (nonlinear_arith)
            requires
                -0x4000 <= a.x <= 0x4000,
                -0x4000 <= b.y <= 0x4000,
        ;
        assert(-0x1000_0000 <= a.y * b.x <= 0x1000_0000) by (nonlinear_arith)
            requires
                -0x4000 <= a.y <= 0x4000,
                -0x4000 <= b.x <= 0x4000,
        ;
    }
}

} // verus!
