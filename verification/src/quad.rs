use crate::math::{Vec2, Vec3};
use vstd::prelude::*;

verus! {

/// The order in which a renderer expects the corners of a front-facing
/// triangle.
#[derive(Debug, Clone, Copy, PartialEq, Eq, Structural)]
pub enum Winding {
    Clockwise,
    CounterClockwise,
}

/// A flat four-cornered face: its corners in rotational order, the normal
/// computed from them, and one texture coordinate per corner.
#[derive(Debug, Clone, Copy)]
pub struct Quad {
    pub points: [Vec3<i32>; 4],
    pub normal: Vec3<i32>,
    pub uv: [Vec2<i32>; 4],
}

/// A quad over the mathematical integers.
#[verifier::ext_equal]
pub struct QuadView {
    pub points: Seq<Vec3<int>>,
    pub normal: Vec3<int>,
    pub uv: Seq<Vec2<int>>,
}

impl View for Quad {
    type V = QuadView;

    open spec fn view(&self) -> QuadView {
        QuadView {
            points: Seq::new(4, |i: int| self.points[i]@),
            normal: self.normal@,
            uv: Seq::new(4, |i: int| self.uv[i]@),
        }
    }
}

impl QuadView {
    /// Four corners and four texture coordinates.
    pub open spec fn well_formed(self) -> bool {
        self.points.len() == 4 && self.uv.len() == 4
    }

    /// Every corner coordinate lies in `lo..=hi`.
    pub open spec fn points_within(self, lo: int, hi: int) -> bool {
        forall|i: int| 0 <= i < self.points.len() ==> (#[trigger] self.points[i]).within(lo, hi)
    }

    /// Every texture coordinate lies in `lo..=hi`.
    pub open spec fn uv_within(self, lo: int, hi: int) -> bool {
        forall|i: int| 0 <= i < self.uv.len() ==> (#[trigger] self.uv[i]).within(lo, hi)
    }
}

impl Quad {
    /// The corner indices of the two triangles of a quad, three by three.
    pub open spec fn triangle_indices(winding: Winding) -> Seq<usize> {
        match winding {
            Winding::Clockwise => seq![0, 1, 2, 0, 2, 3],
            Winding::CounterClockwise => seq![2, 1, 0, 3, 2, 0],
        }
    }

    /// A quad with the given corners, a zero normal and zero texture
    /// coordinates.
    pub fn new(a: Vec3<i32>, b: Vec3<i32>, c: Vec3<i32>, d: Vec3<i32>) -> (q: Quad)
        ensures
            q@.points == seq![a@, b@, c@, d@],
            q@.normal == (Vec3::<int> { x: 0, y: 0, z: 0 }),
            q@.uv == Seq::new(4, |i: int| Vec2::<int> { x: 0, y: 0 }),
    {
        let q = Quad {
            points: [a, b, c, d],
            normal: Vec3::new(0, 0, 0),
            uv: [Vec2::new(0, 0);4],
        };
        assert(q@.points =~= seq![a@, b@, c@, d@]);
        assert(q@.uv =~= Seq::new(4, |i: int| Vec2::<int> { x: 0, y: 0 }));
        q
    }

    /// How to split the quad into two triangles for the given winding:
    /// `(0, 1, 2), (0, 2, 3)` clockwise, `(2, 1, 0), (3, 2, 0)`
    /// counter-clockwise.
    pub fn triangles(&self, winding: Winding) -> (indices: [usize; 6])
        ensures
            indices@ == Quad::triangle_indices(winding),
    {
        let indices: [usize; 6] = match winding {
            Winding::Clockwise => [0, 1, 2, 0, 2, 3],
            Winding::CounterClockwise => [2, 1, 0, 3, 2, 0],
        };
        assert(indices@ =~= Quad::triangle_indices(winding));
        indices
    }
}

} // verus!
