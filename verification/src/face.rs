use vstd::prelude::*;

verus! {

/// The six directions in which a cube has a face. The order of the variants
/// is the order of every per-face table in this crate.
#[derive(Debug, Clone, Copy, PartialEq, Eq, PartialOrd, Ord, Structural)]
pub enum Face {
    Right,
    Back,
    Up,
    Left,
    Front,
    Down,
}

impl Face {
    /// The number of faces, and the length of every per-face table.
    pub const SIZE: usize = 6;

    /// The position of this face in a per-face table.
    pub open spec fn ordinal(self) -> int {
        match self {
            Face::Right => 0,
            Face::Back => 1,
            Face::Up => 2,
            Face::Left => 3,
            Face::Front => 4,
            Face::Down => 5,
        }
    }

    /// The face at a position of a per-face table.
    pub open spec fn at(ordinal: int) -> Face {
        if ordinal == 0 {
            Face::Right
        } else if ordinal == 1 {
            Face::Back
        } else if ordinal == 2 {
            Face::Up
        } else if ordinal == 3 {
            Face::Left
        } else if ordinal == 4 {
            Face::Front
        } else {
            Face::Down
        }
    }

    /// The position of this face in a per-face table.
    pub fn index(self) -> (i: usize)
        ensures
            i == self.ordinal(),
            i < Face::SIZE,
    {
        match self {
            Face::Right => 0,
            Face::Back => 1,
            Face::Up => 2,
            Face::Left => 3,
            Face::Front => 4,
            Face::Down => 5,
        }
    }
}

} // verus!
