use crate::math::Vec3;
use vstd::prelude::*;

verus! {

/// An orientation table as mathematical vectors, one per face in the order
/// of [`crate::Face`].
pub open spec fn offsets(faces: [Vec3<i32>; 6]) -> Seq<Vec3<int>> {
    Seq::new(6, |i: int| faces[i]@)
}

/// Every entry of the table moves by at most one cell along each axis.
pub open spec fn is_unit_table(offsets: Seq<Vec3<int>>) -> bool {
    &&& offsets.len() == 6
    &&& forall|i: int| 0 <= i < 6 ==> (#[trigger] offsets[i]).within(-1, 1)
}

/// The offsets of [`right_hand_y_up`].
pub open spec fn right_hand_offsets() -> Seq<Vec3<int>> {
    seq![
        Vec3 { x: 1, y: 0, z: 0 },
        Vec3 { x: 0, y: 0, z: -1 },
        Vec3 { x: 0, y: 1, z: 0 },
        Vec3 { x: -1, y: 0, z: 0 },
        Vec3 { x: 0, y: 0, z: 1 },
        Vec3 { x: 0, y: -1, z: 0 },
    ]
}

/// The offsets of [`left_hand_y_up`].
pub open spec fn left_hand_offsets() -> Seq<Vec3<int>> {
    seq![
        Vec3 { x: 1, y: 0, z: 0 },
        Vec3 { x: 0, y: 0, z: 1 },
        Vec3 { x: 0, y: 1, z: 0 },
        Vec3 { x: -1, y: 0, z: 0 },
        Vec3 { x: 0, y: 0, z: -1 },
        Vec3 { x: 0, y: -1, z: 0 },
    ]
}

/// Face offsets of a right-handed frame with `y` up: back is `-z`.
pub fn right_hand_y_up() -> (faces: [Vec3<i32>; 6])
    ensures
        offsets(faces) == right_hand_offsets(),
        is_unit_table(offsets(faces)),
{
    let faces = [
        Vec3::new(1, 0, 0),
        Vec3::new(0, 0, -1),
        Vec3::new(0, 1, 0),
        Vec3::new(-1, 0, 0),
        Vec3::new(0, 0, 1),
        Vec3::new(0, -1, 0),
    ];
    assert(offsets(faces) =~= right_hand_offsets());
    faces
}

/// Face offsets of a left-handed frame with `y` up: back is `+z`.
pub fn left_hand_y_up() -> (faces: [Vec3<i32>; 6])
    ensures
        offsets(faces) == left_hand_offsets(),
        is_unit_table(offsets(faces)),
{
    let faces = [
        Vec3::new(1, 0, 0),
        Vec3::new(0, 0, 1),
        Vec3::new(0, 1, 0),
        Vec3::new(-1, 0, 0),
        Vec3::new(0, 0, -1),
        Vec3::new(0, -1, 0),
    ];
    assert(offsets(faces) =~= left_hand_offsets());
    faces
}

} // verus!
