use crate::face::Face;
use crate::math::{Vec2, Vec3};
use crate::quad::Quad;
use vstd::prelude::*;

verus! {

/// Which corner of a face carries the texture coordinate `(0, 0)`.
#[derive(Debug, Clone, Copy, PartialEq, Eq, Structural)]
pub enum UvOrigin {
    /// The first corner of every face has `(0, 0)`.
    TopLeft,
    /// The last corner of every face has `(0, 0)`.
    BottomLeft,
}

/// The texture coordinates of the four corners of a face, in corner order.
pub open spec fn uv_layout(origin: UvOrigin) -> Seq<Vec2<int>> {
    match origin {
        UvOrigin::TopLeft => seq![
            Vec2 { x: 0, y: 0 },
            Vec2 { x: 1, y: 0 },
            Vec2 { x: 1, y: 1 },
            Vec2 { x: 0, y: 1 },
        ],
        UvOrigin::BottomLeft => seq![
            Vec2 { x: 0, y: 1 },
            Vec2 { x: 1, y: 1 },
            Vec2 { x: 1, y: 0 },
            Vec2 { x: 0, y: 0 },
        ],
    }
}

/// A face offset moved into the unit cube: `(v + 1) / 2` on every
/// component, so `1` stays `1` and both `0` and `-1` become `0`.
pub open spec fn unit_direction(offset: Vec3<int>) -> Vec3<int> {
    Vec3 { x: (offset.x + 1) / 2, y: (offset.y + 1) / 2, z: (offset.z + 1) / 2 }
}

/// The corner of the unit cube where the three given faces meet.
pub open spec fn corner(offsets: Seq<Vec3<int>>, side: Face, level: Face, end: Face) -> Vec3<int> {
    unit_direction(offsets[side.ordinal()]).plus(unit_direction(offsets[level.ordinal()])).plus(
        unit_direction(offsets[end.ordinal()]),
    )
}

/// The four corners of a face of the unit cube, in the rotational order in
/// which the quad lists them.
pub open spec fn face_points(offsets: Seq<Vec3<int>>, face: Face) -> Seq<Vec3<int>> {
    match face {
        Face::Right => seq![
            corner(offsets, Face::Right, Face::Up, Face::Back),
            corner(offsets, Face::Right, Face::Up, Face::Front),
            corner(offsets, Face::Right, Face::Down, Face::Front),
            corner(offsets, Face::Right, Face::Down, Face::Back),
        ],
        Face::Back => seq![
            corner(offsets, Face::Left, Face::Up, Face::Back),
            corner(offsets, Face::Right, Face::Up, Face::Back),
            corner(offsets, Face::Right, Face::Down, Face::Back),
            corner(offsets, Face::Left, Face::Down, Face::Back),
        ],
        Face::Up => seq![
            corner(offsets, Face::Left, Face::Up, Face::Back),
            corner(offsets, Face::Right, Face::Up, Face::Back),
            corner(offsets, Face::Right, Face::Up, Face::Front),
            corner(offsets, Face::Left, Face::Up, Face::Front),
        ],
        Face::Left => seq![
            corner(offsets, Face::Left, Face::Up, Face::Front),
            corner(offsets, Face::Left, Face::Up, Face::Back),
            corner(offsets, Face::Left, Face::Down, Face::Back),
            corner(offsets, Face::Left, Face::Down, Face::Front),
        ],
        Face::Front => seq![
            corner(offsets, Face::Right, Face::Up, Face::Front),
            corner(offsets, Face::Left, Face::Up, Face::Front),
            corner(offsets, Face::Left, Face::Down, Face::Front),
            corner(offsets, Face::Right, Face::Down, Face::Front),
        ],
        Face::Down => seq![
            corner(offsets, Face::Right, Face::Down, Face::Back),
            corner(offsets, Face::Left, Face::Down, Face::Back),
            corner(offsets, Face::Left, Face::Down, Face::Front),
            corner(offsets, Face::Right, Face::Down, Face::Front),
        ],
    }
}

/// The normal of a quad with the given corners: the cross product of the
/// edge from the second corner to the third with the edge from the second
/// corner to the first.
pub open spec fn normal_of(points: Seq<Vec3<int>>) -> Vec3<int> {
    points[2].minus(points[1]).cross_product(points[0].minus(points[1]))
}

/// The quad of one face of the unit cube.
pub open spec fn unit_quad(offsets: Seq<Vec3<int>>, face: Face, origin: UvOrigin) -> crate::quad::QuadView {
    crate::quad::QuadView {
        points: face_points(offsets, face),
        normal: normal_of(face_points(offsets, face)),
        uv: uv_layout(origin),
    }
}

/// The six quads of the unit cube, one per face in the order of [`Face`].
pub open spec fn unit_cube_quads(offsets: Seq<Vec3<int>>, origin: UvOrigin) -> Seq<
    crate::quad::QuadView,
> {
    Seq::new(6, |i: int| unit_quad(offsets, Face::at(i), origin))
}

/// In a table of unit offsets every corner of the unit cube has its
/// coordinates between 0 and 3.
pub proof fn lemma_corner_bounds(offsets: Seq<Vec3<int>>, side: Face, level: Face, end: Face)
    requires
        crate::orientation::is_unit_table(offsets),
    ensures
        corner(offsets, side, level, end).within(0, 3),
{
    assert(offsets[side.ordinal()].within(-1, 1));
    assert(offsets[level.ordinal()].within(-1, 1));
    assert(offsets[end.ordinal()].within(-1, 1));
}

/// The quads of the unit cube of a table of unit offsets have their corner
/// coordinates between 0 and 3 and their texture coordinates between 0 and
/// 1.
pub proof fn lemma_unit_quad_bounds(offsets: Seq<Vec3<int>>, face: Face, origin: UvOrigin)
    requires
        crate::orientation::is_unit_table(offsets),
    ensures
        unit_quad(offsets, face, origin).well_formed(),
        unit_quad(offsets, face, origin).points_within(0, 3),
        unit_quad(offsets, face, origin).uv_within(0, 1),
{
    lemma_corner_bounds(offsets, Face::Left, Face::Down, Face::Front);
    lemma_corner_bounds(offsets, Face::Right, Face::Down, Face::Front);
    lemma_corner_bounds(offsets, Face::Left, Face::Up, Face::Front);
    lemma_corner_bounds(offsets, Face::Right, Face::Up, Face::Front);
    lemma_corner_bounds(offsets, Face::Left, Face::Down, Face::Back);
    lemma_corner_bounds(offsets, Face::Right, Face::Down, Face::Back);
    lemma_corner_bounds(offsets, Face::Left, Face::Up, Face::Back);
    lemma_corner_bounds(offsets, Face::Right, Face::Up, Face::Back);
    let points = face_points(offsets, face);
    let uv = uv_layout(origin);
    assert(points.len() == 4);
    assert(uv.len() == 4);
    assert(points[0].within(0, 3) && points[1].within(0, 3) && points[2].within(0, 3)
        && points[3].within(0, 3));
    assert(uv[0].within(0, 1) && uv[1].within(0, 1) && uv[2].within(0, 1) && uv[3].within(0, 1));
}

/// The corners of the unit cube in the right-handed frame, face by face.
pub proof fn lemma_right_hand_points(face: Face)
    ensures
        face_points(crate::orientation::right_hand_offsets(), face) == (match face {
            Face::Right => seq![
                Vec3::<int> { x: 1, y: 1, z: 0 },
                Vec3::<int> { x: 1, y: 1, z: 1 },
                Vec3::<int> { x: 1, y: 0, z: 1 },
                Vec3::<int> { x: 1, y: 0, z: 0 },
            ],
            Face::Back => seq![
                Vec3::<int> { x: 0, y: 1, z: 0 },
                Vec3::<int> { x: 1, y: 1, z: 0 },
                Vec3::<int> { x: 1, y: 0, z: 0 },
                Vec3::<int> { x: 0, y: 0, z: 0 },
            ],
            Face::Up => seq![
                Vec3::<int> { x: 0, y: 1, z: 0 },
                Vec3::<int> { x: 1, y: 1, z: 0 },
                Vec3::<int> { x: 1, y: 1, z: 1 },
                Vec3::<int> { x: 0, y: 1, z: 1 },
            ],
            Face::Left => seq![
                Vec3::<int> { x: 0, y: 1, z: 1 },
                Vec3::<int> { x: 0, y: 1, z: 0 },
                Vec3::<int> { x: 0, y: 0, z: 0 },
                Vec3::<int> { x: 0, y: 0, z: 1 },
            ],
            Face::Front => seq![
                Vec3::<int> { x: 1, y: 1, z: 1 },
                Vec3::<int> { x: 0, y: 1, z: 1 },
                Vec3::<int> { x: 0, y: 0, z: 1 },
                Vec3::<int> { x: 1, y: 0, z: 1 },
            ],
            Face::Down => seq![
                Vec3::<int> { x: 1, y: 0, z: 0 },
                Vec3::<int> { x: 0, y: 0, z: 0 },
                Vec3::<int> { x: 0, y: 0, z: 1 },
                Vec3::<int> { x: 1, y: 0, z: 1 },
            ],
        }),
{
    let offsets = crate::orientation::right_hand_offsets();
    assert(unit_direction(offsets[0]) == (Vec3::<int> { x: 1, y: 0, z: 0 }));
    assert(unit_direction(offsets[1]) == (Vec3::<int> { x: 0, y: 0, z: 0 }));
    assert(unit_direction(offsets[2]) == (Vec3::<int> { x: 0, y: 1, z: 0 }));
    assert(unit_direction(offsets[3]) == (Vec3::<int> { x: 0, y: 0, z: 0 }));
    assert(unit_direction(offsets[4]) == (Vec3::<int> { x: 0, y: 0, z: 1 }));
    assert(unit_direction(offsets[5]) == (Vec3::<int> { x: 0, y: 0, z: 0 }));
    let points = face_points(offsets, face);
    match face {
        Face::Right => {
            assert(points =~= seq![
                Vec3::<int> { x: 1, y: 1, z: 0 },
                Vec3::<int> { x: 1, y: 1, z: 1 },
                Vec3::<int> { x: 1, y: 0, z: 1 },
                Vec3::<int> { x: 1, y: 0, z: 0 },
            ]);
        },
        Face::Back => {
            assert(points =~= seq![
                Vec3::<int> { x: 0, y: 1, z: 0 },
                Vec3::<int> { x: 1, y: 1, z: 0 },
                Vec3::<int> { x: 1, y: 0, z: 0 },
                Vec3::<int> { x: 0, y: 0, z: 0 },
            ]);
        },
        Face::Up => {
            assert(points =~= seq![
                Vec3::<int> { x: 0, y: 1, z: 0 },
                Vec3::<int> { x: 1, y: 1, z: 0 },
                Vec3::<int> { x: 1, y: 1, z: 1 },
                Vec3::<int> { x: 0, y: 1, z: 1 },
            ]);
        },
        Face::Left => {
            assert(points =~= seq![
                Vec3::<int> { x: 0, y: 1, z: 1 },
                Vec3::<int> { x: 0, y: 1, z: 0 },
                Vec3::<int> { x: 0, y: 0, z: 0 },
                Vec3::<int> { x: 0, y: 0, z: 1 },
            ]);
        },
        Face::Front => {
            assert(points =~= seq![
                Vec3::<int> { x: 1, y: 1, z: 1 },
                Vec3::<int> { x: 0, y: 1, z: 1 },
                Vec3::<int> { x: 0, y: 0, z: 1 },
                Vec3::<int> { x: 1, y: 0, z: 1 },
            ]);
        },
        Face::Down => {
            assert(points =~= seq![
                Vec3::<int> { x: 1, y: 0, z: 0 },
                Vec3::<int> { x: 0, y: 0, z: 0 },
                Vec3::<int> { x: 0, y: 0, z: 1 },
                Vec3::<int> { x: 1, y: 0, z: 1 },
            ]);
        },
    }
}

/// The corners of the unit cube in the left-handed frame, face by face.
pub proof fn lemma_left_hand_points(face: Face)
    ensures
        face_points(crate::orientation::left_hand_offsets(), face) == (match face {
            Face::Right => seq![
                Vec3::<int> { x: 1, y: 1, z: 1 },
                Vec3::<int> { x: 1, y: 1, z: 0 },
                Vec3::<int> { x: 1, y: 0, z: 0 },
                Vec3::<int> { x: 1, y: 0, z: 1 },
            ],
            Face::Back => seq![
                Vec3::<int> { x: 0, y: 1, z: 1 },
                Vec3::<int> { x: 1, y: 1, z: 1 },
                Vec3::<int> { x: 1, y: 0, z: 1 },
                Vec3::<int> { x: 0, y: 0, z: 1 },
            ],
            Face::Up => seq![
                Vec3::<int> { x: 0, y: 1, z: 1 },
                Vec3::<int> { x: 1, y: 1, z: 1 },
                Vec3::<int> { x: 1, y: 1, z: 0 },
                Vec3::<int> { x: 0, y: 1, z: 0 },
            ],
            Face::Left => seq![
                Vec3::<int> { x: 0, y: 1, z: 0 },
                Vec3::<int> { x: 0, y: 1, z: 1 },
                Vec3::<int> { x: 0, y: 0, z: 1 },
                Vec3::<int> { x: 0, y: 0, z: 0 },
            ],
            Face::Front => seq![
                Vec3::<int> { x: 1, y: 1, z: 0 },
                Vec3::<int> { x: 0, y: 1, z: 0 },
                Vec3::<int> { x: 0, y: 0, z: 0 },
                Vec3::<int> { x: 1, y: 0, z: 0 },
            ],
            Face::Down => seq![
                Vec3::<int> { x: 1, y: 0, z: 1 },
                Vec3::<int> { x: 0, y: 0, z: 1 },
                Vec3::<int> { x: 0, y: 0, z: 0 },
                Vec3::<int> { x: 1, y: 0, z: 0 },
            ],
        }),
{
    let offsets = crate::orientation::left_hand_offsets();
    assert(unit_direction(offsets[0]) == (Vec3::<int> { x: 1, y: 0, z: 0 }));
    assert(unit_direction(offsets[1]) == (Vec3::<int> { x: 0, y: 0, z: 1 }));
    assert(unit_direction(offsets[2]) == (Vec3::<int> { x: 0, y: 1, z: 0 }));
    assert(unit_direction(offsets[3]) == (Vec3::<int> { x: 0, y: 0, z: 0 }));
    assert(unit_direction(offsets[4]) == (Vec3::<int> { x: 0, y: 0, z: 0 }));
    assert(unit_direction(offsets[5]) == (Vec3::<int> { x: 0, y: 0, z: 0 }));
    let points = face_points(offsets, face);
    match face {
        Face::Right => {
            assert(points =~= seq![
                Vec3::<int> { x: 1, y: 1, z: 1 },
                Vec3::<int> { x: 1, y: 1, z: 0 },
                Vec3::<int> { x: 1, y: 0, z: 0 },
                Vec3::<int> { x: 1, y: 0, z: 1 },
            ]);
        },
        Face::Back => {
            assert(points =~= seq![
                Vec3::<int> { x: 0, y: 1, z: 1 },
                Vec3::<int> { x: 1, y: 1, z: 1 },
                Vec3::<int> { x: 1, y: 0, z: 1 },
                Vec3::<int> { x: 0, y: 0, z: 1 },
            ]);
        },
        Face::Up => {
            assert(points =~= seq![
                Vec3::<int> { x: 0, y: 1, z: 1 },
                Vec3::<int> { x: 1, y: 1, z: 1 },
                Vec3::<int> { x: 1, y: 1, z: 0 },
                Vec3::<int> { x: 0, y: 1, z: 0 },
            ]);
        },
        Face::Left => {
            assert(points =~= seq![
                Vec3::<int> { x: 0, y: 1, z: 0 },
                Vec3::<int> { x: 0, y: 1, z: 1 },
                Vec3::<int> { x: 0, y: 0, z: 1 },
                Vec3::<int> { x: 0, y: 0, z: 0 },
            ]);
        },
        Face::Front => {
            assert(points =~= seq![
                Vec3::<int> { x: 1, y: 1, z: 0 },
                Vec3::<int> { x: 0, y: 1, z: 0 },
                Vec3::<int> { x: 0, y: 0, z: 0 },
                Vec3::<int> { x: 1, y: 0, z: 0 },
            ]);
        },
        Face::Down => {
            assert(points =~= seq![
                Vec3::<int> { x: 1, y: 0, z: 1 },
                Vec3::<int> { x: 0, y: 0, z: 1 },
                Vec3::<int> { x: 0, y: 0, z: 0 },
                Vec3::<int> { x: 1, y: 0, z: 0 },
            ]);
        },
    }
}

/// In the right-handed frame every normal of the unit cube points out of
/// the cube: the normal of a face is the offset of that face.
pub proof fn lemma_right_hand_normals_point_outward(face: Face, origin: UvOrigin)
    ensures
        unit_quad(crate::orientation::right_hand_offsets(), face, origin).normal
            == crate::orientation::right_hand_offsets()[face.ordinal()],
{
    lemma_right_hand_points(face);
    let points = face_points(crate::orientation::right_hand_offsets(), face);
    let edge = points[2].minus(points[1]);
    let other = points[0].minus(points[1]);
    match face {
        Face::Right => {
            assert(edge == (Vec3::<int> { x: 0, y: -1, z: 0 }));
            assert(other == (Vec3::<int> { x: 0, y: 0, z: -1 }));
            assert(edge.cross_product(other) == (Vec3::<int> { x: 1, y: 0, z: 0 })) by (nonlinear_arith)
                requires
                    edge == (Vec3::<int> { x: 0, y: -1, z: 0 }),
                    other == (Vec3::<int> { x: 0, y: 0, z: -1 }),
            ;
        },
        Face::Back => {
            assert(edge == (Vec3::<int> { x: 0, y: -1, z: 0 }));
            assert(other == (Vec3::<int> { x: -1, y: 0, z: 0 }));
            assert(edge.cross_product(other) == (Vec3::<int> { x: 0, y: 0, z: -1 })) by (nonlinear_arith)
                requires
                    edge == (Vec3::<int> { x: 0, y: -1, z: 0 }),
                    other == (Vec3::<int> { x: -1, y: 0, z: 0 }),
            ;
        },
        Face::Up => {
            assert(edge == (Vec3::<int> { x: 0, y: 0, z: 1 }));
            assert(other == (Vec3::<int> { x: -1, y: 0, z: 0 }));
            assert(edge.cross_product(other) == (Vec3::<int> { x: 0, y: 1, z: 0 })) by (nonlinear_arith)
                requires
                    edge == (Vec3::<int> { x: 0, y: 0, z: 1 }),
                    other == (Vec3::<int> { x: -1, y: 0, z: 0 }),
            ;
        },
        Face::Left => {
            assert(edge == (Vec3::<int> { x: 0, y: -1, z: 0 }));
            assert(other == (Vec3::<int> { x: 0, y: 0, z: 1 }));
            assert(edge.cross_product(other) == (Vec3::<int> { x: -1, y: 0, z: 0 })) by (nonlinear_arith)
                requires
                    edge == (Vec3::<int> { x: 0, y: -1, z: 0 }),
                    other == (Vec3::<int> { x: 0, y: 0, z: 1 }),
            ;
        },
        Face::Front => {
            assert(edge == (Vec3::<int> { x: 0, y: -1, z: 0 }));
            assert(other == (Vec3::<int> { x: 1, y: 0, z: 0 }));
            assert(edge.cross_product(other) == (Vec3::<int> { x: 0, y: 0, z: 1 })) by (nonlinear_arith)
                requires
                    edge == (Vec3::<int> { x: 0, y: -1, z: 0 }),
                    other == (Vec3::<int> { x: 1, y: 0, z: 0 }),
            ;
        },
        Face::Down => {
            assert(edge == (Vec3::<int> { x: 0, y: 0, z: 1 }));
            assert(other == (Vec3::<int> { x: 1, y: 0, z: 0 }));
            assert(edge.cross_product(other) == (Vec3::<int> { x: 0, y: -1, z: 0 })) by (nonlinear_arith)
                requires
                    edge == (Vec3::<int> { x: 0, y: 0, z: 1 }),
                    other == (Vec3::<int> { x: 1, y: 0, z: 0 }),
            ;
        },
    }
}

/// In the left-handed frame the same corner orders turn every normal
/// around: the normal of a face is the opposite of the offset of that face.
pub proof fn lemma_left_hand_normals_point_inward(face: Face, origin: UvOrigin)
    ensures
        unit_quad(crate::orientation::left_hand_offsets(), face, origin).normal == (Vec3::<int> {
            x: 0,
            y: 0,
            z: 0,
        }).minus(crate::orientation::left_hand_offsets()[face.ordinal()]),
{
    lemma_left_hand_points(face);
    let points = face_points(crate::orientation::left_hand_offsets(), face);
    let edge = points[2].minus(points[1]);
    let other = points[0].minus(points[1]);
    match face {
        Face::Right => {
            assert(edge == (Vec3::<int> { x: 0, y: -1, z: 0 }));
            assert(other == (Vec3::<int> { x: 0, y: 0, z: 1 }));
            assert(edge.cross_product(other) == (Vec3::<int> { x: -1, y: 0, z: 0 })) by (nonlinear_arith)
                requires
                    edge == (Vec3::<int> { x: 0, y: -1, z: 0 }),
                    other == (Vec3::<int> { x: 0, y: 0, z: 1 }),
            ;
        },
        Face::Back => {
            assert(edge == (Vec3::<int> { x: 0, y: -1, z: 0 }));
            assert(other == (Vec3::<int> { x: -1, y: 0, z: 0 }));
            assert(edge.cross_product(other) == (Vec3::<int> { x: 0, y: 0, z: -1 })) by (nonlinear_arith)
                requires
                    edge == (Vec3::<int> { x: 0, y: -1, z: 0 }),
                    other == (Vec3::<int> { x: -1, y: 0, z: 0 }),
            ;
        },
        Face::Up => {
            assert(edge == (Vec3::<int> { x: 0, y: 0, z: -1 }));
            assert(other == (Vec3::<int> { x: -1, y: 0, z: 0 }));
            assert(edge.cross_product(other) == (Vec3::<int> { x: 0, y: -1, z: 0 })) by (nonlinear_arith)
                requires
                    edge == (Vec3::<int> { x: 0, y: 0, z: -1 }),
                    other == (Vec3::<int> { x: -1, y: 0, z: 0 }),
            ;
        },
        Face::Left => {
            assert(edge == (Vec3::<int> { x: 0, y: -1, z: 0 }));
            assert(other == (Vec3::<int> { x: 0, y: 0, z: -1 }));
            assert(edge.cross_product(other) == (Vec3::<int> { x: 1, y: 0, z: 0 })) by (nonlinear_arith)
                requires
                    edge == (Vec3::<int> { x: 0, y: -1, z: 0 }),
                    other == (Vec3::<int> { x: 0, y: 0, z: -1 }),
            ;
        },
        Face::Front => {
            assert(edge == (Vec3::<int> { x: 0, y: -1, z: 0 }));
            assert(other == (Vec3::<int> { x: 1, y: 0, z: 0 }));
            assert(edge.cross_product(other) == (Vec3::<int> { x: 0, y: 0, z: 1 })) by (nonlinear_arith)
                requires
                    edge == (Vec3::<int> { x: 0, y: -1, z: 0 }),
                    other == (Vec3::<int> { x: 1, y: 0, z: 0 }),
            ;
        },
        Face::Down => {
            assert(edge == (Vec3::<int> { x: 0, y: 0, z: -1 }));
            assert(other == (Vec3::<int> { x: 1, y: 0, z: 0 }));
            assert(edge.cross_product(other) == (Vec3::<int> { x: 0, y: 1, z: 0 })) by (nonlinear_arith)
                requires
                    edge == (Vec3::<int> { x: 0, y: 0, z: -1 }),
                    other == (Vec3::<int> { x: 1, y: 0, z: 0 }),
            ;
        },
    }
}

/// A table of quads as mathematical quads.
pub open spec fn quads_view(quads: [Quad; 6]) -> Seq<crate::quad::QuadView> {
    Seq::new(6, |i: int| quads[i]@)
}

/// Gives a quad its normal, computed from its first three corners, and its
/// texture coordinates.
pub fn configure_quad(q: &mut Quad, uvs: [Vec2<i32>; 4])
    requires
        old(q)@.points_within(-0x2000, 0x2000),
    ensures
        final(q)@.points == old(q)@.points,
        final(q)@.normal == normal_of(old(q)@.points),
        final(q)@.uv == Seq::new(4, |i: int| uvs[i]@),
{
    assert(q@.points[0].within(-0x2000, 0x2000));
    assert(q@.points[1].within(-0x2000, 0x2000));
    assert(q@.points[2].within(-0x2000, 0x2000));
    let cb = q.points[2] - q.points[1];
    let ab = q.points[0] - q.points[1];
    proof {
        cb.lemma_cross_exact(ab);
    }
    let normal = cb.cross(ab);

    q.normal = normal;
    q.uv = uvs;
    assert(q@.points =~= old(q)@.points);
    assert(q@.uv =~= Seq::new(4, |i: int| uvs[i]@));
}

/// The texture coordinates of the four corners of a face for the given
/// convention.
pub fn gen_uvs(origin: UvOrigin) -> (uvs: [Vec2<i32>; 4])
    ensures
        Seq::new(4, |i: int| uvs[i]@) == uv_layout(origin),
{
    let uvs = match origin {
        UvOrigin::TopLeft => [Vec2::new(0, 0), Vec2::new(1, 0), Vec2::new(1, 1), Vec2::new(0, 1)],
        UvOrigin::BottomLeft => [
            Vec2::new(0, 1),
            Vec2::new(1, 1),
            Vec2::new(1, 0),
            Vec2::new(0, 0),
        ],
    };
    assert(Seq::new(4, |i: int| uvs[i]@) =~= uv_layout(origin));
    uvs
}

/// Moves one face offset into the unit cube.
fn normalize(offset: Vec3<i32>) -> (unit: Vec3<i32>)
    requires
        offset@.within(-1, 1),
    ensures
        unit@ == unit_direction(offset@),
        unit@.within(0, 1),
{
    Vec3::new(offset.x + 1, offset.y + 1, offset.z + 1) / 2
}

/// The corner where three unit directions meet.
fn corner_of(side: Vec3<i32>, level: Vec3<i32>, end: Vec3<i32>) -> (point: Vec3<i32>)
    requires
        side@.within(0, 1),
        level@.within(0, 1),
        end@.within(0, 1),
    ensures
        point@ == side@.plus(level@).plus(end@),
        point@.within(0, 3),
{
    side + level + end
}

/// The six faces of the unit cube with their corners in place, normals and
/// texture coordinates still zero.
fn bare_faces(faces: &[Vec3<i32>; 6]) -> (quads: [Quad; 6])
    requires
        crate::orientation::is_unit_table(crate::orientation::offsets(*faces)),
    ensures
        forall|j: int|
            0 <= j < 6 ==> (#[trigger] quads[j])@.points == face_points(
                crate::orientation::offsets(*faces),
                Face::at(j),
            ),
        forall|j: int| 0 <= j < 6 ==> (#[trigger] quads[j])@.points_within(0, 3),
{
    let ghost offsets = crate::orientation::offsets(*faces);
    assert(forall|i: int| 0 <= i < 6 ==> offsets[i] == faces[i]@);
    assert(offsets[0].within(-1, 1) && offsets[1].within(-1, 1) && offsets[2].within(-1, 1)
        && offsets[3].within(-1, 1) && offsets[4].within(-1, 1) && offsets[5].within(-1, 1));
    let right = normalize(faces[0]);
    let back = normalize(faces[1]);
    let up = normalize(faces[2]);
    let left = normalize(faces[3]);
    let front = normalize(faces[4]);
    let down = normalize(faces[5]);

    let a = corner_of(left, down, front);
    let b = corner_of(right, down, front);
    let c = corner_of(left, up, front);
    let d = corner_of(right, up, front);

    let e = corner_of(left, down, back);
    let f = corner_of(right, down, back);
    let g = corner_of(left, up, back);
    let z = corner_of(right, up, back);

    let right_face = Quad::new(z, d, b, f);
    let back_face = Quad::new(g, z, f, e);
    let up_face = Quad::new(g, z, d, c);
    let left_face = Quad::new(c, g, e, a);
    let front_face = Quad::new(d, c, a, b);
    let down_face = Quad::new(f, e, a, b);
    assert(right_face@.points =~= face_points(offsets, Face::Right));
    assert(back_face@.points =~= face_points(offsets, Face::Back));
    assert(up_face@.points =~= face_points(offsets, Face::Up));
    assert(left_face@.points =~= face_points(offsets, Face::Left));
    assert(front_face@.points =~= face_points(offsets, Face::Front));
    assert(down_face@.points =~= face_points(offsets, Face::Down));
    [right_face, back_face, up_face, left_face, front_face, down_face]
}

/// Builds the six quads of the unit cube for an orientation table: corners
/// from the table, normals from the corners, texture coordinates from the
/// chosen convention.
pub fn unit_cube(faces: &[Vec3<i32>; 6], origin: UvOrigin) -> (quads: [Quad; 6])
    requires
        crate::orientation::is_unit_table(crate::orientation::offsets(*faces)),
    ensures
        quads@.len() == 6,
        quads_view(quads) == unit_cube_quads(crate::orientation::offsets(*faces), origin),
{
    let ghost offsets = crate::orientation::offsets(*faces);
    let mut quads = bare_faces(faces);
    let ghost bare = quads;

    let uvs = gen_uvs(origin);

    for i in 0..6
        invariant
            Seq::new(4, |k: int| uvs[k]@) == uv_layout(origin),
            forall|j: int|
                0 <= j < 6 ==> (#[trigger] bare[j])@.points == face_points(offsets, Face::at(j)),
            forall|j: int| 0 <= j < 6 ==> (#[trigger] bare[j])@.points_within(0, 3),
            forall|j: int| i <= j < 6 ==> quads[j] == bare[j],
            forall|j: int|
                0 <= j < i ==> (#[trigger] quads[j])@ == unit_quad(offsets, Face::at(j), origin),
    {
        configure_quad(&mut quads[i], uvs);
    }
    assert(quads_view(quads) =~= unit_cube_quads(offsets, origin));
    quads
}

} // verus!
