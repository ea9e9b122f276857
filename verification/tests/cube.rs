use voxel_mesher::math::{Vec2, Vec3};
use voxel_mesher::{left_hand_y_up, right_hand_y_up, unit_cube, Face, Quad, UvOrigin, Winding};

#[test]
fn generate_cube() {
    let result = unit_cube(&right_hand_y_up(), UvOrigin::TopLeft);
    assert_eq!(result.len(), 6);
    let normal = result[0].normal;
    assert_eq!(
        Vec3::new(normal.x as f32, normal.y as f32, normal.z as f32),
        Vec3::new(1.0, 0.0, 0.0)
    );
}

#[test]
fn right_hand_table_lists_offsets_in_face_order() {
    let faces = right_hand_y_up();
    assert_eq!(faces[Face::Right.index()], Vec3::new(1, 0, 0));
    assert_eq!(faces[Face::Back.index()], Vec3::new(0, 0, -1));
    assert_eq!(faces[Face::Up.index()], Vec3::new(0, 1, 0));
    assert_eq!(faces[Face::Left.index()], Vec3::new(-1, 0, 0));
    assert_eq!(faces[Face::Front.index()], Vec3::new(0, 0, 1));
    assert_eq!(faces[Face::Down.index()], Vec3::new(0, -1, 0));
}

#[test]
fn left_hand_table_swaps_front_and_back() {
    let faces = left_hand_y_up();
    assert_eq!(faces[Face::Right.index()], Vec3::new(1, 0, 0));
    assert_eq!(faces[Face::Back.index()], Vec3::new(0, 0, 1));
    assert_eq!(faces[Face::Up.index()], Vec3::new(0, 1, 0));
    assert_eq!(faces[Face::Left.index()], Vec3::new(-1, 0, 0));
    assert_eq!(faces[Face::Front.index()], Vec3::new(0, 0, -1));
    assert_eq!(faces[Face::Down.index()], Vec3::new(0, -1, 0));
}

#[test]
fn face_ordinals_are_stable() {
    assert_eq!(Face::SIZE, 6);
    assert_eq!(Face::Right.index(), 0);
    assert_eq!(Face::Back.index(), 1);
    assert_eq!(Face::Up.index(), 2);
    assert_eq!(Face::Left.index(), 3);
    assert_eq!(Face::Front.index(), 4);
    assert_eq!(Face::Down.index(), 5);
}

#[test]
fn unit_cube_has_six_quads_for_either_table() {
    assert_eq!(unit_cube(&right_hand_y_up(), UvOrigin::TopLeft).len(), 6);
    assert_eq!(unit_cube(&left_hand_y_up(), UvOrigin::BottomLeft).len(), 6);
}

#[test]
fn right_hand_normals_equal_face_offsets() {
    let faces = right_hand_y_up();
    let cube = unit_cube(&faces, UvOrigin::TopLeft);
    for face in 0..6 {
        assert_eq!(cube[face].normal, faces[face]);
    }
}

#[test]
fn left_hand_normals_oppose_face_offsets() {
    let faces = left_hand_y_up();
    let cube = unit_cube(&faces, UvOrigin::TopLeft);
    for face in 0..6 {
        let offset = faces[face];
        assert_eq!(cube[face].normal, Vec3::new(-offset.x, -offset.y, -offset.z));
    }
}

#[test]
fn right_hand_corners_of_every_face() {
    let cube = unit_cube(&right_hand_y_up(), UvOrigin::TopLeft);
    assert_eq!(
        cube[0].points,
        [Vec3::new(1, 1, 0), Vec3::new(1, 1, 1), Vec3::new(1, 0, 1), Vec3::new(1, 0, 0)]
    );
    assert_eq!(
        cube[1].points,
        [Vec3::new(0, 1, 0), Vec3::new(1, 1, 0), Vec3::new(1, 0, 0), Vec3::new(0, 0, 0)]
    );
    assert_eq!(
        cube[2].points,
        [Vec3::new(0, 1, 0), Vec3::new(1, 1, 0), Vec3::new(1, 1, 1), Vec3::new(0, 1, 1)]
    );
    assert_eq!(
        cube[3].points,
        [Vec3::new(0, 1, 1), Vec3::new(0, 1, 0), Vec3::new(0, 0, 0), Vec3::new(0, 0, 1)]
    );
    assert_eq!(
        cube[4].points,
        [Vec3::new(1, 1, 1), Vec3::new(0, 1, 1), Vec3::new(0, 0, 1), Vec3::new(1, 0, 1)]
    );
    assert_eq!(
        cube[5].points,
        [Vec3::new(1, 0, 0), Vec3::new(0, 0, 0), Vec3::new(0, 0, 1), Vec3::new(1, 0, 1)]
    );
}

#[test]
fn every_face_lies_in_its_own_plane() {
    let faces = right_hand_y_up();
    let cube = unit_cube(&faces, UvOrigin::TopLeft);
    for face in 0..6 {
        let offset = faces[face];
        for point in cube[face].points {
            if offset.x != 0 {
                assert_eq!(point.x, (offset.x + 1) / 2);
            }
            if offset.y != 0 {
                assert_eq!(point.y, (offset.y + 1) / 2);
            }
            if offset.z != 0 {
                assert_eq!(point.z, (offset.z + 1) / 2);
            }
        }
    }
}

#[test]
fn top_left_origin_puts_zero_on_first_corner() {
    let cube = unit_cube(&right_hand_y_up(), UvOrigin::TopLeft);
    for quad in cube {
        assert_eq!(
            quad.uv,
            [Vec2::new(0, 0), Vec2::new(1, 0), Vec2::new(1, 1), Vec2::new(0, 1)]
        );
    }
}

#[test]
fn bottom_left_origin_puts_zero_on_last_corner() {
    let cube = unit_cube(&right_hand_y_up(), UvOrigin::BottomLeft);
    for quad in cube {
        assert_eq!(
            quad.uv,
            [Vec2::new(0, 1), Vec2::new(1, 1), Vec2::new(1, 0), Vec2::new(0, 0)]
        );
    }
}

#[test]
fn new_quad_has_zero_normal_and_uv() {
    let quad = Quad::new(
        Vec3::new(1, 2, 3),
        Vec3::new(4, 5, 6),
        Vec3::new(7, 8, 9),
        Vec3::new(10, 11, 12),
    );
    assert_eq!(
        quad.points,
        [Vec3::new(1, 2, 3), Vec3::new(4, 5, 6), Vec3::new(7, 8, 9), Vec3::new(10, 11, 12)]
    );
    assert_eq!(quad.normal, Vec3::new(0, 0, 0));
    assert_eq!(quad.uv, [Vec2::new(0, 0); 4]);
}

#[test]
fn triangles_follow_the_winding() {
    let quad = unit_cube(&right_hand_y_up(), UvOrigin::TopLeft)[0];
    assert_eq!(quad.triangles(Winding::Clockwise), [0, 1, 2, 0, 2, 3]);
    assert_eq!(quad.triangles(Winding::CounterClockwise), [2, 1, 0, 3, 2, 0]);
}
