use voxel_mesher::math::{Vec2, Vec3};
use voxel_mesher::mesher::culling::place;
use voxel_mesher::{
    left_hand_y_up, right_hand_y_up, unit_cube, Culling, Mesher, Quad, UvOrigin, Visibility,
    Voxel,
};

#[derive(Clone, Copy, Debug, PartialEq)]
struct Block {
    id: u32,
    solid: bool,
}

impl Voxel for Block {
    type Id = u32;

    fn id(&self) -> u32 {
        self.id
    }

    fn visibility(&self) -> Visibility {
        if self.solid {
            Visibility::Visible
        } else {
            Visibility::Hidden
        }
    }
}

fn solid(id: u32) -> Block {
    Block { id, solid: true }
}

fn air(id: u32) -> Block {
    Block { id, solid: false }
}

fn same_quad(a: &Quad, b: &Quad) -> bool {
    a.points == b.points && a.normal == b.normal && a.uv == b.uv
}

/// `bare` wrapped in one layer of empty blocks, built cell by cell.
fn pad(bare: &[Block], w: usize, h: usize, d: usize) -> Vec<Block> {
    let mut padded = vec![air(0); (w + 2) * (h + 2) * (d + 2)];
    for z in 0..d {
        for y in 0..h {
            for x in 0..w {
                padded[(x + 1) + (y + 1) * (w + 2) + (z + 1) * (w + 2) * (h + 2)] =
                    bare[x + y * w + z * w * h];
            }
        }
    }
    padded
}

#[test]
fn visibility_of_each_state() {
    assert!(Visibility::Visible.is_visible());
    assert!(!Visibility::Hidden.is_visible());
}

#[test]
fn absent_cell_is_hidden() {
    let absent: Option<Block> = None;
    assert_eq!(absent.visibility(), Visibility::Hidden);
}

#[test]
fn present_cell_is_the_voxel_it_holds() {
    assert_eq!(Some(solid(7)).visibility(), Visibility::Visible);
    assert_eq!(Some(air(8)).visibility(), Visibility::Hidden);
    assert_eq!(Some(solid(7)).id(), 7);
    assert_eq!(Some(air(8)).id(), 8);
}

#[test]
fn new_keeps_its_arguments() {
    let mesher = Culling::new(3, 4, 5, left_hand_y_up(), UvOrigin::BottomLeft);
    assert_eq!(mesher.width, 3);
    assert_eq!(mesher.height, 4);
    assert_eq!(mesher.depth, 5);
    assert_eq!(mesher.faces, left_hand_y_up());
    assert_eq!(mesher.uv_origin, UvOrigin::BottomLeft);
}

#[test]
fn bounds_reject_zero_and_one_past_the_dimension() {
    let mesher = Culling::new(3, 2, 4, right_hand_y_up(), UvOrigin::TopLeft);
    assert!(mesher.is_in_bounds(1, 1, 1));
    assert!(mesher.is_in_bounds(3, 2, 4));
    assert!(mesher.is_in_bounds(2, 1, 3));
    assert!(!mesher.is_in_bounds(0, 1, 1));
    assert!(!mesher.is_in_bounds(1, 0, 1));
    assert!(!mesher.is_in_bounds(1, 1, 0));
    assert!(!mesher.is_in_bounds(4, 1, 1));
    assert!(!mesher.is_in_bounds(1, 3, 1));
    assert!(!mesher.is_in_bounds(1, 1, 5));
    assert!(!mesher.is_in_bounds(-1, 1, 1));
}

#[test]
fn bounds_accept_every_coordinate_from_one_to_the_dimension() {
    let mesher = Culling::new(5, 5, 5, right_hand_y_up(), UvOrigin::TopLeft);
    for c in 1..=5 {
        assert!(mesher.is_in_bounds(c, 1, 1));
        assert!(mesher.is_in_bounds(1, c, 1));
        assert!(mesher.is_in_bounds(1, 1, c));
    }
    assert!(!mesher.is_in_bounds(6, 1, 1));
    assert!(!mesher.is_in_bounds(1, 6, 1));
    assert!(!mesher.is_in_bounds(1, 1, 6));
}

#[test]
fn well_formed_needs_unit_offsets_and_small_dimensions() {
    assert!(Culling::new(3, 4, 5, right_hand_y_up(), UvOrigin::TopLeft).is_well_formed());
    assert!(Culling::new(0, 0, 0, left_hand_y_up(), UvOrigin::TopLeft).is_well_formed());
    let mut far = right_hand_y_up();
    far[4] = Vec3::new(0, 0, 2);
    assert!(!Culling::new(3, 4, 5, far, UvOrigin::TopLeft).is_well_formed());
    let mut diagonal = right_hand_y_up();
    diagonal[1] = Vec3::new(1, -1, 1);
    assert!(Culling::new(3, 4, 5, diagonal, UvOrigin::TopLeft).is_well_formed());
    let most = i32::MAX as usize - 2;
    assert!(Culling::new(most, 1, 1, right_hand_y_up(), UvOrigin::TopLeft).is_well_formed());
    assert!(!Culling::new(most + 1, 1, 1, right_hand_y_up(), UvOrigin::TopLeft).is_well_formed());
    assert!(!Culling::new(1, most + 1, 1, right_hand_y_up(), UvOrigin::TopLeft).is_well_formed());
    assert!(!Culling::new(1, 1, most + 1, right_hand_y_up(), UvOrigin::TopLeft).is_well_formed());
}

#[test]
fn padded_volume_len_counts_the_border() {
    let mesher = Culling::new(3, 4, 5, right_hand_y_up(), UvOrigin::TopLeft);
    assert_eq!(mesher.padded_volume_len(), Some(5 * 6 * 7));
    let mesher = Culling::new(1, 1, 1, right_hand_y_up(), UvOrigin::TopLeft);
    assert_eq!(mesher.padded_volume_len(), Some(27));
}

#[test]
fn can_eval_wants_the_padded_length_exactly() {
    let mesher = Culling::new(2, 1, 1, right_hand_y_up(), UvOrigin::TopLeft);
    assert!(mesher.can_eval(4 * 3 * 3));
    assert!(!mesher.can_eval(4 * 3 * 3 - 1));
    assert!(!mesher.can_eval(4 * 3 * 3 + 1));
    assert!(!mesher.can_eval(2));
    let mut far = right_hand_y_up();
    far[0] = Vec3::new(2, 0, 0);
    assert!(!Culling::new(2, 1, 1, far, UvOrigin::TopLeft).can_eval(4 * 3 * 3));
    // With a dimension of zero there is nothing to read.
    assert!(Culling::new(0, 1, 1, far, UvOrigin::TopLeft).can_eval(5));
}

#[test]
fn can_eval_append_border_wants_every_bare_cell() {
    let mesher = Culling::new(2, 3, 4, right_hand_y_up(), UvOrigin::TopLeft);
    assert!(mesher.can_eval_append_border(24));
    assert!(mesher.can_eval_append_border(30));
    assert!(!mesher.can_eval_append_border(23));
    assert!(Culling::new(2, 0, 4, right_hand_y_up(), UvOrigin::TopLeft).can_eval_append_border(0));
}

#[test]
fn a_longer_bare_volume_is_read_up_to_its_cells() {
    let mesher = Culling::new(1, 1, 1, right_hand_y_up(), UvOrigin::TopLeft);
    let result = mesher.eval_append_border(&[solid(1), solid(2), solid(3)]).unwrap();
    assert_eq!(result.quads.len(), 6);
}

#[test]
fn zero_dimension_yields_nothing() {
    let empty: [Block; 0] = [];
    for (w, h, d) in [(0, 1, 1), (1, 0, 1), (1, 1, 0), (0, 0, 0)] {
        let mesher = Culling::new(w, h, d, right_hand_y_up(), UvOrigin::TopLeft);
        assert!(mesher.eval(&empty).is_none());
        assert!(mesher.eval_append_border(&empty).is_none());
    }
}

#[test]
fn zero_dimension_yields_nothing_whatever_the_volume_holds() {
    let mesher = Culling::new(0, 2, 2, right_hand_y_up(), UvOrigin::TopLeft);
    let volume = [solid(1), solid(2), solid(3)];
    assert!(mesher.eval(&volume).is_none());
    assert!(mesher.eval_append_border(&volume).is_none());
}

#[test]
fn single_voxel_yields_its_six_faces() {
    let faces = right_hand_y_up();
    let mesher = Culling::new(1, 1, 1, faces, UvOrigin::TopLeft);
    let result = mesher.eval_append_border(&[solid(1)]).unwrap();
    let cube = unit_cube(&faces, UvOrigin::TopLeft);
    assert_eq!(result.quads.len(), 6);
    for face in 0..6 {
        assert_eq!(result.quads[face].normal, cube[face].normal);
        assert_eq!(result.quads[face].points, cube[face].points);
        assert_eq!(result.quads[face].uv, cube[face].uv);
    }
}

#[test]
fn single_voxel_in_the_left_handed_frame() {
    let faces = left_hand_y_up();
    let mesher = Culling::new(1, 1, 1, faces, UvOrigin::TopLeft);
    let result = mesher.eval_append_border(&[solid(1)]).unwrap();
    let cube = unit_cube(&faces, UvOrigin::TopLeft);
    assert_eq!(result.quads.len(), 6);
    for face in 0..6 {
        assert_eq!(result.quads[face].normal, cube[face].normal);
    }
}

#[test]
fn single_hidden_voxel_yields_no_quads() {
    let mesher = Culling::new(1, 1, 1, right_hand_y_up(), UvOrigin::TopLeft);
    let result = mesher.eval_append_border(&[air(1)]).unwrap();
    assert_eq!(result.quads.len(), 0);
}

#[test]
fn two_adjacent_voxels_share_no_face() {
    let faces = right_hand_y_up();
    let mesher = Culling::new(2, 1, 1, faces, UvOrigin::TopLeft);
    let result = mesher.eval_append_border(&[solid(1), solid(2)]).unwrap();
    assert_eq!(result.quads.len(), 10);
    let cube = unit_cube(&faces, UvOrigin::TopLeft);
    // The first voxel has every face but the right one, the second every
    // face but the left one.
    let expected: [(usize, i32); 10] =
        [(1, 0), (2, 0), (3, 0), (4, 0), (5, 0), (0, 1), (1, 1), (2, 1), (4, 1), (5, 1)];
    for (quad, (face, x)) in result.quads.iter().zip(expected) {
        assert_eq!(quad.normal, cube[face].normal);
        for corner in 0..4 {
            assert_eq!(quad.points[corner], cube[face].points[corner] + Vec3::new(x, 0, 0));
        }
    }
}

#[test]
fn a_hidden_neighbour_does_not_cull() {
    let mesher = Culling::new(2, 1, 1, right_hand_y_up(), UvOrigin::TopLeft);
    let result = mesher.eval_append_border(&[solid(1), air(2)]).unwrap();
    assert_eq!(result.quads.len(), 6);
    let result = mesher.eval_append_border(&[air(1), solid(2)]).unwrap();
    assert_eq!(result.quads.len(), 6);
    for quad in &result.quads {
        for point in quad.points {
            assert!(point.x >= 1);
        }
    }
}

#[test]
fn a_full_block_shows_only_its_outside() {
    let mesher = Culling::new(3, 3, 3, right_hand_y_up(), UvOrigin::TopLeft);
    let volume = [solid(1); 27];
    let result = mesher.eval_append_border(&volume).unwrap();
    assert_eq!(result.quads.len(), 6 * 9);
    let mesher = Culling::new(2, 3, 4, left_hand_y_up(), UvOrigin::TopLeft);
    let volume = [solid(1); 24];
    let result = mesher.eval_append_border(&volume).unwrap();
    assert_eq!(result.quads.len(), 2 * (2 * 3 + 3 * 4 + 2 * 4));
}

#[test]
fn quads_come_in_scan_order() {
    let mesher = Culling::new(2, 2, 2, right_hand_y_up(), UvOrigin::TopLeft);
    let mut volume = [air(0); 8];
    // Bare positions (1, 0, 0), (0, 1, 0) and (0, 0, 1): none touches another.
    volume[1] = solid(1);
    volume[2] = solid(2);
    volume[4] = solid(3);
    let result = mesher.eval_append_border(&volume).unwrap();
    assert_eq!(result.quads.len(), 18);
    let cube = unit_cube(&right_hand_y_up(), UvOrigin::TopLeft);
    let origins = [Vec3::new(1, 0, 0), Vec3::new(0, 1, 0), Vec3::new(0, 0, 1)];
    for (n, quad) in result.quads.iter().enumerate() {
        let face = n % 6;
        for corner in 0..4 {
            assert_eq!(quad.points[corner], cube[face].points[corner] + origins[n / 6]);
        }
    }
}

#[test]
fn eval_on_a_padded_volume_matches_eval_append_border() {
    let (w, h, d) = (3, 2, 2);
    let mut bare = Vec::new();
    for n in 0..(w * h * d) as u32 {
        bare.push(Block { id: n, solid: n % 3 != 1 });
    }
    let mesher = Culling::new(w, h, d, left_hand_y_up(), UvOrigin::BottomLeft);
    let padded = pad(&bare, w, h, d);
    let direct = mesher.eval(&padded).unwrap();
    let bordered = mesher.eval_append_border(&bare).unwrap();
    assert_eq!(direct.quads.len(), bordered.quads.len());
    assert!(direct.quads.len() > 0);
    for (a, b) in direct.quads.iter().zip(bordered.quads.iter()) {
        assert!(same_quad(a, b));
    }
}

#[test]
fn eval_counts_faces_between_visible_and_hidden_cells() {
    let (w, h, d) = (3, 2, 2);
    let mut bare = Vec::new();
    for n in 0..(w * h * d) as u32 {
        bare.push(Block { id: n, solid: n % 3 != 1 });
    }
    let padded = pad(&bare, w, h, d);
    let faces = right_hand_y_up();
    let mesher = Culling::new(w, h, d, faces, UvOrigin::TopLeft);
    let mut expected = 0;
    for z in 1..=d {
        for y in 1..=h {
            for x in 1..=w {
                let at = |x: usize, y: usize, z: usize| {
                    padded[x + y * (w + 2) + z * (w + 2) * (h + 2)].solid
                };
                if !at(x, y, z) {
                    continue;
                }
                for offset in faces {
                    let nx = (x as i32 + offset.x) as usize;
                    let ny = (y as i32 + offset.y) as usize;
                    let nz = (z as i32 + offset.z) as usize;
                    if !at(nx, ny, nz) {
                        expected += 1;
                    }
                }
            }
        }
    }
    assert_eq!(mesher.eval(&padded).unwrap().quads.len(), expected);
}

#[test]
fn eval_ignores_visible_cells_of_the_border() {
    let mesher = Culling::new(1, 1, 1, right_hand_y_up(), UvOrigin::TopLeft);
    // Everything visible, border included: the one voxel has no hidden
    // neighbour, and border cells are never meshed.
    let all = [solid(1); 27];
    assert_eq!(mesher.eval(&all).unwrap().quads.len(), 0);
    // Only a border cell visible.
    let mut border = [air(0); 27];
    border[0] = solid(1);
    assert_eq!(mesher.eval(&border).unwrap().quads.len(), 0);
}

#[test]
fn find_bounds_reports_each_neighbour() {
    let mesher = Culling::new(2, 1, 1, right_hand_y_up(), UvOrigin::TopLeft);
    let padded = pad(&[solid(1), solid(2)], 2, 1, 1);
    let (inside, visible) = mesher.find_bounds(&padded, 1, 1, 1);
    // Only the right neighbour of the first voxel is in the volume.
    assert_eq!(inside, [true, false, false, false, false, false]);
    assert_eq!(visible, [true, false, false, false, false, false]);
    let (inside, visible) = mesher.find_bounds(&padded, 2, 1, 1);
    assert_eq!(inside, [false, false, false, true, false, false]);
    assert_eq!(visible, [false, false, false, true, false, false]);
}

#[test]
fn place_moves_corners_and_keeps_the_normal() {
    let cube = unit_cube(&right_hand_y_up(), UvOrigin::TopLeft);
    let moved = place(cube[2], Vec3::new(4, 5, 6));
    assert_eq!(moved.normal, Vec3::new(0, 1, 0));
    assert_eq!(
        moved.points,
        [Vec3::new(4, 6, 6), Vec3::new(5, 6, 6), Vec3::new(5, 6, 7), Vec3::new(4, 6, 7)]
    );
}

#[test]
fn remap_keeps_uv_whose_origin_is_the_first_corner() {
    let cube = unit_cube(&right_hand_y_up(), UvOrigin::TopLeft);
    for quad in cube {
        let moved = place(quad, Vec3::new(0, 0, 0));
        assert_eq!(moved.uv, quad.uv);
        assert!(same_quad(&moved, &quad));
    }
}

#[test]
fn remap_turns_the_other_convention_upside_down() {
    let cube = unit_cube(&right_hand_y_up(), UvOrigin::BottomLeft);
    for quad in cube {
        let moved = place(quad, Vec3::new(0, 0, 0));
        assert_eq!(
            moved.uv,
            [Vec2::new(0, 0), Vec2::new(1, 0), Vec2::new(1, 1), Vec2::new(0, 1)]
        );
    }
}

#[test]
fn remap_stretches_over_the_bracket_of_first_and_third() {
    let mut quad = unit_cube(&right_hand_y_up(), UvOrigin::TopLeft)[0];
    quad.uv = [Vec2::new(2, 3), Vec2::new(5, 7), Vec2::new(4, 9), Vec2::new(0, 1)];
    let moved = place(quad, Vec3::new(0, 0, 0));
    // Each coordinate t becomes (2, 3) + ((4, 9) - (2, 3)) * t.
    assert_eq!(
        moved.uv,
        [Vec2::new(6, 21), Vec2::new(12, 45), Vec2::new(10, 57), Vec2::new(2, 9)]
    );
}

#[test]
fn meshed_quads_carry_remapped_uv() {
    let mesher = Culling::new(1, 1, 1, right_hand_y_up(), UvOrigin::BottomLeft);
    let result = mesher.eval_append_border(&[solid(1)]).unwrap();
    for quad in &result.quads {
        assert_eq!(
            quad.uv,
            [Vec2::new(0, 0), Vec2::new(1, 0), Vec2::new(1, 1), Vec2::new(0, 1)]
        );
    }
}
