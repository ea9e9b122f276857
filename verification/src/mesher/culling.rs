use crate::cube::{unit_cube, UvOrigin};
use crate::face::Face;
use crate::math::{lerp, Vec2, Vec3};
use crate::mesher::{Mesher, MesherResult};
use crate::quad::{Quad, QuadView};
use crate::voxel::Voxel;
use vstd::prelude::*;

verus! {

/// Texture coordinates stretched over the bracket spanned by the first and
/// the third of them: the bracket's ends are the interpolation from the
/// first to the third at `(0, 0)` and at `(1, 1)`, and every coordinate is
/// replaced by the interpolation between the ends at itself.
pub open spec fn remapped_uv(uv: Seq<Vec2<int>>) -> Seq<Vec2<int>> {
    let low = uv[0].lerp(uv[2], Vec2 { x: 0, y: 0 });
    let high = uv[0].lerp(uv[2], Vec2 { x: 1, y: 1 });
    Seq::new(4, |i: int| low.lerp(high, uv[i]))
}

/// Remapping leaves texture coordinates as they are when the first of
/// them is `(0, 0)` and the third is `(1, 1)`.
pub proof fn lemma_remap_keeps_uv(uv: Seq<Vec2<int>>)
    requires
        uv.len() == 4,
        uv[0] == (Vec2::<int> { x: 0, y: 0 }),
        uv[2] == (Vec2::<int> { x: 1, y: 1 }),
    ensures
        remapped_uv(uv) == uv,
{
    assert(remapped_uv(uv) =~= uv);
}

/// Remapping the texture coordinates of either convention gives those
/// whose origin is the first corner: it keeps that convention and turns the
/// other one upside down.
pub proof fn lemma_remap_of_layout(origin: UvOrigin)
    ensures
        remapped_uv(crate::cube::uv_layout(origin)) == crate::cube::uv_layout(UvOrigin::TopLeft),
{
    assert(remapped_uv(crate::cube::uv_layout(origin)) =~= crate::cube::uv_layout(
        UvOrigin::TopLeft,
    ));
}

/// A quad of the unit cube moved to a voxel: every corner shifted by `by`,
/// the normal kept, the texture coordinates remapped.
pub open spec fn placed(quad: QuadView, by: Vec3<int>) -> QuadView {
    QuadView {
        points: Seq::new(4, |i: int| quad.points[i].plus(by)),
        normal: quad.normal,
        uv: remapped_uv(quad.uv),
    }
}

/// Moves a quad of the unit cube to the voxel at `by` and remaps its
/// texture coordinates.
pub fn place(quad: Quad, by: Vec3<i32>) -> (moved: Quad)
    requires
        placed(quad@, by@).points_within(i32::MIN as int, i32::MAX as int),
        quad@.uv_within(-0x4000, 0x4000),
    ensures
        moved@ == placed(quad@, by@),
{
    let mut face = quad;
    assert forall|j: int| 0 <= j < 4 implies (#[trigger] quad.points[j])@.plus(by@).within(
        i32::MIN as int,
        i32::MAX as int,
    ) by {
        assert(quad@.points[j] == quad.points[j]@);
        assert(placed(quad@, by@).points[j].within(i32::MIN as int, i32::MAX as int));
    }
    assert forall|j: int| 0 <= j < 4 implies (#[trigger] quad.uv[j])@.within(-0x4000, 0x4000) by {
        assert(quad@.uv[j].within(-0x4000, 0x4000));
    }
    for i in 0..4
        invariant
            face.normal == quad.normal,
            face.uv == quad.uv,
            forall|j: int|
                0 <= j < 4 ==> (#[trigger] quad.points[j])@.plus(by@).within(
                    i32::MIN as int,
                    i32::MAX as int,
                ),
            forall|j: int| i <= j < 4 ==> face.points[j] == quad.points[j],
            forall|j: int| 0 <= j < i ==> (#[trigger] face.points[j])@ == quad.points[j]@.plus(by@),
    {
        face.points[i] = face.points[i] + by;
    }
    let zero = Vec2::new(0, 0);
    let one = Vec2::new(1, 1);
    proof {
        quad.uv[0].lemma_lerp_exact(quad.uv[2], zero);
        quad.uv[0].lemma_lerp_exact(quad.uv[2], one);
    }
    let uv_space = [lerp(face.uv[0], face.uv[2], zero), lerp(face.uv[0], face.uv[2], one)];
    assert(uv_space[0]@ == quad.uv[0]@ && uv_space[1]@ == quad.uv[2]@);
    for i in 0..4
        invariant
            face.normal == quad.normal,
            uv_space[0]@ == quad.uv[0]@,
            uv_space[1]@ == quad.uv[2]@,
            uv_space[0]@ == quad@.uv[0].lerp(quad@.uv[2], Vec2 { x: 0, y: 0 }),
            uv_space[1]@ == quad@.uv[0].lerp(quad@.uv[2], Vec2 { x: 1, y: 1 }),
            forall|j: int| 0 <= j < 4 ==> (#[trigger] quad.uv[j])@.within(-0x4000, 0x4000),
            forall|j: int| 0 <= j < 4 ==> (#[trigger] face.points[j])@ == quad.points[j]@.plus(by@),
            forall|j: int| i <= j < 4 ==> face.uv[j] == quad.uv[j],
            forall|j: int|
                0 <= j < i ==> (#[trigger] face.uv[j])@ == uv_space[0]@.lerp(
                    uv_space[1]@,
                    quad.uv[j]@,
                ),
    {
        proof {
            uv_space[0].lemma_lerp_exact(uv_space[1], face.uv[i as int]);
        }
        face.uv[i] = lerp(uv_space[0], uv_space[1], face.uv[i]);
    }
    assert(face@.points =~= placed(quad@, by@).points);
    assert(face@.uv =~= placed(quad@, by@).uv);
    face
}

/// A face of a cell of the padded volume.
pub struct FaceSlot {
    pub x: int,
    pub y: int,
    pub z: int,
    pub face: int,
}

/// A mesher that emits at most one quad per face of a voxel and leaves out
/// every face whose neighbour is as visible as the voxel itself.
pub struct Culling {
    pub width: usize,
    pub height: usize,
    pub depth: usize,
    pub faces: [Vec3<i32>; 6],
    pub uv_origin: UvOrigin,
}

impl Culling {
    /// The orientation table as mathematical vectors.
    pub open spec fn offsets(&self) -> Seq<Vec3<int>> {
        crate::orientation::offsets(self.faces)
    }

    /// One of the three dimensions is zero: there is nothing to mesh.
    pub open spec fn is_degenerate(&self) -> bool {
        self.width == 0 || self.height == 0 || self.depth == 0
    }

    /// The table holds unit offsets and every padded coordinate fits the
    /// 32-bit coordinates of the mesher.
    pub open spec fn well_formed(&self) -> bool {
        &&& crate::orientation::is_unit_table(self.offsets())
        &&& self.width + 2 <= i32::MAX
        &&& self.height + 2 <= i32::MAX
        &&& self.depth + 2 <= i32::MAX
    }

    /// The number of cells of the bare volume.
    pub open spec fn bare_len(&self) -> int {
        self.width * self.height * self.depth
    }

    /// The number of cells of the padded volume.
    pub open spec fn padded_len(&self) -> int {
        (self.width + 2) * (self.height + 2) * (self.depth + 2)
    }

    /// The position of padded coordinate `(x, y, z)` in the padded volume.
    pub open spec fn padded_index(&self, x: int, y: int, z: int) -> int {
        crate::mesher::flat_index(x, y, z, self.width + 2, self.height + 2)
    }

    /// The padded coordinate names a cell of the bare volume: each of its
    /// components is at least 1 and at most the dimension.
    pub open spec fn in_bounds(&self, x: int, y: int, z: int) -> bool {
        &&& 1 <= x <= self.width
        &&& 1 <= y <= self.height
        &&& 1 <= z <= self.depth
    }

    /// The padded coordinate one step from `(x, y, z)` through a face.
    pub open spec fn neighbor(&self, x: int, y: int, z: int, face: int) -> Vec3<int> {
        (Vec3 { x, y, z }).plus(self.offsets()[face])
    }

    /// The position in the padded volume of the neighbour of `(x, y, z)`
    /// through a face.
    pub open spec fn neighbor_index(&self, x: int, y: int, z: int, face: int) -> int {
        let n = self.neighbor(x, y, z, face);
        self.padded_index(n.x, n.y, n.z)
    }

    /// The number of (cell, face) pairs the scan visits: every cell of the
    /// interior layers, border columns and rows included, six faces each.
    pub open spec fn scan_len(&self) -> int {
        (self.width + 2) * (self.height + 2) * self.depth * 6
    }

    /// The `k`-th pair of the scan: layers from the first interior one on,
    /// rows within a layer, cells within a row, faces within a cell.
    pub open spec fn slot_at(&self, k: int) -> FaceSlot {
        let cell = k / 6;
        let row = cell / (self.width + 2);
        FaceSlot {
            x: cell % (self.width + 2),
            y: row % (self.height + 2),
            z: row / (self.height + 2) + 1,
            face: k % 6,
        }
    }

    /// The number of the pair `(x, y, z, face)` in the scan.
    pub open spec fn slot_number(&self, x: int, y: int, z: int, face: int) -> int {
        (((z - 1) * (self.height + 2) + y) * (self.width + 2) + x) * 6 + face
    }

    /// The face of the cell gets a quad: the cell lies in the bare volume
    /// and is visible, and its neighbour through the face is not.
    pub open spec fn emits(&self, grid: Seq<bool>, slot: FaceSlot) -> bool {
        &&& self.in_bounds(slot.x, slot.y, slot.z)
        &&& grid[self.padded_index(slot.x, slot.y, slot.z)]
        &&& !grid[self.neighbor_index(slot.x, slot.y, slot.z, slot.face)]
    }

    /// The quad of a face of a cell: the unit-cube quad of the face, moved
    /// to the cell's position in the bare volume.
    pub open spec fn quad_at(&self, slot: FaceSlot) -> QuadView {
        placed(
            crate::cube::unit_quad(self.offsets(), crate::face::Face::at(slot.face), self.uv_origin),
            Vec3 { x: slot.x - 1, y: slot.y - 1, z: slot.z - 1 },
        )
    }

    /// The numbers of those among the first `n` pairs of the scan that get
    /// a quad, in scan order.
    pub open spec fn emitted(&self, grid: Seq<bool>, n: int) -> Seq<int> {
        Seq::new(n as nat, |k: int| k).filter(|k: int| self.emits(grid, self.slot_at(k)))
    }

    /// The quads of the first `n` pairs of the scan.
    pub open spec fn mesh_prefix(&self, grid: Seq<bool>, n: int) -> Seq<QuadView> {
        self.emitted(grid, n).map_values(|k: int| self.quad_at(self.slot_at(k)))
    }

    /// The mesh of a padded volume with the given visibilities: one quad
    /// for each face of a visible cell whose neighbour is not visible, in
    /// scan order.
    pub open spec fn mesh(&self, grid: Seq<bool>) -> Seq<QuadView> {
        self.mesh_prefix(grid, self.scan_len())
    }

    /// A coordinate inside the padded volume has its position inside the
    /// padded array, and no partial sum of the position exceeds it.
    pub proof fn lemma_padded_index_in_range(&self, x: int, y: int, z: int)
        requires
            0 <= x < self.width + 2,
            0 <= y < self.height + 2,
            0 <= z < self.depth + 2,
        ensures
            0 <= y * (self.width + 2) <= x + y * (self.width + 2),
            0 <= (self.width + 2) * (self.height + 2) <= self.padded_len(),
            0 <= z * ((self.width + 2) * (self.height + 2)),
            x + y * (self.width + 2) < (self.width + 2) * (self.height + 2),
            0 <= self.padded_index(x, y, z) < self.padded_len(),
    {
        crate::mesher::lemma_flat_index_in_range(
            x,
            y,
            z,
            self.width + 2,
            self.height + 2,
            self.depth + 2,
        );
    }

    /// Numbering a pair of the scan and reading the number back gives the
    /// pair, and the numbers of the pairs of the interior layers are the
    /// numbers below `scan_len`.
    pub proof fn lemma_slot_number(&self, x: int, y: int, z: int, face: int)
        requires
            0 <= x < self.width + 2,
            0 <= y < self.height + 2,
            1 <= z,
            0 <= face < 6,
        ensures
            0 <= self.slot_number(x, y, z, face),
            z <= self.depth ==> self.slot_number(x, y, z, face) < self.scan_len(),
            self.slot_at(self.slot_number(x, y, z, face)) == (FaceSlot { x, y, z, face }),
    {
        let bw = self.width + 2;
        let bh = self.height + 2;
        let row = (z - 1) * bh + y;
        let cell = row * bw + x;
        let k = cell * 6 + face;
        assert(0 <= (z - 1) * bh) by (nonlinear_arith)
            requires
                0 <= z - 1,
                0 <= bh,
        ;
        assert(0 <= row * bw) by (nonlinear_arith)
            requires
                0 <= row,
                0 <= bw,
        ;
        vstd::arithmetic::div_mod::lemma_fundamental_div_mod_converse(k, 6, cell, face);
        vstd::arithmetic::div_mod::lemma_fundamental_div_mod_converse(cell, bw, row, x);
        vstd::arithmetic::div_mod::lemma_fundamental_div_mod_converse(row, bh, z - 1, y);
        if z <= self.depth {
            let rows = self.depth * bh;
            assert((z - 1) * bh + bh == z * bh) by (nonlinear_arith);
            assert(z * bh <= rows) by (nonlinear_arith)
                requires
                    z <= self.depth,
                    0 <= bh,
                    rows == self.depth * bh,
            ;
            assert(row * bw + bw == (row + 1) * bw) by (nonlinear_arith);
            assert((row + 1) * bw <= rows * bw) by (nonlinear_arith)
                requires
                    row + 1 <= rows,
                    0 <= bw,
            ;
            assert(rows * bw * 6 == self.scan_len()) by (nonlinear_arith)
                requires
                    self.scan_len() == bw * bh * self.depth * 6,
                    rows == self.depth * bh,
            ;
        }
    }

    /// Every number below `scan_len` is the number of the pair it stands
    /// for, and that pair lies in an interior layer of the padded volume.
    pub proof fn lemma_slot_at(&self, k: int)
        requires
            0 <= k < self.scan_len(),
        ensures
            ({
                let slot = self.slot_at(k);
                &&& 0 <= slot.x < self.width + 2
                &&& 0 <= slot.y < self.height + 2
                &&& 1 <= slot.z <= self.depth
                &&& 0 <= slot.face < 6
                &&& self.slot_number(slot.x, slot.y, slot.z, slot.face) == k
            }),
    {
        let bw = self.width + 2;
        let bh = self.height + 2;
        let cell = k / 6;
        let row = cell / bw;
        vstd::arithmetic::div_mod::lemma_fundamental_div_mod(k, 6);
        vstd::arithmetic::div_mod::lemma_fundamental_div_mod(cell, bw);
        vstd::arithmetic::div_mod::lemma_fundamental_div_mod(row, bh);
        vstd::arithmetic::div_mod::lemma_div_pos_is_pos(k, 6);
        vstd::arithmetic::div_mod::lemma_div_pos_is_pos(cell, bw);
        vstd::arithmetic::div_mod::lemma_div_pos_is_pos(row, bh);
        vstd::arithmetic::div_mod::lemma_mod_pos_bound(cell, bw);
        vstd::arithmetic::div_mod::lemma_mod_pos_bound(row, bh);
        let z = row / bh;
        let y = row % bh;
        let x = cell % bw;
        assert(k == ((z * bh + y) * bw + x) * 6 + k % 6) by (nonlinear_arith)
            requires
                k == 6 * cell + k % 6,
                cell == bw * row + x,
                row == bh * z + y,
        ;
        if z >= self.depth {
            assert(self.depth * bh <= row) by (nonlinear_arith)
                requires
                    row == bh * z + y,
                    z >= self.depth,
                    y >= 0,
                    bh >= 0,
            ;
            assert(self.depth * bh * bw <= cell) by (nonlinear_arith)
                requires
                    cell == bw * row + x,
                    x >= 0,
                    bw >= 0,
                    self.depth * bh <= row,
            ;
            assert(self.scan_len() <= k) by (nonlinear_arith)
                requires
                    k == 6 * cell + k % 6,
                    k % 6 >= 0,
                    self.depth * bh * bw <= cell,
                    self.scan_len() == bw * bh * self.depth * 6,
            ;
        }
    }

    /// One more pair of the scan adds its quad if it gets one, and nothing
    /// otherwise.
    pub proof fn lemma_mesh_prefix_step(&self, grid: Seq<bool>, n: int)
        requires
            0 <= n,
        ensures
            self.mesh_prefix(grid, n + 1) == if self.emits(grid, self.slot_at(n)) {
                self.mesh_prefix(grid, n).push(self.quad_at(self.slot_at(n)))
            } else {
                self.mesh_prefix(grid, n)
            },
            self.mesh_prefix(grid, 0) == Seq::<QuadView>::empty(),
    {
        let pred = |k: int| self.emits(grid, self.slot_at(k));
        let quad = |k: int| self.quad_at(self.slot_at(k));
        let longer = Seq::new((n + 1) as nat, |k: int| k);
        let shorter = Seq::new(n as nat, |k: int| k);
        assert(longer.drop_last() =~= shorter);
        assert(longer.last() == n);
        reveal(Seq::filter);
        assert(longer.filter(pred) == if pred(n) {
            shorter.filter(pred).push(n)
        } else {
            shorter.filter(pred)
        });
        if pred(n) {
            assert(shorter.filter(pred).push(n).map_values(quad) =~= shorter.filter(
                pred,
            ).map_values(quad).push(quad(n)));
        }
        assert(Seq::new(0nat, |k: int| k).filter(pred) =~= Seq::<int>::empty());
        assert(self.mesh_prefix(grid, 0) =~= Seq::<QuadView>::empty());
    }

    /// A cell that is outside the bare volume or hidden adds nothing to
    /// the mesh.
    pub proof fn lemma_skip_cell(&self, grid: Seq<bool>, x: int, y: int, z: int)
        requires
            0 <= x < self.width + 2,
            0 <= y < self.height + 2,
            1 <= z,
            !(self.in_bounds(x, y, z) && grid[self.padded_index(x, y, z)]),
        ensures
            self.mesh_prefix(grid, self.slot_number(x, y, z, 0) + 6) == self.mesh_prefix(
                grid,
                self.slot_number(x, y, z, 0),
            ),
    {
        let first = self.slot_number(x, y, z, 0);
        self.lemma_slot_number(x, y, z, 0);
        self.lemma_slot_number(x, y, z, 1);
        self.lemma_slot_number(x, y, z, 2);
        self.lemma_slot_number(x, y, z, 3);
        self.lemma_slot_number(x, y, z, 4);
        self.lemma_slot_number(x, y, z, 5);
        self.lemma_mesh_prefix_step(grid, first);
        self.lemma_mesh_prefix_step(grid, first + 1);
        self.lemma_mesh_prefix_step(grid, first + 2);
        self.lemma_mesh_prefix_step(grid, first + 3);
        self.lemma_mesh_prefix_step(grid, first + 4);
        self.lemma_mesh_prefix_step(grid, first + 5);
    }

    /// The scan goes through the cells of a row, then the rows of a layer,
    /// then the layers, and is over after the last interior layer.
    pub proof fn lemma_scan_order(&self, x: int, y: int, z: int)
        ensures
            self.slot_number(x, y, z, 0) + 6 == self.slot_number(x + 1, y, z, 0),
            self.slot_number(self.width + 2, y, z, 0) == self.slot_number(0, y + 1, z, 0),
            self.slot_number(0, self.height + 2, z, 0) == self.slot_number(0, 0, z + 1, 0),
            self.slot_number(0, 0, 1, 0) == 0,
            self.slot_number(0, 0, self.depth + 1, 0) == self.scan_len(),
    {
        let bw = self.width + 2;
        let bh = self.height + 2;
        let d = self.depth as int;
        assert((((z - 1) * bh + y) * bw + bw) * 6 == ((((z - 1) * bh + (y + 1)) * bw) + 0) * 6)
            by (nonlinear_arith);
        assert(((((z - 1) * bh + bh) * bw) + 0) * 6 == ((((z + 1 - 1) * bh + 0) * bw) + 0) * 6)
            by (nonlinear_arith);
        assert((((1 - 1) * bh + 0) * bw + 0) * 6 + 0 == 0) by (nonlinear_arith);
        assert((((d + 1 - 1) * bh + 0) * bw + 0) * 6 + 0 == bw * bh * d * 6) by (nonlinear_arith);
    }

    /// The position of bare coordinate `(x, y, z)` in the bare volume.
    pub open spec fn bare_index(&self, x: int, y: int, z: int) -> int {
        crate::mesher::flat_index(x, y, z, self.width as int, self.height as int)
    }

    /// `padded` has the size of the padded volume; its cells inside the
    /// bare volume whose bare position is below `done` hold a clone of the
    /// bare cell they stand for, and all its other cells are absent.
    pub open spec fn is_padding_upto<V: Clone>(
        &self,
        padded: Seq<Option<V>>,
        bare: Seq<V>,
        done: int,
    ) -> bool {
        &&& padded.len() == self.padded_len()
        &&& forall|x: int, y: int, z: int|
            0 <= x < self.width + 2 && 0 <= y < self.height + 2 && 0 <= z < self.depth + 2 ==> {
                let cell = padded[#[trigger] self.padded_index(x, y, z)];
                if self.in_bounds(x, y, z) && self.bare_index(x - 1, y - 1, z - 1) < done {
                    cell matches Some(v) && cloned(bare[self.bare_index(x - 1, y - 1, z - 1)], v)
                } else {
                    cell is None
                }
            }
    }

    /// `padded` is `bare` wrapped in one layer of absent cells: every cell
    /// of the bare volume appears as a clone, one step further along each
    /// axis.
    pub open spec fn is_padding<V: Clone>(&self, padded: Seq<Option<V>>, bare: Seq<V>) -> bool {
        self.is_padding_upto(padded, bare, self.bare_len())
    }

    /// The visibilities of the padded volume, given those of the bare one:
    /// a cell inside the bare volume is as visible as the bare cell it
    /// stands for, and the border is hidden.
    pub open spec fn bordered(&self, grid: Seq<bool>) -> Seq<bool> {
        Seq::new(
            self.padded_len() as nat,
            |p: int|
                {
                    let x = p % (self.width + 2);
                    let y = (p / (self.width + 2)) % (self.height + 2);
                    let z = (p / (self.width + 2)) / (self.height + 2);
                    self.in_bounds(x, y, z) && grid[self.bare_index(x - 1, y - 1, z - 1)]
                },
        )
    }

    /// The quad of a face of a cell of the bare volume fits 32-bit
    /// coordinates, and the unit-cube quad it is made from has small
    /// texture coordinates.
    pub proof fn lemma_placed_fits(&self, x: int, y: int, z: int, face: int)
        requires
            self.well_formed(),
            self.in_bounds(x, y, z),
            0 <= face < 6,
        ensures
            ({
                let unit = crate::cube::unit_quad(self.offsets(), Face::at(face), self.uv_origin);
                &&& placed(unit, Vec3 { x: x - 1, y: y - 1, z: z - 1 }).points_within(
                    i32::MIN as int,
                    i32::MAX as int,
                )
                &&& unit.uv_within(-0x4000, 0x4000)
            }),
    {
        let unit = crate::cube::unit_quad(self.offsets(), Face::at(face), self.uv_origin);
        let by = Vec3::<int> { x: x - 1, y: y - 1, z: z - 1 };
        crate::cube::lemma_unit_quad_bounds(self.offsets(), Face::at(face), self.uv_origin);
        assert forall|i: int| 0 <= i < 4 implies (#[trigger] placed(unit, by).points[i]).within(
            i32::MIN as int,
            i32::MAX as int,
        ) by {
            assert(unit.points[i].within(0, 3));
        }
        assert forall|i: int| 0 <= i < 4 implies (#[trigger] unit.uv[i]).within(
            -0x4000,
            0x4000,
        ) by {
            assert(unit.uv[i].within(0, 1));
        }
    }

    /// The bare volume is no larger than the padded one.
    pub proof fn lemma_bare_fits(&self)
        ensures
            0 <= self.width * self.height <= self.padded_len(),
            0 <= self.bare_len() <= self.padded_len(),
    {
        let w = self.width as int;
        let h = self.height as int;
        let d = self.depth as int;
        assert(0 <= w * h <= (w + 2) * (h + 2)) by (nonlinear_arith)
            requires
                0 <= w,
                0 <= h,
        ;
        assert(0 <= (w * h) * d <= ((w + 2) * (h + 2)) * d) by (nonlinear_arith)
            requires
                0 <= w * h <= (w + 2) * (h + 2),
                0 <= d,
        ;
        assert(((w + 2) * (h + 2)) * d <= ((w + 2) * (h + 2)) * (d + 2)) by (nonlinear_arith)
            requires
                0 <= (w + 2) * (h + 2),
                0 <= d,
        ;
        assert((w + 2) * (h + 2) <= ((w + 2) * (h + 2)) * (d + 2)) by (nonlinear_arith)
            requires
                0 <= (w + 2) * (h + 2),
                0 <= d,
        ;
    }

    /// The bare volume is walked row by row and layer by layer.
    pub proof fn lemma_bare_order(&self, y: int, z: int)
        ensures
            self.bare_index(0, 0, 0) == 0,
            self.bare_index(self.width as int, y, z) == self.bare_index(0, y + 1, z),
            self.bare_index(0, self.height as int, z) == self.bare_index(0, 0, z + 1),
            self.bare_index(0, 0, self.depth as int) == self.bare_len(),
    {
        let w = self.width as int;
        let h = self.height as int;
        let d = self.depth as int;
        assert(w + y * w + z * (w * h) == 0 + (y + 1) * w + z * (w * h)) by (nonlinear_arith);
        assert(0 + h * w + z * (w * h) == 0 + 0 * w + (z + 1) * (w * h)) by (nonlinear_arith);
        assert(0 + 0 * w + d * (w * h) == w * h * d) by (nonlinear_arith);
        assert(0 + 0 * w + 0 * (w * h) == 0) by (nonlinear_arith);
    }

    /// Copying the next bare cell to its place in the padded volume keeps
    /// the padding intact and moves it one cell on.
    pub proof fn lemma_padding_step<V: Clone>(
        &self,
        padded: Seq<Option<V>>,
        bare: Seq<V>,
        x: int,
        y: int,
        z: int,
        copy: V,
    )
        requires
            0 <= x < self.width,
            0 <= y < self.height,
            0 <= z < self.depth,
            self.is_padding_upto(padded, bare, self.bare_index(x, y, z)),
            cloned(bare[self.bare_index(x, y, z)], copy),
        ensures
            0 <= self.padded_index(x + 1, y + 1, z + 1) < padded.len(),
            self.is_padding_upto(
                padded.update(self.padded_index(x + 1, y + 1, z + 1), Some(copy)),
                bare,
                self.bare_index(x, y, z) + 1,
            ),
    {
        let target = self.padded_index(x + 1, y + 1, z + 1);
        let done = self.bare_index(x, y, z);
        let after = padded.update(target, Some(copy));
        self.lemma_padded_index_in_range(x + 1, y + 1, z + 1);
        crate::mesher::lemma_flat_index_coordinates(
            x + 1,
            y + 1,
            z + 1,
            self.width + 2,
            self.height + 2,
        );
        crate::mesher::lemma_flat_index_coordinates(
            x,
            y,
            z,
            self.width as int,
            self.height as int,
        );
        assert forall|cx: int, cy: int, cz: int|
            0 <= cx < self.width + 2 && 0 <= cy < self.height + 2 && 0 <= cz < self.depth
                + 2 implies {
            let cell = after[#[trigger] self.padded_index(cx, cy, cz)];
            if self.in_bounds(cx, cy, cz) && self.bare_index(cx - 1, cy - 1, cz - 1) < done + 1 {
                cell matches Some(v) && cloned(bare[self.bare_index(cx - 1, cy - 1, cz - 1)], v)
            } else {
                cell is None
            }
        } by {
            self.lemma_padded_index_in_range(cx, cy, cz);
            crate::mesher::lemma_flat_index_coordinates(
                cx,
                cy,
                cz,
                self.width + 2,
                self.height + 2,
            );
            if self.in_bounds(cx, cy, cz) {
                crate::mesher::lemma_flat_index_coordinates(
                    cx - 1,
                    cy - 1,
                    cz - 1,
                    self.width as int,
                    self.height as int,
                );
            }
        }
    }

    /// Where cloning a cell keeps its visibility, the padded volume is as
    /// visible as the bare one inside and hidden on its border.
    pub proof fn lemma_padding_visibility<V: Voxel + Clone>(
        &self,
        padded: Seq<Option<V>>,
        bare: Seq<V>,
    )
        requires
            self.is_padding(padded, bare),
            self.bare_len() <= bare.len(),
            crate::mesher::clones_keep_visibility(bare),
        ensures
            crate::mesher::visibility_grid(padded) == self.bordered(
                crate::mesher::visibility_grid(bare),
            ),
    {
        let bw = self.width + 2;
        let bh = self.height + 2;
        let bd = self.depth + 2;
        let from_padded = crate::mesher::visibility_grid(padded);
        let from_bare = self.bordered(crate::mesher::visibility_grid(bare));
        assert forall|p: int| 0 <= p < self.padded_len() implies from_padded[p] == from_bare[p] by {
            crate::mesher::lemma_flat_index_position(p, bw, bh, bd);
            let x = p % bw;
            let y = (p / bw) % bh;
            let z = (p / bw) / bh;
            assert(self.padded_index(x, y, z) == p);
            if self.in_bounds(x, y, z) {
                crate::mesher::lemma_flat_index_in_range(
                    x - 1,
                    y - 1,
                    z - 1,
                    self.width as int,
                    self.height as int,
                    self.depth as int,
                );
            }
        }
        assert(from_padded =~= from_bare);
    }

    /// What the mesh holds. The pairs of the scan that get a quad are
    /// listed once each and in scan order, every listed pair is a face
    /// between a visible cell of the bare volume and a neighbour that is
    /// not visible, every such pair of the scan is listed, and the mesh
    /// holds the quad of each listed pair at the same place. A cell whose
    /// six neighbours are as visible as the cell itself therefore has no
    /// quad.
    pub proof fn lemma_mesh_faces(&self, grid: Seq<bool>)
        ensures
            self.mesh(grid).len() == self.emitted(grid, self.scan_len()).len(),
            forall|i: int|
                0 <= i < self.mesh(grid).len() ==> {
                    let k = #[trigger] self.emitted(grid, self.scan_len())[i];
                    &&& 0 <= k < self.scan_len()
                    &&& self.emits(grid, self.slot_at(k))
                    &&& self.mesh(grid)[i] == self.quad_at(self.slot_at(k))
                },
            forall|i: int, j: int|
                0 <= i < j < self.mesh(grid).len() ==> self.emitted(grid, self.scan_len())[i]
                    < self.emitted(grid, self.scan_len())[j],
            forall|k: int|
                0 <= k < self.scan_len() && self.emits(grid, #[trigger] self.slot_at(k))
                    ==> self.emitted(grid, self.scan_len()).contains(k),
    {
        if self.scan_len() >= 0 {
            self.lemma_emitted(grid, self.scan_len());
        } else {
            assert(Seq::new(self.scan_len() as nat, |k: int| k).len() == 0);
            self.lemma_emitted(grid, 0);
        }
    }

    /// The numbers listed among the first `n` pairs of the scan are below
    /// `n`, ascend, belong to pairs that get a quad, and leave out no such
    /// pair.
    pub proof fn lemma_emitted(&self, grid: Seq<bool>, n: int)
        requires
            0 <= n,
        ensures
            forall|i: int|
                0 <= i < self.emitted(grid, n).len() ==> {
                    let k = #[trigger] self.emitted(grid, n)[i];
                    0 <= k < n && self.emits(grid, self.slot_at(k))
                },
            forall|i: int, j: int|
                0 <= i < j < self.emitted(grid, n).len() ==> self.emitted(grid, n)[i]
                    < self.emitted(grid, n)[j],
            forall|k: int|
                0 <= k < n && self.emits(grid, #[trigger] self.slot_at(k)) ==> self.emitted(
                    grid,
                    n,
                ).contains(k),
        decreases n,
    {
        let pred = |k: int| self.emits(grid, self.slot_at(k));
        reveal(Seq::filter);
        if n == 0 {
            assert(Seq::new(0nat, |k: int| k).filter(pred) =~= Seq::<int>::empty());
        } else {
            self.lemma_emitted(grid, n - 1);
            let longer = Seq::new(n as nat, |k: int| k);
            let shorter = Seq::new((n - 1) as nat, |k: int| k);
            assert(longer.drop_last() =~= shorter);
            assert(longer.last() == n - 1);
            let before = self.emitted(grid, n - 1);
            let now = self.emitted(grid, n);
            assert(now == if pred(n - 1) {
                before.push(n - 1)
            } else {
                before
            });
            assert forall|k: int|
                0 <= k < n && self.emits(grid, #[trigger] self.slot_at(k)) implies now.contains(
                k,
            ) by {
                if k < n - 1 {
                    assert(before.contains(k));
                    let i = choose|i: int| 0 <= i < before.len() && before[i] == k;
                    assert(now[i] == k);
                } else {
                    assert(now[now.len() - 1] == k);
                }
            }
        }
    }

    pub fn new(w: usize, h: usize, d: usize, faces: [Vec3<i32>; 6], uv_origin: UvOrigin) -> (mesher:
        Culling)
        ensures
            mesher.width == w,
            mesher.height == h,
            mesher.depth == d,
            mesher.faces == faces,
            mesher.uv_origin == uv_origin,
    {
        Culling { width: w, height: h, depth: d, faces, uv_origin }
    }

    /// Whether the table holds unit offsets and the padded coordinates fit
    /// 32 bits.
    pub fn is_well_formed(&self) -> (ok: bool)
        ensures
            ok == self.well_formed(),
    {
        let limit: usize = 0x7fff_fffd;
        if self.width > limit || self.height > limit || self.depth > limit {
            return false;
        }
        for i in 0..6
            invariant
                forall|j: int| 0 <= j < i ==> (#[trigger] self.offsets()[j]).within(-1, 1),
        {
            let offset = self.faces[i];
            if offset.x < -1 || offset.x > 1 || offset.y < -1 || offset.y > 1 || offset.z < -1
                || offset.z > 1 {
                assert(!self.offsets()[i as int].within(-1, 1));
                return false;
            }
        }
        true
    }

    /// The number of cells of the padded volume, if the machine can count
    /// that far.
    pub fn padded_volume_len(&self) -> (len: Option<usize>)
        requires
            self.well_formed(),
        ensures
            len is Some <==> self.padded_len() <= usize::MAX,
            len matches Some(n) ==> n == self.padded_len(),
    {
        let border_w = self.width + 2;
        let border_h = self.height + 2;
        let border_d = self.depth + 2;
        proof {
            self.lemma_padded_index_in_range(0, 0, 0);
        }
        match border_w.checked_mul(border_h) {
            Some(layer) => layer.checked_mul(border_d),
            None => None,
        }
    }

    /// Whether `eval` accepts a padded volume of `len` cells.
    pub fn can_eval(&self, len: usize) -> (ok: bool)
        ensures
            ok == self.accepts_padded(len as nat),
    {
        if self.width == 0 || self.height == 0 || self.depth == 0 {
            return true;
        }
        if !self.is_well_formed() {
            return false;
        }
        match self.padded_volume_len() {
            Some(padded) => padded == len,
            None => false,
        }
    }

    /// Whether `eval_append_border` accepts a bare volume of `len` cells.
    pub fn can_eval_append_border(&self, len: usize) -> (ok: bool)
        ensures
            ok == self.accepts_bare(len as nat),
    {
        if self.width == 0 || self.height == 0 || self.depth == 0 {
            return true;
        }
        if !self.is_well_formed() {
            return false;
        }
        match self.padded_volume_len() {
            Some(_) => {
                proof {
                    self.lemma_bare_fits();
                }
                self.width * self.height * self.depth <= len
            },
            None => false,
        }
    }

    /// Whether a padded coordinate names a cell of the bare volume.
    pub fn is_in_bounds(&self, x: i32, y: i32, z: i32) -> (inside: bool)
        ensures
            inside == self.in_bounds(x as int, y as int, z as int),
    {
        1 <= x && x as usize <= self.width && 1 <= y && y as usize <= self.height && 1 <= z
            && z as usize <= self.depth
    }
    /// For each face of the cell at the padded coordinate `(x, y, z)`:
    /// whether the neighbour through that face lies in the bare volume, and
    /// whether it is visible.
    pub fn find_bounds<V>(&self, volume: &[V], x: usize, y: usize, z: usize) -> (found: (
        [bool; 6],
        [bool; 6],
    )) where V: Voxel
        requires
            self.well_formed(),
            self.in_bounds(x as int, y as int, z as int),
            volume@.len() == self.padded_len(),
        ensures
            forall|face: int|
                #![trigger found.0[face]]
                #![trigger found.1[face]]
                0 <= face < 6 ==> {
                    let n = self.neighbor(x as int, y as int, z as int, face);
                    &&& found.0[face] == self.in_bounds(n.x, n.y, n.z)
                    &&& found.1[face] == crate::mesher::visibility_grid(
                        volume@,
                    )[self.neighbor_index(x as int, y as int, z as int, face)]
                },
    {
        let ghost offsets = self.offsets();
        assert forall|i: int| 0 <= i < 6 implies (#[trigger] self.faces[i])@.within(-1, 1) by {
            assert(offsets[i].within(-1, 1));
        }
        let vert = Vec3::new(x as i32, y as i32, z as i32);
        let verts = [
            vert + self.faces[Face::Right.index()],
            vert + self.faces[Face::Back.index()],
            vert + self.faces[Face::Up.index()],
            vert + self.faces[Face::Left.index()],
            vert + self.faces[Face::Front.index()],
            vert + self.faces[Face::Down.index()],
        ];

        let bound_w: usize = self.width + 2;
        let bound_h: usize = self.height + 2;
        let mut vert_in_bounds = [false;6];
        let mut vert_state = [false;6];

        for i in 0..6
            invariant
                self.well_formed(),
                self.in_bounds(x as int, y as int, z as int),
                volume@.len() == self.padded_len(),
                bound_w == self.width + 2,
                bound_h == self.height + 2,
                offsets == self.offsets(),
                forall|j: int|
                    0 <= j < 6 ==> (#[trigger] verts[j])@ == self.neighbor(
                        x as int,
                        y as int,
                        z as int,
                        j,
                    ),
                forall|j: int|
                    #![trigger vert_in_bounds[j]]
                    #![trigger vert_state[j]]
                    0 <= j < i ==> {
                        let n = self.neighbor(x as int, y as int, z as int, j);
                        &&& vert_in_bounds[j] == self.in_bounds(n.x, n.y, n.z)
                        &&& vert_state[j] == crate::mesher::visibility_grid(
                            volume@,
                        )[self.neighbor_index(x as int, y as int, z as int, j)]
                    },
        {
            let v = verts[i];
            proof {
                assert(offsets[i as int].within(-1, 1));
                self.lemma_padded_index_in_range(v.x as int, v.y as int, v.z as int);
                assert(volume.len() == self.padded_len());
            }
            let id = v.x as usize + v.y as usize * bound_w + v.z as usize * (bound_w * bound_h);

            vert_in_bounds[i] = self.is_in_bounds(v.x, v.y, v.z);
            vert_state[i] = volume[id].visibility().is_visible();
        }

        (vert_in_bounds, vert_state)
    }
}

impl Mesher for Culling {
    open spec fn accepts_padded(&self, len: nat) -> bool {
        self.is_degenerate() || (self.well_formed() && len == self.padded_len())
    }

    open spec fn accepts_bare(&self, len: nat) -> bool {
        self.is_degenerate() || (self.well_formed() && self.padded_len() <= usize::MAX && len
            >= self.bare_len())
    }

    /// Wraps the volume in one layer of absent cells and meshes the result:
    /// `None` when a dimension is zero, else the mesh of a padded volume
    /// whose inner cells are clones of the cells of `volume`.
    fn eval_append_border<V>(&self, volume: &[V]) -> (result: Option<MesherResult>) where
        V: Voxel + Clone,

        ensures
            result is None <==> self.is_degenerate(),
            result matches Some(mesh) ==> exists|padded: Seq<Option<V>>|
                #![trigger self.is_padding(padded, volume@)]
                self.is_padding(padded, volume@) && mesh@ == self.mesh(
                    crate::mesher::visibility_grid(padded),
                ),
            result matches Some(mesh) ==> crate::mesher::clones_keep_visibility(volume@) ==> mesh@
                == self.mesh(self.bordered(crate::mesher::visibility_grid(volume@))),
    {
        if self.width == 0 || self.height == 0 || self.depth == 0 {
            return None;
        }
        let border_w = self.width + 2;
        let border_h = self.height + 2;
        let border_d = self.depth + 2;
        proof {
            self.lemma_bare_fits();
            self.lemma_bare_order(0, 0);
            self.lemma_padded_index_in_range(0, 0, 0);
            assert(volume.len() == volume@.len());
        }

        let mut extended_volume: Vec<Option<V>> = vec![None; border_w * border_h * border_d];
        assert forall|x: int, y: int, z: int|
            0 <= x < self.width + 2 && 0 <= y < self.height + 2 && 0 <= z < self.depth
                + 2 implies extended_volume@[#[trigger] self.padded_index(x, y, z)] is None by {
            self.lemma_padded_index_in_range(x, y, z);
            let cell = extended_volume@[self.padded_index(x, y, z)];
            assert(cloned(None::<V>, cell));
        }

        for z in 0..self.depth
            invariant
                self.well_formed(),
                self.padded_len() <= usize::MAX,
                self.bare_len() <= volume@.len(),
                border_w == self.width + 2,
                border_h == self.height + 2,
                self.is_padding_upto(extended_volume@, volume@, self.bare_index(0, 0, z as int)),
        {
            for y in 0..self.height
                invariant
                    self.well_formed(),
                    self.padded_len() <= usize::MAX,
                    self.bare_len() <= volume@.len(),
                    border_w == self.width + 2,
                    border_h == self.height + 2,
                    0 <= z < self.depth,
                    self.is_padding_upto(
                        extended_volume@,
                        volume@,
                        self.bare_index(0, y as int, z as int),
                    ),
            {
                for x in 0..self.width
                    invariant
                        self.well_formed(),
                        self.padded_len() <= usize::MAX,
                        self.bare_len() <= volume@.len(),
                        border_w == self.width + 2,
                        border_h == self.height + 2,
                        0 <= z < self.depth,
                        0 <= y < self.height,
                        self.is_padding_upto(
                            extended_volume@,
                            volume@,
                            self.bare_index(x as int, y as int, z as int),
                        ),
                {
                    proof {
                        self.lemma_padded_index_in_range(x + 1, y + 1, z + 1);
                        crate::mesher::lemma_flat_index_in_range(
                            x as int,
                            y as int,
                            z as int,
                            self.width as int,
                            self.height as int,
                            self.depth as int,
                        );
                        self.lemma_bare_fits();
                        assert(volume.len() == volume@.len());
                        assert((z + 1) * border_w * border_h == (z + 1) * (border_w * border_h))
                            by (nonlinear_arith);
                        assert((z + 1) * border_w <= (z + 1) * border_w * border_h)
                            by (nonlinear_arith)
                            requires
                                border_h >= 1,
                                (z + 1) * border_w >= 0,
                        ;
                        assert(z * self.width * self.height == z * (self.width * self.height))
                            by (nonlinear_arith);
                        assert(z * self.width <= z * self.width * self.height)
                            by (nonlinear_arith)
                            requires
                                self.height >= 1,
                                z * self.width >= 0,
                        ;
                    }
                    let idx_new = (z + 1) * border_w * border_h + (y + 1) * border_w + (x + 1);
                    let idx_org = z * self.width * self.height + y * self.width + x;
                    let copy = volume[idx_org].clone();
                    proof {
                        self.lemma_padding_step(
                            extended_volume@,
                            volume@,
                            x as int,
                            y as int,
                            z as int,
                            copy,
                        );
                    }
                    extended_volume[idx_new] = Some(copy);
                }
                proof {
                    self.lemma_bare_order(y as int, z as int);
                }
            }
            proof {
                self.lemma_bare_order(0, z as int);
            }
        }
        proof {
            self.lemma_bare_order(0, 0);
            assert(self.is_padding(extended_volume@, volume@));
            if crate::mesher::clones_keep_visibility(volume@) {
                self.lemma_padding_visibility(extended_volume@, volume@);
            }
        }

        self.eval(extended_volume.as_slice())
    }

    /// Meshes a padded volume: `None` when a dimension is zero, else the
    /// quads of every face between a visible cell of the bare volume and a
    /// neighbour that is not visible, in scan order.
    fn eval<V>(&self, volume: &[V]) -> (result: Option<MesherResult>) where V: Voxel
        ensures
            result is None <==> self.is_degenerate(),
            result matches Some(mesh) ==> mesh@ == self.mesh(
                crate::mesher::visibility_grid(volume@),
            ),
    {
        if self.width == 0 || self.height == 0 || self.depth == 0 {
            None
        } else {
            let border_w = self.width + 2;
            let border_h = self.height + 2;
            let border_d = self.depth + 2;
            let ghost grid = crate::mesher::visibility_grid(volume@);

            let cube_faces = unit_cube(&self.faces, self.uv_origin);
            assert forall|f: int| 0 <= f < 6 implies (#[trigger] cube_faces[f])@
                == crate::cube::unit_quad(self.offsets(), Face::at(f), self.uv_origin) by {
                assert(crate::cube::quads_view(cube_faces)[f] == cube_faces[f]@);
            }

            proof {
                assert(volume.len() == self.padded_len());
                self.lemma_bare_fits();
            }
            let cells = self.width * self.height * self.depth;
            let mut result: MesherResult = MesherResult {
                quads: match cells.checked_mul(6) {
                    Some(faces) => Vec::with_capacity(faces),
                    None => Vec::new(),
                },
            };
            proof {
                self.lemma_mesh_prefix_step(grid, 0);
                self.lemma_scan_order(0, 0, 1);
                assert(result@ =~= Seq::<QuadView>::empty());
                assert(volume.len() == self.padded_len());
            }

            for z in 1..(border_d - 1)
                invariant
                    self.well_formed(),
                    volume@.len() == self.padded_len(),
                    grid == crate::mesher::visibility_grid(volume@),
                    border_w == self.width + 2,
                    border_h == self.height + 2,
                    border_d == self.depth + 2,
                    forall|f: int|
                        0 <= f < 6 ==> (#[trigger] cube_faces[f])@ == crate::cube::unit_quad(
                            self.offsets(),
                            Face::at(f),
                            self.uv_origin,
                        ),
                    result@ == self.mesh_prefix(grid, self.slot_number(0, 0, z as int, 0)),
            {
                for y in 0..border_h
                    invariant
                        self.well_formed(),
                        volume@.len() == self.padded_len(),
                        grid == crate::mesher::visibility_grid(volume@),
                        border_w == self.width + 2,
                        border_h == self.height + 2,
                        1 <= z <= self.depth,
                        forall|f: int|
                            0 <= f < 6 ==> (#[trigger] cube_faces[f])@ == crate::cube::unit_quad(
                                self.offsets(),
                                Face::at(f),
                                self.uv_origin,
                            ),
                        result@ == self.mesh_prefix(
                            grid,
                            self.slot_number(0, y as int, z as int, 0),
                        ),
                {
                    for x in 0..border_w
                        invariant
                            self.well_formed(),
                            volume@.len() == self.padded_len(),
                            grid == crate::mesher::visibility_grid(volume@),
                            border_w == self.width + 2,
                            border_h == self.height + 2,
                            1 <= z <= self.depth,
                            0 <= y < border_h,
                            forall|f: int|
                                0 <= f < 6 ==> (#[trigger] cube_faces[f])@
                                    == crate::cube::unit_quad(
                                    self.offsets(),
                                    Face::at(f),
                                    self.uv_origin,
                                ),
                            result@ == self.mesh_prefix(
                                grid,
                                self.slot_number(x as int, y as int, z as int, 0),
                            ),
                    {
                        proof {
                            self.lemma_scan_order(x as int, y as int, z as int);
                        }
                        if self.is_in_bounds(x as i32, y as i32, z as i32) {
                            proof {
                                self.lemma_padded_index_in_range(x as int, y as int, z as int);
                                assert(volume.len() == self.padded_len());
                                assert(z * border_h * border_w == z * (border_w * border_h))
                                    by (nonlinear_arith);
                                assert(z * border_h <= z * border_h * border_w)
                                    by (nonlinear_arith)
                                    requires
                                        border_w >= 1,
                                        z * border_h >= 0,
                                ;
                            }
                            let idx = z * border_h * border_w + y * border_w + x;
                            let voxel = &volume[idx];
                            let state = voxel.visibility().is_visible();

                            if state {
                                // Remove the border from the coordinates
                                let vert = Vec3::new(
                                    (x - 1) as i32,
                                    (y - 1) as i32,
                                    (z - 1) as i32,
                                );

                                let (_, volume_state) = self.find_bounds(volume, x, y, z);

                                for face_id in 0..6
                                    invariant
                                        self.well_formed(),
                                        self.in_bounds(x as int, y as int, z as int),
                                        state,
                                        grid[self.padded_index(x as int, y as int, z as int)],
                                        vert@ == (Vec3::<int> { x: x - 1, y: y - 1, z: z - 1 }),
                                        forall|f: int|
                                            0 <= f < 6 ==> (#[trigger] volume_state[f])
                                                == grid[self.neighbor_index(
                                                x as int,
                                                y as int,
                                                z as int,
                                                f,
                                            )],
                                        forall|f: int|
                                            0 <= f < 6 ==> (#[trigger] cube_faces[f])@
                                                == crate::cube::unit_quad(
                                                self.offsets(),
                                                Face::at(f),
                                                self.uv_origin,
                                            ),
                                        result@ == self.mesh_prefix(
                                            grid,
                                            self.slot_number(x as int, y as int, z as int, 0)
                                                + face_id,
                                        ),
                                {
                                    proof {
                                        self.lemma_slot_number(
                                            x as int,
                                            y as int,
                                            z as int,
                                            face_id as int,
                                        );
                                        self.lemma_mesh_prefix_step(
                                            grid,
                                            self.slot_number(x as int, y as int, z as int, 0)
                                                + face_id,
                                        );
                                    }
                                    // No change in state means there is no need to draw a quad
                                    if state != volume_state[face_id] {
                                        proof {
                                            self.lemma_placed_fits(
                                                x as int,
                                                y as int,
                                                z as int,
                                                face_id as int,
                                            );
                                        }
                                        let face = place(cube_faces[face_id], vert);
                                        let ghost before = result@;
                                        result.quads.push(face);
                                        assert(result@ =~= before.push(face@));
                                    }
                                }
                            } else {
                                proof {
                                    self.lemma_skip_cell(grid, x as int, y as int, z as int);
                                }
                            }
                        } else {
                            proof {
                                self.lemma_skip_cell(grid, x as int, y as int, z as int);
                            }
                        }
                    }
                    proof {
                        self.lemma_scan_order(0, y as int, z as int);
                    }
                }
                proof {
                    self.lemma_scan_order(0, 0, z as int);
                }
            }
            proof {
                self.lemma_scan_order(0, 0, 0);
            }

            Some(result)
        }
    }
}

} // verus!
