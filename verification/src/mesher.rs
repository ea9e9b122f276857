//! Meshers turn a padded volume into quads.

pub mod culling;

use crate::quad::{Quad, QuadView};
use crate::voxel::Voxel;
use vstd::prelude::*;

pub use culling::Culling;

verus! {

/// The quads of one meshing pass, in scan order.
pub struct MesherResult {
    pub quads: Vec<Quad>,
}

impl View for MesherResult {
    type V = Seq<QuadView>;

    open spec fn view(&self) -> Seq<QuadView> {
        Seq::new(self.quads@.len(), |i: int| self.quads@[i]@)
    }
}

/// The position of cell `(x, y, z)` in a flat volume whose rows are `bw`
/// cells long and whose layers are `bh` rows high.
pub open spec fn flat_index(x: int, y: int, z: int, bw: int, bh: int) -> int {
    x + y * bw + z * (bw * bh)
}

/// Which cells of a volume are visible, cell by cell.
pub open spec fn visibility_grid<V: Voxel>(volume: Seq<V>) -> Seq<bool> {
    Seq::new(volume.len(), |i: int| volume[i].spec_visibility() == crate::voxel::Visibility::Visible)
}

/// Every clone of a cell of the volume is as visible as the cell.
pub open spec fn clones_keep_visibility<V: Voxel + Clone>(volume: Seq<V>) -> bool {
    forall|i: int, copy: V|
        0 <= i < volume.len() && #[trigger] cloned(volume[i], copy) ==> copy.spec_visibility()
            == volume[i].spec_visibility()
}

/// Inside a volume of `bw` by `bh` by `bd` cells every coordinate has its
/// position inside the flat array.
pub proof fn lemma_flat_index_in_range(x: int, y: int, z: int, bw: int, bh: int, bd: int)
    requires
        0 <= x < bw,
        0 <= y < bh,
        0 <= z < bd,
    ensures
        0 <= y * bw,
        0 <= z * (bw * bh),
        0 <= bw * bh <= bw * bh * bd,
        x + y * bw < bw * bh,
        0 <= flat_index(x, y, z, bw, bh) < bw * bh * bd,
{
    assert(0 <= y * bw <= (bh - 1) * bw) by (nonlinear_arith)
        requires
            0 <= y <= bh - 1,
            bw > 0,
    ;
    assert((bh - 1) * bw + bw == bw * bh) by (nonlinear_arith);
    assert(0 <= z * (bw * bh) <= (bd - 1) * (bw * bh)) by (nonlinear_arith)
        requires
            0 <= z <= bd - 1,
            bw * bh >= 0,
    ;
    assert((bd - 1) * (bw * bh) + bw * bh == bw * bh * bd) by (nonlinear_arith);
}

/// A position in a flat volume determines its coordinate: the remainder by
/// the row length, then by the layer height, then what is left.
pub proof fn lemma_flat_index_coordinates(x: int, y: int, z: int, bw: int, bh: int)
    requires
        0 <= x < bw,
        0 <= y < bh,
    ensures
        flat_index(x, y, z, bw, bh) % bw == x,
        (flat_index(x, y, z, bw, bh) / bw) % bh == y,
        (flat_index(x, y, z, bw, bh) / bw) / bh == z,
{
    let p = flat_index(x, y, z, bw, bh);
    let row = z * bh + y;
    assert(p == row * bw + x) by (nonlinear_arith)
        requires
            p == x + y * bw + z * (bw * bh),
            row == z * bh + y,
    ;
    vstd::arithmetic::div_mod::lemma_fundamental_div_mod_converse(p, bw, row, x);
    vstd::arithmetic::div_mod::lemma_fundamental_div_mod_converse(row, bh, z, y);
}

/// Every position inside a flat volume is the position of the coordinate
/// that [`lemma_flat_index_coordinates`] reads from it.
pub proof fn lemma_flat_index_position(p: int, bw: int, bh: int, bd: int)
    requires
        0 < bw,
        0 < bh,
        0 <= p < bw * bh * bd,
    ensures
        0 <= p % bw < bw,
        0 <= (p / bw) % bh < bh,
        0 <= (p / bw) / bh < bd,
        flat_index(p % bw, (p / bw) % bh, (p / bw) / bh, bw, bh) == p,
{
    let row = p / bw;
    let x = p % bw;
    let y = row % bh;
    let z = row / bh;
    vstd::arithmetic::div_mod::lemma_fundamental_div_mod(p, bw);
    vstd::arithmetic::div_mod::lemma_fundamental_div_mod(row, bh);
    vstd::arithmetic::div_mod::lemma_div_pos_is_pos(p, bw);
    vstd::arithmetic::div_mod::lemma_div_pos_is_pos(row, bh);
    vstd::arithmetic::div_mod::lemma_mod_pos_bound(p, bw);
    vstd::arithmetic::div_mod::lemma_mod_pos_bound(row, bh);
    assert(p == x + y * bw + z * (bw * bh)) by (nonlinear_arith)
        requires
            p == bw * row + x,
            row == bh * z + y,
    ;
    if z >= bd {
        assert(bw * bh * bd <= p) by (nonlinear_arith)
            requires
                p == x + y * bw + z * (bw * bh),
                z >= bd,
                x >= 0,
                y >= 0,
                bw > 0,
                bh > 0,
        ;
    }
}

/// A strategy that turns a volume of voxels into quads.
pub trait Mesher {
    /// The lengths of padded volumes that `eval` accepts: any, unless the
    /// mesher says otherwise.
    open spec fn accepts_padded(&self, len: nat) -> bool {
        true
    }

    /// The lengths of bare volumes that `eval_append_border` accepts: any,
    /// unless the mesher says otherwise.
    open spec fn accepts_bare(&self, len: nat) -> bool {
        true
    }

    /// Wraps the volume in one layer of absent cells and meshes the result.
    fn eval_append_border<V>(&self, volume: &[V]) -> (result: Option<MesherResult>) where
        V: Voxel + Clone,

        requires
            self.accepts_bare(volume@.len()),
    ;

    /// Meshes a volume that already has its border of hidden cells.
    fn eval<V>(&self, volume: &[V]) -> (result: Option<MesherResult>) where V: Voxel
        requires
            self.accepts_padded(volume@.len()),
    ;
}

} // verus!
