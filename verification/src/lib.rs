//! Face-culling mesher for dense voxel volumes.
//!
//! A volume is a flat array of cells, `x` fastest, then `y`, then `z`. The
//! mesher walks a volume that is wrapped in one layer of hidden cells and
//! emits one quad for every face of a visible cell whose neighbour is not
//! visible. All geometry is exact integer geometry: corners, normals and
//! texture coordinates are whole numbers a renderer can widen as needed.

pub mod cube;
pub mod face;
pub mod math;
pub mod mesher;
pub mod orientation;
pub mod quad;
pub mod voxel;

pub use cube::{unit_cube, UvOrigin};
pub use face::Face;
pub use mesher::{Culling, Mesher, MesherResult};
pub use orientation::{left_hand_y_up, right_hand_y_up};
pub use quad::{Quad, QuadView, Winding};
pub use voxel::{Visibility, Voxel};
