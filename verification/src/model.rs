//! The voxel grid: voxels, bounding size, model well-formedness.

use vstd::prelude::*;

verus! {

/// Largest accepted bounding dimension along any axis. Every screen
/// coordinate is a sum of at most five axis contributions, and the canvas
/// byte length is four times the product of its dimensions; this bound keeps
/// both inside `u32` for every side/view combination.
pub const MAX_DIM: u32 = 4096;

/// A unit cube at integer grid coordinates with a 1-based palette index.
#[derive(Clone, Copy, Debug, PartialEq, Eq, Structural)]
pub struct Voxel {
    pub x: u8,
    pub y: u8,
    pub z: u8,
    /// 1-based palette index: the voxel's color is `palette[i - 1]`.
    pub i: u8,
}

/// The bounding dimensions of a model.
#[derive(Clone, Copy, Debug, PartialEq, Eq, Structural)]
pub struct Size {
    pub x: u32,
    pub y: u32,
    pub z: u32,
}

impl Size {
    /// The x coordinate mirrored against the bounding size.
    pub fn invert_x(&self, voxel: &Voxel) -> (r: u32)
        requires
            voxel.x < self.x,
        ensures
            r == self.x - voxel.x,
    {
        self.x - voxel.x as u32
    }

    /// The y coordinate mirrored against the bounding size.
    pub fn invert_y(&self, voxel: &Voxel) -> (r: u32)
        requires
            voxel.y < self.y,
        ensures
            r == self.y - voxel.y,
    {
        self.y - voxel.y as u32
    }

    /// The z coordinate mirrored against the bounding size.
    pub fn invert_z(&self, voxel: &Voxel) -> (r: u32)
        requires
            voxel.z < self.z,
        ensures
            r == self.z - voxel.z,
    {
        self.z - voxel.z as u32
    }
}

/// A model: bounding dimensions and an ordered list of voxels.
#[derive(Debug)]
pub struct Model {
    pub size: Size,
    pub voxels: Vec<Voxel>,
}

/// The bounding size is small enough that every projection formula and the
/// canvas allocation stay within `u32`.
pub open spec fn size_ok(size: Size) -> bool {
    &&& size.x <= MAX_DIM
    &&& size.y <= MAX_DIM
    &&& size.z <= MAX_DIM
}

/// The voxel lies inside the bounding dimensions.
pub open spec fn voxel_in(size: Size, v: Voxel) -> bool {
    &&& (v.x as u32) < size.x
    &&& (v.y as u32) < size.y
    &&& (v.z as u32) < size.z
}

/// The voxel lies inside the bounding dimensions and carries a 1-based
/// palette index that resolves to an entry of the palette.
pub open spec fn voxel_ok(size: Size, palette: Seq<u32>, v: Voxel) -> bool {
    &&& voxel_in(size, v)
    &&& 1 <= v.i
    &&& v.i as int <= palette.len()
}

/// Every voxel of the model is in bounds and resolves in the palette.
pub open spec fn model_ok(m: Model, palette: Seq<u32>) -> bool {
    &&& size_ok(m.size)
    &&& forall|k: int| 0 <= k < m.voxels@.len() ==> voxel_ok(m.size, palette, #[trigger] m.voxels@[k])
}

} // verus!
