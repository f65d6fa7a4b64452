use vstd::prelude::*;

verus! {

/// One sample of the density field, in fixed-point units chosen by the host.
///
/// A positive value lies inside the solid; zero and negative values lie outside.
#[derive(Clone, Copy, PartialEq, Eq, Structural, Debug)]
pub struct Voxel {
    pub value: i32,
}

/// The eight samples at the corners of one cell, indexed `[x][y][z]` by the
/// corner's offset from the cell's origin.
pub type BlockOfVoxels = [[[Voxel; 2]; 2]; 2];

impl Voxel {
    pub open spec fn solid(self) -> bool {
        self.value > 0
    }

    pub fn is_solid(&self) -> (solid: bool)
        ensures
            solid == self.solid(),
    {
        self.value > 0
    }
}

impl Default for Voxel {
    fn default() -> (voxel: Self)
        ensures
            voxel.value == 0,
    {
        Voxel { value: 0 }
    }
}

} // verus!
