use crate::pos::Position;
use vstd::prelude::*;

verus! {

/// Marks an entity of the host as the mesh of the chunk at `pos`.
pub struct ChunkComponent {
    pub pos: Position,
}

impl ChunkComponent {
    pub fn new(pos: Position) -> (component: Self)
        ensures
            component.pos == pos,
    {
        Self { pos }
    }
}

} // verus!
