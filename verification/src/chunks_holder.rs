use crate::chunk::{can_sample, sampled_from, Chunk};
use crate::pos::Position;
use vstd::prelude::*;

verus! {

/// The chunks of the world: a cube of `size` chunks along each axis, centred
/// on the origin.
pub struct ChunksHolder {
    pub chunks: Vec<Chunk>,
}

/// The place in a cube of `size` chunks along each axis of the chunk that is
/// stored at `index`: `x` runs fastest.
pub open spec fn lattice_pos(size: int, index: int) -> Position {
    Position {
        x: (index % size) as i64,
        y: ((index / size) % size) as i64,
        z: (index / size / size) as i64,
    }
}

/// The address of the chunk that is stored at `index`: its place in the cube,
/// moved by half the cube's size towards the negative on each axis.
pub open spec fn holder_pos(size: int, index: int) -> Position {
    let place = lattice_pos(size, index);
    let offset = size / 2;
    Position {
        x: (place.x - offset) as i64,
        y: (place.y - offset) as i64,
        z: (place.z - offset) as i64,
    }
}

/// A cube that fits the machine's integers has a side below 2642246.
proof fn lemma_cube_root_bound(size: int)
    requires
        0 <= size,
        size * size * size <= usize::MAX,
    ensures
        size < 2642246,
{
    if size >= 2642246 {
        assert(size * size >= 2642246 * 2642246) by (nonlinear_arith)
            requires
                size >= 2642246,
        ;
        assert(size * size * size >= 2642246 * 2642246 * 2642246) by (nonlinear_arith)
            requires
                size >= 2642246,
                size * size >= 2642246 * 2642246,
        ;
    }
}

impl ChunksHolder {
    /// Builds the `size * size * size` chunks of the world, each sampled from
    /// `density` and in need of an update.
    pub fn new<F: Fn(Position) -> i32>(size: usize, density: &F) -> (holder: Self)
        requires
            size * size * size <= usize::MAX,
            forall|i: int|
                0 <= i < size * size * size ==> can_sample(
                    #[trigger] holder_pos(size as int, i),
                    density,
                ),
        ensures
            holder.chunks@.len() == size * size * size,
            forall|i: int|
                0 <= i < holder.chunks@.len() ==> {
                    let chunk = #[trigger] holder.chunks@[i];
                    &&& chunk.position() == holder_pos(size as int, i)
                    &&& chunk.dirty()
                    &&& sampled_from(chunk.samples(), chunk.position(), density)
                },
    {
        proof {
            lemma_cube_root_bound(size as int);
            assert(size * size <= size * size * size || size == 0) by (nonlinear_arith);
        }
        let volume = size * size * size;
        let mut chunks: Vec<Chunk> = Vec::new();
        let mut index: usize = 0;
        while index < volume
            invariant
                index <= volume,
                volume == size * size * size,
                size < 2642246,
                chunks@.len() == index,
                forall|i: int|
                    0 <= i < size * size * size ==> can_sample(
                        #[trigger] holder_pos(size as int, i),
                        density,
                    ),
                forall|i: int|
                    0 <= i < index ==> {
                        let chunk = #[trigger] chunks@[i];
                        &&& chunk.position() == holder_pos(size as int, i)
                        &&& chunk.dirty()
                        &&& sampled_from(chunk.samples(), chunk.position(), density)
                    },
            decreases volume - index,
        {
            assert(size > 0) by (nonlinear_arith)
                requires
                    index < size * size * size,
            ;
            let offset = size as i64 / 2;
            let place = Self::get_pos_by_index(size, index);
            let chunk_pos = place - Position::new(offset, offset, offset);
            assert(chunk_pos == holder_pos(size as int, index as int));
            let chunk = Chunk::new(chunk_pos, density);
            chunks.push(chunk);
            index += 1;
        }

        Self { chunks }
    }

    pub fn get_pos_by_index(size: usize, index: usize) -> (pos: Position)
        requires
            0 < size,
            index < size * size * size <= usize::MAX,
        ensures
            pos == lattice_pos(size as int, index as int),
            0 <= pos.x < size,
            0 <= pos.y < size,
            0 <= pos.z < size,
    {
        proof {
            let s = size as int;
            let i = index as int;
            lemma_cube_root_bound(s);
            assert(0 <= i / s / s < s) by (nonlinear_arith)
                requires
                    0 <= i < s * s * s,
                    0 < s,
            ;
        }
        Position::new(
            (index % size) as i64,
            ((index / size) % size) as i64,
            (index / size / size) as i64,
        )
    }

    /// Hands out the store of chunks for change, so that a caller can walk it
    /// and update chunks in place. The holder is then what the caller leaves
    /// in the store.
    pub fn iter_chunks_mut(&mut self) -> (chunks: &mut Vec<Chunk>)
        ensures
            *chunks == old(self).chunks,
            final(self).chunks == *final(chunks),
    {
        &mut self.chunks
    }
}

} // verus!
