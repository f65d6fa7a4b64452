use crate::chunk::Chunk;
use crate::chunks_holder::ChunksHolder;
use crate::mesh::Vertex;
use vstd::prelude::*;

verus! {

/// The mesh of one chunk, as a refresh pass hands it to the host.
pub struct ChunkMesh {
    /// The place of the chunk in its holder.
    pub chunk: usize,
    /// The corners of the triangles, three for each.
    pub vertices: Vec<Vertex>,
}

impl View for ChunkMesh {
    type V = (int, Seq<Vertex>);

    open spec fn view(&self) -> (int, Seq<Vertex>) {
        (self.chunk as int, self.vertices@)
    }
}

/// What a refresh pass over the first `n` of `chunks` hands out: for each
/// chunk that needs an update, in the order of the store, its place and its
/// mesh.
pub open spec fn pass_meshes(chunks: Seq<Chunk>, n: nat) -> Seq<(int, Seq<Vertex>)>
    decreases n,
{
    if n == 0 {
        Seq::empty()
    } else if chunks[n - 1].dirty() {
        pass_meshes(chunks, (n - 1) as nat).push((n - 1, chunks[n - 1].vertices()))
    } else {
        pass_meshes(chunks, (n - 1) as nat)
    }
}

/// Where no chunk needs an update, a refresh pass has nothing to mesh. So a
/// second pass right after a first one hands out nothing.
pub proof fn lemma_clean_pass_emits_nothing(chunks: Seq<Chunk>, n: nat)
    requires
        n <= chunks.len(),
        forall|i: int| 0 <= i < n ==> !(#[trigger] chunks[i]).dirty(),
    ensures
        pass_meshes(chunks, n).len() == 0,
    decreases n,
{
    if n > 0 {
        lemma_clean_pass_emits_nothing(chunks, (n - 1) as nat);
    }
}

/// A refresh pass hands out one mesh for each chunk that needs an update, and
/// none for the others.
pub proof fn lemma_pass_meshes_dirty_chunks(chunks: Seq<Chunk>, n: nat, k: int)
    requires
        n <= chunks.len(),
        0 <= k < pass_meshes(chunks, n).len(),
    ensures
        0 <= pass_meshes(chunks, n)[k].0 < n,
        chunks[pass_meshes(chunks, n)[k].0].dirty(),
        pass_meshes(chunks, n)[k].1 == chunks[pass_meshes(chunks, n)[k].0].vertices(),
        k > 0 ==> pass_meshes(chunks, n)[k - 1].0 < pass_meshes(chunks, n)[k].0,
    decreases n,
{
    if n > 0 {
        let before = pass_meshes(chunks, (n - 1) as nat);
        if k < before.len() {
            lemma_pass_meshes_dirty_chunks(chunks, (n - 1) as nat, k);
        } else if k > 0 {
            lemma_pass_meshes_dirty_chunks(chunks, (n - 1) as nat, k - 1);
        }
    }
}

/// The step of a chunk from "needs an update" to "updated": a chunk that needs
/// an update is meshed and marked as updated, and an updated chunk is left as
/// it is. Nothing takes a chunk back.
pub fn redraw_chunk(chunk: &mut Chunk) -> (mesh: Option<Vec<Vertex>>)
    ensures
        !final(chunk).dirty(),
        final(chunk).position() == old(chunk).position(),
        final(chunk).samples() == old(chunk).samples(),
        old(chunk).dirty() ==> mesh is Some && mesh->0@ == old(chunk).vertices(),
        !old(chunk).dirty() ==> mesh is None && *final(chunk) == *old(chunk),
{
    if chunk.is_need_update() {
        let vertices = chunk.generate_vertices();
        // set state to updated after redraw completes
        chunk.set_updated();
        Some(vertices)
    } else {
        None
    }
}

/// The index buffer of a triangle list that shares no vertices: each vertex
/// is used once, in order.
pub fn mesh_indices(count: usize) -> (indices: Vec<u32>)
    requires
        count <= u32::MAX,
    ensures
        indices@.len() == count,
        forall|i: int| 0 <= i < count ==> #[trigger] indices@[i] == i,
{
    let mut indices: Vec<u32> = Vec::new();
    let mut next: usize = 0;
    while next < count
        invariant
            next <= count <= u32::MAX,
            indices@.len() == next,
            forall|i: int| 0 <= i < next ==> #[trigger] indices@[i] == i,
        decreases count - next,
    {
        indices.push(next as u32);
        next += 1;
    }
    indices
}

/// One refresh pass: meshes every chunk that needs an update, in the order of
/// the holder's store, and marks it as updated.
pub fn redraw_chunks(chunks: &mut ChunksHolder) -> (meshes: Vec<ChunkMesh>)
    ensures
        final(chunks).chunks@.len() == old(chunks).chunks@.len(),
        forall|i: int|
            0 <= i < old(chunks).chunks@.len() ==> {
                let after = #[trigger] final(chunks).chunks@[i];
                let before = old(chunks).chunks@[i];
                &&& !after.dirty()
                &&& after.position() == before.position()
                &&& after.samples() == before.samples()
                &&& (!before.dirty() ==> after == before)
            },
        meshes@.len() == pass_meshes(old(chunks).chunks@, old(chunks).chunks@.len()).len(),
        forall|k: int|
            0 <= k < meshes@.len() ==> (#[trigger] meshes@[k])@ == pass_meshes(
                old(chunks).chunks@,
                old(chunks).chunks@.len(),
            )[k],
{
    let mut meshes: Vec<ChunkMesh> = Vec::new();
    let count = chunks.chunks.len();
    let mut index: usize = 0;
    while index < count
        invariant
            index <= count,
            count == old(chunks).chunks@.len(),
            chunks.chunks@.len() == count,
            forall|i: int| index <= i < count ==> chunks.chunks@[i] == old(chunks).chunks@[i],
            forall|i: int| 0 <= i < index ==> !(#[trigger] chunks.chunks@[i]).dirty(),
            forall|i: int|
                0 <= i < index ==> (#[trigger] chunks.chunks@[i]).position() == old(
                    chunks,
                ).chunks@[i].position(),
            forall|i: int|
                0 <= i < index ==> (#[trigger] chunks.chunks@[i]).samples() == old(
                    chunks,
                ).chunks@[i].samples(),
            forall|i: int|
                0 <= i < index && !old(chunks).chunks@[i].dirty() ==> #[trigger] chunks.chunks@[i]
                    == old(chunks).chunks@[i],
            meshes@.len() == pass_meshes(old(chunks).chunks@, index as nat).len(),
            forall|k: int|
                0 <= k < meshes@.len() ==> (#[trigger] meshes@[k])@ == pass_meshes(
                    old(chunks).chunks@,
                    index as nat,
                )[k],
        decreases count - index,
    {
        let mesh = redraw_chunk(&mut chunks.chunks[index]);
        match mesh {
            Some(vertices) => {
                meshes.push(ChunkMesh { chunk: index, vertices });
            },
            None => {},
        }
        index += 1;
    }
    meshes
}

} // verus!
