use crate::append_vertices::{
    append_vertices, cell_vertices, lemma_cell_vertices_in_cell, lemma_cell_vertices_on_edges,
    lemma_uniform_cell_has_no_vertices,
};
use crate::mesh::{Vertex, VERTEX_COLOR};
use crate::pos::Position;
use crate::voxel::Voxel;
use vstd::prelude::*;

verus! {

/// Cells along each axis of a chunk.
pub const CHUNK_REAL_SIZE: usize = 32;

/// Samples along each axis of a chunk: one more than cells, so that every cell
/// has all eight corners and neighbouring chunks sample their shared face alike.
pub const CHUNK_VOXELS_SIZE: usize = CHUNK_REAL_SIZE + 1;

/// Samples in a chunk.
pub const CHUNK_VOLUME: usize = CHUNK_VOXELS_SIZE * CHUNK_VOXELS_SIZE * CHUNK_VOXELS_SIZE;

/// One cubic region of the density field, with the flag that says whether its
/// mesh is out of date.
pub struct Chunk {
    need_update: bool,
    pos: Position,
    voxels: Vec<Voxel>,
}

/// The grid position of the sample that is stored at `index`: `x` runs fastest.
pub open spec fn pos_by_index(index: int) -> Position {
    Position {
        x: (index % 33) as i64,
        y: ((index / 33) % 33) as i64,
        z: (index / 33 / 33) as i64,
    }
}

/// The place at which the sample at grid position `pos` is stored.
pub open spec fn index_by_pos(pos: Position) -> int {
    pos.x + pos.y * 33 + pos.z * 33 * 33
}

/// `pos` is a grid position of a chunk: each component is in `0..=32`.
pub open spec fn in_grid(pos: Position) -> bool {
    &&& 0 <= pos.x <= 32
    &&& 0 <= pos.y <= 32
    &&& 0 <= pos.z <= 32
}

/// `pos` is the origin of a cell of a chunk: each component is in `0..32`.
pub open spec fn in_cells(pos: Position) -> bool {
    &&& 0 <= pos.x < 32
    &&& 0 <= pos.y < 32
    &&& 0 <= pos.z < 32
}

/// A chunk can stand at `pos` when the world coordinates of all its samples
/// fit the machine's integers.
pub open spec fn chunk_pos_in_range(pos: Position) -> bool {
    &&& i64::MIN <= pos.x * 32 && pos.x * 32 + 32 <= i64::MAX
    &&& i64::MIN <= pos.y * 32 && pos.y * 32 + 32 <= i64::MAX
    &&& i64::MIN <= pos.z * 32 && pos.z * 32 + 32 <= i64::MAX
}

/// The world position at which the chunk at `chunk_pos` samples the density
/// for the place `index` of its store.
pub open spec fn world_pos(chunk_pos: Position, index: int) -> Position {
    let local = pos_by_index(index);
    Position {
        x: (local.x + chunk_pos.x * 32) as i64,
        y: (local.y + chunk_pos.y * 32) as i64,
        z: (local.z + chunk_pos.z * 32) as i64,
    }
}

/// The origin of the cell that is meshed as number `n`: `z` runs fastest, then
/// `y`, then `x`.
pub open spec fn cell_by_index(n: int) -> Position {
    Position { x: (n / 1024) as i64, y: ((n / 32) % 32) as i64, z: (n % 32) as i64 }
}

/// The vertex `v`, moved by `by` lattice steps.
pub open spec fn shifted(v: Vertex, by: Position) -> Vertex {
    Vertex {
        cell: Position {
            x: (v.cell.x + by.x) as i64,
            y: (v.cell.y + by.y) as i64,
            z: (v.cell.z + by.z) as i64,
        },
        offset: v.offset,
        normal: v.normal,
        color: v.color,
    }
}

/// `density` can be asked for its value at every sample of a chunk at `pos`.
pub open spec fn can_sample<F: Fn(Position) -> i32>(pos: Position, density: &F) -> bool {
    forall|index: int|
        0 <= index < CHUNK_VOLUME ==> call_requires(density, (#[trigger] world_pos(pos, index),))
}

/// `voxels` is the field that a chunk at `pos` samples from `density`: each
/// sample is a value that `density` returns for the sample's world position.
pub open spec fn sampled_from<F: Fn(Position) -> i32>(
    voxels: Seq<Voxel>,
    pos: Position,
    density: &F,
) -> bool {
    &&& voxels.len() == CHUNK_VOLUME
    &&& forall|index: int|
        0 <= index < CHUNK_VOLUME ==> call_ensures(
            density,
            (world_pos(pos, index),),
            (#[trigger] voxels[index]).value,
        )
}

impl Chunk {
    /// The chunk's address, in chunk units.
    pub closed spec fn position(&self) -> Position {
        self.pos
    }

    /// Whether the chunk's mesh is out of date.
    pub closed spec fn dirty(&self) -> bool {
        self.need_update
    }

    /// The chunk's samples, in the order of their store.
    pub closed spec fn samples(&self) -> Seq<Voxel> {
        self.voxels@
    }

    /// Every chunk has a full store of samples and stands where the world
    /// coordinates of its samples fit the machine's integers.
    #[verifier::type_invariant]
    spec fn inv(&self) -> bool {
        &&& self.voxels@.len() == CHUNK_VOLUME
        &&& chunk_pos_in_range(self.pos)
    }

    /// What holds of every chunk that the program holds, stated for proofs
    /// about chunks that are given as values of a contract.
    pub open spec fn wf(&self) -> bool {
        &&& self.samples().len() == CHUNK_VOLUME
        &&& chunk_pos_in_range(self.position())
    }

    /// The sample at grid position `pos`.
    pub open spec fn voxel_at(&self, pos: Position) -> Voxel {
        self.samples()[index_by_pos(pos)]
    }

    /// The vertices of the first `cells` cells in meshing order, in chunk-local
    /// coordinates.
    pub open spec fn local_vertices(&self, cells: nat) -> Seq<Vertex>
        decreases cells,
    {
        if cells == 0 {
            Seq::empty()
        } else {
            self.local_vertices((cells - 1) as nat) + cell_vertices(
                self,
                cell_by_index(cells - 1),
            )
        }
    }

    /// The world position of the chunk's first sample: its address times the
    /// number of cells along an axis.
    pub open spec fn origin(&self) -> Position {
        Position {
            x: (self.position().x * 32) as i64,
            y: (self.position().y * 32) as i64,
            z: (self.position().z * 32) as i64,
        }
    }

    /// The chunk's mesh: the vertices of all its cells in meshing order, moved
    /// to the chunk's place in the world.
    pub open spec fn vertices(&self) -> Seq<Vertex> {
        let local = self.local_vertices(32768);
        Seq::new(local.len(), |i: int| shifted(local[i], self.origin()))
    }

    /// Samples `density` at every grid point of the chunk at `pos`. The new
    /// chunk needs an update.
    pub fn new<F: Fn(Position) -> i32>(pos: Position, density: &F) -> (chunk: Self)
        requires
            chunk_pos_in_range(pos),
            can_sample(pos, density),
        ensures
            chunk.wf(),
            chunk.position() == pos,
            chunk.dirty(),
            sampled_from(chunk.samples(), pos, density),
    {
        let mut voxels: Vec<Voxel> = Vec::new();
        let offset = pos * (CHUNK_REAL_SIZE as i64);
        let mut index: usize = 0;
        while index < CHUNK_VOLUME
            invariant
                index <= CHUNK_VOLUME,
                voxels.len() == index,
                chunk_pos_in_range(pos),
                offset.x == pos.x * 32 && offset.y == pos.y * 32 && offset.z == pos.z * 32,
                can_sample(pos, density),
                forall|i: int|
                    0 <= i < index ==> call_ensures(
                        density,
                        (world_pos(pos, i),),
                        (#[trigger] voxels[i]).value,
                    ),
            decreases CHUNK_VOLUME - index,
        {
            let world = Self::get_pos_by_index(index) + offset;
            assert(world == world_pos(pos, index as int));
            let value = density(world);
            voxels.push(Voxel { value });
            index += 1;
        }
        Self { voxels, need_update: true, pos }
    }

    pub fn get_pos_by_index(index: usize) -> (pos: Position)
        ensures
            pos == pos_by_index(index as int),
            index < CHUNK_VOLUME ==> in_grid(pos) && index_by_pos(pos) == index,
    {
        proof {
            lemma_chunk_constants();
            lemma_index_pos_inverse(index as int, Position { x: 0, y: 0, z: 0 });
        }
        Position::new(
            (index % CHUNK_VOXELS_SIZE) as i64,
            ((index / CHUNK_VOXELS_SIZE) % CHUNK_VOXELS_SIZE) as i64,
            (index / CHUNK_VOXELS_SIZE / CHUNK_VOXELS_SIZE) as i64,
        )
    }

    pub fn get_index_by_pos(pos: Position) -> (index: usize)
        requires
            in_grid(pos),
        ensures
            index == index_by_pos(pos),
            index < CHUNK_VOLUME,
            pos_by_index(index as int) == pos,
    {
        proof {
            lemma_chunk_constants();
            lemma_index_pos_inverse(0, pos);
        }
        pos.x as usize + (pos.y as usize) * CHUNK_VOXELS_SIZE + (pos.z as usize) * CHUNK_VOXELS_SIZE
            * CHUNK_VOXELS_SIZE
    }

    pub fn get_pos(&self) -> (pos: Position)
        ensures
            pos == self.position(),
            chunk_pos_in_range(pos),
    {
        proof {
            use_type_invariant(self);
        }
        self.pos
    }

    pub fn is_need_update(&self) -> (need_update: bool)
        ensures
            need_update == self.dirty(),
    {
        self.need_update
    }

    /// Records that a mesh has been made of the chunk's samples.
    pub fn set_updated(&mut self)
        ensures
            !final(self).dirty(),
            final(self).position() == old(self).position(),
            final(self).samples() == old(self).samples(),
    {
        proof {
            use_type_invariant(&*self);
        }
        self.need_update = false;
    }

    pub fn get_voxel(&self, pos: Position) -> (voxel: Voxel)
        requires
            in_grid(pos),
        ensures
            voxel == self.voxel_at(pos),
            self.wf(),
    {
        proof {
            use_type_invariant(self);
        }
        self.voxels[Self::get_index_by_pos(pos)]
    }

    /// Meshes the chunk: the triangles of every cell, three vertices each, in
    /// world coordinates.
    pub fn generate_vertices(&self) -> (vertices: Vec<Vertex>)
        ensures
            vertices@ == self.vertices(),
            vertices@.len() <= 491520,
            self.wf(),
    {
        proof {
            use_type_invariant(self);
            lemma_vertices_are_triangles(self);
        }
        let mut vertices: Vec<Vertex> = Vec::new();
        for x in 0..CHUNK_REAL_SIZE
            invariant
                self.wf(),
                vertices@ == self.local_vertices((x * 1024) as nat),
        {
            for y in 0..CHUNK_REAL_SIZE
                invariant
                    x < 32,
                    self.wf(),
                    vertices@ == self.local_vertices((x * 1024 + y * 32) as nat),
            {
                for z in 0..CHUNK_REAL_SIZE
                    invariant
                        x < 32,
                        y < 32,
                        self.wf(),
                        vertices@ == self.local_vertices((x * 1024 + y * 32 + z) as nat),
                {
                    proof {
                        lemma_local_vertices_step(self, x as int, y as int, z as int);
                    }
                    append_vertices(
                        Position::new(x as i64, y as i64, z as i64),
                        self,
                        &mut vertices,
                    );
                }
            }
        }
        proof {
            lemma_local_vertices_in_cells(self, 32768);
        }

        let by = self.pos * (CHUNK_REAL_SIZE as i64);
        let ghost local = vertices@;
        let count = vertices.len();
        for i in 0..count
            invariant
                count == local.len(),
                vertices@.len() == count,
                self.wf(),
                by == self.origin(),
                forall|j: int| 0 <= j < count ==> in_cells((#[trigger] local[j]).cell),
                forall|j: int| 0 <= j < i ==> vertices@[j] == shifted(local[j], by),
                forall|j: int| i <= j < count ==> vertices@[j] == local[j],
        {
            let mut v = vertices[i];
            assert(in_cells(local[i as int].cell));
            v.cell = v.cell + by;
            vertices.set(i, v);
        }
        assert(vertices@ =~= self.vertices());

        vertices
    }
}

/// The values of the chunk's dimensions.
pub proof fn lemma_chunk_constants()
    ensures
        CHUNK_REAL_SIZE == 32,
        CHUNK_VOXELS_SIZE == 33,
        CHUNK_VOLUME == 35937,
{
    assert(33 * 33 * 33 == 35937) by (nonlinear_arith);
}

/// Sampling is repeatable: two fields sampled at the same chunk address from
/// a density that has one value at each position are equal, sample by sample.
pub proof fn lemma_sampling_deterministic<F: Fn(Position) -> i32>(
    first: Seq<Voxel>,
    second: Seq<Voxel>,
    pos: Position,
    density: &F,
)
    requires
        sampled_from(first, pos, density),
        sampled_from(second, pos, density),
        forall|p: Position, v: i32, w: i32|
            call_ensures(density, (p,), v) && call_ensures(density, (p,), w) ==> v == w,
    ensures
        first == second,
{
    assert forall|i: int| 0 <= i < first.len() implies first[i] == second[i] by {
        assert(call_ensures(density, (world_pos(pos, i),), first[i].value));
        assert(call_ensures(density, (world_pos(pos, i),), second[i].value));
    }
    assert(first =~= second);
}

/// The place of a sample and its grid position determine each other.
pub proof fn lemma_index_pos_inverse(index: int, pos: Position)
    ensures
        0 <= index < CHUNK_VOLUME ==> in_grid(pos_by_index(index)) && index_by_pos(
            pos_by_index(index),
        ) == index,
        in_grid(pos) ==> 0 <= index_by_pos(pos) < CHUNK_VOLUME && pos_by_index(index_by_pos(pos))
            == pos,
{
    lemma_chunk_constants();
    if 0 <= index < 35937 {
        let pos = pos_by_index(index);
        assert(index == (index / 33) * 33 + index % 33);
        assert(index / 33 == (index / 33 / 33) * 33 + (index / 33) % 33);
    }
}

/// A chunk whose samples are all solid, or all empty, has an empty mesh.
pub proof fn lemma_uniform_chunk_has_no_vertices(chunk: &Chunk)
    requires
        chunk.wf(),
        (forall|i: int| 0 <= i < chunk.samples().len() ==> (#[trigger] chunk.samples()[i]).solid())
            || (forall|i: int|
            0 <= i < chunk.samples().len() ==> !(#[trigger] chunk.samples()[i]).solid()),
    ensures
        chunk.vertices().len() == 0,
{
    lemma_uniform_cells_have_no_vertices(chunk, 32768);
}

proof fn lemma_uniform_cells_have_no_vertices(chunk: &Chunk, cells: nat)
    requires
        chunk.wf(),
        cells <= 32768,
        (forall|i: int| 0 <= i < chunk.samples().len() ==> (#[trigger] chunk.samples()[i]).solid())
            || (forall|i: int|
            0 <= i < chunk.samples().len() ==> !(#[trigger] chunk.samples()[i]).solid()),
    ensures
        chunk.local_vertices(cells).len() == 0,
    decreases cells,
{
    if cells > 0 {
        lemma_uniform_cells_have_no_vertices(chunk, (cells - 1) as nat);
        lemma_uniform_cell_has_no_vertices(chunk, cell_by_index(cells - 1));
    }
}

/// The mesh of a chunk is made of the vertices of its cells: what holds of
/// every vertex of every cell, once moved into the world, holds of every
/// vertex of the mesh.
pub proof fn lemma_vertices_come_from_cells(chunk: &Chunk, holds: spec_fn(Vertex) -> bool)
    requires
        forall|pos: Position, i: int|
            in_cells(pos) && 0 <= i < cell_vertices(chunk, pos).len() ==> holds(
                shifted(#[trigger] cell_vertices(chunk, pos)[i], chunk.origin()),
            ),
    ensures
        forall|i: int| 0 <= i < chunk.vertices().len() ==> holds(#[trigger] chunk.vertices()[i]),
{
    lemma_local_vertices_come_from_cells(chunk, holds, 32768);
}

proof fn lemma_local_vertices_come_from_cells(
    chunk: &Chunk,
    holds: spec_fn(Vertex) -> bool,
    cells: nat,
)
    requires
        cells <= 32768,
        forall|pos: Position, i: int|
            in_cells(pos) && 0 <= i < cell_vertices(chunk, pos).len() ==> holds(
                shifted(#[trigger] cell_vertices(chunk, pos)[i], chunk.origin()),
            ),
    ensures
        forall|i: int|
            0 <= i < chunk.local_vertices(cells).len() ==> holds(
                shifted(#[trigger] chunk.local_vertices(cells)[i], chunk.origin()),
            ),
    decreases cells,
{
    if cells > 0 {
        lemma_local_vertices_come_from_cells(chunk, holds, (cells - 1) as nat);
        let pos = cell_by_index(cells - 1);
        assert(in_cells(pos));
        let before = chunk.local_vertices((cells - 1) as nat);
        let cell = cell_vertices(chunk, pos);
        assert(chunk.local_vertices(cells) == before + cell);
        assert forall|i: int| 0 <= i < (before + cell).len() implies holds(
            shifted(#[trigger] (before + cell)[i], chunk.origin()),
        ) by {
            if i >= before.len() {
                assert((before + cell)[i] == cell[i - before.len()]);
            } else {
                assert((before + cell)[i] == before[i]);
            }
        }
    }
}

/// The mesh of a chunk is a list of whole triangles, at most five for each
/// cell.
pub proof fn lemma_vertices_are_triangles(chunk: &Chunk)
    ensures
        chunk.vertices().len() % 3 == 0,
        chunk.vertices().len() <= 491520,
{
    lemma_local_vertices_are_triangles(chunk, 32768);
}

proof fn lemma_local_vertices_are_triangles(chunk: &Chunk, cells: nat)
    ensures
        chunk.local_vertices(cells).len() % 3 == 0,
        chunk.local_vertices(cells).len() <= 15 * cells,
    decreases cells,
{
    if cells > 0 {
        lemma_local_vertices_are_triangles(chunk, (cells - 1) as nat);
        lemma_cell_vertices_on_edges(chunk, cell_by_index(cells - 1));
    }
}

/// Every vertex of a mesh lies on an edge of the lattice, within the chunk's
/// cells, and has the one colour of the mesher.
pub proof fn lemma_vertices_on_lattice_edges(chunk: &Chunk)
    requires
        chunk.wf(),
    ensures
        forall|i: int|
            0 <= i < chunk.vertices().len() ==> {
                let v = #[trigger] chunk.vertices()[i];
                &&& v.offset.wf()
                &&& v.offset.on_cell_edge()
                &&& v.color == VERTEX_COLOR
                &&& chunk.origin().x <= v.cell.x < chunk.origin().x + 32
                &&& chunk.origin().y <= v.cell.y < chunk.origin().y + 32
                &&& chunk.origin().z <= v.cell.z < chunk.origin().z + 32
            },
{
    let origin = chunk.origin();
    let holds = |v: Vertex|
        {
            &&& v.offset.wf()
            &&& v.offset.on_cell_edge()
            &&& v.color == VERTEX_COLOR
            &&& origin.x <= v.cell.x < origin.x + 32
            &&& origin.y <= v.cell.y < origin.y + 32
            &&& origin.z <= v.cell.z < origin.z + 32
        };
    assert forall|pos: Position, i: int|
        in_cells(pos) && 0 <= i < cell_vertices(chunk, pos).len() implies holds(
        shifted(#[trigger] cell_vertices(chunk, pos)[i], chunk.origin()),
    ) by {
        lemma_cell_vertices_on_edges(chunk, pos);
        lemma_cell_vertices_in_cell(chunk, pos);
    }
    lemma_vertices_come_from_cells(chunk, holds);
    assert forall|i: int| 0 <= i < chunk.vertices().len() implies {
        let v = #[trigger] chunk.vertices()[i];
        &&& v.offset.wf()
        &&& v.offset.on_cell_edge()
        &&& v.color == VERTEX_COLOR
        &&& chunk.origin().x <= v.cell.x < chunk.origin().x + 32
        &&& chunk.origin().y <= v.cell.y < chunk.origin().y + 32
        &&& chunk.origin().z <= v.cell.z < chunk.origin().z + 32
    } by {
        assert(holds(chunk.vertices()[i]));
    }
}

/// Meshing one more cell appends that cell's vertices.
proof fn lemma_local_vertices_step(chunk: &Chunk, x: int, y: int, z: int)
    requires
        0 <= x < 32,
        0 <= y < 32,
        0 <= z < 32,
    ensures
        cell_by_index(x * 1024 + y * 32 + z) == (Position {
            x: x as i64,
            y: y as i64,
            z: z as i64,
        }),
        chunk.local_vertices((x * 1024 + y * 32 + z + 1) as nat) == chunk.local_vertices(
            (x * 1024 + y * 32 + z) as nat,
        ) + cell_vertices(chunk, Position { x: x as i64, y: y as i64, z: z as i64 }),
{
    let n = x * 1024 + y * 32 + z;
    assert(n / 1024 == x);
    assert((n / 32) % 32 == y);
    assert(n % 32 == z);
}

/// Before they are moved into the world, the vertices of a chunk are stated
/// relative to origins of the chunk's own cells.
proof fn lemma_local_vertices_in_cells(chunk: &Chunk, cells: nat)
    requires
        cells <= 32768,
    ensures
        forall|i: int|
            0 <= i < chunk.local_vertices(cells).len() ==> in_cells(
                (#[trigger] chunk.local_vertices(cells)[i]).cell,
            ),
    decreases cells,
{
    if cells > 0 {
        lemma_local_vertices_in_cells(chunk, (cells - 1) as nat);
        let pos = cell_by_index(cells - 1);
        lemma_cell_vertices_in_cell(chunk, pos);
        assert(in_cells(pos));
        let before = chunk.local_vertices((cells - 1) as nat);
        let cell = cell_vertices(chunk, pos);
        assert(chunk.local_vertices(cells) == before + cell);
        assert forall|i: int| 0 <= i < (before + cell).len() implies in_cells(
            (#[trigger] (before + cell)[i]).cell,
        ) by {
            if i >= before.len() {
                assert((before + cell)[i] == cell[i - before.len()]);
            }
        }
    }
}

} // verus!
