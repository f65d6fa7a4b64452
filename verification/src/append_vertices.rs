use crate::chunk::{in_cells, index_by_pos, Chunk};
use crate::edge_midpoints::{
    config_solid, corner_number, corner_weight, edge_crossed, edge_end, edge_start, is_corner,
    Corner, EdgeMidpointsIndices,
};
use crate::mesh::{
    cross, triangle_normal, triangle_vertices, EdgePoint, Normal, Vertex, MAX_DENOMINATOR,
    VERTEX_COLOR,
};
use crate::pos::Position;
use crate::triangulation_table::{
    lemma_rows_well_formed, lemma_uniform_rows_empty, row_entry, row_well_formed, table_entry,
    triangle_count, triangles_of_configuration, triangulation_row,
};
use crate::voxel::{BlockOfVoxels, Voxel};
use vstd::prelude::*;

verus! {

/// The sample of a block at a corner.
pub open spec fn block_voxel(voxels: BlockOfVoxels, corner: Corner) -> Voxel {
    voxels[corner.0][corner.1][corner.2]
}

/// What a corner adds to the cube configuration: its weight where it is solid.
pub open spec fn corner_part(voxels: BlockOfVoxels, corner: Corner) -> int {
    if block_voxel(voxels, corner).solid() {
        corner_weight(corner_number(corner))
    } else {
        0
    }
}

/// The cube configuration of a block: bit `b` is set exactly when the corner
/// with number `b` is solid.
pub open spec fn cube_index(voxels: BlockOfVoxels) -> int {
    corner_part(voxels, (0, 0, 1)) + corner_part(voxels, (1, 0, 1)) + corner_part(
        voxels,
        (1, 0, 0),
    ) + corner_part(voxels, (0, 0, 0)) + corner_part(voxels, (0, 1, 1)) + corner_part(
        voxels,
        (1, 1, 1),
    ) + corner_part(voxels, (1, 1, 0)) + corner_part(voxels, (0, 1, 0))
}

/// The corner that an array of three offsets stands for.
pub open spec fn corner_of(c: [usize; 3]) -> Corner {
    (c[0] as int, c[1] as int, c[2] as int)
}

/// The row of the triangulation table for a block of eight samples: the row of
/// the configuration whose bits say which corners have a density above zero.
pub fn get_triangles_by_voxels(voxels: BlockOfVoxels) -> (triangles: [i8; 16])
    ensures
        triangles == triangulation_row(cube_index(voxels)),
        0 <= cube_index(voxels) < 256,
        row_well_formed(triangles),
{
    let mut index: u8 = 0;
    if voxels[0][0][1].value > 0 {
        index = index + 1;
    }
    if voxels[1][0][1].value > 0 {
        index = index + 2;
    }
    if voxels[1][0][0].value > 0 {
        index = index + 4;
    }
    if voxels[0][0][0].value > 0 {
        index = index + 8;
    }
    if voxels[0][1][1].value > 0 {
        index = index + 16;
    }
    if voxels[1][1][1].value > 0 {
        index = index + 32;
    }
    if voxels[1][1][0].value > 0 {
        index = index + 64;
    }
    if voxels[0][1][0].value > 0 {
        index = index + 128;
    }
    triangles_of_configuration(index)
}

/// The cube configuration is a number below 256 whose bits say which corners
/// are solid.
pub proof fn lemma_cube_index_bits(voxels: BlockOfVoxels, corner: Corner)
    requires
        is_corner(corner),
    ensures
        0 <= cube_index(voxels) < 256,
        config_solid(cube_index(voxels), corner_number(corner)) == block_voxel(
            voxels,
            corner,
        ).solid(),
{
}

/// Every edge that a triangle of a cell names is crossed by the surface:
/// exactly one of its two ends is solid.
pub proof fn lemma_triangles_on_crossed_edges(voxels: BlockOfVoxels, slot: int)
    requires
        0 <= slot < 3 * triangle_count(triangulation_row(cube_index(voxels))),
    ensures
        0 <= table_entry(cube_index(voxels), slot) < 12,
        block_voxel(voxels, edge_start(table_entry(cube_index(voxels), slot))).solid()
            != block_voxel(voxels, edge_end(table_entry(cube_index(voxels), slot))).solid(),
{
    let config = cube_index(voxels);
    let edge = table_entry(config, slot);
    lemma_cube_index_bits(voxels, (0, 0, 0));
    lemma_rows_well_formed(config);
    assert(0 <= edge < 12);
    assert(edge_crossed(config, edge));
    lemma_cube_index_bits(voxels, edge_start(edge));
    lemma_cube_index_bits(voxels, edge_end(edge));
}

/// The crossing fraction `t = a_val / (a_val - b_val)` of an edge from a
/// solid end with density `a_val` to an empty end with density `b_val`, as
/// numerator and denominator. The crossing lies at `a + (b - a) * t`.
pub open spec fn crossing_fraction(a_val: int, b_val: int) -> (int, int) {
    (a_val, a_val - b_val)
}

/// The point at which the surface crosses the edge from `a`, with density
/// `a_val > 0`, to `b`, with density `b_val <= 0`: `a * (1 - t) + b * t` for
/// the crossing fraction `t = a_val / (a_val - b_val)`.
pub open spec fn mix(a: Corner, b: Corner, a_val: int, b_val: int) -> EdgePoint {
    EdgePoint {
        x: (a.0 * (-b_val) + b.0 * a_val) as i64,
        y: (a.1 * (-b_val) + b.1 * a_val) as i64,
        z: (a.2 * (-b_val) + b.2 * a_val) as i64,
        den: (a_val - b_val) as i64,
    }
}

/// What a corner's coordinate takes of a weight: all of it or nothing.
pub open spec fn corner_share(coordinate: int, weight: int) -> int {
    if coordinate == 1 {
        weight
    } else {
        0
    }
}

/// The point of the edge from `a` to `b` that stands for it in a triangle: the
/// crossing where exactly one end is solid, the cell's origin otherwise.
pub open spec fn midpoint_data(voxels: BlockOfVoxels, a: Corner, b: Corner) -> EdgePoint {
    let a_val = block_voxel(voxels, a).value as int;
    let b_val = block_voxel(voxels, b).value as int;
    if a_val > 0 && b_val <= 0 {
        mix(a, b, a_val, b_val)
    } else if a_val <= 0 && b_val > 0 {
        mix(b, a, b_val, a_val)
    } else {
        EdgePoint::origin()
    }
}

/// The point that stands for the edge with number `edge`.
pub open spec fn edge_point(voxels: BlockOfVoxels, edge: int) -> EdgePoint {
    midpoint_data(voxels, edge_start(edge), edge_end(edge))
}

/// The points that stand for the twelve edges, by the edge's number.
pub open spec fn vertex_midpoints(voxels: BlockOfVoxels) -> Seq<EdgePoint> {
    Seq::new(12, |edge: int| edge_point(voxels, edge))
}

/// Interpolates along the edge from corner `a` to corner `b` to the point
/// where the density, taken as linear between the two samples, is zero.
pub fn mix_positions(a: [usize; 3], b: [usize; 3], a_val: i32, b_val: i32) -> (point: EdgePoint)
    requires
        is_corner(corner_of(a)),
        is_corner(corner_of(b)),
        a_val > 0,
        b_val <= 0,
    ensures
        point == mix(corner_of(a), corner_of(b), a_val as int, b_val as int),
        point.wf(),
{
    let from_a: i64 = -(b_val as i64);
    let from_b: i64 = a_val as i64;
    let x: i64 = (if a[0] == 1 { from_a } else { 0 }) + (if b[0] == 1 { from_b } else { 0 });
    let y: i64 = (if a[1] == 1 { from_a } else { 0 }) + (if b[1] == 1 { from_b } else { 0 });
    let z: i64 = (if a[2] == 1 { from_a } else { 0 }) + (if b[2] == 1 { from_b } else { 0 });
    proof {
        lemma_corner_product(a[0] as int, -b_val);
        lemma_corner_product(a[1] as int, -b_val);
        lemma_corner_product(a[2] as int, -b_val);
        lemma_corner_product(b[0] as int, a_val as int);
        lemma_corner_product(b[1] as int, a_val as int);
        lemma_corner_product(b[2] as int, a_val as int);
    }
    EdgePoint { x, y, z, den: from_a + from_b }
}

/// The point that stands for the edge between the corners `a` and `b` of a
/// block: where exactly one of the two is solid, the crossing, interpolated
/// from the solid end; otherwise the cell's origin, which no triangle uses.
pub fn get_midpoint_data(voxels: &BlockOfVoxels, a: [usize; 3], b: [usize; 3]) -> (point: EdgePoint)
    requires
        is_corner(corner_of(a)),
        is_corner(corner_of(b)),
    ensures
        point == midpoint_data(*voxels, corner_of(a), corner_of(b)),
        point.wf(),
{
    let voxel_a = voxels[a[0]][a[1]][a[2]];
    let voxel_b = voxels[b[0]][b[1]][b[2]];
    if voxel_a.value > 0 && voxel_b.value <= 0 {
        mix_positions(a, b, voxel_a.value, voxel_b.value)
    } else if voxel_a.value <= 0 && voxel_b.value > 0 {
        mix_positions(b, a, voxel_b.value, voxel_a.value)
    } else {
        EdgePoint { x: 0, y: 0, z: 0, den: 1 }
    }
}

/// The point that stands for each of the twelve edges, by the edge's number.
pub fn get_vertex_midpoints(voxels: BlockOfVoxels) -> (midpoints: [EdgePoint; 12])
    ensures
        midpoints@ == vertex_midpoints(voxels),
        forall|edge: int| 0 <= edge < 12 ==> (#[trigger] midpoints[edge]).wf(),
{
    let mut result = [EdgePoint { x: 0, y: 0, z: 0, den: 1 };12];

    result[EdgeMidpointsIndices::BottomSouth.index()] = get_midpoint_data(
        &voxels,
        [0, 0, 0],
        [1, 0, 0],
    );
    result[EdgeMidpointsIndices::BottomEast.index()] = get_midpoint_data(
        &voxels,
        [1, 0, 0],
        [1, 0, 1],
    );
    result[EdgeMidpointsIndices::BottomNorth.index()] = get_midpoint_data(
        &voxels,
        [0, 0, 1],
        [1, 0, 1],
    );
    result[EdgeMidpointsIndices::BottomWest.index()] = get_midpoint_data(
        &voxels,
        [0, 0, 0],
        [0, 0, 1],
    );

    result[EdgeMidpointsIndices::NorthEast.index()] = get_midpoint_data(
        &voxels,
        [1, 0, 1],
        [1, 1, 1],
    );
    result[EdgeMidpointsIndices::NorthWest.index()] = get_midpoint_data(
        &voxels,
        [0, 0, 1],
        [0, 1, 1],
    );
    result[EdgeMidpointsIndices::SouthEast.index()] = get_midpoint_data(
        &voxels,
        [1, 0, 0],
        [1, 1, 0],
    );
    result[EdgeMidpointsIndices::SouthWest.index()] = get_midpoint_data(
        &voxels,
        [0, 0, 0],
        [0, 1, 0],
    );

    result[EdgeMidpointsIndices::TopSouth.index()] = get_midpoint_data(
        &voxels,
        [0, 1, 0],
        [1, 1, 0],
    );
    result[EdgeMidpointsIndices::TopEast.index()] = get_midpoint_data(
        &voxels,
        [1, 1, 0],
        [1, 1, 1],
    );
    result[EdgeMidpointsIndices::TopNorth.index()] = get_midpoint_data(
        &voxels,
        [0, 1, 1],
        [1, 1, 1],
    );
    result[EdgeMidpointsIndices::TopWest.index()] = get_midpoint_data(
        &voxels,
        [0, 1, 0],
        [0, 1, 1],
    );

    assert(result@ =~= vertex_midpoints(voxels));
    result
}

/// The crossing fraction of an edge with a solid and an empty end lies in the
/// unit interval: the crossing is a point of the edge.
pub proof fn lemma_crossing_fraction_in_unit_interval(a_val: int, b_val: int)
    requires
        a_val > 0,
        b_val <= 0,
    ensures
        0 < crossing_fraction(a_val, b_val).0 <= crossing_fraction(a_val, b_val).1,
{
}

/// The crossing fraction is monotonic in both densities: where the density at
/// either end rises and the other stays, the crossing does not move towards
/// the solid end. `t1 <= t2` is stated as `num1 * den2 <= num2 * den1`.
pub proof fn lemma_crossing_fraction_monotonic(a1: int, b1: int, a2: int, b2: int)
    requires
        0 < a1 <= a2,
        b1 <= b2 <= 0,
    ensures
        crossing_fraction(a1, b1).0 * crossing_fraction(a2, b2).1 <= crossing_fraction(a2, b2).0
            * crossing_fraction(a1, b1).1,
{
    assert(a1 * (a2 - b2) <= a2 * (a1 - b1)) by (nonlinear_arith)
        requires
            0 < a1 <= a2,
            b1 <= b2 <= 0,
    ;
}

/// A corner's coordinate is 0 or 1: times a weight it is nothing or the weight.
pub proof fn lemma_corner_product(coordinate: int, weight: int)
    requires
        coordinate == 0 || coordinate == 1,
    ensures
        coordinate * weight == (if coordinate == 1 {
            weight
        } else {
            0
        }),
{
    assert(0 * weight == 0 && 1 * weight == weight) by (nonlinear_arith);
}

/// The interpolated point is the point of the edge at the crossing fraction:
/// with `t = num / den`, each coordinate is `a * (den - num) + b * num` over `den`.
pub proof fn lemma_mix_at_crossing_fraction(a: Corner, b: Corner, a_val: int, b_val: int)
    requires
        is_corner(a),
        is_corner(b),
        0 < a_val <= i32::MAX,
        i32::MIN <= b_val <= 0,
    ensures
        ({
            let (num, den) = crossing_fraction(a_val, b_val);
            let point = mix(a, b, a_val, b_val);
            &&& point.den == den
            &&& point.x == a.0 * (den - num) + b.0 * num
            &&& point.y == a.1 * (den - num) + b.1 * num
            &&& point.z == a.2 * (den - num) + b.2 * num
            &&& point.wf()
        }),
{
    lemma_corner_product(a.0, -b_val);
    lemma_corner_product(a.1, -b_val);
    lemma_corner_product(a.2, -b_val);
    lemma_corner_product(b.0, a_val);
    lemma_corner_product(b.1, a_val);
    lemma_corner_product(b.2, a_val);
}

/// The interpolated point without products: each end's coordinates share out
/// the density of the other end.
pub proof fn lemma_mix_by_shares(a: Corner, b: Corner, a_val: int, b_val: int)
    requires
        is_corner(a),
        is_corner(b),
        0 < a_val <= i32::MAX,
        i32::MIN <= b_val <= 0,
    ensures
        mix(a, b, a_val, b_val) == (EdgePoint {
            x: (corner_share(a.0, -b_val) + corner_share(b.0, a_val)) as i64,
            y: (corner_share(a.1, -b_val) + corner_share(b.1, a_val)) as i64,
            z: (corner_share(a.2, -b_val) + corner_share(b.2, a_val)) as i64,
            den: (a_val - b_val) as i64,
        }),
{
    lemma_corner_product(a.0, -b_val);
    lemma_corner_product(a.1, -b_val);
    lemma_corner_product(a.2, -b_val);
    lemma_corner_product(b.0, a_val);
    lemma_corner_product(b.1, a_val);
    lemma_corner_product(b.2, a_val);
}

/// A product is bounded by the product of the bounds of its factors.
pub proof fn lemma_product_bounds(x: int, y: int, bound_x: int, bound_y: int)
    requires
        0 <= x <= bound_x,
        -bound_y <= y <= bound_y,
    ensures
        -(bound_x * bound_y) <= x * y <= bound_x * bound_y,
{
    assert(x * y <= bound_x * bound_y && -(bound_x * bound_y) <= x * y) by (nonlinear_arith)
        requires
            0 <= x <= bound_x,
            -bound_y <= y <= bound_y,
    ;
}

/// One component of a cross product of numerators: `p * q - r * s`.
fn cross_component(p: i64, q: i64, r: i64, s: i64) -> (value: i128)
    requires
        0 <= p <= MAX_DENOMINATOR,
        0 <= q <= MAX_DENOMINATOR,
        0 <= r <= MAX_DENOMINATOR,
        0 <= s <= MAX_DENOMINATOR,
    ensures
        value == p * q - r * s,
        -18446744065119617025 <= value <= 18446744065119617025,
{
    proof {
        lemma_product_bounds(p as int, q as int, 4294967295, 4294967295);
        lemma_product_bounds(r as int, s as int, 4294967295, 4294967295);
        lemma_product_bounds(p as int, q as int, p as int, q as int);
        lemma_product_bounds(r as int, s as int, r as int, s as int);
    }
    (p as i128) * (q as i128) - (r as i128) * (s as i128)
}

/// The cross product of the numerators of `p` and `q`, times `scale`.
fn scaled_cross(p: EdgePoint, q: EdgePoint, scale: i64) -> (value: (i128, i128, i128))
    requires
        p.wf(),
        q.wf(),
        0 < scale <= MAX_DENOMINATOR,
    ensures
        value.0 == scale * cross(p, q).0,
        value.1 == scale * cross(p, q).1,
        value.2 == scale * cross(p, q).2,
        -79228162458924105385300197375 <= value.0 <= 79228162458924105385300197375,
        -79228162458924105385300197375 <= value.1 <= 79228162458924105385300197375,
        -79228162458924105385300197375 <= value.2 <= 79228162458924105385300197375,
{
    let x = cross_component(p.y, q.z, p.z, q.y);
    let y = cross_component(p.z, q.x, p.x, q.z);
    let z = cross_component(p.x, q.y, p.y, q.x);
    proof {
        lemma_product_bounds(scale as int, x as int, 4294967295, 18446744065119617025);
        lemma_product_bounds(scale as int, y as int, 4294967295, 18446744065119617025);
        lemma_product_bounds(scale as int, z as int, 4294967295, 18446744065119617025);
    }
    ((scale as i128) * x, (scale as i128) * y, (scale as i128) * z)
}

/// The direction of the normal of the triangle `a`, `b`, `c`.
pub fn get_triangle_normal(a: EdgePoint, b: EdgePoint, c: EdgePoint) -> (normal: Normal)
    requires
        a.wf(),
        b.wf(),
        c.wf(),
    ensures
        normal == triangle_normal(a, b, c),
{
    let cb = scaled_cross(c, b, a.den);
    let ac = scaled_cross(a, c, b.den);
    let ba = scaled_cross(b, a, c.den);
    let x = cb.0 + ac.0 + ba.0;
    let y = cb.1 + ac.1 + ba.1;
    let z = cb.2 + ac.2 + ba.2;
    if x == 0 && y == 0 && z == 0 {
        Normal { x: 0, y: 1, z: 0 }
    } else {
        Normal { x, y, z }
    }
}

/// Appends the triangle `a`, `b`, `c` of the cell at `pos`: three vertices
/// that share the triangle's normal.
pub fn append_triangle(
    pos: Position,
    vertices: &mut Vec<Vertex>,
    a: EdgePoint,
    b: EdgePoint,
    c: EdgePoint,
    color: u32,
)
    requires
        a.wf(),
        b.wf(),
        c.wf(),
    ensures
        final(vertices)@ == old(vertices)@ + triangle_vertices(pos, a, b, c, color),
{
    let normal = get_triangle_normal(a, b, c);

    vertices.push(Vertex { color, normal, cell: pos, offset: a });
    vertices.push(Vertex { color, normal, cell: pos, offset: b });
    vertices.push(Vertex { color, normal, cell: pos, offset: c });
    assert(vertices@ =~= old(vertices)@ + triangle_vertices(pos, a, b, c, color));
}

/// Vertex number `i` of the triangles of `row` over the edge points `points`,
/// for the cell at `pos`: the point of the edge that slot `i` names, with the
/// normal of the triangle that the slot belongs to.
pub open spec fn row_vertex(
    row: [i8; 16],
    points: Seq<EdgePoint>,
    pos: Position,
    i: int,
) -> Vertex {
    let first = 3 * (i / 3);
    Vertex {
        cell: pos,
        offset: points[row_entry(row, i)],
        normal: triangle_normal(
            points[row_entry(row, first)],
            points[row_entry(row, first + 1)],
            points[row_entry(row, first + 2)],
        ),
        color: VERTEX_COLOR,
    }
}

/// The vertices of the triangles of `row`: three for each, in the row's order.
pub open spec fn row_vertices(
    row: [i8; 16],
    points: Seq<EdgePoint>,
    pos: Position,
) -> Seq<Vertex> {
    Seq::new((3 * triangle_count(row)) as nat, |i: int| row_vertex(row, points, pos, i))
}

/// The vertices that a cell with corner samples `voxels` at `pos` gives: those
/// of the row of its configuration, over its edge points.
pub open spec fn block_vertices(voxels: BlockOfVoxels, pos: Position) -> Seq<Vertex> {
    row_vertices(triangulation_row(cube_index(voxels)), vertex_midpoints(voxels), pos)
}

/// The eight samples at the corners of the cell of `chunk` that starts at `pos`.
pub open spec fn cell_block(chunk: &Chunk, pos: Position) -> BlockOfVoxels {
    let at = |x: int, y: int, z: int|
        chunk.voxel_at(
            Position { x: (pos.x + x) as i64, y: (pos.y + y) as i64, z: (pos.z + z) as i64 },
        );
    [
        [[at(0, 0, 0), at(0, 0, 1)], [at(0, 1, 0), at(0, 1, 1)]],
        [[at(1, 0, 0), at(1, 0, 1)], [at(1, 1, 0), at(1, 1, 1)]],
    ]
}

/// The vertices that the cell of `chunk` at `pos` gives, in chunk-local
/// coordinates. It is opaque, to keep the cell's geometry out of proofs about
/// whole chunks that do not ask for it.
#[verifier::opaque]
pub open spec fn cell_vertices(chunk: &Chunk, pos: Position) -> Seq<Vertex> {
    block_vertices(cell_block(chunk, pos), pos)
}

/// Returns a 3D array with 8 voxels as cube vertices.
pub fn get_voxels_for_vertex(chunk: &Chunk, base_pos: Position) -> (voxels: BlockOfVoxels)
    requires
        in_cells(base_pos),
    ensures
        voxels == cell_block(chunk, base_pos),
{
    let voxels: [[[Voxel; 2]; 2]; 2] = [
        [
            [
                chunk.get_voxel(base_pos + Position::new(0, 0, 0)),
                chunk.get_voxel(base_pos + Position::new(0, 0, 1)),
            ],
            [
                chunk.get_voxel(base_pos + Position::new(0, 1, 0)),
                chunk.get_voxel(base_pos + Position::new(0, 1, 1)),
            ],
        ],
        [
            [
                chunk.get_voxel(base_pos + Position::new(1, 0, 0)),
                chunk.get_voxel(base_pos + Position::new(1, 0, 1)),
            ],
            [
                chunk.get_voxel(base_pos + Position::new(1, 1, 0)),
                chunk.get_voxel(base_pos + Position::new(1, 1, 1)),
            ],
        ],
    ];

    voxels
}

/// Appends the vertices of the cell of `chunk` at `pos`: for the configuration
/// of its eight corners, the triangles that the triangulation table lists, in
/// the table's order.
pub fn append_vertices(pos: Position, chunk: &Chunk, vertices: &mut Vec<Vertex>)
    requires
        in_cells(pos),
    ensures
        final(vertices)@ == old(vertices)@ + cell_vertices(chunk, pos),
{
    reveal(cell_vertices);
    let voxels = get_voxels_for_vertex(chunk, pos);
    let midpoints = get_vertex_midpoints(voxels);

    let triangles = get_triangles_by_voxels(voxels);

    let ghost count = triangle_count(triangles);
    let mut triangle_offset: usize = 0;

    // iterate through triangles
    while triangles[triangle_offset] != -1
        invariant
            triangle_offset <= 15,
            triangle_offset % 3 == 0,
            triangle_offset <= 3 * count,
            count == triangle_count(triangles),
            row_well_formed(triangles),
            forall|edge: int| 0 <= edge < 12 ==> (#[trigger] midpoints[edge]).wf(),
            vertices@.len() == old(vertices)@.len() + triangle_offset,
            forall|i: int| 0 <= i < old(vertices)@.len() ==> vertices@[i] == old(vertices)@[i],
            forall|i: int|
                0 <= i < triangle_offset ==> vertices@[old(vertices)@.len() + i] == row_vertex(
                    triangles,
                    midpoints@,
                    pos,
                    i,
                ),
        decreases 16 - triangle_offset,
    {
        assert(row_entry(triangles, triangle_offset as int) != -1);
        assert(triangle_offset + 2 < 3 * count);
        assert(0 <= row_entry(triangles, triangle_offset as int) < 12);
        assert(0 <= row_entry(triangles, triangle_offset + 1) < 12);
        assert(0 <= row_entry(triangles, triangle_offset + 2) < 12);
        // get 3 triangle points and append them to the mesh
        let a = midpoints[triangles[triangle_offset] as usize];
        let b = midpoints[triangles[triangle_offset + 1] as usize];
        let c = midpoints[triangles[triangle_offset + 2] as usize];

        append_triangle(pos, vertices, a, b, c, VERTEX_COLOR);
        proof {
            let first = triangle_offset as int;
            assert(3 * (first / 3) == first);
            assert(3 * ((first + 1) / 3) == first);
            assert(3 * ((first + 2) / 3) == first);
        }

        triangle_offset += 3;
    }
    proof {
        assert(row_entry(triangles, triangle_offset as int) == -1);
        assert(triangle_offset == 3 * count);
        assert(vertices@ =~= old(vertices)@ + row_vertices(triangles, midpoints@, pos));
    }
}

/// The block of a cell holds, at each corner, the chunk's sample at the cell's
/// origin plus the corner's offset.
pub proof fn lemma_cell_block_corner(chunk: &Chunk, pos: Position, corner: Corner)
    requires
        is_corner(corner),
    ensures
        block_voxel(cell_block(chunk, pos), corner) == chunk.voxel_at(
            Position {
                x: (pos.x + corner.0) as i64,
                y: (pos.y + corner.1) as i64,
                z: (pos.z + corner.2) as i64,
            },
        ),
{
    let voxels = cell_block(chunk, pos);
    assert(voxels[0][0][0] == block_voxel(voxels, (0, 0, 0)));
    assert(voxels[0][0][1] == block_voxel(voxels, (0, 0, 1)));
    assert(voxels[0][1][0] == block_voxel(voxels, (0, 1, 0)));
    assert(voxels[0][1][1] == block_voxel(voxels, (0, 1, 1)));
    assert(voxels[1][0][0] == block_voxel(voxels, (1, 0, 0)));
    assert(voxels[1][0][1] == block_voxel(voxels, (1, 0, 1)));
    assert(voxels[1][1][0] == block_voxel(voxels, (1, 1, 0)));
    assert(voxels[1][1][1] == block_voxel(voxels, (1, 1, 1)));
}

/// Every vertex of a cell is stated relative to the cell's own origin.
pub proof fn lemma_cell_vertices_in_cell(chunk: &Chunk, pos: Position)
    ensures
        forall|i: int|
            0 <= i < cell_vertices(chunk, pos).len() ==> (#[trigger] cell_vertices(
                chunk,
                pos,
            )[i]).cell == pos,
{
    reveal(cell_vertices);
}

/// A cell whose eight corners are all solid, or all empty, has no vertices.
pub proof fn lemma_uniform_cell_has_no_vertices(chunk: &Chunk, pos: Position)
    requires
        in_cells(pos),
        (forall|i: int| 0 <= i < chunk.samples().len() ==> (#[trigger] chunk.samples()[i]).solid())
            || (forall|i: int|
            0 <= i < chunk.samples().len() ==> !(#[trigger] chunk.samples()[i]).solid()),
        chunk.wf(),
    ensures
        cell_vertices(chunk, pos).len() == 0,
{
    reveal(cell_vertices);
    let voxels = cell_block(chunk, pos);
    lemma_uniform_rows_empty();
    assert forall|x: int, y: int, z: int| 0 <= x <= 1 && 0 <= y <= 1 && 0 <= z <= 1 implies (
    #[trigger] block_voxel(voxels, (x, y, z))) == chunk.samples()[index_by_pos(
        Position { x: (pos.x + x) as i64, y: (pos.y + y) as i64, z: (pos.z + z) as i64 },
    )] by {}
    let config = cube_index(voxels);
    assert(block_voxel(voxels, (0, 0, 1)).solid() == block_voxel(voxels, (0, 0, 0)).solid());
    assert(block_voxel(voxels, (1, 0, 1)).solid() == block_voxel(voxels, (0, 0, 0)).solid());
    assert(block_voxel(voxels, (1, 0, 0)).solid() == block_voxel(voxels, (0, 0, 0)).solid());
    assert(block_voxel(voxels, (0, 1, 1)).solid() == block_voxel(voxels, (0, 0, 0)).solid());
    assert(block_voxel(voxels, (1, 1, 1)).solid() == block_voxel(voxels, (0, 0, 0)).solid());
    assert(block_voxel(voxels, (1, 1, 0)).solid() == block_voxel(voxels, (0, 0, 0)).solid());
    assert(block_voxel(voxels, (0, 1, 0)).solid() == block_voxel(voxels, (0, 0, 0)).solid());
    assert(config == 0 || config == 255);
    assert(table_entry(config, 0) == -1);
}

/// A cell gives whole triangles, five at most, and each of their corners is a
/// point of one of the cell's edges.
pub proof fn lemma_cell_vertices_on_edges(chunk: &Chunk, pos: Position)
    ensures
        cell_vertices(chunk, pos).len() % 3 == 0,
        cell_vertices(chunk, pos).len() <= 15,
        forall|i: int|
            0 <= i < cell_vertices(chunk, pos).len() ==> {
                let v = #[trigger] cell_vertices(chunk, pos)[i];
                &&& v.offset.wf()
                &&& v.offset.on_cell_edge()
                &&& v.color == VERTEX_COLOR
            },
{
    reveal(cell_vertices);
    let voxels = cell_block(chunk, pos);
    lemma_cube_index_bits(voxels, (0, 0, 0));
    lemma_rows_well_formed(cube_index(voxels));
    assert forall|i: int| 0 <= i < cell_vertices(chunk, pos).len() implies {
        let v = #[trigger] cell_vertices(chunk, pos)[i];
        &&& v.offset.wf()
        &&& v.offset.on_cell_edge()
        &&& v.color == VERTEX_COLOR
    } by {
        lemma_triangles_on_crossed_edges(voxels, i);
        let edge = table_entry(cube_index(voxels), i);
        let start = edge_start(edge);
        let end = edge_end(edge);
        let start_val = block_voxel(voxels, start).value as int;
        let end_val = block_voxel(voxels, end).value as int;
        assert(cell_vertices(chunk, pos)[i].offset == edge_point(voxels, edge));
        if start_val > 0 {
            lemma_mix_at_crossing_fraction(start, end, start_val, end_val);
            lemma_mix_by_shares(start, end, start_val, end_val);
        } else {
            lemma_mix_at_crossing_fraction(end, start, end_val, start_val);
            lemma_mix_by_shares(end, start, end_val, start_val);
        }
    }
}

} // verus!
