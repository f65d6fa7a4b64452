use crate::append_vertices::{
    block_vertices, block_voxel, cell_block, cell_vertices, cube_index, edge_point,
    lemma_cell_block_corner, lemma_mix_at_crossing_fraction, lemma_mix_by_shares,
    lemma_triangles_on_crossed_edges, row_vertex, vertex_midpoints,
};
use crate::chunk::{
    in_cells, index_by_pos, lemma_chunk_constants, lemma_index_pos_inverse,
    lemma_vertices_come_from_cells, shifted, world_pos, Chunk, CHUNK_VOLUME,
};
use crate::edge_midpoints::{edge_end, edge_start, is_corner, Corner};
use crate::mesh::{scaled_normal, EdgePoint, Normal, Vertex};
use crate::pos::Position;
use crate::triangulation_table::{
    lemma_uniform_rows_empty, part_0, part_1, part_3, part_4, part_6, part_7, table_entry,
    triangle_count, triangulation_row,
};
use crate::voxel::BlockOfVoxels;
use vstd::prelude::*;

verus! {

/// The density `a * x + b * y + c * z + d` at the lattice point `p`: a field
/// with one flat boundary.
pub open spec fn plane_value(a: int, b: int, c: int, d: int, p: Position) -> int {
    a * p.x + b * p.y + c * p.z + d
}

/// The samples of `chunk` are those of the density `a * x + b * y + c * z + d`.
pub open spec fn samples_follow_plane(chunk: &Chunk, a: int, b: int, c: int, d: int) -> bool {
    forall|index: int|
        0 <= index < CHUNK_VOLUME ==> (#[trigger] chunk.samples()[index]).value == plane_value(
            a,
            b,
            c,
            d,
            world_pos(chunk.position(), index),
        )
}

/// The density `a * x + b * y + c * z + d` at the vertex `v`, times the
/// vertex's denominator.
pub open spec fn scaled_plane_value(a: int, b: int, c: int, d: int, v: Vertex) -> int {
    a * (v.cell.x * v.offset.den + v.offset.x) + b * (v.cell.y * v.offset.den + v.offset.y) + c * (
    v.cell.z * v.offset.den + v.offset.z) + d * v.offset.den
}

/// The samples at the corners of a block are those of a density that is
/// `base` at the block's origin and rises by `a`, `b`, `c` along the axes.
pub open spec fn block_follows_plane(
    voxels: BlockOfVoxels,
    a: int,
    b: int,
    c: int,
    base: int,
) -> bool {
    forall|x: int, y: int, z: int|
        0 <= x <= 1 && 0 <= y <= 1 && 0 <= z <= 1 ==> (#[trigger] block_voxel(
            voxels,
            (x, y, z),
        )).value == base + a * x + b * y + c * z
}

/// Linear interpolation finds the zero of a linear density: between two
/// corners with densities `from_val` and `to_val`, the interpolated point has
/// density zero.
proof fn lemma_crossing_on_plane(
    a: int,
    b: int,
    c: int,
    base: int,
    from: Corner,
    to: Corner,
    from_val: int,
    to_val: int,
)
    requires
        from_val == base + a * from.0 + b * from.1 + c * from.2,
        to_val == base + a * to.0 + b * to.1 + c * to.2,
    ensures
        a * (from.0 * (-to_val) + to.0 * from_val) + b * (from.1 * (-to_val) + to.1 * from_val) + c
            * (from.2 * (-to_val) + to.2 * from_val) + base * (from_val - to_val) == 0,
{
    let (f0, f1, f2) = (from.0, from.1, from.2);
    let (t0, t1, t2) = (to.0, to.1, to.2);
    let rise_from = a * f0 + b * f1 + c * f2;
    let rise_to = a * t0 + b * t1 + c * t2;
    assert(a * (f0 * (-to_val) + t0 * from_val) == (a * f0) * (-to_val) + (a * t0) * from_val)
        by (nonlinear_arith);
    assert(b * (f1 * (-to_val) + t1 * from_val) == (b * f1) * (-to_val) + (b * t1) * from_val)
        by (nonlinear_arith);
    assert(c * (f2 * (-to_val) + t2 * from_val) == (c * f2) * (-to_val) + (c * t2) * from_val)
        by (nonlinear_arith);
    assert((a * f0) * (-to_val) + (b * f1) * (-to_val) + (c * f2) * (-to_val) == rise_from * (
    -to_val)) by (nonlinear_arith)
        requires
            rise_from == a * f0 + b * f1 + c * f2,
    ;
    assert((a * t0) * from_val + (b * t1) * from_val + (c * t2) * from_val == rise_to * from_val)
        by (nonlinear_arith)
        requires
            rise_to == a * t0 + b * t1 + c * t2,
    ;
    assert(rise_from * (-to_val) + rise_to * from_val + base * (from_val - to_val) == 0)
        by (nonlinear_arith)
        requires
            from_val == base + rise_from,
            to_val == base + rise_to,
    ;
}

/// In a block that follows a plane, the point of a crossed edge lies on the
/// plane.
proof fn lemma_edge_point_on_plane(
    voxels: BlockOfVoxels,
    a: int,
    b: int,
    c: int,
    base: int,
    edge: int,
)
    requires
        0 <= edge < 12,
        block_follows_plane(voxels, a, b, c, base),
        block_voxel(voxels, edge_start(edge)).solid() != block_voxel(
            voxels,
            edge_end(edge),
        ).solid(),
    ensures
        ({
            let point = edge_point(voxels, edge);
            &&& point.wf()
            &&& a * point.x + b * point.y + c * point.z + base * point.den == 0
        }),
{
    let start = edge_start(edge);
    let end = edge_end(edge);
    let start_val = block_voxel(voxels, start).value as int;
    let end_val = block_voxel(voxels, end).value as int;
    assert(is_corner(start) && is_corner(end));
    assert(block_voxel(voxels, (start.0, start.1, start.2)).value == start_val);
    assert(block_voxel(voxels, (end.0, end.1, end.2)).value == end_val);
    if start_val > 0 {
        lemma_mix_at_crossing_fraction(start, end, start_val, end_val);
        lemma_crossing_on_plane(a, b, c, base, start, end, start_val, end_val);
    } else {
        lemma_mix_at_crossing_fraction(end, start, end_val, start_val);
        lemma_crossing_on_plane(a, b, c, base, end, start, end_val, start_val);
    }
}

/// The density at a point `u + p / den`, times `den`, is the density at `u`
/// times `den`, plus the rise along `p`.
proof fn lemma_scaled_value_splits(
    a: int,
    b: int,
    c: int,
    d: int,
    u: (int, int, int),
    den: int,
    p: (int, int, int),
)
    ensures
        a * (u.0 * den + p.0) + b * (u.1 * den + p.1) + c * (u.2 * den + p.2) + d * den == (a * u.0
            + b * u.1 + c * u.2 + d) * den + (a * p.0 + b * p.1 + c * p.2),
{
    let (ux, uy, uz) = (u.0, u.1, u.2);
    let (px, py, pz) = (p.0, p.1, p.2);
    assert(a * (ux * den + px) == (a * ux) * den + a * px) by (nonlinear_arith);
    assert(b * (uy * den + py) == (b * uy) * den + b * py) by (nonlinear_arith);
    assert(c * (uz * den + pz) == (c * uz) * den + c * pz) by (nonlinear_arith);
    let (au, bu, cu) = (a * ux, b * uy, c * uz);
    assert(au * den + bu * den + cu * den + d * den == (au + bu + cu + d) * den)
        by (nonlinear_arith);
}

/// The density at a lattice point `u + (x, y, z)` is the density at `u` plus
/// the rise along the step.
proof fn lemma_plane_value_of_step(
    a: int,
    b: int,
    c: int,
    d: int,
    u: (int, int, int),
    x: int,
    y: int,
    z: int,
)
    ensures
        a * (u.0 + x) + b * (u.1 + y) + c * (u.2 + z) + d == (a * u.0 + b * u.1 + c * u.2 + d) + a
            * x + b * y + c * z,
{
    let (ux, uy, uz) = (u.0, u.1, u.2);
    assert(a * (ux + x) == a * ux + a * x) by (nonlinear_arith);
    assert(b * (uy + y) == b * uy + b * y) by (nonlinear_arith);
    assert(c * (uz + z) == c * uz + c * z) by (nonlinear_arith);
}

/// In a chunk that samples a plane, the sample at a corner of a cell is the
/// value of the plane at the corner's place in the world.
proof fn lemma_cell_corner_follows_plane(
    chunk: &Chunk,
    a: int,
    b: int,
    c: int,
    d: int,
    pos: Position,
    corner: Corner,
)
    requires
        chunk.wf(),
        samples_follow_plane(chunk, a, b, c, d),
        in_cells(pos),
        is_corner(corner),
    ensures
        block_voxel(cell_block(chunk, pos), corner).value == a * (pos.x + chunk.origin().x
            + corner.0) + b * (pos.y + chunk.origin().y + corner.1) + c * (pos.z + chunk.origin().z
            + corner.2) + d,
{
    let (x, y, z) = corner;
    let p = Position { x: (pos.x + x) as i64, y: (pos.y + y) as i64, z: (pos.z + z) as i64 };
    lemma_chunk_constants();
    lemma_index_pos_inverse(0, p);
    let index = index_by_pos(p);
    lemma_cell_block_corner(chunk, pos, corner);
    assert(block_voxel(cell_block(chunk, pos), corner) == chunk.samples()[index]);
    assert(world_pos(chunk.position(), index) == (Position {
        x: (pos.x + chunk.origin().x + x) as i64,
        y: (pos.y + chunk.origin().y + y) as i64,
        z: (pos.z + chunk.origin().z + z) as i64,
    }));
}

/// In a chunk that samples a plane, the corners of each cell follow the plane.
proof fn lemma_cell_block_follows_plane(
    chunk: &Chunk,
    a: int,
    b: int,
    c: int,
    d: int,
    pos: Position,
)
    requires
        chunk.wf(),
        samples_follow_plane(chunk, a, b, c, d),
        in_cells(pos),
    ensures
        block_follows_plane(
            cell_block(chunk, pos),
            a,
            b,
            c,
            a * (pos.x + chunk.origin().x) + b * (pos.y + chunk.origin().y) + c * (pos.z
                + chunk.origin().z) + d,
        ),
{
    let voxels = cell_block(chunk, pos);
    let by = chunk.origin();
    let u = (pos.x + by.x, pos.y + by.y, pos.z + by.z);
    assert forall|x: int, y: int, z: int| 0 <= x <= 1 && 0 <= y <= 1 && 0 <= z <= 1 implies (
    #[trigger] block_voxel(voxels, (x, y, z))).value == (a * u.0 + b * u.1 + c * u.2 + d) + a * x
        + b * y + c * z by {
        lemma_cell_corner_follows_plane(chunk, a, b, c, d, pos, (x, y, z));
        lemma_plane_value_of_step(a, b, c, d, u, x, y, z);
    }
}

/// In a chunk that samples a plane, every vertex of a cell lies on the plane,
/// once it is moved into the world.
proof fn lemma_cell_vertices_on_plane(
    chunk: &Chunk,
    a: int,
    b: int,
    c: int,
    d: int,
    pos: Position,
)
    requires
        chunk.wf(),
        samples_follow_plane(chunk, a, b, c, d),
        in_cells(pos),
    ensures
        forall|i: int|
            0 <= i < cell_vertices(chunk, pos).len() ==> scaled_plane_value(
                a,
                b,
                c,
                d,
                shifted(#[trigger] cell_vertices(chunk, pos)[i], chunk.origin()),
            ) == 0,
{
    reveal(cell_vertices);
    let voxels = cell_block(chunk, pos);
    let by = chunk.origin();
    let u = (pos.x + by.x, pos.y + by.y, pos.z + by.z);
    let base = a * u.0 + b * u.1 + c * u.2 + d;
    lemma_cell_block_follows_plane(chunk, a, b, c, d, pos);
    let row = triangulation_row(cube_index(voxels));
    assert forall|i: int| 0 <= i < cell_vertices(chunk, pos).len() implies scaled_plane_value(
        a,
        b,
        c,
        d,
        shifted(#[trigger] cell_vertices(chunk, pos)[i], by),
    ) == 0 by {
        let v = cell_vertices(chunk, pos)[i];
        assert(v == row_vertex(row, vertex_midpoints(voxels), pos, i));
        lemma_triangles_on_crossed_edges(voxels, i);
        let edge = table_entry(cube_index(voxels), i);
        assert(v.offset == edge_point(voxels, edge));
        lemma_edge_point_on_plane(voxels, a, b, c, base, edge);
        let point = v.offset;
        lemma_scaled_value_splits(
            a,
            b,
            c,
            d,
            u,
            point.den as int,
            (point.x as int, point.y as int, point.z as int),
        );
        assert(base * point.den == point.den * base) by (nonlinear_arith);
    }
}

/// The mesh of a field with one flat boundary lies on that boundary: where
/// the samples of a chunk are those of the density `a * x + b * y + c * z + d`,
/// that density is zero at every vertex of the chunk's mesh.
pub proof fn lemma_plane_vertices_on_plane(chunk: &Chunk, a: int, b: int, c: int, d: int)
    requires
        chunk.wf(),
        samples_follow_plane(chunk, a, b, c, d),
    ensures
        forall|i: int|
            0 <= i < chunk.vertices().len() ==> scaled_plane_value(
                a,
                b,
                c,
                d,
                #[trigger] chunk.vertices()[i],
            ) == 0,
{
    let on_plane = |v: Vertex| scaled_plane_value(a, b, c, d, v) == 0;
    assert forall|pos: Position, i: int|
        in_cells(pos) && 0 <= i < cell_vertices(chunk, pos).len() implies on_plane(
        shifted(#[trigger] cell_vertices(chunk, pos)[i], chunk.origin()),
    ) by {
        lemma_cell_vertices_on_plane(chunk, a, b, c, d, pos);
    }
    lemma_vertices_come_from_cells(chunk, on_plane);
    assert forall|i: int| 0 <= i < chunk.vertices().len() implies scaled_plane_value(
        a,
        b,
        c,
        d,
        #[trigger] chunk.vertices()[i],
    ) == 0 by {
        assert(on_plane(chunk.vertices()[i]));
    }
}

/// The density changes along exactly one axis.
pub open spec fn along_one_axis(a: int, b: int, c: int) -> bool {
    ||| a != 0 && b == 0 && c == 0
    ||| a == 0 && b != 0 && c == 0
    ||| a == 0 && b == 0 && c != 0
}

/// The normal of every triangle of a field that rises by `a`, `b`, `c` with
/// each step along an axis, where only one of them is not zero: along that
/// axis, against the rise.
pub open spec fn axis_normal(a: int, b: int, c: int) -> Normal {
    Normal { x: (-(a * a * a)) as i128, y: (-(b * b * b)) as i128, z: (-(c * c * c)) as i128 }
}

/// For an edge whose density is `base` at its start and `base + s` at its end,
/// with different signs: the difference of the two densities taken positive,
/// and how far along the edge the crossing lies, in units of that difference.
pub open spec fn crossing_span(s: int, base: int) -> (int, int) {
    if base > 0 {
        (-s, base)
    } else {
        (s, -base)
    }
}

/// The products that the normals of a cell-spanning triangle are made of.
proof fn lemma_flat_products(span: int, rise: int)
    ensures
        rise * span == span * rise,
        span * 0 == 0 && 0 * span == 0 && rise * 0 == 0 && 0 * rise == 0,
        span * (span * span) == span * span * span,
        span * (0 - span * span) == -(span * span * span),
        span * (span * span - 0) == span * span * span,
        span * (0 - span * rise) == -(span * (span * rise)),
        span * (span * rise - 0) == span * (span * rise),
        span * (span * rise - span * rise) == 0,
{
    let sr = span * rise;
    let ss = span * span;
    assert(rise * span == sr) by (nonlinear_arith)
        requires
            sr == span * rise,
    ;
    assert(span * 0 == 0 && 0 * span == 0 && rise * 0 == 0 && 0 * rise == 0) by (nonlinear_arith);
    assert(span * ss == span * span * span) by (nonlinear_arith)
        requires
            ss == span * span,
    ;
    assert(span * (0 - ss) == -(span * ss) && span * (ss - 0) == span * ss) by (nonlinear_arith);
    assert(span * (0 - sr) == -(span * sr) && span * (sr - 0) == span * sr && span * (sr - sr) == 0)
        by (nonlinear_arith);
}

/// The cube of the span is the cube of the rise per step, against its sign.
proof fn lemma_span_cubed(s: int, base: int)
    requires
        0 < crossing_span(s, base).0 <= 0xFFFF_FFFF,
    ensures
        ({
            let span = crossing_span(s, base).0;
            &&& base > 0 ==> span * span * span == -(s * s * s)
            &&& base <= 0 ==> -(span * span * span) == -(s * s * s)
            &&& 0 < span * span * span <= 0xFFFF_FFFF * 0xFFFF_FFFF * 0xFFFF_FFFF
            &&& 0 * 0 * 0 == 0
        }),
{
    let span = crossing_span(s, base).0;
    assert((-s) * (-s) * (-s) == -(s * s * s)) by (nonlinear_arith);
    assert(0 < span * span * span <= 0xFFFF_FFFF * 0xFFFF_FFFF * 0xFFFF_FFFF) by (nonlinear_arith)
        requires
            0 < span <= 0xFFFF_FFFF,
    ;
}

/// Where the density changes from west to east alone and changes sign
/// within a block, the four edges along that axis are crossed at
/// one distance from the western face: `rise / span` along the edge.
proof fn lemma_x_edge_points(voxels: BlockOfVoxels, s: int, base: int)
    requires
        block_follows_plane(voxels, s, 0, 0, base),
        (base > 0) != (base + s > 0),
    ensures
        ({
            let (span, rise) = crossing_span(s, base);
            &&& 0 < span <= 0xFFFF_FFFF
            &&& 0 <= rise <= span
            &&& edge_point(voxels, 0) == (EdgePoint {
                x: rise as i64,
                y: 0,
                z: span as i64,
                den: span as i64,
            })
            &&& edge_point(voxels, 2) == (EdgePoint {
                x: rise as i64,
                y: 0,
                z: 0,
                den: span as i64,
            })
            &&& edge_point(voxels, 4) == (EdgePoint {
                x: rise as i64,
                y: span as i64,
                z: span as i64,
                den: span as i64,
            })
            &&& edge_point(voxels, 6) == (EdgePoint {
                x: rise as i64,
                y: span as i64,
                z: 0,
                den: span as i64,
            })
        }),
{
    assert(block_voxel(voxels, (0, 0, 0)).value == base);
    assert(block_voxel(voxels, (0, 0, 1)).value == base);
    assert(block_voxel(voxels, (0, 1, 0)).value == base);
    assert(block_voxel(voxels, (0, 1, 1)).value == base);
    assert(block_voxel(voxels, (1, 0, 0)).value == base + s);
    assert(block_voxel(voxels, (1, 0, 1)).value == base + s);
    assert(block_voxel(voxels, (1, 1, 0)).value == base + s);
    assert(block_voxel(voxels, (1, 1, 1)).value == base + s);
    if base > 0 {
        lemma_mix_by_shares((0, 0, 1), (1, 0, 1), base, base + s);
        lemma_mix_by_shares((0, 0, 0), (1, 0, 0), base, base + s);
        lemma_mix_by_shares((0, 1, 1), (1, 1, 1), base, base + s);
        lemma_mix_by_shares((0, 1, 0), (1, 1, 0), base, base + s);
    } else {
        lemma_mix_by_shares((1, 0, 1), (0, 0, 1), base + s, base);
        lemma_mix_by_shares((1, 0, 0), (0, 0, 0), base + s, base);
        lemma_mix_by_shares((1, 1, 1), (0, 1, 1), base + s, base);
        lemma_mix_by_shares((1, 1, 0), (0, 1, 0), base + s, base);
    }
}

/// The normals of the triangles that span a cell across the x axis, for
/// either winding.
proof fn lemma_x_triangle_normals(span: int, rise: int)
    requires
        0 < span <= 0xFFFF_FFFF,
        0 <= rise <= span,
    ensures
        ({
            let e0 = (EdgePoint {
                x: rise as i64,
                y: 0,
                z: span as i64,
                den: span as i64,
            });
            let e2 = (EdgePoint {
                x: rise as i64,
                y: 0,
                z: 0,
                den: span as i64,
            });
            let e4 = (EdgePoint {
                x: rise as i64,
                y: span as i64,
                z: span as i64,
                den: span as i64,
            });
            let e6 = (EdgePoint {
                x: rise as i64,
                y: span as i64,
                z: 0,
                den: span as i64,
            });
            &&& scaled_normal(e0, e4, e2) == (span * span * span, 0int, 0int)
            &&& scaled_normal(e4, e6, e2) == (span * span * span, 0int, 0int)
            &&& scaled_normal(e0, e2, e4) == (-(span * span * span), 0int, 0int)
            &&& scaled_normal(e4, e2, e6) == (-(span * span * span), 0int, 0int)
        }),
{
    lemma_flat_products(span, rise);
}

/// In a block whose density changes along the x axis alone, every triangle
/// has the normal of that axis.
proof fn lemma_x_block_normals(voxels: BlockOfVoxels, pos: Position, s: int, base: int)
    requires
        block_follows_plane(voxels, s, 0, 0, base),
        s != 0,
    ensures
        forall|i: int|
            0 <= i < block_vertices(voxels, pos).len() ==> (#[trigger] block_vertices(
                voxels,
                pos,
            )[i]).normal == axis_normal(s, 0, 0),
{
    assert(block_voxel(voxels, (0, 0, 0)).value == base);
    assert(block_voxel(voxels, (0, 0, 1)).value == base);
    assert(block_voxel(voxels, (0, 1, 0)).value == base);
    assert(block_voxel(voxels, (0, 1, 1)).value == base);
    assert(block_voxel(voxels, (1, 0, 0)).value == base + s);
    assert(block_voxel(voxels, (1, 0, 1)).value == base + s);
    assert(block_voxel(voxels, (1, 1, 0)).value == base + s);
    assert(block_voxel(voxels, (1, 1, 1)).value == base + s);
    let config = cube_index(voxels);
    let row = triangulation_row(config);
    let points = vertex_midpoints(voxels);
    if (base > 0) == (base + s > 0) {
        assert(config == 0 || config == 255);
        lemma_uniform_rows_empty();
        assert(table_entry(config, 0) == -1);
        assert(triangle_count(row) == 0);
    } else {
        lemma_x_edge_points(voxels, s, base);
        let (span, rise) = crossing_span(s, base);
        lemma_x_triangle_normals(span, rise);
        lemma_span_cubed(s, base);
        assert(points[0] == edge_point(voxels, 0));
        assert(points[2] == edge_point(voxels, 2));
        assert(points[4] == edge_point(voxels, 4));
        assert(points[6] == edge_point(voxels, 6));
        if base > 0 {
            assert(config == 153);
            part_4::lemma_row_153();
            assert(row == part_4::row(25));
        } else {
            assert(config == 102);
            part_3::lemma_row_102();
            assert(row == part_3::row(6));
        }
        assert(triangle_count(row) == 2);
        assert forall|i: int| 0 <= i < block_vertices(voxels, pos).len() implies (
        #[trigger] block_vertices(voxels, pos)[i]).normal == axis_normal(s, 0, 0) by {
            assert(block_vertices(voxels, pos)[i] == row_vertex(row, points, pos, i));
            if i < 3 {
                assert(3 * (i / 3) == 0);
            } else {
                assert(3 * (i / 3) == 3);
            }
        }
    }
}

/// Where the density changes with the height alone and changes sign
/// within a block, the four edges along that axis are crossed at
/// one height: `rise / span` along the edge.
proof fn lemma_y_edge_points(voxels: BlockOfVoxels, s: int, base: int)
    requires
        block_follows_plane(voxels, 0, s, 0, base),
        (base > 0) != (base + s > 0),
    ensures
        ({
            let (span, rise) = crossing_span(s, base);
            &&& 0 < span <= 0xFFFF_FFFF
            &&& 0 <= rise <= span
            &&& edge_point(voxels, 8) == (EdgePoint {
                x: 0,
                y: rise as i64,
                z: span as i64,
                den: span as i64,
            })
            &&& edge_point(voxels, 9) == (EdgePoint {
                x: span as i64,
                y: rise as i64,
                z: span as i64,
                den: span as i64,
            })
            &&& edge_point(voxels, 10) == (EdgePoint {
                x: span as i64,
                y: rise as i64,
                z: 0,
                den: span as i64,
            })
            &&& edge_point(voxels, 11) == (EdgePoint {
                x: 0,
                y: rise as i64,
                z: 0,
                den: span as i64,
            })
        }),
{
    assert(block_voxel(voxels, (0, 0, 0)).value == base);
    assert(block_voxel(voxels, (0, 0, 1)).value == base);
    assert(block_voxel(voxels, (0, 1, 0)).value == base + s);
    assert(block_voxel(voxels, (0, 1, 1)).value == base + s);
    assert(block_voxel(voxels, (1, 0, 0)).value == base);
    assert(block_voxel(voxels, (1, 0, 1)).value == base);
    assert(block_voxel(voxels, (1, 1, 0)).value == base + s);
    assert(block_voxel(voxels, (1, 1, 1)).value == base + s);
    if base > 0 {
        lemma_mix_by_shares((0, 0, 1), (0, 1, 1), base, base + s);
        lemma_mix_by_shares((1, 0, 1), (1, 1, 1), base, base + s);
        lemma_mix_by_shares((1, 0, 0), (1, 1, 0), base, base + s);
        lemma_mix_by_shares((0, 0, 0), (0, 1, 0), base, base + s);
    } else {
        lemma_mix_by_shares((0, 1, 1), (0, 0, 1), base + s, base);
        lemma_mix_by_shares((1, 1, 1), (1, 0, 1), base + s, base);
        lemma_mix_by_shares((1, 1, 0), (1, 0, 0), base + s, base);
        lemma_mix_by_shares((0, 1, 0), (0, 0, 0), base + s, base);
    }
}

/// The normals of the triangles that span a cell across the y axis, for
/// either winding.
proof fn lemma_y_triangle_normals(span: int, rise: int)
    requires
        0 < span <= 0xFFFF_FFFF,
        0 <= rise <= span,
    ensures
        ({
            let e8 = (EdgePoint {
                x: 0,
                y: rise as i64,
                z: span as i64,
                den: span as i64,
            });
            let e9 = (EdgePoint {
                x: span as i64,
                y: rise as i64,
                z: span as i64,
                den: span as i64,
            });
            let e10 = (EdgePoint {
                x: span as i64,
                y: rise as i64,
                z: 0,
                den: span as i64,
            });
            let e11 = (EdgePoint {
                x: 0,
                y: rise as i64,
                z: 0,
                den: span as i64,
            });
            &&& scaled_normal(e9, e8, e10) == (0int, span * span * span, 0int)
            &&& scaled_normal(e10, e8, e11) == (0int, span * span * span, 0int)
            &&& scaled_normal(e9, e10, e8) == (0int, -(span * span * span), 0int)
            &&& scaled_normal(e10, e11, e8) == (0int, -(span * span * span), 0int)
        }),
{
    lemma_flat_products(span, rise);
}

/// In a block whose density changes along the y axis alone, every triangle
/// has the normal of that axis.
proof fn lemma_y_block_normals(voxels: BlockOfVoxels, pos: Position, s: int, base: int)
    requires
        block_follows_plane(voxels, 0, s, 0, base),
        s != 0,
    ensures
        forall|i: int|
            0 <= i < block_vertices(voxels, pos).len() ==> (#[trigger] block_vertices(
                voxels,
                pos,
            )[i]).normal == axis_normal(0, s, 0),
{
    assert(block_voxel(voxels, (0, 0, 0)).value == base);
    assert(block_voxel(voxels, (0, 0, 1)).value == base);
    assert(block_voxel(voxels, (0, 1, 0)).value == base + s);
    assert(block_voxel(voxels, (0, 1, 1)).value == base + s);
    assert(block_voxel(voxels, (1, 0, 0)).value == base);
    assert(block_voxel(voxels, (1, 0, 1)).value == base);
    assert(block_voxel(voxels, (1, 1, 0)).value == base + s);
    assert(block_voxel(voxels, (1, 1, 1)).value == base + s);
    let config = cube_index(voxels);
    let row = triangulation_row(config);
    let points = vertex_midpoints(voxels);
    if (base > 0) == (base + s > 0) {
        assert(config == 0 || config == 255);
        lemma_uniform_rows_empty();
        assert(table_entry(config, 0) == -1);
        assert(triangle_count(row) == 0);
    } else {
        lemma_y_edge_points(voxels, s, base);
        let (span, rise) = crossing_span(s, base);
        lemma_y_triangle_normals(span, rise);
        lemma_span_cubed(s, base);
        assert(points[8] == edge_point(voxels, 8));
        assert(points[9] == edge_point(voxels, 9));
        assert(points[10] == edge_point(voxels, 10));
        assert(points[11] == edge_point(voxels, 11));
        if base > 0 {
            assert(config == 15);
            part_0::lemma_row_15();
            assert(row == part_0::row(15));
        } else {
            assert(config == 240);
            part_7::lemma_row_240();
            assert(row == part_7::row(16));
        }
        assert(triangle_count(row) == 2);
        assert forall|i: int| 0 <= i < block_vertices(voxels, pos).len() implies (
        #[trigger] block_vertices(voxels, pos)[i]).normal == axis_normal(0, s, 0) by {
            assert(block_vertices(voxels, pos)[i] == row_vertex(row, points, pos, i));
            if i < 3 {
                assert(3 * (i / 3) == 0);
            } else {
                assert(3 * (i / 3) == 3);
            }
        }
    }
}

/// Where the density changes from south to north alone and changes sign
/// within a block, the four edges along that axis are crossed at
/// one distance from the southern face: `rise / span` along the edge.
proof fn lemma_z_edge_points(voxels: BlockOfVoxels, s: int, base: int)
    requires
        block_follows_plane(voxels, 0, 0, s, base),
        (base > 0) != (base + s > 0),
    ensures
        ({
            let (span, rise) = crossing_span(s, base);
            &&& 0 < span <= 0xFFFF_FFFF
            &&& 0 <= rise <= span
            &&& edge_point(voxels, 1) == (EdgePoint {
                x: span as i64,
                y: 0,
                z: rise as i64,
                den: span as i64,
            })
            &&& edge_point(voxels, 3) == (EdgePoint {
                x: 0,
                y: 0,
                z: rise as i64,
                den: span as i64,
            })
            &&& edge_point(voxels, 5) == (EdgePoint {
                x: span as i64,
                y: span as i64,
                z: rise as i64,
                den: span as i64,
            })
            &&& edge_point(voxels, 7) == (EdgePoint {
                x: 0,
                y: span as i64,
                z: rise as i64,
                den: span as i64,
            })
        }),
{
    assert(block_voxel(voxels, (0, 0, 0)).value == base);
    assert(block_voxel(voxels, (0, 0, 1)).value == base + s);
    assert(block_voxel(voxels, (0, 1, 0)).value == base);
    assert(block_voxel(voxels, (0, 1, 1)).value == base + s);
    assert(block_voxel(voxels, (1, 0, 0)).value == base);
    assert(block_voxel(voxels, (1, 0, 1)).value == base + s);
    assert(block_voxel(voxels, (1, 1, 0)).value == base);
    assert(block_voxel(voxels, (1, 1, 1)).value == base + s);
    if base > 0 {
        lemma_mix_by_shares((1, 0, 0), (1, 0, 1), base, base + s);
        lemma_mix_by_shares((0, 0, 0), (0, 0, 1), base, base + s);
        lemma_mix_by_shares((1, 1, 0), (1, 1, 1), base, base + s);
        lemma_mix_by_shares((0, 1, 0), (0, 1, 1), base, base + s);
    } else {
        lemma_mix_by_shares((1, 0, 1), (1, 0, 0), base + s, base);
        lemma_mix_by_shares((0, 0, 1), (0, 0, 0), base + s, base);
        lemma_mix_by_shares((1, 1, 1), (1, 1, 0), base + s, base);
        lemma_mix_by_shares((0, 1, 1), (0, 1, 0), base + s, base);
    }
}

/// The normals of the triangles that span a cell across the z axis, for
/// either winding.
proof fn lemma_z_triangle_normals(span: int, rise: int)
    requires
        0 < span <= 0xFFFF_FFFF,
        0 <= rise <= span,
    ensures
        ({
            let e1 = (EdgePoint {
                x: span as i64,
                y: 0,
                z: rise as i64,
                den: span as i64,
            });
            let e3 = (EdgePoint {
                x: 0,
                y: 0,
                z: rise as i64,
                den: span as i64,
            });
            let e5 = (EdgePoint {
                x: span as i64,
                y: span as i64,
                z: rise as i64,
                den: span as i64,
            });
            let e7 = (EdgePoint {
                x: 0,
                y: span as i64,
                z: rise as i64,
                den: span as i64,
            });
            &&& scaled_normal(e1, e3, e5) == (0int, 0int, span * span * span)
            &&& scaled_normal(e3, e7, e5) == (0int, 0int, span * span * span)
            &&& scaled_normal(e1, e5, e3) == (0int, 0int, -(span * span * span))
            &&& scaled_normal(e3, e5, e7) == (0int, 0int, -(span * span * span))
        }),
{
    lemma_flat_products(span, rise);
}

/// In a block whose density changes along the z axis alone, every triangle
/// has the normal of that axis.
proof fn lemma_z_block_normals(voxels: BlockOfVoxels, pos: Position, s: int, base: int)
    requires
        block_follows_plane(voxels, 0, 0, s, base),
        s != 0,
    ensures
        forall|i: int|
            0 <= i < block_vertices(voxels, pos).len() ==> (#[trigger] block_vertices(
                voxels,
                pos,
            )[i]).normal == axis_normal(0, 0, s),
{
    assert(block_voxel(voxels, (0, 0, 0)).value == base);
    assert(block_voxel(voxels, (0, 0, 1)).value == base + s);
    assert(block_voxel(voxels, (0, 1, 0)).value == base);
    assert(block_voxel(voxels, (0, 1, 1)).value == base + s);
    assert(block_voxel(voxels, (1, 0, 0)).value == base);
    assert(block_voxel(voxels, (1, 0, 1)).value == base + s);
    assert(block_voxel(voxels, (1, 1, 0)).value == base);
    assert(block_voxel(voxels, (1, 1, 1)).value == base + s);
    let config = cube_index(voxels);
    let row = triangulation_row(config);
    let points = vertex_midpoints(voxels);
    if (base > 0) == (base + s > 0) {
        assert(config == 0 || config == 255);
        lemma_uniform_rows_empty();
        assert(table_entry(config, 0) == -1);
        assert(triangle_count(row) == 0);
    } else {
        lemma_z_edge_points(voxels, s, base);
        let (span, rise) = crossing_span(s, base);
        lemma_z_triangle_normals(span, rise);
        lemma_span_cubed(s, base);
        assert(points[1] == edge_point(voxels, 1));
        assert(points[3] == edge_point(voxels, 3));
        assert(points[5] == edge_point(voxels, 5));
        assert(points[7] == edge_point(voxels, 7));
        if base > 0 {
            assert(config == 204);
            part_6::lemma_row_204();
            assert(row == part_6::row(12));
        } else {
            assert(config == 51);
            part_1::lemma_row_51();
            assert(row == part_1::row(19));
        }
        assert(triangle_count(row) == 2);
        assert forall|i: int| 0 <= i < block_vertices(voxels, pos).len() implies (
        #[trigger] block_vertices(voxels, pos)[i]).normal == axis_normal(0, 0, s) by {
            assert(block_vertices(voxels, pos)[i] == row_vertex(row, points, pos, i));
            if i < 3 {
                assert(3 * (i / 3) == 0);
            } else {
                assert(3 * (i / 3) == 3);
            }
        }
    }
}

/// A field that changes along one axis alone gives a mesh with one normal:
/// where the samples of a chunk are those of the density
/// `a * x + b * y + c * z + d` and exactly one of `a`, `b`, `c` is not zero,
/// every vertex of the mesh has the normal `axis_normal(a, b, c)`. It points
/// along that axis, from the solid to the empty side.
pub proof fn lemma_axis_field_normals(chunk: &Chunk, a: int, b: int, c: int, d: int)
    requires
        chunk.wf(),
        samples_follow_plane(chunk, a, b, c, d),
        along_one_axis(a, b, c),
    ensures
        forall|i: int|
            0 <= i < chunk.vertices().len() ==> (#[trigger] chunk.vertices()[i]).normal
                == axis_normal(a, b, c),
{
    let uniform = |v: Vertex| v.normal == axis_normal(a, b, c);
    assert forall|pos: Position, i: int|
        in_cells(pos) && 0 <= i < cell_vertices(chunk, pos).len() implies uniform(
        shifted(#[trigger] cell_vertices(chunk, pos)[i], chunk.origin()),
    ) by {
        reveal(cell_vertices);
        lemma_cell_block_follows_plane(chunk, a, b, c, d, pos);
        let base = a * (pos.x + chunk.origin().x) + b * (pos.y + chunk.origin().y) + c * (pos.z
            + chunk.origin().z) + d;
        let voxels = cell_block(chunk, pos);
        if a != 0 {
            lemma_x_block_normals(voxels, pos, a, base);
        } else if b != 0 {
            lemma_y_block_normals(voxels, pos, b, base);
        } else {
            lemma_z_block_normals(voxels, pos, c, base);
        }
    }
    lemma_vertices_come_from_cells(chunk, uniform);
    assert forall|i: int| 0 <= i < chunk.vertices().len() implies (
    #[trigger] chunk.vertices()[i]).normal == axis_normal(a, b, c) by {
        assert(uniform(chunk.vertices()[i]));
    }
}

} // verus!
