use crate::append_vertices::{
    block_vertices, block_voxel, cell_block, cell_vertices, cube_index, edge_point,
    lemma_corner_product, lemma_cube_index_bits, lemma_mix_at_crossing_fraction,
    lemma_mix_by_shares, lemma_triangles_on_crossed_edges, row_vertex, vertex_midpoints,
};
use crate::chunk::Chunk;
use crate::edge_midpoints::{
    chosen_end, edge_end, edge_start, empty_end, end_normal_outward, faces_empty_side,
    lemma_chosen_end_is_corner, lemma_outward_sum_small, outward_sum, small_cross, small_times,
    solid_end, Corner,
};
use crate::mesh::{lemma_triangle_normal_is_scaled_normal, scaled_normal, EdgePoint, Normal};
use crate::pos::Position;
use crate::triangulation_table::{
    lemma_rows_oriented, row_triangle_faces_empty, table_entry, triangulation_row,
};
use crate::voxel::BlockOfVoxels;
use vstd::prelude::*;

verus! {

// That every triangle faces the empty side is shown in two steps. The
// triangulation table settles it for corners that lie at the ends of their
// edges, row by row. This file carries it over to corners anywhere on their
// edges: the normal of a triangle is a sum over the eight ways of putting each
// corner at an end of its edge, each with a weight that is not negative.

/// A point of a plane, or a vector in it: two of the three coordinates.
pub type Flat = (int, int);

/// The determinant of two vectors of a plane: one component of a cross product.
pub open spec fn det(p: Flat, q: Flat) -> int {
    p.0 * q.1 - p.1 * q.0
}

/// The vector `q`, `c` times.
pub open spec fn scaled(c: int, q: Flat) -> Flat {
    (c * q.0, c * q.1)
}

/// The sum of two vectors.
pub open spec fn plus(p: Flat, q: Flat) -> Flat {
    (p.0 + q.0, p.1 + q.1)
}

/// Twice the area of the triangle `q0`, `q1`, `q2`, signed by its winding:
/// `det(q2 - q0, q1 - q0)`.
pub open spec fn area(q0: Flat, q1: Flat, q2: Flat) -> int {
    det(q2, q1) + det(q0, q2) + det(q1, q0)
}

/// One component of the scaled normal of three points with denominators: each
/// point is given by its denominator and its numerators.
pub open spec fn weighted_area(c0: int, x0: Flat, c1: int, x1: Flat, c2: int, x2: Flat) -> int {
    c0 * det(x2, x1) + c1 * det(x0, x2) + c2 * det(x1, x0)
}

/// The weight or the point of one end of an edge: of the empty end where
/// `at_empty` holds, of the solid end otherwise.
pub open spec fn pick<T>(at_empty: bool, solid: T, empty: T) -> T {
    if at_empty {
        empty
    } else {
        solid
    }
}

/// The three weights of the ends that `ends` chooses, multiplied.
pub open spec fn end_weight(
    w: (int, int, int),
    a: (int, int, int),
    ends: (bool, bool, bool),
) -> int {
    pick(ends.0, w.0, a.0) * pick(ends.1, w.1, a.1) * pick(ends.2, w.2, a.2)
}

/// The area of the triangle over the ends that `ends` chooses.
pub open spec fn end_area(
    s: (Flat, Flat, Flat),
    m: (Flat, Flat, Flat),
    ends: (bool, bool, bool),
) -> int {
    area(pick(ends.0, s.0, m.0), pick(ends.1, s.1, m.1), pick(ends.2, s.2, m.2))
}

/// The eight ways of choosing an end of each of three edges.
pub open spec fn eight_ends() -> Seq<(bool, bool, bool)> {
    seq![
        (false, false, false),
        (false, false, true),
        (false, true, false),
        (false, true, true),
        (true, false, false),
        (true, false, true),
        (true, true, false),
        (true, true, true),
    ]
}

/// The sum of `term` over the eight ways of choosing ends.
pub open spec fn sum_over_ends(term: spec_fn((bool, bool, bool)) -> int) -> int {
    term((false, false, false)) + term((false, false, true)) + term((false, true, false)) + term(
        (false, true, true),
    ) + term((true, false, false)) + term((true, false, true)) + term((true, true, false)) + term(
        (true, true, true),
    )
}

/// The determinant is additive in its first vector.
proof fn lemma_det_plus_left(x: Flat, y: Flat, q: Flat)
    ensures
        det(plus(x, y), q) == det(x, q) + det(y, q),
{
    let (x0, x1, y0, y1, q0, q1) = (x.0, x.1, y.0, y.1, q.0, q.1);
    assert((x0 + y0) * q1 - (x1 + y1) * q0 == (x0 * q1 - x1 * q0) + (y0 * q1 - y1 * q0))
        by (nonlinear_arith);
}

/// The determinant is additive in its second vector.
proof fn lemma_det_plus_right(p: Flat, x: Flat, y: Flat)
    ensures
        det(p, plus(x, y)) == det(p, x) + det(p, y),
{
    let (x0, x1, y0, y1, pa, pb) = (x.0, x.1, y.0, y.1, p.0, p.1);
    assert(pa * (x1 + y1) - pb * (x0 + y0) == (pa * x1 - pb * x0) + (pa * y1 - pb * y0))
        by (nonlinear_arith);
}

/// Factors of the two vectors come out of the determinant.
proof fn lemma_det_scaled(c: int, p: Flat, k: int, q: Flat)
    ensures
        det(scaled(c, p), scaled(k, q)) == c * k * det(p, q),
{
    let (pa, pb, qa, qb) = (p.0, p.1, q.0, q.1);
    let (a, b) = (pa * qb, pb * qa);
    assert((c * pa) * (k * qb) == c * k * a) by (nonlinear_arith)
        requires
            a == pa * qb,
    ;
    assert((c * pb) * (k * qa) == c * k * b) by (nonlinear_arith)
        requires
            b == pb * qa,
    ;
    assert(c * k * a - c * k * b == c * k * (a - b)) by (nonlinear_arith);
}

/// Products distribute over sums.
proof fn lemma_split(c: int, k: int, r: int, s: int)
    ensures
        (c + k) * r == c * r + k * r,
        c * (r + s) == c * r + c * s,
{
    assert((c + k) * r == c * r + k * r && c * (r + s) == c * r + c * s) by (nonlinear_arith);
}

/// The weighted area is additive in its first weighted point.
proof fn lemma_weighted_area_split_0(
    c: int,
    x: Flat,
    k: int,
    y: Flat,
    c1: int,
    x1: Flat,
    c2: int,
    x2: Flat,
)
    ensures
        weighted_area(c + k, plus(x, y), c1, x1, c2, x2) == weighted_area(c, x, c1, x1, c2, x2)
            + weighted_area(k, y, c1, x1, c2, x2),
{
    lemma_split(c, k, det(x2, x1), 0);
    lemma_det_plus_left(x, y, x2);
    lemma_split(c1, 0, det(x, x2), det(y, x2));
    lemma_det_plus_right(x1, x, y);
    lemma_split(c2, 0, det(x1, x), det(x1, y));
}

/// The weighted area is additive in its second weighted point.
proof fn lemma_weighted_area_split_1(
    c0: int,
    x0: Flat,
    c: int,
    x: Flat,
    k: int,
    y: Flat,
    c2: int,
    x2: Flat,
)
    ensures
        weighted_area(c0, x0, c + k, plus(x, y), c2, x2) == weighted_area(c0, x0, c, x, c2, x2)
            + weighted_area(c0, x0, k, y, c2, x2),
{
    lemma_det_plus_right(x2, x, y);
    lemma_split(c0, 0, det(x2, x), det(x2, y));
    lemma_split(c, k, det(x0, x2), 0);
    lemma_det_plus_left(x, y, x0);
    lemma_split(c2, 0, det(x, x0), det(y, x0));
}

/// The weighted area is additive in its third weighted point.
proof fn lemma_weighted_area_split_2(
    c0: int,
    x0: Flat,
    c1: int,
    x1: Flat,
    c: int,
    x: Flat,
    k: int,
    y: Flat,
)
    ensures
        weighted_area(c0, x0, c1, x1, c + k, plus(x, y)) == weighted_area(c0, x0, c1, x1, c, x)
            + weighted_area(c0, x0, c1, x1, k, y),
{
    lemma_det_plus_left(x, y, x1);
    lemma_split(c0, 0, det(x, x1), det(y, x1));
    lemma_det_plus_right(x0, x, y);
    lemma_split(c1, 0, det(x0, x), det(x0, y));
    lemma_split(c, k, det(x1, x0), 0);
}

/// For three points that each carry one weight, the weighted area is the area
/// times the three weights.
proof fn lemma_weighted_area_of_ends(c0: int, q0: Flat, c1: int, q1: Flat, c2: int, q2: Flat)
    ensures
        weighted_area(c0, scaled(c0, q0), c1, scaled(c1, q1), c2, scaled(c2, q2)) == (c0 * c1 * c2)
            * area(q0, q1, q2),
{
    lemma_det_scaled(c2, q2, c1, q1);
    lemma_det_scaled(c0, q0, c2, q2);
    lemma_det_scaled(c1, q1, c0, q0);
    let (d21, d02, d10) = (det(q2, q1), det(q0, q2), det(q1, q0));
    let w = c0 * c1 * c2;
    assert(c0 * (c2 * c1 * d21) == w * d21) by (nonlinear_arith)
        requires
            w == c0 * c1 * c2,
    ;
    assert(c1 * (c0 * c2 * d02) == w * d02) by (nonlinear_arith)
        requires
            w == c0 * c1 * c2,
    ;
    assert(c2 * (c1 * c0 * d10) == w * d10) by (nonlinear_arith)
        requires
            w == c0 * c1 * c2,
    ;
    assert(w * d21 + w * d02 + w * d10 == w * (d21 + d02 + d10)) by (nonlinear_arith);
}

/// A component of the scaled normal of three points on edges is a sum over the
/// eight ways of putting each point at an end of its edge: the area of the
/// triangle over these ends, times the weights of the ends. The point on edge
/// `i` is `(w.i * s.i + a.i * m.i) / (w.i + a.i)`, between the ends `s.i`
/// and `m.i`.
proof fn lemma_weighted_area_over_ends(
    w: (int, int, int),
    a: (int, int, int),
    s: (Flat, Flat, Flat),
    m: (Flat, Flat, Flat),
)
    ensures
        weighted_area(
            w.0 + a.0,
            plus(scaled(w.0, s.0), scaled(a.0, m.0)),
            w.1 + a.1,
            plus(scaled(w.1, s.1), scaled(a.1, m.1)),
            w.2 + a.2,
            plus(scaled(w.2, s.2), scaled(a.2, m.2)),
        ) == sum_over_ends(
            |ends: (bool, bool, bool)| end_weight(w, a, ends) * end_area(s, m, ends),
        ),
{
    let (c1, x1) = (w.1 + a.1, plus(scaled(w.1, s.1), scaled(a.1, m.1)));
    let (c2, x2) = (w.2 + a.2, plus(scaled(w.2, s.2), scaled(a.2, m.2)));
    let (s0, s1, s2) = (scaled(w.0, s.0), scaled(w.1, s.1), scaled(w.2, s.2));
    let (m0, m1, m2) = (scaled(a.0, m.0), scaled(a.1, m.1), scaled(a.2, m.2));
    lemma_weighted_area_split_0(w.0, s0, a.0, m0, c1, x1, c2, x2);
    lemma_weighted_area_split_1(w.0, s0, w.1, s1, a.1, m1, c2, x2);
    lemma_weighted_area_split_1(a.0, m0, w.1, s1, a.1, m1, c2, x2);
    lemma_weighted_area_split_2(w.0, s0, w.1, s1, w.2, s2, a.2, m2);
    lemma_weighted_area_split_2(w.0, s0, a.1, m1, w.2, s2, a.2, m2);
    lemma_weighted_area_split_2(a.0, m0, w.1, s1, w.2, s2, a.2, m2);
    lemma_weighted_area_split_2(a.0, m0, a.1, m1, w.2, s2, a.2, m2);
    lemma_weighted_area_of_ends(w.0, s.0, w.1, s.1, w.2, s.2);
    lemma_weighted_area_of_ends(w.0, s.0, w.1, s.1, a.2, m.2);
    lemma_weighted_area_of_ends(w.0, s.0, a.1, m.1, w.2, s.2);
    lemma_weighted_area_of_ends(w.0, s.0, a.1, m.1, a.2, m.2);
    lemma_weighted_area_of_ends(a.0, m.0, w.1, s.1, w.2, s.2);
    lemma_weighted_area_of_ends(a.0, m.0, w.1, s.1, a.2, m.2);
    lemma_weighted_area_of_ends(a.0, m.0, a.1, m.1, w.2, s.2);
    lemma_weighted_area_of_ends(a.0, m.0, a.1, m.1, a.2, m.2);
}

/// The two coordinates of a point that make up component `k` of a cross
/// product: `(y, z)`, `(z, x)` or `(x, y)`.
pub open spec fn flat(k: int, p: (int, int, int)) -> Flat {
    if k == 0 {
        (p.1, p.2)
    } else if k == 1 {
        (p.2, p.0)
    } else {
        (p.0, p.1)
    }
}

/// The numerators of a point.
pub open spec fn numerators(p: EdgePoint) -> (int, int, int) {
    (p.x as int, p.y as int, p.z as int)
}

/// Component `k` of a vector.
pub open spec fn component(k: int, v: (int, int, int)) -> int {
    if k == 0 {
        v.0
    } else if k == 1 {
        v.1
    } else {
        v.2
    }
}

/// Each component of the scaled normal is a weighted area.
proof fn lemma_scaled_normal_components(a: EdgePoint, b: EdgePoint, c: EdgePoint, k: int)
    requires
        0 <= k <= 2,
    ensures
        component(k, scaled_normal(a, b, c)) == weighted_area(
            a.den as int,
            flat(k, numerators(a)),
            b.den as int,
            flat(k, numerators(b)),
            c.den as int,
            flat(k, numerators(c)),
        ),
{
}

/// The weight of the solid end of a crossed edge in the point on the edge: the
/// density at the empty end, taken positive.
pub open spec fn solid_weight(voxels: BlockOfVoxels, edge: int) -> int {
    -block_voxel(voxels, empty_end(cube_index(voxels), edge)).value
}

/// The weight of the empty end of a crossed edge in the point on the edge: the
/// density at the solid end.
pub open spec fn empty_weight(voxels: BlockOfVoxels, edge: int) -> int {
    block_voxel(voxels, solid_end(cube_index(voxels), edge)).value as int
}

/// The point of a crossed edge lies between the two ends of the edge: it is
/// the sum of the ends, each with its weight, over the sum of the weights.
proof fn lemma_edge_point_between_ends(voxels: BlockOfVoxels, edge: int, k: int)
    requires
        0 <= edge < 12,
        0 <= k <= 2,
        block_voxel(voxels, edge_start(edge)).solid() != block_voxel(
            voxels,
            edge_end(edge),
        ).solid(),
    ensures
        ({
            let config = cube_index(voxels);
            let w = solid_weight(voxels, edge);
            let a = empty_weight(voxels, edge);
            let point = edge_point(voxels, edge);
            &&& w >= 0
            &&& a > 0
            &&& point.den == w + a
            &&& flat(k, numerators(point)) == plus(
                scaled(w, flat(k, solid_end(config, edge))),
                scaled(a, flat(k, empty_end(config, edge))),
            )
        }),
{
    let config = cube_index(voxels);
    let start = edge_start(edge);
    let end = edge_end(edge);
    lemma_cube_index_bits(voxels, start);
    let s = solid_end(config, edge);
    let m = empty_end(config, edge);
    let w = solid_weight(voxels, edge);
    let a = empty_weight(voxels, edge);
    lemma_mix_by_shares(s, m, a, -w);
    lemma_corner_product(s.0, w);
    lemma_corner_product(s.1, w);
    lemma_corner_product(s.2, w);
    lemma_corner_product(m.0, a);
    lemma_corner_product(m.1, a);
    lemma_corner_product(m.2, a);
    assert(w * s.0 == s.0 * w && w * s.1 == s.1 * w && w * s.2 == s.2 * w) by (nonlinear_arith);
    assert(a * m.0 == m.0 * a && a * m.1 == m.1 * a && a * m.2 == m.2 * a) by (nonlinear_arith);
}

/// `small_times` is the product.
proof fn lemma_small_times(x: int, y: int)
    requires
        -3 <= x <= 3,
    ensures
        small_times(x, y) == x * y,
{
    assert(0 * y == 0 && 1 * y == y && (-1) * y == -y && 2 * y == y + y && (-2) * y == -(y + y) && 3
        * y == y + y + y && (-3) * y == -(y + y + y)) by (nonlinear_arith);
}

/// For three corners, a component of `small_cross` is the area of the triangle
/// of the corners, seen along that axis.
proof fn lemma_small_cross_is_area(q0: Corner, q1: Corner, q2: Corner, k: int)
    requires
        0 <= q0.0 <= 1 && 0 <= q0.1 <= 1 && 0 <= q0.2 <= 1,
        0 <= q1.0 <= 1 && 0 <= q1.1 <= 1 && 0 <= q1.2 <= 1,
        0 <= q2.0 <= 1 && 0 <= q2.1 <= 1 && 0 <= q2.2 <= 1,
        0 <= k <= 2,
    ensures
        component(k, small_cross(q0, q1, q2)) == area(flat(k, q0), flat(k, q1), flat(k, q2)),
        -2 <= component(k, small_cross(q0, q1, q2)) <= 2,
{
    let a = flat(k, q0);
    let b = flat(k, q1);
    let c = flat(k, q2);
    let (a0, a1, b0, b1, c0, c1) = (a.0, a.1, b.0, b.1, c.0, c.1);
    lemma_small_times(c0 - a0, b1 - a1);
    lemma_small_times(c1 - a1, b0 - a0);
    assert((c0 - a0) * (b1 - a1) - (c1 - a1) * (b0 - a0) == (c0 * b1 - c1 * b0) + (a0 * c1 - a1
        * c0) + (b0 * a1 - b1 * a0)) by (nonlinear_arith);
}

/// The component of an end normal along the outward sum, with the products
/// written out: the outward sum times the three areas of the triangle over
/// the chosen ends.
proof fn lemma_end_normal_outward(
    config: int,
    first: int,
    second: int,
    third: int,
    ends: (bool, bool, bool),
)
    ensures
        ({
            let out = outward_sum(config, first, second, third);
            let q0 = chosen_end(config, first, ends.0);
            let q1 = chosen_end(config, second, ends.1);
            let q2 = chosen_end(config, third, ends.2);
            end_normal_outward(config, first, second, third, ends) == out.0 * area(
                flat(0, q0),
                flat(0, q1),
                flat(0, q2),
            ) + out.1 * area(flat(1, q0), flat(1, q1), flat(1, q2)) + out.2 * area(
                flat(2, q0),
                flat(2, q1),
                flat(2, q2),
            )
        }),
{
    reveal(end_normal_outward);
    let out = outward_sum(config, first, second, third);
    let q0 = chosen_end(config, first, ends.0);
    let q1 = chosen_end(config, second, ends.1);
    let q2 = chosen_end(config, third, ends.2);
    lemma_chosen_end_is_corner(config, first, ends.0);
    lemma_chosen_end_is_corner(config, second, ends.1);
    lemma_chosen_end_is_corner(config, third, ends.2);
    lemma_outward_sum_small(config, first, second, third);
    lemma_small_cross_is_area(q0, q1, q2, 0);
    lemma_small_cross_is_area(q0, q1, q2, 1);
    lemma_small_cross_is_area(q0, q1, q2, 2);
    let n = small_cross(q0, q1, q2);
    lemma_small_times(out.0, n.0);
    lemma_small_times(out.1, n.1);
    lemma_small_times(out.2, n.2);
}

/// The three edges of the triangle that slot `slot` of the row of a block
/// belongs to.
pub open spec fn slot_edges(voxels: BlockOfVoxels, slot: int) -> (int, int, int) {
    let config = cube_index(voxels);
    let first = 3 * (slot / 3);
    (table_entry(config, first), table_entry(config, first + 1), table_entry(config, first + 2))
}

/// The sum of the steps from solid to empty along the three edges of the
/// triangle that slot `slot` belongs to.
#[verifier::opaque]
pub open spec fn outward_steps(voxels: BlockOfVoxels, slot: int) -> (int, int, int) {
    let edges = slot_edges(voxels, slot);
    outward_sum(cube_index(voxels), edges.0, edges.1, edges.2)
}

/// The normal of the triangle that slot `slot` belongs to, before a triangle
/// without area is given a normal of its own.
#[verifier::opaque]
pub open spec fn slot_scaled_normal(voxels: BlockOfVoxels, slot: int) -> (int, int, int) {
    let edges = slot_edges(voxels, slot);
    scaled_normal(
        edge_point(voxels, edges.0),
        edge_point(voxels, edges.1),
        edge_point(voxels, edges.2),
    )
}

/// The weights of the solid ends of the three edges of a slot's triangle.
#[verifier::opaque]
pub open spec fn slot_solid_weights(voxels: BlockOfVoxels, slot: int) -> (int, int, int) {
    let edges = slot_edges(voxels, slot);
    (
        solid_weight(voxels, edges.0),
        solid_weight(voxels, edges.1),
        solid_weight(voxels, edges.2),
    )
}

/// The weights of the empty ends of the three edges of a slot's triangle.
#[verifier::opaque]
pub open spec fn slot_empty_weights(voxels: BlockOfVoxels, slot: int) -> (int, int, int) {
    let edges = slot_edges(voxels, slot);
    (
        empty_weight(voxels, edges.0),
        empty_weight(voxels, edges.1),
        empty_weight(voxels, edges.2),
    )
}

/// The solid ends of the three edges of a slot's triangle, seen along axis `k`.
#[verifier::opaque]
pub open spec fn slot_solid_ends(voxels: BlockOfVoxels, slot: int, k: int) -> (Flat, Flat, Flat) {
    let config = cube_index(voxels);
    let edges = slot_edges(voxels, slot);
    (
        flat(k, solid_end(config, edges.0)),
        flat(k, solid_end(config, edges.1)),
        flat(k, solid_end(config, edges.2)),
    )
}

/// The empty ends of the three edges of a slot's triangle, seen along axis `k`.
#[verifier::opaque]
pub open spec fn slot_empty_ends(voxels: BlockOfVoxels, slot: int, k: int) -> (Flat, Flat, Flat) {
    let config = cube_index(voxels);
    let edges = slot_edges(voxels, slot);
    (
        flat(k, empty_end(config, edges.0)),
        flat(k, empty_end(config, edges.1)),
        flat(k, empty_end(config, edges.2)),
    )
}

/// A component of the normal of a slot's triangle is the sum over the eight
/// ways of choosing ends of the area over the ends times their weights.
proof fn lemma_slot_normal_over_ends(voxels: BlockOfVoxels, pos: Position, slot: int, k: int)
    requires
        0 <= slot < block_vertices(voxels, pos).len(),
        0 <= k <= 2,
    ensures
        component(k, slot_scaled_normal(voxels, slot)) == sum_over_ends(
            |ends: (bool, bool, bool)|
                end_weight(
                    slot_solid_weights(voxels, slot),
                    slot_empty_weights(voxels, slot),
                    ends,
                ) * end_area(
                    slot_solid_ends(voxels, slot, k),
                    slot_empty_ends(voxels, slot, k),
                    ends,
                ),
        ),
{
    reveal(slot_scaled_normal);
    reveal(slot_solid_weights);
    reveal(slot_empty_weights);
    reveal(slot_solid_ends);
    reveal(slot_empty_ends);
    let first = 3 * (slot / 3);
    let edges = slot_edges(voxels, slot);
    lemma_triangles_on_crossed_edges(voxels, first);
    lemma_triangles_on_crossed_edges(voxels, first + 1);
    lemma_triangles_on_crossed_edges(voxels, first + 2);
    lemma_edge_point_between_ends(voxels, edges.0, k);
    lemma_edge_point_between_ends(voxels, edges.1, k);
    lemma_edge_point_between_ends(voxels, edges.2, k);
    lemma_scaled_normal_components(
        edge_point(voxels, edges.0),
        edge_point(voxels, edges.1),
        edge_point(voxels, edges.2),
        k,
    );
    lemma_weighted_area_over_ends(
        slot_solid_weights(voxels, slot),
        slot_empty_weights(voxels, slot),
        slot_solid_ends(voxels, slot, k),
        slot_empty_ends(voxels, slot, k),
    );
}

/// The component along the outward steps of the normal over chosen ends of a
/// slot's triangle, with the products written out.
proof fn lemma_slot_end_outward(voxels: BlockOfVoxels, slot: int, ends: (bool, bool, bool))
    ensures
        ({
            let edges = slot_edges(voxels, slot);
            let out = outward_steps(voxels, slot);
            let at = |k: int|
                end_area(slot_solid_ends(voxels, slot, k), slot_empty_ends(voxels, slot, k), ends);
            end_normal_outward(cube_index(voxels), edges.0, edges.1, edges.2, ends) == out.0 * at(0)
                + out.1 * at(1) + out.2 * at(2)
        }),
{
    reveal(outward_steps);
    reveal(slot_solid_ends);
    reveal(slot_empty_ends);
    let config = cube_index(voxels);
    let edges = slot_edges(voxels, slot);
    lemma_end_normal_outward(config, edges.0, edges.1, edges.2, ends);
    lemma_chosen_end_is_corner(config, edges.0, ends.0);
    lemma_chosen_end_is_corner(config, edges.1, ends.1);
    lemma_chosen_end_is_corner(config, edges.2, ends.2);
}

/// A weight times a sum of three products, product by product.
proof fn lemma_weight_into_dot(weight: int, out: (int, int, int), x: int, y: int, z: int)
    ensures
        weight * (out.0 * x + out.1 * y + out.2 * z) == out.0 * (weight * x) + out.1 * (weight * y)
            + out.2 * (weight * z),
{
    let (o0, o1, o2) = (out.0, out.1, out.2);
    let (a, b, c) = (o0 * x, o1 * y, o2 * z);
    assert(weight * (a + b + c) == weight * a + weight * b + weight * c) by (nonlinear_arith);
    assert(weight * a == o0 * (weight * x)) by (nonlinear_arith)
        requires
            a == o0 * x,
    ;
    assert(weight * b == o1 * (weight * y)) by (nonlinear_arith)
        requires
            b == o1 * y,
    ;
    assert(weight * c == o2 * (weight * z)) by (nonlinear_arith)
        requires
            c == o2 * z,
    ;
}

/// A factor times a sum of eight, term by term.
proof fn lemma_times_sum_of_eight(o: int, t: Seq<int>)
    requires
        t.len() == 8,
    ensures
        o * (t[0] + t[1] + t[2] + t[3] + t[4] + t[5] + t[6] + t[7]) == o * t[0] + o * t[1] + o
            * t[2] + o * t[3] + o * t[4] + o * t[5] + o * t[6] + o * t[7],
{
    let (a, b, c, d) = (t[0], t[1], t[2], t[3]);
    let (e, f, g, h) = (t[4], t[5], t[6], t[7]);
    assert(o * (a + b + c + d + e + f + g + h) == o * a + o * b + o * c + o * d + o * e + o * f + o
        * g + o * h) by (nonlinear_arith);
}

/// A weight that is not negative keeps the sign of what it is multiplied
/// with, and a weight of at least one does not make it smaller.
proof fn lemma_weighted_term(weight: int, value: int)
    requires
        weight >= 0,
        value >= 0,
    ensures
        weight * value >= 0,
        weight >= 1 ==> weight * value >= value,
{
    assert(weight * value >= 0) by (nonlinear_arith)
        requires
            weight >= 0,
            value >= 0,
    ;
    if weight >= 1 {
        assert(weight * value >= value) by (nonlinear_arith)
            requires
                weight >= 1,
                value >= 0,
        ;
    }
}

/// The product of three weights has their sign.
proof fn lemma_end_weight_sign(w: (int, int, int), a: (int, int, int), ends: (bool, bool, bool))
    requires
        w.0 >= 0 && w.1 >= 0 && w.2 >= 0,
        a.0 >= 1 && a.1 >= 1 && a.2 >= 1,
    ensures
        end_weight(w, a, ends) >= 0,
        w.0 >= 1 && w.1 >= 1 && w.2 >= 1 ==> end_weight(w, a, ends) >= 1,
{
    let (x, y, z) = (pick(ends.0, w.0, a.0), pick(ends.1, w.1, a.1), pick(ends.2, w.2, a.2));
    assert(x * y * z >= 0) by (nonlinear_arith)
        requires
            x >= 0,
            y >= 0,
            z >= 0,
    ;
    if w.0 >= 1 && w.1 >= 1 && w.2 >= 1 {
        assert(x * y * z >= 1) by (nonlinear_arith)
            requires
                x >= 1,
                y >= 1,
                z >= 1,
        ;
    }
}

/// The sum of eight weighted areas along three axes, against the outward
/// steps: where each of the eight triangles over ends does not face the solid
/// side, neither does the weighted sum.
proof fn lemma_dot_of_weighted_sums(
    out: (int, int, int),
    weight: Seq<int>,
    x: Seq<int>,
    y: Seq<int>,
    z: Seq<int>,
)
    requires
        weight.len() == 8 && x.len() == 8 && y.len() == 8 && z.len() == 8,
        forall|j: int| 0 <= j < 8 ==> #[trigger] weight[j] >= 0,
        forall|j: int| 0 <= j < 8 ==> out.0 * #[trigger] x[j] + out.1 * y[j] + out.2 * z[j] >= 0,
    ensures
        ({
            let sum = |t: Seq<int>|
                weight[0] * t[0] + weight[1] * t[1] + weight[2] * t[2] + weight[3] * t[3]
                    + weight[4] * t[4] + weight[5] * t[5] + weight[6] * t[6] + weight[7] * t[7];
            let dot = |j: int| out.0 * x[j] + out.1 * y[j] + out.2 * z[j];
            &&& out.0 * sum(x) + out.1 * sum(y) + out.2 * sum(z) >= 0
            &&& (forall|j: int| 0 <= j < 8 ==> #[trigger] weight[j] >= 1) ==> out.0 * sum(x) + out.1
                * sum(y)
                + out.2 * sum(z) >= dot(0) + dot(1) + dot(2) + dot(3) + dot(4) + dot(5) + dot(6)
                + dot(7)
        }),
{
    let wx = Seq::new(8, |j: int| weight[j] * x[j]);
    let wy = Seq::new(8, |j: int| weight[j] * y[j]);
    let wz = Seq::new(8, |j: int| weight[j] * z[j]);
    lemma_times_sum_of_eight(out.0, wx);
    lemma_times_sum_of_eight(out.1, wy);
    lemma_times_sum_of_eight(out.2, wz);
    assert forall|j: int| 0 <= j < 8 implies {
        let dot = out.0 * x[j] + out.1 * y[j] + out.2 * z[j];
        &&& out.0 * #[trigger] wx[j] + out.1 * wy[j] + out.2 * wz[j] == weight[j] * dot
        &&& weight[j] * dot >= 0
        &&& weight[j] >= 1 ==> weight[j] * dot >= dot
    } by {
        lemma_weight_into_dot(weight[j], out, x[j], y[j], z[j]);
        lemma_weighted_term(weight[j], out.0 * x[j] + out.1 * y[j] + out.2 * z[j]);
    }
    assert(wx[0] == weight[0] * x[0] && wx[1] == weight[1] * x[1] && wx[2] == weight[2] * x[2]
        && wx[3] == weight[3] * x[3] && wx[4] == weight[4] * x[4] && wx[5] == weight[5] * x[5]
        && wx[6] == weight[6] * x[6] && wx[7] == weight[7] * x[7]);
    assert(wy[0] == weight[0] * y[0] && wy[1] == weight[1] * y[1] && wy[2] == weight[2] * y[2]
        && wy[3] == weight[3] * y[3] && wy[4] == weight[4] * y[4] && wy[5] == weight[5] * y[5]
        && wy[6] == weight[6] * y[6] && wy[7] == weight[7] * y[7]);
    assert(wz[0] == weight[0] * z[0] && wz[1] == weight[1] * z[1] && wz[2] == weight[2] * z[2]
        && wz[3] == weight[3] * z[3] && wz[4] == weight[4] * z[4] && wz[5] == weight[5] * z[5]
        && wz[6] == weight[6] * z[6] && wz[7] == weight[7] * z[7]);
}

/// No sample of the block is zero: no crossing lies at a corner.
pub open spec fn no_zero_sample(voxels: BlockOfVoxels) -> bool {
    forall|x: int, y: int, z: int|
        0 <= x <= 1 && 0 <= y <= 1 && 0 <= z <= 1 ==> (#[trigger] block_voxel(
            voxels,
            (x, y, z),
        )).value != 0
}

/// The weights of the two ends of a crossed edge: that of the solid end is
/// not negative, and not zero where no sample is zero; that of the empty end
/// is positive.
proof fn lemma_edge_weights(voxels: BlockOfVoxels, edge: int)
    requires
        0 <= edge < 12,
        block_voxel(voxels, edge_start(edge)).solid() != block_voxel(
            voxels,
            edge_end(edge),
        ).solid(),
    ensures
        solid_weight(voxels, edge) >= 0,
        empty_weight(voxels, edge) >= 1,
        no_zero_sample(voxels) ==> solid_weight(voxels, edge) >= 1,
{
    let start = edge_start(edge);
    let end = edge_end(edge);
    lemma_cube_index_bits(voxels, start);
    if no_zero_sample(voxels) {
        assert(block_voxel(voxels, (start.0, start.1, start.2)).value != 0);
        assert(block_voxel(voxels, (end.0, end.1, end.2)).value != 0);
    }
}

/// The weights of the ends of the edges of a slot's triangle: none is
/// negative, and none is zero where no sample is zero.
proof fn lemma_slot_weights(voxels: BlockOfVoxels, pos: Position, slot: int)
    requires
        0 <= slot < block_vertices(voxels, pos).len(),
    ensures
        ({
            let w = slot_solid_weights(voxels, slot);
            let a = slot_empty_weights(voxels, slot);
            &&& w.0 >= 0 && w.1 >= 0 && w.2 >= 0
            &&& a.0 >= 1 && a.1 >= 1 && a.2 >= 1
            &&& no_zero_sample(voxels) ==> w.0 >= 1 && w.1 >= 1 && w.2 >= 1
        }),
{
    reveal(slot_solid_weights);
    reveal(slot_empty_weights);
    let first = 3 * (slot / 3);
    let edges = slot_edges(voxels, slot);
    lemma_triangles_on_crossed_edges(voxels, first);
    lemma_triangles_on_crossed_edges(voxels, first + 1);
    lemma_triangles_on_crossed_edges(voxels, first + 2);
    lemma_edge_weights(voxels, edges.0);
    lemma_edge_weights(voxels, edges.1);
    lemma_edge_weights(voxels, edges.2);
}

/// The triangle of a slot faces the empty side of its configuration, in the
/// table's sense.
proof fn lemma_slot_faces_empty_side(voxels: BlockOfVoxels, pos: Position, slot: int)
    requires
        0 <= slot < block_vertices(voxels, pos).len(),
    ensures
        faces_empty_side(
            cube_index(voxels),
            slot_edges(voxels, slot).0,
            slot_edges(voxels, slot).1,
            slot_edges(voxels, slot).2,
        ),
{
    let config = cube_index(voxels);
    lemma_cube_index_bits(voxels, (0, 0, 0));
    lemma_rows_oriented(config);
    assert(row_triangle_faces_empty(config, triangulation_row(config), slot / 3));
}

/// Every triangle faces the empty side. For any densities, the normal of the
/// triangle that a slot belongs to has no negative component along the sum of
/// the steps from solid to empty of the three edges that its corners lie on.
/// Where no sample of the block is zero, the component is positive: the
/// triangle has an area, and its normal points away from the solid.
pub proof fn lemma_triangles_face_empty_side(voxels: BlockOfVoxels, pos: Position, slot: int)
    requires
        0 <= slot < block_vertices(voxels, pos).len(),
    ensures
        ({
            let n = slot_scaled_normal(voxels, slot);
            let out = outward_steps(voxels, slot);
            &&& n.0 * out.0 + n.1 * out.1 + n.2 * out.2 >= 0
            &&& no_zero_sample(voxels) ==> n.0 * out.0 + n.1 * out.1 + n.2 * out.2 > 0
        }),
{
    let config = cube_index(voxels);
    let edges = slot_edges(voxels, slot);
    let out = outward_steps(voxels, slot);
    let n = slot_scaled_normal(voxels, slot);
    let w = slot_solid_weights(voxels, slot);
    let a = slot_empty_weights(voxels, slot);
    let ends = eight_ends();
    let weight = Seq::new(8, |j: int| end_weight(w, a, ends[j]));
    let x = Seq::new(
        8,
        |j: int|
            end_area(slot_solid_ends(voxels, slot, 0), slot_empty_ends(voxels, slot, 0), ends[j]),
    );
    let y = Seq::new(
        8,
        |j: int|
            end_area(slot_solid_ends(voxels, slot, 1), slot_empty_ends(voxels, slot, 1), ends[j]),
    );
    let z = Seq::new(
        8,
        |j: int|
            end_area(slot_solid_ends(voxels, slot, 2), slot_empty_ends(voxels, slot, 2), ends[j]),
    );
    lemma_slot_weights(voxels, pos, slot);
    lemma_slot_faces_empty_side(voxels, pos, slot);
    lemma_slot_normal_over_ends(voxels, pos, slot, 0);
    lemma_slot_normal_over_ends(voxels, pos, slot, 1);
    lemma_slot_normal_over_ends(voxels, pos, slot, 2);
    assert forall|j: int| 0 <= j < 8 implies #[trigger] weight[j] >= 0 && (no_zero_sample(voxels)
        ==> weight[j] >= 1) by {
        lemma_end_weight_sign(w, a, ends[j]);
    }
    assert forall|j: int| 0 <= j < 8 implies out.0 * #[trigger] x[j] + out.1 * y[j] + out.2 * z[j]
        == end_normal_outward(config, edges.0, edges.1, edges.2, ends[j]) by {
        lemma_slot_end_outward(voxels, slot, ends[j]);
    }
    assert(ends[0] == (false, false, false) && ends[1] == (false, false, true) && ends[2] == (
        false,
        true,
        false,
    ) && ends[3] == (false, true, true) && ends[4] == (true, false, false) && ends[5] == (
        true,
        false,
        true,
    ) && ends[6] == (true, true, false) && ends[7] == (true, true, true));
    assert(out.0 * x[0] + out.1 * y[0] + out.2 * z[0] >= 0);
    assert(out.0 * x[1] + out.1 * y[1] + out.2 * z[1] >= 0);
    assert(out.0 * x[2] + out.1 * y[2] + out.2 * z[2] >= 0);
    assert(out.0 * x[3] + out.1 * y[3] + out.2 * z[3] >= 0);
    assert(out.0 * x[4] + out.1 * y[4] + out.2 * z[4] >= 0);
    assert(out.0 * x[5] + out.1 * y[5] + out.2 * z[5] >= 0);
    assert(out.0 * x[6] + out.1 * y[6] + out.2 * z[6] >= 0);
    assert(out.0 * x[7] + out.1 * y[7] + out.2 * z[7] >= 0);
    lemma_dot_of_weighted_sums(out, weight, x, y, z);
    assert(n.0 == component(0, n) && n.1 == component(1, n) && n.2 == component(2, n));
    assert(n.0 * out.0 == out.0 * n.0 && n.1 * out.1 == out.1 * n.1 && n.2 * out.2 == out.2 * n.2)
        by (nonlinear_arith);
}

/// The normal that the mesher gives a vertex is the normal of the triangle
/// that the vertex's slot belongs to, or straight up where that has no area.
proof fn lemma_vertex_normal(voxels: BlockOfVoxels, pos: Position, slot: int)
    requires
        0 <= slot < block_vertices(voxels, pos).len(),
    ensures
        ({
            let n = slot_scaled_normal(voxels, slot);
            let normal = block_vertices(voxels, pos)[slot].normal;
            if n == (0int, 0int, 0int) {
                normal == (Normal { x: 0, y: 1, z: 0 })
            } else {
                normal.x == n.0 && normal.y == n.1 && normal.z == n.2
            }
        }),
{
    reveal(slot_scaled_normal);
    let config = cube_index(voxels);
    let row = triangulation_row(config);
    let points = vertex_midpoints(voxels);
    let first = 3 * (slot / 3);
    let edges = slot_edges(voxels, slot);
    lemma_triangles_on_crossed_edges(voxels, first);
    lemma_triangles_on_crossed_edges(voxels, first + 1);
    lemma_triangles_on_crossed_edges(voxels, first + 2);
    lemma_edge_point_between_ends(voxels, edges.0, 0);
    lemma_edge_point_between_ends(voxels, edges.1, 0);
    lemma_edge_point_between_ends(voxels, edges.2, 0);
    lemma_edge_point_wf(voxels, edges.0);
    lemma_edge_point_wf(voxels, edges.1);
    lemma_edge_point_wf(voxels, edges.2);
    assert(points[edges.0] == edge_point(voxels, edges.0));
    assert(points[edges.1] == edge_point(voxels, edges.1));
    assert(points[edges.2] == edge_point(voxels, edges.2));
    lemma_triangle_normal_is_scaled_normal(
        edge_point(voxels, edges.0),
        edge_point(voxels, edges.1),
        edge_point(voxels, edges.2),
    );
    assert(block_vertices(voxels, pos)[slot] == row_vertex(row, points, pos, slot));
}

/// The point of a crossed edge is well formed.
proof fn lemma_edge_point_wf(voxels: BlockOfVoxels, edge: int)
    requires
        0 <= edge < 12,
        block_voxel(voxels, edge_start(edge)).solid() != block_voxel(
            voxels,
            edge_end(edge),
        ).solid(),
    ensures
        edge_point(voxels, edge).wf(),
{
    let start = edge_start(edge);
    let end = edge_end(edge);
    let start_val = block_voxel(voxels, start).value as int;
    let end_val = block_voxel(voxels, end).value as int;
    if start_val > 0 {
        lemma_mix_at_crossing_fraction(start, end, start_val, end_val);
    } else {
        lemma_mix_at_crossing_fraction(end, start, end_val, start_val);
    }
}

/// Every normal points away from the solid. In a block without a sample of
/// zero, the normal of every vertex has a positive component along the sum of
/// the steps from solid to empty of the three edges that the corners of its
/// triangle lie on. With samples of zero, a triangle may be without area; the
/// normal of one that has an area still has no negative component there.
pub proof fn lemma_normals_face_empty_side(voxels: BlockOfVoxels, pos: Position, slot: int)
    requires
        0 <= slot < block_vertices(voxels, pos).len(),
    ensures
        ({
            let normal = block_vertices(voxels, pos)[slot].normal;
            let out = outward_steps(voxels, slot);
            let along = normal.x * out.0 + normal.y * out.1 + normal.z * out.2;
            &&& no_zero_sample(voxels) ==> along > 0
            &&& slot_scaled_normal(voxels, slot) != (0int, 0int, 0int) ==> along >= 0
        }),
{
    lemma_triangles_face_empty_side(voxels, pos, slot);
    lemma_vertex_normal(voxels, pos, slot);
    let out = outward_steps(voxels, slot);
    assert(0 * out.0 + 0 * out.1 + 0 * out.2 == 0) by (nonlinear_arith);
}

/// Every normal of a chunk's cell points away from the solid: what
/// `lemma_normals_face_empty_side` says of a block holds of the block of each
/// cell.
pub proof fn lemma_cell_normals_face_empty_side(chunk: &Chunk, pos: Position, slot: int)
    requires
        0 <= slot < cell_vertices(chunk, pos).len(),
    ensures
        ({
            let voxels = cell_block(chunk, pos);
            let normal = cell_vertices(chunk, pos)[slot].normal;
            let out = outward_steps(voxels, slot);
            let along = normal.x * out.0 + normal.y * out.1 + normal.z * out.2;
            &&& no_zero_sample(voxels) ==> along > 0
            &&& slot_scaled_normal(voxels, slot) != (0int, 0int, 0int) ==> along >= 0
        }),
{
    reveal(cell_vertices);
    lemma_normals_face_empty_side(cell_block(chunk, pos), pos, slot);
}

} // verus!
