use crate::pos::Position;
use vstd::prelude::*;

verus! {

/// The colour that every vertex gets, as packed RGBA with red in the lowest
/// byte: a warm grey, opaque.
pub const VERTEX_COLOR: u32 = 0xFF66_727F;

/// The largest denominator of an `EdgePoint`: the largest difference of two densities.
pub const MAX_DENOMINATOR: i64 = 0xFFFF_FFFF;

/// A point of a unit cell with rational coordinates: `(x / den, y / den, z / den)`.
#[derive(Clone, Copy, PartialEq, Eq, Structural, Debug)]
pub struct EdgePoint {
    pub x: i64,
    pub y: i64,
    pub z: i64,
    pub den: i64,
}

impl EdgePoint {
    /// The denominator is positive and the point lies in the closed unit cell.
    pub open spec fn wf(self) -> bool {
        &&& 0 < self.den <= MAX_DENOMINATOR
        &&& 0 <= self.x <= self.den
        &&& 0 <= self.y <= self.den
        &&& 0 <= self.z <= self.den
    }

    /// The point lies on an edge of the unit cell: at least two of its
    /// coordinates are 0 or 1.
    pub open spec fn on_cell_edge(self) -> bool {
        let x_whole = self.x == 0 || self.x == self.den;
        let y_whole = self.y == 0 || self.y == self.den;
        let z_whole = self.z == 0 || self.z == self.den;
        (x_whole && y_whole) || (x_whole && z_whole) || (y_whole && z_whole)
    }

    /// The cell's origin.
    pub open spec fn origin() -> EdgePoint {
        EdgePoint { x: 0, y: 0, z: 0, den: 1 }
    }
}

/// The direction of a face normal. Its length carries no meaning; a host that
/// needs unit normals divides by the length.
#[derive(Clone, Copy, PartialEq, Eq, Structural, Debug)]
pub struct Normal {
    pub x: i128,
    pub y: i128,
    pub z: i128,
}

/// A corner of an emitted triangle. It lies at `cell + offset`: a lattice point
/// and a rational offset within the cell that starts there.
#[derive(Clone, Copy, PartialEq, Eq, Structural, Debug)]
pub struct Vertex {
    pub cell: Position,
    pub offset: EdgePoint,
    pub normal: Normal,
    pub color: u32,
}

/// The cross product of the numerators of `p` and `q`.
pub open spec fn cross(p: EdgePoint, q: EdgePoint) -> (int, int, int) {
    (p.y * q.z - p.z * q.y, p.z * q.x - p.x * q.z, p.x * q.y - p.y * q.x)
}

/// The vector `cross(c - a, b - a)` of the three points, times the product of the
/// three denominators, which is positive: it has the direction of the
/// triangle's normal.
pub open spec fn scaled_normal(a: EdgePoint, b: EdgePoint, c: EdgePoint) -> (int, int, int) {
    let cb = cross(c, b);
    let ac = cross(a, c);
    let ba = cross(b, a);
    (
        a.den * cb.0 + b.den * ac.0 + c.den * ba.0,
        a.den * cb.1 + b.den * ac.1 + c.den * ba.1,
        a.den * cb.2 + b.den * ac.2 + c.den * ba.2,
    )
}

/// The normal of the triangle `a`, `b`, `c`; straight up where the triangle
/// has no area.
pub open spec fn triangle_normal(a: EdgePoint, b: EdgePoint, c: EdgePoint) -> Normal {
    let n = scaled_normal(a, b, c);
    if n.0 == 0 && n.1 == 0 && n.2 == 0 {
        Normal { x: 0, y: 1, z: 0 }
    } else {
        Normal { x: n.0 as i128, y: n.1 as i128, z: n.2 as i128 }
    }
}

/// The three vertices of the triangle `a`, `b`, `c` of the cell at `pos`.
pub open spec fn triangle_vertices(
    pos: Position,
    a: EdgePoint,
    b: EdgePoint,
    c: EdgePoint,
    color: u32,
) -> Seq<Vertex> {
    let normal = triangle_normal(a, b, c);
    seq![
        Vertex { cell: pos, offset: a, normal, color },
        Vertex { cell: pos, offset: b, normal, color },
        Vertex { cell: pos, offset: c, normal, color },
    ]
}

/// The product of two differences, multiplied out.
proof fn lemma_product_of_differences(m: int, n: int, p: int, q: int)
    ensures
        (m - n) * (p - q) == m * p - m * q - n * p + n * q,
{
    assert((m - n) * (p - q) == m * p - m * q - n * p + n * q) by (nonlinear_arith);
}

/// The product of two scaled numbers, with the scales in front.
proof fn lemma_product_of_scaled(x: int, d: int, y: int, e: int)
    ensures
        (x * d) * (y * e) == d * (e * (x * y)),
{
    assert((x * d) * (y * e) == d * (e * (x * y))) by (nonlinear_arith);
}

/// Two scales distribute over a difference.
proof fn lemma_scaled_difference(d: int, e: int, x: int, y: int)
    ensures
        d * (e * (x - y)) == d * (e * x) - d * (e * y),
{
    assert(d * (e * (x - y)) == d * (e * x) - d * (e * y)) by (nonlinear_arith);
}

/// A scale distributes over a sum of three.
proof fn lemma_scaled_sum(d: int, x: int, y: int, z: int)
    ensures
        d * (x + y + z) == d * x + d * y + d * z,
{
    assert(d * (x + y + z) == d * x + d * y + d * z) by (nonlinear_arith);
}

/// One component of `lemma_scaled_normal_is_cross_product`, over the two
/// coordinates that the component is made of.
proof fn lemma_cross_component(
    ad: int,
    bd: int,
    cd: int,
    a1: int,
    a2: int,
    b1: int,
    b2: int,
    c1: int,
    c2: int,
)
    ensures
        ad * (ad * (c1 * b2 - c2 * b1) + bd * (a1 * c2 - a2 * c1) + cd * (b1 * a2 - b2 * a1)) == (c1
            * ad - a1 * cd) * (b2 * ad - a2 * bd) - (c2 * ad - a2 * cd) * (b1 * ad - a1 * bd),
{
    lemma_product_of_differences(c1 * ad, a1 * cd, b2 * ad, a2 * bd);
    lemma_product_of_scaled(c1, ad, b2, ad);
    lemma_product_of_scaled(c1, ad, a2, bd);
    lemma_product_of_scaled(a1, cd, b2, ad);
    lemma_product_of_scaled(a1, cd, a2, bd);
    lemma_product_of_differences(c2 * ad, a2 * cd, b1 * ad, a1 * bd);
    lemma_product_of_scaled(c2, ad, b1, ad);
    lemma_product_of_scaled(c2, ad, a1, bd);
    lemma_product_of_scaled(a2, cd, b1, ad);
    lemma_product_of_scaled(a2, cd, a1, bd);
    lemma_scaled_sum(
        ad,
        ad * (c1 * b2 - c2 * b1),
        bd * (a1 * c2 - a2 * c1),
        cd * (b1 * a2 - b2 * a1),
    );
    lemma_scaled_difference(ad, ad, c1 * b2, c2 * b1);
    lemma_scaled_difference(ad, bd, a1 * c2, a2 * c1);
    lemma_scaled_difference(ad, cd, b1 * a2, b2 * a1);
    assert(a1 * a2 == a2 * a1 && a2 * c1 == c1 * a2 && a1 * c2 == c2 * a1 && b1 * a2 == a2 * b1
        && b2 * a1 == a1 * b2) by (nonlinear_arith);
    assert(ad * (cd * (a2 * b1)) == cd * (ad * (a2 * b1)) && ad * (cd * (a1 * b2)) == cd * (ad * (a1
        * b2))) by (nonlinear_arith);
}

/// `scaled_normal` is the cross product it is named after: with each side of
/// the triangle scaled to whole numbers, `u = c * a.den - a * c.den` and
/// `v = b * a.den - a * b.den`, the vector `a.den * scaled_normal(a, b, c)` is
/// `cross(u, v)`.
pub proof fn lemma_scaled_normal_is_cross_product(a: EdgePoint, b: EdgePoint, c: EdgePoint)
    ensures
        ({
            let n = scaled_normal(a, b, c);
            let u = (
                c.x * a.den - a.x * c.den,
                c.y * a.den - a.y * c.den,
                c.z * a.den - a.z * c.den,
            );
            let v = (
                b.x * a.den - a.x * b.den,
                b.y * a.den - a.y * b.den,
                b.z * a.den - a.z * b.den,
            );
            &&& a.den * n.0 == u.1 * v.2 - u.2 * v.1
            &&& a.den * n.1 == u.2 * v.0 - u.0 * v.2
            &&& a.den * n.2 == u.0 * v.1 - u.1 * v.0
        }),
{
    let (ax, ay, az, ad) = (a.x as int, a.y as int, a.z as int, a.den as int);
    let (bx, by, bz, bd) = (b.x as int, b.y as int, b.z as int, b.den as int);
    let (cx, cy, cz, cd) = (c.x as int, c.y as int, c.z as int, c.den as int);
    lemma_cross_component(ad, bd, cd, ay, az, by, bz, cy, cz);
    lemma_cross_component(ad, bd, cd, az, ax, bz, bx, cz, cx);
    lemma_cross_component(ad, bd, cd, ax, ay, bx, by, cx, cy);
}

/// One component of a cross product of numerators stays within the square of
/// the largest denominator.
proof fn lemma_cross_component_bound(p: int, q: int, r: int, s: int)
    requires
        0 <= p <= MAX_DENOMINATOR,
        0 <= q <= MAX_DENOMINATOR,
        0 <= r <= MAX_DENOMINATOR,
        0 <= s <= MAX_DENOMINATOR,
    ensures
        -18446744065119617025 <= p * q - r * s <= 18446744065119617025,
{
    assert(0 <= p * q <= 4294967295 * 4294967295) by (nonlinear_arith)
        requires
            0 <= p <= 4294967295,
            0 <= q <= 4294967295,
    ;
    assert(0 <= r * s <= 4294967295 * 4294967295) by (nonlinear_arith)
        requires
            0 <= r <= 4294967295,
            0 <= s <= 4294967295,
    ;
}

/// A denominator times a component of a cross product stays within the cube
/// of the largest denominator.
proof fn lemma_scaled_component_bound(scale: int, value: int)
    requires
        0 < scale <= MAX_DENOMINATOR,
        -18446744065119617025 <= value <= 18446744065119617025,
    ensures
        -79228162458924105385300197375 <= scale * value <= 79228162458924105385300197375,
{
    assert(-(4294967295 * 18446744065119617025) <= scale * value <= 4294967295
        * 18446744065119617025) by (nonlinear_arith)
        requires
            0 < scale <= 4294967295,
            -18446744065119617025 <= value <= 18446744065119617025,
    ;
}

/// The normal of a triangle of well-formed points fits the integers of a
/// `Normal`: where the triangle has an area, `triangle_normal` is its
/// `scaled_normal`, component by component.
pub proof fn lemma_triangle_normal_is_scaled_normal(a: EdgePoint, b: EdgePoint, c: EdgePoint)
    requires
        a.wf(),
        b.wf(),
        c.wf(),
    ensures
        ({
            let n = scaled_normal(a, b, c);
            let normal = triangle_normal(a, b, c);
            if n == (0int, 0int, 0int) {
                normal == (Normal { x: 0, y: 1, z: 0 })
            } else {
                normal.x == n.0 && normal.y == n.1 && normal.z == n.2
            }
        }),
{
    lemma_cross_component_bound(c.y as int, b.z as int, c.z as int, b.y as int);
    lemma_cross_component_bound(c.z as int, b.x as int, c.x as int, b.z as int);
    lemma_cross_component_bound(c.x as int, b.y as int, c.y as int, b.x as int);
    lemma_cross_component_bound(a.y as int, c.z as int, a.z as int, c.y as int);
    lemma_cross_component_bound(a.z as int, c.x as int, a.x as int, c.z as int);
    lemma_cross_component_bound(a.x as int, c.y as int, a.y as int, c.x as int);
    lemma_cross_component_bound(b.y as int, a.z as int, b.z as int, a.y as int);
    lemma_cross_component_bound(b.z as int, a.x as int, b.x as int, a.z as int);
    lemma_cross_component_bound(b.x as int, a.y as int, b.y as int, a.x as int);
    let cb = cross(c, b);
    let ac = cross(a, c);
    let ba = cross(b, a);
    lemma_scaled_component_bound(a.den as int, cb.0);
    lemma_scaled_component_bound(a.den as int, cb.1);
    lemma_scaled_component_bound(a.den as int, cb.2);
    lemma_scaled_component_bound(b.den as int, ac.0);
    lemma_scaled_component_bound(b.den as int, ac.1);
    lemma_scaled_component_bound(b.den as int, ac.2);
    lemma_scaled_component_bound(c.den as int, ba.0);
    lemma_scaled_component_bound(c.den as int, ba.1);
    lemma_scaled_component_bound(c.den as int, ba.2);
}

} // verus!
