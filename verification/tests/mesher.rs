use marching_cubes::append_vertices::{
    append_triangle, append_vertices, get_midpoint_data, get_triangle_normal,
    get_vertex_midpoints, get_voxels_for_vertex, mix_positions,
};
use marching_cubes::chunk::Chunk;
use marching_cubes::mesh::{EdgePoint, Normal, Vertex, MAX_DENOMINATOR, VERTEX_COLOR};
use marching_cubes::pos::Position;
use marching_cubes::voxel::Voxel;

fn origin_only(p: Position) -> i32 {
    if p.x == 0 && p.y == 0 && p.z == 0 {
        1
    } else {
        -1
    }
}

fn sphere(p: Position) -> i32 {
    (100 - (p.x - 16) * (p.x - 16) - (p.y - 16) * (p.y - 16) - (p.z - 16) * (p.z - 16)) as i32
}

fn point(x: i64, y: i64, z: i64, den: i64) -> EdgePoint {
    EdgePoint { x, y, z, den }
}

#[test]
fn single_solid_corner_gives_one_triangle() {
    let chunk = Chunk::new(Position::new(0, 0, 0), &origin_only);
    let vertices = chunk.generate_vertices();
    assert_eq!(vertices.len(), 3);
    // the midpoints of the three edges that meet at the solid corner
    let expected = [point(0, 0, 1, 2), point(0, 1, 0, 2), point(1, 0, 0, 2)];
    for (vertex, offset) in vertices.iter().zip(expected.iter()) {
        assert_eq!(vertex.cell, Position::new(0, 0, 0));
        assert_eq!(vertex.offset, *offset);
        // away from the solid corner at the origin
        assert_eq!(vertex.normal, Normal { x: 2, y: 2, z: 2 });
        assert_eq!(vertex.color, VERTEX_COLOR);
    }
}

#[test]
fn single_solid_corner_cell_alone() {
    let chunk = Chunk::new(Position::new(0, 0, 0), &origin_only);
    let mut vertices: Vec<Vertex> = Vec::new();
    append_vertices(Position::new(0, 0, 0), &chunk, &mut vertices);
    assert_eq!(vertices.len(), 3);
    append_vertices(Position::new(1, 0, 0), &chunk, &mut vertices);
    append_vertices(Position::new(0, 1, 0), &chunk, &mut vertices);
    append_vertices(Position::new(31, 31, 31), &chunk, &mut vertices);
    assert_eq!(vertices.len(), 3);
}

#[test]
fn append_vertices_keeps_what_was_there() {
    let chunk = Chunk::new(Position::new(0, 0, 0), &origin_only);
    let first = Vertex {
        cell: Position::new(7, 7, 7),
        offset: point(1, 1, 1, 1),
        normal: Normal { x: 1, y: 0, z: 0 },
        color: 5,
    };
    let mut vertices = vec![first];
    append_vertices(Position::new(0, 0, 0), &chunk, &mut vertices);
    assert_eq!(vertices.len(), 4);
    assert_eq!(vertices[0], first);
    assert_eq!(vertices[1].offset, point(0, 0, 1, 2));
}

#[test]
fn block_of_a_cell_is_indexed_by_offset() {
    let field = |p: Position| -> i32 { (p.x + 10 * p.y + 100 * p.z) as i32 };
    let chunk = Chunk::new(Position::new(0, 0, 0), &field);
    let block = get_voxels_for_vertex(&chunk, Position::new(3, 4, 5));
    for x in 0..2usize {
        for y in 0..2usize {
            for z in 0..2usize {
                let expected = (3 + x as i32) + 10 * (4 + y as i32) + 100 * (5 + z as i32);
                assert_eq!(block[x][y][z], Voxel { value: expected });
            }
        }
    }
}

#[test]
fn interpolation_gives_the_crossing_fraction() {
    // t = 3 / (3 - (-1)) = 3/4 of the way from a to b
    assert_eq!(mix_positions([0, 0, 0], [1, 0, 0], 3, -1), point(3, 0, 0, 4));
    // the same edge walked from the other end: 1 - 3/4
    assert_eq!(mix_positions([1, 0, 0], [0, 0, 0], 3, -1), point(1, 0, 0, 4));
    assert_eq!(mix_positions([0, 1, 0], [0, 1, 1], 1, -3), point(0, 4, 1, 4));
    assert_eq!(mix_positions([1, 0, 1], [1, 1, 1], 1, -1), point(2, 1, 2, 2));
}

#[test]
fn interpolation_reaches_the_empty_end_at_zero_density() {
    assert_eq!(mix_positions([0, 0, 0], [0, 0, 1], 5, 0), point(0, 0, 5, 5));
    assert_eq!(mix_positions([1, 1, 1], [1, 0, 1], 1, 0), point(1, 0, 1, 1));
}

#[test]
fn interpolation_takes_extreme_densities() {
    let p = mix_positions([0, 0, 0], [1, 0, 0], i32::MAX, i32::MIN);
    assert_eq!(p, point(2147483647, 0, 0, 4294967295));
    assert_eq!(p.den, MAX_DENOMINATOR);
    let q = mix_positions([0, 0, 0], [1, 0, 0], 1, i32::MIN);
    assert_eq!(q, point(1, 0, 0, 2147483649));
}

#[test]
fn crossing_fraction_is_monotonic_and_in_range() {
    // t as numerator and denominator along x from the solid corner
    let t = |a_val: i32, b_val: i32| {
        let p = mix_positions([0, 0, 0], [1, 0, 0], a_val, b_val);
        (p.x as i128, p.den as i128)
    };
    let values = [1, 2, 3, 10, 1000, i32::MAX];
    let empties = [0, -1, -2, -3, -10, -1000, i32::MIN];
    for &a in &values {
        for &b in &empties {
            let (num, den) = t(a, b);
            assert!(0 < num && num <= den);
        }
    }
    for &b in &empties {
        for pair in values.windows(2) {
            let (n1, d1) = t(pair[0], b);
            let (n2, d2) = t(pair[1], b);
            assert!(n1 * d2 <= n2 * d1);
        }
    }
    for &a in &values {
        for pair in empties.windows(2) {
            // pair[1] < pair[0]: the lower density at the empty end gives the smaller fraction
            let (n1, d1) = t(a, pair[1]);
            let (n2, d2) = t(a, pair[0]);
            assert!(n1 * d2 <= n2 * d1);
        }
    }
}

fn block_with(values: [i32; 8]) -> [[[Voxel; 2]; 2]; 2] {
    // values by [x][y][z] flattened with z fastest
    let mut voxels = [[[Voxel { value: 0 }; 2]; 2]; 2];
    for x in 0..2 {
        for y in 0..2 {
            for z in 0..2 {
                voxels[x][y][z] = Voxel { value: values[x * 4 + y * 2 + z] };
            }
        }
    }
    voxels
}

#[test]
fn midpoint_of_a_crossed_edge_from_either_end() {
    // (0,0,0) = 3, (1,0,0) = -1, the rest empty
    let voxels = block_with([3, -1, -1, -1, -1, -1, -1, -1]);
    assert_eq!(get_midpoint_data(&voxels, [0, 0, 0], [1, 0, 0]), point(3, 0, 0, 4));
    assert_eq!(get_midpoint_data(&voxels, [1, 0, 0], [0, 0, 0]), point(3, 0, 0, 4));
    assert_eq!(get_midpoint_data(&voxels, [0, 0, 0], [0, 1, 0]), point(0, 3, 0, 4));
}

#[test]
fn midpoint_of_an_uncrossed_edge_is_the_origin() {
    let voxels = block_with([3, -1, -1, -1, 2, -1, -1, -1]);
    // both ends empty
    assert_eq!(get_midpoint_data(&voxels, [0, 1, 0], [0, 1, 1]), point(0, 0, 0, 1));
    // both ends solid
    assert_eq!(get_midpoint_data(&voxels, [0, 0, 0], [1, 0, 0]), point(0, 0, 0, 1));
}

#[test]
fn midpoints_are_stored_by_edge_number() {
    // only the corner (1, 0, 1) is solid: corner number 1, edges 0, 1 and 9
    let mut values = [-1; 8];
    values[1 * 4 + 0 * 2 + 1] = 1;
    let midpoints = get_vertex_midpoints(block_with(values));
    assert_eq!(midpoints.len(), 12);
    assert_eq!(midpoints[0], point(1, 0, 2, 2));
    assert_eq!(midpoints[1], point(2, 0, 1, 2));
    assert_eq!(midpoints[9], point(2, 1, 2, 2));
    for edge in [2, 3, 4, 5, 6, 7, 8, 10, 11] {
        assert_eq!(midpoints[edge], point(0, 0, 0, 1));
    }
}

#[test]
fn normal_is_the_scaled_cross_product() {
    let a = point(0, 0, 1, 2);
    let b = point(0, 1, 0, 2);
    let c = point(1, 0, 0, 2);
    assert_eq!(get_triangle_normal(a, b, c), Normal { x: 2, y: 2, z: 2 });
    // the other winding turns the normal round
    assert_eq!(get_triangle_normal(a, c, b), Normal { x: -2, y: -2, z: -2 });
    // cross(c - a, b - a) for a = (0,0,0), b = (1/3,0,0), c = (0,1/5,0) is
    // (0,0,-1/15); times the three denominators 1 * 3 * 5
    let n = get_triangle_normal(point(0, 0, 0, 1), point(1, 0, 0, 3), point(0, 1, 0, 5));
    assert_eq!(n, Normal { x: 0, y: 0, z: -1 });
}

#[test]
fn normal_of_a_triangle_without_area_points_up() {
    let p = point(1, 2, 3, 4);
    assert_eq!(get_triangle_normal(p, p, p), Normal { x: 0, y: 1, z: 0 });
    // three points on one line
    let n = get_triangle_normal(point(0, 0, 0, 2), point(1, 1, 1, 2), point(2, 2, 2, 2));
    assert_eq!(n, Normal { x: 0, y: 1, z: 0 });
    // the same point written with two denominators
    let n = get_triangle_normal(point(1, 0, 0, 2), point(2, 0, 0, 4), point(0, 1, 0, 3));
    assert_eq!(n, Normal { x: 0, y: 1, z: 0 });
}

#[test]
fn normal_takes_the_largest_points() {
    let m = MAX_DENOMINATOR;
    let n = get_triangle_normal(point(0, 0, 0, m), point(m, 0, 0, m), point(0, m, 0, m));
    let cube = (m as i128) * (m as i128) * (m as i128);
    assert_eq!(n, Normal { x: 0, y: 0, z: -cube });
}

#[test]
fn triangle_is_three_vertices_with_one_normal() {
    let a = point(0, 0, 1, 2);
    let b = point(0, 1, 0, 2);
    let c = point(1, 0, 0, 2);
    let mut vertices: Vec<Vertex> = Vec::new();
    append_triangle(Position::new(4, 5, 6), &mut vertices, a, b, c, 77);
    let normal = Normal { x: 2, y: 2, z: 2 };
    let cell = Position::new(4, 5, 6);
    assert_eq!(
        vertices,
        vec![
            Vertex { cell, offset: a, normal, color: 77 },
            Vertex { cell, offset: b, normal, color: 77 },
            Vertex { cell, offset: c, normal, color: 77 },
        ]
    );
}

#[test]
fn vertex_color_is_opaque_warm_grey() {
    assert_eq!(VERTEX_COLOR.to_le_bytes(), [127, 114, 102, 255]);
}

#[test]
fn uniform_fields_give_no_vertices() {
    let solid = Chunk::new(Position::new(0, 0, 0), &|_p: Position| -> i32 { 7 });
    assert_eq!(solid.generate_vertices().len(), 0);
    let empty = Chunk::new(Position::new(0, 0, 0), &|_p: Position| -> i32 { -7 });
    assert_eq!(empty.generate_vertices().len(), 0);
    let zero = Chunk::new(Position::new(0, 0, 0), &|_p: Position| -> i32 { 0 });
    assert_eq!(zero.generate_vertices().len(), 0);
}

#[test]
fn flat_boundary_below_empty_space() {
    // solid up to y = 9, empty from y = 10: densities 2 and -1 at the boundary
    let field = |p: Position| -> i32 { (29 - 3 * p.y) as i32 };
    let chunk = Chunk::new(Position::new(0, 0, 0), &field);
    let vertices = chunk.generate_vertices();
    // two triangles in each of the 32 * 32 cells of the layer
    assert_eq!(vertices.len(), 6144);
    for v in &vertices {
        // y = 9 + 2/3, where the density is zero
        assert_eq!(v.cell.y, 9);
        assert_eq!((v.offset.y, v.offset.den), (2, 3));
        assert_eq!(29 * v.offset.den - 3 * (v.cell.y * v.offset.den + v.offset.y), 0);
        // straight up, away from the solid
        assert_eq!(v.normal, Normal { x: 0, y: 27, z: 0 });
    }
}

#[test]
fn flat_boundary_above_empty_space() {
    let field = |p: Position| -> i32 { (3 * p.y - 29) as i32 };
    let chunk = Chunk::new(Position::new(0, 0, 0), &field);
    let vertices = chunk.generate_vertices();
    assert_eq!(vertices.len(), 6144);
    for v in &vertices {
        assert_eq!(v.cell.y, 9);
        assert_eq!((v.offset.y, v.offset.den), (2, 3));
        // straight down, away from the solid
        assert_eq!(v.normal, Normal { x: 0, y: -27, z: 0 });
    }
}

#[test]
fn flat_boundaries_across_the_other_axes() {
    let cases: [(fn(Position) -> i32, Normal); 4] = [
        (|p| (29 - 3 * p.x) as i32, Normal { x: 27, y: 0, z: 0 }),
        (|p| (3 * p.x - 29) as i32, Normal { x: -27, y: 0, z: 0 }),
        (|p| (29 - 3 * p.z) as i32, Normal { x: 0, y: 0, z: 27 }),
        (|p| (3 * p.z - 29) as i32, Normal { x: 0, y: 0, z: -27 }),
    ];
    for (field, normal) in cases {
        let chunk = Chunk::new(Position::new(0, 0, 0), &field);
        let vertices = chunk.generate_vertices();
        assert_eq!(vertices.len(), 6144);
        for v in &vertices {
            assert_eq!(v.normal, normal);
            assert_eq!(v.offset.den, 3);
            if normal.x != 0 {
                assert_eq!((v.cell.x, v.offset.x), (9, 2));
            } else {
                assert_eq!((v.cell.z, v.offset.z), (9, 2));
            }
        }
    }
}

#[test]
fn flat_boundary_in_a_chunk_away_from_the_origin() {
    // the boundary at y = -22 1/3 runs through the chunks of the layer below the origin
    let field = |p: Position| -> i32 { (-67 - 3 * p.y) as i32 };
    let chunk = Chunk::new(Position::new(3, -1, -2), &field);
    let vertices = chunk.generate_vertices();
    assert_eq!(vertices.len(), 6144);
    for v in &vertices {
        assert_eq!(v.cell.y, -23);
        assert_eq!((v.offset.y, v.offset.den), (2, 3));
        assert_eq!(-67 * v.offset.den - 3 * (v.cell.y * v.offset.den + v.offset.y), 0);
        assert_eq!(v.normal, Normal { x: 0, y: 27, z: 0 });
        assert!(96 <= v.cell.x && v.cell.x < 128);
        assert!(-64 <= v.cell.z && v.cell.z < -32);
    }
    let above = Chunk::new(Position::new(3, 0, -2), &field);
    assert_eq!(above.generate_vertices().len(), 0);
}

#[test]
fn sloped_boundary_lies_on_its_plane() {
    // solid where x + y + z > 40.5
    let field = |p: Position| -> i32 { (2 * (p.x + p.y + p.z) - 81) as i32 };
    let chunk = Chunk::new(Position::new(0, 0, 0), &field);
    let vertices = chunk.generate_vertices();
    assert_eq!(vertices.len(), 12810);
    let mut sum = 0i128;
    for v in &vertices {
        let den = v.offset.den;
        let scaled = (v.cell.x + v.cell.y + v.cell.z) * den + v.offset.x + v.offset.y + v.offset.z;
        assert_eq!(2 * scaled - 81 * den, 0);
        // along (-1, -1, -1): away from the solid
        assert!(v.normal.x < 0);
        assert_eq!(v.normal.x, v.normal.y);
        assert_eq!(v.normal.x, v.normal.z);
        sum += v.normal.x;
    }
    assert_eq!(sum, -34164);
}

#[test]
fn boundary_through_lattice_points_has_flat_triangles() {
    // the density is zero at lattice points, which count as empty: the
    // crossings of several edges meet there
    let field = |p: Position| -> i32 { (p.x + p.y + p.z - 40) as i32 };
    let chunk = Chunk::new(Position::new(0, 0, 0), &field);
    let vertices = chunk.generate_vertices();
    assert_eq!(vertices.len(), 12810);
    let flat = vertices.iter().filter(|v| v.normal == Normal { x: 0, y: 1, z: 0 }).count();
    assert_eq!(flat, 8586);
    for v in &vertices {
        let den = v.offset.den;
        let scaled = (v.cell.x + v.cell.y + v.cell.z) * den + v.offset.x + v.offset.y + v.offset.z;
        assert_eq!(scaled - 40 * den, 0);
    }
}

#[test]
fn sphere_mesh_has_the_expected_vertices() {
    let chunk = Chunk::new(Position::new(0, 0, 0), &sphere);
    let vertices = chunk.generate_vertices();
    assert_eq!(vertices.len(), 10968);
    let first = vertices[0];
    assert_eq!(first.cell, Position::new(6, 11, 14));
    assert_eq!(first.offset, point(9, 7, 9, 9));
    assert_eq!(first.normal, Normal { x: -76, y: -36, z: -12 });
    let last = vertices[vertices.len() - 1];
    assert_eq!(last.cell, Position::new(25, 20, 17));
    assert_eq!(last.offset, point(2, 0, 0, 19));
    assert_eq!(last.normal, Normal { x: 76, y: 36, z: 12 });
    let cells: i64 = vertices.iter().map(|v| v.cell.x + 2 * v.cell.y + 3 * v.cell.z).sum();
    assert_eq!(cells, 1020024);
    let offsets: i64 =
        vertices.iter().map(|v| v.offset.x + v.offset.y + v.offset.z + v.offset.den).sum();
    assert_eq!(offsets, 377820);
    let normals: i128 =
        vertices.iter().map(|v| v.normal.x + 2 * v.normal.y + 4 * v.normal.z).sum();
    assert_eq!(normals, 288);
}

#[test]
fn sphere_normals_point_away_from_the_solid() {
    let chunk = Chunk::new(Position::new(0, 0, 0), &sphere);
    for v in chunk.generate_vertices() {
        if v.normal == (Normal { x: 0, y: 1, z: 0 }) {
            continue;
        }
        // from the centre of the sphere to the vertex, times the denominator
        let den = v.offset.den as i128;
        let rx = (v.cell.x as i128 - 16) * den + v.offset.x as i128;
        let ry = (v.cell.y as i128 - 16) * den + v.offset.y as i128;
        let rz = (v.cell.z as i128 - 16) * den + v.offset.z as i128;
        assert!(rx * v.normal.x + ry * v.normal.y + rz * v.normal.z > 0);
    }
}

#[test]
fn vertices_are_moved_to_the_chunk_place() {
    // a sphere round the world's origin, seen from four of the chunks that meet there
    let field = |p: Position| -> i32 { (100 - p.x * p.x - p.y * p.y - p.z * p.z) as i32 };
    let expected = [
        (Position::new(0, 0, 0), 37602i64, 46530i64),
        (Position::new(-1, 0, 0), 23697, 46995),
        (Position::new(-1, -1, -1), -45828, 47925),
        (Position::new(0, -1, 0), 9792, 46995),
    ];
    for (pos, cells, offsets) in expected {
        let chunk = Chunk::new(pos, &field);
        let vertices = chunk.generate_vertices();
        assert_eq!(vertices.len(), 1371);
        let c: i64 = vertices.iter().map(|v| v.cell.x + 2 * v.cell.y + 3 * v.cell.z).sum();
        assert_eq!(c, cells);
        let o: i64 =
            vertices.iter().map(|v| v.offset.x + v.offset.y + v.offset.z + v.offset.den).sum();
        assert_eq!(o, offsets);
        for v in &vertices {
            assert!(pos.x * 32 <= v.cell.x && v.cell.x < pos.x * 32 + 32);
            assert!(pos.y * 32 <= v.cell.y && v.cell.y < pos.y * 32 + 32);
            assert!(pos.z * 32 <= v.cell.z && v.cell.z < pos.z * 32 + 32);
        }
    }
}

#[test]
fn meshing_twice_gives_the_same_vertices() {
    let chunk = Chunk::new(Position::new(0, 0, 0), &sphere);
    assert_eq!(chunk.generate_vertices(), chunk.generate_vertices());
}

#[test]
fn mesh_is_a_list_of_triangles_on_lattice_edges() {
    let chunk = Chunk::new(Position::new(0, 0, 0), &sphere);
    let vertices = chunk.generate_vertices();
    assert_eq!(vertices.len() % 3, 0);
    assert!(vertices.len() <= 491520);
    for triangle in vertices.chunks(3) {
        assert_eq!(triangle[0].cell, triangle[1].cell);
        assert_eq!(triangle[0].cell, triangle[2].cell);
        assert_eq!(triangle[0].normal, triangle[1].normal);
        assert_eq!(triangle[0].normal, triangle[2].normal);
        assert_eq!(
            triangle[0].normal,
            get_triangle_normal(triangle[0].offset, triangle[1].offset, triangle[2].offset)
        );
    }
    for v in &vertices {
        let p = v.offset;
        assert!(0 < p.den && p.den <= MAX_DENOMINATOR);
        let whole = [p.x, p.y, p.z].iter().filter(|&&c| c == 0 || c == p.den).count();
        assert!(whole >= 2);
        for c in [p.x, p.y, p.z] {
            assert!(0 <= c && c <= p.den);
        }
        assert_eq!(v.color, VERTEX_COLOR);
    }
}

#[test]
fn busy_field_has_four_triangles_in_every_cell() {
    // a field that changes sign from sample to sample along many edges
    let field = |p: Position| -> i32 {
        let x = p.x.rem_euclid(2);
        let y = p.y.rem_euclid(2);
        let z = p.z.rem_euclid(2);
        if (x + y + z) % 2 == 0 && !(x == 0 && y == 0 && z == 0) {
            1
        } else if x == 1 && y == 1 && z == 1 {
            1
        } else {
            -1
        }
    };
    let chunk = Chunk::new(Position::new(0, 0, 0), &field);
    let vertices = chunk.generate_vertices();
    assert_eq!(vertices.len() % 3, 0);
    assert!(vertices.len() <= 491520);
    assert_eq!(vertices.len(), 32 * 32 * 32 * 12);
}
