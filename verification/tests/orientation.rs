use marching_cubes::append_vertices::{
    get_triangle_normal, get_triangles_by_voxels, get_vertex_midpoints,
};
use marching_cubes::mesh::Normal;
use marching_cubes::voxel::Voxel;

// corner number -> offset (x, y, z)
const CORNERS: [[usize; 3]; 8] = [
    [0, 0, 1],
    [1, 0, 1],
    [1, 0, 0],
    [0, 0, 0],
    [0, 1, 1],
    [1, 1, 1],
    [1, 1, 0],
    [0, 1, 0],
];

// edge number -> the numbers of the two corners that it joins
const ENDS: [(usize, usize); 12] = [
    (0, 1),
    (1, 2),
    (2, 3),
    (3, 0),
    (4, 5),
    (5, 6),
    (6, 7),
    (7, 4),
    (0, 4),
    (1, 5),
    (2, 6),
    (3, 7),
];

fn block_of(
    config: u8,
    solid: &dyn Fn(usize) -> i32,
    empty: &dyn Fn(usize) -> i32,
) -> [[[Voxel; 2]; 2]; 2] {
    let mut voxels = [[[Voxel { value: 0 }; 2]; 2]; 2];
    for (number, c) in CORNERS.iter().enumerate() {
        let value = if (config >> number) & 1 == 1 {
            solid(number)
        } else {
            empty(number)
        };
        voxels[c[0]][c[1]][c[2]] = Voxel { value };
    }
    voxels
}

// The step along an edge from its solid end to its empty end.
fn solid_to_empty(config: u8, edge: usize) -> [i128; 3] {
    let (a, b) = ENDS[edge];
    let (from, to) = if (config >> a) & 1 == 1 {
        (CORNERS[a], CORNERS[b])
    } else {
        (CORNERS[b], CORNERS[a])
    };
    [
        to[0] as i128 - from[0] as i128,
        to[1] as i128 - from[1] as i128,
        to[2] as i128 - from[2] as i128,
    ]
}

// For every triangle of the block: the normal and its component along the sum
// of the solid-to-empty steps of the triangle's three edges.
fn outward_components(config: u8, voxels: [[[Voxel; 2]; 2]; 2]) -> Vec<(Normal, i128)> {
    let row = get_triangles_by_voxels(voxels);
    let midpoints = get_vertex_midpoints(voxels);
    let mut result = Vec::new();
    let mut slot = 0;
    while row[slot] != -1 {
        let edges = [row[slot] as usize, row[slot + 1] as usize, row[slot + 2] as usize];
        let normal =
            get_triangle_normal(midpoints[edges[0]], midpoints[edges[1]], midpoints[edges[2]]);
        let mut sum = [0i128; 3];
        for edge in edges {
            let step = solid_to_empty(config, edge);
            for axis in 0..3 {
                sum[axis] += step[axis];
            }
        }
        result.push((normal, normal.x * sum[0] + normal.y * sum[1] + normal.z * sum[2]));
        slot += 3;
    }
    result
}

#[test]
fn every_triangle_faces_the_empty_side_with_crossings_in_the_middle() {
    let mut triangles = 0;
    for config in 0..=255u8 {
        let voxels = block_of(config, &|_| 1, &|_| -1);
        for (normal, outward) in outward_components(config, voxels) {
            assert!(outward > 0, "configuration {} normal {:?}", config, normal);
            triangles += 1;
        }
    }
    assert_eq!(triangles, 820);
}

#[test]
fn every_triangle_faces_the_empty_side_with_uneven_densities() {
    // a fixed sequence of densities, different at every corner and in every round
    let mut state: u64 = 0x2545F4914F6CDD1D;
    let mut next = move || {
        state ^= state << 13;
        state ^= state >> 7;
        state ^= state << 17;
        (state % 1000) as i32 + 1
    };
    for _round in 0..50 {
        let values: Vec<i32> = (0..8).map(|_| next()).collect();
        for config in 0..=255u8 {
            let voxels = block_of(config, &|n| values[n], &|n| -values[(n + 3) % 8]);
            for (normal, outward) in outward_components(config, voxels) {
                assert!(outward > 0, "configuration {} normal {:?}", config, normal);
            }
        }
    }
}

#[test]
fn single_corner_normals_point_away_from_the_corner() {
    for (number, c) in CORNERS.iter().enumerate() {
        let config = 1u8 << number;
        let voxels = block_of(config, &|_| 3, &|_| -1);
        let found = outward_components(config, voxels);
        assert_eq!(found.len(), 1);
        let normal = found[0].0;
        // away from the corner along every axis
        for (axis, component) in [normal.x, normal.y, normal.z].iter().enumerate() {
            if c[axis] == 0 {
                assert!(*component > 0, "corner {}", number);
            } else {
                assert!(*component < 0, "corner {}", number);
            }
        }
        // and towards the corner where it is the only empty one
        let inverse = block_of(255 - config, &|_| 3, &|_| -1);
        let found = outward_components(255 - config, inverse);
        assert_eq!(found.len(), 1);
        let normal = found[0].0;
        for (axis, component) in [normal.x, normal.y, normal.z].iter().enumerate() {
            if c[axis] == 0 {
                assert!(*component < 0, "corner {}", number);
            } else {
                assert!(*component > 0, "corner {}", number);
            }
        }
    }
}

#[test]
fn crossings_at_corners_never_turn_a_triangle_round() {
    // every empty sample is zero: each crossing lies at the empty end of its edge
    let up = Normal { x: 0, y: 1, z: 0 };
    let mut flat = 0;
    let mut facing = 0;
    for config in 0..=255u8 {
        let voxels = block_of(config, &|n| 5 + n as i32, &|_| 0);
        for (normal, outward) in outward_components(config, voxels) {
            if normal == up {
                flat += 1;
            } else {
                assert!(outward >= 0, "configuration {} normal {:?}", config, normal);
                facing += 1;
            }
        }
    }
    assert_eq!(flat, 352);
    assert_eq!(facing, 468);
}
