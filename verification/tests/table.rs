use marching_cubes::append_vertices::get_triangles_by_voxels;
use marching_cubes::edge_midpoints::{EdgeMidpointsIndices, CUBE_EDGES_COUNT};
use marching_cubes::triangulation_table::{triangles_of_configuration, TRIANGLES_ROW_LEN};
use marching_cubes::voxel::Voxel;

// The two corners that each edge joins, as corner numbers.
const EDGE_ENDS: [(u8, u8); 12] = [
    (0, 1),
    (1, 2),
    (2, 3),
    (3, 0),
    (4, 5),
    (5, 6),
    (6, 7),
    (7, 4),
    (0, 4),
    (1, 5),
    (2, 6),
    (3, 7),
];

fn run_of(config: u8) -> Vec<i8> {
    let row = triangles_of_configuration(config);
    row.iter().copied().take_while(|&e| e != -1).collect()
}

#[test]
fn every_row_is_a_terminated_run_of_triples() {
    for config in 0..=255u8 {
        let row = triangles_of_configuration(config);
        assert_eq!(row.len(), TRIANGLES_ROW_LEN);
        let run = run_of(config);
        assert_eq!(run.len() % 3, 0, "configuration {}", config);
        assert!(run.len() <= 15, "configuration {}", config);
        for &edge in &run {
            assert!((0..12).contains(&edge), "configuration {}", config);
        }
        for &slot in &row[run.len()..] {
            assert_eq!(slot, -1, "configuration {}", config);
        }
    }
}

#[test]
fn uniform_configurations_have_no_triangles() {
    assert_eq!(triangles_of_configuration(0), [-1i8; 16]);
    assert_eq!(triangles_of_configuration(255), [-1i8; 16]);
}

#[test]
fn rows_name_exactly_the_crossed_edges() {
    for config in 0..=255u8 {
        let run = run_of(config);
        for (edge, &(a, b)) in EDGE_ENDS.iter().enumerate() {
            let crossed = ((config >> a) & 1) != ((config >> b) & 1);
            let named = run.contains(&(edge as i8));
            assert_eq!(crossed, named, "configuration {} edge {}", config, edge);
        }
    }
}

#[test]
fn triangle_counts_over_the_whole_table() {
    let mut by_count = [0usize; 6];
    let mut total = 0;
    for config in 0..=255u8 {
        let triangles = run_of(config).len() / 3;
        by_count[triangles] += 1;
        total += triangles;
    }
    assert_eq!(by_count, [2, 16, 50, 80, 76, 32]);
    assert_eq!(total, 820);
}

#[test]
fn single_corner_rows() {
    assert_eq!(run_of(1), vec![0, 8, 3]);
    assert_eq!(run_of(2), vec![0, 1, 9]);
    assert_eq!(run_of(4), vec![1, 2, 10]);
    assert_eq!(run_of(8), vec![3, 11, 2]);
    assert_eq!(run_of(16), vec![4, 7, 8]);
    assert_eq!(run_of(32), vec![9, 5, 4]);
    assert_eq!(run_of(64), vec![10, 6, 5]);
    assert_eq!(run_of(128), vec![7, 6, 11]);
}

#[test]
fn rows_of_flat_boundaries() {
    assert_eq!(run_of(0x0F), vec![9, 8, 10, 10, 8, 11]);
    assert_eq!(run_of(0xF0), vec![9, 10, 8, 10, 11, 8]);
    assert_eq!(run_of(0x33), vec![1, 5, 3, 3, 5, 7]);
    assert_eq!(run_of(0xCC), vec![1, 3, 5, 3, 7, 5]);
    assert_eq!(run_of(0x66), vec![0, 2, 4, 4, 2, 6]);
    assert_eq!(run_of(0x99), vec![0, 4, 2, 4, 6, 2]);
}

#[test]
fn rows_with_five_triangles() {
    assert_eq!(run_of(61), vec![5, 7, 0, 5, 0, 9, 7, 11, 0, 1, 0, 10, 11, 10, 0]);
    assert_eq!(run_of(91), vec![9, 2, 1, 9, 11, 2, 9, 4, 11, 7, 11, 4, 5, 10, 6]);
}

#[test]
fn complement_has_the_same_edges() {
    for config in 0..=255u8 {
        let mut edges = run_of(config);
        let mut other = run_of(255 - config);
        edges.sort();
        edges.dedup();
        other.sort();
        other.dedup();
        assert_eq!(edges, other, "configuration {}", config);
    }
}

fn block(solid: [[[bool; 2]; 2]; 2]) -> [[[Voxel; 2]; 2]; 2] {
    let mut voxels = [[[Voxel { value: -1 }; 2]; 2]; 2];
    for x in 0..2 {
        for y in 0..2 {
            for z in 0..2 {
                if solid[x][y][z] {
                    voxels[x][y][z] = Voxel { value: 1 };
                }
            }
        }
    }
    voxels
}

#[test]
fn configuration_bits_follow_the_corner_numbers() {
    // corner number -> offset (x, y, z)
    let corners = [
        (0, 0, 1),
        (1, 0, 1),
        (1, 0, 0),
        (0, 0, 0),
        (0, 1, 1),
        (1, 1, 1),
        (1, 1, 0),
        (0, 1, 0),
    ];
    for (number, &(x, y, z)) in corners.iter().enumerate() {
        let mut solid = [[[false; 2]; 2]; 2];
        solid[x][y][z] = true;
        assert_eq!(
            get_triangles_by_voxels(block(solid)),
            triangles_of_configuration(1 << number),
            "corner {}",
            number
        );
    }
}

#[test]
fn zero_density_counts_as_empty() {
    let mut voxels = [[[Voxel { value: 0 }; 2]; 2]; 2];
    assert_eq!(get_triangles_by_voxels(voxels), [-1i8; 16]);
    voxels[0][0][0] = Voxel { value: 1 };
    assert_eq!(get_triangles_by_voxels(voxels), triangles_of_configuration(8));
}

#[test]
fn default_voxel_is_empty() {
    let voxel = Voxel::default();
    assert_eq!(voxel.value, 0);
    assert!(!voxel.is_solid());
    assert!(Voxel { value: 1 }.is_solid());
    assert!(!Voxel { value: -1 }.is_solid());
}

#[test]
fn edges_are_numbered_as_the_table_expects() {
    assert_eq!(CUBE_EDGES_COUNT, 12);
    let edges = [
        EdgeMidpointsIndices::BottomNorth,
        EdgeMidpointsIndices::BottomEast,
        EdgeMidpointsIndices::BottomSouth,
        EdgeMidpointsIndices::BottomWest,
        EdgeMidpointsIndices::TopNorth,
        EdgeMidpointsIndices::TopEast,
        EdgeMidpointsIndices::TopSouth,
        EdgeMidpointsIndices::TopWest,
        EdgeMidpointsIndices::NorthWest,
        EdgeMidpointsIndices::NorthEast,
        EdgeMidpointsIndices::SouthEast,
        EdgeMidpointsIndices::SouthWest,
    ];
    for (number, edge) in edges.iter().enumerate() {
        assert_eq!(edge.index(), number);
    }
}
