use marching_cubes::chunk::{Chunk, CHUNK_REAL_SIZE, CHUNK_VOLUME, CHUNK_VOXELS_SIZE};
use marching_cubes::chunks_holder::ChunksHolder;
use marching_cubes::pos::Position;
use marching_cubes::redraw_chunk::{mesh_indices, redraw_chunk, redraw_chunks};
use marching_cubes::voxel::Voxel;

fn terrain(p: Position) -> i32 {
    // a gentle slope: solid below a height that rises with x
    (4 * (8 - p.y) + p.x - 2) as i32
}

#[test]
fn chunk_dimensions() {
    assert_eq!(CHUNK_REAL_SIZE, 32);
    assert_eq!(CHUNK_VOXELS_SIZE, 33);
    assert_eq!(CHUNK_VOLUME, 35937);
}

#[test]
fn samples_are_stored_with_x_fastest() {
    assert_eq!(Chunk::get_pos_by_index(0), Position::new(0, 0, 0));
    assert_eq!(Chunk::get_pos_by_index(1), Position::new(1, 0, 0));
    assert_eq!(Chunk::get_pos_by_index(32), Position::new(32, 0, 0));
    assert_eq!(Chunk::get_pos_by_index(33), Position::new(0, 1, 0));
    assert_eq!(Chunk::get_pos_by_index(34), Position::new(1, 1, 0));
    assert_eq!(Chunk::get_pos_by_index(1089), Position::new(0, 0, 1));
    assert_eq!(Chunk::get_pos_by_index(35936), Position::new(32, 32, 32));
    assert_eq!(Chunk::get_index_by_pos(Position::new(1, 2, 3)), 3334);
    assert_eq!(Chunk::get_index_by_pos(Position::new(32, 32, 32)), 35936);
}

#[test]
fn index_and_position_are_inverse() {
    for index in 0..CHUNK_VOLUME {
        assert_eq!(Chunk::get_index_by_pos(Chunk::get_pos_by_index(index)), index);
    }
}

#[test]
fn new_chunk_samples_the_density_at_world_positions() {
    let field = |p: Position| -> i32 { (p.x + 1000 * p.y + 1000000 * p.z) as i32 };
    let chunk = Chunk::new(Position::new(2, -1, 0), &field);
    assert_eq!(chunk.get_pos(), Position::new(2, -1, 0));
    assert!(chunk.is_need_update());
    // world position = chunk position * 32 + grid position
    assert_eq!(chunk.get_voxel(Position::new(0, 0, 0)), Voxel { value: 64 - 32000 });
    assert_eq!(chunk.get_voxel(Position::new(1, 2, 3)), Voxel { value: 65 - 30000 + 3000000 });
    assert_eq!(
        chunk.get_voxel(Position::new(32, 32, 32)),
        Voxel { value: 96 + 0 + 32000000 }
    );
    for x in 0..=32i64 {
        for y in 0..=32i64 {
            for z in 0..=32i64 {
                let world = Position::new(64 + x, -32 + y, z);
                assert_eq!(chunk.get_voxel(Position::new(x, y, z)).value, field(world));
            }
        }
    }
}

#[test]
fn sampling_twice_gives_the_same_field() {
    let first = Chunk::new(Position::new(1, 0, -3), &terrain);
    let second = Chunk::new(Position::new(1, 0, -3), &terrain);
    for index in 0..CHUNK_VOLUME {
        let pos = Chunk::get_pos_by_index(index);
        assert_eq!(first.get_voxel(pos), second.get_voxel(pos));
    }
    assert_eq!(first.generate_vertices(), second.generate_vertices());
}

#[test]
fn neighbours_agree_on_their_shared_face() {
    let left = Chunk::new(Position::new(0, 0, 0), &terrain);
    let right = Chunk::new(Position::new(1, 0, 0), &terrain);
    for y in 0..=32i64 {
        for z in 0..=32i64 {
            assert_eq!(
                left.get_voxel(Position::new(32, y, z)),
                right.get_voxel(Position::new(0, y, z))
            );
        }
    }
}

#[test]
fn set_updated_clears_the_flag_only() {
    let mut chunk = Chunk::new(Position::new(0, 0, 0), &terrain);
    let before = chunk.generate_vertices();
    assert!(chunk.is_need_update());
    chunk.set_updated();
    assert!(!chunk.is_need_update());
    assert_eq!(chunk.get_pos(), Position::new(0, 0, 0));
    assert_eq!(chunk.generate_vertices(), before);
    chunk.set_updated();
    assert!(!chunk.is_need_update());
}

#[test]
fn redraw_meshes_a_chunk_once() {
    let mut chunk = Chunk::new(Position::new(0, 0, 0), &terrain);
    let expected = chunk.generate_vertices();
    assert!(!expected.is_empty());
    let first = redraw_chunk(&mut chunk);
    assert_eq!(first, Some(expected.clone()));
    assert!(!chunk.is_need_update());
    let second = redraw_chunk(&mut chunk);
    assert_eq!(second, None);
    assert!(!chunk.is_need_update());
    assert_eq!(chunk.generate_vertices(), expected);
}

#[test]
fn holder_places_chunks_round_the_origin() {
    let holder = ChunksHolder::new(2, &terrain);
    assert_eq!(holder.chunks.len(), 8);
    let expected = [
        Position::new(-1, -1, -1),
        Position::new(0, -1, -1),
        Position::new(-1, 0, -1),
        Position::new(0, 0, -1),
        Position::new(-1, -1, 0),
        Position::new(0, -1, 0),
        Position::new(-1, 0, 0),
        Position::new(0, 0, 0),
    ];
    for (chunk, pos) in holder.chunks.iter().zip(expected.iter()) {
        assert_eq!(chunk.get_pos(), *pos);
        assert!(chunk.is_need_update());
    }
}

#[test]
fn holder_of_odd_size() {
    let holder = ChunksHolder::new(3, &|_p: Position| -> i32 { -1 });
    assert_eq!(holder.chunks.len(), 27);
    assert_eq!(holder.chunks[0].get_pos(), Position::new(-1, -1, -1));
    assert_eq!(holder.chunks[13].get_pos(), Position::new(0, 0, 0));
    assert_eq!(holder.chunks[26].get_pos(), Position::new(1, 1, 1));
    assert_eq!(ChunksHolder::get_pos_by_index(3, 5), Position::new(2, 1, 0));
    assert_eq!(ChunksHolder::get_pos_by_index(3, 26), Position::new(2, 2, 2));
}

#[test]
fn holder_of_size_zero_and_one() {
    let none = ChunksHolder::new(0, &terrain);
    assert_eq!(none.chunks.len(), 0);
    let one = ChunksHolder::new(1, &terrain);
    assert_eq!(one.chunks.len(), 1);
    assert_eq!(one.chunks[0].get_pos(), Position::new(0, 0, 0));
}

#[test]
fn holder_chunks_sample_the_density() {
    let holder = ChunksHolder::new(2, &terrain);
    for chunk in &holder.chunks {
        let origin = chunk.get_pos() * 32;
        for grid in [Position::new(0, 0, 0), Position::new(5, 9, 31), Position::new(32, 32, 32)] {
            assert_eq!(chunk.get_voxel(grid).value, terrain(origin + grid));
        }
    }
}

#[test]
fn refresh_pass_meshes_dirty_chunks_once() {
    let mut holder = ChunksHolder::new(2, &terrain);
    let expected: Vec<_> = holder.chunks.iter().map(|c| c.generate_vertices()).collect();
    let meshes = redraw_chunks(&mut holder);
    assert_eq!(meshes.len(), 8);
    for (index, mesh) in meshes.iter().enumerate() {
        assert_eq!(mesh.chunk, index);
        assert_eq!(mesh.vertices, expected[index]);
    }
    for chunk in &holder.chunks {
        assert!(!chunk.is_need_update());
    }
    // a second pass right after finds nothing to do and changes nothing
    let again = redraw_chunks(&mut holder);
    assert!(again.is_empty());
    for (chunk, vertices) in holder.chunks.iter().zip(expected.iter()) {
        assert!(!chunk.is_need_update());
        assert_eq!(chunk.generate_vertices(), *vertices);
    }
}

#[test]
fn refresh_pass_skips_clean_chunks() {
    let mut holder = ChunksHolder::new(2, &terrain);
    holder.chunks[0].set_updated();
    holder.chunks[3].set_updated();
    holder.chunks[7].set_updated();
    let expected: Vec<_> = holder.chunks.iter().map(|c| c.generate_vertices()).collect();
    let meshes = redraw_chunks(&mut holder);
    let places: Vec<usize> = meshes.iter().map(|m| m.chunk).collect();
    assert_eq!(places, vec![1, 2, 4, 5, 6]);
    for mesh in &meshes {
        assert_eq!(mesh.vertices, expected[mesh.chunk]);
    }
    for chunk in &holder.chunks {
        assert!(!chunk.is_need_update());
    }
}

#[test]
fn indices_count_the_vertices() {
    assert_eq!(mesh_indices(0), Vec::<u32>::new());
    assert_eq!(mesh_indices(6), vec![0, 1, 2, 3, 4, 5]);
    let many = mesh_indices(491520);
    assert_eq!(many.len(), 491520);
    assert_eq!(many[491519], 491519);
}

#[test]
fn chunks_can_be_changed_in_place() {
    let mut holder = ChunksHolder::new(2, &terrain);
    let mut seen = 0;
    for chunk in holder.iter_chunks_mut().iter_mut() {
        if seen % 2 == 0 {
            chunk.set_updated();
        }
        seen += 1;
    }
    assert_eq!(seen, 8);
    let flags: Vec<bool> = holder.chunks.iter().map(|chunk| chunk.is_need_update()).collect();
    assert_eq!(flags, vec![false, true, false, true, false, true, false, true]);
}

#[test]
fn chunks_at_the_ends_of_the_world() {
    // the last chunk positions whose samples have world coordinates in range
    let high = i64::MAX / 32 - 1;
    let low = i64::MIN / 32;
    assert_eq!(high, 288230376151711742);
    assert_eq!(low, -288230376151711744);
    let field = |p: Position| -> i32 {
        if p.y % 2 == 0 {
            1
        } else {
            -1
        }
    };
    for pos in [Position::new(high, high, high), Position::new(low, low, low)] {
        let chunk = Chunk::new(pos, &field);
        assert_eq!(chunk.get_pos(), pos);
        let vertices = chunk.generate_vertices();
        // a boundary between every two layers: 32 layers of 32 * 32 cells, two triangles each
        assert_eq!(vertices.len(), 32 * 1024 * 6);
        for v in vertices.iter().take(100) {
            assert!(pos.y * 32 <= v.cell.y && v.cell.y <= pos.y * 32 + 31);
            assert_eq!((v.offset.y, v.offset.den), (1, 2));
        }
        let last = vertices[vertices.len() - 1];
        assert_eq!(last.cell, Position::new(pos.x * 32 + 31, pos.y * 32 + 31, pos.z * 32 + 31));
    }
}
