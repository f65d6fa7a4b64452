use marching_cubes::components::ChunkComponent;
use marching_cubes::pos::Position;

#[test]
fn position_new_sets_components() {
    let p = Position::new(1, -2, 3);
    assert_eq!(p.x, 1);
    assert_eq!(p.y, -2);
    assert_eq!(p.z, 3);
}

#[test]
fn position_addition_is_component_wise() {
    let sum = Position::new(1, 2, 3) + Position::new(10, -20, 30);
    assert_eq!(sum, Position::new(11, -18, 33));
}

#[test]
fn position_subtraction_is_component_wise() {
    let difference = Position::new(1, 2, 3) - Position::new(10, -20, 30);
    assert_eq!(difference, Position::new(-9, 22, -27));
}

#[test]
fn position_scaling_is_component_wise() {
    let product = Position::new(1, -2, 3) * 32;
    assert_eq!(product, Position::new(32, -64, 96));
}

#[test]
fn position_equality_is_component_wise() {
    assert_eq!(Position::new(4, 5, 6), Position::new(4, 5, 6));
    assert_ne!(Position::new(4, 5, 6), Position::new(4, 5, 7));
    assert_ne!(Position::new(4, 5, 6), Position::new(4, 6, 6));
    assert_ne!(Position::new(4, 5, 6), Position::new(5, 5, 6));
}

#[test]
fn position_order_is_lexicographic() {
    assert!(Position::new(0, 9, 9) < Position::new(1, 0, 0));
    assert!(Position::new(1, 0, 9) < Position::new(1, 1, 0));
    assert!(Position::new(1, 1, 0) < Position::new(1, 1, 1));
    assert!(Position::new(1, 1, 1) <= Position::new(1, 1, 1));
    assert!(Position::new(2, 0, 0) > Position::new(1, 9, 9));
    assert!(!(Position::new(1, 1, 1) < Position::new(1, 1, 1)));
}

#[test]
fn position_order_agrees_with_total_order() {
    let mut positions = vec![
        Position::new(1, 0, 0),
        Position::new(0, 0, 1),
        Position::new(0, 1, 0),
        Position::new(-1, 5, 5),
        Position::new(0, 0, 0),
    ];
    positions.sort();
    let expected = vec![
        Position::new(-1, 5, 5),
        Position::new(0, 0, 0),
        Position::new(0, 0, 1),
        Position::new(0, 1, 0),
        Position::new(1, 0, 0),
    ];
    assert_eq!(positions, expected);
    for pair in positions.windows(2) {
        assert!(pair[0] < pair[1]);
    }
}

#[test]
fn chunk_component_keeps_its_position() {
    let component = ChunkComponent::new(Position::new(3, -1, 2));
    assert_eq!(component.pos, Position::new(3, -1, 2));
}
