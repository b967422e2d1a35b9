use wavesim::error::SimulationError;
use wavesim::field::{before, least, Field, Region};
use wavesim::grid_buffer::GridBuffer;
use wavesim::registry::Registry;

#[test]
fn filled_field_holds_the_value_everywhere() {
    let field: Field<f64> = Field::filled(4, 3, 1.5);
    assert_eq!(field.nx(), 4);
    assert_eq!(field.ny(), 3);
    for x in 0..4 {
        for y in 0..3 {
            assert_eq!(field.get(x, y), Some(1.5));
        }
    }
    assert_eq!(field.get(4, 0), None);
    assert_eq!(field.get(0, 3), None);
}

#[test]
fn an_empty_field_has_no_cell() {
    let field: Field<i32> = Field::filled(0, 5, 9);
    assert_eq!((field.nx(), field.ny()), (0, 5));
    assert_eq!(field.get(0, 0), None);
}

#[test]
fn set_changes_one_cell_only() {
    let mut field: Field<i32> = Field::filled(3, 4, 0);
    field.set(2, 1, 8);
    for x in 0..3 {
        for y in 0..4 {
            let expected = if (x, y) == (2, 1) { 8 } else { 0 };
            assert_eq!(field.at(x, y), expected);
        }
    }
}

#[test]
fn fill_rect_covers_the_half_open_rectangle() {
    let mut field: Field<i32> = Field::filled(6, 5, 0);
    field.fill_rect(Region { x0: 1, y0: 2, x1: 4, y1: 4 }, 7);
    for x in 0..6 {
        for y in 0..5 {
            let expected = if (1..4).contains(&x) && (2..4).contains(&y) { 7 } else { 0 };
            assert_eq!(field.at(x, y), expected, "cell ({x}, {y})");
        }
    }
}

#[test]
fn fill_rect_is_clipped_to_the_grid() {
    let mut field: Field<i32> = Field::filled(4, 3, 0);
    field.fill_rect(Region { x0: 2, y0: 1, x1: 9, y1: 9 }, 7);
    for x in 0..4 {
        for y in 0..3 {
            let expected = if x >= 2 && y >= 1 { 7 } else { 0 };
            assert_eq!(field.at(x, y), expected);
        }
    }
}

#[test]
fn fill_rect_with_an_empty_or_outlying_rectangle_changes_nothing() {
    let mut field: Field<i32> = Field::filled(4, 3, 1);
    field.fill_rect(Region { x0: 3, y0: 0, x1: 1, y1: 3 }, 7);
    field.fill_rect(Region { x0: 0, y0: 2, x1: 4, y1: 2 }, 7);
    field.fill_rect(Region { x0: 4, y0: 3, x1: 10, y1: 10 }, 7);
    field.fill_rect(Region { x0: usize::MAX, y0: 0, x1: usize::MAX, y1: 3 }, 7);
    for x in 0..4 {
        for y in 0..3 {
            assert_eq!(field.at(x, y), 1);
        }
    }
}

#[test]
fn duplicate_is_equal_and_independent() {
    let mut field: Field<i32> = Field::filled(3, 3, 0);
    field.set(1, 2, 5);
    let mut copy = field.duplicate();
    assert_eq!((copy.nx(), copy.ny()), (3, 3));
    for x in 0..3 {
        for y in 0..3 {
            assert_eq!(copy.at(x, y), field.at(x, y));
        }
    }
    copy.set(0, 0, 9);
    assert_eq!(field.at(0, 0), 0);
    assert_eq!(copy.at(0, 0), 9);
}

#[test]
fn region_contains_its_low_corner_but_not_its_high_corner() {
    let region = Region { x0: 2, y0: 3, x1: 5, y1: 4 };
    assert!(region.contains(2, 3));
    assert!(region.contains(4, 3));
    assert!(!region.contains(5, 3));
    assert!(!region.contains(4, 4));
    assert!(!region.contains(1, 3));
    assert!(!region.contains(2, 2));
}

#[test]
fn least_and_before() {
    assert_eq!(least(3, 7), 3);
    assert_eq!(least(7, 3), 3);
    assert_eq!(least(4, 4), 4);
    assert_eq!(before(0), 0);
    assert_eq!(before(1), 0);
    assert_eq!(before(80), 79);
}

#[test]
fn grid_buffer_refuses_grids_without_an_interior_cell() {
    for (nx, ny) in [(0, 0), (2, 80), (80, 2), (2, 2), (1, 3)] {
        let made: Result<GridBuffer<i32>, SimulationError> = GridBuffer::new(nx, ny, 0);
        assert!(matches!(made, Err(SimulationError::InvalidDimensions)), "{nx} x {ny}");
    }
    let made: Result<GridBuffer<i32>, SimulationError> = GridBuffer::new(3, 3, 0);
    assert!(made.is_ok());
}

#[test]
fn grid_buffer_starts_with_two_equal_slices() {
    let buffer: GridBuffer<i32> = GridBuffer::new(4, 5, 6).unwrap();
    assert_eq!((buffer.nx(), buffer.ny()), (4, 5));
    for x in 0..4 {
        for y in 0..5 {
            assert_eq!(buffer.current().at(x, y), 6);
            assert_eq!(buffer.previous().at(x, y), 6);
        }
    }
}

#[test]
fn commit_rotates_the_slices() {
    let mut buffer: GridBuffer<i32> = GridBuffer::new(3, 3, 0).unwrap();
    assert_eq!(buffer.commit(Field::filled(3, 3, 1)), Ok(()));
    assert_eq!(buffer.previous().at(1, 1), 0);
    assert_eq!(buffer.current().at(1, 1), 1);
    assert_eq!(buffer.commit(Field::filled(3, 3, 2)), Ok(()));
    assert_eq!(buffer.previous().at(1, 1), 1);
    assert_eq!(buffer.current().at(1, 1), 2);
    assert_eq!(buffer.commit(Field::filled(3, 3, 3)), Ok(()));
    assert_eq!(buffer.previous().at(1, 1), 2);
    assert_eq!(buffer.current().at(1, 1), 3);
}

#[test]
fn commit_refuses_a_slice_of_other_dimensions() {
    let mut buffer: GridBuffer<i32> = GridBuffer::new(3, 4, 0).unwrap();
    buffer.store(1, 1, 5);
    assert_eq!(buffer.commit(Field::filled(4, 3, 1)), Err(SimulationError::InvalidDimensions));
    assert_eq!(buffer.commit(Field::filled(3, 5, 1)), Err(SimulationError::InvalidDimensions));
    assert_eq!(buffer.current().at(1, 1), 5);
    assert_eq!(buffer.previous().at(1, 1), 0);
    assert_eq!((buffer.nx(), buffer.ny()), (3, 4));
}

#[test]
fn store_writes_the_latest_slice_only() {
    let mut buffer: GridBuffer<i32> = GridBuffer::new(3, 3, 0).unwrap();
    buffer.store(2, 0, 4);
    assert_eq!(buffer.current().at(2, 0), 4);
    assert_eq!(buffer.previous().at(2, 0), 0);
}

#[test]
fn reset_makes_both_slices_equal_to_the_given_one() {
    let mut buffer: GridBuffer<i32> = GridBuffer::new(3, 3, 0).unwrap();
    let mut slice = Field::filled(3, 3, 1);
    slice.set(0, 2, 9);
    assert_eq!(buffer.reset(slice), Ok(()));
    assert_eq!(buffer.current().at(0, 2), 9);
    assert_eq!(buffer.previous().at(0, 2), 9);
    assert_eq!(buffer.current().at(1, 1), 1);
    assert_eq!(buffer.reset(Field::filled(3, 4, 1)), Err(SimulationError::InvalidDimensions));
    assert_eq!(buffer.current().at(0, 2), 9);
}

#[test]
fn registry_hands_out_positions_and_never_reuses_them() {
    let mut registry: Registry<i32> = Registry::new();
    assert_eq!(registry.len(), 0);
    assert_eq!(registry.add(10), 0);
    assert_eq!(registry.add(11), 1);
    registry.remove(0);
    assert_eq!(registry.get(0), None);
    assert_eq!(registry.get(1), Some(11));
    assert_eq!(registry.add(12), 2);
    assert_eq!(registry.len(), 3);
    assert_eq!(registry.get(3), None);
}

#[test]
fn registry_replace_touches_occupied_positions_only() {
    let mut registry: Registry<i32> = Registry::new();
    registry.add(10);
    registry.add(11);
    registry.remove(1);
    assert!(registry.replace(0, 20));
    assert!(!registry.replace(1, 21));
    assert!(!registry.replace(5, 25));
    assert_eq!(registry.get(0), Some(20));
    assert_eq!(registry.get(1), None);
    registry.remove(7);
    assert_eq!(registry.len(), 2);
}
