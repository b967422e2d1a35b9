use wavesim::input::{InputAxes, Key};
use wavesim::modules::{Dir, GridPoint, Module, Step};
use wavesim::render::TerminalOp::{MoveTo, Print};
use wavesim::render::{draw_char, draw_module, move_cursor, Rect};

#[test]
fn rect_new_keeps_its_arguments() {
    let rect = Rect::new(1, -2, 3, 4);
    assert_eq!((rect.x, rect.y, rect.width, rect.height), (1, -2, 3, 4));
    assert_eq!(rect, Rect { x: 1, y: -2, width: 3, height: 4 });
}

#[test]
fn frame_of_a_four_by_three_rectangle() {
    let ops = draw_module(Rect::new(2, 3, 4, 3));
    let expected = vec![
        MoveTo { x: 2, y: 3 },
        Print('-'),
        Print('-'),
        Print('-'),
        MoveTo { x: 2, y: 4 },
        Print('|'),
        MoveTo { x: 2, y: 5 },
        Print('|'),
        MoveTo { x: 2, y: 6 },
        Print('|'),
        MoveTo { x: 2, y: 6 },
        Print('-'),
        Print('-'),
        Print('-'),
        MoveTo { x: 5, y: 4 },
        Print('|'),
        MoveTo { x: 5, y: 5 },
        Print('|'),
    ];
    assert_eq!(ops, expected);
}

#[test]
fn frame_of_a_rectangle_without_extent() {
    assert_eq!(draw_module(Rect::new(7, 9, 0, 0)), vec![MoveTo { x: 7, y: 9 }, MoveTo { x: 7, y: 9 }]);
    assert_eq!(draw_module(Rect::new(7, 9, 1, -3)), vec![MoveTo { x: 7, y: 9 }, MoveTo { x: 7, y: 6 }]);
    assert_eq!(
        draw_module(Rect::new(0, 0, 2, 1)),
        vec![
            MoveTo { x: 0, y: 0 },
            Print('-'),
            MoveTo { x: 0, y: 1 },
            Print('|'),
            MoveTo { x: 0, y: 1 },
            Print('-'),
        ]
    );
}

#[test]
fn frame_at_the_end_of_the_coordinate_range() {
    let rect = Rect::new(i32::MAX - 3, i32::MAX - 2, 3, 2);
    assert!(rect.drawable());
    let ops = draw_module(rect);
    assert_eq!(ops.len(), 1 + 2 + 4 + 1 + 2 + 2);
    assert_eq!(ops[3], MoveTo { x: i32::MAX - 3, y: i32::MAX - 1 });
    assert_eq!(ops[5], MoveTo { x: i32::MAX - 3, y: i32::MAX });
    assert_eq!(ops[7], MoveTo { x: i32::MAX - 3, y: i32::MAX });
    assert_eq!(ops[10], MoveTo { x: i32::MAX - 1, y: i32::MAX - 1 });
    assert_eq!(ops[11], Print('|'));
}

#[test]
fn drawable_tells_when_a_coordinate_would_not_fit() {
    assert!(Rect::new(0, 0, 10, 10).drawable());
    assert!(!Rect::new(0, i32::MAX, 10, 1).drawable());
    assert!(!Rect::new(0, i32::MIN, 10, -1).drawable());
    assert!(!Rect::new(i32::MAX, 0, 1, 2).drawable());
    assert!(Rect::new(i32::MAX, 0, 1, 1).drawable());
    assert!(!Rect::new(i32::MIN, 0, 0, 2).drawable());
    assert!(Rect::new(i32::MIN, 0, 1, 2).drawable());
    assert!(Rect::new(i32::MIN, i32::MIN, -5, 0).drawable());
}

#[test]
fn a_character_is_drawn_by_a_move_and_a_print() {
    assert_eq!(draw_char('x', 3, 4), vec![MoveTo { x: 3, y: 4 }, Print('x')]);
    assert_eq!(draw_char('|', -1, 70000), vec![MoveTo { x: -1, y: 70000 }, Print('|')]);
}

#[test]
fn the_cursor_cell_keeps_the_low_sixteen_bits() {
    assert_eq!(move_cursor(0, 0), (0, 0));
    assert_eq!(move_cursor(79, 23), (79, 23));
    assert_eq!(move_cursor(65535, 65536), (65535, 0));
    assert_eq!(move_cursor(65537, -1), (1, 65535));
    assert_eq!(move_cursor(i32::MIN, i32::MAX), (0, 65535));
    assert_eq!(move_cursor(-65536, -65535), (0, 1));
}

#[test]
fn the_default_axes_are_vertical_and_horizontal() {
    let axes = InputAxes::default();
    let vertical = axes.get("Vertical");
    assert_eq!(vertical.neg, vec![Key::ArrowDown, Key::KeyS]);
    assert_eq!(vertical.pos, vec![Key::ArrowUp, Key::KeyW]);
    let horizontal = axes.get("Horizontal");
    assert_eq!(horizontal.neg, vec![Key::ArrowRight, Key::KeyD]);
    assert_eq!(horizontal.pos, vec![Key::ArrowLeft, Key::KeyA]);
}

#[test]
fn names_lists_the_bound_names() {
    let mut names = InputAxes::default().names();
    names.sort();
    assert_eq!(names, vec!["Horizontal".to_string(), "Vertical".to_string()]);
}

#[test]
fn find_tells_which_names_are_bound() {
    let axes = InputAxes::default();
    assert!(axes.find("Vertical").is_some());
    assert!(axes.find("Horizontal").is_some());
    assert!(axes.find("vertical").is_none());
    assert!(axes.find("").is_none());
    assert!(axes.find("Vertical ").is_none());
    assert_eq!(axes.find("Horizontal").unwrap().pos, vec![Key::ArrowLeft, Key::KeyA]);
}

#[test]
fn directions_as_unit_steps() {
    assert_eq!(Dir::North.to_vec(), Step { x: 0, y: 0, z: 1 });
    assert_eq!(Dir::South.to_vec(), Step { x: 0, y: 0, z: -1 });
    assert_eq!(Dir::East.to_vec(), Step { x: -1, y: 0, z: 0 });
    assert_eq!(Dir::West.to_vec(), Step { x: 1, y: 0, z: 0 });
}

#[test]
fn all_directions_clockwise_from_north() {
    assert_eq!(Dir::all(), vec![Dir::North, Dir::East, Dir::South, Dir::West]);
}

#[test]
fn module_new_sets_the_position() {
    assert_eq!(Module::new(3, -4).position, GridPoint { x: 3, y: -4 });
}
