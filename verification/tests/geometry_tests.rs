use wavesim::arithmetic::Axis;
use wavesim::boundary::{band_region, Edge};
use wavesim::field::Region;
use wavesim::obstacle::double_slit;
use wavesim::stepper::interior_region;

#[test]
fn edges_are_crossed_along_their_axis() {
    assert_eq!(Edge::Left.axis(), Axis::X);
    assert_eq!(Edge::Right.axis(), Axis::X);
    assert_eq!(Edge::Top.axis(), Axis::Y);
    assert_eq!(Edge::Bottom.axis(), Axis::Y);
}

#[test]
fn bands_of_width_five_on_an_eighty_grid() {
    assert_eq!(band_region(Edge::Left, 5, 80, 80), Region { x0: 0, y0: 1, x1: 5, y1: 79 });
    assert_eq!(band_region(Edge::Right, 5, 80, 80), Region { x0: 75, y0: 1, x1: 80, y1: 79 });
    assert_eq!(band_region(Edge::Top, 5, 80, 80), Region { x0: 1, y0: 0, x1: 79, y1: 5 });
    assert_eq!(band_region(Edge::Bottom, 5, 80, 80), Region { x0: 1, y0: 75, x1: 79, y1: 80 });
}

#[test]
fn bands_on_a_grid_that_is_not_square() {
    assert_eq!(band_region(Edge::Left, 2, 10, 6), Region { x0: 0, y0: 1, x1: 2, y1: 5 });
    assert_eq!(band_region(Edge::Right, 2, 10, 6), Region { x0: 8, y0: 1, x1: 10, y1: 5 });
    assert_eq!(band_region(Edge::Top, 2, 10, 6), Region { x0: 1, y0: 0, x1: 9, y1: 2 });
    assert_eq!(band_region(Edge::Bottom, 2, 10, 6), Region { x0: 1, y0: 4, x1: 9, y1: 6 });
}

#[test]
fn a_band_of_width_zero_is_empty() {
    for edge in [Edge::Left, Edge::Right, Edge::Top, Edge::Bottom] {
        let region = band_region(edge, 0, 10, 10);
        assert!(region.x0 >= region.x1 || region.y0 >= region.y1);
    }
}

#[test]
fn a_band_never_reaches_the_opposite_edge() {
    assert_eq!(band_region(Edge::Left, 100, 10, 6), Region { x0: 0, y0: 1, x1: 9, y1: 5 });
    assert_eq!(band_region(Edge::Right, 100, 10, 6), Region { x0: 1, y0: 1, x1: 10, y1: 5 });
    assert_eq!(band_region(Edge::Top, usize::MAX, 10, 6), Region { x0: 1, y0: 0, x1: 9, y1: 5 });
    assert_eq!(band_region(Edge::Bottom, usize::MAX, 10, 6), Region { x0: 1, y0: 1, x1: 9, y1: 6 });
}

#[test]
fn bands_on_degenerate_grids_hold_no_cell() {
    for (nx, ny) in [(0, 0), (1, 1), (1, 5), (5, 1), (0, 7)] {
        for edge in [Edge::Left, Edge::Right, Edge::Top, Edge::Bottom] {
            let region = band_region(edge, 3, nx, ny);
            for x in 0..nx {
                for y in 0..ny {
                    assert!(!region.contains(x, y), "{edge:?} on {nx} x {ny} holds ({x}, {y})");
                }
            }
        }
    }
}

#[test]
fn the_interior_is_all_but_the_outermost_ring() {
    assert_eq!(interior_region(80, 80), Region { x0: 1, y0: 1, x1: 79, y1: 79 });
    assert_eq!(interior_region(3, 3), Region { x0: 1, y0: 1, x1: 2, y1: 2 });
    assert_eq!(interior_region(5, 9), Region { x0: 1, y0: 1, x1: 4, y1: 8 });
    let none = interior_region(2, 2);
    assert!(!none.contains(1, 1) && !none.contains(0, 0));
    let none = interior_region(0, 0);
    assert!(!none.contains(0, 0));
}

#[test]
fn double_slit_on_a_grid_of_160() {
    let walls = double_slit(160, 160);
    assert_eq!(
        walls,
        vec![
            Region { x0: 0, y0: 80, x1: 53, y1: 85 },
            Region { x0: 106, y0: 80, x1: 160, y1: 85 },
            Region { x0: 64, y0: 80, x1: 96, y1: 85 },
        ]
    );
}

#[test]
fn double_slit_on_small_and_huge_grids() {
    assert_eq!(
        double_slit(7, 3),
        vec![
            Region { x0: 0, y0: 1, x1: 2, y1: 6 },
            Region { x0: 4, y0: 1, x1: 7, y1: 6 },
            Region { x0: 0, y0: 1, x1: 0, y1: 6 },
        ]
    );
    let walls = double_slit(usize::MAX, usize::MAX);
    assert_eq!(walls.len(), 3);
    assert_eq!(walls[0].y0, usize::MAX / 2);
    assert_eq!(walls[0].y1, usize::MAX / 2 + 5);
    assert_eq!(walls[1].x0, (usize::MAX / 3) * 2);
}
