use sand_sim::Cell;
use sand_sim::Grid;

// Simple mode writes exactly the base cell.
#[test]
fn paint_single_writes_one_cell() {
    let mut g = Grid::create(3, 3);
    g.paint(1, 1, Cell::Sand, 1);
    for y in 0..3 {
        for x in 0..3 {
            if x == 1 && y == 1 {
                assert_eq!(g.get(x, y), Cell::Sand);
            } else {
                assert_eq!(g.get(x, y), Cell::Empty);
            }
        }
    }
}

// Simple mode overwrites whatever the cell held.
#[test]
fn paint_single_overwrites() {
    let mut g = Grid::create(3, 3);
    g.set(1, 1, Cell::Water);
    g.paint(1, 1, Cell::Sand, 1);
    assert_eq!(g.get(1, 1), Cell::Sand);
}

// A base cell off the grid makes the simple paint a silent no-op.
#[test]
fn paint_single_off_grid_is_noop() {
    let mut g = Grid::create(3, 3);
    g.paint(7, 7, Cell::Sand, 1);
    for y in 0..3 {
        for x in 0..3 {
            assert_eq!(g.get(x, y), Cell::Empty);
        }
    }
}

// A paint action with no particles changes nothing.
#[test]
fn paint_zero_particles_is_noop() {
    let mut g = Grid::create(3, 3);
    g.paint(1, 1, Cell::Water, 0);
    for y in 0..3 {
        for x in 0..3 {
            assert_eq!(g.get(x, y), Cell::Empty);
        }
    }
}

// Scatter paint only ever writes the chosen material, and only within one
// cell of the base; with an interior base it always deposits something.
#[test]
fn scatter_paint_stays_within_window() {
    let mut g = Grid::create(7, 7);
    g.paint(3, 3, Cell::Sand, 50);
    let mut deposited = 0;
    for y in 0..7 {
        for x in 0..7 {
            let near = (x as i64 - 3).abs() <= 1 && (y as i64 - 3).abs() <= 1;
            if near {
                if g.get(x, y) == Cell::Sand {
                    deposited += 1;
                } else {
                    assert_eq!(g.get(x, y), Cell::Empty);
                }
            } else {
                assert_eq!(g.get(x, y), Cell::Empty, "write outside the scatter window");
            }
        }
    }
    assert!(deposited >= 1, "an interior scatter must deposit at least one cell");
}

// Scatter attempts whose offset lands off the grid are skipped, the rest
// land: painting at a corner never panics and never writes outside.
#[test]
fn scatter_paint_at_corner_skips_off_grid() {
    let mut g = Grid::create(3, 3);
    g.paint(0, 0, Cell::Water, 40);
    for y in 0..3 {
        for x in 0..3 {
            let near = x <= 1 && y <= 1;
            if !near {
                assert_eq!(g.get(x, y), Cell::Empty);
            } else {
                assert!(g.get(x, y) == Cell::Empty || g.get(x, y) == Cell::Water);
            }
        }
    }
}

// A deterministic single attempt through the same public path as scatter:
// each offset lands exactly one cell away from the base.
#[test]
fn paint_at_applies_offset() {
    let mut g = Grid::create(3, 3);
    g.paint_at(1, 1, -1, 1, Cell::Wood);
    assert_eq!(g.get(0, 2), Cell::Wood);
    g.paint_at(1, 1, 1, -1, Cell::Sand);
    assert_eq!(g.get(2, 0), Cell::Sand);
    // off-grid target: no-op
    g.paint_at(0, 0, -1, 0, Cell::Water);
    for y in 0..3 {
        for x in 0..3 {
            assert_ne!(g.get(x, y), Cell::Water);
        }
    }
}
