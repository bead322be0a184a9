use sand_sim::Cell;
use sand_sim::Grid;

fn snapshot(g: &Grid) -> Vec<Vec<Cell>> {
    let mut rows: Vec<Vec<Cell>> = Vec::new();
    for y in 0..g.height() {
        let mut row: Vec<Cell> = Vec::new();
        for x in 0..g.width() {
            row.push(g.get(x, y));
        }
        rows.push(row);
    }
    rows
}

fn count_material(g: &Grid, c: Cell) -> usize {
    let mut n = 0;
    for y in 0..g.height() {
        for x in 0..g.width() {
            if g.get(x, y) == c {
                n += 1;
            }
        }
    }
    n
}

#[test]
fn create_is_all_empty() {
    let g = Grid::create(3, 4);
    assert_eq!(g.width(), 3);
    assert_eq!(g.height(), 4);
    for y in 0..4 {
        for x in 0..3 {
            assert_eq!(g.get(x, y), Cell::Empty);
        }
    }
}

#[test]
fn get_set_roundtrip() {
    let mut g = Grid::create(4, 4);
    g.set(2, 3, Cell::Wood);
    assert_eq!(g.get(2, 3), Cell::Wood);
    g.set(2, 3, Cell::Water);
    assert_eq!(g.get(2, 3), Cell::Water);
    assert_eq!(g.get(0, 0), Cell::Empty);
}

// A 5x5 grid with Sand at (2,0) and a Wood floor at row 4: the sand falls
// one row per tick, rests at (2,3) after 4 ticks, and the grid is then a
// fixed point.
#[test]
fn sand_falls_to_wood_floor() {
    let mut g = Grid::create(5, 5);
    for x in 0..5 {
        g.set(x, 4, Cell::Wood);
    }
    g.set(2, 0, Cell::Sand);
    for tick in 1..=3 {
        g.step();
        assert_eq!(g.get(2, tick), Cell::Sand, "sand should be at (2,{})", tick);
    }
    g.step();
    assert_eq!(g.get(2, 3), Cell::Sand, "sand rests at (2,3) after the fourth tick");
    let before = snapshot(&g);
    g.step();
    assert_eq!(snapshot(&g), before, "settled grid must be a fixed point");
}

// A 3x3 grid with Water at (1,0) and a Wood floor at row 2: the water falls
// to (1,1) on the first tick; on the second, with down and both diagonals
// blocked by Wood, it spreads left to (0,1) (left before right).
#[test]
fn water_falls_then_spreads_left() {
    let mut g = Grid::create(3, 3);
    for x in 0..3 {
        g.set(x, 2, Cell::Wood);
    }
    g.set(1, 0, Cell::Water);
    g.step();
    assert_eq!(g.get(1, 1), Cell::Water);
    assert_eq!(g.get(1, 0), Cell::Empty);
    g.step();
    assert_eq!(g.get(0, 1), Cell::Water);
    assert_eq!(g.get(1, 1), Cell::Empty);
    assert_eq!(g.get(2, 1), Cell::Empty);
}

// Sand above water sinks into it in one tick; the water cell is
// overwritten, so one Water cell is lost. This volume loss is the observed,
// intentional behavior of the rule set.
#[test]
fn sand_sinks_through_water_and_water_is_lost() {
    let mut g = Grid::create(3, 3);
    g.set(1, 0, Cell::Sand);
    g.set(1, 1, Cell::Water);
    assert_eq!(count_material(&g, Cell::Water), 1);
    g.step();
    assert_eq!(g.get(1, 1), Cell::Sand);
    assert_eq!(g.get(1, 0), Cell::Empty);
    assert_eq!(count_material(&g, Cell::Water), 0);
    assert_eq!(count_material(&g, Cell::Sand), 1);
}

// Without sand in the grid, the number of Water cells never changes.
#[test]
fn water_count_is_conserved_without_sand() {
    let mut g = Grid::create(5, 5);
    for x in 0..5 {
        g.set(x, 4, Cell::Wood);
    }
    g.set(2, 2, Cell::Wood);
    g.set(0, 0, Cell::Water);
    g.set(2, 0, Cell::Water);
    g.set(2, 1, Cell::Water);
    g.set(4, 3, Cell::Water);
    assert_eq!(count_material(&g, Cell::Water), 4);
    for _ in 0..10 {
        g.step();
        assert_eq!(count_material(&g, Cell::Water), 4);
    }
}

// A grid containing only Wood is a fixed point of the step.
#[test]
fn wood_grid_is_fixed_point() {
    let mut g = Grid::create(4, 4);
    for y in 0..4 {
        for x in 0..4 {
            g.set(x, y, Cell::Wood);
        }
    }
    let before = snapshot(&g);
    for _ in 0..5 {
        g.step();
        assert_eq!(snapshot(&g), before);
    }
}

// Sand on the bottom row never moves.
#[test]
fn bottom_row_sand_is_terminal() {
    let mut g = Grid::create(3, 3);
    g.set(0, 2, Cell::Sand);
    g.set(2, 2, Cell::Sand);
    for _ in 0..6 {
        g.step();
        assert_eq!(g.get(0, 2), Cell::Sand);
        assert_eq!(g.get(2, 2), Cell::Sand);
    }
}

// A single sand column above a full Wood floor settles within `height`
// ticks and stays stable thereafter.
#[test]
fn sand_column_settles_and_stays() {
    let mut g = Grid::create(3, 5);
    for x in 0..3 {
        g.set(x, 4, Cell::Wood);
    }
    for y in 0..4 {
        g.set(1, y, Cell::Sand);
    }
    for _ in 0..5 {
        g.step();
    }
    let settled = snapshot(&g);
    for _ in 0..5 {
        g.step();
        assert_eq!(snapshot(&g), settled, "settled sand pile must stay stable");
    }
    assert_eq!(count_material(&g, Cell::Sand), 4);
}

// With straight down blocked, sand prefers the down-left diagonal; with
// down-left blocked too, it takes down-right.
#[test]
fn sand_slides_left_before_right() {
    let mut g = Grid::create(3, 2);
    g.set(1, 1, Cell::Wood);
    g.set(1, 0, Cell::Sand);
    g.step();
    assert_eq!(g.get(0, 1), Cell::Sand);
    assert_eq!(g.get(2, 1), Cell::Empty);

    let mut g2 = Grid::create(3, 2);
    g2.set(1, 1, Cell::Wood);
    g2.set(0, 1, Cell::Wood);
    g2.set(1, 0, Cell::Sand);
    g2.step();
    assert_eq!(g2.get(2, 1), Cell::Sand);
}

// With straight down blocked, water prefers the down-left diagonal over
// down-right and over horizontal spread.
#[test]
fn water_prefers_down_left_diagonal() {
    let mut g = Grid::create(3, 2);
    g.set(1, 1, Cell::Wood);
    g.set(1, 0, Cell::Water);
    g.step();
    assert_eq!(g.get(0, 1), Cell::Water);
    assert_eq!(g.get(2, 1), Cell::Empty);
    assert_eq!(g.get(0, 0), Cell::Empty);
    assert_eq!(g.get(2, 0), Cell::Empty);
}

// With every downward option and the left neighbor blocked, water takes the
// right spread — but the cell it lands in lies ahead of the in-place scan,
// is re-examined in the same row sweep, finds its own left neighbor (the
// just-vacated source) Empty, and moves back. Net effect of a tick: the
// water stays put in a blocked row whose only opening is to the right.
#[test]
fn water_right_spread_is_rescanned_and_returns() {
    let mut g = Grid::create(3, 3);
    for x in 0..3 {
        g.set(x, 2, Cell::Wood);
    }
    g.set(0, 1, Cell::Wood);
    g.set(1, 1, Cell::Water);
    g.step();
    assert_eq!(g.get(1, 1), Cell::Water);
    assert_eq!(g.get(2, 1), Cell::Empty);
}

// Every edge and corner cell of small grids can hold moving material
// without the step reaching outside the grid.
#[test]
fn small_grids_step_without_panic() {
    let materials = [Cell::Empty, Cell::Sand, Cell::Wood, Cell::Water];
    for &a in &materials {
        for &b in &materials {
            for &c in &materials {
                for &d in &materials {
                    let mut g = Grid::create(2, 2);
                    g.set(0, 0, a);
                    g.set(1, 0, b);
                    g.set(0, 1, c);
                    g.set(1, 1, d);
                    for _ in 0..4 {
                        g.step();
                    }
                }
            }
        }
    }
    let mut tiny = Grid::create(1, 1);
    tiny.set(0, 0, Cell::Sand);
    tiny.step();
    assert_eq!(tiny.get(0, 0), Cell::Sand);
}

// Sand falling in a single-column grid rests on the bottom row.
#[test]
fn single_column_sand_rests_on_bottom() {
    let mut g = Grid::create(1, 4);
    g.set(0, 0, Cell::Sand);
    for _ in 0..4 {
        g.step();
    }
    assert_eq!(g.get(0, 3), Cell::Sand);
    for y in 0..3 {
        assert_eq!(g.get(0, y), Cell::Empty);
    }
}
