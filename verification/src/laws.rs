//! Proved laws of the simulation: conservation and preservation facts that
//! hold of every grid, stated over the mathematical model.

use vstd::prelude::*;

use crate::grid::Cell;
use crate::grid::GridModel;
use crate::grid::lemma_idx_bounds;
use crate::grid::lemma_idx_injective;
use crate::grid::lemma_put_at;
use crate::grid::lemma_put_wf;
use crate::rules::rule_cell;
use crate::rules::rule_pass;
use crate::rules::rule_row;
use crate::rules::rule_rows;
use crate::rules::sand_cell;
use crate::rules::spec_step;
use crate::rules::spec_step_n;
use crate::rules::water_cell;
use crate::rules::lemma_rule_row_wf;
use crate::rules::lemma_rule_rows_wf;

verus! {

broadcast use lemma_put_at, lemma_put_wf;

/// How many cells of the sequence hold material `m`.
pub open spec fn count_in(s: Seq<Cell>, m: Cell) -> int
    decreases s.len(),
{
    if s.len() == 0 {
        0
    } else {
        count_in(s.drop_last(), m) + if s.last() == m {
            1int
        } else {
            0int
        }
    }
}

/// How many cells of the grid hold Water.
pub open spec fn water_count(g: GridModel) -> int {
    count_in(g.cells, Cell::Water)
}

/// Updating one entry changes a material's count exactly by what leaves and
/// what arrives at that entry.
proof fn lemma_count_update(s: Seq<Cell>, m: Cell, i: int, v: Cell)
    requires
        0 <= i < s.len(),
    ensures
        count_in(s.update(i, v), m) == count_in(s, m) - (if s[i] == m {
            1int
        } else {
            0int
        }) + (if v == m {
            1int
        } else {
            0int
        }),
    decreases s.len(),
{
    let s2 = s.update(i, v);
    if i == s.len() - 1 {
        assert(s2.drop_last() =~= s.drop_last());
    } else {
        assert(s2.drop_last() =~= s.drop_last().update(i, v));
        lemma_count_update(s.drop_last(), m, i, v);
    }
}

/// The water rule at one cell conserves the number of Water cells: a move
/// empties the source and fills an Empty destination.
proof fn lemma_water_cell_water_count(g: GridModel, x: int, y: int)
    requires
        g.wf(),
        g.in_bounds(x, y),
        y + 1 < g.height,
    ensures
        water_count(water_cell(g, x, y)) == water_count(g),
{
    let g2 = water_cell(g, x, y);
    if g2 != g {
        let (dx, dy): (int, int) = if g.at(x, y + 1) == Cell::Empty {
            (x, y + 1)
        } else if x > 0 && g.at(x - 1, y + 1) == Cell::Empty {
            (x - 1, y + 1)
        } else if x < g.width - 1 && g.at(x + 1, y + 1) == Cell::Empty {
            (x + 1, y + 1)
        } else if x > 0 && g.at(x - 1, y) == Cell::Empty {
            (x - 1, y)
        } else {
            (x + 1, y)
        };
        lemma_idx_bounds(g, x, y);
        lemma_idx_bounds(g, dx, dy);
        assert(g.idx(x, y) != g.idx(dx, dy)) by {
            if g.idx(x, y) == g.idx(dx, dy) {
                lemma_idx_injective(g, x, y, dx, dy);
            }
        }
        lemma_count_update(g.cells, Cell::Water, g.idx(x, y), Cell::Empty);
        let s1 = g.cells.update(g.idx(x, y), Cell::Empty);
        lemma_count_update(s1, Cell::Water, g.idx(dx, dy), Cell::Water);
        assert(g.put(x, y, Cell::Empty).idx(dx, dy) == g.idx(dx, dy));
        assert(s1[g.idx(dx, dy)] == g.cells[g.idx(dx, dy)]);
    }
}

/// The sand rule at one cell never creates Water, and destroys at most the
/// one Water cell that sand sinks through.
proof fn lemma_sand_cell_water_count(g: GridModel, x: int, y: int)
    requires
        g.wf(),
        g.in_bounds(x, y),
        y + 1 < g.height,
    ensures
        water_count(sand_cell(g, x, y)) <= water_count(g),
        g.at(x, y + 1) != Cell::Water ==> water_count(sand_cell(g, x, y)) == water_count(g),
        g.at(x, y) == Cell::Sand && g.at(x, y + 1) == Cell::Water ==> water_count(
            sand_cell(g, x, y),
        ) == water_count(g) - 1,
{
    let g2 = sand_cell(g, x, y);
    if g2 != g {
        let (dx, dy): (int, int) = if g.at(x, y + 1) == Cell::Empty || g.at(x, y + 1)
            == Cell::Water {
            (x, y + 1)
        } else if x > 0 && g.at(x - 1, y + 1) == Cell::Empty {
            (x - 1, y + 1)
        } else {
            (x + 1, y + 1)
        };
        lemma_idx_bounds(g, x, y);
        lemma_idx_bounds(g, dx, dy);
        assert(g.idx(x, y) != g.idx(dx, dy)) by {
            if g.idx(x, y) == g.idx(dx, dy) {
                lemma_idx_injective(g, x, y, dx, dy);
            }
        }
        lemma_count_update(g.cells, Cell::Water, g.idx(x, y), Cell::Empty);
        let s1 = g.cells.update(g.idx(x, y), Cell::Empty);
        lemma_count_update(s1, Cell::Water, g.idx(dx, dy), Cell::Sand);
        assert(s1[g.idx(dx, dy)] == g.cells[g.idx(dx, dy)]);
    }
}

/// A row scan changes the Water count as its cells do: the water rule keeps
/// it, the sand rule can only lower it.
proof fn lemma_rule_row_water_count(g: GridModel, m: Cell, y: int, n: int)
    requires
        g.wf(),
        0 <= y,
        y + 1 < g.height,
        n <= g.width,
    ensures
        water_count(rule_row(g, m, y, 0, n)) <= water_count(g),
        m != Cell::Sand ==> water_count(rule_row(g, m, y, 0, n)) == water_count(g),
    decreases n,
{
    if n > 0 {
        lemma_rule_row_water_count(g, m, y, n - 1);
        let gp = rule_row(g, m, y, 0, n - 1);
        lemma_rule_row_wf(g, m, y, 0, n - 1);
        if m == Cell::Sand {
            lemma_sand_cell_water_count(gp, n - 1, y);
        } else if m == Cell::Water {
            lemma_water_cell_water_count(gp, n - 1, y);
        }
    }
}

/// A partial pass changes the Water count as its rows do.
proof fn lemma_rule_rows_water_count(g: GridModel, m: Cell, r: int)
    requires
        g.wf(),
        r <= g.height - 1,
    ensures
        water_count(rule_rows(g, m, r)) <= water_count(g),
        m != Cell::Sand ==> water_count(rule_rows(g, m, r)) == water_count(g),
    decreases r,
{
    if r > 0 {
        lemma_rule_rows_water_count(g, m, r - 1);
        lemma_rule_rows_wf(g, m, r - 1);
        lemma_rule_row_water_count(rule_rows(g, m, r - 1), m, g.height - 1 - r, g.width);
    }
}

/// Law: the water pass conserves the total number of Water cells. No water
/// rule deletes a Water cell without creating exactly one elsewhere.
pub proof fn lemma_water_pass_preserves_water(g: GridModel)
    requires
        g.wf(),
    ensures
        water_count(rule_pass(g, Cell::Water)) == water_count(g),
{
    lemma_rule_rows_water_count(g, Cell::Water, g.height - 1);
}

/// Law: the sand-sink case is the one place water vanishes, and it costs
/// exactly one Water cell: the sand rule applied to a Sand cell with Water
/// directly below overwrites that Water cell.
pub proof fn lemma_sand_sink_loses_one_water(g: GridModel, x: int, y: int)
    requires
        g.wf(),
        g.in_bounds(x, y),
        y + 1 < g.height,
        g.at(x, y) == Cell::Sand,
        g.at(x, y + 1) == Cell::Water,
    ensures
        water_count(sand_cell(g, x, y)) == water_count(g) - 1,
{
    lemma_sand_cell_water_count(g, x, y);
}

/// Law: a tick never creates Water. The water pass conserves the count
/// exactly; only the sand pass can lower it, by sand sinking through a
/// Water cell and overwriting it.
pub proof fn lemma_step_water_count(g: GridModel)
    requires
        g.wf(),
    ensures
        water_count(spec_step(g)) == water_count(rule_pass(g, Cell::Sand)),
        water_count(spec_step(g)) <= water_count(g),
{
    lemma_rule_rows_water_count(g, Cell::Sand, g.height - 1);
    lemma_rule_rows_wf(g, Cell::Sand, g.height - 1);
    lemma_water_pass_preserves_water(rule_pass(g, Cell::Sand));
}

/// Any rule applied to one cell leaves every Wood cell where it is: Wood
/// never initiates a move and no destination ever holds Wood.
proof fn lemma_rule_cell_keeps_wood(g: GridModel, m: Cell, x: int, y: int, px: int, py: int)
    requires
        g.wf(),
        g.in_bounds(x, y),
        y + 1 < g.height,
        g.in_bounds(px, py),
        g.at(px, py) == Cell::Wood,
    ensures
        rule_cell(g, m, x, y).at(px, py) == Cell::Wood,
{
}

/// A row scan leaves every Wood cell where it is.
proof fn lemma_rule_row_keeps_wood(g: GridModel, m: Cell, y: int, n: int, px: int, py: int)
    requires
        g.wf(),
        0 <= y,
        y + 1 < g.height,
        n <= g.width,
        g.in_bounds(px, py),
        g.at(px, py) == Cell::Wood,
    ensures
        rule_row(g, m, y, 0, n).at(px, py) == Cell::Wood,
    decreases n,
{
    if n > 0 {
        lemma_rule_row_keeps_wood(g, m, y, n - 1, px, py);
        lemma_rule_row_wf(g, m, y, 0, n - 1);
        lemma_rule_cell_keeps_wood(rule_row(g, m, y, 0, n - 1), m, n - 1, y, px, py);
    }
}

/// A partial pass leaves every Wood cell where it is.
proof fn lemma_rule_rows_keeps_wood(g: GridModel, m: Cell, r: int, px: int, py: int)
    requires
        g.wf(),
        r <= g.height - 1,
        g.in_bounds(px, py),
        g.at(px, py) == Cell::Wood,
    ensures
        rule_rows(g, m, r).at(px, py) == Cell::Wood,
    decreases r,
{
    if r > 0 {
        lemma_rule_rows_keeps_wood(g, m, r - 1, px, py);
        lemma_rule_rows_wf(g, m, r - 1);
        lemma_rule_row_keeps_wood(rule_rows(g, m, r - 1), m, g.height - 1 - r, g.width, px, py);
    }
}

/// Law: Wood is immovable. A cell that holds Wood before a tick holds Wood,
/// in the same place, after it.
pub proof fn lemma_step_keeps_wood(g: GridModel, px: int, py: int)
    requires
        g.wf(),
        g.in_bounds(px, py),
        g.at(px, py) == Cell::Wood,
    ensures
        spec_step(g).at(px, py) == Cell::Wood,
{
    lemma_rule_rows_keeps_wood(g, Cell::Sand, g.height - 1, px, py);
    lemma_rule_rows_wf(g, Cell::Sand, g.height - 1);
    lemma_rule_rows_keeps_wood(rule_pass(g, Cell::Sand), Cell::Water, g.height - 1, px, py);
}

/// One tick of a well-formed grid is well formed and keeps the dimensions.
pub proof fn lemma_step_wf(g: GridModel)
    requires
        g.wf(),
    ensures
        spec_step(g).wf(),
        spec_step(g).width == g.width,
        spec_step(g).height == g.height,
{
    lemma_rule_rows_wf(g, Cell::Sand, g.height - 1);
    lemma_rule_rows_wf(rule_pass(g, Cell::Sand), Cell::Water, g.height - 1);
}

/// A grid with nothing that moves: no cell holds Sand or Water.
pub open spec fn inert(g: GridModel) -> bool {
    forall|x: int, y: int|
        g.in_bounds(x, y) ==> #[trigger] g.at(x, y) != Cell::Sand && g.at(x, y) != Cell::Water
}

/// A row scan of a grid with no Sand and no Water changes nothing.
proof fn lemma_rule_row_inert(g: GridModel, m: Cell, y: int, n: int)
    requires
        g.wf(),
        0 <= y,
        y + 1 < g.height,
        n <= g.width,
        inert(g),
    ensures
        rule_row(g, m, y, 0, n) == g,
    decreases n,
{
    if n > 0 {
        lemma_rule_row_inert(g, m, y, n - 1);
        assert(g.in_bounds(n - 1, y));
    }
}

/// A partial pass of a grid with no Sand and no Water changes nothing.
proof fn lemma_rule_rows_inert(g: GridModel, m: Cell, r: int)
    requires
        g.wf(),
        r <= g.height - 1,
        inert(g),
    ensures
        rule_rows(g, m, r) == g,
    decreases r,
{
    if r > 0 {
        lemma_rule_rows_inert(g, m, r - 1);
        lemma_rule_row_inert(g, m, g.height - 1 - r, g.width);
    }
}

/// Law: a grid that holds no Sand and no Water — in particular a grid of
/// Wood only — is a fixed point of the step.
pub proof fn lemma_inert_fixed_point(g: GridModel)
    requires
        g.wf(),
        inert(g),
    ensures
        spec_step(g) == g,
{
    lemma_rule_rows_inert(g, Cell::Sand, g.height - 1);
    lemma_rule_rows_inert(g, Cell::Water, g.height - 1);
}

/// Law: a stable configuration stays stable. Once one tick changes nothing,
/// no number of further ticks changes anything.
pub proof fn lemma_fixed_point_stays(g: GridModel, n: nat)
    requires
        spec_step(g) == g,
    ensures
        spec_step_n(g, n) == g,
    decreases n,
{
    if n > 0 {
        lemma_fixed_point_stays(g, (n - 1) as nat);
    }
}

/// Law: a grid of Wood (or Empty) cells only is identical after any number
/// of ticks.
pub proof fn lemma_inert_fixed_forever(g: GridModel, n: nat)
    requires
        g.wf(),
        inert(g),
    ensures
        spec_step_n(g, n) == g,
{
    lemma_inert_fixed_point(g);
    lemma_fixed_point_stays(g, n);
}

/// The sand rule at one cell leaves Sand alone anywhere but at the very
/// cell it is applied to.
proof fn lemma_sand_cell_keeps_sand(g: GridModel, x: int, y: int, px: int, py: int)
    requires
        g.wf(),
        g.in_bounds(x, y),
        y + 1 < g.height,
        g.in_bounds(px, py),
        g.at(px, py) == Cell::Sand,
        !(px == x && py == y),
    ensures
        sand_cell(g, x, y).at(px, py) == Cell::Sand,
{
}

/// The water rule at one cell leaves every Sand cell untouched: Sand is
/// neither a water source nor a valid water destination.
proof fn lemma_water_cell_keeps_sand(g: GridModel, x: int, y: int, px: int, py: int)
    requires
        g.wf(),
        g.in_bounds(x, y),
        y + 1 < g.height,
        g.in_bounds(px, py),
        g.at(px, py) == Cell::Sand,
    ensures
        water_cell(g, x, y).at(px, py) == Cell::Sand,
{
}

/// The sand rule at one cell leaves Water alone everywhere but directly
/// below the cell it is applied to — the one place sand sinks into.
proof fn lemma_sand_cell_keeps_water(g: GridModel, x: int, y: int, px: int, py: int)
    requires
        g.wf(),
        g.in_bounds(x, y),
        y + 1 < g.height,
        g.in_bounds(px, py),
        g.at(px, py) == Cell::Water,
        !(px == x && py == y + 1),
    ensures
        sand_cell(g, x, y).at(px, py) == Cell::Water,
{
}

/// Sand at (`px`, `py`) survives the columns `n1..n2` of a row scan when
/// none of those scan positions is (`px`, `py`) itself.
proof fn lemma_row_keeps_sand(g: GridModel, m: Cell, y: int, n1: int, n2: int, px: int, py: int)
    requires
        g.wf(),
        0 <= y,
        y + 1 < g.height,
        0 <= n1 <= n2 <= g.width,
        g.in_bounds(px, py),
        rule_row(g, m, y, 0, n1).at(px, py) == Cell::Sand,
        m == Cell::Sand ==> !(py == y && n1 <= px < n2),
    ensures
        rule_row(g, m, y, 0, n2).at(px, py) == Cell::Sand,
    decreases n2 - n1,
{
    if n2 > n1 {
        lemma_row_keeps_sand(g, m, y, n1, n2 - 1, px, py);
        let gp = rule_row(g, m, y, 0, n2 - 1);
        lemma_rule_row_wf(g, m, y, 0, n2 - 1);
        if m == Cell::Sand {
            lemma_sand_cell_keeps_sand(gp, n2 - 1, y, px, py);
        } else if m == Cell::Water {
            lemma_water_cell_keeps_sand(gp, n2 - 1, y, px, py);
        }
    }
}

/// Water at (`px`, `py`) survives the columns `n1..n2` of a sand row scan
/// at row `y` when it is not directly below any of those scan positions.
proof fn lemma_sand_row_keeps_water(g: GridModel, y: int, n1: int, n2: int, px: int, py: int)
    requires
        g.wf(),
        0 <= y,
        y + 1 < g.height,
        0 <= n1 <= n2 <= g.width,
        g.in_bounds(px, py),
        rule_row(g, Cell::Sand, y, 0, n1).at(px, py) == Cell::Water,
        !(py == y + 1 && n1 <= px < n2),
    ensures
        rule_row(g, Cell::Sand, y, 0, n2).at(px, py) == Cell::Water,
    decreases n2 - n1,
{
    if n2 > n1 {
        lemma_sand_row_keeps_water(g, y, n1, n2 - 1, px, py);
        let gp = rule_row(g, Cell::Sand, y, 0, n2 - 1);
        lemma_rule_row_wf(g, Cell::Sand, y, 0, n2 - 1);
        lemma_sand_cell_keeps_water(gp, n2 - 1, y, px, py);
    }
}

/// Sand at (`px`, `py`) survives rows `r1..r2` of a pass when its own row
/// is not among the rows those scans process; the water pass never moves
/// Sand at all.
proof fn lemma_rows_keeps_sand(g: GridModel, m: Cell, r1: int, r2: int, px: int, py: int)
    requires
        g.wf(),
        0 <= r1 <= r2 <= g.height - 1,
        g.in_bounds(px, py),
        rule_rows(g, m, r1).at(px, py) == Cell::Sand,
        m == Cell::Sand ==> !(g.height - 1 - r2 <= py <= g.height - 2 - r1),
    ensures
        rule_rows(g, m, r2).at(px, py) == Cell::Sand,
    decreases r2 - r1,
{
    if r2 > r1 {
        lemma_rows_keeps_sand(g, m, r1, r2 - 1, px, py);
        lemma_rule_rows_wf(g, m, r2 - 1);
        lemma_row_keeps_sand(rule_rows(g, m, r2 - 1), m, g.height - 1 - r2, 0, g.width, px, py);
    }
}

/// Water at (`px`, `py`) survives rows `r1..r2` of the sand pass when it is
/// not directly below any row those scans process.
proof fn lemma_rows_keeps_water_in_sand_pass(g: GridModel, r1: int, r2: int, px: int, py: int)
    requires
        g.wf(),
        0 <= r1 <= r2 <= g.height - 1,
        g.in_bounds(px, py),
        rule_rows(g, Cell::Sand, r1).at(px, py) == Cell::Water,
        !(g.height - r2 <= py <= g.height - 1 - r1),
    ensures
        rule_rows(g, Cell::Sand, r2).at(px, py) == Cell::Water,
    decreases r2 - r1,
{
    if r2 > r1 {
        lemma_rows_keeps_water_in_sand_pass(g, r1, r2 - 1, px, py);
        lemma_rule_rows_wf(g, Cell::Sand, r2 - 1);
        lemma_sand_row_keeps_water(
            rule_rows(g, Cell::Sand, r2 - 1),
            g.height - 1 - r2,
            0,
            g.width,
            px,
            py,
        );
    }
}

/// Law: Sand on the bottom row is terminal: a tick leaves it exactly where
/// it is.
pub proof fn lemma_step_bottom_row_sand(g: GridModel, px: int)
    requires
        g.wf(),
        0 <= px < g.width,
        g.at(px, g.height - 1) == Cell::Sand,
    ensures
        spec_step(g).at(px, g.height - 1) == Cell::Sand,
{
    let h = g.height;
    lemma_rows_keeps_sand(g, Cell::Sand, 0, h - 1, px, h - 1);
    lemma_rule_rows_wf(g, Cell::Sand, h - 1);
    lemma_rows_keeps_sand(rule_pass(g, Cell::Sand), Cell::Water, 0, h - 1, px, h - 1);
}

/// `n` ticks of a well-formed grid are well formed and keep the dimensions.
pub proof fn lemma_step_n_wf(g: GridModel, n: nat)
    requires
        g.wf(),
    ensures
        spec_step_n(g, n).wf(),
        spec_step_n(g, n).width == g.width,
        spec_step_n(g, n).height == g.height,
    decreases n,
{
    if n > 0 {
        lemma_step_n_wf(g, (n - 1) as nat);
        lemma_step_wf(spec_step_n(g, (n - 1) as nat));
    }
}

/// Law: Sand on the bottom row never changes position, after any number of
/// ticks.
pub proof fn lemma_step_n_bottom_row_sand(g: GridModel, px: int, n: nat)
    requires
        g.wf(),
        0 <= px < g.width,
        g.at(px, g.height - 1) == Cell::Sand,
    ensures
        spec_step_n(g, n).at(px, g.height - 1) == Cell::Sand,
    decreases n,
{
    if n > 0 {
        lemma_step_n_bottom_row_sand(g, px, (n - 1) as nat);
        lemma_step_n_wf(g, (n - 1) as nat);
        lemma_step_bottom_row_sand(spec_step_n(g, (n - 1) as nat), px);
    }
}

/// Law: sand sinks through water. With Sand at (`x`, `y`) and Water
/// directly below it, one tick leaves Sand at (`x`, `y + 1`). The Water
/// cell is overwritten, not displaced: nothing guarantees Water at (`x`,
/// `y`) afterwards — in an otherwise empty grid that cell comes out Empty.
pub proof fn lemma_step_sand_sinks(g: GridModel, x: int, y: int)
    requires
        g.wf(),
        0 <= x < g.width,
        0 <= y,
        y + 1 < g.height,
        g.at(x, y) == Cell::Sand,
        g.at(x, y + 1) == Cell::Water,
    ensures
        spec_step(g).at(x, y + 1) == Cell::Sand,
{
    let h = g.height;
    let w = g.width;
    let r1 = h - 2 - y;
    // rows h-2 down to y+1 touch neither (x, y) nor (x, y+1)
    lemma_rows_keeps_sand(g, Cell::Sand, 0, r1, x, y);
    lemma_rows_keeps_water_in_sand_pass(g, 0, r1, x, y + 1);
    let gb = rule_rows(g, Cell::Sand, r1);
    lemma_rule_rows_wf(g, Cell::Sand, r1);
    // columns 0..x of row y touch neither of the two cells
    lemma_row_keeps_sand(gb, Cell::Sand, y, 0, x, x, y);
    lemma_sand_row_keeps_water(gb, y, 0, x, x, y + 1);
    // the scan position (x, y) itself: sand sinks
    let gc = rule_row(gb, Cell::Sand, y, 0, x);
    lemma_rule_row_wf(gb, Cell::Sand, y, 0, x);
    let gd = rule_row(gb, Cell::Sand, y, 0, x + 1);
    assert(gd == rule_cell(gc, Cell::Sand, x, y));
    assert(gd.at(x, y + 1) == Cell::Sand);
    // the rest of row y, then rows y-1 up to 0, never overwrite that Sand
    lemma_row_keeps_sand(gb, Cell::Sand, y, x + 1, w, x, y + 1);
    assert(rule_rows(g, Cell::Sand, r1 + 1) == rule_row(gb, Cell::Sand, y, 0, w));
    lemma_rows_keeps_sand(g, Cell::Sand, r1 + 1, h - 1, x, y + 1);
    // the water pass never moves Sand
    lemma_rule_rows_wf(g, Cell::Sand, h - 1);
    lemma_rows_keeps_sand(rule_pass(g, Cell::Sand), Cell::Water, 0, h - 1, x, y + 1);
}

} // verus!
