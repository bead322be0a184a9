//! The per-material movement rules and the simulation step.
//!
//! Each tick runs a full sand pass and then a full water pass. A pass scans
//! rows from the bottom (`height - 2`) upward to the top, and each row from
//! left to right, applying the material's rule to one cell at a time. The
//! bottom-to-top order guarantees a cell that moved down this tick is not
//! re-processed later in the same tick.

use vstd::prelude::*;

use crate::grid::Cell;
use crate::grid::Grid;
use crate::grid::GridModel;
use crate::grid::lemma_idx_bounds;
use crate::grid::lemma_put_at;
use crate::grid::lemma_put_wf;

verus! {

broadcast use lemma_put_at, lemma_put_wf;

/// The sand rule applied to the single cell (`x`, `y`), meant for
/// `0 <= x < width` and `0 <= y <= height - 2`.
///
/// Sand falls straight down into Empty, sinks through Water directly below
/// (overwriting it, not displacing it), and otherwise slides to an Empty
/// down-left cell, then an Empty down-right cell; else it rests.
pub open spec fn sand_cell(g: GridModel, x: int, y: int) -> GridModel {
    if g.at(x, y) == Cell::Sand {
        if g.at(x, y + 1) == Cell::Empty || g.at(x, y + 1) == Cell::Water {
            g.put(x, y, Cell::Empty).put(x, y + 1, Cell::Sand)
        } else if x > 0 && g.at(x - 1, y + 1) == Cell::Empty {
            g.put(x, y, Cell::Empty).put(x - 1, y + 1, Cell::Sand)
        } else if x < g.width - 1 && g.at(x + 1, y + 1) == Cell::Empty {
            g.put(x, y, Cell::Empty).put(x + 1, y + 1, Cell::Sand)
        } else {
            g
        }
    } else {
        g
    }
}

/// The water rule applied to the single cell (`x`, `y`), meant for
/// `0 <= x < width` and `0 <= y <= height - 2`.
///
/// Water prefers down, then down-left, then down-right, then left, then
/// right; every destination must be Empty. The down > diagonal > left >
/// right precedence is load-bearing for pooling behavior.
pub open spec fn water_cell(g: GridModel, x: int, y: int) -> GridModel {
    if g.at(x, y) == Cell::Water {
        if g.at(x, y + 1) == Cell::Empty {
            g.put(x, y, Cell::Empty).put(x, y + 1, Cell::Water)
        } else if x > 0 && g.at(x - 1, y + 1) == Cell::Empty {
            g.put(x, y, Cell::Empty).put(x - 1, y + 1, Cell::Water)
        } else if x < g.width - 1 && g.at(x + 1, y + 1) == Cell::Empty {
            g.put(x, y, Cell::Empty).put(x + 1, y + 1, Cell::Water)
        } else if x > 0 && g.at(x - 1, y) == Cell::Empty {
            g.put(x, y, Cell::Empty).put(x - 1, y, Cell::Water)
        } else if x < g.width - 1 && g.at(x + 1, y) == Cell::Empty {
            g.put(x, y, Cell::Empty).put(x + 1, y, Cell::Water)
        } else {
            g
        }
    } else {
        g
    }
}

/// The rule of material `m` applied to the single cell (`x`, `y`). Wood and
/// Empty have no rule of their own: they never initiate a move.
pub open spec fn rule_cell(g: GridModel, m: Cell, x: int, y: int) -> GridModel {
    if m == Cell::Sand {
        sand_cell(g, x, y)
    } else if m == Cell::Water {
        water_cell(g, x, y)
    } else {
        g
    }
}

/// Row `y` with the columns `n1..n2` processed left to right by the rule of
/// material `m`, starting from grid `g` in which columns `0..n1` of this
/// row's scan have already run.
pub open spec fn rule_row(g: GridModel, m: Cell, y: int, n1: int, n2: int) -> GridModel
    decreases n2 - n1,
{
    if n2 <= n1 {
        g
    } else {
        rule_cell(rule_row(g, m, y, n1, n2 - 1), m, n2 - 1, y)
    }
}

/// The first `r` rows of a pass of material `m`: rows `height - 2` down to
/// `height - 1 - r`, each scanned fully left to right.
pub open spec fn rule_rows(g: GridModel, m: Cell, r: int) -> GridModel
    decreases r,
{
    if r <= 0 {
        g
    } else {
        rule_row(rule_rows(g, m, r - 1), m, g.height - 1 - r, 0, g.width)
    }
}

/// One full pass of material `m` over the whole grid.
pub open spec fn rule_pass(g: GridModel, m: Cell) -> GridModel {
    rule_rows(g, m, g.height - 1)
}

/// One simulation tick: the full sand pass, then the full water pass.
pub open spec fn spec_step(g: GridModel) -> GridModel {
    rule_pass(rule_pass(g, Cell::Sand), Cell::Water)
}

/// `n` simulation ticks in a row.
pub open spec fn spec_step_n(g: GridModel, n: nat) -> GridModel
    decreases n,
{
    if n == 0 {
        g
    } else {
        spec_step(spec_step_n(g, (n - 1) as nat))
    }
}

/// A single cell step keeps the dimensions and well-formedness of the grid.
pub proof fn lemma_rule_cell_wf(g: GridModel, m: Cell, x: int, y: int)
    requires
        g.wf(),
        g.in_bounds(x, y),
        y + 1 < g.height,
    ensures
        rule_cell(g, m, x, y).wf(),
        rule_cell(g, m, x, y).width == g.width,
        rule_cell(g, m, x, y).height == g.height,
{
}

/// A partial row scan keeps the dimensions and well-formedness of the grid.
pub proof fn lemma_rule_row_wf(g: GridModel, m: Cell, y: int, n1: int, n2: int)
    requires
        g.wf(),
        0 <= y,
        y + 1 < g.height,
        0 <= n1,
        n2 <= g.width,
    ensures
        rule_row(g, m, y, n1, n2).wf(),
        rule_row(g, m, y, n1, n2).width == g.width,
        rule_row(g, m, y, n1, n2).height == g.height,
    decreases n2 - n1,
{
    if n2 > n1 {
        lemma_rule_row_wf(g, m, y, n1, n2 - 1);
        lemma_rule_cell_wf(rule_row(g, m, y, n1, n2 - 1), m, n2 - 1, y);
    }
}

/// A partial pass keeps the dimensions and well-formedness of the grid.
pub proof fn lemma_rule_rows_wf(g: GridModel, m: Cell, r: int)
    requires
        g.wf(),
        r <= g.height - 1,
    ensures
        rule_rows(g, m, r).wf(),
        rule_rows(g, m, r).width == g.width,
        rule_rows(g, m, r).height == g.height,
    decreases r,
{
    if r > 0 {
        lemma_rule_rows_wf(g, m, r - 1);
        lemma_rule_row_wf(rule_rows(g, m, r - 1), m, g.height - 1 - r, 0, g.width);
    }
}

impl Grid {
    /// Apply the sand rule to the single cell (`x`, `y`).
    fn step_sand_cell(&mut self, x: usize, y: usize)
        requires
            old(self)@.wf(),
            x < old(self)@.width,
            y + 1 < old(self)@.height,
        ensures
            final(self)@ == sand_cell(old(self)@, x as int, y as int),
            final(self)@.wf(),
    {
        let w: usize = self.width();
        let _h: usize = self.height();
        if self.get(x, y) == Cell::Sand {
            let below = self.get(x, y + 1);
            if below == Cell::Empty || below == Cell::Water {
                self.set(x, y, Cell::Empty);
                self.set(x, y + 1, Cell::Sand);
            } else if x > 0 && self.get(x - 1, y + 1) == Cell::Empty {
                self.set(x, y, Cell::Empty);
                self.set(x - 1, y + 1, Cell::Sand);
            } else if x + 1 < w && self.get(x + 1, y + 1) == Cell::Empty {
                self.set(x, y, Cell::Empty);
                self.set(x + 1, y + 1, Cell::Sand);
            }
        }
    }

    /// Apply the water rule to the single cell (`x`, `y`).
    fn step_water_cell(&mut self, x: usize, y: usize)
        requires
            old(self)@.wf(),
            x < old(self)@.width,
            y + 1 < old(self)@.height,
        ensures
            final(self)@ == water_cell(old(self)@, x as int, y as int),
            final(self)@.wf(),
    {
        let w: usize = self.width();
        let _h: usize = self.height();
        if self.get(x, y) == Cell::Water {
            if self.get(x, y + 1) == Cell::Empty {
                self.set(x, y, Cell::Empty);
                self.set(x, y + 1, Cell::Water);
            } else if x > 0 && self.get(x - 1, y + 1) == Cell::Empty {
                self.set(x, y, Cell::Empty);
                self.set(x - 1, y + 1, Cell::Water);
            } else if x + 1 < w && self.get(x + 1, y + 1) == Cell::Empty {
                self.set(x, y, Cell::Empty);
                self.set(x + 1, y + 1, Cell::Water);
            } else if x > 0 && self.get(x - 1, y) == Cell::Empty {
                self.set(x, y, Cell::Empty);
                self.set(x - 1, y, Cell::Water);
            } else if x + 1 < w && self.get(x + 1, y) == Cell::Empty {
                self.set(x, y, Cell::Empty);
                self.set(x + 1, y, Cell::Water);
            }
        }
    }

    /// Apply the rule of material `m` to the single cell (`x`, `y`).
    fn step_rule_cell(&mut self, m: Cell, x: usize, y: usize)
        requires
            old(self)@.wf(),
            x < old(self)@.width,
            y + 1 < old(self)@.height,
        ensures
            final(self)@ == rule_cell(old(self)@, m, x as int, y as int),
            final(self)@.wf(),
    {
        if m == Cell::Sand {
            self.step_sand_cell(x, y);
        } else if m == Cell::Water {
            self.step_water_cell(x, y);
        }
    }

    /// One full pass of the rule of material `m` over the grid, in the fixed
    /// bottom-to-top, left-to-right scan order.
    fn run_pass(&mut self, m: Cell)
        requires
            old(self)@.wf(),
        ensures
            final(self)@ == rule_pass(old(self)@, m),
            final(self)@.wf(),
    {
        let ghost g0 = self@;
        let width = self.width();
        let height = self.height();
        let mut r: usize = 0;
        while r < height - 1
            invariant
                g0.wf(),
                width == g0.width,
                height == g0.height,
                r <= height - 1,
                self@ == rule_rows(g0, m, r as int),
                self@.wf(),
                self@.width == g0.width,
                self@.height == g0.height,
            decreases height - 1 - r,
        {
            let y = height - 2 - r;
            let ghost grow = self@;
            let mut x: usize = 0;
            while x < width
                invariant
                    grow.wf(),
                    width == grow.width,
                    height == grow.height,
                    y == height - 2 - r,
                    r < height - 1,
                    x <= width,
                    self@ == rule_row(grow, m, y as int, 0, x as int),
                    self@.wf(),
                    self@.width == grow.width,
                    self@.height == grow.height,
                decreases width - x,
            {
                self.step_rule_cell(m, x, y);
                x = x + 1;
            }
            proof {
                assert(self@ == rule_row(grow, m, y as int, 0, width as int));
                assert(rule_rows(g0, m, r as int + 1) == rule_row(
                    rule_rows(g0, m, r as int),
                    m,
                    g0.height - 1 - (r as int + 1),
                    0,
                    g0.width,
                ));
                assert(y as int == g0.height - 1 - (r as int + 1));
            }
            r = r + 1;
        }
    }

    /// One full pass of the sand rule over the grid.
    pub fn update_sand(&mut self)
        requires
            old(self)@.wf(),
        ensures
            final(self)@ == rule_pass(old(self)@, Cell::Sand),
            final(self)@.wf(),
    {
        self.run_pass(Cell::Sand);
    }

    /// One full pass of the water rule over the grid.
    pub fn update_water(&mut self)
        requires
            old(self)@.wf(),
        ensures
            final(self)@ == rule_pass(old(self)@, Cell::Water),
            final(self)@.wf(),
    {
        self.run_pass(Cell::Water);
    }

    /// Advance the simulation by one tick: the sand pass, then the water
    /// pass.
    pub fn step(&mut self)
        requires
            old(self)@.wf(),
        ensures
            final(self)@ == spec_step(old(self)@),
            final(self)@.wf(),
    {
        self.update_sand();
        self.update_water();
    }
}

} // verus!
