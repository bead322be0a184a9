//! The grid data structure: a fixed-size 2-D store of cells with
//! bounds-checked accessors, together with its mathematical model.

use vstd::prelude::*;

verus! {

/// One cell of the simulation grid. Cells carry no metadata and are compared
/// only by value.
#[derive(Clone, Copy, PartialEq, Eq, Structural, Debug)]
pub enum Cell {
    Empty,
    Sand,
    Wood,
    Water,
}

/// Mathematical model of a grid: its dimensions and its cells in row-major
/// order, so that the cell at column `x`, row `y` sits at index
/// `y * width + x`. Row 0 is the top of the grid; gravity pulls toward
/// larger `y`.
#[verifier::ext_equal]
pub struct GridModel {
    pub width: int,
    pub height: int,
    pub cells: Seq<Cell>,
}

impl GridModel {
    /// A model is well formed when both dimensions are at least 1 and the
    /// cell sequence covers the whole rectangle.
    pub open spec fn wf(self) -> bool {
        &&& 1 <= self.width
        &&& 1 <= self.height
        &&& self.cells.len() == self.width * self.height
    }

    /// Row-major index of the cell at column `x`, row `y`.
    pub open spec fn idx(self, x: int, y: int) -> int {
        y * self.width + x
    }

    /// Whether (`x`, `y`) lies inside the grid rectangle.
    pub open spec fn in_bounds(self, x: int, y: int) -> bool {
        0 <= x < self.width && 0 <= y < self.height
    }

    /// The cell at column `x`, row `y`.
    pub open spec fn at(self, x: int, y: int) -> Cell {
        self.cells[self.idx(x, y)]
    }

    /// The model with the cell at (`x`, `y`) replaced by `c`.
    pub open spec fn put(self, x: int, y: int, c: Cell) -> GridModel {
        GridModel { cells: self.cells.update(self.idx(x, y), c), ..self }
    }
}

/// A well-formed model's row-major indices lie inside its cell sequence.
pub proof fn lemma_idx_bounds(g: GridModel, x: int, y: int)
    requires
        g.wf(),
        g.in_bounds(x, y),
    ensures
        0 <= g.idx(x, y) < g.cells.len(),
        g.idx(x, y) < g.width * g.height,
{
    assert(0 <= y * g.width + x && y * g.width + x < g.width * g.height) by (nonlinear_arith)
        requires
            0 <= x < g.width,
            0 <= y < g.height,
    ;
}

/// Distinct coordinates have distinct row-major indices.
pub proof fn lemma_idx_injective(g: GridModel, x1: int, y1: int, x2: int, y2: int)
    requires
        g.wf(),
        g.in_bounds(x1, y1),
        g.in_bounds(x2, y2),
        g.idx(x1, y1) == g.idx(x2, y2),
    ensures
        x1 == x2 && y1 == y2,
{
    assert(x1 == x2 && y1 == y2) by (nonlinear_arith)
        requires
            0 <= x1 < g.width,
            0 <= y1 < g.height,
            0 <= x2 < g.width,
            0 <= y2 < g.height,
            y1 * g.width + x1 == y2 * g.width + x2,
    ;
}

/// Reading back from an updated model: the written cell holds the new value
/// and every other cell is unchanged.
pub broadcast proof fn lemma_put_at(g: GridModel, x: int, y: int, c: Cell, x2: int, y2: int)
    requires
        g.wf(),
        g.in_bounds(x, y),
        g.in_bounds(x2, y2),
    ensures
        #[trigger] g.put(x, y, c).at(x2, y2) == (if x2 == x && y2 == y {
            c
        } else {
            g.at(x2, y2)
        }),
{
    lemma_idx_bounds(g, x, y);
    lemma_idx_bounds(g, x2, y2);
    if g.idx(x, y) == g.idx(x2, y2) {
        lemma_idx_injective(g, x, y, x2, y2);
    }
}

/// Updating an in-bounds cell keeps the model well formed and keeps its
/// dimensions.
pub broadcast proof fn lemma_put_wf(g: GridModel, x: int, y: int, c: Cell)
    requires
        g.wf(),
        g.in_bounds(x, y),
    ensures
        (#[trigger] g.put(x, y, c)).wf(),
        g.put(x, y, c).width == g.width,
        g.put(x, y, c).height == g.height,
{
    lemma_idx_bounds(g, x, y);
}

/// The grid: a `width` x `height` rectangle of cells stored in row-major
/// order. Created once, all Empty, and then only mutated in place.
pub struct Grid {
    width: usize,
    height: usize,
    cells: Vec<Cell>,
}

impl View for Grid {
    type V = GridModel;

    closed spec fn view(&self) -> GridModel {
        GridModel { width: self.width as int, height: self.height as int, cells: self.cells@ }
    }
}

impl Grid {
    /// Allocate an all-Empty grid of the given dimensions.
    pub fn create(width: usize, height: usize) -> (g: Grid)
        requires
            1 <= width,
            1 <= height,
            width * height <= usize::MAX,
        ensures
            g@.wf(),
            g@.width == width,
            g@.height == height,
            forall|x: int, y: int| g@.in_bounds(x, y) ==> g@.at(x, y) == Cell::Empty,
    {
        let n: usize = width * height;
        let mut cells: Vec<Cell> = Vec::new();
        let mut i: usize = 0;
        while i < n
            invariant
                i <= n,
                cells@.len() == i,
                forall|j: int| 0 <= j < i ==> cells@[j] == Cell::Empty,
            decreases n - i,
        {
            cells.push(Cell::Empty);
            i = i + 1;
        }
        let g = Grid { width, height, cells };
        proof {
            assert forall|x: int, y: int| g@.in_bounds(x, y) implies g@.at(x, y)
                == Cell::Empty by {
                lemma_idx_bounds(g@, x, y);
            }
        }
        g
    }

    /// The grid's width in cells.
    pub fn width(&self) -> (w: usize)
        ensures
            w == self@.width,
    {
        self.width
    }

    /// The grid's height in cells.
    pub fn height(&self) -> (h: usize)
        ensures
            h == self@.height,
    {
        self.height
    }

    /// Read the cell at (`x`, `y`). Callers must stay in bounds.
    pub fn get(&self, x: usize, y: usize) -> (c: Cell)
        requires
            self@.wf(),
            self@.in_bounds(x as int, y as int),
        ensures
            c == self@.at(x as int, y as int),
    {
        let _n: usize = self.cells.len();
        proof {
            lemma_idx_bounds(self@, x as int, y as int);
        }
        self.cells[y * self.width + x]
    }

    /// Overwrite the cell at (`x`, `y`) unconditionally. Callers must stay
    /// in bounds.
    pub fn set(&mut self, x: usize, y: usize, c: Cell)
        requires
            old(self)@.wf(),
            old(self)@.in_bounds(x as int, y as int),
        ensures
            final(self)@ == old(self)@.put(x as int, y as int, c),
            final(self)@.wf(),
    {
        let _n: usize = self.cells.len();
        proof {
            lemma_idx_bounds(self@, x as int, y as int);
        }
        let i: usize = y * self.width + x;
        self.cells.set(i, c);
    }
}

} // verus!
