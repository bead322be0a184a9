//! The paint interface: turning a pointer's base cell into grid writes,
//! either a single write or a stochastic scatter of nearby writes.

use vstd::prelude::*;

use rand::Rng;

use crate::grid::Cell;
use crate::grid::Grid;
use crate::grid::lemma_put_at;
use crate::grid::lemma_put_wf;

verus! {

broadcast use lemma_put_at, lemma_put_wf;

/// Apply a one-cell offset to a coordinate; `None` when the result falls
/// outside `0..limit`.
fn offset_coord(base: usize, off: i8, limit: usize) -> (r: Option<usize>)
    requires
        -1 <= off as int <= 1,
    ensures
        r.is_some() ==> r.unwrap() as int == base + off as int && r.unwrap() < limit,
        r.is_none() ==> (base + (off as int) < 0 || base + (off as int) >= limit),
{
    if off < 0 {
        if base == 0 {
            None
        } else if base - 1 < limit {
            Some(base - 1)
        } else {
            None
        }
    } else if off > 0 {
        if base >= limit {
            None
        } else if base + 1 < limit {
            Some(base + 1)
        } else {
            None
        }
    } else {
        if base < limit {
            Some(base)
        } else {
            None
        }
    }
}

/// Relies on rand::thread_rng and rand::Rng::gen_range: sampling the
/// non-empty inclusive range -1..=1 returns a value of that range.
#[verifier::external_body]
fn random_offset() -> (r: i8)
    ensures
        -1 <= r as int <= 1,
{
    rand::thread_rng().gen_range(-1i8..=1i8)
}

impl Grid {
    /// One paint attempt: write `material` at the base cell displaced by
    /// (`dx`, `dy`), or do nothing when that lands outside the grid.
    pub fn paint_at(&mut self, gx: usize, gy: usize, dx: i8, dy: i8, material: Cell)
        requires
            old(self)@.wf(),
            -1 <= dx as int <= 1,
            -1 <= dy as int <= 1,
        ensures
            final(self)@.wf(),
            final(self)@.width == old(self)@.width,
            final(self)@.height == old(self)@.height,
            old(self)@.in_bounds(gx + dx as int, gy + dy as int) ==> final(self)@ == old(
                self,
            )@.put(gx + dx as int, gy + dy as int, material),
            !old(self)@.in_bounds(gx + dx as int, gy + dy as int) ==> final(self)@ == old(self)@,
    {
        let w = self.width();
        let h = self.height();
        let tx = match offset_coord(gx, dx, w) {
            Some(v) => v,
            None => {
                return;
            },
        };
        let ty = match offset_coord(gy, dy, h) {
            Some(v) => v,
            None => {
                return;
            },
        };
        self.set(tx, ty, material);
    }

    /// Apply one paint action whose base cell is (`gx`, `gy`).
    ///
    /// With `particle_count == 1`, exactly the base cell is written, or
    /// nothing when it lies off-grid (a silent no-op, not an error). With
    /// any other count, each of `particle_count` attempts draws an
    /// independent random offset in -1..=1 for each axis and writes the
    /// material there when in bounds; off-grid attempts are skipped.
    /// Writes overwrite whatever the cell held.
    pub fn paint(&mut self, gx: usize, gy: usize, material: Cell, particle_count: usize)
        requires
            old(self)@.wf(),
        ensures
            final(self)@.wf(),
            final(self)@.width == old(self)@.width,
            final(self)@.height == old(self)@.height,
            // only cells within one step of the base change, and only to the material
            forall|x: int, y: int|
                final(self)@.in_bounds(x, y) && final(self)@.at(x, y) != old(self)@.at(x, y)
                    ==> final(self)@.at(x, y) == material && gx - 1 <= x <= gx + 1 && gy - 1 <= y
                    <= gy + 1,
            // simple mode writes exactly the base cell, or nothing off-grid
            particle_count == 1 && old(self)@.in_bounds(gx as int, gy as int) ==> final(self)@
                == old(self)@.put(gx as int, gy as int, material),
            particle_count == 1 && !old(self)@.in_bounds(gx as int, gy as int) ==> final(self)@
                == old(self)@,
            particle_count == 0 ==> final(self)@ == old(self)@,
            // scatter around an interior base always deposits the material somewhere
            particle_count >= 1 && 1 <= gx && gx + 1 < old(self)@.width && 1 <= gy && gy + 1 < old(
                self,
            )@.height ==> exists|x: int, y: int|
                gx - 1 <= x <= gx + 1 && gy - 1 <= y <= gy + 1 && #[trigger] final(self)@.at(x, y)
                    == material,
    {
        let w = self.width();
        let h = self.height();
        if particle_count == 1 {
            if gx < w && gy < h {
                self.set(gx, gy, material);
                proof {
                    assert(self@.at(gx as int, gy as int) == material);
                }
            }
            return;
        }
        let ghost g0 = self@;
        let mut i: usize = 0;
        while i < particle_count
            invariant
                g0.wf(),
                self@.wf(),
                self@.width == g0.width,
                self@.height == g0.height,
                i <= particle_count,
                i == 0 ==> self@ == g0,
                forall|x: int, y: int|
                    self@.in_bounds(x, y) && self@.at(x, y) != g0.at(x, y) ==> self@.at(x, y)
                        == material && gx - 1 <= x <= gx + 1 && gy - 1 <= y <= gy + 1,
                i >= 1 && 1 <= gx && gx + 1 < g0.width && 1 <= gy && gy + 1 < g0.height
                    ==> exists|x: int, y: int|
                    gx - 1 <= x <= gx + 1 && gy - 1 <= y <= gy + 1 && #[trigger] self@.at(x, y)
                        == material,
            decreases particle_count - i,
        {
            let dx = random_offset();
            let dy = random_offset();
            self.paint_at(gx, gy, dx, dy, material);
            proof {
                if 1 <= gx && gx + 1 < g0.width && 1 <= gy && gy + 1 < g0.height {
                    assert(self@.at(gx + dx as int, gy + dy as int) == material);
                }
            }
            i = i + 1;
        }
    }
}

} // verus!
