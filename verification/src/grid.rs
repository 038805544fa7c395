//! A fixed-size two-dimensional array of binary cells.  Dimensions are chosen
//! at construction and never change; the caller is responsible for handing in
//! coordinates that already lie inside the grid.

use vstd::prelude::*;
use crate::rules::Cell;

verus! {

/// Largest accepted grid dimension.  It keeps every coordinate within `i32`
/// and every flat cell index within `usize` on every target.
pub const MAX_DIM: usize = 0x7fff;

/// A `width` by `height` grid of cells, stored flat, column by column: the
/// cell `(x, y)` sits at index `x * height + y`.
pub struct Grid {
    pub width: usize,
    pub height: usize,
    pub cells: Vec<Cell>,
}

impl View for Grid {
    type V = Seq<Seq<Cell>>;

    /// The grid as a sequence of columns: `self@[x][y]` is the cell at
    /// `(x, y)`.
    open spec fn view(&self) -> Seq<Seq<Cell>> {
        Seq::new(
            self.width as nat,
            |x: int|
                Seq::new(
                    self.height as nat,
                    |y: int| self.cells@[x * (self.height as int) + y],
                ),
        )
    }
}

/// A coordinate pair inside a `w` by `h` grid yields a flat index inside the
/// grid's storage.
proof fn lemma_flat_index_in_bounds(x: int, y: int, w: int, h: int)
    requires
        0 <= x < w,
        0 <= y < h,
    ensures
        0 <= x * h + y < w * h,
{
    assert(0 <= x * h + y < w * h) by (nonlinear_arith)
        requires
            0 <= x < w,
            0 <= y < h,
    ;
}

/// Distinct coordinate pairs yield distinct flat indices.
proof fn lemma_flat_index_injective(x1: int, y1: int, x2: int, y2: int, h: int)
    requires
        0 <= y1 < h,
        0 <= y2 < h,
        x1 * h + y1 == x2 * h + y2,
    ensures
        x1 == x2,
        y1 == y2,
{
    assert(x1 == x2 && y1 == y2) by (nonlinear_arith)
        requires
            0 <= y1 < h,
            0 <= y2 < h,
            x1 * h + y1 == x2 * h + y2,
    ;
}

impl Grid {
    /// Grid invariant: positive dimensions within `MAX_DIM`, and storage of
    /// exactly `width * height` cells.
    pub open spec fn wf(&self) -> bool {
        &&& 1 <= self.width <= MAX_DIM
        &&& 1 <= self.height <= MAX_DIM
        &&& self.cells@.len() == self.width * self.height
    }

    /// A fresh grid with every cell White.
    pub fn new(width: usize, height: usize) -> (g: Grid)
        requires
            1 <= width <= MAX_DIM,
            1 <= height <= MAX_DIM,
        ensures
            g.wf(),
            g.width == width,
            g.height == height,
            forall|x: int, y: int|
                0 <= x < width && 0 <= y < height ==> g@[x][y] == Cell::White,
    {
        proof {
            assert(width * height <= 0x7fff * 0x7fff) by (nonlinear_arith)
                requires
                    width <= 0x7fff,
                    height <= 0x7fff,
            ;
        }
        let total: usize = width * height;
        let mut cells: Vec<Cell> = Vec::new();
        let mut i: usize = 0;
        while i < total
            invariant
                i <= total,
                cells@.len() == i,
                forall|k: int| 0 <= k < i ==> cells@[k] == Cell::White,
            decreases total - i,
        {
            cells.push(Cell::White);
            i = i + 1;
        }
        let g = Grid { width, height, cells };
        proof {
            assert forall|x: int, y: int|
                0 <= x < width && 0 <= y < height implies g@[x][y] == Cell::White by {
                lemma_flat_index_in_bounds(x, y, width as int, height as int);
            }
        }
        g
    }

    /// The cell at `(x, y)`; the coordinates must already lie inside the
    /// grid.
    pub fn get(&self, x: usize, y: usize) -> (c: Cell)
        requires
            self.wf(),
            x < self.width,
            y < self.height,
        ensures
            c == self@[x as int][y as int],
    {
        proof {
            lemma_flat_index_in_bounds(
                x as int,
                y as int,
                self.width as int,
                self.height as int,
            );
            assert((self.width as int) * (self.height as int) <= 0x7fff * 0x7fff)
                by (nonlinear_arith)
                requires
                    self.width <= 0x7fff,
                    self.height <= 0x7fff,
            ;
        }
        self.cells[x * self.height + y]
    }

    /// Overwrite the cell at `(x, y)` in place; every other cell and both
    /// dimensions are unchanged.
    pub fn set(&mut self, x: usize, y: usize, c: Cell)
        requires
            old(self).wf(),
            x < old(self).width,
            y < old(self).height,
        ensures
            final(self).wf(),
            final(self).width == old(self).width,
            final(self).height == old(self).height,
            final(self)@ == old(self)@.update(
                x as int,
                old(self)@[x as int].update(y as int, c),
            ),
    {
        proof {
            lemma_flat_index_in_bounds(
                x as int,
                y as int,
                self.width as int,
                self.height as int,
            );
            assert((self.width as int) * (self.height as int) <= 0x7fff * 0x7fff)
                by (nonlinear_arith)
                requires
                    self.width <= 0x7fff,
                    self.height <= 0x7fff,
            ;
        }
        let idx: usize = x * self.height + y;
        self.cells.set(idx, c);
        proof {
            let target = old(self)@.update(
                x as int,
                old(self)@[x as int].update(y as int, c),
            );
            let w = self.width as int;
            let h = self.height as int;
            assert forall|i: int, j: int|
                0 <= i < w && 0 <= j < h implies self@[i][j] == target[i][j] by {
                lemma_flat_index_in_bounds(i, j, w, h);
                if i * h + j == idx as int {
                    lemma_flat_index_injective(i, j, x as int, y as int, h);
                }
            }
            assert(self@ =~~= target);
        }
    }
}

} // verus!
