//! The single owner of a grid: it is read for display, changed one cell at a
//! time, and replaced wholesale by the next generation.
use vstd::prelude::*;
use crate::neighbours::grid_shape_ok;
use crate::step::{next_generation, next_grid};

verus! {

/// A square grid of `row_length * row_length` cells, stored row by row.
pub struct Grid {
    cells: Vec<bool>,
    row_length: usize,
}

impl View for Grid {
    type V = Seq<bool>;

    closed spec fn view(&self) -> Seq<bool> {
        self.cells@
    }
}

impl Grid {
    /// Cells per row.
    pub closed spec fn spec_row_length(&self) -> int {
        self.row_length as int
    }

    /// The row length is positive and the cells fill whole rows.
    pub open spec fn wf(&self) -> bool {
        grid_shape_ok(self@, self.spec_row_length())
    }

    /// A grid of `row_length` rows of `row_length` dead cells.
    pub fn new(row_length: usize) -> (g: Grid)
        requires
            row_length > 0,
            row_length * row_length <= usize::MAX,
        ensures
            g.wf(),
            g.spec_row_length() == row_length,
            g@ == Seq::new((row_length * row_length) as nat, |i: int| false),
    {
        let n: usize = row_length * row_length;
        let mut cells: Vec<bool> = Vec::with_capacity(n);
        let mut i: usize = 0;
        while i < n
            invariant
                i <= n,
                cells@ =~= Seq::new(i as nat, |k: int| false),
            decreases n - i,
        {
            cells.push(false);
            i = i + 1;
        }
        proof {
            vstd::arithmetic::div_mod::lemma_mod_multiples_basic(
                row_length as int,
                row_length as int,
            );
        }
        Grid { cells, row_length }
    }

    /// Cells per row.
    pub fn row_length(&self) -> (r: usize)
        ensures
            r == self.spec_row_length(),
    {
        self.row_length
    }

    /// The cells, row by row.
    pub fn read(&self) -> (r: &Vec<bool>)
        ensures
            r@ == self@,
    {
        &self.cells
    }

    /// Flips the cell at `index` and returns true; an index outside the grid
    /// changes nothing and returns false.
    pub fn toggle(&mut self, index: usize) -> (flipped: bool)
        requires
            old(self).wf(),
        ensures
            final(self).wf(),
            flipped == (index < old(self)@.len()),
            final(self).spec_row_length() == old(self).spec_row_length(),
            flipped ==> final(self)@ == old(self)@.update(index as int, !old(self)@[index as int]),
            !flipped ==> final(self)@ == old(self)@,
    {
        if index >= self.cells.len() {
            return false;
        }
        let alive = self.cells[index];
        self.cells.set(index, !alive);
        true
    }

    /// Replaces the cells by their next generation.
    pub fn advance(&mut self)
        requires
            old(self).wf(),
        ensures
            final(self).wf(),
            final(self).spec_row_length() == old(self).spec_row_length(),
            final(self)@ == next_grid(old(self)@, old(self).spec_row_length()),
    {
        self.cells = next_generation(&self.cells, self.row_length);
    }
}

} // verus!
