//! One generation of the Game of Life, computed from a single snapshot of the
//! grid.
use vstd::prelude::*;
use crate::neighbours::{
    alive_neighbours, count_alive_neighbours, grid_shape_ok, lemma_dead_grid_counts_zero,
};

verus! {

/// The rule: a live cell survives with two or three live neighbours, a dead
/// cell comes alive with exactly three.
pub open spec fn next_state(alive: bool, neighbours: nat) -> bool {
    if alive {
        neighbours == 2 || neighbours == 3
    } else {
        neighbours == 3
    }
}

/// The state of cell `index` in the next generation of `g`.
pub open spec fn cell_next(g: Seq<bool>, index: int, l: int) -> bool {
    next_state(g[index], alive_neighbours(g, index, l))
}

/// The next generation of `g`: every cell follows the rule, read from `g`
/// alone.
pub open spec fn next_grid(g: Seq<bool>, l: int) -> Seq<bool> {
    Seq::new(g.len(), |i: int| cell_next(g, i, l))
}

/// Whether the cell at `index` is alive in the next generation.
pub fn square_state(index: usize, row_length: usize, matrix: &Vec<bool>) -> (r: bool)
    requires
        grid_shape_ok(matrix@, row_length as int),
        index < matrix@.len(),
    ensures
        r == cell_next(matrix@, index as int, row_length as int),
        matrix@[index as int] && (alive_neighbours(matrix@, index as int, row_length as int)
            == 2 || alive_neighbours(matrix@, index as int, row_length as int) == 3) ==> r,
        matrix@[index as int] && !(alive_neighbours(matrix@, index as int, row_length as int)
            == 2 || alive_neighbours(matrix@, index as int, row_length as int) == 3) ==> !r,
        !matrix@[index as int] ==> (r <==> alive_neighbours(
            matrix@,
            index as int,
            row_length as int,
        ) == 3),
{
    let current_state = matrix[index];
    let living_neighbour_count = count_alive_neighbours(index, row_length, matrix);
    if current_state {
        living_neighbour_count == 2 || living_neighbour_count == 3
    } else {
        living_neighbour_count == 3
    }
}

/// Builds the next generation of `matrix` as a new grid, each cell computed
/// from the unchanged input.
pub fn next_generation(matrix: &Vec<bool>, row_length: usize) -> (r: Vec<bool>)
    requires
        grid_shape_ok(matrix@, row_length as int),
    ensures
        r@ == next_grid(matrix@, row_length as int),
        grid_shape_ok(r@, row_length as int),
{
    let mut next: Vec<bool> = Vec::with_capacity(matrix.len());
    let mut i: usize = 0;
    while i < matrix.len()
        invariant
            grid_shape_ok(matrix@, row_length as int),
            i <= matrix@.len(),
            next@ =~= next_grid(matrix@, row_length as int).subrange(0, i as int),
        decreases matrix@.len() - i,
    {
        next.push(square_state(i, row_length, matrix));
        i = i + 1;
    }
    assert(next@ =~= next_grid(matrix@, row_length as int));
    next
}

/// A grid with no live cell stays without one.
pub proof fn lemma_dead_grid_stays_dead(g: Seq<bool>, l: int)
    requires
        grid_shape_ok(g, l),
        forall|i: int| 0 <= i < g.len() ==> !g[i],
    ensures
        forall|i: int| 0 <= i < g.len() ==> !(#[trigger] next_grid(g, l)[i]),
        next_grid(g, l) == g,
{
    assert forall|i: int| 0 <= i < g.len() implies !(#[trigger] next_grid(g, l)[i]) by {
        lemma_dead_grid_counts_zero(g, i - l, l, true);
        lemma_dead_grid_counts_zero(g, i, l, false);
        lemma_dead_grid_counts_zero(g, i + l, l, true);
    }
    assert(next_grid(g, l) =~= g);
}

} // verus!
