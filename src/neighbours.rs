//! Counting live cells in the horizontal window around a cell, clamped to
//! the cell's own row.
use vstd::prelude::*;

verus! {

/// Number of live cells in `s`.
pub open spec fn live_count(s: Seq<bool>) -> nat
    decreases s.len(),
{
    if s.len() == 0 {
        0
    } else {
        live_count(s.drop_last()) + if s.last() { 1nat } else { 0nat }
    }
}

/// A grid of `l` cells per row: `l` is positive and the length is a whole
/// number of rows.
pub open spec fn grid_shape_ok(g: Seq<bool>, l: int) -> bool {
    l > 0 && (g.len() as int) % l == 0
}

/// First index of the window around `index`: the cell to its left, unless
/// `index` opens its row.
pub open spec fn window_lo(index: int, l: int) -> int {
    if index % l == 0 {
        index
    } else {
        index - 1
    }
}

/// One past the last index of the window around `index`: the cell to its
/// right is included, unless `index` closes its row.
pub open spec fn window_hi(index: int, l: int) -> int {
    if (index + 1) % l == 0 {
        index + 1
    } else {
        index + 2
    }
}

/// Live cells among `index` and its left and right neighbours in the same
/// row; `index` itself is left out unless `include_center` (the window always
/// holds `index`, so a live cell there has made the count positive). A
/// position outside the grid has no live cells around it.
pub open spec fn count_in_row(g: Seq<bool>, index: int, l: int, include_center: bool) -> nat {
    if index < 0 || index >= g.len() {
        0
    } else {
        let raw = live_count(g.subrange(window_lo(index, l), window_hi(index, l)));
        if !include_center && g[index] && raw > 0 {
            (raw - 1) as nat
        } else {
            raw
        }
    }
}

/// A live cell in `s` makes the count positive.
pub proof fn lemma_live_count_positive(s: Seq<bool>, k: int)
    requires
        0 <= k < s.len(),
        s[k],
    ensures
        live_count(s) >= 1,
    decreases s.len(),
{
    if k < s.len() - 1 {
        lemma_live_count_positive(s.drop_last(), k);
    }
}

/// The window around a cell of the grid lies inside the grid and its row,
/// and holds the cell itself.
pub proof fn lemma_window_in_grid(g: Seq<bool>, index: int, l: int)
    requires
        grid_shape_ok(g, l),
        0 <= index < g.len(),
    ensures
        0 <= window_lo(index, l) <= index < window_hi(index, l) <= g.len(),
{
    if index == 0 {
        assert(0int % l == 0) by (nonlinear_arith)
            requires l > 0;
    }
    if (index + 1) % l != 0 {
        assert(index + 1 != g.len());
    }
}

/// Counts the live cells in the row window around `index` (see
/// `count_in_row`); with `should_count_center` false the cell itself is not
/// counted.
pub fn count_left_right(
    index: usize,
    row_length: usize,
    matrix: &Vec<bool>,
    should_count_center: bool,
) -> (r: usize)
    requires
        grid_shape_ok(matrix@, row_length as int),
    ensures
        r == count_in_row(matrix@, index as int, row_length as int, should_count_center),
{
    if index >= matrix.len() {
        return 0;
    }
    proof {
        lemma_window_in_grid(matrix@, index as int, row_length as int);
    }
    let left_index: usize = if index % row_length == 0 {
        // at the start of a row: do not reach back into the row above
        index
    } else {
        index - 1
    };
    let right_index: usize = if (index + 1) % row_length == 0 {
        // at the end of a row: do not reach into the row below
        index + 1
    } else {
        index + 2
    };
    let mut count: usize = 0;
    let mut j: usize = left_index;
    while j < right_index
        invariant
            left_index <= j <= right_index <= matrix@.len(),
            left_index == window_lo(index as int, row_length as int),
            right_index == window_hi(index as int, row_length as int),
            count == live_count(matrix@.subrange(left_index as int, j as int)),
            count <= j - left_index,
        decreases right_index - j,
    {
        proof {
            assert(matrix@.subrange(left_index as int, j + 1).drop_last()
                =~= matrix@.subrange(left_index as int, j as int));
        }
        if matrix[j] {
            count = count + 1;
        }
        j = j + 1;
    }
    if !should_count_center && matrix[index] && count > 0 {
        return count - 1;
    }
    proof {
        if !should_count_center && matrix@[index as int] {
            lemma_live_count_positive(
                matrix@.subrange(left_index as int, right_index as int),
                index - left_index,
            );
        }
    }
    count
}

/// Live neighbours of `index` in the 3x3 block around it: the row windows
/// above and below with their middle cell, and the cell's own row window
/// without it. The grid does not wrap at its edges.
pub open spec fn alive_neighbours(g: Seq<bool>, index: int, l: int) -> nat {
    (if index >= l { count_in_row(g, index - l, l, true) } else { 0 })
        + count_in_row(g, index, l, false)
        + count_in_row(g, index + l, l, true)
}

/// A row window holds at most three cells.
pub proof fn lemma_count_in_row_bound(g: Seq<bool>, index: int, l: int, include_center: bool)
    requires
        grid_shape_ok(g, l),
    ensures
        count_in_row(g, index, l, include_center) <= 3,
{
    if 0 <= index < g.len() {
        lemma_window_in_grid(g, index, l);
        let s = g.subrange(window_lo(index, l), window_hi(index, l));
        assert(s.len() <= 3);
        lemma_live_count_bound(s);
    }
}

/// A count never exceeds the length.
pub proof fn lemma_live_count_bound(s: Seq<bool>)
    ensures
        live_count(s) <= s.len(),
    decreases s.len(),
{
    if s.len() > 0 {
        lemma_live_count_bound(s.drop_last());
    }
}

/// Counts the live neighbours of `index` (see `alive_neighbours`).
pub fn count_alive_neighbours(index: usize, row_length: usize, matrix: &Vec<bool>) -> (r: usize)
    requires
        grid_shape_ok(matrix@, row_length as int),
    ensures
        r == alive_neighbours(matrix@, index as int, row_length as int),
{
    proof {
        lemma_count_in_row_bound(matrix@, index - row_length, row_length as int, true);
        lemma_count_in_row_bound(matrix@, index as int, row_length as int, false);
        lemma_count_in_row_bound(matrix@, index + row_length, row_length as int, true);
    }
    let row_above: usize = if index >= row_length {
        count_left_right(index - row_length, row_length, matrix, true)
    } else {
        0
    };
    let center = count_left_right(index, row_length, matrix, false);
    // a row below that starts past the end of the grid holds no live cells
    let bottom: usize = if index < matrix.len() && matrix.len() - index > row_length {
        count_left_right(index + row_length, row_length, matrix, true)
    } else {
        0
    };
    center + bottom + row_above
}

/// On a grid with no live cell every row window counts zero.
pub proof fn lemma_dead_grid_counts_zero(g: Seq<bool>, index: int, l: int, include_center: bool)
    requires
        grid_shape_ok(g, l),
        forall|i: int| 0 <= i < g.len() ==> !g[i],
    ensures
        count_in_row(g, index, l, include_center) == 0,
{
    if 0 <= index < g.len() {
        lemma_window_in_grid(g, index, l);
        lemma_live_count_none(g.subrange(window_lo(index, l), window_hi(index, l)));
    }
}

/// A sequence with no live cell counts zero.
pub proof fn lemma_live_count_none(s: Seq<bool>)
    requires
        forall|i: int| 0 <= i < s.len() ==> !s[i],
    ensures
        live_count(s) == 0,
    decreases s.len(),
{
    if s.len() > 0 {
        lemma_live_count_none(s.drop_last());
    }
}

/// A cell that opens its row never sees the last cell of the row before: the
/// count is the same whatever that cell holds.
pub proof fn lemma_row_start_ignores_previous_cell(
    g: Seq<bool>,
    index: int,
    l: int,
    include_center: bool,
    v: bool,
)
    requires
        grid_shape_ok(g, l),
        index % l == 0,
        1 <= index <= g.len(),
    ensures
        count_in_row(g.update(index - 1, v), index, l, include_center)
            == count_in_row(g, index, l, include_center),
{
    let h = g.update(index - 1, v);
    if index < g.len() {
        lemma_window_in_grid(g, index, l);
        assert(h.subrange(window_lo(index, l), window_hi(index, l))
            =~= g.subrange(window_lo(index, l), window_hi(index, l)));
    }
}

/// Leaving the cell out lowers the count by one exactly when the cell is
/// alive.
pub proof fn lemma_center_adjustment(g: Seq<bool>, index: int, l: int)
    requires
        grid_shape_ok(g, l),
        0 <= index < g.len(),
    ensures
        count_in_row(g, index, l, true) == count_in_row(g, index, l, false) + if g[index] {
            1nat
        } else {
            0nat
        },
{
    lemma_window_in_grid(g, index, l);
    if g[index] {
        lemma_live_count_positive(
            g.subrange(window_lo(index, l), window_hi(index, l)),
            index - window_lo(index, l),
        );
    }
}

} // verus!
