//! The evenly spaced grid in which the balls start. Balls fill the grid row
//! by row, left to right, until every ball has a cell or the grid is full.
use vstd::prelude::*;
use vstd::arithmetic::div_mod::{lemma_fundamental_div_mod, lemma_fundamental_div_mod_converse};
use vstd::arithmetic::mul::{lemma_mul_inequality, lemma_mul_is_distributive_add_other_way};

verus! {

/// A cell of the starting grid, counted from zero.
#[derive(Clone, Copy, Debug, PartialEq, Eq, Structural)]
pub struct GridSlot {
    pub row: usize,
    pub col: usize,
}

/// How many balls a grid of `rows` by `cols` cells receives out of `count`.
pub open spec fn balls_placed(count: int, rows: int, cols: int) -> int {
    if count <= rows * cols {
        count
    } else {
        rows * cols
    }
}

/// Row of the `k`-th ball in a grid `cols` cells wide, filled row by row.
pub open spec fn row_of(k: int, cols: int) -> int {
    k / cols
}

/// Column of the `k`-th ball in a grid `cols` cells wide, filled row by row.
pub open spec fn col_of(k: int, cols: int) -> int {
    k % cols
}

/// The cells of the first `count` balls in a grid of `rows` by `cols`
/// cells, in the order the balls are created: row by row, left to right,
/// stopping when every ball has a cell or the grid is full.
pub fn grid_slots(count: usize, rows: usize, cols: usize) -> (slots: Vec<GridSlot>)
    ensures
        slots.len() == balls_placed(count as int, rows as int, cols as int),
        count <= rows * cols ==> slots.len() == count,
        count > rows * cols ==> slots.len() == rows * cols,
        forall|k: int|
            0 <= k < slots.len() ==> slots[k].row == k / (cols as int) && slots[k].col == k % (cols as int),
        forall|k: int|
            0 <= k < slots.len() ==> {
                &&& #[trigger] slots[k].row == row_of(k, cols as int)
                &&& slots[k].col == col_of(k, cols as int)
                &&& slots[k].row < rows
                &&& slots[k].col < cols
            },
{
    let mut slots: Vec<GridSlot> = Vec::new();
    let mut created: usize = 0;
    let mut row: usize = 0;
    while row < rows && created < count
        invariant
            row <= rows,
            created <= count,
            created == slots.len(),
            created == balls_placed(count as int, row as int, cols as int),
            forall|k: int|
                0 <= k < slots.len() ==> {
                    &&& #[trigger] slots[k].row == row_of(k, cols as int)
                    &&& slots[k].col == col_of(k, cols as int)
                    &&& slots[k].row < rows
                    &&& slots[k].col < cols
                },
        decreases rows - row,
    {
        assert(created == row * cols) by {
            if count as int > row * cols {
            }
        }
        let mut col: usize = 0;
        while col < cols && created < count
            invariant
                row < rows,
                col <= cols,
                created <= count,
                created == slots.len(),
                created == row * cols + col,
                forall|k: int|
                    0 <= k < slots.len() ==> {
                        &&& #[trigger] slots[k].row == row_of(k, cols as int)
                        &&& slots[k].col == col_of(k, cols as int)
                        &&& slots[k].row < rows
                        &&& slots[k].col < cols
                    },
            decreases cols - col,
        {
            proof {
                lemma_fundamental_div_mod_converse(created as int, cols as int, row as int, col as int);
            }
            slots.push(GridSlot { row, col });
            created += 1;
            col += 1;
        }
        proof {
            lemma_mul_is_distributive_add_other_way(cols as int, row as int, 1);
            if created < count {
                assert(created == (row + 1) * cols);
            } else {
                lemma_mul_inequality(row as int, row as int + 1, cols as int);
            }
        }
        row += 1;
    }
    proof {
        if row < rows {
            lemma_mul_inequality(row as int, rows as int, cols as int);
        }
    }
    slots
}

/// Law: the grid receives every ball when it has room for them all, and is
/// filled completely otherwise.
pub proof fn lemma_balls_placed_is_min(count: int, rows: int, cols: int)
    ensures
        count <= rows * cols ==> balls_placed(count, rows, cols) == count,
        count > rows * cols ==> balls_placed(count, rows, cols) == rows * cols,
        balls_placed(count, rows, cols) <= count,
        balls_placed(count, rows, cols) <= rows * cols,
{
}

/// Law: ball `k` sits in row `k / cols` and column `k % cols`, so the cell
/// gives back the ball's index: `row * cols + col == k`.
pub proof fn lemma_cell_gives_back_index(k: int, cols: int)
    requires
        cols > 0,
        0 <= k,
    ensures
        row_of(k, cols) == k / cols,
        col_of(k, cols) == k % cols,
        row_of(k, cols) * cols + col_of(k, cols) == k,
        0 <= col_of(k, cols) < cols,
{
    lemma_fundamental_div_mod(k, cols);
    vstd::arithmetic::mul::lemma_mul_is_commutative(cols, k / cols);
    vstd::arithmetic::div_mod::lemma_mod_bound(k, cols);
}

/// Law: no two balls share a cell. In a grid at least one cell wide, distinct
/// creation indices give distinct cells.
pub proof fn lemma_cells_distinct(i: int, j: int, cols: int)
    requires
        cols > 0,
        0 <= i,
        0 <= j,
        i != j,
    ensures
        row_of(i, cols) != row_of(j, cols) || col_of(i, cols) != col_of(j, cols),
{
    lemma_fundamental_div_mod(i, cols);
    lemma_fundamental_div_mod(j, cols);
}

} // verus!
