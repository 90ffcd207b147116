use vstd::prelude::*;
use vstd::arithmetic::div_mod::{lemma_fundamental_div_mod, lemma_fundamental_div_mod_converse};
use vstd::arithmetic::mul::{lemma_mul_inequality, lemma_mul_is_distributive_add_other_way};

verus! {

/// A block's place in the wall: its row (counted from the top) and its
/// column (counted from the left).
#[derive(Clone, Copy, Debug, PartialEq, Eq, Structural)]
pub struct GridCell {
    pub row: u32,
    pub col: u32,
}

/// The `k`-th block of a wall `cols` blocks wide, in the order in which the
/// wall is built: row by row from the top, each row from the left.
pub open spec fn grid_cell(cols: int, k: int) -> GridCell {
    GridCell { row: (k / cols) as u32, col: (k % cols) as u32 }
}

/// The whole wall of `rows` by `cols` blocks, in building order.
pub open spec fn grid(rows: u32, cols: u32) -> Seq<GridCell> {
    Seq::new((rows * cols) as nat, |k: int| grid_cell(cols as int, k))
}

/// Block `row * cols + col` of the building order sits at `(row, col)`.
proof fn lemma_cell_at(cols: int, row: int, col: int)
    requires
        cols > 0,
        0 <= row,
        0 <= col < cols,
    ensures
        (row * cols + col) / cols == row,
        (row * cols + col) % cols == col,
{
    lemma_fundamental_div_mod_converse(row * cols + col, cols, row, col);
}

/// The cells of the wall in the order the blocks are spawned.
pub fn block_grid(rows: u32, cols: u32) -> (cells: Vec<GridCell>)
    requires
        rows * cols <= usize::MAX,
    ensures
        cells@ == grid(rows, cols),
        cells.len() == rows * cols,
        forall|k: int|
            0 <= k < cells.len() ==> {
                &&& (#[trigger] cells@[k]).row < rows
                &&& cells@[k].col < cols
                &&& cells@[k].row * cols + cells@[k].col == k
            },
{
    let mut cells: Vec<GridCell> = Vec::new();
    let mut row: u32 = 0;
    while row < rows
        invariant
            row <= rows,
            rows * cols <= usize::MAX,
            cells@ =~= Seq::new((row * cols) as nat, |k: int| grid_cell(cols as int, k)),
        decreases rows - row,
    {
        proof {
            lemma_mul_inequality(row as int + 1, rows as int, cols as int);
            lemma_mul_is_distributive_add_other_way(cols as int, row as int, 1);
        }
        let mut col: u32 = 0;
        while col < cols
            invariant
                row < rows,
                col <= cols,
                (row + 1) * cols <= usize::MAX,
                (row + 1) * cols == row * cols + cols,
                cells@ =~= Seq::new((row * cols + col) as nat, |k: int| grid_cell(cols as int, k)),
            decreases cols - col,
        {
            proof {
                lemma_cell_at(cols as int, row as int, col as int);
            }
            cells.push(GridCell { row, col });
            col = col + 1;
        }
        row = row + 1;
    }
    proof {
        lemma_grid_row_major(rows, cols);
    }
    cells
}

/// The wall is built row by row from the top, each row from the left: it has
/// `rows * cols` blocks, and block number `k` sits at the row and column with
/// `row * cols + col == k` and `col < cols`, so block `row * cols + col` is
/// the one at `(row, col)`.
pub proof fn lemma_grid_row_major(rows: u32, cols: u32)
    ensures
        grid(rows, cols).len() == rows * cols,
        forall|k: int|
            0 <= k < grid(rows, cols).len() ==> {
                &&& (#[trigger] grid(rows, cols)[k]).row < rows
                &&& grid(rows, cols)[k].col < cols
                &&& grid(rows, cols)[k].row * cols + grid(rows, cols)[k].col == k
            },
{
    assert(0 <= rows * cols) by (nonlinear_arith);
    assert forall|k: int| 0 <= k < grid(rows, cols).len() implies {
        &&& (#[trigger] grid(rows, cols)[k]).row < rows
        &&& grid(rows, cols)[k].col < cols
        &&& grid(rows, cols)[k].row * cols + grid(rows, cols)[k].col == k
    } by {
        lemma_fundamental_div_mod(k, cols as int);
        if k / (cols as int) >= rows {
            lemma_mul_inequality(rows as int, k / (cols as int), cols as int);
        }
        assert((k / (cols as int)) * (cols as int) == (cols as int) * (k / (cols as int))) by (nonlinear_arith);
    }
}

/// The wall holds every cell of the `rows` by `cols` grid exactly once: each
/// position of the building order is a cell inside the grid, distinct
/// positions are distinct cells, and every cell of the grid is built.
pub proof fn lemma_grid_covers_each_cell_once(rows: u32, cols: u32)
    ensures
        forall|k: int|
            0 <= k < grid(rows, cols).len() ==> {
                &&& (#[trigger] grid(rows, cols)[k]).row < rows
                &&& grid(rows, cols)[k].col < cols
            },
        forall|j: int, k: int|
            0 <= j < grid(rows, cols).len() && 0 <= k < grid(rows, cols).len() && j != k
                ==> #[trigger] grid(rows, cols)[j] != #[trigger] grid(rows, cols)[k],
        forall|r: u32, c: u32|
            r < rows && c < cols ==> #[trigger] grid(rows, cols).contains(GridCell { row: r, col: c }),
{
    let cs = cols as int;
    assert forall|k: int| 0 <= k < grid(rows, cols).len() implies {
        &&& (#[trigger] grid(rows, cols)[k]).row < rows
        &&& grid(rows, cols)[k].col < cols
    } by {
        lemma_fundamental_div_mod(k, cs);
        if k / cs >= rows {
            lemma_mul_inequality(rows as int, k / cs, cs);
        }
    }
    assert forall|j: int, k: int|
        0 <= j < grid(rows, cols).len() && 0 <= k < grid(rows, cols).len() && j != k
        implies #[trigger] grid(rows, cols)[j] != #[trigger] grid(rows, cols)[k] by {
        lemma_fundamental_div_mod(j, cs);
        lemma_fundamental_div_mod(k, cs);
        if k / cs >= rows {
            lemma_mul_inequality(rows as int, k / cs, cs);
        }
        if j / cs >= rows {
            lemma_mul_inequality(rows as int, j / cs, cs);
        }
    }
    assert forall|r: u32, c: u32| r < rows && c < cols implies #[trigger] grid(rows, cols).contains(
        GridCell { row: r, col: c },
    ) by {
        let k = r * cols + c;
        lemma_cell_at(cs, r as int, c as int);
        lemma_mul_inequality(r + 1, rows as int, cs);
        lemma_mul_is_distributive_add_other_way(cs, r as int, 1);
        assert(0 <= r * cs) by (nonlinear_arith)
            requires
                0 <= r,
                0 <= cs,
        ;
        assert(0 <= k < grid(rows, cols).len());
        assert(grid(rows, cols)[k] == GridCell { row: r, col: c });
    }
}

} // verus!
