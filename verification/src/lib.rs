//! One-generation transition of Conway's Game of Life on a rectangular,
//! possibly jagged, grid of boolean cells (alive = true, dead = false).
//!
//! A board is an ordered sequence of rows, each row an ordered sequence of
//! cells; rows may have different lengths, and a board of zero rows or a row
//! of zero cells is valid. The only operation is `next_state`, which applies
//! the standard survive/birth/death rule to every cell at once and returns a
//! fresh board of identical dimensions.

use vstd::prelude::*;

verus! {

/// Whether the cell at `(r, c)` exists in `grid` and is alive.
/// Coordinates outside the grid (including columns beyond a short row of a
/// jagged grid) count as dead, which is what makes the neighbor count below
/// edge-aware without any clamping in the model.
pub open spec fn cell_alive(grid: Seq<Seq<bool>>, r: int, c: int) -> bool {
    0 <= r < grid.len() && 0 <= c < grid[r].len() && grid[r][c]
}

/// A live cell contributes one to a neighbor count, a dead cell nothing.
pub open spec fn count_cell(alive: bool) -> nat {
    if alive {
        1
    } else {
        0
    }
}

/// The number of live cells among the (up to) eight cells immediately
/// surrounding `(row, col)`: the Moore neighborhood, non-toroidal. The center
/// cell itself is excluded; neighbors that fall outside the grid are dead.
pub open spec fn live_neighbor_count(grid: Seq<Seq<bool>>, row: int, col: int) -> nat {
    count_cell(cell_alive(grid, row - 1, col - 1)) + count_cell(cell_alive(grid, row - 1, col))
        + count_cell(cell_alive(grid, row - 1, col + 1)) + count_cell(
        cell_alive(grid, row, col - 1),
    ) + count_cell(cell_alive(grid, row, col + 1)) + count_cell(
        cell_alive(grid, row + 1, col - 1),
    ) + count_cell(cell_alive(grid, row + 1, col)) + count_cell(cell_alive(grid, row + 1, col + 1))
}

/// The transition rule: a live cell with exactly two or three live neighbors
/// survives, a dead cell with exactly three live neighbors is born, and every
/// other combination yields a dead cell. The grouping is deliberately
/// `(alive && n == 2) || n == 3`, not `alive && (n == 2 || n == 3)`.
pub open spec fn alive_next(currently_alive: bool, living_neighbor_count: nat) -> bool {
    currently_alive && living_neighbor_count == 2 || living_neighbor_count == 3
}

/// The whole next generation: a grid of identical dimensions whose cell
/// `(r, c)` is the transition rule applied to the old cell `(r, c)` and its
/// live-neighbor count in the old grid.
pub open spec fn next_grid(grid: Seq<Seq<bool>>) -> Seq<Seq<bool>> {
    Seq::new(
        grid.len(),
        |r: int|
            Seq::new(
                grid[r].len(),
                |c: int| alive_next(grid[r][c], live_neighbor_count(grid, r, c)),
            ),
    )
}

/// A generation snapshot: an immutable grid of alive/dead cells. `next_state`
/// never mutates the receiver; it returns a new board.
#[derive(Debug)]
pub struct GameOfLife(Vec<Vec<bool>>);

impl View for GameOfLife {
    type V = Seq<Seq<bool>>;

    closed spec fn view(&self) -> Seq<Seq<bool>> {
        self.0.deep_view()
    }
}

/// The executable transition rule, identical to the spec-level `alive_next`.
pub fn is_alive_next(currently_alive: bool, living_neighbor_count: usize) -> (alive: bool)
    ensures
        alive == alive_next(currently_alive, living_neighbor_count as nat),
{
    currently_alive && living_neighbor_count == 2 || living_neighbor_count == 3
}

impl GameOfLife {
    /// Constructs a board from a row-major grid: the outer vector holds the
    /// rows, each inner vector the cells of one row. Rows may differ in
    /// length.
    pub fn new(grid: Vec<Vec<bool>>) -> (board: GameOfLife)
        ensures
            board@ == grid.deep_view(),
    {
        GameOfLife(grid)
    }

    /// Read-only access to the row/column cell data.
    pub fn current_state(&self) -> (state: &Vec<Vec<bool>>)
        ensures
            state.deep_view() == self@,
    {
        let GameOfLife(state) = self;
        state
    }

    /// Whether the cell at `(r, c)` exists and is alive; false for any
    /// coordinates outside the grid.
    fn cell_is_alive(&self, r: usize, c: usize) -> (alive: bool)
        ensures
            alive == cell_alive(self@, r as int, c as int),
    {
        r < self.0.len() && c < self.0[r].len() && self.0[r][c]
    }

    /// Counts the live cells among the (up to) eight cells surrounding the
    /// cell at `(row_num, col_num)` of the current grid. The center cell is
    /// excluded, and in a jagged grid each neighbor row is probed only up to
    /// its own length.
    pub fn count_living_neighbors(&self, row_num: usize, col_num: usize) -> (count: usize)
        requires
            row_num < self@.len(),
            col_num < self@[row_num as int].len(),
        ensures
            count == live_neighbor_count(self@, row_num as int, col_num as int),
    {
        // Both lengths fit in usize, so `row_num + 1` and `col_num + 1` below
        // cannot overflow: the coordinates are strictly below these lengths.
        let num_rows: usize = self.0.len();
        let row_len: usize = self.0[row_num].len();
        let mut count: usize = 0;
        if row_num > 0 {
            if col_num > 0 && self.cell_is_alive(row_num - 1, col_num - 1) {
                count += 1;
            }
            if self.cell_is_alive(row_num - 1, col_num) {
                count += 1;
            }
            if self.cell_is_alive(row_num - 1, col_num + 1) {
                count += 1;
            }
        }
        if col_num > 0 && self.cell_is_alive(row_num, col_num - 1) {
            count += 1;
        }
        if self.cell_is_alive(row_num, col_num + 1) {
            count += 1;
        }
        if col_num > 0 && self.cell_is_alive(row_num + 1, col_num - 1) {
            count += 1;
        }
        if self.cell_is_alive(row_num + 1, col_num) {
            count += 1;
        }
        if self.cell_is_alive(row_num + 1, col_num + 1) {
            count += 1;
        }
        count
    }

    /// Computes and returns the successor generation: a fresh board of
    /// identical dimensions whose every cell is the transition rule applied
    /// to the corresponding cell of `self` and its live-neighbor count.
    pub fn next_state(&self) -> (next: GameOfLife)
        ensures
            next@ == next_grid(self@),
    {
        let num_rows: usize = self.0.len();
        let mut new_grid: Vec<Vec<bool>> = Vec::new();
        for row_num in 0..num_rows
            invariant
                num_rows == self@.len(),
                new_grid@.len() == row_num,
                forall|i: int|
                    0 <= i < row_num ==> new_grid@[i].deep_view() == next_grid(self@)[i],
        {
            let row_len: usize = self.0[row_num].len();
            let mut new_row: Vec<bool> = Vec::new();
            for col_num in 0..row_len
                invariant
                    row_num < self@.len(),
                    row_len == self@[row_num as int].len(),
                    new_row@.len() == col_num,
                    forall|j: int|
                        0 <= j < col_num ==> new_row@[j] == next_grid(self@)[row_num as int][j],
            {
                let living_neighbor_count: usize = self.count_living_neighbors(row_num, col_num);
                let currently_alive: bool = self.0[row_num][col_num];
                new_row.push(is_alive_next(currently_alive, living_neighbor_count));
            }
            proof {
                assert(new_row.deep_view() =~= next_grid(self@)[row_num as int]);
            }
            new_grid.push(new_row);
        }
        let next = GameOfLife(new_grid);
        proof {
            assert(next@ =~~= next_grid(self@));
        }
        next
    }
}

impl vstd::std_specs::cmp::PartialEqSpecImpl for GameOfLife {
    open spec fn obeys_eq_spec() -> bool {
        true
    }

    open spec fn eq_spec(&self, other: &GameOfLife) -> bool {
        self@ == other@
    }
}

impl PartialEq for GameOfLife {
    /// Structural value equality: same number of rows and, for each row
    /// index, the same sequence of boolean cells.
    fn eq(&self, other: &GameOfLife) -> (r: bool) {
        let num_rows: usize = self.0.len();
        if num_rows != other.0.len() {
            return false;
        }
        for row_num in 0..num_rows
            invariant
                num_rows == self@.len(),
                num_rows == other@.len(),
                forall|i: int| 0 <= i < row_num ==> self@[i] == other@[i],
        {
            let row_len: usize = self.0[row_num].len();
            if row_len != other.0[row_num].len() {
                proof {
                    assert(self@[row_num as int].len() != other@[row_num as int].len());
                }
                return false;
            }
            for col_num in 0..row_len
                invariant
                    row_num < self@.len(),
                    row_num < other@.len(),
                    row_len == self@[row_num as int].len(),
                    row_len == other@[row_num as int].len(),
                    forall|j: int|
                        0 <= j < col_num ==> self@[row_num as int][j] == other@[row_num as int][j],
            {
                if self.0[row_num][col_num] != other.0[row_num][col_num] {
                    proof {
                        let r: int = row_num as int;
                        let c: int = col_num as int;
                        assert(self@[r][c] != other@[r][c]);
                    }
                    return false;
                }
            }
            proof {
                assert(self@[row_num as int] =~= other@[row_num as int]);
            }
        }
        proof {
            assert(self@ =~~= other@);
        }
        true
    }
}

/// The next generation always has the same number of rows as the current one,
/// and each of its rows has the same length as the corresponding current row.
pub proof fn lemma_next_preserves_dimensions(grid: Seq<Seq<bool>>)
    ensures
        next_grid(grid).len() == grid.len(),
        forall|r: int| 0 <= r < grid.len() ==> #[trigger] next_grid(grid)[r].len() == grid[r].len(),
{
}

/// A board of zero rows is a fixed point of the transition.
pub proof fn lemma_empty_board_is_fixed_point(grid: Seq<Seq<bool>>)
    requires
        grid.len() == 0,
    ensures
        next_grid(grid) == grid,
{
    assert(next_grid(grid) =~~= grid);
}

/// A board on which every cell is dead is a fixed point of the transition:
/// no cell has a live neighbor, and a dead cell with zero live neighbors
/// stays dead.
pub proof fn lemma_all_dead_board_is_fixed_point(grid: Seq<Seq<bool>>)
    requires
        forall|r: int, c: int|
            0 <= r < grid.len() && 0 <= c < grid[r].len() ==> !(#[trigger] grid[r][c]),
    ensures
        next_grid(grid) == grid,
{
    assert forall|r: int, c: int| !cell_alive(grid, r, c) by {
        if 0 <= r < grid.len() && 0 <= c < grid[r].len() {
            assert(!grid[r][c]);
        }
    }
    assert(next_grid(grid) =~~= grid);
}

/// Locality: the next state of the cell at `(row, col)` depends only on the
/// 3-by-3 neighborhood centered there. Two boards that agree on that
/// neighborhood — on which of its cells exist and are alive — give the cell
/// the same next state, whatever their cells further away hold.
pub proof fn lemma_next_cell_is_local(g1: Seq<Seq<bool>>, g2: Seq<Seq<bool>>, row: int, col: int)
    requires
        0 <= row < g1.len(),
        0 <= col < g1[row].len(),
        0 <= row < g2.len(),
        0 <= col < g2[row].len(),
        forall|r: int, c: int|
            row - 1 <= r <= row + 1 && col - 1 <= c <= col + 1 ==> #[trigger] cell_alive(g1, r, c)
                == cell_alive(g2, r, c),
    ensures
        next_grid(g1)[row][col] == next_grid(g2)[row][col],
{
    assert(g1[row][col] == g2[row][col]) by {
        assert(cell_alive(g1, row, col) == cell_alive(g2, row, col));
    }
    assert(live_neighbor_count(g1, row, col) == live_neighbor_count(g2, row, col));
}

} // verus!
