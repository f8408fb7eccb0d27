//! One tick of the whole forest: every cell's next state, computed from the
//! old grid alone.

use vstd::prelude::*;

use crate::sim::random::{draws, spec_draws};
use crate::sim::rules::{next_cell, spec_next_cell, Neighborhood};
use crate::sim::{CellState, SimulationParameters};
use crate::util::{lemma_row_major, lemma_row_major_inverse, row_major};

verus! {

/// Whether `(x, y)` is a cell of the grid.
pub open spec fn in_grid(width: int, height: int, x: int, y: int) -> bool {
    0 <= x < width && 0 <= y < height
}

/// One if `(x, y)` is a cell of the grid and burns, else zero.
pub open spec fn fire_at(grid: Seq<CellState>, width: int, height: int, x: int, y: int) -> int {
    if in_grid(width, height, x, y) && grid[row_major(width, x, y)].spec_is_burning() {
        1
    } else {
        0
    }
}

/// One if `(x, y)` is a cell of the grid and holds a tree, else zero.
pub open spec fn tree_at(grid: Seq<CellState>, width: int, height: int, x: int, y: int) -> int {
    if in_grid(width, height, x, y) && grid[row_major(width, x, y)].tree {
        1
    } else {
        0
    }
}

/// How many of the eight cells around `(x, y)` burn. Positions beyond the
/// edge count as nothing.
pub open spec fn fires_around(grid: Seq<CellState>, width: int, height: int, x: int, y: int) -> int {
    fire_at(grid, width, height, x - 1, y - 1) + fire_at(grid, width, height, x, y - 1) + fire_at(
        grid,
        width,
        height,
        x + 1,
        y - 1,
    ) + fire_at(grid, width, height, x - 1, y) + fire_at(grid, width, height, x + 1, y) + fire_at(
        grid,
        width,
        height,
        x - 1,
        y + 1,
    ) + fire_at(grid, width, height, x, y + 1) + fire_at(grid, width, height, x + 1, y + 1)
}

/// How many of the eight cells around `(x, y)` hold a tree.
pub open spec fn trees_around(grid: Seq<CellState>, width: int, height: int, x: int, y: int) -> int {
    tree_at(grid, width, height, x - 1, y - 1) + tree_at(grid, width, height, x, y - 1) + tree_at(
        grid,
        width,
        height,
        x + 1,
        y - 1,
    ) + tree_at(grid, width, height, x - 1, y) + tree_at(grid, width, height, x + 1, y) + tree_at(
        grid,
        width,
        height,
        x - 1,
        y + 1,
    ) + tree_at(grid, width, height, x, y + 1) + tree_at(grid, width, height, x + 1, y + 1)
}

/// What the cell at place `i` sees of its neighbours.
pub open spec fn spec_neighborhood(grid: Seq<CellState>, width: int, height: int, i: int) -> Neighborhood {
    Neighborhood {
        fires: fires_around(grid, width, height, i % width, i / width) as u32,
        trees: trees_around(grid, width, height, i % width, i / width) as u32,
    }
}

/// The cell at place `i` after tick number `step`.
pub open spec fn spec_step_cell(
    grid: Seq<CellState>,
    width: int,
    height: int,
    params: SimulationParameters,
    step: u32,
    i: int,
) -> CellState {
    spec_next_cell(
        grid[i],
        spec_neighborhood(grid, width, height, i),
        params,
        grid.len() as int,
        spec_draws(i as u32, step),
    )
}

/// The grid after tick number `step`.
pub open spec fn spec_step_grid(
    grid: Seq<CellState>,
    width: int,
    height: int,
    params: SimulationParameters,
    step: u32,
) -> Seq<CellState> {
    Seq::new(grid.len(), |i: int| spec_step_cell(grid, width, height, params, step, i))
}

/// Every cell of the grid is well-formed.
pub open spec fn cells_wf(grid: Seq<CellState>) -> bool {
    forall|i: int| 0 <= i < grid.len() ==> (#[trigger] grid[i]).wf()
}

/// What the cell one step from `(x, y)` in direction `(dx, dy)` adds to the
/// count of fires and to the count of trees.
fn probe(
    grid: &Vec<CellState>,
    width: usize,
    height: usize,
    x: usize,
    y: usize,
    dx: i8,
    dy: i8,
) -> (found: (u32, u32))
    requires
        grid@.len() == width * height,
        x < width,
        y < height,
        -1 <= dx <= 1,
        -1 <= dy <= 1,
    ensures
        found.0 == fire_at(grid@, width as int, height as int, x + dx, y + dy),
        found.1 == tree_at(grid@, width as int, height as int, x + dx, y + dy),
{
    if (dx < 0 && x == 0) || (dx > 0 && x + 1 >= width) {
        return (0, 0);
    }
    if (dy < 0 && y == 0) || (dy > 0 && y + 1 >= height) {
        return (0, 0);
    }
    let nx: usize = if dx < 0 {
        x - 1
    } else if dx > 0 {
        x + 1
    } else {
        x
    };
    let ny: usize = if dy < 0 {
        y - 1
    } else if dy > 0 {
        y + 1
    } else {
        y
    };
    proof {
        lemma_row_major(width as int, height as int, nx as int, ny as int);
    }
    let total: usize = grid.len();
    let cell: CellState = grid[ny * width + nx];
    let fire: u32 = if cell.is_burning() {
        1
    } else {
        0
    };
    let tree: u32 = if cell.tree {
        1
    } else {
        0
    };
    (fire, tree)
}

/// What the cell at place `i` sees of its neighbours.
pub fn neighborhood(grid: &Vec<CellState>, width: usize, height: usize, i: usize) -> (around:
    Neighborhood)
    requires
        grid@.len() == width * height,
        i < grid@.len(),
    ensures
        around == spec_neighborhood(grid@, width as int, height as int, i as int),
        around.wf(),
{
    proof {
        lemma_row_major_inverse(width as int, height as int, i as int);
    }
    let x: usize = i % width;
    let y: usize = i / width;
    let a = probe(grid, width, height, x, y, -1, -1);
    let b = probe(grid, width, height, x, y, 0, -1);
    let c = probe(grid, width, height, x, y, 1, -1);
    let d = probe(grid, width, height, x, y, -1, 0);
    let e = probe(grid, width, height, x, y, 1, 0);
    let f = probe(grid, width, height, x, y, -1, 1);
    let g = probe(grid, width, height, x, y, 0, 1);
    let h = probe(grid, width, height, x, y, 1, 1);
    Neighborhood {
        fires: a.0 + b.0 + c.0 + d.0 + e.0 + f.0 + g.0 + h.0,
        trees: a.1 + b.1 + c.1 + d.1 + e.1 + f.1 + g.1 + h.1,
    }
}

/// Writes into `output` the grid that follows `input` after tick number
/// `step`. Only `input` is read.
pub fn step_into(
    input: &Vec<CellState>,
    output: &mut Vec<CellState>,
    width: usize,
    height: usize,
    params: &SimulationParameters,
    step: u32,
)
    requires
        input@.len() == width * height,
        input@.len() <= u32::MAX,
        old(output)@.len() == input@.len(),
    ensures
        final(output)@ == spec_step_grid(input@, width as int, height as int, *params, step),
        cells_wf(input@) ==> cells_wf(final(output)@),
{
    let total: usize = input.len();
    let mut i: usize = 0;
    while i < total
        invariant
            i <= total,
            total == input@.len(),
            input@.len() == width * height,
            input@.len() <= u32::MAX,
            output@.len() == input@.len(),
            forall|j: int|
                0 <= j < i ==> output@[j] == spec_step_cell(
                    input@,
                    width as int,
                    height as int,
                    *params,
                    step,
                    j,
                ),
        decreases total - i,
    {
        let around = neighborhood(input, width, height, i);
        let cell: CellState = input[i];
        let next = next_cell(&cell, &around, params, total as u64, &draws(i as u32, step));
        output.set(i, next);
        i += 1;
    }
    assert(output@ =~= spec_step_grid(input@, width as int, height as int, *params, step));
    proof {
        if cells_wf(input@) {
            assert forall|j: int| 0 <= j < output@.len() implies (#[trigger] output@[j]).wf() by {
                assert(input@[j].wf());
            }
        }
    }
}

} // verus!
