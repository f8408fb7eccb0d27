//! What holds of the rule and of the engine on every input.

use vstd::prelude::*;

use crate::sim::engine::{ContextView, StepperView};
use crate::sim::grid::{cells_wf, fires_around, spec_neighborhood, spec_step_grid};
use crate::sim::random::spec_draws;
use crate::sim::rules::{
    spec_flammability, spec_growth_chance, spec_next_cell, Draws, Neighborhood,
};
use crate::fixed::Fixed;
use crate::sim::{BurnState, CellState, SimulationParameters};

verus! {

/// Whether a tick that starts with `flipped` and runs `n` times ends with
/// the second buffer current: each tick changes the roles once.
pub open spec fn parity_after(flipped: bool, n: nat) -> bool {
    if n % 2 == 0 {
        flipped
    } else {
        !flipped
    }
}

/// After `n` ticks the flag that tells the buffers apart has changed `n`
/// times, so that it equals `n mod 2` in an engine that started unflipped;
/// the counter has gone up by `n`, wrapping round; and the buffer that a
/// tick's plan names as its output is the current one once the tick is done.
pub proof fn lemma_stepper_parity(s: StepperView, params: SimulationParameters, n: nat)
    ensures
        s.advanced(params, n).flipped == parity_after(s.flipped, n),
        s.advanced(params, n).steps == (s.steps + n) % 0x1_0000_0000,
        s.advanced(params, n).cells == s.cells,
        s.plan(params).output == s.ticked(params).current(),
        s.plan(params).input == s.current(),
    decreases n,
{
    if n > 0 {
        lemma_stepper_parity(s.ticked(params), params, (n - 1) as nat);
    }
}

/// After `n` ticks of the engine the flag that tells the buffers apart has
/// changed `n` times, the counter has gone up by `n`, wrapping round, and the
/// forest has kept its size.
pub proof fn lemma_engine_parity(v: ContextView, params: SimulationParameters, n: nat)
    ensures
        v.advanced(params, n).flipped == parity_after(v.flipped, n),
        v.advanced(params, n).steps == (v.steps + n) % 0x1_0000_0000,
        v.advanced(params, n).width == v.width,
        v.advanced(params, n).height == v.height,
        v.advanced(params, n).cells.len() == v.cells.len(),
        n > 0 ==> v.advanced(params, n).params == params,
    decreases n,
{
    if n > 0 {
        lemma_engine_parity(v.ticked(params), params, (n - 1) as nat);
    }
}

/// A burning cell's count goes down by one each tick, and the cell stops
/// burning in the tick in which the count would reach zero, and in no other.
pub proof fn lemma_burn_countdown(
    cell: CellState,
    around: Neighborhood,
    params: SimulationParameters,
    cells: int,
    draws: Draws,
)
    requires
        cell.wf(),
        cell.spec_is_burning(),
    ensures
        ({
            let next = spec_next_cell(cell, around, params, cells, draws);
            let left = cell.burning->ticks_remaining;
            &&& left > 1 ==> next.burning == (BurnState::Burning {
                ticks_remaining: (left - 1) as u32,
            })
            &&& left == 1 ==> next.burning == BurnState::NotBurning
            &&& next.spec_is_burning() <==> left > 1
        }),
{
}

/// A cell that stops burning is left with no tree and no underbrush.
pub proof fn lemma_burn_aftermath(
    cell: CellState,
    around: Neighborhood,
    params: SimulationParameters,
    cells: int,
    draws: Draws,
)
    requires
        cell.spec_is_burning(),
        !spec_next_cell(cell, around, params, cells, draws).spec_is_burning(),
    ensures
        spec_next_cell(cell, around, params, cells, draws) == CellState::spec_barren(),
        !spec_next_cell(cell, around, params, cells, draws).tree,
        spec_next_cell(cell, around, params, cells, draws).underbrush@ == 0,
{
}

/// Without lightning, a cell that does not burn and has no burning
/// neighbour does not catch fire, whatever the samples.
pub proof fn lemma_no_ignition_without_fire(
    cell: CellState,
    around: Neighborhood,
    params: SimulationParameters,
    cells: int,
    draws: Draws,
)
    requires
        params.lightning_frequency@ == 0,
        cells > 0,
        !cell.spec_is_burning(),
        around.fires == 0,
    ensures
        !spec_next_cell(cell, around, params, cells, draws).spec_is_burning(),
{
    assert(0int / cells == 0) by (nonlinear_arith)
        requires
            cells > 0,
    ;
    let product = params.fire_spread_rate.spec_mul(spec_flammability(cell, params));
    assert(product@ * 0 == 0);
}

/// Without lightning, a cell of a forest that does not burn and has no
/// burning cell among its eight neighbours does not burn after the tick.
pub proof fn lemma_no_ignition_in_grid(
    grid: Seq<CellState>,
    width: int,
    height: int,
    params: SimulationParameters,
    step: u32,
    i: int,
)
    requires
        0 <= i < grid.len(),
        params.lightning_frequency@ == 0,
        !grid[i].spec_is_burning(),
        fires_around(grid, width, height, i % width, i / width) == 0,
    ensures
        !spec_step_grid(grid, width, height, params, step)[i].spec_is_burning(),
{
    lemma_no_ignition_without_fire(
        grid[i],
        spec_neighborhood(grid, width, height, i),
        params,
        grid.len() as int,
        spec_draws(i as u32, step),
    );
}

/// A cell that catches fire in a tick grows no tree in that tick: where an
/// empty cell burns after the tick, it is still without a tree.
pub proof fn lemma_ignition_blocks_growth(
    cell: CellState,
    around: Neighborhood,
    params: SimulationParameters,
    cells: int,
    draws: Draws,
)
    requires
        !cell.spec_is_burning(),
        !cell.tree,
        spec_next_cell(cell, around, params, cells, draws).spec_is_burning(),
    ensures
        !spec_next_cell(cell, around, params, cells, draws).tree,
{
}

/// The rule keeps cells well-formed: a cell that burns after the tick has a
/// tick left at least, and the underbrush stays at one at most.
pub proof fn lemma_rule_keeps_cells_wf(
    cell: CellState,
    around: Neighborhood,
    params: SimulationParameters,
    cells: int,
    draws: Draws,
)
    requires
        cell.wf(),
    ensures
        spec_next_cell(cell, around, params, cells, draws).wf(),
{
}

/// Parameters under which nothing grows, dies, strikes or spreads.
pub open spec fn quiescent(params: SimulationParameters) -> bool {
    &&& params.tree_growth_rate@ == 0
    &&& params.tree_death_rate@ == 0
    &&& params.lightning_frequency@ == 0
    &&& params.fire_spread_rate@ == 0
    &&& params.tree_underbrush_generation@ == 0
}

/// No cell of the grid burns.
pub open spec fn nothing_burns(grid: Seq<CellState>) -> bool {
    forall|i: int| 0 <= i < grid.len() ==> !(#[trigger] grid[i]).spec_is_burning()
}

/// Under quiescent parameters a cell that does not burn stays as it is.
pub proof fn lemma_quiescent_cell(
    cell: CellState,
    around: Neighborhood,
    params: SimulationParameters,
    cells: int,
    draws: Draws,
)
    requires
        quiescent(params),
        cells > 0,
        cell.wf(),
        !cell.spec_is_burning(),
    ensures
        spec_next_cell(cell, around, params, cells, draws) == cell,
{
    assert(0int / cells == 0) by (nonlinear_arith)
        requires
            cells > 0,
    ;
    let flam = spec_flammability(cell, params);
    assert(0 * flam@ == 0);
    assert(params.fire_spread_rate.spec_mul(flam)@ == 0);
    let kept = Fixed::spec_one().spec_sub(
        params.underbrush_tree_growth_hindrance.spec_mul(cell.underbrush),
    );
    assert(0 * kept@ == 0);
    assert(spec_growth_chance(cell, params)@ == 0);
    let shed = if cell.tree {
        around.trees + 1
    } else {
        around.trees as int
    };
    assert(0 * shed == 0);
}

/// Under quiescent parameters a forest in which nothing burns stays as it
/// is, tick after tick.
pub proof fn lemma_quiescent_grid(v: ContextView, params: SimulationParameters, n: nat)
    requires
        quiescent(params),
        cells_wf(v.cells),
        nothing_burns(v.cells),
    ensures
        v.advanced(params, n).cells == v.cells,
    decreases n,
{
    if n > 0 {
        let next = spec_step_grid(v.cells, v.width, v.height, params, v.steps);
        assert forall|i: int| 0 <= i < v.cells.len() implies next[i] == v.cells[i] by {
            assert(v.cells[i].wf());
            lemma_quiescent_cell(
                v.cells[i],
                spec_neighborhood(v.cells, v.width, v.height, i),
                params,
                v.cells.len() as int,
                spec_draws(i as u32, v.steps),
            );
        }
        assert(next =~= v.cells);
        lemma_quiescent_grid(v.ticked(params), params, (n - 1) as nat);
    }
}

/// The forest after `n` ticks is a function of the forest, the parameters,
/// the counter and `n` alone: two engines that agree on these agree
/// afterwards.
pub proof fn lemma_deterministic(
    a: ContextView,
    b: ContextView,
    params: SimulationParameters,
    n: nat,
)
    requires
        a.cells == b.cells,
        a.width == b.width,
        a.height == b.height,
        a.steps == b.steps,
    ensures
        a.advanced(params, n).cells == b.advanced(params, n).cells,
        a.advanced(params, n).steps == b.advanced(params, n).steps,
    decreases n,
{
    if n > 0 {
        lemma_deterministic(a.ticked(params), b.ticked(params), params, (n - 1) as nat);
    }
}

/// A tick hands the rule the parameters it is given, whatever the rule saw
/// before, and asks for an upload exactly when they differ from those.
pub proof fn lemma_hot_swap(s: StepperView, v: ContextView, params: SimulationParameters)
    ensures
        s.ticked(params).params == params,
        s.plan(params).upload_parameters <==> params != s.params,
        v.ticked(params).params == params,
        v.ticked(params).cells == spec_step_grid(v.cells, v.width, v.height, params, v.steps),
{
}

/// A redraw that owes no tick leaves the engine as it is.
pub proof fn lemma_no_tick_no_change(v: ContextView, params: SimulationParameters)
    ensures
        v.advanced(params, 0) == v,
{
}

} // verus!
