//! The rule: what becomes of one cell in one tick, given its eight
//! neighbours, the parameters and three random samples.
//!
//! A cell that is on fire only burns down: its count drops by one, and when
//! the last tick has passed the cell is left with no fire, no tree and no
//! underbrush. A cell that is not on fire may be struck by lightning or catch
//! fire from its neighbours; its tree may die of age, or a tree may grow
//! unless the cell caught fire in this very tick; and underbrush piles up.

use vstd::prelude::*;

use crate::fixed::Fixed;
use crate::sim::{BurnState, CellState, SimulationParameters};

verus! {

/// The three samples that decide a cell's tick, each uniform over `u32`.
#[derive(Clone, Copy, Debug, PartialEq, Eq, Structural)]
pub struct Draws {
    /// Decides whether lightning strikes.
    pub lightning: u32,
    /// Decides whether fire spreads into the cell.
    pub spread: u32,
    /// Decides whether the tree dies or, in an empty cell, whether one grows.
    pub lifecycle: u32,
}

/// What a cell sees of its neighbours: how many burn, how many hold a tree.
#[derive(Clone, Copy, Debug, PartialEq, Eq, Structural)]
pub struct Neighborhood {
    pub fires: u32,
    pub trees: u32,
}

impl Neighborhood {
    /// A cell has eight neighbours at most.
    pub open spec fn wf(self) -> bool {
        self.fires <= 8 && self.trees <= 8
    }
}

/// An event of the given chance happens on the samples below the chance: a
/// chance of zero never, a chance of one or more always.
pub open spec fn spec_happens(sample: u32, chance: Fixed) -> bool {
    (sample as int) < chance@
}

/// The chance that lightning strikes one cell of a forest of `cells` cells.
pub open spec fn spec_lightning_chance(params: SimulationParameters, cells: int) -> Fixed {
    params.lightning_frequency.spec_div_int(cells)
}

/// How readily the cell catches fire: its tree's share plus its
/// underbrush's.
pub open spec fn spec_flammability(cell: CellState, params: SimulationParameters) -> Fixed {
    let of_tree = if cell.tree {
        params.tree_flammability
    } else {
        Fixed { raw: 0 }
    };
    of_tree.spec_add(cell.underbrush.spec_mul(params.underbrush_flammability))
}

/// The chance that fire spreads into a cell of which `fires` neighbours
/// burn: `fires / 8 * fire_spread_rate * flammability`.
pub open spec fn spec_spread_chance(
    cell: CellState,
    fires: int,
    params: SimulationParameters,
) -> Fixed {
    params.fire_spread_rate.spec_mul(spec_flammability(cell, params)).spec_times(
        fires,
    ).spec_div_int(8)
}

/// For how many ticks the cell burns once it has caught fire: its
/// underbrush's share, rounded, plus its tree's, and no less than one tick.
pub open spec fn spec_burn_duration(cell: CellState, params: SimulationParameters) -> int {
    let of_underbrush = cell.underbrush.spec_times(
        params.underbrush_fire_duration as int,
    ).spec_round();
    let of_tree: int = if cell.tree {
        params.tree_fire_duration as int
    } else {
        0
    };
    let total = of_underbrush + of_tree;
    if total < 1 {
        1
    } else if total > u32::MAX {
        u32::MAX as int
    } else {
        total
    }
}

/// Whether a cell catches fire in this tick. A cell that burns already does
/// not.
pub open spec fn spec_ignites(
    cell: CellState,
    around: Neighborhood,
    params: SimulationParameters,
    cells: int,
    draws: Draws,
) -> bool {
    &&& !cell.spec_is_burning()
    &&& (spec_happens(draws.lightning, spec_lightning_chance(params, cells)) || spec_happens(
        draws.spread,
        spec_spread_chance(cell, around.fires as int, params),
    ))
}

/// Whether the cell's tree dies of age in this tick.
pub open spec fn spec_tree_dies(cell: CellState, params: SimulationParameters, draws: Draws) -> bool {
    cell.tree && spec_happens(draws.lifecycle, params.tree_death_rate)
}

/// The chance that a tree grows in an empty cell:
/// `tree_growth_rate * (1 - hindrance * underbrush)`, and zero where the
/// hindrance exceeds one.
pub open spec fn spec_growth_chance(cell: CellState, params: SimulationParameters) -> Fixed {
    params.tree_growth_rate.spec_mul(
        Fixed::spec_one().spec_sub(params.underbrush_tree_growth_hindrance.spec_mul(cell.underbrush)),
    )
}

/// Whether a tree grows in the cell in this tick. None does in a cell that
/// has one, nor in a cell that caught fire in this tick.
pub open spec fn spec_tree_grows(
    cell: CellState,
    ignited: bool,
    params: SimulationParameters,
    draws: Draws,
) -> bool {
    !cell.tree && !ignited && spec_happens(draws.lifecycle, spec_growth_chance(cell, params))
}

/// The underbrush after a tick: what was there, what the cell's own tree and
/// its neighbours' trees shed, and what a tree leaves that died; at most one.
pub open spec fn spec_next_underbrush(
    cell: CellState,
    has_tree: bool,
    trees_around: int,
    died: bool,
    params: SimulationParameters,
) -> Fixed {
    let shedding: int = if has_tree {
        trees_around + 1
    } else {
        trees_around
    };
    let left_behind = if died {
        params.tree_death_underbrush
    } else {
        Fixed { raw: 0 }
    };
    cell.underbrush.spec_add(params.tree_underbrush_generation.spec_times(shedding)).spec_add(
        left_behind,
    ).spec_clamp_unit()
}

/// The cell after one tick.
pub open spec fn spec_next_cell(
    cell: CellState,
    around: Neighborhood,
    params: SimulationParameters,
    cells: int,
    draws: Draws,
) -> CellState {
    match cell.burning {
        BurnState::Burning { ticks_remaining } => if ticks_remaining > 1 {
            CellState {
                burning: BurnState::Burning { ticks_remaining: (ticks_remaining - 1) as u32 },
                underbrush: cell.underbrush,
                tree: cell.tree,
            }
        } else {
            CellState::spec_barren()
        },
        BurnState::NotBurning => {
            let ignited = spec_ignites(cell, around, params, cells, draws);
            let died = spec_tree_dies(cell, params, draws);
            let grew = spec_tree_grows(cell, ignited, params, draws);
            let has_tree = (cell.tree && !died) || grew;
            CellState {
                burning: if ignited {
                    BurnState::Burning { ticks_remaining: spec_burn_duration(cell, params) as u32 }
                } else {
                    BurnState::NotBurning
                },
                underbrush: spec_next_underbrush(cell, has_tree, around.trees as int, died, params),
                tree: has_tree,
            }
        },
    }
}

/// Whether an event of the given chance happens on the given sample.
pub fn happens(sample: u32, chance: Fixed) -> (yes: bool)
    ensures
        yes == spec_happens(sample, chance),
{
    (sample as u64) < chance.raw
}

/// For how many ticks the cell burns once it has caught fire.
pub fn burn_duration(cell: &CellState, params: &SimulationParameters) -> (ticks: u32)
    ensures
        ticks == spec_burn_duration(*cell, *params),
        ticks >= 1,
{
    let of_underbrush: u32 = cell.underbrush.saturating_times(params.underbrush_fire_duration).round();
    let of_tree: u32 = if cell.tree {
        params.tree_fire_duration
    } else {
        0
    };
    let total: u32 = of_underbrush.saturating_add(of_tree);
    if total < 1 {
        1
    } else {
        total
    }
}

/// The chance that fire spreads into a cell of which `fires` neighbours burn.
pub fn spread_chance(cell: &CellState, fires: u32, params: &SimulationParameters) -> (chance: Fixed)
    ensures
        chance == spec_spread_chance(*cell, fires as int, *params),
{
    let of_tree = if cell.tree {
        params.tree_flammability
    } else {
        Fixed::zero()
    };
    let flammability = of_tree.saturating_add(
        cell.underbrush.saturating_mul(params.underbrush_flammability),
    );
    params.fire_spread_rate.saturating_mul(flammability).saturating_times(fires).div_int(8)
}

/// One tick of the rule for one cell of a forest of `cells` cells.
pub fn next_cell(
    cell: &CellState,
    around: &Neighborhood,
    params: &SimulationParameters,
    cells: u64,
    draws: &Draws,
) -> (next: CellState)
    requires
        around.wf(),
    ensures
        next == spec_next_cell(*cell, *around, *params, cells as int, *draws),
        cell.wf() ==> next.wf(),
{
    match cell.burning {
        BurnState::Burning { ticks_remaining } => {
            if ticks_remaining > 1 {
                CellState {
                    burning: BurnState::Burning { ticks_remaining: ticks_remaining - 1 },
                    underbrush: cell.underbrush,
                    tree: cell.tree,
                }
            } else {
                CellState::barren()
            }
        },
        BurnState::NotBurning => {
            let struck = happens(draws.lightning, params.lightning_frequency.div_int(cells));
            let caught = happens(draws.spread, spread_chance(cell, around.fires, params));
            let ignited = struck || caught;
            let died = cell.tree && happens(draws.lifecycle, params.tree_death_rate);
            let growth = params.tree_growth_rate.saturating_mul(
                Fixed::one().saturating_sub(
                    params.underbrush_tree_growth_hindrance.saturating_mul(cell.underbrush),
                ),
            );
            let grew = !cell.tree && !ignited && happens(draws.lifecycle, growth);
            let has_tree = (cell.tree && !died) || grew;
            let shedding: u32 = if has_tree {
                around.trees + 1
            } else {
                around.trees
            };
            let left_behind = if died {
                params.tree_death_underbrush
            } else {
                Fixed::zero()
            };
            let underbrush = cell.underbrush.saturating_add(
                params.tree_underbrush_generation.saturating_times(shedding),
            ).saturating_add(left_behind).clamp_unit();
            let burning = if ignited {
                BurnState::Burning { ticks_remaining: burn_duration(cell, params) }
            } else {
                BurnState::NotBurning
            };
            CellState { burning, underbrush, tree: has_tree }
        },
    }
}

} // verus!
