//! The forest: its cells, the parameters that govern them, and the engine
//! that steps them.

pub mod control;
pub mod engine;
pub mod grid;
pub mod laws;
pub mod random;
pub mod record;
pub mod rules;
pub mod schedule;
pub mod snapshot;
pub mod uniform;

use vstd::prelude::*;

use crate::fixed::{saturate, scale, Fixed};

verus! {

/// Whether a cell is on fire, and for how long it still will be.
#[derive(Clone, Copy, Debug, PartialEq, Eq, Structural)]
pub enum BurnState {
    NotBurning,
    Burning { ticks_remaining: u32 },
}

/// One cell of the forest.
#[derive(Clone, Copy, Debug, PartialEq, Eq, Structural)]
pub struct CellState {
    pub burning: BurnState,
    /// Density of the underbrush, between zero and one.
    pub underbrush: Fixed,
    pub tree: bool,
}

impl CellState {
    /// A burning cell has at least one tick left, and the underbrush density
    /// is at most one.
    pub open spec fn wf(self) -> bool {
        &&& self.underbrush@ <= scale()
        &&& self.burning matches BurnState::Burning { ticks_remaining } ==> ticks_remaining >= 1
    }

    /// The cell with nothing in it.
    pub open spec fn spec_barren() -> CellState {
        CellState { burning: BurnState::NotBurning, underbrush: Fixed { raw: 0 }, tree: false }
    }

    /// Whether the cell is on fire.
    pub open spec fn spec_is_burning(self) -> bool {
        self.burning is Burning
    }

    /// The cell with nothing in it: no fire, no tree, no underbrush.
    pub fn barren() -> (cell: CellState)
        ensures
            cell == CellState::spec_barren(),
            cell.wf(),
    {
        CellState { burning: BurnState::NotBurning, underbrush: Fixed::zero(), tree: false }
    }

    /// Whether the cell is on fire.
    pub fn is_burning(&self) -> (b: bool)
        ensures
            b == self.spec_is_burning(),
    {
        match self.burning {
            BurnState::NotBurning => false,
            BurnState::Burning { .. } => true,
        }
    }
}

/// A rectangular forest, row by row: cell `(x, y)` is `grid[y * width + x]`.
#[derive(Clone, Debug)]
pub struct SimulationFrame {
    pub width: usize,
    pub height: usize,
    pub grid: Vec<CellState>,
}

impl SimulationFrame {
    /// The grid has one well-formed cell for each position.
    pub open spec fn wf(&self) -> bool {
        &&& self.grid@.len() == self.width * self.height
        &&& forall|i: int| 0 <= i < self.grid@.len() ==> (#[trigger] self.grid@[i]).wf()
    }

    /// A forest of the given size with nothing in it.
    pub fn new(width: usize, height: usize) -> (frame: SimulationFrame)
        requires
            width * height <= usize::MAX,
        ensures
            frame.width == width,
            frame.height == height,
            frame.grid@ == Seq::new((width * height) as nat, |i: int| CellState::spec_barren()),
            frame.wf(),
    {
        assert(0 <= width * height) by (nonlinear_arith);
        let total: usize = width * height;
        let mut grid: Vec<CellState> = Vec::new();
        let mut i: usize = 0;
        while i < total
            invariant
                i <= total,
                grid@ == Seq::new(i as nat, |j: int| CellState::spec_barren()),
            decreases total - i,
        {
            grid.push(CellState::barren());
            i += 1;
        }
        SimulationFrame { width, height, grid }
    }
}

impl Default for SimulationFrame {
    /// An empty forest of one hundred by one hundred cells.
    fn default() -> (frame: SimulationFrame)
        ensures
            frame.width == 100,
            frame.height == 100,
            frame.grid@ == Seq::new(10000, |i: int| CellState::spec_barren()),
            frame.wf(),
    {
        SimulationFrame::new(100, 100)
    }
}

/// The number of cells of a forest, capped at the largest 64-bit value.
pub open spec fn spec_cell_count(width: int, height: int) -> int {
    saturate(width * height)
}

/// The number of cells of a forest, capped at the largest 64-bit value.
pub fn cell_count(width: usize, height: usize) -> (count: u64)
    ensures
        count == spec_cell_count(width as int, height as int),
{
    assert(0 <= width * height <= u128::MAX) by (nonlinear_arith)
        requires
            0 <= width <= u64::MAX,
            0 <= height <= u64::MAX,
    ;
    let wide: u128 = (width as u128) * (height as u128);
    if wide > u64::MAX as u128 {
        u64::MAX
    } else {
        wide as u64
    }
}

/// Square metres to the acre, rounded.
pub const SQUARE_METRES_PER_ACRE: u64 = 4047;

/// What a user configures, in everyday units. A cell is one square metre.
#[derive(Clone, Copy, Debug, PartialEq, Eq, Structural)]
pub struct ConfigurableParameters {
    /// Width of the forest in cells.
    pub forest_width: usize,
    /// Height of the forest in cells.
    pub forest_height: usize,
    /// Size of the forest in acres.
    pub forest_acres: Fixed,
    /// Simulation ticks per month.
    pub ticks_per_month: Fixed,
    /// Months that pass per second of real time.
    pub months_per_second: Fixed,
    /// Lightning strikes per year and acre.
    pub lightning_strikes_per_year_per_acre: Fixed,
    /// Years that a tree takes to grow, on average.
    pub tree_growth_years: Fixed,
    /// Years after which a tree dies of age, on average.
    pub tree_death_years: Fixed,
    /// How much full underbrush lowers the chance that a tree grows.
    pub underbrush_tree_growth_hindrance: Fixed,
    /// Underbrush that a tree adds per tick.
    pub tree_underbrush_generation: Fixed,
    /// Underbrush that a tree leaves when it dies of age.
    pub tree_death_underbrush: Fixed,
    /// Ticks for which a tree feeds a fire.
    pub tree_fire_duration: u32,
    /// Ticks for which full underbrush feeds a fire.
    pub underbrush_fire_duration: u32,
    /// Chance that fire spreads from one cell to a neighbour.
    pub fire_spread_rate: Fixed,
    /// How readily a tree catches fire.
    pub tree_flammability: Fixed,
    /// How readily full underbrush catches fire.
    pub underbrush_flammability: Fixed,
}

impl ConfigurableParameters {
    /// The acreage of a forest of the given size.
    pub open spec fn spec_acres(width: int, height: int) -> Fixed {
        Fixed::spec_from_ratio(spec_cell_count(width, height), SQUARE_METRES_PER_ACRE as int)
    }

    /// The parameters of a temperate forest of the given size.
    pub open spec fn spec_realistic(
        width: usize,
        height: usize,
        ticks_per_month: Fixed,
        months_per_second: Fixed,
    ) -> ConfigurableParameters {
        ConfigurableParameters {
            forest_width: width,
            forest_height: height,
            forest_acres: Self::spec_acres(width as int, height as int),
            ticks_per_month,
            months_per_second,
            lightning_strikes_per_year_per_acre: Fixed::spec_from_ratio(1, 45),
            tree_growth_years: Fixed::spec_from_int(150),
            tree_death_years: Fixed::spec_from_int(200),
            underbrush_tree_growth_hindrance: Fixed { raw: 0 },
            tree_underbrush_generation: Fixed::spec_from_ratio(1, 10000),
            tree_death_underbrush: Fixed::spec_from_ratio(1, 100),
            tree_fire_duration: 1,
            underbrush_fire_duration: 1,
            fire_spread_rate: Fixed::spec_one(),
            tree_flammability: Fixed::spec_from_ratio(1, 2),
            underbrush_flammability: Fixed::spec_one(),
        }
    }

    /// The parameters of a temperate forest of the given size: a lightning
    /// strike per 45 acres and year, trees that take 150 years to grow and
    /// 200 to die, and fires that last a tick.
    pub fn realistic(
        width: usize,
        height: usize,
        ticks_per_month: Fixed,
        months_per_second: Fixed,
    ) -> (config: ConfigurableParameters)
        ensures
            config == Self::spec_realistic(width, height, ticks_per_month, months_per_second),
    {
        ConfigurableParameters {
            forest_width: width,
            forest_height: height,
            forest_acres: Fixed::from_ratio(cell_count(width, height), SQUARE_METRES_PER_ACRE),
            ticks_per_month,
            months_per_second,
            lightning_strikes_per_year_per_acre: Fixed::from_ratio(1, 45),
            tree_growth_years: Fixed::from_int(150),
            tree_death_years: Fixed::from_int(200),
            underbrush_tree_growth_hindrance: Fixed::zero(),
            tree_underbrush_generation: Fixed::from_ratio(1, 10000),
            tree_death_underbrush: Fixed::from_ratio(1, 100),
            tree_fire_duration: 1,
            underbrush_fire_duration: 1,
            fire_spread_rate: Fixed::one(),
            tree_flammability: Fixed::from_ratio(1, 2),
            underbrush_flammability: Fixed::one(),
        }
    }
}

/// What the rule works with: chances and amounts per tick.
#[derive(Clone, Copy, Debug, PartialEq, Eq, Structural)]
pub struct SimulationParameters {
    /// Chance that a tree grows in an empty cell in one tick.
    pub tree_growth_rate: Fixed,
    /// How much full underbrush lowers the chance that a tree grows.
    pub underbrush_tree_growth_hindrance: Fixed,
    /// Underbrush that a tree adds per tick.
    pub tree_underbrush_generation: Fixed,
    /// Underbrush that a tree leaves when it dies of age.
    pub tree_death_underbrush: Fixed,
    /// Chance that a tree dies of age in one tick.
    pub tree_death_rate: Fixed,
    /// Ticks for which a tree feeds a fire.
    pub tree_fire_duration: u32,
    /// Ticks for which full underbrush feeds a fire.
    pub underbrush_fire_duration: u32,
    /// Chance that fire spreads from one cell to a neighbour.
    pub fire_spread_rate: Fixed,
    /// How readily a tree catches fire.
    pub tree_flammability: Fixed,
    /// How readily full underbrush catches fire.
    pub underbrush_flammability: Fixed,
    /// Lightning strikes per tick, over the whole forest.
    pub lightning_frequency: Fixed,
    /// Ticks per second of real time.
    pub tick_rate: u32,
}

impl SimulationParameters {
    /// Ticks per year.
    pub open spec fn spec_ticks_per_year(config: ConfigurableParameters) -> Fixed {
        config.ticks_per_month.spec_times(12)
    }

    /// The per-tick parameters that follow from a configuration:
    /// `tick_rate` is `ticks_per_month * months_per_second` rounded, a year
    /// has twelve months, lightning strikes
    /// `strikes_per_year_per_acre * acres / ticks_per_year` times a tick, and
    /// a tree grows, or dies, with a chance of one in
    /// `ticks_per_year * years`. The chances of growth, death and spread and
    /// the hindrance are capped at one, whatever the configuration says.
    pub open spec fn spec_derive(config: ConfigurableParameters) -> SimulationParameters {
        let per_year = Self::spec_ticks_per_year(config);
        SimulationParameters {
            tree_growth_rate: Fixed::spec_one().spec_div(
                per_year.spec_mul(config.tree_growth_years),
            ).spec_clamp_unit(),
            underbrush_tree_growth_hindrance: config.underbrush_tree_growth_hindrance.spec_clamp_unit(),
            tree_underbrush_generation: config.tree_underbrush_generation,
            tree_death_underbrush: config.tree_death_underbrush,
            tree_death_rate: Fixed::spec_one().spec_div(
                per_year.spec_mul(config.tree_death_years),
            ).spec_clamp_unit(),
            tree_fire_duration: config.tree_fire_duration,
            underbrush_fire_duration: config.underbrush_fire_duration,
            fire_spread_rate: config.fire_spread_rate.spec_clamp_unit(),
            tree_flammability: config.tree_flammability,
            underbrush_flammability: config.underbrush_flammability,
            lightning_frequency: config.lightning_strikes_per_year_per_acre.spec_mul(
                config.forest_acres,
            ).spec_div(per_year),
            tick_rate: config.ticks_per_month.spec_mul(config.months_per_second).spec_round() as u32,
        }
    }
}

/// Whatever the configuration, the chances that follow from it are chances:
/// those of growth, death and spread, and the hindrance, are one at most.
pub proof fn lemma_derived_in_range(config: ConfigurableParameters)
    ensures
        SimulationParameters::spec_derive(config).tree_growth_rate@ <= scale(),
        SimulationParameters::spec_derive(config).tree_death_rate@ <= scale(),
        SimulationParameters::spec_derive(config).fire_spread_rate@ <= scale(),
        SimulationParameters::spec_derive(config).underbrush_tree_growth_hindrance@ <= scale(),
{
}

impl From<&ConfigurableParameters> for SimulationParameters {
    fn from(config: &ConfigurableParameters) -> (derived: SimulationParameters) {
        let per_year = config.ticks_per_month.saturating_times(12);
        SimulationParameters {
            tree_growth_rate: Fixed::one().saturating_div(
                per_year.saturating_mul(config.tree_growth_years),
            ).clamp_unit(),
            underbrush_tree_growth_hindrance: config.underbrush_tree_growth_hindrance.clamp_unit(),
            tree_underbrush_generation: config.tree_underbrush_generation,
            tree_death_underbrush: config.tree_death_underbrush,
            tree_death_rate: Fixed::one().saturating_div(
                per_year.saturating_mul(config.tree_death_years),
            ).clamp_unit(),
            tree_fire_duration: config.tree_fire_duration,
            underbrush_fire_duration: config.underbrush_fire_duration,
            fire_spread_rate: config.fire_spread_rate.clamp_unit(),
            tree_flammability: config.tree_flammability,
            underbrush_flammability: config.underbrush_flammability,
            lightning_frequency: config.lightning_strikes_per_year_per_acre.saturating_mul(
                config.forest_acres,
            ).saturating_div(per_year),
            tick_rate: config.ticks_per_month.saturating_mul(config.months_per_second).round(),
        }
    }
}

impl vstd::std_specs::convert::FromSpecImpl<&ConfigurableParameters> for SimulationParameters {
    open spec fn obeys_from_spec() -> bool {
        true
    }

    open spec fn from_spec(config: &ConfigurableParameters) -> SimulationParameters {
        SimulationParameters::spec_derive(*config)
    }
}

/// What a finished run reports.
#[non_exhaustive]
#[derive(Clone, Copy, Debug)]
pub struct SimulationStatistics {
    /// Milliseconds that one tick took to compute, on average.
    pub average_step_exec_time: Fixed,
}

impl SimulationStatistics {
    /// The statistics of a run that spent `total_ms` milliseconds computing
    /// `ticks` ticks. A run without ticks reports the largest value.
    pub fn from_totals(total_ms: u64, ticks: u64) -> (stats: SimulationStatistics)
        ensures
            stats.average_step_exec_time == Fixed::spec_from_ratio(total_ms as int, ticks as int),
    {
        SimulationStatistics { average_step_exec_time: Fixed::from_ratio(total_ms, ticks) }
    }
}

impl Default for SimulationStatistics {
    fn default() -> (stats: SimulationStatistics)
        ensures
            stats.average_step_exec_time@ == 0,
    {
        SimulationStatistics { average_step_exec_time: Fixed::zero() }
    }
}

} // verus!
