use firesim::fixed::Fixed;
use firesim::sim::engine::{
    grid_extent, sanitize, workgroup_count, BufferSlot, ComputeContext, EngineError, GridExtent,
    Stepper, TickPlan,
};
use firesim::sim::snapshot::{SnapshotAction, SnapshotLatch};
use firesim::sim::grid::{neighborhood, step_into};
use firesim::sim::rules::Neighborhood;
use firesim::sim::uniform::{dimensions_uniform, step_uniform};
use firesim::sim::{BurnState, CellState, ConfigurableParameters, SimulationFrame, SimulationParameters};

fn zero_rates() -> SimulationParameters {
    SimulationParameters {
        tree_growth_rate: Fixed::zero(),
        underbrush_tree_growth_hindrance: Fixed::zero(),
        tree_underbrush_generation: Fixed::zero(),
        tree_death_underbrush: Fixed::zero(),
        tree_death_rate: Fixed::zero(),
        tree_fire_duration: 4,
        underbrush_fire_duration: 0,
        fire_spread_rate: Fixed::zero(),
        tree_flammability: Fixed::zero(),
        underbrush_flammability: Fixed::zero(),
        lightning_frequency: Fixed::zero(),
        tick_rate: 1,
    }
}

fn tree() -> CellState {
    CellState { burning: BurnState::NotBurning, underbrush: Fixed::zero(), tree: true }
}

fn burning(tree: bool, ticks: u32) -> CellState {
    CellState { burning: BurnState::Burning { ticks_remaining: ticks }, underbrush: Fixed::zero(), tree }
}

fn engine(frame: SimulationFrame, p: SimulationParameters) -> ComputeContext {
    match ComputeContext::create(frame, p) {
        Ok(e) => e,
        Err(e) => panic!("no engine: {:?}", e),
    }
}

#[test]
fn parity_follows_the_number_of_ticks() {
    let mut e = engine(SimulationFrame::new(4, 4), zero_rates());
    assert!(!e.is_flipped());
    assert_eq!(e.steps(), 0);
    for n in 1..=7u32 {
        e.compute_step(zero_rates());
        assert_eq!(e.is_flipped(), n % 2 == 1);
        assert_eq!(e.steps(), n);
    }
    e.advance(zero_rates(), 5);
    assert_eq!(e.steps(), 12);
    assert!(!e.is_flipped());
    e.advance(zero_rates(), 0);
    assert_eq!(e.steps(), 12);
}

#[test]
fn empty_grid_stays_empty_for_a_thousand_ticks() {
    let start = SimulationFrame::new(10, 10);
    let mut e = engine(start.clone(), zero_rates());
    e.advance(zero_rates(), 1000);
    assert_eq!(e.current_output_buffer(), &start.grid);
    assert!(!e.is_flipped());
    assert_eq!(e.steps(), 1000);
    assert_eq!(e.dimensions(), (10, 10));
}

#[test]
fn single_ignited_tree_burns_out() {
    let mut start = SimulationFrame::new(3, 3);
    start.grid[4] = burning(true, 1);
    let mut e = engine(start, zero_rates());
    e.compute_step(zero_rates());
    assert_eq!(e.current_output_buffer()[4], CellState::barren());
    e.compute_step(zero_rates());
    assert_eq!(e.current_output_buffer()[4], CellState::barren());
    for cell in e.current_output_buffer().iter() {
        assert_eq!(*cell, CellState::barren());
    }
}

#[test]
fn fire_reaches_the_neighbours_whose_sample_is_low_enough() {
    let mut p = zero_rates();
    p.fire_spread_rate = Fixed::one();
    p.tree_flammability = Fixed::one();
    let mut start = SimulationFrame::new(3, 3);
    for i in 0..9 {
        start.grid[i] = tree();
    }
    start.grid[4] = burning(true, 2);
    let mut e = engine(start, p);
    e.compute_step(p);
    let after = e.current_output_buffer();
    assert_eq!(after[4], burning(true, 1));
    for i in [0usize, 1, 2, 3, 5, 6, 7, 8] {
        let sample = firesim::sim::random::draws(i as u32, 0).spread;
        if sample < (1 << 29) {
            assert_eq!(after[i], burning(true, 4));
        } else {
            assert_eq!(after[i], tree());
        }
    }
}

#[test]
fn fire_spreads_to_all_neighbours_when_the_chance_is_one() {
    let mut p = zero_rates();
    p.fire_spread_rate = Fixed::one();
    p.tree_flammability = Fixed::from_int(8);
    let mut start = SimulationFrame::new(3, 3);
    for i in 0..9 {
        start.grid[i] = tree();
    }
    start.grid[4] = burning(true, 2);
    let mut e = engine(start, p);
    e.compute_step(p);
    let after = e.current_output_buffer();
    assert_eq!(after[4], burning(true, 1));
    for i in [0usize, 1, 2, 3, 5, 6, 7, 8] {
        assert_eq!(after[i], burning(true, 4));
    }
}

#[test]
fn current_buffer_is_the_one_last_written() {
    let mut start = SimulationFrame::new(2, 1);
    start.grid[0] = burning(false, 9);
    let mut e = engine(start, zero_rates());
    assert_eq!(e.current_output_buffer()[0], burning(false, 9));
    e.advance(zero_rates(), 3);
    assert!(e.is_flipped());
    assert_eq!(e.current_output_buffer()[0], burning(false, 6));
    assert_eq!(e.current_input_buffer()[0], burning(false, 7));
    {
        let (first, second) = e.get_buffers();
        assert_eq!(second[0], burning(false, 6));
        assert_eq!(first[0], burning(false, 7));
    }
    e.advance(zero_rates(), 1);
    assert_eq!(e.steps(), 4);
    assert!(!e.is_flipped());
    {
        let (first, _) = e.get_buffers();
        assert_eq!(first[0], burning(false, 5));
    }
    assert_eq!(e.current_output_buffer()[0], burning(false, 5));
    e.advance(zero_rates(), 3);
    assert_eq!(e.steps(), 7);
    assert!(e.is_flipped());
    assert_eq!(e.current_output_buffer()[0], burning(false, 2));
}

#[test]
fn repeated_runs_give_the_same_forest() {
    let c = ConfigurableParameters::realistic(16, 16, Fixed::from_int(2), Fixed::from_int(36));
    let mut p = SimulationParameters::from(&c);
    p.lightning_frequency = Fixed::from_int(2);
    p.tree_growth_rate = Fixed::from_ratio(1, 10);
    let mut a = engine(SimulationFrame::new(16, 16), p);
    let mut b = engine(SimulationFrame::new(16, 16), p);
    a.advance(p, 60);
    for _ in 0..60 {
        b.compute_step(p);
    }
    assert_eq!(a.current_output_buffer(), b.current_output_buffer());
    assert_eq!(a.steps(), b.steps());
    let some_tree = a.current_output_buffer().iter().any(|c| c.tree);
    let some_fire = b.current_output_buffer().iter().any(|c| c.is_burning());
    assert!(some_tree);
    assert!(some_fire || a.current_output_buffer().iter().any(|c| !c.tree));
}

#[test]
fn forest_without_fire_is_invariant_under_zero_rates() {
    let mut start = SimulationFrame::new(5, 4);
    for i in 0..20 {
        start.grid[i] = CellState {
            burning: BurnState::NotBurning,
            underbrush: Fixed::from_ratio(i as u64, 20),
            tree: i % 3 == 0,
        };
    }
    let mut p = zero_rates();
    p.tree_flammability = Fixed::one();
    p.underbrush_flammability = Fixed::one();
    p.tree_death_underbrush = Fixed::one();
    let mut e = engine(start.clone(), p);
    e.advance(p, 50);
    assert_eq!(e.current_output_buffer(), &start.grid);
}

#[test]
fn no_cell_ignites_far_from_fire() {
    let mut p = zero_rates();
    p.fire_spread_rate = Fixed::one();
    p.tree_flammability = Fixed::from_int(8);
    let mut start = SimulationFrame::new(5, 1);
    for i in 0..5 {
        start.grid[i] = tree();
    }
    start.grid[0] = burning(true, 3);
    let mut e = engine(start, p);
    e.compute_step(p);
    let after = e.current_output_buffer();
    assert!(after[1].is_burning());
    assert!(!after[2].is_burning());
    assert!(!after[3].is_burning());
    assert!(!after[4].is_burning());
}

#[test]
fn engine_refuses_frames_of_the_wrong_size() {
    let mut frame = SimulationFrame::new(3, 3);
    frame.grid.pop();
    assert_eq!(
        ComputeContext::create(frame, zero_rates()).err(),
        Some(EngineError::GridSizeMismatch)
    );
    let frame = SimulationFrame { width: usize::MAX, height: 2, grid: Vec::new() };
    assert_eq!(
        ComputeContext::create(frame, zero_rates()).err(),
        Some(EngineError::GridSizeMismatch)
    );
    assert!(ComputeContext::create(SimulationFrame::new(0, 0), zero_rates()).is_ok());
}

#[test]
fn engine_takes_cells_in_their_valid_form() {
    let odd = CellState {
        burning: BurnState::Burning { ticks_remaining: 0 },
        underbrush: Fixed::from_int(3),
        tree: true,
    };
    let clean = CellState { burning: BurnState::NotBurning, underbrush: Fixed::one(), tree: true };
    assert_eq!(sanitize(&odd), clean);
    assert_eq!(sanitize(&clean), clean);
    let mut frame = SimulationFrame::new(1, 1);
    frame.grid[0] = odd;
    let e = engine(frame, zero_rates());
    assert_eq!(e.current_output_buffer()[0], clean);
    assert_eq!(e.dimensions(), (1, 1));
}

#[test]
fn neighbours_beyond_the_edge_count_as_nothing() {
    let mut frame = SimulationFrame::new(3, 3);
    for i in 0..9 {
        frame.grid[i] = tree();
    }
    frame.grid[1] = burning(false, 1);
    frame.grid[8] = burning(true, 1);
    assert_eq!(neighborhood(&frame.grid, 3, 3, 4), Neighborhood { fires: 2, trees: 7 });
    assert_eq!(neighborhood(&frame.grid, 3, 3, 0), Neighborhood { fires: 1, trees: 2 });
    assert_eq!(neighborhood(&frame.grid, 3, 3, 2), Neighborhood { fires: 1, trees: 2 });
    assert_eq!(neighborhood(&frame.grid, 3, 3, 6), Neighborhood { fires: 0, trees: 3 });
    assert_eq!(neighborhood(&frame.grid, 3, 3, 8), Neighborhood { fires: 0, trees: 3 });
    let single = SimulationFrame::new(1, 1);
    assert_eq!(neighborhood(&single.grid, 1, 1, 0), Neighborhood { fires: 0, trees: 0 });
}

#[test]
fn a_tick_reads_the_old_grid_only() {
    let mut input = SimulationFrame::new(3, 1).grid;
    input[0] = burning(false, 1);
    input[1] = burning(false, 2);
    input[2] = burning(false, 3);
    let mut output = vec![tree(); 3];
    step_into(&input, &mut output, 3, 1, &zero_rates(), 0);
    assert_eq!(output, vec![CellState::barren(), burning(false, 1), burning(false, 2)]);
    assert_eq!(input[0], burning(false, 1));
}

#[test]
fn stepper_plans_each_tick() {
    let p = zero_rates();
    let mut q = p;
    q.tick_rate = 9;
    let mut s = Stepper::new(p, 130);
    assert_eq!(s.current(), BufferSlot::First);
    let plan = s.tick(p);
    assert_eq!(
        plan,
        TickPlan {
            upload_parameters: false,
            step: 0,
            workgroups: 3,
            input: BufferSlot::First,
            output: BufferSlot::Second,
            snapshot: SnapshotAction { copy_to_staging: true, begin_read: false },
        }
    );
    assert_eq!(s.current(), BufferSlot::Second);
    assert!(s.is_flipped());
    let plan = s.tick(q);
    assert_eq!(
        plan,
        TickPlan {
            upload_parameters: true,
            step: 1,
            workgroups: 3,
            input: BufferSlot::Second,
            output: BufferSlot::First,
            snapshot: SnapshotAction { copy_to_staging: true, begin_read: false },
        }
    );
    assert_eq!(s.parameters(), q);
    assert_eq!(s.steps(), 2);
    let plan = s.tick(q);
    assert!(!plan.upload_parameters);
    assert_eq!(plan.step, 2);
    assert_eq!(BufferSlot::First.other(), BufferSlot::Second);
    assert_eq!(BufferSlot::Second.other(), BufferSlot::First);
}

#[test]
fn new_parameters_reach_the_very_next_tick() {
    let mut start = SimulationFrame::new(1, 1);
    start.grid[0] = tree();
    let quiet = zero_rates();
    let mut stormy = zero_rates();
    stormy.lightning_frequency = Fixed::from_int(5);
    let mut e = engine(start, quiet);
    e.compute_step(quiet);
    assert!(!e.current_output_buffer()[0].is_burning());
    e.compute_step(stormy);
    assert_eq!(e.current_output_buffer()[0], burning(true, 4));
}

#[test]
fn workgroups_cover_all_cells() {
    assert_eq!(workgroup_count(0), 0);
    assert_eq!(workgroup_count(1), 1);
    assert_eq!(workgroup_count(64), 1);
    assert_eq!(workgroup_count(65), 2);
    assert_eq!(workgroup_count(250000), 3907);
    assert_eq!(workgroup_count(u32::MAX), 67108864);
}

#[test]
fn uniforms_are_the_words_as_the_machine_stores_them() {
    assert_eq!(step_uniform(0x01020304), 0x01020304u32.to_ne_bytes().to_vec());
    assert_eq!(step_uniform(0), vec![0, 0, 0, 0]);
    let mut expected = 500u32.to_ne_bytes().to_vec();
    expected.extend_from_slice(&300u32.to_ne_bytes());
    assert_eq!(dimensions_uniform(500, 300), expected);
    assert_eq!(dimensions_uniform(500, 300).len(), 8);
}

#[test]
fn lightning_ignites_about_one_cell_a_tick() {
    let mut p = zero_rates();
    p.lightning_frequency = Fixed::one();
    let mut e = engine(SimulationFrame::new(100, 100), p);
    let mut ignitions: u64 = 0;
    for _ in 0..10000 {
        e.compute_step(p);
        ignitions += e.current_output_buffer().iter().filter(|c| c.is_burning()).count() as u64;
    }
    assert!(ignitions >= 9700 && ignitions <= 10300, "ignitions: {}", ignitions);
}

#[test]
fn frames_that_do_not_fit_are_refused() {
    assert_eq!(grid_extent(3, 2, 6), Ok(GridExtent { width: 3, height: 2, cells: 6 }));
    assert_eq!(grid_extent(3, 2, 5), Err(EngineError::GridSizeMismatch));
    assert_eq!(grid_extent(usize::MAX, 2, 0), Err(EngineError::GridSizeMismatch));
    assert_eq!(grid_extent(0, 0, 0), Ok(GridExtent { width: 0, height: 0, cells: 0 }));
    if usize::BITS > 32 {
        let wide = (u32::MAX as usize) + 1;
        assert_eq!(grid_extent(wide, 0, 0), Err(EngineError::TooManyCells));
        assert_eq!(grid_extent(0, wide, 0), Err(EngineError::TooManyCells));
        assert_eq!(grid_extent(wide, 1, wide), Err(EngineError::TooManyCells));
        let frame = SimulationFrame { width: wide, height: 0, grid: Vec::new() };
        assert_eq!(ComputeContext::create(frame, zero_rates()).err(), Some(EngineError::TooManyCells));
    }
}

#[test]
fn a_snapshot_is_the_forest_after_the_next_tick() {
    let mut start = SimulationFrame::new(2, 1);
    start.grid[0] = burning(false, 9);
    let mut e = engine(start, zero_rates());
    assert_eq!(
        e.compute_step(zero_rates()),
        SnapshotAction { copy_to_staging: true, begin_read: false }
    );
    assert!(e.finish_read(true).is_none());
    e.send_latest();
    e.send_latest();
    assert_eq!(e.steps(), 1);
    assert_eq!(
        e.compute_step(zero_rates()),
        SnapshotAction { copy_to_staging: true, begin_read: true }
    );
    let frame = match e.finish_read(true) {
        Some(frame) => frame,
        None => panic!("no frame"),
    };
    assert_eq!((frame.width, frame.height), (2, 1));
    assert_eq!(frame.grid, vec![burning(false, 7), CellState::barren()]);
    assert_eq!(&frame.grid, e.current_output_buffer());
}

#[test]
fn the_staging_buffer_has_one_reader_at_a_time() {
    let mut start = SimulationFrame::new(1, 1);
    start.grid[0] = burning(false, 9);
    let mut e = engine(start, zero_rates());
    e.send_latest();
    assert!(e.advance(zero_rates(), 3));
    // The read began with the first of the three ticks.
    e.send_latest();
    let idle = SnapshotAction { copy_to_staging: false, begin_read: false };
    assert_eq!(e.compute_step(zero_rates()), idle);
    assert!(!e.advance(zero_rates(), 2));
    assert_eq!(e.steps(), 6);
    assert_eq!(e.current_output_buffer()[0], burning(false, 3));
    let frame = match e.finish_read(true) {
        Some(frame) => frame,
        None => panic!("no frame"),
    };
    assert_eq!(frame.grid, vec![burning(false, 8)]);
    // The request made meanwhile is served by the next tick.
    assert_eq!(
        e.compute_step(zero_rates()),
        SnapshotAction { copy_to_staging: true, begin_read: true }
    );
}

#[test]
fn a_failed_read_is_dropped_and_frees_the_buffer() {
    let mut start = SimulationFrame::new(1, 1);
    start.grid[0] = burning(false, 9);
    let mut e = engine(start, zero_rates());
    e.send_latest();
    assert!(e.advance(zero_rates(), 1));
    assert!(e.finish_read(false).is_none());
    assert_eq!(e.steps(), 1);
    assert_eq!(e.current_output_buffer()[0], burning(false, 8));
    assert!(!e.advance(zero_rates(), 1));
    e.send_latest();
    assert!(e.advance(zero_rates(), 1));
    assert_eq!(e.finish_read(true).map(|f| f.grid), Some(vec![burning(false, 6)]));
    assert!(!e.advance(zero_rates(), 0));
}

#[test]
fn the_stepper_tells_the_backend_what_to_do_with_the_staging_buffer() {
    let mut s = Stepper::new(zero_rates(), 4);
    assert!(!s.read_in_flight());
    s.request_snapshot();
    assert_eq!(s.tick(zero_rates()).snapshot, SnapshotAction { copy_to_staging: true, begin_read: true });
    assert!(s.read_in_flight());
    s.request_snapshot();
    assert_eq!(s.tick(zero_rates()).snapshot, SnapshotAction { copy_to_staging: false, begin_read: false });
    s.read_done();
    assert!(!s.read_in_flight());
    assert_eq!(s.tick(zero_rates()).snapshot, SnapshotAction { copy_to_staging: true, begin_read: true });
    assert_eq!(SnapshotLatch::new(), SnapshotLatch { requested: false, in_flight: false });
}
