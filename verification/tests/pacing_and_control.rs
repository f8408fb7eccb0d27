use firesim::fixed::Fixed;
use firesim::rendering::{
    cell_color, display_simframe, pixel_cell, resize_applies, surface_extent,
};
use firesim::sim::control::{
    after_frame, ControlMessage, FollowUp, FrameAction, LoopState, SimulationControl,
    SurfaceOutcome,
};
use firesim::sim::engine::ComputeContext;
use firesim::sim::schedule::{
    after_tick, before_tick, FramePacer, ProducerStep, ProducerTotals, ProducerWait,
};
use firesim::sim::snapshot::{SnapshotAction, SnapshotLatch};
use firesim::sim::{BurnState, CellState, ConfigurableParameters, SimulationFrame, SimulationParameters};

fn latest(engine: &ComputeContext) -> SimulationFrame {
    let (width, height) = engine.dimensions();
    SimulationFrame { width, height, grid: engine.current_output_buffer().clone() }
}

fn config() -> ConfigurableParameters {
    ConfigurableParameters::realistic(8, 8, Fixed::from_int(2), Fixed::from_int(5))
}

#[test]
fn first_redraw_owes_no_tick() {
    let mut pacer = FramePacer::new();
    assert_eq!(pacer.ticks_due(123456, 60), 0);
}

#[test]
fn elapsed_time_becomes_ticks_and_the_rest_is_kept() {
    let mut pacer = FramePacer::new();
    pacer.ticks_due(1000, 3);
    assert_eq!(pacer.ticks_due(1400, 3), 1);
    assert_eq!(pacer.ticks_due(1700, 3), 1);
    assert_eq!(pacer.ticks_due(1800, 3), 0);
    assert_eq!(pacer.ticks_due(2000, 3), 1);
    let mut total = 0;
    let mut now = 2000;
    for _ in 0..60 {
        now += 16;
        total += pacer.ticks_due(now, 60);
    }
    assert_eq!(total, 57);
}

#[test]
fn a_long_pause_runs_a_hundred_ticks_at_most() {
    let mut pacer = FramePacer::new();
    pacer.ticks_due(0, 60);
    assert_eq!(pacer.ticks_due(3_600_000, 60), 100);
    assert_eq!(pacer.ticks_due(3_600_000, 60), 0);
    assert_eq!(pacer.ticks_due(u64::MAX, u32::MAX), 100);
    assert_eq!(pacer.ticks_due(u64::MAX, 1000), 0);
}

#[test]
fn a_rate_of_zero_never_ticks() {
    let mut pacer = FramePacer::new();
    pacer.ticks_due(0, 0);
    assert_eq!(pacer.ticks_due(1_000_000, 0), 0);
    assert_eq!(pacer.ticks_due(2_000_000, 0), 0);
    assert_eq!(pacer.ticks_due(2_000_500, 2), 1);
}

#[test]
fn a_clock_that_goes_backwards_owes_nothing() {
    let mut pacer = FramePacer::new();
    pacer.ticks_due(5000, 10);
    assert_eq!(pacer.ticks_due(4000, 10), 0);
    assert_eq!(pacer.ticks_due(4100, 10), 1);
}

#[test]
fn producer_waits_for_the_rest_of_the_ticks_share() {
    assert_eq!(after_tick(0, 0), ProducerWait::ForParameters);
    assert_eq!(after_tick(0, 99999), ProducerWait::ForParameters);
    assert_eq!(after_tick(10, 0), ProducerWait::Sleep { ms: 100 });
    assert_eq!(after_tick(10, 30), ProducerWait::Sleep { ms: 70 });
    assert_eq!(after_tick(3, 100), ProducerWait::Sleep { ms: 233 });
    assert_eq!(after_tick(10, 100), ProducerWait::No);
    assert_eq!(after_tick(10, 5000), ProducerWait::No);
    assert_eq!(after_tick(2000, 0), ProducerWait::Sleep { ms: 0 });
    assert_eq!(after_tick(u32::MAX, u64::MAX), ProducerWait::No);
}

#[test]
fn control_moves_between_running_and_paused() {
    let mut c = SimulationControl::new(config());
    assert_eq!(c.state, LoopState::Running);
    assert!(!c.is_paused() && !c.is_stopped());
    c.toggle_pause();
    assert!(c.is_paused());
    c.toggle_pause();
    assert_eq!(c.state, LoopState::Running);
    c.pause();
    c.pause();
    assert!(c.is_paused());
    c.unpause();
    assert_eq!(c.state, LoopState::Running);
    c.unpause();
    assert_eq!(c.state, LoopState::Running);
}

#[test]
fn stop_is_final() {
    let mut c = SimulationControl::new(config());
    c.pause();
    c.stop();
    assert!(c.is_stopped() && !c.is_paused());
    c.toggle_pause();
    c.unpause();
    c.pause();
    c.apply(ControlMessage::Resume);
    c.apply(ControlMessage::TogglePause);
    c.apply(ControlMessage::SetParameters(config()));
    assert!(c.is_stopped());
    assert_eq!(c.frame_action(), FrameAction::Nothing);
}

#[test]
fn messages_do_what_the_methods_do() {
    let mut c = SimulationControl::new(config());
    c.apply(ControlMessage::TogglePause);
    assert!(c.is_paused());
    c.apply(ControlMessage::Resume);
    assert_eq!(c.state, LoopState::Running);
    let mut other = config();
    other.tree_fire_duration = 77;
    c.apply(ControlMessage::SetParameters(other));
    assert_eq!(c.get_parameters(), other);
    assert_eq!(c.state, LoopState::Running);
    c.apply(ControlMessage::Stop);
    assert!(c.is_stopped());
}

#[test]
fn a_redraw_ticks_only_while_running() {
    let mut c = SimulationControl::new(config());
    assert_eq!(c.frame_action(), FrameAction::StepAndRender(SimulationParameters::from(&config())));
    c.pause();
    assert_eq!(c.frame_action(), FrameAction::RenderOnly);
    c.set_months_per_second(Fixed::from_int(9));
    assert_eq!(c.frame_action(), FrameAction::RenderOnly);
    c.unpause();
    match c.frame_action() {
        FrameAction::StepAndRender(p) => assert_eq!(p.tick_rate, 18),
        other => panic!("unexpected action {:?}", other),
    }
}

#[test]
fn pause_preserves_the_step_count() {
    let mut control = SimulationControl::new(config());
    let mut pacer = FramePacer::new();
    let mut engine = match ComputeContext::create(SimulationFrame::new(8, 8), SimulationParameters::from(&config())) {
        Ok(e) => e,
        Err(e) => panic!("no engine: {:?}", e),
    };
    let redraw = |control: &SimulationControl, pacer: &mut FramePacer, engine: &mut ComputeContext, now: u64| {
        if let FrameAction::StepAndRender(p) = control.frame_action() {
            let due = pacer.ticks_due(now, p.tick_rate);
            engine.advance(p, due);
        }
    };
    redraw(&control, &mut pacer, &mut engine, 0);
    redraw(&control, &mut pacer, &mut engine, 1000);
    assert_eq!(engine.steps(), 10);
    control.pause();
    redraw(&control, &mut pacer, &mut engine, 3000);
    redraw(&control, &mut pacer, &mut engine, 6000);
    assert_eq!(engine.steps(), 10);
    control.unpause();
    assert_eq!(engine.steps(), 10);
    redraw(&control, &mut pacer, &mut engine, 6100);
    assert!(engine.steps() > 10);
}

#[test]
fn setters_change_one_field_each() {
    let base = config();
    let mut c = SimulationControl::new(base);
    let v = Fixed::from_ratio(3, 7);
    c.set_lightning_frequency(v);
    assert_eq!(c.get_lightning_frequency(), v);
    assert_eq!(c.config_params, ConfigurableParameters { lightning_strikes_per_year_per_acre: v, ..base });
    let mut c = SimulationControl::new(base);
    c.set_fire_spread_rate(v);
    assert_eq!(c.config_params, ConfigurableParameters { fire_spread_rate: v, ..base });
    assert_eq!(c.get_fire_spread_rate(), v);
    let mut c = SimulationControl::new(base);
    c.set_tree_growth_years(v);
    assert_eq!(c.config_params, ConfigurableParameters { tree_growth_years: v, ..base });
    assert_eq!(c.get_tree_growth_years(), v);
    let mut c = SimulationControl::new(base);
    c.set_tree_death_years(v);
    assert_eq!(c.config_params, ConfigurableParameters { tree_death_years: v, ..base });
    assert_eq!(c.get_tree_death_years(), v);
    let mut c = SimulationControl::new(base);
    c.set_months_per_second(v);
    assert_eq!(c.config_params, ConfigurableParameters { months_per_second: v, ..base });
    assert_eq!(c.get_months_per_second(), v);
    let mut c = SimulationControl::new(base);
    c.set_ticks_per_month(v);
    assert_eq!(c.config_params, ConfigurableParameters { ticks_per_month: v, ..base });
    assert_eq!(c.get_ticks_per_month(), v);
    let mut c = SimulationControl::new(base);
    c.set_tree_flammability(v);
    assert_eq!(c.config_params, ConfigurableParameters { tree_flammability: v, ..base });
    assert_eq!(c.get_tree_flammability(), v);
    let mut c = SimulationControl::new(base);
    c.set_underbrush_flammability(v);
    assert_eq!(c.config_params, ConfigurableParameters { underbrush_flammability: v, ..base });
    assert_eq!(c.get_underbrush_flammability(), v);
    let mut c = SimulationControl::new(base);
    c.set_underbrush_tree_growth_hindrance(v);
    assert_eq!(c.config_params, ConfigurableParameters { underbrush_tree_growth_hindrance: v, ..base });
    assert_eq!(c.get_underbrush_tree_growth_hindrance(), v);
    let mut c = SimulationControl::new(base);
    c.set_tree_underbrush_generation(v);
    assert_eq!(c.config_params, ConfigurableParameters { tree_underbrush_generation: v, ..base });
    assert_eq!(c.get_tree_underbrush_generation(), v);
    let mut c = SimulationControl::new(base);
    c.set_tree_death_underbrush(v);
    assert_eq!(c.config_params, ConfigurableParameters { tree_death_underbrush: v, ..base });
    assert_eq!(c.get_tree_death_underbrush(), v);
    let mut c = SimulationControl::new(base);
    c.set_tree_fire_duration(31);
    assert_eq!(c.config_params, ConfigurableParameters { tree_fire_duration: 31, ..base });
    assert_eq!(c.get_tree_fire_duration(), 31);
    let mut c = SimulationControl::new(base);
    c.set_underbrush_fire_duration(32);
    assert_eq!(c.config_params, ConfigurableParameters { underbrush_fire_duration: 32, ..base });
    assert_eq!(c.get_underbrush_fire_duration(), 32);
    assert_eq!(c.get_forest_width(), 8);
    assert_eq!(c.get_forest_height(), 8);
    assert_eq!(c.get_forest_acres(), base.forest_acres);
}

#[test]
fn frame_outcomes_decide_what_follows() {
    let go = FollowUp { reconfigure: false, request_redraw: true, exit: false };
    assert_eq!(after_frame(LoopState::Running, SurfaceOutcome::Presented), go);
    assert_eq!(after_frame(LoopState::Paused, SurfaceOutcome::Presented), go);
    assert_eq!(after_frame(LoopState::Running, SurfaceOutcome::Transient), go);
    assert_eq!(
        after_frame(LoopState::Running, SurfaceOutcome::Lost),
        FollowUp { reconfigure: true, request_redraw: true, exit: false }
    );
    assert_eq!(
        after_frame(LoopState::Stopped, SurfaceOutcome::Lost),
        FollowUp { reconfigure: true, request_redraw: false, exit: false }
    );
    assert_eq!(
        after_frame(LoopState::Running, SurfaceOutcome::OutOfMemory),
        FollowUp { reconfigure: false, request_redraw: false, exit: true }
    );
    assert_eq!(
        after_frame(LoopState::Stopped, SurfaceOutcome::Presented),
        FollowUp { reconfigure: false, request_redraw: false, exit: false }
    );
}

#[test]
fn cells_take_the_colour_of_what_they_hold() {
    let fire = CellState { burning: BurnState::Burning { ticks_remaining: 1 }, underbrush: Fixed::one(), tree: true };
    assert_eq!(cell_color(&fire).as_u32(), 0xff0000);
    let tree = CellState { burning: BurnState::NotBurning, underbrush: Fixed::one(), tree: true };
    assert_eq!(cell_color(&tree).as_u32(), 0x00a000);
    assert_eq!(cell_color(&CellState::barren()).as_u32(), (26 << 16) | (26 << 8) | 26);
    let brush = CellState { burning: BurnState::NotBurning, underbrush: Fixed::one(), tree: false };
    assert_eq!(cell_color(&brush).as_u32(), (140 << 16) | (105 << 8) | 20);
    let thick = CellState { burning: BurnState::NotBurning, underbrush: Fixed::from_int(9), tree: false };
    assert_eq!(cell_color(&thick).as_u32(), (140 << 16) | (105 << 8) | 20);
    let some = CellState { burning: BurnState::NotBurning, underbrush: Fixed::from_ratio(1, 2), tree: false };
    assert_eq!(cell_color(&some).as_u32(), (83 << 16) | (66 << 8) | 23);
}

#[test]
fn pixels_show_the_cell_behind_them() {
    assert_eq!(pixel_cell(0, 1000, 500), 0);
    assert_eq!(pixel_cell(999, 1000, 500), 499);
    assert_eq!(pixel_cell(3, 4, 2), 1);
    assert_eq!(pixel_cell(1, 2, 6), 3);
    let mut frame = SimulationFrame::new(2, 1);
    frame.grid[1] = CellState { burning: BurnState::NotBurning, underbrush: Fixed::zero(), tree: true };
    let mut buffer = vec![0u32; 8];
    display_simframe(&frame, &mut buffer, 4, 2);
    let ground = (26 << 16) | (26 << 8) | 26;
    assert_eq!(buffer, vec![ground, ground, 0xa000, 0xa000, ground, ground, 0xa000, 0xa000]);
    let mut untouched = vec![5u32; 4];
    display_simframe(&SimulationFrame::new(0, 0), &mut untouched, 2, 2);
    assert_eq!(untouched, vec![5, 5, 5, 5]);
}

#[test]
fn render_draws_the_buffer_of_the_current_parity() {
    let mut start = SimulationFrame::new(1, 1);
    start.grid[0] = CellState { burning: BurnState::Burning { ticks_remaining: 4 }, underbrush: Fixed::zero(), tree: true };
    let p = SimulationParameters::from(&config());
    let mut engine = match ComputeContext::create(start, p) {
        Ok(e) => e,
        Err(e) => panic!("no engine: {:?}", e),
    };
    engine.advance(p, 3);
    assert!(engine.is_flipped());
    let mut buffer = vec![0u32; 1];
    display_simframe(&latest(&engine), &mut buffer, 1, 1);
    assert_eq!(buffer, vec![0xff0000]);
    assert_eq!(engine.get_buffers().1[0].burning, BurnState::Burning { ticks_remaining: 1 });
    engine.advance(p, 1);
    assert_eq!(engine.steps(), 4);
    assert!(!engine.is_flipped());
    display_simframe(&latest(&engine), &mut buffer, 1, 1);
    assert_eq!(buffer, vec![(26 << 16) | (26 << 8) | 26]);
    assert_eq!(engine.get_buffers().0[0], CellState::barren());
}

#[test]
fn surfaces_have_pixels() {
    assert_eq!(surface_extent(0, 0), (1, 1));
    assert_eq!(surface_extent(800, 0), (800, 1));
    assert_eq!(surface_extent(800, 600), (800, 600));
    assert!(resize_applies(1, 1));
    assert!(!resize_applies(0, 5));
    assert!(!resize_applies(5, 0));
}

#[test]
fn snapshots_pass_through_one_staging_buffer() {
    let mut latch = SnapshotLatch::new();
    assert_eq!(latch.tick_done(), SnapshotAction { copy_to_staging: true, begin_read: false });
    latch.request();
    latch.request();
    assert_eq!(latch, SnapshotLatch { requested: true, in_flight: false });
    assert_eq!(latch.tick_done(), SnapshotAction { copy_to_staging: true, begin_read: true });
    assert_eq!(latch, SnapshotLatch { requested: false, in_flight: true });
    assert_eq!(latch.tick_done(), SnapshotAction { copy_to_staging: false, begin_read: false });
    latch.request();
    assert_eq!(latch.tick_done(), SnapshotAction { copy_to_staging: false, begin_read: false });
    assert_eq!(latch, SnapshotLatch { requested: true, in_flight: true });
    latch.read_done();
    assert_eq!(latch.tick_done(), SnapshotAction { copy_to_staging: true, begin_read: true });
    latch.read_done();
    assert_eq!(latch, SnapshotLatch::new());
}

#[test]
fn producer_totals_add_up() {
    let mut totals = ProducerTotals::new();
    assert_eq!(totals.finish().average_step_exec_time.raw, u64::MAX);
    totals.record(3);
    totals.record(4);
    assert_eq!(totals, ProducerTotals { total_ms: 7, ticks: 2 });
    assert_eq!(totals.finish().average_step_exec_time.raw, 7 << 31);
    totals.record(u64::MAX);
    assert_eq!(totals, ProducerTotals { total_ms: u64::MAX, ticks: 3 });
}

#[test]
fn left_over_time_keeps_its_worth_when_the_rate_changes() {
    let mut pacer = FramePacer::new();
    assert_eq!(pacer.ticks_due(1000, 1), 0);
    assert_eq!(pacer.ticks_due(1900, 1), 0);
    // Nine tenths of a second are left over; a tenth is added.
    assert_eq!(pacer.ticks_due(2000, 50), 50);
    let mut pacer = FramePacer::new();
    pacer.ticks_due(0, 4);
    assert_eq!(pacer.ticks_due(200, 4), 0);
    // A fifth of a second left over is worth two ticks at ten a second.
    assert_eq!(pacer.ticks_due(200, 10), 2);
    let mut pacer = FramePacer::new();
    pacer.ticks_due(0, 3);
    assert_eq!(pacer.ticks_due(300, 3), 0);
    assert_eq!(pacer.ticks_due(300, 0), 0);
    assert_eq!(pacer.ticks_due(900, 0), 0);
    // The three tenths from before the pause count; the pause does not.
    assert_eq!(pacer.ticks_due(1000, 3), 1);
}

#[test]
fn a_frame_without_a_surface_runs_no_tick() {
    for outcome in [SurfaceOutcome::Lost, SurfaceOutcome::OutOfMemory, SurfaceOutcome::Transient] {
        let mut pacer = FramePacer::new();
        assert_eq!(pacer.ticks_for_frame(SurfaceOutcome::Presented, 0, 10), 0);
        assert_eq!(pacer.ticks_for_frame(outcome, 1000, 10), 0);
        // The time of the failed frame is not made up for.
        assert_eq!(pacer.ticks_for_frame(SurfaceOutcome::Presented, 1100, 10), 1);
    }
    let mut pacer = FramePacer::new();
    pacer.ticks_for_frame(SurfaceOutcome::Presented, 0, 10);
    assert_eq!(pacer.ticks_for_frame(SurfaceOutcome::Presented, 1000, 10), 10);
    assert_eq!(pacer.ticks_for_frame(SurfaceOutcome::Presented, 1_000_000, 10), 100);
    assert_eq!(pacer.ticks_for_frame(SurfaceOutcome::Presented, 2_000_000, 0), 0);
}

#[test]
fn a_lost_surface_leaves_the_forest_as_it_was() {
    let p = SimulationParameters::from(&config());
    let mut engine = match ComputeContext::create(SimulationFrame::new(8, 8), p) {
        Ok(e) => e,
        Err(e) => panic!("no engine: {:?}", e),
    };
    let mut pacer = FramePacer::new();
    let control = SimulationControl::new(config());
    pacer.ticks_for_frame(SurfaceOutcome::Presented, 0, p.tick_rate);
    let due = pacer.ticks_for_frame(SurfaceOutcome::Lost, 5000, p.tick_rate);
    engine.advance(p, due);
    assert_eq!(engine.steps(), 0);
    assert!(!engine.is_flipped());
    assert_eq!(
        after_frame(control.state, SurfaceOutcome::Lost),
        FollowUp { reconfigure: true, request_redraw: true, exit: false }
    );
}

#[test]
fn a_producer_at_rate_zero_waits_and_runs_no_tick() {
    assert_eq!(before_tick(false, 0), ProducerStep::WaitForParameters);
    assert_eq!(before_tick(false, 1), ProducerStep::Tick);
    assert_eq!(before_tick(false, u32::MAX), ProducerStep::Tick);
    assert_eq!(before_tick(true, 0), ProducerStep::Stop);
    assert_eq!(before_tick(true, 60), ProducerStep::Stop);
}
