//! The stepping engine: two buffers of cells, of which one holds the forest
//! as it stands and the other takes the next tick's result; a flag that says
//! which is which; and a counter of the ticks done, which also seeds each
//! tick's chance.

use vstd::prelude::*;

use crate::sim::grid::{cells_wf, spec_step_grid, step_into};
use crate::sim::snapshot::{SnapshotAction, SnapshotLatch};
use crate::sim::{BurnState, CellState, SimulationFrame, SimulationParameters};

verus! {

/// Cells that one group of workers handles in a data-parallel tick.
pub const WORKGROUP_SIZE: u32 = 64;

/// One of the engine's two buffers.
#[derive(Clone, Copy, Debug, PartialEq, Eq, Structural)]
pub enum BufferSlot {
    First,
    Second,
}

impl BufferSlot {
    /// The other buffer.
    pub open spec fn spec_other(self) -> BufferSlot {
        match self {
            BufferSlot::First => BufferSlot::Second,
            BufferSlot::Second => BufferSlot::First,
        }
    }

    /// The other buffer.
    pub fn other(self) -> (o: BufferSlot)
        ensures
            o == self.spec_other(),
    {
        match self {
            BufferSlot::First => BufferSlot::Second,
            BufferSlot::Second => BufferSlot::First,
        }
    }
}

/// Why an engine could not be made.
#[derive(Clone, Copy, Debug, PartialEq, Eq, Structural)]
pub enum EngineError {
    /// The frame does not hold `width * height` cells.
    GridSizeMismatch,
    /// The frame is wider or higher, or holds more cells, than a 32-bit
    /// index can tell apart.
    TooManyCells,
}

/// The size of a forest in the numbers that an index of 32 bits allows.
#[derive(Clone, Copy, Debug, PartialEq, Eq, Structural)]
pub struct GridExtent {
    pub width: u32,
    pub height: u32,
    pub cells: u32,
}

/// The extent of a forest of `width` by `height` cells of which `cells` are
/// given: a mismatch where `cells` is not `width * height`, too many where a
/// side or the number of cells is beyond 32 bits.
pub open spec fn spec_grid_extent(width: int, height: int, cells: int) -> Result<
    GridExtent,
    EngineError,
> {
    if cells != width * height {
        Err(EngineError::GridSizeMismatch)
    } else if width > u32::MAX || height > u32::MAX || cells > u32::MAX {
        Err(EngineError::TooManyCells)
    } else {
        Ok(GridExtent { width: width as u32, height: height as u32, cells: cells as u32 })
    }
}

/// The extent of a forest of `width` by `height` cells of which `cells` are
/// given, or why an engine cannot take it.
pub fn grid_extent(width: usize, height: usize, cells: usize) -> (extent: Result<
    GridExtent,
    EngineError,
>)
    ensures
        extent == spec_grid_extent(width as int, height as int, cells as int),
{
    let fits = match width.checked_mul(height) {
        Some(product) => product == cells,
        None => false,
    };
    if !fits {
        return Err(EngineError::GridSizeMismatch);
    }
    if width > u32::MAX as usize || height > u32::MAX as usize || cells > u32::MAX as usize {
        return Err(EngineError::TooManyCells);
    }
    Ok(GridExtent { width: width as u32, height: height as u32, cells: cells as u32 })
}

/// What one tick has to do, in the order of the fields: bring the parameters
/// up to date if they changed, make the tick's number known, then run the
/// rule over `workgroups` groups of cells, reading `input` and writing
/// `output`, and last deal with the staging buffer as `snapshot` says.
#[derive(Clone, Copy, Debug, PartialEq, Eq, Structural)]
pub struct TickPlan {
    pub upload_parameters: bool,
    pub step: u32,
    pub workgroups: u32,
    pub input: BufferSlot,
    pub output: BufferSlot,
    pub snapshot: SnapshotAction,
}

/// The number of groups of `WORKGROUP_SIZE` cells that cover `cells` cells.
pub open spec fn spec_workgroup_count(cells: int) -> int {
    (cells + WORKGROUP_SIZE - 1) / (WORKGROUP_SIZE as int)
}

/// The number of groups of `WORKGROUP_SIZE` cells that cover `cells` cells.
pub fn workgroup_count(cells: u32) -> (groups: u32)
    ensures
        groups == spec_workgroup_count(cells as int),
        groups * WORKGROUP_SIZE >= cells,
        cells > 0 ==> (groups - 1) * WORKGROUP_SIZE < cells,
{
    let groups: u64 = (cells as u64 + 63) / 64;
    groups as u32
}

/// The bookkeeping of ticks: which buffer is current, how many ticks are
/// done, which parameters the rule last saw, and who has the staging buffer.
#[derive(Clone, Copy, Debug)]
pub struct Stepper {
    flipped: bool,
    steps: u32,
    params: SimulationParameters,
    cells: u32,
    latch: SnapshotLatch,
}

/// What a `Stepper` stands for.
pub struct StepperView {
    /// False while the first buffer is current, true while the second is.
    pub flipped: bool,
    /// Ticks done, wrapping round after the last 32-bit value.
    pub steps: u32,
    /// The parameters that the rule last saw.
    pub params: SimulationParameters,
    /// Cells in the forest.
    pub cells: u32,
    /// Whether a copy of the forest was asked for, and whether the staging
    /// buffer is with a reader.
    pub latch: SnapshotLatch,
}

impl StepperView {
    /// The buffer that holds the forest as it stands.
    pub open spec fn current(self) -> BufferSlot {
        if self.flipped {
            BufferSlot::Second
        } else {
            BufferSlot::First
        }
    }

    /// What the next tick has to do under `params`.
    pub open spec fn plan(self, params: SimulationParameters) -> TickPlan {
        TickPlan {
            upload_parameters: params != self.params,
            step: self.steps,
            workgroups: spec_workgroup_count(self.cells as int) as u32,
            input: self.current(),
            output: self.current().spec_other(),
            snapshot: self.latch.spec_action(),
        }
    }

    /// The bookkeeping after one tick under `params`.
    pub open spec fn ticked(self, params: SimulationParameters) -> StepperView {
        StepperView {
            flipped: !self.flipped,
            steps: self.steps.wrapping_add(1),
            params,
            cells: self.cells,
            latch: self.latch.spec_after_tick(),
        }
    }

    /// The bookkeeping after `n` ticks under `params`.
    pub open spec fn advanced(self, params: SimulationParameters, n: nat) -> StepperView
        decreases n,
    {
        if n == 0 {
            self
        } else {
            self.ticked(params).advanced(params, (n - 1) as nat)
        }
    }
}

impl View for Stepper {
    type V = StepperView;

    closed spec fn view(&self) -> StepperView {
        StepperView {
            flipped: self.flipped,
            steps: self.steps,
            params: self.params,
            cells: self.cells,
            latch: self.latch,
        }
    }
}

impl Stepper {
    /// The bookkeeping of a forest of `cells` cells before its first tick:
    /// the first buffer is current, the rule has seen `params`, no copy is
    /// asked for and the staging buffer is free.
    pub fn new(params: SimulationParameters, cells: u32) -> (s: Stepper)
        ensures
            s@ == (StepperView {
                flipped: false,
                steps: 0,
                params,
                cells,
                latch: SnapshotLatch { requested: false, in_flight: false },
            }),
    {
        Stepper { flipped: false, steps: 0, params, cells, latch: SnapshotLatch::new() }
    }

    /// Asks for a copy of the forest as it stands after the next tick. The
    /// copy is begun by the first tick that finds the staging buffer free.
    pub fn request_snapshot(&mut self)
        ensures
            final(self)@ == (StepperView {
                latch: SnapshotLatch { requested: true, in_flight: old(self)@.latch.in_flight },
                ..old(self)@
            }),
    {
        self.latch.request();
    }

    /// Takes note that the reader is done with the staging buffer, whether
    /// the read succeeded or failed: the buffer is free again, and nothing
    /// else changes.
    pub fn read_done(&mut self)
        ensures
            final(self)@ == (StepperView {
                latch: SnapshotLatch { requested: old(self)@.latch.requested, in_flight: false },
                ..old(self)@
            }),
    {
        self.latch.read_done();
    }

    /// Whether the staging buffer is with a reader.
    pub fn read_in_flight(&self) -> (in_flight: bool)
        ensures
            in_flight == self@.latch.in_flight,
    {
        self.latch.in_flight
    }

    /// Whether the second buffer is the current one.
    pub fn is_flipped(&self) -> (f: bool)
        ensures
            f == self@.flipped,
    {
        self.flipped
    }

    /// Ticks done.
    pub fn steps(&self) -> (n: u32)
        ensures
            n == self@.steps,
    {
        self.steps
    }

    /// The parameters that the rule last saw.
    pub fn parameters(&self) -> (p: SimulationParameters)
        ensures
            p == self@.params,
    {
        self.params
    }

    /// The buffer that holds the forest as it stands: the one that the last
    /// tick wrote.
    pub fn current(&self) -> (slot: BufferSlot)
        ensures
            slot == self@.current(),
    {
        if self.flipped {
            BufferSlot::Second
        } else {
            BufferSlot::First
        }
    }

    /// Plans the next tick under `params` and counts it as done: the buffers
    /// change roles, the counter goes up by one, `params` are remembered as
    /// seen, and a read of the staging buffer that the plan begins is noted
    /// as in flight.
    pub fn tick(&mut self, params: SimulationParameters) -> (plan: TickPlan)
        ensures
            plan == old(self)@.plan(params),
            final(self)@ == old(self)@.ticked(params),
    {
        let input = self.current();
        let snapshot = self.latch.tick_done();
        let plan = TickPlan {
            upload_parameters: params != self.params,
            step: self.steps,
            workgroups: workgroup_count(self.cells),
            input,
            output: input.other(),
            snapshot,
        };
        self.params = params;
        self.flipped = !self.flipped;
        self.steps = self.steps.wrapping_add(1);
        plan
    }
}

/// A cell as the engine keeps it: a fire with no tick left counts as no
/// fire, and underbrush beyond one as one.
pub open spec fn spec_sanitize(cell: CellState) -> CellState {
    CellState {
        burning: match cell.burning {
            BurnState::Burning { ticks_remaining } if ticks_remaining >= 1 => cell.burning,
            _ => BurnState::NotBurning,
        },
        underbrush: cell.underbrush.spec_clamp_unit(),
        tree: cell.tree,
    }
}

/// A cell as the engine keeps it.
pub fn sanitize(cell: &CellState) -> (clean: CellState)
    ensures
        clean == spec_sanitize(*cell),
        clean.wf(),
        cell.wf() ==> clean == *cell,
{
    let burning = match cell.burning {
        BurnState::Burning { ticks_remaining } => {
            if ticks_remaining >= 1 {
                cell.burning
            } else {
                BurnState::NotBurning
            }
        },
        BurnState::NotBurning => BurnState::NotBurning,
    };
    CellState { burning, underbrush: cell.underbrush.clamp_unit(), tree: cell.tree }
}

/// The engine: the forest as it stands, a scratch buffer of the same size,
/// a staging buffer through which copies of the forest leave, and the
/// bookkeeping of ticks.
pub struct ComputeContext {
    buf_1: Vec<CellState>,
    buf_2: Vec<CellState>,
    staging: Vec<CellState>,
    stepper: Stepper,
    width: usize,
    height: usize,
}

/// What a `ComputeContext` stands for.
pub struct ContextView {
    /// The forest as it stands, row by row.
    pub cells: Seq<CellState>,
    /// What the other buffer holds: the forest as it stood before the last
    /// tick, or empty cells where no tick has been done.
    pub previous: Seq<CellState>,
    pub width: int,
    pub height: int,
    /// False while the first buffer holds the forest, true while the second
    /// does.
    pub flipped: bool,
    /// Ticks done, wrapping round after the last 32-bit value.
    pub steps: u32,
    /// The parameters that the rule last saw.
    pub params: SimulationParameters,
    /// What the staging buffer holds: the result of the last tick that found
    /// it free, or empty cells before the first one.
    pub staging: Seq<CellState>,
    /// Whether a copy of the forest was asked for, and whether the staging
    /// buffer is with a reader.
    pub latch: SnapshotLatch,
}

impl ContextView {
    /// The engine after one tick under `params`.
    pub open spec fn ticked(self, params: SimulationParameters) -> ContextView {
        ContextView {
            cells: spec_step_grid(self.cells, self.width, self.height, params, self.steps),
            previous: self.cells,
            width: self.width,
            height: self.height,
            flipped: !self.flipped,
            steps: self.steps.wrapping_add(1),
            params,
            staging: if self.latch.spec_action().copy_to_staging {
                spec_step_grid(self.cells, self.width, self.height, params, self.steps)
            } else {
                self.staging
            },
            latch: self.latch.spec_after_tick(),
        }
    }

    /// The engine once a copy of the forest is asked for.
    pub open spec fn requested(self) -> ContextView {
        ContextView {
            latch: SnapshotLatch { requested: true, in_flight: self.latch.in_flight },
            ..self
        }
    }

    /// The engine once the reader is done with the staging buffer.
    pub open spec fn released(self) -> ContextView {
        ContextView {
            latch: SnapshotLatch { requested: self.latch.requested, in_flight: false },
            ..self
        }
    }

    /// The engine after `n` ticks under `params`.
    pub open spec fn advanced(self, params: SimulationParameters, n: nat) -> ContextView
        decreases n,
    {
        if n == 0 {
            self
        } else {
            self.ticked(params).advanced(params, (n - 1) as nat)
        }
    }
}

impl View for ComputeContext {
    type V = ContextView;

    closed spec fn view(&self) -> ContextView {
        ContextView {
            cells: if self.stepper@.flipped {
                self.buf_2@
            } else {
                self.buf_1@
            },
            previous: if self.stepper@.flipped {
                self.buf_1@
            } else {
                self.buf_2@
            },
            width: self.width as int,
            height: self.height as int,
            flipped: self.stepper@.flipped,
            steps: self.stepper@.steps,
            params: self.stepper@.params,
            staging: self.staging@,
            latch: self.stepper@.latch,
        }
    }
}

/// Makes `target` hold what `source` holds.
fn copy_cells(source: &Vec<CellState>, target: &mut Vec<CellState>)
    requires
        old(target)@.len() == source@.len(),
    ensures
        final(target)@ == source@,
{
    let total: usize = source.len();
    let mut i: usize = 0;
    while i < total
        invariant
            i <= total,
            total == source@.len(),
            target@.len() == source@.len(),
            forall|j: int| 0 <= j < i ==> target@[j] == source@[j],
        decreases total - i,
    {
        target.set(i, source[i]);
        i += 1;
    }
    assert(target@ =~= source@);
}

impl ComputeContext {
    /// Both buffers hold one cell for each position, the positions fit a
    /// 32-bit index, and the cells of the forest as it stands are
    /// well-formed.
    pub closed spec fn wf(&self) -> bool {
        &&& self.buf_1@.len() == self.width * self.height
        &&& self.buf_2@.len() == self.width * self.height
        &&& self.staging@.len() == self.width * self.height
        &&& self.width * self.height <= u32::MAX
        &&& self.stepper@.cells == self.width * self.height
        &&& cells_wf(self@.cells)
    }

    /// What a well-formed engine's view is known to satisfy.
    pub proof fn lemma_wf(&self)
        requires
            self.wf(),
        ensures
            self@.cells.len() == self@.width * self@.height,
            self@.previous.len() == self@.cells.len(),
            self@.staging.len() == self@.cells.len(),
            self@.cells.len() <= u32::MAX,
            0 <= self@.width,
            0 <= self@.height,
            cells_wf(self@.cells),
    {
    }

    /// An engine that starts from `start` with no tick done, no copy asked
    /// for and the staging buffer free. Refuses a frame that
    /// `spec_grid_extent` refuses. Cells that are not well-formed are taken
    /// as `spec_sanitize` gives them.
    pub fn create(start: SimulationFrame, parameters: SimulationParameters) -> (made: Result<
        ComputeContext,
        EngineError,
    >)
        ensures
            spec_grid_extent(
                start.width as int,
                start.height as int,
                start.grid@.len() as int,
            ) matches Err(e) ==> made == Err::<ComputeContext, EngineError>(e),
            spec_grid_extent(start.width as int, start.height as int, start.grid@.len() as int)
                is Ok ==> made is Ok && made->Ok_0.wf() && made->Ok_0@ == (ContextView {
                cells: start.grid@.map_values(|c: CellState| spec_sanitize(c)),
                previous: Seq::new(start.grid@.len(), |i: int| CellState::spec_barren()),
                width: start.width as int,
                height: start.height as int,
                flipped: false,
                steps: 0,
                params: parameters,
                staging: Seq::new(start.grid@.len(), |i: int| CellState::spec_barren()),
                latch: SnapshotLatch { requested: false, in_flight: false },
            }),
    {
        let total: usize = start.grid.len();
        let extent = match grid_extent(start.width, start.height, total) {
            Ok(extent) => extent,
            Err(e) => {
                return Err(e);
            },
        };
        let mut buf_1: Vec<CellState> = Vec::new();
        let mut buf_2: Vec<CellState> = Vec::new();
        let mut staging: Vec<CellState> = Vec::new();
        let mut i: usize = 0;
        while i < total
            invariant
                i <= total,
                total == start.grid@.len(),
                buf_1@.len() == i,
                buf_2@.len() == i,
                staging@.len() == i,
                forall|j: int| 0 <= j < i ==> buf_1@[j] == spec_sanitize(start.grid@[j]),
                forall|j: int| 0 <= j < i ==> (#[trigger] buf_1@[j]).wf(),
                forall|j: int| 0 <= j < i ==> buf_2@[j] == CellState::spec_barren(),
                forall|j: int| 0 <= j < i ==> staging@[j] == CellState::spec_barren(),
            decreases total - i,
        {
            buf_1.push(sanitize(&start.grid[i]));
            buf_2.push(CellState::barren());
            staging.push(CellState::barren());
            i += 1;
        }
        assert(buf_1@ =~= start.grid@.map_values(|c: CellState| spec_sanitize(c)));
        assert(buf_2@ =~= Seq::new(start.grid@.len(), |i: int| CellState::spec_barren()));
        assert(staging@ =~= Seq::new(start.grid@.len(), |i: int| CellState::spec_barren()));
        Ok(
            ComputeContext {
                buf_1,
                buf_2,
                staging,
                stepper: Stepper::new(parameters, extent.cells),
                width: start.width,
                height: start.height,
            },
        )
    }

    /// Whether the second buffer holds the forest as it stands.
    pub fn is_flipped(&self) -> (f: bool)
        ensures
            f == self@.flipped,
    {
        self.stepper.is_flipped()
    }

    /// Width and height of the forest, in cells.
    pub fn dimensions(&self) -> (d: (usize, usize))
        ensures
            d.0 == self@.width,
            d.1 == self@.height,
    {
        (self.width, self.height)
    }

    /// Ticks done.
    pub fn steps(&self) -> (n: u32)
        ensures
            n == self@.steps,
    {
        self.stepper.steps()
    }

    /// The buffer that the last tick wrote: the forest as it stands. This is
    /// the buffer to draw.
    pub fn current_output_buffer(&self) -> (buf: &Vec<CellState>)
        ensures
            buf@ == self@.cells,
    {
        if self.stepper.is_flipped() {
            &self.buf_2
        } else {
            &self.buf_1
        }
    }

    /// The buffer that the last tick read, which the next tick will write.
    pub fn current_input_buffer(&self) -> (buf: &Vec<CellState>)
        ensures
            buf@ == self@.previous,
    {
        if self.stepper.is_flipped() {
            &self.buf_1
        } else {
            &self.buf_2
        }
    }

    /// Both buffers, the first one first. Which of them holds the forest as
    /// it stands, `is_flipped` tells.
    pub fn get_buffers(&self) -> (bufs: (&Vec<CellState>, &Vec<CellState>))
        ensures
            self@.flipped ==> bufs.0@ == self@.previous && bufs.1@ == self@.cells,
            !self@.flipped ==> bufs.0@ == self@.cells && bufs.1@ == self@.previous,
    {
        (&self.buf_1, &self.buf_2)
    }

    /// One tick under `parameters`: every cell's next state is computed from
    /// the forest as it stands and written to the scratch buffer, then the
    /// buffers change roles and the counter goes up by one. The result is
    /// copied to the staging buffer unless a reader has it. Where a copy was
    /// asked for and the staging buffer was free, a read begins with this
    /// tick; the caller hands the buffer to the reader and reports back with
    /// `finish_read`.
    pub fn compute_step(&mut self, parameters: SimulationParameters) -> (action: SnapshotAction)
        requires
            old(self).wf(),
        ensures
            final(self).wf(),
            final(self)@ == old(self)@.ticked(parameters),
            action == old(self)@.latch.spec_action(),
    {
        let plan = self.stepper.tick(parameters);
        match plan.input {
            BufferSlot::First => {
                step_into(&self.buf_1, &mut self.buf_2, self.width, self.height, &parameters, plan.step);
                if plan.snapshot.copy_to_staging {
                    copy_cells(&self.buf_2, &mut self.staging);
                }
            },
            BufferSlot::Second => {
                step_into(&self.buf_2, &mut self.buf_1, self.width, self.height, &parameters, plan.step);
                if plan.snapshot.copy_to_staging {
                    copy_cells(&self.buf_1, &mut self.staging);
                }
            },
        }
        plan.snapshot
    }

    /// `n_ticks` ticks under `parameters`, one after the other. Says whether
    /// a read of the staging buffer began: that is so where a tick was run
    /// and a copy was asked for while the buffer was free, and then it began
    /// with the first tick.
    pub fn advance(&mut self, parameters: SimulationParameters, n_ticks: u32) -> (read_begun: bool)
        requires
            old(self).wf(),
        ensures
            final(self).wf(),
            final(self)@ == old(self)@.advanced(parameters, n_ticks as nat),
            read_begun == (n_ticks > 0 && old(self)@.latch.spec_action().begin_read),
    {
        let mut done: u32 = 0;
        let mut read_begun: bool = false;
        while done < n_ticks
            invariant
                done <= n_ticks,
                self.wf(),
                self@.advanced(parameters, (n_ticks - done) as nat) == old(self)@.advanced(
                    parameters,
                    n_ticks as nat,
                ),
                read_begun == (done > 0 && old(self)@.latch.spec_action().begin_read),
                done > 0 ==> !self@.latch.spec_action().begin_read,
                done == 0 ==> self@.latch == old(self)@.latch,
            decreases n_ticks - done,
        {
            let action = self.compute_step(parameters);
            if action.begin_read {
                read_begun = true;
            }
            done += 1;
        }
        read_begun
    }

    /// Asks for a copy of the forest as it stands after the next tick.
    /// Nothing is copied or handed out by this call: the next tick that
    /// finds the staging buffer free begins the read, so that the buffer is
    /// with one reader at most.
    pub fn send_latest(&mut self)
        requires
            old(self).wf(),
        ensures
            final(self).wf(),
            final(self)@ == old(self)@.requested(),
    {
        self.stepper.request_snapshot();
    }

    /// Ends a read of the staging buffer. Where a read was in flight and the
    /// buffer could be read, the frame that it holds is returned for
    /// publishing; where the read failed, or none was in flight, nothing is.
    /// Either way the staging buffer is free again, and the forest, the
    /// counter and the parameters are as they were.
    pub fn finish_read(&mut self, readable: bool) -> (frame: Option<SimulationFrame>)
        requires
            old(self).wf(),
        ensures
            final(self).wf(),
            final(self)@ == old(self)@.released(),
            !(readable && old(self)@.latch.in_flight) ==> frame is None,
            readable && old(self)@.latch.in_flight ==> frame is Some && frame->Some_0.width
                == old(self)@.width && frame->Some_0.height == old(self)@.height
                && frame->Some_0.grid@ == old(self)@.staging,
    {
        let in_flight = self.stepper.read_in_flight();
        self.stepper.read_done();
        if readable && in_flight {
            let total: usize = self.staging.len();
            let mut grid: Vec<CellState> = Vec::new();
            let mut i: usize = 0;
            while i < total
                invariant
                    i <= total,
                    total == self.staging@.len(),
                    grid@ == self.staging@.subrange(0, i as int),
                decreases total - i,
            {
                grid.push(self.staging[i]);
                assert(grid@ =~= self.staging@.subrange(0, i + 1));
                i += 1;
            }
            assert(grid@ =~= self.staging@);
            Some(SimulationFrame { width: self.width, height: self.height, grid })
        } else {
            None
        }
    }
}

/// While a reader has the staging buffer, a tick neither writes to it nor
/// hands it to a second reader, and it stays with the reader until the read
/// is ended; the forest itself ticks on as ever.
pub proof fn lemma_staging_has_one_reader(v: ContextView, params: SimulationParameters)
    requires
        v.latch.in_flight,
    ensures
        v.ticked(params).staging == v.staging,
        v.ticked(params).latch == v.latch,
        !v.latch.spec_action().begin_read,
        !v.latch.spec_action().copy_to_staging,
        v.ticked(params).cells == spec_step_grid(v.cells, v.width, v.height, params, v.steps),
{
}

/// A read that begins with a tick finds in the staging buffer the forest as
/// that tick left it.
pub proof fn lemma_read_sees_the_tick(v: ContextView, params: SimulationParameters)
    requires
        v.latch.spec_action().begin_read,
    ensures
        v.ticked(params).latch.in_flight,
        !v.ticked(params).latch.requested,
        v.ticked(params).staging == v.ticked(params).cells,
{
}

/// Ending a read, also one that failed, changes nothing but the latch: no
/// tick is run, and the staging buffer is free for the next copy.
pub proof fn lemma_failed_read_is_dropped(v: ContextView)
    ensures
        v.released().cells == v.cells,
        v.released().steps == v.steps,
        v.released().flipped == v.flipped,
        v.released().staging == v.staging,
        v.released().latch.requested == v.latch.requested,
        !v.released().latch.in_flight,
        v.released().latch.spec_action().copy_to_staging,
{
}

} // verus!
