//! Control of a running simulation: whether it runs, pauses or has stopped,
//! which parameters it runs under, and what a redraw has to do.

use vstd::prelude::*;

use crate::fixed::Fixed;
use crate::sim::{ConfigurableParameters, SimulationParameters};

verus! {

/// Whether the loop ticks.
#[derive(Clone, Copy, Debug, PartialEq, Eq, Structural)]
pub enum LoopState {
    /// Ticks and draws.
    Running,
    /// Draws, but does not tick.
    Paused,
    /// Neither ticks nor draws, and never will again.
    Stopped,
}

impl LoopState {
    /// Running becomes paused and paused running; stopped stays.
    pub open spec fn toggled(self) -> LoopState {
        match self {
            LoopState::Running => LoopState::Paused,
            LoopState::Paused => LoopState::Running,
            LoopState::Stopped => LoopState::Stopped,
        }
    }

    /// Running becomes paused; the others stay.
    pub open spec fn paused(self) -> LoopState {
        match self {
            LoopState::Running => LoopState::Paused,
            other => other,
        }
    }

    /// Paused becomes running; the others stay.
    pub open spec fn resumed(self) -> LoopState {
        match self {
            LoopState::Paused => LoopState::Running,
            other => other,
        }
    }
}

/// What a control surface can ask of the loop.
#[derive(Clone, Copy, Debug, PartialEq, Eq, Structural)]
pub enum ControlMessage {
    TogglePause,
    Stop,
    Resume,
    SetParameters(ConfigurableParameters),
}

/// What a redraw has to do.
#[derive(Clone, Copy, Debug, PartialEq, Eq, Structural)]
pub enum FrameAction {
    /// Run the ticks that are due under these parameters, then draw.
    StepAndRender(SimulationParameters),
    /// Draw the forest as it stands.
    RenderOnly,
    /// Do nothing.
    Nothing,
}

/// How the attempt to draw a frame ended.
#[derive(Clone, Copy, Debug, PartialEq, Eq, Structural)]
pub enum SurfaceOutcome {
    /// The frame was drawn and presented.
    Presented,
    /// The surface was lost and has to be configured anew.
    Lost,
    /// The device ran out of memory.
    OutOfMemory,
    /// Something else went wrong that may be gone at the next frame.
    Transient,
}

/// What to do once a frame has been attempted.
#[derive(Clone, Copy, Debug, PartialEq, Eq, Structural)]
pub struct FollowUp {
    /// Configure the surface anew, with its last known size.
    pub reconfigure: bool,
    /// Ask the host for another redraw.
    pub request_redraw: bool,
    /// Leave the loop: the failure is fatal.
    pub exit: bool,
}

/// What to do once a frame has been attempted: after a fatal failure leave;
/// after a lost surface configure it anew; and ask for the next redraw unless
/// the loop has stopped or is being left.
pub open spec fn spec_after_frame(state: LoopState, outcome: SurfaceOutcome) -> FollowUp {
    FollowUp {
        reconfigure: outcome == SurfaceOutcome::Lost,
        request_redraw: state != LoopState::Stopped && outcome != SurfaceOutcome::OutOfMemory,
        exit: outcome == SurfaceOutcome::OutOfMemory,
    }
}

/// What to do once a frame has been attempted.
pub fn after_frame(state: LoopState, outcome: SurfaceOutcome) -> (next: FollowUp)
    ensures
        next == spec_after_frame(state, outcome),
{
    let fatal = match outcome {
        SurfaceOutcome::OutOfMemory => true,
        _ => false,
    };
    let lost = match outcome {
        SurfaceOutcome::Lost => true,
        _ => false,
    };
    let stopped = match state {
        LoopState::Stopped => true,
        _ => false,
    };
    FollowUp { reconfigure: lost, request_redraw: !stopped && !fatal, exit: fatal }
}

/// The state of the loop and the parameters it runs under.
#[derive(Clone, Copy, Debug)]
pub struct SimulationControl {
    pub state: LoopState,
    pub config_params: ConfigurableParameters,
}

impl SimulationControl {
    /// What a redraw has to do in this state.
    pub open spec fn spec_frame_action(self) -> FrameAction {
        match self.state {
            LoopState::Running => FrameAction::StepAndRender(
                SimulationParameters::spec_derive(self.config_params),
            ),
            LoopState::Paused => FrameAction::RenderOnly,
            LoopState::Stopped => FrameAction::Nothing,
        }
    }

    /// The control after a message.
    pub open spec fn spec_apply(self, message: ControlMessage) -> SimulationControl {
        match message {
            ControlMessage::TogglePause => SimulationControl { state: self.state.toggled(), ..self },
            ControlMessage::Stop => SimulationControl { state: LoopState::Stopped, ..self },
            ControlMessage::Resume => SimulationControl { state: self.state.resumed(), ..self },
            ControlMessage::SetParameters(config) => SimulationControl {
                config_params: config,
                ..self
            },
        }
    }

    /// A running loop under the given parameters.
    pub fn new(config_params: ConfigurableParameters) -> (control: SimulationControl)
        ensures
            control.state == LoopState::Running,
            control.config_params == config_params,
    {
        SimulationControl { state: LoopState::Running, config_params }
    }

    /// Whether the loop is paused.
    pub fn is_paused(&self) -> (paused: bool)
        ensures
            paused == (self.state == LoopState::Paused),
    {
        match self.state {
            LoopState::Paused => true,
            _ => false,
        }
    }

    /// Whether the loop has stopped.
    pub fn is_stopped(&self) -> (stopped: bool)
        ensures
            stopped == (self.state == LoopState::Stopped),
    {
        match self.state {
            LoopState::Stopped => true,
            _ => false,
        }
    }

    /// Pauses a running loop and lets a paused one run. A stopped loop stays
    /// stopped.
    pub fn toggle_pause(&mut self)
        ensures
            final(self).state == old(self).state.toggled(),
            final(self).config_params == old(self).config_params,
    {
        self.state = match self.state {
            LoopState::Running => LoopState::Paused,
            LoopState::Paused => LoopState::Running,
            LoopState::Stopped => LoopState::Stopped,
        };
    }

    /// Pauses a running loop.
    pub fn pause(&mut self)
        ensures
            final(self).state == old(self).state.paused(),
            final(self).config_params == old(self).config_params,
    {
        self.state = match self.state {
            LoopState::Running => LoopState::Paused,
            other => other,
        };
    }

    /// Lets a paused loop run again.
    pub fn unpause(&mut self)
        ensures
            final(self).state == old(self).state.resumed(),
            final(self).config_params == old(self).config_params,
    {
        self.state = match self.state {
            LoopState::Paused => LoopState::Running,
            other => other,
        };
    }

    /// Stops the loop for good.
    pub fn stop(&mut self)
        ensures
            final(self).state == LoopState::Stopped,
            final(self).config_params == old(self).config_params,
    {
        self.state = LoopState::Stopped;
    }

    /// Replaces the parameters. The next tick runs under the new ones.
    pub fn set_parameters(&mut self, config_params: ConfigurableParameters)
        ensures
            final(self).state == old(self).state,
            final(self).config_params == config_params,
    {
        self.config_params = config_params;
    }

    /// The parameters that the loop runs under.
    pub fn get_parameters(&self) -> (config_params: ConfigurableParameters)
        ensures
            config_params == self.config_params,
    {
        self.config_params
    }

    /// Carries out what a control surface asked for.
    pub fn apply(&mut self, message: ControlMessage)
        ensures
            *final(self) == old(self).spec_apply(message),
    {
        match message {
            ControlMessage::TogglePause => self.toggle_pause(),
            ControlMessage::Stop => self.stop(),
            ControlMessage::Resume => self.unpause(),
            ControlMessage::SetParameters(config) => self.set_parameters(config),
        }
    }

    /// What a redraw has to do: a running loop ticks under the parameters
    /// that follow from its configuration and draws, a paused one draws, a
    /// stopped one does neither.
    pub fn frame_action(&self) -> (action: FrameAction)
        ensures
            action == self.spec_frame_action(),
    {
        match self.state {
            LoopState::Running => FrameAction::StepAndRender(
                SimulationParameters::from(&self.config_params),
            ),
            LoopState::Paused => FrameAction::RenderOnly,
            LoopState::Stopped => FrameAction::Nothing,
        }
    }

    /// Sets the lightning strikes per year and acre. The loop's state stays.
    pub fn set_lightning_frequency(&mut self, value: Fixed)
        ensures
            final(self).state == old(self).state,
            final(self).config_params == (ConfigurableParameters {
                lightning_strikes_per_year_per_acre: value,
                ..old(self).config_params
            }),
    {
        self.config_params.lightning_strikes_per_year_per_acre = value;
    }

    /// The lightning strikes per year and acre.
    pub fn get_lightning_frequency(&self) -> (value: Fixed)
        ensures
            value == self.config_params.lightning_strikes_per_year_per_acre,
    {
        self.config_params.lightning_strikes_per_year_per_acre
    }

    /// Sets the chance that fire spreads from one cell to a neighbour. The loop's state stays.
    pub fn set_fire_spread_rate(&mut self, value: Fixed)
        ensures
            final(self).state == old(self).state,
            final(self).config_params == (ConfigurableParameters {
                fire_spread_rate: value,
                ..old(self).config_params
            }),
    {
        self.config_params.fire_spread_rate = value;
    }

    /// The chance that fire spreads from one cell to a neighbour.
    pub fn get_fire_spread_rate(&self) -> (value: Fixed)
        ensures
            value == self.config_params.fire_spread_rate,
    {
        self.config_params.fire_spread_rate
    }

    /// Sets the years that a tree takes to grow. The loop's state stays.
    pub fn set_tree_growth_years(&mut self, value: Fixed)
        ensures
            final(self).state == old(self).state,
            final(self).config_params == (ConfigurableParameters {
                tree_growth_years: value,
                ..old(self).config_params
            }),
    {
        self.config_params.tree_growth_years = value;
    }

    /// The years that a tree takes to grow.
    pub fn get_tree_growth_years(&self) -> (value: Fixed)
        ensures
            value == self.config_params.tree_growth_years,
    {
        self.config_params.tree_growth_years
    }

    /// Sets the years after which a tree dies of age. The loop's state stays.
    pub fn set_tree_death_years(&mut self, value: Fixed)
        ensures
            final(self).state == old(self).state,
            final(self).config_params == (ConfigurableParameters {
                tree_death_years: value,
                ..old(self).config_params
            }),
    {
        self.config_params.tree_death_years = value;
    }

    /// The years after which a tree dies of age.
    pub fn get_tree_death_years(&self) -> (value: Fixed)
        ensures
            value == self.config_params.tree_death_years,
    {
        self.config_params.tree_death_years
    }

    /// Sets the months that pass per second of real time. The loop's state stays.
    pub fn set_months_per_second(&mut self, value: Fixed)
        ensures
            final(self).state == old(self).state,
            final(self).config_params == (ConfigurableParameters {
                months_per_second: value,
                ..old(self).config_params
            }),
    {
        self.config_params.months_per_second = value;
    }

    /// The months that pass per second of real time.
    pub fn get_months_per_second(&self) -> (value: Fixed)
        ensures
            value == self.config_params.months_per_second,
    {
        self.config_params.months_per_second
    }

    /// Sets the ticks per month. The loop's state stays.
    pub fn set_ticks_per_month(&mut self, value: Fixed)
        ensures
            final(self).state == old(self).state,
            final(self).config_params == (ConfigurableParameters {
                ticks_per_month: value,
                ..old(self).config_params
            }),
    {
        self.config_params.ticks_per_month = value;
    }

    /// The ticks per month.
    pub fn get_ticks_per_month(&self) -> (value: Fixed)
        ensures
            value == self.config_params.ticks_per_month,
    {
        self.config_params.ticks_per_month
    }

    /// Sets the readiness of a tree to catch fire. The loop's state stays.
    pub fn set_tree_flammability(&mut self, value: Fixed)
        ensures
            final(self).state == old(self).state,
            final(self).config_params == (ConfigurableParameters {
                tree_flammability: value,
                ..old(self).config_params
            }),
    {
        self.config_params.tree_flammability = value;
    }

    /// The readiness of a tree to catch fire.
    pub fn get_tree_flammability(&self) -> (value: Fixed)
        ensures
            value == self.config_params.tree_flammability,
    {
        self.config_params.tree_flammability
    }

    /// Sets the readiness of full underbrush to catch fire. The loop's state stays.
    pub fn set_underbrush_flammability(&mut self, value: Fixed)
        ensures
            final(self).state == old(self).state,
            final(self).config_params == (ConfigurableParameters {
                underbrush_flammability: value,
                ..old(self).config_params
            }),
    {
        self.config_params.underbrush_flammability = value;
    }

    /// The readiness of full underbrush to catch fire.
    pub fn get_underbrush_flammability(&self) -> (value: Fixed)
        ensures
            value == self.config_params.underbrush_flammability,
    {
        self.config_params.underbrush_flammability
    }

    /// Sets the hindrance of tree growth by full underbrush. The loop's state stays.
    pub fn set_underbrush_tree_growth_hindrance(&mut self, value: Fixed)
        ensures
            final(self).state == old(self).state,
            final(self).config_params == (ConfigurableParameters {
                underbrush_tree_growth_hindrance: value,
                ..old(self).config_params
            }),
    {
        self.config_params.underbrush_tree_growth_hindrance = value;
    }

    /// The hindrance of tree growth by full underbrush.
    pub fn get_underbrush_tree_growth_hindrance(&self) -> (value: Fixed)
        ensures
            value == self.config_params.underbrush_tree_growth_hindrance,
    {
        self.config_params.underbrush_tree_growth_hindrance
    }

    /// Sets the underbrush that a tree adds per tick. The loop's state stays.
    pub fn set_tree_underbrush_generation(&mut self, value: Fixed)
        ensures
            final(self).state == old(self).state,
            final(self).config_params == (ConfigurableParameters {
                tree_underbrush_generation: value,
                ..old(self).config_params
            }),
    {
        self.config_params.tree_underbrush_generation = value;
    }

    /// The underbrush that a tree adds per tick.
    pub fn get_tree_underbrush_generation(&self) -> (value: Fixed)
        ensures
            value == self.config_params.tree_underbrush_generation,
    {
        self.config_params.tree_underbrush_generation
    }

    /// Sets the underbrush that a dying tree leaves. The loop's state stays.
    pub fn set_tree_death_underbrush(&mut self, value: Fixed)
        ensures
            final(self).state == old(self).state,
            final(self).config_params == (ConfigurableParameters {
                tree_death_underbrush: value,
                ..old(self).config_params
            }),
    {
        self.config_params.tree_death_underbrush = value;
    }

    /// The underbrush that a dying tree leaves.
    pub fn get_tree_death_underbrush(&self) -> (value: Fixed)
        ensures
            value == self.config_params.tree_death_underbrush,
    {
        self.config_params.tree_death_underbrush
    }

    /// Sets the ticks for which a tree feeds a fire. The loop's state stays.
    pub fn set_tree_fire_duration(&mut self, value: u32)
        ensures
            final(self).state == old(self).state,
            final(self).config_params == (ConfigurableParameters {
                tree_fire_duration: value,
                ..old(self).config_params
            }),
    {
        self.config_params.tree_fire_duration = value;
    }

    /// The ticks for which a tree feeds a fire.
    pub fn get_tree_fire_duration(&self) -> (value: u32)
        ensures
            value == self.config_params.tree_fire_duration,
    {
        self.config_params.tree_fire_duration
    }

    /// Sets the ticks for which full underbrush feeds a fire. The loop's state stays.
    pub fn set_underbrush_fire_duration(&mut self, value: u32)
        ensures
            final(self).state == old(self).state,
            final(self).config_params == (ConfigurableParameters {
                underbrush_fire_duration: value,
                ..old(self).config_params
            }),
    {
        self.config_params.underbrush_fire_duration = value;
    }

    /// The ticks for which full underbrush feeds a fire.
    pub fn get_underbrush_fire_duration(&self) -> (value: u32)
        ensures
            value == self.config_params.underbrush_fire_duration,
    {
        self.config_params.underbrush_fire_duration
    }

    /// The width of the forest in cells.
    pub fn get_forest_width(&self) -> (value: usize)
        ensures
            value == self.config_params.forest_width,
    {
        self.config_params.forest_width
    }

    /// The height of the forest in cells.
    pub fn get_forest_height(&self) -> (value: usize)
        ensures
            value == self.config_params.forest_height,
    {
        self.config_params.forest_height
    }

    /// The size of the forest in acres.
    pub fn get_forest_acres(&self) -> (value: Fixed)
        ensures
            value == self.config_params.forest_acres,
    {
        self.config_params.forest_acres
    }
}

/// From the stopped state no message leads anywhere else.
pub proof fn lemma_stop_is_final(control: SimulationControl, message: ControlMessage)
    requires
        control.state == LoopState::Stopped,
    ensures
        control.spec_apply(message).state == LoopState::Stopped,
        control.spec_apply(message).spec_frame_action() == FrameAction::Nothing,
{
}

/// While the loop is paused a redraw draws and does not tick, whatever time
/// has passed; once it runs again, a redraw ticks under the parameters that
/// follow from the configuration as it then stands.
pub proof fn lemma_pause_holds(control: SimulationControl, config: ConfigurableParameters)
    requires
        control.state == LoopState::Paused,
    ensures
        control.spec_frame_action() == FrameAction::RenderOnly,
        control.spec_apply(ControlMessage::SetParameters(config)).spec_frame_action()
            == FrameAction::RenderOnly,
        control.spec_apply(ControlMessage::SetParameters(config)).spec_apply(
            ControlMessage::Resume,
        ).spec_frame_action() == FrameAction::StepAndRender(SimulationParameters::spec_derive(config)),
{
}

/// New parameters take effect at the next redraw: a running loop that is
/// told new parameters ticks under what follows from them, whatever it ran
/// under before.
pub proof fn lemma_parameters_take_effect(control: SimulationControl, config: ConfigurableParameters)
    requires
        control.state == LoopState::Running,
    ensures
        control.spec_apply(ControlMessage::SetParameters(config)).spec_frame_action()
            == FrameAction::StepAndRender(SimulationParameters::spec_derive(config)),
{
}

/// A running loop draws at every redraw, also at a tick rate of zero.
pub proof fn lemma_running_always_draws(control: SimulationControl)
    requires
        control.state == LoopState::Running,
    ensures
        control.spec_frame_action() is StepAndRender,
{
}

/// Stopping, resuming and setting parameters are idempotent: the same
/// message a second time changes nothing.
pub proof fn lemma_idempotent(control: SimulationControl, message: ControlMessage)
    requires
        message != ControlMessage::TogglePause,
    ensures
        control.spec_apply(message).spec_apply(message) == control.spec_apply(message),
{
}

} // verus!
