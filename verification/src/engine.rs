//! The motion engine: one decision per loop iteration.
//!
//! The engine owns the random generator and the direction state. A caller
//! runs the loop: it reads the signals and the configuration, asks the
//! engine for its next action, moves the cursor and sleeps as the action
//! says, and comes back. The engine never sleeps and never moves anything.

use rand::rngs::ThreadRng;
use vstd::prelude::*;
use crate::control::{ControlSignals, EngineState};
use crate::motion::{
    axis_weights, back_forth_vector, biased_vector, direction_after, permitted,
    single_axis_vector, Axis, DirectionState, MotionVector, Sign,
};
use crate::random::{ratio_draw, uniform_i32, uniform_u64};
use crate::settings::{MovementMode, Settings};

verus! {

/// Sleep between two polls of the pause signal while the engine is
/// suspended, in milliseconds.
pub const SUSPENDED_POLL_MS: u64 = 50;

/// What the signals ask of the engine at the start of a loop iteration.
#[derive(Clone, Copy, Debug, PartialEq, Eq, Structural)]
pub enum EnginePoll {
    /// Leave the loop: the program is no longer running.
    Stop,
    /// Sleep for `sleep_ms` milliseconds and poll again: movement is
    /// paused.
    Idle { sleep_ms: u64 },
    /// Read the configuration and make a step.
    Step,
}

/// One step of the active engine.
#[derive(Clone, Copy, Debug, PartialEq, Eq, Structural)]
pub struct Movement {
    /// The displacement to give to the cursor.
    pub vector: MotionVector,
    /// The sleep that follows the displacement, in milliseconds.
    pub sleep_ms: u64,
}

/// What the caller of `MotionEngine::tick` has to do before the next tick.
#[derive(Clone, Copy, Debug, PartialEq, Eq, Structural)]
pub enum EngineAction {
    /// Leave the loop: the program is no longer running.
    Stop,
    /// Sleep for `sleep_ms` milliseconds and poll again: movement is
    /// paused.
    Idle { sleep_ms: u64 },
    /// Displace the cursor by `vector`, then sleep for `sleep_ms`
    /// milliseconds.
    Move { vector: MotionVector, sleep_ms: u64 },
}

/// The engine's own state: the random generator and the signs of the
/// alternating policies.
pub struct MotionEngine {
    rng: ThreadRng,
    direction: DirectionState,
}

/// What the signals ask of the engine: to stop once the program is no
/// longer running, to idle for the poll interval while movement is paused,
/// and to make a step otherwise.
pub open spec fn spec_poll(signals: ControlSignals) -> EnginePoll {
    if !signals.running {
        EnginePoll::Stop
    } else if signals.paused {
        EnginePoll::Idle { sleep_ms: SUSPENDED_POLL_MS }
    } else {
        EnginePoll::Step
    }
}

/// The steps that the engine may make, and the direction state that a step
/// leaves, for the configuration that it was given: a permitted
/// displacement, a sleep within the effective delay range, and the
/// direction state that the policy asks for.
pub open spec fn step_permitted(
    settings: Settings,
    before: DirectionState,
    movement: Movement,
    after: DirectionState,
) -> bool {
    &&& permitted(settings, before, movement.vector@)
    &&& settings.delay_low() <= movement.sleep_ms <= settings.delay_high()
    &&& after == direction_after(settings.movement_mode, before)
}

/// The actions that a tick may return, and the direction state that it
/// leaves, for the signals and the configuration that it was given.
///
/// A tick does what the signals ask: it stops, idles, or makes a permitted
/// step. Only a step changes the direction state.
pub open spec fn tick_permitted(
    signals: ControlSignals,
    settings: Settings,
    before: DirectionState,
    action: EngineAction,
    after: DirectionState,
) -> bool {
    match spec_poll(signals) {
        EnginePoll::Stop => action == EngineAction::Stop && after == before,
        EnginePoll::Idle { sleep_ms } => action == (EngineAction::Idle { sleep_ms }) && after
            == before,
        EnginePoll::Step => {
            &&& action matches EngineAction::Move { vector, sleep_ms }
            &&& step_permitted(settings, before, Movement { vector, sleep_ms }, after)
        },
    }
}

/// What the signals ask of the engine at the start of a loop iteration.
/// The configuration is not needed for this.
#[verifier::when_used_as_spec(spec_poll)]
pub fn poll(signals: ControlSignals) -> (asked: EnginePoll)
    ensures
        asked == spec_poll(signals),
{
    if !signals.running {
        EnginePoll::Stop
    } else if signals.paused {
        EnginePoll::Idle { sleep_ms: SUSPENDED_POLL_MS }
    } else {
        EnginePoll::Step
    }
}

impl MotionEngine {
    /// The signs that the next alternating steps take.
    pub closed spec fn spec_direction(&self) -> DirectionState {
        self.direction
    }

    /// An engine on the calling thread's random generator, with the
    /// direction state of start-up.
    pub fn new() -> (engine: MotionEngine)
        ensures
            engine.spec_direction() == DirectionState::initial(),
    {
        MotionEngine { rng: rand::thread_rng(), direction: DirectionState::new() }
    }

    /// The signs that the next alternating steps take.
    #[verifier::when_used_as_spec(spec_direction)]
    pub fn direction(&self) -> (direction: DirectionState)
        ensures
            direction == self.spec_direction(),
    {
        self.direction
    }

    /// Draws the size of a random step from the effective range of the
    /// step bounds.
    fn draw_magnitude(&mut self, settings: &Settings) -> (magnitude: i32)
        ensures
            settings.move_low() <= magnitude <= settings.move_high(),
            final(self).spec_direction() == old(self).spec_direction(),
    {
        let range = settings.move_range();
        uniform_i32(&mut self.rng, range.0, range.1)
    }

    /// Draws a sign with a fair coin.
    fn draw_sign(&mut self) -> (sign: Sign)
        ensures
            final(self).spec_direction() == old(self).spec_direction(),
    {
        Sign::from_coin(ratio_draw(&mut self.rng, 1, 2))
    }

    /// Picks the next motion vector under the configured policy.
    ///
    /// The vector is a permitted one, whatever the random draws are. An
    /// alternating policy flips the sign on its axis; a random policy
    /// leaves the direction state alone.
    pub fn next_vector(&mut self, settings: &Settings) -> (vector: MotionVector)
        requires
            settings.spec_steps_negatable(),
        ensures
            permitted(*settings, old(self).spec_direction(), vector@),
            final(self).spec_direction() == direction_after(
                settings.movement_mode,
                old(self).spec_direction(),
            ),
    {
        match settings.movement_mode {
            MovementMode::RandomXY => {
                let dx = self.draw_magnitude(settings);
                let dy = self.draw_magnitude(settings);
                let weights = axis_weights(settings.axis_bias_percent);
                let roll = uniform_u64(&mut self.rng, 0, weights.0 + weights.1 - 1);
                let sign = self.draw_sign();
                biased_vector(dx, dy, settings.axis_bias_percent, roll, sign)
            },
            MovementMode::RandomXOnly => {
                let magnitude = self.draw_magnitude(settings);
                let sign = self.draw_sign();
                single_axis_vector(Axis::X, magnitude, sign)
            },
            MovementMode::RandomYOnly => {
                let magnitude = self.draw_magnitude(settings);
                let sign = self.draw_sign();
                single_axis_vector(Axis::Y, magnitude, sign)
            },
            MovementMode::BackForthX => back_forth_vector(
                Axis::X,
                settings.min_pixel_move,
                &mut self.direction,
            ),
            MovementMode::BackForthY => back_forth_vector(
                Axis::Y,
                settings.min_pixel_move,
                &mut self.direction,
            ),
        }
    }

    /// Draws the sleep that follows a movement, in milliseconds, from the
    /// effective delay range.
    pub fn next_delay(&mut self, settings: &Settings) -> (delay_ms: u64)
        ensures
            settings.delay_low() <= delay_ms <= settings.delay_high(),
            final(self).spec_direction() == old(self).spec_direction(),
    {
        let range = settings.delay_range();
        uniform_u64(&mut self.rng, range.0, range.1)
    }

    /// Makes one step of the active engine: picks the motion vector, then
    /// draws the sleep that follows it.
    pub fn step(&mut self, settings: &Settings) -> (movement: Movement)
        requires
            settings.spec_steps_negatable(),
        ensures
            step_permitted(
                *settings,
                old(self).spec_direction(),
                movement,
                final(self).spec_direction(),
            ),
    {
        let vector = self.next_vector(settings);
        let sleep_ms = self.next_delay(settings);
        Movement { vector, sleep_ms }
    }

    /// Decides one loop iteration from the signals and the configuration
    /// as they are now.
    pub fn tick(&mut self, signals: &ControlSignals, settings: &Settings) -> (action: EngineAction)
        requires
            spec_poll(*signals) == EnginePoll::Step ==> settings.spec_steps_negatable(),
        ensures
            tick_permitted(
                *signals,
                *settings,
                old(self).spec_direction(),
                action,
                final(self).spec_direction(),
            ),
    {
        match poll(*signals) {
            EnginePoll::Stop => EngineAction::Stop,
            EnginePoll::Idle { sleep_ms } => EngineAction::Idle { sleep_ms },
            EnginePoll::Step => {
                let movement = self.step(settings);
                EngineAction::Move { vector: movement.vector, sleep_ms: movement.sleep_ms }
            },
        }
    }
}

/// Two configurations that differ only in the order of their delay bounds
/// permit the same steps: the engine sleeps within the same range and
/// draws the sleep from the same range.
pub proof fn lemma_swapped_delay_bounds_same_steps(
    a: Settings,
    b: Settings,
    before: DirectionState,
    movement: Movement,
    after: DirectionState,
)
    requires
        a.min_delay_ms == b.max_delay_ms,
        a.max_delay_ms == b.min_delay_ms,
        b == (Settings { min_delay_ms: b.min_delay_ms, max_delay_ms: b.max_delay_ms, ..a }),
    ensures
        a.delay_low() == b.delay_low(),
        a.delay_high() == b.delay_high(),
        step_permitted(a, before, movement, after) == step_permitted(b, before, movement, after),
{
}

/// A tick moves exactly when the engine is active and the program is
/// running; while the engine is suspended or the program has stopped, the
/// direction state stays as it is.
pub proof fn lemma_tick_follows_signals(
    signals: ControlSignals,
    settings: Settings,
    before: DirectionState,
    action: EngineAction,
    after: DirectionState,
)
    requires
        tick_permitted(signals, settings, before, action, after),
    ensures
        action is Move <==> signals.running && signals.spec_engine_state() == EngineState::Active,
        action is Idle <==> signals.running && signals.spec_engine_state()
            == EngineState::Suspended,
        action is Stop <==> !signals.running,
        !(action is Move) ==> after == before,
{
}

} // verus!
