//! The live-tunable configuration record and its defaults.
//!
//! Nothing is validated when a field is written. A pair of bounds may be
//! stored the wrong way round; whoever uses a pair asks for its effective
//! range, which is always ordered.

use vstd::prelude::*;
use crate::keys::Key;

verus! {

/// Lowest axis bias of the nominal range.
pub const AXIS_BIAS_MIN: i32 = -400;

/// Highest axis bias of the nominal range.
pub const AXIS_BIAS_MAX: i32 = 400;

/// The policy by which the engine picks its next motion vector.
#[derive(Clone, Copy, Debug, PartialEq, Eq, Hash, Structural)]
pub enum MovementMode {
    /// A random step on one axis, the axis picked by weights that the axis
    /// bias skews.
    RandomXY,
    /// A random step on the X axis.
    RandomXOnly,
    /// A random step on the Y axis.
    RandomYOnly,
    /// A fixed step on the X axis whose sign alternates.
    BackForthX,
    /// A fixed step on the Y axis whose sign alternates.
    BackForthY,
}

impl MovementMode {
    /// The mode that a selector position stands for. Positions 1 to 4 name
    /// the single-axis modes; every other position means `RandomXY`.
    pub open spec fn spec_from_index(index: int) -> MovementMode {
        if index == 1 {
            MovementMode::RandomXOnly
        } else if index == 2 {
            MovementMode::RandomYOnly
        } else if index == 3 {
            MovementMode::BackForthX
        } else if index == 4 {
            MovementMode::BackForthY
        } else {
            MovementMode::RandomXY
        }
    }

    /// The selector position of a mode, from 0 to 4.
    pub open spec fn spec_index(self) -> int {
        match self {
            MovementMode::RandomXY => 0,
            MovementMode::RandomXOnly => 1,
            MovementMode::RandomYOnly => 2,
            MovementMode::BackForthX => 3,
            MovementMode::BackForthY => 4,
        }
    }

    /// Whether the mode is one of the two alternating fixed-step policies.
    pub open spec fn spec_is_back_forth(self) -> bool {
        self == MovementMode::BackForthX || self == MovementMode::BackForthY
    }

    /// The mode that a selector position stands for.
    pub fn from_index(index: i32) -> (mode: MovementMode)
        ensures
            mode == Self::spec_from_index(index as int),
    {
        if index == 1 {
            MovementMode::RandomXOnly
        } else if index == 2 {
            MovementMode::RandomYOnly
        } else if index == 3 {
            MovementMode::BackForthX
        } else if index == 4 {
            MovementMode::BackForthY
        } else {
            MovementMode::RandomXY
        }
    }

    /// The selector position of the mode.
    pub fn index(self) -> (index: i32)
        ensures
            index == self.spec_index(),
    {
        match self {
            MovementMode::RandomXY => 0,
            MovementMode::RandomXOnly => 1,
            MovementMode::RandomYOnly => 2,
            MovementMode::BackForthX => 3,
            MovementMode::BackForthY => 4,
        }
    }

    /// Whether the mode is one of the two alternating fixed-step policies.
    #[verifier::when_used_as_spec(spec_is_back_forth)]
    pub fn is_back_forth(self) -> (back_forth: bool)
        ensures
            back_forth == self.spec_is_back_forth(),
    {
        self == MovementMode::BackForthX || self == MovementMode::BackForthY
    }
}

/// A mode is found again from its selector position.
pub proof fn lemma_mode_index_round_trip(mode: MovementMode)
    ensures
        0 <= mode.spec_index() <= 4,
        MovementMode::spec_from_index(mode.spec_index()) == mode,
{
}

/// The lower end of the effective range of a pair of bounds.
pub open spec fn effective_low(first: int, second: int) -> int {
    if first <= second {
        first
    } else {
        second
    }
}

/// The upper end of the effective range of a pair of bounds.
pub open spec fn effective_high(first: int, second: int) -> int {
    if first <= second {
        second
    } else {
        first
    }
}

/// The configuration that the engine, the hotkey controller and a settings
/// panel share.
#[derive(Clone, Copy, Debug, PartialEq, Eq, Structural)]
pub struct Settings {
    /// Key that pauses the movement.
    pub pause_key: Key,
    /// Key that resumes the movement.
    pub resume_key: Key,
    /// Key that, pressed while Shift is held, ends the program.
    pub exit_key: Key,
    /// One bound of the sleep between two movements, in milliseconds.
    pub min_delay_ms: u64,
    /// The other bound of the sleep between two movements, in milliseconds.
    pub max_delay_ms: u64,
    /// One bound of the size of a random step, in pixels; also the size of
    /// the fixed step of the alternating modes.
    pub min_pixel_move: i32,
    /// The other bound of the size of a random step, in pixels.
    pub max_pixel_move: i32,
    /// Skew of the axis choice of `RandomXY`, in percent: negative values
    /// favour X, positive values favour Y.
    pub axis_bias_percent: i32,
    /// The policy that picks the next motion vector.
    pub movement_mode: MovementMode,
}

impl Settings {
    /// The built-in configuration.
    pub open spec fn defaults() -> Settings {
        Settings {
            pause_key: Key::KeyK,
            resume_key: Key::KeyJ,
            exit_key: Key::KeyP,
            min_delay_ms: 250,
            max_delay_ms: 350,
            min_pixel_move: 1,
            max_pixel_move: 1,
            axis_bias_percent: -400i32,
            movement_mode: MovementMode::RandomXY,
        }
    }

    /// Shortest sleep between two movements: the smaller of the two delay
    /// bounds.
    pub open spec fn delay_low(&self) -> int {
        effective_low(self.min_delay_ms as int, self.max_delay_ms as int)
    }

    /// Longest sleep between two movements: the larger of the two delay
    /// bounds.
    pub open spec fn delay_high(&self) -> int {
        effective_high(self.min_delay_ms as int, self.max_delay_ms as int)
    }

    /// Smallest size of a random step: the smaller of the two pixel bounds.
    pub open spec fn move_low(&self) -> int {
        effective_low(self.min_pixel_move as int, self.max_pixel_move as int)
    }

    /// Largest size of a random step: the larger of the two pixel bounds.
    pub open spec fn move_high(&self) -> int {
        effective_high(self.min_pixel_move as int, self.max_pixel_move as int)
    }

    /// Whether every field lies in its nominal range: step sizes are not
    /// negative and the axis bias is between `AXIS_BIAS_MIN` and
    /// `AXIS_BIAS_MAX`. Values outside are stored all the same.
    pub open spec fn spec_in_nominal_ranges(&self) -> bool {
        &&& self.min_pixel_move >= 0
        &&& self.max_pixel_move >= 0
        &&& AXIS_BIAS_MIN <= self.axis_bias_percent <= AXIS_BIAS_MAX
    }

    /// Whether a step of either configured size can be emitted with either
    /// sign as an `i32`.
    pub open spec fn spec_steps_negatable(&self) -> bool {
        self.min_pixel_move > i32::MIN && self.max_pixel_move > i32::MIN
    }

    /// The effective delay range `(shortest, longest)` in milliseconds.
    pub fn delay_range(&self) -> (range: (u64, u64))
        ensures
            range.0 == self.delay_low(),
            range.1 == self.delay_high(),
            range.0 <= range.1,
    {
        if self.min_delay_ms <= self.max_delay_ms {
            (self.min_delay_ms, self.max_delay_ms)
        } else {
            (self.max_delay_ms, self.min_delay_ms)
        }
    }

    /// The effective range `(smallest, largest)` of the size of a random
    /// step, in pixels.
    pub fn move_range(&self) -> (range: (i32, i32))
        ensures
            range.0 == self.move_low(),
            range.1 == self.move_high(),
            range.0 <= range.1,
    {
        if self.min_pixel_move <= self.max_pixel_move {
            (self.min_pixel_move, self.max_pixel_move)
        } else {
            (self.max_pixel_move, self.min_pixel_move)
        }
    }

    /// Whether every field lies in its nominal range.
    #[verifier::when_used_as_spec(spec_in_nominal_ranges)]
    pub fn in_nominal_ranges(&self) -> (ok: bool)
        ensures
            ok == self.spec_in_nominal_ranges(),
    {
        self.min_pixel_move >= 0 && self.max_pixel_move >= 0 && AXIS_BIAS_MIN
            <= self.axis_bias_percent && self.axis_bias_percent <= AXIS_BIAS_MAX
    }

    /// Whether a step of either configured size can be emitted with either
    /// sign.
    #[verifier::when_used_as_spec(spec_steps_negatable)]
    pub fn steps_negatable(&self) -> (ok: bool)
        ensures
            ok == self.spec_steps_negatable(),
    {
        self.min_pixel_move > i32::MIN && self.max_pixel_move > i32::MIN
    }

    /// Replaces the whole record with the built-in configuration.
    pub fn reset(&mut self)
        ensures
            *final(self) == Settings::defaults(),
    {
        *self = default_settings();
    }
}

/// The built-in configuration: pause on `K`, resume on `J`, exit on
/// Shift+`P`, a sleep of 250 to 350 ms, steps of one pixel, an axis bias of
/// -400 and the `RandomXY` mode.
pub fn default_settings() -> (settings: Settings)
    ensures
        settings == Settings::defaults(),
{
    Settings {
        pause_key: Key::KeyK,
        resume_key: Key::KeyJ,
        exit_key: Key::KeyP,
        min_delay_ms: 250,
        max_delay_ms: 350,
        min_pixel_move: 1,
        max_pixel_move: 1,
        axis_bias_percent: -400,
        movement_mode: MovementMode::RandomXY,
    }
}

impl Default for Settings {
    fn default() -> (settings: Settings)
        ensures
            settings == Settings::defaults(),
    {
        default_settings()
    }
}

/// The effective range of a pair of bounds does not depend on the order in
/// which the two bounds are given, and it is never empty.
pub proof fn lemma_effective_range_symmetric(first: int, second: int)
    ensures
        effective_low(first, second) == effective_low(second, first),
        effective_high(first, second) == effective_high(second, first),
        effective_low(first, second) <= effective_high(first, second),
{
}

/// Two configurations whose delay bounds are each other's mirror image
/// sleep within the same range, and likewise for the step bounds.
pub proof fn lemma_swapped_bounds_same_ranges(a: Settings, b: Settings)
    requires
        a.min_delay_ms == b.max_delay_ms,
        a.max_delay_ms == b.min_delay_ms,
        a.min_pixel_move == b.max_pixel_move,
        a.max_pixel_move == b.min_pixel_move,
    ensures
        a.delay_low() == b.delay_low(),
        a.delay_high() == b.delay_high(),
        a.move_low() == b.move_low(),
        a.move_high() == b.move_high(),
{
}

/// A configuration within the nominal ranges can have each of its steps
/// emitted with either sign, and the built-in configuration lies within
/// them.
pub proof fn lemma_nominal_ranges(settings: Settings)
    ensures
        settings.spec_in_nominal_ranges() ==> settings.spec_steps_negatable(),
        Settings::defaults().spec_in_nominal_ranges(),
{
}

} // verus!
