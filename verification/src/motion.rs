//! Motion vectors and the policies that pick them.
//!
//! Every policy is written twice: as a mathematical function from the
//! configuration, the direction state and the random draws to a
//! displacement, and as executable code that is proved to compute it. The
//! engine makes the draws and hands them to that code.

use vstd::prelude::*;
use vstd::math::abs;
use vstd::set_lib::{lemma_int_range, set_int_range};
use crate::settings::{MovementMode, Settings};

verus! {

/// Weight that each axis has in the axis choice before the bias is applied.
pub const BASE_AXIS_WEIGHT: u64 = 100;

/// One of the two screen axes.
#[derive(Clone, Copy, Debug, PartialEq, Eq, Structural)]
pub enum Axis {
    /// The horizontal axis.
    X,
    /// The vertical axis.
    Y,
}

/// The sign of a step.
#[derive(Clone, Copy, Debug, PartialEq, Eq, Structural)]
pub enum Sign {
    /// The step is emitted as it is.
    Plus,
    /// The step is emitted negated.
    Minus,
}

/// A displacement of the cursor relative to where it is, in pixels.
#[derive(Clone, Copy, Debug, PartialEq, Eq, Structural)]
pub struct MotionVector {
    /// Displacement along the X axis.
    pub dx: i32,
    /// Displacement along the Y axis.
    pub dy: i32,
}

/// The mathematical value of a motion vector: a pair of integers.
pub struct Displacement {
    /// Displacement along the X axis.
    pub dx: int,
    /// Displacement along the Y axis.
    pub dy: int,
}

impl View for MotionVector {
    type V = Displacement;

    open spec fn view(&self) -> Displacement {
        Displacement { dx: self.dx as int, dy: self.dy as int }
    }
}

/// The sign that the next alternating step takes on each axis.
#[derive(Clone, Copy, Debug, PartialEq, Eq, Structural)]
pub struct DirectionState {
    /// Sign of the next alternating step on the X axis.
    pub x: Sign,
    /// Sign of the next alternating step on the Y axis.
    pub y: Sign,
}

impl Sign {
    /// The other sign.
    pub open spec fn spec_flipped(self) -> Sign {
        match self {
            Sign::Plus => Sign::Minus,
            Sign::Minus => Sign::Plus,
        }
    }

    /// The step of size `magnitude` under this sign.
    pub open spec fn signed(self, magnitude: int) -> int {
        match self {
            Sign::Plus => magnitude,
            Sign::Minus => -magnitude,
        }
    }

    /// The sign that a coin flip stands for: heads is `Plus`.
    pub open spec fn spec_from_coin(heads: bool) -> Sign {
        if heads {
            Sign::Plus
        } else {
            Sign::Minus
        }
    }

    /// The other sign.
    #[verifier::when_used_as_spec(spec_flipped)]
    pub fn flipped(self) -> (other: Sign)
        ensures
            other == self.spec_flipped(),
    {
        match self {
            Sign::Plus => Sign::Minus,
            Sign::Minus => Sign::Plus,
        }
    }

    /// The sign that a coin flip stands for: heads is `Plus`.
    #[verifier::when_used_as_spec(spec_from_coin)]
    pub fn from_coin(heads: bool) -> (sign: Sign)
        ensures
            sign == Sign::spec_from_coin(heads),
    {
        if heads {
            Sign::Plus
        } else {
            Sign::Minus
        }
    }

    /// The step of size `magnitude` under this sign. The one size that has
    /// no negation in `i32` is left out.
    pub fn apply(self, magnitude: i32) -> (step: i32)
        requires
            magnitude > i32::MIN,
        ensures
            step == self.signed(magnitude as int),
    {
        match self {
            Sign::Plus => magnitude,
            Sign::Minus => -magnitude,
        }
    }
}

impl DirectionState {
    /// The direction state at start-up: `Plus` on both axes.
    pub open spec fn initial() -> DirectionState {
        DirectionState { x: Sign::Plus, y: Sign::Plus }
    }

    /// The sign of the next alternating step on `axis`.
    pub open spec fn spec_sign_on(&self, axis: Axis) -> Sign {
        match axis {
            Axis::X => self.x,
            Axis::Y => self.y,
        }
    }

    /// The state in which the sign on `axis` is flipped and the other one
    /// kept.
    pub open spec fn spec_flipped_on(&self, axis: Axis) -> DirectionState {
        match axis {
            Axis::X => DirectionState { x: self.x.spec_flipped(), y: self.y },
            Axis::Y => DirectionState { x: self.x, y: self.y.spec_flipped() },
        }
    }

    /// The direction state at start-up.
    pub fn new() -> (state: DirectionState)
        ensures
            state == DirectionState::initial(),
    {
        DirectionState { x: Sign::Plus, y: Sign::Plus }
    }

    /// The sign of the next alternating step on `axis`.
    #[verifier::when_used_as_spec(spec_sign_on)]
    pub fn sign_on(&self, axis: Axis) -> (sign: Sign)
        ensures
            sign == self.spec_sign_on(axis),
    {
        match axis {
            Axis::X => self.x,
            Axis::Y => self.y,
        }
    }

    /// The state in which the sign on `axis` is flipped and the other one
    /// kept.
    #[verifier::when_used_as_spec(spec_flipped_on)]
    pub fn flipped_on(&self, axis: Axis) -> (state: DirectionState)
        ensures
            state == self.spec_flipped_on(axis),
    {
        match axis {
            Axis::X => DirectionState { x: self.x.flipped(), y: self.y },
            Axis::Y => DirectionState { x: self.x, y: self.y.flipped() },
        }
    }
}

/// The displacement of `step` pixels along `axis` and none along the other
/// axis.
pub open spec fn along(axis: Axis, step: int) -> Displacement {
    match axis {
        Axis::X => Displacement { dx: step, dy: 0 },
        Axis::Y => Displacement { dx: 0, dy: step },
    }
}

/// The motion vector of `step` pixels along `axis`.
pub fn vector_along(axis: Axis, step: i32) -> (vector: MotionVector)
    ensures
        vector@ == along(axis, step as int),
{
    match axis {
        Axis::X => MotionVector { dx: step, dy: 0 },
        Axis::Y => MotionVector { dx: 0, dy: step },
    }
}

/// Weight of the X axis in the axis choice: the base weight, raised by the
/// size of a negative bias.
pub open spec fn x_weight(bias: int) -> int {
    BASE_AXIS_WEIGHT - if bias < 0 {
        bias
    } else {
        0
    }
}

/// Weight of the Y axis in the axis choice: the base weight, raised by a
/// positive bias.
pub open spec fn y_weight(bias: int) -> int {
    BASE_AXIS_WEIGHT + if bias > 0 {
        bias
    } else {
        0
    }
}

/// The axis that a roll picks: X if the roll falls below the weight of X,
/// Y otherwise.
pub open spec fn picked_axis(bias: int, roll: int) -> Axis {
    if roll < x_weight(bias) {
        Axis::X
    } else {
        Axis::Y
    }
}

/// The displacement of the biased policy: the roll picks the axis, the
/// candidate size of that axis is taken, and the sign is applied to it.
pub open spec fn biased_displacement(dx: int, dy: int, bias: int, roll: int, sign: Sign)
    -> Displacement {
    match picked_axis(bias, roll) {
        Axis::X => along(Axis::X, sign.signed(dx)),
        Axis::Y => along(Axis::Y, sign.signed(dy)),
    }
}

/// The displacement of an alternating policy: the configured step under
/// the sign that the direction state holds for the axis.
pub open spec fn back_forth_displacement(axis: Axis, step: int, direction: DirectionState)
    -> Displacement {
    along(axis, direction.spec_sign_on(axis).signed(step))
}

/// The weights `(x, y)` of the two axes under `bias`. No bias is refused:
/// both weights fit whatever the bias is.
pub fn axis_weights(bias: i32) -> (weights: (u64, u64))
    ensures
        weights.0 == x_weight(bias as int),
        weights.1 == y_weight(bias as int),
{
    let raise_x: u64 = if bias < 0 {
        (-(bias as i64)) as u64
    } else {
        0
    };
    let raise_y: u64 = if bias > 0 {
        bias as u64
    } else {
        0
    };
    (BASE_AXIS_WEIGHT + raise_x, BASE_AXIS_WEIGHT + raise_y)
}

/// The axis that `roll` picks under `bias`.
pub fn pick_axis(bias: i32, roll: u64) -> (axis: Axis)
    ensures
        axis == picked_axis(bias as int, roll as int),
{
    let weights = axis_weights(bias);
    if roll < weights.0 {
        Axis::X
    } else {
        Axis::Y
    }
}

/// The motion vector of the biased policy for the given draws: the two
/// candidate sizes, the roll that picks the axis and the sign.
pub fn biased_vector(dx: i32, dy: i32, bias: i32, roll: u64, sign: Sign) -> (vector: MotionVector)
    requires
        dx > i32::MIN,
        dy > i32::MIN,
    ensures
        vector@ == biased_displacement(dx as int, dy as int, bias as int, roll as int, sign),
{
    match pick_axis(bias, roll) {
        Axis::X => vector_along(Axis::X, sign.apply(dx)),
        Axis::Y => vector_along(Axis::Y, sign.apply(dy)),
    }
}

/// The motion vector of a single-axis random policy for the given draws:
/// the size and the sign.
pub fn single_axis_vector(axis: Axis, magnitude: i32, sign: Sign) -> (vector: MotionVector)
    requires
        magnitude > i32::MIN,
    ensures
        vector@ == along(axis, sign.signed(magnitude as int)),
{
    vector_along(axis, sign.apply(magnitude))
}

/// The motion vector of an alternating policy. The sign on `axis` is
/// flipped for the next step.
pub fn back_forth_vector(axis: Axis, step: i32, direction: &mut DirectionState) -> (vector:
    MotionVector)
    requires
        step > i32::MIN,
    ensures
        vector@ == back_forth_displacement(axis, step as int, *old(direction)),
        *final(direction) == old(direction).spec_flipped_on(axis),
{
    let sign = direction.sign_on(axis);
    *direction = direction.flipped_on(axis);
    vector_along(axis, sign.apply(step))
}

/// Whether `component` is a step of a size between `low` and `high` under
/// one of the two signs.
pub open spec fn is_signed_step(component: int, low: int, high: int) -> bool {
    low <= component <= high || low <= -component <= high
}

/// The displacements that the engine may emit for a configuration and a
/// direction state.
///
/// A random policy may emit any step of a size in the effective range,
/// under either sign, on an axis that the policy allows. An alternating
/// policy emits one displacement only.
pub open spec fn permitted(settings: Settings, direction: DirectionState, d: Displacement) -> bool {
    let low = settings.move_low();
    let high = settings.move_high();
    match settings.movement_mode {
        MovementMode::RandomXY => {
            ||| d.dy == 0 && is_signed_step(d.dx, low, high)
            ||| d.dx == 0 && is_signed_step(d.dy, low, high)
        },
        MovementMode::RandomXOnly => d.dy == 0 && is_signed_step(d.dx, low, high),
        MovementMode::RandomYOnly => d.dx == 0 && is_signed_step(d.dy, low, high),
        MovementMode::BackForthX => d == back_forth_displacement(
            Axis::X,
            settings.min_pixel_move as int,
            direction,
        ),
        MovementMode::BackForthY => d == back_forth_displacement(
            Axis::Y,
            settings.min_pixel_move as int,
            direction,
        ),
    }
}

/// The direction state after one step under `mode`: an alternating policy
/// flips the sign on its axis, a random policy leaves the state alone.
pub open spec fn direction_after(mode: MovementMode, direction: DirectionState) -> DirectionState {
    match mode {
        MovementMode::BackForthX => direction.spec_flipped_on(Axis::X),
        MovementMode::BackForthY => direction.spec_flipped_on(Axis::Y),
        _ => direction,
    }
}

/// The direction state after `count` steps under one mode.
pub open spec fn direction_after_steps(mode: MovementMode, start: DirectionState, count: nat)
    -> DirectionState
    decreases count,
{
    if count == 0 {
        start
    } else {
        direction_after(mode, direction_after_steps(mode, start, (count - 1) as nat))
    }
}

/// The values that the random draws of one step came to: a candidate size
/// for each axis, the roll that picks the axis, and the sign.
pub struct Draws {
    /// Candidate size of a step on the X axis.
    pub dx: int,
    /// Candidate size of a step on the Y axis.
    pub dy: int,
    /// The roll that picks the axis under the biased policy.
    pub roll: int,
    /// The sign of the step.
    pub sign: Sign,
}

/// Whether the draws are ones that the generator can come to under a
/// configuration: both sizes lie in the effective range of the step bounds
/// and the roll lies below the sum of the two axis weights.
pub open spec fn draws_possible(settings: Settings, draws: Draws) -> bool {
    let bias = settings.axis_bias_percent as int;
    &&& settings.move_low() <= draws.dx <= settings.move_high()
    &&& settings.move_low() <= draws.dy <= settings.move_high()
    &&& 0 <= draws.roll < x_weight(bias) + y_weight(bias)
}

/// The displacement that the configured policy emits for given draws and a
/// given direction state. The alternating policies read no draw; the
/// single-axis policies read the size of their axis and the sign.
pub open spec fn policy_displacement(settings: Settings, direction: DirectionState, draws: Draws)
    -> Displacement {
    match settings.movement_mode {
        MovementMode::RandomXY => biased_displacement(
            draws.dx,
            draws.dy,
            settings.axis_bias_percent as int,
            draws.roll,
            draws.sign,
        ),
        MovementMode::RandomXOnly => along(Axis::X, draws.sign.signed(draws.dx)),
        MovementMode::RandomYOnly => along(Axis::Y, draws.sign.signed(draws.dy)),
        MovementMode::BackForthX => back_forth_displacement(
            Axis::X,
            settings.min_pixel_move as int,
            direction,
        ),
        MovementMode::BackForthY => back_forth_displacement(
            Axis::Y,
            settings.min_pixel_move as int,
            direction,
        ),
    }
}

/// Whatever the draws come to, the policy emits a permitted displacement.
pub proof fn lemma_policy_is_permitted(settings: Settings, direction: DirectionState, draws: Draws)
    requires
        draws_possible(settings, draws),
    ensures
        permitted(settings, direction, policy_displacement(settings, direction, draws)),
{
}

/// Every permitted displacement is the one that the policy emits for some
/// possible draws: `permitted` admits nothing that the engine cannot emit.
pub proof fn lemma_permitted_is_reachable(
    settings: Settings,
    direction: DirectionState,
    d: Displacement,
)
    requires
        permitted(settings, direction, d),
    ensures
        exists|draws: Draws|
            draws_possible(settings, draws) && d == #[trigger] policy_displacement(
                settings,
                direction,
                draws,
            ),
{
    let low = settings.move_low();
    let high = settings.move_high();
    let bias = settings.axis_bias_percent as int;
    let on_x = match settings.movement_mode {
        MovementMode::RandomXY => d.dy == 0 && is_signed_step(d.dx, low, high),
        MovementMode::RandomYOnly => false,
        _ => true,
    };
    let component = if on_x {
        d.dx
    } else {
        d.dy
    };
    let sign = if low <= component <= high {
        Sign::Plus
    } else {
        Sign::Minus
    };
    let size = if settings.movement_mode.spec_is_back_forth() {
        low
    } else {
        sign.signed(component)
    };
    let roll = if on_x {
        0
    } else {
        x_weight(bias)
    };
    let draws = Draws { dx: size, dy: size, roll, sign };
    assert(draws_possible(settings, draws));
    assert(d == policy_displacement(settings, direction, draws));
}

/// Only the biased policy reads the axis bias: under every other policy
/// two configurations that differ in nothing but the bias emit the same
/// displacement for the same draws. Under no policy does the bias change
/// which displacements are permitted.
pub proof fn lemma_bias_is_read_by_biased_policy_only(
    a: Settings,
    b: Settings,
    direction: DirectionState,
    draws: Draws,
    d: Displacement,
)
    requires
        b == (Settings { axis_bias_percent: b.axis_bias_percent, ..a }),
    ensures
        a.movement_mode != MovementMode::RandomXY ==> policy_displacement(a, direction, draws)
            == policy_displacement(b, direction, draws),
        permitted(a, direction, d) == permitted(b, direction, d),
{
}

/// Under a random policy and step bounds that are not negative, at most
/// one component of an emitted displacement is nonzero, and the size of a
/// nonzero component lies in the effective range of the step bounds.
pub proof fn lemma_random_step_within_bounds(
    settings: Settings,
    direction: DirectionState,
    d: Displacement,
)
    requires
        !settings.movement_mode.spec_is_back_forth(),
        settings.min_pixel_move >= 0,
        settings.max_pixel_move >= 0,
        permitted(settings, direction, d),
    ensures
        d.dx == 0 || d.dy == 0,
        d.dx != 0 ==> settings.move_low() <= abs(d.dx) <= settings.move_high(),
        d.dy != 0 ==> settings.move_low() <= abs(d.dy) <= settings.move_high(),
        settings.movement_mode == MovementMode::RandomXOnly ==> d.dy == 0,
        settings.movement_mode == MovementMode::RandomYOnly ==> d.dx == 0,
{
}

/// After `count` steps of an alternating policy from the start-up state,
/// the sign on the policy's axis is `Plus` if `count` is even and `Minus`
/// if it is odd, and the sign on the other axis is still `Plus`.
pub proof fn lemma_direction_alternates(axis: Axis, count: nat)
    ensures
        ({
            let mode = match axis {
                Axis::X => MovementMode::BackForthX,
                Axis::Y => MovementMode::BackForthY,
            };
            let other = match axis {
                Axis::X => Axis::Y,
                Axis::Y => Axis::X,
            };
            let state = direction_after_steps(mode, DirectionState::initial(), count);
            &&& state.spec_sign_on(axis) == if count % 2 == 0 {
                Sign::Plus
            } else {
                Sign::Minus
            }
            &&& state.spec_sign_on(other) == Sign::Plus
        }),
    decreases count,
{
    if count > 0 {
        lemma_direction_alternates(axis, (count - 1) as nat);
    }
}

/// Under an alternating policy the steps on the policy's axis are
/// `+s, -s, +s, -s, ...`, where `s` is the configured minimum step: the
/// displacement that follows `count` earlier steps lies on that axis and is
/// `s` if `count` is even and `-s` if it is odd.
pub proof fn lemma_back_forth_sequence(settings: Settings, count: nat, d: Displacement)
    requires
        settings.movement_mode.spec_is_back_forth(),
        permitted(
            settings,
            direction_after_steps(settings.movement_mode, DirectionState::initial(), count),
            d,
        ),
    ensures
        ({
            let axis = if settings.movement_mode == MovementMode::BackForthX {
                Axis::X
            } else {
                Axis::Y
            };
            d == along(
                axis,
                if count % 2 == 0 {
                    settings.min_pixel_move as int
                } else {
                    -(settings.min_pixel_move as int)
                },
            )
        }),
{
    if settings.movement_mode == MovementMode::BackForthX {
        lemma_direction_alternates(Axis::X, count);
    } else {
        lemma_direction_alternates(Axis::Y, count);
    }
}

/// The rolls, from zero up to the sum of the two weights, that pick `axis`
/// under `bias`.
pub open spec fn rolls_picking(bias: int, axis: Axis) -> Set<int> {
    Set::new(
        |roll: int|
            0 <= roll < x_weight(bias) + y_weight(bias) && picked_axis(bias, roll) == axis,
    )
}

/// Both weights are at least the base weight, and of the rolls from zero
/// up to the sum of the weights, as many pick the X axis as its weight
/// says and as many pick the Y axis as its weight says. With a uniform
/// roll the odds of X against Y are therefore `x_weight : y_weight`.
pub proof fn lemma_axis_shares(bias: int)
    ensures
        x_weight(bias) >= BASE_AXIS_WEIGHT,
        y_weight(bias) >= BASE_AXIS_WEIGHT,
        bias <= 0 ==> y_weight(bias) == BASE_AXIS_WEIGHT,
        bias >= 0 ==> x_weight(bias) == BASE_AXIS_WEIGHT,
        rolls_picking(bias, Axis::X).finite(),
        rolls_picking(bias, Axis::Y).finite(),
        rolls_picking(bias, Axis::X).len() == x_weight(bias),
        rolls_picking(bias, Axis::Y).len() == y_weight(bias),
{
    let total = x_weight(bias) + y_weight(bias);
    lemma_int_range(0, x_weight(bias));
    lemma_int_range(x_weight(bias), total);
    assert(rolls_picking(bias, Axis::X) =~= set_int_range(0, x_weight(bias)));
    assert(rolls_picking(bias, Axis::Y) =~= set_int_range(x_weight(bias), total));
}

} // verus!
