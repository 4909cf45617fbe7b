use cursor_mover::motion::{
    axis_weights, back_forth_vector, biased_vector, pick_axis, single_axis_vector,
    vector_along, Axis, DirectionState, MotionVector, Sign, BASE_AXIS_WEIGHT,
};

fn vector(dx: i32, dy: i32) -> MotionVector {
    MotionVector { dx, dy }
}

#[test]
fn sign_flips_to_the_other_one() {
    assert_eq!(Sign::Plus.flipped(), Sign::Minus);
    assert_eq!(Sign::Minus.flipped(), Sign::Plus);
    assert_eq!(Sign::Plus.flipped().flipped(), Sign::Plus);
}

#[test]
fn heads_is_plus() {
    assert_eq!(Sign::from_coin(true), Sign::Plus);
    assert_eq!(Sign::from_coin(false), Sign::Minus);
}

#[test]
fn sign_applies_to_a_magnitude() {
    assert_eq!(Sign::Plus.apply(7), 7);
    assert_eq!(Sign::Minus.apply(7), -7);
    assert_eq!(Sign::Plus.apply(0), 0);
    assert_eq!(Sign::Minus.apply(0), 0);
    assert_eq!(Sign::Plus.apply(-3), -3);
    assert_eq!(Sign::Minus.apply(-3), 3);
    assert_eq!(Sign::Minus.apply(i32::MAX), -i32::MAX);
    assert_eq!(Sign::Minus.apply(i32::MIN + 1), i32::MAX);
}

#[test]
fn direction_state_starts_plus_on_both_axes() {
    let d = DirectionState::new();
    assert_eq!(d, DirectionState { x: Sign::Plus, y: Sign::Plus });
    assert_eq!(d.sign_on(Axis::X), Sign::Plus);
    assert_eq!(d.sign_on(Axis::Y), Sign::Plus);
}

#[test]
fn direction_state_flips_one_axis_only() {
    let d = DirectionState::new();
    assert_eq!(d.flipped_on(Axis::X), DirectionState { x: Sign::Minus, y: Sign::Plus });
    assert_eq!(d.flipped_on(Axis::Y), DirectionState { x: Sign::Plus, y: Sign::Minus });
    assert_eq!(d.flipped_on(Axis::X).flipped_on(Axis::X), d);
    let e = d.flipped_on(Axis::X).flipped_on(Axis::Y);
    assert_eq!(e.sign_on(Axis::X), Sign::Minus);
    assert_eq!(e.sign_on(Axis::Y), Sign::Minus);
}

#[test]
fn vector_along_an_axis_is_zero_on_the_other() {
    assert_eq!(vector_along(Axis::X, 4), vector(4, 0));
    assert_eq!(vector_along(Axis::Y, 4), vector(0, 4));
    assert_eq!(vector_along(Axis::X, -9), vector(-9, 0));
    assert_eq!(vector_along(Axis::Y, i32::MIN), vector(0, i32::MIN));
}

#[test]
fn axis_weights_without_bias_are_equal() {
    assert_eq!(BASE_AXIS_WEIGHT, 100);
    assert_eq!(axis_weights(0), (100, 100));
}

#[test]
fn axis_weights_at_the_highest_bias() {
    assert_eq!(axis_weights(400), (100, 500));
}

#[test]
fn axis_weights_at_the_lowest_bias() {
    assert_eq!(axis_weights(-400), (500, 100));
}

#[test]
fn axis_weights_are_not_mirror_images_in_between() {
    assert_eq!(axis_weights(50), (100, 150));
    assert_eq!(axis_weights(-50), (150, 100));
    assert_eq!(axis_weights(1), (100, 101));
    assert_eq!(axis_weights(-1), (101, 100));
}

#[test]
fn axis_weights_beyond_the_nominal_bias() {
    assert_eq!(axis_weights(1000), (100, 1100));
    assert_eq!(axis_weights(-1000), (1100, 100));
    assert_eq!(axis_weights(i32::MAX), (100, 2147483747));
    assert_eq!(axis_weights(i32::MIN), (2147483748, 100));
}

#[test]
fn roll_below_the_x_weight_picks_x() {
    assert_eq!(pick_axis(0, 0), Axis::X);
    assert_eq!(pick_axis(0, 99), Axis::X);
    assert_eq!(pick_axis(0, 100), Axis::Y);
    assert_eq!(pick_axis(0, 199), Axis::Y);
    assert_eq!(pick_axis(400, 99), Axis::X);
    assert_eq!(pick_axis(400, 100), Axis::Y);
    assert_eq!(pick_axis(400, 599), Axis::Y);
    assert_eq!(pick_axis(-400, 499), Axis::X);
    assert_eq!(pick_axis(-400, 500), Axis::Y);
    assert_eq!(pick_axis(-400, 599), Axis::Y);
}

#[test]
fn rolls_split_by_the_weights() {
    let mut on_x: u64 = 0;
    let mut on_y: u64 = 0;
    for roll in 0..600 {
        match pick_axis(400, roll) {
            Axis::X => on_x += 1,
            Axis::Y => on_y += 1,
        }
    }
    assert_eq!((on_x, on_y), (100, 500));
    on_x = 0;
    on_y = 0;
    for roll in 0..200 {
        match pick_axis(0, roll) {
            Axis::X => on_x += 1,
            Axis::Y => on_y += 1,
        }
    }
    assert_eq!((on_x, on_y), (100, 100));
}

#[test]
fn biased_vector_on_the_x_axis() {
    assert_eq!(biased_vector(3, 8, 0, 0, Sign::Plus), vector(3, 0));
    assert_eq!(biased_vector(3, 8, 0, 99, Sign::Minus), vector(-3, 0));
    assert_eq!(biased_vector(3, 8, -400, 499, Sign::Plus), vector(3, 0));
}

#[test]
fn biased_vector_on_the_y_axis() {
    assert_eq!(biased_vector(3, 8, 0, 100, Sign::Plus), vector(0, 8));
    assert_eq!(biased_vector(3, 8, 0, 199, Sign::Minus), vector(0, -8));
    assert_eq!(biased_vector(3, 8, 400, 100, Sign::Minus), vector(0, -8));
    assert_eq!(biased_vector(3, 8, -400, 500, Sign::Plus), vector(0, 8));
}

#[test]
fn biased_vector_of_zero_steps_is_zero() {
    assert_eq!(biased_vector(0, 0, 0, 10, Sign::Minus), vector(0, 0));
    assert_eq!(biased_vector(0, 0, 0, 150, Sign::Plus), vector(0, 0));
}

#[test]
fn single_axis_vector_takes_size_and_sign() {
    assert_eq!(single_axis_vector(Axis::X, 5, Sign::Plus), vector(5, 0));
    assert_eq!(single_axis_vector(Axis::X, 5, Sign::Minus), vector(-5, 0));
    assert_eq!(single_axis_vector(Axis::Y, 5, Sign::Plus), vector(0, 5));
    assert_eq!(single_axis_vector(Axis::Y, 5, Sign::Minus), vector(0, -5));
    assert_eq!(single_axis_vector(Axis::Y, 0, Sign::Minus), vector(0, 0));
}

#[test]
fn back_forth_alternates_from_plus() {
    let mut d = DirectionState::new();
    assert_eq!(back_forth_vector(Axis::X, 3, &mut d), vector(3, 0));
    assert_eq!(d, DirectionState { x: Sign::Minus, y: Sign::Plus });
    assert_eq!(back_forth_vector(Axis::X, 3, &mut d), vector(-3, 0));
    assert_eq!(d, DirectionState { x: Sign::Plus, y: Sign::Plus });
    assert_eq!(back_forth_vector(Axis::X, 3, &mut d), vector(3, 0));
    assert_eq!(back_forth_vector(Axis::X, 3, &mut d), vector(-3, 0));
}

#[test]
fn back_forth_keeps_a_sign_per_axis() {
    let mut d = DirectionState::new();
    assert_eq!(back_forth_vector(Axis::X, 2, &mut d), vector(2, 0));
    assert_eq!(back_forth_vector(Axis::Y, 2, &mut d), vector(0, 2));
    assert_eq!(back_forth_vector(Axis::Y, 2, &mut d), vector(0, -2));
    assert_eq!(back_forth_vector(Axis::X, 2, &mut d), vector(-2, 0));
    assert_eq!(back_forth_vector(Axis::Y, 2, &mut d), vector(0, 2));
}

#[test]
fn back_forth_reads_the_step_at_every_call() {
    let mut d = DirectionState::new();
    assert_eq!(back_forth_vector(Axis::X, 1, &mut d), vector(1, 0));
    assert_eq!(back_forth_vector(Axis::X, 10, &mut d), vector(-10, 0));
    assert_eq!(back_forth_vector(Axis::X, 0, &mut d), vector(0, 0));
    assert_eq!(back_forth_vector(Axis::X, 4, &mut d), vector(-4, 0));
}
