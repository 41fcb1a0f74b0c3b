use walkthrough::camera::{CameraConfiguration, CameraRuntimeState};
use walkthrough::fixed::{Fixed, Vector3};
use walkthrough::input::{InputSnapshot, Key};
use walkthrough::tuning::{toggle_key, update_camera_settings, Tunable};

fn configuration() -> CameraConfiguration {
    CameraConfiguration {
        sensitivity: Fixed::from_micros(200_000),
        friction: Fixed::from_micros(25_000_000),
        scroll_factor: Fixed::from_micros(500_000),
        walk_speed: Fixed::from_micros(3_000_000),
        run_speed: Fixed::from_micros(9_000_000),
    }
}

fn state() -> CameraRuntimeState {
    CameraRuntimeState {
        enabled: true,
        velocity: Vector3::new(
            Fixed::from_micros(1_500_000),
            Fixed::from_micros(-250_000),
            Fixed::from_micros(7),
        ),
    }
}

fn holding(keys: &[Key]) -> InputSnapshot {
    let mut input = InputSnapshot::idle();
    for key in keys {
        input.record(*key, true, false);
    }
    input
}

#[test]
fn idle_frame_changes_nothing() {
    let mut config = configuration();
    let mut camera = state();
    update_camera_settings(&mut config, &mut camera, &InputSnapshot::idle());
    assert_eq!(config, configuration());
    assert_eq!(camera, state());
}

#[test]
fn each_key_moves_its_own_setting_by_its_own_step() {
    let mut config = configuration();
    let mut camera = state();
    update_camera_settings(&mut config, &mut camera, &holding(&[Key::KeyZ]));
    assert_eq!(config.sensitivity.micros, 195_000);
    update_camera_settings(&mut config, &mut camera, &holding(&[Key::KeyX]));
    update_camera_settings(&mut config, &mut camera, &holding(&[Key::KeyX]));
    assert_eq!(config.sensitivity.micros, 205_000);
    update_camera_settings(&mut config, &mut camera, &holding(&[Key::KeyC]));
    assert_eq!(config.friction.micros, 24_800_000);
    update_camera_settings(&mut config, &mut camera, &holding(&[Key::KeyV]));
    update_camera_settings(&mut config, &mut camera, &holding(&[Key::KeyV]));
    assert_eq!(config.friction.micros, 25_200_000);
    update_camera_settings(&mut config, &mut camera, &holding(&[Key::KeyF]));
    assert_eq!(config.scroll_factor.micros, 480_000);
    update_camera_settings(&mut config, &mut camera, &holding(&[Key::KeyG]));
    update_camera_settings(&mut config, &mut camera, &holding(&[Key::KeyG]));
    assert_eq!(config.scroll_factor.micros, 520_000);
    assert_eq!(config.walk_speed.micros, 3_000_000);
    assert_eq!(config.run_speed.micros, 9_000_000);
    assert_eq!(camera, state());
}

#[test]
fn each_setting_has_its_step_floor_and_keys() {
    assert_eq!(Tunable::Sensitivity.step().micros, 5_000);
    assert_eq!(Tunable::Friction.step().micros, 200_000);
    assert_eq!(Tunable::ScrollFactor.step().micros, 20_000);
    assert_eq!(Tunable::Sensitivity.floor().micros, 5_000);
    assert_eq!(Tunable::Friction.floor().micros, 0);
    assert_eq!(Tunable::ScrollFactor.floor().micros, 20_000);
    assert_eq!(Tunable::Sensitivity.decrease_key(), Key::KeyZ);
    assert_eq!(Tunable::Sensitivity.increase_key(), Key::KeyX);
    assert_eq!(Tunable::Friction.decrease_key(), Key::KeyC);
    assert_eq!(Tunable::Friction.increase_key(), Key::KeyV);
    assert_eq!(Tunable::ScrollFactor.decrease_key(), Key::KeyF);
    assert_eq!(Tunable::ScrollFactor.increase_key(), Key::KeyG);
}

#[test]
fn held_decrease_keys_stop_at_the_floors() {
    let mut config = configuration();
    let mut camera = state();
    let input = holding(&[Key::KeyZ, Key::KeyC, Key::KeyF]);
    for _ in 0..500 {
        update_camera_settings(&mut config, &mut camera, &input);
        assert!(config.sensitivity.micros >= 5_000);
        assert!(config.friction.micros >= 0);
        assert!(config.scroll_factor.micros >= 20_000);
    }
    assert_eq!(config.sensitivity.micros, 5_000);
    assert_eq!(config.friction.micros, 0);
    assert_eq!(config.scroll_factor.micros, 20_000);
}

#[test]
fn a_step_that_would_cross_the_floor_lands_on_it() {
    assert_eq!(Tunable::Sensitivity.lower(Fixed::from_micros(7_000)).micros, 5_000);
    assert_eq!(Tunable::Sensitivity.lower(Fixed::from_micros(10_000)).micros, 5_000);
    assert_eq!(Tunable::Sensitivity.lower(Fixed::from_micros(10_001)).micros, 5_001);
    assert_eq!(Tunable::Friction.lower(Fixed::from_micros(100_000)).micros, 0);
    assert_eq!(Tunable::Friction.lower(Fixed::from_micros(200_001)).micros, 1);
    assert_eq!(Tunable::ScrollFactor.lower(Fixed::from_micros(30_000)).micros, 20_000);
}

#[test]
fn lowering_from_below_the_floor_lifts_to_the_floor() {
    assert_eq!(Tunable::Sensitivity.lower(Fixed::from_micros(-1_000_000)).micros, 5_000);
    assert_eq!(Tunable::Friction.lower(Fixed::from_micros(i64::MIN)).micros, 0);
    assert_eq!(Tunable::ScrollFactor.lower(Fixed::from_micros(0)).micros, 20_000);
}

#[test]
fn held_increase_key_adds_one_step_per_frame() {
    let mut config = configuration();
    let mut camera = state();
    let input = holding(&[Key::KeyX, Key::KeyV, Key::KeyG]);
    for _ in 0..1_000 {
        update_camera_settings(&mut config, &mut camera, &input);
    }
    assert_eq!(config.sensitivity.micros, 200_000 + 1_000 * 5_000);
    assert_eq!(config.friction.micros, 25_000_000 + 1_000 * 200_000);
    assert_eq!(config.scroll_factor.micros, 500_000 + 1_000 * 20_000);
}

#[test]
fn both_keys_in_one_frame_lower_first_and_raise_then() {
    let mut config = configuration();
    let mut camera = state();
    update_camera_settings(&mut config, &mut camera, &holding(&[Key::KeyZ, Key::KeyX]));
    assert_eq!(config.sensitivity.micros, 200_000);
    config.sensitivity = Fixed::from_micros(5_000);
    update_camera_settings(&mut config, &mut camera, &holding(&[Key::KeyZ, Key::KeyX]));
    assert_eq!(config.sensitivity.micros, 10_000);
}

#[test]
fn toggle_fires_once_for_a_key_held_over_many_frames() {
    let mut config = configuration();
    let mut camera = state();
    let mut first = InputSnapshot::idle();
    first.record(Key::KeyB, true, true);
    let later = holding(&[Key::KeyB]);
    update_camera_settings(&mut config, &mut camera, &first);
    assert!(!camera.enabled);
    for _ in 0..59 {
        update_camera_settings(&mut config, &mut camera, &later);
        assert!(!camera.enabled);
    }
    assert_eq!(config, configuration());
}

#[test]
fn toggle_fires_once_for_each_fresh_press() {
    let mut config = configuration();
    let mut camera = state();
    let mut press = InputSnapshot::idle();
    press.record(Key::KeyB, true, true);
    update_camera_settings(&mut config, &mut camera, &press);
    assert!(!camera.enabled);
    update_camera_settings(&mut config, &mut camera, &InputSnapshot::idle());
    update_camera_settings(&mut config, &mut camera, &press);
    assert!(camera.enabled);
    update_camera_settings(&mut config, &mut camera, &press);
    assert!(!camera.enabled);
}

#[test]
fn held_toggle_key_without_a_fresh_press_does_nothing() {
    let mut config = configuration();
    let mut camera = state();
    update_camera_settings(&mut config, &mut camera, &holding(&[Key::KeyB]));
    assert!(camera.enabled);
}

#[test]
fn fresh_tuning_keys_that_are_not_held_do_nothing() {
    let mut config = configuration();
    let mut camera = state();
    let mut input = InputSnapshot::idle();
    input.record(Key::KeyZ, false, true);
    input.record(Key::KeyV, false, true);
    update_camera_settings(&mut config, &mut camera, &input);
    assert_eq!(config, configuration());
}

#[test]
fn tuning_goes_on_while_the_camera_is_disabled() {
    let mut config = configuration();
    let mut camera = state();
    camera.enabled = false;
    update_camera_settings(&mut config, &mut camera, &holding(&[Key::KeyX]));
    assert_eq!(config.sensitivity.micros, 205_000);
    assert!(!camera.enabled);
    assert_eq!(camera.velocity, state().velocity);
}

#[test]
fn a_disabled_camera_stays_disabled_until_the_next_press() {
    let mut config = configuration();
    let mut camera = state();
    camera.enabled = false;
    let input = holding(&[Key::KeyB, Key::KeyZ, Key::KeyV, Key::KeyG]);
    for _ in 0..120 {
        update_camera_settings(&mut config, &mut camera, &input);
        assert!(!camera.enabled);
        assert_eq!(camera.velocity, state().velocity);
    }
    let mut press = InputSnapshot::idle();
    press.record(Key::KeyB, true, true);
    update_camera_settings(&mut config, &mut camera, &press);
    assert!(camera.enabled);
    assert_eq!(camera.velocity, state().velocity);
}

#[test]
fn velocity_is_never_touched() {
    let mut config = configuration();
    let mut camera = state();
    let mut input = holding(&[Key::KeyZ, Key::KeyV, Key::KeyG]);
    input.record(Key::KeyB, true, true);
    update_camera_settings(&mut config, &mut camera, &input);
    assert_eq!(camera.velocity, state().velocity);
}

#[test]
fn a_setting_that_would_not_fit_stays_and_the_rest_of_the_frame_is_done() {
    let mut config = configuration();
    config.friction = Fixed::from_micros(i64::MAX - 100_000);
    let mut camera = state();
    let mut input = holding(&[Key::KeyV, Key::KeyX, Key::KeyF]);
    input.record(Key::KeyB, true, true);
    assert!(!config.tuning_fits(&input));
    assert!(!Tunable::Friction.fits(config.friction, &input));
    assert!(Tunable::Sensitivity.fits(config.sensitivity, &input));
    update_camera_settings(&mut config, &mut camera, &input);
    assert_eq!(config.friction.micros, i64::MAX - 100_000);
    assert_eq!(config.sensitivity.micros, 205_000);
    assert_eq!(config.scroll_factor.micros, 480_000);
    assert_eq!(config.walk_speed.micros, 3_000_000);
    assert_eq!(config.run_speed.micros, 9_000_000);
    assert!(!camera.enabled);
    assert_eq!(camera.velocity, state().velocity);
}

#[test]
fn a_setting_can_be_raised_to_the_largest_quantity() {
    let mut config = configuration();
    config.friction = Fixed::from_micros(i64::MAX - 200_000);
    let mut camera = state();
    let input = holding(&[Key::KeyV]);
    assert!(config.tuning_fits(&input));
    update_camera_settings(&mut config, &mut camera, &input);
    assert_eq!(config.friction.micros, i64::MAX);
    update_camera_settings(&mut config, &mut camera, &input);
    assert_eq!(config.friction.micros, i64::MAX);
    update_camera_settings(&mut config, &mut camera, &holding(&[Key::KeyC, Key::KeyV]));
    assert_eq!(config.friction.micros, i64::MAX);
    update_camera_settings(&mut config, &mut camera, &holding(&[Key::KeyC]));
    assert_eq!(config.friction.micros, i64::MAX - 200_000);
}

#[test]
fn try_apply_leaves_what_would_not_fit() {
    let input = holding(&[Key::KeyX]);
    let high = Fixed::from_micros(i64::MAX - 4_999);
    assert_eq!(Tunable::Sensitivity.try_apply(high, &input), high);
    let fitting = Fixed::from_micros(i64::MAX - 5_000);
    assert_eq!(Tunable::Sensitivity.try_apply(fitting, &input).micros, i64::MAX);
    assert_eq!(Tunable::Sensitivity.try_apply(Fixed::from_micros(10_000), &input).micros, 15_000);
    assert_eq!(toggle_key(), Key::KeyB);
}

#[test]
fn apply_is_one_frame_for_one_setting() {
    let input = holding(&[Key::KeyC]);
    assert_eq!(Tunable::Friction.apply(Fixed::from_micros(1_000_000), &input).micros, 800_000);
    assert_eq!(Tunable::Sensitivity.apply(Fixed::from_micros(1_000_000), &input).micros, 1_000_000);
    assert_eq!(Tunable::Friction.raise(Fixed::from_micros(-200_000)).micros, 0);
}

#[test]
fn snapshot_reports_what_was_recorded() {
    let mut input = InputSnapshot::idle();
    assert!(!input.pressed(Key::KeyG));
    assert!(!input.just_pressed(Key::KeyG));
    input.record(Key::KeyG, true, false);
    input.record(Key::KeyB, false, true);
    assert!(input.pressed(Key::KeyG));
    assert!(!input.just_pressed(Key::KeyG));
    assert!(!input.pressed(Key::KeyB));
    assert!(input.just_pressed(Key::KeyB));
    assert!(!input.pressed(Key::KeyZ));
    input.record(Key::KeyG, false, false);
    assert!(!input.pressed(Key::KeyG));
    assert!(input.just_pressed(Key::KeyB));
}
