use walkthrough::camera::{
    single_camera, spawn_camera, Axis, CameraConfiguration, CameraLookupError, CameraRuntimeState,
};
use walkthrough::fixed::{integer_sqrt, Fixed, Vector3};
use walkthrough::hud::{spawn_text, update_text, Offset};
use walkthrough::text::{digit, power_of_ten, push_bool, push_decimal, push_fixed, rounded};

fn decimal(negative: bool, micros: u64, places: u32) -> String {
    let mut out = String::new();
    push_decimal(&mut out, negative, micros, places);
    out
}

fn sample_configuration() -> CameraConfiguration {
    CameraConfiguration {
        sensitivity: Fixed::from_thousandths(200),
        friction: Fixed::from_units(25),
        scroll_factor: Fixed::from_thousandths(500),
        walk_speed: Fixed::from_units(3),
        run_speed: Fixed::from_units(9),
    }
}

#[test]
fn status_block_reads_line_by_line() {
    let state = CameraRuntimeState {
        enabled: true,
        velocity: Vector3::new(
            Fixed::from_micros(1_234_500),
            Fixed::from_micros(0),
            Fixed::from_micros(0),
        ),
    };
    assert_eq!(
        update_text(&sample_configuration(), &state),
        "Enabled: true,\nSensitivity: 0.200\nFriction: 25.0\nScroll factor: 0.50\nWalk Speed: 3.00\nRun Speed: 9.00\nSpeed: 1.23"
    );
}

#[test]
fn status_block_depends_on_the_snapshot_alone() {
    let state = CameraRuntimeState {
        enabled: false,
        velocity: Vector3::new(
            Fixed::from_units(3),
            Fixed::from_units(-4),
            Fixed::from_units(12),
        ),
    };
    let first = update_text(&sample_configuration(), &state);
    let second = update_text(&sample_configuration(), &state);
    assert_eq!(first, second);
    assert_eq!(
        first,
        "Enabled: false,\nSensitivity: 0.200\nFriction: 25.0\nScroll factor: 0.50\nWalk Speed: 3.00\nRun Speed: 9.00\nSpeed: 13.00"
    );
}

#[test]
fn status_block_rounds_only_what_it_shows() {
    let configuration = CameraConfiguration {
        sensitivity: Fixed::from_micros(5_499),
        friction: Fixed::from_micros(249_999),
        scroll_factor: Fixed::from_micros(25_000),
        walk_speed: Fixed::from_micros(-1_005_001),
        run_speed: Fixed::from_micros(999_995),
    };
    let state = CameraRuntimeState { enabled: true, velocity: Vector3::zero() };
    assert_eq!(
        update_text(&configuration, &state),
        "Enabled: true,\nSensitivity: 0.005\nFriction: 0.2\nScroll factor: 0.02\nWalk Speed: -1.01\nRun Speed: 1.00\nSpeed: 0.00"
    );
    assert_eq!(configuration.sensitivity.micros, 5_499);
}

#[test]
fn decimals_round_half_to_even() {
    assert_eq!(decimal(false, 125_000, 2), "0.12");
    assert_eq!(decimal(false, 135_000, 2), "0.14");
    assert_eq!(decimal(false, 125_001, 2), "0.13");
    assert_eq!(decimal(false, 124_999, 2), "0.12");
    assert_eq!(decimal(false, 500_000, 0), "0");
    assert_eq!(decimal(false, 1_500_000, 0), "2");
    assert_eq!(decimal(false, 2_500_000, 0), "2");
    assert_eq!(decimal(false, 999_500, 3), "1.000");
    assert_eq!(decimal(false, 9_950_000, 1), "10.0");
}

#[test]
fn decimals_keep_leading_zeros_of_the_fraction() {
    assert_eq!(decimal(false, 1_002_000, 3), "1.002");
    assert_eq!(decimal(false, 1_000_001, 6), "1.000001");
    assert_eq!(decimal(false, 0, 6), "0.000000");
    assert_eq!(decimal(false, 0, 0), "0");
    assert_eq!(decimal(false, 70_000, 1), "0.1");
    assert_eq!(decimal(false, 12_345_678_900_000, 2), "12345678.90");
    assert_eq!(decimal(false, u64::MAX, 6), "18446744073709.551615");
    assert_eq!(decimal(false, u64::MAX, 0), "18446744073710");
}

#[test]
fn decimals_show_the_sign_they_are_given() {
    assert_eq!(decimal(true, 1_500_000, 2), "-1.50");
    assert_eq!(decimal(true, 1_000, 2), "-0.00");
    let mut out = String::from("x=");
    push_fixed(&mut out, Fixed::from_micros(-2_345_678), 3);
    assert_eq!(out, "x=-2.346");
    let mut least = String::new();
    push_fixed(&mut least, Fixed::from_micros(i64::MIN), 0);
    assert_eq!(least, "-9223372036855");
}

#[test]
fn text_is_added_after_what_is_there() {
    let mut out = String::from("on: ");
    push_bool(&mut out, true);
    out.push(' ');
    push_bool(&mut out, false);
    assert_eq!(out, "on: true false");
}

#[test]
fn digits_powers_and_rounding() {
    assert_eq!(digit(0), '0');
    assert_eq!(digit(7), '7');
    assert_eq!(digit(9), '9');
    assert_eq!(power_of_ten(0), 1);
    assert_eq!(power_of_ten(6), 1_000_000);
    assert_eq!(power_of_ten(19), 10_000_000_000_000_000_000);
    assert_eq!(rounded(14, 10), 1);
    assert_eq!(rounded(15, 10), 2);
    assert_eq!(rounded(25, 10), 2);
    assert_eq!(rounded(26, 10), 3);
    assert_eq!(rounded(7, 1), 7);
    assert_eq!(rounded(u64::MAX, 1), u64::MAX);
    assert_eq!(rounded(u64::MAX, 2), 9_223_372_036_854_775_808);
    assert_eq!(rounded(3, 2), 2);
    assert_eq!(rounded(1, 2), 0);
}

#[test]
fn square_roots_are_rounded_down() {
    assert_eq!(integer_sqrt(0), 0);
    assert_eq!(integer_sqrt(1), 1);
    assert_eq!(integer_sqrt(3), 1);
    assert_eq!(integer_sqrt(4), 2);
    assert_eq!(integer_sqrt(15), 3);
    assert_eq!(integer_sqrt(16), 4);
    assert_eq!(integer_sqrt(17), 4);
    assert_eq!(integer_sqrt(999_999_999_999), 999_999);
    assert_eq!(integer_sqrt(1_000_000_000_000), 1_000_000);
    assert_eq!(integer_sqrt(u128::MAX), u64::MAX);
    assert_eq!(integer_sqrt((u64::MAX as u128) * (u64::MAX as u128)), u64::MAX);
    assert_eq!(integer_sqrt((u64::MAX as u128) * (u64::MAX as u128) - 1), u64::MAX - 1);
}

#[test]
fn length_is_the_root_of_the_sum_of_squares() {
    assert_eq!(Vector3::zero().length(), 0);
    assert_eq!(Vector3::from_units(3, 4, 0).length(), 5_000_000);
    assert_eq!(Vector3::from_units(-2, 3, -6).length(), 7_000_000);
    assert_eq!(Vector3::from_units(1, 1, 1).length(), 1_732_050);
    let widest = Vector3::new(
        Fixed::from_micros(i64::MIN),
        Fixed::from_micros(i64::MIN),
        Fixed::from_micros(i64::MIN),
    );
    assert_eq!(widest.length(), 15_975_348_984_942_515_101);
}

#[test]
fn quantities_are_built_from_their_units() {
    assert_eq!(Fixed::from_units(-3).micros, -3_000_000);
    assert_eq!(Fixed::from_thousandths(15_500).micros, 15_500_000);
    assert_eq!(Fixed::from_units(i32::MIN).micros, -2_147_483_648_000_000);
    assert_eq!(Fixed::from_thousandths(i32::MAX).micros, 2_147_483_647_000);
    assert!(Fixed::from_micros(-1).is_negative());
    assert!(!Fixed::from_micros(0).is_negative());
    assert_eq!(Fixed::from_micros(-5).magnitude(), 5);
    assert_eq!(Fixed::from_micros(i64::MIN).magnitude(), 9_223_372_036_854_775_808);
    assert_eq!(Fixed::from_micros(i64::MAX).magnitude(), 9_223_372_036_854_775_807);
    assert_eq!(Vector3::from_thousandths(1, -2, 3).y.micros, -2_000);
}

#[test]
fn overlay_has_three_blocks_in_their_corners() {
    let overlay = spawn_text(String::from("controls"));
    assert_eq!(overlay.controls.vertical, Offset::Top(-16));
    assert_eq!(overlay.controls.horizontal, Offset::Left(12));
    assert_eq!(overlay.controls.text, "controls");
    assert_eq!(overlay.instructions.vertical, Offset::Bottom(12));
    assert_eq!(overlay.instructions.horizontal, Offset::Left(12));
    assert_eq!(
        overlay.instructions.text,
        "Z/X: decrease/increase sensitivity\nC/V: decrease/increase friction\nF/G: decrease/increase scroll factor\nB: enable/disable controller"
    );
    assert_eq!(overlay.status.vertical, Offset::Top(12));
    assert_eq!(overlay.status.horizontal, Offset::Right(12));
    assert_eq!(overlay.status.text, "");
}

#[test]
fn only_one_camera_is_accepted() {
    assert_eq!(single_camera(0), Err(CameraLookupError::NoCamera));
    assert_eq!(single_camera(1), Ok(()));
    assert_eq!(single_camera(2), Err(CameraLookupError::MultipleCameras));
    assert_eq!(single_camera(usize::MAX), Err(CameraLookupError::MultipleCameras));
}

#[test]
fn camera_starts_with_its_own_settings_over_the_defaults() {
    let defaults = CameraConfiguration {
        sensitivity: Fixed::from_units(1),
        friction: Fixed::from_units(40),
        scroll_factor: Fixed::from_thousandths(500),
        walk_speed: Fixed::from_units(5),
        run_speed: Fixed::from_units(15),
    };
    let camera = spawn_camera(defaults);
    assert_eq!(camera.position, Vector3::from_units(0, 1, 0));
    assert_eq!(camera.looking_to, Axis::X);
    assert_eq!(camera.up, Axis::Y);
    assert_eq!(camera.configuration, sample_configuration());
    let other = spawn_camera(CameraConfiguration {
        scroll_factor: Fixed::from_thousandths(750),
        ..defaults
    });
    assert_eq!(other.configuration.scroll_factor.micros, 750_000);
    assert_eq!(other.configuration.friction.micros, 25_000_000);
}

#[test]
fn camera_never_starts_below_a_floor() {
    let defaults = CameraConfiguration {
        sensitivity: Fixed::from_units(-1),
        friction: Fixed::from_units(-1),
        scroll_factor: Fixed::from_micros(0),
        walk_speed: Fixed::from_units(5),
        run_speed: Fixed::from_units(15),
    };
    let low = spawn_camera(defaults).configuration;
    assert_eq!(low.scroll_factor.micros, 20_000);
    assert_eq!(low.sensitivity.micros, 200_000);
    assert_eq!(low.friction.micros, 25_000_000);
    let lowest = spawn_camera(CameraConfiguration {
        scroll_factor: Fixed::from_micros(i64::MIN),
        ..defaults
    });
    assert_eq!(lowest.configuration.scroll_factor.micros, 20_000);
    let edge = spawn_camera(CameraConfiguration {
        scroll_factor: Fixed::from_micros(20_000),
        ..defaults
    });
    assert_eq!(edge.configuration.scroll_factor.micros, 20_000);
    let above = spawn_camera(CameraConfiguration {
        scroll_factor: Fixed::from_micros(20_001),
        ..defaults
    });
    assert_eq!(above.configuration.scroll_factor.micros, 20_001);
}
