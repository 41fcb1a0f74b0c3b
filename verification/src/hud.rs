//! The text overlay: a fixed block of instructions, and a status block that is written
//! anew each frame from the camera's settings and state.

use vstd::prelude::*;
use crate::camera::{CameraConfiguration, CameraRuntimeState};
use crate::text::{bool_text, decimal_text, fixed_text, push_bool, push_decimal, push_fixed};

verus! {

/// The status block for the given settings and state: the enabled flag, the sensitivity
/// with three decimal places, the friction with one, the scroll factor, the two speeds
/// and the length of the velocity with two each.
pub open spec fn status_text(
    configuration: CameraConfiguration,
    state: CameraRuntimeState,
) -> Seq<char> {
    "Enabled: "@ + bool_text(state.enabled) + ",\nSensitivity: "@ + fixed_text(
        configuration.sensitivity,
        3,
    ) + "\nFriction: "@ + fixed_text(configuration.friction, 1) + "\nScroll factor: "@
        + fixed_text(configuration.scroll_factor, 2) + "\nWalk Speed: "@ + fixed_text(
        configuration.walk_speed,
        2,
    ) + "\nRun Speed: "@ + fixed_text(configuration.run_speed, 2) + "\nSpeed: "@
        + decimal_text(false, state.velocity.length_micros() as nat, 2)
}

/// The status block for the given settings and state. It depends on nothing else, and
/// changes neither.
pub fn update_text(configuration: &CameraConfiguration, state: &CameraRuntimeState) -> (text:
    String)
    ensures
        text@ == status_text(*configuration, *state),
{
    let mut text = String::new();
    text.push_str("Enabled: ");
    push_bool(&mut text, state.enabled);
    text.push_str(",\nSensitivity: ");
    push_fixed(&mut text, configuration.sensitivity, 3);
    text.push_str("\nFriction: ");
    push_fixed(&mut text, configuration.friction, 1);
    text.push_str("\nScroll factor: ");
    push_fixed(&mut text, configuration.scroll_factor, 2);
    text.push_str("\nWalk Speed: ");
    push_fixed(&mut text, configuration.walk_speed, 2);
    text.push_str("\nRun Speed: ");
    push_fixed(&mut text, configuration.run_speed, 2);
    text.push_str("\nSpeed: ");
    push_decimal(&mut text, false, state.velocity.length(), 2);
    proof {
        assert(text@ =~= status_text(*configuration, *state));
    }
    text
}

/// The instructions that stay on screen: which keys tune what.
pub open spec fn instructions_text() -> Seq<char> {
    "Z/X: decrease/increase sensitivity\n"@ + "C/V: decrease/increase friction\n"@
        + "F/G: decrease/increase scroll factor\n"@ + "B: enable/disable controller"@
}

/// An edge of the screen and the distance from it, in pixels.
#[derive(Clone, Copy, Debug, PartialEq, Eq, Structural)]
pub enum Offset {
    Top(i32),
    Bottom(i32),
    Left(i32),
    Right(i32),
}

/// A block of text at a fixed place on the screen.
#[derive(Clone, Debug, PartialEq, Eq)]
pub struct TextBlock {
    /// The distance from the upper or lower edge.
    pub vertical: Offset,
    /// The distance from the left or right edge.
    pub horizontal: Offset,
    pub text: String,
}

/// The three blocks of the overlay.
#[derive(Clone, Debug, PartialEq, Eq)]
pub struct Overlay {
    /// What the camera's own controls are; written once.
    pub controls: TextBlock,
    /// Which keys tune what; written once.
    pub instructions: TextBlock,
    /// The status block; empty at first, then written each frame.
    pub status: TextBlock,
}

/// The overlay as it is first shown: `controls` in the upper left corner, the
/// instructions in the lower left, and an empty status block in the upper right.
pub fn spawn_text(controls: String) -> (overlay: Overlay)
    ensures
        overlay.controls.vertical == Offset::Top(-16i32),
        overlay.controls.horizontal == Offset::Left(12),
        overlay.controls.text@ == controls@,
        overlay.instructions.vertical == Offset::Bottom(12),
        overlay.instructions.horizontal == Offset::Left(12),
        overlay.instructions.text@ == instructions_text(),
        overlay.status.vertical == Offset::Top(12),
        overlay.status.horizontal == Offset::Right(12),
        overlay.status.text@ == Seq::<char>::empty(),
{
    let mut instructions = String::new();
    instructions.push_str("Z/X: decrease/increase sensitivity\n");
    instructions.push_str("C/V: decrease/increase friction\n");
    instructions.push_str("F/G: decrease/increase scroll factor\n");
    instructions.push_str("B: enable/disable controller");
    proof {
        assert(instructions@ =~= instructions_text());
    }
    Overlay {
        controls: TextBlock {
            vertical: Offset::Top(-16),
            horizontal: Offset::Left(12),
            text: controls,
        },
        instructions: TextBlock {
            vertical: Offset::Bottom(12),
            horizontal: Offset::Left(12),
            text: instructions,
        },
        status: TextBlock {
            vertical: Offset::Top(12),
            horizontal: Offset::Right(12),
            text: String::new(),
        },
    }
}

} // verus!
