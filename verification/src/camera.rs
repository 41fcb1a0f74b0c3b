//! The camera's tunable settings, its running state, and how it starts out.

use vstd::prelude::*;
use crate::fixed::{Fixed, Vector3};
use crate::tuning::Tunable;

verus! {

/// The settings that steer how the camera answers to input.
#[derive(Clone, Copy, Debug, PartialEq, Eq, Structural)]
pub struct CameraConfiguration {
    /// How far the view turns for a given motion of the pointer.
    pub sensitivity: Fixed,
    /// How fast the camera's velocity dies away.
    pub friction: Fixed,
    /// How much one notch of the scroll wheel changes the speed.
    pub scroll_factor: Fixed,
    /// The speed of plain movement.
    pub walk_speed: Fixed,
    /// The speed of movement while running.
    pub run_speed: Fixed,
}

/// What the camera is doing right now.
#[derive(Clone, Copy, Debug, PartialEq, Eq, Structural)]
pub struct CameraRuntimeState {
    /// While false, nothing moves or turns the camera.
    pub enabled: bool,
    /// The camera's velocity.
    pub velocity: Vector3,
}

/// Why the camera could not be told apart.
#[derive(Clone, Copy, Debug, PartialEq, Eq, Structural)]
pub enum CameraLookupError {
    /// There is no camera.
    NoCamera,
    /// There is more than one camera.
    MultipleCameras,
}

/// Accepts a world with exactly one camera in it, and says what is wrong with any other.
pub fn single_camera(count: usize) -> (found: Result<(), CameraLookupError>)
    ensures
        count == 1 <==> found.is_ok(),
        count == 0 <==> found == Err::<(), CameraLookupError>(CameraLookupError::NoCamera),
        count > 1 <==> found == Err::<(), CameraLookupError>(CameraLookupError::MultipleCameras),
{
    if count == 0 {
        Err(CameraLookupError::NoCamera)
    } else if count == 1 {
        Ok(())
    } else {
        Err(CameraLookupError::MultipleCameras)
    }
}

/// One of the three axes of the world.
#[derive(Clone, Copy, Debug, PartialEq, Eq, Structural)]
pub enum Axis {
    X,
    Y,
    Z,
}

/// A camera as it enters the world: where it stands, where it looks, and its settings.
#[derive(Clone, Copy, Debug, PartialEq, Eq, Structural)]
pub struct CameraSpawn {
    pub position: Vector3,
    /// The axis along which the camera looks, in its positive direction.
    pub looking_to: Axis,
    /// The axis that is up for the camera.
    pub up: Axis,
    pub configuration: CameraConfiguration,
}

/// The camera of the walkthrough: one unit above the origin, looking along X, with its own
/// sensitivity, friction and speeds. Its scroll factor is that of `defaults`, or the
/// floor of the scroll factor where that of `defaults` is below it, so that no setting of
/// the camera starts below its floor.
pub fn spawn_camera(defaults: CameraConfiguration) -> (camera: CameraSpawn)
    ensures
        camera.position.x@ == 0,
        camera.position.y@ == 1_000_000,
        camera.position.z@ == 0,
        camera.looking_to == Axis::X,
        camera.up == Axis::Y,
        camera.configuration.sensitivity@ == 200_000,
        camera.configuration.friction@ == 25_000_000,
        camera.configuration.walk_speed@ == 3_000_000,
        camera.configuration.run_speed@ == 9_000_000,
        camera.configuration.scroll_factor@ == if defaults.scroll_factor@
            >= Tunable::ScrollFactor.floor_micros() {
            defaults.scroll_factor@
        } else {
            Tunable::ScrollFactor.floor_micros()
        },
        camera.configuration.within_floors(),
{
    let floor = Tunable::ScrollFactor.floor();
    let scroll_factor = if defaults.scroll_factor.micros < floor.micros {
        floor
    } else {
        defaults.scroll_factor
    };
    let configuration = CameraConfiguration {
        sensitivity: Fixed::from_thousandths(200),
        friction: Fixed::from_units(25),
        scroll_factor,
        walk_speed: Fixed::from_units(3),
        run_speed: Fixed::from_units(9),
    };
    proof {
        assert forall|which: Tunable| configuration.value(which) >= which.floor_micros() by {
            match which {
                Tunable::Sensitivity => {},
                Tunable::Friction => {},
                Tunable::ScrollFactor => {},
            }
        }
    }
    CameraSpawn {
        position: Vector3::from_units(0, 1, 0),
        looking_to: Axis::X,
        up: Axis::Y,
        configuration,
    }
}

} // verus!
