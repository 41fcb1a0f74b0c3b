//! Live tuning of the camera: each frame, held keys lower or raise a setting by a fixed
//! step, never below the setting's floor, and one key switches the camera on and off.

use vstd::prelude::*;
use crate::camera::{CameraConfiguration, CameraRuntimeState};
use crate::fixed::Fixed;
use crate::input::{InputSnapshot, Key};

verus! {

/// The settings that can be tuned while the walkthrough runs.
#[derive(Clone, Copy, Debug, PartialEq, Eq, Structural)]
pub enum Tunable {
    Sensitivity,
    Friction,
    ScrollFactor,
}

impl Tunable {
    /// By how many millionths one frame changes the setting.
    pub open spec fn step_micros(self) -> int {
        match self {
            Tunable::Sensitivity => 5_000,
            Tunable::Friction => 200_000,
            Tunable::ScrollFactor => 20_000,
        }
    }

    /// The value, in millionths, below which the setting is never lowered.
    pub open spec fn floor_micros(self) -> int {
        match self {
            Tunable::Sensitivity => 5_000,
            Tunable::Friction => 0,
            Tunable::ScrollFactor => 20_000,
        }
    }

    /// The key that lowers the setting while it is held.
    pub open spec fn decrease_binding(self) -> Key {
        match self {
            Tunable::Sensitivity => Key::KeyZ,
            Tunable::Friction => Key::KeyC,
            Tunable::ScrollFactor => Key::KeyF,
        }
    }

    /// The key that raises the setting while it is held.
    pub open spec fn increase_binding(self) -> Key {
        match self {
            Tunable::Sensitivity => Key::KeyX,
            Tunable::Friction => Key::KeyV,
            Tunable::ScrollFactor => Key::KeyG,
        }
    }

    /// The setting's value after one frame with `input`, in millionths: lowered first,
    /// where its decrease key is held, then raised, where its increase key is held.
    pub open spec fn tuned(self, value: int, input: InputSnapshot) -> int {
        let low = if input.is_held(self.decrease_binding()) {
            lowered(value, self.step_micros(), self.floor_micros())
        } else {
            value
        };
        if input.is_held(self.increase_binding()) {
            low + self.step_micros()
        } else {
            low
        }
    }

    /// The setting's value after one frame with `input` where a quantity can hold that
    /// value, and `value` itself where none can.
    pub open spec fn settled(self, value: int, input: InputSnapshot) -> int {
        if self.tuned(value, input) <= i64::MAX {
            self.tuned(value, input)
        } else {
            value
        }
    }

    /// The setting's value after the frames of `frames`, one after the other, where a
    /// frame whose value no quantity can hold leaves the setting as it is.
    pub open spec fn settled_over(self, value: int, frames: Seq<InputSnapshot>) -> int
        decreases frames.len(),
    {
        if frames.len() == 0 {
            value
        } else {
            self.settled(self.settled_over(value, frames.drop_last()), frames.last())
        }
    }

    /// The setting's value after the frames of `frames`, one after the other.
    pub open spec fn tuned_over(self, value: int, frames: Seq<InputSnapshot>) -> int
        decreases frames.len(),
    {
        if frames.len() == 0 {
            value
        } else {
            self.tuned(self.tuned_over(value, frames.drop_last()), frames.last())
        }
    }

    /// The change that one frame makes.
    pub fn step(self) -> (step: Fixed)
        ensures
            step@ == self.step_micros(),
    {
        match self {
            Tunable::Sensitivity => Fixed { micros: 5_000 },
            Tunable::Friction => Fixed { micros: 200_000 },
            Tunable::ScrollFactor => Fixed { micros: 20_000 },
        }
    }

    /// The least value that lowering leaves.
    pub fn floor(self) -> (floor: Fixed)
        ensures
            floor@ == self.floor_micros(),
    {
        match self {
            Tunable::Sensitivity => Fixed { micros: 5_000 },
            Tunable::Friction => Fixed { micros: 0 },
            Tunable::ScrollFactor => Fixed { micros: 20_000 },
        }
    }

    /// The key that lowers the setting while it is held.
    pub fn decrease_key(self) -> (key: Key)
        ensures
            key == self.decrease_binding(),
    {
        match self {
            Tunable::Sensitivity => Key::KeyZ,
            Tunable::Friction => Key::KeyC,
            Tunable::ScrollFactor => Key::KeyF,
        }
    }

    /// The key that raises the setting while it is held.
    pub fn increase_key(self) -> (key: Key)
        ensures
            key == self.increase_binding(),
    {
        match self {
            Tunable::Sensitivity => Key::KeyX,
            Tunable::Friction => Key::KeyV,
            Tunable::ScrollFactor => Key::KeyG,
        }
    }

    /// `value` less one step, or the floor where that would be lower.
    pub fn lower(self, value: Fixed) -> (low: Fixed)
        ensures
            low@ == lowered(value@, self.step_micros(), self.floor_micros()),
    {
        let floor = self.floor();
        let reduced: i128 = value.micros as i128 - self.step().micros as i128;
        if reduced > floor.micros as i128 {
            Fixed { micros: reduced as i64 }
        } else {
            floor
        }
    }

    /// `value` and one step more.
    pub fn raise(self, value: Fixed) -> (high: Fixed)
        requires
            value@ + self.step_micros() <= i64::MAX,
        ensures
            high@ == value@ + self.step_micros(),
    {
        Fixed { micros: value.micros + self.step().micros }
    }

    /// What one frame with `input` makes of `value`.
    pub fn apply(self, value: Fixed, input: &InputSnapshot) -> (next: Fixed)
        requires
            self.tuned(value@, *input) <= i64::MAX,
        ensures
            next@ == self.tuned(value@, *input),
    {
        let mut next = value;
        if input.pressed(self.decrease_key()) {
            next = self.lower(next);
        }
        if input.pressed(self.increase_key()) {
            next = self.raise(next);
        }
        next
    }

    /// What one frame with `input` makes of `value` where a quantity can hold it, and
    /// `value` itself where none can.
    pub fn try_apply(self, value: Fixed, input: &InputSnapshot) -> (next: Fixed)
        ensures
            next@ == self.settled(value@, *input),
    {
        if self.fits(value, input) {
            self.apply(value, input)
        } else {
            value
        }
    }

    /// Whether one frame with `input` leaves `value` within what a quantity can hold.
    pub fn fits(self, value: Fixed, input: &InputSnapshot) -> (ok: bool)
        ensures
            ok == (self.tuned(value@, *input) <= i64::MAX),
    {
        let low = if input.pressed(self.decrease_key()) {
            self.lower(value)
        } else {
            value
        };
        !input.pressed(self.increase_key()) || low.micros <= i64::MAX - self.step().micros
    }
}

/// `value` less `step`, or `floor` where that would be lower.
pub open spec fn lowered(value: int, step: int, floor: int) -> int {
    if value - step > floor {
        value - step
    } else {
        floor
    }
}

/// The key that switches the camera on and off.
pub open spec fn toggle_binding() -> Key {
    Key::KeyB
}

/// The key that switches the camera on and off.
pub fn toggle_key() -> (key: Key)
    ensures
        key == toggle_binding(),
{
    Key::KeyB
}

/// Whether the camera is enabled after one frame with `input`: the other way round
/// where the toggle key went down in that frame, as before where it did not.
pub open spec fn toggled(enabled: bool, input: InputSnapshot) -> bool {
    if input.is_fresh(toggle_binding()) {
        !enabled
    } else {
        enabled
    }
}

/// Whether the camera is enabled after the frames of `frames`, one after the other.
pub open spec fn toggled_over(enabled: bool, frames: Seq<InputSnapshot>) -> bool
    decreases frames.len(),
{
    if frames.len() == 0 {
        enabled
    } else {
        toggled(toggled_over(enabled, frames.drop_last()), frames.last())
    }
}

/// In how many frames of `frames` the toggle key went down.
pub open spec fn toggle_presses(frames: Seq<InputSnapshot>) -> nat
    decreases frames.len(),
{
    if frames.len() == 0 {
        0
    } else {
        toggle_presses(frames.drop_last()) + if frames.last().is_fresh(toggle_binding()) {
            1nat
        } else {
            0nat
        }
    }
}

impl CameraConfiguration {
    /// The value of the setting `which`, in millionths.
    pub open spec fn value(self, which: Tunable) -> int {
        match which {
            Tunable::Sensitivity => self.sensitivity@,
            Tunable::Friction => self.friction@,
            Tunable::ScrollFactor => self.scroll_factor@,
        }
    }

    /// Whether no tunable setting is below its floor.
    pub open spec fn within_floors(self) -> bool {
        forall|which: Tunable| self.value(which) >= which.floor_micros()
    }

    /// Whether one frame with `input` leaves every setting within what a quantity can hold.
    pub open spec fn can_tune(self, input: InputSnapshot) -> bool {
        forall|which: Tunable| #[trigger] which.tuned(self.value(which), input) <= i64::MAX
    }

    /// Whether one frame with `input` leaves every setting within what a quantity can hold.
    pub fn tuning_fits(&self, input: &InputSnapshot) -> (ok: bool)
        ensures
            ok == self.can_tune(*input),
    {
        let ok = Tunable::Sensitivity.fits(self.sensitivity, input)
            && Tunable::Friction.fits(self.friction, input)
            && Tunable::ScrollFactor.fits(self.scroll_factor, input);
        proof {
            if ok {
                assert forall|which: Tunable| #[trigger]
                    which.tuned(self.value(which), *input) <= i64::MAX by {
                    match which {
                        Tunable::Sensitivity => {},
                        Tunable::Friction => {},
                        Tunable::ScrollFactor => {},
                    }
                }
            } else {
                assert(Tunable::Sensitivity.tuned(self.value(Tunable::Sensitivity), *input)
                    > i64::MAX || Tunable::Friction.tuned(self.value(Tunable::Friction), *input)
                    > i64::MAX || Tunable::ScrollFactor.tuned(
                    self.value(Tunable::ScrollFactor),
                    *input,
                ) > i64::MAX);
            }
        }
        ok
    }
}

/// One frame of tuning, for every input. Each setting whose decrease key is held goes
/// down by its step, but not below its floor; each whose increase key is held then goes
/// up by its step, with no upper bound but the largest value that a quantity can hold: a
/// setting that a step would take beyond that is left as it is. The camera is switched
/// on or off in the frame in which the toggle key went down, and in no other. The speeds
/// and the velocity are left as they are.
pub fn update_camera_settings(
    configuration: &mut CameraConfiguration,
    state: &mut CameraRuntimeState,
    input: &InputSnapshot,
)
    ensures
        forall|which: Tunable|
            final(configuration).value(which) == which.settled(
                old(configuration).value(which),
                *input,
            ),
        old(configuration).can_tune(*input) ==> forall|which: Tunable|
            final(configuration).value(which) == which.tuned(
                old(configuration).value(which),
                *input,
            ),
        final(configuration).walk_speed == old(configuration).walk_speed,
        final(configuration).run_speed == old(configuration).run_speed,
        final(state).enabled == toggled(old(state).enabled, *input),
        final(state).velocity == old(state).velocity,
        old(configuration).within_floors() ==> final(configuration).within_floors(),
{
    configuration.sensitivity = Tunable::Sensitivity.try_apply(configuration.sensitivity, input);
    configuration.friction = Tunable::Friction.try_apply(configuration.friction, input);
    configuration.scroll_factor = Tunable::ScrollFactor.try_apply(
        configuration.scroll_factor,
        input,
    );
    if input.just_pressed(toggle_key()) {
        state.enabled = !state.enabled;
    }
    proof {
        if old(configuration).can_tune(*input) {
            assert forall|which: Tunable|
                final(configuration).value(which) == which.tuned(
                    old(configuration).value(which),
                    *input,
                ) by {
                lemma_settled_is_tuned(which, old(configuration).value(which), *input);
            }
        }
        if old(configuration).within_floors() {
            assert forall|which: Tunable|
                final(configuration).value(which) >= which.floor_micros() by {
                lemma_settled_stays_above_floor(which, old(configuration).value(which), *input);
            }
        }
    }
}

/// Where a quantity can hold what a frame makes of a setting, the frame makes exactly
/// that of it.
pub proof fn lemma_settled_is_tuned(which: Tunable, value: int, input: InputSnapshot)
    requires
        which.tuned(value, input) <= i64::MAX,
    ensures
        which.settled(value, input) == which.tuned(value, input),
{
}

/// A frame never takes a setting from its floor or above to below its floor, whether a
/// quantity can hold the new value or not.
pub proof fn lemma_settled_stays_above_floor(which: Tunable, value: int, input: InputSnapshot)
    requires
        value >= which.floor_micros(),
    ensures
        which.settled(value, input) >= which.floor_micros(),
{
}

/// However many frames pass, whatever keys are held in them and however large the
/// setting has grown, a setting that starts at its floor or above is never below its
/// floor.
pub proof fn lemma_settled_never_below_floor(
    which: Tunable,
    value: int,
    frames: Seq<InputSnapshot>,
)
    requires
        value >= which.floor_micros(),
    ensures
        which.settled_over(value, frames) >= which.floor_micros(),
    decreases frames.len(),
{
    if frames.len() > 0 {
        lemma_settled_never_below_floor(which, value, frames.drop_last());
        lemma_settled_stays_above_floor(
            which,
            which.settled_over(value, frames.drop_last()),
            frames.last(),
        );
    }
}

/// A frame never takes a setting from its floor or above to below its floor.
pub proof fn lemma_stays_above_floor(which: Tunable, value: int, input: InputSnapshot)
    requires
        value >= which.floor_micros(),
    ensures
        which.tuned(value, input) >= which.floor_micros(),
{
}

/// A frame in which the decrease key is held leaves the setting at its floor or above,
/// wherever it stood before.
pub proof fn lemma_decrease_stops_at_floor(which: Tunable, value: int, input: InputSnapshot)
    requires
        input.is_held(which.decrease_binding()),
    ensures
        which.tuned(value, input) >= which.floor_micros(),
{
}

/// However many frames pass and whatever keys are held in them, a setting that starts at
/// its floor or above is never below its floor: 0.005 for the sensitivity, 0 for the
/// friction, 0.02 for the scroll factor.
pub proof fn lemma_never_below_floor(which: Tunable, value: int, frames: Seq<InputSnapshot>)
    requires
        value >= which.floor_micros(),
    ensures
        which.tuned_over(value, frames) >= which.floor_micros(),
    decreases frames.len(),
{
    if frames.len() > 0 {
        lemma_never_below_floor(which, value, frames.drop_last());
        lemma_stays_above_floor(
            which,
            which.tuned_over(value, frames.drop_last()),
            frames.last(),
        );
    }
}

/// After any run of frames that ends with the decrease key held, the setting is at
/// its floor or above, wherever it started.
pub proof fn lemma_decrease_presses_respect_floor(
    which: Tunable,
    value: int,
    frames: Seq<InputSnapshot>,
)
    requires
        frames.len() > 0,
        frames.last().is_held(which.decrease_binding()),
    ensures
        which.tuned_over(value, frames) >= which.floor_micros(),
{
    lemma_decrease_stops_at_floor(
        which,
        which.tuned_over(value, frames.drop_last()),
        frames.last(),
    );
}

/// Holding the increase key alone for any number of frames raises the setting by exactly
/// that number of steps.
pub proof fn lemma_increase_accumulates(which: Tunable, value: int, frames: Seq<InputSnapshot>)
    requires
        forall|i: int|
            0 <= i < frames.len() ==> frames[i].is_held(which.increase_binding())
                && !frames[i].is_held(which.decrease_binding()),
    ensures
        which.tuned_over(value, frames) == value + frames.len() * which.step_micros(),
    decreases frames.len(),
{
    if frames.len() > 0 {
        let before = frames.drop_last();
        lemma_increase_accumulates(which, value, before);
        let count = before.len() as int;
        let step = which.step_micros();
        assert((count + 1) * step == count * step + step) by (nonlinear_arith);
    }
}

/// Holding the increase key alone for any number of frames raises the setting by exactly
/// that number of steps, frame by frame as `update_camera_settings` tunes it, as long as
/// a quantity can hold the sum.
pub proof fn lemma_settled_increase_accumulates(
    which: Tunable,
    value: int,
    frames: Seq<InputSnapshot>,
)
    requires
        forall|i: int|
            0 <= i < frames.len() ==> frames[i].is_held(which.increase_binding())
                && !frames[i].is_held(which.decrease_binding()),
        value + frames.len() * which.step_micros() <= i64::MAX,
    ensures
        which.settled_over(value, frames) == value + frames.len() * which.step_micros(),
    decreases frames.len(),
{
    if frames.len() > 0 {
        let before = frames.drop_last();
        let count = before.len() as int;
        let step = which.step_micros();
        assert((count + 1) * step == count * step + step) by (nonlinear_arith);
        lemma_settled_increase_accumulates(which, value, before);
    }
}

/// Holding the decrease key alone for any number of frames lowers the setting by that
/// number of steps, and no further than to its floor.
pub proof fn lemma_decrease_accumulates(which: Tunable, value: int, frames: Seq<InputSnapshot>)
    requires
        value >= which.floor_micros(),
        forall|i: int|
            0 <= i < frames.len() ==> frames[i].is_held(which.decrease_binding())
                && !frames[i].is_held(which.increase_binding()),
    ensures
        which.tuned_over(value, frames) == if value - frames.len() * which.step_micros()
            > which.floor_micros() {
            value - frames.len() * which.step_micros()
        } else {
            which.floor_micros()
        },
    decreases frames.len(),
{
    if frames.len() > 0 {
        let before = frames.drop_last();
        lemma_decrease_accumulates(which, value, before);
        let count = before.len() as int;
        let step = which.step_micros();
        assert((count + 1) * step == count * step + step) by (nonlinear_arith);
        assert(count * step >= 0) by (nonlinear_arith)
            requires
                count >= 0,
                step >= 0,
        ;
    }
}

/// The camera is switched once for each frame in which the toggle key went down: after
/// an even number of such frames it is as it was, after an odd number the other way round.
pub proof fn lemma_toggle_counts_presses(enabled: bool, frames: Seq<InputSnapshot>)
    ensures
        toggled_over(enabled, frames) == if toggle_presses(frames) % 2 == 0 {
            enabled
        } else {
            !enabled
        },
    decreases frames.len(),
{
    if frames.len() > 0 {
        lemma_toggle_counts_presses(enabled, frames.drop_last());
    }
}

/// Without a fresh press of the toggle key nothing switches the camera: a camera that is
/// disabled stays disabled, and one that is enabled stays enabled, through any number of
/// frames, whatever other keys are held in them.
pub proof fn lemma_no_press_no_switch(enabled: bool, frames: Seq<InputSnapshot>)
    requires
        forall|i: int| 0 <= i < frames.len() ==> !frames[i].is_fresh(toggle_binding()),
    ensures
        toggled_over(enabled, frames) == enabled,
    decreases frames.len(),
{
    if frames.len() > 0 {
        lemma_no_press_no_switch(enabled, frames.drop_last());
    }
}

/// A key that goes down in the first frame and stays down through the rest switches the
/// camera exactly once, however many frames it is held.
pub proof fn lemma_held_toggle_flips_once(enabled: bool, frames: Seq<InputSnapshot>)
    requires
        frames.len() >= 1,
        frames[0].is_fresh(toggle_binding()),
        forall|i: int| 1 <= i < frames.len() ==> !frames[i].is_fresh(toggle_binding()),
    ensures
        toggled_over(enabled, frames) == !enabled,
        toggle_presses(frames) == 1,
    decreases frames.len(),
{
    if frames.len() == 1 {
        assert(frames.drop_last().len() == 0);
        assert(toggled_over(enabled, frames.drop_last()) == enabled);
        assert(toggle_presses(frames.drop_last()) == 0);
    } else {
        lemma_held_toggle_flips_once(enabled, frames.drop_last());
    }
}

} // verus!
