use vstd::prelude::*;
use crate::input_manager::action::InputAction;
use crate::input_manager::action_state::InputActionState;
use crate::tilemap::coords::IVec2;

verus! {

/// The step along one axis that two opposite actions ask for: towards the
/// first where it is held, else towards the second where that is held.
pub open spec fn axis_step(first: bool, first_step: int, second: bool) -> int {
    if first {
        first_step
    } else if second {
        -first_step
    } else {
        0
    }
}

/// The direction in which the held actions move the camera: left before
/// right along `x`, up before down along `y`, one unit each.
pub fn camera_direction(input_action_state: &InputActionState) -> (dv: IVec2)
    ensures
        dv.x == axis_step(
            input_action_state@[InputAction::Left.index() as int].state.spec_pressed(),
            -1,
            input_action_state@[InputAction::Right.index() as int].state.spec_pressed(),
        ),
        dv.y == axis_step(
            input_action_state@[InputAction::Up.index() as int].state.spec_pressed(),
            1,
            input_action_state@[InputAction::Down.index() as int].state.spec_pressed(),
        ),
{
    let mut dv = IVec2::new(0, 0);
    if input_action_state.pressed(InputAction::Left) {
        dv.x = -1;
    } else if input_action_state.pressed(InputAction::Right) {
        dv.x = 1;
    }
    if input_action_state.pressed(InputAction::Up) {
        dv.y = 1;
    } else if input_action_state.pressed(InputAction::Down) {
        dv.y = -1;
    }
    dv
}

} // verus!
