use vstd::prelude::*;
use crate::arrays::array_from_fn;
use crate::input_manager::action::{action_held, InputAction, InputActionMap, ACTION_COUNT};

verus! {

/// Number of slots in the table of actions.
pub const ACTION_SLOTS: usize = 16;

/// One slot per action, found by the action's index.
pub type ActionDataArray = [InputActionData; 16];

/// Where a trigger stands: held or not, and whether that changed in the
/// current frame.
#[derive(Debug, Clone, Copy, Hash, PartialEq, Eq, Structural)]
pub enum InputActionTriggerState {
    Pressed,
    JustPressed,
    Released,
    JustReleased,
}

/// The state of one action. A consumed action stays released until its
/// trigger is let go.
#[derive(Debug, Clone, Copy, PartialEq, Eq, Structural)]
pub struct InputActionData {
    pub state: InputActionTriggerState,
    pub consumed: bool,
}

/// The state of every action, frame by frame.
pub struct InputActionState {
    actions: ActionDataArray,
}

impl InputActionTriggerState {
    /// The state one frame later, with the trigger unchanged.
    pub open spec fn spec_tick(self) -> Self {
        match self {
            InputActionTriggerState::JustPressed => InputActionTriggerState::Pressed,
            InputActionTriggerState::Pressed => InputActionTriggerState::Pressed,
            InputActionTriggerState::JustReleased => InputActionTriggerState::Released,
            InputActionTriggerState::Released => InputActionTriggerState::Released,
        }
    }

    /// The state once the trigger is found held.
    pub open spec fn spec_press(self) -> Self {
        if self == InputActionTriggerState::Pressed {
            InputActionTriggerState::Pressed
        } else {
            InputActionTriggerState::JustPressed
        }
    }

    /// The state once the trigger is found let go.
    pub open spec fn spec_release(self) -> Self {
        if self == InputActionTriggerState::Released {
            InputActionTriggerState::Released
        } else {
            InputActionTriggerState::JustReleased
        }
    }

    pub open spec fn spec_pressed(self) -> bool {
        self == InputActionTriggerState::Pressed || self == InputActionTriggerState::JustPressed
    }

    pub open spec fn spec_released(self) -> bool {
        self == InputActionTriggerState::Released || self == InputActionTriggerState::JustReleased
    }

    pub fn tick(&mut self)
        ensures
            *final(self) == old(self).spec_tick(),
    {
        *self = match *self {
            InputActionTriggerState::JustPressed => InputActionTriggerState::Pressed,
            InputActionTriggerState::Pressed => InputActionTriggerState::Pressed,
            InputActionTriggerState::JustReleased => InputActionTriggerState::Released,
            InputActionTriggerState::Released => InputActionTriggerState::Released,
        }
    }

    pub fn press(&mut self)
        ensures
            *final(self) == old(self).spec_press(),
    {
        if *self != InputActionTriggerState::Pressed {
            *self = InputActionTriggerState::JustPressed;
        }
    }

    pub fn release(&mut self)
        ensures
            *final(self) == old(self).spec_release(),
    {
        if *self != InputActionTriggerState::Released {
            *self = InputActionTriggerState::JustReleased;
        }
    }

    pub fn pressed(&self) -> (held: bool)
        ensures
            held == self.spec_pressed(),
    {
        *self == InputActionTriggerState::Pressed || *self == InputActionTriggerState::JustPressed
    }

    pub fn released(&self) -> (free: bool)
        ensures
            free == self.spec_released(),
    {
        *self == InputActionTriggerState::Released || *self
            == InputActionTriggerState::JustReleased
    }

    pub fn just_pressed(&self) -> (now: bool)
        ensures
            now == (*self == InputActionTriggerState::JustPressed),
    {
        *self == InputActionTriggerState::JustPressed
    }

    pub fn just_released(&self) -> (now: bool)
        ensures
            now == (*self == InputActionTriggerState::JustReleased),
    {
        *self == InputActionTriggerState::JustReleased
    }
}

impl InputActionData {
    /// The slot of an action that nothing has touched: released, not consumed.
    pub open spec fn spec_default() -> Self {
        InputActionData { state: InputActionTriggerState::Released, consumed: false }
    }

    /// The slot one frame later.
    pub open spec fn ticked(self) -> Self {
        InputActionData { state: self.state.spec_tick(), consumed: self.consumed }
    }

    /// The slot once the trigger is found held: a consumed action ignores it.
    pub open spec fn pressed(self) -> Self {
        if self.consumed {
            self
        } else {
            InputActionData { state: self.state.spec_press(), consumed: false }
        }
    }

    /// The slot once the trigger is found let go: the action can be used again.
    pub open spec fn released(self) -> Self {
        InputActionData { state: self.state.spec_release(), consumed: false }
    }

    /// The slot once the action was consumed.
    pub open spec fn consumed(self) -> Self {
        InputActionData { state: self.state.spec_release(), consumed: true }
    }

    /// The slot after one frame in which the trigger was held or not.
    pub open spec fn stepped(self, held: bool) -> Self {
        if held {
            self.ticked().pressed()
        } else {
            self.ticked().released()
        }
    }
}

impl Default for InputActionData {
    fn default() -> (data: Self)
        ensures
            data == InputActionData::spec_default(),
    {
        InputActionData { state: InputActionTriggerState::Released, consumed: false }
    }
}

/// A table in which every slot is untouched.
pub fn default_actions() -> (actions: ActionDataArray)
    ensures
        forall|i: int| 0 <= i < ACTION_SLOTS ==> actions@[i] == InputActionData::spec_default(),
{
    let make = |_i: usize| -> (data: InputActionData)
        ensures
            data == InputActionData::spec_default(),
        { InputActionData::default() };
    array_from_fn(make)
}

impl View for InputActionState {
    type V = Seq<InputActionData>;

    /// The slots, by action index.
    closed spec fn view(&self) -> Seq<InputActionData> {
        self.actions@
    }
}

impl Default for InputActionState {
    fn default() -> (state: Self)
        ensures
            state@.len() == ACTION_SLOTS,
            forall|i: int| 0 <= i < ACTION_SLOTS ==> state@[i] == InputActionData::spec_default(),
    {
        InputActionState { actions: default_actions() }
    }
}

impl InputActionState {
    /// The table always has one slot per index.
    pub proof fn lemma_len(&self)
        ensures
            self@.len() == ACTION_SLOTS,
    {
    }

    /// Takes over what the triggers of the current frame say: each action
    /// whose slot in `next_actions` is held is pressed, each other action is
    /// released. Slots beyond the last action are left alone.
    pub fn update(&mut self, next_actions: ActionDataArray)
        ensures
            final(self)@.len() == ACTION_SLOTS,
            forall|i: int|
                0 <= i < ACTION_COUNT ==> #[trigger] final(self)@[i] == (if next_actions@[i].state.spec_pressed() {
                    old(self)@[i].pressed()
                } else {
                    old(self)@[i].released()
                }),
            forall|i: int| ACTION_COUNT <= i < ACTION_SLOTS ==> final(self)@[i] == old(self)@[i],
    {
        let mut i: usize = 0;
        while i < ACTION_SLOTS
            invariant
                i <= ACTION_SLOTS,
                forall|j: int|
                    0 <= j < i && j < ACTION_COUNT ==> #[trigger] self@[j] == (if next_actions@[j].state.spec_pressed() {
                        old(self)@[j].pressed()
                    } else {
                        old(self)@[j].released()
                    }),
                forall|j: int|
                    (i <= j || ACTION_COUNT <= j) && 0 <= j < ACTION_SLOTS ==> self@[j] == old(
                        self,
                    )@[j],
            ensures
                i >= ACTION_COUNT,
            decreases ACTION_SLOTS - i,
        {
            let action = match InputAction::try_from_index(i as u8) {
                Some(action) => action,
                None => {
                    break ;
                },
            };
            match next_actions[i].state {
                InputActionTriggerState::Pressed => self.press(action),
                InputActionTriggerState::JustPressed => self.press(action),
                InputActionTriggerState::Released => self.release(action),
                InputActionTriggerState::JustReleased => self.release(action),
            }
            i += 1;
        }
    }

    /// Moves every slot one frame on.
    fn tick(&mut self)
        ensures
            final(self)@.len() == ACTION_SLOTS,
            forall|i: int| 0 <= i < ACTION_SLOTS ==> #[trigger] final(self)@[i] == old(self)@[i].ticked(),
    {
        let mut i: usize = 0;
        while i < ACTION_SLOTS
            invariant
                i <= ACTION_SLOTS,
                forall|j: int| 0 <= j < i ==> #[trigger] self@[j] == old(self)@[j].ticked(),
                forall|j: int| i <= j < ACTION_SLOTS ==> self@[j] == old(self)@[j],
            decreases ACTION_SLOTS - i,
        {
            let ghost before = self@;
            self.actions[i].state.tick();
            assert(self@ =~= before.update(i as int, before[i as int].ticked()));
            i += 1;
        }
    }

    pub fn press(&mut self, action: InputAction)
        ensures
            final(self)@ == old(self)@.update(action.index() as int, old(self)@[action.index() as int].pressed()),
    {
        let i = action.to_index();
        if self.actions[i].consumed {
            return ;
        }
        self.actions[i].state.press();
        assert(self@ =~= old(self)@.update(i as int, old(self)@[i as int].pressed()));
    }

    pub fn release(&mut self, action: InputAction)
        ensures
            final(self)@ == old(self)@.update(action.index() as int, old(self)@[action.index() as int].released()),
    {
        let i = action.to_index();
        self.actions[i].consumed = false;
        self.actions[i].state.release();
        assert(self@ =~= old(self)@.update(i as int, old(self)@[i as int].released()));
    }

    /// Uses the action up: it reads as released until its trigger is let go.
    pub fn consume(&mut self, action: InputAction)
        ensures
            final(self)@ == old(self)@.update(action.index() as int, old(self)@[action.index() as int].consumed()),
    {
        let i = action.to_index();
        self.actions[i].consumed = true;
        self.actions[i].state.release();
        assert(self@ =~= old(self)@.update(i as int, old(self)@[i as int].consumed()));
    }

    pub fn pressed(&self, action: InputAction) -> (held: bool)
        ensures
            held == self@[action.index() as int].state.spec_pressed(),
    {
        self.actions[action.to_index()].state.pressed()
    }

    pub fn just_pressed(&self, action: InputAction) -> (now: bool)
        ensures
            now == (self@[action.index() as int].state == InputActionTriggerState::JustPressed),
    {
        self.actions[action.to_index()].state.just_pressed()
    }

    pub fn released(&self, action: InputAction) -> (free: bool)
        ensures
            free == self@[action.index() as int].state.spec_released(),
    {
        self.actions[action.to_index()].state.released()
    }

    pub fn just_released(&self, action: InputAction) -> (now: bool)
        ensures
            now == (self@[action.index() as int].state == InputActionTriggerState::JustReleased),
    {
        self.actions[action.to_index()].state.just_released()
    }
}

/// A consumed action reads as released for as long as its trigger stays
/// held, and can be pressed again one frame after the trigger was let go.
pub proof fn lemma_consumed_waits_for_release(data: InputActionData, held: bool)
    requires
        data.consumed,
        data.state.spec_released(),
    ensures
        held ==> data.stepped(held).consumed && data.stepped(held).state.spec_released(),
        !held ==> !data.stepped(held).consumed && data.stepped(held).state.spec_released(),
        !held ==> data.stepped(held).stepped(true).state == InputActionTriggerState::JustPressed,
{
}

/// An action that is not consumed follows its trigger: after a frame it is
/// pressed where the trigger is held and released where it is not, and the
/// first frame of either reads as just pressed or just released.
pub proof fn lemma_state_follows_trigger(data: InputActionData, held: bool)
    requires
        !data.consumed,
    ensures
        data.stepped(held).state.spec_pressed() == held,
        data.stepped(held).state.spec_released() == !held,
        (data.stepped(held).state == InputActionTriggerState::JustPressed) == (held
            && !data.state.spec_pressed()),
        (data.stepped(held).state == InputActionTriggerState::JustReleased) == (!held
            && !data.state.spec_released()),
{
}

/// One frame of input: every slot moves one frame on, then each action
/// with a held trigger is pressed and each other action is released.
pub fn keyboard_input_system(
    input_action_state: &mut InputActionState,
    input_action_map: &InputActionMap,
    input_key_codes: &Vec<u32>,
    input_mouse_buttons: &Vec<u16>,
)
    ensures
        final(input_action_state)@.len() == ACTION_SLOTS,
        forall|i: int|
            0 <= i < ACTION_COUNT ==> #[trigger] final(input_action_state)@[i] == old(
                input_action_state,
            )@[i].stepped(
                action_held(
                    input_action_map.bindings@,
                    input_action_map.bindings@.len() as int,
                    i,
                    input_key_codes@,
                    input_mouse_buttons@,
                ),
            ),
        forall|i: int|
            ACTION_COUNT <= i < ACTION_SLOTS ==> #[trigger] final(input_action_state)@[i] == old(
                input_action_state,
            )@[i].ticked(),
{
    input_action_state.tick();
    let state = input_action_map.get_states(input_key_codes, input_mouse_buttons);
    input_action_state.update(state);
}

} // verus!
