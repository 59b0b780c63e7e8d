use vstd::prelude::*;
use crate::input_manager::action_state::{
    default_actions, ActionDataArray, InputActionData, InputActionTriggerState, ACTION_SLOTS,
};

verus! {

/// Number of actions.
pub const ACTION_COUNT: usize = 5;

/// What the player can ask for.
#[derive(Debug, Clone, Copy, Hash, PartialEq, Eq, Structural)]
pub enum InputAction {
    Left,
    Right,
    Up,
    Down,
    Select,
}

impl InputAction {
    /// The place of the action in the order of declaration, from zero.
    pub open spec fn index(self) -> nat {
        match self {
            InputAction::Left => 0,
            InputAction::Right => 1,
            InputAction::Up => 2,
            InputAction::Down => 3,
            InputAction::Select => 4,
        }
    }

    pub fn to_index(self) -> (i: usize)
        ensures
            i == self.index(),
            i < ACTION_COUNT,
    {
        match self {
            InputAction::Left => 0,
            InputAction::Right => 1,
            InputAction::Up => 2,
            InputAction::Down => 3,
            InputAction::Select => 4,
        }
    }

    /// The action with the given index, if there is one.
    pub fn try_from_index(index: u8) -> (action: Option<InputAction>)
        ensures
            match action {
                Some(a) => a.index() == index,
                None => index >= ACTION_COUNT,
            },
    {
        match index {
            0 => Some(InputAction::Left),
            1 => Some(InputAction::Right),
            2 => Some(InputAction::Up),
            3 => Some(InputAction::Down),
            4 => Some(InputAction::Select),
            _ => None,
        }
    }
}

/// What sets an action off: a key or a mouse button, each named by its
/// code. The code of a key is its place in the list of keys of the keyboard
/// layer in use; the codes of the mouse buttons start with the left button.
#[derive(Debug, Clone, Copy, PartialEq, Eq, Structural)]
pub enum InputActionTrigger {
    KeyCode(u32),
    MouseButton(u16),
}

/// Which trigger sets off which action.
pub struct InputActionMap {
    pub bindings: Vec<(InputAction, InputActionTrigger)>,
}

/// Code of the key A.
pub const KEY_A: u32 = 10;

/// Code of the key D.
pub const KEY_D: u32 = 13;

/// Code of the key S.
pub const KEY_S: u32 = 28;

/// Code of the key W.
pub const KEY_W: u32 = 32;

/// Code of the left mouse button.
pub const MOUSE_LEFT: u16 = 0;

/// Whether a trigger is held, given the codes of the keys and of the mouse
/// buttons that are held.
pub open spec fn trigger_held(trigger: InputActionTrigger, keys: Seq<u32>, buttons: Seq<u16>) -> bool {
    match trigger {
        InputActionTrigger::KeyCode(code) => keys.contains(code),
        InputActionTrigger::MouseButton(code) => buttons.contains(code),
    }
}

/// Whether one of the first `count` bindings sets off the action with index
/// `index`, given what is held.
pub open spec fn action_held(
    bindings: Seq<(InputAction, InputActionTrigger)>,
    count: int,
    index: int,
    keys: Seq<u32>,
    buttons: Seq<u16>,
) -> bool {
    exists|b: int|
        0 <= b < count && (#[trigger] bindings[b]).0.index() == index && trigger_held(
            bindings[b].1,
            keys,
            buttons,
        )
}

fn contains_key_code(codes: &Vec<u32>, code: u32) -> (found: bool)
    ensures
        found == codes@.contains(code),
{
    let mut i: usize = 0;
    while i < codes.len()
        invariant
            i <= codes.len(),
            forall|j: int| 0 <= j < i ==> codes@[j] != code,
        decreases codes.len() - i,
    {
        if codes[i] == code {
            return true;
        }
        i += 1;
    }
    false
}

fn contains_button_code(codes: &Vec<u16>, code: u16) -> (found: bool)
    ensures
        found == codes@.contains(code),
{
    let mut i: usize = 0;
    while i < codes.len()
        invariant
            i <= codes.len(),
            forall|j: int| 0 <= j < i ==> codes@[j] != code,
        decreases codes.len() - i,
    {
        if codes[i] == code {
            return true;
        }
        i += 1;
    }
    false
}

impl From<u32> for InputActionTrigger {
    fn from(key_code: u32) -> (trigger: Self)
        ensures
            trigger == InputActionTrigger::KeyCode(key_code),
    {
        InputActionTrigger::KeyCode(key_code)
    }
}

impl vstd::std_specs::convert::FromSpecImpl<u32> for InputActionTrigger {
    open spec fn obeys_from_spec() -> bool {
        true
    }

    open spec fn from_spec(key_code: u32) -> Self {
        InputActionTrigger::KeyCode(key_code)
    }
}

impl vstd::std_specs::convert::FromSpecImpl<u16> for InputActionTrigger {
    open spec fn obeys_from_spec() -> bool {
        true
    }

    open spec fn from_spec(mouse_button: u16) -> Self {
        InputActionTrigger::MouseButton(mouse_button)
    }
}

impl From<u16> for InputActionTrigger {
    fn from(mouse_button: u16) -> (trigger: Self)
        ensures
            trigger == InputActionTrigger::MouseButton(mouse_button),
    {
        InputActionTrigger::MouseButton(mouse_button)
    }
}

impl InputActionMap {
    /// The bindings that a new game starts with.
    pub open spec fn spec_default() -> Seq<(InputAction, InputActionTrigger)> {
        seq![
            (InputAction::Left, InputActionTrigger::KeyCode(KEY_A)),
            (InputAction::Right, InputActionTrigger::KeyCode(KEY_D)),
            (InputAction::Up, InputActionTrigger::KeyCode(KEY_W)),
            (InputAction::Down, InputActionTrigger::KeyCode(KEY_S)),
            (InputAction::Select, InputActionTrigger::MouseButton(MOUSE_LEFT)),
        ]
    }

    /// What the triggers say in the current frame: the slot of each action
    /// with a held trigger is just pressed, every other slot is untouched.
    pub fn get_states(&self, input_key_codes: &Vec<u32>, input_mouse_buttons: &Vec<u16>) -> (state:
        ActionDataArray)
        ensures
            forall|i: int|
                0 <= i < ACTION_SLOTS ==> #[trigger] state@[i] == (if action_held(
                    self.bindings@,
                    self.bindings@.len() as int,
                    i,
                    input_key_codes@,
                    input_mouse_buttons@,
                ) {
                    InputActionData { state: InputActionTriggerState::JustPressed, consumed: false }
                } else {
                    InputActionData::spec_default()
                }),
    {
        let mut state: ActionDataArray = default_actions();
        let mut b: usize = 0;
        while b < self.bindings.len()
            invariant
                b <= self.bindings.len(),
                forall|i: int|
                    0 <= i < ACTION_SLOTS ==> #[trigger] state@[i] == (if action_held(
                        self.bindings@,
                        b as int,
                        i,
                        input_key_codes@,
                        input_mouse_buttons@,
                    ) {
                        InputActionData {
                            state: InputActionTriggerState::JustPressed,
                            consumed: false,
                        }
                    } else {
                        InputActionData::spec_default()
                    }),
            decreases self.bindings.len() - b,
        {
            let (action, trigger) = self.bindings[b];
            let held = match trigger {
                InputActionTrigger::KeyCode(key_code) => contains_key_code(
                    input_key_codes,
                    key_code,
                ),
                InputActionTrigger::MouseButton(mouse_button) => contains_button_code(
                    input_mouse_buttons,
                    mouse_button,
                ),
            };
            let ghost before = state;
            if held {
                state[action.to_index()].state = InputActionTriggerState::JustPressed;
            }
            proof {
                assert forall|i: int| 0 <= i < ACTION_SLOTS implies #[trigger] state@[i] == (
                if action_held(
                    self.bindings@,
                    b + 1,
                    i,
                    input_key_codes@,
                    input_mouse_buttons@,
                ) {
                    InputActionData { state: InputActionTriggerState::JustPressed, consumed: false }
                } else {
                    InputActionData::spec_default()
                }) by {
                    let was = action_held(
                        self.bindings@,
                        b as int,
                        i,
                        input_key_codes@,
                        input_mouse_buttons@,
                    );
                    let now = action_held(
                        self.bindings@,
                        b + 1,
                        i,
                        input_key_codes@,
                        input_mouse_buttons@,
                    );
                    assert(before@[i] == (if was {
                        InputActionData {
                            state: InputActionTriggerState::JustPressed,
                            consumed: false,
                        }
                    } else {
                        InputActionData::spec_default()
                    }));
                    if was {
                        let w = choose|w: int|
                            0 <= w < b && (#[trigger] self.bindings@[w]).0.index() == i
                                && trigger_held(
                                self.bindings@[w].1,
                                input_key_codes@,
                                input_mouse_buttons@,
                            );
                        assert(0 <= w < b + 1);
                    }
                    if held && action.index() == i {
                        assert(self.bindings@[b as int].0.index() == i);
                    }
                    if now && !was {
                        let w = choose|w: int|
                            0 <= w < b + 1 && (#[trigger] self.bindings@[w]).0.index() == i
                                && trigger_held(
                                self.bindings@[w].1,
                                input_key_codes@,
                                input_mouse_buttons@,
                            );
                        assert(w == b);
                    }
                }
            }
            b += 1;
        }
        state
    }
}

impl Default for InputActionMap {
    fn default() -> (map: Self)
        ensures
            map.bindings@ == InputActionMap::spec_default(),
    {
        let mut bindings: Vec<(InputAction, InputActionTrigger)> = Vec::new();
        bindings.push((InputAction::Left, InputActionTrigger::KeyCode(KEY_A)));
        bindings.push((InputAction::Right, InputActionTrigger::KeyCode(KEY_D)));
        bindings.push((InputAction::Up, InputActionTrigger::KeyCode(KEY_W)));
        bindings.push((InputAction::Down, InputActionTrigger::KeyCode(KEY_S)));
        bindings.push((InputAction::Select, InputActionTrigger::MouseButton(MOUSE_LEFT)));
        assert(bindings@ =~= InputActionMap::spec_default());
        InputActionMap { bindings }
    }
}

} // verus!
