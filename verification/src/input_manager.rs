pub mod action;
pub mod action_state;
