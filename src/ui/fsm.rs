//! The vocabulary of the client's input state machine.
use vstd::prelude::*;

verus! {

/// A key of the keyboard, as far as the client tells keys apart.
#[derive(Clone, Copy, Debug, PartialEq, Eq, Structural)]
pub enum Key {
    Char(char),
    Backspace,
    Enter,
    Esc,
    Up,
    Down,
    Left,
    Right,
    Other,
}

/// A window of the screen, as a state machine over key inputs.
pub trait Transition {
    fn get_action(&self, input: TransitionInput) -> TransitionAction;
}

/// An area of the screen.
#[derive(Clone, Copy, Debug, PartialEq, Eq, Structural)]
pub enum Window {
    /// This is where the action happens.
    MainArea,
    /// Help text and progress.
    MultiPurposeBar,
    /// Information for the player.
    BottomBar,
}

/// What a key asks for.
#[derive(Clone, Copy, Debug, PartialEq, Eq, Structural)]
pub enum TransitionInput {
    Key(Key),
    Init,
    Quit,
}

/// What the client does on a key.
#[derive(Clone, Copy, Debug, PartialEq, Eq, Structural)]
pub enum TransitionAction {
    MoveDown,
    MoveUp,
    Select,
    Unselect,
    Nop,
    Init,
    Quit,
    AcceptChallenge,
}

/// The action of a key in a list: with a challenge pending, only `a` does
/// something (it accepts); else arrows and `j`/`k` move, right, enter and `l`
/// select, and escape quits.
pub open spec fn list_action(challenged: bool, input: Key) -> TransitionAction {
    if challenged {
        if input == Key::Char('a') {
            TransitionAction::AcceptChallenge
        } else {
            TransitionAction::Nop
        }
    } else {
        match input {
            Key::Down | Key::Char('j') => TransitionAction::MoveDown,
            Key::Up | Key::Char('k') => TransitionAction::MoveUp,
            Key::Right | Key::Enter | Key::Char('l') => TransitionAction::Select,
            Key::Esc => TransitionAction::Quit,
            _ => TransitionAction::Nop,
        }
    }
}

pub fn choose_list_action(challenged: bool, input: Key) -> (r: TransitionAction)
    ensures
        r == list_action(challenged, input),
{
    if challenged {
        match input {
            Key::Char('a') => TransitionAction::AcceptChallenge,
            _ => TransitionAction::Nop,
        }
    } else {
        match input {
            Key::Down | Key::Char('j') => TransitionAction::MoveDown,
            Key::Up | Key::Char('k') => TransitionAction::MoveUp,
            Key::Right | Key::Enter | Key::Char('l') => TransitionAction::Select,
            Key::Esc => TransitionAction::Quit,
            _ => TransitionAction::Nop,
        }
    }
}

} // verus!
