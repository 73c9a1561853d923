use vstd::prelude::*;

verus! {

/// What the interface shows besides the metrics list.
#[derive(Clone, Copy, Debug, PartialEq, Eq, Structural)]
pub struct UiState {
    pub modal_open: bool,
}

impl UiState {
    /// The state at the start of the loop: no overlay.
    pub fn new() -> (r: UiState)
        ensures
            !r.modal_open,
    {
        UiState { modal_open: false }
    }

    /// Shows the overlay; nothing closes it again.
    pub fn open_modal(&mut self)
        ensures
            final(self).modal_open,
    {
        self.modal_open = true;
    }

    pub fn is_modal_open(&self) -> (r: bool)
        ensures
            r == self.modal_open,
    {
        self.modal_open
    }
}

/// The key of a keyboard event, as far as the interface tells keys apart.
#[derive(Clone, Copy, Debug, PartialEq, Eq, Structural)]
pub enum KeyCode {
    Char(char),
    Other,
}

#[derive(Clone, Copy, Debug, PartialEq, Eq, Structural)]
pub enum KeyKind {
    Press,
    Repeat,
    Release,
}

#[derive(Clone, Copy, Debug, PartialEq, Eq, Structural)]
pub struct KeyEvent {
    pub code: KeyCode,
    pub kind: KeyKind,
}

/// A press of a character key.
pub open spec fn key_press(c: char) -> KeyEvent {
    KeyEvent { code: KeyCode::Char(c), kind: KeyKind::Press }
}

impl KeyEvent {
    /// A press of a character key.
    pub fn press(c: char) -> (r: KeyEvent)
        ensures
            r == key_press(c),
    {
        KeyEvent { code: KeyCode::Char(c), kind: KeyKind::Press }
    }
}

/// What one input event does to the loop.
#[derive(Clone, Copy, Debug, PartialEq, Eq, Structural)]
pub enum Transition {
    OpenModal,
    Quit,
    Ignore,
}

/// '?' pressed opens the overlay, 'q' pressed quits; any other key, any event
/// that is not a press, and no event at all are ignored.
pub open spec fn transition_of(event: Option<KeyEvent>) -> Transition {
    match event {
        Some(KeyEvent { code: KeyCode::Char(c), kind: KeyKind::Press }) => {
            if c == '?' {
                Transition::OpenModal
            } else if c == 'q' {
                Transition::Quit
            } else {
                Transition::Ignore
            }
        },
        _ => Transition::Ignore,
    }
}

/// Interprets the event that arrived within one poll window, if any.
pub fn dispatch(state: &mut UiState, event: Option<KeyEvent>) -> (r: Transition)
    ensures
        r == transition_of(event),
        r == Transition::OpenModal ==> final(state).modal_open,
        r != Transition::OpenModal ==> *final(state) == *old(state),
{
    match event {
        Some(KeyEvent { code: KeyCode::Char(c), kind: KeyKind::Press }) => {
            if c == '?' {
                state.open_modal();
                Transition::OpenModal
            } else if c == 'q' {
                Transition::Quit
            } else {
                Transition::Ignore
            }
        },
        _ => Transition::Ignore,
    }
}

} // verus!
