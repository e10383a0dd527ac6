//! Key presses as a front end reports them.

use vstd::prelude::*;

verus! {

/// Which key it was.
#[derive(Clone, Copy, Debug, PartialEq, Eq, Structural)]
pub enum KeyCode {
    /// A key that stands for a character.
    Char(char),
    Enter,
    Esc,
    Backspace,
    Left,
    Right,
    Up,
    Down,
    Tab,
    /// Any key that the applications here have no use for.
    Other,
}

/// Whether the key went down, is held down, or came up.
#[derive(Clone, Copy, Debug, PartialEq, Eq, Structural)]
pub enum KeyKind {
    Press,
    Repeat,
    Release,
}

/// One event of the keyboard.
#[derive(Clone, Copy, Debug, PartialEq, Eq, Structural)]
pub struct KeyPress {
    pub code: KeyCode,
    pub kind: KeyKind,
}

/// What the event loop does after an event was handled.
#[derive(Clone, Copy, Debug, PartialEq, Eq, Structural)]
pub enum Flow {
    /// Draw again and wait for the next event.
    Continue,
    /// Leave the loop and end the application.
    Quit,
}

impl KeyPress {
    /// The event of a key of the given code going down.
    pub fn press(code: KeyCode) -> (event: KeyPress)
        ensures
            event == (KeyPress { code, kind: KeyKind::Press }),
    {
        KeyPress { code, kind: KeyKind::Press }
    }

    /// Whether the event is one of the keys that end an application: `q` or
    /// escape.
    pub open spec fn spec_asks_to_quit(&self) -> bool {
        self.code == KeyCode::Char('q') || self.code == KeyCode::Esc
    }

    /// Whether the event is one of the keys that end an application: `q` or
    /// escape.
    #[verifier::when_used_as_spec(spec_asks_to_quit)]
    pub fn asks_to_quit(&self) -> (quit: bool)
        ensures
            quit == self.spec_asks_to_quit(),
    {
        match self.code {
            KeyCode::Char(c) => c == 'q',
            KeyCode::Esc => true,
            _ => false,
        }
    }

    /// Whether the key went down with this event.
    pub open spec fn spec_is_press(&self) -> bool {
        self.kind == KeyKind::Press
    }

    /// Whether the key went down with this event.
    #[verifier::when_used_as_spec(spec_is_press)]
    pub fn is_press(&self) -> (pressed: bool)
        ensures
            pressed == self.spec_is_press(),
    {
        match self.kind {
            KeyKind::Press => true,
            _ => false,
        }
    }
}

} // verus!
