//! The pages of the planner and the moves between them.
//!
//! The machine reads keys by their meaning, not by their cap: in which
//! state the letter `q` ends the application and in which it is text is
//! settled by [`NavigationState::bind`], once, before a key reaches
//! [`NavigationState::dispatch`].

use crate::keys::{KeyCode, KeyKind, KeyPress};
use crate::text_buffer::Edit;
use vstd::prelude::*;

verus! {

/// A page of the planner.
#[derive(Clone, Copy, Debug, PartialEq, Eq, Structural)]
pub enum Page {
    /// The tasks of one day.
    Day,
    /// The form for a new task.
    Input,
    /// Past tasks.
    History,
    /// The list of keys.
    Help,
}

/// Whether typed characters are text.
#[derive(Clone, Copy, Debug, PartialEq, Eq, Structural)]
pub enum InputMode {
    /// Keys are commands.
    Normal,
    /// Keys are text for the input line.
    Editing,
}

/// A key by its meaning to the planner.
#[derive(Clone, Copy, Debug, PartialEq, Eq, Structural)]
pub enum Key {
    Quit,
    New,
    History,
    Help,
    Left,
    Right,
    Up,
    Down,
    Enter,
    Escape,
    Backspace,
    /// A character of text.
    Char(char),
    /// A key without a meaning.
    Unbound,
}

/// What a key brings about, for the owner of the planner's parts to carry
/// out.
#[derive(Clone, Copy, Debug, PartialEq, Eq, Structural)]
pub enum Transition {
    /// Nothing: the key has no meaning in this state.
    Ignored,
    /// The application ends.
    Quit,
    /// Another page is shown.
    Show(Page),
    /// The input page is shown, with an empty line to type into.
    StartInput,
    /// The day page is shown again and the input line is thrown away.
    CancelInput,
    /// The day page is shown again and the input line becomes a task.
    SubmitInput,
    /// The input line is edited.
    Edit(Edit),
    /// The day before the one looked at is looked at.
    PreviousDay,
    /// The day after the one looked at is looked at.
    NextDay,
    /// The selection in the list of tasks moves up.
    SelectPrevious,
    /// The selection in the list of tasks moves down.
    SelectNext,
}

/// The page that is shown and the mode of its input.
#[derive(Clone, Copy, Debug, PartialEq, Eq, Structural)]
pub struct NavigationState {
    pub page: Page,
    pub input_mode: InputMode,
}

impl NavigationState {
    /// Text is typed on the input page only.
    pub open spec fn wf(self) -> bool {
        self.input_mode == InputMode::Editing ==> self.page == Page::Input
    }

    /// Whether typed characters go into the input line.
    pub open spec fn spec_is_editing(&self) -> bool {
        self.page == Page::Input && self.input_mode == InputMode::Editing
    }

    /// The state with the mode that its page allows: on any page but the
    /// input page, keys are commands.
    pub open spec fn settled(self) -> NavigationState {
        if self.page == Page::Input {
            self
        } else {
            NavigationState { page: self.page, input_mode: InputMode::Normal }
        }
    }

    /// What `key` brings about in this state.
    pub open spec fn transition_for(self, key: Key) -> Transition {
        if key == Key::Quit {
            Transition::Quit
        } else {
            match self.page {
                Page::Day => match key {
                    Key::New => Transition::StartInput,
                    Key::History => Transition::Show(Page::History),
                    Key::Help => Transition::Show(Page::Help),
                    Key::Left => Transition::PreviousDay,
                    Key::Right => Transition::NextDay,
                    Key::Up => Transition::SelectPrevious,
                    Key::Down => Transition::SelectNext,
                    _ => Transition::Ignored,
                },
                Page::Input => if key == Key::Escape {
                    Transition::CancelInput
                } else if self.input_mode == InputMode::Editing {
                    match key {
                        Key::Enter => Transition::SubmitInput,
                        Key::Char(c) => Transition::Edit(Edit::Insert(c)),
                        Key::Backspace => Transition::Edit(Edit::Delete),
                        Key::Left => Transition::Edit(Edit::Left),
                        Key::Right => Transition::Edit(Edit::Right),
                        _ => Transition::Ignored,
                    }
                } else {
                    Transition::Ignored
                },
                Page::History | Page::Help => if key == Key::Escape {
                    Transition::Show(Page::Day)
                } else {
                    Transition::Ignored
                },
            }
        }
    }

    /// The state that follows on `transition`.
    pub open spec fn followed_by(self, transition: Transition) -> NavigationState {
        match transition {
            Transition::Show(page) => NavigationState { page, input_mode: InputMode::Normal },
            Transition::StartInput => NavigationState {
                page: Page::Input,
                input_mode: InputMode::Editing,
            },
            Transition::CancelInput | Transition::SubmitInput => NavigationState {
                page: Page::Day,
                input_mode: InputMode::Normal,
            },
            _ => self.settled(),
        }
    }

    /// The state after `key`.
    pub open spec fn after(self, key: Key) -> NavigationState {
        self.followed_by(self.transition_for(key))
    }

    /// The meaning of a keyboard event in this state. Only a key going down
    /// has one. While text is typed every character is text; otherwise `q`
    /// quits, `n` starts a new task, `h` shows the history and `?` the help.
    pub open spec fn binding(self, event: KeyPress) -> Key {
        if event.kind != KeyKind::Press {
            Key::Unbound
        } else {
            match event.code {
                KeyCode::Char(c) => if self.spec_is_editing() {
                    Key::Char(c)
                } else if c == 'q' {
                    Key::Quit
                } else if c == 'n' {
                    Key::New
                } else if c == 'h' {
                    Key::History
                } else if c == '?' {
                    Key::Help
                } else {
                    Key::Unbound
                },
                KeyCode::Enter => Key::Enter,
                KeyCode::Esc => Key::Escape,
                KeyCode::Backspace => Key::Backspace,
                KeyCode::Left => Key::Left,
                KeyCode::Right => Key::Right,
                KeyCode::Up => Key::Up,
                KeyCode::Down => Key::Down,
                KeyCode::Tab | KeyCode::Other => Key::Unbound,
            }
        }
    }

    /// The state in which the planner starts: the day page, keys are
    /// commands.
    pub open spec fn new_spec() -> NavigationState {
        NavigationState { page: Page::Day, input_mode: InputMode::Normal }
    }

    /// The state in which the planner starts: the day page, keys are
    /// commands.
    #[verifier::when_used_as_spec(new_spec)]
    pub fn new() -> (state: NavigationState)
        ensures
            state == Self::new_spec(),
            state.wf(),
    {
        NavigationState { page: Page::Day, input_mode: InputMode::Normal }
    }

    /// Whether typed characters go into the input line.
    #[verifier::when_used_as_spec(spec_is_editing)]
    pub fn is_editing(&self) -> (editing: bool)
        ensures
            editing == self.spec_is_editing(),
    {
        match (self.page, self.input_mode) {
            (Page::Input, InputMode::Editing) => true,
            _ => false,
        }
    }

    /// The meaning of a keyboard event in this state.
    pub fn bind(&self, event: KeyPress) -> (key: Key)
        ensures
            key == self.binding(event),
    {
        match event.kind {
            KeyKind::Press => match event.code {
                KeyCode::Char(c) => if self.is_editing() {
                    Key::Char(c)
                } else if c == 'q' {
                    Key::Quit
                } else if c == 'n' {
                    Key::New
                } else if c == 'h' {
                    Key::History
                } else if c == '?' {
                    Key::Help
                } else {
                    Key::Unbound
                },
                KeyCode::Enter => Key::Enter,
                KeyCode::Esc => Key::Escape,
                KeyCode::Backspace => Key::Backspace,
                KeyCode::Left => Key::Left,
                KeyCode::Right => Key::Right,
                KeyCode::Up => Key::Up,
                KeyCode::Down => Key::Down,
                KeyCode::Tab => Key::Unbound,
                KeyCode::Other => Key::Unbound,
            },
            _ => Key::Unbound,
        }
    }

    /// Takes one key: moves to the state that follows and says what the key
    /// brings about.
    pub fn dispatch(&mut self, key: Key) -> (transition: Transition)
        ensures
            transition == old(self).transition_for(key),
            *final(self) == old(self).after(key),
            final(self).wf(),
    {
        let transition = match key {
            Key::Quit => Transition::Quit,
            _ => match self.page {
                Page::Day => match key {
                    Key::New => Transition::StartInput,
                    Key::History => Transition::Show(Page::History),
                    Key::Help => Transition::Show(Page::Help),
                    Key::Left => Transition::PreviousDay,
                    Key::Right => Transition::NextDay,
                    Key::Up => Transition::SelectPrevious,
                    Key::Down => Transition::SelectNext,
                    _ => Transition::Ignored,
                },
                Page::Input => match (key, self.input_mode) {
                    (Key::Escape, _) => Transition::CancelInput,
                    (Key::Enter, InputMode::Editing) => Transition::SubmitInput,
                    (Key::Char(c), InputMode::Editing) => Transition::Edit(Edit::Insert(c)),
                    (Key::Backspace, InputMode::Editing) => Transition::Edit(Edit::Delete),
                    (Key::Left, InputMode::Editing) => Transition::Edit(Edit::Left),
                    (Key::Right, InputMode::Editing) => Transition::Edit(Edit::Right),
                    _ => Transition::Ignored,
                },
                Page::History | Page::Help => match key {
                    Key::Escape => Transition::Show(Page::Day),
                    _ => Transition::Ignored,
                },
            },
        };
        match transition {
            Transition::Show(page) => {
                self.page = page;
                self.input_mode = InputMode::Normal;
            },
            Transition::StartInput => {
                self.page = Page::Input;
                self.input_mode = InputMode::Editing;
            },
            Transition::CancelInput | Transition::SubmitInput => {
                self.page = Page::Day;
                self.input_mode = InputMode::Normal;
            },
            _ => {
                match self.page {
                    Page::Input => {},
                    _ => {
                        self.input_mode = InputMode::Normal;
                    },
                }
            },
        }
        transition
    }
}

/// In every state the quit key ends the application, and it leaves a
/// well-formed state as it is.
pub proof fn law_quit_from_any_state(state: NavigationState)
    ensures
        state.transition_for(Key::Quit) == Transition::Quit,
        state.wf() ==> state.after(Key::Quit) == state,
{
}

/// After any key in any state, text is typed on the input page only.
pub proof fn law_editing_only_on_input_page(state: NavigationState, key: Key)
    ensures
        state.after(key).wf(),
{
}

/// A key that brings nothing about leaves a well-formed state as it is.
pub proof fn law_ignored_key_changes_nothing(state: NavigationState, key: Key)
    requires
        state.wf(),
        state.transition_for(key) == Transition::Ignored,
    ensures
        state.after(key) == state,
{
}

} // verus!
