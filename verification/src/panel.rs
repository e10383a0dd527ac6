//! A status panel that shows which of three modes is active.

use crate::keys::{Flow, KeyCode, KeyPress};
use vstd::prelude::*;
use vstd::string::*;

verus! {

/// The mode that is active, if any.
#[derive(Clone, Copy, Debug, PartialEq, Eq, Structural)]
pub enum AppMode {
    Mode1,
    Mode2,
    Mode3,
    /// No mode is active.
    Unselected,
}

/// The text that the panel shows for a mode.
pub open spec fn mode_text(mode: AppMode) -> Seq<char> {
    match mode {
        AppMode::Mode1 => "Mode 1 active"@,
        AppMode::Mode2 => "Mode 2 active"@,
        AppMode::Mode3 => "Mode 3 active"@,
        AppMode::Unselected => "No mode selected"@,
    }
}

/// The mode that a keyboard event chooses: the digits `1`, `2` and `3` going
/// down choose their mode, `4` chooses that none is active; any other event
/// chooses nothing.
pub open spec fn chosen_mode(event: KeyPress) -> Option<AppMode> {
    if !event.spec_is_press() {
        None
    } else if event.code == KeyCode::Char('1') {
        Some(AppMode::Mode1)
    } else if event.code == KeyCode::Char('2') {
        Some(AppMode::Mode2)
    } else if event.code == KeyCode::Char('3') {
        Some(AppMode::Mode3)
    } else if event.code == KeyCode::Char('4') {
        Some(AppMode::Unselected)
    } else {
        None
    }
}

/// The active mode and the text shown for it.
pub struct AppState {
    pub mode: AppMode,
    pub display_text: String,
}

impl AppState {
    /// The text is the one that belongs to the mode.
    pub open spec fn wf(&self) -> bool {
        self.display_text@ == mode_text(self.mode)
    }

    /// The panel as it starts, with no mode active.
    pub fn new() -> (state: AppState)
        ensures
            state.mode == AppMode::Unselected,
            state.wf(),
    {
        AppState { mode: AppMode::Unselected, display_text: String::from_str("No mode selected") }
    }

    /// Activates `mode` and shows its text.
    pub fn select(&mut self, mode: AppMode)
        ensures
            final(self).mode == mode,
            final(self).wf(),
    {
        self.mode = mode;
        self.display_text = String::from_str(
            match mode {
                AppMode::Mode1 => "Mode 1 active",
                AppMode::Mode2 => "Mode 2 active",
                AppMode::Mode3 => "Mode 3 active",
                AppMode::Unselected => "No mode selected",
            },
        );
    }

    /// Takes one event of the keyboard: activates the mode that it chooses,
    /// and says whether the application goes on. `q` or escape going down
    /// end it.
    pub fn handle_key(&mut self, event: KeyPress) -> (flow: Flow)
        ensures
            flow == if event.spec_is_press() && event.spec_asks_to_quit() {
                Flow::Quit
            } else {
                Flow::Continue
            },
            match chosen_mode(event) {
                Some(mode) => final(self).mode == mode && final(self).wf(),
                None => final(self).mode == old(self).mode && final(self).display_text == old(
                    self,
                ).display_text,
            },
    {
        if !event.is_press() {
            return Flow::Continue;
        }
        if event.asks_to_quit() {
            return Flow::Quit;
        }
        match event.code {
            KeyCode::Char(c) => {
                if c == '1' {
                    self.select(AppMode::Mode1);
                } else if c == '2' {
                    self.select(AppMode::Mode2);
                } else if c == '3' {
                    self.select(AppMode::Mode3);
                } else if c == '4' {
                    self.select(AppMode::Unselected);
                }
            },
            _ => {},
        }
        Flow::Continue
    }
}

} // verus!
