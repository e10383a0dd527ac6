//! A prompt with one input line: text is typed while the prompt is in its
//! editing mode, and the last line that was submitted is kept.

use crate::keys::{Flow, KeyCode, KeyKind, KeyPress};
use crate::navigation::InputMode;
use crate::text_buffer::{Line, TextBuffer};
use crate::width::{columns_before, text_columns};
use vstd::prelude::*;
use vstd::string::*;

verus! {

/// What stands before the input line in the given mode.
pub open spec fn prompt_text(mode: InputMode) -> Seq<char> {
    match mode {
        InputMode::Normal => " Input: "@,
        InputMode::Editing => "[INSERT] Input: "@,
    }
}

/// A screen coordinate `steps` places behind the place after `origin`, or
/// the last coordinate where the screen's coordinates end before it.
pub open spec fn place_after(origin: u16, steps: nat) -> u16 {
    if origin + 1 + steps <= u16::MAX {
        (origin + 1 + steps) as u16
    } else {
        u16::MAX
    }
}

/// What a prompt stands for.
pub struct PromptView {
    pub line: Line,
    pub input_mode: InputMode,
    pub last_submitted: Option<Seq<char>>,
}

impl PromptView {
    /// The prompt after its line was submitted: a line with text becomes the
    /// last submitted one, an empty line leaves that as it was; the line is
    /// empty and keys are commands again.
    pub open spec fn submit(self) -> PromptView {
        PromptView {
            line: Line::blank(),
            input_mode: InputMode::Normal,
            last_submitted: if self.line.text.len() > 0 {
                Some(self.line.text)
            } else {
                self.last_submitted
            },
        }
    }

    /// The prompt after its line was thrown away.
    pub open spec fn cancel(self) -> PromptView {
        PromptView {
            line: Line::blank(),
            input_mode: InputMode::Normal,
            last_submitted: self.last_submitted,
        }
    }

    /// Whether the event ends the application: `q` while keys are commands.
    pub open spec fn quits_on(self, event: KeyPress) -> bool {
        self.input_mode == InputMode::Normal && event.code == KeyCode::Char('q')
    }

    /// The prompt after a keyboard event. While keys are commands, `i`
    /// starts the typing. While text is typed, a key going down is text, an
    /// edit of the line, its submission by enter or its end by escape.
    pub open spec fn step(self, event: KeyPress) -> PromptView {
        match self.input_mode {
            InputMode::Normal => if event.code == KeyCode::Char('i') {
                PromptView { input_mode: InputMode::Editing, ..self }
            } else {
                self
            },
            InputMode::Editing => if event.kind == KeyKind::Press {
                match event.code {
                    KeyCode::Enter => self.submit(),
                    KeyCode::Char(c) => PromptView { line: self.line.insert(c), ..self },
                    KeyCode::Backspace => PromptView { line: self.line.delete(), ..self },
                    KeyCode::Left => PromptView { line: self.line.move_left(), ..self },
                    KeyCode::Right => PromptView { line: self.line.move_right(), ..self },
                    KeyCode::Esc => self.cancel(),
                    _ => self,
                }
            } else {
                self
            },
        }
    }
}

/// The input line, the mode of the keys and the last line that was
/// submitted.
pub struct InputPrompt {
    pub buffer: TextBuffer,
    pub input_mode: InputMode,
    pub last_submitted: Option<String>,
}

impl View for InputPrompt {
    type V = PromptView;

    open spec fn view(&self) -> PromptView {
        PromptView {
            line: self.buffer@,
            input_mode: self.input_mode,
            last_submitted: match self.last_submitted {
                Some(text) => Some(text@),
                None => None,
            },
        }
    }
}

impl InputPrompt {
    /// A prompt with an empty line and nothing submitted, in which keys are
    /// commands.
    pub fn new() -> (prompt: InputPrompt)
        ensures
            prompt@ == (PromptView {
                line: Line::blank(),
                input_mode: InputMode::Normal,
                last_submitted: None,
            }),
    {
        InputPrompt {
            buffer: TextBuffer::new(),
            input_mode: InputMode::Normal,
            last_submitted: None,
        }
    }

    /// Submits the line: a line with text becomes the last submitted one;
    /// the line is emptied and keys are commands again.
    pub fn submit_input(&mut self)
        ensures
            final(self)@ == old(self)@.submit(),
            final(self).buffer.wf(),
    {
        match self.buffer.submit() {
            Some(text) => {
                self.last_submitted = Some(text);
            },
            None => {},
        }
        self.input_mode = InputMode::Normal;
    }

    /// Throws the line away; keys are commands again.
    pub fn cancel_input(&mut self)
        ensures
            final(self)@ == old(self)@.cancel(),
            final(self).buffer.wf(),
    {
        self.buffer.clear();
        self.input_mode = InputMode::Normal;
    }

    /// Takes one event of the keyboard and says whether the application goes
    /// on.
    pub fn handle_key(&mut self, event: KeyPress) -> (flow: Flow)
        ensures
            flow == if old(self)@.quits_on(event) {
                Flow::Quit
            } else {
                Flow::Continue
            },
            final(self)@ == old(self)@.step(event),
    {
        match self.input_mode {
            InputMode::Normal => match event.code {
                KeyCode::Char(c) => {
                    if c == 'i' {
                        self.input_mode = InputMode::Editing;
                        Flow::Continue
                    } else if c == 'q' {
                        Flow::Quit
                    } else {
                        Flow::Continue
                    }
                },
                _ => Flow::Continue,
            },
            InputMode::Editing => {
                if event.is_press() {
                    match event.code {
                        KeyCode::Enter => self.submit_input(),
                        KeyCode::Char(c) => self.buffer.enter_char(c),
                        KeyCode::Backspace => self.buffer.delete_char(),
                        KeyCode::Left => self.buffer.move_cursor_left(),
                        KeyCode::Right => self.buffer.move_cursor_right(),
                        KeyCode::Esc => self.cancel_input(),
                        _ => {},
                    }
                }
                Flow::Continue
            },
        }
    }

    /// What stands before the input line.
    pub fn prompt(&self) -> (text: &'static str)
        ensures
            text@ == prompt_text(self@.input_mode),
    {
        match self.input_mode {
            InputMode::Normal => " Input: ",
            InputMode::Editing => "[INSERT] Input: ",
        }
    }

    /// Where the cursor is to be shown on the screen while text is typed,
    /// as row and column, for an input panel whose frame starts at column
    /// `area_x` and row `area_y`: one row below the frame's top, and behind
    /// its left edge as many columns as the prompt and the text before the
    /// cursor take. A place beyond the last coordinate is held at the last
    /// coordinate. None while keys are commands.
    pub fn cursor_position(&self, area_x: u16, area_y: u16) -> (position: Option<(u16, u16)>)
        ensures
            self@.input_mode == InputMode::Editing ==> position == Some(
                (
                    place_after(area_y, 0),
                    place_after(
                        area_x,
                        text_columns(prompt_text(InputMode::Editing)) + text_columns(
                            self@.line.text.take(self@.line.place()),
                        ),
                    ),
                ),
            ),
            self@.input_mode == InputMode::Normal ==> position is None,
    {
        match self.input_mode {
            InputMode::Normal => None,
            InputMode::Editing => {
                let prompt = self.prompt();
                proof {
                    reveal_strlit("[INSERT] Input: ");
                }
                let prompt_columns: usize = columns_before(prompt, usize::MAX);
                let line_columns: usize = self.buffer.cursor_column();
                let columns: usize = prompt_columns.saturating_add(line_columns);
                Some((Self::screen_place(area_y, 0), Self::screen_place(area_x, columns)))
            },
        }
    }

    /// The screen coordinate `steps` places behind the place after `origin`,
    /// held at the last coordinate.
    fn screen_place(origin: u16, steps: usize) -> (place: u16)
        ensures
            steps < usize::MAX ==> place == place_after(origin, steps as nat),
            steps == usize::MAX ==> place == u16::MAX,
    {
        let room: u16 = u16::MAX - origin;
        if room >= 1 && steps <= (room - 1) as usize {
            origin + 1 + steps as u16
        } else {
            u16::MAX
        }
    }
}

} // verus!
