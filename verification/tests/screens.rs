use tui_lab::input_prompt::InputPrompt;
use tui_lab::keys::{Flow, KeyCode, KeyKind, KeyPress};
use tui_lab::list_screen::ListScreen;
use tui_lab::menu::{AppPage, Page};
use tui_lab::navigation::InputMode;
use tui_lab::panel::{AppMode, AppState};

fn press(code: KeyCode) -> KeyPress {
    KeyPress::press(code)
}

fn letter(c: char) -> KeyPress {
    KeyPress::press(KeyCode::Char(c))
}

fn release(code: KeyCode) -> KeyPress {
    KeyPress { code, kind: KeyKind::Release }
}

#[test]
fn key_press_helpers_tell_quit_keys_and_presses() {
    assert!(letter('q').asks_to_quit());
    assert!(press(KeyCode::Esc).asks_to_quit());
    assert!(!letter('Q').asks_to_quit());
    assert!(!press(KeyCode::Enter).asks_to_quit());
    assert!(letter('q').is_press());
    assert!(!release(KeyCode::Char('q')).is_press());
    assert!(!KeyPress { code: KeyCode::Esc, kind: KeyKind::Repeat }.is_press());
    assert_eq!(press(KeyCode::Tab), KeyPress { code: KeyCode::Tab, kind: KeyKind::Press });
}

#[test]
fn menu_starts_on_the_home_page() {
    assert_eq!(AppPage::new().current_page, Page::Home);
}

#[test]
fn menu_keys_choose_the_page() {
    let mut menu = AppPage::new();
    assert_eq!(menu.handle_key(letter('?')), Flow::Continue);
    assert_eq!(menu.current_page, Page::Help);
    assert_eq!(menu.handle_key(letter('a')), Flow::Continue);
    assert_eq!(menu.current_page, Page::About);
    assert_eq!(menu.handle_key(letter('x')), Flow::Continue);
    assert_eq!(menu.current_page, Page::About);
    assert_eq!(menu.handle_key(release(KeyCode::Char('h'))), Flow::Continue);
    assert_eq!(menu.current_page, Page::About);
    assert_eq!(menu.handle_key(letter('h')), Flow::Continue);
    assert_eq!(menu.current_page, Page::Home);
}

#[test]
fn menu_quits_on_q_and_escape_going_down() {
    let mut menu = AppPage::new();
    menu.handle_key(letter('a'));
    assert_eq!(menu.handle_key(letter('q')), Flow::Quit);
    assert_eq!(menu.handle_key(press(KeyCode::Esc)), Flow::Quit);
    assert_eq!(menu.handle_key(release(KeyCode::Esc)), Flow::Continue);
    assert_eq!(menu.current_page, Page::About);
}

#[test]
fn panel_starts_with_no_mode() {
    let state = AppState::new();
    assert_eq!(state.mode, AppMode::Unselected);
    assert_eq!(state.display_text, "No mode selected");
}

#[test]
fn panel_keys_choose_the_mode_and_its_text() {
    let mut state = AppState::new();
    assert_eq!(state.handle_key(letter('1')), Flow::Continue);
    assert_eq!((state.mode, state.display_text.as_str()), (AppMode::Mode1, "Mode 1 active"));
    state.handle_key(letter('2'));
    assert_eq!((state.mode, state.display_text.as_str()), (AppMode::Mode2, "Mode 2 active"));
    state.handle_key(letter('3'));
    assert_eq!((state.mode, state.display_text.as_str()), (AppMode::Mode3, "Mode 3 active"));
    state.handle_key(letter('5'));
    state.handle_key(release(KeyCode::Char('1')));
    assert_eq!((state.mode, state.display_text.as_str()), (AppMode::Mode3, "Mode 3 active"));
    state.handle_key(letter('4'));
    assert_eq!(state.mode, AppMode::Unselected);
    assert_eq!(state.display_text, "No mode selected");
    assert_eq!(state.handle_key(letter('q')), Flow::Quit);
    assert_eq!(state.handle_key(press(KeyCode::Esc)), Flow::Quit);
}

#[test]
fn panel_select_sets_mode_and_text_together() {
    let mut state = AppState::new();
    state.select(AppMode::Mode2);
    assert_eq!((state.mode, state.display_text.as_str()), (AppMode::Mode2, "Mode 2 active"));
    state.select(AppMode::Unselected);
    assert_eq!(state.mode, AppMode::Unselected);
    assert_eq!(state.display_text, "No mode selected");
}

#[test]
fn list_screen_starts_with_four_items_and_the_first_selected() {
    let screen = ListScreen::new();
    assert_eq!(screen.list.items, ["Item1", "Item2", "Item3", "Item4"]);
    assert_eq!(screen.list.selected, Some(0));
    assert_eq!(screen.last_confirmed, None);
}

#[test]
fn list_screen_arrows_move_the_selection() {
    let mut screen = ListScreen::new();
    assert_eq!(screen.handle_key(press(KeyCode::Down)), Flow::Continue);
    assert_eq!(screen.list.selected, Some(1));
    screen.handle_key(press(KeyCode::Up));
    screen.handle_key(press(KeyCode::Up));
    assert_eq!(screen.list.selected, Some(3));
    screen.handle_key(press(KeyCode::Down));
    assert_eq!(screen.list.selected, Some(0));
    screen.handle_key(release(KeyCode::Down));
    screen.handle_key(press(KeyCode::Enter));
    assert_eq!(screen.list.selected, Some(0));
    assert_eq!(screen.handle_key(letter('q')), Flow::Quit);
    assert_eq!(screen.handle_key(press(KeyCode::Esc)), Flow::Quit);
}

#[test]
fn list_screen_confirms_the_selected_item() {
    let mut screen = ListScreen::new();
    screen.handle_key(press(KeyCode::Down));
    screen.handle_key(press(KeyCode::Down));
    screen.confirm();
    assert_eq!(screen.last_confirmed.as_deref(), Some("Item3"));
    screen.list.selected = None;
    screen.confirm();
    assert_eq!(screen.last_confirmed.as_deref(), Some("Item3"));
    assert_eq!(screen.list.items.len(), 4);
}

#[test]
fn prompt_starts_in_normal_mode() {
    let prompt = InputPrompt::new();
    assert_eq!(prompt.input_mode, InputMode::Normal);
    assert_eq!(prompt.buffer.content, "");
    assert_eq!(prompt.last_submitted, None);
    assert_eq!(prompt.prompt(), " Input: ");
    assert_eq!(prompt.cursor_position(3, 7), None);
}

#[test]
fn prompt_types_and_submits_a_line() {
    let mut prompt = InputPrompt::new();
    assert_eq!(prompt.handle_key(letter('i')), Flow::Continue);
    assert_eq!(prompt.input_mode, InputMode::Editing);
    assert_eq!(prompt.prompt(), "[INSERT] Input: ");
    for c in "qi\u{e9}".chars() {
        assert_eq!(prompt.handle_key(letter(c)), Flow::Continue);
    }
    assert_eq!(prompt.buffer.content, "qi\u{e9}");
    prompt.handle_key(press(KeyCode::Left));
    prompt.handle_key(press(KeyCode::Backspace));
    assert_eq!(prompt.buffer.content, "q\u{e9}");
    prompt.handle_key(press(KeyCode::Right));
    assert_eq!(prompt.buffer.cursor_index, 2);
    prompt.handle_key(press(KeyCode::Enter));
    assert_eq!(prompt.last_submitted.as_deref(), Some("q\u{e9}"));
    assert_eq!(prompt.buffer.content, "");
    assert_eq!(prompt.buffer.cursor_index, 0);
    assert_eq!(prompt.input_mode, InputMode::Normal);
}

#[test]
fn prompt_keeps_the_last_line_on_an_empty_submission_and_on_escape() {
    let mut prompt = InputPrompt::new();
    prompt.handle_key(letter('i'));
    prompt.handle_key(letter('a'));
    prompt.handle_key(press(KeyCode::Enter));
    prompt.handle_key(letter('i'));
    prompt.handle_key(press(KeyCode::Enter));
    assert_eq!(prompt.last_submitted.as_deref(), Some("a"));
    assert_eq!(prompt.input_mode, InputMode::Normal);
    prompt.handle_key(letter('i'));
    prompt.handle_key(letter('b'));
    prompt.handle_key(press(KeyCode::Esc));
    assert_eq!(prompt.last_submitted.as_deref(), Some("a"));
    assert_eq!(prompt.buffer.content, "");
    assert_eq!(prompt.input_mode, InputMode::Normal);
}

#[test]
fn prompt_quits_on_q_in_normal_mode_only() {
    let mut prompt = InputPrompt::new();
    assert_eq!(prompt.handle_key(letter('x')), Flow::Continue);
    assert_eq!(prompt.handle_key(press(KeyCode::Esc)), Flow::Continue);
    assert_eq!(prompt.handle_key(letter('q')), Flow::Quit);
    assert_eq!(prompt.handle_key(release(KeyCode::Char('q'))), Flow::Quit);
    prompt.handle_key(release(KeyCode::Char('i')));
    assert_eq!(prompt.input_mode, InputMode::Editing);
    assert_eq!(prompt.handle_key(letter('q')), Flow::Continue);
    assert_eq!(prompt.buffer.content, "q");
    assert_eq!(prompt.handle_key(release(KeyCode::Char('z'))), Flow::Continue);
    assert_eq!(prompt.handle_key(press(KeyCode::Tab)), Flow::Continue);
    assert_eq!(prompt.buffer.content, "q");
}

#[test]
fn prompt_submit_and_cancel_work_without_keys() {
    let mut prompt = InputPrompt::new();
    prompt.input_mode = InputMode::Editing;
    prompt.buffer.enter_char('x');
    prompt.submit_input();
    assert_eq!(prompt.last_submitted.as_deref(), Some("x"));
    assert_eq!(prompt.input_mode, InputMode::Normal);
    prompt.input_mode = InputMode::Editing;
    prompt.buffer.enter_char('y');
    prompt.cancel_input();
    assert_eq!(prompt.last_submitted.as_deref(), Some("x"));
    assert_eq!(prompt.buffer.content, "");
    assert_eq!(prompt.input_mode, InputMode::Normal);
}

#[test]
fn prompt_places_the_cursor_behind_prompt_and_text() {
    let mut prompt = InputPrompt::new();
    prompt.handle_key(letter('i'));
    assert_eq!(prompt.cursor_position(0, 7), Some((8, 17)));
    for c in "a\u{4e16}b".chars() {
        prompt.handle_key(letter(c));
    }
    assert_eq!(prompt.cursor_position(2, 7), Some((8, 23)));
    prompt.handle_key(press(KeyCode::Left));
    assert_eq!(prompt.cursor_position(2, 7), Some((8, 22)));
}

#[test]
fn prompt_holds_the_cursor_at_the_last_screen_coordinate() {
    let mut prompt = InputPrompt::new();
    prompt.handle_key(letter('i'));
    assert_eq!(prompt.cursor_position(u16::MAX - 17, u16::MAX - 1), Some((u16::MAX, u16::MAX)));
    assert_eq!(prompt.cursor_position(u16::MAX - 16, u16::MAX), Some((u16::MAX, u16::MAX)));
    assert_eq!(prompt.cursor_position(u16::MAX, 0), Some((1, u16::MAX)));
    assert_eq!(prompt.cursor_position(u16::MAX - 18, 0), Some((1, u16::MAX - 1)));
}
