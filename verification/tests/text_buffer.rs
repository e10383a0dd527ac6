use tui_lab::strings::byte_offset_of;
use tui_lab::text_buffer::{Edit, TextBuffer};
use tui_lab::width::{advance_column, columns_before};

fn buffer_with(text: &str, cursor: usize) -> TextBuffer {
    TextBuffer { content: text.to_string(), cursor_index: cursor }
}

#[test]
fn new_buffer_is_empty_with_cursor_at_start() {
    let buffer = TextBuffer::new();
    assert_eq!(buffer.content, "");
    assert_eq!(buffer.cursor_index, 0);
    assert!(buffer.is_empty());
    assert_eq!(buffer.char_count(), 0);
}

#[test]
fn typing_abc_then_deleting_twice_leaves_a() {
    let mut buffer = TextBuffer::new();
    buffer.enter_char('a');
    buffer.enter_char('b');
    buffer.enter_char('c');
    assert_eq!(buffer.content, "abc");
    assert_eq!(buffer.cursor_index, 3);
    buffer.delete_char();
    buffer.delete_char();
    assert_eq!(buffer.content, "a");
    assert_eq!(buffer.cursor_index, 1);
}

#[test]
fn insert_in_the_middle_of_multi_byte_text() {
    let mut buffer = buffer_with("h\u{e9}llo", 2);
    assert_eq!(buffer.byte_index(), 3);
    buffer.enter_char('\u{4e16}');
    assert_eq!(buffer.content, "h\u{e9}\u{4e16}llo");
    assert_eq!(buffer.cursor_index, 3);
    assert_eq!(buffer.byte_index(), 6);
}

#[test]
fn delete_removes_exactly_one_wide_character() {
    let mut buffer = buffer_with("a\u{1f600}b", 2);
    buffer.delete_char();
    assert_eq!(buffer.content, "ab");
    assert_eq!(buffer.cursor_index, 1);
}

#[test]
fn delete_at_start_changes_nothing() {
    let mut buffer = buffer_with("abc", 0);
    buffer.delete_char();
    assert_eq!(buffer.content, "abc");
    assert_eq!(buffer.cursor_index, 0);
}

#[test]
fn delete_on_empty_buffer_with_stray_cursor_resets_the_cursor() {
    let mut buffer = buffer_with("", 5);
    buffer.delete_char();
    assert_eq!(buffer.content, "");
    assert_eq!(buffer.cursor_index, 0);
}

#[test]
fn delete_with_cursor_beyond_the_end_removes_the_last_character() {
    let mut buffer = buffer_with("ab\u{e9}", 10);
    buffer.delete_char();
    assert_eq!(buffer.content, "ab");
    assert_eq!(buffer.cursor_index, 2);
}

#[test]
fn insert_with_cursor_beyond_the_end_appends() {
    let mut buffer = buffer_with("ab", 7);
    buffer.enter_char('c');
    assert_eq!(buffer.content, "abc");
    assert_eq!(buffer.cursor_index, 3);
}

#[test]
fn cursor_moves_stop_at_both_ends() {
    let mut buffer = buffer_with("ab", 0);
    buffer.move_cursor_left();
    assert_eq!(buffer.cursor_index, 0);
    buffer.move_cursor_right();
    assert_eq!(buffer.cursor_index, 1);
    buffer.move_cursor_right();
    assert_eq!(buffer.cursor_index, 2);
    buffer.move_cursor_right();
    assert_eq!(buffer.cursor_index, 2);
    buffer.move_cursor_left();
    assert_eq!(buffer.cursor_index, 1);
    assert_eq!(buffer.content, "ab");
}

#[test]
fn cursor_moves_bring_a_stray_cursor_back_into_the_text() {
    let mut buffer = buffer_with("abc", usize::MAX);
    buffer.move_cursor_right();
    assert_eq!(buffer.cursor_index, 3);
    let mut buffer = buffer_with("abc", 9);
    buffer.move_cursor_left();
    assert_eq!(buffer.cursor_index, 3);
}

#[test]
fn clamp_cursor_keeps_positions_inside_the_text() {
    let buffer = buffer_with("h\u{e9}llo", 0);
    assert_eq!(buffer.clamp_cursor(0), 0);
    assert_eq!(buffer.clamp_cursor(3), 3);
    assert_eq!(buffer.clamp_cursor(5), 5);
    assert_eq!(buffer.clamp_cursor(6), 5);
    assert_eq!(buffer.clamp_cursor(usize::MAX), 5);
}

#[test]
fn byte_index_counts_bytes_of_the_characters_before_the_cursor() {
    let text = "a\u{e9}\u{4e16}\u{1f600}z";
    assert_eq!(buffer_with(text, 0).byte_index(), 0);
    assert_eq!(buffer_with(text, 1).byte_index(), 1);
    assert_eq!(buffer_with(text, 2).byte_index(), 3);
    assert_eq!(buffer_with(text, 3).byte_index(), 6);
    assert_eq!(buffer_with(text, 4).byte_index(), 10);
    assert_eq!(buffer_with(text, 5).byte_index(), 11);
}

#[test]
fn byte_index_falls_back_to_the_end_of_the_text() {
    let text = "a\u{e9}";
    assert_eq!(buffer_with(text, 2).byte_index(), 3);
    assert_eq!(buffer_with(text, 3).byte_index(), 3);
    assert_eq!(buffer_with(text, usize::MAX).byte_index(), 3);
    assert_eq!(byte_offset_of("", 4), 0);
}

#[test]
fn reset_cursor_moves_to_the_start_and_keeps_the_text() {
    let mut buffer = buffer_with("abc", 2);
    buffer.reset_cursor();
    assert_eq!(buffer.cursor_index, 0);
    assert_eq!(buffer.content, "abc");
}

#[test]
fn clear_empties_the_buffer() {
    let mut buffer = buffer_with("abc", 2);
    buffer.clear();
    assert_eq!(buffer.content, "");
    assert_eq!(buffer.cursor_index, 0);
}

#[test]
fn submit_hands_out_the_text_and_empties_the_buffer() {
    let mut buffer = buffer_with("buy milk", 3);
    assert_eq!(buffer.submit(), Some("buy milk".to_string()));
    assert_eq!(buffer.content, "");
    assert_eq!(buffer.cursor_index, 0);
}

#[test]
fn submit_of_an_empty_buffer_hands_out_nothing() {
    let mut buffer = buffer_with("", 0);
    assert_eq!(buffer.submit(), None);
    assert_eq!(buffer.content, "");
    assert_eq!(buffer.cursor_index, 0);
}

#[test]
fn insert_then_delete_restores_text_and_cursor() {
    let samples = ["", "a", "h\u{e9}llo", "\u{4e16}\u{754c}", "x\u{1f600}y"];
    let inserted = ['a', '\u{e9}', '\u{4e16}', '\u{1f600}', ' '];
    for text in samples {
        let count = text.chars().count();
        for cursor in 0..=count {
            for c in inserted {
                let mut buffer = buffer_with(text, cursor);
                buffer.enter_char(c);
                assert_eq!(buffer.char_count(), count + 1);
                buffer.delete_char();
                assert_eq!(buffer.content, text);
                assert_eq!(buffer.cursor_index, cursor);
            }
        }
    }
}

#[test]
fn cursor_stays_in_the_text_along_a_long_run_of_edits() {
    let mut buffer = TextBuffer::new();
    let mut seed: u32 = 12345;
    for _ in 0..2000 {
        seed = seed.wrapping_mul(1664525).wrapping_add(1013904223);
        let edit = match (seed >> 24) % 6 {
            0 => Edit::Insert('a'),
            1 => Edit::Insert('\u{1f600}'),
            2 => Edit::Delete,
            3 => Edit::Left,
            4 => Edit::Right,
            _ => Edit::Home,
        };
        buffer.apply(edit);
        assert!(buffer.cursor_index <= buffer.content.chars().count());
        assert_eq!(buffer.char_count(), buffer.content.chars().count());
    }
}

#[test]
fn apply_carries_out_each_edit() {
    let mut buffer = buffer_with("ab", 1);
    buffer.apply(Edit::Insert('x'));
    assert_eq!((buffer.content.as_str(), buffer.cursor_index), ("axb", 2));
    buffer.apply(Edit::Right);
    assert_eq!((buffer.content.as_str(), buffer.cursor_index), ("axb", 3));
    buffer.apply(Edit::Delete);
    assert_eq!((buffer.content.as_str(), buffer.cursor_index), ("ax", 2));
    buffer.apply(Edit::Left);
    assert_eq!((buffer.content.as_str(), buffer.cursor_index), ("ax", 1));
    buffer.apply(Edit::Home);
    assert_eq!((buffer.content.as_str(), buffer.cursor_index), ("ax", 0));
}

#[test]
fn cursor_column_counts_two_columns_for_wide_characters() {
    let text = "a\u{4e16}\u{754c}b";
    assert_eq!(buffer_with(text, 0).cursor_column(), 0);
    assert_eq!(buffer_with(text, 1).cursor_column(), 1);
    assert_eq!(buffer_with(text, 2).cursor_column(), 3);
    assert_eq!(buffer_with(text, 3).cursor_column(), 5);
    assert_eq!(buffer_with(text, 4).cursor_column(), 6);
    assert_eq!(buffer_with(text, 40).cursor_column(), 6);
}

#[test]
fn columns_before_gives_no_column_to_control_and_combining_characters() {
    assert_eq!(columns_before("a\u{7}b", 3), 2);
    assert_eq!(columns_before("e\u{301}", 2), 1);
    assert_eq!(columns_before("", 3), 0);
    assert_eq!(columns_before("abc", 0), 0);
}

#[test]
fn advance_column_adds_the_width_and_stops_at_the_largest_value() {
    assert_eq!(advance_column(3, Some(2)), 5);
    assert_eq!(advance_column(3, None), 3);
    assert_eq!(advance_column(0, Some(0)), 0);
    assert_eq!(advance_column(usize::MAX - 1, Some(2)), usize::MAX);
    assert_eq!(advance_column(usize::MAX, Some(1)), usize::MAX);
}
