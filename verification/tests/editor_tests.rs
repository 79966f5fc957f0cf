//! Tests of cursor arithmetic, indentation decisions, undo history and the
//! trailing-window truncation.

use pikchr_pl::buffered::Buffered;
use pikchr_pl::editor::{
    dedent_removals, get_prefix_spaces, newline_indent, shift_cursor_cols, Cursor, EditorSnapshot,
    Position, UndoStack,
};
use pikchr_pl::string_ext::{truncate_error_display, StringExt};

fn cursor_at(line: usize, column: usize) -> Cursor {
    Cursor { position: Position { line, column }, selection: Some(Position { line, column: 0 }) }
}

#[test]
fn prefix_spaces_counts_leading_whitespace() {
    assert_eq!(get_prefix_spaces("   abc"), 3);
    assert_eq!(get_prefix_spaces("\t x"), 2);
    assert_eq!(get_prefix_spaces("abc"), 0);
    assert_eq!(get_prefix_spaces(""), 0);
    assert_eq!(get_prefix_spaces("    "), 4);
}

#[test]
fn shifting_right_adds_columns_and_drops_the_selection() {
    let c = shift_cursor_cols(cursor_at(2, 5), 3);
    assert_eq!(c.position.line, 2);
    assert_eq!(c.position.column, 8);
    assert!(c.selection.is_none());
}

#[test]
fn shifting_left_clamps_at_the_line_start() {
    assert_eq!(shift_cursor_cols(cursor_at(0, 5), -2).position.column, 3);
    assert_eq!(shift_cursor_cols(cursor_at(0, 5), -9).position.column, 0);
}

#[test]
fn dedent_removes_at_most_one_indent_step() {
    assert_eq!(dedent_removals("        x"), 4);
    assert_eq!(dedent_removals("  x"), 2);
    assert_eq!(dedent_removals("x"), 0);
}

#[test]
fn newline_indent_follows_the_line_indentation() {
    assert_eq!(newline_indent("    box.", 5), 4);
}

#[test]
fn newline_indent_deepens_past_a_grammar_arrow() {
    // The arrow "--> " starts at column 8, so continuation lines align at 12.
    assert_eq!(newline_indent("diagram --> circle.", 10), 12);
}

#[test]
fn newline_indent_is_at_least_two_under_a_bare_arrow() {
    assert_eq!(newline_indent("diagram -->circle.", 10), 2);
}

#[test]
fn newline_indent_is_zero_at_the_line_start() {
    assert_eq!(newline_indent("diagram --> circle.", 0), 0);
}

fn snap(text: &str) -> EditorSnapshot {
    EditorSnapshot::new(String::from(text), 0, 0)
}

#[test]
fn undo_returns_to_the_previous_state_and_redo_restores_it() {
    let mut stack = UndoStack::new(snap("first"));
    stack.push(snap("second"));
    let mut buffer = snap("second");

    stack.undo_into(&mut buffer);
    assert_eq!(buffer.text, "first");

    stack.redo_into(&mut buffer);
    assert_eq!(buffer.text, "second");
}

#[test]
fn undo_at_the_initial_state_resets_to_it() {
    let mut stack = UndoStack::new(snap("only"));
    let mut buffer = snap("edited but never pushed");
    stack.undo_into(&mut buffer);
    assert_eq!(buffer.text, "only");
}

#[test]
fn a_new_edit_forks_history_and_clears_redo() {
    let mut stack = UndoStack::new(snap("a"));
    stack.push(snap("b"));
    let mut buffer = snap("b");
    stack.undo_into(&mut buffer);
    stack.push(snap("c"));
    stack.redo_into(&mut buffer);
    assert_eq!(buffer.text, "a");
}

#[test]
fn trim_last_chars_keeps_the_trailing_window() {
    assert_eq!(String::from("abcdef").trim_last_chars(3), "def");
    assert_eq!(String::from("ab").trim_last_chars(5), "ab");
    assert_eq!(String::from("abc").trim_last_chars(0), "");
}

#[test]
fn trim_last_lines_keeps_the_trailing_lines() {
    assert_eq!(String::from("a\nb\nc").trim_last_lines(2), "b\nc");
    assert_eq!(String::from("a\nb\n").trim_last_lines(1), "b");
    assert_eq!(String::from("one line").trim_last_lines(5), "one line");
}

#[test]
fn long_error_text_is_truncated_to_a_trailing_window() {
    let mut long = String::new();
    for i in 0..100 {
        long.push_str(&format!("line number {}\n", i));
    }
    let shown = truncate_error_display(long);
    assert_eq!(shown, "line number 95\nline number 96\nline number 97\nline number 98\nline number 99");
}

#[test]
fn buffered_readers_see_the_committed_value_only() {
    let mut buffered = Buffered::new(String::from("old error"));
    buffered.set(String::from("new error"));
    assert_eq!(buffered.get(), "old error");
    buffered.commit();
    assert_eq!(buffered.get(), "new error");
}
