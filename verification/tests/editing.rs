//! Line buffer, editor and row-layout behavior.

use tey_sh::editor::TextInput;
use tey_sh::layout::row_count;
use tey_sh::paint::PaintOp;

fn type_str(ed: &mut TextInput, s: &str) {
    for c in s.chars() {
        ed.input_char(c);
    }
}

#[test]
fn cursor_stays_in_bounds_through_edits() {
    let mut ed = TextInput::new(5, 20);
    let mut max_len = 0usize;
    let script: Vec<char> = "abcXdefYghi".chars().collect();
    for (step, c) in script.iter().enumerate() {
        match step % 4 {
            0 | 1 => type_str(&mut ed, &c.to_string()),
            2 => {
                ed.backspace();
            }
            _ => {
                ed.del();
                ed.move_cursor_left();
            }
        }
        let len = ed.get_buffer().chars().count();
        let cursor = ed.get_cursor_buffer_pos();
        assert!(cursor <= len, "cursor {} beyond length {}", cursor, len);
        max_len = max_len.max(len);
    }
    assert!(max_len > 0);
}

#[test]
fn multi_unit_codepoints_are_ignored() {
    let mut ed = TextInput::new(5, 20);
    type_str(&mut ed, "ab");
    let ops = ed.input_char('\u{e9}');
    assert!(ops.is_empty());
    assert_eq!(ed.get_buffer(), "ab");
    assert_eq!(ed.get_cursor_buffer_pos(), 2);
}

#[test]
fn move_left_then_right_restores_cursor_and_content() {
    let mut ed = TextInput::new(5, 20);
    type_str(&mut ed, "hello");
    ed.move_cursor_left();
    ed.move_cursor_left();
    let cursor_before = ed.get_cursor_buffer_pos();
    let content_before = ed.get_buffer();
    ed.move_cursor_left();
    ed.move_cursor_right();
    assert_eq!(ed.get_cursor_buffer_pos(), cursor_before);
    assert_eq!(ed.get_buffer(), content_before);
    ed.move_cursor_right();
    ed.move_cursor_left();
    assert_eq!(ed.get_cursor_buffer_pos(), cursor_before);
    assert_eq!(ed.get_buffer(), content_before);
}

#[test]
fn moves_clamp_at_the_ends() {
    let mut ed = TextInput::new(5, 20);
    type_str(&mut ed, "ab");
    ed.move_cursor_right();
    assert_eq!(ed.get_cursor_buffer_pos(), 2);
    ed.move_cursor_start();
    ed.move_cursor_left();
    assert_eq!(ed.get_cursor_buffer_pos(), 0);
    ed.move_cursor_end();
    assert_eq!(ed.get_cursor_buffer_pos(), 2);
}

#[test]
fn row_count_formula_exact_values() {
    // max(1, ceil((len + prefix) / width))
    assert_eq!(row_count(5, 0, 20), 1);
    assert_eq!(row_count(5, 15, 20), 1);
    assert_eq!(row_count(5, 16, 20), 2);
    assert_eq!(row_count(5, 35, 20), 2);
    assert_eq!(row_count(5, 36, 20), 3);
    assert_eq!(row_count(0, 0, 7), 1);
    assert_eq!(row_count(0, 7, 7), 1);
    assert_eq!(row_count(0, 8, 7), 2);
    assert_eq!(row_count(7, 0, 7), 1);
}

#[test]
fn wrapped_rows_hold_the_expected_slices() {
    let mut ed = TextInput::new(5, 20);
    type_str(&mut ed, "hello world foo bar");  // 19 chars, 5 + 19 = 24
    assert_eq!(ed.get_line_count(), 1);
    assert_eq!(ed.get_line_content(0), "hello world foo");
    assert_eq!(ed.get_line_content(1), " bar");
}

#[test]
fn cursor_at_an_exact_row_boundary_sits_on_the_next_row() {
    let mut ed = TextInput::new(5, 20);
    type_str(&mut ed, "123456789012345");  // 5 + 15 fills row 0 exactly
    // One content row, but the cursor parks at column 0 of the next row.
    assert_eq!(row_count(5, 15, 20), 1);
    assert_eq!(ed.get_cursor_pos(), (0, 1));
    assert_eq!(ed.get_line_count(), 1);
    assert_eq!(ed.get_line_content(1), "");
}

#[test]
fn crossing_a_row_boundary_left_repositions_to_previous_row_end() {
    let mut ed = TextInput::new(5, 20);
    type_str(&mut ed, "hello world foo bar");
    // Cursor sits at absolute position 24 (column 4 of row 1).
    for _ in 0..4 {
        ed.move_cursor_left();
    }
    // Now at column 0 of row 1; one more step crosses the boundary.
    let ops = ed.move_cursor_left();
    assert_eq!(ops, vec![PaintOp::MoveRowsUp(1), PaintOp::ToColumn(19)]);
    // And stepping right crosses back.
    let ops = ed.move_cursor_right();
    assert_eq!(ops, vec![PaintOp::MoveRowsDown(1), PaintOp::ToColumn(0)]);
}

#[test]
fn repaint_covers_every_row_and_repositions() {
    let mut ed = TextInput::new(5, 20);
    let ops = ed.input_char('a');
    // Hide, restore, erase, one row, reposition (3 ops), show.
    assert_eq!(ops.len(), 8);
    assert_eq!(ops[0], PaintOp::CursorHide);
    assert_eq!(ops[1], PaintOp::RestorePosition);
    assert_eq!(ops[2], PaintOp::EraseDown);
    assert_eq!(
        ops[3],
        PaintOp::WriteLine { first: true, text: "a".to_string(), newline: false }
    );
    assert_eq!(ops[4], PaintOp::RestorePosition);
    assert_eq!(ops[5], PaintOp::MoveRowsDown(0));
    assert_eq!(ops[6], PaintOp::ToColumn(6));
    assert_eq!(ops[7], PaintOp::CursorShow);
}

#[test]
fn end_line_clears_and_steps_below_content() {
    let mut ed = TextInput::new(5, 20);
    type_str(&mut ed, "hello world foo bar");
    let ops = ed.end_line();
    assert_eq!(
        ops,
        vec![
            PaintOp::CursorHide,
            PaintOp::MoveRowsDown(0),
            PaintOp::Newline,
            PaintOp::ToColumn(0),
        ]
    );
    assert_eq!(ed.get_buffer(), "");
    assert_eq!(ed.get_cursor_buffer_pos(), 0);
}

#[test]
fn set_buffer_replaces_and_parks_cursor_at_end() {
    let mut ed = TextInput::new(5, 20);
    type_str(&mut ed, "old");
    ed.set_buffer("recalled entry");
    assert_eq!(ed.get_buffer(), "recalled entry");
    assert_eq!(ed.get_cursor_buffer_pos(), 14);
}
