use hecto::document::Document;
use hecto::editor::Cursor;
use hecto::editor::Editor;
use hecto::editor::KeyCode;
use hecto::editor::KeyEvent;
use hecto::row::Row;
use hecto::terminal::Size;
use hecto::terminal::TermOp;
use hecto::terminal::Terminal;

fn chars(s: &str) -> Vec<char> {
    s.chars().collect()
}

fn print_bundle(x: u16, y: u16, text: &str) -> Vec<TermOp> {
    vec![
        TermOp::HideCaret,
        TermOp::SavePos,
        TermOp::MoveTo(x, y),
        TermOp::Text(chars(text)),
        TermOp::RestorePos,
        TermOp::ShowCaret,
        TermOp::Flush,
    ]
}

fn delete_bundle(x: u16, y: u16) -> Vec<TermOp> {
    vec![
        TermOp::HideCaret,
        TermOp::SavePos,
        TermOp::MoveTo(x, y),
        TermOp::EraseCell,
        TermOp::RestorePos,
        TermOp::ShowCaret,
        TermOp::Flush,
    ]
}

fn editor_with(width: u16, height: u16, lines: &[&str]) -> Editor {
    let mut document = Document::new();
    for line in lines {
        document.push_row(Row::new(chars(line)));
    }
    Editor::new(document, width, height)
}

const BANNER: &str = "Hecto editor -- version 0.1.0";

#[test]
fn render_middle_range() {
    let row = Row::new(chars("hello"));
    assert_eq!(row.render(1, 3), chars("el"));
}

#[test]
fn render_clips_end_to_content() {
    let row = Row::new(chars("hello"));
    assert_eq!(row.render(0, 100), chars("hello"));
}

#[test]
fn render_start_past_content_is_empty() {
    let row = Row::new(chars("hello"));
    assert_eq!(row.render(7, 9), Vec::<char>::new());
}

#[test]
fn render_empty_range_is_empty() {
    let row = Row::new(chars("hello"));
    assert_eq!(row.render(2, 2), Vec::<char>::new());
}

#[test]
fn render_length_is_clipped_span() {
    let row = Row::new(chars("abcdef"));
    for s in 0..10usize {
        for e in 0..12usize {
            let got = row.render(s, e).len();
            let clipped_end = e.min(6);
            let want = if s <= clipped_end { clipped_end - s } else { 0 };
            assert_eq!(got, want, "start {s} end {e}");
        }
    }
}

#[test]
fn document_row_some_iff_in_range() {
    let mut document = Document::new();
    document.push_row(Row::new(chars("one")));
    document.push_row(Row::new(chars("two")));
    assert_eq!(document.len(), 2);
    assert_eq!(document.row(0).unwrap().render(0, 10), chars("one"));
    assert_eq!(document.row(1).unwrap().render(0, 10), chars("two"));
    assert!(document.row(2).is_none());
    assert!(document.row(usize::MAX).is_none());
}

#[test]
fn empty_document_has_no_rows() {
    let document = Document::new();
    assert_eq!(document.len(), 0);
    assert!(document.row(0).is_none());
}

#[test]
fn insert_advances_cursor_by_length() {
    let mut ed = editor_with(80, 24, &[]);
    ed.cursor = Cursor { x: 10, y: 0 };
    ed.print_at_cursor(&chars("abc"));
    assert_eq!(ed.cursor, Cursor { x: 13, y: 0 });
    assert_eq!(ed.terminal.ops, print_bundle(10, 0, "abc"));
}

#[test]
fn insert_wraps_past_width() {
    let mut ed = editor_with(80, 24, &[]);
    ed.cursor = Cursor { x: 78, y: 0 };
    ed.print_at_cursor(&chars("hello"));
    assert_eq!(ed.cursor, Cursor { x: 0, y: 1 });
}

#[test]
fn insert_reaching_width_exactly_does_not_wrap() {
    let mut ed = editor_with(80, 24, &[]);
    ed.cursor = Cursor { x: 78, y: 3 };
    ed.print_at_cursor(&chars("ab"));
    assert_eq!(ed.cursor, Cursor { x: 80, y: 3 });
}

#[test]
fn insert_in_zero_width_viewport_wraps() {
    let mut ed = editor_with(0, 24, &[]);
    ed.print_at_cursor(&chars("x"));
    assert_eq!(ed.cursor, Cursor { x: 0, y: 1 });
}

#[test]
fn left_at_column_zero_is_a_no_op() {
    let mut ed = editor_with(80, 24, &[]);
    ed.cursor = Cursor { x: 0, y: 5 };
    ed.process_keypress(KeyEvent { code: KeyCode::Left, ctrl: false });
    assert_eq!(ed.cursor, Cursor { x: 0, y: 5 });
    assert!(ed.terminal.ops.is_empty());
}

#[test]
fn up_at_line_zero_is_a_no_op() {
    let mut ed = editor_with(80, 24, &[]);
    ed.process_keypress(KeyEvent { code: KeyCode::Up, ctrl: false });
    assert_eq!(ed.cursor, Cursor { x: 0, y: 0 });
}

#[test]
fn right_at_width_is_a_no_op() {
    let mut ed = editor_with(80, 24, &[]);
    ed.cursor = Cursor { x: 80, y: 0 };
    ed.process_keypress(KeyEvent { code: KeyCode::Right, ctrl: false });
    assert_eq!(ed.cursor, Cursor { x: 80, y: 0 });
}

#[test]
fn down_is_never_clamped() {
    let mut ed = editor_with(80, 24, &[]);
    ed.cursor = Cursor { x: 0, y: 1000 };
    ed.process_keypress(KeyEvent { code: KeyCode::Down, ctrl: false });
    assert_eq!(ed.cursor, Cursor { x: 0, y: 1001 });
}

#[test]
fn out_of_range_move_leaves_x_unchanged_not_clamped() {
    let mut ed = editor_with(80, 24, &[]);
    ed.cursor = Cursor { x: 5, y: 5 };
    ed.move_cursor_rel(-10, 0);
    assert_eq!(ed.cursor, Cursor { x: 5, y: 5 });
    ed.move_cursor_rel(100, 0);
    assert_eq!(ed.cursor, Cursor { x: 5, y: 5 });
}

#[test]
fn ctrl_q_raises_the_quit_flag() {
    let mut ed = editor_with(80, 24, &[]);
    assert!(!ed.should_quit);
    ed.process_keypress(KeyEvent { code: KeyCode::Char('q'), ctrl: true });
    assert!(ed.should_quit);
    assert!(ed.terminal.ops.is_empty());
    assert_eq!(ed.cursor, Cursor { x: 0, y: 0 });
}

#[test]
fn quit_frame_clears_and_says_goodbye() {
    let mut ed = editor_with(80, 24, &[]);
    ed.process_keypress(KeyEvent { code: KeyCode::Char('q'), ctrl: true });
    ed.refresh_screen();
    let expected = vec![
        TermOp::MoveTo(0, 0),
        TermOp::ClearAll,
        TermOp::Text(chars("Goodbye.")),
        TermOp::Newline,
        TermOp::MoveTo(0, 0),
    ];
    assert_eq!(ed.terminal.ops, expected);
}

#[test]
fn quit_ends_a_simulated_run_loop() {
    let mut ed = editor_with(80, 24, &[]);
    let events = [
        KeyEvent { code: KeyCode::Char('h'), ctrl: false },
        KeyEvent { code: KeyCode::Char('q'), ctrl: true },
        KeyEvent { code: KeyCode::Char('x'), ctrl: false },
    ];
    let mut delivered = 0usize;
    loop {
        ed.refresh_screen();
        if ed.should_quit {
            break;
        }
        ed.process_keypress(events[delivered]);
        delivered += 1;
    }
    assert_eq!(delivered, 2, "the loop exits on the first check after the quit event");
}

#[test]
fn plain_q_inserts_the_character() {
    let mut ed = editor_with(80, 24, &[]);
    ed.process_keypress(KeyEvent { code: KeyCode::Char('q'), ctrl: false });
    assert!(!ed.should_quit);
    assert_eq!(ed.cursor, Cursor { x: 1, y: 0 });
    assert_eq!(ed.terminal.ops, print_bundle(0, 0, "q"));
}

#[test]
fn ctrl_with_another_character_still_inserts() {
    let mut ed = editor_with(80, 24, &[]);
    ed.process_keypress(KeyEvent { code: KeyCode::Char('a'), ctrl: true });
    assert!(!ed.should_quit);
    assert_eq!(ed.terminal.ops, print_bundle(0, 0, "a"));
}

#[test]
fn unmapped_character_inserts_placeholder() {
    let mut ed = editor_with(80, 24, &[]);
    ed.process_keypress(KeyEvent { code: KeyCode::Char('A'), ctrl: false });
    assert_eq!(ed.terminal.ops, print_bundle(0, 0, "?"));
}

#[test]
fn unknown_key_inserts_placeholder() {
    let mut ed = editor_with(80, 24, &[]);
    ed.process_keypress(KeyEvent { code: KeyCode::Other, ctrl: false });
    assert_eq!(ed.terminal.ops, print_bundle(0, 0, "?"));
}

#[test]
fn backspace_moves_left_then_erases() {
    let mut ed = editor_with(80, 24, &[]);
    ed.cursor = Cursor { x: 5, y: 2 };
    ed.process_keypress(KeyEvent { code: KeyCode::Backspace, ctrl: false });
    assert_eq!(ed.cursor, Cursor { x: 4, y: 2 });
    assert_eq!(ed.terminal.ops, delete_bundle(4, 2));
}

#[test]
fn backspace_at_left_edge_erases_in_place() {
    let mut ed = editor_with(80, 24, &[]);
    ed.cursor = Cursor { x: 0, y: 2 };
    ed.process_keypress(KeyEvent { code: KeyCode::Backspace, ctrl: false });
    assert_eq!(ed.cursor, Cursor { x: 0, y: 2 });
    assert_eq!(ed.terminal.ops, delete_bundle(0, 2));
}

#[test]
fn delete_erases_without_moving() {
    let mut ed = editor_with(80, 24, &[]);
    ed.cursor = Cursor { x: 3, y: 1 };
    ed.process_keypress(KeyEvent { code: KeyCode::Delete, ctrl: false });
    assert_eq!(ed.cursor, Cursor { x: 3, y: 1 });
    assert_eq!(ed.terminal.ops, delete_bundle(3, 1));
}

#[test]
fn keycode_mapping_covers_the_input_alphabet() {
    assert_eq!(Editor::get_char_from_keycode(KeyCode::Char('a')), Some('a'));
    assert_eq!(Editor::get_char_from_keycode(KeyCode::Char('z')), Some('z'));
    assert_eq!(Editor::get_char_from_keycode(KeyCode::Char('0')), Some('0'));
    assert_eq!(Editor::get_char_from_keycode(KeyCode::Char('9')), Some('9'));
    assert_eq!(Editor::get_char_from_keycode(KeyCode::Char('~')), Some('~'));
    assert_eq!(Editor::get_char_from_keycode(KeyCode::Char('`')), Some('`'));
    assert_eq!(Editor::get_char_from_keycode(KeyCode::Char('-')), Some('-'));
    assert_eq!(Editor::get_char_from_keycode(KeyCode::Char('=')), Some('='));
    assert_eq!(Editor::get_char_from_keycode(KeyCode::Char('A')), None);
    assert_eq!(Editor::get_char_from_keycode(KeyCode::Char(' ')), None);
    assert_eq!(Editor::get_char_from_keycode(KeyCode::Left), None);
    assert_eq!(Editor::get_char_from_keycode(KeyCode::Backspace), None);
    assert_eq!(Editor::get_char_from_keycode(KeyCode::Other), None);
}

#[test]
fn empty_document_frame_shows_tildes_and_banner() {
    let mut ed = editor_with(80, 24, &[]);
    ed.refresh_screen();
    let mut expected: Vec<TermOp> = vec![TermOp::MoveTo(0, 0)];
    for i in 0..23u16 {
        expected.push(TermOp::ClearLine);
        if i == 8 {
            expected.extend(print_bundle(3, 8, BANNER));
        } else {
            expected.push(TermOp::Text(chars("~")));
            expected.push(TermOp::Newline);
        }
    }
    expected.push(TermOp::MoveTo(0, 0));
    assert_eq!(ed.terminal.ops, expected);
    assert_eq!(ed.cursor, Cursor { x: 0, y: 0 });
}

#[test]
fn frame_shows_rows_clipped_to_width() {
    let mut ed = editor_with(4, 4, &["hi", "world"]);
    ed.cursor = Cursor { x: 2, y: 1 };
    ed.refresh_screen();
    let expected = vec![
        TermOp::MoveTo(0, 0),
        TermOp::ClearLine,
        TermOp::Text(chars("hi")),
        TermOp::Newline,
        TermOp::ClearLine,
        TermOp::Text(chars("worl")),
        TermOp::Newline,
        TermOp::ClearLine,
        TermOp::Text(chars("~")),
        TermOp::Newline,
        TermOp::MoveTo(2, 1),
    ];
    assert_eq!(ed.terminal.ops, expected);
}

#[test]
fn redrawing_an_unchanged_state_emits_identical_output() {
    let mut ed = editor_with(40, 12, &["alpha", "beta"]);
    ed.cursor = Cursor { x: 3, y: 1 };
    ed.refresh_screen();
    let first = ed.terminal.ops.clone();
    ed.terminal.ops.clear();
    ed.refresh_screen();
    assert_eq!(first, ed.terminal.ops);
}

#[test]
fn display_version_writes_the_banner_a_third_of_the_way_down() {
    let mut ed = editor_with(80, 24, &[]);
    ed.display_version();
    assert_eq!(ed.terminal.ops, print_bundle(3, 8, BANNER));
}

#[test]
fn display_version_is_clipped_to_the_width() {
    let mut ed = editor_with(10, 24, &[]);
    ed.display_version();
    assert_eq!(ed.terminal.ops, print_bundle(3, 8, &BANNER[..10]));
}

#[test]
fn initialize_screen_paints_the_margin_once_per_row() {
    let mut t = Terminal::new(5, 2);
    t.initialize_screen();
    let expected = vec![
        TermOp::HideCaret,
        TermOp::SavePos,
        TermOp::ClearAll,
        TermOp::MoveTo(0, 0),
        TermOp::Text(chars("~")),
        TermOp::Newline,
        TermOp::Text(chars("~")),
        TermOp::Newline,
        TermOp::RestorePos,
        TermOp::ShowCaret,
        TermOp::Flush,
    ];
    assert_eq!(t.ops, expected);
}

#[test]
fn draw_left_margin_repeats_the_marker() {
    let mut t = Terminal::new(3, 2);
    t.draw_left_margin(&chars("ab"));
    let expected = vec![
        TermOp::Text(chars("ab")),
        TermOp::Newline,
        TermOp::Text(chars("ab")),
        TermOp::Newline,
    ];
    assert_eq!(t.ops, expected);
}

#[test]
fn print_at_pos_clips_to_the_width() {
    let mut t = Terminal::new(3, 5);
    t.print_at_pos(1, 2, &chars("hello"));
    assert_eq!(t.ops, print_bundle(1, 2, "hel"));
}

#[test]
fn size_reports_the_construction_arguments() {
    let t = Terminal::new(7, 9);
    assert_eq!(*t.size(), Size { width: 7, height: 9 });
}
