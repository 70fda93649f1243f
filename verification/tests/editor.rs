use linedit::{Cursor, Editor, Key};

fn editor_of(lines: &[&str]) -> Editor {
    Editor::new(lines.iter().map(|line| line.to_string()).collect())
}

fn editor_at(lines: &[&str], row: i64, col: i64) -> Editor {
    let mut editor = editor_of(lines);
    for _ in 0..row {
        editor.handle_input(Key::Ctrl('n'));
    }
    for _ in 0..col {
        editor.handle_input(Key::Ctrl('f'));
    }
    assert_eq!(editor.cursor(), Cursor { row, col });
    editor
}

fn lines_in(editor: &Editor) -> Vec<&str> {
    editor.buffer().lines().iter().map(|line| line.as_str()).collect()
}

#[test]
fn new_editor_starts_at_the_origin() {
    let editor = editor_of(&["ab", "cd"]);
    assert_eq!(editor.cursor(), Cursor { row: 0, col: 0 });
    assert_eq!(lines_in(&editor), vec!["ab", "cd"]);
}

#[test]
fn enter_at_end_of_line_opens_an_empty_line() {
    let mut editor = editor_at(&["ab", "cd"], 0, 2);
    let quit = editor.handle_input(Key::Char('\n'));
    assert!(!quit);
    assert_eq!(lines_in(&editor), vec!["ab", "", "cd"]);
    assert_eq!(editor.cursor(), Cursor { row: 1, col: 0 });
}

#[test]
fn enter_in_the_middle_carries_the_rest_down() {
    let mut editor = editor_at(&["hello", "x"], 0, 2);
    editor.handle_input(Key::Char('\n'));
    assert_eq!(lines_in(&editor), vec!["he", "llo", "x"]);
    assert_eq!(editor.cursor(), Cursor { row: 1, col: 0 });
}

#[test]
fn five_backspaces_empty_the_line() {
    let mut editor = editor_at(&["hello"], 0, 5);
    for _ in 0..5 {
        let quit = editor.handle_input(Key::Backspace);
        assert!(!quit);
    }
    assert_eq!(lines_in(&editor), vec![""]);
    assert_eq!(editor.cursor(), Cursor { row: 0, col: 0 });
}

#[test]
fn backspace_removes_the_character_before_the_cursor() {
    let mut editor = editor_at(&["abc"], 0, 2);
    editor.handle_input(Key::Backspace);
    assert_eq!(lines_in(&editor), vec!["ac"]);
    assert_eq!(editor.cursor(), Cursor { row: 0, col: 1 });
}

#[test]
fn backspace_at_column_zero_does_nothing() {
    let mut editor = editor_at(&["ab", "cd"], 1, 0);
    let quit = editor.handle_input(Key::Backspace);
    assert!(!quit);
    assert_eq!(lines_in(&editor), vec!["ab", "cd"]);
    assert_eq!(editor.cursor(), Cursor { row: 1, col: 0 });
}

#[test]
fn down_on_a_single_line_stays_put() {
    let mut editor = editor_at(&["a"], 0, 1);
    let quit = editor.handle_input(Key::Ctrl('n'));
    assert!(!quit);
    assert_eq!(editor.cursor(), Cursor { row: 0, col: 1 });
    assert_eq!(lines_in(&editor), vec!["a"]);
    assert_eq!(editor.buffer().line_length(0), 1);
}

#[test]
fn control_keys_move_the_cursor() {
    let mut editor = editor_of(&["abc", "de"]);
    editor.handle_input(Key::Ctrl('f'));
    assert_eq!(editor.cursor(), Cursor { row: 0, col: 1 });
    editor.handle_input(Key::Ctrl('n'));
    assert_eq!(editor.cursor(), Cursor { row: 1, col: 1 });
    editor.handle_input(Key::Ctrl('b'));
    assert_eq!(editor.cursor(), Cursor { row: 1, col: 0 });
    editor.handle_input(Key::Ctrl('p'));
    assert_eq!(editor.cursor(), Cursor { row: 0, col: 0 });
    assert_eq!(lines_in(&editor), vec!["abc", "de"]);
}

#[test]
fn cursor_stays_inside_at_the_edges() {
    let mut editor = editor_of(&["abc", "de"]);
    editor.handle_input(Key::Ctrl('p'));
    editor.handle_input(Key::Ctrl('b'));
    assert_eq!(editor.cursor(), Cursor { row: 0, col: 0 });
    for _ in 0..5 {
        editor.handle_input(Key::Ctrl('f'));
    }
    assert_eq!(editor.cursor(), Cursor { row: 0, col: 3 });
    for _ in 0..5 {
        editor.handle_input(Key::Ctrl('n'));
    }
    assert_eq!(editor.cursor(), Cursor { row: 1, col: 2 });
}

#[test]
fn typing_inserts_and_advances() {
    let mut editor = editor_of(&[""]);
    for c in "hi!".chars() {
        let quit = editor.handle_input(Key::Char(c));
        assert!(!quit);
    }
    assert_eq!(lines_in(&editor), vec!["hi!"]);
    assert_eq!(editor.cursor(), Cursor { row: 0, col: 3 });
}

#[test]
fn typing_in_the_middle_of_a_line() {
    let mut editor = editor_at(&["ad", "x"], 0, 1);
    editor.handle_input(Key::Char('b'));
    editor.handle_input(Key::Char('c'));
    assert_eq!(lines_in(&editor), vec!["abcd", "x"]);
    assert_eq!(editor.cursor(), Cursor { row: 0, col: 3 });
}

#[test]
fn typing_then_backspace_restores_the_session() {
    let mut editor = editor_at(&["ab", "cd"], 1, 1);
    editor.handle_input(Key::Char('x'));
    editor.handle_input(Key::Backspace);
    assert_eq!(lines_in(&editor), vec!["ab", "cd"]);
    assert_eq!(editor.cursor(), Cursor { row: 1, col: 1 });
}

#[test]
fn control_c_and_control_q_quit() {
    let mut editor = editor_at(&["ab"], 0, 1);
    assert!(editor.handle_input(Key::Ctrl('c')));
    assert!(editor.handle_input(Key::Ctrl('q')));
    assert_eq!(lines_in(&editor), vec!["ab"]);
    assert_eq!(editor.cursor(), Cursor { row: 0, col: 1 });
}

#[test]
fn other_keys_do_nothing() {
    let mut editor = editor_at(&["ab", "cd"], 1, 1);
    for key in [Key::Other, Key::Ctrl('x'), Key::Ctrl('a'), Key::Ctrl('N')] {
        let quit = editor.handle_input(key);
        assert!(!quit);
        assert_eq!(lines_in(&editor), vec!["ab", "cd"]);
        assert_eq!(editor.cursor(), Cursor { row: 1, col: 1 });
    }
}

#[test]
fn typed_letters_are_not_commands() {
    let mut editor = editor_of(&[""]);
    for c in ['n', 'p', 'f', 'b', 'c', 'q'] {
        assert!(!editor.handle_input(Key::Char(c)));
    }
    assert_eq!(lines_in(&editor), vec!["npfbcq"]);
}

#[test]
fn accepts_every_key_on_a_small_buffer() {
    let editor = editor_of(&["ab"]);
    for key in [Key::Char('x'), Key::Char('\n'), Key::Backspace, Key::Ctrl('n'), Key::Other] {
        assert!(editor.accepts(key));
    }
}

#[test]
fn render_draws_the_frame() {
    let editor = editor_of(&["ab", "cd"]);
    assert_eq!(editor.render(), "\x1b[2J\x1b[1;1Hab\r\ncd\r\n\x1b[1;1H");
    let moved = editor_at(&["ab", "cd"], 1, 2);
    assert_eq!(moved.render(), "\x1b[2J\x1b[1;1Hab\r\ncd\r\n\x1b[2;3H");
}

#[test]
fn render_of_an_empty_document() {
    assert_eq!(editor_of(&[""]).render(), "\x1b[2J\x1b[1;1H\r\n\x1b[1;1H");
}
