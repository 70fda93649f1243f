//! The editing session: one buffer, one cursor, and what each key does to
//! them.

use vstd::prelude::*;
use crate::ansi::{clear_screen_code, move_cursor_code, ANSI};
use crate::buffer::Buffer;
use crate::cursor::{
    in_bounds, moved_down, moved_left, moved_right, moved_up, Cursor, Position,
};
use crate::document::{
    delete_char, insert_char, lemma_insert_then_delete, lines_of, render_lines, split_line_at,
    valid_lines,
};

verus! {

/// A key press, as far as the editor tells keys apart.
#[derive(Clone, Copy, Debug, PartialEq, Eq, Structural)]
pub enum Key {
    /// A letter pressed together with the control key.
    Ctrl(char),
    /// A character typed as it is; the enter key is the line feed.
    Char(char),
    /// The backspace key.
    Backspace,
    /// Any other key.
    Other,
}

/// An editing session as plain values: the lines of its buffer and the
/// position of its cursor. This is what an `Editor` stands for in contracts.
pub struct Session {
    pub lines: Seq<Seq<char>>,
    pub position: Position,
}

/// What holds of every session: the lines are valid and the cursor lies in
/// them.
pub open spec fn valid_session(session: Session) -> bool {
    &&& valid_lines(session.lines)
    &&& in_bounds(session.position, session.lines)
}

/// The session after `key` was pressed.
///
/// Control with `n`, `p`, `f` or `b` moves the cursor down, up, right or left.
/// Backspace takes out the character before the cursor and steps back onto its
/// place, and does nothing at the start of a line. Enter cuts the line at the
/// cursor and goes to the start of the new line. Any other character is put in
/// at the cursor, which then stands behind it. Every other key changes
/// nothing.
pub open spec fn after_key(session: Session, key: Key) -> Session {
    let lines = session.lines;
    let position = session.position;
    let row = position.row;
    let col = position.col;
    match key {
        Key::Ctrl(c) => if c == 'n' {
            Session { lines, position: moved_down(position, lines) }
        } else if c == 'p' {
            Session { lines, position: moved_up(position, lines) }
        } else if c == 'f' {
            Session { lines, position: moved_right(position, lines) }
        } else if c == 'b' {
            Session { lines, position: moved_left(position, lines) }
        } else {
            session
        },
        Key::Backspace => if col > 0 {
            Session {
                lines: delete_char(lines, row, col - 1),
                position: Position { row, col: col - 1 },
            }
        } else {
            session
        },
        Key::Char(c) => if c == '\n' {
            Session {
                lines: split_line_at(lines, row, col),
                position: Position { row: row + 1, col: 0 },
            }
        } else {
            Session {
                lines: insert_char(lines, c, row, col),
                position: Position { row, col: col + 1 },
            }
        },
        Key::Other => session,
    }
}

/// Whether `key` ends the session: control with `c` or with `q`.
pub open spec fn is_quit(key: Key) -> bool {
    key == Key::Ctrl('c') || key == Key::Ctrl('q')
}

/// Whether the session's lines can take what `key` adds: one more line for
/// enter, one more character on the cursor's line for any other character.
/// All other keys add nothing.
pub open spec fn has_room(session: Session, key: Key) -> bool {
    match key {
        Key::Char(c) => if c == '\n' {
            session.lines.len() < i64::MAX
        } else {
            session.lines[session.position.row].len() < i64::MAX
        },
        _ => true,
    }
}

/// What is written to the terminal to show the session: clear the screen, go
/// to the top left corner, write the lines, and put the terminal's cursor
/// where the editor's cursor is.
pub open spec fn frame(session: Session) -> Seq<char> {
    clear_screen_code() + move_cursor_code(0, 0) + render_lines(session.lines) + move_cursor_code(
        session.position.row,
        session.position.col,
    )
}

/// A key pressed in a valid session that has room for it leaves a valid
/// session: the cursor never leaves the lines.
pub proof fn lemma_after_key_valid(session: Session, key: Key)
    requires
        valid_session(session),
        has_room(session, key),
    ensures
        valid_session(after_key(session, key)),
{
}

/// Typing a character and then pressing backspace gives back the session
/// from before.
pub proof fn lemma_backspace_undoes_typing(session: Session, c: char)
    requires
        in_bounds(session.position, session.lines),
        c != '\n',
    ensures
        after_key(after_key(session, Key::Char(c)), Key::Backspace) == session,
{
    lemma_insert_then_delete(session.lines, c, session.position.row, session.position.col);
}

/// An editing session. Its cursor always lies in its buffer.
#[derive(Debug)]
pub struct Editor {
    buffer: Buffer,
    cursor: Cursor,
}

impl View for Editor {
    type V = Session;

    closed spec fn view(&self) -> Session {
        Session { lines: self.buffer@, position: self.cursor@ }
    }
}

impl Editor {
    /// Holds of every editor: its session is valid.
    #[verifier::type_invariant]
    pub open spec fn well_formed(&self) -> bool {
        valid_session(self@)
    }

    /// A session on the given lines, with the cursor at the start of the
    /// first line.
    pub fn new(lines: Vec<String>) -> (editor: Editor)
        requires
            valid_lines(lines_of(lines@)),
        ensures
            editor@ == (Session {
                lines: lines_of(lines@),
                position: Position { row: 0, col: 0 },
            }),
    {
        let buffer = Buffer::new(lines);
        let cursor = Cursor { row: 0, col: 0 };
        Editor { buffer, cursor }
    }

    /// The buffer as it stands.
    pub fn buffer(&self) -> (buffer: &Buffer)
        ensures
            buffer@ == self@.lines,
    {
        &self.buffer
    }

    /// The cursor as it stands.
    pub fn cursor(&self) -> (cursor: Cursor)
        ensures
            cursor@ == self@.position,
            in_bounds(cursor@, self@.lines),
    {
        proof {
            use_type_invariant(self);
        }
        self.cursor
    }

    /// The text that draws the session on the terminal.
    pub fn render(&self) -> (text: String)
        ensures
            text@ == frame(self@),
    {
        let mut text = ANSI::clear_screen();
        text.append(ANSI::move_cursor(0, 0).as_str());
        text.append(self.buffer.render().as_str());
        text.append(ANSI::move_cursor(self.cursor.row, self.cursor.col).as_str());
        text
    }

    /// Whether the buffer has room for what `key` adds, so that the key can
    /// be handled.
    pub fn accepts(&self, key: Key) -> (room: bool)
        ensures
            room == has_room(self@, key),
    {
        proof {
            use_type_invariant(self);
        }
        match key {
            Key::Char(c) => if c == '\n' {
                self.buffer.line_count() < i64::MAX
            } else {
                self.buffer.line_length(self.cursor.row) < i64::MAX
            },
            _ => true,
        }
    }

    /// Applies one key press to the session and says whether the key asks to
    /// end it.
    pub fn handle_input(&mut self, key: Key) -> (quit: bool)
        requires
            has_room(old(self)@, key),
        ensures
            final(self)@ == after_key(old(self)@, key),
            quit == is_quit(key),
    {
        proof {
            use_type_invariant(&*self);
        }
        let row: i64 = self.cursor.row;
        let col: i64 = self.cursor.col;
        match key {
            Key::Ctrl(c) => {
                if c == 'n' {
                    self.cursor = self.cursor.down(&self.buffer);
                } else if c == 'p' {
                    self.cursor = self.cursor.up(&self.buffer);
                } else if c == 'f' {
                    self.cursor = self.cursor.right(&self.buffer);
                } else if c == 'b' {
                    self.cursor = self.cursor.left(&self.buffer);
                }
            },
            Key::Backspace => {
                if col > 0 {
                    let buffer = self.buffer.delete(row, col - 1);
                    let cursor = self.cursor.left(&buffer);
                    *self = Editor { buffer, cursor };
                }
            },
            Key::Char(c) => {
                if c == '\n' {
                    let buffer = self.buffer.split_line(row, col);
                    let cursor = self.cursor.down(&buffer).move_to_col(0, &buffer);
                    *self = Editor { buffer, cursor };
                } else {
                    let buffer = self.buffer.insert(c, row, col);
                    let cursor = self.cursor.right(&buffer);
                    *self = Editor { buffer, cursor };
                }
            },
            Key::Other => {},
        }
        match key {
            Key::Ctrl(c) => c == 'c' || c == 'q',
            _ => false,
        }
    }
}

} // verus!
