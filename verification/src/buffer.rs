//! The document: a non-empty sequence of lines, edited by value.

use vstd::prelude::*;
use crate::document::{
    delete_char, insert_char, lines_of, render_lines, split_line_at, split_text, valid_lines,
};

verus! {

/// The lines of `text`, cut at every line feed. The line feeds themselves are
/// dropped; nothing else is trimmed, so a text that ends in a line feed gives
/// an empty last line.
pub fn split_lines(text: &str) -> (lines: Vec<String>)
    ensures
        lines_of(lines@) == split_text(text@),
{
    let mut lines: Vec<String> = Vec::new();
    let mut current = String::new();
    for c in it: text.chars()
        invariant
            it.seq() == text@,
            lines_of(lines@).push(current@) == split_text(text@.take(it.index() as int)),
    {
        assert(text@.take(it.index() + 1).drop_last() =~= text@.take(it.index() as int));
        if c == '\n' {
            lines.push(current);
            current = String::new();
        } else {
            current.push(c);
        }
    }
    assert(text@.take(text@.len() as int) =~= text@);
    lines.push(current);
    lines
}

/// An in-memory document. Every edit returns a new buffer and leaves the
/// one it was called on untouched.
#[derive(Debug)]
pub struct Buffer {
    lines: Vec<String>,
}

impl View for Buffer {
    type V = Seq<Seq<char>>;

    closed spec fn view(&self) -> Seq<Seq<char>> {
        lines_of(self.lines@)
    }
}

impl Buffer {
    /// Holds of every buffer: its lines are valid.
    #[verifier::type_invariant]
    pub open spec fn well_formed(&self) -> bool {
        valid_lines(self@)
    }

    /// Whether `lines` can be made into a buffer: there is at least one line,
    /// and neither the number of lines nor the length of any line is beyond
    /// `i64::MAX`.
    pub fn can_hold(lines: &Vec<String>) -> (valid: bool)
        ensures
            valid == valid_lines(lines_of(lines@)),
    {
        let count: usize = lines.len();
        if count == 0 || count as u64 > i64::MAX as u64 {
            return false;
        }
        let mut i: usize = 0;
        while i < count
            invariant
                i <= count,
                count == lines.len(),
                forall|k: int| 0 <= k < i ==> (#[trigger] lines_of(lines@)[k]).len() <= i64::MAX,
            decreases count - i,
        {
            assert(lines_of(lines@)[i as int] == lines[i as int]@);
            if lines[i].as_str().unicode_len() as u64 > i64::MAX as u64 {
                return false;
            }
            i += 1;
        }
        true
    }

    /// A buffer over the given lines.
    pub fn new(lines: Vec<String>) -> (buffer: Buffer)
        requires
            valid_lines(lines_of(lines@)),
        ensures
            buffer@ == lines_of(lines@),
    {
        Buffer { lines }
    }

    /// The lines, first to last.
    pub fn lines(&self) -> (lines: &Vec<String>)
        ensures
            lines_of(lines@) == self@,
    {
        &self.lines
    }

    /// The text that shows the buffer on a terminal in raw mode: every line
    /// in order, each followed by a carriage return and a line feed.
    pub fn render(&self) -> (text: String)
        ensures
            text@ == render_lines(self@),
    {
        let mut text = String::new();
        let mut i: usize = 0;
        while i < self.lines.len()
            invariant
                i <= self.lines.len(),
                text@ == render_lines(self@.take(i as int)),
            decreases self.lines.len() - i,
        {
            assert(self@.take(i + 1).drop_last() =~= self@.take(i as int));
            text.append(self.lines[i].as_str());
            text.push('\r');
            text.push('\n');
            i += 1;
        }
        assert(self@.take(i as int) =~= self@);
        text
    }

    /// The number of lines.
    pub fn line_count(&self) -> (count: i64)
        ensures
            count == self@.len(),
    {
        proof {
            use_type_invariant(self);
        }
        self.lines.len() as i64
    }

    /// The number of characters in line `row`.
    pub fn line_length(&self, row: i64) -> (length: i64)
        requires
            0 <= row < self@.len(),
        ensures
            length == self@[row as int].len(),
    {
        proof {
            use_type_invariant(self);
        }
        self.line(row).unicode_len() as i64
    }

    /// A new buffer with `character` put into line `row` before position
    /// `col`. The line must have room for one more character.
    pub fn insert(&self, character: char, row: i64, col: i64) -> (edited: Buffer)
        requires
            0 <= row < self@.len(),
            0 <= col <= self@[row as int].len(),
            self@[row as int].len() < i64::MAX,
        ensures
            edited@ == insert_char(self@, character, row as int, col as int),
    {
        let line = self.line(row);
        let length: usize = line.unicode_len();
        let at: usize = col as usize;
        let mut edited_line = line.substring_char(0, at).to_owned();
        edited_line.push(character);
        edited_line.append(line.substring_char(at, length));
        proof {
            use_type_invariant(self);
        }
        Buffer { lines: self.with_line(row, edited_line) }
    }

    /// A new buffer with the character at position `col` of line `row`
    /// taken out.
    pub fn delete(&self, row: i64, col: i64) -> (edited: Buffer)
        requires
            0 <= row < self@.len(),
            0 <= col < self@[row as int].len(),
        ensures
            edited@ == delete_char(self@, row as int, col as int),
    {
        let line = self.line(row);
        let length: usize = line.unicode_len();
        let at: usize = col as usize;
        let mut edited_line = line.substring_char(0, at).to_owned();
        edited_line.append(line.substring_char(at + 1, length));
        proof {
            use_type_invariant(self);
        }
        Buffer { lines: self.with_line(row, edited_line) }
    }

    /// A new buffer in which line `row` is cut in two before position `col`:
    /// what stood before `col` stays at `row`, the rest becomes a new line at
    /// `row + 1`, and the lines below move down by one. The buffer must have
    /// room for one more line.
    pub fn split_line(&self, row: i64, col: i64) -> (edited: Buffer)
        requires
            0 <= row < self@.len(),
            0 <= col <= self@[row as int].len(),
            self@.len() < i64::MAX,
        ensures
            edited@ == split_line_at(self@, row as int, col as int),
    {
        let line = self.line(row);
        let length: usize = line.unicode_len();
        let at: usize = col as usize;
        let first = line.substring_char(0, at).to_owned();
        let second = line.substring_char(at, length).to_owned();
        let index: usize = self.row_index(row);
        let mut lines = self.with_line(row, first);
        let ghost replaced = lines_of(lines@);
        assert(replaced.len() == lines.len());
        lines.insert(index + 1, second);
        proof {
            use_type_invariant(self);
            assert(lines_of(lines@) =~= replaced.insert(row + 1, second@));
        }
        Buffer { lines }
    }

    /// Line `row` as a string slice.
    fn line(&self, row: i64) -> (line: &str)
        requires
            0 <= row < self@.len(),
        ensures
            line@ == self@[row as int],
    {
        self.lines[self.row_index(row)].as_str()
    }

    /// `row` as an index into the vector of lines.
    fn row_index(&self, row: i64) -> (index: usize)
        requires
            0 <= row < self@.len(),
        ensures
            index == row,
            index < self.lines.len(),
    {
        let count: usize = self.lines.len();
        assert(row < count);
        row as usize
    }

    /// A copy of the lines in which line `row` is replaced by `line`.
    fn with_line(&self, row: i64, line: String) -> (lines: Vec<String>)
        requires
            0 <= row < self@.len(),
        ensures
            lines_of(lines@) == self@.update(row as int, line@),
    {
        let index: usize = self.row_index(row);
        let mut lines = self.copy_lines();
        let ghost copied = lines_of(lines@);
        lines.set(index, line);
        assert(lines_of(lines@) =~= copied.update(row as int, line@));
        lines
    }

    /// A copy of the lines, to be edited.
    fn copy_lines(&self) -> (lines: Vec<String>)
        ensures
            lines_of(lines@) == self@,
    {
        let mut lines: Vec<String> = Vec::new();
        let mut i: usize = 0;
        while i < self.lines.len()
            invariant
                i <= self.lines.len(),
                lines.len() == i,
                forall|k: int| 0 <= k < i ==> lines[k]@ == self.lines[k]@,
            decreases self.lines.len() - i,
        {
            lines.push(self.lines[i].clone());
            i += 1;
        }
        lines
    }
}

} // verus!
