//! The edit position and its movement, always clamped against a buffer.

use vstd::prelude::*;
use crate::buffer::Buffer;

verus! {

/// `value` brought into the range from `low` to `high`: values above `high`
/// become `high`, and after that values below `low` become `low`.
pub open spec fn bounded(value: int, low: int, high: int) -> int {
    let capped = if value < high {
        value
    } else {
        high
    };
    if capped > low {
        capped
    } else {
        low
    }
}

/// A row and a column as plain numbers, both counted from zero. This is what
/// a `Cursor` stands for in contracts.
pub struct Position {
    pub row: int,
    pub col: int,
}

/// The position nearest to `position` that lies in `lines`. The row is
/// brought into range first, and the column is then held against the length
/// of the line at that row.
pub open spec fn clamp_position(position: Position, lines: Seq<Seq<char>>) -> Position {
    let row = bounded(position.row, 0, lines.len() - 1);
    Position { row, col: bounded(position.col, 0, lines[row].len() as int) }
}

/// Whether `position` names a place in `lines`: a row that exists, and a
/// column on that line or directly behind its last character.
pub open spec fn in_bounds(position: Position, lines: Seq<Seq<char>>) -> bool {
    &&& 0 <= position.row < lines.len()
    &&& 0 <= position.col <= lines[position.row].len()
}

/// Where a cursor at `position` stands after a move one row down.
pub open spec fn moved_down(position: Position, lines: Seq<Seq<char>>) -> Position {
    clamp_position(Position { row: position.row + 1, col: position.col }, lines)
}

/// Where a cursor at `position` stands after a move one row up.
pub open spec fn moved_up(position: Position, lines: Seq<Seq<char>>) -> Position {
    clamp_position(Position { row: position.row - 1, col: position.col }, lines)
}

/// Where a cursor at `position` stands after a move one column to the left.
pub open spec fn moved_left(position: Position, lines: Seq<Seq<char>>) -> Position {
    clamp_position(Position { row: position.row, col: position.col - 1 }, lines)
}

/// Where a cursor at `position` stands after a move one column to the right.
pub open spec fn moved_right(position: Position, lines: Seq<Seq<char>>) -> Position {
    clamp_position(Position { row: position.row, col: position.col + 1 }, lines)
}

/// Where a cursor at `position` stands after its column is set to `col`.
pub open spec fn moved_to_col(position: Position, col: int, lines: Seq<Seq<char>>) -> Position {
    clamp_position(Position { row: position.row, col }, lines)
}

/// A row and a column, both counted from zero. A cursor may hold any pair of
/// numbers; `clamp` brings it into a given buffer.
#[derive(Clone, Copy, Debug, PartialEq, Eq, Structural)]
pub struct Cursor {
    pub row: i64,
    pub col: i64,
}

impl View for Cursor {
    type V = Position;

    open spec fn view(&self) -> Position {
        Position { row: self.row as int, col: self.col as int }
    }
}

impl Cursor {
    /// The cursor one row further down, clamped.
    pub fn down(&self, buffer: &Buffer) -> (moved: Cursor)
        ensures
            moved@ == moved_down(self@, buffer@),
            in_bounds(moved@, buffer@),
    {
        let row: i64 = if self.row < i64::MAX {
            self.row + 1
        } else {
            self.row
        };
        proof {
            use_type_invariant(buffer);
        }
        Cursor { row, col: self.col }.clamp(buffer)
    }

    /// The cursor one row further up, clamped.
    pub fn up(&self, buffer: &Buffer) -> (moved: Cursor)
        ensures
            moved@ == moved_up(self@, buffer@),
            in_bounds(moved@, buffer@),
    {
        let row: i64 = if self.row > i64::MIN {
            self.row - 1
        } else {
            self.row
        };
        Cursor { row, col: self.col }.clamp(buffer)
    }

    /// The cursor one column further left, clamped.
    pub fn left(&self, buffer: &Buffer) -> (moved: Cursor)
        ensures
            moved@ == moved_left(self@, buffer@),
            in_bounds(moved@, buffer@),
    {
        let col: i64 = if self.col > i64::MIN {
            self.col - 1
        } else {
            self.col
        };
        Cursor { row: self.row, col }.clamp(buffer)
    }

    /// The cursor one column further right, clamped.
    pub fn right(&self, buffer: &Buffer) -> (moved: Cursor)
        ensures
            moved@ == moved_right(self@, buffer@),
            in_bounds(moved@, buffer@),
    {
        let col: i64 = if self.col < i64::MAX {
            self.col + 1
        } else {
            self.col
        };
        proof {
            use_type_invariant(buffer);
        }
        Cursor { row: self.row, col }.clamp(buffer)
    }

    /// The position in `buffer` nearest to this cursor: first the row is
    /// brought into the buffer, then the column into the line at that row.
    pub fn clamp(&self, buffer: &Buffer) -> (clamped: Cursor)
        ensures
            clamped@ == clamp_position(self@, buffer@),
            in_bounds(clamped@, buffer@),
    {
        proof {
            use_type_invariant(buffer);
        }
        let last: i64 = buffer.line_count() - 1;
        let row: i64 = if self.row < last {
            self.row
        } else {
            last
        };
        let row: i64 = if row > 0 {
            row
        } else {
            0
        };
        let length: i64 = buffer.line_length(row);
        let col: i64 = if self.col < length {
            self.col
        } else {
            length
        };
        let col: i64 = if col > 0 {
            col
        } else {
            0
        };
        Cursor { row, col }
    }

    /// The cursor on the same row at column `col`, clamped.
    pub fn move_to_col(&self, col: i64, buffer: &Buffer) -> (moved: Cursor)
        ensures
            moved@ == moved_to_col(self@, col as int, buffer@),
            in_bounds(moved@, buffer@),
    {
        Cursor { row: self.row, col }.clamp(buffer)
    }
}

/// Clamping a position that was already clamped changes nothing.
pub proof fn lemma_clamp_idempotent(position: Position, lines: Seq<Seq<char>>)
    requires
        lines.len() >= 1,
    ensures
        clamp_position(clamp_position(position, lines), lines) == clamp_position(position, lines),
{
}

/// A clamped position lies in the lines it was clamped against.
pub proof fn lemma_clamp_in_bounds(position: Position, lines: Seq<Seq<char>>)
    requires
        lines.len() >= 1,
    ensures
        in_bounds(clamp_position(position, lines), lines),
{
}

/// Clamping leaves a position that lies in the lines where it is.
pub proof fn lemma_clamp_keeps_in_bounds(position: Position, lines: Seq<Seq<char>>)
    requires
        in_bounds(position, lines),
    ensures
        clamp_position(position, lines) == position,
{
}

/// Moving up from the first row stays on the first row, and moving down from
/// the last row stays on the last row. No move ever leaves the lines.
pub proof fn lemma_vertical_moves_stop_at_edges(position: Position, lines: Seq<Seq<char>>)
    requires
        lines.len() >= 1,
    ensures
        position.row <= 0 ==> moved_up(position, lines).row == 0,
        position.row >= lines.len() - 1 ==> moved_down(position, lines).row == lines.len() - 1,
        0 <= moved_up(position, lines).row < lines.len(),
        0 <= moved_down(position, lines).row < lines.len(),
{
}

/// Moving right from the end of a line, or from beyond it, stops at the
/// position directly behind the line's last character.
pub proof fn lemma_right_stops_at_line_end(position: Position, lines: Seq<Seq<char>>)
    requires
        0 <= position.row < lines.len(),
        position.col >= lines[position.row].len(),
    ensures
        moved_right(position, lines) == (Position {
            row: position.row,
            col: lines[position.row].len() as int,
        }),
{
}

} // verus!
