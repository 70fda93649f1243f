//! The mathematical model of a document: a sequence of lines, each a
//! sequence of characters, and the edits on it.

use vstd::prelude::*;

verus! {

/// The lines held by a vector of strings, each as its sequence of characters.
pub open spec fn lines_of(v: Seq<String>) -> Seq<Seq<char>> {
    v.map_values(|s: String| s@)
}

/// What every buffer satisfies: there is at least one line, and the number of
/// lines and the length of each line can be reported as an `i64`.
pub open spec fn valid_lines(lines: Seq<Seq<char>>) -> bool {
    &&& 1 <= lines.len() <= i64::MAX
    &&& forall|i: int| 0 <= i < lines.len() ==> (#[trigger] lines[i]).len() <= i64::MAX
}

/// `lines` with `c` put into line `row` before position `col`; the characters
/// from `col` on move one place to the right.
pub open spec fn insert_char(lines: Seq<Seq<char>>, c: char, row: int, col: int) -> Seq<
    Seq<char>,
>
    recommends
        0 <= row < lines.len(),
        0 <= col <= lines[row].len(),
{
    lines.update(row, lines[row].insert(col, c))
}

/// `lines` with the character at position `col` of line `row` taken out.
pub open spec fn delete_char(lines: Seq<Seq<char>>, row: int, col: int) -> Seq<Seq<char>>
    recommends
        0 <= row < lines.len(),
        0 <= col < lines[row].len(),
{
    lines.update(row, lines[row].remove(col))
}

/// `lines` with line `row` cut in two before position `col`: the part before
/// stays at `row`, the rest becomes a new line at `row + 1`.
pub open spec fn split_line_at(lines: Seq<Seq<char>>, row: int, col: int) -> Seq<Seq<char>>
    recommends
        0 <= row < lines.len(),
        0 <= col <= lines[row].len(),
{
    lines.update(row, lines[row].take(col)).insert(row + 1, lines[row].skip(col))
}

/// Putting a character in and taking it out again at the same place gives
/// back the lines one started with.
pub proof fn lemma_insert_then_delete(lines: Seq<Seq<char>>, c: char, row: int, col: int)
    requires
        0 <= row < lines.len(),
        0 <= col <= lines[row].len(),
    ensures
        delete_char(insert_char(lines, c, row, col), row, col) == lines,
{
    assert(lines[row].insert(col, c).remove(col) =~= lines[row]);
}

/// Splitting a line adds exactly one line, the two halves together are the
/// line that was split, and every other line is kept, those below it one row
/// further down.
pub proof fn lemma_split_line_at(lines: Seq<Seq<char>>, row: int, col: int)
    requires
        0 <= row < lines.len(),
        0 <= col <= lines[row].len(),
    ensures
        split_line_at(lines, row, col).len() == lines.len() + 1,
        split_line_at(lines, row, col)[row] + split_line_at(lines, row, col)[row + 1]
            == lines[row],
        split_line_at(lines, row, col)[row].len() == col,
        forall|i: int| 0 <= i < row ==> split_line_at(lines, row, col)[i] == lines[i],
        forall|i: int|
            row < i < lines.len() ==> #[trigger] split_line_at(lines, row, col)[i + 1] == lines[i],
{
}

/// The lines of a text: the pieces between its line feeds. A text without a
/// line feed is one line, and a text that ends in a line feed has an empty
/// last line.
pub open spec fn split_text(text: Seq<char>) -> Seq<Seq<char>>
    decreases text.len(),
{
    if text.len() == 0 {
        seq![Seq::empty()]
    } else {
        let before = split_text(text.drop_last());
        if text.last() == '\n' {
            before.push(Seq::empty())
        } else {
            before.update(before.len() - 1, before.last().push(text.last()))
        }
    }
}

/// The lines put together again, with a line feed between each two.
pub open spec fn join_lines(lines: Seq<Seq<char>>) -> Seq<char>
    decreases lines.len(),
{
    if lines.len() == 0 {
        Seq::empty()
    } else if lines.len() == 1 {
        lines[0]
    } else {
        join_lines(lines.drop_last()) + seq!['\n'] + lines.last()
    }
}

/// What is written to show the lines: each line in order, followed by a
/// carriage return and a line feed.
pub open spec fn render_lines(lines: Seq<Seq<char>>) -> Seq<char>
    decreases lines.len(),
{
    if lines.len() == 0 {
        Seq::empty()
    } else {
        render_lines(lines.drop_last()) + lines.last() + seq!['\r', '\n']
    }
}

/// A text has at least one line and at most one line more than it has
/// characters, no line is longer than the text, and no line holds a line
/// feed.
pub proof fn lemma_split_text_shape(text: Seq<char>)
    ensures
        1 <= split_text(text).len() <= text.len() + 1,
        forall|i: int|
            0 <= i < split_text(text).len() ==> (#[trigger] split_text(text)[i]).len()
                <= text.len(),
        forall|i: int|
            0 <= i < split_text(text).len() ==> !(#[trigger] split_text(text)[i]).contains('\n'),
    decreases text.len(),
{
    if text.len() > 0 {
        lemma_split_text_shape(text.drop_last());
        let before = split_text(text.drop_last());
        let lines = split_text(text);
        assert forall|i: int| 0 <= i < lines.len() implies !(#[trigger] lines[i]).contains(
            '\n',
        ) by {
            if i == before.len() - 1 && text.last() != '\n' {
                let grown = before.last().push(text.last());
                if grown.contains('\n') {
                    let k = choose|k: int| 0 <= k < grown.len() && grown[k] == '\n';
                    assert(before.last()[k] == '\n');
                }
            }
        }
    }
}

/// The lines of a text shorter than `i64::MAX` characters are valid lines.
pub proof fn lemma_split_text_valid(text: Seq<char>)
    requires
        text.len() < i64::MAX,
    ensures
        valid_lines(split_text(text)),
{
    lemma_split_text_shape(text);
}

/// Joining the lines of a text gives the text back.
pub proof fn lemma_join_split_text(text: Seq<char>)
    ensures
        join_lines(split_text(text)) == text,
    decreases text.len(),
{
    if text.len() > 0 {
        let shorter = text.drop_last();
        lemma_join_split_text(shorter);
        lemma_split_text_shape(shorter);
        let before = split_text(shorter);
        let lines = split_text(text);
        if text.last() == '\n' {
            assert(lines.drop_last() =~= before);
        } else if before.len() > 1 {
            assert(lines.drop_last() =~= before.drop_last());
        }
        assert(shorter.push(text.last()) =~= text);
    }
}

/// Adding characters other than line feeds to the end of a text adds them to
/// the end of its last line.
pub proof fn lemma_split_text_append(text: Seq<char>, tail: Seq<char>)
    requires
        !tail.contains('\n'),
    ensures
        split_text(text + tail) == split_text(text).update(
            split_text(text).len() - 1,
            split_text(text).last() + tail,
        ),
    decreases tail.len(),
{
    let lines = split_text(text);
    lemma_split_text_shape(text);
    if tail.len() > 0 {
        let shorter = tail.drop_last();
        assert(!shorter.contains('\n')) by {
            if shorter.contains('\n') {
                let k = choose|k: int| 0 <= k < shorter.len() && shorter[k] == '\n';
                assert(tail[k] == '\n');
            }
        }
        assert(tail.last() != '\n');
        lemma_split_text_append(text, shorter);
        assert((text + tail).drop_last() =~= text + shorter);
        assert((lines.last() + shorter).push(tail.last()) =~= lines.last() + tail);
    }
}

/// Splitting undoes joining: lines without line feeds, at least one of them,
/// are exactly the lines of their joined text. Together with
/// `lemma_join_split_text` this says that the lines of a text are the one way
/// to cut it into pieces free of line feeds.
pub proof fn lemma_split_joined_lines(lines: Seq<Seq<char>>)
    requires
        lines.len() >= 1,
        forall|i: int| 0 <= i < lines.len() ==> !(#[trigger] lines[i]).contains('\n'),
    ensures
        split_text(join_lines(lines)) == lines,
    decreases lines.len(),
{
    let empty = Seq::<char>::empty();
    if lines.len() == 1 {
        lemma_split_text_append(empty, lines[0]);
    } else {
        let above = lines.drop_last();
        lemma_split_joined_lines(above);
        let head = join_lines(above).push('\n');
        assert(head.drop_last() =~= join_lines(above));
        lemma_split_text_append(head, lines.last());
        assert(join_lines(lines) =~= head + lines.last());
    }
}

} // verus!
