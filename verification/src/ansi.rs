//! The two terminal control sequences the editor sends, as text.

use vstd::prelude::*;

verus! {

/// The character that writes the digit `d`.
pub open spec fn digit_char(d: int) -> char
    recommends
        0 <= d < 10,
{
    ('0' as u8 + d) as char
}

/// The decimal digits of `n`, most significant first, without leading zeros.
pub open spec fn digits(n: nat) -> Seq<char>
    decreases n,
{
    if n < 10 {
        seq![digit_char(n as int)]
    } else {
        digits(n / 10).push(digit_char((n % 10) as int))
    }
}

/// `n` written in decimal, with a minus sign in front if it is negative.
pub open spec fn decimal(n: int) -> Seq<char> {
    if n < 0 {
        seq!['-'] + digits((-n) as nat)
    } else {
        digits(n as nat)
    }
}

/// The sequence that clears the whole screen: escape, `[2J`.
pub open spec fn clear_screen_code() -> Seq<char> {
    seq!['\u{1b}', '[', '2', 'J']
}

/// The sequence that puts the terminal's cursor on the cell at `row` and
/// `column`, both counted from zero here and from one by the terminal:
/// escape, `[`, the row plus one, `;`, the column plus one, `H`.
pub open spec fn move_cursor_code(row: int, column: int) -> Seq<char> {
    seq!['\u{1b}', '['] + decimal(row + 1) + seq![';'] + decimal(column + 1) + seq!['H']
}

/// Appends the decimal digits of `n` to `out`.
fn push_digits(out: &mut String, n: u64)
    ensures
        final(out)@ == old(out)@ + digits(n as nat),
    decreases n,
{
    if n >= 10 {
        push_digits(out, n / 10);
    }
    let d: u8 = (n % 10) as u8;
    out.push((48u8 + d) as char);
}

/// Appends `index + 1` in decimal to `out`.
fn push_one_based(out: &mut String, index: i64)
    ensures
        final(out)@ == old(out)@ + decimal(index + 1),
{
    if index >= 0 {
        push_digits(out, index as u64 + 1);
    } else if index == -1 {
        push_digits(out, 0);
    } else {
        out.push('-');
        push_digits(out, (-(index + 1)) as u64);
    }
}

/// Terminal control sequences.
pub struct ANSI {}

impl ANSI {
    /// The text that clears the screen.
    pub fn clear_screen() -> (code: String)
        ensures
            code@ == clear_screen_code(),
    {
        let mut code = String::new();
        code.push('\u{1b}');
        code.push('[');
        code.push('2');
        code.push('J');
        code
    }

    /// The text that moves the terminal's cursor to `row` and `column`,
    /// counted from zero.
    pub fn move_cursor(row: i64, column: i64) -> (code: String)
        ensures
            code@ == move_cursor_code(row as int, column as int),
    {
        let mut code = String::new();
        code.push('\u{1b}');
        code.push('[');
        push_one_based(&mut code, row);
        code.push(';');
        push_one_based(&mut code, column);
        code.push('H');
        code
    }
}

} // verus!
