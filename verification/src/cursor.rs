//! Control sequences that reposition the cursor or change its visibility.

use vstd::prelude::*;

use crate::decimal::dec_digits;
use crate::decimal::decimal_string;
use crate::decimal::wrap_decimal;

verus! {

/// The sequence that moves the cursor to the home position (top left;
/// line 0, column 0).
pub fn home() -> (r: String)
    ensures
        r@ == seq!['\u{1b}', '[', 'H'],
{
    let r = String::from_str("\u{1b}[H");
    proof {
        reveal_strlit("\u{1b}[H");
        assert(r@ =~= seq!['\u{1b}', '[', 'H']);
    }
    r
}

/// The sequence that moves the cursor to a specific line and column,
/// both 1-indexed. The values are formatted verbatim, without validation
/// or clamping; out-of-range values are the terminal's concern.
pub fn move_to(line: u64, column: u64) -> (r: String)
    ensures
        r@ == seq!['\u{1b}', '['] + dec_digits(line as nat) + seq![';'] + dec_digits(
            column as nat,
        ) + seq!['H'],
{
    let mut s = String::from_str("\u{1b}[");
    s.append(decimal_string(line).as_str());
    s.append(";");
    s.append(decimal_string(column).as_str());
    s.append("H");
    proof {
        reveal_strlit("\u{1b}[");
        reveal_strlit(";");
        reveal_strlit("H");
        assert("\u{1b}["@ =~= seq!['\u{1b}', '[']);
        assert(";"@ =~= seq![';']);
        assert("H"@ =~= seq!['H']);
    }
    s
}

/// The sequence that moves the cursor up by the given number of lines.
/// No clamping to screen bounds is performed.
pub fn move_up(lines: u64) -> (r: String)
    ensures
        r@ == seq!['\u{1b}', '['] + dec_digits(lines as nat) + seq!['A'],
{
    let r = wrap_decimal("\u{1b}[", lines, "A");
    proof {
        reveal_strlit("\u{1b}[");
        reveal_strlit("A");
        assert("\u{1b}["@ =~= seq!['\u{1b}', '[']);
        assert("A"@ =~= seq!['A']);
    }
    r
}

/// The sequence that moves the cursor down by the given number of lines.
/// No clamping to screen bounds is performed.
pub fn move_down(lines: u64) -> (r: String)
    ensures
        r@ == seq!['\u{1b}', '['] + dec_digits(lines as nat) + seq!['B'],
{
    let r = wrap_decimal("\u{1b}[", lines, "B");
    proof {
        reveal_strlit("\u{1b}[");
        reveal_strlit("B");
        assert("\u{1b}["@ =~= seq!['\u{1b}', '[']);
        assert("B"@ =~= seq!['B']);
    }
    r
}

/// The sequence that moves the cursor right by the given number of columns.
/// No clamping to screen bounds is performed.
pub fn move_right(columns: u64) -> (r: String)
    ensures
        r@ == seq!['\u{1b}', '['] + dec_digits(columns as nat) + seq!['C'],
{
    let r = wrap_decimal("\u{1b}[", columns, "C");
    proof {
        reveal_strlit("\u{1b}[");
        reveal_strlit("C");
        assert("\u{1b}["@ =~= seq!['\u{1b}', '[']);
        assert("C"@ =~= seq!['C']);
    }
    r
}

/// The sequence that moves the cursor left by the given number of columns.
/// No clamping to screen bounds is performed.
pub fn move_left(columns: u64) -> (r: String)
    ensures
        r@ == seq!['\u{1b}', '['] + dec_digits(columns as nat) + seq!['D'],
{
    let r = wrap_decimal("\u{1b}[", columns, "D");
    proof {
        reveal_strlit("\u{1b}[");
        reveal_strlit("D");
        assert("\u{1b}["@ =~= seq!['\u{1b}', '[']);
        assert("D"@ =~= seq!['D']);
    }
    r
}

/// The sequence that moves the cursor to the given 1-indexed column on the
/// current line.
pub fn move_to_column(column: u64) -> (r: String)
    ensures
        r@ == seq!['\u{1b}', '['] + dec_digits(column as nat) + seq!['G'],
{
    let r = wrap_decimal("\u{1b}[", column, "G");
    proof {
        reveal_strlit("\u{1b}[");
        reveal_strlit("G");
        assert("\u{1b}["@ =~= seq!['\u{1b}', '[']);
        assert("G"@ =~= seq!['G']);
    }
    r
}

/// The sequence that hides the cursor.
pub fn hide_cursor() -> (r: String)
    ensures
        r@ == seq!['\u{1b}', '[', '?', '2', '5', 'l'],
{
    let r = String::from_str("\u{1b}[?25l");
    proof {
        reveal_strlit("\u{1b}[?25l");
        assert(r@ =~= seq!['\u{1b}', '[', '?', '2', '5', 'l']);
    }
    r
}

/// The sequence that shows the cursor. No visibility state is tracked:
/// the same sequence is produced whether or not the cursor was hidden.
pub fn show() -> (r: String)
    ensures
        r@ == seq!['\u{1b}', '[', '?', '2', '5', 'h'],
{
    let r = String::from_str("\u{1b}[?25h");
    proof {
        reveal_strlit("\u{1b}[?25h");
        assert(r@ =~= seq!['\u{1b}', '[', '?', '2', '5', 'h']);
    }
    r
}

} // verus!
