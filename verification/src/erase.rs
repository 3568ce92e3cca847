//! Control sequences that erase parts of the screen or of the current line,
//! relative to the cursor position at the time the sequence is interpreted.

use vstd::prelude::*;

verus! {

/// The sequence that erases from the cursor to the end of the screen.
pub fn till_endscreen() -> (r: String)
    ensures
        r@ == seq!['\u{1b}', '[', '0', 'J'],
{
    let r = String::from_str("\u{1b}[0J");
    proof {
        reveal_strlit("\u{1b}[0J");
        assert(r@ =~= seq!['\u{1b}', '[', '0', 'J']);
    }
    r
}

/// The sequence that erases from the cursor to the beginning of the screen.
pub fn till_startscreen() -> (r: String)
    ensures
        r@ == seq!['\u{1b}', '[', '1', 'J'],
{
    let r = String::from_str("\u{1b}[1J");
    proof {
        reveal_strlit("\u{1b}[1J");
        assert(r@ =~= seq!['\u{1b}', '[', '1', 'J']);
    }
    r
}

/// The sequence that erases the entire screen.
pub fn screen() -> (r: String)
    ensures
        r@ == seq!['\u{1b}', '[', '2', 'J'],
{
    let r = String::from_str("\u{1b}[2J");
    proof {
        reveal_strlit("\u{1b}[2J");
        assert(r@ =~= seq!['\u{1b}', '[', '2', 'J']);
    }
    r
}

/// The sequence that erases from the cursor to the end of the line.
pub fn till_endline() -> (r: String)
    ensures
        r@ == seq!['\u{1b}', '[', '0', 'K'],
{
    let r = String::from_str("\u{1b}[0K");
    proof {
        reveal_strlit("\u{1b}[0K");
        assert(r@ =~= seq!['\u{1b}', '[', '0', 'K']);
    }
    r
}

/// The sequence that erases from the cursor to the beginning of the line.
pub fn till_startline() -> (r: String)
    ensures
        r@ == seq!['\u{1b}', '[', '1', 'K'],
{
    let r = String::from_str("\u{1b}[1K");
    proof {
        reveal_strlit("\u{1b}[1K");
        assert(r@ =~= seq!['\u{1b}', '[', '1', 'K']);
    }
    r
}

/// The sequence that erases the entire line.
pub fn line() -> (r: String)
    ensures
        r@ == seq!['\u{1b}', '[', '2', 'K'],
{
    let r = String::from_str("\u{1b}[2K");
    proof {
        reveal_strlit("\u{1b}[2K");
        assert(r@ =~= seq!['\u{1b}', '[', '2', 'K']);
    }
    r
}

} // verus!
