//! Control sequences for the screen buffer, for legacy display modes, and for
//! line wrapping.

use vstd::prelude::*;

use crate::decimal::dec_digits;
use crate::decimal::wrap_decimal;

verus! {

/// The sequence that saves the current screen contents into the terminal
/// buffer, for restoring later. `save` and `restore` are a matched pair,
/// but no pairing is enforced.
pub fn save() -> (r: String)
    ensures
        r@ == seq!['\u{1b}', '[', '?', '4', '7', 'h'],
{
    let r = String::from_str("\u{1b}[?47h");
    proof {
        reveal_strlit("\u{1b}[?47h");
        assert(r@ =~= seq!['\u{1b}', '[', '?', '4', '7', 'h']);
    }
    r
}

/// The sequence that restores the screen contents from the terminal buffer.
/// Calling it without a prior `save` is legal; the outcome is the
/// terminal's concern.
pub fn restore() -> (r: String)
    ensures
        r@ == seq!['\u{1b}', '[', '?', '4', '7', 'l'],
{
    let r = String::from_str("\u{1b}[?47l");
    proof {
        reveal_strlit("\u{1b}[?47l");
        assert(r@ =~= seq!['\u{1b}', '[', '?', '4', '7', 'l']);
    }
    r
}

/// The legacy display modes that can be passed to `set_mode` and
/// `reset_mode`.
///
/// Each name starts with `Mono` (monochrome) or `Color`, optionally
/// followed by the number of colors, then `Text` or `Graphics`, then the
/// screen size as rows by columns for text modes or pixel width by height
/// for graphics modes. Each mode maps to a fixed numeric code given by
/// `mode_code`; the codes are standard hardware-mode identifiers and are
/// part of the external contract.
#[derive(Clone, Copy, Debug, PartialEq, Eq, Structural)]
pub enum Mode {
    MonoText40x25,
    ColorText40x25,
    MonoText80x25,
    ColorText80x25,
    Color4Graphics320x200,
    MonoGraphics320x200,
    MonoGraphics640x200,
    ColorGraphics320x200,
    Color16Graphics640x200,
    MonoGraphics640x350,
    Color16Graphics640x350,
    MonoGraphics640x480,
    Color16Graphics640x480,
    Color256Graphics320x200,
}

/// The fixed numeric code transmitted inside the escape sequence for each
/// display mode.
pub open spec fn mode_code(m: Mode) -> nat {
    match m {
        Mode::MonoText40x25 => 0,
        Mode::ColorText40x25 => 1,
        Mode::MonoText80x25 => 2,
        Mode::ColorText80x25 => 3,
        Mode::Color4Graphics320x200 => 4,
        Mode::MonoGraphics320x200 => 5,
        Mode::MonoGraphics640x200 => 6,
        Mode::ColorGraphics320x200 => 13,
        Mode::Color16Graphics640x200 => 14,
        Mode::MonoGraphics640x350 => 15,
        Mode::Color16Graphics640x350 => 16,
        Mode::MonoGraphics640x480 => 17,
        Mode::Color16Graphics640x480 => 18,
        Mode::Color256Graphics320x200 => 19,
    }
}

/// Whether `c` is one of the fourteen documented display-mode codes.
pub open spec fn is_mode_code(c: nat) -> bool {
    c == 0 || c == 1 || c == 2 || c == 3 || c == 4 || c == 5 || c == 6 || c == 13 || c == 14
        || c == 15 || c == 16 || c == 17 || c == 18 || c == 19
}

/// Every display mode's code is one of the fourteen documented codes:
/// no code outside that set is ever produced.
pub proof fn lemma_mode_code_listed(m: Mode)
    ensures
        is_mode_code(mode_code(m)),
{
}

/// No two distinct display modes share a numeric code.
pub proof fn lemma_mode_code_injective(a: Mode, b: Mode)
    ensures
        mode_code(a) == mode_code(b) ==> a == b,
{
}

impl Mode {
    /// The fixed numeric code for this mode.
    pub fn code(self) -> (c: u8)
        ensures
            c as nat == mode_code(self),
    {
        match self {
            Mode::MonoText40x25 => 0,
            Mode::ColorText40x25 => 1,
            Mode::MonoText80x25 => 2,
            Mode::ColorText80x25 => 3,
            Mode::Color4Graphics320x200 => 4,
            Mode::MonoGraphics320x200 => 5,
            Mode::MonoGraphics640x200 => 6,
            Mode::ColorGraphics320x200 => 13,
            Mode::Color16Graphics640x200 => 14,
            Mode::MonoGraphics640x350 => 15,
            Mode::Color16Graphics640x350 => 16,
            Mode::MonoGraphics640x480 => 17,
            Mode::Color16Graphics640x480 => 18,
            Mode::Color256Graphics320x200 => 19,
        }
    }
}

/// The sequence that sets the given display mode: its numeric code is
/// formatted into the mode-set template.
pub fn set_mode(mode: Mode) -> (r: String)
    ensures
        r@ == seq!['\u{1b}', '[', '='] + dec_digits(mode_code(mode)) + seq!['h'],
{
    let r = wrap_decimal("\u{1b}[=", mode.code() as u64, "h");
    proof {
        reveal_strlit("\u{1b}[=");
        reveal_strlit("h");
        assert("\u{1b}[="@ =~= seq!['\u{1b}', '[', '=']);
        assert("h"@ =~= seq!['h']);
    }
    r
}

/// The sequence that resets the given display mode: its numeric code is
/// formatted into the mode-reset template.
pub fn reset_mode(mode: Mode) -> (r: String)
    ensures
        r@ == seq!['\u{1b}', '[', '='] + dec_digits(mode_code(mode)) + seq!['l'],
{
    let r = wrap_decimal("\u{1b}[=", mode.code() as u64, "l");
    proof {
        reveal_strlit("\u{1b}[=");
        reveal_strlit("l");
        assert("\u{1b}[="@ =~= seq!['\u{1b}', '[', '=']);
        assert("l"@ =~= seq!['l']);
    }
    r
}

/// The sequence that enables line wrapping. No wrapping state is tracked.
pub fn enable_line_wrapping() -> (r: String)
    ensures
        r@ == seq!['\u{1b}', '[', '=', '7', 'h'],
{
    let r = String::from_str("\u{1b}[=7h");
    proof {
        reveal_strlit("\u{1b}[=7h");
        assert(r@ =~= seq!['\u{1b}', '[', '=', '7', 'h']);
    }
    r
}

/// The sequence that disables line wrapping. No wrapping state is tracked.
pub fn disable_line_wrapping() -> (r: String)
    ensures
        r@ == seq!['\u{1b}', '[', '=', '7', 'l'],
{
    let r = String::from_str("\u{1b}[=7l");
    proof {
        reveal_strlit("\u{1b}[=7l");
        assert(r@ =~= seq!['\u{1b}', '[', '=', '7', 'l']);
    }
    r
}

} // verus!
