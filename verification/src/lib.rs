//! Builders for ANSI/VT100 terminal control sequences.
//!
//! Every function returns the exact byte sequence, as a `String`, that a
//! terminal interprets as one control command: cursor movement, erasure,
//! screen-buffer save/restore, or legacy video-mode switching. The library
//! holds no state and performs no output of its own; callers write the
//! returned strings to their output stream.

use vstd::prelude::*;

pub mod cursor;
pub mod decimal;
pub mod erase;
pub mod screen;

verus! {

/// Writing one emission and then another onto a stream yields exactly their
/// concatenation: first every character of `a`, then every character of `b`,
/// with nothing added, dropped, or interleaved.
pub proof fn lemma_outputs_concatenate(a: Seq<char>, b: Seq<char>)
    ensures
        (a + b).len() == a.len() + b.len(),
        (a + b).subrange(0, a.len() as int) == a,
        (a + b).subrange(a.len() as int, (a + b).len() as int) == b,
{
    assert((a + b).subrange(0, a.len() as int) =~= a);
    assert((a + b).subrange(a.len() as int, (a + b).len() as int) =~= b);
}

} // verus!
