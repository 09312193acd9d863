//! Actions on the composition host.
//!
//! The state machine answers each key event with at most one of these
//! actions; the surrounding program performs it against the host's
//! edit surface.

use vstd::prelude::*;

verus! {

/// What `str::encode_utf16` returns: the UTF-16 code units of the
/// text.
pub uninterp spec fn utf16_of(s: Seq<char>) -> Seq<u16>;

/// Relies on str::encode_utf16: the code units depend on the
/// characters alone, and empty text encodes to nothing.
#[verifier::external_body]
pub(crate) fn encode_utf16_units(s: &str) -> (r: Vec<u16>)
    ensures
        r@ == utf16_of(s@),
        s@.len() == 0 ==> r@.len() == 0,
{
    s.encode_utf16().collect()
}

/// One action for the composition host.
pub enum EditAction {
    /// Begin the composition if none is open, then show this UTF-16
    /// text as the pending composition.
    Update(Vec<u16>),
    /// Finalize the pending text and close the composition.
    Commit,
    /// Discard the pending text and close the composition.
    Cancel,
}

/// Caret position in screen coordinates, reported back by the host's
/// edit surface for the candidate display.
#[derive(Clone, Copy)]
pub struct CaretPos {
    pub x: i32,
    pub y: i32,
    pub height: i32,
}

impl Default for CaretPos {
    /// The origin, with no height.
    fn default() -> (r: Self)
        ensures
            r.x == 0 && r.y == 0 && r.height == 0,
    {
        CaretPos { x: 0, y: 0, height: 0 }
    }
}

} // verus!
