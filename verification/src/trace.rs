//! Limits on the text of log records sent to the ground.

use vstd::prelude::*;

verus! {

/// The most characters of a log name or value that go to the ground.
pub const MAX_STR: usize = 64;

/// The log layer that forwards records to the ground.
pub struct Layer;

/// How many characters of a text are kept: all of them, up to `MAX_STR`.
pub open spec fn spec_kept_chars(s: Seq<char>) -> int {
    if s.len() < MAX_STR {
        s.len() as int
    } else {
        MAX_STR as int
    }
}

/// The cut falls on a character boundary only where the last character kept
/// is a single byte: the cut is made just after that character's first byte.
pub open spec fn spec_cut_on_boundary(s: Seq<char>) -> bool {
    s.len() > 0 ==> (s[spec_kept_chars(s) - 1] as int) < 0x80
}

/// The first `MAX_STR` characters of a text (all of it if it is shorter).
pub fn truncate(s: &str) -> (r: &str)
    requires
        spec_cut_on_boundary(s@),
    ensures
        r@ == s@.take(spec_kept_chars(s@)),
{
    if s.is_empty() {
        proof {
            assert(s@.take(0) =~= s@);
        }
        return s;
    }
    let n = s.unicode_len();
    let end = if n < MAX_STR {
        n
    } else {
        MAX_STR
    };
    s.substring_char(0, end)
}

} // verus!
