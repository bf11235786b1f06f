//! Facts about declared statement texts.

use vstd::prelude::*;

verus! {

/// `s` holds `t` as a contiguous stretch of characters.
pub open spec fn contains_text(s: Seq<char>, t: Seq<char>) -> bool {
    exists|i: int| 0 <= i && i + t.len() <= s.len() && #[trigger] s.subrange(i, i + t.len()) == t
}

} // verus!
