use vstd::prelude::*;
use vstd::string::*;

verus! {

/// Caret position one character before `idx`, not below the start.
pub fn prev_grapheme(_s: &str, idx: usize) -> (r: usize)
    ensures
        r == if idx == 0 { 0 } else { idx - 1 },
{
    if idx == 0 { 0 } else { idx - 1 }
}

/// Caret position one character after `idx`, not past the end of `s`.
pub fn next_grapheme(s: &str, idx: usize) -> (r: usize)
    ensures
        r == if idx + 1 < s@.len() { idx + 1 } else { s@.len() as int },
{
    let n = s.unicode_len();
    if idx < n { idx + 1 } else { n }
}

} // verus!
