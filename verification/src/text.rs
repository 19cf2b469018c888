//! Small operations on string slices, counted in characters.

use vstd::prelude::*;
use vstd::string::*;

verus! {

/// The part of `s` from the character at `from` on.
pub(crate) fn rest_from(s: &str, from: usize) -> (rest: &str)
    requires
        from <= s@.len(),
    ensures
        rest@ == s@.skip(from as int),
{
    let n: usize = s.unicode_len();
    let rest = s.substring_char(from, n);
    assert(s@.subrange(from as int, n as int) =~= s@.skip(from as int));
    rest
}

/// The first `count` characters of `s`.
pub(crate) fn start_of(s: &str, count: usize) -> (start: &str)
    requires
        count <= s@.len(),
    ensures
        start@ == s@.take(count as int),
{
    let start = s.substring_char(0, count);
    assert(s@.subrange(0, count as int) =~= s@.take(count as int));
    start
}

} // verus!
