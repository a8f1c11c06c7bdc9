//! Small string helpers the engine is built on: character-exact equality and
//! `/`-joined path and name building.

use vstd::prelude::*;
use vstd::string::{StrSliceExecFns, StringExecFns};

verus! {

/// Character-by-character string equality.
pub fn str_eq(a: &str, b: &str) -> (r: bool)
    ensures
        r == (a@ == b@),
{
    let na = a.unicode_len();
    let nb = b.unicode_len();
    if na != nb {
        return false;
    }
    let mut i: usize = 0;
    while i < na
        invariant
            0 <= i <= na,
            na == a@.len(),
            na == b@.len(),
            forall|j: int| 0 <= j < i ==> a@[j] == b@[j],
        decreases na - i,
    {
        if a.get_char(i) != b.get_char(i) {
            return false;
        }
        i = i + 1;
    }
    proof {
        assert(a@ =~= b@);
    }
    true
}

/// Joins two path or name components with a single `/`, as in
/// `owner/repo` or `root/owner`.
pub fn slash_join(base: &str, leaf: &str) -> (r: String)
    ensures
        r@ == base@ + "/"@ + leaf@,
{
    let mut s = base.to_owned();
    s.append("/");
    s.append(leaf);
    proof {
        assert(s@ =~= base@ + "/"@ + leaf@);
    }
    s
}

} // verus!
