//! The order of ids, and lists of ids in that order.

use crate::names::Name;
use vstd::prelude::*;

verus! {

/// `a` comes before `b`, or is `b`: at the first place where the two differ
/// `a` has the character of the lower code point, or `a` has come to its
/// end there.
pub open spec fn at_most(a: Name, b: Name) -> bool
    decreases a.len(),
{
    if a.len() == 0 {
        true
    } else if b.len() == 0 {
        false
    } else if a[0] != b[0] {
        (a[0] as u32) < (b[0] as u32)
    } else {
        at_most(a.drop_first(), b.drop_first())
    }
}

/// No id of the list comes before one that stands earlier in it.
pub open spec fn rising(ids: Seq<String>) -> bool {
    forall|i: int, j: int| 0 <= i < j < ids.len() ==> at_most(ids[i]@, ids[j]@)
}

/// `<[String]>::sort_unstable`: the list afterwards holds what it held
/// before, each id as often as before, in rising order. The order of strings
/// is that of their bytes, which is the order of the code points of their
/// characters.
#[verifier::external_body]
pub(crate) fn sort_ids(ids: &mut Vec<String>)
    ensures
        final(ids)@.to_multiset() == old(ids)@.to_multiset(),
        rising(final(ids)@),
{
    ids.sort_unstable();
}

} // verus!
