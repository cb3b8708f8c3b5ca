//! Lists of names, and where a name first stands in one.
//!
//! Options, stored values and presets are all found by name. A list may in
//! principle hold a name twice; a lookup always means the first occurrence.

use vstd::prelude::*;

verus! {

/// A name as contracts see it.
pub type Name = Seq<char>;

/// `i` is the first position of `name` in `names`.
pub open spec fn is_first(names: Seq<Name>, name: Name, i: int) -> bool {
    &&& 0 <= i < names.len()
    &&& names[i] == name
    &&& forall|j: int| 0 <= j < i ==> names[j] != name
}

/// `name` stands somewhere in `names`.
pub open spec fn has_name(names: Seq<Name>, name: Name) -> bool {
    exists|i: int| 0 <= i < names.len() && names[i] == name
}

/// The first position of `name` in `names`, if it stands there at all.
pub open spec fn first_index(names: Seq<Name>, name: Name) -> Option<int> {
    if exists|i: int| is_first(names, name, i) {
        Some(choose|i: int| is_first(names, name, i))
    } else {
        None
    }
}

/// No name stands twice in `names`.
pub open spec fn distinct(names: Seq<Name>) -> bool {
    forall|i: int, j: int| 0 <= i < j < names.len() ==> names[i] != names[j]
}

/// A first position is the only first position.
pub proof fn lemma_first_is_unique(names: Seq<Name>, name: Name, i: int)
    requires
        is_first(names, name, i),
    ensures
        first_index(names, name) == Some(i),
{
    let k = choose|k: int| is_first(names, name, k);
    assert(is_first(names, name, k));
    if k < i {
        assert(names[k] == name);
    } else if i < k {
        assert(names[i] == name);
    }
}

/// A name that occurs below `bound` has a first position below `bound`.
proof fn lemma_first_below(names: Seq<Name>, name: Name, bound: int)
    requires
        0 <= bound <= names.len(),
        exists|i: int| 0 <= i < bound && names[i] == name,
    ensures
        exists|i: int| 0 <= i < bound && is_first(names, name, i),
    decreases bound,
{
    let last = bound - 1;
    if exists|i: int| 0 <= i < last && names[i] == name {
        lemma_first_below(names, name, last);
    } else {
        assert(names[last] == name);
        assert(is_first(names, name, last));
    }
}

/// What `first_index` returns: the first position of a name that occurs, and
/// nothing for a name that does not.
pub proof fn lemma_first_index(names: Seq<Name>, name: Name)
    ensures
        match first_index(names, name) {
            Some(i) => is_first(names, name, i),
            None => !has_name(names, name),
        },
        has_name(names, name) <==> first_index(names, name) is Some,
{
    if has_name(names, name) {
        lemma_first_below(names, name, names.len() as int);
    }
    if first_index(names, name) is Some {
        let i = first_index(names, name)->0;
        assert(is_first(names, name, i));
        assert(names[i] == name);
    }
}

/// In a list without repeats every position is the first of its name.
pub proof fn lemma_distinct_first(names: Seq<Name>, i: int)
    requires
        distinct(names),
        0 <= i < names.len(),
    ensures
        first_index(names, names[i]) == Some(i),
{
    assert(is_first(names, names[i], i));
    lemma_first_is_unique(names, names[i], i);
}

} // verus!
