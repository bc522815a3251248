//! The first item of a sequence of which something holds.

use vstd::prelude::*;

verus! {

/// `holds` is true of the item at `index` and of no item before it.
pub open spec fn is_first<A>(items: Seq<A>, holds: spec_fn(A) -> bool, index: int) -> bool {
    &&& 0 <= index < items.len()
    &&& holds(items[index])
    &&& forall|j: int| 0 <= j < index ==> !#[trigger] holds(items[j])
}

/// The index of the first item of which `holds` is true, if there is one.
pub open spec fn first<A>(items: Seq<A>, holds: spec_fn(A) -> bool) -> Option<int> {
    if exists|index: int| is_first(items, holds, index) {
        Some(choose|index: int| is_first(items, holds, index))
    } else {
        None
    }
}

/// The first item is found where `holds` is true for the first time.
pub proof fn lemma_first_is<A>(items: Seq<A>, holds: spec_fn(A) -> bool, index: int)
    requires
        is_first(items, holds, index),
    ensures
        first(items, holds) == Some(index),
{
    let chosen = choose|index: int| is_first(items, holds, index);
    if chosen < index {
        assert(!holds(items[chosen]));
    }
    if index < chosen {
        assert(!holds(items[index]));
    }
}

/// There is no first item where `holds` is true of none.
pub proof fn lemma_first_is_none<A>(items: Seq<A>, holds: spec_fn(A) -> bool)
    requires
        forall|j: int| 0 <= j < items.len() ==> !#[trigger] holds(items[j]),
    ensures
        first(items, holds) is None,
{
    if exists|index: int| is_first(items, holds, index) {
        let index = choose|index: int| is_first(items, holds, index);
        assert(!holds(items[index]));
    }
}

} // verus!
