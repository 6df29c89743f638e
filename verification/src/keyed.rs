//! Lists whose entries are found by a name.

use crate::text;
use vstd::prelude::*;
use vstd::string::*;

verus! {

/// An entry with a name.
pub trait Keyed {
    spec fn key(&self) -> Seq<char>;

    fn key_text(&self) -> (r: &str)
        ensures
            r@ == self.key(),
    ;
}

/// Index of the first entry of a name, or the number of entries.
pub open spec fn index_of<T: Keyed>(items: Seq<T>, id: Seq<char>) -> int
    decreases items.len(),
{
    if items.len() == 0 || items[0].key() == id {
        0
    } else {
        1 + index_of(items.skip(1), id)
    }
}

/// No two entries have the same name.
pub open spec fn distinct<T: Keyed>(items: Seq<T>) -> bool {
    forall|i: int, j: int|
        0 <= i < j < items.len() ==> (#[trigger] items[i]).key() != (#[trigger] items[j]).key()
}

/// An index with the entry of the name, and no such entry before it, is the index.
pub proof fn lemma_index_is<T: Keyed>(items: Seq<T>, id: Seq<char>, i: int)
    requires
        0 <= i <= items.len(),
        forall|k: int| 0 <= k < i ==> (#[trigger] items[k]).key() != id,
        i < items.len() ==> items[i].key() == id,
    ensures
        index_of(items, id) == i,
    decreases items.len(),
{
    if items.len() > 0 && i > 0 {
        assert forall|k: int| 0 <= k < i - 1 implies (#[trigger] items.skip(1)[k]).key() != id by {
            assert(items.skip(1)[k] == items[k + 1]);
        }
        assert(items[0].key() != id);
        lemma_index_is(items.skip(1), id, i - 1);
    }
}

/// What is known of the index.
pub proof fn lemma_index<T: Keyed>(items: Seq<T>, id: Seq<char>)
    ensures
        0 <= index_of(items, id) <= items.len(),
        forall|k: int| 0 <= k < index_of(items, id) ==> (#[trigger] items[k]).key() != id,
        index_of(items, id) < items.len() ==> items[index_of(items, id)].key() == id,
    decreases items.len(),
{
    if items.len() > 0 && items[0].key() != id {
        lemma_index(items.skip(1), id);
        assert forall|k: int| 0 <= k < index_of(items, id) implies (#[trigger] items[k]).key()
            != id by {
            if k > 0 {
                assert(items.skip(1)[k - 1] == items[k]);
            }
        }
    }
}

/// Finds the first entry of a name.
pub fn find<T: Keyed>(items: &Vec<T>, id: &str) -> (r: usize)
    ensures
        r == index_of(items@, id@),
        r <= items@.len(),
{
    let mut i: usize = 0;
    while i < items.len() && !text::same(items[i].key_text(), id)
        invariant
            i <= items@.len(),
            forall|k: int| 0 <= k < i ==> (#[trigger] items@[k]).key() != id@,
        decreases items@.len() - i,
    {
        i = i + 1;
    }
    proof {
        lemma_index_is(items@, id@, i as int);
    }
    i
}

/// Without the entry of a name, names stay distinct, and the name is gone.
pub proof fn lemma_removed<T: Keyed>(items: Seq<T>, id: Seq<char>)
    requires
        distinct(items),
        index_of(items, id) < items.len(),
    ensures
        distinct(items.remove(index_of(items, id))),
        index_of(items.remove(index_of(items, id)), id) == items.len() - 1,
{
    lemma_index(items, id);
    let i = index_of(items, id);
    let rest = items.remove(i);
    assert forall|a: int, b: int| 0 <= a < b < rest.len() implies (#[trigger] rest[a]).key() != (
    #[trigger] rest[b]).key() by {
        let x = if a < i {
            a
        } else {
            a + 1
        };
        let y = if b < i {
            b
        } else {
            b + 1
        };
        assert(items[x].key() != items[y].key());
    }
    assert forall|k: int| 0 <= k < rest.len() implies (#[trigger] rest[k]).key() != id by {
        if k < i {
            assert(items[k].key() != items[i].key());
        } else {
            assert(items[i].key() != items[k + 1].key());
        }
    }
    lemma_index_is(rest, id, rest.len() as int);
}

} // verus!
