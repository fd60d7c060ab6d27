//! The whitelist as a list: what adding and removing an entry make of it, and
//! that they are insertion into and deletion from the set of its entries.

use vstd::prelude::*;

verus! {

/// The test that an entry passes when it is not `entry`.
pub open spec fn other_than<A>(entry: A) -> spec_fn(A) -> bool {
    |other: A| other != entry
}

/// The list with `entry` on it: appended if it was absent, the list itself if
/// it was there.
pub open spec fn spec_with<A>(list: Seq<A>, entry: A) -> Seq<A> {
    if list.contains(entry) {
        list
    } else {
        list.push(entry)
    }
}

/// The list without any entry equal to `entry`, the others in their order.
pub open spec fn spec_without<A>(list: Seq<A>, entry: A) -> Seq<A> {
    list.filter(other_than(entry))
}

/// A filter that every entry passes keeps the list as it is.
proof fn lemma_filter_keeps_all<A>(list: Seq<A>, pred: spec_fn(A) -> bool)
    requires
        forall|i: int| 0 <= i < list.len() ==> pred(#[trigger] list[i]),
    ensures
        list.filter(pred) == list,
    decreases list.len(),
{
    reveal(Seq::filter);
    if list.len() > 0 {
        lemma_filter_keeps_all(list.drop_last(), pred);
        assert(list.drop_last().push(list.last()) =~= list);
    }
}

/// Filtering a list without repetitions leaves no repetition.
proof fn lemma_filter_keeps_no_duplicates<A>(list: Seq<A>, pred: spec_fn(A) -> bool)
    requires
        list.no_duplicates(),
    ensures
        list.filter(pred).no_duplicates(),
    decreases list.len(),
{
    reveal(Seq::filter);
    if list.len() > 0 {
        let rest = list.drop_last();
        let last = list.last();
        lemma_filter_keeps_no_duplicates(rest, pred);
        if pred(last) {
            let kept = rest.filter(pred);
            assert forall|i: int| 0 <= i < kept.len() implies kept[i] != last by {
                rest.lemma_filter_contains_rev(pred, kept[i]);
                let j = choose|j: int| 0 <= j < rest.len() && rest[j] == kept[i];
                assert(list[j] == kept[i]);
            }
        }
    }
}

/// Adding is insertion: the entry is on the list afterwards, the set of
/// entries has grown by it and by nothing else, and a list without
/// repetitions stays so.
pub proof fn lemma_with_inserts<A>(list: Seq<A>, entry: A)
    ensures
        spec_with(list, entry).contains(entry),
        spec_with(list, entry).to_set() == list.to_set().insert(entry),
        list.no_duplicates() ==> spec_with(list, entry).no_duplicates(),
{
    if !list.contains(entry) {
        assert(list.push(entry)[list.len() as int] == entry);
    }
    list.lemma_push_to_set_commute(entry);
    assert(spec_with(list, entry).to_set() =~= list.to_set().insert(entry));
}

/// Removing is deletion: the entry is not on the list afterwards, the set of
/// entries has lost it and nothing else, and a list without repetitions stays
/// so.
pub proof fn lemma_without_deletes<A>(list: Seq<A>, entry: A)
    ensures
        !spec_without(list, entry).contains(entry),
        spec_without(list, entry).to_set() == list.to_set().remove(entry),
        list.no_duplicates() ==> spec_without(list, entry).no_duplicates(),
{
    let kept = list.filter(other_than(entry));
    assert forall|a: A| kept.contains(a) <==> list.contains(a) && a != entry by {
        if kept.contains(a) {
            list.lemma_filter_contains_rev(other_than(entry), a);
            let i = choose|i: int| 0 <= i < kept.len() && kept[i] == a;
            list.lemma_filter_pred(other_than(entry), i);
        }
        if list.contains(a) && a != entry {
            let i = choose|i: int| 0 <= i < list.len() && list[i] == a;
            list.lemma_filter_contains(other_than(entry), i);
        }
    }
    assert(kept.to_set() =~= list.to_set().remove(entry));
    if list.no_duplicates() {
        lemma_filter_keeps_no_duplicates(list, other_than(entry));
    }
}

/// Adding an entry a second time leaves the list as the first addition left
/// it.
pub proof fn lemma_with_twice<A>(list: Seq<A>, entry: A)
    ensures
        spec_with(spec_with(list, entry), entry) == spec_with(list, entry),
{
    lemma_with_inserts(list, entry);
}

/// Removing an entry that is not on the list leaves the list as it is.
pub proof fn lemma_without_absent<A>(list: Seq<A>, entry: A)
    requires
        !list.contains(entry),
    ensures
        spec_without(list, entry) == list,
{
    lemma_filter_keeps_all(list, other_than(entry));
}

} // verus!
