//! Facts about lists of entities.
use vstd::prelude::*;

verus! {

/// A list that is walked through does not hold the element at hand among those already passed,
/// where nothing occurs twice, and passing it adds that element and no other.
pub(crate) proof fn passing(list: Seq<u64>, i: int)
    requires
        list.no_duplicates(),
        0 <= i < list.len(),
    ensures
        !list.take(i).contains(list[i]),
        forall|entity: u64| #[trigger]
            list.take(i + 1).contains(entity) <==> list.take(i).contains(entity) || entity
                == list[i],
{
    assert(list.take(i + 1) =~= list.take(i).push(list[i]));
    assert forall|entity: u64| #[trigger]
        list.take(i + 1).contains(entity) <==> list.take(i).contains(entity) || entity
            == list[i] by {
        vstd::seq_lib::lemma_seq_contains_after_push(list.take(i), list[i], entity);
    }
    if list.take(i).contains(list[i]) {
        let j = choose|j: int| 0 <= j < i && list.take(i)[j] == list[i];
        assert(list[j] == list[i]);
    }
}

/// A list that an element is added to holds that element and what it held before.
pub(crate) proof fn pushing(list: Seq<u64>, added: u64)
    ensures
        forall|entity: u64| #[trigger]
            list.push(added).contains(entity) <==> list.contains(entity) || entity == added,
        list.no_duplicates() && !list.contains(added) ==> list.push(added).no_duplicates(),
{
    assert forall|entity: u64| #[trigger]
        list.push(added).contains(entity) <==> list.contains(entity) || entity == added by {
        vstd::seq_lib::lemma_seq_contains_after_push(list, added, entity);
    }
    if list.no_duplicates() && !list.contains(added) {
        let grown = list.push(added);
        assert forall|i: int, j: int|
            0 <= i < grown.len() && 0 <= j < grown.len() && i != j implies grown[i] != grown[j] by {
            if i == list.len() {
                assert(list.contains(list[j]));
            }
            if j == list.len() {
                assert(list.contains(list[i]));
            }
        }
    }
}

} // verus!
