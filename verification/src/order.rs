//! A stable sort by byte-string keys.

use vstd::prelude::*;

verus! {

/// `left` comes before `right` in the lexicographic order of byte strings, or is equal to it.
pub open spec fn not_after(left: Seq<u8>, right: Seq<u8>) -> bool
    decreases left.len(),
{
    ||| left.len() == 0
    ||| {
        &&& right.len() > 0
        &&& left[0] < right[0] || (left[0] == right[0] && not_after(
            left.drop_first(),
            right.drop_first(),
        ))
    }
}

/// What a list can be sorted by.
pub trait Keyed: Sized {
    /// The key: lists are sorted by the lexicographic order of their items' keys.
    spec fn key(&self) -> Seq<u8>;

    /// The key's bytes.
    fn key_bytes(&self) -> (bytes: Vec<u8>)
        ensures
            bytes@ == self.key(),
    ;
}

/// No item's key comes after the key of a later item.
pub open spec fn sorted<T: Keyed>(items: Seq<T>) -> bool {
    forall|i: int, j: int|
        0 <= i <= j < items.len() ==> not_after((#[trigger] items[i]).key(), (#[trigger] items[j]).key())
}

/// The items with one key, in the order in which they stand.
pub open spec fn with_key<T: Keyed>(items: Seq<T>, key: Seq<u8>) -> Seq<T> {
    items.filter(|item: T| item.key() == key)
}

/// `result` holds the items of `items` sorted by their keys, and items with equal keys stand in
/// the order in which they came.
pub open spec fn stably_sorted<T: Keyed>(items: Seq<T>, result: Seq<T>) -> bool {
    &&& sorted(result)
    &&& forall|key: Seq<u8>| #[trigger] with_key(result, key) == with_key(items, key)
}

proof fn lemma_not_after_reflexive(key: Seq<u8>)
    ensures
        not_after(key, key),
    decreases key.len(),
{
    if key.len() > 0 {
        lemma_not_after_reflexive(key.drop_first());
    }
}

proof fn lemma_not_after_total(left: Seq<u8>, right: Seq<u8>)
    ensures
        not_after(left, right) || not_after(right, left),
    decreases left.len(),
{
    if left.len() > 0 && right.len() > 0 {
        lemma_not_after_total(left.drop_first(), right.drop_first());
    }
}

proof fn lemma_not_after_transitive(left: Seq<u8>, middle: Seq<u8>, right: Seq<u8>)
    requires
        not_after(left, middle),
        not_after(middle, right),
    ensures
        not_after(left, right),
    decreases left.len(),
{
    if left.len() > 0 && left[0] == middle[0] && middle[0] == right[0] {
        lemma_not_after_transitive(left.drop_first(), middle.drop_first(), right.drop_first());
    }
}

pub(crate) proof fn lemma_not_after_antisymmetric(left: Seq<u8>, right: Seq<u8>)
    requires
        not_after(left, right),
        not_after(right, left),
    ensures
        left == right,
    decreases left.len(),
{
    if left.len() > 0 {
        lemma_not_after_antisymmetric(left.drop_first(), right.drop_first());
        assert(left =~= seq![left[0]] + left.drop_first());
        assert(right =~= seq![right[0]] + right.drop_first());
    } else {
        assert(left =~= right);
    }
}

/// Whether `left` comes no later than `right` in the lexicographic order.
pub fn in_order(left: &Vec<u8>, right: &Vec<u8>) -> (ordered: bool)
    ensures
        ordered == not_after(left@, right@),
{
    let mut at: usize = 0;
    assert(left@.skip(0) == left@ && right@.skip(0) == right@);
    while at < left.len() && at < right.len() && left[at] == right[at]
        invariant
            at <= left@.len(),
            at <= right@.len(),
            not_after(left@, right@) == not_after(left@.skip(at as int), right@.skip(at as int)),
        decreases left@.len() - at,
    {
        assert(left@.skip(at as int).drop_first() == left@.skip(at + 1));
        assert(right@.skip(at as int).drop_first() == right@.skip(at + 1));
        at += 1;
    }
    at == left.len() || (at < right.len() && left[at] < right[at])
}

proof fn lemma_insert_keeps_sorted<T: Keyed>(items: Seq<T>, at: int, item: T)
    requires
        sorted(items),
        0 <= at <= items.len(),
        forall|i: int| 0 <= i < at ==> not_after((#[trigger] items[i]).key(), item.key()),
        at < items.len() ==> !not_after(items[at].key(), item.key()),
    ensures
        sorted(items.insert(at, item)),
        forall|key: Seq<u8>| #[trigger]
            with_key(items.insert(at, item), key) == with_key(items.push(item), key),
{
    let result = items.insert(at, item);
    assert forall|i: int, j: int| 0 <= i <= j < result.len() implies not_after(
        (#[trigger] result[i]).key(),
        (#[trigger] result[j]).key(),
    ) by {
        lemma_not_after_reflexive(item.key());
        let old_i = if i < at { i } else { i - 1 };
        let old_j = if j < at { j } else { j - 1 };
        if i != at && j != at {
            assert(result[i] == items[old_i] && result[j] == items[old_j]);
        } else if i == at && j > at {
            lemma_not_after_total(items[at].key(), item.key());
            assert(not_after(items[at].key(), items[old_j].key()));
            lemma_not_after_transitive(item.key(), items[at].key(), items[old_j].key());
        }
    }
    assert forall|key: Seq<u8>| #[trigger]
        with_key(items.insert(at, item), key) == with_key(items.push(item), key) by {
        let has_key = |other: T| other.key() == key;
        let before = items.take(at);
        let after = items.skip(at);
        assert(items == before + after);
        assert(result == before.push(item) + after);
        Seq::filter_distributes_over_add(before, after, has_key);
        Seq::filter_distributes_over_add(before.push(item), after, has_key);
        before.lemma_filter_push(item, has_key);
        items.lemma_filter_push(item, has_key);
        if key == item.key() {
            assert forall|i: int| 0 <= i < after.len() implies !has_key(#[trigger] after[i]) by {
                assert(not_after(items[at].key(), items[at + i].key()));
                if items[at + i].key() == item.key() {
                    lemma_not_after_transitive(items[at].key(), items[at + i].key(), item.key());
                }
            }
            lemma_none_selected(after, has_key);
            assert(with_key(result, key) == before.filter(has_key).push(item));
        }
        assert(with_key(result, key) == result.filter(has_key));
        assert(with_key(items.push(item), key) == items.push(item).filter(has_key));
    }
}

proof fn lemma_none_selected<T>(items: Seq<T>, wanted: spec_fn(T) -> bool)
    requires
        forall|i: int| 0 <= i < items.len() ==> !wanted(#[trigger] items[i]),
    ensures
        items.filter(wanted) == Seq::<T>::empty(),
    decreases items.len(),
{
    reveal(Seq::filter);
    if items.len() > 0 {
        let shorter = items.drop_last();
        assert forall|i: int| 0 <= i < shorter.len() implies !wanted(#[trigger] shorter[i]) by {
            assert(shorter[i] == items[i]);
        }
        lemma_none_selected(shorter, wanted);
    }
}

/// The items sorted by their keys; items with equal keys keep their order.
pub fn sort<T: Keyed>(items: Vec<T>) -> (result: Vec<T>)
    ensures
        stably_sorted(items@, result@),
{
    let ghost all = items@;
    let mut rest = items;
    let mut result: Vec<T> = Vec::new();
    let ghost mut taken: int = 0;
    assert(all.take(0) == Seq::<T>::empty());
    assert(all.skip(0) == all);
    while rest.len() > 0
        invariant
            0 <= taken <= all.len(),
            rest@ == all.skip(taken),
            stably_sorted(all.take(taken), result@),
        decreases rest@.len(),
    {
        let item = rest.remove(0);
        let key = item.key_bytes();
        let mut at: usize = 0;
        while at < result.len() && in_order(&result[at].key_bytes(), &key)
            invariant
                at <= result@.len(),
                key@ == item.key(),
                forall|i: int| 0 <= i < at ==> not_after((#[trigger] result@[i]).key(), item.key()),
            decreases result@.len() - at,
        {
            at += 1;
        }
        let ghost before = result@;
        result.insert(at, item);
        proof {
            lemma_insert_keeps_sorted(before, at as int, item);
            assert(all.take(taken + 1) == all.take(taken).push(item));
            assert forall|key: Seq<u8>| #[trigger]
                with_key(result@, key) == with_key(all.take(taken + 1), key) by {
                let has_key = |other: T| other.key() == key;
                before.lemma_filter_push(item, has_key);
                all.take(taken).lemma_filter_push(item, has_key);
                assert(with_key(before, key) == with_key(all.take(taken), key));
                assert(with_key(before.push(item), key) == with_key(all.take(taken).push(item), key));
            }
            taken = taken + 1;
            assert(rest@ == all.skip(taken));
        }
    }
    assert(all.take(taken) == all);
    result
}

/// The order of byte strings: a string comes before what it begins, and of two strings that differ
/// the one with the smaller byte at the first difference comes first, and only that one.
pub proof fn bytes_are_ordered_as_in_a_dictionary(
    common: Seq<u8>,
    smaller: u8,
    greater: u8,
    left: Seq<u8>,
    right: Seq<u8>,
)
    requires
        smaller < greater,
    ensures
        not_after(common, common + left),
        left.len() > 0 ==> !not_after(common + left, common),
        not_after(common.push(smaller) + left, common.push(greater) + right),
        !not_after(common.push(greater) + right, common.push(smaller) + left),
    decreases common.len(),
{
    if common.len() > 0 {
        let rest = common.drop_first();
        bytes_are_ordered_as_in_a_dictionary(rest, smaller, greater, left, right);
        assert((common + left).drop_first() =~= rest + left);
        assert((common.push(smaller) + left).drop_first() =~= rest.push(smaller) + left);
        assert((common.push(greater) + right).drop_first() =~= rest.push(greater) + right);
    } else {
        assert(common + left =~= left);
    }
}

/// Sorting keeps the items, each as often as it came, puts them in the order of their keys, and
/// leaves those with the same key in the order in which they came.
pub proof fn sorting_keeps_the_items<T: Keyed>(items: Vec<T>, result: Vec<T>, key: Seq<u8>)
    requires
        call_ensures(sort::<T>, (items,), result),
    ensures
        forall|i: int, j: int|
            0 <= i < j < result@.len() ==> not_after(
                (#[trigger] result@[i]).key(),
                (#[trigger] result@[j]).key(),
            ),
        result@.to_multiset() == items@.to_multiset(),
        with_key(result@, key) == with_key(items@, key),
{
    lemma_sorted_items(items@, result@);
}

pub(crate) proof fn lemma_sorted_items<T: Keyed>(items: Seq<T>, result: Seq<T>)
    requires
        stably_sorted(items, result),
    ensures
        result.to_multiset() == items.to_multiset(),
        result.len() == items.len(),
        forall|item: T| #[trigger] result.contains(item) <==> items.contains(item),
{
    broadcast use vstd::seq_lib::group_to_multiset_ensures;

    assert forall|item: T| result.to_multiset().count(item) == items.to_multiset().count(
        item,
    ) by {
        lemma_count_with_key(result, item);
        lemma_count_with_key(items, item);
        assert(with_key(result, item.key()) == with_key(items, item.key()));
    }
    assert(result.to_multiset() =~= items.to_multiset());
    result.to_multiset_ensures();
    items.to_multiset_ensures();
    assert forall|item: T| #[trigger] result.contains(item) <==> items.contains(item) by {
        assert(result.contains(item) <==> result.to_multiset().count(item) > 0);
        assert(items.contains(item) <==> items.to_multiset().count(item) > 0);
    }
}

proof fn lemma_count_with_key<T: Keyed>(items: Seq<T>, item: T)
    ensures
        with_key(items, item.key()).to_multiset().count(item) == items.to_multiset().count(item),
    decreases items.len(),
{
    broadcast use vstd::seq_lib::group_to_multiset_ensures;

    reveal(Seq::filter);
    if items.len() > 0 {
        let rest = items.drop_last();
        lemma_count_with_key(rest, item);
        assert(rest.push(items.last()) =~= items);
    }
}

pub(crate) proof fn lemma_filter_map_keeps<A, B>(
    items: Seq<A>,
    to: spec_fn(A) -> Option<B>,
    at: int,
)
    requires
        0 <= at < items.len(),
        to(items[at]) is Some,
    ensures
        items.filter_map(to).contains(to(items[at])->Some_0),
    decreases items.len(),
{
    let rest = items.drop_last();
    let kept = rest.filter_map(to);
    let all = items.filter_map(to);
    if at < rest.len() {
        lemma_filter_map_keeps(rest, to, at);
        let value = to(items[at])->Some_0;
        let k = choose|k: int| 0 <= k < kept.len() && kept[k] == value;
        assert(all[k] == value);
    } else {
        assert(all[kept.len() as int] == to(items[at])->Some_0);
    }
}

} // verus!
