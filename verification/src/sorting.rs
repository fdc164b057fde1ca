//! Stable sorting by key.
use vstd::prelude::*;

use crate::types::Ident;

verus! {

/// Lexicographic order of integer sequences.
pub open spec fn lex_less(left: Seq<int>, right: Seq<int>) -> bool
    decreases left.len(),
{
    if right.len() == 0 {
        false
    } else if left.len() == 0 {
        true
    } else if left[0] != right[0] {
        left[0] < right[0]
    } else {
        lex_less(left.drop_first(), right.drop_first())
    }
}

/// Lexicographic order is irreflexive and asymmetric.
pub proof fn lemma_lex_asymmetric(left: Seq<int>, right: Seq<int>)
    ensures
        lex_less(left, right) ==> !lex_less(right, left),
        !lex_less(left, left),
    decreases left.len(),
{
    if left.len() > 0 {
        if right.len() > 0 {
            lemma_lex_asymmetric(left.drop_first(), right.drop_first());
        }
        lemma_lex_asymmetric(left.drop_first(), left.drop_first());
    }
}

/// Lexicographic order is transitive.
pub proof fn lemma_lex_transitive(a: Seq<int>, b: Seq<int>, c: Seq<int>)
    requires
        lex_less(a, b),
        lex_less(b, c),
    ensures
        lex_less(a, c),
    decreases a.len(),
{
    if a.len() > 0 && a[0] == b[0] && b[0] == c[0] {
        lemma_lex_transitive(a.drop_first(), b.drop_first(), c.drop_first());
    }
}

/// Of two different sequences one comes first.
pub proof fn lemma_lex_total(left: Seq<int>, right: Seq<int>)
    requires
        !lex_less(left, right),
        !lex_less(right, left),
    ensures
        left == right,
    decreases left.len(),
{
    if left.len() == 0 {
        assert(right.len() == 0);
        assert(left =~= right);
    } else {
        assert(right.len() > 0);
        assert(left[0] == right[0]);
        lemma_lex_total(left.drop_first(), right.drop_first());
        assert(left =~= seq![left[0]] + left.drop_first());
        assert(right =~= seq![right[0]] + right.drop_first());
    }
}

/// If `a` comes no later than `b` and `b` no later than `c`, then `a` comes no
/// later than `c`.
pub proof fn lemma_lex_chain(a: Seq<int>, b: Seq<int>, c: Seq<int>)
    requires
        !lex_less(b, a),
        !lex_less(c, b),
    ensures
        !lex_less(c, a),
{
    if lex_less(c, a) {
        if lex_less(a, b) {
            lemma_lex_transitive(c, a, b);
        } else {
            lemma_lex_total(a, b);
        }
    }
}

/// The bytes of a text as integers: texts are ordered byte by byte.
pub open spec fn text_key(text: Seq<char>) -> Seq<int> {
    bytes_key(vstd::utf8::encode_utf8(text))
}

/// Bytes as integers.
pub open spec fn bytes_key(bytes: Seq<u8>) -> Seq<int> {
    bytes.map_values(|b: u8| b as int)
}

/// Two texts with the same bytes are the same text.
pub proof fn lemma_text_key_injective(left: Seq<char>, right: Seq<char>)
    requires
        text_key(left) == text_key(right),
    ensures
        left == right,
{
    let l = vstd::utf8::encode_utf8(left);
    let r = vstd::utf8::encode_utf8(right);
    assert(l.len() == bytes_key(l).len());
    assert(r.len() == bytes_key(r).len());
    assert forall|i: int| 0 <= i < l.len() implies l[i] == r[i] by {
        assert(bytes_key(l)[i] == bytes_key(r)[i]);
    }
    assert(l =~= r);
    vstd::utf8::encode_utf8_decode_utf8(left);
    vstd::utf8::encode_utf8_decode_utf8(right);
}

/// Whether one text comes before another, byte by byte.
pub fn text_before(left: &str, right: &str) -> (r: bool)
    ensures
        r == lex_less(text_key(left@), text_key(right@)),
{
    let a = left.as_bytes();
    let b = right.as_bytes();
    let ghost ka = bytes_key(a@);
    let ghost kb = bytes_key(b@);
    let mut i: usize = 0;
    assert(ka.skip(0) =~= ka);
    assert(kb.skip(0) =~= kb);
    while i < a.len() && i < b.len()
        invariant
            i <= a.len(),
            i <= b.len(),
            ka == bytes_key(a@),
            kb == bytes_key(b@),
            ka == text_key(left@),
            kb == text_key(right@),
            lex_less(ka, kb) == lex_less(ka.skip(i as int), kb.skip(i as int)),
        decreases a.len() - i,
    {
        assert(ka.skip(i as int)[0] == a@[i as int] as int);
        assert(kb.skip(i as int)[0] == b@[i as int] as int);
        if a[i] != b[i] {
            return a[i] < b[i];
        }
        proof {
            assert(ka.skip(i as int).drop_first() =~= ka.skip(i + 1));
            assert(kb.skip(i as int).drop_first() =~= kb.skip(i + 1));
        }
        i = i + 1;
    }
    i < b.len()
}

/// A value with a sort key.
pub trait Keyed: Sized {
    /// The key: values are arranged by the lexicographic order of their keys.
    spec fn sort_key(&self) -> Seq<int>;

    /// Whether this value's key is less than the other's.
    fn key_before(&self, other: &Self) -> (r: bool)
        ensures
            r == lex_less(self.sort_key(), other.sort_key()),
    ;
}

impl Keyed for Ident {
    open spec fn sort_key(&self) -> Seq<int> {
        text_key(self@)
    }

    fn key_before(&self, other: &Self) -> (r: bool) {
        text_before(self.text.as_str(), other.text.as_str())
    }
}

impl Keyed for u128 {
    open spec fn sort_key(&self) -> Seq<int> {
        seq![*self as int]
    }

    fn key_before(&self, other: &Self) -> (r: bool) {
        proof {
            lemma_single_key(*self as int, *other as int);
        }
        *self < *other
    }
}

/// One-element keys are ordered by their element.
pub proof fn lemma_single_key(left: int, right: int)
    ensures
        lex_less(seq![left], seq![right]) == (left < right),
{
    reveal_with_fuel(lex_less, 2);
    assert(seq![left].drop_first() =~= Seq::<int>::empty());
    assert(seq![right].drop_first() =~= Seq::<int>::empty());
}

/// Two-element keys are ordered by the first element, then by the second.
pub proof fn lemma_pair_key(a: int, b: int, c: int, d: int)
    ensures
        lex_less(seq![a, b], seq![c, d]) == (a < c || (a == c && b < d)),
{
    reveal_with_fuel(lex_less, 2);
    assert(seq![a, b].drop_first() =~= seq![b]);
    assert(seq![c, d].drop_first() =~= seq![d]);
    lemma_single_key(b, d);
}

/// `items`, assumed arranged, with `item` put behind all items whose key is not
/// greater.
pub open spec fn placed<T: Keyed>(items: Seq<T>, item: T) -> Seq<T>
    decreases items.len(),
{
    if items.len() == 0 {
        seq![item]
    } else if lex_less(item.sort_key(), items.last().sort_key()) {
        placed(items.drop_last(), item).push(items.last())
    } else {
        items.push(item)
    }
}

/// `items` in the order of their keys; items with equal keys stay in the order
/// in which they came.
pub open spec fn arranged<T: Keyed>(items: Seq<T>) -> Seq<T>
    decreases items.len(),
{
    if items.len() == 0 {
        items
    } else {
        placed(arranged(items.drop_last()), items.last())
    }
}

/// Whether the keys never decrease.
pub open spec fn is_arranged<T: Keyed>(items: Seq<T>) -> bool {
    forall|i: int, j: int|
        #![trigger items[i], items[j]]
        0 <= i < j < items.len() ==> !lex_less(items[j].sort_key(), items[i].sort_key())
}

proof fn lemma_placed<T: Keyed>(items: Seq<T>, item: T)
    requires
        is_arranged(items),
    ensures
        is_arranged(placed(items, item)),
        placed(items, item).to_multiset() == items.to_multiset().insert(item),
        placed(items, item).len() == items.len() + 1,
    decreases items.len(),
{
    broadcast use vstd::seq_lib::group_to_multiset_ensures;

    if items.len() == 0 {
        assert(seq![item] =~= Seq::<T>::empty().push(item));
        assert(items =~= Seq::<T>::empty());
    } else if lex_less(item.sort_key(), items.last().sort_key()) {
        let front = items.drop_last();
        let last = items.last();
        assert(is_arranged(front)) by {
            assert forall|i: int, j: int|
                #![trigger front[i], front[j]]
                0 <= i < j < front.len() implies !lex_less(
                front[j].sort_key(),
                front[i].sort_key(),
            ) by {
                assert(front[i] == items[i] && front[j] == items[j]);
            }
        }
        lemma_placed(front, item);
        let inner = placed(front, item);
        assert(items =~= front.push(last));
        assert(placed(items, item).to_multiset() =~= items.to_multiset().insert(item));
        assert forall|k: int| 0 <= k < inner.len() implies !lex_less(
            last.sort_key(),
            (#[trigger] inner[k]).sort_key(),
        ) by {
            assert(inner.to_multiset().count(inner[k]) > 0) by {
                assert(inner.contains(inner[k]));
            }
            if inner[k] != item {
                assert(front.to_multiset().count(inner[k]) > 0);
                assert(front.contains(inner[k]));
                let m = front.index_of(inner[k]);
                assert(items[m] == inner[k]);
                assert(items[items.len() - 1] == last);
            } else {
                lemma_lex_asymmetric(item.sort_key(), last.sort_key());
            }
        }
        let whole = inner.push(last);
        assert forall|i: int, j: int|
            #![trigger whole[i], whole[j]]
            0 <= i < j < whole.len() implies !lex_less(whole[j].sort_key(), whole[i].sort_key()) by {
            if j == whole.len() - 1 {
                assert(whole[i] == inner[i]);
            } else {
                assert(whole[i] == inner[i] && whole[j] == inner[j]);
            }
        }
    } else {
        let whole = items.push(item);
        assert forall|i: int, j: int|
            #![trigger whole[i], whole[j]]
            0 <= i < j < whole.len() implies !lex_less(whole[j].sort_key(), whole[i].sort_key()) by {
            if j == whole.len() - 1 {
                assert(whole[i] == items[i]);
                assert(items.last() == items[items.len() - 1]);
                if i < items.len() - 1 {
                    assert(!lex_less(items.last().sort_key(), items[i].sort_key()));
                } else {
                    lemma_lex_asymmetric(items[i].sort_key(), items[i].sort_key());
                }
                lemma_lex_chain(items[i].sort_key(), items.last().sort_key(), item.sort_key());
            } else {
                assert(whole[i] == items[i] && whole[j] == items[j]);
            }
        }
    }
}

/// Arranging puts the items in key order and neither loses nor adds any.
pub proof fn arranging_sorts<T: Keyed>(items: Seq<T>)
    ensures
        is_arranged(arranged(items)),
        arranged(items).to_multiset() == items.to_multiset(),
        arranged(items).len() == items.len(),
    decreases items.len(),
{
    broadcast use vstd::seq_lib::group_to_multiset_ensures;

    if items.len() > 0 {
        arranging_sorts(items.drop_last());
        lemma_placed(arranged(items.drop_last()), items.last());
        assert(items =~= items.drop_last().push(items.last()));
    }
}

/// Items that are in key order already stay as they are.
pub proof fn arranging_keeps_order<T: Keyed>(items: Seq<T>)
    requires
        is_arranged(items),
    ensures
        arranged(items) == items,
    decreases items.len(),
{
    if items.len() > 0 {
        let front = items.drop_last();
        assert forall|i: int, j: int|
            #![trigger front[i], front[j]]
            0 <= i < j < front.len() implies !lex_less(front[j].sort_key(), front[i].sort_key()) by {
            assert(front[i] == items[i] && front[j] == items[j]);
        }
        arranging_keeps_order(front);
        if front.len() > 0 {
            assert(front.last() == items[items.len() - 2]);
            assert(items.last() == items[items.len() - 1]);
        }
        assert(placed(front, items.last()) =~= items);
    }
}

/// Whether items with the same key are the same item.
pub open spec fn keyed_apart<T: Keyed>(items: Seq<T>) -> bool {
    forall|i: int, j: int|
        #![trigger items[i], items[j]]
        0 <= i < items.len() && 0 <= j < items.len() && items[i].sort_key()
            == items[j].sort_key() ==> items[i] == items[j]
}

/// The order in which items came has no part in their arrangement, where the key
/// tells them apart.
pub proof fn arranging_forgets_order<T: Keyed>(left: Seq<T>, right: Seq<T>)
    requires
        left.to_multiset() == right.to_multiset(),
        keyed_apart(left),
    ensures
        arranged(left) == arranged(right),
{
    broadcast use vstd::seq_lib::group_to_multiset_ensures;

    arranging_sorts(left);
    arranging_sorts(right);
    let a = arranged(left);
    let b = arranged(right);
    assert(a.to_multiset() == b.to_multiset());
    assert forall|i: int, j: int|
        #![trigger a[i], a[j]]
        0 <= i < a.len() && 0 <= j < a.len() && a[i].sort_key() == a[j].sort_key() implies a[i]
        == a[j] by {
        assert(a.contains(a[i]) && a.contains(a[j]));
        assert(a.to_multiset().count(a[i]) > 0 && a.to_multiset().count(a[j]) > 0);
        assert(left.to_multiset().count(a[i]) > 0 && left.to_multiset().count(a[j]) > 0);
        assert(left.contains(a[i]) && left.contains(a[j]));
        let p = choose|p: int| 0 <= p < left.len() && left[p] == a[i];
        let q = choose|q: int| 0 <= q < left.len() && left[q] == a[j];
        assert(left[p].sort_key() == left[q].sort_key());
    }
    lemma_arranged_unique(a, b);
}

proof fn lemma_arranged_unique<T: Keyed>(a: Seq<T>, b: Seq<T>)
    requires
        is_arranged(a),
        is_arranged(b),
        keyed_apart(a),
        a.to_multiset() == b.to_multiset(),
    ensures
        a == b,
    decreases a.len(),
{
    broadcast use vstd::seq_lib::group_to_multiset_ensures;

    assert(a.to_multiset().len() == a.len());
    assert(b.to_multiset().len() == b.len());
    if a.len() == 0 {
        assert(a =~= b);
    } else {
        let x = a.last();
        let y = b.last();
        assert(a.contains(x) && b.contains(y));
        assert(b.to_multiset().count(x) > 0 && a.to_multiset().count(y) > 0);
        assert(b.contains(x) && a.contains(y));
        let p = choose|p: int| 0 <= p < b.len() && b[p] == x;
        let q = choose|q: int| 0 <= q < a.len() && a[q] == y;
        assert(!lex_less(y.sort_key(), x.sort_key())) by {
            if p < b.len() - 1 {
                assert(!lex_less(b[b.len() - 1].sort_key(), b[p].sort_key()));
            } else {
                lemma_lex_asymmetric(x.sort_key(), x.sort_key());
            }
        }
        assert(!lex_less(x.sort_key(), y.sort_key())) by {
            if q < a.len() - 1 {
                assert(!lex_less(a[a.len() - 1].sort_key(), a[q].sort_key()));
            } else {
                lemma_lex_asymmetric(y.sort_key(), y.sort_key());
            }
        }
        lemma_lex_total(x.sort_key(), y.sort_key());
        assert(a[a.len() - 1] == x && a[q] == y);
        assert(x == y);
        let af = a.drop_last();
        let bf = b.drop_last();
        assert(a =~= af.push(x));
        assert(b =~= bf.push(x));
        assert(af.to_multiset() =~= a.to_multiset().remove(x));
        assert(bf.to_multiset() =~= b.to_multiset().remove(x));
        assert forall|i: int, j: int|
            #![trigger af[i], af[j]]
            0 <= i < af.len() && 0 <= j < af.len() && af[i].sort_key()
                == af[j].sort_key() implies af[i] == af[j] by {
            assert(af[i] == a[i] && af[j] == a[j]);
        }
        assert forall|i: int, j: int|
            #![trigger af[i], af[j]]
            0 <= i < j < af.len() implies !lex_less(af[j].sort_key(), af[i].sort_key()) by {
            assert(af[i] == a[i] && af[j] == a[j]);
        }
        assert forall|i: int, j: int|
            #![trigger bf[i], bf[j]]
            0 <= i < j < bf.len() implies !lex_less(bf[j].sort_key(), bf[i].sort_key()) by {
            assert(bf[i] == b[i] && bf[j] == b[j]);
        }
        lemma_arranged_unique(af, bf);
    }
}

/// Sorts a vector by key, keeping items with equal keys in their order.
pub fn arrange<T: Keyed>(items: &mut Vec<T>)
    ensures
        final(items)@ == arranged(old(items)@),
{
    let ghost original = items@;
    let mut sorted: usize = 0;
    assert(original.take(0) =~= Seq::<T>::empty());
    assert(original.skip(0) =~= original);
    assert(items@ =~= arranged(original.take(0)) + original.skip(0));
    proof {
        arranging_sorts(original.take(0));
    }
    while sorted < items.len()
        invariant
            sorted <= items.len(),
            items.len() == original.len(),
            items@ == arranged(original.take(sorted as int)) + original.skip(sorted as int),
            arranged(original.take(sorted as int)).len() == sorted,
        decreases items.len() - sorted,
    {
        let ghost base = arranged(original.take(sorted as int));
        let ghost item = original[sorted as int];
        let ghost rest = original.skip(sorted + 1);
        assert(items@[sorted as int] == item);
        assert(items@ =~= base.push(item) + rest);
        let mut place: usize = sorted;
        assert(base.take(sorted as int) =~= base);
        assert(placed(base, item) =~= placed(base.take(place as int), item) + base.skip(
            place as int,
        ));
        while place > 0 && items[sorted].key_before(&items[place - 1])
            invariant
                place <= sorted < items.len(),
                base.len() == sorted,
                items@ == base.push(item) + rest,
                placed(base, item) == placed(base.take(place as int), item) + base.skip(
                    place as int,
                ),
            decreases place,
        {
            proof {
                let front = base.take(place as int);
                assert(items@[sorted as int] == item);
                assert(items@[place - 1] == base[place - 1]);
                assert(front.last() == base[place - 1]);
                assert(front.drop_last() =~= base.take(place - 1));
                assert(placed(front, item) + base.skip(place as int) =~= placed(
                    base.take(place - 1),
                    item,
                ) + base.skip(place - 1));
            }
            place = place - 1;
        }
        proof {
            let front = base.take(place as int);
            if place > 0 {
                assert(items@[sorted as int] == item);
                assert(items@[place - 1] == base[place - 1]);
                assert(front.last() == base[place - 1]);
            }
            assert(placed(front, item) =~= front.push(item));
            assert(original.take(sorted + 1).drop_last() =~= original.take(sorted as int));
            assert(original.take(sorted + 1).last() == item);
            assert(arranged(original.take(sorted + 1)) == placed(base, item));
            arranging_sorts(original.take(sorted + 1));
        }
        let taken = items.remove(sorted);
        assert(items@ =~= base + rest);
        items.insert(place, taken);
        assert(items@ =~= placed(base, item) + rest);
        sorted = sorted + 1;
    }
    assert(original.take(sorted as int) =~= original);
    assert(original.skip(sorted as int) =~= Seq::<T>::empty());
    assert(items@ =~= arranged(original));
}

/// `items` without those whose text is that of their predecessor.
pub open spec fn without_repeats(items: Seq<Ident>) -> Seq<Ident>
    decreases items.len(),
{
    if items.len() == 0 {
        items
    } else {
        let front = without_repeats(items.drop_last());
        if items.len() > 1 && items[items.len() - 2]@ == items.last()@ {
            front
        } else {
            front.push(items.last())
        }
    }
}

/// Drops each identifier whose text is that of its predecessor.
pub fn drop_repeats(items: &Vec<Ident>) -> (r: Vec<Ident>)
    ensures
        r@ == without_repeats(items@),
{
    let mut r: Vec<Ident> = Vec::new();
    let mut i: usize = 0;
    assert(items@.take(0) =~= Seq::<Ident>::empty());
    while i < items.len()
        invariant
            i <= items.len(),
            r@ == without_repeats(items@.take(i as int)),
        decreases items.len() - i,
    {
        assert(items@.take(i + 1).drop_last() =~= items@.take(i as int));
        assert(items@.take(i + 1).last() == items@[i as int]);
        if i > 0 {
            assert(items@.take(i + 1)[i - 1] == items@[i - 1]);
        }
        let repeated = i > 0 && items[i - 1].same(&items[i]);
        if !repeated {
            r.push(items[i].clone());
        }
        i = i + 1;
    }
    assert(items@.take(i as int) =~= items@);
    r
}

/// `items` without those equal to their predecessor.
pub open spec fn without_equal_neighbours(items: Seq<u128>) -> Seq<u128>
    decreases items.len(),
{
    if items.len() == 0 {
        items
    } else {
        let front = without_equal_neighbours(items.drop_last());
        if items.len() > 1 && items[items.len() - 2] == items.last() {
            front
        } else {
            front.push(items.last())
        }
    }
}

/// Drops each number that equals its predecessor.
pub fn drop_equal_neighbours(items: &Vec<u128>) -> (r: Vec<u128>)
    ensures
        r@ == without_equal_neighbours(items@),
{
    let mut r: Vec<u128> = Vec::new();
    let mut i: usize = 0;
    assert(items@.take(0) =~= Seq::<u128>::empty());
    while i < items.len()
        invariant
            i <= items.len(),
            r@ == without_equal_neighbours(items@.take(i as int)),
        decreases items.len() - i,
    {
        assert(items@.take(i + 1).drop_last() =~= items@.take(i as int));
        assert(items@.take(i + 1).last() == items@[i as int]);
        if i > 0 {
            assert(items@.take(i + 1)[i - 1] == items@[i - 1]);
        }
        if !(i > 0 && items[i - 1] == items[i]) {
            r.push(items[i]);
        }
        i = i + 1;
    }
    assert(items@.take(i as int) =~= items@);
    r
}

} // verus!
