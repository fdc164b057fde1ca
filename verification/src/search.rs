//! First matches in sequences.
use vstd::prelude::*;

verus! {

/// Where the first item that passes the test stands.
pub open spec fn first_where<T>(items: Seq<T>, test: spec_fn(T) -> bool) -> Option<int>
    decreases items.len(),
{
    if items.len() == 0 {
        None
    } else {
        match first_where(items.drop_last(), test) {
            Some(position) => Some(position),
            None => if test(items.last()) {
                Some(items.len() - 1)
            } else {
                None
            },
        }
    }
}

/// A position that passes the test after positions that do not is the first.
pub proof fn lemma_first_found<T>(items: Seq<T>, test: spec_fn(T) -> bool, position: int)
    requires
        0 <= position < items.len(),
        test(items[position]),
        forall|j: int| 0 <= j < position ==> !test(#[trigger] items[j]),
    ensures
        first_where(items, test) == Some(position),
    decreases items.len(),
{
    let front = items.drop_last();
    if position == items.len() - 1 {
        assert forall|j: int| 0 <= j < front.len() implies !test(#[trigger] front[j]) by {
            assert(front[j] == items[j]);
        }
        lemma_first_missing(front, test);
    } else {
        assert(front[position] == items[position]);
        assert forall|j: int| 0 <= j < position implies !test(#[trigger] front[j]) by {
            assert(front[j] == items[j]);
        }
        lemma_first_found(front, test, position);
    }
}

/// Where no item passes the test there is no first one.
pub proof fn lemma_first_missing<T>(items: Seq<T>, test: spec_fn(T) -> bool)
    requires
        forall|j: int| 0 <= j < items.len() ==> !test(#[trigger] items[j]),
    ensures
        first_where(items, test) is None,
    decreases items.len(),
{
    if items.len() > 0 {
        let front = items.drop_last();
        assert forall|j: int| 0 <= j < front.len() implies !test(#[trigger] front[j]) by {
            assert(front[j] == items[j]);
        }
        lemma_first_missing(front, test);
        assert(!test(items[items.len() - 1]));
    }
}

/// The first match passes the test, and nothing before it does.
pub proof fn first_match_is_first<T>(items: Seq<T>, test: spec_fn(T) -> bool)
    ensures
        match first_where(items, test) {
            Some(position) => 0 <= position < items.len() && test(items[position]) && forall|j: int|
                0 <= j < position ==> !test(#[trigger] items[j]),
            None => forall|j: int| 0 <= j < items.len() ==> !test(#[trigger] items[j]),
        },
    decreases items.len(),
{
    if items.len() > 0 {
        let front = items.drop_last();
        first_match_is_first(front, test);
        match first_where(front, test) {
            Some(position) => {
                assert(front[position] == items[position]);
                assert forall|j: int| 0 <= j < position implies !test(#[trigger] items[j]) by {
                    assert(front[j] == items[j]);
                }
            },
            None => {
                assert forall|j: int| 0 <= j < items.len() - 1 implies !test(
                    #[trigger] items[j],
                ) by {
                    assert(front[j] == items[j]);
                }
            },
        }
    }
}

} // verus!
