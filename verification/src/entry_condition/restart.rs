//! Evaluations that go on where an earlier one left off.
//!
//! An evaluation persists the folds of its crypto leaves. A later one that
//! starts from them and reads on behind the last folded report comes to what an
//! uninterrupted replay of all reports comes to.
use vstd::prelude::*;

use crate::entry_condition::fold::{
    folded, leaf_position, leaf_unlatched, lemma_identity_kept, restart_equals_replay,
    starting_fold, stored,
};
use crate::entry_condition::leaves::{crypto_input, crypto_leaf};
use crate::entry_condition::model::{
    CryptoEnteredFoldState, CryptoInputView, CryptoPriceInput, CryptoPriceReportInput,
    CryptoSubjectPredicateEntered, EntryConditionArtifactV1, EntryConditionInputSet,
    EntryConditionV1, EvidenceView, MarketEventCondition,
};
use crate::entry_condition::tree::{
    composite_node, continuity_of, continuity_of_all, evaluated, evaluated_children, evaluation,
    flattened, flattened_all, joined_truth, CompositeKind, NodeView,
};
use crate::search::{first_match_is_first, first_where};
use crate::sorting::{arranged, lemma_single_key, placed};

verus! {

/// The persisted fold of a leaf.
pub open spec fn fold_of(
    states: Seq<CryptoEnteredFoldState>,
    node_id: u16,
) -> Option<CryptoEnteredFoldState> {
    match leaf_position(states, node_id) {
        Some(position) => Some(states[position]),
        None => None,
    }
}

/// A leaf's position lies among the folds and holds the leaf.
proof fn lemma_position(states: Seq<CryptoEnteredFoldState>, node_id: u16)
    ensures
        match leaf_position(states, node_id) {
            Some(position) => 0 <= position < states.len() && states[position].node_id == node_id,
            None => forall|i: int| 0 <= i < states.len() ==> (#[trigger] states[i]).node_id
                != node_id,
        },
{
    let test = |state: CryptoEnteredFoldState| state.node_id == node_id;
    first_match_is_first(states, test);
    if leaf_position(states, node_id) is None {
        assert forall|i: int| 0 <= i < states.len() implies (#[trigger] states[i]).node_id
            != node_id by {
            assert(!test(states[i]));
        }
    }
}

/// A fold added at the end is found where no earlier one is.
proof fn lemma_added(
    states: Seq<CryptoEnteredFoldState>,
    state: CryptoEnteredFoldState,
    node_id: u16,
)
    ensures
        leaf_position(states.push(state), node_id) == (match leaf_position(states, node_id) {
            Some(position) => Some(position),
            None => if state.node_id == node_id {
                Some(states.len() as int)
            } else {
                None
            },
        }),
        fold_of(states.push(state), node_id) == (match fold_of(states, node_id) {
            Some(found) => Some(found),
            None => if state.node_id == node_id {
                Some(state)
            } else {
                None
            },
        }),
{
    assert(states.push(state).drop_last() =~= states);
    lemma_position(states, node_id);
}

/// Where a leaf stands depends on the node numbers alone.
proof fn lemma_same_numbers(
    left: Seq<CryptoEnteredFoldState>,
    right: Seq<CryptoEnteredFoldState>,
    node_id: u16,
)
    requires
        left.len() == right.len(),
        forall|i: int| 0 <= i < left.len() ==> (#[trigger] left[i]).node_id == right[i].node_id,
    ensures
        leaf_position(left, node_id) == leaf_position(right, node_id),
    decreases left.len(),
{
    if left.len() > 0 {
        let l = left.drop_last();
        let r = right.drop_last();
        assert forall|i: int| 0 <= i < l.len() implies (#[trigger] l[i]).node_id
            == r[i].node_id by {
            assert(l[i] == left[i]);
        }
        lemma_same_numbers(l, r, node_id);
        assert(left.last() == left[left.len() - 1]);
    }
}

/// Placing a fold among others finds it where no other one of its leaf is.
proof fn lemma_placed_fold(
    states: Seq<CryptoEnteredFoldState>,
    state: CryptoEnteredFoldState,
    node_id: u16,
)
    ensures
        fold_of(placed(states, state), node_id) == (match fold_of(states, node_id) {
            Some(found) => Some(found),
            None => if state.node_id == node_id {
                Some(state)
            } else {
                None
            },
        }),
    decreases states.len(),
{
    if states.len() == 0 {
        assert(seq![state] =~= states.push(state));
        lemma_added(states, state, node_id);
    } else {
        let front = states.drop_last();
        let last = states.last();
        lemma_single_key(state.node_id as int, last.node_id as int);
        if state.node_id < last.node_id {
            lemma_placed_fold(front, state, node_id);
            lemma_added(placed(front, state), last, node_id);
            assert(states =~= front.push(last));
            lemma_added(front, last, node_id);
        } else {
            lemma_added(states, state, node_id);
        }
    }
}

/// Arranging folds leaves every leaf its fold.
proof fn lemma_arranged_fold(states: Seq<CryptoEnteredFoldState>, node_id: u16)
    ensures
        fold_of(arranged(states), node_id) == fold_of(states, node_id),
    decreases states.len(),
{
    if states.len() > 0 {
        let front = states.drop_last();
        lemma_arranged_fold(front, node_id);
        lemma_placed_fold(arranged(front), states.last(), node_id);
        assert(states =~= front.push(states.last()));
        lemma_added(front, states.last(), node_id);
    }
}

/// Storing a leaf's fold changes that leaf's fold and no other.
proof fn lemma_stored_fold(
    states: Seq<CryptoEnteredFoldState>,
    node_id: u16,
    state: CryptoEnteredFoldState,
    other: u16,
)
    requires
        state.node_id == node_id,
    ensures
        fold_of(stored(states, node_id, state), other) == (if other == node_id {
            Some(state)
        } else {
            fold_of(states, other)
        }),
{
    lemma_position(states, node_id);
    lemma_position(states, other);
    match leaf_position(states, node_id) {
        Some(position) => {
            lemma_same_numbers(states, states.update(position, state), other);
        },
        None => {
            lemma_arranged_fold(states.push(state), other);
            lemma_added(states, state, other);
        },
    }
}

/// Taking a leaf's latch away changes that leaf's fold and no other.
proof fn lemma_unlatched_fold(
    states: Seq<CryptoEnteredFoldState>,
    node_id: u16,
    other: u16,
)
    ensures
        fold_of(leaf_unlatched(states, node_id), other) == (if other == node_id {
            match fold_of(states, node_id) {
                Some(state) => Some(state.unlatched()),
                None => None,
            }
        } else {
            fold_of(states, other)
        }),
{
    lemma_position(states, node_id);
    lemma_position(states, other);
    if let Some(position) = leaf_position(states, node_id) {
        lemma_same_numbers(
            states,
            states.update(position, states[position].unlatched()),
            other,
        );
    }
}

/// Whether two lists of folds have the same leaves in the same order and differ
/// at most in the fold that each leaf is found with.
spec fn alike(left: Seq<CryptoEnteredFoldState>, right: Seq<CryptoEnteredFoldState>) -> bool {
    &&& left.len() == right.len()
    &&& forall|i: int|
        0 <= i < left.len() ==> (#[trigger] left[i]).node_id == right[i].node_id && (left[i]
            == right[i] || leaf_position(left, left[i].node_id) == Some(i))
}

proof fn lemma_alike_positions(
    left: Seq<CryptoEnteredFoldState>,
    right: Seq<CryptoEnteredFoldState>,
    node_id: u16,
)
    requires
        alike(left, right),
    ensures
        leaf_position(left, node_id) == leaf_position(right, node_id),
{
    lemma_same_numbers(left, right, node_id);
}

proof fn lemma_alike_through(
    left: Seq<CryptoEnteredFoldState>,
    middle: Seq<CryptoEnteredFoldState>,
    right: Seq<CryptoEnteredFoldState>,
)
    requires
        alike(left, middle),
        alike(middle, right),
    ensures
        alike(left, right),
        alike(right, left),
{
    assert forall|i: int| 0 <= i < left.len() implies (#[trigger] left[i]).node_id
        == right[i].node_id && (left[i] == right[i] || leaf_position(left, left[i].node_id)
        == Some(i)) by {
        assert(middle[i].node_id == right[i].node_id);
        lemma_alike_positions(left, middle, left[i].node_id);
    }
    assert forall|i: int| 0 <= i < right.len() implies (#[trigger] right[i]).node_id
        == left[i].node_id && (right[i] == left[i] || leaf_position(right, right[i].node_id)
        == Some(i)) by {
        assert(left[i].node_id == right[i].node_id);
        lemma_alike_positions(left, right, left[i].node_id);
    }
}

proof fn lemma_alike_added(
    left: Seq<CryptoEnteredFoldState>,
    right: Seq<CryptoEnteredFoldState>,
    one: CryptoEnteredFoldState,
    other: CryptoEnteredFoldState,
)
    requires
        alike(left, right),
        one.node_id == other.node_id,
        one == other || fold_of(left, one.node_id) is None,
    ensures
        alike(left.push(one), right.push(other)),
{
    let l = left.push(one);
    let r = right.push(other);
    assert forall|i: int| 0 <= i < l.len() implies (#[trigger] l[i]).node_id == r[i].node_id && (
    l[i] == r[i] || leaf_position(l, l[i].node_id) == Some(i)) by {
        lemma_added(left, one, l[i].node_id);
        if i < left.len() {
            assert(l[i] == left[i] && r[i] == right[i]);
        }
    }
}

proof fn lemma_alike_placed(
    left: Seq<CryptoEnteredFoldState>,
    right: Seq<CryptoEnteredFoldState>,
    one: CryptoEnteredFoldState,
    other: CryptoEnteredFoldState,
)
    requires
        alike(left, right),
        one.node_id == other.node_id,
        one == other || fold_of(left, one.node_id) is None,
    ensures
        alike(placed(left, one), placed(right, other)),
    decreases left.len(),
{
    if left.len() == 0 {
        lemma_alike_added(left, right, one, other);
        assert(seq![one] =~= left.push(one));
        assert(seq![other] =~= right.push(other));
    } else {
        let last = left.last();
        assert(last == left[left.len() - 1]);
        assert(right.last() == right[right.len() - 1]);
        lemma_single_key(one.node_id as int, last.node_id as int);
        lemma_single_key(other.node_id as int, right.last().node_id as int);
        if one.node_id < last.node_id {
            lemma_alike_front(left, right);
            lemma_added(left.drop_last(), last, one.node_id);
            assert(left =~= left.drop_last().push(last));
            lemma_alike_placed(left.drop_last(), right.drop_last(), one, other);
            lemma_placed_fold(left.drop_last(), one, last.node_id);
            lemma_alike_added(
                placed(left.drop_last(), one),
                placed(right.drop_last(), other),
                last,
                right.last(),
            );
        } else {
            lemma_alike_added(left, right, one, other);
        }
    }
}

/// What is alike is alike without its last fold, which either agrees or is the
/// first of its leaf.
proof fn lemma_alike_front(
    left: Seq<CryptoEnteredFoldState>,
    right: Seq<CryptoEnteredFoldState>,
)
    requires
        alike(left, right),
        left.len() > 0,
    ensures
        alike(left.drop_last(), right.drop_last()),
        left.last().node_id == right.last().node_id,
        left.last() == right.last() || fold_of(left.drop_last(), left.last().node_id) is None,
{
    let l = left.drop_last();
    let r = right.drop_last();
    let last = left.len() - 1;
    assert(left =~= l.push(left.last()));
    assert forall|i: int| 0 <= i < l.len() implies (#[trigger] l[i]).node_id == r[i].node_id && (
    l[i] == r[i] || leaf_position(l, l[i].node_id) == Some(i)) by {
        assert(l[i] == left[i]);
        lemma_added(l, left.last(), l[i].node_id);
    }
    assert(left[last].node_id == right[last].node_id);
    lemma_added(l, left.last(), left.last().node_id);
    lemma_position(l, left.last().node_id);
}

proof fn lemma_alike_arranged(
    left: Seq<CryptoEnteredFoldState>,
    right: Seq<CryptoEnteredFoldState>,
)
    requires
        alike(left, right),
    ensures
        alike(arranged(left), arranged(right)),
    decreases left.len(),
{
    if left.len() > 0 {
        lemma_alike_front(left, right);
        lemma_alike_arranged(left.drop_last(), right.drop_last());
        lemma_arranged_fold(left.drop_last(), left.last().node_id);
        lemma_alike_placed(
            arranged(left.drop_last()),
            arranged(right.drop_last()),
            left.last(),
            right.last(),
        );
    }
}

/// Replacing the fold that a leaf is found with keeps a list alike.
proof fn lemma_alike_replaced(
    states: Seq<CryptoEnteredFoldState>,
    node_id: u16,
    state: CryptoEnteredFoldState,
)
    requires
        leaf_position(states, node_id) is Some,
        state.node_id == node_id,
    ensures
        alike(states.update(leaf_position(states, node_id)->0, state), states),
{
    lemma_position(states, node_id);
    let position = leaf_position(states, node_id)->0;
    let changed = states.update(position, state);
    lemma_same_numbers(states, changed, node_id);
}

proof fn lemma_alike_stored(
    left: Seq<CryptoEnteredFoldState>,
    right: Seq<CryptoEnteredFoldState>,
    node_id: u16,
    one: CryptoEnteredFoldState,
    other: CryptoEnteredFoldState,
)
    requires
        alike(left, right),
        one.node_id == node_id,
        other.node_id == node_id,
    ensures
        alike(stored(left, node_id, one), stored(right, node_id, other)),
{
    lemma_alike_positions(left, right, node_id);
    if leaf_position(left, node_id) is Some {
        lemma_alike_replaced(left, node_id, one);
        lemma_alike_replaced(right, node_id, other);
        let l = stored(left, node_id, one);
        let r = stored(right, node_id, other);
        assert(alike(right, right));
        lemma_alike_through(l, left, right);
        lemma_alike_through(r, right, right);
        lemma_alike_through(l, right, r);
    } else {
        lemma_alike_added(left, right, one, other);
        lemma_alike_arranged(left.push(one), right.push(other));
    }
}

proof fn lemma_alike_unlatched(states: Seq<CryptoEnteredFoldState>, node_id: u16)
    ensures
        alike(leaf_unlatched(states, node_id), states),
{
    lemma_position(states, node_id);
    if let Some(position) = leaf_position(states, node_id) {
        lemma_alike_replaced(states, node_id, states[position].unlatched());
    }
}

/// Lists that are alike and find every leaf with the same fold are equal.
proof fn lemma_alike_equal(
    left: Seq<CryptoEnteredFoldState>,
    right: Seq<CryptoEnteredFoldState>,
)
    requires
        alike(left, right),
        forall|node_id: u16| #[trigger] fold_of(left, node_id) == fold_of(right, node_id),
    ensures
        left == right,
{
    assert forall|i: int| 0 <= i < left.len() implies left[i] == right[i] by {
        let node_id = left[i].node_id;
        lemma_alike_positions(left, right, node_id);
        assert(fold_of(left, node_id) == fold_of(right, node_id));
    }
    assert(left =~= right);
}

/// Whether `resumed` goes on behind `seen` where `whole` has everything: it
/// starts with the last report that was seen, or, where none was, at the start.
pub open spec fn goes_on(
    seen: Seq<CryptoPriceReportInput>,
    resumed: Seq<CryptoPriceReportInput>,
    whole: Seq<CryptoPriceReportInput>,
) -> bool {
    if seen.len() == 0 {
        resumed == whole
    } else {
        &&& seen.len() <= whole.len()
        &&& whole.take(seen.len() as int) == seen
        &&& resumed == whole.skip(seen.len() - 1)
    }
}

/// Whether a healthy source was read up to a point, and from there on by a
/// restart and from the start by a replay.
pub open spec fn reads_on(
    first: CryptoPriceInput,
    restart: CryptoPriceInput,
    replay: CryptoPriceInput,
) -> bool {
    &&& first.source_healthy
    &&& restart.source == first.source
    &&& replay.source == first.source
    &&& restart.gap_generation == first.gap_generation
    &&& replay.gap_generation == first.gap_generation
    &&& restart.source_healthy == replay.source_healthy
    &&& goes_on(first.reports@, restart.reports@, replay.reports@)
}

/// Whether every source was read up to a point by `first`, and a restart and a
/// replay see the same facts but for the crypto reports, of which the restart
/// reads on where `first` stopped and the replay reads all.
pub open spec fn inputs_go_on(
    first: EntryConditionInputSet,
    restart: EntryConditionInputSet,
    replay: EntryConditionInputSet,
) -> bool {
    &&& restart.evaluated_at == replay.evaluated_at
    &&& restart.prices@ == replay.prices@
    &&& restart.factors@ == replay.factors@
    &&& restart.weather@ == replay.weather@
    &&& restart.crypto@.len() == first.crypto@.len()
    &&& replay.crypto@.len() == first.crypto@.len()
    &&& forall|i: int|
        0 <= i < first.crypto@.len() ==> reads_on(
            #[trigger] first.crypto@[i],
            restart.crypto@[i],
            replay.crypto@[i],
        )
}

/// Whether two inputs show the same crypto reports.
pub open spec fn same_reports(left: EntryConditionInputSet, right: EntryConditionInputSet) -> bool {
    &&& left.crypto@.len() == right.crypto@.len()
    &&& forall|i: int|
        0 <= i < left.crypto@.len() ==> (#[trigger] left.crypto@[i]).reports@
            == right.crypto@[i].reports@
}

/// Evidence without the crypto reports that were read for it.
pub open spec fn unread(evidence: EvidenceView) -> EvidenceView {
    match evidence {
        EvidenceView::Crypto { input, state } => EvidenceView::Crypto {
            input: CryptoInputView { reports: Seq::empty(), ..input },
            state,
        },
        other => other,
    }
}

/// A tree without the crypto reports that were read for it.
pub open spec fn without_reports(node: NodeView) -> NodeView
    decreases node,
{
    NodeView {
        evidence: match node.evidence {
            Some(evidence) => Some(unread(evidence)),
            None => None,
        },
        children: all_without_reports(node.children),
        ..node
    }
}

/// Sibling trees without the crypto reports that were read for them.
pub open spec fn all_without_reports(nodes: Seq<NodeView>) -> Seq<NodeView>
    decreases nodes,
{
    if nodes.len() == 0 {
        Seq::empty()
    } else {
        all_without_reports(nodes.drop_last()).push(without_reports(nodes.last()))
    }
}

proof fn lemma_index_without_reports(nodes: Seq<NodeView>)
    ensures
        all_without_reports(nodes).len() == nodes.len(),
        forall|i: int|
            0 <= i < nodes.len() ==> (#[trigger] all_without_reports(nodes)[i]).truth
                == nodes[i].truth && all_without_reports(nodes)[i].node_id == nodes[i].node_id,
    decreases nodes.len(),
{
    if nodes.len() > 0 {
        let front = nodes.drop_last();
        let all = all_without_reports(nodes);
        lemma_index_without_reports(front);
        assert forall|i: int| 0 <= i < nodes.len() implies (#[trigger] all[i]).truth
            == nodes[i].truth && all[i].node_id == nodes[i].node_id by {
            if i < front.len() {
                assert(all[i] == all_without_reports(front)[i]);
                assert(front[i] == nodes[i]);
            } else {
                assert(all[i] == without_reports(nodes[i]));
            }
        }
    }
}

proof fn lemma_same_matches(
    left: Seq<NodeView>,
    right: Seq<NodeView>,
    test: spec_fn(NodeView) -> bool,
)
    requires
        left.len() == right.len(),
        forall|i: int| 0 <= i < left.len() ==> test(#[trigger] left[i]) == test(right[i]),
    ensures
        first_where(left, test) == first_where(right, test),
    decreases left.len(),
{
    if left.len() > 0 {
        let l = left.drop_last();
        let r = right.drop_last();
        assert forall|i: int| 0 <= i < l.len() implies test(#[trigger] l[i]) == test(r[i]) by {
            assert(l[i] == left[i]);
        }
        lemma_same_matches(l, r, test);
        assert(left.last() == left[left.len() - 1]);
    }
}

/// The reports that were read have no part in how truths are joined.
proof fn lemma_joined_without_reports(children: Seq<NodeView>, kind: CompositeKind)
    ensures
        joined_truth(all_without_reports(children), kind) == joined_truth(children, kind),
{
    let bare = all_without_reports(children);
    let forces = |child: NodeView| child.truth == kind.forcing();
    let unknown = |child: NodeView| child.truth is Unavailable;
    lemma_index_without_reports(children);
    assert forall|i: int| 0 <= i < bare.len() implies forces(#[trigger] bare[i]) == forces(
        children[i],
    ) && unknown(bare[i]) == unknown(children[i]) by {}
    lemma_same_matches(bare, children, forces);
    lemma_same_matches(bare, children, unknown);
    first_match_is_first(children, forces);
    first_match_is_first(children, unknown);
}

proof fn lemma_flattened_without_reports(node: NodeView)
    ensures
        flattened(without_reports(node)) == flattened(node).map_values(
            |evidence: EvidenceView| unread(evidence),
        ),
    decreases node,
{
    let bare = |evidence: EvidenceView| unread(evidence);
    lemma_all_flattened_without_reports(node.children);
    assert(flattened(without_reports(node)) =~= flattened(node).map_values(bare));
}

proof fn lemma_all_flattened_without_reports(nodes: Seq<NodeView>)
    ensures
        flattened_all(all_without_reports(nodes)) == flattened_all(nodes).map_values(
            |evidence: EvidenceView| unread(evidence),
        ),
    decreases nodes,
{
    let bare = |evidence: EvidenceView| unread(evidence);
    if nodes.len() == 0 {
        assert(flattened_all(nodes).map_values(bare) =~= Seq::empty());
    } else {
        lemma_all_flattened_without_reports(nodes.drop_last());
        lemma_flattened_without_reports(nodes.last());
        let all = all_without_reports(nodes);
        assert(all.drop_last() =~= all_without_reports(nodes.drop_last()));
        assert(flattened_all(all) =~= flattened_all(nodes).map_values(bare));
    }
}

/// The reports that were read have no part in the continuity.
proof fn lemma_continuity_without_reports(node: NodeView)
    ensures
        continuity_of_all(flattened(without_reports(node))) == continuity_of_all(flattened(node)),
{
    let bare = |evidence: EvidenceView| unread(evidence);
    lemma_flattened_without_reports(node);
    let all = flattened(node);
    assert forall|i: int| 0 <= i < all.len() implies continuity_of(
        i as usize,
        unread(#[trigger] all[i]),
    ) == continuity_of(i as usize, all[i]) by {}
    assert(continuity_of_all(all.map_values(bare)) =~= continuity_of_all(all));
}

/// Folding on from what was seen is folding everything.
proof fn lemma_folds_on(
    state: CryptoEnteredFoldState,
    condition: CryptoSubjectPredicateEntered,
    seen: Seq<CryptoPriceReportInput>,
    resumed: Seq<CryptoPriceReportInput>,
    whole: Seq<CryptoPriceReportInput>,
)
    requires
        goes_on(seen, resumed, whole),
    ensures
        state.after_reports(condition, seen).after_reports(condition, resumed)
            == state.after_reports(condition, whole),
        resumed.len() == 0 <==> whole.len() == 0,
        whole.len() > 0 ==> resumed.last() == whole.last(),
{
    if seen.len() > 0 {
        let fresh = whole.skip(seen.len() as int);
        assert(seen + fresh =~= whole);
        assert(seq![seen.last()] + fresh =~= resumed) by {
            assert(whole.take(seen.len() as int)[seen.len() - 1] == whole[seen.len() - 1]);
        }
        restart_equals_replay(state, condition, seen, fresh);
    }
}

proof fn lemma_fold_identity(
    states: Seq<CryptoEnteredFoldState>,
    node_id: u16,
    condition: CryptoSubjectPredicateEntered,
    input: CryptoPriceInput,
)
    ensures
        folded(states, node_id, condition, input).node_id == node_id,
        folded(states, node_id, condition, input).source@ == input.source@,
        folded(states, node_id, condition, input).gap_generation == input.gap_generation,
{
    lemma_position(states, node_id);
    lemma_identity_kept(
        starting_fold(states, node_id, input),
        condition,
        input.reports@,
    );
}

/// A crypto leaf leaves every other leaf its fold.
proof fn lemma_leaf_untouched(
    node_id: u16,
    condition: CryptoSubjectPredicateEntered,
    input: EntryConditionInputSet,
    states: Seq<CryptoEnteredFoldState>,
    other: u16,
)
    requires
        other != node_id,
    ensures
        fold_of(crypto_leaf(node_id, condition, input, states).1, other) == fold_of(states, other),
{
    if let Some(position) = crypto_input(input.crypto@, condition) {
        let value = input.crypto@[position];
        let state = folded(states, node_id, condition, value);
        lemma_fold_identity(states, node_id, condition, value);
        lemma_stored_fold(states, node_id, state, other);
        lemma_unlatched_fold(stored(states, node_id, state), node_id, other);
    }
}

/// A subtree takes node numbers in a row, and leaves the folds of all other
/// numbers as they were.
proof fn lemma_untouched(
    condition: EntryConditionV1,
    input: EntryConditionInputSet,
    states: Seq<CryptoEnteredFoldState>,
    next: int,
    other: u16,
)
    requires
        0 <= next,
    ensures
        evaluated(condition, input, states, next) matches Some(after) ==> next < after.next && (
        other < next || after.next <= other ==> fold_of(after.states, other) == fold_of(
            states,
            other,
        )),
    decreases condition,
{
    if next < u16::MAX {
        match condition {
            EntryConditionV1::MarketEvent { event } => {
                if let MarketEventCondition::CryptoSubjectPredicateEntered(crypto) = event {
                    if other != next as u16 {
                        lemma_leaf_untouched(next as u16, crypto, input, states, other);
                    }
                }
            },
            EntryConditionV1::All { children } => {
                lemma_all_untouched(children@, input, states, next + 1, other);
            },
            EntryConditionV1::Any { children } => {
                lemma_all_untouched(children@, input, states, next + 1, other);
            },
            _ => {},
        }
    }
}

proof fn lemma_all_untouched(
    conditions: Seq<EntryConditionV1>,
    input: EntryConditionInputSet,
    states: Seq<CryptoEnteredFoldState>,
    next: int,
    other: u16,
)
    requires
        0 <= next,
    ensures
        evaluated_children(conditions, input, states, next) matches Some(after) ==> next
            <= after.next && (other < next || after.next <= other ==> fold_of(after.states, other)
            == fold_of(states, other)),
    decreases conditions,
{
    if conditions.len() > 0 {
        lemma_all_untouched(conditions.drop_last(), input, states, next, other);
        if let Some(front) = evaluated_children(conditions.drop_last(), input, states, next) {
            lemma_untouched(conditions.last(), input, front.states, front.next, other);
        }
    }
}

/// The crypto input that a condition reads stands at the same place in inputs
/// of the same sources.
proof fn lemma_same_source(
    left: Seq<CryptoPriceInput>,
    right: Seq<CryptoPriceInput>,
    condition: CryptoSubjectPredicateEntered,
)
    requires
        left.len() == right.len(),
        forall|i: int| 0 <= i < left.len() ==> (#[trigger] left[i]).source == right[i].source,
    ensures
        crypto_input(left, condition) == crypto_input(right, condition),
        crypto_input(left, condition) matches Some(position) ==> 0 <= position < left.len(),
    decreases left.len(),
{
    if left.len() > 0 {
        let l = left.drop_last();
        let r = right.drop_last();
        assert forall|i: int| 0 <= i < l.len() implies (#[trigger] l[i]).source == r[i].source by {
            assert(l[i] == left[i]);
        }
        lemma_same_source(l, r, condition);
        assert(left.last() == left[left.len() - 1]);
    }
}

/// A crypto leaf that was read up to a point comes to the same by reading on and
/// by reading everything.
proof fn lemma_leaf_resumed(
    node_id: u16,
    condition: CryptoSubjectPredicateEntered,
    first: EntryConditionInputSet,
    restart: EntryConditionInputSet,
    replay: EntryConditionInputSet,
    before: Seq<CryptoEnteredFoldState>,
    resumed: Seq<CryptoEnteredFoldState>,
    replayed: Seq<CryptoEnteredFoldState>,
)
    requires
        inputs_go_on(first, restart, replay),
        alike(replayed, before),
        fold_of(replayed, node_id) == fold_of(before, node_id),
        fold_of(resumed, node_id) == fold_of(
            crypto_leaf(node_id, condition, first, before).1,
            node_id,
        ),
    ensures
        ({
            let after = crypto_leaf(node_id, condition, first, before).1;
            let a = crypto_leaf(node_id, condition, restart, resumed);
            let b = crypto_leaf(node_id, condition, replay, replayed);
            &&& a.0.truth == b.0.truth
            &&& unread(a.0.evidence) == unread(b.0.evidence)
            &&& same_reports(restart, replay) ==> a.0.evidence == b.0.evidence
            &&& fold_of(a.1, node_id) == fold_of(b.1, node_id)
            &&& alike(b.1, after)
            &&& alike(a.1, resumed)
        }),
{
    assert forall|i: int| 0 <= i < first.crypto@.len() implies (#[trigger] first.crypto@[i]).source
        == restart.crypto@[i].source && first.crypto@[i].source == replay.crypto@[i].source by {
        assert(reads_on(first.crypto@[i], restart.crypto@[i], replay.crypto@[i]));
    }
    lemma_same_source(first.crypto@, restart.crypto@, condition);
    lemma_same_source(first.crypto@, replay.crypto@, condition);
    if let Some(position) = crypto_input(first.crypto@, condition) {
        let one = first.crypto@[position];
        let two = restart.crypto@[position];
        let all = replay.crypto@[position];
        assert(reads_on(one, two, all));
        let start = starting_fold(before, node_id, one);
        let f = folded(before, node_id, condition, one);
        let t = folded(resumed, node_id, condition, two);
        let r = folded(replayed, node_id, condition, all);
        lemma_fold_identity(before, node_id, condition, one);
        lemma_fold_identity(resumed, node_id, condition, two);
        lemma_fold_identity(replayed, node_id, condition, all);
        lemma_stored_fold(before, node_id, f, node_id);
        assert(fold_of(resumed, node_id) == Some(f));
        assert(starting_fold(resumed, node_id, two) == f);
        assert(starting_fold(replayed, node_id, all) == start);
        lemma_folds_on(start, condition, one.reports@, two.reports@, all.reports@);
        assert(t == r);
        let after_t = stored(resumed, node_id, t);
        let after_r = stored(replayed, node_id, r);
        lemma_stored_fold(resumed, node_id, t, node_id);
        lemma_stored_fold(replayed, node_id, r, node_id);
        lemma_unlatched_fold(after_t, node_id, node_id);
        lemma_unlatched_fold(after_r, node_id, node_id);
        lemma_alike_replaced(resumed, node_id, t);
        lemma_alike_stored(replayed, before, node_id, r, f);
        lemma_alike_unlatched(after_t, node_id);
        lemma_alike_unlatched(after_r, node_id);
        lemma_alike_through(leaf_unlatched(after_t, node_id), after_t, resumed);
        lemma_alike_through(
            leaf_unlatched(after_r, node_id),
            after_r,
            stored(before, node_id, f),
        );
        if same_reports(restart, replay) {
            assert(two.reports@ == all.reports@);
            assert(two@ =~= all@);
        }
        assert((CryptoInputView { reports: Seq::empty(), ..two@ }) =~= (CryptoInputView {
            reports: Seq::empty(),
            ..all@
        }));
    } else {
        assert(alike(resumed, resumed));
    }
}

proof fn lemma_composite_resumed(
    node_id: u16,
    left: Seq<NodeView>,
    right: Seq<NodeView>,
    kind: CompositeKind,
)
    requires
        all_without_reports(left) == all_without_reports(right),
    ensures
        without_reports(composite_node(node_id, left, kind)) == without_reports(
            composite_node(node_id, right, kind),
        ),
{
    lemma_joined_without_reports(left, kind);
    lemma_joined_without_reports(right, kind);
}

/// A subtree that was evaluated on what had been read comes to the same by
/// reading on and by reading everything.
proof fn lemma_resumed(
    condition: EntryConditionV1,
    first: EntryConditionInputSet,
    restart: EntryConditionInputSet,
    replay: EntryConditionInputSet,
    before: Seq<CryptoEnteredFoldState>,
    resumed: Seq<CryptoEnteredFoldState>,
    replayed: Seq<CryptoEnteredFoldState>,
    next: int,
)
    requires
        0 <= next,
        inputs_go_on(first, restart, replay),
        evaluated(condition, first, before, next) is Some,
        alike(replayed, before),
        forall|k: u16| next <= k ==> #[trigger] fold_of(replayed, k) == fold_of(before, k),
        forall|k: u16|
            next <= k < evaluated(condition, first, before, next)->0.next ==> #[trigger] fold_of(
                resumed,
                k,
            ) == fold_of(evaluated(condition, first, before, next)->0.states, k),
    ensures
        ({
            let after = evaluated(condition, first, before, next)->0;
            let a = evaluated(condition, restart, resumed, next);
            let b = evaluated(condition, replay, replayed, next);
            &&& a is Some && b is Some
            &&& a->0.next == after.next && b->0.next == after.next
            &&& without_reports(a->0.value) == without_reports(b->0.value)
            &&& same_reports(restart, replay) ==> a->0.value == b->0.value
            &&& forall|k: u16|
                next <= k < after.next ==> #[trigger] fold_of(a->0.states, k) == fold_of(
                    b->0.states,
                    k,
                )
            &&& alike(b->0.states, after.states)
            &&& alike(a->0.states, resumed)
        }),
    decreases condition,
{
    let node_id = next as u16;
    let after = evaluated(condition, first, before, next)->0;
    assert(alike(resumed, resumed));
    match condition {
        EntryConditionV1::MarketEvent { event } => {
            match event {
                MarketEventCondition::CryptoSubjectPredicateEntered(crypto) => {
                    assert(fold_of(resumed, node_id) == fold_of(after.states, node_id));
                    assert(fold_of(replayed, node_id) == fold_of(before, node_id));
                    lemma_leaf_resumed(
                        node_id,
                        crypto,
                        first,
                        restart,
                        replay,
                        before,
                        resumed,
                        replayed,
                    );
                },
                MarketEventCondition::WeatherDailyTemperature(_) => {
                    assert(fold_of(resumed, node_id) == fold_of(after.states, node_id));
                    assert(fold_of(replayed, node_id) == fold_of(before, node_id));
                },
            }
        },
        EntryConditionV1::All { children } => {
            lemma_all_resumed(
                children@,
                first,
                restart,
                replay,
                before,
                resumed,
                replayed,
                next + 1,
            );
            let a = evaluated_children(children@, restart, resumed, next + 1)->0;
            let b = evaluated_children(children@, replay, replayed, next + 1)->0;
            lemma_all_untouched(children@, first, before, next + 1, node_id);
            lemma_all_untouched(children@, restart, resumed, next + 1, node_id);
            lemma_all_untouched(children@, replay, replayed, next + 1, node_id);
            assert(fold_of(resumed, node_id) == fold_of(after.states, node_id));
            assert(fold_of(replayed, node_id) == fold_of(before, node_id));
            lemma_composite_resumed(node_id, a.value, b.value, CompositeKind::All);
        },
        EntryConditionV1::Any { children } => {
            lemma_all_resumed(
                children@,
                first,
                restart,
                replay,
                before,
                resumed,
                replayed,
                next + 1,
            );
            let a = evaluated_children(children@, restart, resumed, next + 1)->0;
            let b = evaluated_children(children@, replay, replayed, next + 1)->0;
            lemma_all_untouched(children@, first, before, next + 1, node_id);
            lemma_all_untouched(children@, restart, resumed, next + 1, node_id);
            lemma_all_untouched(children@, replay, replayed, next + 1, node_id);
            assert(fold_of(resumed, node_id) == fold_of(after.states, node_id));
            assert(fold_of(replayed, node_id) == fold_of(before, node_id));
            lemma_composite_resumed(node_id, a.value, b.value, CompositeKind::Any);
        },
        _ => {
            assert(fold_of(resumed, node_id) == fold_of(after.states, node_id));
            assert(fold_of(replayed, node_id) == fold_of(before, node_id));
        },
    }
}

/// Sibling conditions that were evaluated on what had been read come to the same
/// by reading on and by reading everything.
proof fn lemma_all_resumed(
    conditions: Seq<EntryConditionV1>,
    first: EntryConditionInputSet,
    restart: EntryConditionInputSet,
    replay: EntryConditionInputSet,
    before: Seq<CryptoEnteredFoldState>,
    resumed: Seq<CryptoEnteredFoldState>,
    replayed: Seq<CryptoEnteredFoldState>,
    next: int,
)
    requires
        0 <= next,
        inputs_go_on(first, restart, replay),
        evaluated_children(conditions, first, before, next) is Some,
        alike(replayed, before),
        forall|k: u16| next <= k ==> #[trigger] fold_of(replayed, k) == fold_of(before, k),
        forall|k: u16|
            next <= k < evaluated_children(conditions, first, before, next)->0.next
                ==> #[trigger] fold_of(resumed, k) == fold_of(
                evaluated_children(conditions, first, before, next)->0.states,
                k,
            ),
    ensures
        ({
            let after = evaluated_children(conditions, first, before, next)->0;
            let a = evaluated_children(conditions, restart, resumed, next);
            let b = evaluated_children(conditions, replay, replayed, next);
            &&& a is Some && b is Some
            &&& a->0.next == after.next && b->0.next == after.next
            &&& all_without_reports(a->0.value) == all_without_reports(b->0.value)
            &&& same_reports(restart, replay) ==> a->0.value == b->0.value
            &&& forall|k: u16|
                next <= k < after.next ==> #[trigger] fold_of(a->0.states, k) == fold_of(
                    b->0.states,
                    k,
                )
            &&& alike(b->0.states, after.states)
            &&& alike(a->0.states, resumed)
        }),
    decreases conditions,
{
    assert(alike(resumed, resumed));
    if conditions.len() > 0 {
        let front = conditions.drop_last();
        let last = conditions.last();
        let half = evaluated_children(front, first, before, next)->0;
        let after = evaluated_children(conditions, first, before, next)->0;
        assert forall|k: u16| next <= k < half.next implies #[trigger] fold_of(resumed, k)
            == fold_of(half.states, k) by {
            lemma_untouched(last, first, half.states, half.next, k);
        }
        lemma_all_untouched(front, first, before, next, 0);
        lemma_all_resumed(front, first, restart, replay, before, resumed, replayed, next);
        let a = evaluated_children(front, restart, resumed, next)->0;
        let b = evaluated_children(front, replay, replayed, next)->0;
        assert forall|k: u16| half.next <= k implies #[trigger] fold_of(b.states, k) == fold_of(
            half.states,
            k,
        ) by {
            lemma_all_untouched(front, first, before, next, k);
            lemma_all_untouched(front, replay, replayed, next, k);
            assert(fold_of(replayed, k) == fold_of(before, k));
        }
        assert forall|k: u16| half.next <= k < after.next implies #[trigger] fold_of(a.states, k)
            == fold_of(after.states, k) by {
            lemma_all_untouched(front, restart, resumed, next, k);
            assert(fold_of(resumed, k) == fold_of(after.states, k));
        }
        lemma_resumed(
            last,
            first,
            restart,
            replay,
            half.states,
            a.states,
            b.states,
            half.next,
        );
        let x = evaluated(last, restart, a.states, half.next)->0;
        let y = evaluated(last, replay, b.states, half.next)->0;
        lemma_alike_through(x.states, a.states, resumed);
        assert(a.value.push(x.value).drop_last() =~= a.value);
        assert(b.value.push(y.value).drop_last() =~= b.value);
        assert forall|k: u16| next <= k < after.next implies #[trigger] fold_of(x.states, k)
            == fold_of(y.states, k) by {
            if k < half.next {
                lemma_untouched(last, restart, a.states, half.next, k);
                lemma_untouched(last, replay, b.states, half.next, k);
                assert(fold_of(a.states, k) == fold_of(b.states, k));
            }
        }
    }
}

/// A restart that goes on from the folds of an earlier evaluation comes to what
/// a replay of everything comes to: the same truth, continuity and folds, and
/// the same tree but for the reports that each of them read, which agree where
/// both read the same.
pub proof fn restarted_evaluation_equals_replay(
    artifact: EntryConditionArtifactV1,
    first: EntryConditionInputSet,
    restart: EntryConditionInputSet,
    replay: EntryConditionInputSet,
)
    requires
        first.binding_unavailable_reason is None && first.binding@ == artifact.binding@,
        restart.binding_unavailable_reason is None && restart.binding@ == artifact.binding@,
        replay.binding_unavailable_reason is None && replay.binding@ == artifact.binding@,
        inputs_go_on(first, restart, replay),
        evaluation(artifact, first) is Ok,
        restart.fold_state.crypto@ == evaluation(artifact, first)->Ok_0.states,
        replay.fold_state.crypto@ == first.fold_state.crypto@,
    ensures
        ({
            let a = evaluation(artifact, restart);
            let b = evaluation(artifact, replay);
            &&& a is Ok && b is Ok
            &&& a->Ok_0.truth == b->Ok_0.truth
            &&& a->Ok_0.basis == b->Ok_0.basis
            &&& a->Ok_0.continuity == b->Ok_0.continuity
            &&& a->Ok_0.states == b->Ok_0.states
            &&& without_reports(a->Ok_0.tree) == without_reports(b->Ok_0.tree)
            &&& same_reports(restart, replay) ==> a == b
        }),
{
    let before = first.fold_state.crypto@;
    let after = evaluated(artifact.root, first, before, 0)->0;
    let persisted = after.states;
    assert(alike(before, before));
    lemma_resumed(artifact.root, first, restart, replay, before, persisted, before, 0);
    let a = evaluated(artifact.root, restart, persisted, 0)->0;
    let b = evaluated(artifact.root, replay, before, 0)->0;
    lemma_continuity_without_reports(a.value);
    lemma_continuity_without_reports(b.value);
    assert(without_reports(a.value).truth == a.value.truth);
    assert(without_reports(b.value).truth == b.value.truth);
    lemma_alike_through(b.states, persisted, persisted);
    lemma_alike_through(a.states, persisted, b.states);
    assert forall|k: u16| #[trigger] fold_of(a.states, k) == fold_of(b.states, k) by {
        if after.next <= k {
            lemma_untouched(artifact.root, first, before, 0, k);
            lemma_untouched(artifact.root, restart, persisted, 0, k);
            lemma_untouched(artifact.root, replay, before, 0, k);
        }
    }
    lemma_alike_equal(a.states, b.states);
}

} // verus!
