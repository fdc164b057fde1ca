//! Evaluation of condition trees.
use vstd::prelude::*;

use crate::entry_condition::fold::{all_unlatched, clear_crypto_latches};
use crate::entry_condition::leaves::{
    evaluate_factor, evaluate_market_event, evaluate_price, event_leaf, factor_leaf, price_leaf,
    truth_of, LeafView,
};
use crate::entry_condition::model::{
    ConditionLeafEvidence, ConditionTruth, ConditionUnavailableReason, CryptoEnteredFoldState,
    EntryConditionArtifactV1, EntryConditionFoldState, EntryConditionInputSet,
    EntryConditionSourceBinding, EntryConditionV1, EvidenceView,
};
use crate::error::{ErrorView, ExecutionError};
use crate::search::{first_where, lemma_first_found, lemma_first_missing};
use crate::types::ContentHash;

verus! {

/// Compact complete tree persisted to the evaluation fact table.
#[derive(Debug, PartialEq, Eq)]
pub struct ConditionNodeEvaluation {
    pub node_id: u16,
    pub truth: ConditionTruth,
    pub decisive_child_id: Option<u16>,
    pub evidence: Option<ConditionLeafEvidence>,
    pub children: Vec<ConditionNodeEvaluation>,
}

/// An evaluated node with its children as a sequence.
pub ghost struct NodeView {
    pub node_id: u16,
    pub truth: ConditionTruth,
    pub decisive_child_id: Option<u16>,
    pub evidence: Option<EvidenceView>,
    pub children: Seq<NodeView>,
}

impl ConditionNodeEvaluation {
    /// The node with its children as a sequence.
    pub open spec fn tree(self) -> NodeView
        decreases self,
    {
        NodeView {
            node_id: self.node_id,
            truth: self.truth,
            decisive_child_id: self.decisive_child_id,
            evidence: match self.evidence {
                Some(evidence) => Some(evidence@),
                None => None,
            },
            children: ConditionNodeEvaluation::trees(self.children@),
        }
    }

    /// Nodes with their children as sequences.
    pub open spec fn trees(nodes: Seq<ConditionNodeEvaluation>) -> Seq<NodeView>
        decreases nodes,
    {
        if nodes.len() == 0 {
            Seq::empty()
        } else {
            ConditionNodeEvaluation::trees(nodes.drop_last()).push(nodes.last().tree())
        }
    }
}

/// How the truths of children are joined.
#[derive(Clone, Copy, Debug, PartialEq, Eq, Structural)]
pub enum CompositeKind {
    All,
    Any,
}

impl CompositeKind {
    /// The truth that one child alone can force on the node.
    pub open spec fn forcing(self) -> ConditionTruth {
        match self {
            CompositeKind::All => ConditionTruth::Unsatisfied,
            CompositeKind::Any => ConditionTruth::Satisfied,
        }
    }

    /// The truth of a node on which no child insists.
    pub open spec fn neutral(self) -> ConditionTruth {
        match self {
            CompositeKind::All => ConditionTruth::Satisfied,
            CompositeKind::Any => ConditionTruth::Unsatisfied,
        }
    }
}

/// Truth of a composite and the child that decided it: the first child with
/// the forcing truth, else the first that is unavailable, else none and the
/// neutral truth.
pub open spec fn joined_truth(children: Seq<NodeView>, kind: CompositeKind) -> (
    ConditionTruth,
    Option<u16>,
) {
    match first_where(children, |child: NodeView| child.truth == kind.forcing()) {
        Some(position) => (kind.forcing(), Some(children[position].node_id)),
        None => match first_where(children, |child: NodeView| child.truth is Unavailable) {
            Some(position) => (children[position].truth, Some(children[position].node_id)),
            None => (kind.neutral(), None),
        },
    }
}

/// Outcome of evaluating a subtree: the node, the folds and the next free node
/// number.
pub ghost struct Evaluated<T> {
    pub value: T,
    pub states: Seq<CryptoEnteredFoldState>,
    pub next: int,
}

/// A leaf of the tree.
pub open spec fn leaf_node(node_id: u16, leaf: LeafView) -> NodeView {
    NodeView {
        node_id,
        truth: leaf.truth,
        decisive_child_id: None,
        evidence: Some(leaf.evidence),
        children: Seq::empty(),
    }
}

/// A composite of the tree.
pub open spec fn composite_node(node_id: u16, children: Seq<NodeView>, kind: CompositeKind) -> NodeView {
    let (truth, decisive_child_id) = joined_truth(children, kind);
    NodeView { node_id, truth, decisive_child_id, evidence: None, children }
}

/// The evaluation of a condition whose root gets the node number `next`; nodes
/// are numbered in preorder. `None` where the numbers run out.
pub open spec fn evaluated(
    condition: EntryConditionV1,
    input: EntryConditionInputSet,
    states: Seq<CryptoEnteredFoldState>,
    next: int,
) -> Option<Evaluated<NodeView>>
    decreases condition,
{
    let node_id = next as u16;
    if next >= u16::MAX {
        None
    } else {
        match condition {
            EntryConditionV1::Price(price) => Some(
                Evaluated {
                    value: leaf_node(node_id, price_leaf(price, input)),
                    states,
                    next: next + 1,
                },
            ),
            EntryConditionV1::Clock(clock) => Some(
                Evaluated {
                    value: leaf_node(
                        node_id,
                        LeafView {
                            truth: truth_of(clock.deadline_at@ <= input.evaluated_at@),
                            evidence: EvidenceView::Clock {
                                deadline_at: clock.deadline_at,
                                evaluated_at: input.evaluated_at,
                            },
                        },
                    ),
                    states,
                    next: next + 1,
                },
            ),
            EntryConditionV1::Factor(factor) => Some(
                Evaluated {
                    value: leaf_node(node_id, factor_leaf(factor, input)),
                    states,
                    next: next + 1,
                },
            ),
            EntryConditionV1::MarketEvent { event } => {
                let (leaf, after) = event_leaf(node_id, event, input, states);
                Some(
                    Evaluated { value: leaf_node(node_id, leaf), states: after, next: next + 1 },
                )
            },
            EntryConditionV1::All { children } => match evaluated_children(
                children@,
                input,
                states,
                next + 1,
            ) {
                None => None,
                Some(inner) => Some(
                    Evaluated {
                        value: composite_node(node_id, inner.value, CompositeKind::All),
                        states: inner.states,
                        next: inner.next,
                    },
                ),
            },
            EntryConditionV1::Any { children } => match evaluated_children(
                children@,
                input,
                states,
                next + 1,
            ) {
                None => None,
                Some(inner) => Some(
                    Evaluated {
                        value: composite_node(node_id, inner.value, CompositeKind::Any),
                        states: inner.states,
                        next: inner.next,
                    },
                ),
            },
        }
    }
}

/// The evaluations of sibling conditions, one after the other.
pub open spec fn evaluated_children(
    conditions: Seq<EntryConditionV1>,
    input: EntryConditionInputSet,
    states: Seq<CryptoEnteredFoldState>,
    next: int,
) -> Option<Evaluated<Seq<NodeView>>>
    decreases conditions,
{
    if conditions.len() == 0 {
        Some(Evaluated { value: Seq::empty(), states, next })
    } else {
        match evaluated_children(conditions.drop_last(), input, states, next) {
            None => None,
            Some(front) => match evaluated(conditions.last(), input, front.states, front.next) {
                None => None,
                Some(last) => Some(
                    Evaluated {
                        value: front.value.push(last.value),
                        states: last.states,
                        next: last.next,
                    },
                ),
            },
        }
    }
}

proof fn lemma_children_prefix(
    conditions: Seq<EntryConditionV1>,
    input: EntryConditionInputSet,
    states: Seq<CryptoEnteredFoldState>,
    next: int,
    n: int,
)
    requires
        0 <= n <= conditions.len(),
        evaluated_children(conditions.take(n), input, states, next) is None,
    ensures
        evaluated_children(conditions, input, states, next) is None,
    decreases conditions.len() - n,
{
    if n == conditions.len() {
        assert(conditions.take(n) =~= conditions);
    } else {
        assert(conditions.take(n + 1).drop_last() =~= conditions.take(n));
        lemma_children_prefix(conditions, input, states, next, n + 1);
    }
}

fn leaf(node_id: u16, result: (ConditionTruth, ConditionLeafEvidence)) -> (r: ConditionNodeEvaluation)
    ensures
        r.tree() == leaf_node(node_id, LeafView { truth: result.0, evidence: result.1@ }),
{
    ConditionNodeEvaluation {
        node_id,
        truth: result.0,
        decisive_child_id: None,
        evidence: Some(result.1),
        children: Vec::new(),
    }
}

proof fn lemma_trees_index(nodes: Seq<ConditionNodeEvaluation>)
    ensures
        ConditionNodeEvaluation::trees(nodes).len() == nodes.len(),
        forall|i: int|
            0 <= i < nodes.len() ==> #[trigger] ConditionNodeEvaluation::trees(nodes)[i]
                == nodes[i].tree(),
    decreases nodes.len(),
{
    if nodes.len() > 0 {
        lemma_trees_index(nodes.drop_last());
    }
}

/// Truth of a composite over its evaluated children, and the child that decided
/// it.
pub fn composite_truth(
    children: &Vec<ConditionNodeEvaluation>,
    kind: CompositeKind,
) -> (r: (ConditionTruth, Option<u16>))
    ensures
        r == joined_truth(ConditionNodeEvaluation::trees(children@), kind),
{
    let ghost trees = ConditionNodeEvaluation::trees(children@);
    proof {
        lemma_trees_index(children@);
    }
    let ghost forces = |child: NodeView| child.truth == kind.forcing();
    let ghost unknown = |child: NodeView| child.truth is Unavailable;
    let mut i: usize = 0;
    while i < children.len()
        invariant
            i <= children.len(),
            trees.len() == children.len(),
            trees == ConditionNodeEvaluation::trees(children@),
            forall|j: int| 0 <= j < children.len() ==> #[trigger] trees[j] == children@[j].tree(),
            forces == (|child: NodeView| child.truth == kind.forcing()),
            forall|j: int| 0 <= j < i ==> !forces(#[trigger] trees[j]),
        decreases children.len() - i,
    {
        assert(trees[i as int] == children@[i as int].tree());
        let found = match (kind, &children[i].truth) {
            (CompositeKind::All, ConditionTruth::Unsatisfied) => true,
            (CompositeKind::Any, ConditionTruth::Satisfied) => true,
            _ => false,
        };
        if found {
            proof {
                lemma_first_found(trees, forces, i as int);
            }
            return (children[i].truth.clone(), Some(children[i].node_id));
        }
        i = i + 1;
    }
    proof {
        lemma_first_missing(trees, forces);
    }
    let mut k: usize = 0;
    while k < children.len()
        invariant
            k <= children.len(),
            trees.len() == children.len(),
            trees == ConditionNodeEvaluation::trees(children@),
            forall|j: int| 0 <= j < children.len() ==> #[trigger] trees[j] == children@[j].tree(),
            forces == (|child: NodeView| child.truth == kind.forcing()),
            first_where(trees, forces) is None,
            unknown == (|child: NodeView| child.truth is Unavailable),
            forall|j: int| 0 <= j < k ==> !unknown(#[trigger] trees[j]),
        decreases children.len() - k,
    {
        assert(trees[k as int] == children@[k as int].tree());
        let found = match &children[k].truth {
            ConditionTruth::Unavailable(_) => true,
            _ => false,
        };
        if found {
            proof {
                lemma_first_found(trees, unknown, k as int);
            }
            return (children[k].truth.clone(), Some(children[k].node_id));
        }
        k = k + 1;
    }
    proof {
        lemma_first_missing(trees, unknown);
    }
    (
        match kind {
            CompositeKind::All => ConditionTruth::Satisfied,
            CompositeKind::Any => ConditionTruth::Unsatisfied,
        },
        None,
    )
}

/// What running out of node numbers is reported as.
pub open spec fn node_overflow() -> ErrorView {
    ErrorView::ContractViolation { detail: "entry condition node id overflow"@ }
}

fn evaluate_node(
    condition: &EntryConditionV1,
    input: &EntryConditionInputSet,
    fold_state: &mut EntryConditionFoldState,
    next_node_id: &mut u16,
) -> (r: Result<ConditionNodeEvaluation, ExecutionError>)
    ensures
        match r {
            Ok(node) => {
                let after = evaluated(
                    *condition,
                    *input,
                    old(fold_state).crypto@,
                    *old(next_node_id) as int,
                );
                &&& after is Some
                &&& after->0.value == node.tree()
                &&& after->0.states == final(fold_state).crypto@
                &&& after->0.next == *final(next_node_id)
            },
            Err(error) => error@ == node_overflow() && evaluated(
                *condition,
                *input,
                old(fold_state).crypto@,
                *old(next_node_id) as int,
            ) is None,
        },
    decreases condition,
{
    let node_id = *next_node_id;
    if node_id == u16::MAX {
        return Err(
            ExecutionError::ContractViolation {
                detail: "entry condition node id overflow".to_owned(),
            },
        );
    }
    *next_node_id = node_id + 1;
    match condition {
        EntryConditionV1::Price(price) => Ok(leaf(node_id, evaluate_price(price, input))),
        EntryConditionV1::Clock(clock) => {
            let truth = if clock.deadline_at.until(input.evaluated_at) {
                ConditionTruth::Satisfied
            } else {
                ConditionTruth::Unsatisfied
            };
            Ok(
                leaf(
                    node_id,
                    (
                        truth,
                        ConditionLeafEvidence::Clock {
                            deadline_at: clock.deadline_at,
                            evaluated_at: input.evaluated_at,
                        },
                    ),
                ),
            )
        },
        EntryConditionV1::Factor(factor) => Ok(leaf(node_id, evaluate_factor(factor, input))),
        EntryConditionV1::MarketEvent { event } => Ok(
            leaf(node_id, evaluate_market_event(node_id, event, input, fold_state)),
        ),
        EntryConditionV1::All { children } => evaluate_composite(
            node_id,
            children,
            input,
            fold_state,
            next_node_id,
            CompositeKind::All,
        ),
        EntryConditionV1::Any { children } => evaluate_composite(
            node_id,
            children,
            input,
            fold_state,
            next_node_id,
            CompositeKind::Any,
        ),
    }
}

fn evaluate_composite(
    node_id: u16,
    conditions: &Vec<EntryConditionV1>,
    input: &EntryConditionInputSet,
    fold_state: &mut EntryConditionFoldState,
    next_node_id: &mut u16,
    kind: CompositeKind,
) -> (r: Result<ConditionNodeEvaluation, ExecutionError>)
    ensures
        match r {
            Ok(node) => {
                let inner = evaluated_children(
                    conditions@,
                    *input,
                    old(fold_state).crypto@,
                    *old(next_node_id) as int,
                );
                &&& inner is Some
                &&& node.tree() == composite_node(node_id, inner->0.value, kind)
                &&& inner->0.states == final(fold_state).crypto@
                &&& inner->0.next == *final(next_node_id)
            },
            Err(error) => error@ == node_overflow() && evaluated_children(
                conditions@,
                *input,
                old(fold_state).crypto@,
                *old(next_node_id) as int,
            ) is None,
        },
    decreases conditions,
{
    let ghost states = fold_state.crypto@;
    let ghost next = *next_node_id as int;
    let mut children: Vec<ConditionNodeEvaluation> = Vec::new();
    let mut i: usize = 0;
    assert(conditions@.take(0) =~= Seq::<EntryConditionV1>::empty());
    assert(ConditionNodeEvaluation::trees(children@) =~= Seq::<NodeView>::empty());
    while i < conditions.len()
        invariant
            i <= conditions.len(),
            states == old(fold_state).crypto@,
            next == *old(next_node_id) as int,
            ({
                let front = evaluated_children(conditions@.take(i as int), *input, states, next);
                &&& front is Some
                &&& front->0.value == ConditionNodeEvaluation::trees(children@)
                &&& front->0.states == fold_state.crypto@
                &&& front->0.next == *next_node_id
            }),
        decreases conditions.len() - i,
    {
        assert(conditions@.take(i + 1).drop_last() =~= conditions@.take(i as int));
        assert(conditions@.take(i + 1).last() == conditions@[i as int]);
        assert(decreases_to!(conditions => conditions@[i as int]));
        match evaluate_node(&conditions[i], input, fold_state, next_node_id) {
            Ok(node) => {
                proof {
                    assert(children@.push(node).drop_last() =~= children@);
                }
                children.push(node);
            },
            Err(error) => {
                proof {
                    lemma_children_prefix(conditions@, *input, states, next, i + 1);
                }
                return Err(error);
            },
        }
        i = i + 1;
    }
    assert(conditions@.take(i as int) =~= conditions@);
    let (truth, decisive_child_id) = composite_truth(&children, kind);
    Ok(ConditionNodeEvaluation { node_id, truth, decisive_child_id, evidence: None, children })
}

/// The evidence of a tree, in preorder.
pub open spec fn flattened(node: NodeView) -> Seq<EvidenceView>
    decreases node,
{
    (match node.evidence {
        Some(evidence) => seq![evidence],
        None => Seq::empty(),
    }) + flattened_all(node.children)
}

/// The evidence of sibling trees, in preorder.
pub open spec fn flattened_all(nodes: Seq<NodeView>) -> Seq<EvidenceView>
    decreases nodes,
{
    if nodes.len() == 0 {
        Seq::empty()
    } else {
        flattened_all(nodes.drop_last()) + flattened(nodes.last())
    }
}

/// Evidence with its lists as sequences.
pub open spec fn evidence_views(evidence: Seq<&ConditionLeafEvidence>) -> Seq<EvidenceView> {
    evidence.map_values(|e: &ConditionLeafEvidence| e@)
}

fn append_evidence<'a>(
    tree: &'a ConditionNodeEvaluation,
    values: &mut Vec<&'a ConditionLeafEvidence>,
)
    ensures
        evidence_views(final(values)@) == evidence_views(old(values)@) + flattened(tree.tree()),
    decreases tree,
{
    let ghost start = evidence_views(values@);
    if let Some(evidence) = tree.evidence.as_ref() {
        values.push(evidence);
    }
    let ghost own = match tree.tree().evidence {
        Some(evidence) => seq![evidence],
        None => Seq::empty(),
    };
    assert(evidence_views(values@) =~= start + own);
    let ghost trees = ConditionNodeEvaluation::trees(tree.children@);
    proof {
        lemma_trees_index(tree.children@);
    }
    let mut i: usize = 0;
    assert(trees.take(0) =~= Seq::<NodeView>::empty());
    assert(start + own + flattened_all(trees.take(0)) =~= start + own);
    while i < tree.children.len()
        invariant
            i <= tree.children.len(),
            trees == ConditionNodeEvaluation::trees(tree.children@),
            trees.len() == tree.children.len(),
            forall|j: int|
                0 <= j < tree.children.len() ==> #[trigger] trees[j] == tree.children@[j].tree(),
            evidence_views(values@) == start + own + flattened_all(trees.take(i as int)),
        decreases tree.children.len() - i,
    {
        assert(trees.take(i + 1).drop_last() =~= trees.take(i as int));
        assert(trees.take(i + 1).last() == trees[i as int]);
        assert(decreases_to!(tree => tree.children@[i as int]));
        append_evidence(&tree.children[i], values);
        assert(evidence_views(values@) =~= start + own + flattened_all(trees.take(i + 1)));
        i = i + 1;
    }
    assert(trees.take(i as int) =~= trees);
    assert(start + own + flattened_all(trees) =~= start + (own + flattened_all(trees)));
}

/// The evidence of a tree, in preorder: what the input fingerprint is taken
/// over.
pub fn flatten_evidence(tree: &ConditionNodeEvaluation) -> (r: Vec<&ConditionLeafEvidence>)
    ensures
        evidence_views(r@) == flattened(tree.tree()),
{
    let mut values: Vec<&ConditionLeafEvidence> = Vec::new();
    append_evidence(tree, &mut values);
    assert(evidence_views(Seq::<&ConditionLeafEvidence>::empty()) + flattened(tree.tree())
        =~= flattened(tree.tree()));
    values
}

/// What one leaf contributes to the continuity of a condition.
#[derive(Debug, PartialEq, Eq)]
pub struct ContinuityProjection {
    pub node_index: usize,
    pub source: Option<EntryConditionSourceBinding>,
    pub gap_generation: Option<u64>,
    pub revision_hash: Option<ContentHash>,
    pub revision: Option<u64>,
    pub discontinuity_epoch: Option<u64>,
    pub latched: Option<bool>,
}

/// What a leaf contributes to continuity: of a price its gap generation, of a
/// crypto leaf its source, gap generation, latch, crossing report and
/// discontinuities, of a weather leaf its source, gap generation and corrected
/// report, of a factor its snapshot. A ticking price or clock contributes
/// nothing that changes.
pub open spec fn continuity_of(node_index: usize, evidence: EvidenceView) -> ContinuityProjection {
    let none = ContinuityProjection {
        node_index,
        source: None,
        gap_generation: None,
        revision_hash: None,
        revision: None,
        discontinuity_epoch: None,
        latched: None,
    };
    match evidence {
        EvidenceView::Price(value) => ContinuityProjection {
            gap_generation: Some(value.gap_generation),
            ..none
        },
        EvidenceView::Crypto { input, state } => ContinuityProjection {
            source: Some(input.source),
            gap_generation: Some(input.gap_generation),
            revision_hash: state.triggering_report_hash,
            discontinuity_epoch: Some(state.discontinuity_epoch),
            latched: Some(state.latched),
            ..none
        },
        EvidenceView::Weather(value) => ContinuityProjection {
            source: Some(value.key.source),
            gap_generation: Some(value.gap_generation),
            revision_hash: Some(value.report_hash),
            revision: Some(value.revision),
            ..none
        },
        EvidenceView::Factor(value) => ContinuityProjection {
            revision_hash: Some(value.snapshot_hash),
            ..none
        },
        EvidenceView::Clock { .. } => none,
        EvidenceView::Unavailable(_) => none,
    }
}

/// What the leaves of a tree contribute to its continuity.
pub open spec fn continuity_of_all(evidence: Seq<EvidenceView>) -> Seq<ContinuityProjection> {
    evidence.map(|i: int, e: EvidenceView| continuity_of(i as usize, e))
}

fn project_leaf(node_index: usize, evidence: &ConditionLeafEvidence) -> (r: ContinuityProjection)
    ensures
        r == continuity_of(node_index, evidence@),
{
    let mut r = ContinuityProjection {
        node_index,
        source: None,
        gap_generation: None,
        revision_hash: None,
        revision: None,
        discontinuity_epoch: None,
        latched: None,
    };
    match evidence {
        ConditionLeafEvidence::Price(value) => {
            r.gap_generation = Some(value.gap_generation);
        },
        ConditionLeafEvidence::Crypto { input, state } => {
            r.source = Some(input.source.clone());
            r.gap_generation = Some(input.gap_generation);
            r.revision_hash = state.triggering_report_hash;
            r.discontinuity_epoch = Some(state.discontinuity_epoch);
            r.latched = Some(state.latched);
        },
        ConditionLeafEvidence::Weather(value) => {
            r.source = Some(value.key.source.clone());
            r.gap_generation = Some(value.gap_generation);
            r.revision_hash = Some(value.report_hash);
            r.revision = Some(value.revision);
        },
        ConditionLeafEvidence::Factor(value) => {
            r.revision_hash = Some(value.snapshot_hash);
        },
        ConditionLeafEvidence::Clock { .. } => {},
        ConditionLeafEvidence::Unavailable(_) => {},
    }
    r
}

/// What the leaves of a tree contribute to its continuity.
pub fn continuity_projection(evidence: &Vec<&ConditionLeafEvidence>) -> (r: Vec<
    ContinuityProjection,
>)
    ensures
        r@ == continuity_of_all(evidence_views(evidence@)),
{
    let ghost wanted = continuity_of_all(evidence_views(evidence@));
    let mut r: Vec<ContinuityProjection> = Vec::new();
    let mut i: usize = 0;
    while i < evidence.len()
        invariant
            i <= evidence.len(),
            wanted == continuity_of_all(evidence_views(evidence@)),
            r@ == wanted.take(i as int),
        decreases evidence.len() - i,
    {
        r.push(project_leaf(i, evidence[i]));
        assert(r@ =~= wanted.take(i + 1));
        i = i + 1;
    }
    assert(r@ =~= wanted);
    r
}

/// What the hashes of an evaluation are taken over.
#[derive(Clone, Copy, Debug, PartialEq, Eq, Structural)]
pub enum EvaluationBasis {
    /// The input fingerprint over the evidence, the continuity over binding,
    /// binding revision and continuity projections, the evaluation over the
    /// tree.
    Evidence,
    /// Fingerprint and continuity over the binding, the evaluation over the
    /// condition and the tree.
    Binding,
}

/// The evaluation of an artifact.
#[derive(Debug, PartialEq, Eq)]
pub struct EntryConditionEvaluation {
    pub truth: ConditionTruth,
    pub tree: ConditionNodeEvaluation,
    pub basis: EvaluationBasis,
    pub continuity: Vec<ContinuityProjection>,
    pub fold_state: EntryConditionFoldState,
}

/// An evaluation with its lists as sequences.
pub ghost struct EvaluationView {
    pub truth: ConditionTruth,
    pub tree: NodeView,
    pub basis: EvaluationBasis,
    pub continuity: Seq<ContinuityProjection>,
    pub states: Seq<CryptoEnteredFoldState>,
}

impl View for EntryConditionEvaluation {
    type V = EvaluationView;

    open spec fn view(&self) -> EvaluationView {
        EvaluationView {
            truth: self.truth,
            tree: self.tree.tree(),
            basis: self.basis,
            continuity: self.continuity@,
            states: self.fold_state.crypto@,
        }
    }
}

/// The evaluation of a condition that cannot be evaluated at all: one node, no
/// latch left.
pub open spec fn whole_unavailable(
    reason: ConditionUnavailableReason,
    states: Seq<CryptoEnteredFoldState>,
) -> EvaluationView {
    EvaluationView {
        truth: ConditionTruth::Unavailable(reason),
        tree: leaf_node(
            0,
            LeafView {
                truth: ConditionTruth::Unavailable(reason),
                evidence: EvidenceView::Unavailable(reason),
            },
        ),
        basis: EvaluationBasis::Binding,
        continuity: Seq::empty(),
        states: all_unlatched(states),
    }
}

/// The evaluation of an artifact: unavailable where its binding is, or where
/// the input was bound otherwise; else that of its tree.
pub open spec fn evaluation(
    artifact: EntryConditionArtifactV1,
    input: EntryConditionInputSet,
) -> Result<EvaluationView, ErrorView> {
    let states = input.fold_state.crypto@;
    match input.binding_unavailable_reason {
        Some(reason) => Ok(whole_unavailable(reason, states)),
        None => if artifact.binding@ != input.binding@ {
            Ok(whole_unavailable(ConditionUnavailableReason::BindingDrift, states))
        } else {
            match evaluated(artifact.root, input, states, 0) {
                None => Err(node_overflow()),
                Some(tree) => Ok(
                    EvaluationView {
                        truth: tree.value.truth,
                        tree: tree.value,
                        basis: EvaluationBasis::Evidence,
                        continuity: continuity_of_all(flattened(tree.value)),
                        states: tree.states,
                    },
                ),
            }
        },
    }
}

fn clone_folds(state: &EntryConditionFoldState) -> (r: EntryConditionFoldState)
    ensures
        r.crypto@ == state.crypto@,
{
    let mut crypto: Vec<CryptoEnteredFoldState> = Vec::new();
    let mut i: usize = 0;
    while i < state.crypto.len()
        invariant
            i <= state.crypto.len(),
            crypto@ == state.crypto@.take(i as int),
        decreases state.crypto.len() - i,
    {
        crypto.push(state.crypto[i].clone());
        assert(crypto@ =~= state.crypto@.take(i + 1));
        i = i + 1;
    }
    assert(crypto@ =~= state.crypto@);
    EntryConditionFoldState { crypto }
}

fn unavailable_evaluation(
    reason: ConditionUnavailableReason,
    fold_state: EntryConditionFoldState,
) -> (r: EntryConditionEvaluation)
    ensures
        r@ == (EvaluationView {
            states: fold_state.crypto@,
            ..whole_unavailable(reason, Seq::empty())
        }),
{
    EntryConditionEvaluation {
        truth: ConditionTruth::Unavailable(reason.clone()),
        tree: leaf(
            0,
            (
                ConditionTruth::Unavailable(reason.clone()),
                ConditionLeafEvidence::Unavailable(reason),
            ),
        ),
        basis: EvaluationBasis::Binding,
        continuity: Vec::new(),
        fold_state,
    }
}

/// Evaluate a canonical artifact against a fully materialized input set. The
/// same ordered facts give the same evaluation.
pub fn evaluate_entry_condition(
    artifact: &EntryConditionArtifactV1,
    input: &EntryConditionInputSet,
) -> (r: Result<EntryConditionEvaluation, ExecutionError>)
    ensures
        match r {
            Ok(done) => evaluation(*artifact, *input) == Ok::<EvaluationView, ErrorView>(done@),
            Err(error) => evaluation(*artifact, *input) == Err::<EvaluationView, ErrorView>(
                error@,
            ),
        },
{
    let mut fold_state = clone_folds(&input.fold_state);
    if let Some(reason) = &input.binding_unavailable_reason {
        clear_crypto_latches(&mut fold_state);
        return Ok(unavailable_evaluation(reason.clone(), fold_state));
    }
    if !artifact.binding.same(&input.binding) {
        clear_crypto_latches(&mut fold_state);
        return Ok(unavailable_evaluation(ConditionUnavailableReason::BindingDrift, fold_state));
    }
    let mut node_id: u16 = 0;
    let tree = match evaluate_node(&artifact.root, input, &mut fold_state, &mut node_id) {
        Ok(tree) => tree,
        Err(error) => {
            return Err(error);
        },
    };
    let evidence = flatten_evidence(&tree);
    let continuity = continuity_projection(&evidence);
    let truth = tree.truth.clone();
    Ok(
        EntryConditionEvaluation {
            truth,
            tree,
            basis: EvaluationBasis::Evidence,
            continuity,
            fold_state,
        },
    )
}

/// A condition of which all parts have to hold is satisfied exactly when every
/// part is, and unsatisfied exactly when some part is.
pub proof fn all_is_conjunction(children: Seq<NodeView>)
    ensures
        joined_truth(children, CompositeKind::All).0 is Satisfied <==> forall|i: int|
            0 <= i < children.len() ==> (#[trigger] children[i]).truth is Satisfied,
        joined_truth(children, CompositeKind::All).0 is Unsatisfied <==> exists|i: int|
            0 <= i < children.len() && (#[trigger] children[i]).truth is Unsatisfied,
{
    crate::search::first_match_is_first(
        children,
        |child: NodeView| child.truth == CompositeKind::All.forcing(),
    );
    crate::search::first_match_is_first(children, |child: NodeView| child.truth is Unavailable);
}

/// A condition of which one part has to hold is satisfied exactly when some
/// part is, and unsatisfied exactly when every part is.
pub proof fn any_is_disjunction(children: Seq<NodeView>)
    ensures
        joined_truth(children, CompositeKind::Any).0 is Satisfied <==> exists|i: int|
            0 <= i < children.len() && (#[trigger] children[i]).truth is Satisfied,
        joined_truth(children, CompositeKind::Any).0 is Unsatisfied <==> forall|i: int|
            0 <= i < children.len() ==> (#[trigger] children[i]).truth is Unsatisfied,
{
    crate::search::first_match_is_first(
        children,
        |child: NodeView| child.truth == CompositeKind::Any.forcing(),
    );
    crate::search::first_match_is_first(children, |child: NodeView| child.truth is Unavailable);
}

/// An artifact whose binding drifted, or is unavailable, fails closed: its
/// truth is unavailable and no leaf stays latched.
pub proof fn lost_binding_fails_closed(
    artifact: EntryConditionArtifactV1,
    input: EntryConditionInputSet,
)
    requires
        input.binding_unavailable_reason is Some || artifact.binding@ != input.binding@,
    ensures
        evaluation(artifact, input) matches Ok(done) && done.truth is Unavailable && forall|i: int|
            0 <= i < done.states.len() ==> !(#[trigger] done.states[i]).latched,
{
}

} // verus!
