//! What evaluating a condition tree is for.
use vstd::prelude::*;

use crate::entry_condition::model::{
    ConditionTruth, ConditionUnavailableReason, CryptoEnteredFoldState, EntryConditionArtifactV1,
    EntryConditionInputSet, EntryConditionV1, EvidenceView,
};
use crate::entry_condition::tree::{
    all_is_conjunction, any_is_disjunction, continuity_of, evaluated, evaluated_children,
    evaluation, EntryConditionEvaluation,
};
use crate::entry_condition_worker::{
    applied_evaluation, evaluated_next, sleeping_time, EvaluationHashes, LeasedInstance,
};
use crate::time::Timestamp;

verus! {

/// A clock rings at its deadline and from there on; it is never in doubt and
/// changes nothing else.
pub proof fn clocks_ring_at_their_deadline(
    condition: EntryConditionV1,
    input: EntryConditionInputSet,
    states: Seq<CryptoEnteredFoldState>,
    next: int,
)
    requires
        condition is Clock,
        0 <= next < u16::MAX,
    ensures
        evaluated(condition, input, states, next) matches Some(done) && {
            &&& done.value.truth is Satisfied <==> condition->Clock_0.deadline_at@
                <= input.evaluated_at@
            &&& done.value.truth is Unsatisfied <==> input.evaluated_at@
                < condition->Clock_0.deadline_at@
            &&& done.states == states
            &&& done.next == next + 1
            &&& done.value.node_id == next
        },
{
}

proof fn lemma_every_child_is_evaluated(
    conditions: Seq<EntryConditionV1>,
    input: EntryConditionInputSet,
    states: Seq<CryptoEnteredFoldState>,
    next: int,
)
    ensures
        evaluated_children(conditions, input, states, next) matches Some(done) ==> done.value.len()
            == conditions.len(),
    decreases conditions,
{
    if conditions.len() > 0 {
        lemma_every_child_is_evaluated(conditions.drop_last(), input, states, next);
    }
}

/// All of several conditions hold exactly where each of them does, and fail
/// exactly where one of them does; every child is looked at.
pub proof fn all_hold_where_each_does(
    condition: EntryConditionV1,
    input: EntryConditionInputSet,
    states: Seq<CryptoEnteredFoldState>,
    next: int,
)
    requires
        condition is All,
    ensures
        evaluated(condition, input, states, next) matches Some(done) ==> {
            &&& done.value.children.len() == condition->All_children@.len()
            &&& done.value.truth is Satisfied <==> forall|i: int|
                0 <= i < done.value.children.len() ==> (
                #[trigger] done.value.children[i]).truth is Satisfied
            &&& done.value.truth is Unsatisfied <==> exists|i: int|
                0 <= i < done.value.children.len() && (#[trigger] done.value.children[i]).truth
                    is Unsatisfied
        },
{
    if evaluated(condition, input, states, next) is Some {
        let children = condition->All_children@;
        lemma_every_child_is_evaluated(children, input, states, next + 1);
        all_is_conjunction(evaluated_children(children, input, states, next + 1)->0.value);
    }
}

/// One of several conditions holds exactly where some of them does, and none does
/// exactly where each fails; every child is looked at.
pub proof fn one_holds_where_some_does(
    condition: EntryConditionV1,
    input: EntryConditionInputSet,
    states: Seq<CryptoEnteredFoldState>,
    next: int,
)
    requires
        condition is Any,
    ensures
        evaluated(condition, input, states, next) matches Some(done) ==> {
            &&& done.value.children.len() == condition->Any_children@.len()
            &&& done.value.truth is Satisfied <==> exists|i: int|
                0 <= i < done.value.children.len() && (#[trigger] done.value.children[i]).truth
                    is Satisfied
            &&& done.value.truth is Unsatisfied <==> forall|i: int|
                0 <= i < done.value.children.len() ==> (
                #[trigger] done.value.children[i]).truth is Unsatisfied
        },
{
    if evaluated(condition, input, states, next) is Some {
        let children = condition->Any_children@;
        lemma_every_child_is_evaluated(children, input, states, next + 1);
        any_is_disjunction(evaluated_children(children, input, states, next + 1)->0.value);
    }
}

/// A condition whose binding is lost or has changed is unavailable for that
/// reason, and every latch is let go; otherwise its truth is that of its tree.
pub proof fn bindings_come_before_truth(
    artifact: EntryConditionArtifactV1,
    input: EntryConditionInputSet,
)
    ensures
        input.binding_unavailable_reason matches Some(reason) ==> (evaluation(artifact, input)
            matches Ok(done) && done.truth == ConditionTruth::Unavailable(reason)),
        input.binding_unavailable_reason is None && artifact.binding@ != input.binding@ ==> (
        evaluation(artifact, input) matches Ok(done) && done.truth == ConditionTruth::Unavailable(
            ConditionUnavailableReason::BindingDrift,
        )),
        input.binding_unavailable_reason is Some || artifact.binding@ != input.binding@ ==> (
        evaluation(artifact, input) matches Ok(done) && (forall|i: int|
            0 <= i < done.states.len() ==> !(#[trigger] done.states[i]).latched)),
        input.binding_unavailable_reason is None && artifact.binding@ == input.binding@ ==> (
        evaluation(artifact, input) matches Ok(done) ==> evaluated(
            artifact.root,
            input,
            input.fold_state.crypto@,
            0,
        ) matches Some(tree) && done.truth == tree.value.truth && done.states == tree.states),
{
}

/// What has to stay the same for a condition to be held without a break: the
/// generation of each feed, and of a latch whether it is set, by what, and in
/// which stretch.
pub proof fn breaks_are_told(node_index: usize, evidence: EvidenceView)
    ensures
        continuity_of(node_index, evidence).node_index == node_index,
        evidence matches EvidenceView::Price(value) ==> continuity_of(
            node_index,
            evidence,
        ).gap_generation == Some(value.gap_generation),
        evidence matches EvidenceView::Crypto { input, state } ==> {
            let told = continuity_of(node_index, evidence);
            &&& told.gap_generation == Some(input.gap_generation)
            &&& told.latched == Some(state.latched)
            &&& told.discontinuity_epoch == Some(state.discontinuity_epoch)
            &&& told.revision_hash == state.triggering_report_hash
            &&& told.source == Some(input.source)
        },
        evidence matches EvidenceView::Weather(value) ==> {
            let told = continuity_of(node_index, evidence);
            &&& told.gap_generation == Some(value.gap_generation)
            &&& told.revision == Some(value.revision)
            &&& told.revision_hash == Some(value.report_hash)
            &&& told.source == Some(value.key.source)
        },
        evidence matches EvidenceView::Factor(value) ==> continuity_of(
            node_index,
            evidence,
        ).revision_hash == Some(value.snapshot_hash),
        evidence is Clock ==> continuity_of(node_index, evidence).gap_generation is None
            && continuity_of(node_index, evidence).revision_hash is None,
{
}

/// An evaluation is stored against the revision and lease it was made under, with
/// its own truth and hashes, and is followed by another one, at the next deadline
/// or after the delay, whichever is first.
pub proof fn evaluations_are_stored_as_made(
    instance: LeasedInstance,
    artifact: EntryConditionArtifactV1,
    done: EntryConditionEvaluation,
    hashes: EvaluationHashes,
    tree_json: Result<String, String>,
    delay_ms: u64,
    evaluated_at: Timestamp,
)
    ensures
        applied_evaluation(
            instance,
            artifact,
            done,
            hashes,
            tree_json,
            delay_ms,
            evaluated_at,
        ) is Ok <==> tree_json is Ok && delay_ms <= i64::MAX,
        applied_evaluation(
            instance,
            artifact,
            done,
            hashes,
            tree_json,
            delay_ms,
            evaluated_at,
        ) matches Ok(row) ==> {
            &&& row.expected_revision == instance.revision
            &&& row.expected_lease_epoch == instance.lease_epoch
            &&& row.truth == done.truth
            &&& row.evaluation_hash == hashes.evaluation_hash
            &&& row.input_fingerprint == hashes.input_fingerprint
            &&& row.continuity_hash == hashes.continuity_hash
            &&& row.states == done.fold_state.crypto@
            &&& row.evaluated_at == evaluated_at
            &&& row.evaluator_version == artifact.evaluator_version
            &&& (row.next_evaluation_at matches Some(at) && at@ <= Timestamp::of_nanos(
                evaluated_at@ + delay_ms * 1000000,
            )@)
            &&& row.state is Qualified && !(instance.state is Consumed || instance.state is Expired
                || instance.state is Invalidated) ==> done.truth is Satisfied
            &&& instance.state is Consumed || instance.state is Expired || instance.state
                is Invalidated ==> row.state == instance.state
        },
        evaluated_next(artifact.root, evaluated_at, delay_ms)@ <= Timestamp::of_nanos(
            evaluated_at@ + delay_ms * 1000000,
        )@,
{
}

/// The worker sleeps past no deadline and no longer than its backstop; without
/// a deadline, the whole of it.
pub proof fn workers_wake_in_time(backstop_ms: u64, deadline: Timestamp, now: Timestamp)
    ensures
        sleeping_time(backstop_ms, None, now) == backstop_ms * 1000000,
        0 <= sleeping_time(backstop_ms, Some(deadline), now) <= backstop_ms * 1000000,
        deadline@ <= now@ ==> sleeping_time(backstop_ms, Some(deadline), now) == 0,
        deadline@ > now@ ==> now@ + sleeping_time(backstop_ms, Some(deadline), now) <= deadline@,
        now@ <= deadline@ <= now@ + backstop_ms * 1000000 ==> now@ + sleeping_time(
            backstop_ms,
            Some(deadline),
            now,
        ) == deadline@,
        deadline@ - now@ >= backstop_ms * 1000000 ==> sleeping_time(
            backstop_ms,
            Some(deadline),
            now,
        ) == backstop_ms * 1000000 || deadline@ <= now@,
{
}

} // verus!
