//! The durable worker that evaluates entry conditions.
//!
//! An instance is leased, its artifact is held against the hashes on record,
//! its inputs are loaded and evaluated, and the outcome is persisted together
//! with the time of the next evaluation: the periodic one, or the next deadline
//! that the condition itself names.
use vstd::prelude::*;
use vstd::string::*;

use crate::entry_condition::model::{
    ConditionTruth, CryptoEnteredFoldState, EntryConditionArtifactV1, EntryConditionFoldState,
    EntryConditionV1,
};
use crate::entry_condition::state::{
    decide_entry_condition_state, next_state, EntryConditionState, EntryConditionStateDecision,
};
use crate::entry_condition::tree::EntryConditionEvaluation;
use crate::error::{outcome, ErrorView, ExecutionError};
use crate::time::{in_calendar, Timestamp};
use crate::types::ContentHash;

verus! {

/// The earlier of two optional instants; an absent one is never.
pub open spec fn earliest(left: Option<Timestamp>, right: Option<Timestamp>) -> Option<Timestamp> {
    match (left, right) {
        (Some(l), Some(r)) => Some(l.spec_earlier(r)),
        (Some(l), None) => Some(l),
        (None, _) => right,
    }
}

/// The first deadline after `now` among the clock leaves of a condition.
pub open spec fn next_deadline(condition: EntryConditionV1, now: Timestamp) -> Option<Timestamp>
    decreases condition,
{
    match condition {
        EntryConditionV1::Clock(clock) => if clock.deadline_at@ > now@ {
            Some(clock.deadline_at)
        } else {
            None
        },
        EntryConditionV1::All { children } => next_deadline_among(children@, now),
        EntryConditionV1::Any { children } => next_deadline_among(children@, now),
        _ => None,
    }
}

/// The first deadline after `now` among several conditions.
pub open spec fn next_deadline_among(
    conditions: Seq<EntryConditionV1>,
    now: Timestamp,
) -> Option<Timestamp>
    decreases conditions,
{
    if conditions.len() == 0 {
        None
    } else {
        earliest(
            next_deadline_among(conditions.drop_last(), now),
            next_deadline(conditions.last(), now),
        )
    }
}

/// The first deadline after `evaluated_at` that a condition names.
pub fn earliest_future_clock_deadline(node: &EntryConditionV1, evaluated_at: Timestamp) -> (r:
    Option<Timestamp>)
    ensures
        r == next_deadline(*node, evaluated_at),
    decreases node,
{
    match node {
        EntryConditionV1::Clock(clock) => if evaluated_at.before(clock.deadline_at) {
            Some(clock.deadline_at)
        } else {
            None
        },
        EntryConditionV1::All { children } => earliest_among(children, evaluated_at),
        EntryConditionV1::Any { children } => earliest_among(children, evaluated_at),
        _ => None,
    }
}

fn earliest_among(conditions: &Vec<EntryConditionV1>, now: Timestamp) -> (r: Option<Timestamp>)
    ensures
        r == next_deadline_among(conditions@, now),
    decreases conditions,
{
    let mut first: Option<Timestamp> = None;
    let mut i: usize = 0;
    assert(conditions@.take(0) =~= Seq::<EntryConditionV1>::empty());
    while i < conditions.len()
        invariant
            i <= conditions.len(),
            first == next_deadline_among(conditions@.take(i as int), now),
        decreases conditions.len() - i,
    {
        assert(conditions@.take(i + 1).drop_last() =~= conditions@.take(i as int));
        assert(conditions@.take(i + 1).last() == conditions@[i as int]);
        assert(decreases_to!(conditions => conditions@[i as int]));
        let next = earliest_future_clock_deadline(&conditions[i], now);
        first = match (first, next) {
            (Some(l), Some(r)) => Some(l.earlier(r)),
            (Some(l), None) => Some(l),
            (None, _) => next,
        };
        i = i + 1;
    }
    assert(conditions@.take(i as int) =~= conditions@);
    first
}

/// Whether a condition has a clock leaf with this deadline.
pub open spec fn names_deadline(condition: EntryConditionV1, deadline: Timestamp) -> bool
    decreases condition,
{
    match condition {
        EntryConditionV1::Clock(clock) => clock.deadline_at == deadline,
        EntryConditionV1::All { children } => one_names_deadline(children@, deadline),
        EntryConditionV1::Any { children } => one_names_deadline(children@, deadline),
        _ => false,
    }
}

/// Whether one of several conditions has a clock leaf with this deadline.
pub open spec fn one_names_deadline(conditions: Seq<EntryConditionV1>, deadline: Timestamp) -> bool
    decreases conditions,
{
    if conditions.len() == 0 {
        false
    } else {
        one_names_deadline(conditions.drop_last(), deadline) || names_deadline(
            conditions.last(),
            deadline,
        )
    }
}

/// The next deadline is a deadline of the condition after `now`, and no deadline
/// of the condition lies between.
pub proof fn the_next_deadline_is_the_first(
    condition: EntryConditionV1,
    now: Timestamp,
    deadline: Timestamp,
)
    ensures
        next_deadline(condition, now) matches Some(first) ==> first@ > now@ && names_deadline(
            condition,
            first,
        ),
        names_deadline(condition, deadline) && deadline@ > now@ ==> (next_deadline(condition, now)
            matches Some(first) && first@ <= deadline@),
    decreases condition,
{
    match condition {
        EntryConditionV1::All { children } => lemma_next_among(children@, now, deadline),
        EntryConditionV1::Any { children } => lemma_next_among(children@, now, deadline),
        _ => {},
    }
}

proof fn lemma_next_among(conditions: Seq<EntryConditionV1>, now: Timestamp, deadline: Timestamp)
    ensures
        next_deadline_among(conditions, now) matches Some(first) ==> first@ > now@
            && one_names_deadline(conditions, first),
        one_names_deadline(conditions, deadline) && deadline@ > now@ ==> (next_deadline_among(
            conditions,
            now,
        ) matches Some(first) && first@ <= deadline@),
    decreases conditions,
{
    if conditions.len() > 0 {
        lemma_next_among(conditions.drop_last(), now, deadline);
        the_next_deadline_is_the_first(conditions.last(), now, deadline);
    }
}

/// The refusal of a configured duration that no signed count can hold.
pub open spec fn duration_overflow(field: Seq<char>) -> ErrorView {
    ErrorView::Config {
        reason: field + " does not fit i64: "@ + crate::text::conversion_overflow(),
    }
}

/// A configured duration as a signed count of its unit.
pub fn chrono_duration(value: u64, field: &str) -> (r: Result<i64, ExecutionError>)
    ensures
        outcome(r) == (if value <= i64::MAX {
            Ok(value as i64)
        } else {
            Err(duration_overflow(field@))
        }),
{
    if value <= 9223372036854775807 {
        Ok(value as i64)
    } else {
        Err(
            ExecutionError::Config {
                reason: field.to_owned().concat(" does not fit i64: ").concat(
                    "out of range integral type conversion attempted",
                ),
            },
        )
    }
}

/// Until when a lease that starts now is held.
pub fn lease_until(now: Timestamp, lease_duration_secs: u64) -> (r: Result<
    Timestamp,
    ExecutionError,
>)
    requires
        lease_duration_secs <= i64::MAX ==> in_calendar(now@ + lease_duration_secs * 1000000000),
    ensures
        outcome(r) == (if lease_duration_secs <= i64::MAX {
            Ok(Timestamp::of_nanos(now@ + lease_duration_secs * 1000000000))
        } else {
            Err(duration_overflow("lease duration"@))
        }),
{
    match chrono_duration(lease_duration_secs, "lease duration") {
        Err(error) => Err(error),
        Ok(_) => match now.plus_natural_seconds(lease_duration_secs) {
            Some(until) => Ok(until),
            None => Ok(now),
        },
    }
}

/// When a condition is evaluated next: after the configured delay, or at its
/// next deadline where that comes first.
pub open spec fn evaluated_next(
    root: EntryConditionV1,
    evaluated_at: Timestamp,
    delay_ms: u64,
) -> Timestamp {
    let periodic = Timestamp::of_nanos(evaluated_at@ + delay_ms * 1000000);
    match next_deadline(root, evaluated_at) {
        Some(deadline) => deadline.spec_earlier(periodic),
        None => periodic,
    }
}

/// When a condition is evaluated next.
pub fn next_evaluation_at(root: &EntryConditionV1, evaluated_at: Timestamp, delay_ms: u64) -> (r:
    Result<Timestamp, ExecutionError>)
    requires
        delay_ms <= i64::MAX ==> in_calendar(evaluated_at@ + delay_ms * 1000000),
    ensures
        outcome(r) == (if delay_ms <= i64::MAX {
            Ok(evaluated_next(*root, evaluated_at, delay_ms))
        } else {
            Err(duration_overflow("next evaluation delay"@))
        }),
{
    let delay: i64 = match chrono_duration(delay_ms, "next evaluation delay") {
        Ok(delay) => delay,
        Err(error) => return Err(error),
    };
    let periodic = match evaluated_at.plus_millis(delay) {
        Some(periodic) => periodic,
        None => evaluated_at,
    };
    match earliest_future_clock_deadline(root, evaluated_at) {
        Some(deadline) => Ok(deadline.earlier(periodic)),
        None => Ok(periodic),
    }
}

/// A condition is looked at again no later than after the configured delay and
/// no later than at any deadline it names.
pub proof fn no_deadline_is_slept_through(
    root: EntryConditionV1,
    evaluated_at: Timestamp,
    delay_ms: u64,
    deadline: Timestamp,
)
    requires
        names_deadline(root, deadline),
        deadline@ > evaluated_at@,
    ensures
        evaluated_next(root, evaluated_at, delay_ms)@ <= deadline@,
{
    the_next_deadline_is_the_first(root, evaluated_at, deadline);
}

/// How many nanoseconds the worker sleeps at most.
pub open spec fn sleeping_time(
    backstop_interval_ms: u64,
    deadline: Option<Timestamp>,
    now: Timestamp,
) -> int {
    let backstop = backstop_interval_ms * 1000000;
    match deadline {
        Some(at) => if at@ <= now@ {
            0
        } else if at@ - now@ < backstop {
            at@ - now@
        } else {
            backstop
        },
        None => backstop,
    }
}

/// The nanoseconds that the worker sleeps at most: the backstop, or the time
/// to the next wake-up where that is shorter.
pub fn wake_after(backstop_interval_ms: u64, deadline: Option<Timestamp>, now: Timestamp) -> (r:
    u128)
    ensures
        r == (match deadline {
            Some(at) => {
                let until: int = if at@ < now@ {
                    0
                } else {
                    at@ - now@
                };
                if until < backstop_interval_ms * 1000000 {
                    until
                } else {
                    backstop_interval_ms * 1000000
                }
            },
            None => backstop_interval_ms * 1000000,
        }),
        r == sleeping_time(backstop_interval_ms, deadline, now),
{
    let backstop: u128 = backstop_interval_ms as u128 * 1000000;
    match deadline {
        Some(at) => {
            let left: i128 = at.since(now);
            let until: u128 = if left < 0 {
                0
            } else {
                left as u128
            };
            if until < backstop {
                until
            } else {
                backstop
            }
        },
        None => backstop,
    }
}

/// Identity and hash of the artifact of a leased instance, or why the instance
/// cannot be evaluated.
pub fn artifact_reference(artifact_id: Option<u128>, artifact_hash: Option<ContentHash>) -> (r:
    Result<(u128, ContentHash), &'static str>)
    ensures
        match r {
            Ok(reference) => artifact_id == Some(reference.0) && artifact_hash == Some(
                reference.1,
            ),
            Err(detail) => if artifact_id is None {
                detail@ == "conditional instance has no artifact id"@
            } else {
                artifact_hash is None && detail@ == "conditional instance has no artifact hash"@
            },
        },
{
    match artifact_id {
        None => Err("conditional instance has no artifact id"),
        Some(id) => match artifact_hash {
            None => Err("conditional instance has no artifact hash"),
            Some(hash) => Ok((id, hash)),
        },
    }
}

/// A stored condition artifact.
#[derive(Debug, PartialEq, Eq)]
pub struct StoredConditionArtifact {
    /// The hash on record.
    pub content_hash: ContentHash,
    /// Why the artifact has no canonical form, where it has none.
    pub canonical_defect: Option<String>,
    /// The hash of the canonical form.
    pub canonical_hash: Result<ContentHash, String>,
}

/// Why a stored artifact cannot be evaluated, if it cannot.
pub open spec fn artifact_refusal(
    expected_hash: ContentHash,
    stored: Option<StoredConditionArtifact>,
) -> Option<Seq<char>> {
    match stored {
        None => Some("condition artifact is missing"@),
        Some(artifact) => match artifact.canonical_defect {
            Some(error) => Some("condition artifact is invalid: "@ + error@),
            None => match artifact.canonical_hash {
                Err(error) => Some("condition artifact cannot be hashed: "@ + error@),
                Ok(actual) => if actual != expected_hash || artifact.content_hash != actual {
                    Some("condition artifact hash mismatch"@)
                } else {
                    None
                },
            },
        },
    }
}

/// Holds a stored artifact against the hash that the instance was bound to.
pub fn artifact_defect(expected_hash: ContentHash, stored: &Option<StoredConditionArtifact>) -> (r:
    Option<String>)
    ensures
        match r {
            Some(detail) => artifact_refusal(expected_hash, *stored) == Some(detail@),
            None => artifact_refusal(expected_hash, *stored) is None,
        },
{
    match stored {
        None => Some("condition artifact is missing".to_owned()),
        Some(artifact) => match &artifact.canonical_defect {
            Some(error) => Some(
                "condition artifact is invalid: ".to_owned().concat(error.as_str()),
            ),
            None => match &artifact.canonical_hash {
                Err(error) => Some(
                    "condition artifact cannot be hashed: ".to_owned().concat(error.as_str()),
                ),
                Ok(actual) => if *actual != expected_hash || artifact.content_hash != *actual {
                    Some("condition artifact hash mismatch".to_owned())
                } else {
                    None
                },
            },
        },
    }
}

/// Only an artifact whose canonical form hashes to both the bound and the
/// stored hash is evaluated.
pub proof fn only_the_bound_artifact_is_evaluated(
    expected_hash: ContentHash,
    stored: Option<StoredConditionArtifact>,
)
    requires
        artifact_refusal(expected_hash, stored) is None,
    ensures
        stored is Some,
        stored->0.canonical_hash == Ok::<ContentHash, String>(expected_hash),
        stored->0.content_hash == expected_hash,
{
}

/// What is on record of a leased instance.
#[derive(Clone, Copy, Debug, PartialEq, Eq)]
pub struct LeasedInstance {
    pub condition_instance_id: u128,
    pub revision: u64,
    pub lease_epoch: u64,
    pub state: EntryConditionState,
    pub confirmation_started_at: Option<Timestamp>,
    pub continuity_hash: Option<ContentHash>,
    pub last_evaluated_at: Option<Timestamp>,
}

/// The hashes of an evaluation.
#[derive(Clone, Copy, Debug, PartialEq, Eq, Structural)]
pub struct EvaluationHashes {
    pub evaluation_hash: ContentHash,
    pub input_fingerprint: ContentHash,
    pub continuity_hash: ContentHash,
}

/// An evaluation as it is persisted, if revision and lease are still those it
/// was made under.
#[derive(Debug, PartialEq, Eq)]
pub struct ApplyEntryConditionEvaluation {
    pub expected_revision: u64,
    pub expected_lease_epoch: u64,
    pub state: EntryConditionState,
    pub truth: ConditionTruth,
    pub evaluation_hash: ContentHash,
    pub input_fingerprint: ContentHash,
    pub continuity_hash: ContentHash,
    pub fold_state: EntryConditionFoldState,
    pub confirmation_started_at: Option<Timestamp>,
    pub evaluated_at: Timestamp,
    pub next_evaluation_at: Option<Timestamp>,
    pub evaluator_version: u32,
    pub tree_json: String,
}

/// A persisted evaluation with its lists and texts as sequences.
#[verifier::ext_equal]
pub ghost struct ApplyView {
    pub expected_revision: u64,
    pub expected_lease_epoch: u64,
    pub state: EntryConditionState,
    pub truth: ConditionTruth,
    pub evaluation_hash: ContentHash,
    pub input_fingerprint: ContentHash,
    pub continuity_hash: ContentHash,
    pub states: Seq<CryptoEnteredFoldState>,
    pub confirmation_started_at: Option<Timestamp>,
    pub evaluated_at: Timestamp,
    pub next_evaluation_at: Option<Timestamp>,
    pub evaluator_version: u32,
    pub tree_json: Seq<char>,
}

impl View for ApplyEntryConditionEvaluation {
    type V = ApplyView;

    open spec fn view(&self) -> ApplyView {
        ApplyView {
            expected_revision: self.expected_revision,
            expected_lease_epoch: self.expected_lease_epoch,
            state: self.state,
            truth: self.truth,
            evaluation_hash: self.evaluation_hash,
            input_fingerprint: self.input_fingerprint,
            continuity_hash: self.continuity_hash,
            states: self.fold_state.crypto@,
            confirmation_started_at: self.confirmation_started_at,
            evaluated_at: self.evaluated_at,
            next_evaluation_at: self.next_evaluation_at,
            evaluator_version: self.evaluator_version,
            tree_json: self.tree_json@,
        }
    }
}

/// What an evaluation decides for a leased instance.
pub open spec fn state_decision(
    instance: LeasedInstance,
    artifact: EntryConditionArtifactV1,
    truth: ConditionTruth,
    continuity_hash: ContentHash,
    evaluated_at: Timestamp,
) -> EntryConditionStateDecision {
    next_state(
        instance.state,
        instance.confirmation_started_at,
        instance.continuity_hash,
        instance.last_evaluated_at,
        artifact.confirmation,
        truth,
        continuity_hash,
        evaluated_at,
    )
}

/// The evaluation of a leased instance as it is persisted.
pub open spec fn applied_evaluation(
    instance: LeasedInstance,
    artifact: EntryConditionArtifactV1,
    evaluation: EntryConditionEvaluation,
    hashes: EvaluationHashes,
    tree_json: Result<String, String>,
    delay_ms: u64,
    evaluated_at: Timestamp,
) -> Result<ApplyView, ErrorView> {
    match tree_json {
        Err(error) => Err(
            ErrorView::ContractViolation {
                detail: "entry condition evaluation serialization failed: "@ + error@,
            },
        ),
        Ok(json) => if delay_ms > i64::MAX {
            Err(duration_overflow("next evaluation delay"@))
        } else {
            let decision = state_decision(
                instance,
                artifact,
                evaluation.truth,
                hashes.continuity_hash,
                evaluated_at,
            );
            Ok(
                ApplyView {
                    expected_revision: instance.revision,
                    expected_lease_epoch: instance.lease_epoch,
                    state: decision.state,
                    truth: evaluation.truth,
                    evaluation_hash: hashes.evaluation_hash,
                    input_fingerprint: hashes.input_fingerprint,
                    continuity_hash: hashes.continuity_hash,
                    states: evaluation.fold_state.crypto@,
                    confirmation_started_at: decision.confirmation_started_at,
                    evaluated_at,
                    next_evaluation_at: Some(
                        evaluated_next(artifact.root, evaluated_at, delay_ms),
                    ),
                    evaluator_version: artifact.evaluator_version,
                    tree_json: json@,
                },
            )
        },
    }
}

/// Decides the next state of a leased instance and composes what is persisted.
/// The hashes and the serialized tree are computed over the evaluation.
pub fn persist_evaluation(
    instance: LeasedInstance,
    artifact: &EntryConditionArtifactV1,
    evaluation: EntryConditionEvaluation,
    hashes: EvaluationHashes,
    tree_json: Result<String, String>,
    delay_ms: u64,
    evaluated_at: Timestamp,
) -> (r: Result<ApplyEntryConditionEvaluation, ExecutionError>)
    requires
        delay_ms <= i64::MAX ==> in_calendar(evaluated_at@ + delay_ms * 1000000),
    ensures
        match applied_evaluation(
            instance,
            *artifact,
            evaluation,
            hashes,
            tree_json,
            delay_ms,
            evaluated_at,
        ) {
            Ok(applied) => r is Ok && r->Ok_0@ == applied,
            Err(error) => r is Err && r->Err_0@ == error,
        },
{
    let decision = decide_entry_condition_state(
        instance.state,
        instance.confirmation_started_at,
        instance.continuity_hash,
        instance.last_evaluated_at,
        artifact.confirmation,
        &evaluation.truth,
        hashes.continuity_hash,
        evaluated_at,
    );
    let tree_json = match tree_json {
        Ok(json) => json,
        Err(error) => {
            return Err(
                ExecutionError::ContractViolation {
                    detail: "entry condition evaluation serialization failed: ".to_owned().concat(
                        error.as_str(),
                    ),
                },
            );
        },
    };
    let next = match next_evaluation_at(&artifact.root, evaluated_at, delay_ms) {
        Ok(next) => next,
        Err(error) => return Err(error),
    };
    Ok(
        ApplyEntryConditionEvaluation {
            expected_revision: instance.revision,
            expected_lease_epoch: instance.lease_epoch,
            state: decision.state,
            truth: evaluation.truth,
            evaluation_hash: hashes.evaluation_hash,
            input_fingerprint: hashes.input_fingerprint,
            continuity_hash: hashes.continuity_hash,
            fold_state: evaluation.fold_state,
            confirmation_started_at: decision.confirmation_started_at,
            evaluated_at,
            next_evaluation_at: Some(next),
            evaluator_version: artifact.evaluator_version,
            tree_json,
        },
    )
}

} // verus!
