//! The durable state of an entry condition.
use vstd::prelude::*;

use crate::entry_condition::model::{ConditionTruth, ConfirmationPolicy};
use crate::time::Timestamp;
use crate::types::ContentHash;

verus! {

/// Durable state of a condition instance.
#[derive(Clone, Copy, Debug, PartialEq, Eq, Structural)]
pub enum EntryConditionState {
    /// The recommendation has no condition.
    NotRequired,
    Waiting,
    Confirming,
    Qualified,
    Unavailable,
    Consumed,
    Expired,
    Invalidated,
}

impl EntryConditionState {
    /// Whether no evaluation changes the state any more.
    pub open spec fn is_terminal(self) -> bool {
        self is Consumed || self is Expired || self is Invalidated
    }

    /// How the state is written.
    pub open spec fn text(self) -> Seq<char> {
        match self {
            EntryConditionState::NotRequired => "not_required"@,
            EntryConditionState::Waiting => "waiting"@,
            EntryConditionState::Confirming => "confirming"@,
            EntryConditionState::Qualified => "qualified"@,
            EntryConditionState::Unavailable => "unavailable"@,
            EntryConditionState::Consumed => "consumed"@,
            EntryConditionState::Expired => "expired"@,
            EntryConditionState::Invalidated => "invalidated"@,
        }
    }

    /// Writes the state out.
    pub fn as_str(self) -> (r: &'static str)
        ensures
            r@ == self.text(),
    {
        match self {
            EntryConditionState::NotRequired => "not_required",
            EntryConditionState::Waiting => "waiting",
            EntryConditionState::Confirming => "confirming",
            EntryConditionState::Qualified => "qualified",
            EntryConditionState::Unavailable => "unavailable",
            EntryConditionState::Consumed => "consumed",
            EntryConditionState::Expired => "expired",
            EntryConditionState::Invalidated => "invalidated",
        }
    }
}

/// Next durable state and the start of its confirmation.
#[derive(Clone, Copy, Debug, PartialEq, Eq, Structural)]
pub struct EntryConditionStateDecision {
    pub state: EntryConditionState,
    pub confirmation_started_at: Option<Timestamp>,
}

/// Since when a satisfied condition has been confirming: from now where its
/// continuity changed or it was not looked at for too long, else since the
/// start that is on record.
pub open spec fn confirming_since(
    started_at: Option<Timestamp>,
    previous_continuity: Option<ContentHash>,
    previous_evaluated_at: Option<Timestamp>,
    confirmation: ConfirmationPolicy,
    continuity: ContentHash,
    evaluated_at: Timestamp,
) -> Timestamp {
    let changed = previous_continuity is Some && previous_continuity->0 != continuity;
    let missed = previous_evaluated_at is Some && evaluated_at@ - previous_evaluated_at->0@
        > confirmation.max_observation_gap_ms * 1000000;
    if changed || missed {
        evaluated_at
    } else {
        match started_at {
            Some(start) => start,
            None => evaluated_at,
        }
    }
}

/// The durable transition. Anything but satisfaction clears the confirmation;
/// satisfaction qualifies once it has lasted long enough.
pub open spec fn next_state(
    current: EntryConditionState,
    started_at: Option<Timestamp>,
    previous_continuity: Option<ContentHash>,
    previous_evaluated_at: Option<Timestamp>,
    confirmation: ConfirmationPolicy,
    truth: ConditionTruth,
    continuity: ContentHash,
    evaluated_at: Timestamp,
) -> EntryConditionStateDecision {
    if current.is_terminal() {
        EntryConditionStateDecision { state: current, confirmation_started_at: started_at }
    } else {
        match truth {
            ConditionTruth::Unavailable(_) => EntryConditionStateDecision {
                state: EntryConditionState::Unavailable,
                confirmation_started_at: None,
            },
            ConditionTruth::Unsatisfied => EntryConditionStateDecision {
                state: EntryConditionState::Waiting,
                confirmation_started_at: None,
            },
            ConditionTruth::Satisfied => if confirmation.required_continuous_ms == 0 {
                EntryConditionStateDecision {
                    state: EntryConditionState::Qualified,
                    confirmation_started_at: Some(evaluated_at),
                }
            } else {
                let start = confirming_since(
                    started_at,
                    previous_continuity,
                    previous_evaluated_at,
                    confirmation,
                    continuity,
                    evaluated_at,
                );
                EntryConditionStateDecision {
                    state: if evaluated_at@ - start@ >= confirmation.required_continuous_ms
                        * 1000000 {
                        EntryConditionState::Qualified
                    } else {
                        EntryConditionState::Confirming
                    },
                    confirmation_started_at: Some(start),
                }
            },
        }
    }
}

/// Derive the durable transition. Any unavailable, false or gap reset clears
/// continuity; `Qualified` remains revocable until the repository claim.
pub fn decide_entry_condition_state(
    current_state: EntryConditionState,
    current_confirmation_started_at: Option<Timestamp>,
    previous_continuity_hash: Option<ContentHash>,
    previous_evaluated_at: Option<Timestamp>,
    confirmation: ConfirmationPolicy,
    truth: &ConditionTruth,
    continuity_hash: ContentHash,
    evaluated_at: Timestamp,
) -> (r: EntryConditionStateDecision)
    ensures
        r == next_state(
            current_state,
            current_confirmation_started_at,
            previous_continuity_hash,
            previous_evaluated_at,
            confirmation,
            *truth,
            continuity_hash,
            evaluated_at,
        ),
{
    match current_state {
        EntryConditionState::Consumed | EntryConditionState::Expired
        | EntryConditionState::Invalidated => {
            return EntryConditionStateDecision {
                state: current_state,
                confirmation_started_at: current_confirmation_started_at,
            };
        },
        _ => {},
    }
    match truth {
        ConditionTruth::Unavailable(_) => EntryConditionStateDecision {
            state: EntryConditionState::Unavailable,
            confirmation_started_at: None,
        },
        ConditionTruth::Unsatisfied => EntryConditionStateDecision {
            state: EntryConditionState::Waiting,
            confirmation_started_at: None,
        },
        ConditionTruth::Satisfied => {
            if confirmation.required_continuous_ms == 0 {
                return EntryConditionStateDecision {
                    state: EntryConditionState::Qualified,
                    confirmation_started_at: Some(evaluated_at),
                };
            }
            let changed = match previous_continuity_hash {
                Some(previous) => previous != continuity_hash,
                None => false,
            };
            let missed = match previous_evaluated_at {
                Some(previous) => evaluated_at.since(previous)
                    > confirmation.max_observation_gap_ms as i128 * 1000000,
                None => false,
            };
            let start = if changed || missed {
                evaluated_at
            } else {
                match current_confirmation_started_at {
                    Some(start) => start,
                    None => evaluated_at,
                }
            };
            let qualified = evaluated_at.since(start) >= confirmation.required_continuous_ms as i128
                * 1000000;
            EntryConditionStateDecision {
                state: if qualified {
                    EntryConditionState::Qualified
                } else {
                    EntryConditionState::Confirming
                },
                confirmation_started_at: Some(start),
            }
        },
    }
}

/// A consumed, expired or invalidated condition is never revived.
pub proof fn terminal_states_absorb(
    current: EntryConditionState,
    started_at: Option<Timestamp>,
    previous_continuity: Option<ContentHash>,
    previous_evaluated_at: Option<Timestamp>,
    confirmation: ConfirmationPolicy,
    truth: ConditionTruth,
    continuity: ContentHash,
    evaluated_at: Timestamp,
)
    requires
        current.is_terminal(),
    ensures
        next_state(
            current,
            started_at,
            previous_continuity,
            previous_evaluated_at,
            confirmation,
            truth,
            continuity,
            evaluated_at,
        ) == (EntryConditionStateDecision { state: current, confirmation_started_at: started_at }),
{
}

/// A live condition qualifies only on satisfaction that has lasted, without a
/// change of continuity or a missed observation, at least as long as asked.
pub proof fn qualification_is_earned(
    current: EntryConditionState,
    started_at: Option<Timestamp>,
    previous_continuity: Option<ContentHash>,
    previous_evaluated_at: Option<Timestamp>,
    confirmation: ConfirmationPolicy,
    truth: ConditionTruth,
    continuity: ContentHash,
    evaluated_at: Timestamp,
)
    requires
        !current.is_terminal(),
        next_state(
            current,
            started_at,
            previous_continuity,
            previous_evaluated_at,
            confirmation,
            truth,
            continuity,
            evaluated_at,
        ).state is Qualified,
    ensures
        truth is Satisfied,
        confirmation.required_continuous_ms > 0 ==> started_at is Some && evaluated_at@
            - started_at->0@ >= confirmation.required_continuous_ms * 1000000 && (
        previous_continuity is Some ==> previous_continuity->0 == continuity) && (
        previous_evaluated_at is Some ==> evaluated_at@ - previous_evaluated_at->0@
            <= confirmation.max_observation_gap_ms * 1000000),
{
}

/// A qualified condition is revoked as soon as an evaluation does not satisfy
/// it.
pub proof fn qualification_is_revocable(
    started_at: Option<Timestamp>,
    previous_continuity: Option<ContentHash>,
    previous_evaluated_at: Option<Timestamp>,
    confirmation: ConfirmationPolicy,
    truth: ConditionTruth,
    continuity: ContentHash,
    evaluated_at: Timestamp,
)
    requires
        !(truth is Satisfied),
    ensures
        ({
            let next = next_state(
                EntryConditionState::Qualified,
                started_at,
                previous_continuity,
                previous_evaluated_at,
                confirmation,
                truth,
                continuity,
                evaluated_at,
            );
            !(next.state is Qualified) && next.confirmation_started_at is None
        }),
{
}

} // verus!
