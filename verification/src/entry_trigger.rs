//! Durable entry-trigger observation state machine.
use vstd::prelude::*;

use crate::decimal::Price;
use crate::time::Timestamp;
use crate::types::PriceComparison;

verus! {

/// What has to happen before an intent may be submitted.
#[derive(Clone, Copy, Debug, PartialEq, Eq)]
pub enum EntryTrigger {
    /// Nothing.
    Immediate,
    /// The best ask has to meet the threshold without interruption.
    PriceCondition {
        comparison: PriceComparison,
        threshold: Price,
        confirmation_secs: u64,
        max_observation_gap_ms: u64,
    },
}

/// Persisted state of an entry trigger.
#[derive(Clone, Copy, Debug, PartialEq, Eq, Structural)]
pub enum EntryTriggerState {
    NotRequired,
    Waiting,
    Confirming,
    Ready,
}

/// Process-local continuity proof. It is deliberately not reconstructed after
/// restart: a persisted `Confirming` row without this proof resets fail-closed.
#[derive(Clone, Copy, Debug, PartialEq, Eq, Structural)]
pub struct ConfirmationProgress {
    pub confirming_since: Timestamp,
    pub last_observed_at: Timestamp,
}

/// A state change that the caller has to persist.
#[derive(Clone, Copy, Debug, PartialEq, Eq)]
pub struct EntryTriggerTransition {
    pub state: EntryTriggerState,
    pub confirming_since: Option<Timestamp>,
    pub last_observed_at: Option<Timestamp>,
    pub ready_at: Option<Timestamp>,
}

/// Outcome of one observation.
#[derive(Clone, Copy, Debug, PartialEq, Eq)]
pub struct TriggerEvaluation {
    pub transition: Option<EntryTriggerTransition>,
    pub progress: Option<ConfirmationProgress>,
    pub ready: bool,
}

/// Whether a price meets a threshold.
pub open spec fn price_meets(comparison: PriceComparison, price: Price, threshold: Price) -> bool {
    match comparison {
        PriceComparison::AtOrAbove => threshold@ <= price@,
        PriceComparison::AtOrBelow => price@ <= threshold@,
    }
}

/// Whether a price meets a threshold.
pub fn compare(comparison: PriceComparison, price: Price, threshold: Price) -> (r: bool)
    ensures
        r == price_meets(comparison, price, threshold),
{
    match comparison {
        PriceComparison::AtOrAbove => threshold.le(price),
        PriceComparison::AtOrBelow => price.le(threshold),
    }
}

impl EntryTrigger {
    /// Whether an observation of the book satisfies the trigger: always for an
    /// immediate one, otherwise a fresh best ask has to meet the threshold.
    pub open spec fn satisfied_by(self, best_ask: Option<Price>, book_fresh: bool) -> bool {
        match self {
            EntryTrigger::Immediate => true,
            EntryTrigger::PriceCondition { comparison, threshold, .. } => {
                book_fresh && best_ask is Some && price_meets(comparison, best_ask->0, threshold)
            },
        }
    }

    /// Whether a run of observations that was last extended at `progress` is
    /// still unbroken at `now`.
    pub open spec fn unbroken(self, progress: ConfirmationProgress, now: Timestamp) -> bool {
        match self {
            EntryTrigger::Immediate => true,
            EntryTrigger::PriceCondition { max_observation_gap_ms, .. } => now@
                - progress.last_observed_at@ <= max_observation_gap_ms * 1000000,
        }
    }

    /// Whether a run that started at `since` is long enough at `now`.
    pub open spec fn confirmed(self, since: Timestamp, now: Timestamp) -> bool {
        match self {
            EntryTrigger::Immediate => true,
            EntryTrigger::PriceCondition { confirmation_secs, .. } => now@ - since@
                >= confirmation_secs * 1000000000,
        }
    }

    /// Whether the trigger asks for a run of observations at all.
    pub open spec fn needs_confirmation(self) -> bool {
        match self {
            EntryTrigger::Immediate => false,
            EntryTrigger::PriceCondition { confirmation_secs, .. } => confirmation_secs > 0,
        }
    }
}

impl TriggerEvaluation {
    /// An evaluation that changes nothing durable.
    pub open spec fn unchanged(progress: Option<ConfirmationProgress>, ready: bool) -> Self {
        TriggerEvaluation { transition: None, progress, ready }
    }

    /// An evaluation that moves to `state`.
    pub open spec fn moved(
        state: EntryTriggerState,
        progress: Option<ConfirmationProgress>,
        now: Timestamp,
    ) -> Self {
        TriggerEvaluation {
            transition: Some(
                EntryTriggerTransition {
                    state,
                    confirming_since: match progress {
                        Some(p) => Some(p.confirming_since),
                        None => None,
                    },
                    last_observed_at: match progress {
                        Some(p) => Some(p.last_observed_at),
                        None => None,
                    },
                    ready_at: if state == EntryTriggerState::Ready {
                        Some(now)
                    } else {
                        None
                    },
                },
            ),
            progress,
            ready: state == EntryTriggerState::Ready,
        }
    }

    fn transition(
        state: EntryTriggerState,
        progress: Option<ConfirmationProgress>,
        now: Timestamp,
    ) -> (r: Self)
        ensures
            r == TriggerEvaluation::moved(state, progress, now),
    {
        let ready = state == EntryTriggerState::Ready;
        let confirming_since = match progress {
            Some(p) => Some(p.confirming_since),
            None => None,
        };
        let last_observed_at = match progress {
            Some(p) => Some(p.last_observed_at),
            None => None,
        };
        TriggerEvaluation {
            transition: Some(
                EntryTriggerTransition {
                    state,
                    confirming_since,
                    last_observed_at,
                    ready_at: if ready {
                        Some(now)
                    } else {
                        None
                    },
                },
            ),
            progress,
            ready,
        }
    }
}

/// What one observation does to a trigger.
///
/// An immediate trigger is ready at once. An unsatisfied one falls back to
/// `Waiting`. A satisfied one that is already `Ready` stays so; otherwise it
/// becomes ready at once when no confirmation is asked for, or after an
/// unbroken run of satisfied observations that is long enough. A run that was
/// interrupted starts anew; a persisted `Confirming` state whose run is not
/// known to this process falls back to `Waiting`.
pub open spec fn trigger_outcome(
    trigger: EntryTrigger,
    persisted_state: EntryTriggerState,
    progress: Option<ConfirmationProgress>,
    best_ask: Option<Price>,
    book_fresh: bool,
    now: Timestamp,
) -> TriggerEvaluation {
    let started = ConfirmationProgress { confirming_since: now, last_observed_at: now };
    if trigger is Immediate {
        TriggerEvaluation::unchanged(None, true)
    } else if !trigger.satisfied_by(best_ask, book_fresh) {
        if persisted_state is Waiting && progress is None {
            TriggerEvaluation::unchanged(None, false)
        } else {
            TriggerEvaluation::moved(EntryTriggerState::Waiting, None, now)
        }
    } else if persisted_state is Ready {
        TriggerEvaluation::unchanged(progress, true)
    } else if !trigger.needs_confirmation() {
        TriggerEvaluation::moved(EntryTriggerState::Ready, None, now)
    } else {
        match progress {
            None => if persisted_state is Confirming {
                TriggerEvaluation::moved(EntryTriggerState::Waiting, None, now)
            } else {
                TriggerEvaluation::moved(EntryTriggerState::Confirming, Some(started), now)
            },
            Some(run) => if !trigger.unbroken(run, now) {
                TriggerEvaluation::moved(EntryTriggerState::Confirming, Some(started), now)
            } else {
                let extended = ConfirmationProgress {
                    confirming_since: run.confirming_since,
                    last_observed_at: now,
                };
                if trigger.confirmed(run.confirming_since, now) {
                    TriggerEvaluation::moved(EntryTriggerState::Ready, Some(extended), now)
                } else {
                    TriggerEvaluation::unchanged(Some(extended), false)
                }
            },
        }
    }
}

/// Observe one fresh best ask. The caller persists only returned transitions
/// and keeps `progress` in memory between scans.
pub fn evaluate_entry_trigger(
    trigger: &EntryTrigger,
    persisted_state: EntryTriggerState,
    progress: Option<ConfirmationProgress>,
    best_ask: Option<Price>,
    book_fresh: bool,
    now: Timestamp,
) -> (r: TriggerEvaluation)
    ensures
        r == trigger_outcome(*trigger, persisted_state, progress, best_ask, book_fresh, now),
{
    match *trigger {
        EntryTrigger::Immediate => TriggerEvaluation {
            transition: None,
            progress: None,
            ready: true,
        },
        EntryTrigger::PriceCondition {
            comparison,
            threshold,
            confirmation_secs,
            max_observation_gap_ms,
        } => {
            let satisfied = book_fresh && match best_ask {
                Some(price) => compare(comparison, price, threshold),
                None => false,
            };
            if !satisfied {
                return if persisted_state == EntryTriggerState::Waiting && progress.is_none() {
                    TriggerEvaluation { transition: None, progress: None, ready: false }
                } else {
                    TriggerEvaluation::transition(EntryTriggerState::Waiting, None, now)
                };
            }
            if persisted_state == EntryTriggerState::Ready {
                return TriggerEvaluation { transition: None, progress, ready: true };
            }
            if confirmation_secs == 0 {
                return TriggerEvaluation::transition(EntryTriggerState::Ready, None, now);
            }
            let started = ConfirmationProgress { confirming_since: now, last_observed_at: now };
            match progress {
                None => if persisted_state == EntryTriggerState::Confirming {
                    TriggerEvaluation::transition(EntryTriggerState::Waiting, None, now)
                } else {
                    TriggerEvaluation::transition(
                        EntryTriggerState::Confirming,
                        Some(started),
                        now,
                    )
                },
                Some(run) => {
                    if now.since(run.last_observed_at) > max_observation_gap_ms as i128 * 1000000 {
                        return TriggerEvaluation::transition(
                            EntryTriggerState::Confirming,
                            Some(started),
                            now,
                        );
                    }
                    let extended = ConfirmationProgress {
                        confirming_since: run.confirming_since,
                        last_observed_at: now,
                    };
                    if now.since(run.confirming_since) >= confirmation_secs as i128 * 1000000000 {
                        TriggerEvaluation::transition(
                            EntryTriggerState::Ready,
                            Some(extended),
                            now,
                        )
                    } else {
                        TriggerEvaluation {
                            transition: None,
                            progress: Some(extended),
                            ready: false,
                        }
                    }
                },
            }
        },
    }
}

/// A trigger is never ready on an observation that does not satisfy it, and
/// such an observation ends any run.
pub proof fn unsatisfied_is_never_ready(
    trigger: EntryTrigger,
    persisted_state: EntryTriggerState,
    progress: Option<ConfirmationProgress>,
    best_ask: Option<Price>,
    book_fresh: bool,
    now: Timestamp,
)
    requires
        !trigger.satisfied_by(best_ask, book_fresh),
    ensures
        !trigger_outcome(trigger, persisted_state, progress, best_ask, book_fresh, now).ready,
        trigger_outcome(
            trigger,
            persisted_state,
            progress,
            best_ask,
            book_fresh,
            now,
        ).progress is None,
{
}

/// A trigger that asks for confirmation becomes ready only at the end of an
/// unbroken run that is at least as long as asked for.
pub proof fn readiness_needs_an_unbroken_run(
    trigger: EntryTrigger,
    persisted_state: EntryTriggerState,
    progress: Option<ConfirmationProgress>,
    best_ask: Option<Price>,
    book_fresh: bool,
    now: Timestamp,
)
    requires
        trigger.needs_confirmation(),
        !(persisted_state is Ready),
        trigger_outcome(trigger, persisted_state, progress, best_ask, book_fresh, now).ready,
    ensures
        progress is Some,
        trigger.unbroken(progress->0, now),
        trigger.confirmed(progress->0.confirming_since, now),
{
}

/// After a restart a persisted `Confirming` trigger never becomes ready on its
/// first observation: it falls back to `Waiting`.
pub proof fn restart_resets_confirmation(
    trigger: EntryTrigger,
    best_ask: Option<Price>,
    book_fresh: bool,
    now: Timestamp,
)
    requires
        trigger.needs_confirmation(),
    ensures
        trigger_outcome(trigger, EntryTriggerState::Confirming, None, best_ask, book_fresh, now)
            == TriggerEvaluation::moved(EntryTriggerState::Waiting, None, now),
{
}

/// A run that is observed again keeps its start: what one observation leaves
/// in `progress` is either a run that begins now or the same run extended to
/// now.
pub proof fn runs_are_extended_or_restarted(
    trigger: EntryTrigger,
    persisted_state: EntryTriggerState,
    progress: Option<ConfirmationProgress>,
    best_ask: Option<Price>,
    book_fresh: bool,
    now: Timestamp,
)
    requires
        !(persisted_state is Ready),
    ensures
        trigger_outcome(
            trigger,
            persisted_state,
            progress,
            best_ask,
            book_fresh,
            now,
        ).progress matches Some(run) ==> run.last_observed_at == now && (run.confirming_since
            == now || (progress is Some && run.confirming_since == progress->0.confirming_since)),
{
}

} // verus!
