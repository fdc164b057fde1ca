use quant_pivot_execution::decimal::Decimal;
use quant_pivot_execution::entry_trigger::{
    evaluate_entry_trigger, ConfirmationProgress, EntryTrigger, EntryTriggerState,
};
use quant_pivot_execution::time::Timestamp;
use quant_pivot_execution::types::PriceComparison;

fn dec(text: &str) -> Decimal {
    Decimal::parse(text).expect("decimal")
}

/// Seconds into the year 2026.
fn at(second: u32) -> Timestamp {
    Timestamp::new(1_767_225_600 + i64::from(second), 0).expect("valid test time")
}

fn trigger() -> EntryTrigger {
    EntryTrigger::PriceCondition {
        comparison: PriceComparison::AtOrBelow,
        threshold: dec("0.50"),
        confirmation_secs: 5,
        max_observation_gap_ms: 2_000,
    }
}

#[test]
fn confirmation_requires_continuous_process_local_observations() {
    let first = evaluate_entry_trigger(
        &trigger(),
        EntryTriggerState::Waiting,
        None,
        Some(dec("0.49")),
        true,
        at(0),
    );
    let progress = first.progress.expect("confirmation started");
    let gap = evaluate_entry_trigger(
        &trigger(),
        EntryTriggerState::Confirming,
        Some(progress),
        Some(dec("0.49")),
        true,
        at(3),
    );
    assert!(!gap.ready);
    assert_eq!(gap.progress.expect("confirmation restarted").confirming_since, at(3));
}

#[test]
fn restart_without_progress_resets_confirmation() {
    let result = evaluate_entry_trigger(
        &trigger(),
        EntryTriggerState::Confirming,
        None,
        Some(dec("0.49")),
        true,
        at(5),
    );
    assert_eq!(
        result.transition.expect("reset transition").state,
        EntryTriggerState::Waiting
    );
}

#[test]
fn false_condition_resets_to_waiting() {
    let result = evaluate_entry_trigger(
        &trigger(),
        EntryTriggerState::Confirming,
        Some(ConfirmationProgress { confirming_since: at(0), last_observed_at: at(1) }),
        Some(dec("0.51")),
        true,
        at(2),
    );
    assert_eq!(
        result.transition.expect("waiting transition").state,
        EntryTriggerState::Waiting
    );
}

#[test]
fn an_unbroken_run_becomes_ready() {
    let mut state = EntryTriggerState::Waiting;
    let mut progress = None;
    let mut ready_at = None;
    for second in 0..6 {
        let step =
            evaluate_entry_trigger(&trigger(), state, progress, Some(dec("0.5")), true, at(second));
        if let Some(transition) = step.transition {
            state = transition.state;
            ready_at = transition.ready_at;
        }
        progress = step.progress;
        assert_eq!(step.ready, second == 5);
    }
    assert_eq!(state, EntryTriggerState::Ready);
    assert_eq!(ready_at, Some(at(5)));
}

#[test]
fn immediate_triggers_are_ready() {
    let result = evaluate_entry_trigger(
        &EntryTrigger::Immediate,
        EntryTriggerState::NotRequired,
        None,
        None,
        false,
        at(0),
    );
    assert!(result.ready);
}

#[test]
fn stale_books_do_not_confirm() {
    let result = evaluate_entry_trigger(
        &trigger(),
        EntryTriggerState::Waiting,
        None,
        Some(dec("0.1")),
        false,
        at(0),
    );
    assert!(!result.ready);
    assert!(result.progress.is_none());
    assert!(result.transition.is_none());
}
