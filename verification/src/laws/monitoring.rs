//! What the watch over open positions is for.
use vstd::prelude::*;

use crate::decimal::Price;
use crate::exit_monitor::{ExitMonitorHealth, ExitSignalEvaluation, ExitSignalVerdict, PositionLot};
use crate::exit_monitor_service::{
    classified, decision_input, higher, models_are_asked, monitored, planned_sweep, recheck_is_due,
    resolved_signal, BookClassification, ExitMonitorPolicy, LadderReplies, LotObservation,
};
use crate::orders::BookSnapshot;
use crate::plans::ExitState;
use crate::time::Timestamp;

verus! {

/// A sweep takes place exactly where the monitor is on; it looks at every open
/// lot up to its guard, waits a second at least, and vouches for twice its
/// interval.
pub proof fn sweeps_look_at_every_lot(policy: ExitMonitorPolicy, open_lots: usize)
    ensures
        planned_sweep(policy, open_lots) is Some <==> policy.enabled,
        planned_sweep(policy, open_lots) matches Some(plan) ==> {
            &&& plan.lots <= open_lots && plan.lots <= 4096
            &&& plan.lots == open_lots || plan.lots == 4096
            &&& plan.monitor_secs >= 1
            &&& policy.monitor_secs >= 1 ==> plan.monitor_secs == policy.monitor_secs
            &&& plan.recheck_secs == policy.signal_recheck_secs
            &&& plan.monitor_secs * 2 <= u64::MAX ==> plan.healthy_window_secs == plan.monitor_secs
                * 2
            &&& plan.healthy_window_secs >= plan.monitor_secs
        },
{
}

/// A lot is watched until its order is out or it has gone to an operator or to
/// its end.
pub proof fn finished_lots_are_not_watched(state: ExitState)
    ensures
        monitored(state) <==> !(state is OrderSubmitted || state is ManualRequired || state
            is Exited || state is Failed),
{
}

/// A book is fresh while it is no older than allowed; one from the future is
/// refused; one without a bid, or whose bid meets its ask, is abnormal; and a lot
/// is worth the best bid.
pub proof fn books_are_judged_by_age_and_prices(
    book: BookSnapshot,
    now_ms: u64,
    max_book_age_ms: u64,
)
    ensures
        classified(Some(book), now_ms, max_book_age_ms) is Ok <==> book.timestamp_ms <= now_ms,
        classified(Some(book), now_ms, max_book_age_ms) matches Ok(seen) ==> {
            &&& seen.fresh <==> now_ms <= book.timestamp_ms + max_book_age_ms
            &&& seen.mark_price == book.best_bid
            &&& book.best_bid is None ==> seen.abnormal
            &&& book.best_bid is Some && book.best_ask is None ==> !seen.abnormal
            &&& (book.best_bid matches Some(bid) && (book.best_ask matches Some(ask) && bid@
                < ask@)) ==> !seen.abnormal
            &&& (book.best_bid matches Some(bid) && (book.best_ask matches Some(ask) && bid@
                >= ask@)) ==> seen.abnormal
        },
        classified(None, now_ms, max_book_age_ms) matches Ok(seen) && !seen.fresh
            && seen.mark_price is None,
{
}

/// The peak is the highest mark so far: one of the two, and not below either.
pub proof fn peaks_are_the_highest_marks(existing: Option<Price>, current: Option<Price>)
    ensures
        existing is None ==> higher(existing, current) == current,
        current is None ==> higher(existing, current) == existing,
        higher(existing, current) is Some ==> higher(existing, current) == existing || higher(
            existing,
            current,
        ) == current,
        (existing matches Some(peak) && (current matches Some(mark) && (higher(existing, current)
            matches Some(top) && (top@ < peak@ || top@ < mark@)))) ==> false,
{
}

/// The models are asked again once their interval has gone by, and at first.
pub proof fn rechecks_keep_their_interval(last: Timestamp, now: Timestamp, recheck_secs: u64)
    ensures
        recheck_is_due(None, now, recheck_secs),
        recheck_is_due(Some(last), now, recheck_secs) <==> now@ >= last@ + recheck_secs
            * 1000000000,
{
}

/// Where the models were not asked, or did not answer, the thesis holds.
pub proof fn silence_changes_nothing(
    observation: LotObservation,
    answer: Option<ExitSignalEvaluation>,
)
    ensures
        observation.recheck && answer is Some ==> Some(resolved_signal(observation, answer))
            == answer,
        !observation.recheck || answer is None ==> resolved_signal(observation, answer).verdict
            is Holds && resolved_signal(observation, answer).reinference is None,
{
}

/// The ladder sees the lot as it was observed.
pub proof fn ladders_see_what_was_observed(
    lot: PositionLot,
    observation: LotObservation,
    verdict: ExitSignalVerdict,
    replies: LadderReplies,
)
    ensures
        ({
            let input = decision_input(lot, observation, verdict, replies);
            &&& input.lot == lot
            &&& input.mark_price == observation.book.mark_price
            &&& input.book_fresh == observation.book.fresh
            &&& input.market_abnormal == observation.book.abnormal
            &&& input.now == observation.at
            &&& input.signal == verdict
            &&& input.kill_switch == replies.kill_switch
            &&& input.exit_policy == replies.exit_policy
            &&& input.effective_stop == replies.effective_stop
            &&& input.scale_out == replies.scale_out
            &&& input.delta_to_target == replies.delta_to_target
            &&& input.denominator_shares == replies.denominator_shares
            &&& input.emergency_policy == replies.emergency_policy
            &&& input.min_opportunistic_clip_pct == replies.min_opportunistic_clip_pct
        }),
{
}

/// The models are never asked about a stale or abnormal book, nor too early; and
/// always otherwise.
pub proof fn models_are_asked_in_time(
    last: Option<Timestamp>,
    now: Timestamp,
    recheck_secs: u64,
    book: BookClassification,
)
    ensures
        models_are_asked(last, now, recheck_secs, book) <==> book.fresh && !book.abnormal && (last
            matches Some(at) ==> at@ + recheck_secs * 1000000000 <= now@),
{
}

/// The monitor is ready exactly from a scan until the end of the window that the
/// scan vouches for; without a scan it never is.
pub proof fn scans_vouch_for_their_window(health: ExitMonitorHealth, now: Timestamp)
    ensures
        health.last_scan_at is None ==> !health.spec_ready(now),
        health.last_scan_at matches Some(last) ==> (health.spec_ready(now) <==> now@ - last@
            <= health.healthy_window_secs * 1000000000),
{
}

/// Only where the thesis holds does an opportunity count; anything that was found
/// out about the thesis stands.
pub proof fn opportunities_never_hide_a_lost_thesis(
    evaluation: ExitSignalEvaluation,
    opportunity: ExitSignalVerdict,
)
    ensures
        evaluation.verdict is Holds ==> evaluation.composed(opportunity).verdict == opportunity,
        !(evaluation.verdict is Holds) ==> evaluation.composed(opportunity).verdict
            == evaluation.verdict,
        evaluation.composed(opportunity).reinference == evaluation.reinference,
{
}

} // verus!
