//! One sweep of the exit monitor over the open lots.
//!
//! Lots whose exit is in flight, in an operator's hands or over are left
//! alone, so that one exit is never submitted twice.
use vstd::prelude::*;
use vstd::string::*;

use crate::alerts::{AlertCategory, AlertLevel, AlertSource, AlertView, OperatorAlert};
use crate::decimal::{Decimal, Price, Shares};
use crate::error::{epoch_millis, ErrorView, ExecutionError};
use crate::exit_monitor::{
    decide_exit, EmergencyExitPolicy, ExitDecision, ExitMonitorInput, ExitReason,
    ExitSignalEvaluation, ExitSignalVerdict, PositionLot, ScaleOutProjection,
};
use crate::orders::BookSnapshot;
use crate::plans::{ExitPolicySpec, ExitState, KillSwitchState};
use crate::text::{write_id, write_natural};
use crate::time::Timestamp;
use crate::types::{Ident, OrderIntentId, TokenId};

verus! {

/// Most lots that one sweep evaluates.
pub const SCAN_BATCH_GUARD: usize = 4096;

/// Governed settings of the exit monitor.
#[derive(Clone, Copy, Debug, PartialEq, Eq, Structural)]
pub struct ExitMonitorPolicy {
    pub enabled: bool,
    pub monitor_secs: u64,
    pub signal_recheck_secs: u64,
}

/// How one sweep is carried out.
#[derive(Clone, Copy, Debug, PartialEq, Eq, Structural)]
pub struct SweepPlan {
    /// Seconds until a lot is checked again.
    pub monitor_secs: u64,
    /// Seconds between two reinferences of one lot.
    pub recheck_secs: u64,
    /// Lots that are evaluated.
    pub lots: usize,
    /// How long the sweep vouches for the monitor, in seconds.
    pub healthy_window_secs: u64,
}

/// The plan of a sweep over `open_lots` lots. A disabled monitor does not
/// sweep, and then publishes no health either.
pub open spec fn planned_sweep(policy: ExitMonitorPolicy, open_lots: usize) -> Option<SweepPlan> {
    if !policy.enabled {
        None
    } else {
        let monitor_secs: u64 = if policy.monitor_secs < 1 {
            1
        } else {
            policy.monitor_secs
        };
        Some(
            SweepPlan {
                monitor_secs,
                recheck_secs: policy.signal_recheck_secs,
                lots: if open_lots < SCAN_BATCH_GUARD {
                    open_lots
                } else {
                    SCAN_BATCH_GUARD
                },
                healthy_window_secs: if monitor_secs * 2 > u64::MAX {
                    u64::MAX
                } else {
                    (monitor_secs * 2) as u64
                },
            },
        )
    }
}

/// The plan of a sweep.
pub fn sweep_plan(policy: ExitMonitorPolicy, open_lots: usize) -> (r: Option<SweepPlan>)
    ensures
        r == planned_sweep(policy, open_lots),
{
    if !policy.enabled {
        return None;
    }
    let monitor_secs = if policy.monitor_secs < 1 {
        1
    } else {
        policy.monitor_secs
    };
    let lots = if open_lots < SCAN_BATCH_GUARD {
        open_lots
    } else {
        SCAN_BATCH_GUARD
    };
    let healthy_window_secs = if monitor_secs > u64::MAX / 2 {
        u64::MAX
    } else {
        monitor_secs * 2
    };
    Some(
        SweepPlan {
            monitor_secs,
            recheck_secs: policy.signal_recheck_secs,
            lots,
            healthy_window_secs,
        },
    )
}

/// Whether a lot in this state is still being monitored.
pub open spec fn monitored(state: ExitState) -> bool {
    state == ExitState::NotStarted || state == ExitState::Monitoring || state
        == ExitState::Triggered || state == ExitState::PartiallyExited
}

/// Whether a lot in this state is still being monitored; only then its book is
/// read.
pub fn is_monitored(state: ExitState) -> (r: bool)
    ensures
        r == monitored(state),
{
    match state {
        ExitState::OrderSubmitted
        | ExitState::ManualRequired
        | ExitState::Exited
        | ExitState::Failed => false,
        _ => true,
    }
}

/// How the evaluation of a lot begins.
#[derive(Debug)]
pub enum LotEntry {
    /// The lot is not evaluated.
    Skip,
    /// The lot goes to an operator for want of a fresh book.
    BookUnavailable { reason: ExitReason, alert: OperatorAlert },
    /// The lot is evaluated against the book.
    Evaluate,
}

/// The alert on a lot without a fresh book: critical, a matter of trading
/// safety, raised by execution, and not repeated within a minute.
pub open spec fn book_alert(
    order_intent_id: OrderIntentId,
    token_id: Seq<char>,
    why: Seq<char>,
    now: Timestamp,
) -> AlertView {
    AlertView {
        key: "exit-book-unavailable:"@ + crate::text::id_text(order_intent_id),
        level: AlertLevel::Critical,
        category: AlertCategory::TradingSafety,
        source: AlertSource::Execution,
        title: "Automatic exit requires manual intervention"@,
        message: "intent="@ + crate::text::id_text(order_intent_id) + " token="@ + token_id
            + " fresh book unavailable ("@ + why
            + "); automatic pricing and submission were blocked"@,
        raised_at: now,
        affects_trading: None,
        dedupe_secs: Some(60),
    }
}

/// How the evaluation of a lot begins, given why its fresh book is
/// unavailable, if it is.
pub fn begin_lot(
    exit_state: ExitState,
    order_intent_id: OrderIntentId,
    token_id: &TokenId,
    unavailable: Option<&str>,
    now: Timestamp,
) -> (r: LotEntry)
    ensures
        match r {
            LotEntry::Skip => !monitored(exit_state),
            LotEntry::BookUnavailable { reason, alert } => monitored(exit_state) && unavailable
                is Some && reason == ExitReason::DataStale && alert@ == book_alert(
                order_intent_id,
                token_id@,
                unavailable->0@,
                now,
            ) && alert.level == AlertLevel::Critical && alert.category
                == AlertCategory::TradingSafety && alert.source == AlertSource::Execution,
            LotEntry::Evaluate => monitored(exit_state) && unavailable is None,
        },
{
    if !is_monitored(exit_state) {
        return LotEntry::Skip;
    }
    match unavailable {
        None => LotEntry::Evaluate,
        Some(why) => LotEntry::BookUnavailable {
            reason: ExitReason::DataStale,
            alert: OperatorAlert {
                key: "exit-book-unavailable:".to_owned().concat(
                    write_id(order_intent_id).as_str(),
                ),
                level: AlertLevel::Critical,
                category: AlertCategory::TradingSafety,
                source: AlertSource::Execution,
                title: "Automatic exit requires manual intervention".to_owned(),
                message: "intent=".to_owned().concat(write_id(order_intent_id).as_str()).concat(
                    " token=",
                ).concat(token_id.text.as_str()).concat(" fresh book unavailable (").concat(
                    why,
                ).concat("); automatic pricing and submission were blocked"),
                raised_at: now,
                affects_trading: None,
                dedupe_secs: Some(60),
            },
        },
    }
}

/// What a book says about leaving a position.
#[derive(Clone, Copy, Debug)]
pub struct BookClassification {
    /// Best bid.
    pub mark_price: Option<Price>,
    pub fresh: bool,
    pub abnormal: bool,
}

/// Whether bid and ask cross.
pub open spec fn crossed(snapshot: BookSnapshot) -> bool {
    snapshot.best_bid is Some && snapshot.best_ask is Some && snapshot.best_bid->0@
        >= snapshot.best_ask->0@
}

/// What a book says about leaving a position. A book from after the decision
/// is refused.
pub open spec fn classified(
    snapshot: Option<BookSnapshot>,
    now_ms: u64,
    max_book_age_ms: u64,
) -> Result<BookClassification, ErrorView> {
    match snapshot {
        None => Ok(BookClassification { mark_price: None, fresh: false, abnormal: false }),
        Some(book) => if book.timestamp_ms > now_ms {
            Err(
                ErrorView::TimeConversion {
                    field: "exit_monitor.book.timestamp_ms"@,
                    value: crate::text::natural_text(book.timestamp_ms as nat),
                    detail: "snapshot is after decision time "@ + crate::text::natural_text(
                        now_ms as nat,
                    ),
                },
            )
        } else {
            Ok(
                BookClassification {
                    mark_price: book.best_bid,
                    fresh: now_ms - book.timestamp_ms <= max_book_age_ms,
                    abnormal: book.best_bid is None || crossed(book),
                },
            )
        },
    }
}

/// What a book says about leaving a position.
pub fn classify_book(
    snapshot: Option<&BookSnapshot>,
    now_ms: u64,
    max_book_age_ms: u64,
) -> (r: Result<BookClassification, ExecutionError>)
    ensures
        crate::error::outcome(r) == classified(
            match snapshot {
                Some(book) => Some(*book),
                None => None,
            },
            now_ms,
            max_book_age_ms,
        ),
{
    let book = match snapshot {
        None => {
            return Ok(BookClassification { mark_price: None, fresh: false, abnormal: false });
        },
        Some(book) => book,
    };
    if book.timestamp_ms > now_ms {
        return Err(
            ExecutionError::TimeConversion {
                field: "exit_monitor.book.timestamp_ms",
                value: write_natural(book.timestamp_ms as u128),
                detail: "snapshot is after decision time ".to_owned().concat(
                    write_natural(now_ms as u128).as_str(),
                ),
            },
        );
    }
    let abnormal = match (book.best_bid, book.best_ask) {
        (None, _) => true,
        (Some(bid), Some(ask)) => ask.le(bid),
        (Some(_), None) => false,
    };
    Ok(
        BookClassification {
            mark_price: book.best_bid,
            fresh: now_ms - book.timestamp_ms <= max_book_age_ms,
            abnormal,
        },
    )
}

/// The larger of a peak and a mark, either of which may be missing.
pub open spec fn higher(existing: Option<Price>, current: Option<Price>) -> Option<Price> {
    match (existing, current) {
        (Some(a), Some(b)) => Some(a.greater(b)),
        (Some(a), None) => Some(a),
        (None, current) => current,
    }
}

/// The larger of a peak and a mark, either of which may be missing.
pub fn max_price(existing: Option<Price>, current: Option<Price>) -> (r: Option<Price>)
    ensures
        r == higher(existing, current),
{
    match (existing, current) {
        (Some(a), Some(b)) => Some(a.max_of(b)),
        (Some(a), None) => Some(a),
        (None, current) => current,
    }
}

/// The peak never falls.
pub proof fn peak_never_falls(existing: Option<Price>, current: Option<Price>)
    ensures
        existing matches Some(peak) ==> higher(existing, current) is Some && higher(
            existing,
            current,
        )->0@ >= peak@,
        current matches Some(mark) ==> higher(existing, current) is Some && higher(
            existing,
            current,
        )->0@ >= mark@,
{
}

/// Whether a reinference is due.
pub open spec fn recheck_is_due(last: Option<Timestamp>, now: Timestamp, recheck_secs: u64) -> bool {
    match last {
        Some(at) => now@ - at@ >= recheck_secs * 1000000000,
        None => true,
    }
}

/// Whether the models are asked about a lot: when it is due and the book can be
/// acted on.
pub open spec fn models_are_asked(
    last: Option<Timestamp>,
    now: Timestamp,
    recheck_secs: u64,
    book: BookClassification,
) -> bool {
    recheck_is_due(last, now, recheck_secs) && book.fresh && !book.abnormal
}

/// What one look at a lot established.
#[derive(Clone, Copy, Debug)]
pub struct LotObservation {
    pub book: BookClassification,
    pub peak_mark_price: Option<Price>,
    /// Whether the models are asked: only when it is due and the book can be
    /// acted on.
    pub recheck: bool,
    /// When the lot was looked at.
    pub at: Timestamp,
}

/// Looks at a lot: reads the book, folds the mark into the peak and decides
/// whether the models are asked. A missing age limit counts as zero.
pub fn observe_lot(
    snapshot: &BookSnapshot,
    max_book_age_ms: Option<u64>,
    peak_mark_price: Option<Price>,
    last_signal_recheck_at: Option<Timestamp>,
    recheck_secs: u64,
    now: Timestamp,
) -> (r: Result<LotObservation, ExecutionError>)
    ensures
        match r {
            Ok(observation) => {
                &&& now.spec_millis() >= 0
                &&& classified(
                    Some(*snapshot),
                    now.spec_millis() as u64,
                    max_book_age_ms.unwrap_or(0),
                ) == Ok::<BookClassification, ErrorView>(observation.book)
                &&& observation.peak_mark_price == higher(
                    peak_mark_price,
                    observation.book.mark_price,
                )
                &&& observation.recheck == (recheck_is_due(last_signal_recheck_at, now, recheck_secs)
                    && observation.book.fresh && !observation.book.abnormal)
                &&& observation.recheck == models_are_asked(
                    last_signal_recheck_at,
                    now,
                    recheck_secs,
                    observation.book,
                )
                &&& observation.at == now
            },
            Err(error) => if now.spec_millis() < 0 {
                error@ == (ErrorView::TimeConversion {
                    field: "exit_monitor.now_ms"@,
                    value: crate::text::integer_text(now.spec_millis()),
                    detail: crate::text::conversion_overflow(),
                })
            } else {
                classified(
                    Some(*snapshot),
                    now.spec_millis() as u64,
                    max_book_age_ms.unwrap_or(0),
                ) == Err::<BookClassification, ErrorView>(error@)
            },
        },
{
    let now_ms = match epoch_millis("exit_monitor.now_ms", now) {
        Ok(now_ms) => now_ms,
        Err(error) => {
            return Err(error);
        },
    };
    let limit = match max_book_age_ms {
        Some(limit) => limit,
        None => 0,
    };
    let book = match classify_book(Some(snapshot), now_ms, limit) {
        Ok(book) => book,
        Err(error) => {
            return Err(error);
        },
    };
    let due = match last_signal_recheck_at {
        Some(at) => now.since(at) >= recheck_secs as i128 * 1000000000,
        None => true,
    };
    Ok(
        LotObservation {
            book,
            peak_mark_price: max_price(peak_mark_price, book.mark_price),
            recheck: due && book.fresh && !book.abnormal,
            at: now,
        },
    )
}

/// What is written back about the monitoring of a lot.
#[derive(Debug)]
pub struct MonitorTouch {
    pub next_check_at: Timestamp,
    pub peak_mark_price: Option<Price>,
    pub last_recheck: Option<Timestamp>,
    pub reinference: Option<Ident>,
}

/// The evaluation that counts: what the models answered where they were asked;
/// the thesis holds where they were not.
pub open spec fn resolved_signal(
    observation: LotObservation,
    answer: Option<ExitSignalEvaluation>,
) -> ExitSignalEvaluation {
    match answer {
        Some(evaluation) if observation.recheck => evaluation,
        _ => ExitSignalEvaluation { verdict: ExitSignalVerdict::Holds, reinference: None },
    }
}

/// The evaluation that counts for a lot.
pub fn resolve_exit_signal(
    observation: &LotObservation,
    answer: Option<ExitSignalEvaluation>,
) -> (r: ExitSignalEvaluation)
    ensures
        r == resolved_signal(*observation, answer),
{
    if observation.recheck {
        if let Some(evaluation) = answer {
            return evaluation;
        }
    }
    ExitSignalEvaluation::verdict(ExitSignalVerdict::Holds)
}

/// What policies and plans say about leaving a lot, beside what was observed.
#[derive(Debug)]
pub struct LadderReplies {
    pub exit_policy: ExitPolicySpec,
    pub kill_switch: KillSwitchState,
    pub emergency_policy: EmergencyExitPolicy,
    /// Stop in force, with a trailing stop at the observed peak folded in.
    pub effective_stop: Option<Price>,
    /// Planned scale-out step that is due at the observed mark and time.
    pub scale_out: Option<ScaleOutProjection>,
    /// Entry-filled shares that cumulative fractions refer to.
    pub denominator_shares: Option<Shares>,
    /// Shares still owed to the confined target of the signal; zero where the
    /// signal has no target.
    pub delta_to_target: Shares,
    /// Smallest fraction of the denominator worth an opportunistic sale.
    pub min_opportunistic_clip_pct: Decimal,
}

/// What the decision about a lot rests on: mark, freshness, abnormality and time
/// as they were observed.
pub open spec fn decision_input(
    lot: PositionLot,
    observation: LotObservation,
    verdict: ExitSignalVerdict,
    replies: LadderReplies,
) -> ExitMonitorInput {
    ExitMonitorInput {
        lot,
        exit_policy: replies.exit_policy,
        mark_price: observation.book.mark_price,
        book_fresh: observation.book.fresh,
        market_abnormal: observation.book.abnormal,
        kill_switch: replies.kill_switch,
        emergency_policy: replies.emergency_policy,
        effective_stop: replies.effective_stop,
        signal: verdict,
        scale_out: replies.scale_out,
        denominator_shares: replies.denominator_shares,
        delta_to_target: replies.delta_to_target,
        min_opportunistic_clip_pct: replies.min_opportunistic_clip_pct,
        now: observation.at,
    }
}

/// Puts together what the decision about a lot rests on.
pub fn build_decision_input(
    lot: PositionLot,
    observation: &LotObservation,
    verdict: ExitSignalVerdict,
    replies: LadderReplies,
) -> (r: ExitMonitorInput)
    ensures
        r == decision_input(lot, *observation, verdict, replies),
{
    ExitMonitorInput {
        lot,
        exit_policy: replies.exit_policy,
        mark_price: observation.book.mark_price,
        book_fresh: observation.book.fresh,
        market_abnormal: observation.book.abnormal,
        kill_switch: replies.kill_switch,
        emergency_policy: replies.emergency_policy,
        effective_stop: replies.effective_stop,
        signal: verdict,
        scale_out: replies.scale_out,
        denominator_shares: replies.denominator_shares,
        delta_to_target: replies.delta_to_target,
        min_opportunistic_clip_pct: replies.min_opportunistic_clip_pct,
        now: observation.at,
    }
}

/// How the evaluation of a lot ends.
#[derive(Debug)]
pub struct LotConclusion {
    pub lot: PositionLot,
    pub touch: MonitorTouch,
    pub decision: ExitDecision,
}

/// Ends the evaluation of a lot: when it is checked again, and what the ladder
/// decides on what was observed.
pub fn conclude_lot(
    lot: PositionLot,
    observation: &LotObservation,
    evaluation: ExitSignalEvaluation,
    replies: LadderReplies,
    monitor_secs: u64,
) -> (r: Result<LotConclusion, ExecutionError>)
    ensures
        ({
            let input = decision_input(lot, *observation, evaluation.verdict, replies);
            match r {
                Ok(conclusion) => {
                    &&& conclusion.lot == lot
                    &&& conclusion.touch.next_check_at@ == observation.at@ + monitor_secs
                        * 1000000000
                    &&& conclusion.touch.peak_mark_price == observation.peak_mark_price
                    &&& conclusion.touch.last_recheck == (if observation.recheck {
                        Some(observation.at)
                    } else {
                        None
                    })
                    &&& conclusion.touch.reinference == evaluation.reinference
                    &&& crate::exit_monitor::exit_decision(input) == Some(conclusion.decision)
                },
                Err(error) => if crate::time::in_calendar(
                    observation.at@ + monitor_secs * 1000000000,
                ) {
                    crate::exit_monitor::exit_decision(input) is None && error@
                        == ErrorView::DecimalOverflow
                } else {
                    error@ == (ErrorView::TimeConversion {
                        field: "exit_monitor.next_check_at"@,
                        value: crate::text::natural_text(monitor_secs as nat),
                        detail: "next check is outside the chrono range"@,
                    })
                },
            }
        }),
{
    let ExitSignalEvaluation { verdict, reinference } = evaluation;
    let next_check_at = match observation.at.plus_natural_seconds(monitor_secs) {
        Some(at) => at,
        None => {
            return Err(
                ExecutionError::TimeConversion {
                    field: "exit_monitor.next_check_at",
                    value: write_natural(monitor_secs as u128),
                    detail: "next check is outside the chrono range".to_owned(),
                },
            );
        },
    };
    let input = build_decision_input(lot, observation, verdict, replies);
    let decision = match decide_exit(&input) {
        Ok(decision) => decision,
        Err(error) => {
            return Err(error);
        },
    };
    Ok(
        LotConclusion {
            lot: input.lot,
            touch: MonitorTouch {
                next_check_at,
                peak_mark_price: observation.peak_mark_price,
                last_recheck: if observation.recheck {
                    Some(observation.at)
                } else {
                    None
                },
                reinference,
            },
            decision,
        },
    )
}

} // verus!
