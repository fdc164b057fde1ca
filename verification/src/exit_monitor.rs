//! The deterministic exit ladder of one position lot.
//!
//! In order of priority: kill-switch emergency, stale data, abnormal market,
//! stop loss, thesis invalidation; then, unless the lot is held to resolution,
//! time exit, manual review, take profit, scale-out and opportunistic sale;
//! otherwise hold. Outside an emergency nothing is submitted while automatic
//! exits are frozen, and nothing is ever submitted without a price.
use vstd::prelude::*;

use crate::decimal::{Decimal, Price, Shares};
use crate::error::{ErrorView, ExecutionError};
use crate::plans::{ExitPolicySpec, ExitSettlementMode, KillSwitchState};
use crate::time::Timestamp;
use crate::types::{Ident, OrderIntentId, OrderType, Side, StrategyPositionLotId, TokenId};

verus! {

/// Health of the exit monitor, published after every pass.
#[derive(Clone, Copy, Debug)]
pub struct ExitMonitorHealth {
    /// Last successful scan; `None` before the first pass.
    pub last_scan_at: Option<Timestamp>,
    /// How long a scan vouches for the monitor, in seconds.
    pub healthy_window_secs: u64,
}

impl ExitMonitorHealth {
    /// Whether the monitor scanned within its healthy window.
    pub open spec fn spec_ready(self, now: Timestamp) -> bool {
        match self.last_scan_at {
            Some(last) => now@ <= last@ + self.healthy_window_secs * 1000000000,
            None => false,
        }
    }

    /// The health before the first pass.
    pub fn unscanned() -> (r: ExitMonitorHealth)
        ensures
            r.last_scan_at is None,
            r.healthy_window_secs == 0,
            forall|now: Timestamp| !r.spec_ready(now),
    {
        ExitMonitorHealth { last_scan_at: None, healthy_window_secs: 0 }
    }

    /// The health after a pass.
    pub fn scanned(scanned_at: Timestamp, healthy_window_secs: u64) -> (r: ExitMonitorHealth)
        ensures
            r.last_scan_at == Some(scanned_at),
            r.healthy_window_secs == healthy_window_secs,
            r.spec_ready(scanned_at),
    {
        ExitMonitorHealth { last_scan_at: Some(scanned_at), healthy_window_secs }
    }

    /// Whether the monitor scanned within its healthy window.
    pub fn is_ready(&self, now: Timestamp) -> (r: bool)
        ensures
            r == self.spec_ready(now),
    {
        match self.last_scan_at {
            Some(last) => now.since(last) <= self.healthy_window_secs as i128 * 1000000000,
            None => false,
        }
    }
}

/// What the models say about a position.
#[derive(Debug)]
pub enum ExitSignalVerdict {
    /// The entry thesis no longer holds: leave in full.
    ThesisInvalidated { detail: String },
    /// The thesis holds, but selling down to a cumulative fraction of the
    /// filled entry is advantageous.
    OpportunisticSell { target_cumulative_exit_pct: Decimal, detail: String },
    /// The thesis holds.
    Holds,
    /// The signal could not be evaluated; it never forces an exit.
    Indeterminate { detail: String },
}

impl Clone for ExitSignalVerdict {
    fn clone(&self) -> (r: ExitSignalVerdict)
        ensures
            r == *self,
    {
        match self {
            ExitSignalVerdict::ThesisInvalidated { detail } => ExitSignalVerdict::ThesisInvalidated {
                detail: detail.clone(),
            },
            ExitSignalVerdict::OpportunisticSell { target_cumulative_exit_pct, detail } =>
            ExitSignalVerdict::OpportunisticSell {
                target_cumulative_exit_pct: *target_cumulative_exit_pct,
                detail: detail.clone(),
            },
            ExitSignalVerdict::Holds => ExitSignalVerdict::Holds,
            ExitSignalVerdict::Indeterminate { detail } => ExitSignalVerdict::Indeterminate {
                detail: detail.clone(),
            },
        }
    }
}

/// A verdict with the reinference that led to it, if one ran.
#[derive(Debug)]
pub struct ExitSignalEvaluation {
    pub verdict: ExitSignalVerdict,
    pub reinference: Option<Ident>,
}

impl ExitSignalEvaluation {
    /// A verdict without a reinference.
    pub fn verdict(verdict: ExitSignalVerdict) -> (r: ExitSignalEvaluation)
        ensures
            r == (ExitSignalEvaluation { verdict, reinference: None }),
    {
        ExitSignalEvaluation { verdict, reinference: None }
    }

    /// Whether opportunistic scoring gets a say: only where the thesis holds.
    pub fn leaves_room(&self) -> (r: bool)
        ensures
            r == (self.verdict is Holds),
    {
        matches!(self.verdict, ExitSignalVerdict::Holds)
    }

    /// The reinference, with the opportunistic verdict in place of a thesis
    /// that holds.
    pub open spec fn composed(self, opportunistic: ExitSignalVerdict) -> ExitSignalEvaluation {
        if self.verdict is Holds {
            ExitSignalEvaluation { verdict: opportunistic, reinference: self.reinference }
        } else {
            self
        }
    }

    /// The reinference, with the opportunistic verdict in place of a thesis
    /// that holds.
    pub fn compose(self, opportunistic: ExitSignalVerdict) -> (r: ExitSignalEvaluation)
        ensures
            r == self.composed(opportunistic),
    {
        if matches!(self.verdict, ExitSignalVerdict::Holds) {
            ExitSignalEvaluation { verdict: opportunistic, reinference: self.reinference }
        } else {
            self
        }
    }
}

/// An open position lot, as far as leaving it needs.
#[derive(Debug)]
pub struct PositionLot {
    pub strategy_position_lot_id: StrategyPositionLotId,
    /// `None` for a lot that account recovery created.
    pub order_intent_id: Option<OrderIntentId>,
    pub token_id: TokenId,
    pub market_id: Ident,
    pub shares: Shares,
    pub avg_price: Price,
    pub opened_at: Timestamp,
}

/// Why a position is left.
#[derive(Clone, Copy, Debug, PartialEq, Eq, Structural)]
pub enum ExitReason {
    KillSwitchEmergency,
    DataStale,
    MarketAbnormal,
    StopLoss,
    SignalInvalidated,
    TimeExit,
    Manual,
    TakeProfit,
    PartialExit,
    Opportunistic,
}

/// The sell order of an exit.
#[derive(Debug)]
pub struct ExitOrderSpec {
    pub token_id: TokenId,
    pub side: Side,
    pub order_type: OrderType,
    pub limit_price: Price,
    pub shares: Shares,
}

/// Cumulative target that a sale works towards.
#[derive(Debug)]
pub struct PendingScaleOut {
    /// Stable id of a planned target; `None` for an opportunistic one.
    pub target_id: Option<Ident>,
    pub target_cumulative_exit_pct: Decimal,
}

/// What to do with a lot.
#[derive(Debug)]
pub enum ExitDecision {
    /// Keep monitoring.
    Hold,
    /// Submit a sell order.
    SubmitExitOrder {
        reason: ExitReason,
        order: ExitOrderSpec,
        pending_scale_out: Option<PendingScaleOut>,
    },
    /// Leave it to an operator.
    RequireManualReview { reason: ExitReason },
}

/// What happens to positions in an emergency.
#[derive(Clone, Copy, Debug, PartialEq, Eq, Structural)]
pub enum EmergencyExitKind {
    ManualOnly,
    LiquidateAll,
}

/// Emergency policy.
#[derive(Clone, Copy, Debug, PartialEq, Eq, Structural)]
pub struct EmergencyExitPolicy {
    pub kind: EmergencyExitKind,
    pub max_slippage_bps: u32,
}

/// The next planned scale-out step that is due.
#[derive(Debug)]
pub struct ScaleOutProjection {
    pub delta_shares: Shares,
    pub target_id: Ident,
    pub target_cumulative_exit_pct: Decimal,
}

/// Everything that one exit decision rests on.
#[derive(Debug)]
pub struct ExitMonitorInput {
    pub lot: PositionLot,
    pub exit_policy: ExitPolicySpec,
    /// Best bid; `None` where the book cannot be read.
    pub mark_price: Option<Price>,
    pub book_fresh: bool,
    pub market_abnormal: bool,
    pub kill_switch: KillSwitchState,
    pub emergency_policy: EmergencyExitPolicy,
    /// Stop in force, with a trailing stop folded in.
    pub effective_stop: Option<Price>,
    pub signal: ExitSignalVerdict,
    /// Planned scale-out step that is due at this mark and time.
    pub scale_out: Option<ScaleOutProjection>,
    /// Entry-filled shares that cumulative fractions refer to.
    pub denominator_shares: Option<Shares>,
    /// Shares still owed to the [`sale_target`] of the signal.
    pub delta_to_target: Shares,
    /// Smallest fraction of the denominator worth an opportunistic sale.
    pub min_opportunistic_clip_pct: Decimal,
    pub now: Timestamp,
}

/// A cumulative target confined to the range from zero to one.
pub open spec fn clamped(target_pct: Decimal) -> Decimal {
    if target_pct@ < 0 {
        Decimal::of_parts(0, 0)
    } else if target_pct@ > crate::order_rules::one_unit() {
        Decimal::of_parts(1, 0)
    } else {
        target_pct
    }
}

/// A cumulative target confined to the range from zero to one.
pub fn clamp_target(target_pct: Decimal) -> (r: Decimal)
    ensures
        r == clamped(target_pct),
        0 <= r@ <= crate::order_rules::one_unit(),
{
    proof {
        vstd::arithmetic::power::lemma_pow_positive(10, 28);
    }
    let zero = Decimal::zero();
    let one = Decimal::one();
    if target_pct.lt(zero) {
        zero
    } else if one.lt(target_pct) {
        one
    } else {
        target_pct
    }
}

/// The cumulative fraction that an opportunistic sale works towards: what the
/// signal asks for, confined to the range from zero to one. Other signals ask
/// for none.
pub open spec fn sale_target(signal: ExitSignalVerdict) -> Option<Decimal> {
    match signal {
        ExitSignalVerdict::OpportunisticSell { target_cumulative_exit_pct, .. } => Some(
            clamped(target_cumulative_exit_pct),
        ),
        _ => None,
    }
}

impl ExitSignalVerdict {
    /// The cumulative fraction to which the shares still owed are asked for.
    pub fn target(&self) -> (r: Option<Decimal>)
        ensures
            r == sale_target(*self),
            r matches Some(target) ==> 0 <= target@ <= crate::order_rules::one_unit(),
    {
        match self {
            ExitSignalVerdict::OpportunisticSell { target_cumulative_exit_pct, .. } => Some(
                clamp_target(*target_cumulative_exit_pct),
            ),
            _ => None,
        }
    }
}

/// The lower of the configured take-profit targets; the outer option is empty
/// where the percentage target is not representable.
pub open spec fn profit_target(policy: ExitPolicySpec, avg_price: Price) -> Option<Option<Price>> {
    match policy.take_profit_pct {
        None => Some(policy.take_profit_price),
        Some(pct) => match Decimal::of_parts(1, 0).sum(pct) {
            None => None,
            Some(factor) => match avg_price.product(factor) {
                None => None,
                Some(from_pct) => match policy.take_profit_price {
                    Some(target) => Some(Some(target.lesser(from_pct))),
                    None => Some(Some(from_pct)),
                },
            },
        },
    }
}

/// The lower of the configured take-profit targets; the outer option is empty
/// where the percentage target is not representable.
pub fn take_profit_target(policy: &ExitPolicySpec, avg_price: Price) -> (r: Option<Option<Price>>)
    ensures
        r == profit_target(*policy, avg_price),
{
    match policy.take_profit_pct {
        None => Some(policy.take_profit_price),
        Some(pct) => match Decimal::one().checked_add(pct) {
            None => None,
            Some(factor) => match avg_price.checked_mul(factor) {
                None => None,
                Some(from_pct) => match policy.take_profit_price {
                    Some(target) => Some(Some(target.min_of(from_pct))),
                    None => Some(Some(from_pct)),
                },
            },
        },
    }
}

/// Whether the absolute deadline or the longest hold is reached. A hold that
/// ends outside the calendar never ends.
pub open spec fn time_is_up(policy: ExitPolicySpec, opened_at: Timestamp, now: Timestamp) -> bool {
    ||| (policy.time_exit_at matches Some(at) && now@ >= at@)
    ||| (policy.max_hold_secs matches Some(secs) && crate::time::in_calendar(
        opened_at@ + secs * 1000000000,
    ) && now@ >= opened_at@ + secs * 1000000000)
}

/// Whether the absolute deadline or the longest hold is reached.
pub fn time_exit_due(policy: &ExitPolicySpec, opened_at: Timestamp, now: Timestamp) -> (r: bool)
    ensures
        r == time_is_up(*policy, opened_at, now),
{
    if let Some(at) = policy.time_exit_at {
        if at.until(now) {
            return true;
        }
    }
    match policy.max_hold_secs {
        None => false,
        Some(secs) => match opened_at.plus_natural_seconds(secs) {
            Some(deadline) => deadline.until(now),
            None => false,
        },
    }
}

/// The sell order for some shares of a token.
pub open spec fn sale(
    token_id: TokenId,
    shares: Shares,
    limit_price: Price,
    order_type: OrderType,
) -> ExitOrderSpec {
    ExitOrderSpec { token_id, side: Side::Sell, order_type, limit_price, shares }
}

/// The sell order for some shares of a token.
pub fn sell_order(
    token_id: &TokenId,
    shares: Shares,
    limit: Price,
    order_type: OrderType,
) -> (r: ExitOrderSpec)
    ensures
        r == sale(*token_id, shares, limit, order_type),
{
    ExitOrderSpec {
        token_id: token_id.clone(),
        side: Side::Sell,
        order_type,
        limit_price: limit,
        shares,
    }
}

/// Submission of a triggered exit, or manual review where automatic exits are
/// frozen or the sale cannot be priced.
pub open spec fn gated(
    input: ExitMonitorInput,
    reason: ExitReason,
    shares: Shares,
    limit: Option<Price>,
    pending_scale_out: Option<PendingScaleOut>,
) -> ExitDecision {
    if input.kill_switch.spec_allows_auto_exit() && limit is Some && shares@ > 0 {
        ExitDecision::SubmitExitOrder {
            reason,
            order: sale(input.lot.token_id, shares, limit->0, OrderType::Gtc),
            pending_scale_out,
        }
    } else {
        ExitDecision::RequireManualReview { reason }
    }
}

/// Submission of a triggered exit, or manual review.
pub fn submit_or_manual_with_target(
    input: &ExitMonitorInput,
    reason: ExitReason,
    shares: Shares,
    limit: Option<Price>,
    pending_scale_out: Option<PendingScaleOut>,
) -> (r: ExitDecision)
    ensures
        r == gated(*input, reason, shares, limit, pending_scale_out),
{
    if !input.kill_switch.allows_auto_exit() {
        return ExitDecision::RequireManualReview { reason };
    }
    match limit {
        Some(limit) => if shares.is_positive() {
            ExitDecision::SubmitExitOrder {
                reason,
                order: sell_order(&input.lot.token_id, shares, limit, OrderType::Gtc),
                pending_scale_out,
            }
        } else {
            ExitDecision::RequireManualReview { reason }
        },
        None => ExitDecision::RequireManualReview { reason },
    }
}

/// Submission of a triggered exit without a scale-out target, or manual review.
pub fn submit_or_manual(
    input: &ExitMonitorInput,
    reason: ExitReason,
    shares: Shares,
    limit: Option<Price>,
) -> (r: ExitDecision)
    ensures
        r == gated(*input, reason, shares, limit, None),
{
    submit_or_manual_with_target(input, reason, shares, limit, None)
}

/// Submission of an opportunistic sale at the mark, or manual review.
pub fn submit_or_manual_opportunistic(
    input: &ExitMonitorInput,
    shares: Shares,
    target_cumulative_exit_pct: Decimal,
) -> (r: ExitDecision)
    ensures
        r == gated(
            *input,
            ExitReason::Opportunistic,
            shares,
            input.mark_price,
            Some(PendingScaleOut { target_id: None, target_cumulative_exit_pct }),
        ),
{
    submit_or_manual_with_target(
        input,
        ExitReason::Opportunistic,
        shares,
        input.mark_price,
        Some(PendingScaleOut { target_id: None, target_cumulative_exit_pct }),
    )
}

/// Limit of an emergency sale: the mark less the permitted slippage.
pub open spec fn emergency_limit(mark: Price, max_slippage_bps: u32) -> Option<Price> {
    match Decimal::of_parts(max_slippage_bps as i128, 0).quotient(Decimal::of_parts(10000, 0)) {
        None => None,
        Some(slip) => match Decimal::of_parts(1, 0).difference(slip) {
            None => None,
            Some(rest) => mark.product(rest),
        },
    }
}

/// A number of basis points as a fraction.
pub fn bps_fraction(bps: Decimal) -> (r: Option<Decimal>)
    ensures
        r == bps.quotient(Decimal::of_parts(10000, 0)),
{
    bps.checked_div(Decimal::from_whole(10000))
}

fn liquidation_limit(mark: Price, max_slippage_bps: u32) -> (r: Option<Price>)
    ensures
        r == emergency_limit(mark, max_slippage_bps),
{
    match bps_fraction(Decimal::from_whole(max_slippage_bps as u64)) {
        None => None,
        Some(slip) => match Decimal::one().checked_sub(slip) {
            None => None,
            Some(rest) => mark.checked_mul(rest),
        },
    }
}

/// The decision in an emergency; `None` where the limit is not representable.
pub open spec fn emergency_decision(input: ExitMonitorInput) -> Option<ExitDecision> {
    let manual = ExitDecision::RequireManualReview { reason: ExitReason::KillSwitchEmergency };
    if input.emergency_policy.kind == EmergencyExitKind::ManualOnly {
        Some(manual)
    } else if input.mark_price is Some && input.lot.shares@ > 0 {
        match emergency_limit(input.mark_price->0, input.emergency_policy.max_slippage_bps) {
            None => None,
            Some(limit) => Some(
                ExitDecision::SubmitExitOrder {
                    reason: ExitReason::KillSwitchEmergency,
                    order: sale(input.lot.token_id, input.lot.shares, limit, OrderType::Fok),
                    pending_scale_out: None,
                },
            ),
        }
    } else {
        Some(manual)
    }
}

/// Shares of an opportunistic sale: what is still owed to the target, capped
/// by the lot. The inner option is empty where nothing is due, the outer where
/// the smallest worthwhile sale is not representable.
pub open spec fn opportunistic_shares(input: ExitMonitorInput) -> Option<Option<Shares>> {
    match input.denominator_shares {
        None => Some(None),
        Some(denominator) => if denominator@ <= 0 {
            Some(None)
        } else {
            match denominator.product(input.min_opportunistic_clip_pct) {
                None => None,
                Some(min_clip) => {
                    let delta = input.delta_to_target;
                    let sold = delta.lesser(input.lot.shares);
                    if delta@ <= 0 || delta@ < min_clip@ || sold@ <= 0 {
                        Some(None)
                    } else {
                        Some(Some(sold))
                    }
                },
            }
        },
    }
}

/// Shares of an opportunistic sale.
pub fn opportunistic_delta(input: &ExitMonitorInput) -> (r: Option<Option<Shares>>)
    ensures
        r == opportunistic_shares(*input),
        r matches Some(Some(sold)) ==> 0 < sold@ <= input.lot.shares@,
{
    match input.denominator_shares {
        None => Some(None),
        Some(denominator) => {
            if !denominator.is_positive() {
                return Some(None);
            }
            match denominator.checked_mul(input.min_opportunistic_clip_pct) {
                None => None,
                Some(min_clip) => {
                    let delta = input.delta_to_target;
                    if !delta.is_positive() || delta.lt(min_clip) {
                        return Some(None);
                    }
                    let sold = delta.min_of(input.lot.shares);
                    if !sold.is_positive() {
                        return Some(None);
                    }
                    Some(Some(sold))
                },
            }
        },
    }
}

/// The part of the ladder below the protective steps.
pub open spec fn discretionary_decision(input: ExitMonitorInput) -> Option<ExitDecision> {
    let lot = input.lot;
    let policy = input.exit_policy;
    if policy.settlement_mode == ExitSettlementMode::HoldToResolution {
        Some(ExitDecision::Hold)
    } else if time_is_up(policy, lot.opened_at, input.now) {
        Some(gated(input, ExitReason::TimeExit, lot.shares, input.mark_price, None))
    } else if policy.manual_review_at matches Some(at) && input.now@ >= at@ {
        Some(ExitDecision::RequireManualReview { reason: ExitReason::Manual })
    } else {
        let target = profit_target(policy, lot.avg_price);
        if input.mark_price is Some && target is None {
            None
        } else if input.mark_price is Some && target->0 is Some && input.mark_price->0@
            >= target->0->0@ {
            Some(gated(input, ExitReason::TakeProfit, lot.shares, target->0, None))
        } else {
            match input.scale_out {
                Some(projection) => Some(
                    gated(
                        input,
                        ExitReason::PartialExit,
                        projection.delta_shares,
                        input.mark_price,
                        Some(
                            PendingScaleOut {
                                target_id: Some(projection.target_id),
                                target_cumulative_exit_pct: projection.target_cumulative_exit_pct,
                            },
                        ),
                    ),
                ),
                None => match input.signal {
                    ExitSignalVerdict::OpportunisticSell { target_cumulative_exit_pct, .. } => {
                        match opportunistic_shares(input) {
                            None => None,
                            Some(None) => Some(ExitDecision::Hold),
                            Some(Some(sold)) => Some(
                                gated(
                                    input,
                                    ExitReason::Opportunistic,
                                    sold,
                                    input.mark_price,
                                    Some(
                                        PendingScaleOut {
                                            target_id: None,
                                            target_cumulative_exit_pct,
                                        },
                                    ),
                                ),
                            ),
                        }
                    },
                    _ => Some(ExitDecision::Hold),
                },
            }
        }
    }
}

/// The whole ladder; `None` where a price or size it needs is not
/// representable.
pub open spec fn exit_decision(input: ExitMonitorInput) -> Option<ExitDecision> {
    if input.kill_switch.spec_requires_emergency_exit() {
        emergency_decision(input)
    } else if !input.book_fresh {
        Some(ExitDecision::RequireManualReview { reason: ExitReason::DataStale })
    } else if input.market_abnormal {
        Some(ExitDecision::RequireManualReview { reason: ExitReason::MarketAbnormal })
    } else if input.mark_price is Some && input.effective_stop is Some && input.mark_price->0@
        <= input.effective_stop->0@ {
        Some(gated(input, ExitReason::StopLoss, input.lot.shares, input.mark_price, None))
    } else if input.signal is ThesisInvalidated {
        Some(gated(input, ExitReason::SignalInvalidated, input.lot.shares, input.mark_price, None))
    } else {
        discretionary_decision(input)
    }
}

fn emergency_exit(input: &ExitMonitorInput) -> (r: Option<ExitDecision>)
    ensures
        r == emergency_decision(*input),
{
    match input.emergency_policy.kind {
        EmergencyExitKind::ManualOnly => Some(
            ExitDecision::RequireManualReview { reason: ExitReason::KillSwitchEmergency },
        ),
        EmergencyExitKind::LiquidateAll => match input.mark_price {
            Some(mark) => if input.lot.shares.is_positive() {
                match liquidation_limit(mark, input.emergency_policy.max_slippage_bps) {
                    Some(limit) => Some(
                        ExitDecision::SubmitExitOrder {
                            reason: ExitReason::KillSwitchEmergency,
                            order: sell_order(
                                &input.lot.token_id,
                                input.lot.shares,
                                limit,
                                OrderType::Fok,
                            ),
                            pending_scale_out: None,
                        },
                    ),
                    None => None,
                }
            } else {
                Some(ExitDecision::RequireManualReview { reason: ExitReason::KillSwitchEmergency })
            },
            None => Some(
                ExitDecision::RequireManualReview { reason: ExitReason::KillSwitchEmergency },
            ),
        },
    }
}

fn discretionary_exit(input: &ExitMonitorInput) -> (r: Option<ExitDecision>)
    ensures
        r == discretionary_decision(*input),
{
    let lot = &input.lot;
    let policy = &input.exit_policy;
    if policy.settlement_mode == ExitSettlementMode::HoldToResolution {
        return Some(ExitDecision::Hold);
    }
    if time_exit_due(policy, lot.opened_at, input.now) {
        return Some(submit_or_manual(input, ExitReason::TimeExit, lot.shares, input.mark_price));
    }
    if let Some(at) = policy.manual_review_at {
        if at.until(input.now) {
            return Some(ExitDecision::RequireManualReview { reason: ExitReason::Manual });
        }
    }
    if let Some(mark) = input.mark_price {
        match take_profit_target(policy, lot.avg_price) {
            None => {
                return None;
            },
            Some(Some(target)) => {
                if target.le(mark) {
                    return Some(
                        submit_or_manual(input, ExitReason::TakeProfit, lot.shares, Some(target)),
                    );
                }
            },
            Some(None) => {},
        }
    }
    if let Some(projection) = &input.scale_out {
        return Some(
            submit_or_manual_with_target(
                input,
                ExitReason::PartialExit,
                projection.delta_shares,
                input.mark_price,
                Some(
                    PendingScaleOut {
                        target_id: Some(projection.target_id.clone()),
                        target_cumulative_exit_pct: projection.target_cumulative_exit_pct,
                    },
                ),
            ),
        );
    }
    if let ExitSignalVerdict::OpportunisticSell { target_cumulative_exit_pct, detail: _ } =
        &input.signal {
        return match opportunistic_delta(input) {
            None => None,
            Some(None) => Some(ExitDecision::Hold),
            Some(Some(sold)) => Some(
                submit_or_manual_opportunistic(input, sold, *target_cumulative_exit_pct),
            ),
        };
    }
    Some(ExitDecision::Hold)
}

/// Decides what to do with a lot.
pub fn decide_exit(input: &ExitMonitorInput) -> (r: Result<ExitDecision, ExecutionError>)
    ensures
        match r {
            Ok(decision) => exit_decision(*input) == Some(decision),
            Err(error) => exit_decision(*input) is None && error@ == ErrorView::DecimalOverflow,
        },
{
    if input.kill_switch.requires_emergency_exit() {
        return crate::orders::representable(emergency_exit(input));
    }
    if !input.book_fresh {
        return Ok(ExitDecision::RequireManualReview { reason: ExitReason::DataStale });
    }
    if input.market_abnormal {
        return Ok(ExitDecision::RequireManualReview { reason: ExitReason::MarketAbnormal });
    }
    if let (Some(mark), Some(stop)) = (input.mark_price, input.effective_stop) {
        if mark.le(stop) {
            return Ok(
                submit_or_manual(input, ExitReason::StopLoss, input.lot.shares, Some(mark)),
            );
        }
    }
    if let ExitSignalVerdict::ThesisInvalidated { detail: _ } = &input.signal {
        return Ok(
            submit_or_manual(
                input,
                ExitReason::SignalInvalidated,
                input.lot.shares,
                input.mark_price,
            ),
        );
    }
    crate::orders::representable(discretionary_exit(input))
}

/// An emergency overrides everything else: the decision is the emergency
/// policy's, whatever the book, the signal and the exit policy say.
pub proof fn emergency_overrides_everything(input: ExitMonitorInput)
    requires
        input.kill_switch.spec_requires_emergency_exit(),
    ensures
        exit_decision(input) == emergency_decision(input),
        exit_decision(input) matches Some(ExitDecision::SubmitExitOrder { reason, order, .. })
            ==> reason == ExitReason::KillSwitchEmergency && order.order_type == OrderType::Fok
            && input.emergency_policy.kind == EmergencyExitKind::LiquidateAll,
{
}

/// While automatic exits are frozen and no emergency is declared, nothing is
/// submitted.
pub proof fn frozen_exits_are_never_submitted(input: ExitMonitorInput)
    requires
        !input.kill_switch.spec_allows_auto_exit(),
        !input.kill_switch.spec_requires_emergency_exit(),
    ensures
        !(exit_decision(input) matches Some(ExitDecision::SubmitExitOrder { .. })),
{
}

/// A stale book or an abnormal market goes to an operator unless an emergency
/// is declared: no price is guessed.
pub proof fn unreadable_markets_go_to_an_operator(input: ExitMonitorInput)
    requires
        !input.kill_switch.spec_requires_emergency_exit(),
        !input.book_fresh || input.market_abnormal,
    ensures
        exit_decision(input) matches Some(ExitDecision::RequireManualReview { .. }),
{
}

/// A lot held to resolution is left only for protection: by the emergency
/// policy, the stop or an invalidated thesis.
pub proof fn held_lots_leave_only_for_protection(input: ExitMonitorInput)
    requires
        input.exit_policy.settlement_mode == ExitSettlementMode::HoldToResolution,
    ensures
        exit_decision(input) matches Some(ExitDecision::SubmitExitOrder { reason, .. }) ==> reason
            == ExitReason::KillSwitchEmergency || reason == ExitReason::StopLoss || reason
            == ExitReason::SignalInvalidated,
{
}

/// Every submitted order sells a positive number of the lot's own token, and
/// no more than the lot holds unless a planned scale-out step asks for it.
pub proof fn exits_sell_from_the_lot(input: ExitMonitorInput)
    ensures
        exit_decision(input) matches Some(ExitDecision::SubmitExitOrder { reason, order, .. })
            ==> order.side == Side::Sell && order.token_id == input.lot.token_id && order.shares@
            > 0 && (reason != ExitReason::PartialExit ==> order.shares@ <= input.lot.shares@),
{
}

} // verus!
