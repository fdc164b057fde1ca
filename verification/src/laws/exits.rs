//! What the exit ladder is for.
use vstd::arithmetic::power::pow;
use vstd::prelude::*;

use crate::decimal::{whole_numbers_have_their_value, Decimal, Price, Shares};
use crate::exit_monitor::{
    emergency_limit, exit_decision, opportunistic_shares, profit_target, sale_target,
    EmergencyExitKind, ExitDecision, ExitMonitorInput, ExitReason, ExitSignalVerdict,
};
use crate::laws::values::{divides_to, leaves, multiplies_to, sums_to};
use crate::plans::{ExitPolicySpec, ExitSettlementMode, KillSwitchState};
use crate::types::{OrderType, Side};

verus! {

/// A percentage target lies above the average entry price by that percentage of
/// it, so never below it, and the higher the percentage the higher the target.
pub proof fn profit_targets_lie_above_the_entry(
    policy: ExitPolicySpec,
    avg_price: Price,
    pct: Decimal,
    factor: Decimal,
    target: Price,
)
    requires
        policy.take_profit_pct == Some(pct),
        policy.take_profit_price is None,
        sums_to(Decimal::of_parts(1, 0), pct, factor),
        multiplies_to(avg_price, factor, target),
    ensures
        profit_target(policy, avg_price) == Some(Some(target)),
        (target@ - avg_price@) * pow(10, 28) == avg_price@ * pct@,
        avg_price@ >= 0 && pct@ >= 0 ==> target@ >= avg_price@,
        avg_price@ > 0 && pct@ > 0 ==> target@ > avg_price@,
{
    let one = pow(10, 28);
    whole_numbers_have_their_value(1);
    vstd::arithmetic::power::lemma_pow_positive(10, 28);
    assert(avg_price@ * (one + pct@) == avg_price@ * one + avg_price@ * pct@) by (nonlinear_arith);
    assert((target@ - avg_price@) * one == target@ * one - avg_price@ * one) by (nonlinear_arith);
    let t = target@;
    let a = avg_price@;
    let p = pct@;
    if a >= 0 && p >= 0 {
        assert(t >= a) by (nonlinear_arith)
            requires
                (t - a) * one == a * p,
                a >= 0,
                p >= 0,
                one > 0,
        ;
    }
    if a > 0 && p > 0 {
        assert(t > a) by (nonlinear_arith)
            requires
                (t - a) * one == a * p,
                a > 0,
                p > 0,
                one > 0,
        ;
    }
}

/// Of two percentages the higher one has the higher target.
pub proof fn higher_percentages_have_higher_targets(
    low: ExitPolicySpec,
    high: ExitPolicySpec,
    avg_price: Price,
    low_factor: Decimal,
    high_factor: Decimal,
    low_target: Price,
    high_target: Price,
)
    requires
        low.take_profit_pct is Some && high.take_profit_pct is Some,
        low.take_profit_price is None && high.take_profit_price is None,
        low.take_profit_pct->0@ <= high.take_profit_pct->0@,
        avg_price@ >= 0,
        sums_to(Decimal::of_parts(1, 0), low.take_profit_pct->0, low_factor),
        sums_to(Decimal::of_parts(1, 0), high.take_profit_pct->0, high_factor),
        multiplies_to(avg_price, low_factor, low_target),
        multiplies_to(avg_price, high_factor, high_target),
    ensures
        profit_target(low, avg_price)->0->0@ <= profit_target(high, avg_price)->0->0@,
{
    profit_targets_lie_above_the_entry(
        low,
        avg_price,
        low.take_profit_pct->0,
        low_factor,
        low_target,
    );
    profit_targets_lie_above_the_entry(
        high,
        avg_price,
        high.take_profit_pct->0,
        high_factor,
        high_target,
    );
    vstd::arithmetic::power::lemma_pow_positive(10, 28);
    let one = pow(10, 28);
    let a = avg_price@;
    let l = low.take_profit_pct->0@;
    let h = high.take_profit_pct->0@;
    let lt = low_target@;
    let ht = high_target@;
    assert(lt <= ht) by (nonlinear_arith)
        requires
            (lt - a) * one == a * l,
            (ht - a) * one == a * h,
            l <= h,
            a >= 0,
            one > 0,
    ;
}

/// With an absolute target beside a percentage, the nearer of the two counts;
/// without a percentage the absolute target does, and without either none.
pub proof fn the_nearer_profit_target_counts(
    policy: ExitPolicySpec,
    avg_price: Price,
    factor: Decimal,
    from_pct: Price,
)
    ensures
        policy.take_profit_pct is None ==> profit_target(policy, avg_price) == Some(
            policy.take_profit_price,
        ),
        policy.take_profit_pct is Some && policy.take_profit_price is Some && sums_to(
            Decimal::of_parts(1, 0),
            policy.take_profit_pct->0,
            factor,
        ) && multiplies_to(avg_price, factor, from_pct) ==> {
            let target = profit_target(policy, avg_price);
            &&& target matches Some(Some(nearer))
            &&& nearer@ <= from_pct@
            &&& nearer@ <= policy.take_profit_price->0@
            &&& nearer@ == from_pct@ || nearer@ == policy.take_profit_price->0@
        },
{
}

/// The reason that a decision names.
pub open spec fn reason_of(decision: ExitDecision) -> Option<ExitReason> {
    match decision {
        ExitDecision::Hold => None,
        ExitDecision::SubmitExitOrder { reason, .. } => Some(reason),
        ExitDecision::RequireManualReview { reason } => Some(reason),
    }
}

/// Whether the mark has reached a target, absolute or by percentage.
pub open spec fn profit_is_reached(policy: ExitPolicySpec, avg: Price, mark: Price) -> bool {
    ||| (policy.take_profit_price matches Some(price) && mark@ >= price@)
    ||| (policy.take_profit_pct matches Some(pct) && (Decimal::of_parts(1, 0).sum(pct) matches Some(
        factor,
    ) && (avg.product(factor) matches Some(target) && mark@ >= target@)))
}

/// Whether a deadline is reached, at a time or after a hold.
pub open spec fn deadline_is_reached(input: ExitMonitorInput) -> bool {
    ||| (input.exit_policy.time_exit_at matches Some(at) && input.now@ >= at@)
    ||| (input.exit_policy.max_hold_secs matches Some(secs) && input.now@ - input.lot.opened_at@
        >= secs * 1000000000)
}

/// A lot is never left, nor handed to an operator, without the cause that the
/// decision names.
pub proof fn exits_have_their_cause(input: ExitMonitorInput)
    requires
        exit_decision(input) is Some,
    ensures
        match reason_of(exit_decision(input)->0) {
            None => true,
            Some(ExitReason::KillSwitchEmergency) => input.kill_switch
                == KillSwitchState::EmergencyHalt,
            Some(ExitReason::DataStale) => !input.book_fresh,
            Some(ExitReason::MarketAbnormal) => input.market_abnormal,
            Some(ExitReason::StopLoss) => input.mark_price is Some && input.effective_stop is Some
                && input.mark_price->0@ <= input.effective_stop->0@,
            Some(ExitReason::SignalInvalidated) => input.signal is ThesisInvalidated,
            Some(ExitReason::TimeExit) => deadline_is_reached(input),
            Some(ExitReason::Manual) => input.exit_policy.manual_review_at is Some && input.now@
                >= input.exit_policy.manual_review_at->0@,
            Some(ExitReason::TakeProfit) => input.mark_price is Some && profit_is_reached(
                input.exit_policy,
                input.lot.avg_price,
                input.mark_price->0,
            ),
            Some(ExitReason::PartialExit) => input.scale_out is Some,
            Some(ExitReason::Opportunistic) => input.signal is OpportunisticSell
                && input.denominator_shares is Some && input.denominator_shares->0@ > 0
                && input.delta_to_target@ > 0,
        },
        !(exit_decision(input)->0 is Hold) && !(reason_of(exit_decision(input)->0) is Some
            && reason_of(exit_decision(input)->0)->0 == ExitReason::KillSwitchEmergency)
            ==> input.kill_switch != KillSwitchState::EmergencyHalt,
{
}

/// A lot is sold whole at the mark, and only where automatic exits are allowed
/// and there is something to sell; else an operator gets it, under the same
/// reason.
pub open spec fn leaves_whole_at_the_mark(input: ExitMonitorInput, reason: ExitReason) -> bool {
    if (input.kill_switch == KillSwitchState::Closed || input.kill_switch
        == KillSwitchState::ExitOnly) && input.mark_price is Some && input.lot.shares@ > 0 {
        exit_decision(input) matches Some(
            ExitDecision::SubmitExitOrder { reason: named, order, pending_scale_out },
        ) && named == reason && order.token_id == input.lot.token_id && order.side == Side::Sell
            && order.order_type == OrderType::Gtc && order.limit_price == input.mark_price->0
            && order.shares == input.lot.shares && pending_scale_out is None
    } else {
        exit_decision(input) == Some(ExitDecision::RequireManualReview { reason })
    }
}

/// Whether the lot can be looked at: no emergency, a fresh book, an ordinary
/// market.
pub open spec fn can_be_looked_at(input: ExitMonitorInput) -> bool {
    input.kill_switch != KillSwitchState::EmergencyHalt && input.book_fresh
        && !input.market_abnormal
}

/// Whether the mark has fallen to the stop.
pub open spec fn is_stopped(input: ExitMonitorInput) -> bool {
    input.mark_price is Some && input.effective_stop is Some && input.mark_price->0@
        <= input.effective_stop->0@
}

/// A stop, a lost thesis and a deadline are acted upon, in that order: the lot
/// leaves whole at the mark. A lot held to resolution has no deadline.
pub proof fn causes_are_acted_upon(input: ExitMonitorInput)
    requires
        can_be_looked_at(input),
    ensures
        is_stopped(input) ==> leaves_whole_at_the_mark(input, ExitReason::StopLoss),
        !is_stopped(input) && input.signal is ThesisInvalidated ==> leaves_whole_at_the_mark(
            input,
            ExitReason::SignalInvalidated,
        ),
        !is_stopped(input) && !(input.signal is ThesisInvalidated)
            && input.exit_policy.settlement_mode == ExitSettlementMode::HoldToResolution
            ==> exit_decision(input) == Some(ExitDecision::Hold),
        !is_stopped(input) && !(input.signal is ThesisInvalidated)
            && input.exit_policy.settlement_mode == ExitSettlementMode::ExitBeforeResolution
            && input.exit_policy.time_exit_at is Some && input.now@
            >= input.exit_policy.time_exit_at->0@ ==> leaves_whole_at_the_mark(
            input,
            ExitReason::TimeExit,
        ),
        !is_stopped(input) && !(input.signal is ThesisInvalidated)
            && input.exit_policy.settlement_mode == ExitSettlementMode::ExitBeforeResolution
            && input.exit_policy.max_hold_secs is Some && crate::time::in_calendar(
            input.lot.opened_at@ + input.exit_policy.max_hold_secs->0 * 1000000000,
        ) && input.now@ - input.lot.opened_at@ >= input.exit_policy.max_hold_secs->0 * 1000000000
            ==> leaves_whole_at_the_mark(input, ExitReason::TimeExit),
{
}

/// What cannot be looked at goes to an operator, for a stale book first; in an
/// emergency the policy decides.
pub proof fn what_cannot_be_looked_at_is_handed_over(input: ExitMonitorInput)
    requires
        input.kill_switch != KillSwitchState::EmergencyHalt,
    ensures
        !input.book_fresh ==> exit_decision(input) == Some(
            ExitDecision::RequireManualReview { reason: ExitReason::DataStale },
        ),
        input.book_fresh && input.market_abnormal ==> exit_decision(input) == Some(
            ExitDecision::RequireManualReview { reason: ExitReason::MarketAbnormal },
        ),
{
}

/// Whether nothing comes before the targets of a lot: it can be looked at, is
/// not stopped, its thesis holds, it is not held to resolution, and no deadline
/// or review is due.
pub open spec fn only_targets_are_left(input: ExitMonitorInput) -> bool {
    &&& can_be_looked_at(input)
    &&& !is_stopped(input)
    &&& !(input.signal is ThesisInvalidated)
    &&& input.exit_policy.settlement_mode == ExitSettlementMode::ExitBeforeResolution
    &&& !deadline_is_reached(input)
    &&& (input.exit_policy.manual_review_at is Some ==> input.now@
        < input.exit_policy.manual_review_at->0@)
}

/// A review that is due goes to an operator before any target is looked at.
pub proof fn due_reviews_come_before_targets(input: ExitMonitorInput)
    requires
        can_be_looked_at(input),
        !is_stopped(input),
        !(input.signal is ThesisInvalidated),
        input.exit_policy.settlement_mode == ExitSettlementMode::ExitBeforeResolution,
        !deadline_is_reached(input),
        input.exit_policy.manual_review_at is Some,
        input.now@ >= input.exit_policy.manual_review_at->0@,
    ensures
        exit_decision(input) == Some(
            ExitDecision::RequireManualReview { reason: ExitReason::Manual },
        ),
{
}

/// A reached target sells the whole lot at the target, not below it.
pub proof fn reached_targets_are_taken(input: ExitMonitorInput, factor: Decimal, from_pct: Price)
    requires
        only_targets_are_left(input),
        input.mark_price is Some,
        profit_is_reached(input.exit_policy, input.lot.avg_price, input.mark_price->0),
        input.exit_policy.take_profit_pct is Some ==> sums_to(
            Decimal::of_parts(1, 0),
            input.exit_policy.take_profit_pct->0,
            factor,
        ) && multiplies_to(input.lot.avg_price, factor, from_pct),
        input.kill_switch == KillSwitchState::Closed || input.kill_switch
            == KillSwitchState::ExitOnly,
        input.lot.shares@ > 0,
    ensures
        exit_decision(input) matches Some(
            ExitDecision::SubmitExitOrder { reason, order, pending_scale_out },
        ) && reason == ExitReason::TakeProfit && order.shares == input.lot.shares && order.side
            == Side::Sell && order.token_id == input.lot.token_id && pending_scale_out is None
            && order.limit_price@ <= input.mark_price->0@ && (input.exit_policy.take_profit_pct
            is None ==> order.limit_price@ == input.exit_policy.take_profit_price->0@) && (
        input.exit_policy.take_profit_price is None ==> (order.limit_price@
            - input.lot.avg_price@) * pow(10, 28) == input.lot.avg_price@
            * input.exit_policy.take_profit_pct->0@),
{
    if input.exit_policy.take_profit_price is None {
        profit_targets_lie_above_the_entry(
            input.exit_policy,
            input.lot.avg_price,
            input.exit_policy.take_profit_pct->0,
            factor,
            from_pct,
        );
    }
}

/// A target that is not reached sells nothing: with no step due and no
/// opportunistic signal the lot is held.
pub proof fn unreached_targets_are_waited_for(
    input: ExitMonitorInput,
    factor: Decimal,
    from_pct: Price,
)
    requires
        only_targets_are_left(input),
        input.mark_price is Some ==> !profit_is_reached(
            input.exit_policy,
            input.lot.avg_price,
            input.mark_price->0,
        ),
        input.exit_policy.take_profit_pct is Some ==> sums_to(
            Decimal::of_parts(1, 0),
            input.exit_policy.take_profit_pct->0,
            factor,
        ) && multiplies_to(input.lot.avg_price, factor, from_pct),
    ensures
        input.scale_out is None && !(input.signal is OpportunisticSell) ==> exit_decision(input)
            == Some(ExitDecision::Hold),
        input.scale_out matches Some(step) ==> (exit_decision(input) matches Some(
            ExitDecision::SubmitExitOrder { reason, order, pending_scale_out },
        ) ==> reason == ExitReason::PartialExit && order.shares == step.delta_shares
            && order.limit_price == input.mark_price->0 && pending_scale_out is Some
            && pending_scale_out->0.target_id == Some(step.target_id)
            && pending_scale_out->0.target_cumulative_exit_pct == step.target_cumulative_exit_pct),
        input.scale_out matches Some(step) && input.mark_price is Some && step.delta_shares@ > 0
            && (input.kill_switch == KillSwitchState::Closed || input.kill_switch
            == KillSwitchState::ExitOnly) ==> exit_decision(input)->0 is SubmitExitOrder,
{
}

/// An opportunistic sale sells what is owed to the target, as far as the lot
/// has it, and nothing where less is owed than is worth selling.
pub proof fn opportunism_sells_what_is_owed(input: ExitMonitorInput, clip: Shares)
    requires
        input.denominator_shares is Some ==> multiplies_to(
            input.denominator_shares->0,
            input.min_opportunistic_clip_pct,
            clip,
        ),
    ensures
        match opportunistic_shares(input) {
            Some(Some(sold)) => {
                &&& input.denominator_shares is Some && input.denominator_shares->0@ > 0
                &&& 0 < sold@
                &&& sold@ <= input.lot.shares@
                &&& sold@ <= input.delta_to_target@
                &&& sold@ == input.lot.shares@ || sold@ == input.delta_to_target@
                &&& input.delta_to_target@ * pow(10, 28) >= input.denominator_shares->0@
                    * input.min_opportunistic_clip_pct@
            },
            Some(None) => input.denominator_shares is None || input.denominator_shares->0@ <= 0
                || input.delta_to_target@ <= 0 || input.lot.shares@ <= 0
                || input.delta_to_target@ * pow(10, 28) < input.denominator_shares->0@
                * input.min_opportunistic_clip_pct@,
            None => false,
        },
{
    vstd::arithmetic::power::lemma_pow_positive(10, 28);
    if input.denominator_shares is Some {
        let one = pow(10, 28);
        let delta = input.delta_to_target@;
        let least = clip@;
        let product = input.denominator_shares->0@ * input.min_opportunistic_clip_pct@;
        assert(delta >= least <==> delta * one >= product) by (nonlinear_arith)
            requires
                least * one == product,
                one > 0,
        ;
    }
}

/// An opportunistic sale is made at the mark, for exactly the owed shares, and
/// notes the target that the signal asked for.
pub proof fn opportunism_is_submitted_at_the_mark(
    input: ExitMonitorInput,
    factor: Decimal,
    from_pct: Price,
    sold: Shares,
)
    requires
        only_targets_are_left(input),
        input.mark_price is Some,
        !profit_is_reached(input.exit_policy, input.lot.avg_price, input.mark_price->0),
        input.exit_policy.take_profit_pct is Some ==> sums_to(
            Decimal::of_parts(1, 0),
            input.exit_policy.take_profit_pct->0,
            factor,
        ) && multiplies_to(input.lot.avg_price, factor, from_pct),
        input.scale_out is None,
        input.signal is OpportunisticSell,
        opportunistic_shares(input) == Some(Some(sold)),
        sold@ > 0,
        input.kill_switch == KillSwitchState::Closed || input.kill_switch
            == KillSwitchState::ExitOnly,
    ensures
        exit_decision(input) matches Some(
            ExitDecision::SubmitExitOrder { reason, order, pending_scale_out },
        ) && reason == ExitReason::Opportunistic && order.shares == sold && order.limit_price
            == input.mark_price->0 && pending_scale_out is Some && pending_scale_out->0.target_id
            is None && pending_scale_out->0.target_cumulative_exit_pct
            == input.signal->target_cumulative_exit_pct,
{
}

/// A target fraction is kept where it lies between zero and one and moved to the
/// nearer end where it does not.
pub proof fn target_fractions_are_confined(signal: ExitSignalVerdict, pct: Decimal, detail: String)
    requires
        signal == (ExitSignalVerdict::OpportunisticSell {
            target_cumulative_exit_pct: pct,
            detail,
        }),
    ensures
        sale_target(signal) is Some,
        0 <= sale_target(signal)->0@ <= pow(10, 28),
        0 <= pct@ <= pow(10, 28) ==> sale_target(signal)->0 == pct,
        pct@ < 0 ==> sale_target(signal)->0@ == 0,
        pct@ > pow(10, 28) ==> sale_target(signal)->0@ == pow(10, 28),
{
    whole_numbers_have_their_value(0);
    whole_numbers_have_their_value(1);
    vstd::arithmetic::power::lemma_pow_positive(10, 28);
}

/// The limit of an emergency sale lies below the mark by the permitted basis
/// points of it.
pub proof fn emergency_limits_allow_the_slippage(
    mark: Price,
    bps: u32,
    slip: Decimal,
    rest: Decimal,
    limit: Price,
)
    requires
        divides_to(Decimal::of_parts(bps as i128, 0), Decimal::of_parts(10000, 0), slip),
        leaves(Decimal::of_parts(1, 0), slip, rest),
        multiplies_to(mark, rest, limit),
    ensures
        emergency_limit(mark, bps) == Some(limit),
        limit@ * 10000 == mark@ * (10000 - bps),
        mark@ >= 0 ==> limit@ <= mark@,
{
    let one = pow(10, 28);
    whole_numbers_have_their_value(bps as i128);
    whole_numbers_have_their_value(10000);
    whole_numbers_have_their_value(1);
    vstd::arithmetic::power::lemma_pow_positive(10, 28);
    let s = slip@;
    let m = mark@;
    let l = limit@;
    let b = bps as int;
    assert(s * 10000 == b * one) by (nonlinear_arith)
        requires
            s * (10000 * one) == b * one * one,
            one > 0,
    ;
    assert(l * 10000 == m * (10000 - b)) by (nonlinear_arith)
        requires
            l * one == m * (one - s),
            s * 10000 == b * one,
            one > 0,
    ;
    if m >= 0 {
        assert(l <= m) by (nonlinear_arith)
            requires
                l * 10000 == m * (10000 - b),
                m >= 0,
                b >= 0,
        ;
    }
}

/// In an emergency an operator gets the lot where the policy says so, where the
/// book shows no mark or where nothing is left; else the whole lot is sold at
/// once, at the emergency limit.
pub proof fn emergencies_follow_the_policy(input: ExitMonitorInput)
    requires
        input.kill_switch == KillSwitchState::EmergencyHalt,
    ensures
        input.emergency_policy.kind == EmergencyExitKind::ManualOnly || input.mark_price is None
            || input.lot.shares@ <= 0 ==> exit_decision(input) == Some(
            ExitDecision::RequireManualReview { reason: ExitReason::KillSwitchEmergency },
        ),
        input.emergency_policy.kind == EmergencyExitKind::LiquidateAll && input.mark_price is Some
            && input.lot.shares@ > 0 ==> match exit_decision(input) {
            None => emergency_limit(
                input.mark_price->0,
                input.emergency_policy.max_slippage_bps,
            ) is None,
            Some(decision) => decision matches ExitDecision::SubmitExitOrder {
                reason,
                order,
                pending_scale_out,
            } && reason == ExitReason::KillSwitchEmergency && order.shares == input.lot.shares
                && order.token_id == input.lot.token_id && order.side == Side::Sell
                && order.order_type == OrderType::Fok && pending_scale_out is None && Some(
                order.limit_price,
            ) == emergency_limit(
                input.mark_price->0,
                input.emergency_policy.max_slippage_bps,
            ),
        },
{
}

} // verus!
