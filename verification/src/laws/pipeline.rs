//! What the execution pipeline is for.
use vstd::prelude::*;

use crate::decimal::{whole_numbers_have_their_value, Bps, Decimal};
use crate::execution_pipeline::{
    closing_stage, context_refusal, observed, older_age, quality_violation, reservation_after,
    sized, step_after, BookDecisionContextSummary, BookDecisionStage, ExecutionMode,
    ExecutionOutcome, ExecutionQualityFactor, ObserveReply, SizingFacts, SizingView, StepReply,
    StepView,
};
use crate::laws::values::divides_to;

verus! {

/// The age of a pair is that of its older book.
pub proof fn pairs_are_as_old_as_their_older_book(yes: Option<u64>, no: Option<u64>)
    ensures
        older_age(yes, no) is None <==> yes is None && no is None,
        older_age(yes, no) matches Some(age) ==> (yes == Some(age) || no == Some(age)) && (yes
            matches Some(one) ==> one <= age) && (no matches Some(other) ==> other <= age),
{
}

/// A pair has to be captured; live, it has to be on record, and good enough
/// before an order.
pub proof fn live_orders_need_their_context(
    mode: ExecutionMode,
    captured: Option<BookDecisionContextSummary>,
    written: bool,
    before_order: bool,
)
    ensures
        context_refusal(mode, captured, written, before_order) is None <==> (captured
            matches Some(summary) && (mode is Live ==> written && (before_order
            ==> summary.production_eligible))),
{
}

/// Without a factor nothing is violated; with one, too much depth, or slippage
/// beyond the tightened limit, is, and nothing else.
pub proof fn factors_limit_depth_and_slippage(
    factor: ExecutionQualityFactor,
    depth_used_pct: Decimal,
    slippage: Bps,
    used: Decimal,
)
    requires
        divides_to(depth_used_pct, Decimal::of_parts(100, 0), used),
    ensures
        quality_violation(None, depth_used_pct, slippage) matches Ok(violation) && violation is None,
        quality_violation(Some(factor), depth_used_pct, slippage) matches Ok(violation) && (
        violation is Some <==> (factor.max_depth_usage_pct matches Some(cap) && depth_used_pct@
            > cap@ * 100) || factor.effective_limit@ < 0 || slippage@ > factor.effective_limit@),
{
    whole_numbers_have_their_value(100);
    let one = vstd::arithmetic::power::pow(10, 28);
    vstd::arithmetic::power::lemma_pow_positive(10, 28);
    let u = used@;
    let d = depth_used_pct@;
    assert(u * 100 == d) by (nonlinear_arith)
        requires
            u * (100 * one) == d * one,
            one > 0,
    ;
}

/// An opportunity is sized exactly where validation, the factors, the risk engine
/// before and after sizing, and the fee quote let it through and something is
/// recommended; and it gets what was recommended.
pub proof fn opportunities_get_what_is_recommended(facts: SizingFacts)
    ensures
        (sized(facts) matches Ok(SizingView::Sized { .. })) <==> {
            &&& facts.validation matches Ok(slippage) && (quality_violation(
                facts.quality,
                facts.depth_used_pct,
                slippage,
            ) matches Ok(violation) && violation is None)
            &&& facts.risk.allowed
            &&& facts.risk.recommended_usd matches Some(usd) && usd@ > 0
            &&& facts.fee_preview is Ok
            &&& facts.sized_risk.allowed
        },
        sized(facts) matches Ok(SizingView::Sized { approved_usd, trace }) ==> Some(approved_usd)
            == facts.risk.recommended_usd && trace.publication_id == facts.publication_id
            && trace.applied == facts.detection_factors@ + facts.execution_factors@,
{
}

/// Each step but the last follows the one before it, once that is done.
pub proof fn steps_follow_in_order(reply: StepReply, reads_balance: bool)
    requires
        reply is Done,
    ensures
        step_after(StepView::Admit, reply, reads_balance) is AcquireMarket,
        step_after(StepView::AcquireMarket, reply, reads_balance) is Size,
        step_after(StepView::Size, reply, reads_balance) is CaptureContext,
        step_after(StepView::CaptureContext, reply, reads_balance) is Reserve,
        step_after(StepView::Reserve, reply, reads_balance) is BuildPlan,
        step_after(StepView::BuildPlan, reply, reads_balance) is BuildTrade,
        step_after(StepView::BuildTrade, reply, reads_balance) is CreateTrade,
        step_after(StepView::CreateTrade, reply, reads_balance) is ReadBalance <==> reads_balance,
        step_after(StepView::CreateTrade, reply, reads_balance) is MarkSubmitted <==> !reads_balance,
        step_after(StepView::ReadBalance, reply, reads_balance) is StoreBalance,
        step_after(StepView::StoreBalance, reply, reads_balance) is MarkSubmitted,
        step_after(StepView::MarkSubmitted, reply, reads_balance) is CallVenue,
{
}

/// A step that is not done stops everything.  Capital goes back exactly where it
/// was reserved, a failed reservation is counted, and only a fault after the
/// trade row is begun stops execution for good.
pub proof fn undone_steps_stop_everything(step: StepView, reply: StepReply, reads_balance: bool)
    requires
        !(reply is Done),
        !(step is CallVenue),
        !(step is Aborted),
    ensures
        step_after(step, reply, reads_balance) matches StepView::Aborted(abort) && {
            &&& abort.release <==> step is BuildPlan || step is BuildTrade || step is CreateTrade
                || step is ReadBalance || step is StoreBalance || step is MarkSubmitted
            &&& abort.reservation_failure <==> step is Reserve
            &&& abort.audit <==> step is Reserve || step is BuildPlan || step is CreateTrade
            &&& abort.emergency is Some <==> step is BuildTrade || step is ReadBalance || step
                is StoreBalance || step is MarkSubmitted
        },
{
}

/// Capital goes back where nothing was bought for certain, and stays where
/// something was or may have been.
pub proof fn capital_stays_where_something_may_have_been_bought(outcome: ExecutionOutcome)
    ensures
        reservation_after(outcome) is Release <==> outcome is Miss || outcome is Failed,
{
}

/// Every observation ends in three answers at the most.
pub proof fn observations_end(
    outcome: ExecutionOutcome,
    resolved: bool,
    first: ObserveReply,
    second: ObserveReply,
    third: ObserveReply,
)
    ensures
        !(observed(outcome, resolved, seq![first, second, third]) is WakeReconciler),
        observed(outcome, resolved, seq![first, second, third]) is Done || observed(
            outcome,
            resolved,
            seq![first, second],
        ) is Done || observed(outcome, resolved, seq![first, second, third]) is Emergency,
        outcome is Unknown && first is Done && second is Done ==> observed(
            outcome,
            resolved,
            seq![first, second],
        ) is WakeReconciler,
        !(outcome is Unknown) && resolved && first is Done ==> observed(
            outcome,
            resolved,
            seq![first],
        ) is WakeRelay,
        !(outcome is Unknown) && resolved && !(first is Done) ==> observed(
            outcome,
            resolved,
            seq![first],
        ) is Emergency,
        outcome is Unknown && !(first is Done) ==> observed(outcome, resolved, seq![first])
            is Emergency,
{
    reveal_with_fuel(observed, 4);
    assert(seq![first].drop_last() =~= Seq::empty());
    assert(seq![first, second].drop_last() =~= seq![first]);
    assert(seq![first, second, third].drop_last() =~= seq![first, second]);
}

/// Each outcome that is known has a stage of its own; an unknown one has none.
pub proof fn known_outcomes_have_their_stage(outcome: ExecutionOutcome, other: ExecutionOutcome)
    ensures
        closing_stage(outcome) is None <==> outcome is Unknown,
        closing_stage(outcome) == closing_stage(other) ==> outcome == other,
        closing_stage(outcome) == Some(BookDecisionStage::OrderFilled) <==> outcome is Filled,
        closing_stage(outcome) == Some(BookDecisionStage::OrderMissed) <==> outcome is Miss,
        closing_stage(outcome) != Some(BookDecisionStage::OrderPrepared),
{
}

} // verus!
