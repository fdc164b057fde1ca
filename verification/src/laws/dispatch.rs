//! What the submission of orders is for.
use vstd::prelude::*;

use crate::decimal::{Price, Usd};
use crate::dispatcher::{
    claim_of, entry_cost, entry_reconciliation, fill_price, following_step, gtd_defect,
    response_resolution, submission_write, submittable, total_spent, SubmissionStep,
};
use crate::admission::model::ConditionInstance;
use crate::exit_dispatcher::{
    exit_funding, exit_requirement, exit_row_refusal, exit_write, following_exit_step,
    planned_walk, validity, walk_refusal, ExitStep, ExitVenueEvidence,
};
use crate::exit_monitor::{ExitOrderSpec, ExitReason, PositionLot};
use crate::laws::values::{leaves, multiplies_to, sums_to};
use crate::order_rules::PolymarketOrderRules;
use crate::orders::{
    BookWalkFill, BookWalkOutcome, ClobMarketInfo, EntryOrderSpec, ExecutionOrderInfo,
    PitFeeSchedule, PreparedVenueOrder, ReconciliationResult, VenueFundingEvidence,
    VenueSubmitResult,
};
use crate::plans::{OrderIntentInfo, RecommendationInfo};
use crate::time::Timestamp;
use crate::types::{ContentHash, ExecutionAccountId, OrderIntentId, OrderType, TokenId};

verus! {

/// An intent is submitted exactly while it is approved and has not run out.
pub proof fn approved_intents_are_submittable(intent: OrderIntentInfo, now: Timestamp)
    ensures
        submittable(intent, now) is Ok <==> (intent.status is Approved || intent.status
            is ApprovedByPolicy) && now@ < intent.expires_at@,
{
}

/// An entry costs its budget, or what it commits where it has none.
pub proof fn entries_cost_what_they_commit(spec: EntryOrderSpec, prepared: PreparedVenueOrder)
    ensures
        prepared.cash_budget is Some ==> entry_cost(spec, prepared) == prepared.cash_budget,
        prepared.cash_budget is None ==> entry_cost(spec, prepared) == spec.spec_notional(),
{
}

/// An answer resolves a row at its own time, except where it is still pending.
pub proof fn answers_resolve_what_they_settle(result: ReconciliationResult, at: Timestamp)
    ensures
        response_resolution(result, at).1 == (if result is Pending {
            None::<Timestamp>
        } else {
            Some(at)
        }),
        response_resolution(result, at).0 is Some <==> !(result is Pending),
{
}

/// What reconciliation writes down is what the venue said, and the fee's delta is
/// what was observed beyond what was expected.
pub proof fn reconciliation_states_the_answer(
    reconciliation_id: u128,
    result: VenueSubmitResult,
    order: ExecutionOrderInfo,
    fee: Usd,
    beyond: Usd,
)
    ensures
        entry_reconciliation(reconciliation_id, result, order) matches Some(row) ==> {
            &&& row.execution_order_id == order.execution_order_id
            &&& row.order_intent_id == order.order_intent_id
            &&& row.venue_filled_shares == Some(result.filled_shares)
            &&& row.venue_avg_price == result.avg_fill_price
            &&& row.expected_fee_usd == Some(result.expected_fee)
            &&& row.observed_fee_usd == result.observed_fee
            &&& row.observed_at == result.responded_at
            &&& row.fee_delta_usd is Some <==> result.observed_fee is Some
            &&& row.resolved_at is Some <==> !(result.reconciliation_result is Pending)
        },
        result.observed_fee is None ==> entry_reconciliation(reconciliation_id, result, order)
            is Some,
        result.observed_fee == Some(fee) && leaves(fee, result.expected_fee, beyond) ==> (
        entry_reconciliation(reconciliation_id, result, order) matches Some(row)
            && row.fee_delta_usd matches Some(delta) && delta@ == fee@ - result.expected_fee@),
{
}

/// A fill counts at the price the venue gave, and at the limit where it gave
/// none.
pub proof fn fills_count_at_their_price(result: VenueSubmitResult, spec: EntryOrderSpec)
    ensures
        result.avg_fill_price is Some ==> result.avg_fill_price == Some(fill_price(result, spec)),
        result.avg_fill_price is None ==> fill_price(result, spec) == spec.limit_price,
{
}

/// Order, intent, capital and position follow the venue's answer: what filled is
/// a position at its cost, what did not fill is none, and what is unknown is left
/// as it is until it is known.
pub proof fn ledgers_follow_the_answer(
    reconciliation_id: u128,
    result: VenueSubmitResult,
    recommendation: RecommendationInfo,
    spec: EntryOrderSpec,
    order: ExecutionOrderInfo,
    account: ExecutionAccountId,
)
    requires
        submission_write(reconciliation_id, result, recommendation, spec, order, account) is Some,
    ensures
        ({
            let write = submission_write(
                reconciliation_id,
                result,
                recommendation,
                spec,
                order,
                account,
            )->0;
            let filled = result.outcome is Filled || result.outcome is PartiallyFilled;
            &&& write.fill is Some <==> filled
            &&& write.filled_at == (if filled {
                Some(result.responded_at)
            } else {
                None::<Timestamp>
            })
            &&& write.state is Filled <==> result.outcome is Filled
            &&& write.state is PartiallyFilled <==> result.outcome is PartiallyFilled
            &&& write.state is Submitted <==> result.outcome is Open
            &&& write.state is Ambiguous <==> result.outcome is Ambiguous
            &&& write.state is Failed <==> result.outcome is Rejected
            &&& write.state is Cancelled <==> result.outcome is Cancelled || result.outcome
                is Expired
            &&& write.intent_status is Filled <==> result.outcome is Filled
            &&& write.intent_status is PartiallyFilled <==> result.outcome is PartiallyFilled
            &&& write.intent_status is Submitted <==> result.outcome is Open || result.outcome
                is Ambiguous
            &&& write.intent_status is Failed <==> result.outcome is Rejected
            &&& write.intent_status is Cancelled <==> result.outcome is Cancelled || result.outcome
                is Expired
            &&& write.capital is SettleFull <==> result.outcome is Filled
            &&& write.capital is SettlePartial <==> result.outcome is PartiallyFilled
            &&& write.capital is Hold <==> result.outcome is Open || result.outcome is Ambiguous
            &&& write.cancelled_at is Some <==> result.outcome is Cancelled || result.outcome
                is Expired
            &&& write.reconciliation is None <==> result.outcome is Open
            &&& (write.fill matches Some(fill) ==> {
                &&& fill.shares == result.filled_shares
                &&& fill.token_id == spec.token_id
                &&& fill.market_id == recommendation.market_id
                &&& fill.event_id == recommendation.event_id
                &&& fill.side == recommendation.outcome_side
                &&& fill.order_intent_id == order.order_intent_id
                &&& fill.execution_account_id == account
                &&& fill.filled_at == result.responded_at
            })
        }),
{
}

/// A position costs its shares at their price, and the fee on top.
pub proof fn positions_cost_price_and_fee(
    reconciliation_id: u128,
    result: VenueSubmitResult,
    recommendation: RecommendationInfo,
    spec: EntryOrderSpec,
    order: ExecutionOrderInfo,
    account: ExecutionAccountId,
    price: Price,
    cost: Usd,
    spent: Usd,
)
    requires
        result.avg_fill_price == Some(price),
        result.observed_fee is None,
        multiplies_to(result.filled_shares, price, cost),
        sums_to(cost, result.expected_fee, spent),
    ensures
        total_spent(result, spec) == Some(spent),
        submission_write(reconciliation_id, result, recommendation, spec, order, account)
            matches Some(write) && (write.fill matches Some(fill) ==> fill.cost_usd@ == cost@
            + result.expected_fee@ && fill.price == price),
{
}

/// A claim binds the condition as it was evaluated, at its revision.
pub proof fn claims_bind_the_evaluation(
    intent_id: OrderIntentId,
    condition: ConditionInstance,
    admission_state_version: ContentHash,
    now: Timestamp,
)
    ensures
        ({
            let claim = claim_of(intent_id, condition, admission_state_version, now);
            &&& claim.order_intent_id == intent_id
            &&& claim.condition_instance_id == condition.condition_instance_id
            &&& claim.artifact_hash == condition.artifact_hash && claim.artifact_id
                == condition.artifact_id
            &&& claim.expected_revision == condition.revision
            &&& claim.evaluation_hash == condition.evaluation_hash
            &&& claim.input_fingerprint == condition.input_fingerprint
            &&& claim.continuity_hash == condition.continuity_hash
            &&& claim.admission_state_version == admission_state_version
            &&& claim.claimed_at == now
        }),
{
}

/// A failure before the claim ends the submission; one between the claim and the
/// venue call gives the claim back where nothing was written ahead; and from the
/// venue call on the answer is settled whatever it is.
pub proof fn failures_give_the_claim_back(step: SubmissionStep)
    ensures
        step is CheckParity || step is LoadIntent || step is Admit || step is Claim || step is BuildRow
            || step is Settle || step is Publish ==> following_step(step, false) is Failed,
        step is CommitParity || step is WriteAhead <==> following_step(step, false) is RevertClaim,
        following_step(step, true) is CallVenue <==> step is WriteAhead,
        step is CallVenue ==> following_step(step, true) is Settle && following_step(step, false)
            is Settle,
        step is RevertClaim ==> following_step(step, true) is Failed && following_step(step, false)
            is Failed,
{
}

/// An exit's venue evidence is good exactly where all three agree on market and
/// token, the rules have not changed, and nothing is wrong with any of them; and
/// then the rules are those of now.
pub proof fn exit_evidence_has_to_agree(
    evidence: ExitVenueEvidence,
    market_id: Seq<char>,
    token_id: Seq<char>,
)
    ensures
        evidence.validated(market_id, token_id) is Ok <==> {
            &&& evidence.frozen.defect is None && evidence.current.defect is None
                && evidence.rules_defect is None
            &&& evidence.frozen.market_id@ == market_id && evidence.current.market_id@ == market_id
                && evidence.live.market_id@ == market_id
            &&& evidence.live.token_id@ == token_id
            &&& evidence.frozen.lists(token_id) && evidence.current.lists(token_id)
            &&& evidence.current.tick_size == evidence.live.tick_size
            &&& evidence.current.minimum_order_size@ == evidence.live.minimum_order_size@
            &&& evidence.frozen.neg_risk == evidence.live.neg_risk && evidence.current.neg_risk
                == evidence.live.neg_risk
        },
        evidence.validated(market_id, token_id) matches Ok(rules) ==> rules.tick_size
            == evidence.live.tick_size && rules.minimum_order_size@
            == evidence.live.minimum_order_size@,
{
}

/// An exit is walked with its own canonical amounts, under fees that are known
/// now; and only an all-or-nothing order has to be filled whole.
pub proof fn exits_are_walked_as_ordered(
    order: ExitOrderSpec,
    rules: PolymarketOrderRules,
    current: ClobMarketInfo,
    converted: Result<PitFeeSchedule, String>,
    now: Timestamp,
)
    ensures
        planned_walk(order, rules, current, converted, now) is Ok <==> rules.limit_for(
            order.limit_price,
        ) is Ok && rules.sale_of(order.shares) is Ok && current.effective_at@ <= now@
            && current.available_at@ <= now@ && converted is Ok,
        planned_walk(order, rules, current, converted, now) matches Ok(walk) ==> {
            &&& rules.limit_for(order.limit_price) matches Ok(limit) && limit
                == walk.canonical.limit_price
            &&& rules.sale_of(order.shares) matches Ok(amounts) && amounts == walk.canonical.amounts
            &&& converted matches Ok(schedule) && schedule == walk.schedule
            &&& walk.requirement is AllOrNothing <==> order.order_type is Fok
        },
        exit_requirement(order.order_type) is AllOrNothing <==> order.order_type is Fok,
{
}

/// An all-or-nothing exit is refused where the book would not fill it; any other
/// is prepared whatever the walk found.
pub proof fn exits_need_a_book_only_for_all_or_nothing(order_type: OrderType, fill: BookWalkFill)
    ensures
        walk_refusal(order_type, Ok(fill)) is Some <==> order_type is Fok && fill.outcome
            == BookWalkOutcome::Unfilled,
{
}

/// An exit is valid for a minute, unless it says until when.
pub proof fn exits_are_valid_for_a_minute(order_type: OrderType, now: Timestamp)
    ensures
        order_type matches OrderType::Gtd { expiration } ==> validity(order_type, now) == expiration
            * 1000000000,
        !(order_type is Gtd) ==> validity(order_type, now) - now@ == 60 * 1000000000,
{
}

/// An exit is funded exactly by the position's own token without a deficit.
pub proof fn exits_are_funded_by_their_token(token_id: TokenId, evidence: VenueFundingEvidence)
    ensures
        exit_funding(token_id, evidence) is Ok <==> evidence.snapshot.asset is Conditional && (
        evidence.snapshot.token_id matches Some(held) && held@ == token_id@) && evidence.deficit
            is None,
{
}

/// An exit order belongs to its position and to an intent.
pub proof fn exit_orders_belong_to_their_position(
    lot: PositionLot,
    order: ExitOrderSpec,
    prepared: PreparedVenueOrder,
)
    ensures
        exit_row_refusal(lot, order, prepared) is None ==> prepared.market_id@ == lot.market_id@
            && prepared.token_id@ == lot.token_id@ && lot.order_intent_id is Some,
        prepared.market_id@ == lot.market_id@ && prepared.token_id@ == lot.token_id@
            && lot.order_intent_id is Some && prepared.requested_shares.product(
            prepared.limit_price,
        ) is Some && !(order.order_type is Gtd) ==> exit_row_refusal(lot, order, prepared) is None,
{
}

/// A sale brings its shares at their price less the fee, and realizes that less
/// what the shares had cost.
pub proof fn exits_realize_proceeds_less_cost(
    reconciliation_id: u128,
    result: VenueSubmitResult,
    lot: PositionLot,
    reason: ExitReason,
    order: ExecutionOrderInfo,
    price: Price,
    gross: Usd,
    proceeds: Usd,
    basis: Usd,
    realized: Usd,
)
    requires
        result.outcome is Filled || result.outcome is PartiallyFilled,
        result.avg_fill_price == Some(price),
        multiplies_to(result.filled_shares, price, gross),
        leaves(gross, result.expected_fee, proceeds),
        multiplies_to(lot.avg_price, result.filled_shares, basis),
        leaves(proceeds, basis, realized),
    ensures
        exit_write(reconciliation_id, result, lot, reason, order) is Some,
        ({
            let (write, pnl) = exit_write(reconciliation_id, result, lot, reason, order)->0;
            &&& pnl matches Some(value) && value@ == gross@ - result.expected_fee@ - basis@
            &&& write.position_exit matches Some(sale) && sale.proceeds_usd@ == gross@
                - result.expected_fee@ && sale.shares == result.filled_shares && sale.avg_price
                == price && sale.reason == reason && sale.exited_at == result.responded_at
            &&& write.exit_reason == reason
            &&& write.fully_exited <==> lot.shares@ <= result.filled_shares@
            &&& !write.revert_to_open
        }),
{
}

/// What did not fill realizes nothing: a refused order puts the lot back under
/// watch, an open or unknown one leaves it submitted.
pub proof fn unfilled_exits_realize_nothing(
    reconciliation_id: u128,
    result: VenueSubmitResult,
    lot: PositionLot,
    reason: ExitReason,
    order: ExecutionOrderInfo,
)
    requires
        !(result.outcome is Filled || result.outcome is PartiallyFilled),
        exit_write(reconciliation_id, result, lot, reason, order) is Some,
    ensures
        ({
            let (write, pnl) = exit_write(reconciliation_id, result, lot, reason, order)->0;
            let refused = result.outcome is Rejected || result.outcome is Cancelled
                || result.outcome is Expired;
            &&& pnl is None && write.position_exit is None && !write.fully_exited
            &&& write.revert_to_open <==> refused
            &&& write.exit_state is Monitoring <==> refused
            &&& write.exit_state is OrderSubmitted <==> !refused
            &&& write.reconciliation is None <==> result.outcome is Open
            &&& write.filled_at is None
            &&& write.cancelled_at is Some <==> refused
        }),
{
}

/// The breaker hears of the venue's answer always and of a profit where one was
/// realized, before anything is settled.
pub proof fn breakers_hear_before_the_settlement(succeeded: bool, realized: bool)
    ensures
        following_exit_step(ExitStep::CallVenue, succeeded, realized) is ObserveVenue,
        following_exit_step(ExitStep::ObserveVenue, succeeded, realized) is ObserveProfit
            <==> realized,
        following_exit_step(ExitStep::ObserveVenue, succeeded, realized) is Settle <==> !realized,
        following_exit_step(ExitStep::ObserveProfit, succeeded, realized) is Settle,
        following_exit_step(ExitStep::Settle, succeeded, realized) is Succeeded <==> succeeded,
{
}

/// An expiration that the calendar holds has no defect.
pub proof fn calendars_hold_expirations(
    field: Seq<char>,
    expiration: u64,
    detail: Seq<char>,
)
    ensures
        gtd_defect(field, expiration, detail) is None <==> expiration <= i64::MAX
            && crate::time::in_calendar(expiration * 1000000000),
{
}

} // verus!
