//! What the life of an order intent is for.
use vstd::prelude::*;

use crate::decimal::{Price, Usd};
use crate::intent_service::{
    calibration_refusal, carries_exit_plan, creates, creation_refusal, downscale_refusal,
    downscales, entry_refusal, governed, invalidation, narrowed, partial_targets, policy_refusal,
    projected_entry, resolves, wire_expiration, ApproveIntentCommand, CalibrationLookup,
    IntentPolicyDecision, NewCapitalAllocation, NewOrderIntent, ResolvedPolicy,
};
use crate::laws::values::multiplies_to;
use crate::orders::{EntryOrderSpec, OrderAmount};
use crate::plans::{
    EntryOrderPolicy, ExitPolicySpec, KillSwitchState, QuantRuntimeMode, RecommendationInfo,
    RecommendationReportInfo, ScaleOutTarget,
};
use crate::time::Timestamp;
use crate::types::{ContentHash, ModelVersionId, OrderIntentId, PolicySnapshotId};

verus! {

/// An intent is created exactly for an active recommendation that has not run
/// out, of a published report, while the kill switch is closed and nothing
/// blocks it.
pub proof fn intents_come_from_live_recommendations(
    rec: RecommendationInfo,
    report: RecommendationReportInfo,
    kill_switch: KillSwitchState,
    blocked: bool,
    now: Timestamp,
)
    ensures
        creation_refusal(rec, report, kill_switch, blocked, now) is None <==> now@
            <= rec.valid_until@ && rec.status is Active && report.status is Published
            && kill_switch is Closed && !blocked,
{
}

/// Only a return model whose calibrator resolves is let through.
pub proof fn models_have_to_be_calibrated(model_version_id: ModelVersionId, lookup: CalibrationLookup)
    ensures
        calibration_refusal(model_version_id, lookup) is None <==> lookup is Calibrated,
{
}

/// An approval lasts until the first of its own deadline, the end of the
/// recommendation and the end of the entry window, and there is time left.
pub proof fn approvals_end_at_the_first_deadline(
    ttl_secs: u64,
    now: Timestamp,
    recommendation_end: Timestamp,
    entry_end: Timestamp,
    resolved: ResolvedPolicy,
)
    requires
        resolves(
            IntentPolicyDecision::RequiresApproval { approval_ttl_secs: ttl_secs },
            now,
            recommendation_end,
            entry_end,
            resolved,
        ),
    ensures
        ({
            let deadline = now@ + ttl_secs * 1000000000;
            let end = resolved.expires_at@;
            &&& now@ < end
            &&& end <= deadline && end <= recommendation_end@ && end <= entry_end@
            &&& end == deadline || end == recommendation_end@ || end == entry_end@
        }),
        resolved.status is PendingApproval,
        resolved.approval_status is Pending,
        resolved.approved_at is None,
{
}

/// What a policy approves is approved from now on, until the first of the end of
/// the recommendation and the end of the entry window.
pub proof fn policies_approve_at_once(
    policy: IntentPolicyDecision,
    now: Timestamp,
    recommendation_end: Timestamp,
    entry_end: Timestamp,
    resolved: ResolvedPolicy,
)
    requires
        policy is ApprovedByPolicy,
        resolves(policy, now, recommendation_end, entry_end, resolved),
    ensures
        now@ < resolved.expires_at@,
        resolved.expires_at@ <= recommendation_end@,
        resolved.expires_at@ <= entry_end@,
        resolved.expires_at@ == recommendation_end@ || resolved.expires_at@ == entry_end@,
        resolved.status is ApprovedByPolicy,
        resolved.approval_status is NotRequired,
        resolved.approved_at == Some(now),
{
}

/// A decision is refused exactly when it lets nothing be executed, or no time is
/// left, or its deadline cannot be kept.
pub proof fn decisions_need_time(
    policy: IntentPolicyDecision,
    now: Timestamp,
    recommendation_end: Timestamp,
    entry_end: Timestamp,
)
    ensures
        policy is ReportOnly || policy is Denied ==> policy_refusal(
            policy,
            now,
            recommendation_end,
            entry_end,
        ) is Some,
        policy is ApprovedByPolicy ==> (policy_refusal(policy, now, recommendation_end, entry_end)
            is None <==> now@ < recommendation_end@ && now@ < entry_end@),
        (policy matches IntentPolicyDecision::RequiresApproval { approval_ttl_secs }
            && approval_ttl_secs <= i64::MAX && crate::time::in_calendar(
            now@ + approval_ttl_secs * 1000000000,
        )) ==> (policy_refusal(policy, now, recommendation_end, entry_end) is None <==> now@
            < recommendation_end@ && now@ < entry_end@ && policy->approval_ttl_secs > 0),
{
}

/// A resting entry is post-only and lives for two minutes at least; without a
/// plan there is no entry; what takes liquidity is always projected.
pub proof fn resting_entries_live_long_enough(rec: RecommendationInfo, now: Timestamp)
    ensures
        rec.trade_plan is None ==> entry_refusal(rec, now) is Some,
        (rec.trade_plan matches Some(plan) && plan.entry.order_policy is Aggressive)
            ==> entry_refusal(rec, now) is None,
        (rec.trade_plan matches Some(plan) && (plan.entry.order_policy
            matches EntryOrderPolicy::Passive { post_only, .. } && (!post_only
            || plan.entry.valid_until@ - now@ < 120 * 1000000000))) ==> entry_refusal(rec, now)
            is Some,
        (rec.trade_plan matches Some(plan) && (plan.entry.order_policy
            matches EntryOrderPolicy::Passive { post_only, .. } && post_only
            && plan.entry.valid_until@ - now@ >= 120 * 1000000000 && plan.entry.valid_until@ >= 0
            && crate::time::in_calendar(plan.entry.valid_until@ + 60 * 1000000000)))
            ==> entry_refusal(rec, now) is None,
{
}

/// The expiration on the wire lies a minute after the end of validity, rounded
/// down to a second.
pub proof fn wire_expirations_lie_a_minute_later(valid_until: Timestamp)
    ensures
        ({
            let instant = wire_expiration(valid_until) * 1000000000;
            instant <= valid_until@ + 60 * 1000000000 < instant + 1000000000
        }),
{
}

/// An entry buys the recommended token within its window.  What takes liquidity
/// spends the suggested money up to the worst price; what rests asks for the
/// suggested shares at its limit and nothing but rests.
pub proof fn entries_follow_the_plan(rec: RecommendationInfo, now: Timestamp)
    requires
        entry_refusal(rec, now) is None,
    ensures
        ({
            let spec = projected_entry(rec);
            let plan = rec.trade_plan->0;
            &&& spec.side is Buy
            &&& spec.token_id == rec.token_id
            &&& spec.valid_until == plan.entry.valid_until
            &&& spec.max_slippage_bps == plan.entry.max_slippage_bps
            &&& spec.maker_rebate_terms == plan.entry.maker_rebate_terms
            &&& (plan.entry.order_policy matches EntryOrderPolicy::Aggressive {
                worst_price,
                fill_requirement,
            } ==> {
                &&& spec.limit_price == worst_price
                &&& spec.amount == OrderAmount::Usd(plan.sizing.suggested_usd)
                &&& !spec.post_only
                &&& spec.order_type is Fok <==> fill_requirement is AllOrNothing
                &&& spec.order_type is Fak <==> fill_requirement is AllowPartial
            })
            &&& (plan.entry.order_policy matches EntryOrderPolicy::Passive { limit_price, .. } ==> {
                &&& spec.limit_price == limit_price
                &&& spec.amount == OrderAmount::Shares(plan.sizing.suggested_shares)
                &&& spec.post_only
                &&& spec.order_type is Gtd
            })
        }),
{
}

/// The scale-out steps that stay are those that leave something to sell, in
/// their order.
pub proof fn full_exits_are_no_steps(targets: Seq<ScaleOutTarget>)
    ensures
        partial_targets(targets) == targets.filter(
            |t: ScaleOutTarget| t.target_cumulative_exit_pct@ < crate::order_rules::one_unit(),
        ),
    decreases targets.len(),
{
    reveal(Seq::filter);
    if targets.len() > 0 {
        full_exits_are_no_steps(targets.drop_last());
    }
}

/// The exit policy holds what the plan holds, and the entry it refers to.
pub proof fn exit_policies_carry_the_plan(
    rec: RecommendationInfo,
    entry_reference_price: Price,
    policy: ExitPolicySpec,
)
    requires
        carries_exit_plan(rec, entry_reference_price, policy),
    ensures
        policy.entry_reference_price == entry_reference_price,
        policy.take_profit_price == rec.trade_plan->0.exit.take_profit_price,
        policy.take_profit_pct == rec.trade_plan->0.exit.take_profit_pct,
        policy.stop_loss_price == rec.trade_plan->0.exit.stop_loss_price,
        policy.stop_loss_pct == rec.trade_plan->0.exit.stop_loss_pct,
        policy.time_exit_at == rec.trade_plan->0.exit.time_exit_at,
        policy.max_hold_secs == rec.trade_plan->0.exit.max_hold_secs,
        policy.settlement_mode == rec.trade_plan->0.exit.settlement_mode,
        policy.manual_review_at == rec.trade_plan->0.exit.manual_review_at,
        policy.entry_composite_score == rec.composite_score,
{
}

/// An operator may make an order smaller or its price better, never the reverse:
/// an override is let through exactly when its amount has the frozen unit, is
/// positive and not larger, and its price is not worse for the account.
pub proof fn overrides_only_improve(command: ApproveIntentCommand, frozen: EntryOrderSpec)
    ensures
        ({
            let amount_is_kept = match (frozen.amount, command.override_amount) {
                (_, None) => true,
                (OrderAmount::Usd(before), Some(OrderAmount::Usd(after))) => 0 < after@ <= before@,
                (OrderAmount::Shares(before), Some(OrderAmount::Shares(after))) => 0 < after@
                    <= before@,
                _ => false,
            };
            let price_is_kept = command.override_price matches Some(price) ==> if frozen.side
                is Buy {
                price@ <= frozen.limit_price@
            } else {
                price@ >= frozen.limit_price@
            };
            &&& downscale_refusal(command, frozen) is None ==> amount_is_kept && price_is_kept
            &&& amount_is_kept && price_is_kept && (frozen.amount is Usd || narrowed(
                command,
                frozen,
            ).spec_notional() is Some) ==> downscale_refusal(command, frozen) is None
        }),
{
}

/// Without an override nothing changes; with one, what is not overridden stays,
/// and the money committed is that of the changed order.
pub proof fn overrides_change_what_they_name(
    command: ApproveIntentCommand,
    frozen: EntryOrderSpec,
    entry: Option<EntryOrderSpec>,
    allocated: Option<Usd>,
)
    requires
        downscales(command, frozen, entry, allocated),
    ensures
        command.override_amount is None && command.override_price is None ==> entry is None
            && allocated is None,
        command.override_amount is Some || command.override_price is Some ==> entry is Some
            && allocated is Some,
        entry matches Some(changed) ==> {
            &&& changed.token_id == frozen.token_id && changed.side == frozen.side
            &&& changed.order_type == frozen.order_type && changed.post_only == frozen.post_only
            &&& changed.valid_until == frozen.valid_until
            &&& command.override_price is None ==> changed.limit_price == frozen.limit_price
            &&& command.override_amount is None ==> changed.amount == frozen.amount
            &&& command.override_price is Some ==> command.override_price == Some(
                changed.limit_price,
            )
            &&& command.override_amount is Some ==> command.override_amount == Some(changed.amount)
            &&& (changed.amount matches OrderAmount::Usd(usd) ==> allocated == Some(usd))
        },
{
}

/// A cash order commits its money; a share order commits its shares at its
/// limit.
pub proof fn orders_commit_their_price(order: EntryOrderSpec, cost: Usd)
    ensures
        order.amount matches OrderAmount::Usd(usd) ==> order.spec_notional() == Some(usd),
        (order.amount matches OrderAmount::Shares(shares) && multiplies_to(
            shares,
            order.limit_price,
            cost,
        )) ==> order.spec_notional() == Some(cost),
{
}

/// An approval stands exactly while the recommendation runs, its report is
/// published, entries are allowed, the configuration is the one it was made
/// under and the plan carries the same envelope.
pub proof fn approvals_stand_while_nothing_changes(
    rec: RecommendationInfo,
    report: RecommendationReportInfo,
    allows_new_entry: bool,
    made_under: PolicySnapshotId,
    current: PolicySnapshotId,
    envelope: ContentHash,
    now: Timestamp,
)
    ensures
        invalidation(rec, report, allows_new_entry, made_under, current, envelope, now) is None
            <==> now@ <= rec.valid_until@ && report.status is Published && allows_new_entry
            && made_under == current && (rec.trade_plan matches Some(plan)
            && plan.risk_envelope.envelope_hash == envelope),
{
}

/// A new intent waits for its trigger only once it is approved; its money is
/// allocated and nothing of it spent.
pub proof fn new_intents_hold_their_money(
    order_intent_id: OrderIntentId,
    capital_allocation_id: u128,
    rec: RecommendationInfo,
    report: RecommendationReportInfo,
    mode: QuantRuntimeMode,
    resolved: ResolvedPolicy,
    entry: EntryOrderSpec,
    exit: ExitPolicySpec,
    intent: NewOrderIntent,
    allocation: NewCapitalAllocation,
)
    requires
        creates(
            order_intent_id,
            capital_allocation_id,
            rec,
            report,
            mode,
            resolved,
            entry,
            exit,
            intent,
            allocation,
        ),
    ensures
        allocation.order_intent_id == intent.order_intent_id,
        allocation.recommendation_id == rec.recommendation_id,
        intent.recommendation_id == rec.recommendation_id,
        allocation.state is Allocated,
        entry.amount matches OrderAmount::Usd(usd) ==> allocation.allocated_usd == usd
            && allocation.planned_usd == usd,
        allocation.allocated_usd == allocation.planned_usd,
        allocation.locked_usd@ == 0,
        allocation.spent_usd@ == 0,
        allocation.released_usd@ == 0,
        intent.status == resolved.status,
        intent.expires_at == resolved.expires_at,
        intent.approved_by is None,
        intent.risk_envelope_hash == rec.trade_plan->0.risk_envelope.envelope_hash,
        intent.entry_trigger_state is Waiting <==> resolved.status is ApprovedByPolicy
            && rec.trade_plan->0.entry.trigger is PriceCondition,
        intent.trigger_ready_at is None,
{
    crate::decimal::whole_numbers_have_their_value(0);
}

/// Only a mode that merely reports goes without policy and calibration.
pub proof fn modes_that_trade_are_governed(mode: QuantRuntimeMode)
    ensures
        governed(mode) <==> !(mode is ReportOnly),
{
}

} // verus!
