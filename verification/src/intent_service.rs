//! Governed order intents: from a recommendation to a reserved intent, and
//! through its approval.
use vstd::prelude::*;
use vstd::string::*;

use crate::decimal::{Decimal, Price, Usd};
use crate::entry_trigger::{EntryTrigger, EntryTriggerState};
use crate::error::{integer_overflow, intent_denied, natural_overflow, ErrorView, ExecutionError};
use crate::orders::{EntryOrderSpec, OrderAmount, OrderIntentStatus};
use crate::plans::{
    EntryOrderPolicy, ExitPolicySpec, KillSwitchState, OrderIntentInfo, QuantRuntimeMode,
    RecommendationInfo, RecommendationReportInfo, RecommendationReportStatus, ScaleOutTarget,
};
use crate::text::{write_id, write_integer};
use crate::time::Timestamp;
use crate::types::{
    ContentHash, FillRequirement, ModelVersionId, OrderIntentId, OrderType, PolicySnapshotId,
    RecommendationId, Side,
};

verus! {

/// Shortest effective lifetime of a resting entry, in seconds.
pub const GTD_MIN_EFFECTIVE_LIFETIME_SECS: i64 = 120;

/// Seconds that the venue ends a resting order before its stated expiration.
pub const GTD_SECURITY_BUFFER_SECS: i64 = 60;

/// Why no intent may be made from a recommendation, if none may.
pub open spec fn creation_refusal(
    rec: RecommendationInfo,
    report: RecommendationReportInfo,
    kill_switch: KillSwitchState,
    blocking_intent_exists: bool,
    now: Timestamp,
) -> Option<ErrorView> {
    let id = crate::text::id_text(rec.recommendation_id);
    if rec.valid_until@ < now@ {
        Some(ErrorView::RecommendationExpired { reason: "recommendation "@ + id + " expired"@ })
    } else if !rec.status.spec_actionable() {
        Some(
            ErrorView::IntentDenied {
                reason: "recommendation "@ + id + " is "@ + rec.status.text()
                    + " (not actionable for intent creation)"@,
            },
        )
    } else if report.status != RecommendationReportStatus::Published {
        Some(
            ErrorView::IntentDenied {
                reason: "source report "@ + crate::text::id_text(report.recommendation_report_id)
                    + " is "@ + report.status.text(),
            },
        )
    } else if !kill_switch.spec_allows_new_entry() {
        Some(
            ErrorView::KillSwitchBlocks {
                state: kill_switch.text(),
                operation: "intent creation"@,
            },
        )
    } else if blocking_intent_exists {
        Some(
            ErrorView::IntentDenied {
                reason: "blocking order intent already exists for recommendation "@ + id,
            },
        )
    } else {
        None
    }
}

/// Checks that an intent may be made from a recommendation.
pub fn ensure_create_allowed(
    rec: &RecommendationInfo,
    report: &RecommendationReportInfo,
    kill_switch: KillSwitchState,
    blocking_intent_exists: bool,
    now: Timestamp,
) -> (r: Result<(), ExecutionError>)
    ensures
        match r {
            Ok(_) => creation_refusal(*rec, *report, kill_switch, blocking_intent_exists, now)
                is None,
            Err(error) => creation_refusal(
                *rec,
                *report,
                kill_switch,
                blocking_intent_exists,
                now,
            ) == Some(error@),
        },
{
    if rec.valid_until.before(now) {
        return Err(
            ExecutionError::RecommendationExpired {
                reason: "recommendation ".to_owned().concat(
                    write_id(rec.recommendation_id).as_str(),
                ).concat(" expired"),
            },
        );
    }
    if !rec.status.is_actionable_for_intent() {
        return Err(
            ExecutionError::IntentDenied {
                reason: "recommendation ".to_owned().concat(
                    write_id(rec.recommendation_id).as_str(),
                ).concat(" is ").concat(rec.status.as_str()).concat(
                    " (not actionable for intent creation)",
                ),
            },
        );
    }
    if report.status != RecommendationReportStatus::Published {
        return Err(
            ExecutionError::IntentDenied {
                reason: "source report ".to_owned().concat(
                    write_id(report.recommendation_report_id).as_str(),
                ).concat(" is ").concat(report.status.as_str()),
            },
        );
    }
    if !kill_switch.allows_new_entry() {
        return Err(
            ExecutionError::KillSwitchBlocks {
                state: kill_switch.as_str().to_owned(),
                operation: "intent creation".to_owned(),
            },
        );
    }
    if blocking_intent_exists {
        return Err(
            ExecutionError::IntentDenied {
                reason: "blocking order intent already exists for recommendation ".to_owned().concat(

                    write_id(rec.recommendation_id).as_str(),
                ),
            },
        );
    }
    Ok(())
}

/// Whether a mode reserves capital, so that policy and calibration have to be
/// checked once more when the intent is made.
pub fn requires_fresh_governance(mode: QuantRuntimeMode) -> (r: bool)
    ensures
        r == (mode == QuantRuntimeMode::SemiAuto || mode == QuantRuntimeMode::AutoExecution),
        r == governed(mode),
{
    mode == QuantRuntimeMode::SemiAuto || mode == QuantRuntimeMode::AutoExecution
}

/// What looking up a model's calibration gave.
#[derive(Debug, PartialEq, Eq)]
pub enum CalibrationLookup {
    /// The model version does not exist.
    VersionMissing,
    /// The return model is heuristic.
    Heuristic,
    /// The return model's calibrator resolves and is active.
    Calibrated,
    /// The return model names a calibrator that does not resolve.
    Unresolved { detail: String },
}

/// Why a calibration recheck refused.
#[derive(Debug, PartialEq, Eq)]
pub enum CalibrationRefusal {
    /// The intent is denied.
    Denied(ExecutionError),
    /// The calibrator's own failure.
    Unresolved { detail: String },
}

/// A calibration refusal with its texts as sequences.
pub ghost enum CalibrationRefusalView {
    Denied(ErrorView),
    Unresolved { detail: Seq<char> },
}

impl View for CalibrationRefusal {
    type V = CalibrationRefusalView;

    open spec fn view(&self) -> CalibrationRefusalView {
        match *self {
            CalibrationRefusal::Denied(error) => CalibrationRefusalView::Denied(error@),
            CalibrationRefusal::Unresolved { detail } => CalibrationRefusalView::Unresolved {
                detail: detail@,
            },
        }
    }
}

/// Why a model does not count as calibrated, if it does not.
pub open spec fn calibration_refusal(
    model_version_id: ModelVersionId,
    lookup: CalibrationLookup,
) -> Option<CalibrationRefusalView> {
    match lookup {
        CalibrationLookup::Calibrated => None,
        CalibrationLookup::VersionMissing => Some(
            CalibrationRefusalView::Denied(
                ErrorView::IntentDenied {
                    reason: "model version "@ + crate::text::id_text(model_version_id)
                        + " not found for calibration recheck"@,
                },
            ),
        ),
        CalibrationLookup::Heuristic => Some(
            CalibrationRefusalView::Denied(
                ErrorView::IntentDenied {
                    reason:
                        "return model is uncalibrated (heuristic) — SemiAuto/AutoExecution intent creation is fail-closed"@,
                },
            ),
        ),
        CalibrationLookup::Unresolved { detail } => Some(
            CalibrationRefusalView::Unresolved { detail: detail@ },
        ),
    }
}

/// Checks that the return model of a version is still calibrated, whatever it
/// was when the report was made.
pub fn recheck_return_model_calibrated(
    model_version_id: ModelVersionId,
    lookup: CalibrationLookup,
) -> (r: Result<(), CalibrationRefusal>)
    ensures
        match calibration_refusal(model_version_id, lookup) {
            None => r is Ok,
            Some(refusal) => r is Err && r->Err_0@ == refusal,
        },
{
    match lookup {
        CalibrationLookup::Calibrated => Ok(()),
        CalibrationLookup::VersionMissing => Err(
            CalibrationRefusal::Denied(
                ExecutionError::IntentDenied {
                    reason: "model version ".to_owned().concat(
                        write_id(model_version_id).as_str(),
                    ).concat(" not found for calibration recheck"),
                },
            ),
        ),
        CalibrationLookup::Heuristic => Err(
            CalibrationRefusal::Denied(
                intent_denied(
                    "return model is uncalibrated (heuristic) — SemiAuto/AutoExecution intent creation is fail-closed",
                ),
            ),
        ),
        CalibrationLookup::Unresolved { detail } => Err(CalibrationRefusal::Unresolved { detail }),
    }
}

/// What the mode gate says about an intent.
#[derive(Debug, PartialEq, Eq)]
pub enum IntentPolicyDecision {
    ReportOnly,
    Denied { reason: String },
    RequiresApproval { approval_ttl_secs: u64 },
    ApprovedByPolicy { policy_id: String, policy_hash: Option<ContentHash>, reason: String },
}

/// Whether an operator has to approve.
#[derive(Clone, Copy, Debug, PartialEq, Eq, Structural)]
pub enum ApprovalStatus {
    NotRequired,
    Pending,
    Approved,
    Rejected,
}

/// The fields of an intent that its mode decides.
#[derive(Debug)]
pub struct ResolvedPolicy {
    pub status: OrderIntentStatus,
    pub approval_status: ApprovalStatus,
    pub approval_reason: Option<String>,
    pub approved_at: Option<Timestamp>,
    pub policy_id: Option<String>,
    pub policy_hash: Option<ContentHash>,
    pub expires_at: Timestamp,
}

/// The earliest of an approval deadline, the recommendation's end and the
/// entry window's end.
pub open spec fn earliest(deadline: int, recommendation: int, entry: int) -> int {
    let first = if recommendation < deadline {
        recommendation
    } else {
        deadline
    };
    if entry < first {
        entry
    } else {
        first
    }
}

/// Why a gate decision gives no intent, if it gives none.
pub open spec fn policy_refusal(
    policy: IntentPolicyDecision,
    now: Timestamp,
    recommendation_valid_until: Timestamp,
    entry_valid_until: Timestamp,
) -> Option<ErrorView> {
    let elapsed = ErrorView::RecommendationExpired {
        reason: "recommendation or entry window already elapsed"@,
    };
    match policy {
        IntentPolicyDecision::ReportOnly => Some(ErrorView::ReportOnlyMode),
        IntentPolicyDecision::Denied { reason } => Some(
            ErrorView::IntentDenied { reason: reason@ },
        ),
        IntentPolicyDecision::RequiresApproval { approval_ttl_secs } => {
            let deadline = now@ + approval_ttl_secs * 1000000000;
            if approval_ttl_secs > i64::MAX {
                Some(
                    ErrorView::TimeConversion {
                        field: "approval_ttl_secs"@,
                        value: crate::text::natural_text(approval_ttl_secs as nat),
                        detail: crate::text::conversion_overflow(),
                    },
                )
            } else if !crate::time::in_calendar(deadline) {
                Some(
                    ErrorView::TimeConversion {
                        field: "approval_deadline"@,
                        value: now.text() + "+"@ + crate::text::integer_text(
                            approval_ttl_secs as int,
                        ) + "s"@,
                        detail: "deadline is outside the chrono range"@,
                    },
                )
            } else if earliest(deadline, recommendation_valid_until@, entry_valid_until@) <= now@ {
                Some(elapsed)
            } else {
                None
            }
        },
        IntentPolicyDecision::ApprovedByPolicy { .. } => if entry_valid_until@ <= now@
            || recommendation_valid_until@ <= now@ {
            Some(elapsed)
        } else {
            None
        },
    }
}

fn ensure_future_expiry(expires_at: Timestamp, now: Timestamp) -> (r: Result<
    Timestamp,
    ExecutionError,
>)
    ensures
        match r {
            Ok(at) => at == expires_at && expires_at@ > now@,
            Err(error) => expires_at@ <= now@ && error@ == (ErrorView::RecommendationExpired {
                reason: "recommendation or entry window already elapsed"@,
            }),
        },
{
    if expires_at.until(now) {
        Err(
            ExecutionError::RecommendationExpired {
                reason: "recommendation or entry window already elapsed".to_owned(),
            },
        )
    } else {
        Ok(expires_at)
    }
}

/// Whether a decision of the mode gate comes to this resolution: an approval is
/// awaited for as long as it may be, a policy's approval holds at once, and
/// neither outlives the recommendation or its entry window.
pub open spec fn resolves(
    policy: IntentPolicyDecision,
    now: Timestamp,
    recommendation_valid_until: Timestamp,
    entry_valid_until: Timestamp,
    resolved: ResolvedPolicy,
) -> bool {
    &&& now@ < resolved.expires_at@ <= recommendation_valid_until@
    &&& resolved.expires_at@ <= entry_valid_until@
    &&& match policy {
        IntentPolicyDecision::RequiresApproval { approval_ttl_secs } => {
            &&& resolved.expires_at@ == earliest(
                now@ + approval_ttl_secs * 1000000000,
                recommendation_valid_until@,
                entry_valid_until@,
            )
            &&& resolved == (ResolvedPolicy {
                status: OrderIntentStatus::PendingApproval,
                approval_status: ApprovalStatus::Pending,
                approval_reason: None,
                approved_at: None,
                policy_id: None,
                policy_hash: None,
                expires_at: resolved.expires_at,
            })
        },
        IntentPolicyDecision::ApprovedByPolicy { policy_id, policy_hash, reason } =>
            resolved == (ResolvedPolicy {
                status: OrderIntentStatus::ApprovedByPolicy,
                approval_status: ApprovalStatus::NotRequired,
                approval_reason: Some(reason),
                approved_at: Some(now),
                policy_id: Some(policy_id),
                policy_hash,
                expires_at: entry_valid_until.spec_earlier(recommendation_valid_until),
            }),
        _ => false,
    }
}

/// Turns a gate decision into the frozen fields of the intent. Capital is
/// never reserved past the recommendation or the entry window.
pub fn resolve_policy(
    policy: IntentPolicyDecision,
    now: Timestamp,
    recommendation_valid_until: Timestamp,
    entry_valid_until: Timestamp,
) -> (r: Result<ResolvedPolicy, ExecutionError>)
    ensures
        match r {
            Ok(resolved) => policy_refusal(
                policy,
                now,
                recommendation_valid_until,
                entry_valid_until,
            ) is None && resolves(
                policy,
                now,
                recommendation_valid_until,
                entry_valid_until,
                resolved,
            ),
            Err(error) => policy_refusal(
                policy,
                now,
                recommendation_valid_until,
                entry_valid_until,
            ) == Some(error@),
        },
{
    match policy {
        IntentPolicyDecision::ReportOnly => Err(ExecutionError::ReportOnlyMode),
        IntentPolicyDecision::Denied { reason } => Err(ExecutionError::IntentDenied { reason }),
        IntentPolicyDecision::RequiresApproval { approval_ttl_secs } => {
            if approval_ttl_secs > i64::MAX as u64 {
                return Err(natural_overflow("approval_ttl_secs", approval_ttl_secs));
            }
            let deadline = match now.plus_natural_seconds(approval_ttl_secs) {
                Some(deadline) => deadline,
                None => {
                    return Err(
                        ExecutionError::TimeConversion {
                            field: "approval_deadline",
                            value: now.to_text().concat("+").concat(
                                write_integer(approval_ttl_secs as i64).as_str(),
                            ).concat("s"),
                            detail: "deadline is outside the chrono range".to_owned(),
                        },
                    );
                },
            };
            let expires_at = deadline.earlier(recommendation_valid_until).earlier(
                entry_valid_until,
            );
            match ensure_future_expiry(expires_at, now) {
                Ok(expires_at) => Ok(
                    ResolvedPolicy {
                        status: OrderIntentStatus::PendingApproval,
                        approval_status: ApprovalStatus::Pending,
                        approval_reason: None,
                        approved_at: None,
                        policy_id: None,
                        policy_hash: None,
                        expires_at,
                    },
                ),
                Err(error) => Err(error),
            }
        },
        IntentPolicyDecision::ApprovedByPolicy { policy_id, policy_hash, reason } => {
            match ensure_future_expiry(entry_valid_until.earlier(recommendation_valid_until), now) {
                Ok(expires_at) => Ok(
                    ResolvedPolicy {
                        status: OrderIntentStatus::ApprovedByPolicy,
                        approval_status: ApprovalStatus::NotRequired,
                        approval_reason: Some(reason),
                        approved_at: Some(now),
                        policy_id: Some(policy_id),
                        policy_hash,
                        expires_at,
                    },
                ),
                Err(error) => Err(error),
            }
        },
    }
}

fn plan_unavailable() -> (r: ExecutionError)
    ensures
        r@ == no_plan(),
{
    intent_denied("recommendation trade plan is unavailable")
}

/// The refusal of a recommendation whose plan could not be frozen.
pub open spec fn no_plan() -> ErrorView {
    ErrorView::IntentDenied { reason: "recommendation trade plan is unavailable"@ }
}

/// Seconds since the epoch at which a resting entry is told to expire.
pub open spec fn wire_expiration(valid_until: Timestamp) -> int {
    (valid_until@ + GTD_SECURITY_BUFFER_SECS * 1000000000) / 1000000000
}

/// Why a recommendation gives no executable entry, if it gives none.
pub open spec fn entry_refusal(rec: RecommendationInfo, now: Timestamp) -> Option<ErrorView> {
    match rec.trade_plan {
        None => Some(no_plan()),
        Some(plan) => match plan.entry.order_policy {
            EntryOrderPolicy::Aggressive { .. } => None,
            EntryOrderPolicy::Passive { post_only, .. } => {
                let valid_until = plan.entry.valid_until;
                if !post_only {
                    Some(ErrorView::IntentDenied { reason: "passive entry policy must be post-only"@ })
                } else if valid_until@ - now@ < GTD_MIN_EFFECTIVE_LIFETIME_SECS * 1000000000 {
                    Some(
                        ErrorView::IntentDenied {
                            reason:
                                "passive entry has less than 120 seconds of effective GTD lifetime"@,
                        },
                    )
                } else if !crate::time::in_calendar(
                    valid_until@ + GTD_SECURITY_BUFFER_SECS * 1000000000,
                ) {
                    Some(
                        ErrorView::TimeConversion {
                            field: "entry_plan.valid_until"@,
                            value: valid_until.text(),
                            detail: "GTD security buffer overflows timestamp"@,
                        },
                    )
                } else if wire_expiration(valid_until) < 0 {
                    Some(
                        ErrorView::TimeConversion {
                            field: "entry_plan.valid_until"@,
                            value: crate::text::integer_text(wire_expiration(valid_until)),
                            detail: crate::text::conversion_overflow(),
                        },
                    )
                } else {
                    None
                }
            },
        },
    }
}

/// The executable entry of a recommendation: an aggressive plan spends its
/// suggested cash at once, a passive plan rests its suggested shares until the
/// entry window ends.
pub open spec fn projected_entry(rec: RecommendationInfo) -> EntryOrderSpec {
    let plan = rec.trade_plan->0;
    let entry = plan.entry;
    let (limit_price, order_type, amount, post_only) = match entry.order_policy {
        EntryOrderPolicy::Aggressive { worst_price, fill_requirement } => (
            worst_price,
            match fill_requirement {
                FillRequirement::AllOrNothing => OrderType::Fok,
                FillRequirement::AllowPartial => OrderType::Fak,
            },
            OrderAmount::Usd(plan.sizing.suggested_usd),
            false,
        ),
        EntryOrderPolicy::Passive { limit_price, .. } => (
            limit_price,
            OrderType::Gtd { expiration: wire_expiration(entry.valid_until) as u64 },
            OrderAmount::Shares(plan.sizing.suggested_shares),
            true,
        ),
    };
    EntryOrderSpec {
        token_id: rec.token_id,
        side: Side::Buy,
        order_type,
        post_only,
        limit_price,
        amount,
        max_slippage_bps: entry.max_slippage_bps,
        maker_rebate_terms: entry.maker_rebate_terms,
        valid_until: entry.valid_until,
    }
}

/// The executable entry of a recommendation.
pub fn project_entry_order_spec(rec: &RecommendationInfo, now: Timestamp) -> (r: Result<
    EntryOrderSpec,
    ExecutionError,
>)
    ensures
        match r {
            Ok(spec) => entry_refusal(*rec, now) is None && spec == projected_entry(*rec),
            Err(error) => entry_refusal(*rec, now) == Some(error@),
        },
{
    let plan = match &rec.trade_plan {
        Some(plan) => plan,
        None => {
            return Err(plan_unavailable());
        },
    };
    let entry_plan = &plan.entry;
    let (limit_price, order_type, amount, post_only) = match entry_plan.order_policy {
        EntryOrderPolicy::Aggressive { worst_price, fill_requirement } => {
            let order_type = match fill_requirement {
                FillRequirement::AllOrNothing => OrderType::Fok,
                FillRequirement::AllowPartial => OrderType::Fak,
            };
            (worst_price, order_type, OrderAmount::Usd(plan.sizing.suggested_usd), false)
        },
        EntryOrderPolicy::Passive { limit_price, post_only } => {
            if !post_only {
                return Err(intent_denied("passive entry policy must be post-only"));
            }
            if entry_plan.valid_until.since(now) < GTD_MIN_EFFECTIVE_LIFETIME_SECS as i128
                * 1000000000 {
                return Err(
                    intent_denied(
                        "passive entry has less than 120 seconds of effective GTD lifetime",
                    ),
                );
            }
            let wire = match entry_plan.valid_until.plus_seconds(GTD_SECURITY_BUFFER_SECS) {
                Some(wire) => wire,
                None => {
                    return Err(
                        ExecutionError::TimeConversion {
                            field: "entry_plan.valid_until",
                            value: entry_plan.valid_until.to_text(),
                            detail: "GTD security buffer overflows timestamp".to_owned(),
                        },
                    );
                },
            };
            let seconds = wire.whole_seconds();
            if seconds < 0 {
                return Err(integer_overflow("entry_plan.valid_until", seconds));
            }
            (
                limit_price,
                OrderType::Gtd { expiration: seconds as u64 },
                OrderAmount::Shares(plan.sizing.suggested_shares),
                true,
            )
        },
    };
    Ok(
        EntryOrderSpec {
            token_id: rec.token_id.clone(),
            side: Side::Buy,
            order_type,
            post_only,
            limit_price,
            amount,
            max_slippage_bps: entry_plan.max_slippage_bps,
            maker_rebate_terms: entry_plan.maker_rebate_terms,
            valid_until: entry_plan.valid_until,
        },
    )
}

/// Whether a target leaves a part of the position open.
pub open spec fn is_partial(target: ScaleOutTarget) -> bool {
    target.target_cumulative_exit_pct@ < crate::order_rules::one_unit()
}

/// The targets that leave a part of the position open, in order.
pub open spec fn partial_targets(targets: Seq<ScaleOutTarget>) -> Seq<ScaleOutTarget>
    decreases targets.len(),
{
    if targets.len() == 0 {
        Seq::empty()
    } else {
        let front = partial_targets(targets.drop_last());
        if is_partial(targets.last()) {
            front.push(targets.last())
        } else {
            front
        }
    }
}

/// Every kept target is a genuine scale-out.
pub proof fn partial_targets_are_partial(targets: Seq<ScaleOutTarget>)
    ensures
        forall|i: int|
            0 <= i < partial_targets(targets).len() ==> is_partial(
                #[trigger] partial_targets(targets)[i],
            ),
    decreases targets.len(),
{
    if targets.len() > 0 {
        let front = partial_targets(targets.drop_last());
        partial_targets_are_partial(targets.drop_last());
        assert forall|i: int| 0 <= i < partial_targets(targets).len() implies is_partial(
            #[trigger] partial_targets(targets)[i],
        ) by {
            if i < front.len() {
                assert(partial_targets(targets)[i] == front[i]);
            }
        }
    }
}

fn keep_partial_targets(targets: &Vec<ScaleOutTarget>) -> (r: Vec<ScaleOutTarget>)
    ensures
        r@ == partial_targets(targets@),
{
    let mut kept: Vec<ScaleOutTarget> = Vec::new();
    let mut i: usize = 0;
    proof {
        assert(targets@.take(0) =~= Seq::<ScaleOutTarget>::empty());
    }
    while i < targets.len()
        invariant
            i <= targets.len(),
            kept@ == partial_targets(targets@.take(i as int)),
        decreases targets.len() - i,
    {
        proof {
            assert(targets@.take(i + 1).drop_last() =~= targets@.take(i as int));
            assert(targets@.take(i + 1).last() == targets@[i as int]);
        }
        if targets[i].target_cumulative_exit_pct.lt(Decimal::one()) {
            kept.push(targets[i].clone());
        }
        i = i + 1;
    }
    proof {
        assert(targets@.take(targets.len() as int) =~= targets@);
    }
    kept
}

/// Whether an exit policy is that of a recommendation entered at a price.
pub open spec fn carries_exit_plan(
    rec: RecommendationInfo,
    entry_reference_price: Price,
    policy: ExitPolicySpec,
) -> bool {
    &&& rec.trade_plan is Some
    &&& policy.scale_out_targets@ == partial_targets(
        rec.trade_plan->0.exit.scale_out_targets@,
    )
    &&& policy == (ExitPolicySpec {
        take_profit_price: rec.trade_plan->0.exit.take_profit_price,
        take_profit_pct: rec.trade_plan->0.exit.take_profit_pct,
        stop_loss_price: rec.trade_plan->0.exit.stop_loss_price,
        stop_loss_pct: rec.trade_plan->0.exit.stop_loss_pct,
        time_exit_at: rec.trade_plan->0.exit.time_exit_at,
        max_hold_secs: rec.trade_plan->0.exit.max_hold_secs,
        trailing_stop: rec.trade_plan->0.exit.trailing_stop,
        thesis_invalidation: rec.trade_plan->0.exit.thesis_invalidation,
        scale_out_targets: policy.scale_out_targets,
        settlement_mode: rec.trade_plan->0.exit.settlement_mode,
        redeem_policy: rec.trade_plan->0.exit.redeem_policy,
        manual_review_at: rec.trade_plan->0.exit.manual_review_at,
        entry_reference_price,
        entry_composite_score: rec.composite_score,
    })
}

/// The exit contract frozen on the intent: the whole exit plan, except that
/// only genuine scale-out steps ride along, with the entry price and score as
/// baselines.
pub fn project_exit_policy_spec(rec: &RecommendationInfo, entry_reference_price: Price) -> (r:
    Result<ExitPolicySpec, ExecutionError>)
    ensures
        match r {
            Ok(policy) => carries_exit_plan(*rec, entry_reference_price, policy),
            Err(error) => rec.trade_plan is None && error@ == no_plan(),
        },
{
    let plan = match &rec.trade_plan {
        Some(plan) => plan,
        None => {
            return Err(plan_unavailable());
        },
    };
    let exit = &plan.exit;
    Ok(
        ExitPolicySpec {
            take_profit_price: exit.take_profit_price,
            take_profit_pct: exit.take_profit_pct,
            stop_loss_price: exit.stop_loss_price,
            stop_loss_pct: exit.stop_loss_pct,
            time_exit_at: exit.time_exit_at,
            max_hold_secs: exit.max_hold_secs,
            trailing_stop: crate::orders::clone_ident(&exit.trailing_stop),
            thesis_invalidation: crate::orders::clone_ident(&exit.thesis_invalidation),
            scale_out_targets: keep_partial_targets(&exit.scale_out_targets),
            settlement_mode: exit.settlement_mode,
            redeem_policy: exit.redeem_policy,
            manual_review_at: exit.manual_review_at,
            entry_reference_price,
            entry_composite_score: rec.composite_score,
        },
    )
}

/// An operator's approval, with what it narrows.
#[derive(Debug)]
pub struct ApproveIntentCommand {
    pub order_intent_id: OrderIntentId,
    pub operator_id: u128,
    pub acting_role: String,
    pub reason: String,
    pub override_amount: Option<OrderAmount>,
    pub override_price: Option<Price>,
}

/// Why an amount override is refused, if it is.
pub open spec fn amount_refusal(frozen: OrderAmount, override_amount: Option<OrderAmount>) -> Option<
    Seq<char>,
> {
    let excessive = Some(
        "approval amount must be positive and cannot exceed the frozen amount"@,
    );
    match (frozen, override_amount) {
        (_, None) => None,
        (OrderAmount::Usd(current), Some(OrderAmount::Usd(value))) => if 0 < value@ <= current@ {
            None
        } else {
            excessive
        },
        (OrderAmount::Shares(current), Some(OrderAmount::Shares(value))) => if 0 < value@
            <= current@ {
            None
        } else {
            excessive
        },
        _ => Some("approval amount unit must match the frozen order amount"@),
    }
}

/// Whether a price bound gives more room than the frozen one.
pub open spec fn widens(side: Side, frozen: Price, limit: Price) -> bool {
    match side {
        Side::Buy => limit@ > frozen@,
        Side::Sell => limit@ < frozen@,
    }
}

/// The entry after the overrides.
pub open spec fn narrowed(command: ApproveIntentCommand, frozen: EntryOrderSpec) -> EntryOrderSpec {
    EntryOrderSpec {
        limit_price: match command.override_price {
            Some(price) => price,
            None => frozen.limit_price,
        },
        amount: match command.override_amount {
            Some(amount) => amount,
            None => frozen.amount,
        },
        ..frozen
    }
}

/// Why an approval's overrides are refused, if they are.
pub open spec fn downscale_refusal(command: ApproveIntentCommand, frozen: EntryOrderSpec) -> Option<
    ErrorView,
> {
    match amount_refusal(frozen.amount, command.override_amount) {
        Some(reason) => Some(ErrorView::IntentDenied { reason }),
        None => if widens(
            frozen.side,
            frozen.limit_price,
            narrowed(command, frozen).limit_price,
        ) {
            Some(
                ErrorView::IntentDenied {
                    reason:
                        "approval price override cannot widen the frozen side-aware price bound"@,
                },
            )
        } else if narrowed(command, frozen).spec_notional() is None {
            Some(ErrorView::DecimalOverflow)
        } else {
            None
        },
    }
}

/// Whether an approval leaves an order as it is, or narrows it to this entry
/// and capital: without an override nothing changes.
pub open spec fn downscales(
    command: ApproveIntentCommand,
    frozen: EntryOrderSpec,
    entry: Option<EntryOrderSpec>,
    allocated: Option<Usd>,
) -> bool {
    if command.override_amount is None && command.override_price is None {
        entry is None && allocated is None
    } else {
        &&& downscale_refusal(command, frozen) is None
        &&& entry == Some(narrowed(command, frozen))
        &&& allocated == narrowed(command, frozen).spec_notional()
        &&& allocated is Some
    }
}

/// Judges an approval's overrides against the frozen entry: the narrowed entry
/// and its capital, or nothing for a plain approval.
pub fn resolve_downscale(command: &ApproveIntentCommand, frozen: &EntryOrderSpec) -> (r: Result<
    (Option<EntryOrderSpec>, Option<Usd>),
    ExecutionError,
>)
    ensures
        match r {
            Ok((entry, allocated)) => downscales(*command, *frozen, entry, allocated),
            Err(error) => (command.override_amount is Some || command.override_price is Some)
                && downscale_refusal(*command, *frozen) == Some(error@),
        },
{
    if command.override_amount.is_none() && command.override_price.is_none() {
        return Ok((None, None));
    }
    let amount = match (frozen.amount, command.override_amount) {
        (current, None) => current,
        (OrderAmount::Usd(current), Some(OrderAmount::Usd(value))) => {
            if !value.is_positive() || current.lt(value) {
                return Err(
                    intent_denied(
                        "approval amount must be positive and cannot exceed the frozen amount",
                    ),
                );
            }
            OrderAmount::Usd(value)
        },
        (OrderAmount::Shares(current), Some(OrderAmount::Shares(value))) => {
            if !value.is_positive() || current.lt(value) {
                return Err(
                    intent_denied(
                        "approval amount must be positive and cannot exceed the frozen amount",
                    ),
                );
            }
            OrderAmount::Shares(value)
        },
        (OrderAmount::Usd(_), Some(OrderAmount::Shares(_)))
        | (OrderAmount::Shares(_), Some(OrderAmount::Usd(_))) => {
            return Err(intent_denied("approval amount unit must match the frozen order amount"));
        },
    };
    let limit_price = match command.override_price {
        Some(price) => price,
        None => frozen.limit_price,
    };
    let widened = match frozen.side {
        Side::Buy => frozen.limit_price.lt(limit_price),
        Side::Sell => limit_price.lt(frozen.limit_price),
    };
    if widened {
        return Err(
            intent_denied("approval price override cannot widen the frozen side-aware price bound"),
        );
    }
    let mut entry = frozen.clone();
    entry.limit_price = limit_price;
    entry.amount = amount;
    match entry.notional() {
        Some(notional) => Ok((Some(entry), Some(notional))),
        None => Err(ExecutionError::DecimalOverflow),
    }
}

/// An accepted approval never widens what was frozen: the amount keeps its
/// unit and does not grow, the price bound does not move away, and everything
/// else stays.
pub proof fn approvals_only_narrow(command: ApproveIntentCommand, frozen: EntryOrderSpec)
    requires
        downscale_refusal(command, frozen) is None,
    ensures
        ({
            let entry = narrowed(command, frozen);
            &&& !widens(frozen.side, frozen.limit_price, entry.limit_price)
            &&& match (frozen.amount, entry.amount) {
                (OrderAmount::Usd(before), OrderAmount::Usd(after)) => after@ <= before@,
                (OrderAmount::Shares(before), OrderAmount::Shares(after)) => after@ <= before@,
                _ => false,
            }
            &&& entry.token_id == frozen.token_id && entry.side == frozen.side
            &&& entry.order_type == frozen.order_type && entry.post_only == frozen.post_only
            &&& entry.valid_until == frozen.valid_until
        }),
{
}

/// Why a pending approval was overtaken by events.
#[derive(Clone, Copy, Debug, PartialEq, Eq, Structural)]
pub enum ApprovalInvalidation {
    RecommendationExpired,
    ReportRevoked,
    KillSwitchOpened,
    RuntimeConfigChanged,
    RiskEnvelopeMismatch,
}

impl ApprovalInvalidation {
    /// How the invalidation is written.
    pub open spec fn text(self) -> Seq<char> {
        match self {
            ApprovalInvalidation::RecommendationExpired => "recommendation_expired"@,
            ApprovalInvalidation::ReportRevoked => "report_revoked"@,
            ApprovalInvalidation::KillSwitchOpened => "kill_switch_opened"@,
            ApprovalInvalidation::RuntimeConfigChanged => "runtime_config_changed"@,
            ApprovalInvalidation::RiskEnvelopeMismatch => "risk_envelope_mismatch"@,
        }
    }

    /// Writes the invalidation out.
    pub fn as_str(self) -> (r: &'static str)
        ensures
            r@ == self.text(),
    {
        match self {
            ApprovalInvalidation::RecommendationExpired => "recommendation_expired",
            ApprovalInvalidation::ReportRevoked => "report_revoked",
            ApprovalInvalidation::KillSwitchOpened => "kill_switch_opened",
            ApprovalInvalidation::RuntimeConfigChanged => "runtime_config_changed",
            ApprovalInvalidation::RiskEnvelopeMismatch => "risk_envelope_mismatch",
        }
    }
}

/// Whether a frozen plan's risk envelope carries this hash.
pub open spec fn carries_envelope(rec: RecommendationInfo, hash: ContentHash) -> bool {
    rec.trade_plan is Some && rec.trade_plan->0.risk_envelope.envelope_hash == hash
}

/// Why an approval that waits does not stand any more; the first that applies.
pub open spec fn invalidation(
    rec: RecommendationInfo,
    report: RecommendationReportInfo,
    allows_new_entry: bool,
    intent_config_version: PolicySnapshotId,
    current_config_version: PolicySnapshotId,
    risk_envelope_hash: ContentHash,
    now: Timestamp,
) -> Option<ApprovalInvalidation> {
    if rec.valid_until@ < now@ {
        Some(ApprovalInvalidation::RecommendationExpired)
    } else if report.status != RecommendationReportStatus::Published {
        Some(ApprovalInvalidation::ReportRevoked)
    } else if !allows_new_entry {
        Some(ApprovalInvalidation::KillSwitchOpened)
    } else if intent_config_version != current_config_version {
        Some(ApprovalInvalidation::RuntimeConfigChanged)
    } else if !carries_envelope(rec, risk_envelope_hash) {
        Some(ApprovalInvalidation::RiskEnvelopeMismatch)
    } else {
        None
    }
}

/// Whether an approval was overtaken by events, and by which first.
pub fn evaluate_intent_approval_invalidation(
    rec: &RecommendationInfo,
    report: &RecommendationReportInfo,
    allows_new_entry: bool,
    intent_config_version: PolicySnapshotId,
    current_config_version: PolicySnapshotId,
    risk_envelope_hash: ContentHash,
    now: Timestamp,
) -> (r: Option<ApprovalInvalidation>)
    ensures
        r == invalidation(
            *rec,
            *report,
            allows_new_entry,
            intent_config_version,
            current_config_version,
            risk_envelope_hash,
            now,
        ),
{
    if rec.valid_until.before(now) {
        return Some(ApprovalInvalidation::RecommendationExpired);
    }
    if report.status != RecommendationReportStatus::Published {
        return Some(ApprovalInvalidation::ReportRevoked);
    }
    if !allows_new_entry {
        return Some(ApprovalInvalidation::KillSwitchOpened);
    }
    if intent_config_version != current_config_version {
        return Some(ApprovalInvalidation::RuntimeConfigChanged);
    }
    let carried = match &rec.trade_plan {
        Some(plan) => plan.risk_envelope.envelope_hash == risk_envelope_hash,
        None => false,
    };
    if !carried {
        return Some(ApprovalInvalidation::RiskEnvelopeMismatch);
    }
    None
}

/// Checks that an intent waits for approval.
pub fn ensure_pending_approval(order_intent_id: OrderIntentId, status: OrderIntentStatus) -> (r:
    Result<(), ExecutionError>)
    ensures
        crate::error::outcome(r) == (if status == OrderIntentStatus::PendingApproval {
            Ok::<(), ErrorView>(())
        } else {
            Err(
                ErrorView::IntentDenied {
                    reason: "intent "@ + crate::text::id_text(order_intent_id) + " is "@
                        + status.text() + " (only pending_approval can be approved)"@,
                },
            )
        }),
{
    if status == OrderIntentStatus::PendingApproval {
        Ok(())
    } else {
        Err(
            ExecutionError::IntentDenied {
                reason: "intent ".to_owned().concat(write_id(order_intent_id).as_str()).concat(
                    " is ",
                ).concat(status.as_str()).concat(" (only pending_approval can be approved)"),
            },
        )
    }
}

/// What an approval writes: who approved, and the order as narrowed.
#[derive(Debug)]
pub struct IntentApproval {
    pub approved_by: u128,
    pub approval_reason: String,
    pub approved_at: Timestamp,
    pub entry_override: Option<EntryOrderSpec>,
    pub allocated_override: Option<Usd>,
}

/// Approves a pending intent, narrowed as the operator asks.
pub fn approve_intent(command: &ApproveIntentCommand, intent: &OrderIntentInfo, now: Timestamp) -> (r:
    Result<IntentApproval, ExecutionError>)
    ensures
        match r {
            Ok(approval) => {
                &&& intent.status == OrderIntentStatus::PendingApproval
                &&& approval.approved_by == command.operator_id
                &&& approval.approval_reason@ == command.reason@
                &&& approval.approved_at == now
                &&& downscales(
                    *command,
                    intent.entry_order,
                    approval.entry_override,
                    approval.allocated_override,
                )
            },
            Err(error) => if intent.status != OrderIntentStatus::PendingApproval {
                error@ == (ErrorView::IntentDenied {
                    reason: "intent "@ + crate::text::id_text(intent.order_intent_id) + " is "@
                        + intent.status.text() + " (only pending_approval can be approved)"@,
                })
            } else {
                (command.override_amount is Some || command.override_price is Some)
                    && downscale_refusal(*command, intent.entry_order) == Some(error@)
            },
        },
{
    match ensure_pending_approval(intent.order_intent_id, intent.status) {
        Ok(_) => {},
        Err(error) => return Err(error),
    }
    match resolve_downscale(command, &intent.entry_order) {
        Ok((entry_override, allocated_override)) => Ok(
            IntentApproval {
                approved_by: command.operator_id,
                approval_reason: command.reason.clone(),
                approved_at: now,
                entry_override,
                allocated_override,
            },
        ),
        Err(error) => Err(error),
    }
}

/// The refusal of an approval that was overtaken by events.
pub fn approval_invalidated(reason: ApprovalInvalidation) -> (r: ExecutionError)
    ensures
        r@ == (ErrorView::ApprovalInvalidated { reason: reason.text() }),
{
    ExecutionError::ApprovalInvalidated { reason: reason.as_str().to_owned() }
}

/// State in which an entry trigger starts once its intent is authorized.
pub open spec fn armed(trigger: EntryTrigger) -> EntryTriggerState {
    match trigger {
        EntryTrigger::Immediate => EntryTriggerState::NotRequired,
        EntryTrigger::PriceCondition { .. } => EntryTriggerState::Waiting,
    }
}

/// State in which an entry trigger starts once its intent is authorized.
pub fn armed_trigger_state(trigger: &EntryTrigger) -> (r: EntryTriggerState)
    ensures
        r == armed(*trigger),
{
    match trigger {
        EntryTrigger::Immediate => EntryTriggerState::NotRequired,
        EntryTrigger::PriceCondition { .. } => EntryTriggerState::Waiting,
    }
}

/// Row of a new intent.
#[derive(Debug)]
pub struct NewOrderIntent {
    pub order_intent_id: OrderIntentId,
    pub recommendation_id: RecommendationId,
    pub runtime_mode: QuantRuntimeMode,
    pub runtime_config_version_id: PolicySnapshotId,
    pub model_version_id: ModelVersionId,
    pub status: OrderIntentStatus,
    pub approval_status: ApprovalStatus,
    pub approved_by: Option<u128>,
    pub approval_reason: Option<String>,
    pub approved_at: Option<Timestamp>,
    pub policy_id: Option<String>,
    pub policy_hash: Option<ContentHash>,
    pub status_reason: Option<String>,
    pub admission_trace_ref: Option<String>,
    pub entry_trigger: EntryTrigger,
    pub entry_order: EntryOrderSpec,
    pub exit_policy: ExitPolicySpec,
    pub risk_envelope_hash: ContentHash,
    pub expires_at: Timestamp,
    pub entry_trigger_state: EntryTriggerState,
    pub trigger_confirming_since: Option<Timestamp>,
    pub trigger_last_observed_at: Option<Timestamp>,
    pub trigger_ready_at: Option<Timestamp>,
}

/// State of reserved capital.
#[derive(Clone, Copy, Debug, PartialEq, Eq, Structural)]
pub enum CapitalAllocationState {
    Allocated,
    Locked,
    Spent,
    Released,
}

/// Row of the capital that a new intent reserves.
#[derive(Debug)]
pub struct NewCapitalAllocation {
    pub capital_allocation_id: u128,
    pub order_intent_id: OrderIntentId,
    pub recommendation_id: RecommendationId,
    pub state: CapitalAllocationState,
    pub planned_usd: Usd,
    pub allocated_usd: Usd,
    pub locked_usd: Usd,
    pub spent_usd: Usd,
    pub released_usd: Usd,
    pub reason: String,
}

/// Whether these are the rows of a new intent: the order as projected, and the
/// capital that its notional asks for.
pub open spec fn creates(
    order_intent_id: OrderIntentId,
    capital_allocation_id: u128,
    rec: RecommendationInfo,
    report: RecommendationReportInfo,
    mode: QuantRuntimeMode,
    resolved: ResolvedPolicy,
    entry: EntryOrderSpec,
    exit: ExitPolicySpec,
    intent: NewOrderIntent,
    allocation: NewCapitalAllocation,
) -> bool {
    &&& rec.trade_plan is Some
    &&& entry.spec_notional() is Some
    &&& intent == (NewOrderIntent {
        order_intent_id,
        recommendation_id: rec.recommendation_id,
        runtime_mode: mode,
        runtime_config_version_id: report.runtime_config_version_id,
        model_version_id: report.model_version_id,
        status: resolved.status,
        approval_status: resolved.approval_status,
        approved_by: None,
        approval_reason: resolved.approval_reason,
        approved_at: resolved.approved_at,
        policy_id: resolved.policy_id,
        policy_hash: resolved.policy_hash,
        status_reason: None,
        admission_trace_ref: None,
        entry_trigger: rec.trade_plan->0.entry.trigger,
        entry_order: entry,
        exit_policy: exit,
        risk_envelope_hash: rec.trade_plan->0.risk_envelope.envelope_hash,
        expires_at: resolved.expires_at,
        entry_trigger_state: if resolved.status == OrderIntentStatus::ApprovedByPolicy {
            armed(rec.trade_plan->0.entry.trigger)
        } else {
            EntryTriggerState::NotRequired
        },
        trigger_confirming_since: None,
        trigger_last_observed_at: None,
        trigger_ready_at: None,
    })
    &&& allocation.reason@ == "intent created"@
    &&& allocation == (NewCapitalAllocation {
        capital_allocation_id,
        order_intent_id,
        recommendation_id: rec.recommendation_id,
        state: CapitalAllocationState::Allocated,
        planned_usd: entry.spec_notional()->0,
        allocated_usd: entry.spec_notional()->0,
        locked_usd: Decimal::of_parts(0, 0),
        spent_usd: Decimal::of_parts(0, 0),
        released_usd: Decimal::of_parts(0, 0),
        reason: allocation.reason,
    })
}

/// Makes the two rows that an intent and its reservation start as. The whole
/// notional of the entry is reserved.
pub fn compose_create_rows(
    order_intent_id: OrderIntentId,
    capital_allocation_id: u128,
    rec: &RecommendationInfo,
    report: &RecommendationReportInfo,
    mode: QuantRuntimeMode,
    resolved: ResolvedPolicy,
    entry: EntryOrderSpec,
    exit: ExitPolicySpec,
) -> (r: Result<(NewOrderIntent, NewCapitalAllocation), ExecutionError>)
    ensures
        match r {
            Ok((intent, allocation)) => creates(
                order_intent_id,
                capital_allocation_id,
                *rec,
                *report,
                mode,
                resolved,
                entry,
                exit,
                intent,
                allocation,
            ),
            Err(error) => if rec.trade_plan is None {
                error@ == no_plan()
            } else {
                entry.spec_notional() is None && error@ == ErrorView::DecimalOverflow
            },
        },
{
    let plan = match &rec.trade_plan {
        Some(plan) => plan,
        None => {
            return Err(plan_unavailable());
        },
    };
    let planned_usd = match entry.notional() {
        Some(planned) => planned,
        None => {
            return Err(ExecutionError::DecimalOverflow);
        },
    };
    let entry_trigger_state = if resolved.status == OrderIntentStatus::ApprovedByPolicy {
        armed_trigger_state(&plan.entry.trigger)
    } else {
        EntryTriggerState::NotRequired
    };
    let intent = NewOrderIntent {
        order_intent_id,
        recommendation_id: rec.recommendation_id,
        runtime_mode: mode,
        runtime_config_version_id: report.runtime_config_version_id,
        model_version_id: report.model_version_id,
        status: resolved.status,
        approval_status: resolved.approval_status,
        approved_by: None,
        approval_reason: resolved.approval_reason,
        approved_at: resolved.approved_at,
        policy_id: resolved.policy_id,
        policy_hash: resolved.policy_hash,
        status_reason: None,
        admission_trace_ref: None,
        entry_trigger: plan.entry.trigger,
        entry_order: entry,
        exit_policy: exit,
        risk_envelope_hash: plan.risk_envelope.envelope_hash,
        expires_at: resolved.expires_at,
        entry_trigger_state,
        trigger_confirming_since: None,
        trigger_last_observed_at: None,
        trigger_ready_at: None,
    };
    let allocation = NewCapitalAllocation {
        capital_allocation_id,
        order_intent_id,
        recommendation_id: rec.recommendation_id,
        state: CapitalAllocationState::Allocated,
        planned_usd,
        allocated_usd: planned_usd,
        locked_usd: Decimal::zero(),
        spent_usd: Decimal::zero(),
        released_usd: Decimal::zero(),
        reason: "intent created".to_owned(),
    };
    Ok((intent, allocation))
}

/// Whether policy and calibration are checked once more.
pub open spec fn governed(mode: QuantRuntimeMode) -> bool {
    mode == QuantRuntimeMode::SemiAuto || mode == QuantRuntimeMode::AutoExecution
}

/// What making an intent looked up.
#[derive(Debug)]
pub struct CreateIntentFacts {
    pub order_intent_id: OrderIntentId,
    pub capital_allocation_id: u128,
    pub kill_switch: KillSwitchState,
    pub blocking_intent_exists: bool,
    pub mode: QuantRuntimeMode,
    /// Why the frozen trade policy cannot be executed any more, if it cannot.
    pub trade_policy_defect: Option<String>,
    pub calibration: CalibrationLookup,
    pub policy: IntentPolicyDecision,
}

/// Why no intent is made.
#[derive(Debug)]
pub enum CreateRefusal {
    Refused(ExecutionError),
    /// The frozen trade policy cannot be executed any more.
    TradePolicy { detail: String },
    Calibration(CalibrationRefusal),
}

/// The resolution of the mode gate that a new intent carries.
pub open spec fn resolution(intent: NewOrderIntent) -> ResolvedPolicy {
    ResolvedPolicy {
        status: intent.status,
        approval_status: intent.approval_status,
        approval_reason: intent.approval_reason,
        approved_at: intent.approved_at,
        policy_id: intent.policy_id,
        policy_hash: intent.policy_hash,
        expires_at: intent.expires_at,
    }
}

/// Makes an intent and its reservation from a recommendation. The checks come
/// first; where capital is reserved, policy and calibration are checked once
/// more; then the entry and the exit are projected, and the policy decides how
/// the intent starts.
pub fn create_intent(
    rec: &RecommendationInfo,
    report: &RecommendationReportInfo,
    facts: CreateIntentFacts,
    now: Timestamp,
) -> (r: Result<(NewOrderIntent, NewCapitalAllocation), CreateRefusal>)
    ensures
        ({
            let creation = creation_refusal(
                *rec,
                *report,
                facts.kill_switch,
                facts.blocking_intent_exists,
                now,
            );
            let entry = entry_refusal(*rec, now);
            let spec = projected_entry(*rec);
            let decided = policy_refusal(facts.policy, now, rec.valid_until, spec.valid_until);
            let cleared = creation is None && (governed(facts.mode) ==> facts.trade_policy_defect
                is None && facts.calibration is Calibrated);
            match r {
                Ok((intent, allocation)) => {
                    &&& cleared
                    &&& entry is None
                    &&& decided is None
                    &&& spec.spec_notional() is Some
                    &&& resolves(
                        facts.policy,
                        now,
                        rec.valid_until,
                        spec.valid_until,
                        resolution(intent),
                    )
                    &&& carries_exit_plan(*rec, spec.limit_price, intent.exit_policy)
                    &&& creates(
                        facts.order_intent_id,
                        facts.capital_allocation_id,
                        *rec,
                        *report,
                        facts.mode,
                        resolution(intent),
                        spec,
                        intent.exit_policy,
                        intent,
                        allocation,
                    )
                },
                Err(CreateRefusal::Refused(error)) => {
                    ||| creation == Some(error@)
                    ||| cleared && entry == Some(error@)
                    ||| cleared && entry is None && decided == Some(error@)
                    ||| cleared && entry is None && decided is None && spec.spec_notional() is None
                        && error@ == ErrorView::DecimalOverflow
                },
                Err(CreateRefusal::TradePolicy { detail }) => creation is None && governed(
                    facts.mode,
                ) && facts.trade_policy_defect == Some(detail),
                Err(CreateRefusal::Calibration(refusal)) => creation is None && governed(facts.mode)
                    && facts.trade_policy_defect is None && calibration_refusal(
                    rec.model_version_id,
                    facts.calibration,
                ) == Some(refusal@),
            }
        }),
{
    match ensure_create_allowed(
        rec,
        report,
        facts.kill_switch,
        facts.blocking_intent_exists,
        now,
    ) {
        Ok(_) => {},
        Err(error) => return Err(CreateRefusal::Refused(error)),
    }
    if requires_fresh_governance(facts.mode) {
        if let Some(detail) = facts.trade_policy_defect {
            return Err(CreateRefusal::TradePolicy { detail });
        }
        match recheck_return_model_calibrated(rec.model_version_id, facts.calibration) {
            Ok(_) => {},
            Err(refusal) => return Err(CreateRefusal::Calibration(refusal)),
        }
    }
    let entry = match project_entry_order_spec(rec, now) {
        Ok(entry) => entry,
        Err(error) => return Err(CreateRefusal::Refused(error)),
    };
    let exit = match project_exit_policy_spec(rec, entry.limit_price) {
        Ok(exit) => exit,
        Err(error) => return Err(CreateRefusal::Refused(error)),
    };
    let resolved = match resolve_policy(facts.policy, now, rec.valid_until, entry.valid_until) {
        Ok(resolved) => resolved,
        Err(error) => return Err(CreateRefusal::Refused(error)),
    };
    match compose_create_rows(
        facts.order_intent_id,
        facts.capital_allocation_id,
        rec,
        report,
        facts.mode,
        resolved,
        entry,
        exit,
    ) {
        Ok(rows) => Ok(rows),
        Err(error) => Err(CreateRefusal::Refused(error)),
    }
}

/// Row that records a background change of an intent.
#[derive(Debug)]
pub struct NewOperationLog {
    pub id: u128,
    pub request_id: String,
    pub actor_username: Option<String>,
    pub acting_role: Option<String>,
    pub action: String,
    pub resource_id: Option<String>,
    pub http_method: String,
    pub http_path: String,
    pub http_status: u16,
    pub latency_ms: u64,
    /// The `reason` entry of the detail document.
    pub detail_reason: String,
}

/// The row that records a background change of an intent.
pub fn intent_operation_log(
    id: u128,
    action: &str,
    order_intent_id: OrderIntentId,
    reason: &str,
) -> (r: NewOperationLog)
    ensures
        r.id == id,
        r.request_id@ == "quant-intent:"@ + action@ + ":"@ + crate::text::id_text(order_intent_id),
        crate::orders::text_of(r.actor_username) == Some("system"@),
        crate::orders::text_of(r.acting_role) == Some("intent_lifecycle"@),
        r.action@ == action@,
        crate::orders::text_of(r.resource_id) == Some(crate::text::id_text(order_intent_id)),
        r.http_method@ == "SYSTEM"@,
        r.http_path@ == "/system/quant/intent/"@ + crate::text::id_text(order_intent_id) + "/"@
            + action@,
        r.http_status == 200,
        r.latency_ms == 0,
        r.detail_reason@ == reason@,
{
    NewOperationLog {
        id,
        request_id: "quant-intent:".to_owned().concat(action).concat(":").concat(
            write_id(order_intent_id).as_str(),
        ),
        actor_username: Some("system".to_owned()),
        acting_role: Some("intent_lifecycle".to_owned()),
        action: action.to_owned(),
        resource_id: Some(write_id(order_intent_id)),
        http_method: "SYSTEM".to_owned(),
        http_path: "/system/quant/intent/".to_owned().concat(
            write_id(order_intent_id).as_str(),
        ).concat("/").concat(action),
        http_status: 200,
        latency_ms: 0,
        detail_reason: reason.to_owned(),
    }
}

/// How many of the due intents one sweep expires.
pub fn expiry_batch(due: usize, limit: usize) -> (r: usize)
    ensures
        r == (if due < limit {
            due
        } else {
            limit
        }),
{
    if due < limit {
        due
    } else {
        limit
    }
}

} // verus!
