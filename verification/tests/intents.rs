use quant_pivot_execution::decimal::Decimal;
use quant_pivot_execution::entry_trigger::{EntryTrigger, EntryTriggerState};
use quant_pivot_execution::error::ExecutionError;
use quant_pivot_execution::intent_service::{
    approval_invalidated, approve_intent, create_intent, ensure_create_allowed, ensure_pending_approval,
    evaluate_intent_approval_invalidation, expiry_batch, intent_operation_log,
    project_entry_order_spec, project_exit_policy_spec, recheck_return_model_calibrated,
    resolve_downscale, resolve_policy, ApprovalInvalidation, ApprovalStatus, ApproveIntentCommand,
    CalibrationLookup, CalibrationRefusal, CapitalAllocationState, CreateIntentFacts,
    CreateRefusal, IntentPolicyDecision,
};
use quant_pivot_execution::orders::{
    EntryMakerRebateTerms, EntryOrderSpec, OrderAmount, OrderIntentStatus,
};
use quant_pivot_execution::plans::{
    EntryOrderPolicy, EntryPlan, ExitPlan, ExitSettlementMode, FrozenTradePlan, KillSwitchState,
    OrderIntentInfo, QuantRuntimeMode, RecommendationInfo, RecommendationReportInfo, RecommendationReportStatus,
    RecommendationStatus, RedeemPolicy, RiskEnvelope, ScaleOutTarget, SizingPlan,
};
use quant_pivot_execution::time::Timestamp;
use quant_pivot_execution::types::{
    ContentHash, FillRequirement, Ident, OrderType, OutcomeSide, PriceComparison, Side,
};

const HOUR: i64 = 3_600;
const MINUTE: i64 = 60;

fn dec(text: &str) -> Decimal {
    Decimal::parse(text).expect("decimal")
}

fn now() -> Timestamp {
    Timestamp::new(1_700_000_000, 0).expect("time")
}

fn later(seconds: i64) -> Timestamp {
    now().plus_seconds(seconds).expect("time")
}

fn hash(word: u128) -> ContentHash {
    ContentHash { high: word, low: word }
}

fn target(id: &str, pct: &str) -> ScaleOutTarget {
    ScaleOutTarget {
        target_id: Ident::new(id),
        target_cumulative_exit_pct: dec(pct),
        trigger_price: Some(dec("0.70")),
    }
}

/// A passive entry of 250 dollars.
fn plan() -> FrozenTradePlan {
    FrozenTradePlan {
        entry: EntryPlan {
            order_policy: EntryOrderPolicy::Passive {
                limit_price: dec("0.50"),
                post_only: true,
            },
            trigger: EntryTrigger::Immediate,
            max_slippage_bps: dec("50"),
            valid_from: now(),
            valid_until: later(HOUR),
            max_book_age_ms: 5_000,
            min_depth_usd: dec("100"),
            maker_rebate_terms: EntryMakerRebateTerms::AggressiveNotApplicable,
        },
        sizing: SizingPlan { suggested_usd: dec("250"), suggested_shares: dec("500") },
        exit: ExitPlan {
            take_profit_price: Some(dec("0.70")),
            take_profit_pct: None,
            stop_loss_price: Some(dec("0.35")),
            stop_loss_pct: None,
            time_exit_at: None,
            max_hold_secs: None,
            trailing_stop: None,
            thesis_invalidation: None,
            scale_out_targets: vec![target("half", "0.5"), target("all", "1")],
            settlement_mode: ExitSettlementMode::ExitBeforeResolution,
            redeem_policy: RedeemPolicy::Manual,
            manual_review_at: None,
        },
        risk_envelope: RiskEnvelope {
            max_market_exposure_usd: dec("1000"),
            max_event_exposure_usd: dec("1000"),
            max_category_exposure_usd: dec("1000"),
            envelope_hash: hash(7),
        },
    }
}

fn rec() -> RecommendationInfo {
    RecommendationInfo {
        recommendation_id: 1,
        recommendation_report_id: 2,
        status: RecommendationStatus::Active,
        market_id: Ident::new("0xmkt"),
        event_id: Ident::new("event"),
        token_id: Ident::new("token-yes"),
        category: Ident::new("politics"),
        outcome_side: OutcomeSide::Yes,
        valid_until: later(HOUR),
        composite_score: dec("0.8"),
        model_version_id: 3,
        trade_plan: Some(plan()),
    }
}

fn report(status: RecommendationReportStatus) -> RecommendationReportInfo {
    RecommendationReportInfo {
        recommendation_report_id: 2,
        status,
        runtime_config_version_id: 4,
        model_version_id: 3,
        decision_at: now(),
        created_at: now(),
    }
}

fn entry_mut(rec: &mut RecommendationInfo) -> &mut EntryPlan {
    &mut rec.trade_plan.as_mut().expect("fixture must be frozen").entry
}

fn sizing(rec: &RecommendationInfo) -> SizingPlan {
    rec.trade_plan.as_ref().expect("fixture must be frozen").sizing
}

fn frozen_entry() -> EntryOrderSpec {
    EntryOrderSpec {
        token_id: Ident::new("token-1"),
        side: Side::Buy,
        order_type: OrderType::Gtc,
        post_only: false,
        limit_price: dec("0.60"),
        amount: OrderAmount::Shares(dec("100")),
        max_slippage_bps: dec("50"),
        maker_rebate_terms: EntryMakerRebateTerms::AggressiveNotApplicable,
        valid_until: now(),
    }
}

fn approve_command() -> ApproveIntentCommand {
    ApproveIntentCommand {
        order_intent_id: 5,
        operator_id: 0,
        acting_role: "operator".to_owned(),
        reason: "ok".to_owned(),
        override_amount: None,
        override_price: None,
    }
}

#[test]
fn entry_projection_is_gtd_for_resting_limit() {
    let mut rec = rec();
    entry_mut(&mut rec).valid_until = later(10 * MINUTE);
    let spec = project_entry_order_spec(&rec, now()).expect("projection");
    assert_eq!(spec.token_id, rec.token_id);
    assert_eq!(spec.side, Side::Buy);
    assert_eq!(spec.amount, OrderAmount::Shares(sizing(&rec).suggested_shares));
    assert!(spec.post_only);
    assert_eq!(
        spec.order_type,
        OrderType::Gtd {
            expiration: u64::try_from(later(10 * MINUTE + 60).whole_seconds()).expect("timestamp"),
        }
    );
}

#[test]
fn aggressive_all_or_nothing_entry_projects_to_fok_usd() {
    let mut rec = rec();
    entry_mut(&mut rec).order_policy = EntryOrderPolicy::Aggressive {
        worst_price: dec("0.60"),
        fill_requirement: FillRequirement::AllOrNothing,
    };
    let spec = project_entry_order_spec(&rec, now()).expect("projection");
    assert_eq!(spec.order_type, OrderType::Fok);
    assert!(!spec.post_only);
    assert_eq!(spec.amount, OrderAmount::Usd(sizing(&rec).suggested_usd));
}

#[test]
fn aggressive_partial_entry_projects_to_fak_usd() {
    let mut rec = rec();
    entry_mut(&mut rec).order_policy = EntryOrderPolicy::Aggressive {
        worst_price: dec("0.60"),
        fill_requirement: FillRequirement::AllowPartial,
    };
    let spec = project_entry_order_spec(&rec, now()).expect("projection");
    assert_eq!(spec.order_type, OrderType::Fak);
    assert!(!spec.post_only);
    assert_eq!(spec.amount, OrderAmount::Usd(sizing(&rec).suggested_usd));
}

#[test]
fn passive_entry_rejects_effective_lifetime_below_two_minutes() {
    let mut rec = rec();
    entry_mut(&mut rec).valid_until = later(119);
    assert!(matches!(
        project_entry_order_spec(&rec, now()),
        Err(ExecutionError::IntentDenied { .. })
    ));
}

#[test]
fn passive_entry_rejects_non_post_only_policy() {
    let mut rec = rec();
    entry_mut(&mut rec).order_policy =
        EntryOrderPolicy::Passive { limit_price: dec("0.60"), post_only: false };
    assert!(matches!(
        project_entry_order_spec(&rec, now()),
        Err(ExecutionError::IntentDenied { reason })
            if reason == "passive entry policy must be post-only"
    ));
}

#[test]
fn exit_projection_drops_full_exit_nodes() {
    let rec = rec();
    let projected = project_exit_policy_spec(&rec, dec("0.60")).expect("exit projection");
    assert_eq!(
        projected.take_profit_price,
        rec.trade_plan.as_ref().expect("fixture must be frozen").exit.take_profit_price
    );
    assert!(projected
        .scale_out_targets
        .iter()
        .all(|target| target.target_cumulative_exit_pct.lt(dec("1"))));
    assert_eq!(projected.scale_out_targets.len(), 1);
}

#[test]
fn downscale_noop_without_overrides() {
    let (entry, alloc) = resolve_downscale(&approve_command(), &frozen_entry()).expect("noop");
    assert!(entry.is_none());
    assert!(alloc.is_none());
}

#[test]
fn downscale_reduces_shares_and_notional() {
    let mut cmd = approve_command();
    cmd.override_amount = Some(OrderAmount::Shares(dec("50")));
    let (entry, alloc) = resolve_downscale(&cmd, &frozen_entry()).expect("downscale");
    let entry = entry.expect("entry override");
    assert_eq!(entry.amount, OrderAmount::Shares(dec("50")));
    assert!(alloc.expect("allocation").same(dec("30"))); // 50 * 0.60
}

#[test]
fn downscale_rejects_widening_size() {
    let mut cmd = approve_command();
    cmd.override_amount = Some(OrderAmount::Shares(dec("200")));
    assert!(resolve_downscale(&cmd, &frozen_entry()).is_err());
}

#[test]
fn downscale_rejects_raising_limit() {
    let mut cmd = approve_command();
    cmd.override_price = Some(dec("0.70"));
    assert!(resolve_downscale(&cmd, &frozen_entry()).is_err());
}

#[test]
fn usd_price_only_override_preserves_frozen_spend() {
    let mut cmd = approve_command();
    cmd.override_price = Some(dec("0.55"));
    let mut frozen = frozen_entry();
    frozen.amount = OrderAmount::Usd(dec("60"));
    let (entry, allocation) = resolve_downscale(&cmd, &frozen).expect("tighten USD order");
    assert_eq!(entry.expect("override").amount, OrderAmount::Usd(dec("60")));
    assert_eq!(allocation, Some(dec("60")));
}

#[test]
fn sell_price_override_cannot_lower_frozen_bound() {
    let mut cmd = approve_command();
    cmd.override_price = Some(dec("0.50"));
    let mut frozen = frozen_entry();
    frozen.side = Side::Sell;
    assert!(resolve_downscale(&cmd, &frozen).is_err());
    cmd.override_price = Some(dec("0.70"));
    assert!(resolve_downscale(&cmd, &frozen).is_ok());
}

#[test]
fn downscale_rejects_amount_unit_mismatch() {
    let mut cmd = approve_command();
    cmd.override_amount = Some(OrderAmount::Usd(dec("10")));
    assert!(resolve_downscale(&cmd, &frozen_entry()).is_err());
}

#[test]
fn invalidation_passes_for_fresh_published_intent() {
    let mut rec = rec();
    rec.valid_until = later(HOUR);
    assert!(evaluate_intent_approval_invalidation(
        &rec,
        &report(RecommendationReportStatus::Published),
        true,
        4,
        4,
        hash(7),
        now()
    )
    .is_none());
}

#[test]
fn semi_auto_expires_at_is_capped_by_recommendation_valid_until() {
    let resolved = resolve_policy(
        IntentPolicyDecision::RequiresApproval { approval_ttl_secs: 24 * 3_600 },
        now(),
        later(HOUR),
        later(2 * HOUR),
    )
    .expect("policy");
    assert_eq!(resolved.status, OrderIntentStatus::PendingApproval);
    assert_eq!(resolved.expires_at, later(HOUR));
}

#[test]
fn semi_auto_expires_at_uses_approval_ttl_when_shorter_than_recommendation() {
    let resolved = resolve_policy(
        IntentPolicyDecision::RequiresApproval { approval_ttl_secs: 15 * 60 },
        now(),
        later(24 * HOUR),
        later(24 * HOUR),
    )
    .expect("policy");
    assert_eq!(resolved.expires_at, later(900));
}

#[test]
fn semi_auto_rejects_unrepresentable_approval_ttl() {
    assert!(matches!(
        resolve_policy(
            IntentPolicyDecision::RequiresApproval { approval_ttl_secs: u64::MAX },
            now(),
            later(HOUR),
            later(HOUR),
        ),
        Err(ExecutionError::TimeConversion { field: "approval_ttl_secs", .. })
    ));
}

#[test]
fn gtd_projection_rejects_security_buffer_overflow() {
    let last = chrono::DateTime::<chrono::Utc>::MAX_UTC;
    let valid_until =
        Timestamp::new(last.timestamp(), last.timestamp_subsec_nanos()).expect("last time");
    let mut rec = rec();
    entry_mut(&mut rec).valid_until = valid_until;
    assert!(matches!(
        project_entry_order_spec(&rec, valid_until.plus_seconds(-120).expect("time")),
        Err(ExecutionError::TimeConversion { field: "entry_plan.valid_until", .. })
    ));
}

#[test]
fn semi_auto_expires_at_is_capped_by_entry_valid_until() {
    let resolved = resolve_policy(
        IntentPolicyDecision::RequiresApproval { approval_ttl_secs: 24 * 3_600 },
        now(),
        later(24 * HOUR),
        later(30 * MINUTE),
    )
    .expect("policy");
    assert_eq!(resolved.expires_at, later(30 * MINUTE));
}

#[test]
fn resolve_policy_rejects_when_all_deadlines_elapsed() {
    assert!(matches!(
        resolve_policy(
            IntentPolicyDecision::RequiresApproval { approval_ttl_secs: 15 * 60 },
            now(),
            later(-MINUTE),
            later(-2 * MINUTE),
        ),
        Err(ExecutionError::RecommendationExpired { .. })
    ));
}

#[test]
fn auto_policy_expires_at_is_capped_by_recommendation_valid_until() {
    let resolved = resolve_policy(
        IntentPolicyDecision::ApprovedByPolicy {
            policy_id: "policy-1".to_owned(),
            policy_hash: None,
            reason: "ok".to_owned(),
        },
        now(),
        later(HOUR),
        later(2 * HOUR),
    )
    .expect("policy");
    assert_eq!(resolved.status, OrderIntentStatus::ApprovedByPolicy);
    assert_eq!(resolved.approval_status, ApprovalStatus::NotRequired);
    assert_eq!(resolved.expires_at, later(HOUR));
}

#[test]
fn invalidation_trips_each_condition() {
    let mut rec = rec();
    rec.valid_until = later(HOUR);
    let published = report(RecommendationReportStatus::Published);

    // recommendation expired
    let mut expired = self::rec();
    expired.valid_until = later(-HOUR);
    assert_eq!(
        evaluate_intent_approval_invalidation(&expired, &published, true, 4, 4, hash(7), now()),
        Some(ApprovalInvalidation::RecommendationExpired)
    );

    // report no longer published
    let revoked = report(RecommendationReportStatus::Revoked);
    assert_eq!(
        evaluate_intent_approval_invalidation(&rec, &revoked, true, 4, 4, hash(7), now()),
        Some(ApprovalInvalidation::ReportRevoked)
    );

    // kill switch opened
    assert_eq!(
        evaluate_intent_approval_invalidation(&rec, &published, false, 4, 4, hash(7), now()),
        Some(ApprovalInvalidation::KillSwitchOpened)
    );

    // runtime config version changed
    assert_eq!(
        evaluate_intent_approval_invalidation(&rec, &published, true, 5, 4, hash(7), now()),
        Some(ApprovalInvalidation::RuntimeConfigChanged)
    );

    // risk envelope hash mismatch: a stored hash differing from the rec's.
    let stored_hash = hash(u128::MAX / 15);
    assert_ne!(
        stored_hash,
        rec.trade_plan.as_ref().expect("fixture must be frozen").risk_envelope.envelope_hash
    );
    assert_eq!(
        evaluate_intent_approval_invalidation(&rec, &published, true, 4, 4, stored_hash, now()),
        Some(ApprovalInvalidation::RiskEnvelopeMismatch)
    );
}

#[test]
fn uncalibrated_model_blocks_semi_auto_intent_creation() {
    assert!(
        recheck_return_model_calibrated(3, CalibrationLookup::Heuristic).is_err(),
        "uncalibrated heuristic return model must block SemiAuto intent creation"
    );
}

#[test]
fn heuristic_return_model_denies_semi_auto_intent_creation() {
    let result = recheck_return_model_calibrated(3, CalibrationLookup::Heuristic);
    assert!(matches!(
        result,
        Err(CalibrationRefusal::Denied(ExecutionError::IntentDenied { .. }))
    ));
}

#[test]
fn calibrated_and_still_active_allows_intent_creation() {
    assert!(recheck_return_model_calibrated(3, CalibrationLookup::Calibrated).is_ok());
}

#[test]
fn calibrated_but_deactivated_after_report_build_denies_intent_creation() {
    let result = recheck_return_model_calibrated(
        3,
        CalibrationLookup::Unresolved { detail: "calibrator is not active".to_owned() },
    );
    assert_eq!(
        result,
        Err(CalibrationRefusal::Unresolved { detail: "calibrator is not active".to_owned() })
    );
}

#[test]
fn missing_model_version_denies_intent_creation() {
    assert!(
        recheck_return_model_calibrated(3, CalibrationLookup::VersionMissing).is_err(),
        "a missing model version must deny, not panic or pass"
    );
}

fn refusal(
    rec: &RecommendationInfo,
    status: RecommendationReportStatus,
    kill_switch: KillSwitchState,
    blocked: bool,
) -> ExecutionError {
    ensure_create_allowed(rec, &report(status), kill_switch, blocked, now())
        .expect_err("creation must be refused")
}

#[test]
fn each_creation_refusal_is_named() {
    let published = RecommendationReportStatus::Published;
    let open = KillSwitchState::Closed;
    assert!(ensure_create_allowed(&rec(), &report(published), open, false, now()).is_ok());

    let mut expired = rec();
    expired.valid_until = later(-1);
    assert!(matches!(
        refusal(&expired, published, open, false),
        ExecutionError::RecommendationExpired { .. }
    ));

    let mut consumed = rec();
    consumed.status = RecommendationStatus::Consumed;
    assert_eq!(
        refusal(&consumed, published, open, false),
        ExecutionError::IntentDenied {
            reason: "recommendation 00000000-0000-0000-0000-000000000001 is consumed (not actionable for intent creation)"
                .to_owned(),
        }
    );

    assert!(matches!(
        refusal(&rec(), RecommendationReportStatus::Draft, open, false),
        ExecutionError::IntentDenied { .. }
    ));
    assert_eq!(
        refusal(&rec(), published, KillSwitchState::ExitOnly, false),
        ExecutionError::KillSwitchBlocks {
            state: "exit_only".to_owned(),
            operation: "intent creation".to_owned(),
        }
    );
    assert!(matches!(
        refusal(&rec(), published, open, true),
        ExecutionError::IntentDenied { .. }
    ));
}

fn facts(policy: IntentPolicyDecision) -> CreateIntentFacts {
    CreateIntentFacts {
        order_intent_id: 11,
        capital_allocation_id: 12,
        kill_switch: KillSwitchState::Closed,
        blocking_intent_exists: false,
        mode: QuantRuntimeMode::SemiAuto,
        trade_policy_defect: None,
        calibration: CalibrationLookup::Calibrated,
        policy,
    }
}

#[test]
fn created_intents_reserve_their_notional() {
    let published = report(RecommendationReportStatus::Published);
    let (intent, allocation) = create_intent(
        &rec(),
        &published,
        facts(IntentPolicyDecision::RequiresApproval { approval_ttl_secs: 60 }),
        now(),
    )
    .expect("intent");
    assert_eq!(intent.order_intent_id, 11);
    assert_eq!(intent.status, OrderIntentStatus::PendingApproval);
    assert_eq!(intent.expires_at, later(60));
    assert_eq!(intent.entry_trigger_state, EntryTriggerState::NotRequired);
    assert_eq!(intent.risk_envelope_hash, hash(7));
    assert_eq!(intent.exit_policy.scale_out_targets.len(), 1);
    assert_eq!(allocation.state, CapitalAllocationState::Allocated);
    assert!(allocation.planned_usd.same(dec("250")));
    assert_eq!(allocation.reason, "intent created");
}

#[test]
fn approved_conditional_intents_wait_for_their_trigger() {
    let mut conditional = rec();
    entry_mut(&mut conditional).trigger = EntryTrigger::PriceCondition {
        comparison: PriceComparison::AtOrBelow,
        threshold: dec("0.5"),
        confirmation_secs: 5,
        max_observation_gap_ms: 1_000,
    };
    let (intent, _) = create_intent(
        &conditional,
        &report(RecommendationReportStatus::Published),
        facts(IntentPolicyDecision::ApprovedByPolicy {
            policy_id: "policy-1".to_owned(),
            policy_hash: Some(hash(9)),
            reason: "ok".to_owned(),
        }),
        now(),
    )
    .expect("intent");
    assert_eq!(intent.status, OrderIntentStatus::ApprovedByPolicy);
    assert_eq!(intent.policy_hash, Some(hash(9)));
    assert_eq!(intent.approved_at, Some(now()));
    assert_eq!(intent.entry_trigger_state, EntryTriggerState::Waiting);
}

#[test]
fn governance_is_checked_before_the_entry() {
    let published = report(RecommendationReportStatus::Published);
    let approval = || IntentPolicyDecision::RequiresApproval { approval_ttl_secs: 60 };
    let mut drifted = facts(approval());
    drifted.trade_policy_defect = Some("drifted".to_owned());
    assert!(matches!(
        create_intent(&rec(), &published, drifted, now()),
        Err(CreateRefusal::TradePolicy { .. })
    ));
    let mut heuristic = facts(approval());
    heuristic.calibration = CalibrationLookup::Heuristic;
    assert!(matches!(
        create_intent(&rec(), &published, heuristic, now()),
        Err(CreateRefusal::Calibration(_))
    ));
    assert!(matches!(
        create_intent(&rec(), &published, facts(IntentPolicyDecision::ReportOnly), now()),
        Err(CreateRefusal::Refused(ExecutionError::ReportOnlyMode))
    ));
    assert!(matches!(
        create_intent(
            &rec(),
            &published,
            facts(IntentPolicyDecision::Denied { reason: "no".to_owned() }),
            now()
        ),
        Err(CreateRefusal::Refused(ExecutionError::IntentDenied { .. }))
    ));
    let mut planless = rec();
    planless.trade_plan = None;
    assert!(create_intent(&planless, &published, facts(approval()), now()).is_err());
}

#[test]
fn approvals_need_a_pending_intent() {
    assert!(ensure_pending_approval(5, OrderIntentStatus::PendingApproval).is_ok());
    assert_eq!(
        ensure_pending_approval(5, OrderIntentStatus::Filled),
        Err(ExecutionError::IntentDenied {
            reason: "intent 00000000-0000-0000-0000-000000000005 is filled (only pending_approval can be approved)"
                .to_owned(),
        })
    );
    assert_eq!(
        approval_invalidated(ApprovalInvalidation::ReportRevoked),
        ExecutionError::ApprovalInvalidated { reason: "report_revoked".to_owned() }
    );
}

fn pending_intent() -> OrderIntentInfo {
    OrderIntentInfo {
        order_intent_id: 5,
        recommendation_id: 6,
        condition_instance_id: 7,
        execution_account_id: 8,
        model_version_id: 9,
        profile_ref: Ident::new("profile"),
        status: OrderIntentStatus::PendingApproval,
        entry_order: frozen_entry(),
        exit_policy: project_exit_policy_spec(&rec(), dec("0.50")).expect("exit policy"),
        risk_envelope_hash: hash(3),
        expires_at: later(HOUR),
    }
}

#[test]
fn approvals_carry_the_narrowed_entry() {
    let mut command = approve_command();
    command.operator_id = 77;
    let plain = approve_intent(&command, &pending_intent(), now()).expect("plain approval");
    assert_eq!(plain.approved_by, 77);
    assert_eq!(plain.approval_reason, "ok");
    assert_eq!(plain.approved_at, now());
    assert!(plain.entry_override.is_none());
    assert_eq!(plain.allocated_override, None);

    command.override_amount = Some(OrderAmount::Shares(dec("40")));
    let narrowed = approve_intent(&command, &pending_intent(), now()).expect("narrowed approval");
    let entry = narrowed.entry_override.expect("narrowed entry");
    assert_eq!(entry.amount, OrderAmount::Shares(dec("40")));
    assert_eq!(entry.limit_price, dec("0.60"));
    assert_eq!(narrowed.allocated_override, Some(dec("24")));

    command.override_price = Some(dec("0.61"));
    assert_eq!(
        approve_intent(&command, &pending_intent(), now()).err(),
        Some(ExecutionError::IntentDenied {
            reason: "approval price override cannot widen the frozen side-aware price bound"
                .to_owned(),
        })
    );

    let mut settled = pending_intent();
    settled.status = OrderIntentStatus::Filled;
    assert_eq!(
        approve_intent(&approve_command(), &settled, now()).err(),
        Some(ExecutionError::IntentDenied {
            reason: "intent 00000000-0000-0000-0000-000000000005 is filled (only pending_approval can be approved)"
                .to_owned(),
        })
    );
}

#[test]
fn lifecycle_steps_are_logged() {
    let log = intent_operation_log(1, "expire", 5, "past its deadline");
    assert_eq!(log.request_id, "quant-intent:expire:00000000-0000-0000-0000-000000000005");
    assert_eq!(
        log.http_path,
        "/system/quant/intent/00000000-0000-0000-0000-000000000005/expire"
    );
    assert_eq!(log.detail_reason, "past its deadline");
    assert_eq!(expiry_batch(3, 10), 3);
    assert_eq!(expiry_batch(30, 10), 10);
}
