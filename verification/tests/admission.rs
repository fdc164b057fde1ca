use std::collections::hash_map::DefaultHasher;
use std::hash::{Hash, Hasher};

use quant_pivot_execution::admission::builder::{
    build, entry_collateral, execution_evidence, not_found, prepare_execution_context,
    require_sources, require_subject, resolve_economic_health, settlement_recovery_route,
    timestamp_ms, AdmissionFacts, AdmissionLimits, AdmissionSources, AdmissionSubject,
    BuildRefusal, CatalogMarket, ContextReplies,
    ModelRouting, ModelVersionInfo, OpeningReplies, PreparedAdmissionContext, RouteEconomicHealth,
    RuntimeControls, SettlementRoute, SourceReplies,
};
use quant_pivot_execution::admission::engine::{
    admission_check, elapsed_ms, evaluate, evaluate_full, ADMISSION_CHECK_COUNT,
};
use quant_pivot_execution::admission::model::{
    AccountSnapshot, AdmissionCheckId, AdmissionEconomicHealth, AdmissionExposureState,
    AdmissionInput, AdmissionModelState, AdmissionOutcome, AdmissionSeams, AdmissionVenueMetadata,
    ConditionInstance, DataQualitySnapshot, ExposureEntry, MarketStatus,
    SettlementRecoveryAdmission, StateVersion, VenueHealth,
};
use quant_pivot_execution::admission::preparation::{EntryOrderPreparation, PreparationReplies};
use quant_pivot_execution::decimal::Decimal;
use quant_pivot_execution::dispatcher::{
    admission_verdict, build_claim, build_ledger_write, build_new_execution_order, ensure_submittable,
    next_submission_step, submission_effects, submission_storage_failure, AdmissionVerdict,
    CapitalSettlement, StorageError, SubmissionStep,
};
use quant_pivot_execution::entry_condition::state::EntryConditionState;
use quant_pivot_execution::entry_trigger::EntryTrigger;
use quant_pivot_execution::error::ExecutionError;
use quant_pivot_execution::orders::{
    BookSnapshot, BookWalkFill, BookWalkOutcome, CanonicalOrderAmounts, ClobMarketInfo,
    EntryMakerRebateTerms, EntryOrderSpec, ExecutionOrderInfo, ExecutionOrderState, OrderAmount,
    OrderIntentStatus, PitFeeSchedule, PitMakerRebateEvidence, PreparedVenueOrder,
    ReconciliationResult, TickSize, VenueBalanceAllowanceSnapshot, VenueFundingAsset,
    VenueFundingBalance, VenueFundingEvidence, VenueOrderAmount, VenueOrderMetadata, VenueOutcome,
    VenueSubmitResult,
};
use quant_pivot_execution::plans::{
    EntryOrderPolicy, EntryPlan, ExitPolicySpec, ExitSettlementMode, KillSwitchState,
    OrderIntentInfo, QuantRuntimeMode, RecommendationInfo, RecommendationReportInfo,
    RecommendationReportStatus, RecommendationStatus, RedeemPolicy, RiskEnvelope,
};
use quant_pivot_execution::time::Timestamp;
use quant_pivot_execution::types::{
    ContentHash, FillRequirement, Ident, OrderType, OutcomeSide, Side,
};

fn dec(text: &str) -> Decimal {
    Decimal::parse(text).expect("decimal")
}

fn at(seconds: i64) -> Timestamp {
    Timestamp::new(seconds, 0).expect("time")
}

fn hash(seed: u8) -> ContentHash {
    let word = u128::from_be_bytes([seed; 16]);
    ContentHash { high: word, low: word }
}

fn market() -> Ident {
    Ident::new("0xmarket")
}

fn token() -> Ident {
    Ident::new("token-1")
}

fn metadata() -> AdmissionVenueMetadata {
    AdmissionVenueMetadata {
        catalog_market_id: market(),
        catalog_token_id: Some(token()),
        frozen_version_id: 1,
        frozen_market_id: market(),
        frozen_token_id: Some(token()),
        frozen_tick_size: TickSize::Hundredth,
        frozen_minimum_order_size: dec("5"),
        frozen_neg_risk: false,
        frozen_payload_hash: hash(1),
        current_version_id: 2,
        current_market_id: market(),
        current_token_id: Some(token()),
        current_tick_size: TickSize::Hundredth,
        current_minimum_order_size: dec("5"),
        current_neg_risk: false,
        current_payload_hash: hash(1),
        live_market_id: market(),
        live_token_id: token(),
        live_tick_size: TickSize::Hundredth,
        live_minimum_order_size: dec("5"),
        live_neg_risk: false,
        catalog_status: MarketStatus::Active,
        catalog_filter_reasons: Vec::new(),
    }
}

fn funding(required: &str) -> VenueFundingEvidence {
    VenueFundingEvidence {
        snapshot: VenueBalanceAllowanceSnapshot {
            asset: VenueFundingAsset::Collateral,
            token_id: None,
            balance: "100000000".to_owned(),
            human_balance: VenueFundingBalance::Collateral(dec("100")),
            allowance: Some("100000000".to_owned()),
        },
        required: required.to_owned(),
        deficit: None,
    }
}

fn fees() -> PitFeeSchedule {
    PitFeeSchedule {
        schedule_hash: hash(9),
        effective_at: at(0),
        available_at: at(0),
        platform_rate: dec("0"),
        exponent: 1,
        taker_only: true,
        builder_maker_fee_bps: 0,
        builder_taker_fee_bps: 0,
        builder_attribution: false,
    }
}

fn prepared() -> PreparedVenueOrder {
    PreparedVenueOrder {
        profile_ref: Ident::new("profile"),
        market_id: market(),
        token_id: token(),
        tick_size: TickSize::Hundredth,
        minimum_order_size: dec("5"),
        neg_risk: false,
        side: Side::Buy,
        order_type: OrderType::Fak,
        post_only: false,
        limit_price: dec("0.50"),
        expected_worst_fill_price: dec("0.50"),
        cash_budget: Some(dec("11")),
        venue_amount: VenueOrderAmount::PrincipalUsd(dec("10")),
        requested_shares: dec("20"),
        expected_fee: dec("1"),
        total_cash_delta: dec("-11"),
        expected_filled_shares: dec("20"),
        book_hash: hash(3),
        clob_market_info_payload_hash: hash(1),
        fee_schedule: fees(),
        maker_rebate_terms: EntryMakerRebateTerms::AggressiveNotApplicable,
        prepared_at: at(100),
        valid_until: at(200),
    }
}

/// A digest of the evidence of a context.
fn evidence_digest(context: &PreparedAdmissionContext) -> u64 {
    let mut hasher = DefaultHasher::new();
    format!("{:?}", execution_evidence(context)).hash(&mut hasher);
    hasher.finish()
}

#[test]
fn unchanged_metadata_is_valid() {
    assert!(metadata().validate(&market(), &token()).is_ok());
}

#[test]
fn payload_change_is_rejected() {
    let mut metadata = metadata();
    metadata.current_payload_hash = hash(2);
    let error = metadata
        .validate(&market(), &token())
        .expect_err("fee-only payload drift must invalidate the report");
    assert!(error.contains("payload mismatch"));
}

#[test]
fn live_rule_change_rejected() {
    let mut metadata = metadata();
    metadata.live_minimum_order_size = dec("6");
    let error = metadata
        .validate(&market(), &token())
        .expect_err("live rule drift must block preparation");
    assert!(error.contains("order-minimum mismatch"));
}

#[test]
fn evidence_hash_tracks_all() {
    let baseline = evidence_digest(&context());

    let mut changed_metadata = context();
    changed_metadata.venue_metadata.current_payload_hash = hash(3);
    let metadata_hash = evidence_digest(&changed_metadata);

    let mut changed_funding = context();
    changed_funding.venue_funding = funding("10000001");
    let funding_hash = evidence_digest(&changed_funding);

    let mut changed_prepared = context();
    changed_prepared.prepared_order.expected_fee = dec("1.01");
    let prepared_hash = evidence_digest(&changed_prepared);

    assert_ne!(baseline, metadata_hash);
    assert_ne!(baseline, funding_hash);
    assert_ne!(baseline, prepared_hash);
}

#[test]
fn each_metadata_defect_is_named() {
    let mut blocked = metadata();
    blocked.catalog_status = MarketStatus::ManuallyBlocked;
    blocked.catalog_filter_reasons = vec!["low_volume".to_owned(), "stale".to_owned()];
    assert_eq!(
        blocked.validate(&market(), &token()),
        Err("current Gamma market is not tradeable: status=manually_blocked, reasons=low_volume,stale"
            .to_owned())
    );
    assert!(metadata()
        .validate(&Ident::new("0xother"), &token())
        .expect_err("market")
        .contains("market mismatch: expected=0xother"));
    let mut tokenless = metadata();
    tokenless.catalog_token_id = None;
    assert_eq!(
        tokenless.validate(&market(), &token()),
        Err("catalog/frozen/current/live token mismatch: expected=token-1, catalog=None, frozen=Some(token-1), current=Some(token-1), live=token-1"
            .to_owned())
    );
    let mut retick = metadata();
    retick.live_tick_size = TickSize::Thousandth;
    assert!(retick.validate(&market(), &token()).expect_err("tick").contains("tick-size mismatch"));
    let mut risky = metadata();
    risky.live_neg_risk = true;
    assert!(risky.validate(&market(), &token()).expect_err("risk").contains("NegRisk mismatch"));
}

fn entry_spec() -> EntryOrderSpec {
    EntryOrderSpec {
        token_id: token(),
        side: Side::Buy,
        order_type: OrderType::Fak,
        post_only: false,
        limit_price: dec("0.50"),
        amount: OrderAmount::Usd(dec("11")),
        max_slippage_bps: dec("50"),
        maker_rebate_terms: EntryMakerRebateTerms::AggressiveNotApplicable,
        valid_until: at(200),
    }
}

fn exit_policy() -> ExitPolicySpec {
    ExitPolicySpec {
        take_profit_price: Some(dec("0.60")),
        take_profit_pct: None,
        stop_loss_price: None,
        stop_loss_pct: None,
        time_exit_at: None,
        max_hold_secs: None,
        trailing_stop: None,
        thesis_invalidation: None,
        scale_out_targets: Vec::new(),
        settlement_mode: ExitSettlementMode::ExitBeforeResolution,
        redeem_policy: RedeemPolicy::Manual,
        manual_review_at: None,
        entry_reference_price: dec("0.50"),
        entry_composite_score: dec("0.8"),
    }
}

fn intent() -> OrderIntentInfo {
    OrderIntentInfo {
        order_intent_id: 21,
        recommendation_id: 22,
        condition_instance_id: 23,
        execution_account_id: 24,
        model_version_id: 25,
        profile_ref: Ident::new("profile"),
        status: OrderIntentStatus::Approved,
        entry_order: entry_spec(),
        exit_policy: exit_policy(),
        risk_envelope_hash: hash(7),
        expires_at: at(200),
    }
}

fn recommendation() -> RecommendationInfo {
    RecommendationInfo {
        recommendation_id: 22,
        recommendation_report_id: 26,
        status: RecommendationStatus::Active,
        market_id: market(),
        event_id: Ident::new("event"),
        token_id: token(),
        category: Ident::new("politics"),
        outcome_side: OutcomeSide::Yes,
        valid_until: at(200),
        composite_score: dec("0.8"),
        model_version_id: 25,
        trade_plan: None,
    }
}

fn condition() -> ConditionInstance {
    ConditionInstance {
        condition_instance_id: 23,
        recommendation_id: 22,
        artifact_id: 27,
        artifact_hash: hash(8),
        state: EntryConditionState::Qualified,
        revision: 3,
        evaluation_hash: Some(hash(4)),
        input_fingerprint: None,
        continuity_hash: None,
    }
}

fn entry_plan() -> EntryPlan {
    EntryPlan {
        order_policy: EntryOrderPolicy::Aggressive {
            worst_price: dec("0.50"),
            fill_requirement: FillRequirement::AllowPartial,
        },
        trigger: EntryTrigger::Immediate,
        max_slippage_bps: dec("50"),
        valid_from: at(0),
        valid_until: at(200),
        max_book_age_ms: 5_000,
        min_depth_usd: dec("5"),
        maker_rebate_terms: EntryMakerRebateTerms::AggressiveNotApplicable,
    }
}

fn envelope() -> RiskEnvelope {
    RiskEnvelope {
        max_market_exposure_usd: dec("100"),
        max_event_exposure_usd: dec("100"),
        max_category_exposure_usd: dec("100"),
        envelope_hash: hash(7),
    }
}

fn report() -> RecommendationReportInfo {
    RecommendationReportInfo {
        recommendation_report_id: 26,
        status: RecommendationReportStatus::Published,
        runtime_config_version_id: 28,
        model_version_id: 25,
        decision_at: at(0),
        created_at: at(0),
    }
}

fn fill() -> BookWalkFill {
    BookWalkFill {
        outcome: BookWalkOutcome::Filled,
        principal_usd: dec("10"),
        cash_outlay_usd: dec("11"),
        total_fee_usd: dec("1"),
        worst_price: Some(dec("0.50")),
        vwap: Some(dec("0.50")),
        filled_shares: dec("20"),
        account_cash_delta_usd: dec("-11"),
    }
}

fn account() -> AccountSnapshot {
    AccountSnapshot {
        available_usd: dec("50"),
        reserved_usd: dec("20"),
        per_market: Vec::new(),
        per_event: Vec::new(),
        per_category: Vec::new(),
        as_of: at(90),
    }
}

fn book() -> BookSnapshot {
    BookSnapshot {
        best_bid: Some(dec("0.49")),
        best_ask: Some(dec("0.50")),
        timestamp_ms: 99_000,
        version: 4,
    }
}

fn seams() -> AdmissionSeams {
    AdmissionSeams {
        venue_health: VenueHealth::Healthy,
        credentials_ready: true,
        exit_monitor_ready: true,
    }
}

fn quality() -> DataQualitySnapshot {
    DataQualitySnapshot {
        total_tokens: 100,
        insufficient: 0,
        stale: 1,
        ingest_lag_exceeded: false,
        max_ingest_lag_ms: 1_000,
        worst_ingest_lag_ms: 10,
    }
}

fn facts() -> AdmissionFacts {
    AdmissionFacts {
        intent: intent(),
        entry: entry_plan(),
        risk_envelope: envelope(),
        recomputed_envelope_hash: Ok(hash(7)),
        entry_walk: Some(fill()),
        depth_walk: Some(fill()),
        slippage: Some(dec("10")),
        data_quality: quality(),
        seams: seams(),
        settlement_recovery: SettlementRecoveryAdmission::NotRequired,
    }
}

fn context() -> PreparedAdmissionContext {
    PreparedAdmissionContext {
        profile_ref: Ident::new("profile"),
        venue_metadata: metadata(),
        prepared_order: prepared(),
        venue_funding: funding("10000000"),
        account: account(),
        book: book(),
        fee_schedule: fees(),
        maker_rebate_evidence: PitMakerRebateEvidence::NoProgram { terms_hash: hash(6) },
        economic_health: AdmissionEconomicHealth::Missing,
        model_state: AdmissionModelState { route_bound: true, return_model_calibrated: true },
        exposure: AdmissionExposureState { has_blocking_inflight: false, manual_block: false },
        active_version: 28,
    }
}

fn input() -> AdmissionInput {
    build(
        found_sources(),
        facts(),
        context(),
        RuntimeControls {
            mode: QuantRuntimeMode::SemiAuto,
            kill_switch: KillSwitchState::Closed,
            settlement_write_policy: Ident::new("disabled"),
        },
        AdmissionLimits {
            budget_total_usd: dec("100"),
            max_stale_book_ratio_bps: 500,
            max_open_intents: 5,
            max_reserved_usd: dec("60"),
        },
        hash(5),
        at(100),
    )
    .expect("input")
}

/// The first check that does not allow the input, and what it does.
fn blocked_by(input: &AdmissionInput) -> Option<(AdmissionCheckId, AdmissionOutcome)> {
    let decision = evaluate_full(input).expect("decision");
    assert_eq!(decision.trace.len(), ADMISSION_CHECK_COUNT);
    decision
        .trace
        .iter()
        .find(|trace| trace.outcome != AdmissionOutcome::Allow)
        .map(|trace| (trace.check, trace.outcome))
}

#[test]
fn sound_intents_are_admitted() {
    let decision = evaluate(&input()).expect("decision");
    assert!(decision.is_allowed());
    assert_eq!(decision.trace.len(), ADMISSION_CHECK_COUNT);
    assert_eq!(decision.denial_reason, None);
    for (position, trace) in decision.trace.iter().enumerate() {
        assert_eq!(trace.check, admission_check(position));
    }
}

#[test]
fn each_check_blocks_on_its_own_ground() {
    let deny = AdmissionOutcome::Deny;
    let defer = AdmissionOutcome::Defer;

    let mut i = input();
    i.intent.expires_at = at(100);
    assert_eq!(blocked_by(&i), Some((AdmissionCheckId::IntentState, deny)));

    let mut i = input();
    i.recommendation.valid_until = at(99);
    assert_eq!(blocked_by(&i), Some((AdmissionCheckId::RecommendationFreshness, deny)));
    i.recommendation.valid_until = at(200);
    i.entry.valid_from = at(101);
    assert_eq!(blocked_by(&i), Some((AdmissionCheckId::RecommendationFreshness, defer)));

    let mut i = input();
    i.report.status = RecommendationReportStatus::Revoked;
    assert_eq!(blocked_by(&i), Some((AdmissionCheckId::ReportStatus, deny)));

    let mut i = input();
    i.mode = QuantRuntimeMode::AutoExecution;
    assert_eq!(blocked_by(&i), Some((AdmissionCheckId::RuntimeMode, deny)));

    let mut i = input();
    i.settlement_recovery =
        SettlementRecoveryAdmission::Blocked { reason: "no deployment".to_owned() };
    assert_eq!(blocked_by(&i), Some((AdmissionCheckId::SettlementRecovery, deny)));

    let mut i = input();
    i.model_state.route_bound = false;
    assert_eq!(blocked_by(&i), Some((AdmissionCheckId::ModelRouteBinding, deny)));

    let mut i = input();
    i.data_quality.stale = 6;
    assert_eq!(blocked_by(&i), Some((AdmissionCheckId::DataQuality, deny)));

    let mut i = input();
    i.book = Some(BookSnapshot { timestamp_ms: 94_999, ..book() });
    assert_eq!(blocked_by(&i), Some((AdmissionCheckId::BookFreshness, defer)));
    i.book = Some(BookSnapshot { timestamp_ms: 100_001, ..book() });
    assert_eq!(blocked_by(&i), Some((AdmissionCheckId::BookFreshness, deny)));

    let mut i = input();
    i.intent.entry_order.limit_price = dec("0.505");
    assert_eq!(blocked_by(&i), Some((AdmissionCheckId::VenueMetadata, deny)));

    let mut i = input();
    i.condition.state = EntryConditionState::Waiting;
    assert_eq!(blocked_by(&i), Some((AdmissionCheckId::EntryConditionPlan, defer)));
    i.condition.condition_instance_id = 0;
    assert_eq!(blocked_by(&i), Some((AdmissionCheckId::EntryConditionPlan, deny)));

    let mut i = input();
    i.recomputed_envelope_hash = Ok(hash(8));
    assert_eq!(blocked_by(&i), Some((AdmissionCheckId::RiskEnvelopeHash, deny)));

    let mut i = input();
    i.budget_total_usd = dec("18");
    assert_eq!(blocked_by(&i), Some((AdmissionCheckId::CapitalBudget, deny)));

    let mut i = input();
    i.open_intent_count = 6;
    assert_eq!(blocked_by(&i), Some((AdmissionCheckId::MaxOpenIntents, deny)));

    let mut i = input();
    i.max_reserved_usd = dec("19");
    assert_eq!(blocked_by(&i), Some((AdmissionCheckId::MaxReservedCapital, deny)));

    let mut i = input();
    i.account.per_market = vec![ExposureEntry { key: market(), usd: dec("91") }];
    assert_eq!(blocked_by(&i), Some((AdmissionCheckId::MarketExposure, deny)));

    let mut i = input();
    i.account.per_event = vec![ExposureEntry { key: Ident::new("event"), usd: dec("91") }];
    assert_eq!(blocked_by(&i), Some((AdmissionCheckId::EventExposure, deny)));

    let mut i = input();
    i.account.per_category = vec![ExposureEntry { key: Ident::new("politics"), usd: dec("91") }];
    assert_eq!(blocked_by(&i), Some((AdmissionCheckId::CategoryExposure, deny)));

    let mut i = input();
    i.depth_walk = None;
    assert_eq!(blocked_by(&i), Some((AdmissionCheckId::LiquidityDepth, defer)));

    let mut i = input();
    i.slippage = Some(dec("50.1"));
    assert_eq!(blocked_by(&i), Some((AdmissionCheckId::Slippage, deny)));

    let mut i = input();
    i.exposure.manual_block = true;
    assert_eq!(blocked_by(&i), Some((AdmissionCheckId::ManualBlock, deny)));

    let mut i = input();
    i.kill_switch = KillSwitchState::ExitOnly;
    assert_eq!(blocked_by(&i), Some((AdmissionCheckId::KillSwitch, deny)));

    let mut i = input();
    i.seams.venue_health = VenueHealth::Degraded { reason: "slow".to_owned() };
    assert_eq!(blocked_by(&i), Some((AdmissionCheckId::VenueGuard, defer)));

    let mut i = input();
    i.seams.credentials_ready = false;
    assert_eq!(blocked_by(&i), Some((AdmissionCheckId::CredentialReadiness, deny)));

    let mut i = input();
    i.seams.exit_monitor_ready = false;
    assert_eq!(blocked_by(&i), Some((AdmissionCheckId::ExitMonitorReadiness, deny)));

    let mut i = input();
    i.model_state.return_model_calibrated = false;
    assert_eq!(blocked_by(&i), Some((AdmissionCheckId::CalibratedReturnModel, deny)));
}

#[test]
fn short_evaluation_stops_at_the_denial() {
    let mut i = input();
    i.report.status = RecommendationReportStatus::Revoked;
    let short = evaluate(&i).expect("decision");
    let full = evaluate_full(&i).expect("decision");
    assert_eq!(short.trace.len(), 3);
    assert_eq!(full.trace.len(), ADMISSION_CHECK_COUNT);
    assert_eq!(short.outcome, full.outcome);
    assert_eq!(short.denial_reason, full.denial_reason);
    assert!(short.denial_reason.expect("reason").contains("source report status revoked"));
}

#[test]
fn figures_out_of_range_are_an_error() {
    let mut i = input();
    i.account.available_usd = dec("79228162514264337593543950335");
    assert!(matches!(evaluate(&i), Err(ExecutionError::DecimalOverflow)));
}

#[test]
fn provenance_is_frozen() {
    let StateVersion { config_version_id, book_version, admission_evidence_hash, .. } =
        input().state_version;
    assert_eq!(config_version_id, 28);
    assert_eq!(book_version, Some(4));
    assert_eq!(admission_evidence_hash, hash(5));
    assert_eq!(elapsed_ms(u128::MAX), u64::MAX);
    assert_eq!(timestamp_ms(at(1)), Ok(1_000));
    assert!(matches!(timestamp_ms(at(-1)), Err(ExecutionError::TimeConversion { .. })));
}

#[test]
fn verdicts_follow_the_decision() {
    let allowed = evaluate(&input()).expect("decision");
    assert!(matches!(admission_verdict(&allowed), AdmissionVerdict::Claim));
    let claim = build_claim(21, &condition(), hash(9), at(100));
    assert_eq!(claim.order_intent_id, 21);
    assert_eq!(claim.expected_revision, 3);
    assert_eq!(claim.admission_state_version, hash(9));
    assert_eq!(claim.claimed_at, at(100));
    let mut waiting = input();
    waiting.condition.state = EntryConditionState::Waiting;
    let deferred = evaluate(&waiting).expect("decision");
    assert!(deferred.is_deferred());
    assert!(matches!(
        admission_verdict(&deferred),
        AdmissionVerdict::Defer { refusal: ExecutionError::AdmissionDeferred { .. } }
    ));
    let mut revoked = input();
    revoked.report.status = RecommendationReportStatus::Revoked;
    let denied = evaluate(&revoked).expect("decision");
    assert!(denied.is_denied());
    assert!(matches!(
        admission_verdict(&denied),
        AdmissionVerdict::Reject { refusal: ExecutionError::AdmissionDenied { .. }, .. }
    ));
}

fn preparation() -> EntryOrderPreparation {
    EntryOrderPreparation {
        profile_ref: Ident::new("profile"),
        spec: entry_spec(),
        fee_schedule: fees(),
        maker_rebate_evidence: PitMakerRebateEvidence::NoProgram { terms_hash: hash(6) },
        venue_metadata: metadata(),
        now: at(100),
    }
}

fn replies() -> PreparationReplies {
    PreparationReplies {
        schedule_defect: None,
        rules_defect: None,
        budget_walk: Ok(fill()),
        canonical: Ok(CanonicalOrderAmounts {
            venue_amount: VenueOrderAmount::PrincipalUsd(dec("10")),
            requested_shares: dec("20"),
            principal_usd: dec("10"),
        }),
        share_walk: Ok(fill()),
        book_hash: hash(3),
    }
}

#[test]
fn walks_are_asked_for_with_the_order_terms() {
    let walk = preparation().open(&None, &None).expect("opened").expect("budget walk");
    assert_eq!(walk.amount, OrderAmount::Usd(dec("11")));
    assert_eq!(walk.limit_price, entry_spec().limit_price);
    assert_eq!(walk.requirement, preparation().requirement());
    assert_eq!(walk.schedule.schedule_hash, hash(9));
    assert_eq!(walk.at, at(100));

    let shares = preparation().share_walk(&replies().canonical).expect("share walk");
    assert_eq!(shares.amount, OrderAmount::Shares(dec("20")));
    assert!(preparation().share_walk(&Err("tick".to_owned())).is_none());

    let mut resting = preparation();
    resting.spec.amount = OrderAmount::Shares(dec("20"));
    resting.spec.post_only = true;
    assert!(resting.share_walk(&replies().canonical).is_none());
}

#[test]
fn entries_are_prepared_within_their_budget() {
    let order = preparation().prepare(&replies()).expect("order");
    assert_eq!(order.cash_budget, Some(dec("11")));
    assert!(order.expected_fee.same(dec("1")));
    assert!(order.total_cash_delta.same(dec("-11")));
    assert_eq!(order.book_hash, hash(3));

    let mut dear = replies();
    dear.share_walk = Ok(BookWalkFill { cash_outlay_usd: dec("11.01"), ..fill() });
    assert_eq!(
        preparation().prepare(&dear).expect_err("dear"),
        ExecutionError::IntentDenied {
            reason: "canonical BUY exceeds governed cash budget".to_owned()
        }
    );

    let mut sale = preparation();
    sale.spec.side = Side::Sell;
    assert_eq!(
        sale.prepare(&replies()).expect_err("sale"),
        ExecutionError::IntentDenied { reason: "opening entry must be a BUY".to_owned() }
    );

    let mut ruled = replies();
    ruled.rules_defect = Some("minimum".to_owned());
    assert_eq!(
        preparation().prepare(&ruled).expect_err("rules"),
        ExecutionError::IntentDenied {
            reason: "live venue order rules are invalid: minimum".to_owned()
        }
    );

    let mut resting = preparation();
    resting.spec.order_type = OrderType::Gtc;
    assert_eq!(
        resting.prepare(&replies()).expect_err("resting"),
        ExecutionError::IntentDenied {
            reason: "cash-budget BUY is valid only for FOK/FAK".to_owned()
        }
    );

    let mut empty = replies();
    empty.budget_walk = Ok(BookWalkFill { outcome: BookWalkOutcome::Unfilled, ..fill() });
    assert!(preparation().prepare(&empty).is_err());
}

#[test]
fn passive_entries_keep_their_terms() {
    let mut passive = preparation();
    passive.spec.post_only = true;
    passive.spec.order_type = OrderType::Gtc;
    passive.spec.amount = OrderAmount::Shares(dec("20"));
    passive.spec.maker_rebate_terms =
        EntryMakerRebateTerms::PassiveNoProgram { terms_hash: hash(6), available_at: at(50) };
    let order = passive.prepare(&replies()).expect("order");
    assert!(order.expected_fee.is_zero());
    assert!(order.total_cash_delta.same(dec("-10")));
    passive.maker_rebate_evidence = PitMakerRebateEvidence::NoProgram { terms_hash: hash(7) };
    assert_eq!(
        passive.prepare(&replies()).expect_err("drifted"),
        ExecutionError::IntentDenied {
            reason: "entry route and maker-rebate terms are not admissible".to_owned()
        }
    );
}

fn info(version_id: u128) -> ClobMarketInfo {
    ClobMarketInfo {
        version_id,
        market_id: market(),
        tokens: vec![token(), Ident::new("token-2")],
        tick_size: TickSize::Hundredth,
        minimum_order_size: dec("5"),
        neg_risk: false,
        effective_at: at(0),
        available_at: at(0),
        payload_hash: hash(1),
        defect: None,
    }
}

fn sources() -> SourceReplies {
    SourceReplies {
        report: Some(report()),
        market_status: Some(MarketStatus::Active),
        frozen_clob_market_info: Some(info(1)),
        current_clob_market_info: Some(info(2)),
        active_version: Some(28),
        has_catalog_market: true,
        has_unresolvable: false,
        has_ambiguous_inflight: true,
        allocated_usd: Some(dec("11")),
        open_intent_count: 1,
    }
}

fn subject() -> AdmissionSubject {
    require_subject(&intent(), Some(recommendation()), Some(condition())).expect("subject")
}

fn found_sources() -> AdmissionSources {
    require_sources(subject(), sources()).expect("sources")
}

#[test]
fn sources_have_to_be_complete() {
    assert!(matches!(
        require_subject(&intent(), None, None),
        Err(BuildRefusal::Missing { entity, id })
            if entity == "recommendation" && id == "00000000-0000-0000-0000-000000000016"
    ));
    assert!(matches!(
        require_subject(&intent(), Some(recommendation()), None),
        Err(BuildRefusal::Missing { entity, id })
            if entity == "entry_condition_instance" && id == "00000000-0000-0000-0000-000000000017"
    ));
    let mut unreported = sources();
    unreported.report = None;
    assert!(matches!(
        require_sources(subject(), unreported),
        Err(BuildRefusal::Missing { entity, .. }) if entity == "recommendation_report"
    ));
    let found = found_sources();
    assert!(found.exposure.has_blocking_inflight);
    assert_eq!(found.active_version, 28);
    let mut marketless = sources();
    marketless.market_status = None;
    assert!(matches!(
        require_sources(subject(), marketless),
        Err(BuildRefusal::Missing { entity, id }) if entity == "market" && id == "0xmarket"
    ));
    let mut unobserved = sources();
    unobserved.current_clob_market_info = None;
    assert!(matches!(
        require_sources(subject(), unobserved),
        Err(BuildRefusal::Refused(ExecutionError::IntentDenied { .. }))
    ));
    assert!(matches!(
        not_found("order_intent", 1),
        BuildRefusal::Missing { id, .. } if id == "00000000-0000-0000-0000-000000000001"
    ));
}

fn context_replies() -> ContextReplies {
    ContextReplies {
        opening: OpeningReplies {
            catalog: Ok(CatalogMarket {
                market_id: market(),
                token_yes: token(),
                token_no: Ident::new("token-2"),
                status: MarketStatus::Active,
                filter_reasons: Vec::new(),
            }),
            economics: Ok((fees(), PitMakerRebateEvidence::NoProgram { terms_hash: hash(6) })),
            model_version: Some(ModelVersionInfo {
                model_version_id: 25,
                trade_policy_artifact_id: Some(1),
            }),
            profile_ref: Ident::new("profile"),
            latest_health: None,
            freshness_secs: 60,
            routing: ModelRouting { champions: vec![25], active_exit_model: None },
            calibration_resolves: true,
            book: Ok(book()),
        },
        preparation: replies(),
        funding: funding("10000000"),
        account: account(),
    }
}

#[test]
fn contexts_are_prepared_from_live_facts() {
    let sources = found_sources();
    let live = VenueOrderMetadata {
        market_id: market(),
        token_id: token(),
        tick_size: TickSize::Hundredth,
        minimum_order_size: dec("5"),
        neg_risk: false,
    };
    let context = prepare_execution_context(
        &intent(),
        &sources,
        &live,
        context_replies(),
        at(100),
    )
    .expect("context");
    assert!(context.model_state.route_bound);
    assert_eq!(context.venue_metadata.current_version_id, 2);

    let mut modelless = context_replies();
    modelless.opening.model_version = None;
    assert_eq!(
        prepare_execution_context(&intent(), &sources, &live, modelless, at(100))
            .expect_err("model"),
        ExecutionError::IntentDenied {
            reason: "intent model version no longer exists".to_owned()
        }
    );
    let mut bookless = context_replies();
    bookless.opening.book = Err("stale".to_owned());
    assert_eq!(
        prepare_execution_context(&intent(), &sources, &live, bookless, at(100))
            .expect_err("book"),
        ExecutionError::IntentDenied {
            reason: "cannot prepare entry without a fresh PIT L2 book: stale".to_owned()
        }
    );

    assert_eq!(entry_collateral(&funding("10000000")), Ok(dec("100")));
    let mut uncollateralized = context_replies();
    uncollateralized.funding.snapshot.human_balance = VenueFundingBalance::Conditional(dec("100"));
    assert_eq!(
        prepare_execution_context(&intent(), &sources, &live, uncollateralized, at(100))
            .expect_err("collateral"),
        ExecutionError::IntentDenied {
            reason: "entry funding evidence does not carry collateral balance".to_owned()
        }
    );
}

#[test]
fn economic_health_goes_stale() {
    let health = || {
        Some(RouteEconomicHealth {
            route_economic_health_id: 1,
            evidence_hash: hash(1),
            state: Ident::new("healthy"),
            assessed_through: at(40),
        })
    };
    assert!(matches!(
        resolve_economic_health(health(), 60, at(100)),
        Ok(AdmissionEconomicHealth::Present { fresh: true, .. })
    ));
    assert!(matches!(
        resolve_economic_health(health(), 59, at(100)),
        Ok(AdmissionEconomicHealth::Present { fresh: false, .. })
    ));
    assert!(resolve_economic_health(health(), u64::MAX, at(100)).is_err());
}

#[test]
fn redemption_needs_a_settlement_route() {
    assert_eq!(settlement_recovery_route(false, &metadata()), None);
    assert_eq!(
        settlement_recovery_route(true, &metadata()),
        Some(SettlementRoute::StandardV2)
    );
    let mut risky = metadata();
    risky.current_neg_risk = true;
    assert_eq!(settlement_recovery_route(true, &risky), Some(SettlementRoute::NegRiskV2));
}

#[test]
fn only_live_authorized_intents_are_submitted() {
    assert!(ensure_submittable(&intent(), at(199)).is_ok());
    assert_eq!(
        ensure_submittable(&intent(), at(200)),
        Err(ExecutionError::NotSubmittable { intent_id: 21, state: "expired".to_owned() })
    );
    let mut pending = intent();
    pending.status = OrderIntentStatus::PendingApproval;
    assert_eq!(
        ensure_submittable(&pending, at(0)),
        Err(ExecutionError::NotSubmittable {
            intent_id: 21,
            state: "pending_approval".to_owned()
        })
    );
}

fn answer(outcome: VenueOutcome) -> VenueSubmitResult {
    VenueSubmitResult {
        outcome,
        venue_order_id: Some(Ident::new("venue-1")),
        venue_status: Some("matched".to_owned()),
        reconciliation_result: ReconciliationResult::Pending,
        identity_refs: Ident::new("refs"),
        filled_shares: dec("20"),
        avg_fill_price: Some(dec("0.50")),
        expected_fee: dec("1"),
        observed_fee: None,
        fee_evidence: Ident::new("fee"),
        submitted_at: Some(at(101)),
        responded_at: at(102),
        detail: Some("no liquidity".to_owned()),
    }
}

fn order_info() -> ExecutionOrderInfo {
    ExecutionOrderInfo {
        execution_order_id: 31,
        order_intent_id: 21,
        price: dec("0.50"),
        total_cash_delta: dec("-11"),
        state: ExecutionOrderState::Submitted,
    }
}

#[test]
fn capital_follows_the_venues_answer() {
    let write = |outcome: VenueOutcome| {
        build_ledger_write(
            32,
            &answer(outcome),
            &recommendation(),
            &entry_spec(),
            &order_info(),
            24,
        )
        .expect("write")
    };
    let filled = write(VenueOutcome::Filled);
    let spent = match filled.capital {
        CapitalSettlement::SettleFull { spent_usd } => spent_usd,
        other => panic!("unexpected {other:?}"),
    };
    let lot = filled.fill.expect("fill");
    assert!(lot.cost_usd.same(spent));
    assert_eq!(filled.filled_at, Some(at(102)));
    assert_eq!(filled.intent_status, OrderIntentStatus::Filled);

    let rejected = write(VenueOutcome::Rejected);
    assert_eq!(rejected.capital, CapitalSettlement::ReleaseAll);
    assert!(rejected.fill.is_none());
    assert_eq!(rejected.error_message.as_deref(), Some("no liquidity"));

    let ambiguous = write(VenueOutcome::Ambiguous);
    assert_eq!(ambiguous.capital, CapitalSettlement::Hold);
    assert_eq!(ambiguous.state, ExecutionOrderState::Ambiguous);
    assert!(ambiguous.reconciliation.is_some());

    let open = write(VenueOutcome::Open);
    assert_eq!(open.capital, CapitalSettlement::Hold);
    assert!(open.reconciliation.is_none());
}

#[test]
fn order_rows_carry_the_prepared_order() {
    let mut resting = entry_spec();
    resting.order_type = OrderType::Gtd { expiration: 300 };
    let row = build_new_execution_order(31, &intent(), &recommendation(), &resting, &prepared())
        .expect("row");
    assert_eq!(row.execution_order_id, 31);
    assert_eq!(row.gtd_expiration_at, Some(at(300)));
    assert!(row.shares.same(dec("20")));
    assert_eq!(row.state, ExecutionOrderState::Submitted);
    resting.order_type = OrderType::Gtd { expiration: u64::MAX };
    assert!(matches!(
        build_new_execution_order(31, &intent(), &recommendation(), &resting, &prepared()),
        Err(ExecutionError::TimeConversion { .. })
    ));
}

#[test]
fn the_venue_is_called_after_the_write_ahead() {
    let mut step = SubmissionStep::CheckParity;
    let mut steps = Vec::new();
    while step != SubmissionStep::Succeeded {
        steps.push(step);
        step = next_submission_step(step, true);
    }
    let place = |wanted: SubmissionStep| {
        steps.iter().position(|taken| *taken == wanted).expect("step")
    };
    assert!(place(SubmissionStep::Claim) < place(SubmissionStep::WriteAhead));
    assert!(place(SubmissionStep::WriteAhead) < place(SubmissionStep::CallVenue));
    assert_eq!(next_submission_step(SubmissionStep::CheckParity, false), SubmissionStep::Failed);
}

#[test]
fn ambiguous_answers_count_against_the_venue() {
    let ambiguous = submission_effects(&answer(VenueOutcome::Ambiguous), "fallback");
    assert!(!ambiguous.venue_ok && !ambiguous.counts_fill);
    assert_eq!(ambiguous.breaker_detail, "no liquidity");
    let mut silent = answer(VenueOutcome::Filled);
    silent.detail = None;
    let filled = submission_effects(&silent, "fallback");
    assert!(filled.venue_ok && filled.counts_fill);
    assert_eq!(filled.breaker_detail, "fallback");
}

#[test]
fn claim_conflicts_are_not_submittable() {
    let refused = |error: StorageError| match submission_storage_failure(21, error) {
        Ok(ExecutionError::NotSubmittable { state, .. }) => state,
        other => panic!("unexpected {other:?}"),
    };
    assert_eq!(
        refused(StorageError::IllegalTransition {
            entity: "order_intent".to_owned(),
            from: "filled".to_owned(),
            to: "submitted".to_owned(),
        }),
        "illegal transition on order_intent: filled -> submitted"
    );
    assert_eq!(
        refused(StorageError::StateConflict {
            entity: "condition".to_owned(),
            detail: "revision moved".to_owned(),
        }),
        "condition: revision moved"
    );
    assert_eq!(
        refused(StorageError::Duplicate {
            entity: "order".to_owned(),
            key: "31".to_owned(),
        }),
        "order already exists: 31"
    );
    assert_eq!(
        refused(StorageError::InvariantViolation { detail: "no lock".to_owned() }),
        "no lock"
    );
    let backend = StorageError::Backend { detail: "down".to_owned() };
    assert_eq!(
        submission_storage_failure(21, backend),
        Err(StorageError::Backend { detail: "down".to_owned() })
    );
}

#[test]
fn no_visible_cash_keeps_the_walks_zero() {
    let mut i = input();
    let mut nothing = fill();
    nothing.account_cash_delta_usd = dec("0.00");
    i.depth_walk = Some(nothing);
    let decision = evaluate_full(&i).expect("decision");
    let trace = decision
        .trace
        .iter()
        .find(|trace| trace.check == AdmissionCheckId::LiquidityDepth)
        .expect("trace");
    assert_eq!(trace.actual.as_deref(), Some("-0.00"));
}
