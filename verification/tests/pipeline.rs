use quant_pivot_execution::alerts::{AlertCategory, AlertLevel, AlertSource};
use quant_pivot_execution::attribution::{
    build_expired_unfilled, build_from_intent, entry_anchor_price, favorable_excursion_bps,
    latest_filled_exit_order, mirror_attribution_event, realized_settlement_outcome,
    AttributedIntent, AttributedOrder, AttributedPosition, AttributedReconciliation,
    AttributionFacts, AttributionPass, Consideration, PositionState,
    RecommendationAttributionOutcome, RecommendationOutcome,
};
use quant_pivot_execution::decimal::Decimal;
use quant_pivot_execution::execution_pipeline::{
    begin_observation, build_factor_context, build_pending_trade, build_probability_input,
    check_context, execution_quality_violation, max_context_age, next_pipeline_step,
    observe_outcome, record_risk_denial, release_failure, settle_reservation,
    snapshot_with_context, terminal_context_stage, traded_token, validate_and_size,
    BookDecisionContextSummary, BookDecisionStage, DenialMetric, EmergencyClass, ExecutionMode,
    ExecutionOutcome, ExecutionPlan, ExecutionQualityFactor, FactorTrace, FactorVerdict,
    ObserveReply, ObserveStep, Opportunity, PipelineStep, PublishedFactors, Rejection,
    ReservationAction, RiskDecision, ScoredBooks, SizingFacts, SizingOutcome, StepReply,
};
use quant_pivot_execution::exit_monitor::ExitReason;
use quant_pivot_execution::heartbeat::{
    after_probe, probe_event, probe_interval, probes, warn_live_without_publication,
    HeartbeatAction, HeartbeatEvent,
};
use quant_pivot_execution::lifecycle::{publish_transition, transition, ExecutionOrderEvent};
use quant_pivot_execution::orders::{ExecutionOrderPhase, ExecutionOrderState, OrderIntentStatus};
use quant_pivot_execution::time::Timestamp;
use quant_pivot_execution::types::{Ident, Side};

fn dec(text: &str) -> Decimal {
    Decimal::parse(text).expect("decimal")
}

fn at(seconds: i64) -> Timestamp {
    Timestamp::new(seconds, 0).expect("time")
}

fn summary(eligible: bool) -> BookDecisionContextSummary {
    BookDecisionContextSummary {
        context_id: Ident::new("context"),
        yes_book_age_ms: Some(10),
        no_book_age_ms: Some(30),
        production_eligible: eligible,
    }
}

fn books() -> ScoredBooks {
    ScoredBooks {
        token_yes: Ident::new("yes"),
        token_no: Ident::new("no"),
        book_yes_version: 1,
        book_no_version: 2,
    }
}

#[test]
fn contexts_carry_the_older_book() {
    assert_eq!(max_context_age(&summary(true)), Some(30));
    let context = snapshot_with_context(&books(), &summary(true));
    assert_eq!(context.max_age_ms, Some(30));
    assert_eq!(context.context_id, Some(Ident::new("context")));
    assert_eq!(traded_token(&books(), false), &Ident::new("no"));
    assert_eq!(
        terminal_context_stage(ExecutionOutcome::Miss),
        Some(BookDecisionStage::OrderMissed)
    );
    assert_eq!(terminal_context_stage(ExecutionOutcome::Unknown), None);
}

#[test]
fn live_orders_need_a_written_eligible_context() {
    let live = ExecutionMode::Live;
    assert_eq!(check_context(live, &Some(summary(true)), true, true), None);
    let reason = |rejection: Option<Rejection>| rejection.expect("rejection").reason;
    assert_eq!(reason(check_context(live, &None, true, true)), "book pair unavailable");
    assert_eq!(
        reason(check_context(live, &Some(summary(true)), false, true)),
        "book decision context writer unavailable"
    );
    assert_eq!(
        reason(check_context(live, &Some(summary(false)), true, true)),
        "book decision context is insufficient for Live order admission"
    );
    assert_eq!(check_context(ExecutionMode::DryRun, &Some(summary(false)), false, true), None);
}

fn risk(allowed: bool, usd: &str) -> RiskDecision {
    RiskDecision { allowed, denial_reason: None, recommended_usd: Some(dec(usd)) }
}

fn facts() -> SizingFacts {
    SizingFacts {
        publication_id: Some(Ident::new("publication")),
        detection_factors: vec![Ident::new("detection")],
        validation: Ok(dec("10")),
        quality: None,
        depth_used_pct: dec("10"),
        execution_factors: vec![Ident::new("execution")],
        risk: risk(true, "25"),
        fee_preview: Ok(dec("0.1")),
        sized_risk: risk(true, "25"),
    }
}

#[test]
fn admitted_opportunities_are_sized() {
    match validate_and_size(facts()).expect("outcome") {
        SizingOutcome::Sized(sized) => {
            assert!(sized.approved_usd.same(dec("25")));
            assert_eq!(
                sized.trace.applied,
                vec![Ident::new("detection"), Ident::new("execution")]
            );
        }
        other => panic!("unexpected {other:?}"),
    }
}

#[test]
fn each_sizing_denial_has_its_stage() {
    let denied = |facts: SizingFacts| match validate_and_size(facts).expect("outcome") {
        SizingOutcome::Denied { denial, shadowed } => (denial.rejection.stage, denial.metric, shadowed),
        other => panic!("unexpected {other:?}"),
    };
    let mut invalid = facts();
    invalid.validation = Err("edge gone".to_owned());
    assert_eq!(denied(invalid), ("validation", DenialMetric::ValidationFailure, false));
    let mut deep = facts();
    deep.quality = Some(ExecutionQualityFactor {
        max_depth_usage_pct: Some(dec("0.05")),
        effective_limit: dec("100"),
    });
    assert_eq!(denied(deep), ("factor_validation", DenialMetric::FactorValidation, false));
    let mut risky = facts();
    risky.risk = risk(false, "25");
    assert_eq!(denied(risky).0, "risk");
    let mut nothing = facts();
    nothing.risk = risk(true, "0");
    assert_eq!(denied(nothing), ("sizing", DenialMetric::SizingZero, false));
    let mut unquoted = facts();
    unquoted.fee_preview = Err("no schedule".to_owned());
    assert_eq!(denied(unquoted), ("fee_quote", DenialMetric::ValidationFailure, true));
    let mut late = facts();
    late.sized_risk = risk(false, "25");
    assert_eq!(denied(late).0, "risk");
}

#[test]
fn quality_limits_are_explained() {
    let factor = ExecutionQualityFactor {
        max_depth_usage_pct: Some(dec("0.05")),
        effective_limit: dec("20"),
    };
    assert_eq!(
        execution_quality_violation(Some(factor), dec("10"), dec("1")),
        Ok(Some("execution-quality depth usage 0.10 exceeds factor cap 0.05".to_owned()))
    );
    assert!(execution_quality_violation(Some(factor), dec("5"), dec("21"))
        .expect("check")
        .is_some());
    assert_eq!(execution_quality_violation(Some(factor), dec("5"), dec("20")), Ok(None));
    assert_eq!(execution_quality_violation(None, dec("99"), dec("99")), Ok(None));
    let denial = record_risk_denial(
        RiskDecision {
            allowed: false,
            denial_reason: Some("exposure".to_owned()),
            recommended_usd: None,
        },
        FactorTrace { publication_id: None, applied: Vec::new() },
    );
    assert_eq!(denial.rejection.stage, "risk");
}

#[test]
fn factor_contexts_default_to_one() {
    let verdict = |source: Option<&str>| FactorVerdict {
        decision: "pass".to_owned(),
        source: source.map(Ident::new),
    };
    let context = build_factor_context(
        Some(PublishedFactors {
            publication_id: Ident::new("publication"),
            expired: false,
            reconciliation_health: verdict(Some("health")),
            market_anomaly: verdict(None),
            portfolio_risk: verdict(Some("risk")),
            bucket_size_multiplier: None,
        }),
        true,
    )
    .expect("context");
    assert!(context.bucket_size_multiplier.same(dec("1")));
    assert!(context.fail_closed);
    assert_eq!(context.applied_factors, vec![Ident::new("health"), Ident::new("risk")]);
    assert!(build_factor_context(None, true).is_none());
}

#[test]
fn the_pipeline_ends_at_the_venue() {
    let mut step = PipelineStep::Admit;
    let mut taken = 0;
    while step != PipelineStep::CallVenue {
        step = next_pipeline_step(step, StepReply::Done, true);
        taken += 1;
    }
    assert_eq!(taken, 11);
}

#[test]
fn giving_up_releases_what_was_reserved() {
    let abort = |step: PipelineStep, reply: StepReply| match next_pipeline_step(step, reply, true) {
        PipelineStep::Aborted(abort) => abort,
        other => panic!("unexpected {other:?}"),
    };
    let halted = abort(PipelineStep::Admit, StepReply::Declined);
    assert!(!halted.release);
    assert_eq!(halted.rejection.stage, "halted");
    let unreserved = abort(PipelineStep::Reserve, StepReply::Failed("empty".to_owned()));
    assert!(!unreserved.release && unreserved.reservation_failure);
    let unplanned = abort(PipelineStep::BuildPlan, StepReply::Failed("quote".to_owned()));
    assert!(unplanned.release && unplanned.audit);
    assert_eq!(unplanned.rejection.reason, "quote");
    let unmarked = abort(PipelineStep::MarkSubmitted, StepReply::Declined);
    assert!(unmarked.release);
    assert_eq!(
        unmarked.emergency,
        Some((EmergencyClass::PersistenceFault, "mark submitted skipped"))
    );
    assert_eq!(release_failure().0, EmergencyClass::ReservationFault);
}

#[test]
fn unknown_outcomes_are_reconciled() {
    assert_eq!(settle_reservation(ExecutionOutcome::Miss), ReservationAction::Release);
    assert_eq!(settle_reservation(ExecutionOutcome::Unknown), ReservationAction::Keep);
    let mut step = begin_observation(ExecutionOutcome::Unknown, false);
    let mut steps = Vec::new();
    while step != ObserveStep::Done {
        steps.push(step);
        step = observe_outcome(step, ObserveReply::Done);
    }
    assert_eq!(
        steps,
        vec![ObserveStep::MarkOrphaned, ObserveStep::PinReservation, ObserveStep::WakeReconciler]
    );
    assert!(matches!(
        observe_outcome(ObserveStep::MarkObserved, ObserveReply::Failed),
        ObserveStep::Emergency { reason: "mark observed failed", .. }
    ));
    assert!(matches!(
        begin_observation(ExecutionOutcome::Filled, false),
        ObserveStep::Emergency { .. }
    ));
}

#[test]
fn trades_are_recorded_before_submission() {
    let plan = ExecutionPlan {
        execution_id: Ident::new("execution"),
        reservation_id: Ident::new("reservation"),
        shares: dec("10"),
        limit_price: dec("0.5"),
        estimated_cost: dec("5"),
        estimated_fee: dec("0.1"),
        category: "crypto".to_owned(),
    };
    let opportunity = Opportunity {
        opportunity_id: Ident::new("opportunity"),
        market_id: Ident::new("market"),
        event_id: Ident::new("event"),
        token_id: Ident::new("token"),
        side: Side::Buy,
        edge_bps: dec("40"),
        expected_net_profit: dec("0.2"),
    };
    let trade = build_pending_trade(
        Ident::new("trade"),
        &plan,
        &opportunity,
        Ok("{}".to_owned()),
        ExecutionMode::Live,
    )
    .expect("trade");
    assert!(trade.cost_usd.same(dec("5")));
    assert_eq!(trade.detected_edge_bps, Some(dec("40")));
    assert!(build_pending_trade(
        Ident::new("trade"),
        &plan,
        &opportunity,
        Err("bad".to_owned()),
        ExecutionMode::Live
    )
    .is_err());
    let probability = build_probability_input(dec("0.6"), dec("0.9"), dec("0.8"), 12);
    assert!(probability.expected_slippage_pct.same(dec("0.005")));
    assert!(probability.expected_failure_cost_pct.same(dec("0.002")));
    assert_eq!(probability.sample_size, 12);
}

fn order(id: u128, phase: ExecutionOrderPhase, filled_at: i64) -> AttributedOrder {
    AttributedOrder {
        execution_order_id: id,
        order_phase: phase,
        state: ExecutionOrderState::Filled,
        blocks_attribution: false,
        price: dec("0.5"),
        shares: dec("10"),
        filled_at: Some(at(filled_at)),
        updated_at: at(filled_at),
    }
}

fn position(state: PositionState) -> AttributedPosition {
    AttributedPosition {
        state,
        avg_price: dec("0.4"),
        realized_pnl_usd: dec("1.5"),
        closed_at: Some(at(30)),
    }
}

fn ledger() -> AttributionFacts {
    AttributionFacts {
        intent: AttributedIntent {
            recommendation_id: 1,
            status: OrderIntentStatus::Filled,
            exit_reason: Some(ExitReason::TakeProfit),
            entry_slippage_bps: Some(dec("3")),
            peak_spread_bps: Some(dec("120")),
        },
        attributable: true,
        orders: vec![
            order(1, ExecutionOrderPhase::Entry, 10),
            order(2, ExecutionOrderPhase::Exit, 20),
            order(3, ExecutionOrderPhase::Exit, 25),
        ],
        position: Some(position(PositionState::Closed)),
        reconciliations: Vec::new(),
    }
}

#[test]
fn closed_ledgers_are_attributed() {
    let row = build_from_intent(&ledger(), at(40)).expect("row");
    assert_eq!(row.outcome, RecommendationAttributionOutcome::FilledExited);
    assert!(row.realized_pnl_usd.expect("profit").same(dec("1.5")));
    assert!(row.detail.hit_take_profit && !row.detail.hit_stop_loss);
    assert_eq!(row.max_favorable_excursion_bps, Some(dec("120")));
    assert_eq!(row.label_available_at, Some(at(40)));
    assert_eq!(latest_filled_exit_order(&ledger().orders), Some(2));
    let event = mirror_attribution_event(&row, at(39), at(41));
    assert_eq!(event.event_time, 39_000);
    assert_eq!(event.label_available_at, 40_000);
    assert!(event.realized_pnl_usd.same(dec("1.5")));
}

#[test]
fn open_ledgers_wait() {
    let mut open = ledger();
    open.position = Some(position(PositionState::Open));
    assert!(build_from_intent(&open, at(40)).is_none());
    let mut unreconciled = ledger();
    unreconciled.reconciliations = vec![AttributedReconciliation {
        execution_order_id: 1,
        blocks_final_attribution: true,
        venue_avg_price: None,
        venue_filled_shares: None,
    }];
    assert!(build_from_intent(&unreconciled, at(40)).is_none());
    let mut live = ledger();
    live.orders[1].blocks_attribution = true;
    assert!(build_from_intent(&live, at(40)).is_none());
}

#[test]
fn unfilled_intents_end_by_their_status() {
    let mut expired = ledger();
    expired.orders = Vec::new();
    expired.position = None;
    expired.intent.status = OrderIntentStatus::Expired;
    let row = build_from_intent(&expired, at(40)).expect("row");
    assert_eq!(row.outcome, RecommendationAttributionOutcome::ExpiredUnfilled);
    assert_eq!(row.detail.note, "unfilled_terminal_intent_status=expired");
    let never = build_expired_unfilled(9, at(40));
    assert_eq!(never.recommendation_id, 9);
    assert_eq!(
        never.exit_outcome.settlement_outcome,
        Some(RecommendationOutcome::ExpiredUnfilled)
    );
}

#[test]
fn attribution_figures_have_their_defaults() {
    assert_eq!(realized_settlement_outcome(dec("0.1")), RecommendationOutcome::Won);
    assert_eq!(realized_settlement_outcome(dec("-0.1")), RecommendationOutcome::Lost);
    assert_eq!(realized_settlement_outcome(dec("0")), RecommendationOutcome::Unknown);
    assert_eq!(favorable_excursion_bps(Some(dec("-1"))), None);
    let mut unpriced = position(PositionState::Closed);
    unpriced.avg_price = dec("0");
    let entry = order(1, ExecutionOrderPhase::Entry, 10);
    assert!(entry_anchor_price(&unpriced, &entry).same(dec("0.5")));
    assert!(entry_anchor_price(&position(PositionState::Closed), &entry).same(dec("0.4")));
}

#[test]
fn attribution_passes_stop_at_their_batch() {
    let mut pass = AttributionPass::new(2);
    assert_eq!(pass.consider(1), Consideration::Considered);
    pass.record(true);
    assert_eq!(pass.consider(1), Consideration::Repeated);
    assert_eq!(pass.consider(2), Consideration::Considered);
    pass.record(false);
    assert_eq!(pass.remaining(), 0);
    assert_eq!(pass.consider(3), Consideration::Stop);
    let summary = pass.summary();
    assert_eq!((summary.considered, summary.written, summary.skipped), (2, 1, 1));
}

#[test]
fn heartbeats_guard_live_trading() {
    assert_eq!(probe_interval(0), 1);
    assert_eq!(probe_interval(7), 7);
    assert!(probes(ExecutionMode::Live) && !probes(ExecutionMode::DryRun));
    assert_eq!(probe_event(false), HeartbeatEvent::Failure);
    assert_eq!(after_probe(true, false, true), HeartbeatAction::TryRecover);
    assert_eq!(
        after_probe(false, false, false),
        HeartbeatAction::EnterEmergency {
            class: EmergencyClass::VenueFault,
            reason: "risk circuit breaker blocking trades",
        }
    );
    assert_eq!(after_probe(false, true, false), HeartbeatAction::Nothing);
    let now = Timestamp::new(5, 0).expect("time");
    assert_eq!(warn_live_without_publication(true, now), (1, None));
    let (gauge, notice) = warn_live_without_publication(false, now);
    assert_eq!(gauge, 0);
    let notice = notice.expect("notice");
    assert_eq!(notice.key, "control_factor.no_publication_live");
    assert_eq!(notice.level, AlertLevel::Warning);
    assert_eq!(notice.category, AlertCategory::OperatorNotice);
    assert_eq!(notice.source, AlertSource::System);
    assert_eq!(
        notice.message,
        "Trading continues under neutral-pass factor checks \u{2014} publish a control-factor \
         snapshot for governed Live tuning"
    );
    assert_eq!(notice.raised_at, now);
    assert_eq!(notice.affects_trading, Some(false));
    assert_eq!(notice.dedupe_secs, Some(3600));
}

#[test]
fn only_changes_are_published() {
    let filled = OrderIntentStatus::Filled;
    assert_eq!(publish_transition(filled, filled, Some(1)), None);
    assert_eq!(publish_transition(OrderIntentStatus::Submitted, filled, Some(1)), Some(1));
    assert_eq!(
        transition(ExecutionOrderState::Submitted, ExecutionOrderState::Filled),
        Some(ExecutionOrderEvent::Reached(ExecutionOrderState::Filled))
    );
    assert_eq!(transition(ExecutionOrderState::Filled, ExecutionOrderState::Filled), None);
}
