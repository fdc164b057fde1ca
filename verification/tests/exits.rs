use quant_pivot_execution::alerts::{AlertCategory, AlertLevel, AlertSource};
use quant_pivot_execution::decimal::Decimal;
use quant_pivot_execution::error::ExecutionError;
use quant_pivot_execution::exit_dispatcher::{
    build_exit_ledger_write, build_exit_order, check_exit_market, classify_exit_rule,
    exit_intent_id, exit_venue_evidence, next_exit_step, plan_exit_walk, prepare_exit_order,
    require_exit_book, require_exit_funding, EvidenceRefusal, ExitStep, ExitVenueEvidence,
};
use quant_pivot_execution::exit_monitor::{
    decide_exit, EmergencyExitKind, EmergencyExitPolicy, ExitDecision, ExitMonitorHealth,
    ExitMonitorInput, ExitOrderSpec, ExitReason, ExitSignalEvaluation, ExitSignalVerdict,
    PositionLot, ScaleOutProjection,
};
use quant_pivot_execution::exit_monitor_service::{
    begin_lot, build_decision_input, classify_book, conclude_lot, is_monitored, max_price,
    observe_lot, resolve_exit_signal, sweep_plan, ExitMonitorPolicy, LadderReplies, LotEntry,
};
use quant_pivot_execution::order_rules::{PolymarketOrderRules, VenueOrderRuleError};
use quant_pivot_execution::orders::{
    BookSnapshot, BookWalkFill, BookWalkOutcome, ClobMarketInfo, EntryMakerRebateTerms,
    ExecutionOrderInfo, ExecutionOrderState, PitFeeSchedule, PreparedVenueOrder,
    ReconciliationResult, TickSize, VenueBalanceAllowanceSnapshot, VenueFundingAsset,
    VenueFundingBalance, VenueFundingDeficit, VenueFundingEvidence, VenueOrderAmount,
    VenueOrderMetadata, VenueOutcome, VenueSubmitResult,
};
use quant_pivot_execution::plans::{
    ExitPolicySpec, ExitSettlementMode, ExitState, KillSwitchState, RedeemPolicy,
};
use quant_pivot_execution::time::Timestamp;
use quant_pivot_execution::types::{ContentHash, Ident, OrderType, Side};

fn dec(text: &str) -> Decimal {
    Decimal::parse(text).expect("decimal")
}

fn at(seconds: i64) -> Timestamp {
    Timestamp::new(seconds, 0).expect("time")
}

fn hash(word: u128) -> ContentHash {
    ContentHash { high: word, low: word }
}

fn rules() -> PolymarketOrderRules {
    PolymarketOrderRules { tick_size: TickSize::Hundredth, minimum_order_size: dec("5") }
}

fn order(shares: &str) -> ExitOrderSpec {
    ExitOrderSpec {
        token_id: Ident::new("token-1"),
        side: Side::Sell,
        order_type: OrderType::Gtc,
        limit_price: dec("0.50"),
        shares: dec(shares),
    }
}

fn lot() -> PositionLot {
    PositionLot {
        strategy_position_lot_id: 1,
        order_intent_id: Some(2),
        token_id: Ident::new("token-1"),
        market_id: Ident::new("0xmarket"),
        shares: dec("10.009"),
        avg_price: dec("0.40"),
        opened_at: at(0),
    }
}

fn funding_snapshot() -> VenueBalanceAllowanceSnapshot {
    VenueBalanceAllowanceSnapshot {
        asset: VenueFundingAsset::Conditional,
        token_id: Some(Ident::new("token-1")),
        balance: "10000000".to_owned(),
        human_balance: VenueFundingBalance::Conditional(dec("10")),
        allowance: Some("10000000".to_owned()),
    }
}

fn market_info(
    tick_size: TickSize,
    minimum_order_size: &str,
    neg_risk: bool,
    seed: u128,
) -> ClobMarketInfo {
    ClobMarketInfo {
        version_id: seed,
        market_id: Ident::new("0xmarket"),
        tokens: vec![Ident::new("token-1"), Ident::new("token-2")],
        tick_size,
        minimum_order_size: dec(minimum_order_size),
        neg_risk,
        effective_at: at(0),
        available_at: at(0),
        payload_hash: hash(seed),
        defect: None,
    }
}

fn live_metadata(tick_size: TickSize, minimum_order_size: &str) -> VenueOrderMetadata {
    VenueOrderMetadata {
        market_id: Ident::new("0xmarket"),
        token_id: Ident::new("token-1"),
        tick_size,
        minimum_order_size: dec(minimum_order_size),
        neg_risk: false,
    }
}

fn fees() -> PitFeeSchedule {
    PitFeeSchedule {
        schedule_hash: hash(9),
        effective_at: at(0),
        available_at: at(0),
        platform_rate: dec("0"),
        exponent: 1,
        taker_only: true,
        builder_maker_fee_bps: 0,
        builder_taker_fee_bps: 0,
        builder_attribution: false,
    }
}

fn prepared(limit_price: Decimal, requested_shares: Decimal) -> PreparedVenueOrder {
    PreparedVenueOrder {
        profile_ref: Ident::new("profile"),
        market_id: lot().market_id,
        token_id: lot().token_id,
        tick_size: TickSize::Hundredth,
        minimum_order_size: dec("5"),
        neg_risk: false,
        side: Side::Sell,
        order_type: OrderType::Gtc,
        post_only: false,
        limit_price,
        expected_worst_fill_price: limit_price,
        cash_budget: None,
        venue_amount: VenueOrderAmount::Shares(requested_shares),
        requested_shares,
        expected_fee: dec("0"),
        total_cash_delta: dec("0"),
        expected_filled_shares: requested_shares,
        book_hash: hash(3),
        clob_market_info_payload_hash: hash(4),
        fee_schedule: fees(),
        maker_rebate_terms: EntryMakerRebateTerms::AggressiveNotApplicable,
        prepared_at: at(0),
        valid_until: at(60),
    }
}

#[test]
fn canonical_exit_floors_shares() {
    let canonical = order("10.009").canonical_order(rules()).expect("canonical exit amount");
    assert!(canonical.amounts.requested_shares.same(dec("10.00")));
    assert_eq!(canonical.amounts.venue_amount, VenueOrderAmount::Shares(dec("10.00")));
}

#[test]
fn rule_changes_allow_exit() {
    let rules = ExitVenueEvidence {
        frozen: market_info(TickSize::Hundredth, "5", false, 1),
        current: market_info(TickSize::Thousandth, "3", false, 2),
        live: live_metadata(TickSize::Thousandth, "3"),
        rules_defect: None,
    }
    .validate(&Ident::new("0xmarket"), &Ident::new("token-1"))
    .expect("legitimate current rule changes must not lock an exit");

    assert_eq!(rules.tick_size, TickSize::Thousandth);
    assert!(rules.minimum_order_size.same(dec("3")));

    let mut exit = order("10.009");
    exit.limit_price = dec("0.5001");
    let canonical = exit.canonical_order(rules).expect("current rules canonicalize the exit");
    let wal = build_exit_order(
        7,
        &lot(),
        &exit,
        prepared(canonical.limit_price, canonical.amounts.requested_shares),
    )
    .expect("current-rule WAL");
    assert!(wal.price.same(dec("0.501")));
    assert!(wal.shares.same(dec("10.00")));
}

#[test]
fn identity_drift_rejects_exit() {
    let mut live = live_metadata(TickSize::Hundredth, "5");
    live.token_id = Ident::new("other-token");
    assert!(ExitVenueEvidence {
        frozen: market_info(TickSize::Hundredth, "5", false, 1),
        current: market_info(TickSize::Hundredth, "5", false, 2),
        live,
        rules_defect: None,
    }
    .validate(&Ident::new("0xmarket"), &Ident::new("token-1"))
    .is_err());
}

#[test]
fn neg_risk_drift_rejects() {
    let mut live = live_metadata(TickSize::Hundredth, "5");
    live.neg_risk = true;
    assert!(ExitVenueEvidence {
        frozen: market_info(TickSize::Hundredth, "5", false, 1),
        current: market_info(TickSize::Hundredth, "5", false, 2),
        live,
        rules_defect: None,
    }
    .validate(&Ident::new("0xmarket"), &Ident::new("token-1"))
    .is_err());
}

#[test]
fn minimum_blocks_wal() {
    let error = order("4.999")
        .canonical_order(rules())
        .expect_err("floored exit below minimum must fail before WAL creation");
    assert!(matches!(
        error,
        VenueOrderRuleError::OrderBelowMinimum { requested, minimum }
            if requested.same(dec("4.99")) && minimum.same(dec("5"))
    ));
}

#[test]
fn exact_minimum_is_valid() {
    let canonical = order("5")
        .canonical_order(rules())
        .expect("exact venue minimum must remain valid");
    assert!(canonical.amounts.requested_shares.same(dec("5")));
}

#[test]
fn ceiling_defers_exit() {
    let mut exit = order("5");
    exit.limit_price = dec("0.999");
    let error = exit
        .canonical_order(rules())
        .expect_err("unrepresentable SELL hard minimum must fail before WAL");
    assert!(matches!(classify_exit_rule(&error), ExecutionError::ExitPriceDeferred { .. }));
}

#[test]
fn wal_uses_canonical_identity() {
    let mut exit = order("10.009");
    exit.limit_price = dec("0.501");
    let canonical = exit.canonical_order(rules()).expect("canonical exit amount");
    let mut prepared = prepared(canonical.limit_price, canonical.amounts.requested_shares);
    prepared.expected_filled_shares = dec("9.75");
    prepared.expected_worst_fill_price = dec("0.49");

    let wal = build_exit_order(7, &lot(), &exit, prepared)
        .expect("canonical exit must build its WAL row");
    assert!(wal.price.same(canonical.limit_price));
    assert!(wal.price.same(dec("0.51")));
    assert!(exit.limit_price.le(wal.price));
    assert!(wal.shares.same(canonical.amounts.requested_shares));
    assert!(wal.prepared_order.expected_filled_shares.same(dec("9.75")));
    assert!(wal.prepared_order.expected_worst_fill_price.same(dec("0.49")));
}

#[test]
fn exact_exit_funding_passes() {
    let evidence = VenueFundingEvidence {
        snapshot: funding_snapshot(),
        required: "10000000".to_owned(),
        deficit: None,
    };
    assert!(require_exit_funding(&Ident::new("token-1"), &evidence).is_ok());
}

#[test]
fn exit_funding_defers() {
    for deficit in [
        VenueFundingDeficit::MissingAllowance,
        VenueFundingDeficit::InsufficientBalance,
        VenueFundingDeficit::InsufficientAllowance,
    ] {
        let evidence = VenueFundingEvidence {
            snapshot: funding_snapshot(),
            required: "10000000".to_owned(),
            deficit: Some(deficit),
        };
        assert!(matches!(
            require_exit_funding(&Ident::new("token-1"), &evidence),
            Err(ExecutionError::ExitFundingDeferred { .. })
        ));
    }
}

#[test]
fn classify_book_uses_configured_max_age() {
    let now_ms = 1_000_000u64;
    let snapshot = BookSnapshot {
        best_bid: Some(dec("0.50")),
        best_ask: Some(dec("0.52")),
        timestamp_ms: now_ms - 4_000,
        version: 1,
    };
    let at_5s = classify_book(Some(&snapshot), now_ms, 5_000).expect("classification");
    let at_3s = classify_book(Some(&snapshot), now_ms, 3_000).expect("classification");
    assert!(at_5s.fresh);
    assert!(!at_3s.fresh);
}

#[test]
fn classify_book_rejects_future_snapshot() {
    let now_ms = 1_000_000_u64;
    let snapshot =
        BookSnapshot { best_bid: None, best_ask: None, timestamp_ms: now_ms + 1, version: 1 };
    assert!(classify_book(Some(&snapshot), now_ms, 5_000).is_err());
}

#[test]
fn recovery_lots_are_not_exited_by_strategy() {
    let mut recovered = lot();
    assert_eq!(exit_intent_id(&recovered), Ok(2));
    recovered.order_intent_id = None;
    assert!(matches!(exit_intent_id(&recovered), Err(ExecutionError::IntentDenied { .. })));
    assert!(check_exit_market(&lot(), &Ident::new("0xmarket")).is_ok());
    assert!(check_exit_market(&lot(), &Ident::new("0xother")).is_err());
}

#[test]
fn exits_are_prepared_from_the_walk() {
    let current = market_info(TickSize::Hundredth, "5", false, 2);
    let walk =
        plan_exit_walk(&order("10.009"), rules(), &current, Ok(fees()), at(10)).expect("walk");
    let fill = BookWalkFill {
        outcome: BookWalkOutcome::Filled,
        principal_usd: dec("5"),
        cash_outlay_usd: dec("0"),
        total_fee_usd: dec("0.1"),
        worst_price: Some(dec("0.5")),
        vwap: Some(dec("0.5")),
        filled_shares: dec("10"),
        account_cash_delta_usd: dec("4.9"),
    };
    let order = order("10.009");
    let prepared = prepare_exit_order(
        &lot(),
        &order,
        &Ident::new("profile"),
        &current,
        &walk,
        Ok(fill),
        hash(5),
        at(10),
    )
    .expect("prepared");
    assert!(prepared.limit_price.same(dec("0.5")));
    assert!(prepared.requested_shares.same(dec("10")));
    assert!(prepared.total_cash_delta.same(dec("4.9")));
    assert_eq!(prepared.book_hash, hash(5));
    let refused = prepare_exit_order(
        &lot(),
        &order,
        &Ident::new("profile"),
        &current,
        &walk,
        Err("empty book".to_owned()),
        hash(5),
        at(10),
    );
    assert!(refused.is_err());
}

fn venue_result(outcome: VenueOutcome, filled_shares: &str) -> VenueSubmitResult {
    VenueSubmitResult {
        outcome,
        venue_order_id: Some(Ident::new("venue-1")),
        venue_status: None,
        reconciliation_result: ReconciliationResult::Pending,
        identity_refs: Ident::new("refs"),
        filled_shares: dec(filled_shares),
        avg_fill_price: Some(dec("0.5")),
        expected_fee: dec("0"),
        observed_fee: None,
        fee_evidence: Ident::new("fee"),
        submitted_at: Some(at(20)),
        responded_at: at(21),
        detail: None,
    }
}

fn submitted() -> ExecutionOrderInfo {
    ExecutionOrderInfo {
        execution_order_id: 7,
        order_intent_id: 2,
        price: dec("0.5"),
        total_cash_delta: dec("5"),
        state: ExecutionOrderState::Submitted,
    }
}

#[test]
fn filled_exits_realize_profit() {
    let mut whole = lot();
    whole.shares = dec("10");
    let (write, profit) = build_exit_ledger_write(
        8,
        &venue_result(VenueOutcome::Filled, "10"),
        &whole,
        ExitReason::TakeProfit,
        &submitted(),
    )
    .expect("write");
    assert!(profit.expect("profit").same(dec("1")));
    assert!(write.fully_exited);
    assert_eq!(write.order_state, ExecutionOrderState::Filled);
    assert_eq!(write.exit_state, ExitState::Exited);
    let sold = write.position_exit.expect("sale");
    assert!(sold.proceeds_usd.same(dec("5")));
    assert!(sold.shares.same(dec("10")));
}

#[test]
fn rejected_exits_reopen_the_lot() {
    let (write, profit) = build_exit_ledger_write(
        8,
        &venue_result(VenueOutcome::Rejected, "0"),
        &lot(),
        ExitReason::StopLoss,
        &submitted(),
    )
    .expect("write");
    assert!(profit.is_none());
    assert!(write.position_exit.is_none());
    assert!(write.revert_to_open);
    assert!(!write.fully_exited);
}

#[test]
fn ambiguous_exits_book_nothing() {
    let (write, profit) = build_exit_ledger_write(
        8,
        &venue_result(VenueOutcome::Ambiguous, "10"),
        &lot(),
        ExitReason::StopLoss,
        &submitted(),
    )
    .expect("write");
    assert!(profit.is_none());
    assert!(write.position_exit.is_none());
    assert_eq!(write.order_state, ExecutionOrderState::Ambiguous);
    assert!(write.reconciliation.is_some());
}

#[test]
fn the_exit_venue_call_follows_the_write_ahead() {
    let mut step = ExitStep::LoadIntent;
    let mut steps = Vec::new();
    while step != ExitStep::Succeeded {
        steps.push(step);
        step = next_exit_step(step, true, true);
    }
    let call = steps.iter().position(|s| *s == ExitStep::CallVenue).expect("call");
    assert_eq!(steps[call - 1], ExitStep::WriteAhead);
    assert_eq!(next_exit_step(ExitStep::Prepare, false, false), ExitStep::Failed);
}

fn policy() -> ExitPolicySpec {
    ExitPolicySpec {
        take_profit_price: Some(dec("0.60")),
        take_profit_pct: None,
        stop_loss_price: Some(dec("0.30")),
        stop_loss_pct: None,
        time_exit_at: None,
        max_hold_secs: None,
        trailing_stop: None,
        thesis_invalidation: None,
        scale_out_targets: Vec::new(),
        settlement_mode: ExitSettlementMode::ExitBeforeResolution,
        redeem_policy: RedeemPolicy::Manual,
        manual_review_at: None,
        entry_reference_price: dec("0.40"),
        entry_composite_score: dec("0.8"),
    }
}

fn monitored(mark_price: &str) -> ExitMonitorInput {
    ExitMonitorInput {
        lot: lot(),
        exit_policy: policy(),
        mark_price: Some(dec(mark_price)),
        book_fresh: true,
        market_abnormal: false,
        kill_switch: KillSwitchState::Closed,
        emergency_policy: EmergencyExitPolicy {
            kind: EmergencyExitKind::LiquidateAll,
            max_slippage_bps: 100,
        },
        effective_stop: Some(dec("0.30")),
        signal: ExitSignalVerdict::Holds,
        scale_out: None,
        denominator_shares: Some(dec("10.009")),
        delta_to_target: dec("0"),
        min_opportunistic_clip_pct: dec("0.05"),
        now: at(100),
    }
}

fn reason_of(input: &ExitMonitorInput) -> Option<(ExitReason, bool)> {
    match decide_exit(input).expect("decision") {
        ExitDecision::Hold => None,
        ExitDecision::SubmitExitOrder { reason, .. } => Some((reason, true)),
        ExitDecision::RequireManualReview { reason } => Some((reason, false)),
    }
}

#[test]
fn exits_follow_their_triggers() {
    assert_eq!(reason_of(&monitored("0.45")), None);
    assert_eq!(reason_of(&monitored("0.60")), Some((ExitReason::TakeProfit, true)));
    assert_eq!(reason_of(&monitored("0.30")), Some((ExitReason::StopLoss, true)));

    let mut emergency = monitored("0.45");
    emergency.kill_switch = KillSwitchState::EmergencyHalt;
    assert_eq!(reason_of(&emergency), Some((ExitReason::KillSwitchEmergency, true)));

    let mut stale = monitored("0.60");
    stale.book_fresh = false;
    assert_eq!(reason_of(&stale), Some((ExitReason::DataStale, false)));

    let mut abnormal = monitored("0.60");
    abnormal.market_abnormal = true;
    assert_eq!(reason_of(&abnormal), Some((ExitReason::MarketAbnormal, false)));

    let mut late = monitored("0.45");
    late.exit_policy.max_hold_secs = Some(100);
    assert_eq!(reason_of(&late), Some((ExitReason::TimeExit, true)));

    let mut invalid = monitored("0.45");
    invalid.signal = ExitSignalVerdict::ThesisInvalidated { detail: "gone".to_owned() };
    assert_eq!(reason_of(&invalid), Some((ExitReason::SignalInvalidated, true)));

    let mut scaled = monitored("0.45");
    scaled.scale_out = Some(ScaleOutProjection {
        delta_shares: dec("2"),
        target_id: Ident::new("first"),
        target_cumulative_exit_pct: dec("0.2"),
    });
    assert_eq!(reason_of(&scaled), Some((ExitReason::PartialExit, true)));
}

#[test]
fn sales_come_from_the_lot() {
    match decide_exit(&monitored("0.60")).expect("decision") {
        ExitDecision::SubmitExitOrder { order, .. } => {
            assert_eq!(order.side, Side::Sell);
            assert!(order.shares.same(dec("10.009")));
        }
        other => panic!("unexpected {other:?}"),
    }
}

#[test]
fn peaks_never_fall() {
    assert_eq!(max_price(Some(dec("0.5")), Some(dec("0.4"))), Some(dec("0.5")));
    assert_eq!(max_price(Some(dec("0.4")), Some(dec("0.5"))), Some(dec("0.5")));
    assert_eq!(max_price(Some(dec("0.4")), None), Some(dec("0.4")));
    assert_eq!(max_price(None, Some(dec("0.4"))), Some(dec("0.4")));
}

fn ladder() -> LadderReplies {
    let input = monitored("0.60");
    LadderReplies {
        exit_policy: input.exit_policy,
        kill_switch: input.kill_switch,
        emergency_policy: input.emergency_policy,
        effective_stop: input.effective_stop,
        scale_out: input.scale_out,
        denominator_shares: input.denominator_shares,
        delta_to_target: input.delta_to_target,
        min_opportunistic_clip_pct: input.min_opportunistic_clip_pct,
    }
}

#[test]
fn decisions_rest_on_the_observation() {
    let book = BookSnapshot {
        best_bid: Some(dec("0.60")),
        best_ask: Some(dec("0.59")),
        timestamp_ms: 99_000,
        version: 1,
    };
    let seen = observe_lot(&book, Some(5_000), None, None, 60, at(100)).expect("seen");
    assert!(!seen.recheck);
    let gone = ExitSignalEvaluation {
        verdict: ExitSignalVerdict::ThesisInvalidated { detail: "gone".to_owned() },
        reinference: Some(Ident::new("run-1")),
    };
    let unasked = resolve_exit_signal(&seen, Some(gone));
    assert!(matches!(unasked.verdict, ExitSignalVerdict::Holds));
    assert!(unasked.reinference.is_none());
    let input = build_decision_input(lot(), &seen, unasked.verdict, ladder());
    assert_eq!(input.mark_price, Some(dec("0.60")));
    assert!(input.book_fresh);
    assert!(input.market_abnormal);
    assert_eq!(input.now, at(100));
    assert!(is_monitored(ExitState::PartiallyExited));
    assert!(!is_monitored(ExitState::ManualRequired));
}

#[test]
fn lots_are_observed_and_concluded() {
    let book = BookSnapshot {
        best_bid: Some(dec("0.60")),
        best_ask: Some(dec("0.62")),
        timestamp_ms: 99_000,
        version: 1,
    };
    let seen = observe_lot(&book, Some(5_000), Some(dec("0.55")), None, 60, at(100)).expect("seen");
    assert!(seen.book.fresh);
    assert_eq!(seen.peak_mark_price, Some(dec("0.60")));
    assert!(seen.recheck);
    let answer = ExitSignalEvaluation {
        verdict: ExitSignalVerdict::Holds,
        reinference: Some(Ident::new("run-1")),
    };
    let evaluation = resolve_exit_signal(&seen, Some(answer));
    let conclusion = conclude_lot(lot(), &seen, evaluation, ladder(), 30).expect("conclusion");
    assert_eq!(conclusion.touch.reinference, Some(Ident::new("run-1")));
    assert_eq!(conclusion.lot.strategy_position_lot_id, lot().strategy_position_lot_id);
    assert_eq!(conclusion.touch.next_check_at, at(130));
    assert_eq!(conclusion.touch.last_recheck, Some(at(100)));
    assert!(matches!(conclusion.decision, ExitDecision::SubmitExitOrder { .. }));
}

#[test]
fn missing_books_alert_an_operator() {
    let token = Ident::new("token-1");
    match begin_lot(ExitState::Monitoring, 1, &token, Some("no snapshot"), at(9)) {
        LotEntry::BookUnavailable { reason, alert } => {
            assert_eq!(reason, ExitReason::DataStale);
            assert_eq!(
                alert.key,
                "exit-book-unavailable:00000000-0000-0000-0000-000000000001"
            );
            assert_eq!(alert.level, AlertLevel::Critical);
            assert_eq!(alert.category, AlertCategory::TradingSafety);
            assert_eq!(alert.source, AlertSource::Execution);
            assert_eq!(alert.raised_at, at(9));
            assert_eq!(alert.dedupe_secs, Some(60));
        }
        other => panic!("unexpected {other:?}"),
    }
    assert!(matches!(
        begin_lot(ExitState::Exited, 1, &token, Some("no snapshot"), at(9)),
        LotEntry::Skip
    ));
}

#[test]
fn sweeps_follow_the_policy() {
    let policy = ExitMonitorPolicy { enabled: true, monitor_secs: 10, signal_recheck_secs: 60 };
    let plan = sweep_plan(policy, 3).expect("plan");
    assert_eq!(plan.monitor_secs, 10);
    assert_eq!(plan.lots, 3);
    assert!(sweep_plan(ExitMonitorPolicy { enabled: false, ..policy }, 3).is_none());
}

#[test]
fn monitor_health_expires() {
    let health = ExitMonitorHealth::scanned(at(100), 30);
    assert!(health.is_ready(at(130)));
    assert!(!health.is_ready(at(131)));
    assert!(!ExitMonitorHealth::unscanned().is_ready(at(0)));
}

#[test]
fn opportunism_only_fills_the_room_left() {
    let holds = ExitSignalEvaluation::verdict(ExitSignalVerdict::Holds);
    assert!(holds.leaves_room());
    let sold = holds.compose(ExitSignalVerdict::OpportunisticSell {
        target_cumulative_exit_pct: dec("0.5"),
        detail: "rich".to_owned(),
    });
    assert!(matches!(sold.verdict, ExitSignalVerdict::OpportunisticSell { .. }));
}

#[test]
fn refused_walks_say_why() {
    let current = market_info(TickSize::Hundredth, "5", false, 2);
    let small = plan_exit_walk(&order("4.009"), rules(), &current, Ok(fees()), at(10));
    assert!(matches!(
        small,
        Err(ExecutionError::IntentDenied { reason })
            if reason
                == "exit order cannot be canonicalized: order of 4.00 shares is below the minimum of 5"
    ));
    let mut dear = order("10");
    dear.limit_price = dec("0.999");
    let outside = plan_exit_walk(&dear, rules(), &current, Ok(fees()), at(10));
    assert!(matches!(
        outside,
        Err(ExecutionError::ExitPriceDeferred { reason })
            if reason == "price 1.00 is outside the bounds of tick size 0.01"
    ));
}

#[test]
fn exits_need_a_book_and_the_terms_of_the_market() {
    assert_eq!(require_exit_book(Ok(3)), Ok(3));
    assert_eq!(
        require_exit_book::<u8>(Err("Stale".to_owned())),
        Err(ExecutionError::IntentDenied {
            reason: "cannot prepare exit without a fresh L2 book: Stale".to_owned(),
        })
    );
    let info = || Ok(Some(market_info(TickSize::Hundredth, "5", false, 1)));
    let live = || Ok(live_metadata(TickSize::Hundredth, "5"));
    let denied = |refusal: EvidenceRefusal<u8>| match refusal {
        EvidenceRefusal::Denied(ExecutionError::IntentDenied { reason }) => reason,
        other => panic!("unexpected {other:?}"),
    };
    let found = exit_venue_evidence::<u8>(info(), info(), live(), None).expect("evidence");
    assert!(found.validate(&Ident::new("0xmarket"), &Ident::new("token-1")).is_ok());
    assert_eq!(
        denied(exit_venue_evidence(Ok(None), Err(4), Err(5), None).expect_err("no report info")),
        "cannot prepare exit without report-time CLOB market info"
    );
    assert_eq!(
        denied(exit_venue_evidence(info(), Ok(None), Err(5), None).expect_err("no current info")),
        "cannot prepare exit without current CLOB market info"
    );
    assert!(matches!(
        exit_venue_evidence(info(), info(), Err(5), None),
        Err(EvidenceRefusal::Unread(5))
    ));
    assert!(matches!(
        exit_venue_evidence(Err(3), Err(4), Err(5), None),
        Err(EvidenceRefusal::Unread(3))
    ));
}

#[test]
fn sale_targets_are_confined() {
    let sell = |pct: &str| ExitSignalVerdict::OpportunisticSell {
        target_cumulative_exit_pct: dec(pct),
        detail: String::new(),
    };
    assert!(sell("0.4").target().expect("target").same(dec("0.4")));
    assert!(sell("1.7").target().expect("target").same(dec("1")));
    assert!(sell("-0.2").target().expect("target").is_zero());
    assert!(ExitSignalVerdict::Holds.target().is_none());
}

#[test]
fn an_exit_run_calls_the_venue_once() {
    for failing in 0..12 {
        let mut step = ExitStep::LoadIntent;
        let mut calls = Vec::new();
        for position in 0..20 {
            if step == ExitStep::CallVenue {
                calls.push(position);
            }
            step = next_exit_step(step, position != failing, true);
        }
        assert_eq!(calls, if failing < 6 { vec![] } else { vec![6] });
    }
}
