use quant_pivot_execution::account_recovery_reconciler::{
    AccountRecoveryAssessmentInput, AccountRecoveryExecutionDelta, AccountRecoveryLotBalance,
    AccountRecoveryMismatch, AccountRecoveryReconciler, AccountRecoverySellAllocation,
    AccountRecoveryTokenBalance,
};
use quant_pivot_execution::decimal::Decimal;
use quant_pivot_execution::time::Timestamp;
use quant_pivot_execution::types::{ContentHash, Ident};

fn dec(text: &str) -> Decimal {
    Decimal::parse(text).expect("decimal")
}

fn at(seconds: i64) -> Timestamp {
    Timestamp::new(seconds, 0).expect("time")
}

fn hash(seed: u8) -> ContentHash {
    let word = u128::from_be_bytes([seed; 16]);
    ContentHash { high: word, low: word }
}

fn balance(token: &Ident, shares: &str) -> AccountRecoveryTokenBalance {
    AccountRecoveryTokenBalance { token_id: token.clone(), shares: dec(shares) }
}

fn input() -> AccountRecoveryAssessmentInput {
    let token = Ident::new("token-a");
    AccountRecoveryAssessmentInput {
        recovery_incident_id: 1,
        execution_account_id: 2,
        observed_at: at(30),
        finalized_block_number: 100,
        finalized_block_hash: hash(0x11),
        clob_snapshot_hash: hash(1),
        data_api_snapshot_hash: hash(2),
        chain_snapshot_hash: hash(3),
        settlement_snapshot_hash: hash(4),
        pause_confirmed: true,
        venue_snapshot_stable: true,
        clob_collateral_usd: dec("100"),
        chain_collateral_usd: dec("100"),
        reserved_usd: dec("0"),
        open_order_ids: Vec::new(),
        unmapped_token_ids: Vec::new(),
        invalid_execution_ids: Vec::new(),
        clean_funder_blocker: None,
        data_api_positions: vec![balance(&token, "9")],
        chain_positions: vec![balance(&token, "9")],
        open_lots: vec![AccountRecoveryLotBalance {
            strategy_position_lot_id: 10,
            token_id: token.clone(),
            shares: dec("10"),
            cost_usd: dec("5"),
            opened_at: at(10),
        }],
        incident_executions: vec![
            AccountRecoveryExecutionDelta {
                account_chain_execution_id: 20,
                recovery_lot_id: 120,
                token_id: token.clone(),
                shares_delta: dec("-3"),
                principal_usd: dec("2.1"),
                exact_fee_usd: dec("0.1"),
                available_at: at(20),
            },
            AccountRecoveryExecutionDelta {
                account_chain_execution_id: 21,
                recovery_lot_id: 121,
                token_id: token,
                shares_delta: dec("2"),
                principal_usd: dec("1"),
                exact_fee_usd: dec("0.02"),
                available_at: at(21),
            },
        ],
        explicit_sell_allocations: Vec::new(),
        pending_settlement_count: 0,
    }
}

#[test]
fn unique_allocation_converges() {
    let assessment = AccountRecoveryReconciler::assess(input()).expect("assessment");
    assert!(assessment.converged());
    assert!(assessment.allocations[0].after_shares.same(dec("7")));
    assert!(assessment.created_lots[0].remaining_shares.same(dec("2")));
    assert!(assessment.allocations[0].after_cost_usd.same(dec("3.5")));
    assert!(assessment.allocations[0].realized_pnl_delta_usd.same(dec("0.5")));
    assert!(assessment.created_lots[0].remaining_cost_usd.same(dec("1.02")));
}

#[test]
fn ambiguous_sell_requires_allocation() {
    let mut input = input();
    let token = input.open_lots[0].token_id.clone();
    let second_lot_id = 11;
    input.open_lots.push(AccountRecoveryLotBalance {
        strategy_position_lot_id: second_lot_id,
        token_id: token.clone(),
        shares: dec("5"),
        cost_usd: dec("3"),
        opened_at: at(11),
    });
    input.data_api_positions = vec![balance(&token, "14")];
    input.chain_positions = vec![balance(&token, "14")];
    let execution_id = input.incident_executions[0].account_chain_execution_id;

    let blocked = AccountRecoveryReconciler::assess(input.clone()).expect("assessment");
    assert!(blocked
        .mismatches
        .iter()
        .any(|mismatch| matches!(mismatch, AccountRecoveryMismatch::LotAllocationRequired { .. })));

    input.explicit_sell_allocations.push(AccountRecoverySellAllocation {
        account_chain_execution_id: execution_id,
        strategy_position_lot_id: second_lot_id,
        shares: dec("3"),
    });
    let allocated = AccountRecoveryReconciler::assess(input).expect("assessment");
    assert!(allocated.converged());
    let after = allocated
        .allocations
        .iter()
        .find(|lot| lot.strategy_position_lot_id == second_lot_id)
        .map(|lot| lot.after_shares)
        .expect("second lot");
    assert!(after.same(dec("2")));
}

#[test]
fn irrelevant_allocation_is_rejected() {
    let mut input = input();
    let allocation = AccountRecoverySellAllocation {
        account_chain_execution_id: input.incident_executions[1].account_chain_execution_id,
        strategy_position_lot_id: input.open_lots[0].strategy_position_lot_id,
        shares: dec("1"),
    };
    input.explicit_sell_allocations.push(allocation);
    let assessment = AccountRecoveryReconciler::assess(input).expect("assessment");
    assert!(assessment
        .mismatches
        .iter()
        .any(|mismatch| matches!(mismatch, AccountRecoveryMismatch::LotAllocationInvalid { .. })));
}

#[test]
fn blockers_are_typed() {
    let mut input = input();
    input.pause_confirmed = false;
    input.open_order_ids = vec![Ident::new("open-order")];
    input.reserved_usd = dec("5");
    input.pending_settlement_count = 1;
    let assessment = AccountRecoveryReconciler::assess(input).expect("assessment");
    assert!(assessment
        .mismatches
        .iter()
        .any(|mismatch| matches!(mismatch, AccountRecoveryMismatch::PauseIncomplete)));
    assert!(assessment
        .mismatches
        .iter()
        .any(|mismatch| matches!(mismatch, AccountRecoveryMismatch::OpenOrdersPresent { .. })));
    assert!(assessment
        .mismatches
        .iter()
        .any(|mismatch| matches!(mismatch, AccountRecoveryMismatch::ReservedCapitalPresent { .. })));
    assert!(assessment
        .mismatches
        .iter()
        .any(|mismatch| matches!(mismatch, AccountRecoveryMismatch::PendingSettlement { .. })));
}

#[test]
fn oversell_fails_closed() {
    let mut input = input();
    input.incident_executions[0].shares_delta = dec("-30");
    let assessment = AccountRecoveryReconciler::assess(input).expect("assessment");
    assert!(assessment.mismatches.iter().any(|mismatch| matches!(
        mismatch,
        AccountRecoveryMismatch::IncidentExecutionIncomplete { .. }
    )));
}

#[test]
fn capture_time_preserves_identity() {
    let first = input();
    let mut replay = first.clone();
    replay.observed_at = at(35);
    // The identity is taken over the whole assessment.
    assert_eq!(
        AccountRecoveryReconciler::assess(first).expect("assessment"),
        AccountRecoveryReconciler::assess(replay).expect("assessment"),
    );
}

#[test]
fn capture_order_preserves_identity() {
    let first = input();
    let mut replay = first.clone();
    replay.incident_executions.reverse();
    replay.open_order_ids.reverse();
    assert_eq!(
        AccountRecoveryReconciler::assess(first).expect("assessment"),
        AccountRecoveryReconciler::assess(replay).expect("assessment"),
    );
}

#[test]
fn each_source_blocker_is_reported() {
    let mut changed = input();
    changed.venue_snapshot_stable = false;
    changed.unmapped_token_ids = vec![Ident::new("b"), Ident::new("a"), Ident::new("b")];
    changed.invalid_execution_ids = vec![7, 5, 7];
    changed.clob_collateral_usd = dec("99");
    changed.data_api_positions = vec![balance(&Ident::new("token-a"), "8")];
    let assessment = AccountRecoveryReconciler::assess(changed).expect("assessment");
    assert_eq!(
        assessment.mismatches,
        vec![
            AccountRecoveryMismatch::VenueSnapshotUnstable,
            AccountRecoveryMismatch::TokenMetadataMissing { token_id: Ident::new("a") },
            AccountRecoveryMismatch::TokenMetadataMissing { token_id: Ident::new("b") },
            AccountRecoveryMismatch::IncidentExecutionIncomplete { account_chain_execution_id: 5 },
            AccountRecoveryMismatch::IncidentExecutionIncomplete { account_chain_execution_id: 7 },
            AccountRecoveryMismatch::CollateralMismatch {
                clob_usd: dec("99"),
                chain_usd: dec("100"),
            },
            AccountRecoveryMismatch::PositionSourceMismatch {
                token_id: Ident::new("token-a"),
                data_api_shares: dec("8"),
                chain_shares: dec("9"),
            },
        ]
    );
}

#[test]
fn a_refused_sale_leaves_the_lots_as_they_were() {
    let mut input = input();
    input.incident_executions[0].shares_delta = dec("-30");
    let assessment = AccountRecoveryReconciler::assess(input).expect("assessment");
    assert!(assessment.allocations[0].after_shares.same(dec("10")));
    assert!(assessment.allocations[0].after_cost_usd.same(dec("5")));
}

#[test]
fn a_sale_keeps_its_lot_in_balance() {
    let mut input = input();
    input.incident_executions.truncate(1);
    let assessment = AccountRecoveryReconciler::assess(input).expect("assessment");
    let lot = &assessment.allocations[0];
    // Three of ten shares leave, for 2.1 less a fee of 0.1.
    assert!(lot.after_shares.same(dec("7")));
    assert!(lot.after_cost_usd.same(dec("3.5")));
    assert!(lot.realized_pnl_delta_usd.same(dec("0.5")));
}

#[test]
fn a_finding_leaves_every_lot_as_it_was() {
    let mut input = input();
    let token = input.open_lots[0].token_id.clone();
    input.open_lots.push(AccountRecoveryLotBalance {
        strategy_position_lot_id: 11,
        token_id: token,
        shares: dec("5"),
        cost_usd: dec("3"),
        opened_at: at(11),
    });
    input.incident_executions.truncate(1);
    let assessment = AccountRecoveryReconciler::assess(input).expect("assessment");
    assert!(assessment
        .mismatches
        .iter()
        .any(|mismatch| matches!(mismatch, AccountRecoveryMismatch::LotAllocationRequired { .. })));
    for lot in &assessment.allocations {
        assert!(lot.realized_pnl_delta_usd.is_zero());
    }
    let shares = assessment.allocations.iter().map(|lot| lot.after_shares.to_text());
    assert_eq!(shares.collect::<Vec<_>>(), vec!["10", "5"]);
    assert!(assessment.created_lots.is_empty());
}

#[test]
fn time_and_order_of_capture_preserve_identity() {
    let first = input();
    let mut replay = first.clone();
    replay.observed_at = at(99);
    replay.incident_executions.reverse();
    assert_eq!(
        AccountRecoveryReconciler::assess(first).expect("assessment"),
        AccountRecoveryReconciler::assess(replay).expect("assessment"),
    );
}
