use quant_pivot_execution::account_pause::{
    check_unpause, confirm_operations, examine_operation, missing_exchanges, next_confirmation,
    prepare_operation, to_block, to_i64, AccountPauseOperation, AccountPauseOperationKind,
    AccountPauseOperationState, ConfirmationStep, PassEnd, PauseEvent, PauseReading, PauseVerdict,
    PrepareOperationInput, PreparedEnvelope,
};
use quant_pivot_execution::account_recovery_reconciler::{
    AccountChainExecutionRole, AccountRecoverySellAllocation, AccountRecoveryTokenBalance,
};
use quant_pivot_execution::account_recovery_service::{
    advance_incident, aggregate_positions, capture_venue, check_incident_account,
    check_seal_manifest, check_seal_target, conclude_incident, execution_deltas,
    incident_operations, order_venue_reading, outcome_side, reconcile_incident, recovery_tokens,
    require_incident, require_sealed, seal_allocations, AccountChainExecutionInfo,
    AccountRecoveryIncident, CatalogMarket, CatalogToken, ChainSnapshot, DataPositionEvidence,
    IncidentStep, OpenOrder, PauseOperationEntry, PositionLedgerState, RecoveryFacts,
    StrategyPositionLot, VenueCapture,
};
use quant_pivot_execution::decimal::Decimal;
use quant_pivot_execution::error::ExecutionError;
use quant_pivot_execution::evm::{EvmAddress, EvmHash};
use quant_pivot_execution::time::Timestamp;
use quant_pivot_execution::types::{ContentHash, Ident, OutcomeSide, Side};

fn dec(text: &str) -> Decimal {
    Decimal::parse(text).expect("decimal")
}

fn at(seconds: i64) -> Timestamp {
    Timestamp::new(seconds, 0).expect("time")
}

fn hash(word: u128) -> ContentHash {
    ContentHash { high: word, low: word }
}

fn token() -> Ident {
    Ident::new("token-a")
}

fn balance(shares: &str) -> AccountRecoveryTokenBalance {
    AccountRecoveryTokenBalance { token_id: token(), shares: dec(shares) }
}

fn purchase(id: u128) -> AccountChainExecutionInfo {
    AccountChainExecutionInfo {
        account_chain_execution_id: id,
        recovery_lot_id: id + 100,
        role: AccountChainExecutionRole::Taker,
        account_side: Some(Side::Buy),
        account_token_id: Some(token()),
        shares: Some(dec("2")),
        principal_usd: Some(dec("1")),
        exact_fee_usd: Some(dec("0.02")),
        available_at: at(21),
    }
}

fn capture() -> VenueCapture {
    VenueCapture {
        collateral_usd: dec("100"),
        open_order_ids: Vec::new(),
        positions: vec![balance("2")],
        clob_hash: hash(1),
        data_hash: hash(2),
    }
}

fn catalog() -> Vec<CatalogToken> {
    vec![CatalogToken {
        token_id: token(),
        market: Some(CatalogMarket {
            market_id: Ident::new("market"),
            details: Some((Ident::new("event"), "politics".to_owned())),
            token_pair: Some((token(), Ident::new("token-b"))),
        }),
    }]
}

fn facts() -> RecoveryFacts {
    RecoveryFacts {
        recovery_incident_id: 1,
        execution_account_id: 2,
        observed_at: at(30),
        pause_confirmed: true,
        first: capture(),
        second: capture(),
        open_lots: Vec::new(),
        executions: vec![purchase(20)],
        catalog: catalog(),
        chain: ChainSnapshot {
            block_number: 100,
            block_hash: hash(3),
            source_hash: hash(4),
            collateral_usd: dec("100"),
            positions: vec![balance("2")],
        },
        settlement_snapshot_hash: hash(5),
        pending_settlement_count: 0,
        clean_funder_blocker: None,
        reserved_usd: dec("0"),
        explicit_sell_allocations: Vec::new(),
    }
}

#[test]
fn executions_are_known_or_invalid() {
    let mut sale = purchase(21);
    sale.account_side = Some(Side::Sell);
    let mut own = purchase(22);
    own.role = AccountChainExecutionRole::SelfMatch;
    let mut priceless = purchase(23);
    priceless.principal_usd = None;
    let (deltas, invalid) = execution_deltas(&vec![purchase(20), sale, own, priceless]);
    assert_eq!(deltas.len(), 2);
    assert!(deltas[0].shares_delta.same(dec("2")));
    assert!(deltas[1].shares_delta.same(dec("-2")));
    assert_eq!(invalid, vec![22, 23]);
}

#[test]
fn converged_incidents_gain_their_lots() {
    let manifest = reconcile_incident(facts()).expect("manifest");
    assert!(manifest.assessment.converged());
    assert_eq!(manifest.created_lots.len(), 1);
    let lot = &manifest.created_lots[0];
    assert_eq!(lot.strategy_position_lot_id, 120);
    assert_eq!(lot.side, OutcomeSide::Yes);
    assert_eq!(lot.state, PositionLedgerState::Open);
    assert!(lot.shares.same(dec("2")));
    assert!(lot.cost_usd.same(dec("1.02")));
    assert!(lot.avg_price.same(dec("0.51")));
    assert_eq!(lot.opened_at, at(21));
}

#[test]
fn unconverged_incidents_gain_nothing() {
    let mut moving = facts();
    moving.second.clob_hash = hash(9);
    let manifest = reconcile_incident(moving).expect("manifest");
    assert!(!manifest.assessment.converged());
    assert!(manifest.created_lots.is_empty());

    let mut deep = facts();
    deep.chain.block_number = u64::MAX;
    assert!(matches!(reconcile_incident(deep), Err(ExecutionError::AccountRecovery { .. })));

    let mut foreign = facts();
    foreign.catalog[0].market.as_mut().expect("market").token_pair =
        Some((Ident::new("x"), Ident::new("y")));
    assert!(matches!(reconcile_incident(foreign), Err(ExecutionError::AccountRecovery { .. })));
}

#[test]
fn positions_are_summed_by_token() {
    let evidence = |token: &str, condition: &str, shares: &str| DataPositionEvidence {
        token_id: Ident::new(token),
        condition_id: condition.to_owned(),
        outcome: "Yes".to_owned(),
        shares: dec(shares),
    };
    let balances = aggregate_positions(&vec![
        evidence("b", "2", "1"),
        evidence("a", "1", "2"),
        evidence("b", "1", "0.5"),
        evidence("c", "1", "0"),
    ])
    .expect("balances");
    assert_eq!(balances.len(), 2);
    assert_eq!(balances[0].token_id, Ident::new("a"));
    assert!(balances[1].shares.same(dec("1.5")));

    let mut orders = vec![
        OpenOrder { order_id: Ident::new("z"), content: String::new() },
        OpenOrder { order_id: Ident::new("m"), content: String::new() },
    ];
    let mut read = vec![evidence("b", "2", "1"), evidence("b", "1", "1"), evidence("a", "9", "1")];
    order_venue_reading(&mut orders, &mut read);
    assert_eq!(orders[0].order_id, Ident::new("m"));
    assert_eq!(read[0].token_id, Ident::new("a"));
    assert_eq!(read[1].condition_id, "1");
    let captured = capture_venue(dec("5"), &orders, &read, hash(1), hash(2)).expect("capture");
    assert_eq!(captured.open_order_ids, vec![Ident::new("m"), Ident::new("z")]);
    assert_eq!(captured.positions.len(), 2);
}

#[test]
fn every_involved_token_is_looked_up() {
    let lot = StrategyPositionLot {
        strategy_position_lot_id: 1,
        token_id: Ident::new("token-c"),
        shares: dec("1"),
        cost_usd: dec("1"),
        opened_at: at(0),
    };
    let (deltas, _) = execution_deltas(&vec![purchase(20)]);
    let venue = vec![AccountRecoveryTokenBalance {
        token_id: Ident::new("token-b"),
        shares: dec("1"),
    }];
    let tokens = recovery_tokens(&venue, &vec![lot], &deltas);
    assert_eq!(
        tokens,
        vec![Ident::new("token-a"), Ident::new("token-b"), Ident::new("token-c")]
    );
}

#[test]
fn outcome_sides_follow_the_pair() {
    let (yes, no) = (Ident::new("y"), Ident::new("n"));
    assert_eq!(outcome_side(&yes, &yes, &no), Ok(OutcomeSide::Yes));
    assert_eq!(outcome_side(&no, &yes, &no), Ok(OutcomeSide::No));
    assert!(outcome_side(&Ident::new("x"), &yes, &no).is_err());
}

fn incident(seal_hash: Option<ContentHash>) -> AccountRecoveryIncident {
    AccountRecoveryIncident {
        account_recovery_incident_id: 1,
        execution_account_id: 2,
        seal_hash,
        revision: 7,
    }
}

fn refusal<T: std::fmt::Debug>(result: Result<T, ExecutionError>) -> String {
    match result {
        Err(ExecutionError::AccountRecovery { reason }) => reason,
        other => panic!("unexpected {other:?}"),
    }
}

#[test]
fn each_recovery_refusal_is_named() {
    assert!(check_incident_account(2, 2).is_ok());
    assert_eq!(
        refusal(check_incident_account(2, 3)),
        "incident execution account differs from the runtime account"
    );
    assert_eq!(require_incident(Some(incident(None)), 7), Ok(incident(None)));
    assert_eq!(refusal(require_incident(None, 7)), "account recovery incident was not found");
    assert_eq!(
        refusal(require_incident(Some(incident(None)), 8)),
        "account recovery incident revision changed"
    );
    assert!(check_seal_target(1, 1).is_ok());
    assert_eq!(refusal(check_seal_target(1, 2)), "seal command targets a different incident");
    assert_eq!(
        refusal(seal_allocations(None)),
        "seal requires a recovery manifest"
    );
    let allocation = AccountRecoverySellAllocation {
        account_chain_execution_id: 1,
        strategy_position_lot_id: 2,
        shares: dec("1"),
    };
    assert_eq!(seal_allocations(Some(vec![allocation])).expect("allocations").len(), 1);
    assert!(check_seal_manifest(3, true, 3).is_ok());
    assert!(check_seal_manifest(3, false, 3).is_err());
    assert_eq!(
        refusal(check_seal_manifest(3, true, 4)),
        "seal command does not reference the latest converged manifest"
    );
    assert!(require_sealed(incident(Some(hash(1)))).is_ok());
    assert_eq!(
        refusal(require_sealed(incident(None))),
        "incident must be sealed before unpause"
    );
}

#[test]
fn incidents_advance_from_pause_to_rest() {
    assert_eq!(advance_incident(incident(None)), IncidentStep::Reconcile);
    assert_eq!(advance_incident(incident(Some(hash(1)))), IncidentStep::Unpause);
    assert_eq!(
        conclude_incident(incident(Some(hash(1))), true),
        IncidentStep::Finalize { expected_revision: 7 }
    );
    assert_eq!(conclude_incident(incident(Some(hash(1))), false), IncidentStep::Rest);
    let entry = |id: u128, seconds: i64| PauseOperationEntry {
        account_pause_operation_id: id,
        created_at: at(seconds),
    };
    let listed = incident_operations(vec![entry(3, 9), entry(2, 5)], vec![entry(1, 9)]);
    let ids: Vec<u128> = listed.iter().map(|o| o.account_pause_operation_id).collect();
    assert_eq!(ids, vec![2, 1, 3]);
}

fn exchange(digit: &str) -> EvmAddress {
    EvmAddress::parse(&format!("0x{}", digit.repeat(40))).expect("address")
}

fn operation(id: u128, digit: &str) -> AccountPauseOperation {
    AccountPauseOperation {
        account_pause_operation_id: id,
        exchange_address: exchange(digit),
        state: AccountPauseOperationState::Submitted,
        requested_block: 10,
        effective_block: Some(20),
    }
}

fn event(effective_block: u64) -> PauseEvent {
    PauseEvent {
        effective_block,
        block_number: 12,
        block_hash: EvmHash { high: 1, low: 1 },
        transaction_hash: EvmHash { high: 2, low: 2 },
        log_index: 3,
    }
}

fn paused(current_block: u64) -> PauseReading {
    PauseReading {
        active: true,
        current_block,
        effective_block: Some(20),
        event: Some(event(20)),
    }
}

#[test]
fn pauses_are_confirmed_once_effective() {
    let pause = AccountPauseOperationKind::Pause;
    match examine_operation(pause, operation(1, "a"), paused(20), at(50)) {
        PauseVerdict::Confirmed(confirmation) => {
            assert_eq!(confirmation.block_number, 12);
            assert_eq!(confirmation.log_index, 3);
            assert_eq!(confirmation.confirmed_at, at(50));
        }
        other => panic!("unexpected {other:?}"),
    }
    assert_eq!(
        examine_operation(pause, operation(1, "a"), paused(19), at(50)),
        PauseVerdict::Pending
    );
    let mut settled = operation(1, "a");
    settled.state = AccountPauseOperationState::Confirmed;
    assert_eq!(examine_operation(pause, settled, paused(0), at(50)), PauseVerdict::Settled);
    let mut other = paused(20);
    other.event = Some(event(21));
    assert!(matches!(
        examine_operation(pause, operation(1, "a"), other, at(50)),
        PauseVerdict::Refused(ExecutionError::AccountChainProjection { .. })
    ));
    let mut blockless = operation(1, "a");
    blockless.effective_block = None;
    assert!(matches!(
        examine_operation(pause, blockless, paused(20), at(50)),
        PauseVerdict::Refused(_)
    ));
}

#[test]
fn unpauses_wait_for_the_account_to_be_free() {
    let unpause = AccountPauseOperationKind::Unpause;
    assert_eq!(
        examine_operation(unpause, operation(1, "a"), paused(20), at(50)),
        PauseVerdict::Pending
    );
    let free = PauseReading {
        active: false,
        current_block: 30,
        effective_block: None,
        event: Some(event(0)),
    };
    assert!(matches!(
        examine_operation(unpause, operation(1, "a"), free, at(50)),
        PauseVerdict::Confirmed(_)
    ));
    assert!(check_unpause(Some(hash(1))).is_ok());
    assert!(check_unpause(None).is_err());
}

#[test]
fn passes_cover_every_exchange() {
    let pause = AccountPauseOperationKind::Pause;
    let operations = vec![operation(1, "a"), operation(2, "b")];
    let (confirmed, end) =
        confirm_operations(pause, &operations, &vec![paused(20), paused(20)], 2, at(50));
    assert_eq!(confirmed.len(), 2);
    assert_eq!(end, PassEnd::Complete);
    let (confirmed, end) =
        confirm_operations(pause, &operations, &vec![paused(20), paused(20)], 3, at(50));
    assert!(confirmed.is_empty());
    assert_eq!(end, PassEnd::Pending);
    let missing = missing_exchanges(&vec![exchange("a"), exchange("c")], &operations);
    assert_eq!(missing, vec![exchange("c")]);
}

fn preparation() -> PrepareOperationInput {
    PrepareOperationInput {
        account_pause_operation_id: 1,
        recovery_incident_id: 2,
        exchange: exchange("a"),
        operation_kind: AccountPauseOperationKind::Pause,
        requested_block: 10,
        interval_blocks: Some(10),
        effective_block: Some(20),
        envelope: PreparedEnvelope {
            submission_kind: "relayer".to_owned(),
            prepared_block_number: 9,
            prepared_block_hash: "0x00".to_owned(),
            nonce: "4".to_owned(),
            gas_limit: None,
            calldata_hash: "0x01".to_owned(),
            deployment_digest: hash(6),
            envelope: "signed".to_owned(),
            envelope_hash: hash(7),
            transaction_hash: None,
        },
    }
}

#[test]
fn operations_are_prepared_as_rows() {
    let row = prepare_operation(preparation()).expect("row");
    assert_eq!(row.state, AccountPauseOperationState::Prepared);
    assert_eq!(row.interval_blocks, Some(10));
    assert_eq!(row.prepared_block_number, 9);
    let mut deep = preparation();
    deep.effective_block = Some(u64::MAX);
    assert_eq!(
        prepare_operation(deep),
        Err(ExecutionError::AccountChainProjection {
            reason: "account pause: effective_block overflow: out of range integral type conversion attempted"
                .to_owned(),
        })
    );
    assert_eq!(to_i64(5, "x"), Ok(5));
    assert_eq!(to_block(5), Ok(5));
    assert!(to_block(-1).is_err());
}

#[test]
fn passes_read_only_what_is_unconfirmed() {
    let mut operations = vec![operation(1, "a"), operation(2, "b"), operation(3, "c")];
    operations[0].state = AccountPauseOperationState::Confirmed;
    assert_eq!(next_confirmation(&operations, 4, 0), ConfirmationStep::Pending);
    assert_eq!(next_confirmation(&operations, 3, 0), ConfirmationStep::Read(1));
    assert_eq!(next_confirmation(&operations, 3, 2), ConfirmationStep::Read(2));
    assert_eq!(next_confirmation(&operations, 3, 3), ConfirmationStep::Complete);
    operations[1].state = AccountPauseOperationState::Confirmed;
    operations[2].state = AccountPauseOperationState::Confirmed;
    assert_eq!(next_confirmation(&operations, 3, 0), ConfirmationStep::Complete);
}
