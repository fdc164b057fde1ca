use quant_pivot_execution::account_chain_projector::{
    association_effects, latch_exit_only, AccountChainProjectionInput, ExchangeEvent,
    ExchangeEventKind, ExchangeSide, ExchangeVersion, NewAccountChainExecution, ProjectionBatch,
    PROJECTION_BATCH,
};
use quant_pivot_execution::account_recovery_reconciler::AccountChainExecutionRole;
use quant_pivot_execution::alerts::{AlertCategory, AlertLevel, AlertSource, OperatorAlert};
use quant_pivot_execution::decimal::Decimal;
use quant_pivot_execution::error::ExecutionError;
use quant_pivot_execution::evm::EvmAddress;
use quant_pivot_execution::plans::KillSwitchState;
use quant_pivot_execution::time::Timestamp;
use quant_pivot_execution::types::{ContentHash, Side};

const CONTRACT: &str = "0xE111180000d2663C0091e4f400237545B87B996B";
const SCHEMA_VERSION: u32 = 1;

fn dec(text: &str) -> Decimal {
    Decimal::parse(text).expect("decimal")
}

fn hash(seed: u8) -> ContentHash {
    let word = u128::from_be_bytes([seed; 16]);
    ContentHash { high: word, low: word }
}

fn hex(digit: &str, count: usize) -> String {
    format!("0x{}", digit.repeat(count))
}

fn event(side: ExchangeSide) -> ExchangeEvent {
    let (maker_amount, taker_amount) = match side {
        ExchangeSide::Buy => ("600000", "1000000"),
        ExchangeSide::Sell => ("1000000", "400000"),
        ExchangeSide::Unknown => ("0", "0"),
    };
    ExchangeEvent {
        event_id: hash(1),
        chain_id: 137,
        event_kind: ExchangeEventKind::OrderFilled,
        exchange_version: ExchangeVersion::V2,
        contract_address: CONTRACT.to_owned(),
        block_number: 1,
        block_hash: hex("3", 64),
        block_timestamp: 1_700_000_000_000,
        transaction_hash: hex("4", 64),
        transaction_index: 2,
        log_index: 3,
        order_hash: hex("5", 64),
        maker: "0x1111111111111111111111111111111111111111".to_owned(),
        taker: Some("0x2222222222222222222222222222222222222222".to_owned()),
        side,
        token_id: Some("12345".to_owned()),
        maker_amount: maker_amount.to_owned(),
        taker_amount: taker_amount.to_owned(),
        fee_amount: Some("10000".to_owned()),
        builder: Some(hex("6", 64)),
        metadata: Some(hex("7", 64)),
        model_available_at: 1_700_000_000_200,
        availability_policy_hash: hash(8),
        schema_version: SCHEMA_VERSION,
    }
}

fn try_project(
    event: &ExchangeEvent,
    taker_orders: &Vec<String>,
) -> Result<NewAccountChainExecution, ExecutionError> {
    let contracts = vec![EvmAddress::parse(CONTRACT).expect("contract")];
    AccountChainProjectionInput {
        execution_account_id: 9,
        account_chain_execution_id: 77,
        funder: EvmAddress::parse("0x1111111111111111111111111111111111111111").expect("funder"),
        event,
        taker_orders,
        contracts: &contracts,
        schema_version: SCHEMA_VERSION,
    }
    .project()
}

fn project(event: &ExchangeEvent, taker_orders: &Vec<String>) -> NewAccountChainExecution {
    try_project(event, taker_orders).expect("account execution")
}

fn refusal(event: &ExchangeEvent) -> String {
    match try_project(event, &Vec::new()) {
        Err(ExecutionError::AccountChainProjection { reason }) => reason,
        other => panic!("unexpected {other:?}"),
    }
}

#[test]
fn projects_maker_buy() {
    let projected = project(&event(ExchangeSide::Buy), &Vec::new());
    assert_eq!(projected.role, AccountChainExecutionRole::Maker);
    assert_eq!(projected.account_side, Some(Side::Buy));
    assert!(projected.shares.expect("shares").same(dec("1")));
    assert!(projected.principal_usd.expect("principal").same(dec("0.6")));
    assert!(projected.exact_fee_usd.expect("fee").same(dec("0.01")));
}

#[test]
fn projects_taker_sell() {
    let event = event(ExchangeSide::Sell);
    let taker_orders = vec![event.order_hash.clone()];
    let projected = project(&event, &taker_orders);
    assert_eq!(projected.role, AccountChainExecutionRole::Taker);
    assert_eq!(projected.account_side, Some(Side::Sell));
    assert!(projected.shares.expect("shares").same(dec("1")));
    assert!(projected.principal_usd.expect("principal").same(dec("0.4")));
    assert!(projected.exact_fee_usd.expect("fee").same(dec("0.01")));
}

#[test]
fn projects_self_match() {
    let mut event = event(ExchangeSide::Buy);
    event.taker = Some(event.maker.clone());
    let projected = project(&event, &Vec::new());
    assert_eq!(projected.role, AccountChainExecutionRole::SelfMatch);
}

#[test]
fn incident_latches_exit_only() {
    let mut state = KillSwitchState::Closed;
    let mut sets = 0;
    if let Some(command) = latch_exit_only(state, sets, 5) {
        state = command.target;
        sets += 1;
    }
    assert_eq!(state, KillSwitchState::ExitOnly);
    assert_eq!(sets, 1);
    if latch_exit_only(state, sets, 5).is_some() {
        sets += 1;
    }
    assert_eq!(sets, 1);
}

#[test]
fn latch_command_names_the_incident() {
    let command = latch_exit_only(KillSwitchState::Closed, 4, 0xff).expect("command");
    assert_eq!(command.expected_revision, 4);
    assert_eq!(command.actor, "account-chain-projector");
    assert_eq!(
        command.reason,
        "account recovery incident 00000000-0000-0000-0000-0000000000ff requires exit-only"
    );
    assert!(!command.ack && command.latch);
    assert!(latch_exit_only(KillSwitchState::EmergencyHalt, 4, 0xff).is_none());
}

#[test]
fn projection_keeps_the_chain_place() {
    let projected = project(&event(ExchangeSide::Buy), &Vec::new());
    assert_eq!(projected.chain_id, 137);
    assert_eq!(projected.protocol_version, 2);
    assert_eq!(projected.exchange_address.to_text(), CONTRACT.to_lowercase());
    assert_eq!(projected.block_number, 1);
    assert_eq!(projected.block_hash.high, u128::from_be_bytes([0x33; 16]));
    assert_eq!(projected.transaction_hash.low, u128::from_be_bytes([0x44; 16]));
    assert_eq!(projected.observed_at.whole_millis(), 1_700_000_000_000);
    assert_eq!(projected.available_at.whole_millis(), 1_700_000_000_200);
    assert_eq!(projected.order_token_id.text, "12345");
    assert_eq!(projected.source_event_hash, hash(1));
}

#[test]
fn each_projection_refusal_is_named() {
    let mut wrong_chain = event(ExchangeSide::Buy);
    wrong_chain.chain_id = 1;
    assert_eq!(refusal(&wrong_chain), "event is not an accepted registered V2 OrderFilled");

    let mut stranger = event(ExchangeSide::Buy);
    stranger.contract_address = hex("9", 40);
    assert_eq!(refusal(&stranger), "event is not an accepted registered V2 OrderFilled");

    let mut bad_maker = event(ExchangeSide::Buy);
    bad_maker.maker = "0x12".to_owned();
    assert_eq!(
        refusal(&bad_maker),
        "invalid maker address: expected 0x and 40 hexadecimal digits"
    );

    let mut no_taker = event(ExchangeSide::Buy);
    no_taker.taker = None;
    assert_eq!(refusal(&no_taker), "V2 OrderFilled has no taker");

    let mut foreign = event(ExchangeSide::Buy);
    foreign.maker = hex("2", 40);
    assert_eq!(
        refusal(&foreign),
        "account-scoped query returned an order not owned by the funder"
    );

    assert_eq!(refusal(&event(ExchangeSide::Unknown)), "V2 OrderFilled has unknown side");

    let mut no_token = event(ExchangeSide::Buy);
    no_token.token_id = None;
    assert_eq!(refusal(&no_token), "V2 OrderFilled has no token id");

    let mut no_shares = event(ExchangeSide::Buy);
    no_shares.taker_amount = "0".to_owned();
    assert_eq!(refusal(&no_shares), "account execution amounts are non-positive");

    let mut dear = event(ExchangeSide::Buy);
    dear.maker_amount = "1000001".to_owned();
    assert_eq!(refusal(&dear), "account execution price exceeds one");

    let mut no_fee = event(ExchangeSide::Buy);
    no_fee.fee_amount = None;
    assert_eq!(refusal(&no_fee), "V2 OrderFilled has no exact fee");

    let mut late = event(ExchangeSide::Buy);
    late.block_timestamp = i64::MAX;
    assert_eq!(refusal(&late), "invalid block_timestamp: 9223372036854775807");

    let mut deep = event(ExchangeSide::Buy);
    deep.log_index = u64::MAX;
    assert_eq!(
        refusal(&deep),
        "log index overflow: out of range integral type conversion attempted"
    );

    let mut bad_hash = event(ExchangeSide::Buy);
    bad_hash.block_hash = hex("g", 64);
    assert_eq!(
        refusal(&bad_hash),
        "invalid block hash: expected 0x and 64 hexadecimal digits"
    );

    let mut bad_amount = event(ExchangeSide::Buy);
    bad_amount.maker_amount = "six".to_owned();
    assert!(refusal(&bad_amount).starts_with("invalid maker_amount: "));
}

#[test]
fn one_refusal_refuses_the_batch() {
    let mut batch = ProjectionBatch {
        execution_account_id: 9,
        funder: EvmAddress::parse("0x1111111111111111111111111111111111111111").expect("funder"),
        events: vec![event(ExchangeSide::Buy), event(ExchangeSide::Sell)],
        execution_ids: vec![1, 2],
        taker_orders: Vec::new(),
        contracts: vec![EvmAddress::parse(CONTRACT).expect("contract")],
        schema_version: SCHEMA_VERSION,
    };
    let executions = batch.project().expect("batch");
    assert_eq!(executions.len(), 2);
    assert_eq!(executions[1].account_chain_execution_id, 2);
    batch.events[1].side = ExchangeSide::Unknown;
    assert!(batch.project().is_err());
}

#[test]
fn associations_restrict_and_alert() {
    let now = Timestamp::new(7, 0).expect("time");
    let unrelated = association_effects(None, true, "sold elsewhere", now);
    assert!(!unrelated.restrict && unrelated.alert.is_none());
    let known = association_effects(Some(3), false, "sold elsewhere", now);
    assert!(known.restrict && known.alert.is_none());
    let opened = association_effects(Some(3), true, "sold elsewhere", now);
    assert_eq!(
        opened.alert,
        Some(OperatorAlert {
            key: "account-recovery:00000000-0000-0000-0000-000000000003".to_owned(),
            level: AlertLevel::Critical,
            category: AlertCategory::TradingSafety,
            source: AlertSource::Execution,
            title: "Unknown external account execution".to_owned(),
            message: "sold elsewhere".to_owned(),
            raised_at: now,
            affects_trading: Some(true),
            dedupe_secs: None,
        })
    );
    assert_eq!(PROJECTION_BATCH, 512);
}

#[test]
fn addresses_ignore_letter_case() {
    let upper = EvmAddress::parse("0XABCDEFabcdef0000000000000000000000000001").expect("address");
    let lower = EvmAddress::parse("0xabcdefabcdef0000000000000000000000000001").expect("address");
    assert_eq!(upper, lower);
    assert_eq!(upper.to_text(), "0xabcdefabcdef0000000000000000000000000001");
    assert_eq!(EvmAddress::parse(&upper.to_text()), Some(upper));
    assert!(EvmAddress::parse("abcdefabcdef0000000000000000000000000001").is_none());
}
