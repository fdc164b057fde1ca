use quant_pivot_execution::account_chain_projector::{
    ExchangeEvent, ExchangeEventKind, ExchangeSide, ExchangeVersion,
};
use quant_pivot_execution::decimal::Decimal;
use quant_pivot_execution::error::ExecutionError;
use quant_pivot_execution::evm::EvmAddress;
use quant_pivot_execution::fee_settlement::{
    index_events, measurement, settle_pass, validate_event, ExecutionFill, FeeLiquidityRole,
    SettlementScope, UnsettledFill,
};
use quant_pivot_execution::time::Timestamp;
use quant_pivot_execution::types::{ContentHash, Ident, Side};

const CONTRACT: &str = "0xe111180000d2663c0091e4f400237545b87b996b";
const SCHEMA_VERSION: u32 = 1;

fn dec(text: &str) -> Decimal {
    Decimal::parse(text).expect("decimal")
}

fn hash(seed: u8) -> ContentHash {
    let word = u128::from_be_bytes([seed; 16]);
    ContentHash { high: word, low: word }
}

fn hex(digit: &str, count: usize) -> String {
    format!("0x{}", digit.repeat(count))
}

fn fill() -> ExecutionFill {
    ExecutionFill {
        venue_trade_id: Ident::new("trade-1"),
        venue_order_id: Ident::new(&hex("3", 64)),
        token_id: Ident::new("42"),
        side: Side::Buy,
        liquidity_role: FeeLiquidityRole::Taker,
        shares: dec("100"),
        price: dec("0.5"),
        principal_usd: dec("50"),
    }
}

fn event() -> ExchangeEvent {
    ExchangeEvent {
        event_id: hash(5),
        chain_id: 137,
        event_kind: ExchangeEventKind::OrderFilled,
        exchange_version: ExchangeVersion::V2,
        contract_address: CONTRACT.to_owned(),
        block_number: 90_000_000,
        block_hash: hex("7", 64),
        block_timestamp: 1_750_000_000_000,
        transaction_hash: hex("2", 64),
        transaction_index: 1,
        log_index: 2,
        order_hash: hex("3", 64),
        maker: hex("1", 40),
        taker: Some(hex("8", 40)),
        side: ExchangeSide::Buy,
        token_id: Some("42".to_owned()),
        maker_amount: "50000000".to_owned(),
        taker_amount: "100000000".to_owned(),
        fee_amount: Some("1000000".to_owned()),
        builder: None,
        metadata: None,
        model_available_at: 1_750_000_000_000,
        availability_policy_hash: hash(9),
        schema_version: SCHEMA_VERSION,
    }
}

fn contracts() -> Vec<EvmAddress> {
    vec![EvmAddress::parse(CONTRACT).expect("contract")]
}

fn scope(contracts: &Vec<EvmAddress>) -> SettlementScope<'_> {
    SettlementScope {
        funder: EvmAddress::parse(&hex("1", 40)).expect("funder"),
        contracts,
        schema_version: SCHEMA_VERSION,
    }
}

fn transaction() -> Ident {
    Ident::new(&hex("2", 64))
}

fn now() -> Timestamp {
    Timestamp::new(1_750_000_100, 0).expect("time")
}

fn pending() -> UnsettledFill {
    UnsettledFill { fill: fill(), transaction_hash: transaction() }
}

fn reason(result: Result<(), ExecutionError>) -> String {
    match result {
        Err(ExecutionError::ReconciliationUnresolvable { reason }) => reason,
        other => panic!("unexpected {other:?}"),
    }
}

#[test]
fn exact_event_identity_validates() {
    let contracts = contracts();
    assert!(validate_event(&fill(), &transaction(), &event(), &scope(&contracts)).is_ok());
}

#[test]
fn wrong_chain_fails_closed() {
    let contracts = contracts();
    let mut event = event();
    event.chain_id = 1;
    assert!(validate_event(&fill(), &transaction(), &event, &scope(&contracts)).is_err());
}

#[test]
fn duplicate_exact_logs_fail() {
    assert!(index_events(&vec![event(), event()]).is_err());
    assert!(index_events(&vec![event()]).is_ok());
}

#[test]
fn differing_amounts_fail_closed() {
    let contracts = contracts();
    let mut other = event();
    other.maker_amount = "50000001".to_owned();
    assert_eq!(
        reason(validate_event(&fill(), &transaction(), &other, &scope(&contracts))),
        "fee settlement for trade trade-1 failed: finalized V2 OrderFilled amounts differ from authenticated fill"
    );
    let mut unreadable = event();
    unreadable.taker_amount = "many".to_owned();
    assert!(reason(validate_event(&fill(), &transaction(), &unreadable, &scope(&contracts)))
        .starts_with("fee settlement for trade trade-1 failed: invalid V2 asset amount: "));
    let mut maker = event();
    maker.maker = "nobody".to_owned();
    assert!(reason(validate_event(&fill(), &transaction(), &maker, &scope(&contracts)))
        .contains("invalid order maker address: "));
}

#[test]
fn settled_fee_is_scaled() {
    let contracts = contracts();
    let mut event = event();
    event.builder = Some(hex("0", 64));
    let fee = measurement(&pending(), &event, &scope(&contracts), now()).expect("fee");
    assert!(fee.settled_fee.same(dec("1")));
    assert_eq!(fee.builder_code, None);
    assert_eq!(fee.log_index, 2);
    assert_eq!(fee.matched_at.whole_seconds(), 1_750_000_000);
    event.builder = Some(hex("6", 64));
    let fee = measurement(&pending(), &event, &scope(&contracts), now()).expect("fee");
    assert_eq!(fee.builder_code, Some(hex("6", 64)));
    event.fee_amount = None;
    assert!(measurement(&pending(), &event, &scope(&contracts), now()).is_err());
}

#[test]
fn pass_settles_what_is_available() {
    let contracts = contracts();
    let settled =
        settle_pass(&vec![pending()], &vec![event()], &scope(&contracts), now()).expect("pass");
    assert_eq!(settled.len(), 1);

    let mut late = event();
    late.model_available_at = now().whole_millis() + 1;
    let waiting =
        settle_pass(&vec![pending()], &vec![late], &scope(&contracts), now()).expect("pass");
    assert!(waiting.is_empty());

    let unknown = settle_pass(&vec![pending()], &Vec::new(), &scope(&contracts), now());
    assert!(unknown.expect("pass").is_empty());

    assert!(settle_pass(
        &vec![pending(), pending()],
        &vec![event()],
        &scope(&contracts),
        now()
    )
    .is_err());
    assert!(settle_pass(
        &vec![pending()],
        &vec![event(), event()],
        &scope(&contracts),
        now()
    )
    .is_err());
}
