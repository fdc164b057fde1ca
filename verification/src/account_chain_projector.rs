//! Finalized exchange events projected onto the account.
//!
//! An order-filled event that the account's funder signed becomes one execution
//! of the account: its role, its side, and the exact shares, principal and fee
//! that the chain recorded. Anything that is not such an event is refused.
use vstd::prelude::*;
use vstd::string::*;

use crate::account_recovery_reconciler::AccountChainExecutionRole;
use crate::alerts::{AlertCategory, AlertLevel, AlertSource, AlertView, OperatorAlert};
use crate::decimal::{Decimal, Shares, Usd};
use crate::error::{outcome, ErrorView, ExecutionError};
use crate::evm::{address_reading, hash_reading, EvmAddress, EvmHash};
use crate::plans::{KillSwitchState, SetKillSwitchCommand};
use crate::text::{integer_text, same_text, write_id, write_integer};
use crate::time::{in_calendar, Timestamp};
use crate::types::{
    AccountChainExecutionId, AccountRecoveryIncidentId, ContentHash, ExecutionAccountId, Ident,
    OrderId, Side, TokenId,
};

verus! {

/// Raw asset amounts are counted in millionths.
pub const ASSET_SCALE: u64 = 1000000;

/// Most events that one pass projects.
pub const PROJECTION_BATCH: u64 = 512;

/// The chain that the exchange runs on.
pub const EXCHANGE_CHAIN: u64 = 137;

/// What an exchange event reports.
#[derive(Clone, Copy, Debug, PartialEq, Eq, Structural)]
pub enum ExchangeEventKind {
    OrderFilled,
    OrdersMatched,
    Other,
}

/// Which exchange contract emitted an event.
#[derive(Clone, Copy, Debug, PartialEq, Eq, Structural)]
pub enum ExchangeVersion {
    V1,
    V2,
}

/// Side of the order of an exchange event.
#[derive(Clone, Copy, Debug, PartialEq, Eq, Structural)]
pub enum ExchangeSide {
    Buy,
    Sell,
    Unknown,
}

/// An indexed event of an exchange contract; times in milliseconds since the
/// epoch.
#[derive(Debug, PartialEq, Eq)]
pub struct ExchangeEvent {
    pub event_id: ContentHash,
    pub chain_id: u64,
    pub event_kind: ExchangeEventKind,
    pub exchange_version: ExchangeVersion,
    pub contract_address: String,
    pub block_number: u64,
    pub block_hash: String,
    pub block_timestamp: i64,
    pub transaction_hash: String,
    pub transaction_index: u64,
    pub log_index: u64,
    pub order_hash: String,
    pub maker: String,
    pub taker: Option<String>,
    pub side: ExchangeSide,
    pub token_id: Option<String>,
    pub maker_amount: String,
    pub taker_amount: String,
    pub fee_amount: Option<String>,
    pub builder: Option<String>,
    pub metadata: Option<String>,
    pub model_available_at: i64,
    pub availability_policy_hash: ContentHash,
    pub schema_version: u32,
}

/// An execution of the account as it is appended to the ledger.
#[derive(Debug, PartialEq, Eq)]
pub struct NewAccountChainExecution {
    pub account_chain_execution_id: AccountChainExecutionId,
    pub execution_account_id: ExecutionAccountId,
    pub role: AccountChainExecutionRole,
    pub chain_id: i64,
    pub protocol_version: i32,
    pub exchange_address: EvmAddress,
    pub block_number: i64,
    pub block_hash: EvmHash,
    pub transaction_hash: EvmHash,
    pub transaction_index: i64,
    pub log_index: i64,
    pub order_id: OrderId,
    pub maker_address: EvmAddress,
    pub taker_address: EvmAddress,
    pub order_side: Side,
    pub order_token_id: TokenId,
    pub maker_amount_raw: String,
    pub taker_amount_raw: String,
    pub account_side: Option<Side>,
    pub account_token_id: Option<TokenId>,
    pub shares: Option<Shares>,
    pub principal_usd: Option<Usd>,
    pub exact_fee_usd: Option<Usd>,
    pub builder_code: Option<String>,
    pub metadata: Option<String>,
    pub source_event_hash: ContentHash,
    pub availability_policy_hash: ContentHash,
    pub observed_at: Timestamp,
    pub available_at: Timestamp,
}

/// The refusal of an event.
pub open spec fn projection_refusal(reason: Seq<char>) -> ErrorView {
    ErrorView::AccountChainProjection { reason }
}

fn projection_error(reason: &str) -> (r: ExecutionError)
    ensures
        r@ == projection_refusal(reason@),
{
    ExecutionError::AccountChainProjection { reason: reason.to_owned() }
}

/// Whether a list holds an address.
pub open spec fn registered(contracts: Seq<EvmAddress>, raw: Seq<char>) -> bool {
    address_reading(raw) is Some && contracts.contains(address_reading(raw)->0)
}

pub(crate) fn is_registered(contracts: &Vec<EvmAddress>, raw: &str) -> (r: bool)
    ensures
        r == registered(contracts@, raw@),
{
    let address = match EvmAddress::parse(raw) {
        Some(address) => address,
        None => return false,
    };
    let mut i: usize = 0;
    while i < contracts.len()
        invariant
            i <= contracts.len(),
            address_reading(raw@) == Some(address),
            forall|j: int| 0 <= j < i ==> contracts@[j] != address,
        decreases contracts.len() - i,
    {
        if contracts[i] == address {
            assert(contracts@[i as int] == address);
            return true;
        }
        i = i + 1;
    }
    false
}

/// What a text reads as an address, or why it does not.
pub open spec fn address_or_refusal(raw: Seq<char>, field: Seq<char>) -> Result<
    EvmAddress,
    ErrorView,
> {
    match address_reading(raw) {
        Some(address) => Ok(address),
        None => Err(
            projection_refusal(
                "invalid "@ + field + " address: "@ + "expected 0x and 40 hexadecimal digits"@,
            ),
        ),
    }
}

/// Reads an address of an event.
pub fn parse_address(raw: &str, field: &str) -> (r: Result<EvmAddress, ExecutionError>)
    ensures
        outcome(r) == address_or_refusal(raw@, field@),
{
    match EvmAddress::parse(raw) {
        Some(address) => Ok(address),
        None => Err(
            projection_error(
                "invalid ".to_owned().concat(field).concat(" address: ").concat(
                    "expected 0x and 40 hexadecimal digits",
                ).as_str(),
            ),
        ),
    }
}

/// The asset scale as a decimal.
pub open spec fn asset_scale() -> Decimal {
    Decimal::of_parts(1000000, 0)
}

/// What a raw amount is worth, or why it cannot be read.
pub open spec fn asset_or_refusal(raw: Seq<char>, field: Seq<char>) -> Result<Decimal, ErrorView> {
    match Decimal::reading(raw) {
        Err(error) => Err(projection_refusal("invalid "@ + field + ": "@ + error)),
        Ok(value) => match value.quotient(asset_scale()) {
            Some(amount) => Ok(amount),
            None => Err(ErrorView::DecimalOverflow),
        },
    }
}

/// Reads a raw amount of an event.
pub fn decimal_asset(raw: &str, field: &str) -> (r: Result<Decimal, ExecutionError>)
    ensures
        outcome(r) == asset_or_refusal(raw@, field@),
{
    match Decimal::parse(raw) {
        Ok(value) => match value.checked_div(Decimal::from_whole(ASSET_SCALE)) {
            Some(amount) => Ok(amount),
            None => Err(ExecutionError::DecimalOverflow),
        },
        Err(error) => Err(
            projection_error(
                "invalid ".to_owned().concat(field).concat(": ").concat(error.as_str()).as_str(),
            ),
        ),
    }
}

/// The instant of an event, or why it cannot be read.
pub open spec fn time_or_refusal(value: i64, field: Seq<char>) -> Result<Timestamp, ErrorView> {
    if in_calendar(value * 1000000) {
        Ok(Timestamp::of_nanos(value * 1000000))
    } else {
        Err(projection_refusal("invalid "@ + field + ": "@ + integer_text(value as int)))
    }
}

/// Reads an instant of an event.
pub fn event_time(value: i64, field: &str) -> (r: Result<Timestamp, ExecutionError>)
    ensures
        outcome(r) == time_or_refusal(value, field@),
{
    match Timestamp::from_millis(value) {
        Some(at) => Ok(at),
        None => Err(
            projection_error(
                "invalid ".to_owned().concat(field).concat(": ").concat(
                    write_integer(value).as_str(),
                ).as_str(),
            ),
        ),
    }
}

/// A position in the chain as a signed number, or why it has none.
pub open spec fn position_or_refusal(value: u64, field: Seq<char>) -> Result<i64, ErrorView> {
    if value <= i64::MAX {
        Ok(value as i64)
    } else {
        Err(projection_refusal(field + " overflow: "@ + crate::text::conversion_overflow()))
    }
}

fn chain_position(value: u64, field: &str) -> (r: Result<i64, ExecutionError>)
    ensures
        outcome(r) == position_or_refusal(value, field@),
{
    if value <= 9223372036854775807 {
        Ok(value as i64)
    } else {
        Err(
            projection_error(
                field.to_owned().concat(" overflow: ").concat(
                    "out of range integral type conversion attempted",
                ).as_str(),
            ),
        )
    }
}

/// What a text reads as a hash, or why it does not.
pub open spec fn hash_or_refusal(raw: Seq<char>, field: Seq<char>) -> Result<EvmHash, ErrorView> {
    match hash_reading(raw) {
        Some(hash) => Ok(hash),
        None => Err(
            projection_refusal(
                "invalid "@ + field + ": "@ + "expected 0x and 64 hexadecimal digits"@,
            ),
        ),
    }
}

fn parse_hash(raw: &str, field: &str) -> (r: Result<EvmHash, ExecutionError>)
    ensures
        outcome(r) == hash_or_refusal(raw@, field@),
{
    match EvmHash::parse(raw) {
        Some(hash) => Ok(hash),
        None => Err(
            projection_error(
                "invalid ".to_owned().concat(field).concat(": ").concat(
                    "expected 0x and 64 hexadecimal digits",
                ).as_str(),
            ),
        ),
    }
}

/// Whether an event is one that the account's ledger accepts.
pub open spec fn accepted(
    event: ExchangeEvent,
    contracts: Seq<EvmAddress>,
    schema_version: u32,
) -> bool {
    &&& event.chain_id == EXCHANGE_CHAIN
    &&& event.event_kind == ExchangeEventKind::OrderFilled
    &&& event.exchange_version == ExchangeVersion::V2
    &&& event.schema_version == schema_version
    &&& registered(contracts, event.contract_address@)
}

/// The two parties of an event, the first of which has to be the funder.
pub open spec fn parties(event: ExchangeEvent, funder: EvmAddress) -> Result<
    (EvmAddress, EvmAddress),
    ErrorView,
> {
    match address_or_refusal(event.maker@, "maker"@) {
        Err(error) => Err(error),
        Ok(maker) => match event.taker {
            None => Err(projection_refusal("V2 OrderFilled has no taker"@)),
            Some(raw) => match address_or_refusal(raw@, "taker"@) {
                Err(error) => Err(error),
                Ok(taker) => if maker != funder {
                    Err(
                        projection_refusal(
                            "account-scoped query returned an order not owned by the funder"@,
                        ),
                    )
                } else {
                    Ok((maker, taker))
                },
            },
        },
    }
}

/// The account's part in an execution that it made.
pub open spec fn account_role(
    event: ExchangeEvent,
    funder: EvmAddress,
    taker: EvmAddress,
    taker_orders: Seq<String>,
) -> AccountChainExecutionRole {
    if taker == funder {
        AccountChainExecutionRole::SelfMatch
    } else if exists|i: int|
        0 <= i < taker_orders.len() && (#[trigger] taker_orders[i])@ == event.order_hash@ {
        AccountChainExecutionRole::Taker
    } else {
        AccountChainExecutionRole::Maker
    }
}

/// The side of an execution and the token that it trades.
pub open spec fn traded(event: ExchangeEvent) -> Result<(Side, String), ErrorView> {
    match event.side {
        ExchangeSide::Unknown => Err(projection_refusal("V2 OrderFilled has unknown side"@)),
        ExchangeSide::Buy => match event.token_id {
            Some(token) => Ok((Side::Buy, token)),
            None => Err(projection_refusal("V2 OrderFilled has no token id"@)),
        },
        ExchangeSide::Sell => match event.token_id {
            Some(token) => Ok((Side::Sell, token)),
            None => Err(projection_refusal("V2 OrderFilled has no token id"@)),
        },
    }
}

/// What an execution moved.
#[derive(Clone, Copy, Debug, PartialEq, Eq)]
pub struct ExecutionAmounts {
    pub principal: Usd,
    pub shares: Shares,
    pub fee: Usd,
}

/// Principal, shares and fee of an execution. A buyer pays the maker amount for
/// the taker amount of shares; a seller the other way round.
pub open spec fn amounts(event: ExchangeEvent, side: Side) -> Result<ExecutionAmounts, ErrorView> {
    match asset_or_refusal(event.maker_amount@, "maker_amount"@) {
        Err(error) => Err(error),
        Ok(maker) => match asset_or_refusal(event.taker_amount@, "taker_amount"@) {
            Err(error) => Err(error),
            Ok(taker) => {
                let principal = if side == Side::Buy {
                    maker
                } else {
                    taker
                };
                let shares = if side == Side::Buy {
                    taker
                } else {
                    maker
                };
                if shares@ <= 0 || principal@ < 0 {
                    Err(projection_refusal("account execution amounts are non-positive"@))
                } else {
                    match principal.quotient(shares) {
                        None => Err(ErrorView::DecimalOverflow),
                        Some(price) => if price@ > Decimal::of_parts(1, 0)@ {
                            Err(projection_refusal("account execution price exceeds one"@))
                        } else {
                            match event.fee_amount {
                                None => Err(
                                    projection_refusal("V2 OrderFilled has no exact fee"@),
                                ),
                                Some(raw) => match asset_or_refusal(raw@, "fee_amount"@) {
                                    Err(error) => Err(error),
                                    Ok(fee) => Ok(ExecutionAmounts { principal, shares, fee }),
                                },
                            }
                        },
                    }
                }
            },
        },
    }
}

/// Where in the chain an execution stands, and when.
#[derive(Clone, Copy, Debug, PartialEq, Eq, Structural)]
pub struct ExecutionPlace {
    pub exchange_address: EvmAddress,
    pub block_number: i64,
    pub block_hash: EvmHash,
    pub transaction_hash: EvmHash,
    pub transaction_index: i64,
    pub log_index: i64,
    pub observed_at: Timestamp,
    pub available_at: Timestamp,
}

/// Where in the chain an event stands, and when.
pub open spec fn place(event: ExchangeEvent) -> Result<ExecutionPlace, ErrorView> {
    match address_or_refusal(event.contract_address@, "exchange"@) {
        Err(error) => Err(error),
        Ok(exchange_address) => match position_or_refusal(event.block_number, "block number"@) {
            Err(error) => Err(error),
            Ok(block_number) => match hash_or_refusal(event.block_hash@, "block hash"@) {
                Err(error) => Err(error),
                Ok(block_hash) => match hash_or_refusal(
                    event.transaction_hash@,
                    "transaction hash"@,
                ) {
                    Err(error) => Err(error),
                    Ok(transaction_hash) => match position_or_refusal(
                        event.transaction_index,
                        "transaction index"@,
                    ) {
                        Err(error) => Err(error),
                        Ok(transaction_index) => match position_or_refusal(
                            event.log_index,
                            "log index"@,
                        ) {
                            Err(error) => Err(error),
                            Ok(log_index) => match time_or_refusal(
                                event.block_timestamp,
                                "block_timestamp"@,
                            ) {
                                Err(error) => Err(error),
                                Ok(observed_at) => match time_or_refusal(
                                    event.model_available_at,
                                    "model_available_at"@,
                                ) {
                                    Err(error) => Err(error),
                                    Ok(available_at) => Ok(
                                        ExecutionPlace {
                                            exchange_address,
                                            block_number,
                                            block_hash,
                                            transaction_hash,
                                            transaction_index,
                                            log_index,
                                            observed_at,
                                            available_at,
                                        },
                                    ),
                                },
                            },
                        },
                    },
                },
            },
        },
    }
}

/// What one event is projected from.
pub struct AccountChainProjectionInput<'a> {
    pub execution_account_id: ExecutionAccountId,
    /// The identity derived from the event's hash.
    pub account_chain_execution_id: AccountChainExecutionId,
    pub funder: EvmAddress,
    pub event: &'a ExchangeEvent,
    /// The order hashes that were takers of a match.
    pub taker_orders: &'a Vec<String>,
    /// The registered exchange contracts.
    pub contracts: &'a Vec<EvmAddress>,
    /// The schema version that is accepted.
    pub schema_version: u32,
}

/// The execution that an event is.
pub open spec fn projected(input: AccountChainProjectionInput) -> Result<
    NewAccountChainExecution,
    ErrorView,
> {
    let event = *input.event;
    if !accepted(event, input.contracts@, input.schema_version) {
        Err(projection_refusal("event is not an accepted registered V2 OrderFilled"@))
    } else {
        match parties(event, input.funder) {
            Err(error) => Err(error),
            Ok((maker, taker)) => match traded(event) {
                Err(error) => Err(error),
                Ok((side, token)) => match amounts(event, side) {
                    Err(error) => Err(error),
                    Ok(moved) => match place(event) {
                        Err(error) => Err(error),
                        Ok(at) => Ok(
                            NewAccountChainExecution {
                                account_chain_execution_id: input.account_chain_execution_id,
                                execution_account_id: input.execution_account_id,
                                role: account_role(
                                    event,
                                    input.funder,
                                    taker,
                                    input.taker_orders@,
                                ),
                                chain_id: 137,
                                protocol_version: 2,
                                exchange_address: at.exchange_address,
                                block_number: at.block_number,
                                block_hash: at.block_hash,
                                transaction_hash: at.transaction_hash,
                                transaction_index: at.transaction_index,
                                log_index: at.log_index,
                                order_id: Ident { text: event.order_hash },
                                maker_address: maker,
                                taker_address: taker,
                                order_side: side,
                                order_token_id: Ident { text: token },
                                maker_amount_raw: event.maker_amount,
                                taker_amount_raw: event.taker_amount,
                                account_side: Some(side),
                                account_token_id: Some(Ident { text: token }),
                                shares: Some(moved.shares),
                                principal_usd: Some(moved.principal),
                                exact_fee_usd: Some(moved.fee),
                                builder_code: event.builder,
                                metadata: event.metadata,
                                source_event_hash: event.event_id,
                                availability_policy_hash: event.availability_policy_hash,
                                observed_at: at.observed_at,
                                available_at: at.available_at,
                            },
                        ),
                    },
                },
            },
        }
    }
}

fn read_parties(event: &ExchangeEvent, funder: EvmAddress) -> (r: Result<
    (EvmAddress, EvmAddress),
    ExecutionError,
>)
    ensures
        outcome(r) == parties(*event, funder),
{
    let maker = match parse_address(event.maker.as_str(), "maker") {
        Ok(maker) => maker,
        Err(error) => return Err(error),
    };
    let taker = match &event.taker {
        None => return Err(projection_error("V2 OrderFilled has no taker")),
        Some(raw) => match parse_address(raw.as_str(), "taker") {
            Ok(taker) => taker,
            Err(error) => return Err(error),
        },
    };
    if maker != funder {
        return Err(
            projection_error("account-scoped query returned an order not owned by the funder"),
        );
    }
    Ok((maker, taker))
}

fn read_role(
    event: &ExchangeEvent,
    funder: EvmAddress,
    taker: EvmAddress,
    taker_orders: &Vec<String>,
) -> (r: AccountChainExecutionRole)
    ensures
        r == account_role(*event, funder, taker, taker_orders@),
{
    if taker == funder {
        return AccountChainExecutionRole::SelfMatch;
    }
    let mut i: usize = 0;
    while i < taker_orders.len()
        invariant
            i <= taker_orders.len(),
            taker != funder,
            forall|j: int| 0 <= j < i ==> (#[trigger] taker_orders@[j])@ != event.order_hash@,
        decreases taker_orders.len() - i,
    {
        if same_text(taker_orders[i].as_str(), event.order_hash.as_str()) {
            assert(taker_orders@[i as int]@ == event.order_hash@);
            return AccountChainExecutionRole::Taker;
        }
        i = i + 1;
    }
    AccountChainExecutionRole::Maker
}

fn read_traded(event: &ExchangeEvent) -> (r: Result<(Side, String), ExecutionError>)
    ensures
        outcome(r) == traded(*event),
{
    let side = match event.side {
        ExchangeSide::Buy => Side::Buy,
        ExchangeSide::Sell => Side::Sell,
        ExchangeSide::Unknown => {
            return Err(projection_error("V2 OrderFilled has unknown side"));
        },
    };
    match &event.token_id {
        Some(token) => Ok((side, token.clone())),
        None => Err(projection_error("V2 OrderFilled has no token id")),
    }
}

fn read_amounts(event: &ExchangeEvent, side: Side) -> (r: Result<ExecutionAmounts, ExecutionError>)
    ensures
        outcome(r) == amounts(*event, side),
{
    let maker = match decimal_asset(event.maker_amount.as_str(), "maker_amount") {
        Ok(amount) => amount,
        Err(error) => return Err(error),
    };
    let taker = match decimal_asset(event.taker_amount.as_str(), "taker_amount") {
        Ok(amount) => amount,
        Err(error) => return Err(error),
    };
    let (principal, shares) = match side {
        Side::Buy => (maker, taker),
        Side::Sell => (taker, maker),
    };
    if !shares.is_positive() || principal.is_negative() {
        return Err(projection_error("account execution amounts are non-positive"));
    }
    let price = match principal.checked_div(shares) {
        Some(price) => price,
        None => return Err(ExecutionError::DecimalOverflow),
    };
    if Decimal::one().lt(price) {
        return Err(projection_error("account execution price exceeds one"));
    }
    match &event.fee_amount {
        None => Err(projection_error("V2 OrderFilled has no exact fee")),
        Some(raw) => match decimal_asset(raw.as_str(), "fee_amount") {
            Ok(fee) => Ok(ExecutionAmounts { principal, shares, fee }),
            Err(error) => Err(error),
        },
    }
}

fn read_place(event: &ExchangeEvent) -> (r: Result<ExecutionPlace, ExecutionError>)
    ensures
        outcome(r) == place(*event),
{
    let exchange_address = match parse_address(event.contract_address.as_str(), "exchange") {
        Ok(address) => address,
        Err(error) => return Err(error),
    };
    let block_number: i64 = match chain_position(event.block_number, "block number") {
        Ok(number) => number,
        Err(error) => return Err(error),
    };
    let block_hash = match parse_hash(event.block_hash.as_str(), "block hash") {
        Ok(hash) => hash,
        Err(error) => return Err(error),
    };
    let transaction_hash = match parse_hash(event.transaction_hash.as_str(), "transaction hash") {
        Ok(hash) => hash,
        Err(error) => return Err(error),
    };
    let transaction_index: i64 = match chain_position(
        event.transaction_index,
        "transaction index",
    ) {
        Ok(index) => index,
        Err(error) => return Err(error),
    };
    let log_index: i64 = match chain_position(event.log_index, "log index") {
        Ok(index) => index,
        Err(error) => return Err(error),
    };
    let observed_at = match event_time(event.block_timestamp, "block_timestamp") {
        Ok(at) => at,
        Err(error) => return Err(error),
    };
    let available_at = match event_time(event.model_available_at, "model_available_at") {
        Ok(at) => at,
        Err(error) => return Err(error),
    };
    Ok(
        ExecutionPlace {
            exchange_address,
            block_number,
            block_hash,
            transaction_hash,
            transaction_index,
            log_index,
            observed_at,
            available_at,
        },
    )
}

fn copy_text(text: &Option<String>) -> (r: Option<String>)
    ensures
        r == *text,
{
    match text {
        Some(value) => Some(value.clone()),
        None => None,
    }
}

impl<'a> AccountChainProjectionInput<'a> {
    /// Projects the event onto the account.
    pub fn project(&self) -> (r: Result<NewAccountChainExecution, ExecutionError>)
        ensures
            outcome(r) == projected(*self),
    {
        let event = self.event;
        if event.chain_id != EXCHANGE_CHAIN || event.event_kind != ExchangeEventKind::OrderFilled
            || event.exchange_version != ExchangeVersion::V2 || event.schema_version
            != self.schema_version || !is_registered(
            self.contracts,
            event.contract_address.as_str(),
        ) {
            return Err(projection_error("event is not an accepted registered V2 OrderFilled"));
        }
        let (maker, taker) = match read_parties(event, self.funder) {
            Ok(pair) => pair,
            Err(error) => return Err(error),
        };
        let role = read_role(event, self.funder, taker, self.taker_orders);
        let (side, token) = match read_traded(event) {
            Ok(pair) => pair,
            Err(error) => return Err(error),
        };
        let moved = match read_amounts(event, side) {
            Ok(moved) => moved,
            Err(error) => return Err(error),
        };
        let at = match read_place(event) {
            Ok(at) => at,
            Err(error) => return Err(error),
        };
        Ok(
            NewAccountChainExecution {
                account_chain_execution_id: self.account_chain_execution_id,
                execution_account_id: self.execution_account_id,
                role,
                chain_id: 137,
                protocol_version: 2,
                exchange_address: at.exchange_address,
                block_number: at.block_number,
                block_hash: at.block_hash,
                transaction_hash: at.transaction_hash,
                transaction_index: at.transaction_index,
                log_index: at.log_index,
                order_id: Ident { text: event.order_hash.clone() },
                maker_address: maker,
                taker_address: taker,
                order_side: side,
                order_token_id: Ident { text: token.clone() },
                maker_amount_raw: event.maker_amount.clone(),
                taker_amount_raw: event.taker_amount.clone(),
                account_side: Some(side),
                account_token_id: Some(Ident { text: token }),
                shares: Some(moved.shares),
                principal_usd: Some(moved.principal),
                exact_fee_usd: Some(moved.fee),
                builder_code: copy_text(&event.builder),
                metadata: copy_text(&event.metadata),
                source_event_hash: event.event_id,
                availability_policy_hash: event.availability_policy_hash,
                observed_at: at.observed_at,
                available_at: at.available_at,
            },
        )
    }
}

/// A batch of events with the identities derived from their hashes, and what
/// they are projected against.
pub struct ProjectionBatch {
    pub execution_account_id: ExecutionAccountId,
    pub funder: EvmAddress,
    pub events: Vec<ExchangeEvent>,
    pub execution_ids: Vec<AccountChainExecutionId>,
    pub taker_orders: Vec<String>,
    pub contracts: Vec<EvmAddress>,
    pub schema_version: u32,
}

impl ProjectionBatch {
    /// What the event at a position is projected from.
    pub open spec fn input(self, position: int) -> AccountChainProjectionInput<'static> {
        AccountChainProjectionInput {
            execution_account_id: self.execution_account_id,
            account_chain_execution_id: self.execution_ids@[position],
            funder: self.funder,
            event: &self.events@[position],
            taker_orders: &self.taker_orders,
            contracts: &self.contracts,
            schema_version: self.schema_version,
        }
    }

    /// The executions of the first events, or the first refusal among them.
    pub open spec fn executions(self, count: int) -> Result<Seq<NewAccountChainExecution>, ErrorView>
        decreases count,
    {
        if count <= 0 {
            Ok(Seq::empty())
        } else {
            match self.executions(count - 1) {
                Err(error) => Err(error),
                Ok(front) => match projected(self.input(count - 1)) {
                    Err(error) => Err(error),
                    Ok(execution) => Ok(front.push(execution)),
                },
            }
        }
    }

    proof fn lemma_refused(self, few: int, many: int)
        requires
            0 <= few <= many,
            self.executions(few) is Err,
        ensures
            self.executions(many) == self.executions(few),
        decreases many,
    {
        if few < many {
            self.lemma_refused(few, many - 1);
        }
    }

    /// Projects all events; the first refusal refuses the batch.
    pub fn project(&self) -> (r: Result<Vec<NewAccountChainExecution>, ExecutionError>)
        requires
            self.execution_ids@.len() == self.events@.len(),
        ensures
            match self.executions(self.events@.len() as int) {
                Ok(executions) => r is Ok && r->Ok_0@ == executions,
                Err(error) => r is Err && r->Err_0@ == error,
            },
    {
        let mut executions: Vec<NewAccountChainExecution> = Vec::new();
        let mut i: usize = 0;
        while i < self.events.len()
            invariant
                i <= self.events.len(),
                self.execution_ids@.len() == self.events@.len(),
                self.executions(i as int) == Ok::<Seq<NewAccountChainExecution>, ErrorView>(
                    executions@,
                ),
            decreases self.events.len() - i,
        {
            let input = AccountChainProjectionInput {
                execution_account_id: self.execution_account_id,
                account_chain_execution_id: self.execution_ids[i],
                funder: self.funder,
                event: &self.events[i],
                taker_orders: &self.taker_orders,
                contracts: &self.contracts,
                schema_version: self.schema_version,
            };
            assert(input == self.input(i as int));
            match input.project() {
                Ok(execution) => {
                    executions.push(execution);
                },
                Err(error) => {
                    proof {
                        self.lemma_refused(i + 1, self.events@.len() as int);
                    }
                    return Err(error);
                },
            }
            i = i + 1;
        }
        Ok(executions)
    }
}

/// A projected execution was made by the funder at a registered contract, moves
/// a positive number of shares at no negative principal, and is a self-match
/// exactly where the funder stands on both sides.
pub proof fn projections_are_the_accounts_own(input: AccountChainProjectionInput)
    requires
        projected(input) is Ok,
    ensures
        projected(input)->Ok_0.maker_address == input.funder,
        input.contracts@.contains(projected(input)->Ok_0.exchange_address),
        projected(input)->Ok_0.shares is Some,
        projected(input)->Ok_0.shares->0@ > 0,
        projected(input)->Ok_0.principal_usd is Some,
        projected(input)->Ok_0.principal_usd->0@ >= 0,
        projected(input)->Ok_0.exact_fee_usd is Some,
        projected(input)->Ok_0.role == AccountChainExecutionRole::SelfMatch <==> projected(
            input,
        )->Ok_0.taker_address == input.funder,
{
}

/// The command that an open recovery incident owes the kill switch: none where
/// the switch is at least as strict as exit-only.
pub fn latch_exit_only(
    current: KillSwitchState,
    revision: i64,
    incident_id: AccountRecoveryIncidentId,
) -> (r: Option<SetKillSwitchCommand>)
    ensures
        r is None <==> current.rank() >= KillSwitchState::ExitOnly.rank(),
        r is Some <==> current is Closed,
        match r {
            Some(command) => {
                &&& command.expected_revision == revision
                &&& command.target == KillSwitchState::ExitOnly
                &&& command.actor@ == "account-chain-projector"@
                &&& command.reason@ == "account recovery incident "@ + crate::text::id_text(
                    incident_id,
                ) + " requires exit-only"@
                &&& !command.ack
                &&& command.latch
            },
            None => true,
        },
{
    if current.restriction_rank() >= KillSwitchState::ExitOnly.restriction_rank() {
        return None;
    }
    Some(
        SetKillSwitchCommand {
            expected_revision: revision,
            target: KillSwitchState::ExitOnly,
            actor: "account-chain-projector".to_owned(),
            reason: "account recovery incident ".to_owned().concat(
                write_id(incident_id).as_str(),
            ).concat(" requires exit-only"),
            ack: false,
            latch: true,
        },
    )
}

/// What the association of an execution with an incident asks for.
#[derive(Debug, PartialEq, Eq)]
pub struct AssociationEffects {
    /// Latch the kill switch and pause the account.
    pub restrict: bool,
    /// What the operators are told.
    pub alert: Option<OperatorAlert>,
}

/// The alert on an execution that nobody knows of: critical, a matter of trading
/// safety that affects trading, raised by execution.
pub open spec fn incident_alert(
    incident: AccountRecoveryIncidentId,
    reason: Seq<char>,
    now: Timestamp,
) -> AlertView {
    AlertView {
        key: "account-recovery:"@ + crate::text::id_text(incident),
        level: AlertLevel::Critical,
        category: AlertCategory::TradingSafety,
        source: AlertSource::Execution,
        title: "Unknown external account execution"@,
        message: reason,
        raised_at: now,
        affects_trading: Some(true),
        dedupe_secs: None,
    }
}

/// An execution that belongs to an incident restricts trading; one that opened
/// the incident, for the reason given, alerts the operators as well.
pub fn association_effects(
    incident: Option<AccountRecoveryIncidentId>,
    incident_created: bool,
    reason: &str,
    now: Timestamp,
) -> (r: AssociationEffects)
    ensures
        r.restrict == incident is Some,
        r.alert is Some <==> incident is Some && incident_created,
        r.alert matches Some(alert) ==> alert@ == incident_alert(incident->0, reason@, now),
{
    match incident {
        Some(id) => AssociationEffects {
            restrict: true,
            alert: if incident_created {
                Some(
                    OperatorAlert {
                        key: "account-recovery:".to_owned().concat(write_id(id).as_str()),
                        level: AlertLevel::Critical,
                        category: AlertCategory::TradingSafety,
                        source: AlertSource::Execution,
                        title: "Unknown external account execution".to_owned(),
                        message: reason.to_owned(),
                        raised_at: now,
                        affects_trading: Some(true),
                        dedupe_secs: None,
                    },
                )
            } else {
                None
            },
        },
        None => AssociationEffects { restrict: false, alert: None },
    }
}

} // verus!
