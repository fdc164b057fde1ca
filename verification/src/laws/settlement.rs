//! What settling fills, sales and chain events is for.
use vstd::arithmetic::power::pow;
use vstd::prelude::*;

use crate::account_chain_projector::{
    account_role, amounts, projected, AccountChainProjectionInput, ExchangeEvent,
};
use crate::account_recovery_reconciler::AccountChainExecutionRole;
use crate::decimal::{whole_numbers_have_their_value, Decimal, Price, Usd};
use crate::dispatcher::{fee_delta, submission_write, CapitalSettlement};
use crate::evm::{address_reading, hash_reading, EvmAddress};
use crate::exit_dispatcher::exit_write;
use crate::exit_monitor::{ExitReason, PositionLot};
use crate::fee_settlement::{measured, validated, ExecutionFill, SettlementScope, UnsettledFill};
use crate::laws::values::{divides_to, leaves, multiplies_to, sums_to};
use crate::orders::{
    EntryOrderSpec, ExecutionOrderInfo, ExecutionOrderState, OrderIntentStatus, VenueSubmitResult,
};
use crate::plans::{ExitState, RecommendationInfo};
use crate::time::Timestamp;
use crate::types::{ExecutionAccountId, Side};

verus! {

/// A raw amount reads as a number of millionths, and is worth that.
pub open spec fn is_worth(raw: Seq<char>, millionths: Decimal, amount: Decimal) -> bool {
    Decimal::reading(raw) == Ok::<Decimal, Seq<char>>(millionths) && divides_to(
        millionths,
        Decimal::of_parts(1000000, 0),
        amount,
    )
}

/// What is worth an amount is a million times as many millionths.
proof fn lemma_millionths(raw: Seq<char>, millionths: Decimal, amount: Decimal)
    requires
        is_worth(raw, millionths, amount),
    ensures
        millionths@ == amount@ * 1000000,
{
    let one = pow(10, 28);
    whole_numbers_have_their_value(1000000);
    vstd::arithmetic::power::lemma_pow_positive(10, 28);
    let a = amount@;
    let m = millionths@;
    assert(m == a * 1000000) by (nonlinear_arith)
        requires
            a * (1000000 * one) == m * one,
            one > 0,
    ;
}

/// Whether an event is the finalized event of a fill: emitted by a registered
/// exchange under the accepted schema, for the funder's order, in the fill's
/// transaction, of its token and side.
pub open spec fn is_the_fills_own(
    fill: ExecutionFill,
    transaction_hash: Seq<char>,
    event: ExchangeEvent,
    scope: SettlementScope,
) -> bool {
    &&& event.chain_id == 137
    &&& event.event_kind is OrderFilled
    &&& event.exchange_version is V2
    &&& event.schema_version == scope.schema_version
    &&& address_reading(event.contract_address@) is Some && scope.contracts@.contains(
        address_reading(event.contract_address@)->0,
    )
    &&& address_reading(event.maker@) == Some(scope.funder)
    &&& event.order_hash@ == fill.venue_order_id@
    &&& event.transaction_hash@ == transaction_hash
    &&& event.token_id is Some && event.token_id->0@ == fill.token_id@
    &&& fill.side == Side::Buy ==> event.side is Buy
    &&& fill.side == Side::Sell ==> event.side is Sell
}

/// An event that is not the fill's own settles nothing.
pub proof fn strange_events_settle_nothing(
    fill: ExecutionFill,
    transaction_hash: Seq<char>,
    event: ExchangeEvent,
    scope: SettlementScope,
)
    ensures
        !is_the_fills_own(fill, transaction_hash, event, scope) ==> validated(
            fill,
            transaction_hash,
            event,
            scope,
        ) is Err,
{
}

/// The fill's own event settles a sale exactly where the maker gave the fill's
/// shares and the taker its principal, at its price.
pub proof fn sales_give_shares_for_principal(
    fill: ExecutionFill,
    transaction_hash: Seq<char>,
    event: ExchangeEvent,
    scope: SettlementScope,
    given: Decimal,
    received: Decimal,
    shares: Decimal,
    principal: Decimal,
    price: Price,
)
    requires
        is_the_fills_own(fill, transaction_hash, event, scope),
        fill.side == Side::Sell,
        is_worth(event.maker_amount@, given, shares),
        is_worth(event.taker_amount@, received, principal),
        principal.quotient(shares) == Some(price),
    ensures
        validated(fill, transaction_hash, event, scope) is Ok <==> given@ == fill.shares@ * 1000000
            && received@ == fill.principal_usd@ * 1000000 && fill.shares@ > 0 && price@
            == fill.price@,
{
    lemma_millionths(event.maker_amount@, given, shares);
    lemma_millionths(event.taker_amount@, received, principal);
}

/// The fill's own event settles a purchase exactly where the maker gave the
/// fill's principal and the taker its shares, at its price.
pub proof fn purchases_give_principal_for_shares(
    fill: ExecutionFill,
    transaction_hash: Seq<char>,
    event: ExchangeEvent,
    scope: SettlementScope,
    given: Decimal,
    received: Decimal,
    principal: Decimal,
    shares: Decimal,
    price: Price,
)
    requires
        is_the_fills_own(fill, transaction_hash, event, scope),
        fill.side == Side::Buy,
        is_worth(event.maker_amount@, given, principal),
        is_worth(event.taker_amount@, received, shares),
        principal.quotient(shares) == Some(price),
    ensures
        validated(fill, transaction_hash, event, scope) is Ok <==> received@ == fill.shares@
            * 1000000 && given@ == fill.principal_usd@ * 1000000 && fill.shares@ > 0 && price@
            == fill.price@,
{
    lemma_millionths(event.maker_amount@, given, principal);
    lemma_millionths(event.taker_amount@, received, shares);
}

/// The settled fee is the event's own, in millionths, under the fill's trade,
/// order and role, at the event's place and time.
pub proof fn settled_fees_are_the_events_own(
    pending: UnsettledFill,
    event: ExchangeEvent,
    scope: SettlementScope,
    available_at: Timestamp,
    millionths: Decimal,
    fee: Usd,
)
    requires
        event.fee_amount is Some ==> is_worth(event.fee_amount->0@, millionths, fee),
    ensures
        measured(pending, event, scope, available_at) matches Ok(settled) ==> {
            &&& event.fee_amount is Some
            &&& settled.settled_fee@ * 1000000 == millionths@
            &&& settled.venue_trade_id == pending.fill.venue_trade_id
            &&& settled.order_id == pending.fill.venue_order_id
            &&& settled.liquidity_role == pending.fill.liquidity_role
            &&& settled.chain_id == 137 && settled.protocol_version == 2
            &&& Some(settled.exchange_address) == address_reading(event.contract_address@)
            &&& Some(settled.transaction_hash) == hash_reading(event.transaction_hash@)
            &&& settled.log_index == event.log_index
            &&& settled.matched_at == Timestamp::of_nanos(event.block_timestamp * 1000000)
            &&& settled.available_at == available_at
            &&& settled.builder_code is Some ==> settled.builder_code == event.builder
            &&& event.builder is None ==> settled.builder_code is None
            &&& validated(pending.fill, pending.transaction_hash@, event, scope) is Ok
        },
        validated(pending.fill, pending.transaction_hash@, event, scope) is Ok && event.fee_amount
            is Some && hash_reading(event.transaction_hash@) is Some && crate::time::in_calendar(
            event.block_timestamp * 1000000,
        ) ==> measured(pending, event, scope, available_at) is Ok,
{
    if event.fee_amount is Some {
        lemma_millionths(event.fee_amount->0@, millionths, fee);
    }
}

/// A chain event moves shares for principal as its side says: a purchase gives
/// the maker amount and receives the taker amount, a sale the other way round.
pub proof fn events_move_what_their_side_says(
    event: ExchangeEvent,
    side: Side,
    given: Decimal,
    received: Decimal,
    out: Decimal,
    back: Decimal,
)
    requires
        is_worth(event.maker_amount@, given, out),
        is_worth(event.taker_amount@, received, back),
    ensures
        amounts(event, side) matches Ok(moved) ==> {
            &&& side == Side::Buy ==> moved.principal@ * 1000000 == given@ && moved.shares@
                * 1000000 == received@
            &&& side == Side::Sell ==> moved.shares@ * 1000000 == given@ && moved.principal@
                * 1000000 == received@
            &&& moved.shares@ > 0
            &&& moved.principal@ >= 0
            &&& event.fee_amount is Some
            &&& moved.principal.quotient(moved.shares) is Some
            &&& moved.principal.quotient(moved.shares)->0@ <= pow(10, 28)
        },
{
    whole_numbers_have_their_value(1);
    lemma_millionths(event.maker_amount@, given, out);
    lemma_millionths(event.taker_amount@, received, back);
}

/// An order that met the account's own is a self match; else one that is among
/// the takers took, and any other one made.
pub proof fn roles_follow_the_match(
    event: ExchangeEvent,
    funder: EvmAddress,
    taker: EvmAddress,
    taker_orders: Seq<String>,
)
    ensures
        account_role(event, funder, taker, taker_orders) == AccountChainExecutionRole::SelfMatch
            <==> taker == funder,
        account_role(event, funder, taker, taker_orders) == AccountChainExecutionRole::Taker
            <==> taker != funder && exists|i: int|
            0 <= i < taker_orders.len() && (#[trigger] taker_orders[i])@ == event.order_hash@,
{
}

/// A projected execution is the account's own order on a registered exchange,
/// with the event's side, token, place, times and fee.
pub proof fn projections_report_the_event(
    input: AccountChainProjectionInput,
    millionths: Decimal,
    fee: Usd,
)
    requires
        projected(input) is Ok,
        input.event.fee_amount is Some ==> is_worth(
            input.event.fee_amount->0@,
            millionths,
            fee,
        ),
    ensures
        ({
            let event = *input.event;
            let found = projected(input)->Ok_0;
            &&& event.chain_id == 137 && event.event_kind is OrderFilled && event.exchange_version
                is V2 && event.schema_version == input.schema_version
            &&& input.contracts@.contains(found.exchange_address)
            &&& Some(found.exchange_address) == address_reading(event.contract_address@)
            &&& found.maker_address == input.funder && address_reading(event.maker@) == Some(
                input.funder,
            )
            &&& event.taker is Some && address_reading(event.taker->0@) == Some(
                found.taker_address,
            )
            &&& event.side is Buy <==> found.order_side == Side::Buy
            &&& event.side is Sell <==> found.order_side == Side::Sell
            &&& found.account_side == Some(found.order_side)
            &&& found.account_token_id == Some(found.order_token_id)
            &&& event.token_id is Some && found.order_token_id@ == event.token_id->0@
            &&& found.order_id@ == event.order_hash@
            &&& found.block_number == event.block_number
            &&& found.transaction_index == event.transaction_index
            &&& found.log_index == event.log_index
            &&& Some(found.block_hash) == hash_reading(event.block_hash@)
            &&& Some(found.transaction_hash) == hash_reading(event.transaction_hash@)
            &&& found.observed_at == Timestamp::of_nanos(event.block_timestamp * 1000000)
            &&& found.available_at == Timestamp::of_nanos(event.model_available_at * 1000000)
            &&& found.exact_fee_usd is Some && found.exact_fee_usd->0@ * 1000000 == millionths@
            &&& found.source_event_hash == event.event_id
            &&& found.execution_account_id == input.execution_account_id
            &&& found.account_chain_execution_id == input.account_chain_execution_id
        }),
{
    if input.event.fee_amount is Some {
        lemma_millionths(input.event.fee_amount->0@, millionths, fee);
    }
}

/// What an entry spends is its shares at their price and the fee; a fill books a
/// position of just that cost, and settles just that much capital.
pub proof fn entries_spend_principal_and_fee(
    reconciliation_id: u128,
    result: VenueSubmitResult,
    recommendation: RecommendationInfo,
    spec: EntryOrderSpec,
    order: ExecutionOrderInfo,
    account: ExecutionAccountId,
    price: Price,
    principal: Usd,
    spent: Usd,
)
    requires
        price == (match result.avg_fill_price {
            Some(average) => average,
            None => spec.limit_price,
        }),
        multiplies_to(result.filled_shares, price, principal),
        sums_to(principal, result.expected_fee, spent),
        fee_delta(result) is Some,
    ensures
        ({
            let write = submission_write(
                reconciliation_id,
                result,
                recommendation,
                spec,
                order,
                account,
            );
            &&& write is Some
            &&& (spent@ - result.expected_fee@) * pow(10, 28) == result.filled_shares@ * price@
            &&& result.outcome is Filled || result.outcome is PartiallyFilled ==> {
                &&& write->0.fill is Some
                &&& write->0.fill->0.shares == result.filled_shares
                &&& write->0.fill->0.price == price
                &&& write->0.fill->0.cost_usd == spent
                &&& write->0.fill->0.token_id == spec.token_id
                &&& write->0.fill->0.market_id == recommendation.market_id
                &&& write->0.fill->0.event_id == recommendation.event_id
                &&& write->0.fill->0.category == recommendation.category
                &&& write->0.fill->0.side == recommendation.outcome_side
                &&& write->0.fill->0.order_intent_id == order.order_intent_id
                &&& write->0.fill->0.execution_account_id == account
                &&& write->0.fill->0.filled_at == result.responded_at
                &&& write->0.filled_at == Some(result.responded_at)
            }
            &&& result.outcome is Filled ==> write->0.capital == (CapitalSettlement::SettleFull {
                spent_usd: spent,
            }) && write->0.state == ExecutionOrderState::Filled && write->0.intent_status
                == OrderIntentStatus::Filled
            &&& result.outcome is PartiallyFilled ==> write->0.capital == (
            CapitalSettlement::SettlePartial { spent_usd: spent }) && write->0.state
                == ExecutionOrderState::PartiallyFilled && write->0.intent_status
                == OrderIntentStatus::PartiallyFilled
            &&& result.outcome is Open ==> write->0.capital == CapitalSettlement::Hold
                && write->0.state == ExecutionOrderState::Submitted && write->0.intent_status
                == OrderIntentStatus::Submitted && write->0.reconciliation is None
            &&& result.outcome is Ambiguous ==> write->0.capital == CapitalSettlement::Hold
                && write->0.state == ExecutionOrderState::Ambiguous && write->0.intent_status
                == OrderIntentStatus::Submitted
            &&& result.outcome is Rejected ==> write->0.capital == CapitalSettlement::ReleaseAll
                && write->0.state == ExecutionOrderState::Failed && write->0.intent_status
                == OrderIntentStatus::Failed
            &&& result.outcome is Cancelled || result.outcome is Expired ==> write->0.capital
                == CapitalSettlement::ReleaseAll && write->0.state
                == ExecutionOrderState::Cancelled && write->0.intent_status
                == OrderIntentStatus::Cancelled && write->0.cancelled_at == Some(
                result.responded_at,
            )
            &&& !(result.outcome is Filled || result.outcome is PartiallyFilled) ==> write->0.fill
                is None && write->0.filled_at is None
            &&& !(result.outcome is Open) ==> write->0.reconciliation is Some
                && write->0.reconciliation->0.order_intent_id == order.order_intent_id
                && write->0.reconciliation->0.execution_order_id == order.execution_order_id
                && write->0.reconciliation->0.result == result.reconciliation_result
                && write->0.reconciliation->0.venue_filled_shares == Some(result.filled_shares)
        }),
{
    let one = pow(10, 28);
    let s = spent@;
    let f = result.expected_fee@;
    assert((s - f) * one == principal@ * one);
}

/// What a sale realizes is its shares times what their price exceeds the lot's
/// average by, less the fee; a profit is booked only for a fill.
pub proof fn sales_realize_the_gain_less_the_fee(
    reconciliation_id: u128,
    result: VenueSubmitResult,
    lot: PositionLot,
    reason: ExitReason,
    order: ExecutionOrderInfo,
    price: Price,
    gross: Usd,
    proceeds: Usd,
    basis: Usd,
    realized: Usd,
)
    requires
        price == (match result.avg_fill_price {
            Some(average) => average,
            None => order.price,
        }),
        multiplies_to(result.filled_shares, price, gross),
        leaves(gross, result.expected_fee, proceeds),
        multiplies_to(lot.avg_price, result.filled_shares, basis),
        leaves(proceeds, basis, realized),
    ensures
        ({
            let write = exit_write(reconciliation_id, result, lot, reason, order);
            let filled = result.outcome is Filled || result.outcome is PartiallyFilled;
            let (booked, profit) = write->0;
            &&& write is Some
            &&& (realized@ + result.expected_fee@) * pow(10, 28) == result.filled_shares@ * (price@
                - lot.avg_price@)
            &&& profit == (if filled {
                Some(realized)
            } else {
                None
            })
            &&& filled ==> {
                &&& booked.position_exit is Some
                &&& booked.position_exit->0.shares == result.filled_shares
                &&& booked.position_exit->0.avg_price == price
                &&& booked.position_exit->0.proceeds_usd == proceeds
                &&& booked.position_exit->0.realized_pnl_usd == realized
                &&& booked.position_exit->0.reason == reason
                &&& booked.position_exit->0.exited_at == result.responded_at
                &&& booked.fully_exited <==> result.filled_shares@ >= lot.shares@
                &&& !booked.revert_to_open
                &&& booked.exit_state == ExitState::Exited || booked.exit_state
                    == ExitState::PartiallyExited
                &&& result.outcome is Filled ==> booked.order_state
                    == ExecutionOrderState::Filled
                &&& result.outcome is PartiallyFilled ==> booked.order_state
                    == ExecutionOrderState::PartiallyFilled && booked.exit_state
                    == ExitState::PartiallyExited
            }
            &&& result.outcome is Open ==> booked.order_state == ExecutionOrderState::Submitted
                && booked.exit_state == ExitState::OrderSubmitted
            &&& result.outcome is Ambiguous ==> booked.order_state
                == ExecutionOrderState::Ambiguous && booked.exit_state
                == ExitState::OrderSubmitted
            &&& result.outcome is Rejected ==> booked.order_state
                == ExecutionOrderState::Failed && booked.exit_state == ExitState::Monitoring
            &&& result.outcome is Cancelled || result.outcome is Expired ==> booked.order_state
                == ExecutionOrderState::Cancelled && booked.exit_state
                == ExitState::Monitoring
            &&& booked.exit_reason == reason
        }),
{
    let one = pow(10, 28);
    let q = result.filled_shares@;
    let p = price@;
    let a = lot.avg_price@;
    let r = realized@;
    let f = result.expected_fee@;
    let g = gross@;
    let b = basis@;
    assert((r + f) * one == q * (p - a)) by (nonlinear_arith)
        requires
            g * one == q * p,
            b * one == a * q,
            r == g - f - b,
    ;
}

/// An execution counts exactly where shares moved, for no negative principal, at
/// a price of one at the most, and with its fee on record.
pub proof fn executions_cost_one_at_the_most(
    event: ExchangeEvent,
    given: Decimal,
    received: Decimal,
    principal: Decimal,
    shares: Decimal,
    price: Price,
    millionths: Decimal,
    fee: Usd,
)
    requires
        is_worth(event.maker_amount@, given, principal),
        is_worth(event.taker_amount@, received, shares),
        divides_to(principal, shares, price),
        event.fee_amount is Some ==> is_worth(event.fee_amount->0@, millionths, fee),
    ensures
        amounts(event, Side::Buy) is Ok <==> received@ > 0 && 0 <= given@ <= received@
            && event.fee_amount is Some,
{
    lemma_millionths(event.maker_amount@, given, principal);
    lemma_millionths(event.taker_amount@, received, shares);
    whole_numbers_have_their_value(1);
    let one = pow(10, 28);
    vstd::arithmetic::power::lemma_pow_positive(10, 28);
    let p = principal@;
    let s = shares@;
    let q = price@;
    if s > 0 {
        assert((q > one) == (p > s)) by (nonlinear_arith)
            requires
                q * s == p * one,
                s > 0,
                one > 0,
        ;
    }
}

/// A builder is named exactly where the event names one that is not blank.
pub proof fn blank_builders_are_not_named(
    pending: UnsettledFill,
    event: ExchangeEvent,
    scope: SettlementScope,
    available_at: Timestamp,
)
    requires
        measured(pending, event, scope, available_at) is Ok,
    ensures
        measured(pending, event, scope, available_at)->Ok_0.builder_code is Some <==> (event.builder
            matches Some(builder) && builder@
            != "0x0000000000000000000000000000000000000000000000000000000000000000"@),
{
}

} // verus!
