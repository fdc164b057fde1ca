//! Exact fees of fills, settled once the chain has finalized them.
//!
//! A fill that the venue authenticated is settled by the one finalized event
//! with its order and transaction. The event has to agree with the fill in
//! every part; where two events or two fills share one identity nothing is
//! settled.
use vstd::prelude::*;
use vstd::string::*;

use crate::account_chain_projector::{
    asset_scale, is_registered, registered, ExchangeEvent, ExchangeEventKind, ExchangeSide, ExchangeVersion, ASSET_SCALE,
    EXCHANGE_CHAIN,
};
use crate::decimal::{Decimal, Price, Shares, Usd};
use crate::error::{outcome, ErrorView, ExecutionError};
use crate::evm::{address_reading, hash_reading, EvmAddress, EvmHash};
use crate::text::same_text;
use crate::time::{in_calendar, Timestamp};
use crate::types::{Ident, OrderId, Side, TokenId};

verus! {

/// Whether a fill took or made liquidity.
#[derive(Clone, Copy, Debug, PartialEq, Eq, Structural)]
pub enum FeeLiquidityRole {
    Maker,
    Taker,
}

/// A fill that the venue authenticated.
#[derive(Debug, PartialEq, Eq)]
pub struct ExecutionFill {
    pub venue_trade_id: Ident,
    pub venue_order_id: OrderId,
    pub token_id: TokenId,
    pub side: Side,
    pub liquidity_role: FeeLiquidityRole,
    pub shares: Shares,
    pub price: Price,
    pub principal_usd: Usd,
}

/// A fill whose fee is not settled yet, and the transaction that it was
/// authenticated with.
#[derive(Debug, PartialEq, Eq)]
pub struct UnsettledFill {
    pub fill: ExecutionFill,
    pub transaction_hash: Ident,
}

/// A fee as the chain settled it.
#[derive(Debug, PartialEq, Eq)]
pub struct SettledFee {
    pub venue_trade_id: Ident,
    pub chain_id: u64,
    pub protocol_version: u32,
    pub exchange_address: EvmAddress,
    pub order_id: OrderId,
    pub liquidity_role: FeeLiquidityRole,
    pub transaction_hash: EvmHash,
    pub log_index: u64,
    pub matched_at: Timestamp,
    pub available_at: Timestamp,
    pub settled_fee: Usd,
    pub builder_code: Option<String>,
}

/// What settlement is held against: whose orders they are, and where events are
/// accepted from.
pub struct SettlementScope<'a> {
    pub funder: EvmAddress,
    /// The registered exchange contracts.
    pub contracts: &'a Vec<EvmAddress>,
    /// The schema version that is accepted.
    pub schema_version: u32,
}

/// The refusal to settle a fill.
pub open spec fn fee_refusal(fill: ExecutionFill, reason: Seq<char>) -> ErrorView {
    ErrorView::ReconciliationUnresolvable {
        reason: "fee settlement for trade "@ + fill.venue_trade_id@ + " failed: "@ + reason,
    }
}

fn fee_error(fill: &ExecutionFill, reason: &str) -> (r: ExecutionError)
    ensures
        r@ == fee_refusal(*fill, reason@),
{
    ExecutionError::ReconciliationUnresolvable {
        reason: "fee settlement for trade ".to_owned().concat(
            fill.venue_trade_id.text.as_str(),
        ).concat(" failed: ").concat(reason),
    }
}

/// What a raw amount is worth, or why it cannot be read.
pub open spec fn settled_asset(raw: Seq<char>, fill: ExecutionFill) -> Result<Decimal, ErrorView> {
    match Decimal::reading(raw) {
        Err(error) => Err(fee_refusal(fill, "invalid V2 asset amount: "@ + error)),
        Ok(value) => match value.quotient(asset_scale()) {
            Some(amount) => Ok(amount),
            None => Err(ErrorView::DecimalOverflow),
        },
    }
}

fn decimal_asset(raw: &str, fill: &ExecutionFill) -> (r: Result<Decimal, ExecutionError>)
    ensures
        outcome(r) == settled_asset(raw@, *fill),
{
    match Decimal::parse(raw) {
        Ok(value) => match value.checked_div(Decimal::from_whole(ASSET_SCALE)) {
            Some(amount) => Ok(amount),
            None => Err(ExecutionError::DecimalOverflow),
        },
        Err(error) => Err(
            fee_error(
                fill,
                "invalid V2 asset amount: ".to_owned().concat(error.as_str()).as_str(),
            ),
        ),
    }
}

/// The side of an event that belongs to a fill of this side.
pub open spec fn event_side(side: Side) -> ExchangeSide {
    match side {
        Side::Buy => ExchangeSide::Buy,
        Side::Sell => ExchangeSide::Sell,
    }
}

/// Whether an event is the finalized event of a fill.
pub open spec fn same_identity(
    fill: ExecutionFill,
    transaction_hash: Seq<char>,
    event: ExchangeEvent,
    scope: SettlementScope,
) -> bool {
    &&& event.chain_id == EXCHANGE_CHAIN
    &&& event.event_kind == ExchangeEventKind::OrderFilled
    &&& event.exchange_version == ExchangeVersion::V2
    &&& event.schema_version == scope.schema_version
    &&& registered(scope.contracts@, event.contract_address@)
    &&& address_reading(event.maker@) == Some(scope.funder)
    &&& event.order_hash@ == fill.venue_order_id@
    &&& event.transaction_hash@ == transaction_hash
    &&& event.token_id is Some
    &&& event.token_id->0@ == fill.token_id@
    &&& event.side == event_side(fill.side)
}

/// What an event says that the fill moved: principal and shares.
pub open spec fn event_amounts(fill: ExecutionFill, event: ExchangeEvent) -> Result<
    (Usd, Shares),
    ErrorView,
> {
    match settled_asset(event.maker_amount@, fill) {
        Err(error) => Err(error),
        Ok(maker) => match settled_asset(event.taker_amount@, fill) {
            Err(error) => Err(error),
            Ok(taker) => Ok(
                match fill.side {
                    Side::Buy => (maker, taker),
                    Side::Sell => (taker, maker),
                },
            ),
        },
    }
}

/// Whether an event settles a fill: it is the fill's event and moved exactly the
/// fill's amounts.
pub open spec fn validated(
    fill: ExecutionFill,
    transaction_hash: Seq<char>,
    event: ExchangeEvent,
    scope: SettlementScope,
) -> Result<(), ErrorView> {
    if address_reading(event.maker@) is None {
        Err(
            fee_refusal(
                fill,
                "invalid order maker address: "@ + "expected 0x and 40 hexadecimal digits"@,
            ),
        )
    } else if !same_identity(fill, transaction_hash, event, scope) {
        Err(
            fee_refusal(
                fill,
                "finalized V2 OrderFilled identity differs from authenticated fill"@,
            ),
        )
    } else {
        match event_amounts(fill, event) {
            Err(error) => Err(error),
            Ok((principal, shares)) => if shares@ <= 0 || shares@ != fill.shares@ || principal@
                != fill.principal_usd@ {
                Err(
                    fee_refusal(
                        fill,
                        "finalized V2 OrderFilled amounts differ from authenticated fill"@,
                    ),
                )
            } else {
                match principal.quotient(shares) {
                    None => Err(ErrorView::DecimalOverflow),
                    Some(price) => if price@ != fill.price@ {
                        Err(
                            fee_refusal(
                                fill,
                                "finalized V2 OrderFilled amounts differ from authenticated fill"@,
                            ),
                        )
                    } else {
                        Ok(())
                    },
                }
            },
        }
    }
}

fn check_identity(
    fill: &ExecutionFill,
    transaction_hash: &Ident,
    event: &ExchangeEvent,
    maker: EvmAddress,
    scope: &SettlementScope,
) -> (r: bool)
    requires
        address_reading(event.maker@) == Some(maker),
    ensures
        r == same_identity(*fill, transaction_hash@, *event, *scope),
{
    let expected_side = match fill.side {
        Side::Buy => ExchangeSide::Buy,
        Side::Sell => ExchangeSide::Sell,
    };
    let token = match &event.token_id {
        Some(token) => same_text(token.as_str(), fill.token_id.text.as_str()),
        None => false,
    };
    event.chain_id == EXCHANGE_CHAIN && event.event_kind == ExchangeEventKind::OrderFilled
        && event.exchange_version == ExchangeVersion::V2 && event.schema_version
        == scope.schema_version && is_registered(
            scope.contracts,
            event.contract_address.as_str(),
        )
        && maker == scope.funder && same_text(
        event.order_hash.as_str(),
        fill.venue_order_id.text.as_str(),
    ) && same_text(event.transaction_hash.as_str(), transaction_hash.text.as_str()) && token
        && event.side == expected_side
}

/// Holds a finalized event against the fill that it is to settle.
pub fn validate_event(
    fill: &ExecutionFill,
    transaction_hash: &Ident,
    event: &ExchangeEvent,
    scope: &SettlementScope,
) -> (r: Result<(), ExecutionError>)
    ensures
        outcome(r) == validated(*fill, transaction_hash@, *event, *scope),
{
    let maker = match EvmAddress::parse(event.maker.as_str()) {
        Some(maker) => maker,
        None => {
            return Err(
                fee_error(
                    fill,
                    "invalid order maker address: ".to_owned().concat(
                        "expected 0x and 40 hexadecimal digits",
                    ).as_str(),
                ),
            );
        },
    };
    if !check_identity(fill, transaction_hash, event, maker, scope) {
        return Err(
            fee_error(fill, "finalized V2 OrderFilled identity differs from authenticated fill"),
        );
    }
    let maker_amount = match decimal_asset(event.maker_amount.as_str(), fill) {
        Ok(amount) => amount,
        Err(error) => return Err(error),
    };
    let taker_amount = match decimal_asset(event.taker_amount.as_str(), fill) {
        Ok(amount) => amount,
        Err(error) => return Err(error),
    };
    let (principal, shares) = match fill.side {
        Side::Buy => (maker_amount, taker_amount),
        Side::Sell => (taker_amount, maker_amount),
    };
    if !shares.is_positive() || !shares.same(fill.shares) || !principal.same(fill.principal_usd) {
        return Err(
            fee_error(fill, "finalized V2 OrderFilled amounts differ from authenticated fill"),
        );
    }
    match principal.checked_div(shares) {
        None => Err(ExecutionError::DecimalOverflow),
        Some(price) => if !price.same(fill.price) {
            Err(
                fee_error(fill, "finalized V2 OrderFilled amounts differ from authenticated fill"),
            )
        } else {
            Ok(())
        },
    }
}

/// The builder code that stands for none.
pub open spec fn zero_builder() -> Seq<char> {
    "0x0000000000000000000000000000000000000000000000000000000000000000"@
}

/// The builder code of an event, if it names one.
pub open spec fn builder_of(event: ExchangeEvent) -> Option<String> {
    match event.builder {
        Some(builder) => if builder@ == zero_builder() {
            None
        } else {
            Some(builder)
        },
        None => None,
    }
}

/// The fee with which an event settles a fill.
pub open spec fn measured(
    pending: UnsettledFill,
    event: ExchangeEvent,
    scope: SettlementScope,
    available_at: Timestamp,
) -> Result<SettledFee, ErrorView> {
    let fill = pending.fill;
    match validated(fill, pending.transaction_hash@, event, scope) {
        Err(error) => Err(error),
        Ok(()) => match event.fee_amount {
            None => Err(fee_refusal(fill, "finalized V2 OrderFilled has no fee amount"@)),
            Some(raw) => match Decimal::reading(raw@) {
                Err(error) => Err(fee_refusal(fill, "invalid finalized fee: "@ + error)),
                Ok(fee) => match address_reading(event.contract_address@) {
                    None => Err(
                        fee_refusal(
                            fill,
                            "invalid exchange address: "@
                                + "expected 0x and 40 hexadecimal digits"@,
                        ),
                    ),
                    Some(exchange_address) => match hash_reading(event.transaction_hash@) {
                        None => Err(
                            fee_refusal(
                                fill,
                                "invalid transaction hash: "@
                                    + "expected 0x and 64 hexadecimal digits"@,
                            ),
                        ),
                        Some(transaction_hash) => if !in_calendar(
                            event.block_timestamp * 1000000,
                        ) {
                            Err(fee_refusal(fill, "invalid block timestamp"@))
                        } else {
                            match fee.quotient(asset_scale()) {
                                None => Err(ErrorView::DecimalOverflow),
                                Some(settled_fee) => Ok(
                                    SettledFee {
                                        venue_trade_id: fill.venue_trade_id,
                                        chain_id: 137,
                                        protocol_version: 2,
                                        exchange_address,
                                        order_id: fill.venue_order_id,
                                        liquidity_role: fill.liquidity_role,
                                        transaction_hash,
                                        log_index: event.log_index,
                                        matched_at: Timestamp::of_nanos(
                                            event.block_timestamp * 1000000,
                                        ),
                                        available_at,
                                        settled_fee,
                                        builder_code: builder_of(event),
                                    },
                                ),
                            }
                        },
                    },
                },
            },
        },
    }
}

/// Measures the fee with which an event settles a fill.
pub fn measurement(
    pending: &UnsettledFill,
    event: &ExchangeEvent,
    scope: &SettlementScope,
    available_at: Timestamp,
) -> (r: Result<SettledFee, ExecutionError>)
    ensures
        outcome(r) == measured(*pending, *event, *scope, available_at),
{
    let fill = &pending.fill;
    if let Err(error) = validate_event(fill, &pending.transaction_hash, event, scope) {
        return Err(error);
    }
    let fee = match &event.fee_amount {
        None => return Err(fee_error(fill, "finalized V2 OrderFilled has no fee amount")),
        Some(raw) => match Decimal::parse(raw.as_str()) {
            Ok(fee) => fee,
            Err(error) => {
                return Err(
                    fee_error(
                        fill,
                        "invalid finalized fee: ".to_owned().concat(error.as_str()).as_str(),
                    ),
                );
            },
        },
    };
    let exchange_address = match EvmAddress::parse(event.contract_address.as_str()) {
        Some(address) => address,
        None => {
            return Err(
                fee_error(
                    fill,
                    "invalid exchange address: ".to_owned().concat(
                        "expected 0x and 40 hexadecimal digits",
                    ).as_str(),
                ),
            );
        },
    };
    let transaction_hash = match EvmHash::parse(event.transaction_hash.as_str()) {
        Some(hash) => hash,
        None => {
            return Err(
                fee_error(
                    fill,
                    "invalid transaction hash: ".to_owned().concat(
                        "expected 0x and 64 hexadecimal digits",
                    ).as_str(),
                ),
            );
        },
    };
    let matched_at = match Timestamp::from_millis(event.block_timestamp) {
        Some(at) => at,
        None => return Err(fee_error(fill, "invalid block timestamp")),
    };
    let settled_fee = match fee.checked_div(Decimal::from_whole(ASSET_SCALE)) {
        Some(fee) => fee,
        None => return Err(ExecutionError::DecimalOverflow),
    };
    let builder_code = match &event.builder {
        Some(builder) => if same_text(
            builder.as_str(),
            "0x0000000000000000000000000000000000000000000000000000000000000000",
        ) {
            None
        } else {
            Some(builder.clone())
        },
        None => None,
    };
    Ok(
        SettledFee {
            venue_trade_id: fill.venue_trade_id.clone(),
            chain_id: 137,
            protocol_version: 2,
            exchange_address,
            order_id: fill.venue_order_id.clone(),
            liquidity_role: fill.liquidity_role,
            transaction_hash,
            log_index: event.log_index,
            matched_at,
            available_at,
            settled_fee,
            builder_code,
        },
    )
}

/// Under which order and transaction a fill is looked up.
pub open spec fn fill_key(pending: UnsettledFill) -> (Seq<char>, Seq<char>) {
    (pending.fill.venue_order_id@, pending.transaction_hash@)
}

/// Under which order and transaction an event is found.
pub open spec fn event_key(event: ExchangeEvent) -> (Seq<char>, Seq<char>) {
    (event.order_hash@, event.transaction_hash@)
}

/// Whether two events share one order and transaction.
pub open spec fn ambiguous_events(events: Seq<ExchangeEvent>) -> bool {
    exists|i: int, j: int|
        #![trigger events[i], events[j]]
        0 <= i < j < events.len() && event_key(events[i]) == event_key(events[j])
}

/// Whether two fills share one order and transaction.
pub open spec fn ambiguous_fills(fills: Seq<UnsettledFill>) -> bool {
    exists|i: int, j: int|
        #![trigger fills[i], fills[j]]
        0 <= i < j < fills.len() && fill_key(fills[i]) == fill_key(fills[j])
}

/// Refuses events of which two share one order and transaction.
pub fn index_events(events: &Vec<ExchangeEvent>) -> (r: Result<(), ExecutionError>)
    ensures
        outcome(r) == (if ambiguous_events(events@) {
            Err(
                ErrorView::ReconciliationUnresolvable {
                    reason: "multiple finalized V2 OrderFilled logs share one order/transaction identity"@,
                },
            )
        } else {
            Ok(())
        }),
{
    let mut i: usize = 0;
    while i < events.len()
        invariant
            i <= events.len(),
            forall|a: int, b: int|
                #![trigger events@[a], events@[b]]
                0 <= a < b < i ==> event_key(events@[a]) != event_key(events@[b]),
        decreases events.len() - i,
    {
        let mut j: usize = 0;
        while j < i
            invariant
                j <= i < events.len(),
                forall|a: int|
                    0 <= a < j ==> event_key(#[trigger] events@[a]) != event_key(
                        events@[i as int],
                    ),
            decreases i - j,
        {
            if same_text(events[j].order_hash.as_str(), events[i].order_hash.as_str())
                && same_text(
                events[j].transaction_hash.as_str(),
                events[i].transaction_hash.as_str(),
            ) {
                assert(event_key(events@[j as int]) == event_key(events@[i as int]));
                return Err(
                    ExecutionError::ReconciliationUnresolvable {
                        reason: "multiple finalized V2 OrderFilled logs share one order/transaction identity".to_owned(),
                    },
                );
            }
            j = j + 1;
        }
        i = i + 1;
    }
    Ok(())
}

/// Refuses fills of which two share one order and transaction.
pub fn check_fill_identities(fills: &Vec<UnsettledFill>) -> (r: Result<(), ExecutionError>)
    ensures
        outcome(r) == (if ambiguous_fills(fills@) {
            Err(
                ErrorView::ReconciliationUnresolvable {
                    reason: "multiple authenticated fills share one order/transaction identity; exact V2 fee allocation is ambiguous"@,
                },
            )
        } else {
            Ok(())
        }),
{
    let mut i: usize = 0;
    while i < fills.len()
        invariant
            i <= fills.len(),
            forall|a: int, b: int|
                #![trigger fills@[a], fills@[b]]
                0 <= a < b < i ==> fill_key(fills@[a]) != fill_key(fills@[b]),
        decreases fills.len() - i,
    {
        let mut j: usize = 0;
        while j < i
            invariant
                j <= i < fills.len(),
                forall|a: int|
                    0 <= a < j ==> fill_key(#[trigger] fills@[a]) != fill_key(fills@[i as int]),
            decreases i - j,
        {
            if fills[j].fill.venue_order_id.same(&fills[i].fill.venue_order_id)
                && fills[j].transaction_hash.same(&fills[i].transaction_hash) {
                assert(fill_key(fills@[j as int]) == fill_key(fills@[i as int]));
                return Err(
                    ExecutionError::ReconciliationUnresolvable {
                        reason: "multiple authenticated fills share one order/transaction identity; exact V2 fee allocation is ambiguous".to_owned(),
                    },
                );
            }
            j = j + 1;
        }
        i = i + 1;
    }
    Ok(())
}

/// Where the event of a fill stands.
pub open spec fn event_of(events: Seq<ExchangeEvent>, pending: UnsettledFill) -> Option<int> {
    crate::search::first_where(events, |e: ExchangeEvent| event_key(e) == fill_key(pending))
}

fn find_event(events: &Vec<ExchangeEvent>, pending: &UnsettledFill) -> (r: Option<usize>)
    ensures
        match r {
            Some(position) => event_of(events@, *pending) == Some(position as int) && position
                < events.len(),
            None => event_of(events@, *pending) is None,
        },
{
    let ghost test = |e: ExchangeEvent| event_key(e) == fill_key(*pending);
    let mut i: usize = 0;
    while i < events.len()
        invariant
            i <= events.len(),
            test == (|e: ExchangeEvent| event_key(e) == fill_key(*pending)),
            forall|j: int| 0 <= j < i ==> !test(#[trigger] events@[j]),
        decreases events.len() - i,
    {
        if same_text(events[i].order_hash.as_str(), pending.fill.venue_order_id.text.as_str())
            && same_text(
            events[i].transaction_hash.as_str(),
            pending.transaction_hash.text.as_str(),
        ) {
            proof {
                crate::search::lemma_first_found(events@, test, i as int);
            }
            return Some(i);
        }
        i = i + 1;
    }
    proof {
        crate::search::lemma_first_missing(events@, test);
    }
    None
}

/// The fees of fills whose event is there and available; the first refusal
/// refuses them all.
pub open spec fn settlements(
    fills: Seq<UnsettledFill>,
    events: Seq<ExchangeEvent>,
    scope: SettlementScope,
    now: Timestamp,
) -> Result<Seq<SettledFee>, ErrorView>
    decreases fills.len(),
{
    if fills.len() == 0 {
        Ok(Seq::empty())
    } else {
        match settlements(fills.drop_last(), events, scope, now) {
            Err(error) => Err(error),
            Ok(front) => match event_of(events, fills.last()) {
                None => Ok(front),
                Some(position) => if events[position].model_available_at > now.spec_millis() {
                    Ok(front)
                } else {
                    match measured(fills.last(), events[position], scope, now) {
                        Err(error) => Err(error),
                        Ok(fee) => Ok(front.push(fee)),
                    }
                },
            },
        }
    }
}

proof fn lemma_settlements_prefix(
    fills: Seq<UnsettledFill>,
    events: Seq<ExchangeEvent>,
    scope: SettlementScope,
    now: Timestamp,
    n: int,
)
    requires
        0 <= n <= fills.len(),
        settlements(fills.take(n), events, scope, now) is Err,
    ensures
        settlements(fills, events, scope, now) == settlements(fills.take(n), events, scope, now),
    decreases fills.len() - n,
{
    if n == fills.len() {
        assert(fills.take(n) =~= fills);
    } else {
        assert(fills.take(n + 1).drop_last() =~= fills.take(n));
        lemma_settlements_prefix(fills, events, scope, now, n + 1);
    }
}

/// What a settlement pass records.
pub open spec fn settlement_pass(
    fills: Seq<UnsettledFill>,
    events: Seq<ExchangeEvent>,
    scope: SettlementScope,
    now: Timestamp,
) -> Result<Seq<SettledFee>, ErrorView> {
    if ambiguous_fills(fills) {
        Err(
            ErrorView::ReconciliationUnresolvable {
                reason: "multiple authenticated fills share one order/transaction identity; exact V2 fee allocation is ambiguous"@,
            },
        )
    } else if ambiguous_events(events) {
        Err(
            ErrorView::ReconciliationUnresolvable {
                reason: "multiple finalized V2 OrderFilled logs share one order/transaction identity"@,
            },
        )
    } else {
        settlements(fills, events, scope, now)
    }
}

/// Settles the fees of all fills whose finalized event is available.
pub fn settle_pass(
    fills: &Vec<UnsettledFill>,
    events: &Vec<ExchangeEvent>,
    scope: &SettlementScope,
    now: Timestamp,
) -> (r: Result<Vec<SettledFee>, ExecutionError>)
    ensures
        match settlement_pass(fills@, events@, *scope, now) {
            Ok(fees) => r is Ok && r->Ok_0@ == fees,
            Err(error) => r is Err && r->Err_0@ == error,
        },
{
    if let Err(error) = check_fill_identities(fills) {
        return Err(error);
    }
    if let Err(error) = index_events(events) {
        return Err(error);
    }
    let now_ms: i64 = now.whole_millis();
    let mut fees: Vec<SettledFee> = Vec::new();
    let mut i: usize = 0;
    assert(fills@.take(0) =~= Seq::<UnsettledFill>::empty());
    while i < fills.len()
        invariant
            i <= fills.len(),
            now_ms == now.spec_millis(),
            !ambiguous_fills(fills@),
            !ambiguous_events(events@),
            settlements(fills@.take(i as int), events@, *scope, now) == Ok::<
                Seq<SettledFee>,
                ErrorView,
            >(fees@),
        decreases fills.len() - i,
    {
        assert(fills@.take(i + 1).drop_last() =~= fills@.take(i as int));
        assert(fills@.take(i + 1).last() == fills@[i as int]);
        if let Some(position) = find_event(events, &fills[i]) {
            if events[position].model_available_at <= now_ms {
                match measurement(&fills[i], &events[position], scope, now) {
                    Ok(fee) => {
                        fees.push(fee);
                    },
                    Err(error) => {
                        proof {
                            lemma_settlements_prefix(fills@, events@, *scope, now, i + 1);
                        }
                        return Err(error);
                    },
                }
            }
        }
        i = i + 1;
    }
    assert(fills@.take(i as int) =~= fills@);
    Ok(fees)
}

/// A fee is settled only by an event that is the fill's own and moved exactly
/// its shares, principal and price.
pub proof fn settled_fees_match_their_fill(
    pending: UnsettledFill,
    event: ExchangeEvent,
    scope: SettlementScope,
    available_at: Timestamp,
)
    requires
        measured(pending, event, scope, available_at) is Ok,
    ensures
        same_identity(pending.fill, pending.transaction_hash@, event, scope),
        event_amounts(pending.fill, event) matches Ok((principal, shares)) && shares@
            == pending.fill.shares@ && principal@ == pending.fill.principal_usd@ && shares@ > 0,
{
}

/// Where two fills or two events share one order and transaction nothing is
/// settled, and a pass settles no more fees than there are fills.
pub proof fn ambiguity_settles_nothing(
    fills: Seq<UnsettledFill>,
    events: Seq<ExchangeEvent>,
    scope: SettlementScope,
    now: Timestamp,
)
    requires
        settlement_pass(fills, events, scope, now) is Ok,
    ensures
        !ambiguous_fills(fills),
        !ambiguous_events(events),
        settlement_pass(fills, events, scope, now)->Ok_0.len() <= fills.len(),
{
    lemma_settlement_count(fills, events, scope, now);
}

proof fn lemma_settlement_count(
    fills: Seq<UnsettledFill>,
    events: Seq<ExchangeEvent>,
    scope: SettlementScope,
    now: Timestamp,
)
    requires
        settlements(fills, events, scope, now) is Ok,
    ensures
        settlements(fills, events, scope, now)->Ok_0.len() <= fills.len(),
    decreases fills.len(),
{
    if fills.len() > 0 {
        lemma_settlement_count(fills.drop_last(), events, scope, now);
    }
}

/// A fill is settled by an event of its own order and transaction.
pub proof fn fills_are_settled_by_their_own_event(
    events: Seq<ExchangeEvent>,
    pending: UnsettledFill,
    at: int,
)
    requires
        0 <= at < events.len(),
    ensures
        event_of(events, pending) matches Some(position) ==> 0 <= position < events.len()
            && events[position].order_hash@ == pending.fill.venue_order_id@
            && events[position].transaction_hash@ == pending.transaction_hash@,
        event_of(events, pending) is None ==> events[at].order_hash@
            != pending.fill.venue_order_id@ || events[at].transaction_hash@
            != pending.transaction_hash@,
{
    let test = |e: ExchangeEvent| event_key(e) == fill_key(pending);
    crate::search::first_match_is_first(events, test);
}

/// Every fill whose event is available now is settled, by what its event says.
pub proof fn available_events_settle_their_fills(
    fills: Seq<UnsettledFill>,
    events: Seq<ExchangeEvent>,
    scope: SettlementScope,
    now: Timestamp,
    i: int,
)
    requires
        settlements(fills, events, scope, now) is Ok,
        0 <= i < fills.len(),
        event_of(events, fills[i]) is Some,
        events[event_of(events, fills[i])->0].model_available_at <= now.spec_millis(),
    ensures
        measured(fills[i], events[event_of(events, fills[i])->0], scope, now) matches Ok(fee)
            && settlements(fills, events, scope, now)->Ok_0.contains(fee),
    decreases fills.len(),
{
    let before = fills.drop_last();
    let front = settlements(before, events, scope, now)->Ok_0;
    let all = settlements(fills, events, scope, now)->Ok_0;
    if i < before.len() {
        assert(before[i] == fills[i]);
        available_events_settle_their_fills(before, events, scope, now, i);
        let fee = measured(fills[i], events[event_of(events, fills[i])->0], scope, now)->Ok_0;
        let k = front.index_of(fee);
        assert(all[k] == fee);
    } else {
        assert(all[front.len() as int] == measured(
            fills[i],
            events[event_of(events, fills[i])->0],
            scope,
            now,
        )->Ok_0);
    }
}

/// What is settled comes from a fill whose event is available now.
pub proof fn only_available_events_settle(
    fills: Seq<UnsettledFill>,
    events: Seq<ExchangeEvent>,
    scope: SettlementScope,
    now: Timestamp,
    k: int,
)
    requires
        settlements(fills, events, scope, now) is Ok,
        0 <= k < settlements(fills, events, scope, now)->Ok_0.len(),
    ensures
        exists|i: int|
            0 <= i < fills.len() && event_of(events, #[trigger] fills[i]) is Some && events[event_of(
                events,
                fills[i],
            )->0].model_available_at <= now.spec_millis() && measured(
                fills[i],
                events[event_of(events, fills[i])->0],
                scope,
                now,
            ) == Ok::<SettledFee, ErrorView>(settlements(fills, events, scope, now)->Ok_0[k]),
    decreases fills.len(),
{
    let before = fills.drop_last();
    let front = settlements(before, events, scope, now)->Ok_0;
    let all = settlements(fills, events, scope, now)->Ok_0;
    if k < front.len() {
        only_available_events_settle(before, events, scope, now, k);
        assert(all[k] == front[k]);
        let i = choose|i: int|
            0 <= i < before.len() && event_of(events, #[trigger] before[i]) is Some
                && events[event_of(events, before[i])->0].model_available_at <= now.spec_millis()
                && measured(before[i], events[event_of(events, before[i])->0], scope, now) == Ok::<
                SettledFee,
                ErrorView,
            >(front[k]);
        assert(fills[i] == before[i]);
    } else {
        assert(fills[fills.len() - 1] == fills.last());
    }
}

} // verus!
