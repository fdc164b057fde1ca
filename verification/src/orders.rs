//! Venue orders and the facts around them.
use vstd::prelude::*;
use vstd::string::*;

use crate::decimal::{Bps, Decimal, Price, Shares, Usd};
use crate::error::{intent_denied, ErrorView, ExecutionError};
use crate::time::Timestamp;
use crate::types::{
    ContentHash, EventId, ExecutionAccountId, ExecutionOrderId, Ident, MarketId, OrderId,
    OrderIntentId, OrderType, OutcomeSide, Side, TokenId,
};

verus! {

/// Price grid of a market.
#[derive(Clone, Copy, Debug, PartialEq, Eq, Structural)]
pub enum TickSize {
    Tenth,
    Hundredth,
    Thousandth,
    TenThousandth,
}

impl TickSize {
    /// Fractional digits that a price on the grid may have.
    pub open spec fn spec_digits(self) -> u32 {
        match self {
            TickSize::Tenth => 1,
            TickSize::Hundredth => 2,
            TickSize::Thousandth => 3,
            TickSize::TenThousandth => 4,
        }
    }

    /// Fractional digits that a price on the grid may have.
    pub fn digits(self) -> (r: u32)
        ensures
            r == self.spec_digits(),
            1 <= r <= 4,
    {
        match self {
            TickSize::Tenth => 1,
            TickSize::Hundredth => 2,
            TickSize::Thousandth => 3,
            TickSize::TenThousandth => 4,
        }
    }

    /// How the tick is written.
    pub open spec fn text(self) -> Seq<char> {
        match self {
            TickSize::Tenth => "0.1"@,
            TickSize::Hundredth => "0.01"@,
            TickSize::Thousandth => "0.001"@,
            TickSize::TenThousandth => "0.0001"@,
        }
    }

    /// Writes the tick out.
    pub fn as_str(self) -> (r: &'static str)
        ensures
            r@ == self.text(),
    {
        match self {
            TickSize::Tenth => "0.1",
            TickSize::Hundredth => "0.01",
            TickSize::Thousandth => "0.001",
            TickSize::TenThousandth => "0.0001",
        }
    }
}

/// Amount of an order as the venue takes it.
#[derive(Clone, Copy, Debug, PartialEq, Eq)]
pub enum VenueOrderAmount {
    /// Principal to spend, in USD.
    PrincipalUsd(Usd),
    /// Shares to trade.
    Shares(Shares),
}

/// Amount of an order as the intent states it.
#[derive(Clone, Copy, Debug, PartialEq, Eq)]
pub enum OrderAmount {
    /// Cash to spend, in USD.
    Usd(Usd),
    /// Shares to trade.
    Shares(Shares),
}

/// Terms of a maker-rebate program at one point in time.
#[derive(Clone, Copy, Debug)]
pub struct MakerRebateSchedule {
    pub terms_hash: ContentHash,
    pub platform_rate: Decimal,
    pub exponent: u32,
    pub taker_only: bool,
    pub rebate_rate: Decimal,
}

/// Maker-rebate terms frozen on an entry.
#[derive(Clone, Copy, Debug)]
pub enum EntryMakerRebateTerms {
    /// The entry takes liquidity.
    AggressiveNotApplicable,
    /// The entry rests where no program runs.
    PassiveNoProgram { terms_hash: ContentHash, available_at: Timestamp },
    /// The entry rests under a program.
    PassiveProgram { schedule: MakerRebateSchedule },
}

/// Maker-rebate truth read at decision time.
#[derive(Clone, Copy, Debug)]
pub enum PitMakerRebateEvidence {
    /// No program runs.
    NoProgram { terms_hash: ContentHash },
    /// A program runs on these terms.
    Available { schedule: MakerRebateSchedule },
    /// Nothing can be said.
    Undecidable { terms_hash: ContentHash },
}

impl PitMakerRebateEvidence {
    /// Hash of the terms that the evidence speaks of.
    pub open spec fn spec_terms_hash(self) -> ContentHash {
        match self {
            PitMakerRebateEvidence::NoProgram { terms_hash } => terms_hash,
            PitMakerRebateEvidence::Available { schedule } => schedule.terms_hash,
            PitMakerRebateEvidence::Undecidable { terms_hash } => terms_hash,
        }
    }

    /// Hash of the terms that the evidence speaks of.
    pub fn terms_hash(&self) -> (r: ContentHash)
        ensures
            r == self.spec_terms_hash(),
    {
        match self {
            PitMakerRebateEvidence::NoProgram { terms_hash } => *terms_hash,
            PitMakerRebateEvidence::Available { schedule } => schedule.terms_hash,
            PitMakerRebateEvidence::Undecidable { terms_hash } => *terms_hash,
        }
    }

    /// Whether the evidence settles which terms hold.
    pub fn is_decidable(&self) -> (r: bool)
        ensures
            r == !(self is Undecidable),
    {
        match self {
            PitMakerRebateEvidence::Undecidable { .. } => false,
            _ => true,
        }
    }
}

/// Fee terms visible at one point in time.
#[derive(Clone, Copy, Debug)]
pub struct PitFeeSchedule {
    pub schedule_hash: ContentHash,
    pub effective_at: Timestamp,
    pub available_at: Timestamp,
    pub platform_rate: Decimal,
    pub exponent: u32,
    pub taker_only: bool,
    pub builder_maker_fee_bps: u32,
    pub builder_taker_fee_bps: u32,
    pub builder_attribution: bool,
}

/// Top of an order book at one point in time.
#[derive(Clone, Copy, Debug)]
pub struct BookSnapshot {
    pub best_bid: Option<Price>,
    pub best_ask: Option<Price>,
    pub timestamp_ms: u64,
    pub version: u64,
}

/// How much of an order a walk through the book fills.
#[derive(Clone, Copy, Debug, PartialEq, Eq, Structural)]
pub enum BookWalkOutcome {
    Filled,
    PartiallyFilled,
    Unfilled,
}

/// What a walk through the book gives.
#[derive(Clone, Copy, Debug)]
pub struct BookWalkFill {
    pub outcome: BookWalkOutcome,
    /// Money that goes to the counterparties, before fees.
    pub principal_usd: Usd,
    /// Money that leaves the account, fees included.
    pub cash_outlay_usd: Usd,
    /// All fees.
    pub total_fee_usd: Usd,
    /// Least favourable level that was touched.
    pub worst_price: Option<Price>,
    /// Volume-weighted average price.
    pub vwap: Option<Price>,
    pub filled_shares: Shares,
    /// Signed change of the account's cash.
    pub account_cash_delta_usd: Decimal,
}

/// Amounts of an order in the form that the venue accepts.
#[derive(Clone, Copy, Debug)]
pub struct CanonicalOrderAmounts {
    pub venue_amount: VenueOrderAmount,
    pub requested_shares: Shares,
    pub principal_usd: Usd,
}

/// Executable entry frozen on an intent.
#[derive(Debug)]
pub struct EntryOrderSpec {
    pub token_id: TokenId,
    pub side: Side,
    pub order_type: OrderType,
    pub post_only: bool,
    pub limit_price: Price,
    pub amount: OrderAmount,
    pub max_slippage_bps: Bps,
    pub maker_rebate_terms: EntryMakerRebateTerms,
    pub valid_until: Timestamp,
}

impl Clone for EntryOrderSpec {
    fn clone(&self) -> (r: EntryOrderSpec)
        ensures
            r == *self,
    {
        EntryOrderSpec {
            token_id: self.token_id.clone(),
            side: self.side,
            order_type: self.order_type,
            post_only: self.post_only,
            limit_price: self.limit_price,
            amount: self.amount,
            max_slippage_bps: self.max_slippage_bps,
            maker_rebate_terms: self.maker_rebate_terms,
            valid_until: self.valid_until,
        }
    }
}

impl EntryOrderSpec {
    /// Money that the order commits: its cash, or its shares at the limit.
    pub open spec fn spec_notional(self) -> Option<Usd> {
        match self.amount {
            OrderAmount::Usd(usd) => Some(usd),
            OrderAmount::Shares(shares) => shares.product(self.limit_price),
        }
    }

    /// Money that the order commits; `None` where it is not representable.
    pub fn notional(&self) -> (r: Option<Usd>)
        ensures
            r == self.spec_notional(),
            r is Some && self.limit_price@ >= 0 && (self.amount matches OrderAmount::Usd(usd) ==> usd@
                >= 0) && (self.amount matches OrderAmount::Shares(shares) ==> shares@ >= 0)
                ==> r->0@ >= 0,
    {
        match self.amount {
            OrderAmount::Usd(usd) => Some(usd),
            OrderAmount::Shares(shares) => shares.checked_mul(self.limit_price),
        }
    }
}

/// The exact order that is signed, stored and submitted.
#[derive(Debug)]
pub struct PreparedVenueOrder {
    pub profile_ref: Ident,
    pub market_id: MarketId,
    pub token_id: TokenId,
    pub tick_size: TickSize,
    pub minimum_order_size: Shares,
    pub neg_risk: bool,
    pub side: Side,
    pub order_type: OrderType,
    pub post_only: bool,
    pub limit_price: Price,
    pub expected_worst_fill_price: Price,
    pub cash_budget: Option<Usd>,
    pub venue_amount: VenueOrderAmount,
    pub requested_shares: Shares,
    pub expected_fee: Usd,
    pub total_cash_delta: Decimal,
    pub expected_filled_shares: Shares,
    pub book_hash: ContentHash,
    pub clob_market_info_payload_hash: ContentHash,
    pub fee_schedule: PitFeeSchedule,
    pub maker_rebate_terms: EntryMakerRebateTerms,
    pub prepared_at: Timestamp,
    pub valid_until: Timestamp,
}

impl Clone for PreparedVenueOrder {
    fn clone(&self) -> (r: PreparedVenueOrder)
        ensures
            r == *self,
    {
        PreparedVenueOrder {
            profile_ref: self.profile_ref.clone(),
            market_id: self.market_id.clone(),
            token_id: self.token_id.clone(),
            tick_size: self.tick_size,
            minimum_order_size: self.minimum_order_size,
            neg_risk: self.neg_risk,
            side: self.side,
            order_type: self.order_type,
            post_only: self.post_only,
            limit_price: self.limit_price,
            expected_worst_fill_price: self.expected_worst_fill_price,
            cash_budget: self.cash_budget,
            venue_amount: self.venue_amount,
            requested_shares: self.requested_shares,
            expected_fee: self.expected_fee,
            total_cash_delta: self.total_cash_delta,
            expected_filled_shares: self.expected_filled_shares,
            book_hash: self.book_hash,
            clob_market_info_payload_hash: self.clob_market_info_payload_hash,
            fee_schedule: self.fee_schedule,
            maker_rebate_terms: self.maker_rebate_terms,
            prepared_at: self.prepared_at,
            valid_until: self.valid_until,
        }
    }
}

/// Request by which the venue is asked whether an order is funded.
#[derive(Debug)]
pub struct OrderRequest {
    pub market_id: MarketId,
    pub token_id: TokenId,
    pub expected_tick_size: TickSize,
    pub expected_minimum_order_size: Shares,
    pub expected_neg_risk: bool,
    pub expected_clob_market_info_payload_hash: ContentHash,
    pub side: Side,
    pub amount: VenueOrderAmount,
    pub expected_fee: Usd,
    pub price: Price,
    pub order_type: OrderType,
    pub post_only: bool,
}

/// Order as it is handed to the venue.
#[derive(Debug)]
pub struct VenueOrder {
    pub market_id: MarketId,
    pub token_id: TokenId,
    pub tick_size: TickSize,
    pub minimum_order_size: Shares,
    pub neg_risk: bool,
    pub clob_market_info_payload_hash: ContentHash,
    pub side: Side,
    pub limit_price: Price,
    pub amount: VenueOrderAmount,
    pub order_type: OrderType,
    pub post_only: bool,
    pub expected_fee: Usd,
    pub fee_schedule_hash: ContentHash,
}

impl PreparedVenueOrder {
    /// The funding request that asks for exactly this order.
    pub open spec fn as_request(self) -> OrderRequest {
        OrderRequest {
            market_id: self.market_id,
            token_id: self.token_id,
            expected_tick_size: self.tick_size,
            expected_minimum_order_size: self.minimum_order_size,
            expected_neg_risk: self.neg_risk,
            expected_clob_market_info_payload_hash: self.clob_market_info_payload_hash,
            side: self.side,
            amount: self.venue_amount,
            expected_fee: self.expected_fee,
            price: self.limit_price,
            order_type: self.order_type,
            post_only: self.post_only,
        }
    }

    /// The funding request that asks for exactly this order.
    pub fn funding_request(&self) -> (r: OrderRequest)
        ensures
            r == self.as_request(),
    {
        OrderRequest {
            market_id: self.market_id.clone(),
            token_id: self.token_id.clone(),
            expected_tick_size: self.tick_size,
            expected_minimum_order_size: self.minimum_order_size,
            expected_neg_risk: self.neg_risk,
            expected_clob_market_info_payload_hash: self.clob_market_info_payload_hash,
            side: self.side,
            amount: self.venue_amount,
            expected_fee: self.expected_fee,
            price: self.limit_price,
            order_type: self.order_type,
            post_only: self.post_only,
        }
    }

    /// The venue order that submits exactly this order.
    pub open spec fn as_venue_order(self) -> VenueOrder {
        VenueOrder {
            market_id: self.market_id,
            token_id: self.token_id,
            tick_size: self.tick_size,
            minimum_order_size: self.minimum_order_size,
            neg_risk: self.neg_risk,
            clob_market_info_payload_hash: self.clob_market_info_payload_hash,
            side: self.side,
            limit_price: self.limit_price,
            amount: self.venue_amount,
            order_type: self.order_type,
            post_only: self.post_only,
            expected_fee: self.expected_fee,
            fee_schedule_hash: self.fee_schedule.schedule_hash,
        }
    }
}

/// The venue order that submits exactly the prepared order.
pub fn build_venue_order(prepared: &PreparedVenueOrder) -> (r: VenueOrder)
    ensures
        r == prepared.as_venue_order(),
{
    VenueOrder {
        market_id: prepared.market_id.clone(),
        token_id: prepared.token_id.clone(),
        tick_size: prepared.tick_size,
        minimum_order_size: prepared.minimum_order_size,
        neg_risk: prepared.neg_risk,
        clob_market_info_payload_hash: prepared.clob_market_info_payload_hash,
        side: prepared.side,
        limit_price: prepared.limit_price,
        amount: prepared.venue_amount,
        order_type: prepared.order_type,
        post_only: prepared.post_only,
        expected_fee: prepared.expected_fee,
        fee_schedule_hash: prepared.fee_schedule.schedule_hash,
    }
}

/// What is asked of funding is what is submitted: the funding request and the
/// venue order of one prepared order agree on every fact that both state.
pub proof fn funding_asks_for_what_is_submitted(prepared: PreparedVenueOrder)
    ensures
        ({
            let request = prepared.as_request();
            let order = prepared.as_venue_order();
            &&& request.market_id == order.market_id
            &&& request.token_id == order.token_id
            &&& request.side == order.side
            &&& request.amount == order.amount
            &&& request.price == order.limit_price
            &&& request.order_type == order.order_type
            &&& request.post_only == order.post_only
            &&& request.expected_fee == order.expected_fee
            &&& request.expected_tick_size == order.tick_size
            &&& request.expected_minimum_order_size == order.minimum_order_size
            &&& request.expected_neg_risk == order.neg_risk
            &&& request.expected_clob_market_info_payload_hash
                == order.clob_market_info_payload_hash
        }),
{
}

/// One observation of a market's order book rules.
#[derive(Debug)]
pub struct ClobMarketInfo {
    pub version_id: u128,
    pub market_id: MarketId,
    pub tokens: Vec<TokenId>,
    pub tick_size: TickSize,
    pub minimum_order_size: Shares,
    pub neg_risk: bool,
    pub effective_at: Timestamp,
    pub available_at: Timestamp,
    pub payload_hash: ContentHash,
    /// What validating the observation by itself reported.
    pub defect: Option<String>,
}

impl ClobMarketInfo {
    /// Whether the observation lists the token.
    pub open spec fn lists(self, token: Seq<char>) -> bool {
        exists|i: int| 0 <= i < self.tokens@.len() && (#[trigger] self.tokens@[i])@ == token
    }

    /// Whether the observation lists the token.
    pub fn has_token(&self, token: &TokenId) -> (r: bool)
        ensures
            r == self.lists(token@),
    {
        let mut i: usize = 0;
        while i < self.tokens.len()
            invariant
                i <= self.tokens@.len(),
                forall|j: int| 0 <= j < i ==> (#[trigger] self.tokens@[j])@ != token@,
            decreases self.tokens.len() - i,
        {
            if self.tokens[i].same(token) {
                assert(self.tokens@[i as int]@ == token@);
                return true;
            }
            i = i + 1;
        }
        false
    }
}

/// Fee terms of a market observation, where it was visible at the decision.
pub open spec fn visible_fees(
    market_info: ClobMarketInfo,
    decision_at: Timestamp,
    converted: Result<PitFeeSchedule, String>,
) -> Result<PitFeeSchedule, ErrorView> {
    if market_info.effective_at@ > decision_at@ || market_info.available_at@ > decision_at@ {
        Err(
            ErrorView::IntentDenied {
                reason: "market fee schedule was not point-in-time visible"@,
            },
        )
    } else {
        match converted {
            Ok(schedule) => Ok(schedule),
            Err(defect) => Err(
                ErrorView::IntentDenied { reason: "market fee schedule is invalid: "@ + defect@ },
            ),
        }
    }
}

/// Fee terms of a market observation, where it was visible at the decision.
/// `converted` is what reading the observation's fee details gave.
pub fn pit_fee_schedule(
    market_info: &ClobMarketInfo,
    decision_at: Timestamp,
    converted: Result<PitFeeSchedule, String>,
) -> (r: Result<PitFeeSchedule, ExecutionError>)
    ensures
        crate::error::outcome(r) == visible_fees(*market_info, decision_at, converted),
{
    if decision_at.before(market_info.effective_at) || decision_at.before(
        market_info.available_at,
    ) {
        return Err(intent_denied("market fee schedule was not point-in-time visible"));
    }
    match converted {
        Ok(schedule) => Ok(schedule),
        Err(defect) => Err(
            ExecutionError::IntentDenied {
                reason: "market fee schedule is invalid: ".to_owned().concat(defect.as_str()),
            },
        ),
    }
}

/// Order metadata as the venue states it now.
#[derive(Debug)]
pub struct VenueOrderMetadata {
    pub market_id: MarketId,
    pub token_id: TokenId,
    pub tick_size: TickSize,
    pub minimum_order_size: Shares,
    pub neg_risk: bool,
}

/// Asset that funds an order.
#[derive(Clone, Copy, Debug, PartialEq, Eq, Structural)]
pub enum VenueFundingAsset {
    Collateral,
    Conditional,
}

/// Human-readable balance behind a funding snapshot.
#[derive(Clone, Copy, Debug)]
pub enum VenueFundingBalance {
    Collateral(Usd),
    Conditional(Shares),
}

/// Balance and allowance that the venue reported. Raw amounts are decimal
/// numerals as the chain states them.
#[derive(Debug)]
pub struct VenueBalanceAllowanceSnapshot {
    pub asset: VenueFundingAsset,
    pub token_id: Option<TokenId>,
    pub balance: String,
    pub human_balance: VenueFundingBalance,
    pub allowance: Option<String>,
}

/// Why funding does not cover an order.
#[derive(Clone, Copy, Debug, PartialEq, Eq, Structural)]
pub enum VenueFundingDeficit {
    MissingAllowance,
    InsufficientBalance,
    InsufficientAllowance,
}

/// Whether an order is funded, with the evidence.
#[derive(Debug)]
pub struct VenueFundingEvidence {
    pub snapshot: VenueBalanceAllowanceSnapshot,
    pub required: String,
    /// `None` where the funding covers the order.
    pub deficit: Option<VenueFundingDeficit>,
}

/// Lifecycle phase of an execution order.
#[derive(Clone, Copy, Debug, PartialEq, Eq, Structural)]
pub enum ExecutionOrderPhase {
    Entry,
    Exit,
}

/// State of an execution order.
#[derive(Clone, Copy, Debug, PartialEq, Eq, Structural)]
pub enum ExecutionOrderState {
    Submitted,
    PartiallyFilled,
    Filled,
    Cancelled,
    Failed,
    Ambiguous,
}

/// State of an order intent.
#[derive(Clone, Copy, Debug, PartialEq, Eq, Structural)]
pub enum OrderIntentStatus {
    PendingApproval,
    Approved,
    ApprovedByPolicy,
    AdmissionPending,
    AdmissionRejected,
    Submitted,
    PartiallyFilled,
    Filled,
    Cancelled,
    Rejected,
    Expired,
    Invalidated,
    Failed,
}

impl OrderIntentStatus {
    /// How the status is written.
    pub open spec fn text(self) -> Seq<char> {
        match self {
            OrderIntentStatus::PendingApproval => "pending_approval"@,
            OrderIntentStatus::Approved => "approved"@,
            OrderIntentStatus::ApprovedByPolicy => "approved_by_policy"@,
            OrderIntentStatus::AdmissionPending => "admission_pending"@,
            OrderIntentStatus::AdmissionRejected => "admission_rejected"@,
            OrderIntentStatus::Submitted => "submitted"@,
            OrderIntentStatus::PartiallyFilled => "partially_filled"@,
            OrderIntentStatus::Filled => "filled"@,
            OrderIntentStatus::Cancelled => "cancelled"@,
            OrderIntentStatus::Rejected => "rejected"@,
            OrderIntentStatus::Expired => "expired"@,
            OrderIntentStatus::Invalidated => "invalidated"@,
            OrderIntentStatus::Failed => "failed"@,
        }
    }

    /// Writes the status out.
    pub fn as_str(self) -> (r: &'static str)
        ensures
            r@ == self.text(),
    {
        match self {
            OrderIntentStatus::PendingApproval => "pending_approval",
            OrderIntentStatus::Approved => "approved",
            OrderIntentStatus::ApprovedByPolicy => "approved_by_policy",
            OrderIntentStatus::AdmissionPending => "admission_pending",
            OrderIntentStatus::AdmissionRejected => "admission_rejected",
            OrderIntentStatus::Submitted => "submitted",
            OrderIntentStatus::PartiallyFilled => "partially_filled",
            OrderIntentStatus::Filled => "filled",
            OrderIntentStatus::Cancelled => "cancelled",
            OrderIntentStatus::Rejected => "rejected",
            OrderIntentStatus::Expired => "expired",
            OrderIntentStatus::Invalidated => "invalidated",
            OrderIntentStatus::Failed => "failed",
        }
    }

    /// Whether an intent of this status carries a final authorization.
    pub open spec fn spec_authorized(self) -> bool {
        self == OrderIntentStatus::Approved || self == OrderIntentStatus::ApprovedByPolicy
    }

    /// Whether an intent of this status carries a final authorization.
    pub fn is_authorized(self) -> (r: bool)
        ensures
            r == self.spec_authorized(),
    {
        self == OrderIntentStatus::Approved || self == OrderIntentStatus::ApprovedByPolicy
    }
}

/// What became of an order at the venue.
#[derive(Clone, Copy, Debug, PartialEq, Eq, Structural)]
pub enum VenueOutcome {
    Filled,
    PartiallyFilled,
    Open,
    Rejected,
    Cancelled,
    Expired,
    /// The venue did not confirm anything.
    Ambiguous,
}

impl VenueOutcome {
    /// Name of the outcome.
    pub open spec fn text(self) -> Seq<char> {
        match self {
            VenueOutcome::Filled => "Filled"@,
            VenueOutcome::PartiallyFilled => "PartiallyFilled"@,
            VenueOutcome::Open => "Open"@,
            VenueOutcome::Rejected => "Rejected"@,
            VenueOutcome::Cancelled => "Cancelled"@,
            VenueOutcome::Expired => "Expired"@,
            VenueOutcome::Ambiguous => "Ambiguous"@,
        }
    }

    /// Name of the outcome.
    pub fn name(self) -> (r: &'static str)
        ensures
            r@ == self.text(),
    {
        match self {
            VenueOutcome::Filled => "Filled",
            VenueOutcome::PartiallyFilled => "PartiallyFilled",
            VenueOutcome::Open => "Open",
            VenueOutcome::Rejected => "Rejected",
            VenueOutcome::Cancelled => "Cancelled",
            VenueOutcome::Expired => "Expired",
            VenueOutcome::Ambiguous => "Ambiguous",
        }
    }

    /// Whether shares changed hands.
    pub open spec fn has_fill(self) -> bool {
        self == VenueOutcome::Filled || self == VenueOutcome::PartiallyFilled
    }
}

/// Verdict of a reconciliation.
#[derive(Clone, Copy, Debug, PartialEq, Eq, Structural)]
pub enum ReconciliationResult {
    /// The venue truth is not known yet.
    Pending,
    /// The venue truth is known; the code says which verdict it is.
    Settled { code: u8 },
}

/// Response of the venue to a submission, as the order client reports it.
#[derive(Debug)]
pub struct VenueSubmitResult {
    pub outcome: VenueOutcome,
    pub venue_order_id: Option<OrderId>,
    /// Status that the order client assigns to the outcome.
    pub venue_status: Option<String>,
    /// Verdict that the order client assigns to the outcome.
    pub reconciliation_result: ReconciliationResult,
    /// Venue references that identify the order and its trades.
    pub identity_refs: Ident,
    pub filled_shares: Shares,
    pub avg_fill_price: Option<Price>,
    pub expected_fee: Usd,
    pub observed_fee: Option<Usd>,
    /// Where the fee figures come from.
    pub fee_evidence: Ident,
    pub submitted_at: Option<Timestamp>,
    pub responded_at: Timestamp,
    pub detail: Option<String>,
}

/// Clones an optional text.
pub(crate) fn clone_text(text: &Option<String>) -> (r: Option<String>)
    ensures
        r == *text,
{
    match text {
        Some(t) => Some(t.clone()),
        None => None,
    }
}

/// Clones an optional identifier.
pub(crate) fn clone_ident(id: &Option<Ident>) -> (r: Option<Ident>)
    ensures
        r == *id,
{
    match id {
        Some(t) => Some(t.clone()),
        None => None,
    }
}

/// Write-ahead row of an execution order.
#[derive(Debug)]
pub struct NewExecutionOrder {
    pub execution_order_id: ExecutionOrderId,
    pub order_intent_id: OrderIntentId,
    pub order_phase: ExecutionOrderPhase,
    pub market_id: MarketId,
    pub token_id: TokenId,
    pub side: Side,
    pub order_type: OrderType,
    pub price: Price,
    pub shares: Shares,
    pub cost_usd: Usd,
    pub prepared_order: PreparedVenueOrder,
    pub venue_order_id: Option<OrderId>,
    pub venue_status: Option<String>,
    pub state: ExecutionOrderState,
    pub submitted_at: Option<Timestamp>,
    pub filled_at: Option<Timestamp>,
    pub cancelled_at: Option<Timestamp>,
    pub gtd_expiration_at: Option<Timestamp>,
    pub error_message: Option<String>,
}

/// Stored execution order, as far as settling it needs.
#[derive(Debug)]
pub struct ExecutionOrderInfo {
    pub execution_order_id: ExecutionOrderId,
    pub order_intent_id: OrderIntentId,
    pub price: Price,
    /// Signed cash change that the prepared order expected.
    pub total_cash_delta: Decimal,
    pub state: ExecutionOrderState,
}

/// One piece of evidence behind a reconciliation.
#[derive(Debug)]
pub struct ReconciliationEvidence {
    pub observed_at: Timestamp,
    pub detail: String,
    pub venue_ref: Option<OrderId>,
    pub shares: Option<Shares>,
    pub price: Option<Price>,
    pub fee_evidence: Option<Ident>,
}

/// Row that records what is known of an order's venue truth.
#[derive(Debug)]
pub struct NewReconciliation {
    pub reconciliation_id: u128,
    pub execution_order_id: ExecutionOrderId,
    pub order_intent_id: OrderIntentId,
    pub result: ReconciliationResult,
    pub evidence: ReconciliationEvidence,
    pub venue_filled_shares: Option<Shares>,
    pub venue_avg_price: Option<Price>,
    pub expected_cash_delta_usd: Option<Usd>,
    pub venue_cash_delta_usd: Option<Usd>,
    pub realized_pnl_usd: Option<Usd>,
    pub expected_fee_usd: Option<Usd>,
    pub observed_fee_usd: Option<Usd>,
    pub fee_delta_usd: Option<Usd>,
    pub resolved_by: Option<String>,
    pub resolved_at: Option<Timestamp>,
}

/// A [`NewReconciliation`] with its written texts as character sequences.
pub ghost struct ReconciliationView {
    pub reconciliation_id: u128,
    pub execution_order_id: ExecutionOrderId,
    pub order_intent_id: OrderIntentId,
    pub result: ReconciliationResult,
    pub observed_at: Timestamp,
    pub detail: Seq<char>,
    pub venue_ref: Option<OrderId>,
    pub evidence_shares: Option<Shares>,
    pub evidence_price: Option<Price>,
    pub fee_evidence: Option<Ident>,
    pub venue_filled_shares: Option<Shares>,
    pub venue_avg_price: Option<Price>,
    pub expected_cash_delta_usd: Option<Usd>,
    pub venue_cash_delta_usd: Option<Usd>,
    pub realized_pnl_usd: Option<Usd>,
    pub expected_fee_usd: Option<Usd>,
    pub observed_fee_usd: Option<Usd>,
    pub fee_delta_usd: Option<Usd>,
    pub resolved_by: Option<Seq<char>>,
    pub resolved_at: Option<Timestamp>,
}

/// The characters of an optional text.
pub open spec fn text_of(text: Option<String>) -> Option<Seq<char>> {
    match text {
        Some(t) => Some(t@),
        None => None,
    }
}

impl View for NewReconciliation {
    type V = ReconciliationView;

    open spec fn view(&self) -> ReconciliationView {
        ReconciliationView {
            reconciliation_id: self.reconciliation_id,
            execution_order_id: self.execution_order_id,
            order_intent_id: self.order_intent_id,
            result: self.result,
            observed_at: self.evidence.observed_at,
            detail: self.evidence.detail@,
            venue_ref: self.evidence.venue_ref,
            evidence_shares: self.evidence.shares,
            evidence_price: self.evidence.price,
            fee_evidence: self.evidence.fee_evidence,
            venue_filled_shares: self.venue_filled_shares,
            venue_avg_price: self.venue_avg_price,
            expected_cash_delta_usd: self.expected_cash_delta_usd,
            venue_cash_delta_usd: self.venue_cash_delta_usd,
            realized_pnl_usd: self.realized_pnl_usd,
            expected_fee_usd: self.expected_fee_usd,
            observed_fee_usd: self.observed_fee_usd,
            fee_delta_usd: self.fee_delta_usd,
            resolved_by: text_of(self.resolved_by),
            resolved_at: self.resolved_at,
        }
    }
}

/// A result whose decimals left the representable range.
pub(crate) fn representable<T>(value: Option<T>) -> (r: Result<T, ExecutionError>)
    ensures
        match value {
            Some(v) => r == Ok::<T, ExecutionError>(v),
            None => r == Err::<T, ExecutionError>(ExecutionError::DecimalOverflow),
        },
{
    match value {
        Some(v) => Ok(v),
        None => Err(ExecutionError::DecimalOverflow),
    }
}

/// What a position gained by an entry fill.
#[derive(Debug)]
pub struct PositionFill {
    pub order_intent_id: OrderIntentId,
    pub execution_account_id: ExecutionAccountId,
    pub token_id: TokenId,
    pub market_id: MarketId,
    pub event_id: EventId,
    pub category: Ident,
    pub side: OutcomeSide,
    pub shares: Shares,
    pub price: Price,
    pub cost_usd: Usd,
    pub filled_at: Timestamp,
}

} // verus!
