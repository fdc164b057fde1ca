//! From an admitted intent to a venue order, and from the venue's answer to
//! the ledger.
//!
//! Admission comes first and the claim after it: the claim binds the intent to
//! the revision of its condition that was evaluated and to the hash over the
//! state that was admitted, neither of which is known before. Of two submissions
//! that were both admitted, the claim lets one through, so that nothing is
//! submitted twice. The venue is called only after the order was written ahead
//! under a claimed intent. What comes back is turned into one atomic ledger write: an
//! unconfirmed answer holds the capital and asks for reconciliation, it is
//! never taken for a failure.
use vstd::prelude::*;
use vstd::string::*;

use crate::admission::engine::AdmissionDecision;
use crate::admission::model::{AdmissionOutcome, ConditionInstance};
use crate::decimal::Usd;
use crate::error::{natural_overflow, ErrorView, ExecutionError};
use crate::orders::{
    clone_ident, clone_text, text_of, EntryOrderSpec, ExecutionOrderInfo,
    ExecutionOrderPhase, ExecutionOrderState, NewExecutionOrder, NewReconciliation,
    OrderIntentStatus, PositionFill, PreparedVenueOrder, ReconciliationEvidence,
    ReconciliationResult, ReconciliationView, VenueOutcome, VenueSubmitResult,
};
use crate::plans::{OrderIntentInfo, RecommendationInfo};
use crate::text::write_natural;
use crate::time::Timestamp;
use crate::types::{
    write_optional_ident, ContentHash, ExecutionAccountId, ExecutionOrderId, Ident, OrderId,
    OrderIntentId, OrderType,
};

verus! {

/// What becomes of the capital that an intent reserved.
#[derive(Clone, Copy, Debug, PartialEq, Eq)]
pub enum CapitalSettlement {
    /// The whole reservation was used.
    SettleFull { spent_usd: Usd },
    /// A part of the reservation was used; the rest is released.
    SettlePartial { spent_usd: Usd },
    /// Nothing is used and everything goes back.
    ReleaseAll,
    /// Nothing changes until the truth is known.
    Hold,
}

/// The atomic write that settles an entry submission.
#[derive(Debug)]
pub struct SubmissionLedgerWrite {
    pub identity_refs: Ident,
    pub state: ExecutionOrderState,
    pub intent_status: OrderIntentStatus,
    pub venue_order_id: Option<OrderId>,
    pub venue_status: Option<String>,
    pub submitted_at: Option<Timestamp>,
    pub filled_at: Option<Timestamp>,
    pub cancelled_at: Option<Timestamp>,
    pub error_message: Option<String>,
    pub capital: CapitalSettlement,
    pub fill: Option<PositionFill>,
    pub reconciliation: Option<NewReconciliation>,
}

/// A [`SubmissionLedgerWrite`] with its reconciliation row read by view.
pub ghost struct SubmissionWriteView {
    pub identity_refs: Ident,
    pub state: ExecutionOrderState,
    pub intent_status: OrderIntentStatus,
    pub venue_order_id: Option<OrderId>,
    pub venue_status: Option<String>,
    pub submitted_at: Option<Timestamp>,
    pub filled_at: Option<Timestamp>,
    pub cancelled_at: Option<Timestamp>,
    pub error_message: Option<String>,
    pub capital: CapitalSettlement,
    pub fill: Option<PositionFill>,
    pub reconciliation: Option<ReconciliationView>,
}

impl View for SubmissionLedgerWrite {
    type V = SubmissionWriteView;

    open spec fn view(&self) -> SubmissionWriteView {
        SubmissionWriteView {
            identity_refs: self.identity_refs,
            state: self.state,
            intent_status: self.intent_status,
            venue_order_id: self.venue_order_id,
            venue_status: self.venue_status,
            submitted_at: self.submitted_at,
            filled_at: self.filled_at,
            cancelled_at: self.cancelled_at,
            error_message: self.error_message,
            capital: self.capital,
            fill: self.fill,
            reconciliation: match self.reconciliation {
                Some(row) => Some(row@),
                None => None,
            },
        }
    }
}

/// Whether an intent may be submitted, or why not.
pub open spec fn submittable(intent: OrderIntentInfo, now: Timestamp) -> Result<(), ErrorView> {
    if !intent.status.spec_authorized() {
        Err(
            ErrorView::NotSubmittable {
                intent_id: intent.order_intent_id,
                state: intent.status.text(),
            },
        )
    } else if intent.expires_at@ <= now@ {
        Err(ErrorView::NotSubmittable { intent_id: intent.order_intent_id, state: "expired"@ })
    } else {
        Ok(())
    }
}

/// Checks that an intent is authorized and has not expired.
pub fn ensure_submittable(intent: &OrderIntentInfo, now: Timestamp) -> (r: Result<
    (),
    ExecutionError,
>)
    ensures
        match r {
            Ok(_) => submittable(*intent, now) is Ok,
            Err(error) => submittable(*intent, now) == Err::<(), ErrorView>(error@),
        },
{
    if !intent.status.is_authorized() {
        return Err(
            ExecutionError::NotSubmittable {
                intent_id: intent.order_intent_id,
                state: intent.status.as_str().to_owned(),
            },
        );
    }
    if intent.expires_at.until(now) {
        return Err(
            ExecutionError::NotSubmittable {
                intent_id: intent.order_intent_id,
                state: "expired".to_owned(),
            },
        );
    }
    Ok(())
}

/// Why the expiration of a good-til-date order cannot be read, if it cannot.
pub open spec fn gtd_defect(field: Seq<char>, expiration: u64, detail: Seq<char>) -> Option<
    ErrorView,
> {
    if expiration > i64::MAX {
        Some(
            ErrorView::TimeConversion {
                field,
                value: crate::text::natural_text(expiration as nat),
                detail: crate::text::conversion_overflow(),
            },
        )
    } else if !crate::time::in_calendar(expiration * 1000000000) {
        Some(
            ErrorView::TimeConversion {
                field,
                value: crate::text::natural_text(expiration as nat),
                detail,
            },
        )
    } else {
        None
    }
}

/// The instant at which an expiration in seconds lies.
pub(crate) fn expiration_instant(
    field: &'static str,
    expiration: u64,
    detail: &str,
) -> (r: Result<Timestamp, ExecutionError>)
    ensures
        match r {
            Ok(at) => gtd_defect(field@, expiration, detail@) is None && at@ == expiration
                * 1000000000,
            Err(error) => gtd_defect(field@, expiration, detail@) == Some(error@),
        },
{
    if expiration > i64::MAX as u64 {
        return Err(natural_overflow(field, expiration));
    }
    match Timestamp::from_seconds(expiration as i64) {
        Some(at) => Ok(at),
        None => Err(
            ExecutionError::TimeConversion {
                field,
                value: write_natural(expiration as u128),
                detail: detail.to_owned(),
            },
        ),
    }
}

/// When a good-til-date order expires; other orders have no such time.
pub fn gtd_expiration_at(order_type: &OrderType) -> (r: Result<Option<Timestamp>, ExecutionError>)
    ensures
        match (*order_type, r) {
            (OrderType::Gtd { expiration }, Ok(at)) => gtd_defect(
                "order_type.gtd.expiration"@,
                expiration,
                "timestamp is outside the chrono range"@,
            ) is None && at is Some && at->0@ == expiration * 1000000000,
            (OrderType::Gtd { expiration }, Err(error)) => gtd_defect(
                "order_type.gtd.expiration"@,
                expiration,
                "timestamp is outside the chrono range"@,
            ) == Some(error@),
            (_, r) => r == Ok::<Option<Timestamp>, ExecutionError>(None),
        },
{
    match *order_type {
        OrderType::Gtd { expiration } => match expiration_instant(
            "order_type.gtd.expiration",
            expiration,
            "timestamp is outside the chrono range",
        ) {
            Ok(at) => Ok(Some(at)),
            Err(error) => Err(error),
        },
        _ => Ok(None),
    }
}

/// Money that an entry row books: the cash budget, or what the order commits.
pub open spec fn entry_cost(spec: EntryOrderSpec, prepared: PreparedVenueOrder) -> Option<Usd> {
    match prepared.cash_budget {
        Some(budget) => Some(budget),
        None => spec.spec_notional(),
    }
}

/// The write-ahead row of an entry order, in state `Submitted`.
pub fn build_new_execution_order(
    execution_order_id: ExecutionOrderId,
    intent: &OrderIntentInfo,
    recommendation: &RecommendationInfo,
    spec: &EntryOrderSpec,
    prepared_order: &PreparedVenueOrder,
) -> (r: Result<NewExecutionOrder, ExecutionError>)
    ensures
        match r {
            Ok(row) => {
                &&& entry_cost(*spec, *prepared_order) is Some
                &&& row.gtd_expiration_at is Some <==> spec.order_type is Gtd
                &&& spec.order_type matches OrderType::Gtd { expiration }
                    ==> row.gtd_expiration_at->0@ == expiration * 1000000000
                &&& row == (NewExecutionOrder {
                    execution_order_id,
                    order_intent_id: intent.order_intent_id,
                    order_phase: ExecutionOrderPhase::Entry,
                    market_id: recommendation.market_id,
                    token_id: spec.token_id,
                    side: spec.side,
                    order_type: spec.order_type,
                    price: spec.limit_price,
                    shares: prepared_order.expected_filled_shares,
                    cost_usd: entry_cost(*spec, *prepared_order)->0,
                    prepared_order: *prepared_order,
                    venue_order_id: None,
                    venue_status: None,
                    state: ExecutionOrderState::Submitted,
                    submitted_at: None,
                    filled_at: None,
                    cancelled_at: None,
                    gtd_expiration_at: row.gtd_expiration_at,
                    error_message: None,
                })
            },
            Err(error) => if entry_cost(*spec, *prepared_order) is None {
                error@ == ErrorView::DecimalOverflow
            } else {
                spec.order_type matches OrderType::Gtd { expiration } && gtd_defect(
                    "order_type.gtd.expiration"@,
                    expiration,
                    "timestamp is outside the chrono range"@,
                ) == Some(error@)
            },
        },
{
    let cost_usd = match prepared_order.cash_budget {
        Some(budget) => budget,
        None => match spec.notional() {
            Some(cost) => cost,
            None => {
                return Err(ExecutionError::DecimalOverflow);
            },
        },
    };
    let gtd = match gtd_expiration_at(&spec.order_type) {
        Ok(at) => at,
        Err(error) => {
            return Err(error);
        },
    };
    Ok(
        NewExecutionOrder {
            execution_order_id,
            order_intent_id: intent.order_intent_id,
            order_phase: ExecutionOrderPhase::Entry,
            market_id: recommendation.market_id.clone(),
            token_id: spec.token_id.clone(),
            side: spec.side,
            order_type: spec.order_type,
            price: spec.limit_price,
            shares: prepared_order.expected_filled_shares,
            cost_usd,
            prepared_order: prepared_order.clone(),
            venue_order_id: None,
            venue_status: None,
            state: ExecutionOrderState::Submitted,
            submitted_at: None,
            filled_at: None,
            cancelled_at: None,
            gtd_expiration_at: gtd,
            error_message: None,
        },
    )
}

/// Who resolved a reconciliation by the submit response, and when: nobody
/// while the venue truth is pending.
pub open spec fn response_resolution(result: ReconciliationResult, responded_at: Timestamp) -> (
    Option<Seq<char>>,
    Option<Timestamp>,
) {
    if result == ReconciliationResult::Pending {
        (None, None)
    } else {
        (Some("venue_submit_response"@), Some(responded_at))
    }
}

/// Freezes the terminal truth that the submit response itself carried.
pub fn submit_response_resolution(result: ReconciliationResult, responded_at: Timestamp) -> (r: (
    Option<String>,
    Option<Timestamp>,
))
    ensures
        (text_of(r.0), r.1) == response_resolution(result, responded_at),
{
    if result == ReconciliationResult::Pending {
        (None, None)
    } else {
        (Some("venue_submit_response".to_owned()), Some(responded_at))
    }
}

/// How much more the observed fee was than the expected one; the outer option
/// is empty where the difference is not representable.
pub open spec fn fee_delta(result: VenueSubmitResult) -> Option<Option<Usd>> {
    match result.observed_fee {
        Some(fee) => match fee.difference(result.expected_fee) {
            Some(delta) => Some(Some(delta)),
            None => None,
        },
        None => Some(None),
    }
}

/// Sentence that a reconciliation row records about a venue answer.
pub open spec fn outcome_detail(lead: Seq<char>, result: VenueSubmitResult) -> Seq<char> {
    lead + result.outcome.text() + "; order_id="@ + crate::types::optional_ident_text(
        result.venue_order_id,
    ) + "; filled="@ + result.filled_shares.text()
}

/// Writes that sentence.
pub(crate) fn write_outcome_detail(lead: &str, result: &VenueSubmitResult) -> (r: String)
    ensures
        r@ == outcome_detail(lead@, *result),
{
    lead.to_owned().concat(result.outcome.name()).concat("; order_id=").concat(
        write_optional_ident(&result.venue_order_id).as_str(),
    ).concat("; filled=").concat(result.filled_shares.to_text().as_str())
}

/// The reconciliation row of an entry submission.
pub open spec fn entry_reconciliation(
    reconciliation_id: u128,
    result: VenueSubmitResult,
    order: ExecutionOrderInfo,
) -> Option<ReconciliationView> {
    match fee_delta(result) {
        None => None,
        Some(delta) => {
            let resolution = response_resolution(result.reconciliation_result, result.responded_at);
            Some(
                ReconciliationView {
                    reconciliation_id,
                    execution_order_id: order.execution_order_id,
                    order_intent_id: order.order_intent_id,
                    result: result.reconciliation_result,
                    observed_at: result.responded_at,
                    detail: outcome_detail("venue outcome "@, result),
                    venue_ref: result.venue_order_id,
                    evidence_shares: Some(result.filled_shares),
                    evidence_price: result.avg_fill_price,
                    fee_evidence: Some(result.fee_evidence),
                    venue_filled_shares: Some(result.filled_shares),
                    venue_avg_price: result.avg_fill_price,
                    expected_cash_delta_usd: Some(order.total_cash_delta),
                    venue_cash_delta_usd: None,
                    realized_pnl_usd: None,
                    expected_fee_usd: Some(result.expected_fee),
                    observed_fee_usd: result.observed_fee,
                    fee_delta_usd: delta,
                    resolved_by: resolution.0,
                    resolved_at: resolution.1,
                },
            )
        },
    }
}

/// The reconciliation row of an entry submission; `None` where the fee
/// difference is not representable.
pub fn reconciliation_row(
    reconciliation_id: u128,
    result: &VenueSubmitResult,
    execution_order: &ExecutionOrderInfo,
) -> (r: Option<NewReconciliation>)
    ensures
        match r {
            Some(row) => entry_reconciliation(reconciliation_id, *result, *execution_order) == Some(
                row@,
            ),
            None => entry_reconciliation(reconciliation_id, *result, *execution_order) is None,
        },
{
    let delta = match result.observed_fee {
        Some(fee) => match fee.checked_sub(result.expected_fee) {
            Some(delta) => Some(delta),
            None => {
                return None;
            },
        },
        None => None,
    };
    let (resolved_by, resolved_at) = submit_response_resolution(
        result.reconciliation_result,
        result.responded_at,
    );
    Some(
        NewReconciliation {
            reconciliation_id,
            execution_order_id: execution_order.execution_order_id,
            order_intent_id: execution_order.order_intent_id,
            result: result.reconciliation_result,
            evidence: ReconciliationEvidence {
                observed_at: result.responded_at,
                detail: write_outcome_detail("venue outcome ", result),
                venue_ref: clone_ident(&result.venue_order_id),
                shares: Some(result.filled_shares),
                price: result.avg_fill_price,
                fee_evidence: Some(result.fee_evidence.clone()),
            },
            venue_filled_shares: Some(result.filled_shares),
            venue_avg_price: result.avg_fill_price,
            expected_cash_delta_usd: Some(execution_order.total_cash_delta),
            venue_cash_delta_usd: None,
            realized_pnl_usd: None,
            expected_fee_usd: Some(result.expected_fee),
            observed_fee_usd: result.observed_fee,
            fee_delta_usd: delta,
            resolved_by,
            resolved_at,
        },
    )
}

/// Price per share of an entry fill: what the venue reported, or the limit.
pub open spec fn fill_price(result: VenueSubmitResult, spec: EntryOrderSpec) -> crate::decimal::Price {
    match result.avg_fill_price {
        Some(price) => price,
        None => spec.limit_price,
    }
}

/// Money that an entry cost: the filled shares at the fill price, and the fee.
pub open spec fn total_spent(result: VenueSubmitResult, spec: EntryOrderSpec) -> Option<Usd> {
    match result.filled_shares.product(fill_price(result, spec)) {
        Some(cost) => cost.sum(result.expected_fee),
        None => None,
    }
}

/// What the position gains by the fill.
pub open spec fn filled_position(
    result: VenueSubmitResult,
    recommendation: RecommendationInfo,
    spec: EntryOrderSpec,
    order_intent_id: OrderIntentId,
    execution_account_id: ExecutionAccountId,
    spent: Usd,
) -> PositionFill {
    PositionFill {
        order_intent_id,
        execution_account_id,
        token_id: spec.token_id,
        market_id: recommendation.market_id,
        event_id: recommendation.event_id,
        category: recommendation.category,
        side: recommendation.outcome_side,
        shares: result.filled_shares,
        price: fill_price(result, spec),
        cost_usd: spent,
        filled_at: result.responded_at,
    }
}

/// What the position gains by the fill; `None` where its cost is not
/// representable.
pub fn position_fill(
    result: &VenueSubmitResult,
    recommendation: &RecommendationInfo,
    spec: &EntryOrderSpec,
    order_intent_id: OrderIntentId,
    execution_account_id: ExecutionAccountId,
) -> (r: Option<PositionFill>)
    ensures
        r == (match total_spent(*result, *spec) {
            Some(spent) => Some(
                filled_position(
                    *result,
                    *recommendation,
                    *spec,
                    order_intent_id,
                    execution_account_id,
                    spent,
                ),
            ),
            None => None,
        }),
{
    let price = match result.avg_fill_price {
        Some(price) => price,
        None => spec.limit_price,
    };
    let cost = match result.filled_shares.checked_mul(price) {
        Some(cost) => cost,
        None => {
            return None;
        },
    };
    match cost.checked_add(result.expected_fee) {
        Some(spent) => Some(
            PositionFill {
                order_intent_id,
                execution_account_id,
                token_id: spec.token_id.clone(),
                market_id: recommendation.market_id.clone(),
                event_id: recommendation.event_id.clone(),
                category: recommendation.category.clone(),
                side: recommendation.outcome_side,
                shares: result.filled_shares,
                price,
                cost_usd: spent,
                filled_at: result.responded_at,
            },
        ),
        None => None,
    }
}

/// State that an outcome gives the order.
pub open spec fn settled_order_state(outcome: VenueOutcome) -> ExecutionOrderState {
    match outcome {
        VenueOutcome::Filled => ExecutionOrderState::Filled,
        VenueOutcome::PartiallyFilled => ExecutionOrderState::PartiallyFilled,
        VenueOutcome::Open => ExecutionOrderState::Submitted,
        VenueOutcome::Rejected => ExecutionOrderState::Failed,
        VenueOutcome::Cancelled => ExecutionOrderState::Cancelled,
        VenueOutcome::Expired => ExecutionOrderState::Cancelled,
        VenueOutcome::Ambiguous => ExecutionOrderState::Ambiguous,
    }
}

/// Status that an outcome gives the intent.
pub open spec fn settled_intent_status(outcome: VenueOutcome) -> OrderIntentStatus {
    match outcome {
        VenueOutcome::Filled => OrderIntentStatus::Filled,
        VenueOutcome::PartiallyFilled => OrderIntentStatus::PartiallyFilled,
        VenueOutcome::Open => OrderIntentStatus::Submitted,
        VenueOutcome::Rejected => OrderIntentStatus::Failed,
        VenueOutcome::Cancelled => OrderIntentStatus::Cancelled,
        VenueOutcome::Expired => OrderIntentStatus::Cancelled,
        VenueOutcome::Ambiguous => OrderIntentStatus::Submitted,
    }
}

/// What an outcome does to the reserved capital.
pub open spec fn settled_capital(outcome: VenueOutcome, spent_usd: Usd) -> CapitalSettlement {
    match outcome {
        VenueOutcome::Filled => CapitalSettlement::SettleFull { spent_usd },
        VenueOutcome::PartiallyFilled => CapitalSettlement::SettlePartial { spent_usd },
        VenueOutcome::Open => CapitalSettlement::Hold,
        VenueOutcome::Ambiguous => CapitalSettlement::Hold,
        _ => CapitalSettlement::ReleaseAll,
    }
}

/// The ledger write that settles an entry submission; `None` where a sum of
/// money is not representable.
pub open spec fn submission_write(
    reconciliation_id: u128,
    result: VenueSubmitResult,
    recommendation: RecommendationInfo,
    spec: EntryOrderSpec,
    order: ExecutionOrderInfo,
    execution_account_id: ExecutionAccountId,
) -> Option<SubmissionWriteView> {
    let outcome = result.outcome;
    let row = entry_reconciliation(reconciliation_id, result, order);
    match total_spent(result, spec) {
        None => None,
        Some(spent) => if row is None && outcome != VenueOutcome::Open {
            None
        } else {
            Some(
                SubmissionWriteView {
                    identity_refs: result.identity_refs,
                    state: settled_order_state(outcome),
                    intent_status: settled_intent_status(outcome),
                    venue_order_id: result.venue_order_id,
                    venue_status: if outcome == VenueOutcome::Ambiguous {
                        None
                    } else {
                        result.venue_status
                    },
                    submitted_at: result.submitted_at,
                    filled_at: if outcome.has_fill() {
                        Some(result.responded_at)
                    } else {
                        None
                    },
                    cancelled_at: if outcome == VenueOutcome::Cancelled || outcome
                        == VenueOutcome::Expired {
                        Some(result.responded_at)
                    } else {
                        None
                    },
                    error_message: if outcome.has_fill() || outcome == VenueOutcome::Open {
                        None
                    } else {
                        result.detail
                    },
                    capital: settled_capital(outcome, spent),
                    fill: if outcome.has_fill() {
                        Some(
                            filled_position(
                                result,
                                recommendation,
                                spec,
                                order.order_intent_id,
                                execution_account_id,
                                spent,
                            ),
                        )
                    } else {
                        None
                    },
                    reconciliation: if outcome == VenueOutcome::Open {
                        None
                    } else {
                        row
                    },
                },
            )
        },
    }
}

/// Turns a venue answer into the atomic ledger write of an entry: order state,
/// intent status, capital, position and reconciliation.
pub fn build_ledger_write(
    reconciliation_id: u128,
    result: &VenueSubmitResult,
    recommendation: &RecommendationInfo,
    spec: &EntryOrderSpec,
    execution_order: &ExecutionOrderInfo,
    execution_account_id: ExecutionAccountId,
) -> (r: Result<SubmissionLedgerWrite, ExecutionError>)
    ensures
        match r {
            Ok(write) => submission_write(
                reconciliation_id,
                *result,
                *recommendation,
                *spec,
                *execution_order,
                execution_account_id,
            ) == Some(write@),
            Err(error) => error@ == ErrorView::DecimalOverflow && submission_write(
                reconciliation_id,
                *result,
                *recommendation,
                *spec,
                *execution_order,
                execution_account_id,
            ) is None,
        },
{
    let outcome = result.outcome;
    let position = match position_fill(
        result,
        recommendation,
        spec,
        execution_order.order_intent_id,
        execution_account_id,
    ) {
        Some(position) => position,
        None => {
            return Err(ExecutionError::DecimalOverflow);
        },
    };
    let spent_usd = position.cost_usd;
    let reconciliation = if outcome == VenueOutcome::Open {
        None
    } else {
        match reconciliation_row(reconciliation_id, result, execution_order) {
            Some(row) => Some(row),
            None => {
                return Err(ExecutionError::DecimalOverflow);
            },
        }
    };
    let identity_refs = result.identity_refs.clone();
    let venue_order_id = clone_ident(&result.venue_order_id);
    let submitted_at = result.submitted_at;
    let write = match outcome {
        VenueOutcome::Filled => SubmissionLedgerWrite {
            identity_refs,
            state: ExecutionOrderState::Filled,
            intent_status: OrderIntentStatus::Filled,
            venue_order_id,
            venue_status: clone_text(&result.venue_status),
            submitted_at,
            filled_at: Some(result.responded_at),
            cancelled_at: None,
            error_message: None,
            capital: CapitalSettlement::SettleFull { spent_usd },
            fill: Some(position),
            reconciliation,
        },
        VenueOutcome::PartiallyFilled => SubmissionLedgerWrite {
            identity_refs,
            state: ExecutionOrderState::PartiallyFilled,
            intent_status: OrderIntentStatus::PartiallyFilled,
            venue_order_id,
            venue_status: clone_text(&result.venue_status),
            submitted_at,
            filled_at: Some(result.responded_at),
            cancelled_at: None,
            error_message: None,
            capital: CapitalSettlement::SettlePartial { spent_usd },
            fill: Some(position),
            reconciliation,
        },
        // A resting order keeps its capital locked until it is polled.
        VenueOutcome::Open => SubmissionLedgerWrite {
            identity_refs,
            state: ExecutionOrderState::Submitted,
            intent_status: OrderIntentStatus::Submitted,
            venue_order_id,
            venue_status: clone_text(&result.venue_status),
            submitted_at,
            filled_at: None,
            cancelled_at: None,
            error_message: None,
            capital: CapitalSettlement::Hold,
            fill: None,
            reconciliation,
        },
        VenueOutcome::Rejected => SubmissionLedgerWrite {
            identity_refs,
            state: ExecutionOrderState::Failed,
            intent_status: OrderIntentStatus::Failed,
            venue_order_id,
            venue_status: clone_text(&result.venue_status),
            submitted_at,
            filled_at: None,
            cancelled_at: None,
            error_message: clone_text(&result.detail),
            capital: CapitalSettlement::ReleaseAll,
            fill: None,
            reconciliation,
        },
        VenueOutcome::Cancelled | VenueOutcome::Expired => SubmissionLedgerWrite {
            identity_refs,
            state: ExecutionOrderState::Cancelled,
            intent_status: OrderIntentStatus::Cancelled,
            venue_order_id,
            venue_status: clone_text(&result.venue_status),
            submitted_at,
            filled_at: None,
            cancelled_at: Some(result.responded_at),
            error_message: clone_text(&result.detail),
            capital: CapitalSettlement::ReleaseAll,
            fill: None,
            reconciliation,
        },
        // Nothing is confirmed: hold the capital, book nothing, reconcile.
        VenueOutcome::Ambiguous => SubmissionLedgerWrite {
            identity_refs,
            state: ExecutionOrderState::Ambiguous,
            intent_status: OrderIntentStatus::Submitted,
            venue_order_id,
            venue_status: None,
            submitted_at,
            filled_at: None,
            cancelled_at: None,
            error_message: clone_text(&result.detail),
            capital: CapitalSettlement::Hold,
            fill: None,
            reconciliation,
        },
    };
    Ok(write)
}

/// Capital is held exactly while the venue truth is open or unknown, and given
/// back exactly where the order came to nothing.
pub proof fn capital_follows_the_truth(
    reconciliation_id: u128,
    result: VenueSubmitResult,
    recommendation: RecommendationInfo,
    spec: EntryOrderSpec,
    order: ExecutionOrderInfo,
    account: ExecutionAccountId,
)
    requires
        submission_write(reconciliation_id, result, recommendation, spec, order, account) is Some,
    ensures
        ({
            let write = submission_write(
                reconciliation_id,
                result,
                recommendation,
                spec,
                order,
                account,
            )->0;
            &&& write.capital == CapitalSettlement::Hold <==> (result.outcome == VenueOutcome::Open
                || result.outcome == VenueOutcome::Ambiguous)
            &&& write.capital == CapitalSettlement::ReleaseAll <==> (result.outcome
                == VenueOutcome::Rejected || result.outcome == VenueOutcome::Cancelled
                || result.outcome == VenueOutcome::Expired)
            &&& result.outcome == VenueOutcome::Ambiguous ==> write.state
                == ExecutionOrderState::Ambiguous && write.fill is None && write.reconciliation
                is Some
        }),
{
}

/// The money that leaves the reservation is the cost at which the position is
/// booked, and a position is booked only for a fill.
pub proof fn spent_capital_is_position_cost(
    reconciliation_id: u128,
    result: VenueSubmitResult,
    recommendation: RecommendationInfo,
    spec: EntryOrderSpec,
    order: ExecutionOrderInfo,
    account: ExecutionAccountId,
)
    requires
        submission_write(reconciliation_id, result, recommendation, spec, order, account) is Some,
    ensures
        ({
            let write = submission_write(
                reconciliation_id,
                result,
                recommendation,
                spec,
                order,
                account,
            )->0;
            match write.capital {
                CapitalSettlement::SettleFull { spent_usd } => write.fill is Some
                    && write.fill->0.cost_usd == spent_usd,
                CapitalSettlement::SettlePartial { spent_usd } => write.fill is Some
                    && write.fill->0.cost_usd == spent_usd,
                _ => write.fill is None,
            }
        }),
{
}

/// Claim of an intent together with the condition that it was admitted under.
#[derive(Clone, Copy, Debug)]
pub struct EntryConditionClaim {
    pub condition_instance_id: u128,
    pub order_intent_id: OrderIntentId,
    pub artifact_id: u128,
    pub artifact_hash: ContentHash,
    pub expected_revision: i64,
    pub evaluation_hash: Option<ContentHash>,
    pub input_fingerprint: Option<ContentHash>,
    pub continuity_hash: Option<ContentHash>,
    pub admission_state_version: ContentHash,
    pub claimed_at: Timestamp,
}

/// The claim of an intent with the condition revision that was evaluated.
pub open spec fn claim_of(
    intent_id: OrderIntentId,
    condition: ConditionInstance,
    admission_state_version: ContentHash,
    now: Timestamp,
) -> EntryConditionClaim {
    EntryConditionClaim {
        condition_instance_id: condition.condition_instance_id,
        order_intent_id: intent_id,
        artifact_id: condition.artifact_id,
        artifact_hash: condition.artifact_hash,
        expected_revision: condition.revision,
        evaluation_hash: condition.evaluation_hash,
        input_fingerprint: condition.input_fingerprint,
        continuity_hash: condition.continuity_hash,
        admission_state_version,
        claimed_at: now,
    }
}

/// What an admission decision leads to.
#[derive(Debug)]
pub enum AdmissionVerdict {
    /// Claim the intent and submit it.
    Claim,
    /// Reject the intent for good; `refusal` is what the caller is told.
    Reject { reason: String, trace_ref: Option<String>, refusal: ExecutionError },
    /// Leave the intent as it is; `refusal` is what the caller is told.
    Defer { refusal: ExecutionError },
}

/// The claim of an intent that was admitted. `admission_state_version` is the
/// hash over the state of the decision.
pub fn build_claim(
    intent_id: OrderIntentId,
    condition: &ConditionInstance,
    admission_state_version: ContentHash,
    now: Timestamp,
) -> (r: EntryConditionClaim)
    ensures
        r == claim_of(intent_id, *condition, admission_state_version, now),
{
    EntryConditionClaim {
        condition_instance_id: condition.condition_instance_id,
        order_intent_id: intent_id,
        artifact_id: condition.artifact_id,
        artifact_hash: condition.artifact_hash,
        expected_revision: condition.revision,
        evaluation_hash: condition.evaluation_hash,
        input_fingerprint: condition.input_fingerprint,
        continuity_hash: condition.continuity_hash,
        admission_state_version,
        claimed_at: now,
    }
}

/// Reads an admission decision.
pub fn admission_verdict(decision: &AdmissionDecision) -> (r: AdmissionVerdict)
    ensures
        match decision.outcome {
            AdmissionOutcome::Allow => r is Claim,
            AdmissionOutcome::Deny => r matches AdmissionVerdict::Reject {
                reason,
                trace_ref,
                refusal,
            } && reason@ == denial_text(*decision) && text_of(trace_ref)
                == crate::admission::engine::trace_ref(decision@.trace) && refusal@ == (
            ErrorView::AdmissionDenied { reason: denial_text(*decision) }),
            AdmissionOutcome::Defer => r matches AdmissionVerdict::Defer { refusal } && refusal@
                == (ErrorView::AdmissionDeferred {
                reason: crate::admission::engine::last_deferral(decision@.trace),
            }),
        },
{
    match decision.outcome {
        AdmissionOutcome::Allow => AdmissionVerdict::Claim,
        AdmissionOutcome::Deny => {
            let reason = match &decision.denial_reason {
                Some(reason) => reason.clone(),
                None => "admission denied".to_owned(),
            };
            AdmissionVerdict::Reject {
                reason: reason.clone(),
                trace_ref: decision.denial_trace_ref(),
                refusal: ExecutionError::AdmissionDenied { reason },
            }
        },
        AdmissionOutcome::Defer => AdmissionVerdict::Defer {
            refusal: ExecutionError::AdmissionDeferred { reason: decision.defer_reason() },
        },
    }
}

/// What a denied caller is told.
pub open spec fn denial_text(decision: AdmissionDecision) -> Seq<char> {
    match decision.denial_reason {
        Some(reason) => reason@,
        None => "admission denied"@,
    }
}

/// What a venue answer means for the breaker and the counters.
#[derive(Debug)]
pub struct SubmissionEffects {
    /// `false` only for an unconfirmed answer.
    pub venue_ok: bool,
    /// Text handed to the breaker.
    pub breaker_detail: String,
    /// Whether a fill is counted.
    pub counts_fill: bool,
}

/// What a venue answer means for the breaker and the counters. `fallback`
/// stands for a missing detail.
pub fn submission_effects(result: &VenueSubmitResult, fallback: &str) -> (r: SubmissionEffects)
    ensures
        r.venue_ok == (result.outcome != VenueOutcome::Ambiguous),
        r.counts_fill == result.outcome.has_fill(),
        r.breaker_detail@ == (match result.detail {
            Some(detail) => detail@,
            None => fallback@,
        }),
{
    SubmissionEffects {
        venue_ok: result.outcome != VenueOutcome::Ambiguous,
        breaker_detail: match &result.detail {
            Some(detail) => detail.clone(),
            None => fallback.to_owned(),
        },
        counts_fill: result.outcome == VenueOutcome::Filled || result.outcome
            == VenueOutcome::PartiallyFilled,
    }
}

/// Why a stored row could not be changed.
#[derive(Debug, PartialEq, Eq)]
pub enum StorageError {
    NotFound { entity: String, id: String },
    IllegalTransition { entity: String, from: String, to: String },
    StateConflict { entity: String, detail: String },
    InvariantViolation { detail: String },
    Duplicate { entity: String, key: String },
    /// Any other failure of the store.
    Backend { detail: String },
}

/// State text by which a failed claim is reported, where the failure says that
/// the intent cannot be submitted.
pub open spec fn claim_conflict(error: StorageError) -> Option<Seq<char>> {
    match error {
        StorageError::NotFound { id, .. } => Some(id@),
        StorageError::IllegalTransition { entity, from, to } => Some(
            "illegal transition on "@ + entity@ + ": "@ + from@ + " -> "@ + to@,
        ),
        StorageError::StateConflict { entity, detail } => Some(entity@ + ": "@ + detail@),
        StorageError::InvariantViolation { detail } => Some(detail@),
        StorageError::Duplicate { entity, key } => Some(entity@ + " already exists: "@ + key@),
        StorageError::Backend { .. } => None,
    }
}

/// Reads a failed claim: `Ok` with the refusal where the failure says that the
/// intent cannot be submitted, `Err` with the failure itself otherwise.
pub fn submission_storage_failure(intent_id: OrderIntentId, error: StorageError) -> (r: Result<
    ExecutionError,
    StorageError,
>)
    ensures
        match r {
            Ok(refusal) => claim_conflict(error) is Some && refusal@ == (ErrorView::NotSubmittable {
                intent_id,
                state: claim_conflict(error)->0,
            }),
            Err(kept) => claim_conflict(error) is None && kept == error,
        },
{
    let state = match error {
        StorageError::NotFound { entity: _, id } => id,
        StorageError::IllegalTransition { entity, from, to } => "illegal transition on ".to_owned(

        ).concat(entity.as_str()).concat(": ").concat(from.as_str()).concat(" -> ").concat(
            to.as_str(),
        ),
        StorageError::StateConflict { entity, detail } => entity.concat(": ").concat(
            detail.as_str(),
        ),
        StorageError::InvariantViolation { detail } => detail,
        StorageError::Duplicate { entity, key } => entity.concat(" already exists: ").concat(
            key.as_str(),
        ),
        StorageError::Backend { detail } => {
            return Err(StorageError::Backend { detail });
        },
    };
    Ok(ExecutionError::NotSubmittable { intent_id, state })
}

/// Where a submission stands: the step that is being carried out.
#[derive(Clone, Copy, Debug, PartialEq, Eq, Structural)]
pub enum SubmissionStep {
    /// Ask the feature-parity gate before anything is claimed.
    CheckParity,
    /// Load the intent and check that it is submittable.
    LoadIntent,
    /// Build the admission input, prepare the order and evaluate admission.
    Admit,
    /// Claim intent and condition atomically.
    Claim,
    /// Fix the parity generation under which the order is written.
    CommitParity,
    /// Build the write-ahead row.
    BuildRow,
    /// Write the order ahead and lock its capital.
    WriteAhead,
    /// Call the venue, outside any lock.
    CallVenue,
    /// Settle the answer in one transaction.
    Settle,
    /// Announce what changed.
    Publish,
    /// Release the claim after a failure.
    RevertClaim,
    /// The submission is over and succeeded.
    Succeeded,
    /// The submission is over and failed.
    Failed,
}

/// The step that follows a step which succeeded or failed.
pub open spec fn following_step(step: SubmissionStep, succeeded: bool) -> SubmissionStep {
    match (step, succeeded) {
        (SubmissionStep::CheckParity, true) => SubmissionStep::LoadIntent,
        (SubmissionStep::LoadIntent, true) => SubmissionStep::Admit,
        (SubmissionStep::Admit, true) => SubmissionStep::Claim,
        (SubmissionStep::Claim, true) => SubmissionStep::CommitParity,
        (SubmissionStep::CommitParity, true) => SubmissionStep::BuildRow,
        (SubmissionStep::BuildRow, true) => SubmissionStep::WriteAhead,
        (SubmissionStep::WriteAhead, true) => SubmissionStep::CallVenue,
        // The venue call always gives an answer, if only an ambiguous one.
        (SubmissionStep::CallVenue, _) => SubmissionStep::Settle,
        (SubmissionStep::Settle, true) => SubmissionStep::Publish,
        (SubmissionStep::Publish, true) => SubmissionStep::Succeeded,
        (SubmissionStep::CommitParity, false) => SubmissionStep::RevertClaim,
        (SubmissionStep::WriteAhead, false) => SubmissionStep::RevertClaim,
        (SubmissionStep::Succeeded, _) => SubmissionStep::Succeeded,
        _ => SubmissionStep::Failed,
    }
}

/// The step that follows a step which succeeded or failed.
pub fn next_submission_step(step: SubmissionStep, succeeded: bool) -> (r: SubmissionStep)
    ensures
        r == following_step(step, succeeded),
{
    match (step, succeeded) {
        (SubmissionStep::CheckParity, true) => SubmissionStep::LoadIntent,
        (SubmissionStep::LoadIntent, true) => SubmissionStep::Admit,
        (SubmissionStep::Admit, true) => SubmissionStep::Claim,
        (SubmissionStep::Claim, true) => SubmissionStep::CommitParity,
        (SubmissionStep::CommitParity, true) => SubmissionStep::BuildRow,
        (SubmissionStep::BuildRow, true) => SubmissionStep::WriteAhead,
        (SubmissionStep::WriteAhead, true) => SubmissionStep::CallVenue,
        (SubmissionStep::CallVenue, _) => SubmissionStep::Settle,
        (SubmissionStep::Settle, true) => SubmissionStep::Publish,
        (SubmissionStep::Publish, true) => SubmissionStep::Succeeded,
        (SubmissionStep::CommitParity, false) => SubmissionStep::RevertClaim,
        (SubmissionStep::WriteAhead, false) => SubmissionStep::RevertClaim,
        (SubmissionStep::Succeeded, _) => SubmissionStep::Succeeded,
        _ => SubmissionStep::Failed,
    }
}

/// Whether `steps` is a run of the submission from its start.
pub open spec fn is_submission_run(steps: Seq<SubmissionStep>, successes: Seq<bool>) -> bool {
    &&& steps.len() == successes.len() + 1
    &&& steps[0] == SubmissionStep::CheckParity
    &&& forall|i: int|
        0 <= i < successes.len() ==> #[trigger] steps[i + 1] == following_step(
            steps[i],
            successes[i],
        )
}

/// In every run, the venue is called only after the intent was claimed and the
/// order was written ahead, and it is called at most once.
pub proof fn venue_call_follows_claim_and_write_ahead(
    steps: Seq<SubmissionStep>,
    successes: Seq<bool>,
    position: int,
)
    requires
        is_submission_run(steps, successes),
        0 <= position < steps.len(),
        steps[position] == SubmissionStep::CallVenue,
    ensures
        position == 7,
        steps[3] == SubmissionStep::Claim && successes[3],
        steps[6] == SubmissionStep::WriteAhead && successes[6],
{
    lemma_run_positions(steps, successes, position);
}

/// In every run, a step before the venue call stands at its fixed place, with
/// every earlier step succeeded.
proof fn lemma_run_positions(steps: Seq<SubmissionStep>, successes: Seq<bool>, position: int)
    requires
        is_submission_run(steps, successes),
        0 <= position < steps.len(),
    ensures
        forward_place(steps[position]) >= 0 ==> position == forward_place(steps[position])
            && forall|i: int|
            0 <= i < position ==> forward_place(#[trigger] steps[i]) == i && successes[i],
    decreases position,
{
    if position > 0 {
        lemma_run_positions(steps, successes, position - 1);
        assert(steps[(position - 1) + 1] == following_step(
            steps[position - 1],
            successes[position - 1],
        ));
    }
}

spec fn forward_place(step: SubmissionStep) -> int {
    match step {
        SubmissionStep::CheckParity => 0,
        SubmissionStep::LoadIntent => 1,
        SubmissionStep::Admit => 2,
        SubmissionStep::Claim => 3,
        SubmissionStep::CommitParity => 4,
        SubmissionStep::BuildRow => 5,
        SubmissionStep::WriteAhead => 6,
        SubmissionStep::CallVenue => 7,
        _ => -1,
    }
}

} // verus!
