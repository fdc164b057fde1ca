//! Final attribution of recommendations.
//!
//! Attribution is a terminal fact that is written once: a row is built only when
//! the execution ledger is unambiguous. Open positions, blocking orders and
//! unresolved reconciliations are skipped, so that a later sweep can write the
//! single final row once the truth is there.
use vstd::prelude::*;
use vstd::string::*;

use crate::decimal::{Bps, Decimal, Price, Shares, Usd};
use crate::exit_monitor::ExitReason;
use crate::orders::{ExecutionOrderPhase, ExecutionOrderState, OrderIntentStatus};
use crate::search::{first_where, lemma_first_found, lemma_first_missing};
use crate::time::Timestamp;
use crate::types::{ExecutionOrderId, RecommendationId};

verus! {

/// How a recommendation ended.
#[derive(Clone, Copy, Debug, PartialEq, Eq, Structural)]
pub enum RecommendationAttributionOutcome {
    FilledExited,
    FilledSettled,
    ExpiredUnfilled,
    CancelledUnfilled,
    FailedUnfilled,
}

/// What a recommendation was worth.
#[derive(Clone, Copy, Debug, PartialEq, Eq, Structural)]
pub enum RecommendationOutcome {
    Won,
    Lost,
    Cancelled,
    ExpiredUnfilled,
    Unknown,
}

/// State of a position in the ledger.
#[derive(Clone, Copy, Debug, PartialEq, Eq, Structural)]
pub enum PositionState {
    Open,
    Closing,
    Closed,
    Settled,
}

/// How the entry went.
#[derive(Clone, Copy, Debug, PartialEq, Eq)]
pub struct EntryOutcome {
    pub entry_filled: bool,
    pub fill_price: Option<Price>,
    pub fill_shares: Option<Shares>,
    pub entry_slippage_bps: Option<Bps>,
    pub filled_at: Option<Timestamp>,
}

impl EntryOutcome {
    /// No entry.
    pub open spec fn none() -> EntryOutcome {
        EntryOutcome {
            entry_filled: false,
            fill_price: None,
            fill_shares: None,
            entry_slippage_bps: None,
            filled_at: None,
        }
    }
}

/// How the exit went.
#[derive(Clone, Copy, Debug, PartialEq, Eq)]
pub struct ExitOutcome {
    pub exit_price: Option<Price>,
    pub exit_shares: Option<Shares>,
    pub exit_trigger: Option<ExitReason>,
    pub exit_compliance: bool,
    pub settlement_outcome: Option<RecommendationOutcome>,
    pub exited_at: Option<Timestamp>,
}

impl ExitOutcome {
    /// No exit, but a verdict.
    pub open spec fn verdict(outcome: RecommendationOutcome) -> ExitOutcome {
        ExitOutcome {
            exit_price: None,
            exit_shares: None,
            exit_trigger: None,
            exit_compliance: false,
            settlement_outcome: Some(outcome),
            exited_at: None,
        }
    }
}

/// What an attribution row says beside the outcome.
#[derive(Debug, PartialEq, Eq)]
pub struct AttributionDetail {
    pub hit_stop_loss: bool,
    pub hit_take_profit: bool,
    pub liquidity_exit_possible: bool,
    pub note: String,
}

/// The final attribution of a recommendation.
#[derive(Debug, PartialEq, Eq)]
pub struct NewRecommendationAttribution {
    pub recommendation_id: RecommendationId,
    pub outcome: RecommendationAttributionOutcome,
    pub entry_outcome: EntryOutcome,
    pub exit_outcome: ExitOutcome,
    pub realized_pnl_usd: Option<Usd>,
    pub max_adverse_excursion_bps: Option<Decimal>,
    pub max_favorable_excursion_bps: Option<Decimal>,
    pub label_available_at: Option<Timestamp>,
    pub detail: AttributionDetail,
}

/// An attribution with its note as a sequence.
pub ghost struct AttributionView {
    pub recommendation_id: RecommendationId,
    pub outcome: RecommendationAttributionOutcome,
    pub entry_outcome: EntryOutcome,
    pub exit_outcome: ExitOutcome,
    pub realized_pnl_usd: Option<Usd>,
    pub max_adverse_excursion_bps: Option<Decimal>,
    pub max_favorable_excursion_bps: Option<Decimal>,
    pub label_available_at: Option<Timestamp>,
    pub hit_stop_loss: bool,
    pub hit_take_profit: bool,
    pub liquidity_exit_possible: bool,
    pub note: Seq<char>,
}

impl View for NewRecommendationAttribution {
    type V = AttributionView;

    open spec fn view(&self) -> AttributionView {
        AttributionView {
            recommendation_id: self.recommendation_id,
            outcome: self.outcome,
            entry_outcome: self.entry_outcome,
            exit_outcome: self.exit_outcome,
            realized_pnl_usd: self.realized_pnl_usd,
            max_adverse_excursion_bps: self.max_adverse_excursion_bps,
            max_favorable_excursion_bps: self.max_favorable_excursion_bps,
            label_available_at: self.label_available_at,
            hit_stop_loss: self.detail.hit_stop_loss,
            hit_take_profit: self.detail.hit_take_profit,
            liquidity_exit_possible: self.detail.liquidity_exit_possible,
            note: self.detail.note@,
        }
    }
}

/// An execution order, as far as attribution looks at it.
#[derive(Clone, Copy, Debug, PartialEq, Eq)]
pub struct AttributedOrder {
    pub execution_order_id: ExecutionOrderId,
    pub order_phase: ExecutionOrderPhase,
    pub state: ExecutionOrderState,
    /// Whether the order's state leaves its truth open.
    pub blocks_attribution: bool,
    pub price: Price,
    pub shares: Shares,
    pub filled_at: Option<Timestamp>,
    pub updated_at: Timestamp,
}

impl AttributedOrder {
    /// Whether the order filled, at least in part, in this phase.
    pub open spec fn filled_in(self, phase: ExecutionOrderPhase) -> bool {
        self.order_phase == phase && (self.state == ExecutionOrderState::Filled || self.state
            == ExecutionOrderState::PartiallyFilled)
    }

    /// When the order filled, or was touched last.
    pub open spec fn settled_time(self) -> Timestamp {
        match self.filled_at {
            Some(at) => at,
            None => self.updated_at,
        }
    }

    fn is_filled_in(&self, phase: ExecutionOrderPhase) -> (r: bool)
        ensures
            r == self.filled_in(phase),
    {
        self.order_phase == phase && (self.state == ExecutionOrderState::Filled || self.state
            == ExecutionOrderState::PartiallyFilled)
    }

    fn time(&self) -> (r: Timestamp)
        ensures
            r == self.settled_time(),
    {
        match self.filled_at {
            Some(at) => at,
            None => self.updated_at,
        }
    }
}

/// The position of an intent.
#[derive(Clone, Copy, Debug, PartialEq, Eq)]
pub struct AttributedPosition {
    pub state: PositionState,
    pub avg_price: Price,
    pub realized_pnl_usd: Usd,
    pub closed_at: Option<Timestamp>,
}

/// What reconciliation knows of an order.
#[derive(Clone, Copy, Debug, PartialEq, Eq)]
pub struct AttributedReconciliation {
    pub execution_order_id: ExecutionOrderId,
    /// Whether its result leaves the truth open.
    pub blocks_final_attribution: bool,
    pub venue_avg_price: Option<Price>,
    pub venue_filled_shares: Option<Shares>,
}

/// The intent that is attributed.
#[derive(Clone, Copy, Debug, PartialEq, Eq)]
pub struct AttributedIntent {
    pub recommendation_id: RecommendationId,
    pub status: OrderIntentStatus,
    pub exit_reason: Option<ExitReason>,
    /// The slippage of the entry's fill price against its limit.
    pub entry_slippage_bps: Option<Bps>,
    /// The spread of the highest mark since entry over the entry price.
    pub peak_spread_bps: Option<Bps>,
}

/// The spread of the best mark over the entry, if there was any gain.
pub open spec fn favorable_excursion(spread: Option<Bps>) -> Option<Decimal> {
    match spread {
        Some(bps) => if bps@ > 0 {
            Some(bps)
        } else {
            None
        },
        None => None,
    }
}

/// The spread of the best mark over the entry, if there was any gain.
pub fn favorable_excursion_bps(spread: Option<Bps>) -> (r: Option<Decimal>)
    ensures
        r == favorable_excursion(spread),
{
    match spread {
        Some(bps) => if bps.is_positive() {
            Some(bps)
        } else {
            None
        },
        None => None,
    }
}

/// The entry price against which marks are held.
pub open spec fn anchor_price(position: AttributedPosition, entry_order: AttributedOrder) -> Price {
    if position.avg_price@ == 0 {
        entry_order.price
    } else {
        position.avg_price
    }
}

/// The entry price against which marks are held: a closed lot has no average
/// price, so the filled entry order's price stands in.
pub fn entry_anchor_price(position: &AttributedPosition, entry_order: &AttributedOrder) -> (r: Price)
    ensures
        r == (if position.avg_price@ == 0 {
            entry_order.price
        } else {
            position.avg_price
        }),
        r == anchor_price(*position, *entry_order),
{
    if position.avg_price.is_zero() {
        entry_order.price
    } else {
        position.avg_price
    }
}

/// What a realized result is worth.
pub open spec fn realized_verdict(pnl: Usd) -> RecommendationOutcome {
    if pnl@ > 0 {
        RecommendationOutcome::Won
    } else if pnl@ < 0 {
        RecommendationOutcome::Lost
    } else {
        RecommendationOutcome::Unknown
    }
}

/// What a realized result is worth.
pub fn realized_settlement_outcome(realized_pnl_usd: Usd) -> (r: RecommendationOutcome)
    ensures
        r == realized_verdict(realized_pnl_usd),
{
    if realized_pnl_usd.is_positive() {
        RecommendationOutcome::Won
    } else if realized_pnl_usd.is_negative() {
        RecommendationOutcome::Lost
    } else {
        RecommendationOutcome::Unknown
    }
}

/// Where the first filled entry order stands.
pub open spec fn filled_entry(orders: Seq<AttributedOrder>) -> Option<int> {
    first_where(orders, |o: AttributedOrder| o.filled_in(ExecutionOrderPhase::Entry))
}

fn find_filled_entry(orders: &Vec<AttributedOrder>) -> (r: Option<usize>)
    ensures
        match r {
            Some(position) => filled_entry(orders@) == Some(position as int) && position
                < orders.len(),
            None => filled_entry(orders@) is None,
        },
{
    let ghost test = |o: AttributedOrder| o.filled_in(ExecutionOrderPhase::Entry);
    let mut i: usize = 0;
    while i < orders.len()
        invariant
            i <= orders.len(),
            test == (|o: AttributedOrder| o.filled_in(ExecutionOrderPhase::Entry)),
            forall|j: int| 0 <= j < i ==> !test(#[trigger] orders@[j]),
        decreases orders.len() - i,
    {
        if orders[i].is_filled_in(ExecutionOrderPhase::Entry) {
            proof {
                lemma_first_found(orders@, test, i as int);
            }
            return Some(i);
        }
        i = i + 1;
    }
    proof {
        lemma_first_missing(orders@, test);
    }
    None
}

/// Where the filled exit order stands that filled last; of several the last.
pub open spec fn latest_exit(orders: Seq<AttributedOrder>) -> Option<int>
    decreases orders.len(),
{
    if orders.len() == 0 {
        None
    } else {
        let front = latest_exit(orders.drop_last());
        if !orders.last().filled_in(ExecutionOrderPhase::Exit) {
            front
        } else {
            match front {
                Some(position) => if orders.last().settled_time()@
                    >= orders[position].settled_time()@ {
                    Some(orders.len() - 1)
                } else {
                    front
                },
                None => Some(orders.len() - 1),
            }
        }
    }
}

/// Where the filled exit order stands that filled last.
pub fn latest_filled_exit_order(orders: &Vec<AttributedOrder>) -> (r: Option<usize>)
    ensures
        match r {
            Some(position) => latest_exit(orders@) == Some(position as int) && position
                < orders.len(),
            None => latest_exit(orders@) is None,
        },
{
    let mut latest: Option<usize> = None;
    let mut i: usize = 0;
    assert(orders@.take(0) =~= Seq::<AttributedOrder>::empty());
    while i < orders.len()
        invariant
            i <= orders.len(),
            match latest {
                Some(position) => latest_exit(orders@.take(i as int)) == Some(position as int)
                    && position < i,
                None => latest_exit(orders@.take(i as int)) is None,
            },
        decreases orders.len() - i,
    {
        let ghost so_far = orders@.take(i + 1);
        assert(so_far.drop_last() =~= orders@.take(i as int));
        assert(so_far.last() == orders@[i as int]);
        if orders[i].is_filled_in(ExecutionOrderPhase::Exit) {
            latest = match latest {
                Some(position) => {
                    assert(so_far[position as int] == orders@[position as int]);
                    if orders[position].time().until(orders[i].time()) {
                        Some(i)
                    } else {
                        Some(position)
                    }
                },
                None => Some(i),
            };
        }
        i = i + 1;
    }
    assert(orders@.take(i as int) =~= orders@);
    latest
}

/// The reconciliation of an order.
pub open spec fn reconciliation_of(
    rows: Seq<AttributedReconciliation>,
    order: ExecutionOrderId,
) -> Option<AttributedReconciliation> {
    match first_where(rows, |r: AttributedReconciliation| r.execution_order_id == order) {
        Some(position) => Some(rows[position]),
        None => None,
    }
}

fn find_reconciliation(rows: &Vec<AttributedReconciliation>, order: ExecutionOrderId) -> (r: Option<
    AttributedReconciliation,
>)
    ensures
        r == reconciliation_of(rows@, order),
{
    let ghost test = |r: AttributedReconciliation| r.execution_order_id == order;
    let mut i: usize = 0;
    while i < rows.len()
        invariant
            i <= rows.len(),
            test == (|r: AttributedReconciliation| r.execution_order_id == order),
            forall|j: int| 0 <= j < i ==> !test(#[trigger] rows@[j]),
        decreases rows.len() - i,
    {
        if rows[i].execution_order_id == order {
            proof {
                lemma_first_found(rows@, test, i as int);
            }
            return Some(rows[i]);
        }
        i = i + 1;
    }
    proof {
        lemma_first_missing(rows@, test);
    }
    None
}

/// How a filled entry went: what reconciliation says, else what the order says.
pub open spec fn entry_went(
    order: AttributedOrder,
    reconciliation: Option<AttributedReconciliation>,
    intent: AttributedIntent,
) -> EntryOutcome {
    EntryOutcome {
        entry_filled: true,
        fill_price: Some(
            match reconciliation {
                Some(row) => match row.venue_avg_price {
                    Some(price) => price,
                    None => order.price,
                },
                None => order.price,
            },
        ),
        fill_shares: Some(
            match reconciliation {
                Some(row) => match row.venue_filled_shares {
                    Some(shares) => shares,
                    None => order.shares,
                },
                None => order.shares,
            },
        ),
        entry_slippage_bps: intent.entry_slippage_bps,
        filled_at: order.filled_at,
    }
}

fn entry_outcome(
    order: &AttributedOrder,
    reconciliation: Option<AttributedReconciliation>,
    intent: &AttributedIntent,
) -> (r: EntryOutcome)
    ensures
        r == entry_went(*order, reconciliation, *intent),
{
    let fill_price = match reconciliation {
        Some(row) => match row.venue_avg_price {
            Some(price) => price,
            None => order.price,
        },
        None => order.price,
    };
    let fill_shares = match reconciliation {
        Some(row) => match row.venue_filled_shares {
            Some(shares) => shares,
            None => order.shares,
        },
        None => order.shares,
    };
    EntryOutcome {
        entry_filled: true,
        fill_price: Some(fill_price),
        fill_shares: Some(fill_shares),
        entry_slippage_bps: intent.entry_slippage_bps,
        filled_at: order.filled_at,
    }
}

/// How the exit of a closed or settled position went. An exit is compliant where
/// an order made it, or settlement did.
pub open spec fn exit_went(
    order: Option<AttributedOrder>,
    reconciliation: Option<AttributedReconciliation>,
    intent: AttributedIntent,
    position: AttributedPosition,
    outcome: RecommendationAttributionOutcome,
) -> ExitOutcome {
    ExitOutcome {
        exit_price: match order {
            Some(row) => Some(row.price),
            None => match reconciliation {
                Some(row) => row.venue_avg_price,
                None => None,
            },
        },
        exit_shares: match order {
            Some(row) => Some(row.shares),
            None => match reconciliation {
                Some(row) => row.venue_filled_shares,
                None => None,
            },
        },
        exit_trigger: intent.exit_reason,
        exit_compliance: order is Some || outcome
            == RecommendationAttributionOutcome::FilledSettled,
        settlement_outcome: Some(realized_verdict(position.realized_pnl_usd)),
        exited_at: match position.closed_at {
            Some(at) => Some(at),
            None => match order {
                Some(row) => row.filled_at,
                None => None,
            },
        },
    }
}

fn exit_outcome(
    order: Option<AttributedOrder>,
    reconciliation: Option<AttributedReconciliation>,
    intent: &AttributedIntent,
    position: &AttributedPosition,
    outcome: RecommendationAttributionOutcome,
) -> (r: ExitOutcome)
    ensures
        r == exit_went(order, reconciliation, *intent, *position, outcome),
{
    let exit_price = match order {
        Some(row) => Some(row.price),
        None => match reconciliation {
            Some(row) => row.venue_avg_price,
            None => None,
        },
    };
    let exit_shares = match order {
        Some(row) => Some(row.shares),
        None => match reconciliation {
            Some(row) => row.venue_filled_shares,
            None => None,
        },
    };
    ExitOutcome {
        exit_price,
        exit_shares,
        exit_trigger: intent.exit_reason,
        exit_compliance: order.is_some() || outcome
            == RecommendationAttributionOutcome::FilledSettled,
        settlement_outcome: Some(realized_settlement_outcome(position.realized_pnl_usd)),
        exited_at: match position.closed_at {
            Some(at) => Some(at),
            None => match order {
                Some(row) => row.filled_at,
                None => None,
            },
        },
    }
}

/// Everything that is on record of an intent.
#[derive(Debug, PartialEq, Eq)]
pub struct AttributionFacts {
    pub intent: AttributedIntent,
    /// Whether the recommendation exists and is not excluded from attribution.
    pub attributable: bool,
    pub orders: Vec<AttributedOrder>,
    pub position: Option<AttributedPosition>,
    pub reconciliations: Vec<AttributedReconciliation>,
}

/// Whether the truth of an order is still open.
pub open spec fn order_open(orders: Seq<AttributedOrder>) -> bool {
    exists|i: int| 0 <= i < orders.len() && (#[trigger] orders[i]).blocks_attribution
}

/// Whether a reconciliation leaves the truth open.
pub open spec fn leaves_open(row: Option<AttributedReconciliation>) -> bool {
    row is Some && row->0.blocks_final_attribution
}

/// The row of a position that is closed or settled.
pub open spec fn filled_terminal(
    facts: AttributionFacts,
    position: AttributedPosition,
    now: Timestamp,
) -> Option<AttributionView> {
    let entry = filled_entry(facts.orders@);
    if position.state == PositionState::Open || position.state == PositionState::Closing {
        None
    } else if entry is None {
        None
    } else {
        let outcome = if position.state == PositionState::Closed {
            RecommendationAttributionOutcome::FilledExited
        } else {
            RecommendationAttributionOutcome::FilledSettled
        };
        let entry_order = facts.orders@[entry->0];
        let exit_order = match latest_exit(facts.orders@) {
            Some(at) => Some(facts.orders@[at]),
            None => None,
        };
        let entry_row = reconciliation_of(
            facts.reconciliations@,
            entry_order.execution_order_id,
        );
        let exit_row = match exit_order {
            Some(order) => reconciliation_of(facts.reconciliations@, order.execution_order_id),
            None => None,
        };
        if leaves_open(entry_row) || leaves_open(exit_row) {
            None
        } else {
            Some(
                AttributionView {
                    recommendation_id: facts.intent.recommendation_id,
                    outcome,
                    entry_outcome: entry_went(entry_order, entry_row, facts.intent),
                    exit_outcome: exit_went(
                        exit_order,
                        exit_row,
                        facts.intent,
                        position,
                        outcome,
                    ),
                    realized_pnl_usd: Some(position.realized_pnl_usd),
                    max_adverse_excursion_bps: None,
                    max_favorable_excursion_bps: favorable_excursion(
                        facts.intent.peak_spread_bps,
                    ),
                    label_available_at: Some(now),
                    hit_stop_loss: facts.intent.exit_reason == Some(ExitReason::StopLoss),
                    hit_take_profit: facts.intent.exit_reason == Some(ExitReason::TakeProfit),
                    liquidity_exit_possible: exit_order is Some,
                    note: "filled_terminal_from_execution_ledger"@,
                },
            )
        }
    }
}

/// The row of an intent or recommendation that never filled.
pub open spec fn never_filled(
    recommendation_id: RecommendationId,
    outcome: RecommendationAttributionOutcome,
    note: Seq<char>,
    now: Timestamp,
) -> AttributionView {
    AttributionView {
        recommendation_id,
        outcome,
        entry_outcome: EntryOutcome::none(),
        exit_outcome: ExitOutcome::verdict(
            match outcome {
                RecommendationAttributionOutcome::ExpiredUnfilled =>
                    RecommendationOutcome::ExpiredUnfilled,
                RecommendationAttributionOutcome::CancelledUnfilled =>
                    RecommendationOutcome::Cancelled,
                _ => RecommendationOutcome::Unknown,
            },
        ),
        realized_pnl_usd: Some(Decimal::of_parts(0, 0)),
        max_adverse_excursion_bps: Some(Decimal::of_parts(0, 0)),
        max_favorable_excursion_bps: Some(Decimal::of_parts(0, 0)),
        label_available_at: Some(now),
        hit_stop_loss: false,
        hit_take_profit: false,
        liquidity_exit_possible: false,
        note,
    }
}

/// How an intent of this status ended without a fill, if the status is final.
pub open spec fn unfilled_end(status: OrderIntentStatus) -> Option<
    RecommendationAttributionOutcome,
> {
    match status {
        OrderIntentStatus::Expired => Some(RecommendationAttributionOutcome::ExpiredUnfilled),
        OrderIntentStatus::Cancelled => Some(RecommendationAttributionOutcome::CancelledUnfilled),
        OrderIntentStatus::Failed => Some(RecommendationAttributionOutcome::FailedUnfilled),
        OrderIntentStatus::Rejected => Some(RecommendationAttributionOutcome::FailedUnfilled),
        OrderIntentStatus::AdmissionRejected => Some(
            RecommendationAttributionOutcome::FailedUnfilled,
        ),
        OrderIntentStatus::Invalidated => Some(RecommendationAttributionOutcome::FailedUnfilled),
        _ => None,
    }
}

/// The final row of an intent, once its ledger is unambiguous.
pub open spec fn attributed(facts: AttributionFacts, now: Timestamp) -> Option<AttributionView> {
    if !facts.attributable || order_open(facts.orders@) {
        None
    } else {
        match facts.position {
            Some(position) => filled_terminal(facts, position, now),
            None => if filled_entry(facts.orders@) is Some {
                None
            } else {
                match unfilled_end(facts.intent.status) {
                    Some(outcome) => Some(
                        never_filled(
                            facts.intent.recommendation_id,
                            outcome,
                            "unfilled_terminal_intent_status="@ + facts.intent.status.text(),
                            now,
                        ),
                    ),
                    None => None,
                }
            },
        }
    }
}

fn is_order_open(orders: &Vec<AttributedOrder>) -> (r: bool)
    ensures
        r == order_open(orders@),
{
    let mut i: usize = 0;
    while i < orders.len()
        invariant
            i <= orders.len(),
            forall|j: int| 0 <= j < i ==> !(#[trigger] orders@[j]).blocks_attribution,
        decreases orders.len() - i,
    {
        if orders[i].blocks_attribution {
            assert(orders@[i as int].blocks_attribution);
            return true;
        }
        i = i + 1;
    }
    false
}

fn is_exit_for(reason: Option<ExitReason>, expected: ExitReason) -> (r: bool)
    ensures
        r == (reason == Some(expected)),
{
    match reason {
        Some(found) => found == expected,
        None => false,
    }
}

/// The row of a position that is closed or settled.
pub fn build_filled_terminal(
    facts: &AttributionFacts,
    position: &AttributedPosition,
    now: Timestamp,
) -> (r: Option<NewRecommendationAttribution>)
    ensures
        match r {
            Some(row) => filled_terminal(*facts, *position, now) == Some(row@),
            None => filled_terminal(*facts, *position, now) is None,
        },
{
    let outcome = match position.state {
        PositionState::Closed => RecommendationAttributionOutcome::FilledExited,
        PositionState::Settled => RecommendationAttributionOutcome::FilledSettled,
        PositionState::Open => return None,
        PositionState::Closing => return None,
    };
    let entry_order = match find_filled_entry(&facts.orders) {
        Some(at) => facts.orders[at],
        None => return None,
    };
    let exit_order = match latest_filled_exit_order(&facts.orders) {
        Some(at) => Some(facts.orders[at]),
        None => None,
    };
    let entry_row = find_reconciliation(&facts.reconciliations, entry_order.execution_order_id);
    let exit_row = match exit_order {
        Some(order) => find_reconciliation(&facts.reconciliations, order.execution_order_id),
        None => None,
    };
    if let Some(row) = entry_row {
        if row.blocks_final_attribution {
            return None;
        }
    }
    if let Some(row) = exit_row {
        if row.blocks_final_attribution {
            return None;
        }
    }
    Some(
        NewRecommendationAttribution {
            recommendation_id: facts.intent.recommendation_id,
            outcome,
            entry_outcome: entry_outcome(&entry_order, entry_row, &facts.intent),
            exit_outcome: exit_outcome(exit_order, exit_row, &facts.intent, position, outcome),
            realized_pnl_usd: Some(position.realized_pnl_usd),
            max_adverse_excursion_bps: None,
            max_favorable_excursion_bps: favorable_excursion_bps(facts.intent.peak_spread_bps),
            label_available_at: Some(now),
            detail: AttributionDetail {
                hit_stop_loss: is_exit_for(facts.intent.exit_reason, ExitReason::StopLoss),
                hit_take_profit: is_exit_for(facts.intent.exit_reason, ExitReason::TakeProfit),
                liquidity_exit_possible: exit_order.is_some(),
                note: "filled_terminal_from_execution_ledger".to_owned(),
            },
        },
    )
}

fn unfilled(
    recommendation_id: RecommendationId,
    outcome: RecommendationAttributionOutcome,
    note: String,
    now: Timestamp,
) -> (r: NewRecommendationAttribution)
    ensures
        r@ == never_filled(recommendation_id, outcome, note@, now),
{
    let verdict = match outcome {
        RecommendationAttributionOutcome::ExpiredUnfilled =>
            RecommendationOutcome::ExpiredUnfilled,
        RecommendationAttributionOutcome::CancelledUnfilled => RecommendationOutcome::Cancelled,
        _ => RecommendationOutcome::Unknown,
    };
    NewRecommendationAttribution {
        recommendation_id,
        outcome,
        entry_outcome: EntryOutcome {
            entry_filled: false,
            fill_price: None,
            fill_shares: None,
            entry_slippage_bps: None,
            filled_at: None,
        },
        exit_outcome: ExitOutcome {
            exit_price: None,
            exit_shares: None,
            exit_trigger: None,
            exit_compliance: false,
            settlement_outcome: Some(verdict),
            exited_at: None,
        },
        realized_pnl_usd: Some(Decimal::zero()),
        max_adverse_excursion_bps: Some(Decimal::zero()),
        max_favorable_excursion_bps: Some(Decimal::zero()),
        label_available_at: Some(now),
        detail: AttributionDetail {
            hit_stop_loss: false,
            hit_take_profit: false,
            liquidity_exit_possible: false,
            note,
        },
    }
}

/// The row of a recommendation that expired without an intent.
pub fn build_expired_unfilled(recommendation_id: RecommendationId, now: Timestamp) -> (r:
    NewRecommendationAttribution)
    ensures
        r@ == never_filled(
            recommendation_id,
            RecommendationAttributionOutcome::ExpiredUnfilled,
            "expired_unfilled_without_intent"@,
            now,
        ),
{
    unfilled(
        recommendation_id,
        RecommendationAttributionOutcome::ExpiredUnfilled,
        "expired_unfilled_without_intent".to_owned(),
        now,
    )
}

/// The final row of an intent, once its ledger is unambiguous.
pub fn build_from_intent(facts: &AttributionFacts, now: Timestamp) -> (r: Option<
    NewRecommendationAttribution,
>)
    ensures
        match r {
            Some(row) => attributed(*facts, now) == Some(row@),
            None => attributed(*facts, now) is None,
        },
{
    if !facts.attributable || is_order_open(&facts.orders) {
        return None;
    }
    if let Some(position) = facts.position {
        return build_filled_terminal(facts, &position, now);
    }
    if find_filled_entry(&facts.orders).is_some() {
        return None;
    }
    let outcome = match facts.intent.status {
        OrderIntentStatus::Expired => RecommendationAttributionOutcome::ExpiredUnfilled,
        OrderIntentStatus::Cancelled => RecommendationAttributionOutcome::CancelledUnfilled,
        OrderIntentStatus::Failed | OrderIntentStatus::Rejected
        | OrderIntentStatus::AdmissionRejected | OrderIntentStatus::Invalidated =>
            RecommendationAttributionOutcome::FailedUnfilled,
        _ => return None,
    };
    Some(
        unfilled(
            facts.intent.recommendation_id,
            outcome,
            "unfilled_terminal_intent_status=".to_owned().concat(facts.intent.status.as_str()),
            now,
        ),
    )
}

/// Nothing is attributed while an order, a position or a reconciliation is open.
pub proof fn open_ledgers_are_not_attributed(facts: AttributionFacts, now: Timestamp)
    requires
        attributed(facts, now) is Some,
    ensures
        !order_open(facts.orders@),
        facts.position is Some ==> facts.position->0.state == PositionState::Closed
            || facts.position->0.state == PositionState::Settled,
        facts.position is None ==> filled_entry(facts.orders@) is None,
{
}

/// An attributed position has a filled entry, its realized result is the
/// position's, and an unfilled recommendation has none.
pub proof fn attributed_results_are_the_ledgers(facts: AttributionFacts, now: Timestamp)
    requires
        attributed(facts, now) is Some,
    ensures
        match facts.position {
            Some(position) => attributed(facts, now)->0.entry_outcome.entry_filled && attributed(
                facts,
                now,
            )->0.realized_pnl_usd == Some(position.realized_pnl_usd),
            None => !attributed(facts, now)->0.entry_outcome.entry_filled && attributed(
                facts,
                now,
            )->0.realized_pnl_usd == Some(Decimal::of_parts(0, 0)),
        },
{
}

/// The event that mirrors a written attribution; times in milliseconds since
/// the epoch.
#[derive(Clone, Copy, Debug, PartialEq, Eq)]
pub struct AttributionEvent {
    pub event_time: i64,
    pub recommendation_id: RecommendationId,
    pub outcome: RecommendationAttributionOutcome,
    pub realized_pnl_usd: Usd,
    pub max_adverse_excursion_bps: Option<Decimal>,
    pub max_favorable_excursion_bps: Decimal,
    /// Zero where the label is not available.
    pub label_available_at: i64,
    pub ingestion_time: i64,
}

/// Mirrors an attribution that was written: a missing result or excursion counts
/// as zero.
pub fn mirror_attribution_event(
    row: &NewRecommendationAttribution,
    created_at: Timestamp,
    now: Timestamp,
) -> (r: AttributionEvent)
    ensures
        r == (AttributionEvent {
            event_time: created_at.spec_millis() as i64,
            recommendation_id: row.recommendation_id,
            outcome: row.outcome,
            realized_pnl_usd: match row.realized_pnl_usd {
                Some(pnl) => pnl,
                None => Decimal::of_parts(0, 0),
            },
            max_adverse_excursion_bps: row.max_adverse_excursion_bps,
            max_favorable_excursion_bps: match row.max_favorable_excursion_bps {
                Some(bps) => bps,
                None => Decimal::of_parts(0, 0),
            },
            label_available_at: match row.label_available_at {
                Some(at) => at.spec_millis() as i64,
                None => 0,
            },
            ingestion_time: now.spec_millis() as i64,
        }),
{
    AttributionEvent {
        event_time: created_at.whole_millis(),
        recommendation_id: row.recommendation_id,
        outcome: row.outcome,
        realized_pnl_usd: match row.realized_pnl_usd {
            Some(pnl) => pnl,
            None => Decimal::zero(),
        },
        max_adverse_excursion_bps: row.max_adverse_excursion_bps,
        max_favorable_excursion_bps: match row.max_favorable_excursion_bps {
            Some(bps) => bps,
            None => Decimal::zero(),
        },
        label_available_at: match row.label_available_at {
            Some(at) => at.whole_millis(),
            None => 0,
        },
        ingestion_time: now.whole_millis(),
    }
}

/// One attribution sweep result.
#[derive(Clone, Copy, Debug, PartialEq, Eq, Structural)]
pub struct AttributionPassSummary {
    pub considered: u64,
    pub written: u64,
    pub skipped: u64,
}

/// Whether a candidate is looked at in a sweep.
#[derive(Clone, Copy, Debug, PartialEq, Eq, Structural)]
pub enum Consideration {
    /// The batch is full.
    Stop,
    /// The recommendation was looked at before in this sweep.
    Repeated,
    /// The candidate is looked at; its result has to be recorded.
    Considered,
}

/// A bounded attribution sweep.
#[derive(Debug)]
pub struct AttributionPass {
    batch_size: u64,
    summary: AttributionPassSummary,
    seen: Vec<RecommendationId>,
}

impl AttributionPass {
    /// The most candidates that are looked at.
    pub closed spec fn limit(self) -> u64 {
        self.batch_size
    }

    /// What the sweep has done so far.
    pub closed spec fn counts(self) -> AttributionPassSummary {
        self.summary
    }

    /// The recommendations that were looked at.
    pub closed spec fn looked_at(self) -> Seq<RecommendationId> {
        self.seen@
    }

    /// Candidates that are looked at but whose result is not recorded yet.
    pub open spec fn unrecorded(self) -> int {
        self.counts().considered - self.counts().written - self.counts().skipped
    }

    #[verifier::type_invariant]
    closed spec fn well_formed(self) -> bool {
        &&& self.summary.considered <= self.batch_size
        &&& self.summary.considered == self.seen@.len()
        &&& self.summary.written + self.summary.skipped <= self.summary.considered
        &&& self.seen@.no_duplicates()
    }

    /// A sweep that has not begun.
    pub fn new(batch_size: u64) -> (r: AttributionPass)
        ensures
            r.limit() == batch_size,
            r.counts() == (AttributionPassSummary { considered: 0, written: 0, skipped: 0 }),
            r.looked_at() == Seq::<RecommendationId>::empty(),
    {
        AttributionPass {
            batch_size,
            summary: AttributionPassSummary { considered: 0, written: 0, skipped: 0 },
            seen: Vec::new(),
        }
    }

    /// Whether the next candidate is looked at. Each recommendation is looked at
    /// once, and no more than the batch allows.
    pub fn consider(&mut self, recommendation_id: RecommendationId) -> (r: Consideration)
        ensures
            final(self).limit() == old(self).limit(),
            r == (if old(self).counts().considered >= old(self).limit() {
                Consideration::Stop
            } else if old(self).looked_at().contains(recommendation_id) {
                Consideration::Repeated
            } else {
                Consideration::Considered
            }),
            if r == Consideration::Considered {
                final(self).looked_at() == old(self).looked_at().push(recommendation_id)
                    && final(self).counts() == (AttributionPassSummary {
                    considered: (old(self).counts().considered + 1) as u64,
                    ..old(self).counts()
                })
            } else {
                *final(self) == *old(self)
            },
    {
        proof {
            use_type_invariant(&*self);
        }
        if self.summary.considered >= self.batch_size {
            return Consideration::Stop;
        }
        let mut i: usize = 0;
        while i < self.seen.len()
            invariant
                i <= self.seen.len(),
                *self == *old(self),
                self.summary.considered < self.batch_size,
                forall|j: int| 0 <= j < i ==> self.seen@[j] != recommendation_id,
            decreases self.seen.len() - i,
        {
            if self.seen[i] == recommendation_id {
                assert(self.seen@[i as int] == recommendation_id);
                return Consideration::Repeated;
            }
            i = i + 1;
        }
        let mut taken = AttributionPass::new(0);
        std::mem::swap(self, &mut taken);
        proof {
            use_type_invariant(&taken);
        }
        let AttributionPass { batch_size, summary, seen } = taken;
        let mut seen = seen;
        seen.push(recommendation_id);
        let summary = AttributionPassSummary {
            considered: summary.considered + 1,
            written: summary.written,
            skipped: summary.skipped,
        };
        *self = AttributionPass { batch_size, summary, seen };
        Consideration::Considered
    }

    /// Records what became of a candidate that was looked at.
    pub fn record(&mut self, written: bool)
        requires
            old(self).unrecorded() > 0,
        ensures
            final(self).limit() == old(self).limit(),
            final(self).looked_at() == old(self).looked_at(),
            final(self).counts() == (if written {
                AttributionPassSummary {
                    written: (old(self).counts().written + 1) as u64,
                    ..old(self).counts()
                }
            } else {
                AttributionPassSummary {
                    skipped: (old(self).counts().skipped + 1) as u64,
                    ..old(self).counts()
                }
            }),
    {
        proof {
            use_type_invariant(&*self);
        }
        let summary = if written {
            AttributionPassSummary {
                considered: self.summary.considered,
                written: self.summary.written + 1,
                skipped: self.summary.skipped,
            }
        } else {
            AttributionPassSummary {
                considered: self.summary.considered,
                written: self.summary.written,
                skipped: self.summary.skipped + 1,
            }
        };
        self.summary = summary;
    }

    /// How many more candidates the batch allows.
    pub fn remaining(&self) -> (r: u64)
        ensures
            r == self.limit() - self.counts().considered,
    {
        proof {
            use_type_invariant(self);
        }
        self.batch_size - self.summary.considered
    }

    /// What the sweep has done; never more than the batch allows, and no result
    /// without a candidate.
    pub fn summary(&self) -> (r: AttributionPassSummary)
        ensures
            r == self.counts(),
            r.considered <= self.limit(),
            r.written + r.skipped <= r.considered,
            r.considered == self.looked_at().len(),
            self.looked_at().no_duplicates(),
    {
        proof {
            use_type_invariant(self);
        }
        self.summary
    }
}

/// The entry that counts is the first filled one.
pub proof fn filled_entries_are_found(orders: Seq<AttributedOrder>, at: int)
    requires
        0 <= at < orders.len(),
        orders[at].order_phase == ExecutionOrderPhase::Entry,
        orders[at].state == ExecutionOrderState::Filled || orders[at].state
            == ExecutionOrderState::PartiallyFilled,
    ensures
        filled_entry(orders) is Some,
        0 <= filled_entry(orders)->0 <= at,
        orders[filled_entry(orders)->0].order_phase == ExecutionOrderPhase::Entry,
        orders[filled_entry(orders)->0].state == ExecutionOrderState::Filled || orders[filled_entry(
            orders,
        )->0].state == ExecutionOrderState::PartiallyFilled,
{
    let test = |o: AttributedOrder| o.filled_in(ExecutionOrderPhase::Entry);
    crate::search::first_match_is_first(orders, test);
}

/// An order is reconciled by the first row of its own identity.
pub proof fn orders_are_reconciled_by_their_own_rows(
    rows: Seq<AttributedReconciliation>,
    order: ExecutionOrderId,
    at: int,
)
    requires
        0 <= at < rows.len(),
    ensures
        reconciliation_of(rows, order) matches Some(row) ==> row.execution_order_id == order,
        reconciliation_of(rows, order) is None ==> rows[at].execution_order_id != order,
{
    let test = |r: AttributedReconciliation| r.execution_order_id == order;
    crate::search::first_match_is_first(rows, test);
}

/// What an order is reconciled by is on record.
pub proof fn rows_come_from_the_record(
    rows: Seq<AttributedReconciliation>,
    order: ExecutionOrderId,
)
    ensures
        reconciliation_of(rows, order) matches Some(row) ==> exists|i: int|
            0 <= i < rows.len() && #[trigger] rows[i] == row,
{
    let test = |r: AttributedReconciliation| r.execution_order_id == order;
    crate::search::first_match_is_first(rows, test);
}

} // verus!
