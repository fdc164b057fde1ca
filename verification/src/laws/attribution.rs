//! What the attribution of results is for.
use vstd::prelude::*;

use crate::attribution::{
    anchor_price, attributed, entry_went, exit_went, favorable_excursion, filled_entry,
    latest_exit, realized_verdict, reconciliation_of, AttributedIntent, AttributedOrder,
    AttributedPosition, AttributedReconciliation, AttributionFacts,
    RecommendationAttributionOutcome, RecommendationOutcome,
};
use crate::decimal::{whole_numbers_have_their_value, Bps, Usd};
use crate::exit_monitor::ExitReason;
use crate::orders::ExecutionOrderPhase;
use crate::time::Timestamp;

verus! {

/// A profit is a win, a loss is a loss, and neither is decided by nothing.
pub proof fn verdicts_follow_the_profit(pnl: Usd)
    ensures
        realized_verdict(pnl) == RecommendationOutcome::Won <==> pnl@ > 0,
        realized_verdict(pnl) == RecommendationOutcome::Lost <==> pnl@ < 0,
        realized_verdict(pnl) == RecommendationOutcome::Unknown <==> pnl@ == 0,
{
}

/// Only a mark above the entry price is a favourable excursion, and then it is
/// the whole of it.
pub proof fn excursions_lie_above_the_entry(spread: Option<Bps>)
    ensures
        favorable_excursion(spread) is Some <==> (spread matches Some(bps) && bps@ > 0),
        favorable_excursion(spread) is Some ==> favorable_excursion(spread) == spread,
{
}

/// Whether the order of a phase was filled, in whole or in part.
pub open spec fn has_fill(order: AttributedOrder, phase: ExecutionOrderPhase) -> bool {
    order.order_phase == phase && (order.state is Filled || order.state is PartiallyFilled)
}

/// When an order was settled: when it was filled, else when it last changed.
pub open spec fn settled_at(order: AttributedOrder) -> Timestamp {
    if order.filled_at is Some {
        order.filled_at->0
    } else {
        order.updated_at
    }
}

/// The exit that counts is a filled exit that none was settled after.
pub proof fn the_last_exit_counts(orders: Seq<AttributedOrder>, other: int)
    requires
        0 <= other < orders.len(),
        has_fill(orders[other], ExecutionOrderPhase::Exit),
    ensures
        latest_exit(orders) is Some,
        0 <= latest_exit(orders)->0 < orders.len(),
        has_fill(orders[latest_exit(orders)->0], ExecutionOrderPhase::Exit),
        settled_at(orders[other])@ <= settled_at(orders[latest_exit(orders)->0])@,
    decreases orders.len(),
{
    let front = orders.drop_last();
    if other < front.len() {
        assert(front[other] == orders[other]);
        the_last_exit_counts(front, other);
    } else {
        lemma_exit_is_a_filled_one(front);
    }
}

proof fn lemma_exit_is_a_filled_one(orders: Seq<AttributedOrder>)
    ensures
        latest_exit(orders) matches Some(at) ==> 0 <= at < orders.len() && has_fill(
            orders[at],
            ExecutionOrderPhase::Exit,
        ),
    decreases orders.len(),
{
    if orders.len() > 0 {
        lemma_exit_is_a_filled_one(orders.drop_last());
    }
}

/// Without a filled exit there is none that counts.
pub proof fn unfilled_exits_do_not_count(orders: Seq<AttributedOrder>)
    ensures
        latest_exit(orders) is Some <==> exists|i: int|
            0 <= i < orders.len() && has_fill(#[trigger] orders[i], ExecutionOrderPhase::Exit),
{
    lemma_exit_is_a_filled_one(orders);
    if exists|i: int|
        0 <= i < orders.len() && has_fill(#[trigger] orders[i], ExecutionOrderPhase::Exit) {
        let i = choose|i: int|
            0 <= i < orders.len() && has_fill(#[trigger] orders[i], ExecutionOrderPhase::Exit);
        the_last_exit_counts(orders, i);
    }
}

/// The entry went at what the venue says, and at what was ordered where the
/// venue says nothing.
pub proof fn entries_went_at_what_the_venue_says(
    order: AttributedOrder,
    row: Option<AttributedReconciliation>,
    intent: AttributedIntent,
)
    ensures
        ({
            let went = entry_went(order, row, intent);
            &&& went.entry_filled
            &&& (row matches Some(found) && found.venue_avg_price is Some) ==> went.fill_price
                == row->0.venue_avg_price
            &&& (row matches Some(found) && found.venue_filled_shares is Some) ==> went.fill_shares
                == row->0.venue_filled_shares
            &&& !(row matches Some(found) && found.venue_avg_price is Some) ==> went.fill_price
                == Some(order.price)
            &&& !(row matches Some(found) && found.venue_filled_shares is Some)
                ==> went.fill_shares == Some(order.shares)
            &&& went.filled_at == order.filled_at
            &&& went.entry_slippage_bps == intent.entry_slippage_bps
        }),
{
}

/// The exit went at its order's price and shares; it complied where an order made
/// it or the market settled; and it ended when the position was closed.
pub proof fn exits_went_as_ordered(
    order: Option<AttributedOrder>,
    row: Option<AttributedReconciliation>,
    intent: AttributedIntent,
    position: AttributedPosition,
    outcome: RecommendationAttributionOutcome,
)
    ensures
        ({
            let went = exit_went(order, row, intent, position, outcome);
            &&& (order matches Some(sale) ==> went.exit_price == Some(sale.price)
                && went.exit_shares == Some(sale.shares))
            &&& order is None && row is None ==> went.exit_price is None && went.exit_shares is None
            &&& went.exit_compliance <==> order is Some || outcome is FilledSettled
            &&& went.exit_trigger == intent.exit_reason
            &&& position.closed_at is Some ==> went.exited_at == position.closed_at
            &&& position.closed_at is None && order is None ==> went.exited_at is None
            &&& position.realized_pnl_usd@ > 0 ==> went.settlement_outcome == Some(
                RecommendationOutcome::Won,
            )
            &&& position.realized_pnl_usd@ < 0 ==> went.settlement_outcome == Some(
                RecommendationOutcome::Lost,
            )
        }),
{
}

/// A position that is still open, a filled entry without a position, and an
/// order whose truth is open are not attributed; nor is what is excluded.
pub proof fn open_truth_is_not_attributed(facts: AttributionFacts, now: Timestamp, at: int)
    requires
        0 <= at < facts.orders@.len(),
    ensures
        !facts.attributable ==> attributed(facts, now) is None,
        facts.orders@[at].blocks_attribution ==> attributed(facts, now) is None,
        (facts.position matches Some(position) && (position.state is Open || position.state
            is Closing)) ==> attributed(facts, now) is None,
        facts.position is None && has_fill(facts.orders@[at], ExecutionOrderPhase::Entry)
            ==> attributed(facts, now) is None,
{
    if facts.position is None && has_fill(facts.orders@[at], ExecutionOrderPhase::Entry) {
        crate::attribution::filled_entries_are_found(facts.orders@, at);
    }
}

/// What never filled is attributed by how the intent ended: without profit, and
/// available from now on.
pub proof fn unfilled_intents_earn_nothing(facts: AttributionFacts, now: Timestamp)
    requires
        attributed(facts, now) is Some,
        facts.position is None,
    ensures
        ({
            let row = attributed(facts, now)->0;
            &&& row.recommendation_id == facts.intent.recommendation_id
            &&& row.outcome is ExpiredUnfilled <==> facts.intent.status is Expired
            &&& row.outcome is CancelledUnfilled <==> facts.intent.status is Cancelled
            &&& row.outcome is FailedUnfilled <==> facts.intent.status is Failed
                || facts.intent.status is Rejected || facts.intent.status is AdmissionRejected
                || facts.intent.status is Invalidated
            &&& row.outcome is ExpiredUnfilled || row.outcome is CancelledUnfilled || row.outcome
                is FailedUnfilled
            &&& row.realized_pnl_usd matches Some(pnl) && pnl@ == 0
            &&& !row.entry_outcome.entry_filled && row.entry_outcome.fill_price is None
            &&& row.exit_outcome.settlement_outcome == Some(RecommendationOutcome::Cancelled)
                <==> facts.intent.status is Cancelled
            &&& row.exit_outcome.settlement_outcome == Some(RecommendationOutcome::ExpiredUnfilled)
                <==> facts.intent.status is Expired
            &&& row.label_available_at == Some(now)
            &&& !row.hit_stop_loss && !row.hit_take_profit
        }),
{
    whole_numbers_have_their_value(0);
}

/// What was filled and closed is attributed to the exit, what the market settled
/// to the settlement; with the position's own profit and the reason it was left
/// for.
pub proof fn filled_intents_earn_their_profit(facts: AttributionFacts, now: Timestamp)
    requires
        attributed(facts, now) is Some,
        facts.position is Some,
    ensures
        ({
            let row = attributed(facts, now)->0;
            let position = facts.position->0;
            &&& row.recommendation_id == facts.intent.recommendation_id
            &&& row.outcome is FilledExited <==> position.state is Closed
            &&& row.outcome is FilledSettled <==> position.state is Settled
            &&& row.realized_pnl_usd == Some(position.realized_pnl_usd)
            &&& row.entry_outcome.entry_filled
            &&& row.hit_stop_loss <==> facts.intent.exit_reason == Some(ExitReason::StopLoss)
            &&& row.hit_take_profit <==> facts.intent.exit_reason == Some(ExitReason::TakeProfit)
            &&& row.liquidity_exit_possible <==> latest_exit(facts.orders@) is Some
            &&& row.label_available_at == Some(now)
        }),
{
}

/// Marks are held against the position's average price, and against the entry
/// order's where the position has none left.
pub proof fn marks_are_held_against_the_entry(
    position: AttributedPosition,
    entry_order: AttributedOrder,
)
    ensures
        position.avg_price@ != 0 ==> anchor_price(position, entry_order) == position.avg_price,
        position.avg_price@ == 0 ==> anchor_price(position, entry_order) == entry_order.price,
{
}

/// A result whose reconciliation leaves the truth open is not attributed.
pub proof fn unreconciled_results_are_not_attributed(
    facts: AttributionFacts,
    now: Timestamp,
    row: AttributedReconciliation,
)
    requires
        facts.position is Some,
        row.blocks_final_attribution,
        filled_entry(facts.orders@) is Some,
    ensures
        reconciliation_of(
            facts.reconciliations@,
            facts.orders@[filled_entry(facts.orders@)->0].execution_order_id,
        ) == Some(row) ==> attributed(facts, now) is None,
        (latest_exit(facts.orders@) matches Some(at) && reconciliation_of(
            facts.reconciliations@,
            facts.orders@[at].execution_order_id,
        ) == Some(row)) ==> attributed(facts, now) is None,
{
}

/// What is closed and reconciled is attributed.
pub proof fn reconciled_results_are_attributed(facts: AttributionFacts, now: Timestamp)
    requires
        facts.attributable,
        forall|i: int|
            0 <= i < facts.orders@.len() ==> !(#[trigger] facts.orders@[i]).blocks_attribution,
        forall|i: int|
            0 <= i < facts.reconciliations@.len() ==> !(
            #[trigger] facts.reconciliations@[i]).blocks_final_attribution,
        facts.position matches Some(position) && (position.state is Closed || position.state
            is Settled),
        filled_entry(facts.orders@) is Some,
    ensures
        attributed(facts, now) is Some,
{
    crate::attribution::rows_come_from_the_record(
        facts.reconciliations@,
        facts.orders@[filled_entry(facts.orders@)->0].execution_order_id,
    );
    if latest_exit(facts.orders@) is Some {
        crate::attribution::rows_come_from_the_record(
            facts.reconciliations@,
            facts.orders@[latest_exit(facts.orders@)->0].execution_order_id,
        );
    }
}

} // verus!
