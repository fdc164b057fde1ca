//! What booking an incident's sales is for.
use vstd::prelude::*;

use crate::account_recovery_reconciler::{
    chosen, created_of, existing_of, first_in_first_out, open_in, sale_plan, selection, shares_of,
    stray_allocations, total_shares, AccountRecoveryExecutionDelta, AccountRecoverySellAllocation,
    InputView, MismatchView, SalePlan, Selection, WorkingLot,
};
use crate::decimal::{whole_numbers_have_their_value, Decimal, Shares};
use crate::laws::values::{leaves, sums_to};
use crate::types::{AccountChainExecutionId, StrategyPositionLotId};

verus! {

/// What amounts come to.
pub open spec fn sum_of(amounts: Seq<(StrategyPositionLotId, Decimal)>) -> int
    decreases amounts.len(),
{
    if amounts.len() == 0 {
        0
    } else {
        amounts[0].1@ + sum_of(amounts.drop_first())
    }
}

/// What is left of a lot after an incident's executions.
pub open spec fn left_of(lot: WorkingLot) -> Decimal {
    match lot {
        WorkingLot::Existing(existing) => existing.after_shares,
        WorkingLot::Created(created) => created.remaining_shares,
    }
}

/// A sale can take from every lot of its token that has shares left, and from no
/// other.
pub proof fn sales_take_from_open_lots(lots: Seq<WorkingLot>, token: Seq<char>, i: int)
    requires
        0 <= i < lots.len(),
    ensures
        lots[i].spec_token()@ == token && left_of(lots[i])@ > 0 ==> open_in(lots, token).contains(
            (lots[i].spec_id(), left_of(lots[i])),
        ),
        forall|k: int|
            0 <= k < open_in(lots, token).len() ==> (#[trigger] open_in(lots, token)[k]).1@ > 0,
        open_in(lots, token).len() <= lots.len(),
    decreases lots.len(),
{
    let before = lots.drop_last();
    let front = open_in(before, token);
    let all = open_in(lots, token);
    if before.len() > 0 {
        let at = if i < before.len() {
            i
        } else {
            0
        };
        sales_take_from_open_lots(before, token, at);
        if i < before.len() {
            let entry = (lots[i].spec_id(), left_of(lots[i]));
            assert(before[i] == lots[i]);
            if front.contains(entry) {
                let k = front.index_of(entry);
                assert(all[k] == entry);
            }
        }
    }
    if lots.last().spec_token()@ == token && left_of(lots.last())@ > 0 {
        assert(all[front.len() as int] == (lots.last().spec_id(), left_of(lots.last())));
    }
    assert forall|k: int| 0 <= k < all.len() implies (#[trigger] all[k]).1@ > 0 by {
        if k < front.len() {
            assert(all[k] == front[k]);
        }
    }
}

/// A sale is taken from the oldest lots first: each is used up before the next is
/// touched, and together they are what was sold, as far as there is anything.
pub proof fn sales_are_taken_from_the_oldest(
    open: Seq<(StrategyPositionLotId, Decimal)>,
    sold: Shares,
    rests: Seq<Decimal>,
)
    requires
        rests.len() == open.len() + 1,
        rests[0] == sold,
        sold@ >= 0,
        forall|i: int| 0 <= i < open.len() ==> (#[trigger] open[i]).1@ > 0,
        forall|i: int|
            #![trigger rests[i]]
            0 <= i < open.len() && rests[i]@ > 0 ==> leaves(
                rests[i],
                if rests[i]@ < open[i].1@ {
                    rests[i]
                } else {
                    open[i].1
                },
                rests[i + 1],
            ),
    ensures
        first_in_first_out(open, sold) matches Some(taken) && {
            &&& taken.len() <= open.len()
            &&& forall|i: int|
                #![trigger taken[i]]
                0 <= i < taken.len() ==> taken[i].0 == open[i].0 && 0 < taken[i].1@ <= open[i].1@
            &&& forall|i: int|
                #![trigger taken[i]]
                0 <= i < taken.len() - 1 ==> taken[i].1 == open[i].1
            &&& sum_of(taken) == (if sold@ <= sum_of(open) {
                sold@
            } else {
                sum_of(open)
            })
        },
    decreases open.len(),
{
    if open.len() > 0 {
        lemma_sums_are_positive(open.drop_first());
        if sold@ > 0 {
            let tail = open.drop_first();
            let later = rests.drop_first();
            assert(rests[0]@ > 0);
            assert forall|i: int|
                #![trigger later[i]]
                0 <= i < tail.len() && later[i]@ > 0 implies leaves(
                later[i],
                if later[i]@ < tail[i].1@ {
                    later[i]
                } else {
                    tail[i].1
                },
                later[i + 1],
            ) by {
                assert(later[i] == rests[i + 1]);
                assert(tail[i] == open[i + 1]);
            }
            assert forall|i: int| 0 <= i < tail.len() implies (#[trigger] tail[i]).1@ > 0 by {
                assert(tail[i] == open[i + 1]);
            }
            sales_are_taken_from_the_oldest(tail, rests[1], later);
            let rest = first_in_first_out(tail, rests[1])->0;
            let part = if sold@ < open[0].1@ {
                sold
            } else {
                open[0].1
            };
            let taken = first_in_first_out(open, sold)->0;
            assert(taken == seq![(open[0].0, part)] + rest);
            assert(taken.drop_first() =~= rest);
            assert forall|i: int| #![trigger taken[i]] 0 <= i < taken.len() implies taken[i].0
                == open[i].0 && 0 < taken[i].1@ <= open[i].1@ by {
                if i > 0 {
                    assert(taken[i] == rest[i - 1]);
                    assert(tail[i - 1] == open[i]);
                }
            }
            assert forall|i: int| #![trigger taken[i]] 0 <= i < taken.len() - 1 implies taken[i].1
                == open[i].1 by {
                if i > 0 {
                    assert(taken[i] == rest[i - 1]);
                    assert(tail[i - 1] == open[i]);
                } else {
                    assert(rest.len() > 0);
                    assert(rest[0].1@ > 0);
                    if rests[1]@ <= 0 {
                        assert(rest.len() == 0);
                    }
                }
            }
        }
    }
}

proof fn lemma_sums_are_positive(amounts: Seq<(StrategyPositionLotId, Decimal)>)
    ensures
        (forall|i: int| 0 <= i < amounts.len() ==> (#[trigger] amounts[i]).1@ > 0) ==> sum_of(
            amounts,
        ) >= 0,
    decreases amounts.len(),
{
    if amounts.len() > 0 {
        let tail = amounts.drop_first();
        lemma_sums_are_positive(tail);
        if forall|i: int| 0 <= i < amounts.len() ==> (#[trigger] amounts[i]).1@ > 0 {
            assert forall|i: int| 0 <= i < tail.len() implies (#[trigger] tail[i]).1@ > 0 by {
                assert(tail[i] == amounts[i + 1]);
            }
            assert(amounts[0].1@ > 0);
        }
    }
}

/// The choice of an operator is taken exactly where each part names a lot that
/// can be sold from, no lot twice, and takes something but no more than the lot
/// has; and it comes to the sum of its parts.
pub proof fn choices_fit_the_lots(
    allocations: Seq<AccountRecoverySellAllocation>,
    open: Seq<(StrategyPositionLotId, Decimal)>,
    totals: Seq<Decimal>,
)
    requires
        totals.len() == allocations.len() + 1,
        totals[0] == Decimal::of_parts(0, 0),
        forall|i: int|
            #![trigger allocations[i]]
            0 <= i < allocations.len() ==> sums_to(totals[i], allocations[i].shares, totals[i + 1]),
    ensures
        selection(allocations, open) is Total <==> (forall|i: int|
            #![trigger allocations[i]]
            0 <= i < allocations.len() ==> {
                &&& shares_of(open, allocations[i].strategy_position_lot_id) matches Some(held)
                    && 0 < allocations[i].shares@ <= held@
            }) && (forall|i: int, j: int|
            #![trigger allocations[i], allocations[j]]
            0 <= i < j < allocations.len() ==> allocations[i].strategy_position_lot_id
                != allocations[j].strategy_position_lot_id),
        selection(allocations, open) matches Selection::Total(total) ==> total == totals.last(),
        !(selection(allocations, open) is Overflow),
    decreases allocations.len(),
{
    if allocations.len() > 0 {
        let before = allocations.drop_last();
        let earlier = totals.drop_last();
        assert forall|i: int| #![trigger before[i]] 0 <= i < before.len() implies sums_to(
            earlier[i],
            before[i].shares,
            earlier[i + 1],
        ) by {
            assert(before[i] == allocations[i]);
        }
        choices_fit_the_lots(before, open, earlier);
        let last = allocations.last();
        let at = allocations.len() - 1;
        assert(allocations[at] == last);
        assert(sums_to(totals[at], last.shares, totals[at + 1]));
        assert(earlier.last() == totals[at]);
        assert(forall|i: int| 0 <= i < before.len() ==> before[i] == allocations[i]);
        if selection(allocations, open) is Total {
            assert forall|i: int, j: int|
                #![trigger allocations[i], allocations[j]]
                0 <= i < j < allocations.len() implies allocations[i].strategy_position_lot_id
                != allocations[j].strategy_position_lot_id by {
                if j < at {
                    assert(before[i].strategy_position_lot_id
                        != before[j].strategy_position_lot_id);
                } else {
                    assert(before[i].strategy_position_lot_id != last.strategy_position_lot_id);
                }
            }
            assert forall|i: int| #![trigger allocations[i]] 0 <= i < allocations.len() implies {
                &&& shares_of(open, allocations[i].strategy_position_lot_id) matches Some(held) && 0
                    < allocations[i].shares@ <= held@
            } by {
                if i < at {
                    assert(before[i] == allocations[i]);
                }
            }
        } else {
            if selection(before, open) is Total {
                if shares_of(open, last.strategy_position_lot_id) is Some && 0 < last.shares@
                    && last.shares@ <= shares_of(open, last.strategy_position_lot_id)->0@ {
                    assert(!(forall|i: int|
                        0 <= i < before.len() ==> (#[trigger] before[i]).strategy_position_lot_id
                            != last.strategy_position_lot_id));
                    let i = choose|i: int|
                        0 <= i < before.len() && (#[trigger] before[i]).strategy_position_lot_id
                            == last.strategy_position_lot_id;
                    assert(allocations[i].strategy_position_lot_id
                        == allocations[at].strategy_position_lot_id);
                }
            } else {
                if forall|i: int|
                    #![trigger allocations[i]]
                    0 <= i < allocations.len() ==> {
                        &&& shares_of(open, allocations[i].strategy_position_lot_id) matches Some(
                            held,
                        ) && 0 < allocations[i].shares@ <= held@
                    } {
                    assert forall|i: int| #![trigger before[i]] 0 <= i < before.len() implies {
                        &&& shares_of(open, before[i].strategy_position_lot_id) matches Some(held)
                            && 0 < before[i].shares@ <= held@
                    } by {
                        assert(before[i] == allocations[i]);
                    }
                    let (i, j) = choose|i: int, j: int|
                        #![trigger before[i], before[j]]
                        0 <= i < j < before.len() && before[i].strategy_position_lot_id
                            == before[j].strategy_position_lot_id;
                    assert(allocations[i].strategy_position_lot_id
                        == allocations[j].strategy_position_lot_id);
                }
            }
        }
    }
}

/// A sale is booked by itself where one lot is open or all of them are sold, and
/// then nobody may choose; otherwise an operator has to choose, and what they
/// choose has to be what was sold.  More than there is cannot be sold.
pub proof fn sales_are_booked_without_doubt(
    open: Seq<(StrategyPositionLotId, Decimal)>,
    sold: Shares,
    allocations: Seq<AccountRecoverySellAllocation>,
    execution: AccountChainExecutionId,
    token: Seq<char>,
    available: Shares,
)
    requires
        total_shares(open) == Some(available),
    ensures
        ({
            let plan = sale_plan(open, sold, allocations, execution, token);
            let alone = open.len() == 1 || sold@ == available@;
            &&& sold@ > available@ ==> plan == SalePlan::Blocked(
                MismatchView::IncidentExecutionIncomplete { account_chain_execution_id: execution },
            )
            &&& sold@ <= available@ && alone && allocations.len() > 0 ==> plan == SalePlan::Blocked(
                MismatchView::LotAllocationInvalid { account_chain_execution_id: execution },
            )
            &&& sold@ <= available@ && alone && allocations.len() == 0 ==> !(plan is Blocked)
            &&& sold@ <= available@ && !alone && allocations.len() == 0 ==> (plan
                matches SalePlan::Blocked(MismatchView::LotAllocationRequired { .. }))
            &&& sold@ <= available@ && !alone && allocations.len() > 0 ==> (plan is Deduct
                <==> (selection(allocations, open) matches Selection::Total(total) && total@
                == sold@))
            &&& sold@ <= available@ && !alone && plan is Deduct ==> plan->Deduct_0.len()
                == allocations.len() && (forall|i: int|
                #![trigger allocations[i]]
                0 <= i < allocations.len() ==> plan->Deduct_0[i] == (
                    allocations[i].strategy_position_lot_id,
                    allocations[i].shares,
                ))
        }),
{
}

/// The operator's choice for an execution is what they chose for that execution.
pub proof fn choices_belong_to_their_execution(
    explicit: Seq<AccountRecoverySellAllocation>,
    execution: AccountChainExecutionId,
)
    ensures
        chosen(explicit, execution) == explicit.filter(
            |a: AccountRecoverySellAllocation| a.account_chain_execution_id == execution,
        ),
    decreases explicit.len(),
{
    reveal(Seq::filter);
    if explicit.len() > 0 {
        choices_belong_to_their_execution(explicit.drop_last(), execution);
    }
}

/// A choice for something that is no sale of the incident is reported.
pub proof fn stray_choices_are_reported(
    explicit: Seq<AccountRecoverySellAllocation>,
    executions: Seq<AccountRecoveryExecutionDelta>,
    i: int,
)
    requires
        0 <= i < explicit.len(),
    ensures
        (forall|k: int|
            0 <= k < executions.len() ==> (#[trigger] executions[k]).account_chain_execution_id
                != explicit[i].account_chain_execution_id || executions[k].shares_delta@ >= 0)
            ==> stray_allocations(explicit, executions).contains(
            MismatchView::LotAllocationInvalid {
                account_chain_execution_id: explicit[i].account_chain_execution_id,
            },
        ),
    decreases explicit.len(),
{
    let before = explicit.drop_last();
    let front = stray_allocations(before, executions);
    let all = stray_allocations(explicit, executions);
    let finding = MismatchView::LotAllocationInvalid {
        account_chain_execution_id: explicit[i].account_chain_execution_id,
    };
    if forall|k: int|
        0 <= k < executions.len() ==> (#[trigger] executions[k]).account_chain_execution_id
            != explicit[i].account_chain_execution_id || executions[k].shares_delta@ >= 0 {
        if i < before.len() {
            stray_choices_are_reported(before, executions, i);
            assert(before[i] == explicit[i]);
            let k = front.index_of(finding);
            assert(all[k] == finding);
        } else {
            assert(all[front.len() as int] == finding);
        }
    }
}

/// An incident starts from the lots on record as they are.
pub proof fn incidents_start_from_the_record(input: InputView, i: int)
    requires
        0 <= i < input.open_lots.len(),
    ensures
        input.opening().lots.len() == input.open_lots.len(),
        input.opening().lots[i] matches WorkingLot::Existing(lot) && {
            &&& lot.strategy_position_lot_id == input.open_lots[i].strategy_position_lot_id
            &&& lot.token_id == input.open_lots[i].token_id
            &&& lot.before_shares == input.open_lots[i].shares && lot.after_shares
                == input.open_lots[i].shares
            &&& lot.before_cost_usd == input.open_lots[i].cost_usd && lot.after_cost_usd
                == input.open_lots[i].cost_usd
            &&& lot.realized_pnl_delta_usd@ == 0
            &&& lot.closed_at is None
        },
{
    whole_numbers_have_their_value(0);
}

/// Every lot of the ledger is told once: an existing one as changed, a new one as
/// created.
pub proof fn lots_are_told_once(lots: Seq<WorkingLot>, i: int)
    requires
        0 <= i < lots.len(),
    ensures
        lots[i] matches WorkingLot::Existing(lot) ==> existing_of(lots).contains(lot),
        lots[i] matches WorkingLot::Created(lot) ==> created_of(lots).contains(lot),
        existing_of(lots).len() + created_of(lots).len() == lots.len(),
    decreases lots.len(),
{
    let before = lots.drop_last();
    if before.len() > 0 {
        let at = if i < before.len() {
            i
        } else {
            0
        };
        lots_are_told_once(before, at);
        if i < before.len() {
            assert(before[i] == lots[i]);
            match lots[i] {
                WorkingLot::Existing(lot) => {
                    let k = existing_of(before).index_of(lot);
                    assert(existing_of(lots)[k] == lot);
                },
                WorkingLot::Created(lot) => {
                    let k = created_of(before).index_of(lot);
                    assert(created_of(lots)[k] == lot);
                },
            }
        }
    } else {
        assert(existing_of(before).len() == 0);
        assert(created_of(before).len() == 0);
    }
    match lots.last() {
        WorkingLot::Existing(lot) => {
            assert(existing_of(lots)[existing_of(before).len() as int] == lot);
        },
        WorkingLot::Created(lot) => {
            assert(created_of(lots)[created_of(before).len() as int] == lot);
        },
    }
}

/// Nothing blocks where the account is paused, the venue stands still, no order
/// is open, every token is known, nothing is reserved, every execution is known
/// and venue and chain show the same collateral.
pub proof fn nothing_blocks_a_quiet_account(input: InputView)
    ensures
        input.blockers().len() == 0 <==> {
            &&& input.pause_confirmed && input.venue_snapshot_stable
            &&& input.open_order_ids.len() == 0 && input.unmapped_token_ids.len() == 0
                && input.invalid_execution_ids.len() == 0
            &&& input.clean_funder_blocker is None
            &&& input.reserved_usd@ == 0
            &&& input.clob_collateral_usd@ == input.chain_collateral_usd@
        },
{
}

} // verus!
