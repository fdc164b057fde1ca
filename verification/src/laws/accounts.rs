//! What the gathering of facts for a recovery is for.
use vstd::prelude::*;

use crate::account_recovery_reconciler::{token_total, AccountRecoveryCreatedLot};
use crate::account_recovery_service::{
    drafted, due_step, invalid_executions, known_deltas, market_of, materialized_lot,
    positive_totals, side_of, unmapped, AccountChainExecutionInfo, AccountRecoveryIncident,
    CatalogToken, IncidentStep, RecoveryFacts,
};
use crate::decimal::{Decimal, Price, Shares};
use crate::laws::values::{divides_to, negates_to};
use crate::types::{AccountRecoveryIncidentId, ExecutionAccountId, OutcomeSide, Side, TokenId};

verus! {

/// What an execution changes is known exactly where everything of it is on record
/// and the account was not on both sides.  A purchase adds its shares, a sale
/// takes them away.
pub proof fn executions_add_purchases_and_take_sales(
    execution: AccountChainExecutionInfo,
    taken: Shares,
)
    requires
        execution.shares is Some ==> negates_to(execution.shares->0, taken),
    ensures
        execution.delta() is Some <==> execution.account_side is Some && execution.account_token_id
            is Some && execution.shares is Some && execution.principal_usd is Some
            && execution.exact_fee_usd is Some && !(execution.role is SelfMatch),
        execution.delta() matches Some(delta) ==> {
            &&& execution.account_side == Some(Side::Buy) ==> delta.shares_delta@
                == execution.shares->0@
            &&& execution.account_side == Some(Side::Sell) ==> delta.shares_delta@
                == -execution.shares->0@
            &&& execution.account_token_id == Some(delta.token_id)
            &&& execution.principal_usd == Some(delta.principal_usd)
            &&& execution.exact_fee_usd == Some(delta.exact_fee_usd)
            &&& delta.account_chain_execution_id == execution.account_chain_execution_id
            &&& delta.recovery_lot_id == execution.recovery_lot_id
            &&& delta.available_at == execution.available_at
        },
{
}

/// Every execution is either known or reported, and none is both.
pub proof fn executions_are_known_or_reported(executions: Seq<AccountChainExecutionInfo>, i: int)
    requires
        0 <= i < executions.len(),
    ensures
        executions[i].delta() matches Some(delta) ==> known_deltas(executions).contains(delta),
        executions[i].delta() is None ==> invalid_executions(executions).contains(
            executions[i].account_chain_execution_id,
        ),
        known_deltas(executions).len() + invalid_executions(executions).len() == executions.len(),
    decreases executions.len(),
{
    let front = executions.drop_last();
    crate::account_recovery_service::every_execution_is_accounted_for(executions);
    let known = known_deltas(front);
    let reported = invalid_executions(front);
    if i < front.len() {
        executions_are_known_or_reported(front, i);
        assert(front[i] == executions[i]);
        if executions[i].delta() is Some {
            let at = known.index_of(executions[i].delta()->0);
            assert(known_deltas(executions)[at] == executions[i].delta()->0);
        } else {
            let at = reported.index_of(executions[i].account_chain_execution_id);
            assert(invalid_executions(executions)[at] == executions[i].account_chain_execution_id);
        }
    } else if executions[i].delta() is Some {
        assert(known_deltas(executions)[known.len() as int] == executions[i].delta()->0);
    } else {
        assert(invalid_executions(executions)[reported.len() as int]
            == executions[i].account_chain_execution_id);
    }
}

/// A token that adds up to something is held, and one that does not is not.
pub proof fn holdings_are_what_adds_up(
    tokens: Seq<TokenId>,
    entries: Seq<(Seq<char>, Decimal)>,
    i: int,
    total: Shares,
)
    requires
        positive_totals(tokens, entries) is Some,
        0 <= i < tokens.len(),
        token_total(entries, tokens[i]@) == Some(total),
    ensures
        total@ > 0 ==> exists|k: int|
            0 <= k < positive_totals(tokens, entries)->0.len() && (#[trigger] positive_totals(
                tokens,
                entries,
            )->0[k]).token_id == tokens[i] && positive_totals(tokens, entries)->0[k].shares
                == total,
    decreases tokens.len(),
{
    let front = positive_totals(tokens.drop_last(), entries)->0;
    let all = positive_totals(tokens, entries)->0;
    if total@ > 0 {
        if i < tokens.len() - 1 {
            holdings_are_what_adds_up(tokens.drop_last(), entries, i, total);
            let k = choose|k: int|
                0 <= k < front.len() && (#[trigger] front[k]).token_id == tokens[i]
                    && front[k].shares == total;
            assert(all[k] == front[k]);
        } else {
            assert(all[front.len() as int].token_id == tokens[i]);
        }
    }
}

/// The market of a token is one that the catalog has for that token, where it
/// has one.
pub proof fn tokens_have_their_catalogued_market(
    catalog: Seq<CatalogToken>,
    token: Seq<char>,
    i: int,
)
    requires
        0 <= i < catalog.len(),
    ensures
        catalog[i].token_id@ == token && catalog[i].market is Some ==> market_of(catalog, token)
            is Some,
        market_of(catalog, token) matches Some(market) ==> exists|k: int|
            0 <= k < catalog.len() && (#[trigger] catalog[k]).token_id@ == token
                && catalog[k].market == Some(market),
    decreases catalog.len(),
{
    let front = catalog.drop_last();
    if front.len() > 0 {
        let at = if i < front.len() {
            i
        } else {
            0
        };
        tokens_have_their_catalogued_market(front, token, at);
        if market_of(front, token) is Some {
            let market = market_of(front, token)->0;
            let k = choose|k: int|
                0 <= k < front.len() && (#[trigger] front[k]).token_id@ == token && front[k].market
                    == Some(market);
            assert(catalog[k] == front[k]);
        }
        if i < front.len() {
            assert(front[i] == catalog[i]);
        }
    }
    assert(catalog.last() == catalog[catalog.len() - 1]);
}

/// The tokens without a market are reported, all of them and no others.
pub proof fn tokens_without_a_market_are_reported(
    tokens: Seq<TokenId>,
    catalog: Seq<CatalogToken>,
)
    ensures
        unmapped(tokens, catalog) == tokens.filter(
            |t: TokenId| market_of(catalog, t@) is None,
        ),
    decreases tokens.len(),
{
    reveal(Seq::filter);
    if tokens.len() > 0 {
        tokens_without_a_market_are_reported(tokens.drop_last(), catalog);
    }
}

/// A token of a market stands for one of its two outcomes.
pub proof fn tokens_stand_for_their_outcome(token: Seq<char>, yes: Seq<char>, no: Seq<char>)
    requires
        yes != no,
    ensures
        side_of(token, yes, no) == Ok::<OutcomeSide, crate::error::ErrorView>(OutcomeSide::Yes)
            <==> token == yes,
        side_of(token, yes, no) == Ok::<OutcomeSide, crate::error::ErrorView>(OutcomeSide::No)
            <==> token == no,
        side_of(token, yes, no) is Err <==> token != yes && token != no,
{
}

/// A lot that recovery opens was acquired at the average price that makes up its
/// cost; it is open exactly while something of it is left.
pub proof fn recovered_lots_keep_their_cost(
    incident_id: AccountRecoveryIncidentId,
    account_id: ExecutionAccountId,
    created: AccountRecoveryCreatedLot,
    executions: Seq<AccountChainExecutionInfo>,
    catalog: Seq<CatalogToken>,
    average: Price,
)
    requires
        divides_to(created.acquired_cost_usd, created.acquired_shares, average),
    ensures
        materialized_lot(incident_id, account_id, created, executions, catalog) matches Ok(lot) ==> {
            &&& lot.avg_price@ * created.acquired_shares@ == created.acquired_cost_usd@
                * vstd::arithmetic::power::pow(10, 28)
            &&& lot.state is Closed <==> created.remaining_shares@ == 0
            &&& lot.shares == created.remaining_shares
            &&& lot.cost_usd == created.remaining_cost_usd
            &&& lot.realized_pnl_usd == created.realized_pnl_delta_usd
            &&& lot.token_id == created.token_id
            &&& lot.closed_at == created.closed_at
            &&& lot.strategy_position_lot_id == created.strategy_position_lot_id
            &&& lot.recovery_incident_id == incident_id
            &&& lot.execution_account_id == account_id
            &&& market_of(catalog, created.token_id@) matches Some(market) && lot.market_id
                == market.market_id
            &&& market_of(catalog, created.token_id@)->0.token_pair matches Some(pair) && (lot.side
                is Yes ==> created.token_id@ == pair.0@) && (lot.side is No ==> created.token_id@
                == pair.1@)
        },
{
}

/// What is assessed is the later of the two captures, which is stable exactly
/// where the first shows the same; together with what the chain shows, the lots on
/// record and every execution.
pub proof fn the_later_capture_is_assessed(facts: RecoveryFacts, i: int)
    requires
        0 <= i < facts.open_lots@.len(),
    ensures
        ({
            let input = facts.assessed_input();
            &&& input.venue_snapshot_stable <==> facts.first.clob_hash == facts.second.clob_hash
                && facts.first.data_hash == facts.second.data_hash
            &&& input.clob_collateral_usd == facts.second.collateral_usd
            &&& input.chain_collateral_usd == facts.chain.collateral_usd
            &&& input.reserved_usd == facts.reserved_usd
            &&& input.data_api_positions == facts.second.positions@
            &&& input.chain_positions == facts.chain.positions@
            &&& input.open_order_ids == facts.second.open_order_ids@
            &&& input.pause_confirmed == facts.pause_confirmed
            &&& input.pending_settlement_count == facts.pending_settlement_count
            &&& input.clean_funder_blocker == facts.clean_funder_blocker
            &&& input.explicit_sell_allocations == facts.explicit_sell_allocations@
            &&& input.clob_snapshot_hash == facts.second.clob_hash
            &&& input.data_api_snapshot_hash == facts.second.data_hash
            &&& input.open_lots.len() == facts.open_lots@.len()
            &&& input.open_lots[i].shares == facts.open_lots@[i].shares
            &&& input.open_lots[i].cost_usd == facts.open_lots@[i].cost_usd
            &&& input.open_lots[i].token_id == facts.open_lots@[i].token_id
            &&& input.open_lots[i].opened_at == facts.open_lots@[i].opened_at
            &&& input.open_lots[i].strategy_position_lot_id
                == facts.open_lots@[i].strategy_position_lot_id
        }),
        drafted(facts) matches Ok(draft) ==> draft.input == facts.assessed_input()
            && draft.recovery_incident_id == facts.recovery_incident_id && (
        draft.created_lots.len() > 0 ==> draft.assessment.findings.len() == 0),
{
}

/// An incident is reconciled until it is sealed; the pause is lifted only from a
/// sealed one, which is finalized at its own revision once that is confirmed.
pub proof fn incidents_are_sealed_before_the_pause_is_lifted(incident: AccountRecoveryIncident)
    ensures
        due_step(incident, None) is Unpause <==> incident.seal_hash is Some,
        due_step(incident, None) is Reconcile <==> incident.seal_hash is None,
        due_step(incident, Some(true)) == (IncidentStep::Finalize {
            expected_revision: incident.revision,
        }),
        due_step(incident, Some(false)) is Rest,
{
}

} // verus!
