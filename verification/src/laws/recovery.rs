//! What recovering an account is for.
use vstd::arithmetic::power::pow;
use vstd::prelude::*;

use crate::account_recovery_reconciler::{
    balance_entries, balance_tokens, created_of, existing_of, ledger_differences, lot_entries,
    lot_tokens, source_differences, token_total, token_union, AccountRecoveryCreatedLot,
    AccountRecoveryExecutionDelta, AccountRecoveryLotAllocation, AccountRecoverySellAllocation,
    AccountRecoveryTokenBalance, InputView, LedgerView, MismatchView, WorkingLot,
};
use crate::decimal::{whole_numbers_have_their_value, Decimal, Shares, Usd};
use crate::laws::values::{divides_to, leaves, multiplies_to, sums_to};
use crate::sorting::{arranged, arranging_sorts, lex_less, placed, without_repeats, Keyed};
use crate::time::Timestamp;
use crate::types::{Ident, TokenId};

verus! {

/// Shares of a token among balances, in units of a decimal.
pub open spec fn balance_of(balances: Seq<AccountRecoveryTokenBalance>, token: Seq<char>) -> int
    decreases balances.len(),
{
    if balances.len() == 0 {
        0
    } else {
        balance_of(balances.drop_last(), token) + (if balances.last().token_id@ == token {
            balances.last().shares@
        } else {
            0
        })
    }
}

/// Shares of a token that existing lots are left with, in units of a decimal.
pub open spec fn left_in(lots: Seq<AccountRecoveryLotAllocation>, token: Seq<char>) -> int
    decreases lots.len(),
{
    if lots.len() == 0 {
        0
    } else {
        left_in(lots.drop_last(), token) + (if lots.last().token_id@ == token {
            lots.last().after_shares@
        } else {
            0
        })
    }
}

/// Shares of a token that new lots hold, in units of a decimal.
pub open spec fn new_in(lots: Seq<AccountRecoveryCreatedLot>, token: Seq<char>) -> int
    decreases lots.len(),
{
    if lots.len() == 0 {
        0
    } else {
        new_in(lots.drop_last(), token) + (if lots.last().token_id@ == token {
            lots.last().remaining_shares@
        } else {
            0
        })
    }
}

/// Whether the amounts of a token among entries add up, one after the other and
/// without rounding, by these totals.
pub open spec fn adds_up(
    entries: Seq<(Seq<char>, Decimal)>,
    token: Seq<char>,
    totals: Seq<Decimal>,
) -> bool {
    &&& totals.len() == entries.len() + 1
    &&& totals[0] == Decimal::of_parts(0, 0)
    &&& forall|i: int|
        #![trigger entries[i]]
        0 <= i < entries.len() ==> if entries[i].0 == token {
            sums_to(totals[i], entries[i].1, totals[i + 1])
        } else {
            totals[i + 1] == totals[i]
        }
}

/// Amounts of a token among entries, in units of a decimal.
spec fn held(entries: Seq<(Seq<char>, Decimal)>, token: Seq<char>) -> int
    decreases entries.len(),
{
    if entries.len() == 0 {
        0
    } else {
        held(entries.drop_last(), token) + (if entries.last().0 == token {
            entries.last().1@
        } else {
            0
        })
    }
}

proof fn lemma_total(
    entries: Seq<(Seq<char>, Decimal)>,
    token: Seq<char>,
    totals: Seq<Decimal>,
)
    requires
        adds_up(entries, token, totals),
    ensures
        token_total(entries, token) == Some(totals.last()),
        totals.last()@ == held(entries, token),
    decreases entries.len(),
{
    whole_numbers_have_their_value(0);
    if entries.len() > 0 {
        let front = entries.drop_last();
        let before = totals.drop_last();
        assert forall|i: int|
            #![trigger front[i]]
            0 <= i < front.len() implies if front[i].0 == token {
            sums_to(before[i], front[i].1, before[i + 1])
        } else {
            before[i + 1] == before[i]
        } by {
            assert(front[i] == entries[i]);
        }
        lemma_total(front, token, before);
        assert(entries[entries.len() - 1] == entries.last());
        assert(before.last() == totals[entries.len() - 1]);
    }
}

proof fn lemma_held_balances(balances: Seq<AccountRecoveryTokenBalance>, token: Seq<char>)
    ensures
        held(balance_entries(balances), token) == balance_of(balances, token),
    decreases balances.len(),
{
    if balances.len() > 0 {
        lemma_held_balances(balances.drop_last(), token);
        assert(balance_entries(balances).drop_last() =~= balance_entries(balances.drop_last()));
        assert(balance_entries(balances).last() == (
            balances.last().token_id@,
            balances.last().shares,
        ));
    }
}

proof fn lemma_held_lots(lots: Seq<WorkingLot>, token: Seq<char>)
    ensures
        held(lot_entries(lots), token) == left_in(existing_of(lots), token) + new_in(
            created_of(lots),
            token,
        ),
    decreases lots.len(),
{
    if lots.len() > 0 {
        let front = lots.drop_last();
        lemma_held_lots(front, token);
        assert(lot_entries(lots).drop_last() =~= lot_entries(front));
        assert(lot_entries(lots).last() == (lots.last().spec_token()@, lots.last().spec_remaining()));
        match lots.last() {
            WorkingLot::Existing(lot) => {
                assert(existing_of(front).push(lot).drop_last() =~= existing_of(front));
            },
            WorkingLot::Created(lot) => {
                assert(created_of(front).push(lot).drop_last() =~= created_of(front));
            },
        }
    }
}

proof fn lemma_placed_balance(
    balances: Seq<AccountRecoveryTokenBalance>,
    balance: AccountRecoveryTokenBalance,
    token: Seq<char>,
)
    ensures
        balance_of(placed(balances, balance), token) == balance_of(balances.push(balance), token),
    decreases balances.len(),
{
    reveal_with_fuel(balance_of, 2);
    assert(balances.push(balance).drop_last() =~= balances);
    if balances.len() == 0 {
        assert(seq![balance] =~= balances.push(balance));
    } else if lex_less(balance.sort_key(), balances.last().sort_key()) {
        let front = balances.drop_last();
        lemma_placed_balance(front, balance, token);
        assert(front.push(balance).drop_last() =~= front);
        assert(placed(front, balance).push(balances.last()).drop_last() =~= placed(
            front,
            balance,
        ));
    }
}

/// The order of balances has no part in their total.
proof fn lemma_arranged_balance(balances: Seq<AccountRecoveryTokenBalance>, token: Seq<char>)
    ensures
        balance_of(arranged(balances), token) == balance_of(balances, token),
    decreases balances.len(),
{
    if balances.len() > 0 {
        let front = balances.drop_last();
        lemma_arranged_balance(front, token);
        lemma_placed_balance(arranged(front), balances.last(), token);
        assert(arranged(front).push(balances.last()).drop_last() =~= arranged(front));
    }
}

proof fn lemma_repeats_keep_texts(items: Seq<Ident>, token: Seq<char>)
    ensures
        (exists|i: int| 0 <= i < items.len() && (#[trigger] items[i])@ == token) <==> (exists|
            j: int,
        |
            0 <= j < without_repeats(items).len() && (#[trigger] without_repeats(items)[j])@
                == token),
    decreases items.len(),
{
    let kept = without_repeats(items);
    if items.len() > 0 {
        let front = items.drop_last();
        let rest = without_repeats(front);
        lemma_repeats_keep_texts(front, token);
        if exists|i: int| 0 <= i < items.len() && (#[trigger] items[i])@ == token {
            let i = choose|i: int| 0 <= i < items.len() && (#[trigger] items[i])@ == token;
            if i < front.len() {
                assert(front[i]@ == token);
                let j = choose|j: int| 0 <= j < rest.len() && (#[trigger] rest[j])@ == token;
                assert(kept[j]@ == token);
            } else if items.len() > 1 && items[items.len() - 2]@ == items.last()@ {
                assert(front[items.len() - 2]@ == token);
                let j = choose|j: int| 0 <= j < rest.len() && (#[trigger] rest[j])@ == token;
                assert(kept[j]@ == token);
            } else {
                assert(kept[kept.len() - 1]@ == token);
            }
        }
        if exists|j: int| 0 <= j < kept.len() && (#[trigger] kept[j])@ == token {
            let j = choose|j: int| 0 <= j < kept.len() && (#[trigger] kept[j])@ == token;
            if j < rest.len() {
                assert(rest[j]@ == token);
                let i = choose|i: int| 0 <= i < front.len() && (#[trigger] front[i])@ == token;
                assert(items[i]@ == token);
            } else {
                assert(items[items.len() - 1]@ == token);
            }
        }
    }
}

/// Whether a token is among some.
spec fn among(tokens: Seq<TokenId>, token: Seq<char>) -> bool {
    exists|i: int| 0 <= i < tokens.len() && (#[trigger] tokens[i])@ == token
}

proof fn lemma_union(left: Seq<TokenId>, right: Seq<TokenId>, token: Seq<char>)
    ensures
        among(token_union(left, right), token) <==> among(left, token) || among(right, token),
{
    broadcast use vstd::seq_lib::group_to_multiset_ensures;

    let all = left + right;
    let sorted = arranged(all);
    arranging_sorts(all);
    lemma_repeats_keep_texts(sorted, token);
    if among(left, token) {
        let i = choose|i: int| 0 <= i < left.len() && (#[trigger] left[i])@ == token;
        assert(all[i]@ == token);
    }
    if among(right, token) {
        let i = choose|i: int| 0 <= i < right.len() && (#[trigger] right[i])@ == token;
        assert(all[left.len() + i]@ == token);
    }
    if among(all, token) {
        let i = choose|i: int| 0 <= i < all.len() && (#[trigger] all[i])@ == token;
        if i < left.len() {
            assert(left[i]@ == token);
        } else {
            assert(right[i - left.len()]@ == token);
        }
        assert(all.contains(all[i]));
        assert(sorted.to_multiset().count(all[i]) > 0);
        assert(sorted.contains(all[i]));
        let k = sorted.index_of(all[i]);
        assert(sorted[k]@ == token);
    }
    if among(sorted, token) {
        let k = choose|k: int| 0 <= k < sorted.len() && (#[trigger] sorted[k])@ == token;
        assert(sorted.contains(sorted[k]));
        assert(all.to_multiset().count(sorted[k]) > 0);
        assert(all.contains(sorted[k]));
        let i = all.index_of(sorted[k]);
        assert(all[i]@ == token);
    }
}

proof fn lemma_strange_token(entries: Seq<(Seq<char>, Decimal)>, token: Seq<char>)
    requires
        forall|i: int| 0 <= i < entries.len() ==> (#[trigger] entries[i]).0 != token,
    ensures
        held(entries, token) == 0,
    decreases entries.len(),
{
    if entries.len() > 0 {
        let front = entries.drop_last();
        assert forall|i: int| 0 <= i < front.len() implies (#[trigger] front[i]).0 != token by {
            assert(front[i] == entries[i]);
        }
        lemma_strange_token(front, token);
        assert(entries.last() == entries[entries.len() - 1]);
    }
}

/// What is told of a token where the ledger differs from the chain.
pub open spec fn ledger_finding(token: Seq<char>, expected: Shares, venue: Shares) -> MismatchView {
    MismatchView::PositionLedgerMismatch {
        token_id: token,
        expected_shares: expected,
        venue_shares: venue,
    }
}

/// What is told of a token where the data API differs from the chain.
pub open spec fn source_finding(token: Seq<char>, data_api: Shares, chain: Shares) -> MismatchView {
    MismatchView::PositionSourceMismatch {
        token_id: token,
        data_api_shares: data_api,
        chain_shares: chain,
    }
}

proof fn lemma_ledger_told(
    tokens: Seq<TokenId>,
    ledger: Seq<(Seq<char>, Decimal)>,
    chain: Seq<(Seq<char>, Decimal)>,
    token: Seq<char>,
    expected: Decimal,
    venue: Decimal,
)
    requires
        ledger_differences(tokens, ledger, chain) is Some,
        token_total(ledger, token) == Some(expected),
        token_total(chain, token) == Some(venue),
    ensures
        ledger_differences(tokens, ledger, chain)->0.contains(
            ledger_finding(token, expected, venue),
        ) <==> among(tokens, token) && expected@ != venue@,
    decreases tokens.len(),
{
    let told = ledger_differences(tokens, ledger, chain)->0;
    let wanted = ledger_finding(token, expected, venue);
    if tokens.len() > 0 {
        let front = tokens.drop_last();
        let before = ledger_differences(front, ledger, chain)->0;
        lemma_ledger_told(front, ledger, chain, token, expected, venue);
        if told.contains(wanted) && !before.contains(wanted) {
            let i = told.index_of(wanted);
            if i < before.len() {
                assert(before[i] == wanted);
            }
            assert(tokens[tokens.len() - 1]@ == token);
        }
        if before.contains(wanted) {
            let i = before.index_of(wanted);
            assert(told[i] == wanted);
        }
        if among(front, token) {
            let i = choose|i: int| 0 <= i < front.len() && (#[trigger] front[i])@ == token;
            assert(tokens[i]@ == token);
        }
        if among(tokens, token) && !among(front, token) {
            let i = choose|i: int| 0 <= i < tokens.len() && (#[trigger] tokens[i])@ == token;
            if i < front.len() {
                assert(front[i]@ == token);
            }
            assert(tokens.last()@ == token);
            if expected@ != venue@ {
                assert(told[told.len() - 1] == wanted);
            }
        }
    } else {
        assert(told.len() == 0);
    }
}

proof fn lemma_source_told(
    tokens: Seq<TokenId>,
    data_api: Seq<(Seq<char>, Decimal)>,
    chain: Seq<(Seq<char>, Decimal)>,
    token: Seq<char>,
    shown: Decimal,
    venue: Decimal,
)
    requires
        source_differences(tokens, data_api, chain) is Some,
        token_total(data_api, token) == Some(shown),
        token_total(chain, token) == Some(venue),
    ensures
        source_differences(tokens, data_api, chain)->0.contains(
            source_finding(token, shown, venue),
        ) <==> among(tokens, token) && shown@ != venue@,
    decreases tokens.len(),
{
    let told = source_differences(tokens, data_api, chain)->0;
    let wanted = source_finding(token, shown, venue);
    if tokens.len() > 0 {
        let front = tokens.drop_last();
        let before = source_differences(front, data_api, chain)->0;
        lemma_source_told(front, data_api, chain, token, shown, venue);
        if told.contains(wanted) && !before.contains(wanted) {
            let i = told.index_of(wanted);
            if i < before.len() {
                assert(before[i] == wanted);
            }
            assert(tokens[tokens.len() - 1]@ == token);
        }
        if before.contains(wanted) {
            let i = before.index_of(wanted);
            assert(told[i] == wanted);
        }
        if among(front, token) {
            let i = choose|i: int| 0 <= i < front.len() && (#[trigger] front[i])@ == token;
            assert(tokens[i]@ == token);
        }
        if among(tokens, token) && !among(front, token) {
            let i = choose|i: int| 0 <= i < tokens.len() && (#[trigger] tokens[i])@ == token;
            if i < front.len() {
                assert(front[i]@ == token);
            }
            assert(tokens.last()@ == token);
            if shown@ != venue@ {
                assert(told[told.len() - 1] == wanted);
            }
        }
    } else {
        assert(told.len() == 0);
    }
}

/// A token of which the lots after the incident do not hold exactly what the
/// chain shows is reported with both amounts, whichever is greater; one of which
/// they do is not. The same holds between the data API and the chain.
pub proof fn differences_are_reported(
    input: InputView,
    token: Seq<char>,
    lots: Seq<WorkingLot>,
    lot_totals: Seq<Decimal>,
    api_totals: Seq<Decimal>,
    chain_totals: Seq<Decimal>,
)
    requires
        input.assessed() is Some,
        input.canonical().closing() is Some,
        lots == arranged(input.canonical().closing()->0.lots),
        adds_up(lot_entries(lots), token, lot_totals),
        adds_up(balance_entries(arranged(input.data_api_positions)), token, api_totals),
        adds_up(balance_entries(arranged(input.chain_positions)), token, chain_totals),
    ensures
        ({
            let done = input.assessed()->0;
            let ledger = left_in(done.allocations, token) + new_in(done.created_lots, token);
            let api = balance_of(input.data_api_positions, token);
            let chain = balance_of(input.chain_positions, token);
            &&& lot_totals.last()@ == ledger && api_totals.last()@ == api
                && chain_totals.last()@ == chain
            &&& ledger != chain ==> done.findings.contains(
                ledger_finding(token, lot_totals.last(), chain_totals.last()),
            )
            &&& api != chain ==> done.findings.contains(
                source_finding(token, api_totals.last(), chain_totals.last()),
            )
        }),
{
    let canonical = input.canonical();
    let done = input.assessed()->0;
    let chain = canonical.chain_positions;
    let api = canonical.data_api_positions;
    lemma_total(lot_entries(lots), token, lot_totals);
    lemma_total(balance_entries(api), token, api_totals);
    lemma_total(balance_entries(chain), token, chain_totals);
    lemma_held_lots(lots, token);
    lemma_held_balances(api, token);
    lemma_held_balances(chain, token);
    lemma_arranged_balance(input.data_api_positions, token);
    lemma_arranged_balance(input.chain_positions, token);
    let union = token_union(lot_tokens(lots), balance_tokens(chain));
    let both = token_union(balance_tokens(api), balance_tokens(chain));
    lemma_union(lot_tokens(lots), balance_tokens(chain), token);
    lemma_union(balance_tokens(api), balance_tokens(chain), token);
    let ledger_told = ledger_differences(union, lot_entries(lots), balance_entries(chain))->0;
    let source_told = source_differences(both, balance_entries(api), balance_entries(chain))->0;
    lemma_ledger_told(
        union,
        lot_entries(lots),
        balance_entries(chain),
        token,
        lot_totals.last(),
        chain_totals.last(),
    );
    lemma_source_told(
        both,
        balance_entries(api),
        balance_entries(chain),
        token,
        api_totals.last(),
        chain_totals.last(),
    );
    if !among(lot_tokens(lots), token) {
        assert forall|i: int| 0 <= i < lot_entries(lots).len() implies (
        #[trigger] lot_entries(lots)[i]).0 != token by {
            assert(lot_tokens(lots)[i]@ == lot_entries(lots)[i].0);
        }
        lemma_strange_token(lot_entries(lots), token);
    }
    if !among(balance_tokens(api), token) {
        assert forall|i: int| 0 <= i < balance_entries(api).len() implies (
        #[trigger] balance_entries(api)[i]).0 != token by {
            assert(balance_tokens(api)[i]@ == balance_entries(api)[i].0);
        }
        lemma_strange_token(balance_entries(api), token);
    }
    if !among(balance_tokens(chain), token) {
        assert forall|i: int| 0 <= i < balance_entries(chain).len() implies (
        #[trigger] balance_entries(chain)[i]).0 != token by {
            assert(balance_tokens(chain)[i]@ == balance_entries(chain)[i].0);
        }
        lemma_strange_token(balance_entries(chain), token);
    }
    let own = canonical.closing()->0.findings;
    let source = canonical.source_findings()->0;
    let blockers = canonical.blockers();
    if ledger_told.contains(ledger_finding(token, lot_totals.last(), chain_totals.last())) {
        let i = ledger_told.index_of(
            ledger_finding(token, lot_totals.last(), chain_totals.last()),
        );
        assert(done.findings[source.len() + own.len() + i] == ledger_told[i]);
    }
    if source_told.contains(source_finding(token, api_totals.last(), chain_totals.last())) {
        let i = source_told.index_of(
            source_finding(token, api_totals.last(), chain_totals.last()),
        );
        assert(source[blockers.len() + i] == source_told[i]);
        assert(done.findings[blockers.len() + i] == source_told[i]);
    }
}

/// An account counts as reconciled only where, of every token, the lots after
/// the incident hold exactly the shares that the chain shows, and the data API
/// shows exactly as many.
pub proof fn reconciled_accounts_agree(
    input: InputView,
    token: Seq<char>,
    lots: Seq<WorkingLot>,
    lot_totals: Seq<Decimal>,
    api_totals: Seq<Decimal>,
    chain_totals: Seq<Decimal>,
)
    requires
        input.assessed() is Some,
        input.assessed()->0.findings.len() == 0,
        input.canonical().closing() is Some,
        lots == arranged(input.canonical().closing()->0.lots),
        adds_up(lot_entries(lots), token, lot_totals),
        adds_up(balance_entries(arranged(input.data_api_positions)), token, api_totals),
        adds_up(balance_entries(arranged(input.chain_positions)), token, chain_totals),
    ensures
        left_in(input.assessed()->0.allocations, token) + new_in(
            input.assessed()->0.created_lots,
            token,
        ) == balance_of(input.chain_positions, token),
        balance_of(input.data_api_positions, token) == balance_of(input.chain_positions, token),
{
    differences_are_reported(input, token, lots, lot_totals, api_totals, chain_totals);
}

/// Taking shares from a lot takes their part of the cost, and gives their part of
/// the proceeds over that cost to the profit; a lot without shares left is
/// closed.
pub proof fn sales_take_their_part(
    lot: WorkingLot,
    deducted: Shares,
    sold: Shares,
    net_proceeds: Usd,
    exited_at: Timestamp,
    cost_times_part: Decimal,
    cost_removed: Usd,
    proceeds_times_part: Decimal,
    proceeds: Usd,
    gain: Usd,
    remaining: Shares,
    cost: Usd,
    profit: Usd,
)
    requires
        multiplies_to(lot.spec_cost(), deducted, cost_times_part),
        divides_to(cost_times_part, lot.spec_remaining(), cost_removed),
        multiplies_to(net_proceeds, deducted, proceeds_times_part),
        divides_to(proceeds_times_part, sold, proceeds),
        leaves(proceeds, cost_removed, gain),
        leaves(lot.spec_remaining(), deducted, remaining),
        leaves(lot.spec_cost(), cost_removed, cost),
        sums_to(lot.spec_pnl(), gain, profit),
    ensures
        lot.after_sale(deducted, sold, net_proceeds, exited_at) matches Some(after) && {
            &&& after.spec_remaining()@ == lot.spec_remaining()@ - deducted@
            &&& (lot.spec_cost()@ - after.spec_cost()@) * lot.spec_remaining()@
                == lot.spec_cost()@ * deducted@
            &&& (after.spec_pnl()@ - lot.spec_pnl()@ + lot.spec_cost()@ - after.spec_cost()@)
                * sold@ == net_proceeds@ * deducted@
            &&& after.spec_id() == lot.spec_id() && after.spec_token() == lot.spec_token()
            &&& after matches WorkingLot::Existing(existing) ==> lot is Existing && (lot.spec_remaining()@
                == deducted@ ==> existing.closed_at == Some(exited_at)) && (lot.spec_remaining()@
                != deducted@ ==> existing.closed_at == lot->Existing_0.closed_at)
                && existing.before_shares == lot->Existing_0.before_shares
                && existing.before_cost_usd == lot->Existing_0.before_cost_usd
            &&& after matches WorkingLot::Created(created) ==> lot is Created && (lot.spec_remaining()@
                == deducted@ ==> created.closed_at == Some(exited_at)) && (lot.spec_remaining()@
                != deducted@ ==> created.closed_at == lot->Created_0.closed_at)
                && created.acquired_shares == lot->Created_0.acquired_shares
                && created.acquired_cost_usd == lot->Created_0.acquired_cost_usd
        },
{
    let one = pow(10, 28);
    vstd::arithmetic::power::lemma_pow_positive(10, 28);
    let c = cost_removed@;
    let r = lot.spec_remaining()@;
    let t = cost_times_part@;
    let k = lot.spec_cost()@;
    let d = deducted@;
    let p = proceeds@;
    let s = sold@;
    let u = proceeds_times_part@;
    let n = net_proceeds@;
    assert(c * r == k * d) by (nonlinear_arith)
        requires
            c * r == t * one,
            t * one == k * d,
    ;
    assert(p * s == n * d) by (nonlinear_arith)
        requires
            p * s == u * one,
            u * one == n * d,
    ;
}

/// A purchase opens a lot of its own for the shares, at principal and fee, and
/// leaves every other lot and the findings as they were.
pub proof fn purchases_open_a_lot(
    ledger: LedgerView,
    execution: AccountRecoveryExecutionDelta,
    explicit: Seq<AccountRecoverySellAllocation>,
    cost: Usd,
)
    requires
        execution.shares_delta@ > 0,
        sums_to(execution.principal_usd, execution.exact_fee_usd, cost),
    ensures
        ledger.applied(execution, explicit) matches Some(after) && {
            &&& after.findings == ledger.findings
            &&& after.lots.len() == ledger.lots.len() + 1
            &&& forall|i: int| 0 <= i < ledger.lots.len() ==> after.lots[i] == ledger.lots[i]
            &&& after.lots.last() matches WorkingLot::Created(lot) && {
                &&& lot.strategy_position_lot_id == execution.recovery_lot_id
                &&& lot.account_chain_execution_id == execution.account_chain_execution_id
                &&& lot.token_id == execution.token_id
                &&& lot.acquired_shares == execution.shares_delta
                &&& lot.remaining_shares == execution.shares_delta
                &&& lot.acquired_cost_usd@ == execution.principal_usd@ + execution.exact_fee_usd@
                &&& lot.remaining_cost_usd@ == execution.principal_usd@ + execution.exact_fee_usd@
                &&& lot.realized_pnl_delta_usd@ == 0
                &&& lot.closed_at is None
            }
        },
{
    whole_numbers_have_their_value(0);
}

/// An execution that moves nothing, or a sale whose fee eats more than it brought
/// in, is reported as incomplete and books nothing.
pub proof fn senseless_executions_are_reported(
    ledger: LedgerView,
    execution: AccountRecoveryExecutionDelta,
    explicit: Seq<AccountRecoverySellAllocation>,
)
    requires
        execution.shares_delta@ == 0 || (execution.shares_delta@ < 0 && execution.exact_fee_usd@
            > execution.principal_usd@),
    ensures
        ledger.applied(execution, explicit) matches Some(after) && after.lots == ledger.lots
            && after.findings == ledger.findings.push(
            MismatchView::IncidentExecutionIncomplete {
                account_chain_execution_id: execution.account_chain_execution_id,
            },
        ),
{
}

} // verus!
