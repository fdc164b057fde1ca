//! Recovery of an account after an execution that the strategy does not know.
//!
//! The venue is captured twice, the chain once; open lots, incident executions
//! and settlements are read from the ledger. From these the recovery manifest
//! is drawn up: the assessed input, its findings and, once nothing is left to
//! find, the lots that the incident opened. Only the latest converged manifest
//! can be sealed, and only a sealed incident is finalized.
use vstd::prelude::*;
use vstd::string::*;

use crate::account_recovery_reconciler::{
    balance_entries, balance_tokens, token_total, AccountChainExecutionRole,
    AccountCleanFunderBlockerEvidence, AccountRecoveryAssessment, AccountRecoveryAssessmentInput,
    AccountRecoveryCreatedLot, AccountRecoveryExecutionDelta, AccountRecoveryLotBalance,
    AccountRecoveryReconciler, AccountRecoverySellAllocation, AccountRecoveryTokenBalance,
    AssessmentView, InputView,
};
use crate::decimal::{Decimal, Price, Shares, Usd};
use crate::error::{outcome, ErrorView, ExecutionError};
use crate::sorting::{
    arrange, arranged, drop_repeats, lex_less, text_before, text_key, without_repeats, Keyed,
};
use crate::time::Timestamp;
use crate::types::{
    AccountChainExecutionId, AccountRecoveryIncidentId, ContentHash, EventId, ExecutionAccountId,
    Ident, MarketId, OrderId, OutcomeSide, Side, StrategyPositionLotId, TokenId,
};

verus! {

/// The refusal of a recovery step.
pub open spec fn recovery_refusal(reason: Seq<char>) -> ErrorView {
    ErrorView::AccountRecovery { reason }
}

pub(crate) fn recovery_error(reason: &str) -> (r: ExecutionError)
    ensures
        r@ == recovery_refusal(reason@),
{
    ExecutionError::AccountRecovery { reason: reason.to_owned() }
}

/// An execution of the account that belongs to an incident.
#[derive(Debug, PartialEq, Eq)]
pub struct AccountChainExecutionInfo {
    pub account_chain_execution_id: AccountChainExecutionId,
    /// The lot identity derived from the incident and this execution.
    pub recovery_lot_id: StrategyPositionLotId,
    pub role: AccountChainExecutionRole,
    pub account_side: Option<Side>,
    pub account_token_id: Option<TokenId>,
    pub shares: Option<Shares>,
    pub principal_usd: Option<Usd>,
    pub exact_fee_usd: Option<Usd>,
    pub available_at: Timestamp,
}

impl AccountChainExecutionInfo {
    /// What the execution did to the account, if that is known and unambiguous:
    /// all amounts are there and the account did not trade with itself.
    pub open spec fn delta(self) -> Option<AccountRecoveryExecutionDelta> {
        match (
            self.account_side,
            self.account_token_id,
            self.shares,
            self.principal_usd,
            self.exact_fee_usd,
        ) {
            (
                Some(side),
                Some(token_id),
                Some(shares),
                Some(principal_usd),
                Some(exact_fee_usd),
            ) => if self.role == AccountChainExecutionRole::SelfMatch {
                None
            } else {
                Some(
                    AccountRecoveryExecutionDelta {
                        account_chain_execution_id: self.account_chain_execution_id,
                        recovery_lot_id: self.recovery_lot_id,
                        token_id,
                        shares_delta: match side {
                            Side::Buy => shares,
                            Side::Sell => shares.opposite(),
                        },
                        principal_usd,
                        exact_fee_usd,
                        available_at: self.available_at,
                    },
                )
            },
            _ => None,
        }
    }

    fn to_delta(&self) -> (r: Option<AccountRecoveryExecutionDelta>)
        ensures
            r == self.delta(),
    {
        match (
            self.account_side,
            &self.account_token_id,
            self.shares,
            self.principal_usd,
            self.exact_fee_usd,
        ) {
            (
                Some(side),
                Some(token_id),
                Some(shares),
                Some(principal_usd),
                Some(exact_fee_usd),
            ) => {
                if self.role == AccountChainExecutionRole::SelfMatch {
                    return None;
                }
                Some(
                    AccountRecoveryExecutionDelta {
                        account_chain_execution_id: self.account_chain_execution_id,
                        recovery_lot_id: self.recovery_lot_id,
                        token_id: token_id.clone(),
                        shares_delta: match side {
                            Side::Buy => shares,
                            Side::Sell => shares.negate(),
                        },
                        principal_usd,
                        exact_fee_usd,
                        available_at: self.available_at,
                    },
                )
            },
            _ => None,
        }
    }
}

/// The deltas of the executions that have one.
pub open spec fn known_deltas(executions: Seq<AccountChainExecutionInfo>) -> Seq<
    AccountRecoveryExecutionDelta,
>
    decreases executions.len(),
{
    if executions.len() == 0 {
        Seq::empty()
    } else {
        let front = known_deltas(executions.drop_last());
        match executions.last().delta() {
            Some(delta) => front.push(delta),
            None => front,
        }
    }
}

/// The executions that have no delta.
pub open spec fn invalid_executions(executions: Seq<AccountChainExecutionInfo>) -> Seq<
    AccountChainExecutionId,
>
    decreases executions.len(),
{
    if executions.len() == 0 {
        Seq::empty()
    } else {
        let front = invalid_executions(executions.drop_last());
        match executions.last().delta() {
            Some(_) => front,
            None => front.push(executions.last().account_chain_execution_id),
        }
    }
}

/// Splits executions into those with a delta and those without.
pub fn execution_deltas(executions: &Vec<AccountChainExecutionInfo>) -> (r: (
    Vec<AccountRecoveryExecutionDelta>,
    Vec<AccountChainExecutionId>,
))
    ensures
        r.0@ == known_deltas(executions@),
        r.1@ == invalid_executions(executions@),
{
    let mut deltas: Vec<AccountRecoveryExecutionDelta> = Vec::new();
    let mut invalid: Vec<AccountChainExecutionId> = Vec::new();
    let mut i: usize = 0;
    assert(executions@.take(0) =~= Seq::<AccountChainExecutionInfo>::empty());
    while i < executions.len()
        invariant
            i <= executions.len(),
            deltas@ == known_deltas(executions@.take(i as int)),
            invalid@ == invalid_executions(executions@.take(i as int)),
        decreases executions.len() - i,
    {
        assert(executions@.take(i + 1).drop_last() =~= executions@.take(i as int));
        assert(executions@.take(i + 1).last() == executions@[i as int]);
        match executions[i].to_delta() {
            Some(delta) => {
                deltas.push(delta);
            },
            None => {
                invalid.push(executions[i].account_chain_execution_id);
            },
        }
        i = i + 1;
    }
    assert(executions@.take(i as int) =~= executions@);
    (deltas, invalid)
}

/// No execution gets lost: each is a delta or is reported as incomplete. A
/// self-match is never a delta.
pub proof fn every_execution_is_accounted_for(executions: Seq<AccountChainExecutionInfo>)
    ensures
        known_deltas(executions).len() + invalid_executions(executions).len() == executions.len(),
        forall|i: int|
            0 <= i < executions.len() && (#[trigger] executions[i]).role
                == AccountChainExecutionRole::SelfMatch ==> invalid_executions(
                executions,
            ).contains(executions[i].account_chain_execution_id),
    decreases executions.len(),
{
    if executions.len() > 0 {
        let front = executions.drop_last();
        every_execution_is_accounted_for(front);
        let before = invalid_executions(front);
        let after = invalid_executions(executions);
        assert forall|i: int|
            0 <= i < executions.len() && (#[trigger] executions[i]).role
                == AccountChainExecutionRole::SelfMatch implies after.contains(
            executions[i].account_chain_execution_id,
        ) by {
            if i < front.len() {
                assert(front[i] == executions[i]);
                let k = choose|k: int|
                    0 <= k < before.len() && before[k] == front[i].account_chain_execution_id;
                assert(after[k] == before[k]);
            } else {
                assert(after[before.len() as int] == executions[i].account_chain_execution_id);
            }
        }
    }
}

/// A position as the data API reports it.
#[derive(Debug, PartialEq, Eq)]
pub struct DataPositionEvidence {
    pub token_id: TokenId,
    pub condition_id: String,
    pub outcome: String,
    pub shares: Shares,
}

impl Keyed for DataPositionEvidence {
    open spec fn sort_key(&self) -> Seq<int> {
        // A terminator below every byte keeps the tokens' order first.
        text_key(self.token_id@).push(-1) + text_key(self.condition_id@)
    }

    fn key_before(&self, other: &Self) -> (r: bool) {
        proof {
            lemma_two_part_key(
                text_key(self.token_id@),
                text_key(self.condition_id@),
                text_key(other.token_id@),
                text_key(other.condition_id@),
            );
            lemma_same_key(self.token_id@, other.token_id@);
        }
        if self.token_id.same(&other.token_id) {
            text_before(self.condition_id.as_str(), other.condition_id.as_str())
        } else {
            text_before(self.token_id.text.as_str(), other.token_id.text.as_str())
        }
    }
}

/// Two-part keys with a terminator between the parts are ordered by the first
/// part, then by the second.
proof fn lemma_two_part_key(a: Seq<int>, b: Seq<int>, c: Seq<int>, d: Seq<int>)
    requires
        forall|i: int| 0 <= i < a.len() ==> #[trigger] a[i] >= 0,
        forall|i: int| 0 <= i < c.len() ==> #[trigger] c[i] >= 0,
    ensures
        lex_less(a.push(-1) + b, c.push(-1) + d) == (if a == c {
            lex_less(b, d)
        } else {
            lex_less(a, c)
        }),
    decreases a.len(),
{
    let left = a.push(-1) + b;
    let right = c.push(-1) + d;
    if a.len() == 0 && c.len() == 0 {
        assert(a =~= c);
        assert(left.drop_first() =~= b);
        assert(right.drop_first() =~= d);
    } else if a.len() == 0 || c.len() == 0 {
        assert(left[0] != right[0]);
    } else if a[0] == c[0] {
        assert(left.drop_first() =~= a.drop_first().push(-1) + b);
        assert(right.drop_first() =~= c.drop_first().push(-1) + d);
        lemma_two_part_key(a.drop_first(), b, c.drop_first(), d);
        if a.drop_first() == c.drop_first() {
            assert(a =~= seq![a[0]] + a.drop_first());
            assert(c =~= seq![c[0]] + c.drop_first());
        }
    }
}

proof fn lemma_same_key(left: Seq<char>, right: Seq<char>)
    ensures
        text_key(left) == text_key(right) <==> left == right,
{
    if text_key(left) == text_key(right) {
        crate::sorting::lemma_text_key_injective(left, right);
    }
}

/// The token of each position.
pub open spec fn evidence_tokens(evidence: Seq<DataPositionEvidence>) -> Seq<TokenId> {
    evidence.map_values(|e: DataPositionEvidence| e.token_id)
}

/// Token and shares of each position.
pub open spec fn evidence_entries(evidence: Seq<DataPositionEvidence>) -> Seq<
    (Seq<char>, Decimal),
> {
    evidence.map_values(|e: DataPositionEvidence| (e.token_id@, e.shares))
}

/// The positive totals of these tokens; a total that is not representable
/// refuses them all.
pub open spec fn positive_totals(tokens: Seq<TokenId>, entries: Seq<(Seq<char>, Decimal)>) -> Option<
    Seq<AccountRecoveryTokenBalance>,
>
    decreases tokens.len(),
{
    if tokens.len() == 0 {
        Some(Seq::empty())
    } else {
        match (
            positive_totals(tokens.drop_last(), entries),
            token_total(entries, tokens.last()@),
        ) {
            (Some(front), Some(total)) => Some(
                if total@ > 0 {
                    front.push(
                        AccountRecoveryTokenBalance { token_id: tokens.last(), shares: total },
                    )
                } else {
                    front
                },
            ),
            _ => None,
        }
    }
}

/// The positions of the data API, added up by token in the order of tokens;
/// tokens without shares are left out.
pub open spec fn aggregated(evidence: Seq<DataPositionEvidence>) -> Option<
    Seq<AccountRecoveryTokenBalance>,
> {
    positive_totals(
        without_repeats(arranged(evidence_tokens(evidence))),
        evidence_entries(evidence),
    )
}

proof fn lemma_totals_prefix(tokens: Seq<TokenId>, entries: Seq<(Seq<char>, Decimal)>, n: int)
    requires
        0 <= n <= tokens.len(),
        positive_totals(tokens.take(n), entries) is None,
    ensures
        positive_totals(tokens, entries) is None,
    decreases tokens.len() - n,
{
    if n == tokens.len() {
        assert(tokens.take(n) =~= tokens);
    } else {
        assert(tokens.take(n + 1).drop_last() =~= tokens.take(n));
        lemma_totals_prefix(tokens, entries, n + 1);
    }
}

/// Adds the positions of the data API up by token.
pub fn aggregate_positions(evidence: &Vec<DataPositionEvidence>) -> (r: Result<
    Vec<AccountRecoveryTokenBalance>,
    ExecutionError,
>)
    ensures
        match aggregated(evidence@) {
            Some(balances) => r is Ok && r->Ok_0@ == balances,
            None => r is Err && r->Err_0@ == ErrorView::DecimalOverflow,
        },
{
    let ghost entries = evidence_entries(evidence@);
    let mut all: Vec<TokenId> = Vec::new();
    let mut single: Vec<AccountRecoveryTokenBalance> = Vec::new();
    let mut i: usize = 0;
    while i < evidence.len()
        invariant
            i <= evidence.len(),
            all@ == evidence_tokens(evidence@).take(i as int),
            single@.len() == i,
            balance_entries(single@) == evidence_entries(evidence@).take(i as int),
        decreases evidence.len() - i,
    {
        all.push(evidence[i].token_id.clone());
        let ghost before = single@;
        single.push(
            AccountRecoveryTokenBalance {
                token_id: evidence[i].token_id.clone(),
                shares: evidence[i].shares,
            },
        );
        assert(all@ =~= evidence_tokens(evidence@).take(i + 1));
        assert forall|j: int| 0 <= j <= i implies #[trigger] balance_entries(single@)[j]
            == evidence_entries(evidence@).take(i + 1)[j] by {
            if j < i {
                assert(single@[j] == before[j]);
                assert(balance_entries(single@)[j] == balance_entries(before)[j]);
                assert(balance_entries(before)[j] == evidence_entries(evidence@).take(i as int)[j]);
            }
        }
        assert(balance_entries(single@) =~= evidence_entries(evidence@).take(i + 1));
        i = i + 1;
    }
    assert(all@ =~= evidence_tokens(evidence@));
    assert(balance_entries(single@) =~= entries);
    arrange(&mut all);
    let tokens = drop_repeats(&all);
    let mut balances: Vec<AccountRecoveryTokenBalance> = Vec::new();
    let mut k: usize = 0;
    assert(tokens@.take(0) =~= Seq::<TokenId>::empty());
    while k < tokens.len()
        invariant
            k <= tokens.len(),
            tokens@ == without_repeats(arranged(evidence_tokens(evidence@))),
            entries == evidence_entries(evidence@),
            balance_entries(single@) == entries,
            positive_totals(tokens@.take(k as int), entries) == Some(balances@),
        decreases tokens.len() - k,
    {
        assert(tokens@.take(k + 1).drop_last() =~= tokens@.take(k as int));
        assert(tokens@.take(k + 1).last() == tokens@[k as int]);
        match crate::account_recovery_reconciler::add_balances(&single, &tokens[k]) {
            Some(total) => {
                if total.is_positive() {
                    balances.push(
                        AccountRecoveryTokenBalance { token_id: tokens[k].clone(), shares: total },
                    );
                }
            },
            None => {
                proof {
                    lemma_totals_prefix(tokens@, entries, k + 1);
                }
                return Err(ExecutionError::DecimalOverflow);
            },
        }
        k = k + 1;
    }
    assert(tokens@.take(k as int) =~= tokens@);
    Ok(balances)
}

/// An aggregated position is a positive balance.
pub proof fn aggregated_positions_are_positive(evidence: Seq<DataPositionEvidence>, i: int)
    requires
        aggregated(evidence) is Some,
        0 <= i < aggregated(evidence)->0.len(),
    ensures
        aggregated(evidence)->0[i].shares@ > 0,
        token_total(evidence_entries(evidence), aggregated(evidence)->0[i].token_id@) == Some(
            aggregated(evidence)->0[i].shares,
        ),
{
    lemma_positive_totals(
        without_repeats(arranged(evidence_tokens(evidence))),
        evidence_entries(evidence),
        i,
    );
}

proof fn lemma_positive_totals(tokens: Seq<TokenId>, entries: Seq<(Seq<char>, Decimal)>, i: int)
    requires
        positive_totals(tokens, entries) is Some,
        0 <= i < positive_totals(tokens, entries)->0.len(),
    ensures
        positive_totals(tokens, entries)->0[i].shares@ > 0,
        token_total(entries, positive_totals(tokens, entries)->0[i].token_id@) == Some(
            positive_totals(tokens, entries)->0[i].shares,
        ),
    decreases tokens.len(),
{
    let front = positive_totals(tokens.drop_last(), entries)->0;
    if i < front.len() {
        lemma_positive_totals(tokens.drop_last(), entries, i);
    }
}

/// An open lot of the strategy ledger.
#[derive(Debug, PartialEq, Eq)]
pub struct StrategyPositionLot {
    pub strategy_position_lot_id: StrategyPositionLotId,
    pub token_id: TokenId,
    pub shares: Shares,
    pub cost_usd: Usd,
    pub opened_at: Timestamp,
}

/// The balance of a lot.
pub open spec fn balance_of(lot: StrategyPositionLot) -> AccountRecoveryLotBalance {
    AccountRecoveryLotBalance {
        strategy_position_lot_id: lot.strategy_position_lot_id,
        token_id: lot.token_id,
        shares: lot.shares,
        cost_usd: lot.cost_usd,
        opened_at: lot.opened_at,
    }
}

/// The balances of lots.
pub open spec fn balances_of(lots: Seq<StrategyPositionLot>) -> Seq<AccountRecoveryLotBalance> {
    lots.map_values(|lot: StrategyPositionLot| balance_of(lot))
}

fn lot_balances(lots: &Vec<StrategyPositionLot>) -> (r: Vec<AccountRecoveryLotBalance>)
    ensures
        r@ == balances_of(lots@),
{
    let mut r: Vec<AccountRecoveryLotBalance> = Vec::new();
    let mut i: usize = 0;
    while i < lots.len()
        invariant
            i <= lots.len(),
            r@ == balances_of(lots@).take(i as int),
        decreases lots.len() - i,
    {
        r.push(
            AccountRecoveryLotBalance {
                strategy_position_lot_id: lots[i].strategy_position_lot_id,
                token_id: lots[i].token_id.clone(),
                shares: lots[i].shares,
                cost_usd: lots[i].cost_usd,
                opened_at: lots[i].opened_at,
            },
        );
        assert(r@ =~= balances_of(lots@).take(i + 1));
        i = i + 1;
    }
    assert(r@ =~= balances_of(lots@));
    r
}

/// The tokens of venue positions, open lots and incident executions.
pub open spec fn involved_tokens(
    venue: Seq<AccountRecoveryTokenBalance>,
    lots: Seq<StrategyPositionLot>,
    executions: Seq<AccountRecoveryExecutionDelta>,
) -> Seq<TokenId> {
    balance_tokens(venue) + lots.map_values(|l: StrategyPositionLot| l.token_id)
        + executions.map_values(|e: AccountRecoveryExecutionDelta| e.token_id)
}

/// Collects the tokens that an assessment looks at: sorted, each once.
pub fn recovery_tokens(
    venue: &Vec<AccountRecoveryTokenBalance>,
    lots: &Vec<StrategyPositionLot>,
    executions: &Vec<AccountRecoveryExecutionDelta>,
) -> (r: Vec<TokenId>)
    ensures
        r@ == without_repeats(arranged(involved_tokens(venue@, lots@, executions@))),
{
    let ghost a = balance_tokens(venue@);
    let ghost b = lots@.map_values(|l: StrategyPositionLot| l.token_id);
    let ghost c = executions@.map_values(|e: AccountRecoveryExecutionDelta| e.token_id);
    let mut all: Vec<TokenId> = Vec::new();
    let mut i: usize = 0;
    while i < venue.len()
        invariant
            i <= venue.len(),
            a == balance_tokens(venue@),
            all@ == a.take(i as int),
        decreases venue.len() - i,
    {
        all.push(venue[i].token_id.clone());
        assert(all@ =~= a.take(i + 1));
        i = i + 1;
    }
    assert(all@ =~= a);
    let mut j: usize = 0;
    assert(a + b.take(0) =~= a);
    while j < lots.len()
        invariant
            j <= lots.len(),
            b == lots@.map_values(|l: StrategyPositionLot| l.token_id),
            all@ == a + b.take(j as int),
        decreases lots.len() - j,
    {
        all.push(lots[j].token_id.clone());
        assert(all@ =~= a + b.take(j + 1));
        j = j + 1;
    }
    assert(b.take(j as int) =~= b);
    let mut k: usize = 0;
    assert(a + b + c.take(0) =~= a + b);
    while k < executions.len()
        invariant
            k <= executions.len(),
            c == executions@.map_values(|e: AccountRecoveryExecutionDelta| e.token_id),
            all@ == a + b + c.take(k as int),
        decreases executions.len() - k,
    {
        all.push(executions[k].token_id.clone());
        assert(all@ =~= a + b + c.take(k + 1));
        k = k + 1;
    }
    assert(c.take(k as int) =~= c);
    arrange(&mut all);
    drop_repeats(&all)
}

proof fn lemma_repeats_keep(items: Seq<Ident>, i: int)
    requires
        0 <= i < items.len(),
    ensures
        exists|k: int|
            0 <= k < without_repeats(items).len() && (#[trigger] without_repeats(items)[k])@
                == items[i]@,
    decreases items.len(),
{
    let front = items.drop_last();
    let before = without_repeats(front);
    let after = without_repeats(items);
    if i < front.len() {
        lemma_repeats_keep(front, i);
        let k = choose|k: int| 0 <= k < before.len() && (#[trigger] before[k])@ == front[i]@;
        assert(after[k] == before[k]);
        assert(after[k]@ == items[i]@);
    } else if items.len() > 1 && items[items.len() - 2]@ == items.last()@ {
        lemma_repeats_keep(front, front.len() - 1);
        let k = choose|k: int|
            0 <= k < before.len() && (#[trigger] before[k])@ == front[front.len() - 1]@;
        assert(after[k]@ == items[i]@);
    } else {
        assert(after[before.len() as int]@ == items[i]@);
    }
}

/// Every token of a venue position, an open lot or an incident execution is
/// looked at.
pub proof fn no_token_is_overlooked(
    venue: Seq<AccountRecoveryTokenBalance>,
    lots: Seq<StrategyPositionLot>,
    executions: Seq<AccountRecoveryExecutionDelta>,
    i: int,
)
    requires
        0 <= i < involved_tokens(venue, lots, executions).len(),
    ensures
        exists|k: int|
            0 <= k < without_repeats(
                arranged(involved_tokens(venue, lots, executions)),
            ).len() && (#[trigger] without_repeats(
                arranged(involved_tokens(venue, lots, executions)),
            )[k])@ == involved_tokens(venue, lots, executions)[i]@,
{
    broadcast use vstd::seq_lib::group_to_multiset_ensures;

    let all = involved_tokens(venue, lots, executions);
    let sorted = arranged(all);
    crate::sorting::arranging_sorts(all);
    assert(all.to_multiset().count(all[i]) > 0);
    assert(sorted.to_multiset().count(all[i]) > 0);
    assert(sorted.contains(all[i]));
    let j = choose|j: int| 0 <= j < sorted.len() && sorted[j] == all[i];
    lemma_repeats_keep(sorted, j);
}

/// What the market registry knows of a market.
#[derive(Debug, PartialEq, Eq)]
pub struct CatalogMarket {
    pub market_id: MarketId,
    /// Event and primary category of the market.
    pub details: Option<(EventId, String)>,
    /// The tokens of the two outcomes.
    pub token_pair: Option<(TokenId, TokenId)>,
}

/// What the market registry knows of a token.
#[derive(Debug, PartialEq, Eq)]
pub struct CatalogToken {
    pub token_id: TokenId,
    pub market: Option<CatalogMarket>,
}

/// The market of a token, if it is catalogued.
pub open spec fn market_of(catalog: Seq<CatalogToken>, token: Seq<char>) -> Option<CatalogMarket>
    decreases catalog.len(),
{
    if catalog.len() == 0 {
        None
    } else {
        match market_of(catalog.drop_last(), token) {
            Some(market) => Some(market),
            None => if catalog.last().token_id@ == token {
                catalog.last().market
            } else {
                None
            },
        }
    }
}

fn find_market<'a>(catalog: &'a Vec<CatalogToken>, token: &TokenId) -> (r: Option<&'a CatalogMarket>)
    ensures
        match r {
            Some(market) => market_of(catalog@, token@) == Some(*market),
            None => market_of(catalog@, token@) is None,
        },
{
    let mut found: Option<&'a CatalogMarket> = None;
    let mut i: usize = 0;
    assert(catalog@.take(0) =~= Seq::<CatalogToken>::empty());
    while i < catalog.len()
        invariant
            i <= catalog.len(),
            match found {
                Some(market) => market_of(catalog@.take(i as int), token@) == Some(*market),
                None => market_of(catalog@.take(i as int), token@) is None,
            },
        decreases catalog.len() - i,
    {
        assert(catalog@.take(i + 1).drop_last() =~= catalog@.take(i as int));
        assert(catalog@.take(i + 1).last() == catalog@[i as int]);
        if found.is_none() && catalog[i].token_id.same(token) {
            found = match &catalog[i].market {
                Some(market) => Some(market),
                None => None,
            };
        }
        i = i + 1;
    }
    assert(catalog@.take(i as int) =~= catalog@);
    found
}

/// The tokens that are in no catalogued market.
pub open spec fn unmapped(tokens: Seq<TokenId>, catalog: Seq<CatalogToken>) -> Seq<TokenId>
    decreases tokens.len(),
{
    if tokens.len() == 0 {
        Seq::empty()
    } else {
        let front = unmapped(tokens.drop_last(), catalog);
        if market_of(catalog, tokens.last()@) is None {
            front.push(tokens.last())
        } else {
            front
        }
    }
}

fn unmapped_tokens(tokens: &Vec<TokenId>, catalog: &Vec<CatalogToken>) -> (r: Vec<TokenId>)
    ensures
        r@ == unmapped(tokens@, catalog@),
{
    let mut r: Vec<TokenId> = Vec::new();
    let mut i: usize = 0;
    assert(tokens@.take(0) =~= Seq::<TokenId>::empty());
    while i < tokens.len()
        invariant
            i <= tokens.len(),
            r@ == unmapped(tokens@.take(i as int), catalog@),
        decreases tokens.len() - i,
    {
        assert(tokens@.take(i + 1).drop_last() =~= tokens@.take(i as int));
        assert(tokens@.take(i + 1).last() == tokens@[i as int]);
        if find_market(catalog, &tokens[i]).is_none() {
            r.push(tokens[i].clone());
        }
        i = i + 1;
    }
    assert(tokens@.take(i as int) =~= tokens@);
    r
}

/// Which outcome of a market a token stands for.
pub fn outcome_side(token_id: &TokenId, yes: &TokenId, no: &TokenId) -> (r: Result<
    OutcomeSide,
    ExecutionError,
>)
    ensures
        outcome(r) == side_of(token_id@, yes@, no@),
{
    if token_id.same(yes) {
        Ok(OutcomeSide::Yes)
    } else if token_id.same(no) {
        Ok(OutcomeSide::No)
    } else {
        Err(recovery_error("recovery lot token differs from the market pair"))
    }
}

/// Which outcome of a market a token stands for.
pub open spec fn side_of(token: Seq<char>, yes: Seq<char>, no: Seq<char>) -> Result<
    OutcomeSide,
    ErrorView,
> {
    if token == yes {
        Ok(OutcomeSide::Yes)
    } else if token == no {
        Ok(OutcomeSide::No)
    } else {
        Err(recovery_refusal("recovery lot token differs from the market pair"@))
    }
}

/// Whether a lot still holds shares.
#[derive(Clone, Copy, Debug, PartialEq, Eq, Structural)]
pub enum PositionLedgerState {
    Open,
    Closed,
}

/// A lot that an incident adds to the strategy ledger.
#[derive(Debug, PartialEq, Eq)]
pub struct NewStrategyPositionLot {
    pub strategy_position_lot_id: StrategyPositionLotId,
    pub recovery_incident_id: AccountRecoveryIncidentId,
    pub execution_account_id: ExecutionAccountId,
    pub token_id: TokenId,
    pub market_id: MarketId,
    pub event_id: EventId,
    pub category: String,
    pub side: OutcomeSide,
    pub state: PositionLedgerState,
    pub shares: Shares,
    pub avg_price: Price,
    pub cost_usd: Usd,
    pub realized_pnl_usd: Usd,
    pub opened_at: Timestamp,
    pub closed_at: Option<Timestamp>,
}

/// When the execution with this identity became available; of several the last.
pub open spec fn execution_time(
    executions: Seq<AccountChainExecutionInfo>,
    id: AccountChainExecutionId,
) -> Option<Timestamp>
    decreases executions.len(),
{
    if executions.len() == 0 {
        None
    } else if executions.last().account_chain_execution_id == id {
        Some(executions.last().available_at)
    } else {
        execution_time(executions.drop_last(), id)
    }
}

fn find_execution_time(
    executions: &Vec<AccountChainExecutionInfo>,
    id: AccountChainExecutionId,
) -> (r: Option<Timestamp>)
    ensures
        r == execution_time(executions@, id),
{
    let mut found: Option<Timestamp> = None;
    let mut i: usize = 0;
    assert(executions@.take(0) =~= Seq::<AccountChainExecutionInfo>::empty());
    while i < executions.len()
        invariant
            i <= executions.len(),
            found == execution_time(executions@.take(i as int), id),
        decreases executions.len() - i,
    {
        assert(executions@.take(i + 1).drop_last() =~= executions@.take(i as int));
        assert(executions@.take(i + 1).last() == executions@[i as int]);
        if executions[i].account_chain_execution_id == id {
            found = Some(executions[i].available_at);
        }
        i = i + 1;
    }
    assert(executions@.take(i as int) =~= executions@);
    found
}

/// The ledger lot of a lot that the incident opened. Its price is what was paid
/// per acquired share; it is closed where nothing of it remains.
pub open spec fn materialized_lot(
    incident_id: AccountRecoveryIncidentId,
    account_id: ExecutionAccountId,
    created: AccountRecoveryCreatedLot,
    executions: Seq<AccountChainExecutionInfo>,
    catalog: Seq<CatalogToken>,
) -> Result<NewStrategyPositionLot, ErrorView> {
    match execution_time(executions, created.account_chain_execution_id) {
        None => Err(recovery_refusal("recovery lot has no chain execution"@)),
        Some(opened_at) => match market_of(catalog, created.token_id@) {
            None => Err(recovery_refusal("recovery lot token is not catalogued"@)),
            Some(market) => match market.details {
                None => Err(recovery_refusal("recovery lot market is not catalogued"@)),
                Some((event_id, category)) => match market.token_pair {
                    None => Err(recovery_refusal("recovery lot market has no token pair"@)),
                    Some((yes, no)) => match side_of(created.token_id@, yes@, no@) {
                        Err(error) => Err(error),
                        Ok(side) => match created.acquired_cost_usd.quotient(
                            created.acquired_shares,
                        ) {
                            None => Err(ErrorView::DecimalOverflow),
                            Some(avg_price) => Ok(
                                NewStrategyPositionLot {
                                    strategy_position_lot_id: created.strategy_position_lot_id,
                                    recovery_incident_id: incident_id,
                                    execution_account_id: account_id,
                                    token_id: created.token_id,
                                    market_id: market.market_id,
                                    event_id,
                                    category,
                                    side,
                                    state: if created.remaining_shares@ == 0 {
                                        PositionLedgerState::Closed
                                    } else {
                                        PositionLedgerState::Open
                                    },
                                    shares: created.remaining_shares,
                                    avg_price,
                                    cost_usd: created.remaining_cost_usd,
                                    realized_pnl_usd: created.realized_pnl_delta_usd,
                                    opened_at,
                                    closed_at: created.closed_at,
                                },
                            ),
                        },
                    },
                },
            },
        },
    }
}

fn materialize_lot(
    incident_id: AccountRecoveryIncidentId,
    account_id: ExecutionAccountId,
    created: &AccountRecoveryCreatedLot,
    executions: &Vec<AccountChainExecutionInfo>,
    catalog: &Vec<CatalogToken>,
) -> (r: Result<NewStrategyPositionLot, ExecutionError>)
    ensures
        outcome(r) == materialized_lot(incident_id, account_id, *created, executions@, catalog@),
{
    let opened_at = match find_execution_time(executions, created.account_chain_execution_id) {
        Some(at) => at,
        None => return Err(recovery_error("recovery lot has no chain execution")),
    };
    let market = match find_market(catalog, &created.token_id) {
        Some(market) => market,
        None => return Err(recovery_error("recovery lot token is not catalogued")),
    };
    let (event_id, category) = match &market.details {
        Some((event_id, category)) => (event_id, category),
        None => return Err(recovery_error("recovery lot market is not catalogued")),
    };
    let (yes, no) = match &market.token_pair {
        Some((yes, no)) => (yes, no),
        None => return Err(recovery_error("recovery lot market has no token pair")),
    };
    let side = match outcome_side(&created.token_id, yes, no) {
        Ok(side) => side,
        Err(error) => return Err(error),
    };
    let avg_price = match created.acquired_cost_usd.checked_div(created.acquired_shares) {
        Some(price) => price,
        None => return Err(ExecutionError::DecimalOverflow),
    };
    Ok(
        NewStrategyPositionLot {
            strategy_position_lot_id: created.strategy_position_lot_id,
            recovery_incident_id: incident_id,
            execution_account_id: account_id,
            token_id: created.token_id.clone(),
            market_id: market.market_id.clone(),
            event_id: event_id.clone(),
            category: category.clone(),
            side,
            state: if created.remaining_shares.is_zero() {
                PositionLedgerState::Closed
            } else {
                PositionLedgerState::Open
            },
            shares: created.remaining_shares,
            avg_price,
            cost_usd: created.remaining_cost_usd,
            realized_pnl_usd: created.realized_pnl_delta_usd,
            opened_at,
            closed_at: created.closed_at,
        },
    )
}

/// The ledger lots of all lots that the incident opened, or the first refusal.
pub open spec fn materialized(
    incident_id: AccountRecoveryIncidentId,
    account_id: ExecutionAccountId,
    created: Seq<AccountRecoveryCreatedLot>,
    executions: Seq<AccountChainExecutionInfo>,
    catalog: Seq<CatalogToken>,
) -> Result<Seq<NewStrategyPositionLot>, ErrorView>
    decreases created.len(),
{
    if created.len() == 0 {
        Ok(Seq::empty())
    } else {
        match materialized(incident_id, account_id, created.drop_last(), executions, catalog) {
            Err(error) => Err(error),
            Ok(front) => match materialized_lot(
                incident_id,
                account_id,
                created.last(),
                executions,
                catalog,
            ) {
                Err(error) => Err(error),
                Ok(lot) => Ok(front.push(lot)),
            },
        }
    }
}

proof fn lemma_materialized_prefix(
    incident_id: AccountRecoveryIncidentId,
    account_id: ExecutionAccountId,
    created: Seq<AccountRecoveryCreatedLot>,
    executions: Seq<AccountChainExecutionInfo>,
    catalog: Seq<CatalogToken>,
    n: int,
)
    requires
        0 <= n <= created.len(),
        materialized(incident_id, account_id, created.take(n), executions, catalog) is Err,
    ensures
        materialized(incident_id, account_id, created, executions, catalog) == materialized(
            incident_id,
            account_id,
            created.take(n),
            executions,
            catalog,
        ),
    decreases created.len() - n,
{
    if n == created.len() {
        assert(created.take(n) =~= created);
    } else {
        assert(created.take(n + 1).drop_last() =~= created.take(n));
        lemma_materialized_prefix(incident_id, account_id, created, executions, catalog, n + 1);
    }
}

/// Turns the lots that an incident opened into lots of the strategy ledger.
pub fn materialize_lots(
    incident_id: AccountRecoveryIncidentId,
    account_id: ExecutionAccountId,
    created: &Vec<AccountRecoveryCreatedLot>,
    executions: &Vec<AccountChainExecutionInfo>,
    catalog: &Vec<CatalogToken>,
) -> (r: Result<Vec<NewStrategyPositionLot>, ExecutionError>)
    ensures
        match materialized(incident_id, account_id, created@, executions@, catalog@) {
            Ok(lots) => r is Ok && r->Ok_0@ == lots,
            Err(error) => r is Err && r->Err_0@ == error,
        },
{
    let mut lots: Vec<NewStrategyPositionLot> = Vec::new();
    let mut i: usize = 0;
    assert(created@.take(0) =~= Seq::<AccountRecoveryCreatedLot>::empty());
    while i < created.len()
        invariant
            i <= created.len(),
            materialized(
                incident_id,
                account_id,
                created@.take(i as int),
                executions@,
                catalog@,
            ) == Ok::<Seq<NewStrategyPositionLot>, ErrorView>(lots@),
        decreases created.len() - i,
    {
        assert(created@.take(i + 1).drop_last() =~= created@.take(i as int));
        assert(created@.take(i + 1).last() == created@[i as int]);
        match materialize_lot(incident_id, account_id, &created[i], executions, catalog) {
            Ok(lot) => {
                lots.push(lot);
            },
            Err(error) => {
                proof {
                    lemma_materialized_prefix(
                        incident_id,
                        account_id,
                        created@,
                        executions@,
                        catalog@,
                        i + 1,
                    );
                }
                return Err(error);
            },
        }
        i = i + 1;
    }
    assert(created@.take(i as int) =~= created@);
    Ok(lots)
}

/// One reading of the venue, with the hashes of its two parts.
#[derive(Debug, PartialEq, Eq)]
pub struct VenueCapture {
    pub collateral_usd: Usd,
    pub open_order_ids: Vec<OrderId>,
    pub positions: Vec<AccountRecoveryTokenBalance>,
    pub clob_hash: ContentHash,
    pub data_hash: ContentHash,
}

/// What the chain says of the account at its finalized block.
#[derive(Debug, PartialEq, Eq)]
pub struct ChainSnapshot {
    pub block_number: u64,
    pub block_hash: ContentHash,
    pub source_hash: ContentHash,
    pub collateral_usd: Usd,
    pub positions: Vec<AccountRecoveryTokenBalance>,
}

/// Everything that is read for the reconciliation of an incident.
#[derive(Debug, PartialEq, Eq)]
pub struct RecoveryFacts {
    pub recovery_incident_id: AccountRecoveryIncidentId,
    pub execution_account_id: ExecutionAccountId,
    pub observed_at: Timestamp,
    pub pause_confirmed: bool,
    pub first: VenueCapture,
    pub second: VenueCapture,
    pub open_lots: Vec<StrategyPositionLot>,
    pub executions: Vec<AccountChainExecutionInfo>,
    pub catalog: Vec<CatalogToken>,
    pub chain: ChainSnapshot,
    pub settlement_snapshot_hash: ContentHash,
    pub pending_settlement_count: u64,
    pub clean_funder_blocker: Option<AccountCleanFunderBlockerEvidence>,
    pub reserved_usd: Usd,
    pub explicit_sell_allocations: Vec<AccountRecoverySellAllocation>,
}

impl RecoveryFacts {
    /// The assessed input. The venue counts as stable where both readings have
    /// the same hashes; the second reading is the one that is assessed.
    pub open spec fn assessed_input(self) -> InputView {
        let deltas = known_deltas(self.executions@);
        InputView {
            recovery_incident_id: self.recovery_incident_id,
            execution_account_id: self.execution_account_id,
            observed_at: self.observed_at,
            finalized_block_number: self.chain.block_number as i64,
            finalized_block_hash: self.chain.block_hash,
            clob_snapshot_hash: self.second.clob_hash,
            data_api_snapshot_hash: self.second.data_hash,
            chain_snapshot_hash: self.chain.source_hash,
            settlement_snapshot_hash: self.settlement_snapshot_hash,
            pause_confirmed: self.pause_confirmed,
            venue_snapshot_stable: self.first.clob_hash == self.second.clob_hash
                && self.first.data_hash == self.second.data_hash,
            clob_collateral_usd: self.second.collateral_usd,
            chain_collateral_usd: self.chain.collateral_usd,
            reserved_usd: self.reserved_usd,
            open_order_ids: self.second.open_order_ids@,
            unmapped_token_ids: unmapped(
                without_repeats(
                    arranged(
                        involved_tokens(self.second.positions@, self.open_lots@, deltas),
                    ),
                ),
                self.catalog@,
            ),
            invalid_execution_ids: invalid_executions(self.executions@),
            clean_funder_blocker: self.clean_funder_blocker,
            data_api_positions: self.second.positions@,
            chain_positions: self.chain.positions@,
            open_lots: balances_of(self.open_lots@),
            incident_executions: deltas,
            explicit_sell_allocations: self.explicit_sell_allocations@,
            pending_settlement_count: self.pending_settlement_count,
        }
    }
}

/// What is appended to an incident after a reconciliation.
#[derive(Debug, PartialEq, Eq)]
pub struct AccountRecoveryManifestDraft {
    pub recovery_incident_id: AccountRecoveryIncidentId,
    pub input: AccountRecoveryAssessmentInput,
    pub assessment: AccountRecoveryAssessment,
    pub created_lots: Vec<NewStrategyPositionLot>,
}

/// A manifest draft with its lists as sequences.
#[verifier::ext_equal]
pub ghost struct ManifestView {
    pub recovery_incident_id: AccountRecoveryIncidentId,
    pub input: InputView,
    pub assessment: AssessmentView,
    pub created_lots: Seq<NewStrategyPositionLot>,
}

impl View for AccountRecoveryManifestDraft {
    type V = ManifestView;

    open spec fn view(&self) -> ManifestView {
        ManifestView {
            recovery_incident_id: self.recovery_incident_id,
            input: self.input@,
            assessment: self.assessment@,
            created_lots: self.created_lots@,
        }
    }
}

/// The manifest that facts give. Lots are added to the ledger only where the
/// assessment found nothing.
pub open spec fn drafted(facts: RecoveryFacts) -> Result<ManifestView, ErrorView> {
    if facts.chain.block_number > i64::MAX {
        Err(recovery_refusal(crate::text::conversion_overflow()))
    } else {
        let input = facts.assessed_input();
        match input.assessed() {
            None => Err(ErrorView::DecimalOverflow),
            Some(assessment) => {
                let created = if assessment.findings.len() == 0 {
                    materialized(
                        facts.recovery_incident_id,
                        facts.execution_account_id,
                        assessment.created_lots,
                        facts.executions@,
                        facts.catalog@,
                    )
                } else {
                    Ok(Seq::empty())
                };
                match created {
                    Err(error) => Err(error),
                    Ok(created_lots) => Ok(
                        ManifestView {
                            recovery_incident_id: facts.recovery_incident_id,
                            input,
                            assessment,
                            created_lots,
                        },
                    ),
                }
            },
        }
    }
}

/// Refuses an incident of another account than the one that runs.
pub fn check_incident_account(incident: ExecutionAccountId, runtime: ExecutionAccountId) -> (r:
    Result<(), ExecutionError>)
    ensures
        outcome(r) == (if incident == runtime {
            Ok(())
        } else {
            Err(
                recovery_refusal("incident execution account differs from the runtime account"@),
            )
        }),
{
    if incident != runtime {
        return Err(recovery_error("incident execution account differs from the runtime account"));
    }
    Ok(())
}

/// Draws up the manifest of an incident.
pub fn reconcile_incident(facts: RecoveryFacts) -> (r: Result<
    AccountRecoveryManifestDraft,
    ExecutionError,
>)
    ensures
        match drafted(facts) {
            Ok(manifest) => r is Ok && r->Ok_0@ == manifest,
            Err(error) => r is Err && r->Err_0@ == error,
        },
{
    let ghost original = facts;
    if facts.chain.block_number > 9223372036854775807 {
        return Err(recovery_error("out of range integral type conversion attempted"));
    }
    let (deltas, invalid_execution_ids) = execution_deltas(&facts.executions);
    let tokens = recovery_tokens(&facts.second.positions, &facts.open_lots, &deltas);
    let unmapped_token_ids = unmapped_tokens(&tokens, &facts.catalog);
    let input = AccountRecoveryAssessmentInput {
        recovery_incident_id: facts.recovery_incident_id,
        execution_account_id: facts.execution_account_id,
        observed_at: facts.observed_at,
        finalized_block_number: facts.chain.block_number as i64,
        finalized_block_hash: facts.chain.block_hash,
        clob_snapshot_hash: facts.second.clob_hash,
        data_api_snapshot_hash: facts.second.data_hash,
        chain_snapshot_hash: facts.chain.source_hash,
        settlement_snapshot_hash: facts.settlement_snapshot_hash,
        pause_confirmed: facts.pause_confirmed,
        venue_snapshot_stable: facts.first.clob_hash == facts.second.clob_hash
            && facts.first.data_hash == facts.second.data_hash,
        clob_collateral_usd: facts.second.collateral_usd,
        chain_collateral_usd: facts.chain.collateral_usd,
        reserved_usd: facts.reserved_usd,
        open_order_ids: facts.second.open_order_ids,
        unmapped_token_ids,
        invalid_execution_ids,
        clean_funder_blocker: facts.clean_funder_blocker,
        data_api_positions: facts.second.positions,
        chain_positions: facts.chain.positions,
        open_lots: lot_balances(&facts.open_lots),
        incident_executions: deltas,
        explicit_sell_allocations: facts.explicit_sell_allocations,
        pending_settlement_count: facts.pending_settlement_count,
    };
    assert(input@ =~= original.assessed_input());
    let assessment = match AccountRecoveryReconciler::assess(input.clone()) {
        Ok(assessment) => assessment,
        Err(error) => return Err(error),
    };
    let created_lots = if assessment.converged() {
        match materialize_lots(
            facts.recovery_incident_id,
            facts.execution_account_id,
            &assessment.created_lots,
            &facts.executions,
            &facts.catalog,
        ) {
            Ok(lots) => lots,
            Err(error) => return Err(error),
        }
    } else {
        Vec::new()
    };
    let draft = AccountRecoveryManifestDraft {
        recovery_incident_id: facts.recovery_incident_id,
        input,
        assessment,
        created_lots,
    };
    assert(draft@ =~= drafted(original)->Ok_0);
    Ok(draft)
}

/// As long as anything is found no lot is added to the ledger.
pub proof fn only_convergence_adds_lots(facts: RecoveryFacts)
    requires
        drafted(facts) is Ok,
        drafted(facts)->Ok_0.assessment.findings.len() > 0,
    ensures
        drafted(facts)->Ok_0.created_lots.len() == 0,
{
}

/// What is on record of an incident.
#[derive(Clone, Copy, Debug, PartialEq, Eq, Structural)]
pub struct AccountRecoveryIncident {
    pub account_recovery_incident_id: AccountRecoveryIncidentId,
    pub execution_account_id: ExecutionAccountId,
    pub seal_hash: Option<ContentHash>,
    pub revision: i64,
}

/// The incident that an operator acts on, at the revision they saw.
pub fn require_incident(found: Option<AccountRecoveryIncident>, expected_revision: i64) -> (r:
    Result<AccountRecoveryIncident, ExecutionError>)
    ensures
        outcome(r) == (match found {
            None => Err(recovery_refusal("account recovery incident was not found"@)),
            Some(incident) => if incident.revision != expected_revision {
                Err(recovery_refusal("account recovery incident revision changed"@))
            } else {
                Ok(incident)
            },
        }),
{
    match found {
        None => Err(recovery_error("account recovery incident was not found")),
        Some(incident) => if incident.revision != expected_revision {
            Err(recovery_error("account recovery incident revision changed"))
        } else {
            Ok(incident)
        },
    }
}

/// Refuses a seal command for another incident.
pub fn check_seal_target(incident: AccountRecoveryIncidentId, command: AccountRecoveryIncidentId) -> (r:
    Result<(), ExecutionError>)
    ensures
        outcome(r) == (if incident == command {
            Ok(())
        } else {
            Err(recovery_refusal("seal command targets a different incident"@))
        }),
{
    if incident != command {
        return Err(recovery_error("seal command targets a different incident"));
    }
    Ok(())
}

/// The operator allocations with which an incident is reconciled once more
/// before it is sealed: those of its latest manifest.
pub fn seal_allocations(latest: Option<Vec<AccountRecoverySellAllocation>>) -> (r: Result<
    Vec<AccountRecoverySellAllocation>,
    ExecutionError,
>)
    ensures
        outcome(r) == (match latest {
            Some(allocations) => Ok(allocations),
            None => Err(recovery_refusal("seal requires a recovery manifest"@)),
        }),
{
    match latest {
        Some(allocations) => Ok(allocations),
        None => Err(recovery_error("seal requires a recovery manifest")),
    }
}

/// Refuses a seal of anything but the latest manifest, and of one that has not
/// converged.
pub fn check_seal_manifest(latest_manifest: u128, converged: bool, command_manifest: u128) -> (r:
    Result<(), ExecutionError>)
    ensures
        outcome(r) == (if latest_manifest == command_manifest && converged {
            Ok(())
        } else {
            Err(
                recovery_refusal(
                    "seal command does not reference the latest converged manifest"@,
                ),
            )
        }),
{
    if latest_manifest != command_manifest || !converged {
        return Err(
            recovery_error("seal command does not reference the latest converged manifest"),
        );
    }
    Ok(())
}

/// Refuses to lift the pause of an incident that is not sealed.
pub fn require_sealed(incident: AccountRecoveryIncident) -> (r: Result<(), ExecutionError>)
    ensures
        outcome(r) == (if incident.seal_hash is Some {
            Ok(())
        } else {
            Err(recovery_refusal("incident must be sealed before unpause"@))
        }),
{
    if incident.seal_hash.is_none() {
        return Err(recovery_error("incident must be sealed before unpause"));
    }
    Ok(())
}

/// What is due for an incident.
#[derive(Clone, Copy, Debug, PartialEq, Eq, Structural)]
pub enum IncidentStep {
    /// Reconcile it without operator allocations.
    Reconcile,
    /// Lift the pause and see whether that is confirmed.
    Unpause,
    /// Finalize it at this revision.
    Finalize { expected_revision: i64 },
    /// Nothing more for now.
    Rest,
}

/// What is due for an incident: it is reconciled until it is sealed, and only
/// then is the pause lifted; it is finalized once that is done.
pub open spec fn due_step(incident: AccountRecoveryIncident, unpaused: Option<bool>) -> IncidentStep {
    match unpaused {
        None => if incident.seal_hash is Some {
            IncidentStep::Unpause
        } else {
            IncidentStep::Reconcile
        },
        Some(done) => if done {
            IncidentStep::Finalize { expected_revision: incident.revision }
        } else {
            IncidentStep::Rest
        },
    }
}

/// What is due for an incident before its pause was looked at.
pub fn advance_incident(incident: AccountRecoveryIncident) -> (r: IncidentStep)
    ensures
        r == (if incident.seal_hash is None {
            IncidentStep::Reconcile
        } else {
            IncidentStep::Unpause
        }),
        r == due_step(incident, None),
{
    if incident.seal_hash.is_none() {
        IncidentStep::Reconcile
    } else {
        IncidentStep::Unpause
    }
}

/// What is due for a sealed incident after its pause was lifted.
pub fn conclude_incident(incident: AccountRecoveryIncident, unpaused: bool) -> (r: IncidentStep)
    ensures
        r == (if unpaused {
            IncidentStep::Finalize { expected_revision: incident.revision }
        } else {
            IncidentStep::Rest
        }),
        r == due_step(incident, Some(unpaused)),
{
    if unpaused {
        IncidentStep::Finalize { expected_revision: incident.revision }
    } else {
        IncidentStep::Rest
    }
}

/// A pause operation as it is shown with its incident.
#[derive(Clone, Copy, Debug, PartialEq, Eq, Structural)]
pub struct PauseOperationEntry {
    pub account_pause_operation_id: u128,
    pub created_at: Timestamp,
}

impl Keyed for PauseOperationEntry {
    open spec fn sort_key(&self) -> Seq<int> {
        seq![self.created_at@, self.account_pause_operation_id as int]
    }

    fn key_before(&self, other: &Self) -> (r: bool) {
        proof {
            crate::sorting::lemma_pair_key(
                self.created_at@,
                self.account_pause_operation_id as int,
                other.created_at@,
                other.account_pause_operation_id as int,
            );
        }
        self.created_at.before(other.created_at) || (self.created_at.until(other.created_at)
            && self.account_pause_operation_id < other.account_pause_operation_id)
    }
}

/// The pause and unpause operations of an incident, in the order in which they
/// were made.
pub fn incident_operations(
    pause: Vec<PauseOperationEntry>,
    unpause: Vec<PauseOperationEntry>,
) -> (r: Vec<PauseOperationEntry>)
    ensures
        r@ == arranged(pause@ + unpause@),
{
    let ghost first = pause@;
    let mut all = pause;
    let mut i: usize = 0;
    assert(first + unpause@.take(0) =~= first);
    while i < unpause.len()
        invariant
            i <= unpause.len(),
            all@ == first + unpause@.take(i as int),
        decreases unpause.len() - i,
    {
        all.push(unpause[i]);
        assert(all@ =~= first + unpause@.take(i + 1));
        i = i + 1;
    }
    assert(unpause@.take(i as int) =~= unpause@);
    arrange(&mut all);
    all
}

/// An open order as the venue reports it.
#[derive(Debug, PartialEq, Eq)]
pub struct OpenOrder {
    pub order_id: OrderId,
    /// The order's canonical serialization.
    pub content: String,
}

impl Keyed for OpenOrder {
    open spec fn sort_key(&self) -> Seq<int> {
        text_key(self.order_id@)
    }

    fn key_before(&self, other: &Self) -> (r: bool) {
        text_before(self.order_id.text.as_str(), other.order_id.text.as_str())
    }
}

/// The identity of each order.
pub open spec fn order_ids(orders: Seq<OpenOrder>) -> Seq<OrderId> {
    orders.map_values(|o: OpenOrder| o.order_id)
}

/// Puts a reading of the venue into the order over which it is hashed: open
/// orders by identity, positions by token and condition.
pub fn order_venue_reading(orders: &mut Vec<OpenOrder>, evidence: &mut Vec<DataPositionEvidence>)
    ensures
        final(orders)@ == arranged(old(orders)@),
        final(evidence)@ == arranged(old(evidence)@),
{
    arrange(orders);
    arrange(evidence);
}

/// The capture of a venue reading that is in order.
pub fn capture_venue(
    collateral_usd: Usd,
    orders: &Vec<OpenOrder>,
    evidence: &Vec<DataPositionEvidence>,
    clob_hash: ContentHash,
    data_hash: ContentHash,
) -> (r: Result<VenueCapture, ExecutionError>)
    ensures
        match aggregated(evidence@) {
            Some(balances) => r is Ok && r->Ok_0.collateral_usd == collateral_usd
                && r->Ok_0.open_order_ids@ == order_ids(orders@) && r->Ok_0.positions@ == balances
                && r->Ok_0.clob_hash == clob_hash && r->Ok_0.data_hash == data_hash,
            None => r is Err && r->Err_0@ == ErrorView::DecimalOverflow,
        },
{
    let positions = match aggregate_positions(evidence) {
        Ok(positions) => positions,
        Err(error) => return Err(error),
    };
    let mut open_order_ids: Vec<OrderId> = Vec::new();
    let mut i: usize = 0;
    while i < orders.len()
        invariant
            i <= orders.len(),
            open_order_ids@ == order_ids(orders@).take(i as int),
        decreases orders.len() - i,
    {
        open_order_ids.push(orders[i].order_id.clone());
        assert(open_order_ids@ =~= order_ids(orders@).take(i + 1));
        i = i + 1;
    }
    assert(open_order_ids@ =~= order_ids(orders@));
    Ok(VenueCapture { collateral_usd, open_order_ids, positions, clob_hash, data_hash })
}

} // verus!
