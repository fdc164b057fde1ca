//! Deterministic account-recovery assessment with explicit ambiguous-lot
//! allocation.
use vstd::prelude::*;

use crate::decimal::{Decimal, Shares, Usd};
use crate::error::{ErrorView, ExecutionError};
use crate::sorting::{
    arrange, arranged, arranging_forgets_order, drop_equal_neighbours, drop_repeats, keyed_apart,
    lemma_pair_key, text_before, text_key, without_equal_neighbours, without_repeats, Keyed,
};
use crate::time::Timestamp;
use crate::types::{
    duplicates, AccountChainExecutionId, AccountRecoveryIncidentId, ContentHash, Duplicate,
    ExecutionAccountId, Ident, OrderId, StrategyPositionLotId, TokenId,
};

verus! {

/// Balance of one outcome token.
#[derive(Debug, PartialEq, Eq)]
pub struct AccountRecoveryTokenBalance {
    pub token_id: TokenId,
    pub shares: Shares,
}

/// An open lot of the strategy ledger.
#[derive(Debug, PartialEq, Eq)]
pub struct AccountRecoveryLotBalance {
    pub strategy_position_lot_id: StrategyPositionLotId,
    pub token_id: TokenId,
    pub shares: Shares,
    pub cost_usd: Usd,
    pub opened_at: Timestamp,
}

/// A finalized execution that belongs to the incident.
#[derive(Debug, PartialEq, Eq)]
pub struct AccountRecoveryExecutionDelta {
    pub account_chain_execution_id: AccountChainExecutionId,
    /// Identity of the lot that this execution opens when it is a purchase.
    pub recovery_lot_id: StrategyPositionLotId,
    pub token_id: TokenId,
    pub shares_delta: Decimal,
    pub principal_usd: Usd,
    pub exact_fee_usd: Usd,
    pub available_at: Timestamp,
}

/// An operator's decision from which lot a sale is taken.
#[derive(Clone, Copy, Debug, PartialEq, Eq)]
pub struct AccountRecoverySellAllocation {
    pub account_chain_execution_id: AccountChainExecutionId,
    pub strategy_position_lot_id: StrategyPositionLotId,
    pub shares: Shares,
}

/// What the incident does to an existing lot.
#[derive(Debug, PartialEq, Eq)]
pub struct AccountRecoveryLotAllocation {
    pub strategy_position_lot_id: StrategyPositionLotId,
    pub token_id: TokenId,
    pub before_shares: Shares,
    pub after_shares: Shares,
    pub before_cost_usd: Usd,
    pub after_cost_usd: Usd,
    pub realized_pnl_delta_usd: Usd,
    pub closed_at: Option<Timestamp>,
}

/// A lot that the incident opened.
#[derive(Debug, PartialEq, Eq)]
pub struct AccountRecoveryCreatedLot {
    pub strategy_position_lot_id: StrategyPositionLotId,
    pub account_chain_execution_id: AccountChainExecutionId,
    pub token_id: TokenId,
    pub acquired_shares: Shares,
    pub remaining_shares: Shares,
    pub acquired_cost_usd: Usd,
    pub remaining_cost_usd: Usd,
    pub realized_pnl_delta_usd: Usd,
    pub closed_at: Option<Timestamp>,
}

/// The account's part in a chain execution.
#[derive(Clone, Copy, Debug, PartialEq, Eq, Structural)]
pub enum AccountChainExecutionRole {
    Maker,
    Taker,
    SelfMatch,
}

/// An execution after which only a clean funder can go on.
#[derive(Clone, Copy, Debug, PartialEq, Eq)]
pub struct AccountCleanFunderBlockerEvidence {
    pub account_chain_execution_id: AccountChainExecutionId,
    pub role: AccountChainExecutionRole,
    pub evidence_hash: ContentHash,
}

/// Everything that an assessment looks at.
#[derive(Debug, PartialEq, Eq)]
pub struct AccountRecoveryAssessmentInput {
    pub recovery_incident_id: AccountRecoveryIncidentId,
    pub execution_account_id: ExecutionAccountId,
    pub observed_at: Timestamp,
    pub finalized_block_number: i64,
    pub finalized_block_hash: ContentHash,
    pub clob_snapshot_hash: ContentHash,
    pub data_api_snapshot_hash: ContentHash,
    pub chain_snapshot_hash: ContentHash,
    pub settlement_snapshot_hash: ContentHash,
    pub pause_confirmed: bool,
    pub venue_snapshot_stable: bool,
    pub clob_collateral_usd: Usd,
    pub chain_collateral_usd: Usd,
    pub reserved_usd: Usd,
    pub open_order_ids: Vec<OrderId>,
    pub unmapped_token_ids: Vec<TokenId>,
    pub invalid_execution_ids: Vec<AccountChainExecutionId>,
    pub clean_funder_blocker: Option<AccountCleanFunderBlockerEvidence>,
    pub data_api_positions: Vec<AccountRecoveryTokenBalance>,
    pub chain_positions: Vec<AccountRecoveryTokenBalance>,
    pub open_lots: Vec<AccountRecoveryLotBalance>,
    pub incident_executions: Vec<AccountRecoveryExecutionDelta>,
    pub explicit_sell_allocations: Vec<AccountRecoverySellAllocation>,
    pub pending_settlement_count: u64,
}

/// A reason why the account is not reconciled.
#[derive(Debug, PartialEq, Eq)]
pub enum AccountRecoveryMismatch {
    PauseIncomplete,
    VenueSnapshotUnstable,
    OpenOrdersPresent { order_ids: Vec<OrderId> },
    TokenMetadataMissing { token_id: TokenId },
    CleanFunderRequired {
        account_chain_execution_id: AccountChainExecutionId,
        role: AccountChainExecutionRole,
    },
    IncidentExecutionIncomplete { account_chain_execution_id: AccountChainExecutionId },
    ReservedCapitalPresent { reserved_usd: Usd },
    CollateralMismatch { clob_usd: Usd, chain_usd: Usd },
    PositionSourceMismatch { token_id: TokenId, data_api_shares: Shares, chain_shares: Shares },
    PendingSettlement { count: u64 },
    LotAllocationInvalid { account_chain_execution_id: AccountChainExecutionId },
    LotAllocationRequired {
        account_chain_execution_id: AccountChainExecutionId,
        token_id: TokenId,
        sold_shares: Shares,
        candidate_lot_ids: Vec<StrategyPositionLotId>,
    },
    PositionLedgerMismatch { token_id: TokenId, expected_shares: Shares, venue_shares: Shares },
}

/// A mismatch with texts and lists as sequences.
#[verifier::ext_equal]
pub ghost enum MismatchView {
    PauseIncomplete,
    VenueSnapshotUnstable,
    OpenOrdersPresent { order_ids: Seq<Ident> },
    TokenMetadataMissing { token_id: Seq<char> },
    CleanFunderRequired {
        account_chain_execution_id: AccountChainExecutionId,
        role: AccountChainExecutionRole,
    },
    IncidentExecutionIncomplete { account_chain_execution_id: AccountChainExecutionId },
    ReservedCapitalPresent { reserved_usd: Usd },
    CollateralMismatch { clob_usd: Usd, chain_usd: Usd },
    PositionSourceMismatch { token_id: Seq<char>, data_api_shares: Shares, chain_shares: Shares },
    PendingSettlement { count: u64 },
    LotAllocationInvalid { account_chain_execution_id: AccountChainExecutionId },
    LotAllocationRequired {
        account_chain_execution_id: AccountChainExecutionId,
        token_id: Seq<char>,
        sold_shares: Shares,
        candidate_lot_ids: Seq<StrategyPositionLotId>,
    },
    PositionLedgerMismatch { token_id: Seq<char>, expected_shares: Shares, venue_shares: Shares },
}

impl View for AccountRecoveryMismatch {
    type V = MismatchView;

    open spec fn view(&self) -> MismatchView {
        match *self {
            AccountRecoveryMismatch::PauseIncomplete => MismatchView::PauseIncomplete,
            AccountRecoveryMismatch::VenueSnapshotUnstable => MismatchView::VenueSnapshotUnstable,
            AccountRecoveryMismatch::OpenOrdersPresent { order_ids } =>
                MismatchView::OpenOrdersPresent { order_ids: order_ids@ },
            AccountRecoveryMismatch::TokenMetadataMissing { token_id } =>
                MismatchView::TokenMetadataMissing { token_id: token_id@ },
            AccountRecoveryMismatch::CleanFunderRequired { account_chain_execution_id, role } =>
                MismatchView::CleanFunderRequired { account_chain_execution_id, role },
            AccountRecoveryMismatch::IncidentExecutionIncomplete { account_chain_execution_id } =>
                MismatchView::IncidentExecutionIncomplete { account_chain_execution_id },
            AccountRecoveryMismatch::ReservedCapitalPresent { reserved_usd } =>
                MismatchView::ReservedCapitalPresent { reserved_usd },
            AccountRecoveryMismatch::CollateralMismatch { clob_usd, chain_usd } =>
                MismatchView::CollateralMismatch { clob_usd, chain_usd },
            AccountRecoveryMismatch::PositionSourceMismatch {
                token_id,
                data_api_shares,
                chain_shares,
            } => MismatchView::PositionSourceMismatch {
                token_id: token_id@,
                data_api_shares,
                chain_shares,
            },
            AccountRecoveryMismatch::PendingSettlement { count } =>
                MismatchView::PendingSettlement { count },
            AccountRecoveryMismatch::LotAllocationInvalid { account_chain_execution_id } =>
                MismatchView::LotAllocationInvalid { account_chain_execution_id },
            AccountRecoveryMismatch::LotAllocationRequired {
                account_chain_execution_id,
                token_id,
                sold_shares,
                candidate_lot_ids,
            } => MismatchView::LotAllocationRequired {
                account_chain_execution_id,
                token_id: token_id@,
                sold_shares,
                candidate_lot_ids: candidate_lot_ids@,
            },
            AccountRecoveryMismatch::PositionLedgerMismatch {
                token_id,
                expected_shares,
                venue_shares,
            } => MismatchView::PositionLedgerMismatch {
                token_id: token_id@,
                expected_shares,
                venue_shares,
            },
        }
    }
}

/// Mismatches with texts and lists as sequences.
pub open spec fn views(mismatches: Seq<AccountRecoveryMismatch>) -> Seq<MismatchView> {
    mismatches.map_values(|m: AccountRecoveryMismatch| m@)
}

proof fn lemma_views_push(mismatches: Seq<AccountRecoveryMismatch>, next: AccountRecoveryMismatch)
    ensures
        views(mismatches.push(next)) == views(mismatches).push(next@),
{
    assert(views(mismatches.push(next)) =~= views(mismatches).push(next@));
}

/// A lot while the incident's executions are applied to the ledger.
#[derive(Debug, PartialEq, Eq)]
pub enum WorkingLot {
    Existing(AccountRecoveryLotAllocation),
    Created(AccountRecoveryCreatedLot),
}

impl WorkingLot {
    /// The lot's identity.
    pub open spec fn spec_id(self) -> StrategyPositionLotId {
        match self {
            WorkingLot::Existing(lot) => lot.strategy_position_lot_id,
            WorkingLot::Created(lot) => lot.strategy_position_lot_id,
        }
    }

    /// The token that the lot holds.
    pub open spec fn spec_token(self) -> TokenId {
        match self {
            WorkingLot::Existing(lot) => lot.token_id,
            WorkingLot::Created(lot) => lot.token_id,
        }
    }

    /// The shares still in the lot.
    pub open spec fn spec_remaining(self) -> Shares {
        match self {
            WorkingLot::Existing(lot) => lot.after_shares,
            WorkingLot::Created(lot) => lot.remaining_shares,
        }
    }

    /// The cost still in the lot.
    pub open spec fn spec_cost(self) -> Usd {
        match self {
            WorkingLot::Existing(lot) => lot.after_cost_usd,
            WorkingLot::Created(lot) => lot.remaining_cost_usd,
        }
    }

    /// The profit that the incident realized on the lot.
    pub open spec fn spec_pnl(self) -> Usd {
        match self {
            WorkingLot::Existing(lot) => lot.realized_pnl_delta_usd,
            WorkingLot::Created(lot) => lot.realized_pnl_delta_usd,
        }
    }

    /// The lot with these amounts in it; one with no shares left is closed at
    /// `exited_at`.
    pub open spec fn with_amounts(
        self,
        remaining: Shares,
        cost: Usd,
        pnl: Usd,
        exited_at: Timestamp,
    ) -> WorkingLot {
        match self {
            WorkingLot::Existing(lot) => WorkingLot::Existing(
                AccountRecoveryLotAllocation {
                    after_shares: remaining,
                    after_cost_usd: cost,
                    realized_pnl_delta_usd: pnl,
                    closed_at: if remaining@ == 0 {
                        Some(exited_at)
                    } else {
                        lot.closed_at
                    },
                    ..lot
                },
            ),
            WorkingLot::Created(lot) => WorkingLot::Created(
                AccountRecoveryCreatedLot {
                    remaining_shares: remaining,
                    remaining_cost_usd: cost,
                    realized_pnl_delta_usd: pnl,
                    closed_at: if remaining@ == 0 {
                        Some(exited_at)
                    } else {
                        lot.closed_at
                    },
                    ..lot
                },
            ),
        }
    }

    /// The lot after `deducted` of `sold` shares were taken from it. The cost
    /// goes out in proportion to the lot's shares, the proceeds come in in
    /// proportion to the sale. `None` where an amount is not representable.
    pub open spec fn after_sale(
        self,
        deducted: Decimal,
        sold: Decimal,
        net_proceeds: Usd,
        exited_at: Timestamp,
    ) -> Option<WorkingLot> {
        match scaled(self.spec_cost(), deducted, self.spec_remaining()) {
            None => None,
            Some(cost_removed) => match scaled(net_proceeds, deducted, sold) {
                None => None,
                Some(proceeds) => match proceeds.difference(cost_removed) {
                    None => None,
                    Some(gain) => match (
                        self.spec_remaining().difference(deducted),
                        self.spec_cost().difference(cost_removed),
                        self.spec_pnl().sum(gain),
                    ) {
                        (Some(remaining), Some(cost), Some(pnl)) => Some(
                            self.with_amounts(remaining, cost, pnl, exited_at),
                        ),
                        _ => None,
                    },
                },
            },
        }
    }

    fn id(&self) -> (r: StrategyPositionLotId)
        ensures
            r == self.spec_id(),
    {
        match self {
            WorkingLot::Existing(lot) => lot.strategy_position_lot_id,
            WorkingLot::Created(lot) => lot.strategy_position_lot_id,
        }
    }

    fn token(&self) -> (r: &TokenId)
        ensures
            *r == self.spec_token(),
    {
        match self {
            WorkingLot::Existing(lot) => &lot.token_id,
            WorkingLot::Created(lot) => &lot.token_id,
        }
    }

    fn remaining(&self) -> (r: Shares)
        ensures
            r == self.spec_remaining(),
    {
        match self {
            WorkingLot::Existing(lot) => lot.after_shares,
            WorkingLot::Created(lot) => lot.remaining_shares,
        }
    }

    fn cost(&self) -> (r: Usd)
        ensures
            r == self.spec_cost(),
    {
        match self {
            WorkingLot::Existing(lot) => lot.after_cost_usd,
            WorkingLot::Created(lot) => lot.remaining_cost_usd,
        }
    }

    fn pnl(&self) -> (r: Usd)
        ensures
            r == self.spec_pnl(),
    {
        match self {
            WorkingLot::Existing(lot) => lot.realized_pnl_delta_usd,
            WorkingLot::Created(lot) => lot.realized_pnl_delta_usd,
        }
    }

    fn rebuilt(&self, remaining: Shares, cost: Usd, pnl: Usd, exited_at: Timestamp) -> (r: WorkingLot)
        ensures
            r == self.with_amounts(remaining, cost, pnl, exited_at),
    {
        let closed = remaining.is_zero();
        match self {
            WorkingLot::Existing(lot) => WorkingLot::Existing(
                AccountRecoveryLotAllocation {
                    strategy_position_lot_id: lot.strategy_position_lot_id,
                    token_id: lot.token_id.clone(),
                    before_shares: lot.before_shares,
                    after_shares: remaining,
                    before_cost_usd: lot.before_cost_usd,
                    after_cost_usd: cost,
                    realized_pnl_delta_usd: pnl,
                    closed_at: if closed {
                        Some(exited_at)
                    } else {
                        lot.closed_at
                    },
                },
            ),
            WorkingLot::Created(lot) => WorkingLot::Created(
                AccountRecoveryCreatedLot {
                    strategy_position_lot_id: lot.strategy_position_lot_id,
                    account_chain_execution_id: lot.account_chain_execution_id,
                    token_id: lot.token_id.clone(),
                    acquired_shares: lot.acquired_shares,
                    remaining_shares: remaining,
                    acquired_cost_usd: lot.acquired_cost_usd,
                    remaining_cost_usd: cost,
                    realized_pnl_delta_usd: pnl,
                    closed_at: if closed {
                        Some(exited_at)
                    } else {
                        lot.closed_at
                    },
                },
            ),
        }
    }

    fn apply_exit(
        &self,
        deducted: Decimal,
        sold: Decimal,
        net_proceeds: Usd,
        exited_at: Timestamp,
    ) -> (r: Option<WorkingLot>)
        ensures
            r == self.after_sale(deducted, sold, net_proceeds, exited_at),
    {
        let cost_removed = match scale(self.cost(), deducted, self.remaining()) {
            Some(value) => value,
            None => {
                return None;
            },
        };
        let proceeds = match scale(net_proceeds, deducted, sold) {
            Some(value) => value,
            None => {
                return None;
            },
        };
        let gain = match proceeds.checked_sub(cost_removed) {
            Some(value) => value,
            None => {
                return None;
            },
        };
        match (
            self.remaining().checked_sub(deducted),
            self.cost().checked_sub(cost_removed),
            self.pnl().checked_add(gain),
        ) {
            (Some(remaining), Some(cost), Some(pnl)) => Some(
                self.rebuilt(remaining, cost, pnl, exited_at),
            ),
            _ => None,
        }
    }
}

/// `amount * part / whole`, or `None` where a step is not representable.
pub open spec fn scaled(amount: Decimal, part: Decimal, whole: Decimal) -> Option<Decimal> {
    match amount.product(part) {
        Some(product) => product.quotient(whole),
        None => None,
    }
}

fn scale(amount: Decimal, part: Decimal, whole: Decimal) -> (r: Option<Decimal>)
    ensures
        r == scaled(amount, part, whole),
{
    match amount.checked_mul(part) {
        Some(product) => product.checked_div(whole),
        None => None,
    }
}

/// The lots of a token that still hold shares: identity and shares, in ledger
/// order.
pub open spec fn open_in(lots: Seq<WorkingLot>, token: Seq<char>) -> Seq<(
    StrategyPositionLotId,
    Decimal,
)>
    decreases lots.len(),
{
    if lots.len() == 0 {
        Seq::empty()
    } else {
        let front = open_in(lots.drop_last(), token);
        let lot = lots.last();
        if lot.spec_token()@ == token && lot.spec_remaining()@ > 0 {
            front.push((lot.spec_id(), lot.spec_remaining()))
        } else {
            front
        }
    }
}

/// The shares of these lots added up, or `None` where that is not
/// representable.
pub open spec fn total_shares(open: Seq<(StrategyPositionLotId, Decimal)>) -> Option<Decimal>
    decreases open.len(),
{
    if open.len() == 0 {
        Some(Decimal::of_parts(0, 0))
    } else {
        match total_shares(open.drop_last()) {
            Some(total) => total.sum(open.last().1),
            None => None,
        }
    }
}

/// The operator's allocations for one execution.
pub open spec fn chosen(
    explicit: Seq<AccountRecoverySellAllocation>,
    execution: AccountChainExecutionId,
) -> Seq<AccountRecoverySellAllocation>
    decreases explicit.len(),
{
    if explicit.len() == 0 {
        Seq::empty()
    } else {
        let front = chosen(explicit.drop_last(), execution);
        if explicit.last().account_chain_execution_id == execution {
            front.push(explicit.last())
        } else {
            front
        }
    }
}

/// The sale taken from the lots in order, from each as much as it holds until
/// nothing is left to take.
pub open spec fn first_in_first_out(
    open: Seq<(StrategyPositionLotId, Decimal)>,
    remaining: Decimal,
) -> Option<Seq<(StrategyPositionLotId, Decimal)>>
    decreases open.len(),
{
    if open.len() == 0 || remaining@ <= 0 {
        Some(Seq::empty())
    } else {
        let part = open[0].1.lesser(remaining);
        match remaining.difference(part) {
            None => None,
            Some(rest) => match first_in_first_out(open.drop_first(), rest) {
                None => None,
                Some(tail) => Some(seq![(open[0].0, part)] + tail),
            },
        }
    }
}

/// The shares that the first of these lots with this identity holds.
pub open spec fn shares_of(
    open: Seq<(StrategyPositionLotId, Decimal)>,
    lot: StrategyPositionLotId,
) -> Option<Decimal>
    decreases open.len(),
{
    if open.len() == 0 {
        None
    } else {
        match shares_of(open.drop_last(), lot) {
            Some(shares) => Some(shares),
            None => if open.last().0 == lot {
                Some(open.last().1)
            } else {
                None
            },
        }
    }
}

/// Whether an allocation names one of the open lots, takes a positive number
/// of shares and no more than the lot holds, and names no lot that an earlier
/// one named.
pub open spec fn allocation_ok(
    earlier: Seq<AccountRecoverySellAllocation>,
    allocation: AccountRecoverySellAllocation,
    open: Seq<(StrategyPositionLotId, Decimal)>,
) -> bool {
    &&& shares_of(open, allocation.strategy_position_lot_id) is Some
    &&& allocation.shares@ > 0
    &&& allocation.shares@ <= shares_of(open, allocation.strategy_position_lot_id)->0@
    &&& forall|i: int|
        0 <= i < earlier.len() ==> (#[trigger] earlier[i]).strategy_position_lot_id
            != allocation.strategy_position_lot_id
}

/// What a list of explicit allocations amounts to.
pub ghost enum Selection {
    /// One of them is not acceptable.
    Invalid,
    /// Their total is not representable.
    Overflow,
    /// They are acceptable and allocate this many shares.
    Total(Decimal),
}

/// What a list of explicit allocations amounts to.
pub open spec fn selection(
    allocations: Seq<AccountRecoverySellAllocation>,
    open: Seq<(StrategyPositionLotId, Decimal)>,
) -> Selection
    decreases allocations.len(),
{
    if allocations.len() == 0 {
        Selection::Total(Decimal::of_parts(0, 0))
    } else {
        match selection(allocations.drop_last(), open) {
            Selection::Total(total) => if allocation_ok(
                allocations.drop_last(),
                allocations.last(),
                open,
            ) {
                match total.sum(allocations.last().shares) {
                    Some(more) => Selection::Total(more),
                    None => Selection::Overflow,
                }
            } else {
                Selection::Invalid
            },
            other => other,
        }
    }
}

/// Explicit allocations as deductions.
pub open spec fn as_deductions(allocations: Seq<AccountRecoverySellAllocation>) -> Seq<
    (StrategyPositionLotId, Decimal),
> {
    allocations.map_values(
        |a: AccountRecoverySellAllocation| (a.strategy_position_lot_id, a.shares),
    )
}

/// How a sale is to be booked.
pub ghost enum SalePlan {
    /// An amount is not representable.
    Overflow,
    /// Not at all, for this reason.
    Blocked(MismatchView),
    /// By these deductions.
    Deduct(Seq<(StrategyPositionLotId, Decimal)>),
}

/// How a sale of `sold` shares is to be booked against the open lots of its
/// token.
///
/// More than there is cannot be sold. Where only one lot is open, or where
/// everything is sold, the sale determines its own allocation and an explicit
/// one is refused. Otherwise the operator has to allocate it completely.
pub open spec fn sale_plan(
    open: Seq<(StrategyPositionLotId, Decimal)>,
    sold: Decimal,
    allocations: Seq<AccountRecoverySellAllocation>,
    execution: AccountChainExecutionId,
    token: Seq<char>,
) -> SalePlan {
    let invalid = MismatchView::LotAllocationInvalid { account_chain_execution_id: execution };
    match total_shares(open) {
        None => SalePlan::Overflow,
        Some(available) => if sold@ > available@ {
            SalePlan::Blocked(
                MismatchView::IncidentExecutionIncomplete {
                    account_chain_execution_id: execution,
                },
            )
        } else if open.len() == 1 || sold@ == available@ {
            if allocations.len() > 0 {
                SalePlan::Blocked(invalid)
            } else {
                match first_in_first_out(open, sold) {
                    None => SalePlan::Overflow,
                    Some(deductions) => SalePlan::Deduct(deductions),
                }
            }
        } else if allocations.len() == 0 {
            SalePlan::Blocked(
                MismatchView::LotAllocationRequired {
                    account_chain_execution_id: execution,
                    token_id: token,
                    sold_shares: sold,
                    candidate_lot_ids: open.map_values(
                        |p: (StrategyPositionLotId, Decimal)| p.0,
                    ),
                },
            )
        } else {
            match selection(allocations, open) {
                Selection::Invalid => SalePlan::Blocked(invalid),
                Selection::Overflow => SalePlan::Overflow,
                Selection::Total(total) => if total@ == sold@ {
                    SalePlan::Deduct(as_deductions(allocations))
                } else {
                    SalePlan::Blocked(invalid)
                },
            }
        },
    }
}

/// Where the first lot of a token with this identity stands.
pub open spec fn position_of(
    lots: Seq<WorkingLot>,
    token: Seq<char>,
    id: StrategyPositionLotId,
) -> Option<int>
    decreases lots.len(),
{
    if lots.len() == 0 {
        None
    } else {
        match position_of(lots.drop_last(), token, id) {
            Some(position) => Some(position),
            None => if lots.last().spec_token()@ == token && lots.last().spec_id() == id {
                Some(lots.len() - 1)
            } else {
                None
            },
        }
    }
}

/// The ledger after these deductions, and whether each found its lot; the first
/// that finds none ends the booking. `None` where an amount is not
/// representable.
pub open spec fn deducted(
    lots: Seq<WorkingLot>,
    token: Seq<char>,
    deductions: Seq<(StrategyPositionLotId, Decimal)>,
    sold: Decimal,
    net_proceeds: Usd,
    exited_at: Timestamp,
) -> Option<(Seq<WorkingLot>, bool)>
    decreases deductions.len(),
{
    if deductions.len() == 0 {
        Some((lots, true))
    } else {
        match deducted(lots, token, deductions.drop_last(), sold, net_proceeds, exited_at) {
            None => None,
            Some((booked, false)) => Some((booked, false)),
            Some((booked, true)) => match position_of(booked, token, deductions.last().0) {
                None => Some((booked, false)),
                Some(position) => match booked[position].after_sale(
                    deductions.last().1,
                    sold,
                    net_proceeds,
                    exited_at,
                ) {
                    None => None,
                    Some(lot) => Some((booked.update(position, lot), true)),
                },
            },
        }
    }
}

/// The lot that a purchase opens.
pub open spec fn purchased(
    execution: AccountRecoveryExecutionDelta,
    token_id: TokenId,
    cost: Usd,
) -> WorkingLot {
    WorkingLot::Created(
        AccountRecoveryCreatedLot {
            strategy_position_lot_id: execution.recovery_lot_id,
            account_chain_execution_id: execution.account_chain_execution_id,
            token_id,
            acquired_shares: execution.shares_delta,
            remaining_shares: execution.shares_delta,
            acquired_cost_usd: cost,
            remaining_cost_usd: cost,
            realized_pnl_delta_usd: Decimal::of_parts(0, 0),
            closed_at: None,
        },
    )
}

/// Lots and findings of an assessment in progress.
pub ghost struct LedgerView {
    pub lots: Seq<WorkingLot>,
    pub findings: Seq<MismatchView>,
}

impl LedgerView {
    /// The ledger with one more finding.
    pub open spec fn with_finding(self, finding: MismatchView) -> LedgerView {
        LedgerView { lots: self.lots, findings: self.findings.push(finding) }
    }

    /// The ledger after one execution of the incident, or `None` where an
    /// amount is not representable.
    ///
    /// A purchase opens a lot at principal plus fee. A sale whose fee exceeds
    /// its principal, or of no shares, is incomplete; any other is booked as
    /// its plan says.
    pub open spec fn applied(
        self,
        execution: AccountRecoveryExecutionDelta,
        explicit: Seq<AccountRecoverySellAllocation>,
    ) -> Option<LedgerView> {
        let id = execution.account_chain_execution_id;
        let token = execution.token_id@;
        if execution.shares_delta@ > 0 {
            match execution.principal_usd.sum(execution.exact_fee_usd) {
                None => None,
                Some(cost) => Some(
                    LedgerView {
                        lots: self.lots.push(purchased(execution, execution.token_id, cost)),
                        findings: self.findings,
                    },
                ),
            }
        } else if execution.exact_fee_usd@ > execution.principal_usd@ || execution.shares_delta@
            == 0 {
            Some(
                self.with_finding(
                    MismatchView::IncidentExecutionIncomplete { account_chain_execution_id: id },
                ),
            )
        } else {
            let sold = execution.shares_delta.opposite();
            match execution.principal_usd.difference(execution.exact_fee_usd) {
                None => None,
                Some(net_proceeds) => match sale_plan(
                    open_in(self.lots, token),
                    sold,
                    chosen(explicit, id),
                    id,
                    token,
                ) {
                    SalePlan::Overflow => None,
                    SalePlan::Blocked(finding) => Some(self.with_finding(finding)),
                    SalePlan::Deduct(deductions) => match deducted(
                        self.lots,
                        token,
                        deductions,
                        sold,
                        net_proceeds,
                        execution.available_at,
                    ) {
                        None => None,
                        Some((lots, complete)) => {
                            let booked = LedgerView { lots, findings: self.findings };
                            Some(
                                if complete {
                                    booked
                                } else {
                                    booked.with_finding(
                                        MismatchView::LotAllocationInvalid {
                                            account_chain_execution_id: id,
                                        },
                                    )
                                },
                            )
                        },
                    },
                },
            }
        }
    }

    /// The ledger after a sequence of executions.
    pub open spec fn applied_all(
        self,
        executions: Seq<AccountRecoveryExecutionDelta>,
        explicit: Seq<AccountRecoverySellAllocation>,
    ) -> Option<LedgerView>
        decreases executions.len(),
    {
        if executions.len() == 0 {
            Some(self)
        } else {
            match self.applied_all(executions.drop_last(), explicit) {
                None => None,
                Some(ledger) => ledger.applied(executions.last(), explicit),
            }
        }
    }
}

/// Lots and findings of an assessment in progress.
pub struct RecoveryLedger {
    pub lots: Vec<WorkingLot>,
    pub mismatches: Vec<AccountRecoveryMismatch>,
}

impl View for RecoveryLedger {
    type V = LedgerView;

    open spec fn view(&self) -> LedgerView {
        LedgerView { lots: self.lots@, findings: views(self.mismatches@) }
    }
}

fn collect_open(lots: &Vec<WorkingLot>, token: &TokenId) -> (r: Vec<(
    StrategyPositionLotId,
    Decimal,
)>)
    ensures
        r@ == open_in(lots@, token@),
{
    let mut r: Vec<(StrategyPositionLotId, Decimal)> = Vec::new();
    let mut i: usize = 0;
    assert(lots@.take(0) =~= Seq::<WorkingLot>::empty());
    while i < lots.len()
        invariant
            i <= lots.len(),
            r@ == open_in(lots@.take(i as int), token@),
        decreases lots.len() - i,
    {
        assert(lots@.take(i + 1).drop_last() =~= lots@.take(i as int));
        let lot = &lots[i];
        if lot.token().same(token) && lot.remaining().is_positive() {
            r.push((lot.id(), lot.remaining()));
        }
        i = i + 1;
    }
    assert(lots@.take(i as int) =~= lots@);
    r
}

fn add_open(open: &Vec<(StrategyPositionLotId, Decimal)>) -> (r: Option<Decimal>)
    ensures
        r == total_shares(open@),
{
    let mut total = Decimal::zero();
    let mut i: usize = 0;
    assert(open@.take(0) =~= Seq::<(StrategyPositionLotId, Decimal)>::empty());
    while i < open.len()
        invariant
            i <= open.len(),
            total_shares(open@.take(i as int)) == Some(total),
        decreases open.len() - i,
    {
        assert(open@.take(i + 1).drop_last() =~= open@.take(i as int));
        match total.checked_add(open[i].1) {
            Some(more) => {
                total = more;
            },
            None => {
                proof {
                    lemma_total_prefix(open@, i + 1);
                }
                return None;
            },
        }
        i = i + 1;
    }
    assert(open@.take(i as int) =~= open@);
    Some(total)
}

proof fn lemma_total_prefix(open: Seq<(StrategyPositionLotId, Decimal)>, n: int)
    requires
        0 <= n <= open.len(),
        total_shares(open.take(n)) is None,
    ensures
        total_shares(open) is None,
    decreases open.len() - n,
{
    if n == open.len() {
        assert(open.take(n) =~= open);
    } else {
        assert(open.take(n + 1).drop_last() =~= open.take(n));
        lemma_total_prefix(open, n + 1);
    }
}

fn collect_chosen(
    explicit: &Vec<AccountRecoverySellAllocation>,
    execution: AccountChainExecutionId,
) -> (r: Vec<AccountRecoverySellAllocation>)
    ensures
        r@ == chosen(explicit@, execution),
{
    let mut r: Vec<AccountRecoverySellAllocation> = Vec::new();
    let mut i: usize = 0;
    assert(explicit@.take(0) =~= Seq::<AccountRecoverySellAllocation>::empty());
    while i < explicit.len()
        invariant
            i <= explicit.len(),
            r@ == chosen(explicit@.take(i as int), execution),
        decreases explicit.len() - i,
    {
        assert(explicit@.take(i + 1).drop_last() =~= explicit@.take(i as int));
        if explicit[i].account_chain_execution_id == execution {
            r.push(explicit[i]);
        }
        i = i + 1;
    }
    assert(explicit@.take(i as int) =~= explicit@);
    r
}

fn allocate_in_order(open: &Vec<(StrategyPositionLotId, Decimal)>, sold: Decimal) -> (r: Option<
    Vec<(StrategyPositionLotId, Decimal)>,
>)
    ensures
        match r {
            Some(deductions) => first_in_first_out(open@, sold) == Some(deductions@),
            None => first_in_first_out(open@, sold) is None,
        },
{
    let mut deductions: Vec<(StrategyPositionLotId, Decimal)> = Vec::new();
    let mut remaining = sold;
    let mut i: usize = 0;
    assert(open@.skip(0) =~= open@);
    proof {
        if first_in_first_out(open@, sold) is Some {
            assert(deductions@ + first_in_first_out(open@, sold)->0 =~= first_in_first_out(
                open@,
                sold,
            )->0);
        }
    }
    while i < open.len() && remaining.is_positive()
        invariant
            i <= open.len(),
            match first_in_first_out(open@.skip(i as int), remaining) {
                Some(tail) => first_in_first_out(open@, sold) == Some(deductions@ + tail),
                None => first_in_first_out(open@, sold) is None,
            },
        decreases open.len() - i,
    {
        let ghost rest_open = open@.skip(i as int);
        assert(rest_open.drop_first() =~= open@.skip(i + 1));
        assert(rest_open[0] == open@[i as int]);
        let part = open[i].1.min_of(remaining);
        match remaining.checked_sub(part) {
            None => {
                return None;
            },
            Some(rest) => {
                proof {
                    if let Some(tail) = first_in_first_out(open@.skip(i + 1), rest) {
                        assert(deductions@ + (seq![(open@[i as int].0, part)] + tail)
                            =~= deductions@.push((open@[i as int].0, part)) + tail);
                    }
                }
                deductions.push((open[i].0, part));
                remaining = rest;
            },
        }
        i = i + 1;
    }
    assert(first_in_first_out(open@.skip(i as int), remaining) == Some(
        Seq::<(StrategyPositionLotId, Decimal)>::empty(),
    ));
    assert(deductions@ + Seq::<(StrategyPositionLotId, Decimal)>::empty() =~= deductions@);
    Some(deductions)
}

fn find_shares(
    open: &Vec<(StrategyPositionLotId, Decimal)>,
    lot: StrategyPositionLotId,
) -> (r: Option<Decimal>)
    ensures
        r == shares_of(open@, lot),
{
    let mut i: usize = 0;
    assert(open@.take(0) =~= Seq::<(StrategyPositionLotId, Decimal)>::empty());
    while i < open.len()
        invariant
            i <= open.len(),
            shares_of(open@.take(i as int), lot) is None,
        decreases open.len() - i,
    {
        assert(open@.take(i + 1).drop_last() =~= open@.take(i as int));
        if open[i].0 == lot {
            proof {
                lemma_shares_prefix(open@, lot, i + 1);
            }
            return Some(open[i].1);
        }
        i = i + 1;
    }
    assert(open@.take(i as int) =~= open@);
    None
}

proof fn lemma_shares_prefix(
    open: Seq<(StrategyPositionLotId, Decimal)>,
    lot: StrategyPositionLotId,
    n: int,
)
    requires
        0 <= n <= open.len(),
        shares_of(open.take(n), lot) is Some,
    ensures
        shares_of(open, lot) == shares_of(open.take(n), lot),
    decreases open.len() - n,
{
    if n == open.len() {
        assert(open.take(n) =~= open);
    } else {
        assert(open.take(n + 1).drop_last() =~= open.take(n));
        lemma_shares_prefix(open, lot, n + 1);
    }
}

proof fn lemma_selection_prefix(
    allocations: Seq<AccountRecoverySellAllocation>,
    open: Seq<(StrategyPositionLotId, Decimal)>,
    n: int,
)
    requires
        0 <= n <= allocations.len(),
        !(selection(allocations.take(n), open) is Total),
    ensures
        selection(allocations, open) == selection(allocations.take(n), open),
    decreases allocations.len() - n,
{
    if n == allocations.len() {
        assert(allocations.take(n) =~= allocations);
    } else {
        assert(allocations.take(n + 1).drop_last() =~= allocations.take(n));
        lemma_selection_prefix(allocations, open, n + 1);
    }
}

/// Outcome of checking explicit allocations.
enum Checked {
    Invalid,
    Overflow,
    Total(Decimal),
}

fn check_allocations(
    allocations: &Vec<AccountRecoverySellAllocation>,
    open: &Vec<(StrategyPositionLotId, Decimal)>,
) -> (r: Checked)
    ensures
        selection(allocations@, open@) == (match r {
            Checked::Invalid => Selection::Invalid,
            Checked::Overflow => Selection::Overflow,
            Checked::Total(total) => Selection::Total(total),
        }),
{
    let mut total = Decimal::zero();
    let mut i: usize = 0;
    assert(allocations@.take(0) =~= Seq::<AccountRecoverySellAllocation>::empty());
    while i < allocations.len()
        invariant
            i <= allocations.len(),
            selection(allocations@.take(i as int), open@) == Selection::Total(total),
        decreases allocations.len() - i,
    {
        let ghost earlier = allocations@.take(i as int);
        let allocation = allocations[i];
        assert(allocations@.take(i + 1).drop_last() =~= earlier);
        assert(allocations@.take(i + 1).last() == allocation);
        let mut fresh = true;
        let mut j: usize = 0;
        while j < i
            invariant
                j <= i < allocations.len(),
                earlier == allocations@.take(i as int),
                fresh <==> forall|k: int|
                    0 <= k < j ==> (#[trigger] earlier[k]).strategy_position_lot_id
                        != allocation.strategy_position_lot_id,
            decreases i - j,
        {
            assert(earlier[j as int] == allocations@[j as int]);
            if allocations[j].strategy_position_lot_id == allocation.strategy_position_lot_id {
                fresh = false;
            }
            j = j + 1;
        }
        let ok = match find_shares(open, allocation.strategy_position_lot_id) {
            Some(available) => allocation.shares.is_positive() && allocation.shares.le(available)
                && fresh,
            None => false,
        };
        assert(ok == allocation_ok(earlier, allocation, open@));
        if !ok {
            proof {
                lemma_selection_prefix(allocations@, open@, i + 1);
            }
            return Checked::Invalid;
        }
        match total.checked_add(allocation.shares) {
            Some(more) => {
                total = more;
            },
            None => {
                proof {
                    lemma_selection_prefix(allocations@, open@, i + 1);
                }
                return Checked::Overflow;
            },
        }
        i = i + 1;
    }
    assert(allocations@.take(i as int) =~= allocations@);
    Checked::Total(total)
}

/// How a sale is to be booked.
enum Plan {
    Overflow,
    Blocked(AccountRecoveryMismatch),
    Deduct(Vec<(StrategyPositionLotId, Decimal)>),
}

impl Plan {
    spec fn as_spec(self) -> SalePlan {
        match self {
            Plan::Overflow => SalePlan::Overflow,
            Plan::Blocked(finding) => SalePlan::Blocked(finding@),
            Plan::Deduct(deductions) => SalePlan::Deduct(deductions@),
        }
    }
}

fn plan_sale(
    open: &Vec<(StrategyPositionLotId, Decimal)>,
    sold: Decimal,
    allocations: &Vec<AccountRecoverySellAllocation>,
    execution: AccountChainExecutionId,
    token: &TokenId,
) -> (r: Plan)
    ensures
        r.as_spec() == sale_plan(open@, sold, allocations@, execution, token@),
{
    let available = match add_open(open) {
        Some(total) => total,
        None => {
            return Plan::Overflow;
        },
    };
    if available.lt(sold) {
        return Plan::Blocked(
            AccountRecoveryMismatch::IncidentExecutionIncomplete {
                account_chain_execution_id: execution,
            },
        );
    }
    if open.len() == 1 || sold.same(available) {
        if allocations.len() > 0 {
            return Plan::Blocked(
                AccountRecoveryMismatch::LotAllocationInvalid {
                    account_chain_execution_id: execution,
                },
            );
        }
        return match allocate_in_order(open, sold) {
            Some(deductions) => Plan::Deduct(deductions),
            None => Plan::Overflow,
        };
    }
    if allocations.len() == 0 {
        let mut candidates: Vec<StrategyPositionLotId> = Vec::new();
        let mut i: usize = 0;
        let ghost ids = open@.map_values(|p: (StrategyPositionLotId, Decimal)| p.0);
        while i < open.len()
            invariant
                i <= open.len(),
                ids == open@.map_values(|p: (StrategyPositionLotId, Decimal)| p.0),
                candidates@ == ids.take(i as int),
            decreases open.len() - i,
        {
            candidates.push(open[i].0);
            assert(candidates@ =~= ids.take(i + 1));
            i = i + 1;
        }
        assert(candidates@ =~= ids);
        return Plan::Blocked(
            AccountRecoveryMismatch::LotAllocationRequired {
                account_chain_execution_id: execution,
                token_id: token.clone(),
                sold_shares: sold,
                candidate_lot_ids: candidates,
            },
        );
    }
    match check_allocations(allocations, open) {
        Checked::Overflow => Plan::Overflow,
        Checked::Invalid => Plan::Blocked(
            AccountRecoveryMismatch::LotAllocationInvalid { account_chain_execution_id: execution },
        ),
        Checked::Total(total) => {
            if !total.same(sold) {
                return Plan::Blocked(
                    AccountRecoveryMismatch::LotAllocationInvalid {
                        account_chain_execution_id: execution,
                    },
                );
            }
            let mut deductions: Vec<(StrategyPositionLotId, Decimal)> = Vec::new();
            let mut i: usize = 0;
            let ghost wanted = as_deductions(allocations@);
            while i < allocations.len()
                invariant
                    i <= allocations.len(),
                    wanted == as_deductions(allocations@),
                    deductions@ == wanted.take(i as int),
                decreases allocations.len() - i,
            {
                deductions.push((allocations[i].strategy_position_lot_id, allocations[i].shares));
                assert(deductions@ =~= wanted.take(i + 1));
                i = i + 1;
            }
            assert(deductions@ =~= wanted);
            Plan::Deduct(deductions)
        },
    }
}

fn find_lot(lots: &Vec<WorkingLot>, token: &TokenId, id: StrategyPositionLotId) -> (r: Option<usize>)
    ensures
        match r {
            Some(position) => position < lots.len() && position_of(lots@, token@, id) == Some(
                position as int,
            ),
            None => position_of(lots@, token@, id) is None,
        },
{
    let mut i: usize = 0;
    assert(lots@.take(0) =~= Seq::<WorkingLot>::empty());
    while i < lots.len()
        invariant
            i <= lots.len(),
            position_of(lots@.take(i as int), token@, id) is None,
        decreases lots.len() - i,
    {
        assert(lots@.take(i + 1).drop_last() =~= lots@.take(i as int));
        if lots[i].token().same(token) && lots[i].id() == id {
            proof {
                lemma_position_prefix(lots@, token@, id, i + 1);
            }
            return Some(i);
        }
        i = i + 1;
    }
    assert(lots@.take(i as int) =~= lots@);
    None
}

proof fn lemma_position_prefix(
    lots: Seq<WorkingLot>,
    token: Seq<char>,
    id: StrategyPositionLotId,
    n: int,
)
    requires
        0 <= n <= lots.len(),
        position_of(lots.take(n), token, id) is Some,
    ensures
        position_of(lots, token, id) == position_of(lots.take(n), token, id),
    decreases lots.len() - n,
{
    if n == lots.len() {
        assert(lots.take(n) =~= lots);
    } else {
        assert(lots.take(n + 1).drop_last() =~= lots.take(n));
        lemma_position_prefix(lots, token, id, n + 1);
    }
}

proof fn lemma_deducted_prefix(
    lots: Seq<WorkingLot>,
    token: Seq<char>,
    deductions: Seq<(StrategyPositionLotId, Decimal)>,
    sold: Decimal,
    net_proceeds: Usd,
    exited_at: Timestamp,
    n: int,
)
    requires
        0 <= n <= deductions.len(),
        match deducted(lots, token, deductions.take(n), sold, net_proceeds, exited_at) {
            None => true,
            Some((booked, complete)) => !complete,
        },
    ensures
        deducted(lots, token, deductions, sold, net_proceeds, exited_at) == deducted(
            lots,
            token,
            deductions.take(n),
            sold,
            net_proceeds,
            exited_at,
        ),
    decreases deductions.len() - n,
{
    if n == deductions.len() {
        assert(deductions.take(n) =~= deductions);
    } else {
        assert(deductions.take(n + 1).drop_last() =~= deductions.take(n));
        lemma_deducted_prefix(lots, token, deductions, sold, net_proceeds, exited_at, n + 1);
    }
}

fn deduct(
    lots: Vec<WorkingLot>,
    token: &TokenId,
    deductions: &Vec<(StrategyPositionLotId, Decimal)>,
    sold: Decimal,
    net_proceeds: Usd,
    exited_at: Timestamp,
) -> (r: Option<(Vec<WorkingLot>, bool)>)
    ensures
        match r {
            Some((booked, complete)) => deducted(
                lots@,
                token@,
                deductions@,
                sold,
                net_proceeds,
                exited_at,
            ) == Some((booked@, complete)),
            None => deducted(lots@, token@, deductions@, sold, net_proceeds, exited_at) is None,
        },
{
    let ghost before = lots@;
    let mut booked = lots;
    let mut i: usize = 0;
    assert(deductions@.take(0) =~= Seq::<(StrategyPositionLotId, Decimal)>::empty());
    while i < deductions.len()
        invariant
            i <= deductions.len(),
            before == lots@,
            deducted(
                before,
                token@,
                deductions@.take(i as int),
                sold,
                net_proceeds,
                exited_at,
            ) == Some((booked@, true)),
        decreases deductions.len() - i,
    {
        assert(deductions@.take(i + 1).drop_last() =~= deductions@.take(i as int));
        assert(deductions@.take(i + 1).last() == deductions@[i as int]);
        let position: usize = match find_lot(&booked, token, deductions[i].0) {
            Some(position) => position,
            None => {
                proof {
                    lemma_deducted_prefix(
                        before,
                        token@,
                        deductions@,
                        sold,
                        net_proceeds,
                        exited_at,
                        i + 1,
                    );
                }
                return Some((booked, false));
            },
        };
        match booked[position].apply_exit(deductions[i].1, sold, net_proceeds, exited_at) {
            Some(lot) => {
                booked.set(position, lot);
            },
            None => {
                proof {
                    lemma_deducted_prefix(
                        before,
                        token@,
                        deductions@,
                        sold,
                        net_proceeds,
                        exited_at,
                        i + 1,
                    );
                }
                return None;
            },
        }
        i = i + 1;
    }
    assert(deductions@.take(i as int) =~= deductions@);
    Some((booked, true))
}

/// Books one execution of the incident.
fn apply_execution(
    ledger: RecoveryLedger,
    execution: &AccountRecoveryExecutionDelta,
    explicit: &Vec<AccountRecoverySellAllocation>,
) -> (r: Option<RecoveryLedger>)
    ensures
        match r {
            Some(after) => ledger@.applied(*execution, explicit@) == Some(after@),
            None => ledger@.applied(*execution, explicit@) is None,
        },
{
    let id = execution.account_chain_execution_id;
    let mut ledger = ledger;
    if execution.shares_delta.is_positive() {
        let cost = match execution.principal_usd.checked_add(execution.exact_fee_usd) {
            Some(value) => value,
            None => {
                return None;
            },
        };
        ledger.lots.push(
            WorkingLot::Created(
                AccountRecoveryCreatedLot {
                    strategy_position_lot_id: execution.recovery_lot_id,
                    account_chain_execution_id: id,
                    token_id: execution.token_id.clone(),
                    acquired_shares: execution.shares_delta,
                    remaining_shares: execution.shares_delta,
                    acquired_cost_usd: cost,
                    remaining_cost_usd: cost,
                    realized_pnl_delta_usd: Decimal::zero(),
                    closed_at: None,
                },
            ),
        );
        return Some(ledger);
    }
    let sold = execution.shares_delta.negate();
    if execution.principal_usd.lt(execution.exact_fee_usd) || !sold.is_positive() {
        let finding = AccountRecoveryMismatch::IncidentExecutionIncomplete {
            account_chain_execution_id: id,
        };
        proof {
            lemma_views_push(ledger.mismatches@, finding);
        }
        ledger.mismatches.push(finding);
        return Some(ledger);
    }
    let net_proceeds = match execution.principal_usd.checked_sub(execution.exact_fee_usd) {
        Some(value) => value,
        None => {
            return None;
        },
    };
    let open = collect_open(&ledger.lots, &execution.token_id);
    let allocations = collect_chosen(explicit, id);
    match plan_sale(&open, sold, &allocations, id, &execution.token_id) {
        Plan::Overflow => None,
        Plan::Blocked(finding) => {
            proof {
                lemma_views_push(ledger.mismatches@, finding);
            }
            ledger.mismatches.push(finding);
            Some(ledger)
        },
        Plan::Deduct(deductions) => {
            let RecoveryLedger { lots, mismatches } = ledger;
            let mut mismatches = mismatches;
            match deduct(
                lots,
                &execution.token_id,
                &deductions,
                sold,
                net_proceeds,
                execution.available_at,
            ) {
                None => None,
                Some((lots, complete)) => {
                    if !complete {
                        let finding = AccountRecoveryMismatch::LotAllocationInvalid {
                            account_chain_execution_id: id,
                        };
                        proof {
                            lemma_views_push(mismatches@, finding);
                        }
                        mismatches.push(finding);
                    }
                    Some(RecoveryLedger { lots, mismatches })
                },
            }
        },
    }
}

impl Clone for AccountRecoveryLotAllocation {
    fn clone(&self) -> (r: Self)
        ensures
            r == *self,
    {
        AccountRecoveryLotAllocation {
            strategy_position_lot_id: self.strategy_position_lot_id,
            token_id: self.token_id.clone(),
            before_shares: self.before_shares,
            after_shares: self.after_shares,
            before_cost_usd: self.before_cost_usd,
            after_cost_usd: self.after_cost_usd,
            realized_pnl_delta_usd: self.realized_pnl_delta_usd,
            closed_at: self.closed_at,
        }
    }
}

impl Clone for AccountRecoveryCreatedLot {
    fn clone(&self) -> (r: Self)
        ensures
            r == *self,
    {
        AccountRecoveryCreatedLot {
            strategy_position_lot_id: self.strategy_position_lot_id,
            account_chain_execution_id: self.account_chain_execution_id,
            token_id: self.token_id.clone(),
            acquired_shares: self.acquired_shares,
            remaining_shares: self.remaining_shares,
            acquired_cost_usd: self.acquired_cost_usd,
            remaining_cost_usd: self.remaining_cost_usd,
            realized_pnl_delta_usd: self.realized_pnl_delta_usd,
            closed_at: self.closed_at,
        }
    }
}

impl Keyed for AccountRecoveryTokenBalance {
    open spec fn sort_key(&self) -> Seq<int> {
        text_key(self.token_id@)
    }

    fn key_before(&self, other: &Self) -> (r: bool) {
        text_before(self.token_id.text.as_str(), other.token_id.text.as_str())
    }
}

impl Keyed for WorkingLot {
    open spec fn sort_key(&self) -> Seq<int> {
        text_key(self.spec_token()@)
    }

    fn key_before(&self, other: &Self) -> (r: bool) {
        text_before(self.token().text.as_str(), other.token().text.as_str())
    }
}

impl Keyed for AccountRecoveryLotBalance {
    open spec fn sort_key(&self) -> Seq<int> {
        seq![self.opened_at@, self.strategy_position_lot_id as int]
    }

    fn key_before(&self, other: &Self) -> (r: bool) {
        proof {
            lemma_pair_key(
                self.opened_at@,
                self.strategy_position_lot_id as int,
                other.opened_at@,
                other.strategy_position_lot_id as int,
            );
        }
        self.opened_at.before(other.opened_at) || (self.opened_at.until(other.opened_at)
            && self.strategy_position_lot_id < other.strategy_position_lot_id)
    }
}

impl Keyed for AccountRecoveryExecutionDelta {
    open spec fn sort_key(&self) -> Seq<int> {
        seq![self.available_at@, self.account_chain_execution_id as int]
    }

    fn key_before(&self, other: &Self) -> (r: bool) {
        proof {
            lemma_pair_key(
                self.available_at@,
                self.account_chain_execution_id as int,
                other.available_at@,
                other.account_chain_execution_id as int,
            );
        }
        self.available_at.before(other.available_at) || (self.available_at.until(
            other.available_at,
        ) && self.account_chain_execution_id < other.account_chain_execution_id)
    }
}

impl Keyed for AccountRecoverySellAllocation {
    open spec fn sort_key(&self) -> Seq<int> {
        seq![self.account_chain_execution_id as int, self.strategy_position_lot_id as int]
    }

    fn key_before(&self, other: &Self) -> (r: bool) {
        proof {
            lemma_pair_key(
                self.account_chain_execution_id as int,
                self.strategy_position_lot_id as int,
                other.account_chain_execution_id as int,
                other.strategy_position_lot_id as int,
            );
        }
        self.account_chain_execution_id < other.account_chain_execution_id
            || (self.account_chain_execution_id == other.account_chain_execution_id
            && self.strategy_position_lot_id < other.strategy_position_lot_id)
    }
}

impl Duplicate for AccountRecoveryTokenBalance {
    fn duplicate(&self) -> (r: Self) {
        AccountRecoveryTokenBalance { token_id: self.token_id.clone(), shares: self.shares }
    }
}

impl Duplicate for AccountRecoveryLotBalance {
    fn duplicate(&self) -> (r: Self) {
        AccountRecoveryLotBalance {
            strategy_position_lot_id: self.strategy_position_lot_id,
            token_id: self.token_id.clone(),
            shares: self.shares,
            cost_usd: self.cost_usd,
            opened_at: self.opened_at,
        }
    }
}

impl Duplicate for AccountRecoveryExecutionDelta {
    fn duplicate(&self) -> (r: Self) {
        AccountRecoveryExecutionDelta {
            account_chain_execution_id: self.account_chain_execution_id,
            recovery_lot_id: self.recovery_lot_id,
            token_id: self.token_id.clone(),
            shares_delta: self.shares_delta,
            principal_usd: self.principal_usd,
            exact_fee_usd: self.exact_fee_usd,
            available_at: self.available_at,
        }
    }
}

impl Duplicate for AccountRecoverySellAllocation {
    fn duplicate(&self) -> (r: Self) {
        *self
    }
}

impl Clone for AccountRecoveryAssessmentInput {
    fn clone(&self) -> (r: Self)
        ensures
            r@ == self@,
    {
        AccountRecoveryAssessmentInput {
            recovery_incident_id: self.recovery_incident_id,
            execution_account_id: self.execution_account_id,
            observed_at: self.observed_at,
            finalized_block_number: self.finalized_block_number,
            finalized_block_hash: self.finalized_block_hash,
            clob_snapshot_hash: self.clob_snapshot_hash,
            data_api_snapshot_hash: self.data_api_snapshot_hash,
            chain_snapshot_hash: self.chain_snapshot_hash,
            settlement_snapshot_hash: self.settlement_snapshot_hash,
            pause_confirmed: self.pause_confirmed,
            venue_snapshot_stable: self.venue_snapshot_stable,
            clob_collateral_usd: self.clob_collateral_usd,
            chain_collateral_usd: self.chain_collateral_usd,
            reserved_usd: self.reserved_usd,
            open_order_ids: duplicates(&self.open_order_ids),
            unmapped_token_ids: duplicates(&self.unmapped_token_ids),
            invalid_execution_ids: duplicates(&self.invalid_execution_ids),
            clean_funder_blocker: self.clean_funder_blocker,
            data_api_positions: duplicates(&self.data_api_positions),
            chain_positions: duplicates(&self.chain_positions),
            open_lots: duplicates(&self.open_lots),
            incident_executions: duplicates(&self.incident_executions),
            explicit_sell_allocations: duplicates(&self.explicit_sell_allocations),
            pending_settlement_count: self.pending_settlement_count,
        }
    }
}

/// An assessment input with its lists as sequences.
#[verifier::ext_equal]
pub ghost struct InputView {
    pub recovery_incident_id: AccountRecoveryIncidentId,
    pub execution_account_id: ExecutionAccountId,
    pub observed_at: Timestamp,
    pub finalized_block_number: i64,
    pub finalized_block_hash: ContentHash,
    pub clob_snapshot_hash: ContentHash,
    pub data_api_snapshot_hash: ContentHash,
    pub chain_snapshot_hash: ContentHash,
    pub settlement_snapshot_hash: ContentHash,
    pub pause_confirmed: bool,
    pub venue_snapshot_stable: bool,
    pub clob_collateral_usd: Usd,
    pub chain_collateral_usd: Usd,
    pub reserved_usd: Usd,
    pub open_order_ids: Seq<OrderId>,
    pub unmapped_token_ids: Seq<TokenId>,
    pub invalid_execution_ids: Seq<AccountChainExecutionId>,
    pub clean_funder_blocker: Option<AccountCleanFunderBlockerEvidence>,
    pub data_api_positions: Seq<AccountRecoveryTokenBalance>,
    pub chain_positions: Seq<AccountRecoveryTokenBalance>,
    pub open_lots: Seq<AccountRecoveryLotBalance>,
    pub incident_executions: Seq<AccountRecoveryExecutionDelta>,
    pub explicit_sell_allocations: Seq<AccountRecoverySellAllocation>,
    pub pending_settlement_count: u64,
}

impl View for AccountRecoveryAssessmentInput {
    type V = InputView;

    open spec fn view(&self) -> InputView {
        InputView {
            recovery_incident_id: self.recovery_incident_id,
            execution_account_id: self.execution_account_id,
            observed_at: self.observed_at,
            finalized_block_number: self.finalized_block_number,
            finalized_block_hash: self.finalized_block_hash,
            clob_snapshot_hash: self.clob_snapshot_hash,
            data_api_snapshot_hash: self.data_api_snapshot_hash,
            chain_snapshot_hash: self.chain_snapshot_hash,
            settlement_snapshot_hash: self.settlement_snapshot_hash,
            pause_confirmed: self.pause_confirmed,
            venue_snapshot_stable: self.venue_snapshot_stable,
            clob_collateral_usd: self.clob_collateral_usd,
            chain_collateral_usd: self.chain_collateral_usd,
            reserved_usd: self.reserved_usd,
            open_order_ids: self.open_order_ids@,
            unmapped_token_ids: self.unmapped_token_ids@,
            invalid_execution_ids: self.invalid_execution_ids@,
            clean_funder_blocker: self.clean_funder_blocker,
            data_api_positions: self.data_api_positions@,
            chain_positions: self.chain_positions@,
            open_lots: self.open_lots@,
            incident_executions: self.incident_executions@,
            explicit_sell_allocations: self.explicit_sell_allocations@,
            pending_settlement_count: self.pending_settlement_count,
        }
    }
}

impl InputView {
    /// The input in canonical order: identifiers sorted without repetition,
    /// balances by token, lots and executions by time and identity,
    /// allocations by execution and lot.
    pub open spec fn canonical(self) -> InputView {
        InputView {
            open_order_ids: without_repeats(arranged(self.open_order_ids)),
            unmapped_token_ids: without_repeats(arranged(self.unmapped_token_ids)),
            invalid_execution_ids: without_equal_neighbours(arranged(self.invalid_execution_ids)),
            data_api_positions: arranged(self.data_api_positions),
            chain_positions: arranged(self.chain_positions),
            open_lots: arranged(self.open_lots),
            incident_executions: arranged(self.incident_executions),
            explicit_sell_allocations: arranged(self.explicit_sell_allocations),
            ..self
        }
    }

    /// The input as if it had been captured at another time.
    pub open spec fn captured_at(self, observed_at: Timestamp) -> InputView {
        InputView { observed_at, ..self }
    }
}

fn canonicalize(input: &mut AccountRecoveryAssessmentInput)
    ensures
        final(input)@ == old(input)@.canonical(),
{
    arrange(&mut input.open_order_ids);
    input.open_order_ids = drop_repeats(&input.open_order_ids);
    arrange(&mut input.unmapped_token_ids);
    input.unmapped_token_ids = drop_repeats(&input.unmapped_token_ids);
    arrange(&mut input.invalid_execution_ids);
    input.invalid_execution_ids = drop_equal_neighbours(&input.invalid_execution_ids);
    arrange(&mut input.data_api_positions);
    arrange(&mut input.chain_positions);
    arrange(&mut input.open_lots);
    arrange(&mut input.incident_executions);
    arrange(&mut input.explicit_sell_allocations);
}

/// What the entries of one token add up to, or `None` where that is not
/// representable.
pub open spec fn token_total(entries: Seq<(Seq<char>, Decimal)>, token: Seq<char>) -> Option<
    Decimal,
>
    decreases entries.len(),
{
    if entries.len() == 0 {
        Some(Decimal::of_parts(0, 0))
    } else {
        match token_total(entries.drop_last(), token) {
            None => None,
            Some(total) => if entries.last().0 == token {
                total.sum(entries.last().1)
            } else {
                Some(total)
            },
        }
    }
}

proof fn lemma_token_total_prefix(entries: Seq<(Seq<char>, Decimal)>, token: Seq<char>, n: int)
    requires
        0 <= n <= entries.len(),
        token_total(entries.take(n), token) is None,
    ensures
        token_total(entries, token) is None,
    decreases entries.len() - n,
{
    if n == entries.len() {
        assert(entries.take(n) =~= entries);
    } else {
        assert(entries.take(n + 1).drop_last() =~= entries.take(n));
        lemma_token_total_prefix(entries, token, n + 1);
    }
}

/// Token and shares of each balance.
pub open spec fn balance_entries(balances: Seq<AccountRecoveryTokenBalance>) -> Seq<
    (Seq<char>, Decimal),
> {
    balances.map_values(|b: AccountRecoveryTokenBalance| (b.token_id@, b.shares))
}

/// Token and remaining shares of each lot.
pub open spec fn lot_entries(lots: Seq<WorkingLot>) -> Seq<(Seq<char>, Decimal)> {
    lots.map_values(|l: WorkingLot| (l.spec_token()@, l.spec_remaining()))
}

/// The token of each balance.
pub open spec fn balance_tokens(balances: Seq<AccountRecoveryTokenBalance>) -> Seq<TokenId> {
    balances.map_values(|b: AccountRecoveryTokenBalance| b.token_id)
}

/// The token of each lot.
pub open spec fn lot_tokens(lots: Seq<WorkingLot>) -> Seq<TokenId> {
    lots.map_values(|l: WorkingLot| l.spec_token())
}

/// The tokens of two lists, sorted, each once.
pub open spec fn token_union(left: Seq<TokenId>, right: Seq<TokenId>) -> Seq<TokenId> {
    without_repeats(arranged(left + right))
}

pub(crate) fn add_balances(balances: &Vec<AccountRecoveryTokenBalance>, token: &TokenId) -> (r: Option<
    Decimal,
>)
    ensures
        r == token_total(balance_entries(balances@), token@),
{
    let ghost entries = balance_entries(balances@);
    let mut total = Decimal::zero();
    let mut i: usize = 0;
    assert(entries.take(0) =~= Seq::<(Seq<char>, Decimal)>::empty());
    while i < balances.len()
        invariant
            i <= balances.len(),
            entries == balance_entries(balances@),
            token_total(entries.take(i as int), token@) == Some(total),
        decreases balances.len() - i,
    {
        assert(entries.take(i + 1).drop_last() =~= entries.take(i as int));
        assert(entries.take(i + 1).last() == entries[i as int]);
        if balances[i].token_id.same(token) {
            match total.checked_add(balances[i].shares) {
                Some(more) => {
                    total = more;
                },
                None => {
                    proof {
                        lemma_token_total_prefix(entries, token@, i + 1);
                    }
                    return None;
                },
            }
        }
        i = i + 1;
    }
    assert(entries.take(i as int) =~= entries);
    Some(total)
}

fn add_lots(lots: &Vec<WorkingLot>, token: &TokenId) -> (r: Option<Decimal>)
    ensures
        r == token_total(lot_entries(lots@), token@),
{
    let ghost entries = lot_entries(lots@);
    let mut total = Decimal::zero();
    let mut i: usize = 0;
    assert(entries.take(0) =~= Seq::<(Seq<char>, Decimal)>::empty());
    while i < lots.len()
        invariant
            i <= lots.len(),
            entries == lot_entries(lots@),
            token_total(entries.take(i as int), token@) == Some(total),
        decreases lots.len() - i,
    {
        assert(entries.take(i + 1).drop_last() =~= entries.take(i as int));
        assert(entries.take(i + 1).last() == entries[i as int]);
        if lots[i].token().same(token) {
            match total.checked_add(lots[i].remaining()) {
                Some(more) => {
                    total = more;
                },
                None => {
                    proof {
                        lemma_token_total_prefix(entries, token@, i + 1);
                    }
                    return None;
                },
            }
        }
        i = i + 1;
    }
    assert(entries.take(i as int) =~= entries);
    Some(total)
}

fn union_of_tokens(left: Vec<TokenId>, right: &Vec<AccountRecoveryTokenBalance>) -> (r: Vec<
    TokenId,
>)
    ensures
        r@ == token_union(left@, balance_tokens(right@)),
{
    let ghost start = left@;
    let ghost tokens = balance_tokens(right@);
    let mut all = left;
    let mut i: usize = 0;
    assert(start + tokens.take(0) =~= start);
    while i < right.len()
        invariant
            i <= right.len(),
            tokens == balance_tokens(right@),
            all@ == start + tokens.take(i as int),
        decreases right.len() - i,
    {
        all.push(right[i].token_id.clone());
        assert(all@ =~= start + tokens.take(i + 1));
        i = i + 1;
    }
    assert(tokens.take(i as int) =~= tokens);
    arrange(&mut all);
    drop_repeats(&all)
}

/// A finding for each of these tokens on which data API and chain disagree, or
/// `None` where a total is not representable.
pub open spec fn source_differences(
    tokens: Seq<TokenId>,
    data_api: Seq<(Seq<char>, Decimal)>,
    chain: Seq<(Seq<char>, Decimal)>,
) -> Option<Seq<MismatchView>>
    decreases tokens.len(),
{
    if tokens.len() == 0 {
        Some(Seq::empty())
    } else {
        let token = tokens.last()@;
        match (
            source_differences(tokens.drop_last(), data_api, chain),
            token_total(data_api, token),
            token_total(chain, token),
        ) {
            (Some(front), Some(data_api_shares), Some(chain_shares)) => Some(
                if data_api_shares@ == chain_shares@ {
                    front
                } else {
                    front.push(
                        MismatchView::PositionSourceMismatch {
                            token_id: token,
                            data_api_shares,
                            chain_shares,
                        },
                    )
                },
            ),
            _ => None,
        }
    }
}

proof fn lemma_source_differences_prefix(
    tokens: Seq<TokenId>,
    data_api: Seq<(Seq<char>, Decimal)>,
    chain: Seq<(Seq<char>, Decimal)>,
    n: int,
)
    requires
        0 <= n <= tokens.len(),
        source_differences(tokens.take(n), data_api, chain) is None,
    ensures
        source_differences(tokens, data_api, chain) is None,
    decreases tokens.len() - n,
{
    if n == tokens.len() {
        assert(tokens.take(n) =~= tokens);
    } else {
        assert(tokens.take(n + 1).drop_last() =~= tokens.take(n));
        lemma_source_differences_prefix(tokens, data_api, chain, n + 1);
    }
}

/// A finding for each of these tokens on which ledger and chain disagree, or
/// `None` where a total is not representable.
pub open spec fn ledger_differences(
    tokens: Seq<TokenId>,
    ledger: Seq<(Seq<char>, Decimal)>,
    chain: Seq<(Seq<char>, Decimal)>,
) -> Option<Seq<MismatchView>>
    decreases tokens.len(),
{
    if tokens.len() == 0 {
        Some(Seq::empty())
    } else {
        let token = tokens.last()@;
        match (
            ledger_differences(tokens.drop_last(), ledger, chain),
            token_total(ledger, token),
            token_total(chain, token),
        ) {
            (Some(front), Some(expected_shares), Some(venue_shares)) => Some(
                if expected_shares@ == venue_shares@ {
                    front
                } else {
                    front.push(
                        MismatchView::PositionLedgerMismatch {
                            token_id: token,
                            expected_shares,
                            venue_shares,
                        },
                    )
                },
            ),
            _ => None,
        }
    }
}

proof fn lemma_ledger_differences_prefix(
    tokens: Seq<TokenId>,
    ledger: Seq<(Seq<char>, Decimal)>,
    chain: Seq<(Seq<char>, Decimal)>,
    n: int,
)
    requires
        0 <= n <= tokens.len(),
        ledger_differences(tokens.take(n), ledger, chain) is None,
    ensures
        ledger_differences(tokens, ledger, chain) is None,
    decreases tokens.len() - n,
{
    if n == tokens.len() {
        assert(tokens.take(n) =~= tokens);
    } else {
        assert(tokens.take(n + 1).drop_last() =~= tokens.take(n));
        lemma_ledger_differences_prefix(tokens, ledger, chain, n + 1);
    }
}

/// A finding per token that has no market metadata.
pub open spec fn metadata_findings(tokens: Seq<TokenId>) -> Seq<MismatchView> {
    tokens.map_values(|t: TokenId| MismatchView::TokenMetadataMissing { token_id: t@ })
}

/// A finding per execution that could not be read completely.
pub open spec fn incomplete_findings(executions: Seq<AccountChainExecutionId>) -> Seq<
    MismatchView,
> {
    executions.map_values(
        |id: AccountChainExecutionId|
            MismatchView::IncidentExecutionIncomplete { account_chain_execution_id: id },
    )
}

/// One finding where a condition holds, none where it does not.
pub open spec fn finding_if(condition: bool, finding: MismatchView) -> Seq<MismatchView> {
    if condition {
        seq![finding]
    } else {
        Seq::empty()
    }
}

impl InputView {
    /// The findings that need no position to be compared, in report order.
    pub open spec fn blockers(self) -> Seq<MismatchView> {
        finding_if(!self.pause_confirmed, MismatchView::PauseIncomplete) + finding_if(
            !self.venue_snapshot_stable,
            MismatchView::VenueSnapshotUnstable,
        ) + finding_if(
            self.open_order_ids.len() > 0,
            MismatchView::OpenOrdersPresent { order_ids: self.open_order_ids },
        ) + metadata_findings(self.unmapped_token_ids) + (match self.clean_funder_blocker {
            Some(blocker) => seq![
                MismatchView::CleanFunderRequired {
                    account_chain_execution_id: blocker.account_chain_execution_id,
                    role: blocker.role,
                },
            ],
            None => Seq::empty(),
        }) + incomplete_findings(self.invalid_execution_ids) + finding_if(
            self.reserved_usd@ != 0,
            MismatchView::ReservedCapitalPresent { reserved_usd: self.reserved_usd },
        ) + finding_if(
            self.clob_collateral_usd@ != self.chain_collateral_usd@,
            MismatchView::CollateralMismatch {
                clob_usd: self.clob_collateral_usd,
                chain_usd: self.chain_collateral_usd,
            },
        )
    }

    /// All findings on the captured sources, in report order.
    pub open spec fn source_findings(self) -> Option<Seq<MismatchView>> {
        match source_differences(
            token_union(
                balance_tokens(self.data_api_positions),
                balance_tokens(self.chain_positions),
            ),
            balance_entries(self.data_api_positions),
            balance_entries(self.chain_positions),
        ) {
            None => None,
            Some(differences) => Some(
                self.blockers() + differences + finding_if(
                    self.pending_settlement_count > 0,
                    MismatchView::PendingSettlement { count: self.pending_settlement_count },
                ),
            ),
        }
    }
}

fn source_blockers(input: &AccountRecoveryAssessmentInput) -> (r: Vec<AccountRecoveryMismatch>)
    ensures
        views(r@) == input@.blockers(),
{
    let mut r: Vec<AccountRecoveryMismatch> = Vec::new();
    let ghost mut expected = Seq::<MismatchView>::empty();
    assert(views(r@) =~= expected);
    if !input.pause_confirmed {
        r.push(AccountRecoveryMismatch::PauseIncomplete);
    }
    proof {
        expected = finding_if(!input.pause_confirmed, MismatchView::PauseIncomplete);
        assert(views(r@) =~= expected);
    }
    if !input.venue_snapshot_stable {
        r.push(AccountRecoveryMismatch::VenueSnapshotUnstable);
    }
    proof {
        expected = expected + finding_if(
            !input.venue_snapshot_stable,
            MismatchView::VenueSnapshotUnstable,
        );
        assert(views(r@) =~= expected);
    }
    if input.open_order_ids.len() > 0 {
        r.push(
            AccountRecoveryMismatch::OpenOrdersPresent {
                order_ids: duplicates(&input.open_order_ids),
            },
        );
    }
    proof {
        expected = expected + finding_if(
            input.open_order_ids@.len() > 0,
            MismatchView::OpenOrdersPresent { order_ids: input.open_order_ids@ },
        );
        assert(views(r@) =~= expected);
    }
    let ghost missing = metadata_findings(input.unmapped_token_ids@);
    let mut i: usize = 0;
    assert(expected + missing.take(0) =~= expected);
    while i < input.unmapped_token_ids.len()
        invariant
            i <= input.unmapped_token_ids.len(),
            missing == metadata_findings(input.unmapped_token_ids@),
            views(r@) == expected + missing.take(i as int),
        decreases input.unmapped_token_ids.len() - i,
    {
        let finding = AccountRecoveryMismatch::TokenMetadataMissing {
            token_id: input.unmapped_token_ids[i].clone(),
        };
        proof {
            lemma_views_push(r@, finding);
            assert((expected + missing.take(i as int)).push(finding@) =~= expected + missing.take(
                i + 1,
            ));
        }
        r.push(finding);
        i = i + 1;
    }
    proof {
        assert(missing.take(i as int) =~= missing);
        expected = expected + missing;
    }
    if let Some(blocker) = &input.clean_funder_blocker {
        r.push(
            AccountRecoveryMismatch::CleanFunderRequired {
                account_chain_execution_id: blocker.account_chain_execution_id,
                role: blocker.role,
            },
        );
    }
    proof {
        expected = expected + (match input.clean_funder_blocker {
            Some(blocker) => seq![
                MismatchView::CleanFunderRequired {
                    account_chain_execution_id: blocker.account_chain_execution_id,
                    role: blocker.role,
                },
            ],
            None => Seq::empty(),
        });
        assert(views(r@) =~= expected);
    }
    let ghost incomplete = incomplete_findings(input.invalid_execution_ids@);
    let mut j: usize = 0;
    assert(expected + incomplete.take(0) =~= expected);
    while j < input.invalid_execution_ids.len()
        invariant
            j <= input.invalid_execution_ids.len(),
            incomplete == incomplete_findings(input.invalid_execution_ids@),
            views(r@) == expected + incomplete.take(j as int),
        decreases input.invalid_execution_ids.len() - j,
    {
        let finding = AccountRecoveryMismatch::IncidentExecutionIncomplete {
            account_chain_execution_id: input.invalid_execution_ids[j],
        };
        proof {
            lemma_views_push(r@, finding);
            assert((expected + incomplete.take(j as int)).push(finding@) =~= expected
                + incomplete.take(j + 1));
        }
        r.push(finding);
        j = j + 1;
    }
    proof {
        assert(incomplete.take(j as int) =~= incomplete);
        expected = expected + incomplete;
    }
    if !input.reserved_usd.is_zero() {
        r.push(
            AccountRecoveryMismatch::ReservedCapitalPresent { reserved_usd: input.reserved_usd },
        );
    }
    proof {
        expected = expected + finding_if(
            input.reserved_usd@ != 0,
            MismatchView::ReservedCapitalPresent { reserved_usd: input.reserved_usd },
        );
        assert(views(r@) =~= expected);
    }
    if !input.clob_collateral_usd.same(input.chain_collateral_usd) {
        r.push(
            AccountRecoveryMismatch::CollateralMismatch {
                clob_usd: input.clob_collateral_usd,
                chain_usd: input.chain_collateral_usd,
            },
        );
    }
    proof {
        expected = expected + finding_if(
            input.clob_collateral_usd@ != input.chain_collateral_usd@,
            MismatchView::CollateralMismatch {
                clob_usd: input.clob_collateral_usd,
                chain_usd: input.chain_collateral_usd,
            },
        );
        assert(views(r@) =~= expected);
        assert(expected =~= input@.blockers());
    }
    r
}

fn compare_position_sources(input: &AccountRecoveryAssessmentInput) -> (r: Option<
    Vec<AccountRecoveryMismatch>,
>)
    ensures
        ({
            let differences = source_differences(
                token_union(
                    balance_tokens(input.data_api_positions@),
                    balance_tokens(input.chain_positions@),
                ),
                balance_entries(input.data_api_positions@),
                balance_entries(input.chain_positions@),
            );
            match r {
                Some(mismatches) => differences == Some(views(mismatches@)),
                None => differences is None,
            }
        }),
{
    let ghost data_api = balance_entries(input.data_api_positions@);
    let ghost chain = balance_entries(input.chain_positions@);
    let ghost left = balance_tokens(input.data_api_positions@);
    let mut own: Vec<TokenId> = Vec::new();
    let mut i: usize = 0;
    while i < input.data_api_positions.len()
        invariant
            i <= input.data_api_positions.len(),
            left == balance_tokens(input.data_api_positions@),
            own@ == left.take(i as int),
        decreases input.data_api_positions.len() - i,
    {
        own.push(input.data_api_positions[i].token_id.clone());
        assert(own@ =~= left.take(i + 1));
        i = i + 1;
    }
    assert(own@ =~= left);
    let tokens = union_of_tokens(own, &input.chain_positions);
    let mut r: Vec<AccountRecoveryMismatch> = Vec::new();
    let mut k: usize = 0;
    assert(tokens@.take(0) =~= Seq::<TokenId>::empty());
    assert(views(r@) =~= Seq::<MismatchView>::empty());
    while k < tokens.len()
        invariant
            k <= tokens.len(),
            tokens@ == token_union(
                balance_tokens(input.data_api_positions@),
                balance_tokens(input.chain_positions@),
            ),
            data_api == balance_entries(input.data_api_positions@),
            chain == balance_entries(input.chain_positions@),
            source_differences(tokens@.take(k as int), data_api, chain) == Some(views(r@)),
        decreases tokens.len() - k,
    {
        assert(tokens@.take(k + 1).drop_last() =~= tokens@.take(k as int));
        assert(tokens@.take(k + 1).last() == tokens@[k as int]);
        match (
            add_balances(&input.data_api_positions, &tokens[k]),
            add_balances(&input.chain_positions, &tokens[k]),
        ) {
            (Some(data_api_shares), Some(chain_shares)) => {
                if !data_api_shares.same(chain_shares) {
                    let finding = AccountRecoveryMismatch::PositionSourceMismatch {
                        token_id: tokens[k].clone(),
                        data_api_shares,
                        chain_shares,
                    };
                    proof {
                        lemma_views_push(r@, finding);
                    }
                    r.push(finding);
                }
            },
            _ => {
                proof {
                    lemma_source_differences_prefix(tokens@, data_api, chain, k + 1);
                }
                return None;
            },
        }
        k = k + 1;
    }
    assert(tokens@.take(k as int) =~= tokens@);
    Some(r)
}

fn append_all(first: Vec<AccountRecoveryMismatch>, second: Vec<AccountRecoveryMismatch>) -> (r: Vec<
    AccountRecoveryMismatch,
>)
    ensures
        views(r@) == views(first@) + views(second@),
{
    let mut r = first;
    let mut second = second;
    let ghost a = r@;
    let ghost b = second@;
    r.append(&mut second);
    assert(r@ == a + b);
    assert(views(a + b) =~= views(a) + views(b));
    r
}

fn source_mismatches(input: &AccountRecoveryAssessmentInput) -> (r: Option<
    Vec<AccountRecoveryMismatch>,
>)
    ensures
        match r {
            Some(mismatches) => input@.source_findings() == Some(views(mismatches@)),
            None => input@.source_findings() is None,
        },
{
    let differences = match compare_position_sources(input) {
        Some(differences) => differences,
        None => {
            return None;
        },
    };
    let mut r = append_all(source_blockers(input), differences);
    let ghost before = views(r@);
    if input.pending_settlement_count > 0 {
        r.push(
            AccountRecoveryMismatch::PendingSettlement { count: input.pending_settlement_count },
        );
    }
    assert(views(r@) =~= before + finding_if(
        input.pending_settlement_count > 0,
        MismatchView::PendingSettlement { count: input.pending_settlement_count },
    ));
    Some(r)
}

/// Whether the incident has a sale with this identity.
pub open spec fn is_sale(
    executions: Seq<AccountRecoveryExecutionDelta>,
    id: AccountChainExecutionId,
) -> bool {
    exists|i: int|
        0 <= i < executions.len() && (#[trigger] executions[i]).account_chain_execution_id == id
            && executions[i].shares_delta@ < 0
}

/// A finding per explicit allocation that belongs to no sale of the incident.
pub open spec fn stray_allocations(
    explicit: Seq<AccountRecoverySellAllocation>,
    executions: Seq<AccountRecoveryExecutionDelta>,
) -> Seq<MismatchView>
    decreases explicit.len(),
{
    if explicit.len() == 0 {
        Seq::empty()
    } else {
        let front = stray_allocations(explicit.drop_last(), executions);
        let id = explicit.last().account_chain_execution_id;
        if is_sale(executions, id) {
            front
        } else {
            front.push(MismatchView::LotAllocationInvalid { account_chain_execution_id: id })
        }
    }
}

fn find_stray_allocations(input: &AccountRecoveryAssessmentInput) -> (r: Vec<
    AccountRecoveryMismatch,
>)
    ensures
        views(r@) == stray_allocations(
            input.explicit_sell_allocations@,
            input.incident_executions@,
        ),
{
    let explicit = &input.explicit_sell_allocations;
    let executions = &input.incident_executions;
    let mut r: Vec<AccountRecoveryMismatch> = Vec::new();
    let mut i: usize = 0;
    assert(explicit@.take(0) =~= Seq::<AccountRecoverySellAllocation>::empty());
    assert(views(r@) =~= Seq::<MismatchView>::empty());
    while i < explicit.len()
        invariant
            i <= explicit.len(),
            views(r@) == stray_allocations(explicit@.take(i as int), executions@),
        decreases explicit.len() - i,
    {
        assert(explicit@.take(i + 1).drop_last() =~= explicit@.take(i as int));
        assert(explicit@.take(i + 1).last() == explicit@[i as int]);
        let id = explicit[i].account_chain_execution_id;
        let mut found = false;
        let mut j: usize = 0;
        while j < executions.len()
            invariant
                j <= executions.len(),
                found <==> exists|k: int|
                    0 <= k < j && (#[trigger] executions@[k]).account_chain_execution_id == id
                        && executions@[k].shares_delta@ < 0,
            decreases executions.len() - j,
        {
            if executions[j].account_chain_execution_id == id
                && executions[j].shares_delta.is_negative() {
                found = true;
            }
            j = j + 1;
        }
        if !found {
            let finding = AccountRecoveryMismatch::LotAllocationInvalid {
                account_chain_execution_id: id,
            };
            proof {
                lemma_views_push(r@, finding);
            }
            r.push(finding);
        }
        i = i + 1;
    }
    assert(explicit@.take(i as int) =~= explicit@);
    r
}

/// An open lot before the incident's executions are applied.
pub open spec fn untouched(lot: AccountRecoveryLotBalance) -> WorkingLot {
    WorkingLot::Existing(
        AccountRecoveryLotAllocation {
            strategy_position_lot_id: lot.strategy_position_lot_id,
            token_id: lot.token_id,
            before_shares: lot.shares,
            after_shares: lot.shares,
            before_cost_usd: lot.cost_usd,
            after_cost_usd: lot.cost_usd,
            realized_pnl_delta_usd: Decimal::of_parts(0, 0),
            closed_at: None,
        },
    )
}

/// The existing lots among these, in order.
pub open spec fn existing_of(lots: Seq<WorkingLot>) -> Seq<AccountRecoveryLotAllocation>
    decreases lots.len(),
{
    if lots.len() == 0 {
        Seq::empty()
    } else {
        match lots.last() {
            WorkingLot::Existing(lot) => existing_of(lots.drop_last()).push(lot),
            WorkingLot::Created(_) => existing_of(lots.drop_last()),
        }
    }
}

/// The created lots among these, in order.
pub open spec fn created_of(lots: Seq<WorkingLot>) -> Seq<AccountRecoveryCreatedLot>
    decreases lots.len(),
{
    if lots.len() == 0 {
        Seq::empty()
    } else {
        match lots.last() {
            WorkingLot::Created(lot) => created_of(lots.drop_last()).push(lot),
            WorkingLot::Existing(_) => created_of(lots.drop_last()),
        }
    }
}

/// Result of an assessment with its lists as sequences.
#[verifier::ext_equal]
pub ghost struct AssessmentView {
    pub evidence: InputView,
    pub allocations: Seq<AccountRecoveryLotAllocation>,
    pub created_lots: Seq<AccountRecoveryCreatedLot>,
    pub findings: Seq<MismatchView>,
}

impl InputView {
    /// The ledger before the first execution is applied.
    pub open spec fn opening(self) -> LedgerView {
        LedgerView {
            lots: self.open_lots.map_values(|l: AccountRecoveryLotBalance| untouched(l)),
            findings: stray_allocations(self.explicit_sell_allocations, self.incident_executions),
        }
    }

    /// The ledger after the incident's executions.
    pub open spec fn closing(self) -> Option<LedgerView> {
        self.opening().applied_all(self.incident_executions, self.explicit_sell_allocations)
    }

    /// The assessment of an input: its canonical form without the capture
    /// time, the lots after the incident grouped by token, and every finding.
    /// `None` where an amount is not representable.
    pub open spec fn assessed(self) -> Option<AssessmentView> {
        let input = self.canonical();
        match (input.source_findings(), input.closing()) {
            (Some(source), Some(ledger)) => {
                let lots = arranged(ledger.lots);
                match ledger_differences(
                    token_union(lot_tokens(lots), balance_tokens(input.chain_positions)),
                    lot_entries(lots),
                    balance_entries(input.chain_positions),
                ) {
                    None => None,
                    Some(differences) => Some(
                        AssessmentView {
                            evidence: input.captured_at(Timestamp::unix_epoch()),
                            allocations: existing_of(lots),
                            created_lots: created_of(lots),
                            findings: source + (ledger.findings + differences),
                        },
                    ),
                }
            },
            _ => None,
        }
    }
}

/// Result of an assessment. Its identity is taken over all four parts; the
/// evidence carries no capture time.
#[derive(Debug, PartialEq, Eq)]
pub struct AccountRecoveryAssessment {
    pub evidence: AccountRecoveryAssessmentInput,
    pub allocations: Vec<AccountRecoveryLotAllocation>,
    pub created_lots: Vec<AccountRecoveryCreatedLot>,
    pub mismatches: Vec<AccountRecoveryMismatch>,
}

impl View for AccountRecoveryAssessment {
    type V = AssessmentView;

    open spec fn view(&self) -> AssessmentView {
        AssessmentView {
            evidence: self.evidence@,
            allocations: self.allocations@,
            created_lots: self.created_lots@,
            findings: views(self.mismatches@),
        }
    }
}

impl AccountRecoveryAssessment {
    /// Whether the account is reconciled: nothing was found.
    pub fn converged(&self) -> (r: bool)
        ensures
            r == (self@.findings.len() == 0),
    {
        self.mismatches.len() == 0
    }
}

fn allocate_lots(input: &AccountRecoveryAssessmentInput) -> (r: Option<
    (
        Vec<AccountRecoveryLotAllocation>,
        Vec<AccountRecoveryCreatedLot>,
        Vec<AccountRecoveryMismatch>,
    ),
>)
    ensures
        ({
            let ledger = input@.closing();
            let lots = arranged(ledger->0.lots);
            let differences = ledger_differences(
                token_union(lot_tokens(lots), balance_tokens(input@.chain_positions)),
                lot_entries(lots),
                balance_entries(input@.chain_positions),
            );
            match r {
                Some((allocations, created, mismatches)) => {
                    &&& ledger is Some
                    &&& differences is Some
                    &&& allocations@ == existing_of(lots)
                    &&& created@ == created_of(lots)
                    &&& views(mismatches@) == ledger->0.findings + differences->0
                },
                None => ledger is None || differences is None,
            }
        }),
{
    let mut lots: Vec<WorkingLot> = Vec::new();
    let ghost opening = input@.opening();
    let mut i: usize = 0;
    assert(opening.lots.take(0) =~= Seq::<WorkingLot>::empty());
    while i < input.open_lots.len()
        invariant
            i <= input.open_lots.len(),
            opening == input@.opening(),
            lots@ == opening.lots.take(i as int),
        decreases input.open_lots.len() - i,
    {
        let lot = &input.open_lots[i];
        lots.push(
            WorkingLot::Existing(
                AccountRecoveryLotAllocation {
                    strategy_position_lot_id: lot.strategy_position_lot_id,
                    token_id: lot.token_id.clone(),
                    before_shares: lot.shares,
                    after_shares: lot.shares,
                    before_cost_usd: lot.cost_usd,
                    after_cost_usd: lot.cost_usd,
                    realized_pnl_delta_usd: Decimal::zero(),
                    closed_at: None,
                },
            ),
        );
        assert(lots@ =~= opening.lots.take(i + 1));
        i = i + 1;
    }
    assert(lots@ =~= opening.lots);
    let mut ledger = RecoveryLedger { lots, mismatches: find_stray_allocations(input) };
    let ghost executions = input.incident_executions@;
    let ghost explicit = input.explicit_sell_allocations@;
    let mut j: usize = 0;
    assert(executions.take(0) =~= Seq::<AccountRecoveryExecutionDelta>::empty());
    while j < input.incident_executions.len()
        invariant
            j <= input.incident_executions.len(),
            opening == input@.opening(),
            executions == input.incident_executions@,
            explicit == input.explicit_sell_allocations@,
            opening.applied_all(executions.take(j as int), explicit) == Some(ledger@),
        decreases input.incident_executions.len() - j,
    {
        assert(executions.take(j + 1).drop_last() =~= executions.take(j as int));
        assert(executions.take(j + 1).last() == executions[j as int]);
        match apply_execution(
            ledger,
            &input.incident_executions[j],
            &input.explicit_sell_allocations,
        ) {
            Some(after) => {
                ledger = after;
            },
            None => {
                proof {
                    lemma_applied_prefix(opening, executions, explicit, j + 1);
                }
                return None;
            },
        }
        j = j + 1;
    }
    assert(executions.take(j as int) =~= executions);
    let RecoveryLedger { lots, mismatches } = ledger;
    let mut lots = lots;
    arrange(&mut lots);
    let mut allocations: Vec<AccountRecoveryLotAllocation> = Vec::new();
    let mut created: Vec<AccountRecoveryCreatedLot> = Vec::new();
    let mut own: Vec<TokenId> = Vec::new();
    let ghost tokens_of_lots = lot_tokens(lots@);
    let mut k: usize = 0;
    assert(lots@.take(0) =~= Seq::<WorkingLot>::empty());
    while k < lots.len()
        invariant
            k <= lots.len(),
            tokens_of_lots == lot_tokens(lots@),
            allocations@ == existing_of(lots@.take(k as int)),
            created@ == created_of(lots@.take(k as int)),
            own@ == tokens_of_lots.take(k as int),
        decreases lots.len() - k,
    {
        assert(lots@.take(k + 1).drop_last() =~= lots@.take(k as int));
        assert(lots@.take(k + 1).last() == lots@[k as int]);
        own.push(lots[k].token().clone());
        assert(own@ =~= tokens_of_lots.take(k + 1));
        match &lots[k] {
            WorkingLot::Existing(lot) => {
                allocations.push(lot.clone());
            },
            WorkingLot::Created(lot) => {
                created.push(lot.clone());
            },
        }
        k = k + 1;
    }
    assert(lots@.take(k as int) =~= lots@);
    assert(own@ =~= tokens_of_lots);
    let tokens = union_of_tokens(own, &input.chain_positions);
    let ghost held = lot_entries(lots@);
    let ghost chain = balance_entries(input.chain_positions@);
    let ghost found = views(mismatches@);
    let mut mismatches = mismatches;
    let ghost mut differences = Seq::<MismatchView>::empty();
    let mut m: usize = 0;
    assert(tokens@.take(0) =~= Seq::<TokenId>::empty());
    assert(found + differences =~= found);
    while m < tokens.len()
        invariant
            m <= tokens.len(),
            held == lot_entries(lots@),
            chain == balance_entries(input.chain_positions@),
            ledger_differences(tokens@.take(m as int), held, chain) == Some(differences),
            views(mismatches@) == found + differences,
            lots@ == arranged(input@.closing()->0.lots),
            tokens@ == token_union(lot_tokens(lots@), balance_tokens(input.chain_positions@)),
        decreases tokens.len() - m,
    {
        assert(tokens@.take(m + 1).drop_last() =~= tokens@.take(m as int));
        assert(tokens@.take(m + 1).last() == tokens@[m as int]);
        match (add_lots(&lots, &tokens[m]), add_balances(&input.chain_positions, &tokens[m])) {
            (Some(expected_shares), Some(venue_shares)) => {
                if !expected_shares.same(venue_shares) {
                    let finding = AccountRecoveryMismatch::PositionLedgerMismatch {
                        token_id: tokens[m].clone(),
                        expected_shares,
                        venue_shares,
                    };
                    proof {
                        lemma_views_push(mismatches@, finding);
                        assert((found + differences).push(finding@) =~= found + differences.push(
                            finding@,
                        ));
                        differences = differences.push(finding@);
                    }
                    mismatches.push(finding);
                }
            },
            _ => {
                proof {
                    lemma_ledger_differences_prefix(tokens@, held, chain, m + 1);
                }
                return None;
            },
        }
        m = m + 1;
    }
    assert(tokens@.take(m as int) =~= tokens@);
    Some((allocations, created, mismatches))
}

proof fn lemma_applied_prefix(
    ledger: LedgerView,
    executions: Seq<AccountRecoveryExecutionDelta>,
    explicit: Seq<AccountRecoverySellAllocation>,
    n: int,
)
    requires
        0 <= n <= executions.len(),
        ledger.applied_all(executions.take(n), explicit) is None,
    ensures
        ledger.applied_all(executions, explicit) is None,
    decreases executions.len() - n,
{
    if n == executions.len() {
        assert(executions.take(n) =~= executions);
    } else {
        assert(executions.take(n + 1).drop_last() =~= executions.take(n));
        lemma_applied_prefix(ledger, executions, explicit, n + 1);
    }
}

/// Assesses whether an account is reconciled after an incident.
pub struct AccountRecoveryReconciler;

impl AccountRecoveryReconciler {
    /// Assess a captured account.
    pub fn assess(
        input: AccountRecoveryAssessmentInput,
    ) -> (r: Result<AccountRecoveryAssessment, ExecutionError>)
        ensures
            match r {
                Ok(assessment) => input@.assessed() == Some(assessment@),
                Err(error) => error@ == ErrorView::DecimalOverflow && input@.assessed() is None,
            },
    {
        let ghost original = input@;
        let mut input = input;
        canonicalize(&mut input);
        let source = match source_mismatches(&input) {
            Some(mismatches) => mismatches,
            None => {
                return Err(ExecutionError::DecimalOverflow);
            },
        };
        match allocate_lots(&input) {
            None => Err(ExecutionError::DecimalOverflow),
            Some((allocations, created_lots, ledger_mismatches)) => {
                let mismatches = append_all(source, ledger_mismatches);
                input.observed_at = Timestamp::epoch();
                let r = AccountRecoveryAssessment {
                    evidence: input,
                    allocations,
                    created_lots,
                    mismatches,
                };
                assert(r@ =~= original.assessed()->0);
                Ok(r)
            },
        }
    }
}

/// The time at which the account was captured has no part in the assessment.
pub proof fn capture_time_is_immaterial(
    input: InputView,
    first: Timestamp,
    second: Timestamp,
)
    ensures
        input.captured_at(first).assessed() == input.captured_at(second).assessed(),
{
    let epoch = Timestamp::unix_epoch();
    let a = input.captured_at(first).canonical();
    let b = input.captured_at(second).canonical();
    assert(a.captured_at(epoch) =~= b.captured_at(epoch));
    assert(a.source_findings() == b.source_findings());
    assert(a.closing() == b.closing());
}

proof fn lemma_repeats_remain(items: Seq<Ident>)
    requires
        items.len() > 0,
    ensures
        without_repeats(items).len() > 0,
    decreases items.len(),
{
    if items.len() > 1 {
        lemma_repeats_remain(items.drop_last());
    }
}

proof fn lemma_neighbours_remain(items: Seq<u128>)
    requires
        items.len() > 0,
    ensures
        without_equal_neighbours(items).len() > 0,
    decreases items.len(),
{
    if items.len() > 1 {
        lemma_neighbours_remain(items.drop_last());
    }
}

/// An account that is reconciled is paused and quiet: a stable venue without
/// open orders, no reserved capital, matching collateral, nothing unmapped,
/// incomplete or pending, and no need for a clean funder.
pub proof fn convergence_means_clean_sources(input: InputView)
    requires
        input.assessed() is Some,
        input.assessed()->0.findings.len() == 0,
    ensures
        input.pause_confirmed,
        input.venue_snapshot_stable,
        input.open_order_ids.len() == 0,
        input.unmapped_token_ids.len() == 0,
        input.invalid_execution_ids.len() == 0,
        input.clean_funder_blocker is None,
        input.reserved_usd@ == 0,
        input.clob_collateral_usd@ == input.chain_collateral_usd@,
        input.pending_settlement_count == 0,
{
    let canonical = input.canonical();
    let source = canonical.source_findings()->0;
    let blockers = canonical.blockers();
    assert(source.len() == 0);
    assert(blockers.len() <= source.len());
    crate::sorting::arranging_sorts(input.open_order_ids);
    crate::sorting::arranging_sorts(input.unmapped_token_ids);
    crate::sorting::arranging_sorts(input.invalid_execution_ids);
    if input.open_order_ids.len() > 0 {
        lemma_repeats_remain(arranged(input.open_order_ids));
    }
    if input.unmapped_token_ids.len() > 0 {
        lemma_repeats_remain(arranged(input.unmapped_token_ids));
        assert(metadata_findings(canonical.unmapped_token_ids).len() > 0);
    }
    if input.invalid_execution_ids.len() > 0 {
        lemma_neighbours_remain(arranged(input.invalid_execution_ids));
        assert(incomplete_findings(canonical.invalid_execution_ids).len() > 0);
    }
}

/// A sale of more than the open lots hold is refused as incomplete, and no lot
/// changes.
pub proof fn overselling_fails_closed(
    ledger: LedgerView,
    execution: AccountRecoveryExecutionDelta,
    explicit: Seq<AccountRecoverySellAllocation>,
)
    requires
        execution.shares_delta@ < 0,
        execution.exact_fee_usd@ <= execution.principal_usd@,
        execution.principal_usd.difference(execution.exact_fee_usd) is Some,
        total_shares(open_in(ledger.lots, execution.token_id@)) is Some,
        execution.shares_delta.opposite()@ > total_shares(
            open_in(ledger.lots, execution.token_id@),
        )->0@,
    ensures
        ledger.applied(execution, explicit) == Some(
            ledger.with_finding(
                MismatchView::IncidentExecutionIncomplete {
                    account_chain_execution_id: execution.account_chain_execution_id,
                },
            ),
        ),
        ledger.applied(execution, explicit)->0.lots == ledger.lots,
{
}

/// A sale that could come from several lots without emptying them waits for an
/// operator, with all candidates named, and no lot changes.
pub proof fn ambiguous_sales_wait_for_an_operator(
    ledger: LedgerView,
    execution: AccountRecoveryExecutionDelta,
    explicit: Seq<AccountRecoverySellAllocation>,
)
    requires
        execution.shares_delta@ < 0,
        execution.exact_fee_usd@ <= execution.principal_usd@,
        execution.principal_usd.difference(execution.exact_fee_usd) is Some,
        open_in(ledger.lots, execution.token_id@).len() > 1,
        total_shares(open_in(ledger.lots, execution.token_id@)) is Some,
        execution.shares_delta.opposite()@ < total_shares(
            open_in(ledger.lots, execution.token_id@),
        )->0@,
        chosen(explicit, execution.account_chain_execution_id).len() == 0,
    ensures
        ledger.applied(execution, explicit) is Some,
        ledger.applied(execution, explicit)->0.lots == ledger.lots,
        ledger.applied(execution, explicit)->0.findings == ledger.findings.push(
            MismatchView::LotAllocationRequired {
                account_chain_execution_id: execution.account_chain_execution_id,
                token_id: execution.token_id@,
                sold_shares: execution.shares_delta.opposite(),
                candidate_lot_ids: open_in(ledger.lots, execution.token_id@).map_values(
                    |p: (StrategyPositionLotId, Decimal)| p.0,
                ),
            },
        ),
{
}

/// Whether a deduction takes no more than an open lot of its identity holds.
pub open spec fn fits_a_lot(
    deduction: (StrategyPositionLotId, Decimal),
    open: Seq<(StrategyPositionLotId, Decimal)>,
) -> bool {
    exists|j: int|
        0 <= j < open.len() && (#[trigger] open[j]).0 == deduction.0 && deduction.1@ <= open[j].1@
}

proof fn lemma_shares_found(
    open: Seq<(StrategyPositionLotId, Decimal)>,
    lot: StrategyPositionLotId,
)
    requires
        shares_of(open, lot) is Some,
    ensures
        exists|j: int|
            0 <= j < open.len() && (#[trigger] open[j]).0 == lot && open[j].1 == shares_of(
                open,
                lot,
            )->0,
    decreases open.len(),
{
    let front = open.drop_last();
    if shares_of(front, lot) is Some {
        lemma_shares_found(front, lot);
        let j = choose|j: int|
            0 <= j < front.len() && (#[trigger] front[j]).0 == lot && front[j].1 == shares_of(
                front,
                lot,
            )->0;
        assert(open[j] == front[j]);
    } else {
        assert(open[open.len() - 1].0 == lot);
    }
}

proof fn lemma_in_order_fits(open: Seq<(StrategyPositionLotId, Decimal)>, sold: Decimal, i: int)
    requires
        first_in_first_out(open, sold) is Some,
        0 <= i < first_in_first_out(open, sold)->0.len(),
    ensures
        fits_a_lot(first_in_first_out(open, sold)->0[i], open),
    decreases open.len(),
{
    let part = open[0].1.lesser(sold);
    let rest = sold.difference(part)->0;
    let deduction = first_in_first_out(open, sold)->0[i];
    if i == 0 {
        assert(open[0].0 == deduction.0 && deduction.1@ <= open[0].1@);
    } else {
        let others = open.drop_first();
        assert(deduction == first_in_first_out(others, rest)->0[i - 1]);
        lemma_in_order_fits(others, rest, i - 1);
        let j = choose|j: int|
            0 <= j < others.len() && (#[trigger] others[j]).0 == deduction.0 && deduction.1@
                <= others[j].1@;
        assert(open[j + 1] == others[j]);
    }
}

proof fn lemma_selected_fits(
    allocations: Seq<AccountRecoverySellAllocation>,
    open: Seq<(StrategyPositionLotId, Decimal)>,
    i: int,
)
    requires
        selection(allocations, open) is Total,
        0 <= i < allocations.len(),
    ensures
        fits_a_lot(
            (allocations[i].strategy_position_lot_id, allocations[i].shares),
            open,
        ),
    decreases allocations.len(),
{
    if i < allocations.len() - 1 {
        assert(allocations.drop_last()[i] == allocations[i]);
        lemma_selected_fits(allocations.drop_last(), open, i);
    } else {
        lemma_shares_found(open, allocations[i].strategy_position_lot_id);
    }
}

/// Every deduction of a sale fits an open lot.
pub proof fn deductions_stay_within_the_lots(
    open: Seq<(StrategyPositionLotId, Decimal)>,
    sold: Decimal,
    allocations: Seq<AccountRecoverySellAllocation>,
    execution: AccountChainExecutionId,
    token: Seq<char>,
    i: int,
)
    requires
        sale_plan(open, sold, allocations, execution, token) is Deduct,
        0 <= i < sale_plan(open, sold, allocations, execution, token)->Deduct_0.len(),
    ensures
        fits_a_lot(sale_plan(open, sold, allocations, execution, token)->Deduct_0[i], open),
{
    let available = total_shares(open)->0;
    if open.len() == 1 || sold@ == available@ {
        lemma_in_order_fits(open, sold, i);
    } else {
        lemma_selected_fits(allocations, open, i);
    }
}

/// A sale changes lots of its own token only, and no lot changes its identity.
pub proof fn a_sale_touches_only_its_token(
    lots: Seq<WorkingLot>,
    token: Seq<char>,
    deductions: Seq<(StrategyPositionLotId, Decimal)>,
    sold: Decimal,
    net_proceeds: Usd,
    exited_at: Timestamp,
)
    requires
        deducted(lots, token, deductions, sold, net_proceeds, exited_at) is Some,
    ensures
        ({
            let (after, _complete) = deducted(
                lots,
                token,
                deductions,
                sold,
                net_proceeds,
                exited_at,
            )->0;
            &&& after.len() == lots.len()
            &&& forall|i: int|
                #![trigger after[i]]
                0 <= i < lots.len() ==> after[i].spec_id() == lots[i].spec_id()
                    && after[i].spec_token() == lots[i].spec_token() && (lots[i].spec_token()@
                    != token ==> after[i] == lots[i])
        }),
    decreases deductions.len(),
{
    if deductions.len() > 0 {
        let front = deductions.drop_last();
        a_sale_touches_only_its_token(lots, token, front, sold, net_proceeds, exited_at);
        let (booked, complete) = deducted(lots, token, front, sold, net_proceeds, exited_at)->0;
        if complete {
            lemma_position_matches(booked, token, deductions.last().0);
            match position_of(booked, token, deductions.last().0) {
                Some(position) => {
                    let lot = booked[position].after_sale(
                        deductions.last().1,
                        sold,
                        net_proceeds,
                        exited_at,
                    )->0;
                    let after = booked.update(position, lot);
                    assert forall|i: int|
                        #![trigger after[i]]
                        0 <= i < lots.len() implies after[i].spec_id() == lots[i].spec_id()
                        && after[i].spec_token() == lots[i].spec_token() && (
                    lots[i].spec_token()@ != token ==> after[i] == lots[i]) by {
                        assert(booked[i].spec_id() == lots[i].spec_id());
                    }
                },
                None => {},
            }
        }
    }
}

proof fn lemma_position_matches(lots: Seq<WorkingLot>, token: Seq<char>, id: StrategyPositionLotId)
    ensures
        position_of(lots, token, id) matches Some(position) ==> 0 <= position < lots.len()
            && lots[position].spec_token()@ == token && lots[position].spec_id() == id,
    decreases lots.len(),
{
    if lots.len() > 0 {
        lemma_position_matches(lots.drop_last(), token, id);
    }
}

/// The lots after these deductions; as they were where an amount is not
/// representable.
pub open spec fn booked(
    lots: Seq<WorkingLot>,
    token: Seq<char>,
    deductions: Seq<(StrategyPositionLotId, Decimal)>,
    sold: Decimal,
    net_proceeds: Usd,
    exited_at: Timestamp,
) -> Seq<WorkingLot> {
    match deducted(lots, token, deductions, sold, net_proceeds, exited_at) {
        Some((after, _)) => after,
        None => lots,
    }
}

/// Whether all of these deductions are booked.
pub open spec fn booked_completely(
    lots: Seq<WorkingLot>,
    token: Seq<char>,
    deductions: Seq<(StrategyPositionLotId, Decimal)>,
    sold: Decimal,
    net_proceeds: Usd,
    exited_at: Timestamp,
) -> bool {
    match deducted(lots, token, deductions, sold, net_proceeds, exited_at) {
        Some((_, complete)) => complete,
        None => false,
    }
}

proof fn lemma_position_found(
    lots: Seq<WorkingLot>,
    token: Seq<char>,
    id: StrategyPositionLotId,
    j: int,
)
    requires
        0 <= j < lots.len(),
        lots[j].spec_token()@ == token,
        lots[j].spec_id() == id,
    ensures
        position_of(lots, token, id) is Some,
    decreases lots.len(),
{
    if j < lots.len() - 1 {
        assert(lots.drop_last()[j] == lots[j]);
        lemma_position_found(lots.drop_last(), token, id, j);
    }
}

proof fn lemma_open_is_in_the_ledger(lots: Seq<WorkingLot>, token: Seq<char>, i: int)
    requires
        0 <= i < open_in(lots, token).len(),
    ensures
        exists|j: int|
            0 <= j < lots.len() && (#[trigger] lots[j]).spec_token()@ == token
                && lots[j].spec_id() == open_in(lots, token)[i].0,
    decreases lots.len(),
{
    let front = lots.drop_last();
    let before = open_in(front, token);
    if i < before.len() {
        lemma_open_is_in_the_ledger(front, token, i);
        let j = choose|j: int|
            0 <= j < front.len() && (#[trigger] front[j]).spec_token()@ == token
                && front[j].spec_id() == before[i].0;
        assert(lots[j] == front[j]);
        assert(open_in(lots, token)[i] == before[i]);
    } else {
        assert(lots[lots.len() - 1].spec_token()@ == token);
    }
}

proof fn lemma_every_deduction_finds_its_lot(
    lots: Seq<WorkingLot>,
    token: Seq<char>,
    deductions: Seq<(StrategyPositionLotId, Decimal)>,
    sold: Decimal,
    net_proceeds: Usd,
    exited_at: Timestamp,
)
    requires
        deducted(lots, token, deductions, sold, net_proceeds, exited_at) is Some,
        forall|i: int|
            0 <= i < deductions.len() ==> fits_a_lot(
                #[trigger] deductions[i],
                open_in(lots, token),
            ),
    ensures
        booked_completely(lots, token, deductions, sold, net_proceeds, exited_at),
    decreases deductions.len(),
{
    if deductions.len() > 0 {
        let front = deductions.drop_last();
        assert forall|i: int| 0 <= i < front.len() implies fits_a_lot(
            #[trigger] front[i],
            open_in(lots, token),
        ) by {
            assert(front[i] == deductions[i]);
        }
        lemma_every_deduction_finds_its_lot(lots, token, front, sold, net_proceeds, exited_at);
        a_sale_touches_only_its_token(lots, token, front, sold, net_proceeds, exited_at);
        let before = booked(lots, token, front, sold, net_proceeds, exited_at);
        let open = open_in(lots, token);
        let deduction = deductions[deductions.len() - 1];
        assert(fits_a_lot(deduction, open));
        let i = choose|i: int|
            0 <= i < open.len() && (#[trigger] open[i]).0 == deduction.0 && deduction.1@
                <= open[i].1@;
        lemma_open_is_in_the_ledger(lots, token, i);
        let j = choose|j: int|
            0 <= j < lots.len() && (#[trigger] lots[j]).spec_token()@ == token
                && lots[j].spec_id() == open[i].0;
        assert(before[j].spec_id() == lots[j].spec_id());
        lemma_position_found(before, token, deduction.0, j);
    }
}

/// An execution either is booked without a finding, or adds one finding and
/// leaves every lot as it was.
pub proof fn findings_leave_the_lots(
    ledger: LedgerView,
    execution: AccountRecoveryExecutionDelta,
    explicit: Seq<AccountRecoverySellAllocation>,
)
    requires
        ledger.applied(execution, explicit) is Some,
    ensures
        ({
            let after = ledger.applied(execution, explicit)->0;
            ||| after.findings == ledger.findings
            ||| after.lots == ledger.lots && after.findings.len() == ledger.findings.len() + 1
                && after.findings.drop_last() == ledger.findings
        }),
{
    let after = ledger.applied(execution, explicit)->0;
    let id = execution.account_chain_execution_id;
    let token = execution.token_id@;
    let open = open_in(ledger.lots, token);
    let sold = execution.shares_delta.opposite();
    let allocations = chosen(explicit, id);
    if after.findings != ledger.findings {
        if execution.shares_delta@ < 0 && execution.exact_fee_usd@ <= execution.principal_usd@ {
            let net_proceeds = execution.principal_usd.difference(execution.exact_fee_usd)->0;
            match sale_plan(open, sold, allocations, id, token) {
                SalePlan::Deduct(deductions) => {
                    assert forall|i: int| 0 <= i < deductions.len() implies fits_a_lot(
                        #[trigger] deductions[i],
                        open,
                    ) by {
                        deductions_stay_within_the_lots(open, sold, allocations, id, token, i);
                    }
                    lemma_every_deduction_finds_its_lot(
                        ledger.lots,
                        token,
                        deductions,
                        sold,
                        net_proceeds,
                        execution.available_at,
                    );
                    assert(false);
                },
                _ => {},
            }
        }
        assert(after.findings.drop_last() =~= ledger.findings);
    }
}

/// Whether a difference is exact.
pub open spec fn differs_exactly(left: Decimal, right: Decimal) -> bool {
    left.difference(right) matches Some(difference) && difference@ == left@ - right@
}

/// Whether a sum is exact.
pub open spec fn adds_exactly(left: Decimal, right: Decimal) -> bool {
    left.sum(right) matches Some(sum) && sum@ == left@ + right@
}

/// Whether the amounts of a lot change without rounding when shares are taken
/// from it.
pub open spec fn sells_exactly(
    lot: WorkingLot,
    deducted: Decimal,
    sold: Decimal,
    net_proceeds: Usd,
) -> bool {
    let cost_removed = scaled(lot.spec_cost(), deducted, lot.spec_remaining())->0;
    let proceeds = scaled(net_proceeds, deducted, sold)->0;
    &&& differs_exactly(proceeds, cost_removed)
    &&& differs_exactly(lot.spec_remaining(), deducted)
    &&& differs_exactly(lot.spec_cost(), cost_removed)
    &&& adds_exactly(lot.spec_pnl(), proceeds.difference(cost_removed)->0)
}

/// Taking shares from a lot keeps it in balance: the shares that leave are those
/// deducted, and what the profit gains is what the proceeds bring in over the
/// cost that leaves.
pub proof fn a_deduction_keeps_the_balance(
    lot: WorkingLot,
    deducted: Decimal,
    sold: Decimal,
    net_proceeds: Usd,
    exited_at: Timestamp,
)
    requires
        lot.after_sale(deducted, sold, net_proceeds, exited_at) is Some,
        sells_exactly(lot, deducted, sold, net_proceeds),
    ensures
        ({
            let after = lot.after_sale(deducted, sold, net_proceeds, exited_at)->0;
            let cost_removed = scaled(lot.spec_cost(), deducted, lot.spec_remaining())->0;
            let proceeds = scaled(net_proceeds, deducted, sold)->0;
            &&& after.spec_remaining()@ + deducted@ == lot.spec_remaining()@
            &&& after.spec_cost()@ + cost_removed@ == lot.spec_cost()@
            &&& after.spec_pnl()@ - lot.spec_pnl()@ == proceeds@ - cost_removed@
            &&& after.spec_pnl()@ - after.spec_cost()@ == lot.spec_pnl()@ - lot.spec_cost()@
                + proceeds@
        }),
{
}

/// Shares in lots, in units of `10^-28`.
pub open spec fn shares_in(lots: Seq<WorkingLot>) -> int
    decreases lots.len(),
{
    if lots.len() == 0 {
        0
    } else {
        shares_in(lots.drop_last()) + lots.last().spec_remaining()@
    }
}

/// What lots have gained over the cost that is still in them, in units of
/// `10^-28`.
pub open spec fn gained_over_cost(lots: Seq<WorkingLot>) -> int
    decreases lots.len(),
{
    if lots.len() == 0 {
        0
    } else {
        gained_over_cost(lots.drop_last()) + lots.last().spec_pnl()@ - lots.last().spec_cost()@
    }
}

/// Shares that deductions take, in units of `10^-28`.
pub open spec fn shares_taken(deductions: Seq<(StrategyPositionLotId, Decimal)>) -> int
    decreases deductions.len(),
{
    if deductions.len() == 0 {
        0
    } else {
        shares_taken(deductions.drop_last()) + deductions.last().1@
    }
}

/// Proceeds that deductions bring in, in units of `10^-28`.
pub open spec fn proceeds_of(
    deductions: Seq<(StrategyPositionLotId, Decimal)>,
    sold: Decimal,
    net_proceeds: Usd,
) -> int
    decreases deductions.len(),
{
    if deductions.len() == 0 {
        0
    } else {
        proceeds_of(deductions.drop_last(), sold, net_proceeds) + scaled(
            net_proceeds,
            deductions.last().1,
            sold,
        )->0@
    }
}

/// Whether every deduction of a sale is booked without rounding.
pub open spec fn books_exactly(
    lots: Seq<WorkingLot>,
    token: Seq<char>,
    deductions: Seq<(StrategyPositionLotId, Decimal)>,
    sold: Decimal,
    net_proceeds: Usd,
    exited_at: Timestamp,
) -> bool
    decreases deductions.len(),
{
    deductions.len() > 0 ==> {
        let front = deductions.drop_last();
        let before = booked(lots, token, front, sold, net_proceeds, exited_at);
        let position = position_of(before, token, deductions.last().0)->0;
        &&& books_exactly(lots, token, front, sold, net_proceeds, exited_at)
        &&& sells_exactly(before[position], deductions.last().1, sold, net_proceeds)
    }
}

proof fn lemma_totals_after_update(lots: Seq<WorkingLot>, position: int, lot: WorkingLot)
    requires
        0 <= position < lots.len(),
    ensures
        shares_in(lots.update(position, lot)) == shares_in(lots) - lots[position].spec_remaining()@
            + lot.spec_remaining()@,
        gained_over_cost(lots.update(position, lot)) == gained_over_cost(lots) - (
        lots[position].spec_pnl()@ - lots[position].spec_cost()@) + (lot.spec_pnl()@
            - lot.spec_cost()@),
    decreases lots.len(),
{
    let after = lots.update(position, lot);
    if position == lots.len() - 1 {
        assert(after.drop_last() =~= lots.drop_last());
    } else {
        lemma_totals_after_update(lots.drop_last(), position, lot);
        assert(after.drop_last() =~= lots.drop_last().update(position, lot));
        assert(after.last() == lots.last());
    }
}

/// A sale that is booked completely and without rounding keeps the ledger in
/// balance: the shares that leave it are those deducted, and its gain over cost
/// grows by exactly the proceeds.
pub proof fn a_sale_keeps_the_balance(
    lots: Seq<WorkingLot>,
    token: Seq<char>,
    deductions: Seq<(StrategyPositionLotId, Decimal)>,
    sold: Decimal,
    net_proceeds: Usd,
    exited_at: Timestamp,
)
    requires
        booked_completely(lots, token, deductions, sold, net_proceeds, exited_at),
        books_exactly(lots, token, deductions, sold, net_proceeds, exited_at),
    ensures
        ({
            let after = booked(lots, token, deductions, sold, net_proceeds, exited_at);
            &&& shares_in(after) + shares_taken(deductions) == shares_in(lots)
            &&& gained_over_cost(after) == gained_over_cost(lots) + proceeds_of(
                deductions,
                sold,
                net_proceeds,
            )
        }),
    decreases deductions.len(),
{
    if deductions.len() > 0 {
        let front = deductions.drop_last();
        a_sale_keeps_the_balance(lots, token, front, sold, net_proceeds, exited_at);
        let before = booked(lots, token, front, sold, net_proceeds, exited_at);
        lemma_position_matches(before, token, deductions.last().0);
        let position = position_of(before, token, deductions.last().0)->0;
        a_deduction_keeps_the_balance(
            before[position],
            deductions.last().1,
            sold,
            net_proceeds,
            exited_at,
        );
        lemma_totals_after_update(
            before,
            position,
            before[position].after_sale(deductions.last().1, sold, net_proceeds, exited_at)->0,
        );
    }
}

/// Whether two inputs differ only in the order of their lists.
pub open spec fn reordered(first: InputView, second: InputView) -> bool {
    &&& second == (InputView {
        open_order_ids: second.open_order_ids,
        unmapped_token_ids: second.unmapped_token_ids,
        invalid_execution_ids: second.invalid_execution_ids,
        data_api_positions: second.data_api_positions,
        chain_positions: second.chain_positions,
        open_lots: second.open_lots,
        incident_executions: second.incident_executions,
        explicit_sell_allocations: second.explicit_sell_allocations,
        ..first
    })
    &&& first.open_order_ids.to_multiset() == second.open_order_ids.to_multiset()
    &&& first.unmapped_token_ids.to_multiset() == second.unmapped_token_ids.to_multiset()
    &&& first.invalid_execution_ids.to_multiset() == second.invalid_execution_ids.to_multiset()
    &&& first.data_api_positions.to_multiset() == second.data_api_positions.to_multiset()
    &&& first.chain_positions.to_multiset() == second.chain_positions.to_multiset()
    &&& first.open_lots.to_multiset() == second.open_lots.to_multiset()
    &&& first.incident_executions.to_multiset() == second.incident_executions.to_multiset()
    &&& first.explicit_sell_allocations.to_multiset()
        == second.explicit_sell_allocations.to_multiset()
}

/// Whether the keys of an input tell the items of each of its lists apart.
pub open spec fn told_apart(input: InputView) -> bool {
    &&& keyed_apart(input.open_order_ids)
    &&& keyed_apart(input.unmapped_token_ids)
    &&& keyed_apart(input.data_api_positions)
    &&& keyed_apart(input.chain_positions)
    &&& keyed_apart(input.open_lots)
    &&& keyed_apart(input.incident_executions)
    &&& keyed_apart(input.explicit_sell_allocations)
}

/// Neither the time at which an account was captured nor the order in which its
/// lists were read has a part in the assessment: evidence, allocations, created
/// lots and findings are the same, and so is the identity taken over them.
pub proof fn captures_agree(first: InputView, second: InputView)
    requires
        reordered(first, second.captured_at(first.observed_at)),
        told_apart(first),
    ensures
        first.assessed() == second.assessed(),
{
    capture_order_is_immaterial(first, second.captured_at(first.observed_at));
    capture_time_is_immaterial(second, first.observed_at, second.observed_at);
    assert(second.captured_at(second.observed_at) == second);
}

/// The order in which orders, balances, lots, executions and allocations were
/// read has no part in the assessment, where their keys tell them apart.
pub proof fn capture_order_is_immaterial(first: InputView, second: InputView)
    requires
        reordered(first, second),
        told_apart(first),
    ensures
        first.assessed() == second.assessed(),
{
    assert(keyed_apart(first.invalid_execution_ids)) by {
        let ids = first.invalid_execution_ids;
        assert forall|i: int, j: int|
            #![trigger ids[i], ids[j]]
            0 <= i < ids.len() && 0 <= j < ids.len() && ids[i].sort_key()
                == ids[j].sort_key() implies ids[i] == ids[j] by {
            assert(ids[i].sort_key()[0] == ids[j].sort_key()[0]);
        }
    }
    arranging_forgets_order(first.open_order_ids, second.open_order_ids);
    arranging_forgets_order(first.unmapped_token_ids, second.unmapped_token_ids);
    arranging_forgets_order(first.invalid_execution_ids, second.invalid_execution_ids);
    arranging_forgets_order(first.data_api_positions, second.data_api_positions);
    arranging_forgets_order(first.chain_positions, second.chain_positions);
    arranging_forgets_order(first.open_lots, second.open_lots);
    arranging_forgets_order(first.incident_executions, second.incident_executions);
    arranging_forgets_order(
        first.explicit_sell_allocations,
        second.explicit_sell_allocations,
    );
    assert(first.canonical() =~= second.canonical());
}

} // verus!
