//! From a triggered exit to a venue sell order, and from the venue's answer to
//! the ledger.
//!
//! Realized profit is exact per lot: proceeds net of the fee, less the lot's
//! average cost. An unconfirmed answer leaves the position untouched and asks
//! for reconciliation.
use vstd::prelude::*;
use vstd::string::*;

use crate::decimal::{Price, Shares, Usd};
use crate::dispatcher::{
    expiration_instant, gtd_defect, gtd_expiration_at, outcome_detail, response_resolution,
    submit_response_resolution, write_outcome_detail,
};
use crate::error::{intent_denied, ErrorView, ExecutionError};
use crate::exit_monitor::{ExitOrderSpec, ExitReason, PositionLot};
use crate::order_rules::{ExitAmounts, PolymarketOrderRules, VenueOrderRuleError, SHARE_DIGITS};
use crate::orders::{
    clone_ident, clone_text, visible_fees, BookWalkFill, BookWalkOutcome, ClobMarketInfo,
    EntryMakerRebateTerms, ExecutionOrderInfo, ExecutionOrderPhase, ExecutionOrderState,
    NewExecutionOrder, NewReconciliation, PitFeeSchedule, PreparedVenueOrder,
    ReconciliationEvidence, ReconciliationView, VenueFundingAsset, VenueFundingEvidence,
    VenueOrderMetadata, VenueOutcome, VenueSubmitResult,
};
use crate::plans::ExitState;
use crate::time::Timestamp;
use crate::types::{
    same_ident, ContentHash, ExecutionOrderId, FillRequirement, Ident, MarketId, OrderId,
    OrderIntentId, OrderType, Side, TokenId,
};

verus! {

/// The intent on whose behalf a lot is sold.
pub fn exit_intent_id(lot: &PositionLot) -> (r: Result<OrderIntentId, ExecutionError>)
    ensures
        crate::error::outcome(r) == (match lot.order_intent_id {
            Some(id) => Ok::<OrderIntentId, ErrorView>(id),
            None => Err(
                ErrorView::IntentDenied {
                    reason: "recovery-origin position lot is not authorized for strategy exit"@,
                },
            ),
        }),
{
    match lot.order_intent_id {
        Some(id) => Ok(id),
        None => Err(
            intent_denied("recovery-origin position lot is not authorized for strategy exit"),
        ),
    }
}

/// Checks that a lot and the recommendation behind it are of one market.
pub fn check_exit_market(lot: &PositionLot, recommendation_market: &MarketId) -> (r: Result<
    (),
    ExecutionError,
>)
    ensures
        crate::error::outcome(r) == (if lot.market_id@ == recommendation_market@ {
            Ok::<(), ErrorView>(())
        } else {
            Err(
                ErrorView::IntentDenied {
                    reason: "exit lot and recommendation market identity mismatch"@,
                },
            )
        }),
{
    if lot.market_id.same(recommendation_market) {
        Ok(())
    } else {
        Err(intent_denied("exit lot and recommendation market identity mismatch"))
    }
}

/// What is known of a market at report time, now, and at the venue.
#[derive(Debug)]
pub struct ExitVenueEvidence {
    pub frozen: ClobMarketInfo,
    pub current: ClobMarketInfo,
    pub live: VenueOrderMetadata,
    /// What making order rules of the current observation reported.
    pub rules_defect: Option<String>,
}

impl ExitVenueEvidence {
    /// Whether every source speaks of the market and the token.
    pub open spec fn identifies(self, market_id: Seq<char>, token_id: Seq<char>) -> bool {
        &&& self.frozen.market_id@ == market_id
        &&& self.current.market_id@ == market_id
        &&& self.live.market_id@ == market_id
        &&& self.frozen.lists(token_id)
        &&& self.current.lists(token_id)
        &&& self.live.token_id@ == token_id
    }

    /// Whether the current rules are the live ones. The tick and the minimum
    /// may have changed since the report; the risk kind of the market may not.
    pub open spec fn rules_hold(self) -> bool {
        &&& self.current.tick_size == self.live.tick_size
        &&& self.current.minimum_order_size@ == self.live.minimum_order_size@
        &&& self.frozen.neg_risk == self.current.neg_risk
        &&& self.current.neg_risk == self.live.neg_risk
    }

    /// The rules that the exit has to meet, or why there are none.
    pub open spec fn validated(self, market_id: Seq<char>, token_id: Seq<char>) -> Result<
        PolymarketOrderRules,
        ErrorView,
    > {
        if self.frozen.defect is Some {
            Err(
                ErrorView::IntentDenied {
                    reason: "report-time CLOB market info is invalid: "@ + self.frozen.defect->0@,
                },
            )
        } else if self.current.defect is Some {
            Err(
                ErrorView::IntentDenied {
                    reason: "current CLOB market info is invalid: "@ + self.current.defect->0@,
                },
            )
        } else if !self.identifies(market_id, token_id) {
            Err(
                ErrorView::IntentDenied {
                    reason: "exit frozen/current/live market or token identity mismatch"@,
                },
            )
        } else if !self.rules_hold() {
            Err(
                ErrorView::IntentDenied { reason: "exit frozen/current/live venue rules changed"@ },
            )
        } else if self.rules_defect is Some {
            Err(
                ErrorView::IntentDenied {
                    reason: "exit venue rules are invalid: "@ + self.rules_defect->0@,
                },
            )
        } else {
            Ok(
                PolymarketOrderRules {
                    tick_size: self.current.tick_size,
                    minimum_order_size: self.current.minimum_order_size,
                },
            )
        }
    }

    /// The rules that the exit has to meet, or why there are none.
    pub fn validate(&self, market_id: &MarketId, token_id: &TokenId) -> (r: Result<
        PolymarketOrderRules,
        ExecutionError,
    >)
        ensures
            crate::error::outcome(r) == self.validated(market_id@, token_id@),
    {
        if let Some(defect) = &self.frozen.defect {
            return Err(
                ExecutionError::IntentDenied {
                    reason: "report-time CLOB market info is invalid: ".to_owned().concat(
                        defect.as_str(),
                    ),
                },
            );
        }
        if let Some(defect) = &self.current.defect {
            return Err(
                ExecutionError::IntentDenied {
                    reason: "current CLOB market info is invalid: ".to_owned().concat(
                        defect.as_str(),
                    ),
                },
            );
        }
        if !self.frozen.market_id.same(market_id) || !self.current.market_id.same(market_id)
            || !self.live.market_id.same(market_id) || !self.frozen.has_token(token_id)
            || !self.current.has_token(token_id) || !self.live.token_id.same(token_id) {
            return Err(
                intent_denied("exit frozen/current/live market or token identity mismatch"),
            );
        }
        if self.current.tick_size != self.live.tick_size || !self.current.minimum_order_size.same(
            self.live.minimum_order_size,
        ) || self.frozen.neg_risk != self.current.neg_risk || self.current.neg_risk
            != self.live.neg_risk {
            return Err(intent_denied("exit frozen/current/live venue rules changed"));
        }
        if let Some(defect) = &self.rules_defect {
            return Err(
                ExecutionError::IntentDenied {
                    reason: "exit venue rules are invalid: ".to_owned().concat(defect.as_str()),
                },
            );
        }
        Ok(
            PolymarketOrderRules {
                tick_size: self.current.tick_size,
                minimum_order_size: self.current.minimum_order_size,
            },
        )
    }
}

/// The fresh book of an exit, or the refusal where there is none.
pub fn require_exit_book<B>(fresh: Result<B, String>) -> (r: Result<B, ExecutionError>)
    ensures
        crate::error::outcome(r) == (match fresh {
            Ok(book) => Ok(book),
            Err(why) => Err(
                ErrorView::IntentDenied {
                    reason: "cannot prepare exit without a fresh L2 book: "@ + why@,
                },
            ),
        }),
{
    match fresh {
        Ok(book) => Ok(book),
        Err(why) => Err(
            ExecutionError::IntentDenied {
                reason: "cannot prepare exit without a fresh L2 book: ".to_owned().concat(
                    why.as_str(),
                ),
            },
        ),
    }
}

/// The refusal of an exit whose market has no terms on record.
pub open spec fn missing_info(report_time: bool) -> ErrorView {
    ErrorView::IntentDenied {
        reason: if report_time {
            "cannot prepare exit without report-time CLOB market info"@
        } else {
            "cannot prepare exit without current CLOB market info"@
        },
    }
}

/// Why there is no evidence to validate an exit against.
#[derive(Debug)]
pub enum EvidenceRefusal<E> {
    /// Something has to be on record and is not.
    Denied(ExecutionError),
    /// Something could not be read.
    Unread(E),
}

/// The evidence that an exit is validated against: the market's terms as the
/// report saw them and as they are now, what the venue says, and what the rules
/// of the current terms suffer from. What is missing or could not be read is
/// reported in that order.
pub fn exit_venue_evidence<E>(
    frozen: Result<Option<ClobMarketInfo>, E>,
    current: Result<Option<ClobMarketInfo>, E>,
    live: Result<VenueOrderMetadata, E>,
    rules_defect: Option<String>,
) -> (r: Result<ExitVenueEvidence, EvidenceRefusal<E>>)
    ensures
        match (frozen, current, live) {
            (Err(error), _, _) => r == Err::<ExitVenueEvidence, EvidenceRefusal<E>>(
                EvidenceRefusal::Unread(error),
            ),
            (Ok(None), _, _) => r matches Err(EvidenceRefusal::Denied(error)) && error@
                == missing_info(true),
            (Ok(Some(_)), Err(error), _) => r == Err::<ExitVenueEvidence, EvidenceRefusal<E>>(
                EvidenceRefusal::Unread(error),
            ),
            (Ok(Some(_)), Ok(None), _) => r matches Err(EvidenceRefusal::Denied(error)) && error@
                == missing_info(false),
            (Ok(Some(_)), Ok(Some(_)), Err(error)) => r == Err::<
                ExitVenueEvidence,
                EvidenceRefusal<E>,
            >(EvidenceRefusal::Unread(error)),
            (Ok(Some(frozen)), Ok(Some(current)), Ok(live)) => r == Ok::<
                ExitVenueEvidence,
                EvidenceRefusal<E>,
            >(ExitVenueEvidence { frozen, current, live, rules_defect }),
        },
{
    let frozen = match frozen {
        Ok(Some(info)) => info,
        Ok(None) => {
            return Err(
                EvidenceRefusal::Denied(
                    intent_denied("cannot prepare exit without report-time CLOB market info"),
                ),
            );
        },
        Err(error) => {
            return Err(EvidenceRefusal::Unread(error));
        },
    };
    let current = match current {
        Ok(Some(info)) => info,
        Ok(None) => {
            return Err(
                EvidenceRefusal::Denied(
                    intent_denied("cannot prepare exit without current CLOB market info"),
                ),
            );
        },
        Err(error) => {
            return Err(EvidenceRefusal::Unread(error));
        },
    };
    match live {
        Ok(live) => Ok(ExitVenueEvidence { frozen, current, live, rules_defect }),
        Err(error) => Err(EvidenceRefusal::Unread(error)),
    }
}

/// An exit order in the form that the venue accepts.
#[derive(Clone, Copy, Debug)]
pub struct CanonicalExitOrder {
    pub limit_price: Price,
    pub amounts: ExitAmounts,
}

impl ExitOrderSpec {
    /// The order in the form that the venue accepts, or the rule that it breaks
    /// first.
    pub open spec fn canonical(self, rules: PolymarketOrderRules) -> Result<
        CanonicalExitOrder,
        VenueOrderRuleError,
    > {
        match rules.limit_for(self.limit_price) {
            Err(error) => Err(error),
            Ok(limit_price) => match rules.sale_of(self.shares) {
                Err(error) => Err(error),
                Ok(amounts) => Ok(CanonicalExitOrder { limit_price, amounts }),
            },
        }
    }

    /// The order in the form that the venue accepts: the limit raised to the
    /// grid, the shares cut to venue precision. The price is judged first.
    pub fn canonical_order(&self, rules: PolymarketOrderRules) -> (r: Result<
        CanonicalExitOrder,
        VenueOrderRuleError,
    >)
        ensures
            r == self.canonical(rules),
            r matches Ok(canonical) ==> canonical.limit_price@ == crate::decimal::ceiled(
                self.limit_price@,
                rules.tick_size.spec_digits(),
            ) && canonical.amounts.requested_shares@ == crate::decimal::floored(
                self.shares@,
                SHARE_DIGITS,
            ),
    {
        let limit_price = match rules.sell_limit_at_least(self.limit_price) {
            Ok(limit) => limit,
            Err(error) => {
                return Err(error);
            },
        };
        match rules.canonical_sale(self.shares) {
            Ok(amounts) => Ok(CanonicalExitOrder { limit_price, amounts }),
            Err(error) => Err(error),
        }
    }
}

/// How a broken venue rule is reported: an inexpressible price may pass, the
/// rest is denied.
pub open spec fn rule_refusal(error: VenueOrderRuleError) -> ErrorView {
    match error {
        VenueOrderRuleError::PriceOutsideBounds { .. } => ErrorView::ExitPriceDeferred {
            reason: error.text(),
        },
        VenueOrderRuleError::OrderBelowMinimum { .. } => ErrorView::IntentDenied {
            reason: "exit order cannot be canonicalized: "@ + error.text(),
        },
    }
}

/// How a broken venue rule is reported.
pub fn classify_exit_rule(error: &VenueOrderRuleError) -> (r: ExecutionError)
    ensures
        r@ == rule_refusal(*error),
{
    match error {
        VenueOrderRuleError::PriceOutsideBounds { .. } => ExecutionError::ExitPriceDeferred {
            reason: error.to_text(),
        },
        VenueOrderRuleError::OrderBelowMinimum { .. } => ExecutionError::IntentDenied {
            reason: "exit order cannot be canonicalized: ".to_owned().concat(
                error.to_text().as_str(),
            ),
        },
    }
}

/// Whether an exit has to fill completely.
pub open spec fn exit_requirement(order_type: OrderType) -> FillRequirement {
    if order_type is Fok {
        FillRequirement::AllOrNothing
    } else {
        FillRequirement::AllowPartial
    }
}

/// What is asked of the book before an exit is prepared.
#[derive(Clone, Copy, Debug)]
pub struct ExitWalk {
    pub canonical: CanonicalExitOrder,
    pub schedule: PitFeeSchedule,
    pub requirement: FillRequirement,
}

/// The walk through the bids, or what stands against it first.
pub open spec fn planned_walk(
    order: ExitOrderSpec,
    rules: PolymarketOrderRules,
    current: ClobMarketInfo,
    converted: Result<PitFeeSchedule, String>,
    now: Timestamp,
) -> Result<ExitWalk, ErrorView> {
    match order.canonical(rules) {
        Err(error) => Err(rule_refusal(error)),
        Ok(canonical) => match visible_fees(current, now, converted) {
            Err(error) => Err(error),
            Ok(schedule) => Ok(
                ExitWalk { canonical, schedule, requirement: exit_requirement(order.order_type) },
            ),
        },
    }
}

/// Plans the walk through the bids: canonical order, visible fees and fill
/// requirement.
pub fn plan_exit_walk(
    order: &ExitOrderSpec,
    rules: PolymarketOrderRules,
    current: &ClobMarketInfo,
    converted: Result<PitFeeSchedule, String>,
    now: Timestamp,
) -> (r: Result<ExitWalk, ExecutionError>)
    ensures
        crate::error::outcome(r) == planned_walk(*order, rules, *current, converted, now),
        r matches Ok(walk) ==> walk.canonical.limit_price@ == crate::decimal::ceiled(
            order.limit_price@,
            rules.tick_size.spec_digits(),
        ) && walk.canonical.amounts.requested_shares@ == crate::decimal::floored(
            order.shares@,
            SHARE_DIGITS,
        ),
{
    let canonical = match order.canonical_order(rules) {
        Ok(canonical) => canonical,
        Err(error) => {
            return Err(classify_exit_rule(&error));
        },
    };
    let schedule = match crate::orders::pit_fee_schedule(current, now, converted) {
        Ok(schedule) => schedule,
        Err(error) => {
            return Err(error);
        },
    };
    let requirement = match order.order_type {
        OrderType::Fok => FillRequirement::AllOrNothing,
        _ => FillRequirement::AllowPartial,
    };
    Ok(ExitWalk { canonical, schedule, requirement })
}

/// Until when a prepared exit may be used: the order's own expiration, or a
/// minute.
fn exit_valid_until(order_type: OrderType, now: Timestamp) -> (r: Result<
    Timestamp,
    ExecutionError,
>)
    ensures
        match r {
            Ok(at) => validity_defect(order_type, now) is None && at@ == validity(order_type, now),
            Err(error) => validity_defect(order_type, now) == Some(error@),
        },
{
    match order_type {
        OrderType::Gtd { expiration } => expiration_instant(
            "exit.gtd.expiration",
            expiration,
            "timestamp is outside chrono range",
        ),
        _ => match now.plus_seconds(60) {
            Some(at) => Ok(at),
            None => Err(
                ExecutionError::TimeConversion {
                    field: "exit.valid_until",
                    value: now.to_text(),
                    detail: "timestamp is outside chrono range".to_owned(),
                },
            ),
        },
    }
}

/// The instant until which a prepared exit may be used.
pub open spec fn validity(order_type: OrderType, now: Timestamp) -> int {
    match order_type {
        OrderType::Gtd { expiration } => expiration * 1000000000,
        _ => now@ + 60000000000,
    }
}

/// Why that instant cannot be represented, if it cannot.
pub open spec fn validity_defect(order_type: OrderType, now: Timestamp) -> Option<ErrorView> {
    match order_type {
        OrderType::Gtd { expiration } => gtd_defect(
            "exit.gtd.expiration"@,
            expiration,
            "timestamp is outside chrono range"@,
        ),
        _ => if crate::time::in_calendar(now@ + 60000000000) {
            None
        } else {
            Some(
                ErrorView::TimeConversion {
                    field: "exit.valid_until"@,
                    value: now.text(),
                    detail: "timestamp is outside chrono range"@,
                },
            )
        },
    }
}

/// Why the walk through the bids does not lead to an order, if it does not.
pub open spec fn walk_refusal(order_type: OrderType, fill: Result<BookWalkFill, String>) -> Option<
    ErrorView,
> {
    match fill {
        Err(defect) => Some(
            ErrorView::IntentDenied { reason: "exit execution preparation failed: "@ + defect@ },
        ),
        Ok(fill) => if order_type is Fok && fill.outcome == BookWalkOutcome::Unfilled {
            Some(
                ErrorView::IntentDenied {
                    reason: "FOK exit cannot fill from the current L2 book"@,
                },
            )
        } else {
            None
        },
    }
}

/// Prepares the exact exit order from the walk through the bids.
pub fn prepare_exit_order(
    lot: &PositionLot,
    order: &ExitOrderSpec,
    profile_ref: &Ident,
    current: &ClobMarketInfo,
    walk: &ExitWalk,
    fill: Result<BookWalkFill, String>,
    book_hash: ContentHash,
    now: Timestamp,
) -> (r: Result<PreparedVenueOrder, ExecutionError>)
    ensures
        match r {
            Ok(prepared) => {
                &&& walk_refusal(order.order_type, fill) is None
                &&& validity_defect(order.order_type, now) is None
                &&& prepared.valid_until@ == validity(order.order_type, now)
                &&& prepared == (PreparedVenueOrder {
                    profile_ref: *profile_ref,
                    market_id: lot.market_id,
                    token_id: lot.token_id,
                    tick_size: current.tick_size,
                    minimum_order_size: current.minimum_order_size,
                    neg_risk: current.neg_risk,
                    side: Side::Sell,
                    order_type: order.order_type,
                    post_only: false,
                    limit_price: walk.canonical.limit_price,
                    expected_worst_fill_price: match fill->Ok_0.worst_price {
                        Some(price) => price,
                        None => walk.canonical.limit_price,
                    },
                    cash_budget: None,
                    venue_amount: walk.canonical.amounts.venue_amount,
                    requested_shares: walk.canonical.amounts.requested_shares,
                    expected_fee: fill->Ok_0.total_fee_usd,
                    total_cash_delta: fill->Ok_0.account_cash_delta_usd,
                    expected_filled_shares: fill->Ok_0.filled_shares,
                    book_hash,
                    clob_market_info_payload_hash: current.payload_hash,
                    fee_schedule: walk.schedule,
                    maker_rebate_terms: EntryMakerRebateTerms::AggressiveNotApplicable,
                    prepared_at: now,
                    valid_until: prepared.valid_until,
                })
            },
            Err(error) => match walk_refusal(order.order_type, fill) {
                Some(refusal) => error@ == refusal,
                None => validity_defect(order.order_type, now) == Some(error@),
            },
        },
{
    let fill = match fill {
        Ok(fill) => fill,
        Err(defect) => {
            return Err(
                ExecutionError::IntentDenied {
                    reason: "exit execution preparation failed: ".to_owned().concat(
                        defect.as_str(),
                    ),
                },
            );
        },
    };
    let all_or_nothing = match order.order_type {
        OrderType::Fok => true,
        _ => false,
    };
    if all_or_nothing && fill.outcome == BookWalkOutcome::Unfilled {
        return Err(intent_denied("FOK exit cannot fill from the current L2 book"));
    }
    let valid_until = match exit_valid_until(order.order_type, now) {
        Ok(at) => at,
        Err(error) => {
            return Err(error);
        },
    };
    let expected_worst_fill_price = match fill.worst_price {
        Some(price) => price,
        None => walk.canonical.limit_price,
    };
    Ok(
        PreparedVenueOrder {
            profile_ref: profile_ref.clone(),
            market_id: lot.market_id.clone(),
            token_id: lot.token_id.clone(),
            tick_size: current.tick_size,
            minimum_order_size: current.minimum_order_size,
            neg_risk: current.neg_risk,
            side: Side::Sell,
            order_type: order.order_type,
            post_only: false,
            limit_price: walk.canonical.limit_price,
            expected_worst_fill_price,
            cash_budget: None,
            venue_amount: walk.canonical.amounts.venue_amount,
            requested_shares: walk.canonical.amounts.requested_shares,
            expected_fee: fill.total_fee_usd,
            total_cash_delta: fill.account_cash_delta_usd,
            expected_filled_shares: fill.filled_shares,
            book_hash,
            clob_market_info_payload_hash: current.payload_hash,
            fee_schedule: walk.schedule,
            maker_rebate_terms: EntryMakerRebateTerms::AggressiveNotApplicable,
            prepared_at: now,
            valid_until,
        },
    )
}

/// Whether the funding evidence covers an exit of the token, or why not.
pub open spec fn exit_funding(token_id: TokenId, evidence: VenueFundingEvidence) -> Result<
    (),
    ErrorView,
> {
    if evidence.snapshot.asset != VenueFundingAsset::Conditional || !same_ident(
        evidence.snapshot.token_id,
        Some(token_id),
    ) {
        Err(ErrorView::IntentDenied { reason: "exit funding evidence identity mismatch"@ })
    } else {
        match evidence.deficit {
            None => Ok(()),
            Some(deficit) => Err(
                ErrorView::ExitFundingDeferred {
                    deficit,
                    required: evidence.required@,
                    balance: evidence.snapshot.balance@,
                    allowance: match evidence.snapshot.allowance {
                        Some(allowance) => allowance@,
                        None => "missing"@,
                    },
                },
            ),
        }
    }
}

/// Checks that the funding evidence covers an exit of the token.
pub fn require_exit_funding(token_id: &TokenId, evidence: &VenueFundingEvidence) -> (r: Result<
    (),
    ExecutionError,
>)
    ensures
        crate::error::outcome(r) == exit_funding(*token_id, *evidence),
{
    let identified = match &evidence.snapshot.token_id {
        Some(id) => id.same(token_id),
        None => false,
    };
    if evidence.snapshot.asset != VenueFundingAsset::Conditional || !identified {
        return Err(intent_denied("exit funding evidence identity mismatch"));
    }
    match evidence.deficit {
        None => Ok(()),
        Some(deficit) => Err(
            ExecutionError::ExitFundingDeferred {
                deficit,
                required: evidence.required.clone(),
                balance: evidence.snapshot.balance.clone(),
                allowance: match &evidence.snapshot.allowance {
                    Some(allowance) => allowance.clone(),
                    None => "missing".to_owned(),
                },
            },
        ),
    }
}

/// Why no write-ahead row is built for a prepared exit, if none is.
pub open spec fn exit_row_refusal(
    lot: PositionLot,
    order: ExitOrderSpec,
    prepared: PreparedVenueOrder,
) -> Option<ErrorView> {
    if prepared.market_id@ != lot.market_id@ || prepared.token_id@ != lot.token_id@ {
        Some(
            ErrorView::IntentDenied {
                reason: "prepared exit venue identity differs from its owning position"@,
            },
        )
    } else if lot.order_intent_id is None {
        Some(
            ErrorView::IntentDenied {
                reason: "recovery-origin position lot cannot create a strategy exit order"@,
            },
        )
    } else if prepared.requested_shares.product(prepared.limit_price) is None {
        Some(ErrorView::DecimalOverflow)
    } else {
        match order.order_type {
            OrderType::Gtd { expiration } => gtd_defect(
                "order_type.gtd.expiration"@,
                expiration,
                "timestamp is outside the chrono range"@,
            ),
            _ => None,
        }
    }
}

/// The write-ahead row of an exit order, in state `Submitted`. Price and shares
/// are the prepared order's, never those of an expected fill.
pub fn build_exit_order(
    execution_order_id: ExecutionOrderId,
    lot: &PositionLot,
    order: &ExitOrderSpec,
    prepared_order: PreparedVenueOrder,
) -> (r: Result<NewExecutionOrder, ExecutionError>)
    ensures
        match r {
            Ok(row) => {
                &&& exit_row_refusal(*lot, *order, prepared_order) is None
                &&& row.gtd_expiration_at is Some <==> order.order_type is Gtd
                &&& order.order_type matches OrderType::Gtd { expiration }
                    ==> row.gtd_expiration_at->0@ == expiration * 1000000000
                &&& row == (NewExecutionOrder {
                    execution_order_id,
                    order_intent_id: lot.order_intent_id->0,
                    order_phase: ExecutionOrderPhase::Exit,
                    market_id: prepared_order.market_id,
                    token_id: prepared_order.token_id,
                    side: Side::Sell,
                    order_type: order.order_type,
                    price: prepared_order.limit_price,
                    shares: prepared_order.requested_shares,
                    cost_usd: prepared_order.requested_shares.product(prepared_order.limit_price)->0,
                    prepared_order,
                    venue_order_id: None,
                    venue_status: None,
                    state: ExecutionOrderState::Submitted,
                    submitted_at: None,
                    filled_at: None,
                    cancelled_at: None,
                    gtd_expiration_at: row.gtd_expiration_at,
                    error_message: None,
                })
            },
            Err(error) => exit_row_refusal(*lot, *order, prepared_order) == Some(error@),
        },
{
    if !prepared_order.market_id.same(&lot.market_id) || !prepared_order.token_id.same(
        &lot.token_id,
    ) {
        return Err(intent_denied("prepared exit venue identity differs from its owning position"));
    }
    let order_intent_id = match lot.order_intent_id {
        Some(id) => id,
        None => {
            return Err(
                intent_denied("recovery-origin position lot cannot create a strategy exit order"),
            );
        },
    };
    let cost_usd = match prepared_order.requested_shares.checked_mul(prepared_order.limit_price) {
        Some(cost) => cost,
        None => {
            return Err(ExecutionError::DecimalOverflow);
        },
    };
    let gtd = match gtd_expiration_at(&order.order_type) {
        Ok(at) => at,
        Err(error) => {
            return Err(error);
        },
    };
    Ok(
        NewExecutionOrder {
            execution_order_id,
            order_intent_id,
            order_phase: ExecutionOrderPhase::Exit,
            market_id: prepared_order.market_id.clone(),
            token_id: prepared_order.token_id.clone(),
            side: Side::Sell,
            order_type: order.order_type,
            price: prepared_order.limit_price,
            shares: prepared_order.requested_shares,
            cost_usd,
            prepared_order,
            venue_order_id: None,
            venue_status: None,
            state: ExecutionOrderState::Submitted,
            submitted_at: None,
            filled_at: None,
            cancelled_at: None,
            gtd_expiration_at: gtd,
            error_message: None,
        },
    )
}

/// What a position loses by an exit fill.
#[derive(Clone, Copy, Debug)]
pub struct PositionExit {
    pub shares: Shares,
    pub avg_price: Price,
    pub proceeds_usd: Usd,
    pub realized_pnl_usd: Usd,
    pub exited_at: Timestamp,
    pub reason: ExitReason,
}

/// The atomic write that settles an exit submission.
#[derive(Debug)]
pub struct ExitLedgerWrite {
    pub identity_refs: Ident,
    pub order_state: ExecutionOrderState,
    pub venue_order_id: Option<OrderId>,
    pub venue_status: Option<String>,
    pub filled_at: Option<Timestamp>,
    pub cancelled_at: Option<Timestamp>,
    pub error_message: Option<String>,
    pub exit_state: ExitState,
    pub exit_reason: ExitReason,
    pub position_exit: Option<PositionExit>,
    pub fully_exited: bool,
    pub revert_to_open: bool,
    pub reconciliation: Option<NewReconciliation>,
}

/// An [`ExitLedgerWrite`] with its reconciliation row read by view.
pub ghost struct ExitWriteView {
    pub identity_refs: Ident,
    pub order_state: ExecutionOrderState,
    pub venue_order_id: Option<OrderId>,
    pub venue_status: Option<String>,
    pub filled_at: Option<Timestamp>,
    pub cancelled_at: Option<Timestamp>,
    pub error_message: Option<String>,
    pub exit_state: ExitState,
    pub exit_reason: ExitReason,
    pub position_exit: Option<PositionExit>,
    pub fully_exited: bool,
    pub revert_to_open: bool,
    pub reconciliation: Option<ReconciliationView>,
}

impl View for ExitLedgerWrite {
    type V = ExitWriteView;

    open spec fn view(&self) -> ExitWriteView {
        ExitWriteView {
            identity_refs: self.identity_refs,
            order_state: self.order_state,
            venue_order_id: self.venue_order_id,
            venue_status: self.venue_status,
            filled_at: self.filled_at,
            cancelled_at: self.cancelled_at,
            error_message: self.error_message,
            exit_state: self.exit_state,
            exit_reason: self.exit_reason,
            position_exit: self.position_exit,
            fully_exited: self.fully_exited,
            revert_to_open: self.revert_to_open,
            reconciliation: match self.reconciliation {
                Some(row) => Some(row@),
                None => None,
            },
        }
    }
}

/// Money figures of an exit fill.
#[derive(Clone, Copy, Debug)]
pub struct ExitFigures {
    pub avg_price: Price,
    pub proceeds_usd: Usd,
    pub realized_pnl_usd: Usd,
}

/// Price per share of an exit fill: what the venue reported, or the order's.
pub open spec fn exit_price(result: VenueSubmitResult, order: ExecutionOrderInfo) -> Price {
    match result.avg_fill_price {
        Some(price) => price,
        None => order.price,
    }
}

/// Proceeds net of the fee, and what they exceed the lot's average cost by;
/// `None` where a figure is not representable.
pub open spec fn figures(
    result: VenueSubmitResult,
    lot: PositionLot,
    order: ExecutionOrderInfo,
) -> Option<ExitFigures> {
    let avg_price = exit_price(result, order);
    match result.filled_shares.product(avg_price) {
        None => None,
        Some(gross) => match gross.difference(result.expected_fee) {
            None => None,
            Some(proceeds_usd) => match lot.avg_price.product(result.filled_shares) {
                None => None,
                Some(basis) => match proceeds_usd.difference(basis) {
                    None => None,
                    Some(realized_pnl_usd) => Some(
                        ExitFigures { avg_price, proceeds_usd, realized_pnl_usd },
                    ),
                },
            },
        },
    }
}

fn exit_figures(
    result: &VenueSubmitResult,
    lot: &PositionLot,
    execution_order: &ExecutionOrderInfo,
) -> (r: Option<ExitFigures>)
    ensures
        r == figures(*result, *lot, *execution_order),
{
    let avg_price = match result.avg_fill_price {
        Some(price) => price,
        None => execution_order.price,
    };
    match result.filled_shares.checked_mul(avg_price) {
        None => None,
        Some(gross) => match gross.checked_sub(result.expected_fee) {
            None => None,
            Some(proceeds_usd) => match lot.avg_price.checked_mul(result.filled_shares) {
                None => None,
                Some(basis) => match proceeds_usd.checked_sub(basis) {
                    None => None,
                    Some(realized_pnl_usd) => Some(
                        ExitFigures { avg_price, proceeds_usd, realized_pnl_usd },
                    ),
                },
            },
        },
    }
}

/// The reconciliation row of an exit submission.
pub open spec fn exit_reconciliation(
    reconciliation_id: u128,
    result: VenueSubmitResult,
    order: ExecutionOrderInfo,
) -> ReconciliationView {
    let resolution = response_resolution(result.reconciliation_result, result.responded_at);
    ReconciliationView {
        reconciliation_id,
        execution_order_id: order.execution_order_id,
        order_intent_id: order.order_intent_id,
        result: result.reconciliation_result,
        observed_at: result.responded_at,
        detail: outcome_detail("exit venue outcome "@, result),
        venue_ref: result.venue_order_id,
        evidence_shares: Some(result.filled_shares),
        evidence_price: result.avg_fill_price,
        fee_evidence: Some(result.fee_evidence),
        venue_filled_shares: Some(result.filled_shares),
        venue_avg_price: result.avg_fill_price,
        expected_cash_delta_usd: Some(order.total_cash_delta),
        venue_cash_delta_usd: None,
        realized_pnl_usd: None,
        expected_fee_usd: None,
        observed_fee_usd: None,
        fee_delta_usd: None,
        resolved_by: resolution.0,
        resolved_at: resolution.1,
    }
}

/// The reconciliation row of an exit submission.
pub fn exit_reconciliation_row(
    reconciliation_id: u128,
    result: &VenueSubmitResult,
    execution_order: &ExecutionOrderInfo,
) -> (r: NewReconciliation)
    ensures
        r@ == exit_reconciliation(reconciliation_id, *result, *execution_order),
{
    let (resolved_by, resolved_at) = submit_response_resolution(
        result.reconciliation_result,
        result.responded_at,
    );
    NewReconciliation {
        reconciliation_id,
        execution_order_id: execution_order.execution_order_id,
        order_intent_id: execution_order.order_intent_id,
        result: result.reconciliation_result,
        evidence: ReconciliationEvidence {
            observed_at: result.responded_at,
            detail: write_outcome_detail("exit venue outcome ", result),
            venue_ref: clone_ident(&result.venue_order_id),
            shares: Some(result.filled_shares),
            price: result.avg_fill_price,
            fee_evidence: Some(result.fee_evidence.clone()),
        },
        venue_filled_shares: Some(result.filled_shares),
        venue_avg_price: result.avg_fill_price,
        expected_cash_delta_usd: Some(execution_order.total_cash_delta),
        venue_cash_delta_usd: None,
        realized_pnl_usd: None,
        expected_fee_usd: None,
        observed_fee_usd: None,
        fee_delta_usd: None,
        resolved_by,
        resolved_at,
    }
}

/// The write of a fill: the position shrinks by what was sold.
pub open spec fn filled_exit(
    reconciliation_id: u128,
    result: VenueSubmitResult,
    lot: PositionLot,
    reason: ExitReason,
    order: ExecutionOrderInfo,
    money: ExitFigures,
) -> ExitWriteView {
    let fully_exited = result.filled_shares@ >= lot.shares@;
    ExitWriteView {
        identity_refs: result.identity_refs,
        order_state: if result.outcome == VenueOutcome::PartiallyFilled {
            ExecutionOrderState::PartiallyFilled
        } else {
            ExecutionOrderState::Filled
        },
        venue_order_id: result.venue_order_id,
        venue_status: result.venue_status,
        filled_at: Some(result.responded_at),
        cancelled_at: None,
        error_message: None,
        exit_state: if result.outcome == VenueOutcome::Filled && fully_exited {
            ExitState::Exited
        } else {
            ExitState::PartiallyExited
        },
        exit_reason: reason,
        position_exit: Some(
            PositionExit {
                shares: result.filled_shares,
                avg_price: money.avg_price,
                proceeds_usd: money.proceeds_usd,
                realized_pnl_usd: money.realized_pnl_usd,
                exited_at: result.responded_at,
                reason,
            },
        ),
        fully_exited,
        revert_to_open: false,
        reconciliation: Some(exit_reconciliation(reconciliation_id, result, order)),
    }
}

/// The write of an answer without a fill: nothing is booked.
pub open spec fn unfilled_exit(
    reconciliation_id: u128,
    result: VenueSubmitResult,
    reason: ExitReason,
    order: ExecutionOrderInfo,
) -> ExitWriteView {
    let outcome = result.outcome;
    let failed = outcome != VenueOutcome::Open && outcome != VenueOutcome::Ambiguous;
    ExitWriteView {
        identity_refs: result.identity_refs,
        order_state: crate::dispatcher::settled_order_state(outcome),
        venue_order_id: result.venue_order_id,
        venue_status: if outcome == VenueOutcome::Ambiguous {
            None
        } else {
            result.venue_status
        },
        filled_at: None,
        cancelled_at: if failed {
            Some(result.responded_at)
        } else {
            None
        },
        error_message: if outcome == VenueOutcome::Open {
            None
        } else {
            result.detail
        },
        exit_state: if failed {
            ExitState::Monitoring
        } else {
            ExitState::OrderSubmitted
        },
        exit_reason: reason,
        position_exit: None,
        fully_exited: false,
        revert_to_open: failed,
        reconciliation: if outcome == VenueOutcome::Open {
            None
        } else {
            Some(exit_reconciliation(reconciliation_id, result, order))
        },
    }
}

/// The ledger write that settles an exit submission, with the realized profit
/// where shares were sold; `None` where a figure is not representable.
pub open spec fn exit_write(
    reconciliation_id: u128,
    result: VenueSubmitResult,
    lot: PositionLot,
    reason: ExitReason,
    order: ExecutionOrderInfo,
) -> Option<(ExitWriteView, Option<Usd>)> {
    match figures(result, lot, order) {
        None => None,
        Some(money) => if result.outcome.has_fill() {
            Some(
                (
                    filled_exit(reconciliation_id, result, lot, reason, order, money),
                    Some(money.realized_pnl_usd),
                ),
            )
        } else {
            Some((unfilled_exit(reconciliation_id, result, reason, order), None))
        },
    }
}

fn resting_open_exit_write(
    reconciliation_id: u128,
    result: &VenueSubmitResult,
    execution_order: &ExecutionOrderInfo,
    reason: ExitReason,
) -> (r: ExitLedgerWrite)
    requires
        result.outcome == VenueOutcome::Open,
    ensures
        r@ == unfilled_exit(reconciliation_id, *result, reason, *execution_order),
{
    ExitLedgerWrite {
        identity_refs: result.identity_refs.clone(),
        order_state: ExecutionOrderState::Submitted,
        venue_order_id: clone_ident(&result.venue_order_id),
        venue_status: clone_text(&result.venue_status),
        filled_at: None,
        cancelled_at: None,
        error_message: None,
        exit_state: ExitState::OrderSubmitted,
        exit_reason: reason,
        position_exit: None,
        fully_exited: false,
        revert_to_open: false,
        reconciliation: None,
    }
}

fn ambiguous_exit_write(
    reconciliation_id: u128,
    result: &VenueSubmitResult,
    execution_order: &ExecutionOrderInfo,
    reason: ExitReason,
) -> (r: ExitLedgerWrite)
    requires
        result.outcome == VenueOutcome::Ambiguous,
    ensures
        r@ == unfilled_exit(reconciliation_id, *result, reason, *execution_order),
{
    ExitLedgerWrite {
        identity_refs: result.identity_refs.clone(),
        order_state: ExecutionOrderState::Ambiguous,
        venue_order_id: clone_ident(&result.venue_order_id),
        venue_status: None,
        filled_at: None,
        cancelled_at: None,
        error_message: clone_text(&result.detail),
        exit_state: ExitState::OrderSubmitted,
        exit_reason: reason,
        position_exit: None,
        fully_exited: false,
        revert_to_open: false,
        reconciliation: Some(exit_reconciliation_row(reconciliation_id, result, execution_order)),
    }
}

fn failed_exit_write(
    reconciliation_id: u128,
    result: &VenueSubmitResult,
    execution_order: &ExecutionOrderInfo,
    reason: ExitReason,
    order_state: ExecutionOrderState,
) -> (r: ExitLedgerWrite)
    requires
        !result.outcome.has_fill(),
        result.outcome != VenueOutcome::Open,
        result.outcome != VenueOutcome::Ambiguous,
        order_state == crate::dispatcher::settled_order_state(result.outcome),
    ensures
        r@ == unfilled_exit(reconciliation_id, *result, reason, *execution_order),
{
    ExitLedgerWrite {
        identity_refs: result.identity_refs.clone(),
        order_state,
        venue_order_id: clone_ident(&result.venue_order_id),
        venue_status: clone_text(&result.venue_status),
        filled_at: None,
        cancelled_at: Some(result.responded_at),
        error_message: clone_text(&result.detail),
        exit_state: ExitState::Monitoring,
        exit_reason: reason,
        position_exit: None,
        fully_exited: false,
        revert_to_open: true,
        reconciliation: Some(exit_reconciliation_row(reconciliation_id, result, execution_order)),
    }
}

fn filled_exit_write(
    reconciliation_id: u128,
    result: &VenueSubmitResult,
    lot: &PositionLot,
    reason: ExitReason,
    execution_order: &ExecutionOrderInfo,
    money: ExitFigures,
) -> (r: ExitLedgerWrite)
    requires
        result.outcome.has_fill(),
    ensures
        r@ == filled_exit(reconciliation_id, *result, *lot, reason, *execution_order, money),
{
    let fully_exited = lot.shares.le(result.filled_shares);
    let exit_state = if result.outcome == VenueOutcome::Filled && fully_exited {
        ExitState::Exited
    } else {
        ExitState::PartiallyExited
    };
    let order_state = if result.outcome == VenueOutcome::PartiallyFilled {
        ExecutionOrderState::PartiallyFilled
    } else {
        ExecutionOrderState::Filled
    };
    ExitLedgerWrite {
        identity_refs: result.identity_refs.clone(),
        order_state,
        venue_order_id: clone_ident(&result.venue_order_id),
        venue_status: clone_text(&result.venue_status),
        filled_at: Some(result.responded_at),
        cancelled_at: None,
        error_message: None,
        exit_state,
        exit_reason: reason,
        position_exit: Some(
            PositionExit {
                shares: result.filled_shares,
                avg_price: money.avg_price,
                proceeds_usd: money.proceeds_usd,
                realized_pnl_usd: money.realized_pnl_usd,
                exited_at: result.responded_at,
                reason,
            },
        ),
        fully_exited,
        revert_to_open: false,
        reconciliation: Some(exit_reconciliation_row(reconciliation_id, result, execution_order)),
    }
}

/// Turns a venue answer into the atomic ledger write of an exit, with the
/// confirmed realized profit where shares were sold.
pub fn build_exit_ledger_write(
    reconciliation_id: u128,
    result: &VenueSubmitResult,
    lot: &PositionLot,
    reason: ExitReason,
    execution_order: &ExecutionOrderInfo,
) -> (r: Result<(ExitLedgerWrite, Option<Usd>), ExecutionError>)
    ensures
        match r {
            Ok((write, pnl)) => exit_write(
                reconciliation_id,
                *result,
                *lot,
                reason,
                *execution_order,
            ) == Some((write@, pnl)),
            Err(error) => error@ == ErrorView::DecimalOverflow && exit_write(
                reconciliation_id,
                *result,
                *lot,
                reason,
                *execution_order,
            ) is None,
        },
{
    let money = match exit_figures(result, lot, execution_order) {
        Some(money) => money,
        None => {
            return Err(ExecutionError::DecimalOverflow);
        },
    };
    let write = match result.outcome {
        VenueOutcome::Filled | VenueOutcome::PartiallyFilled => {
            return Ok(
                (
                    filled_exit_write(
                        reconciliation_id,
                        result,
                        lot,
                        reason,
                        execution_order,
                        money,
                    ),
                    Some(money.realized_pnl_usd),
                ),
            );
        },
        VenueOutcome::Open => resting_open_exit_write(
            reconciliation_id,
            result,
            execution_order,
            reason,
        ),
        VenueOutcome::Rejected => failed_exit_write(
            reconciliation_id,
            result,
            execution_order,
            reason,
            ExecutionOrderState::Failed,
        ),
        VenueOutcome::Cancelled | VenueOutcome::Expired => failed_exit_write(
            reconciliation_id,
            result,
            execution_order,
            reason,
            ExecutionOrderState::Cancelled,
        ),
        VenueOutcome::Ambiguous => ambiguous_exit_write(
            reconciliation_id,
            result,
            execution_order,
            reason,
        ),
    };
    Ok((write, None))
}

/// Profit is realized exactly where shares were sold, and the position changes
/// exactly there. An unconfirmed answer changes nothing and is reconciled; a
/// clean failure puts the lot back under monitoring.
pub proof fn exits_book_only_confirmed_sales(
    reconciliation_id: u128,
    result: VenueSubmitResult,
    lot: PositionLot,
    reason: ExitReason,
    order: ExecutionOrderInfo,
)
    requires
        exit_write(reconciliation_id, result, lot, reason, order) is Some,
    ensures
        ({
            let (write, pnl) = exit_write(reconciliation_id, result, lot, reason, order)->0;
            &&& pnl is Some <==> result.outcome.has_fill()
            &&& write.position_exit is Some <==> result.outcome.has_fill()
            &&& write.position_exit is Some ==> pnl == Some(
                write.position_exit->0.realized_pnl_usd,
            )
            &&& write.fully_exited ==> result.outcome.has_fill() && result.filled_shares@
                >= lot.shares@
            &&& write.exit_state == ExitState::Exited <==> result.outcome == VenueOutcome::Filled
                && result.filled_shares@ >= lot.shares@
            &&& result.outcome == VenueOutcome::Ambiguous ==> !write.revert_to_open
                && write.reconciliation is Some && write.exit_state == ExitState::OrderSubmitted
            &&& write.revert_to_open <==> (result.outcome == VenueOutcome::Rejected
                || result.outcome == VenueOutcome::Cancelled || result.outcome
                == VenueOutcome::Expired)
        }),
{
}

/// Where the submission of an exit stands: the step that is being carried out.
#[derive(Clone, Copy, Debug, PartialEq, Eq, Structural)]
pub enum ExitStep {
    /// Load the intent that the lot belongs to.
    LoadIntent,
    /// Load the recommendation and check its market.
    LoadRecommendation,
    /// Load the report whose market rules were frozen.
    LoadReport,
    /// Prepare and fund the order.
    Prepare,
    /// Build the write-ahead row.
    BuildRow,
    /// Write the order ahead; the lot is closing.
    WriteAhead,
    /// Call the venue, outside any lock.
    CallVenue,
    /// Tell the breaker how the venue answered.
    ObserveVenue,
    /// Tell the breaker what was realized.
    ObserveProfit,
    /// Settle the answer in one transaction.
    Settle,
    Succeeded,
    Failed,
}

/// The step that follows. `realized` says whether a profit was realized.
pub open spec fn following_exit_step(step: ExitStep, succeeded: bool, realized: bool) -> ExitStep {
    match (step, succeeded) {
        (ExitStep::LoadIntent, true) => ExitStep::LoadRecommendation,
        (ExitStep::LoadRecommendation, true) => ExitStep::LoadReport,
        (ExitStep::LoadReport, true) => ExitStep::Prepare,
        (ExitStep::Prepare, true) => ExitStep::BuildRow,
        (ExitStep::BuildRow, true) => ExitStep::WriteAhead,
        (ExitStep::WriteAhead, true) => ExitStep::CallVenue,
        (ExitStep::CallVenue, _) => ExitStep::ObserveVenue,
        (ExitStep::ObserveVenue, _) => if realized {
            ExitStep::ObserveProfit
        } else {
            ExitStep::Settle
        },
        (ExitStep::ObserveProfit, _) => ExitStep::Settle,
        (ExitStep::Settle, true) => ExitStep::Succeeded,
        (ExitStep::Succeeded, _) => ExitStep::Succeeded,
        _ => ExitStep::Failed,
    }
}

/// The step that follows.
pub fn next_exit_step(step: ExitStep, succeeded: bool, realized: bool) -> (r: ExitStep)
    ensures
        r == following_exit_step(step, succeeded, realized),
{
    match (step, succeeded) {
        (ExitStep::LoadIntent, true) => ExitStep::LoadRecommendation,
        (ExitStep::LoadRecommendation, true) => ExitStep::LoadReport,
        (ExitStep::LoadReport, true) => ExitStep::Prepare,
        (ExitStep::Prepare, true) => ExitStep::BuildRow,
        (ExitStep::BuildRow, true) => ExitStep::WriteAhead,
        (ExitStep::WriteAhead, true) => ExitStep::CallVenue,
        (ExitStep::CallVenue, _) => ExitStep::ObserveVenue,
        (ExitStep::ObserveVenue, _) => if realized {
            ExitStep::ObserveProfit
        } else {
            ExitStep::Settle
        },
        (ExitStep::ObserveProfit, _) => ExitStep::Settle,
        (ExitStep::Settle, true) => ExitStep::Succeeded,
        (ExitStep::Succeeded, _) => ExitStep::Succeeded,
        _ => ExitStep::Failed,
    }
}

/// The venue is called only right after the order was written ahead, and what
/// it answered always reaches the settlement.
pub proof fn exit_venue_call_is_framed(step: ExitStep, succeeded: bool, realized: bool)
    ensures
        following_exit_step(step, succeeded, realized) == ExitStep::CallVenue ==> step
            == ExitStep::WriteAhead && succeeded,
        step == ExitStep::CallVenue ==> {
            let observed = following_exit_step(step, succeeded, realized);
            let after = following_exit_step(observed, true, realized);
            observed == ExitStep::ObserveVenue && (after == ExitStep::Settle
                || following_exit_step(after, true, realized) == ExitStep::Settle)
        },
{
}

/// Whether `steps` is a run of an exit from its start. Of each step it is known
/// whether it succeeded, and whether a profit was realized by then.
pub open spec fn is_exit_run(
    steps: Seq<ExitStep>,
    successes: Seq<bool>,
    realized: Seq<bool>,
) -> bool {
    &&& steps.len() == successes.len() + 1
    &&& realized.len() == successes.len()
    &&& steps[0] == ExitStep::LoadIntent
    &&& forall|i: int|
        0 <= i < successes.len() ==> #[trigger] steps[i + 1] == following_exit_step(
            steps[i],
            successes[i],
            realized[i],
        )
}

/// In every run, the venue is called only after the order was written ahead,
/// with every step before it succeeded, and it is called at most once.
pub proof fn exit_venue_call_follows_write_ahead(
    steps: Seq<ExitStep>,
    successes: Seq<bool>,
    realized: Seq<bool>,
    position: int,
)
    requires
        is_exit_run(steps, successes, realized),
        0 <= position < steps.len(),
        steps[position] == ExitStep::CallVenue,
    ensures
        position == 6,
        steps[5] == ExitStep::WriteAhead,
        forall|i: int| 0 <= i < position ==> #[trigger] successes[i],
{
    lemma_exit_positions(steps, successes, realized, position);
}

/// In every run, a step up to the venue call stands at its fixed place, with
/// every earlier step succeeded.
proof fn lemma_exit_positions(
    steps: Seq<ExitStep>,
    successes: Seq<bool>,
    realized: Seq<bool>,
    position: int,
)
    requires
        is_exit_run(steps, successes, realized),
        0 <= position < steps.len(),
    ensures
        exit_place(steps[position]) >= 0 ==> position == exit_place(steps[position]) && forall|
            i: int,
        |
            #![trigger steps[i]]
            #![trigger successes[i]]
            0 <= i < position ==> exit_place(steps[i]) == i && successes[i],
    decreases position,
{
    if position > 0 {
        lemma_exit_positions(steps, successes, realized, position - 1);
        assert(steps[(position - 1) + 1] == following_exit_step(
            steps[position - 1],
            successes[position - 1],
            realized[position - 1],
        ));
    }
}

spec fn exit_place(step: ExitStep) -> int {
    match step {
        ExitStep::LoadIntent => 0,
        ExitStep::LoadRecommendation => 1,
        ExitStep::LoadReport => 2,
        ExitStep::Prepare => 3,
        ExitStep::BuildRow => 4,
        ExitStep::WriteAhead => 5,
        ExitStep::CallVenue => 6,
        _ => -1,
    }
}

} // verus!
