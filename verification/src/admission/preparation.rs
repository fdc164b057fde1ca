//! Preparation of the exact entry order.
//!
//! Walking the book and bringing amounts into venue form are done by others;
//! their replies are arguments here. What is asked of them, which replies are
//! acceptable, and what order they add up to is decided here.
use vstd::prelude::*;
use vstd::string::*;

use crate::admission::model::AdmissionVenueMetadata;
use crate::decimal::{Decimal, Price, Shares, Usd};
use crate::error::{intent_denied, ErrorView, ExecutionError};
use crate::orders::{
    BookWalkFill, BookWalkOutcome, CanonicalOrderAmounts, EntryMakerRebateTerms, EntryOrderSpec,
    OrderAmount, PitFeeSchedule, PitMakerRebateEvidence, PreparedVenueOrder, VenueOrderAmount,
};
use crate::time::Timestamp;
use crate::types::{ContentHash, FillRequirement, Ident, OrderType, Side};

verus! {

/// What an entry order is prepared from.
#[derive(Debug)]
pub struct EntryOrderPreparation {
    pub profile_ref: Ident,
    pub spec: EntryOrderSpec,
    pub fee_schedule: PitFeeSchedule,
    pub maker_rebate_evidence: PitMakerRebateEvidence,
    pub venue_metadata: AdmissionVenueMetadata,
    pub now: Timestamp,
}

/// What others replied about the order.
#[derive(Debug)]
pub struct PreparationReplies {
    /// What validating the frozen rebate program at this time reported.
    pub schedule_defect: Option<String>,
    /// What making order rules of the current observation reported.
    pub rules_defect: Option<String>,
    /// Walk of the cash budget; read for cash orders only.
    pub budget_walk: Result<BookWalkFill, String>,
    /// Amounts in venue form.
    pub canonical: Result<CanonicalOrderAmounts, String>,
    /// Walk of the canonical shares; not read for resting orders.
    pub share_walk: Result<BookWalkFill, String>,
    /// Hash over the book that was walked.
    pub book_hash: ContentHash,
}

/// What is asked of the asks of the book: how much of this amount, a cash
/// budget or a number of shares, a taker gets at or below the limit.
#[derive(Clone, Copy, Debug)]
pub struct EntryWalk {
    pub amount: OrderAmount,
    pub limit_price: Price,
    pub requirement: FillRequirement,
    pub schedule: PitFeeSchedule,
    pub at: Timestamp,
}

/// What the fill of an entry is expected to be.
#[derive(Clone, Copy, Debug)]
pub struct EntryFillPrediction {
    pub expected_worst_fill_price: Price,
    pub expected_filled_shares: Shares,
    pub expected_fee: Usd,
    pub total_cash_delta: Decimal,
}

impl EntryFillPrediction {
    /// The prediction that a walk gives.
    pub open spec fn walked(fill: BookWalkFill, limit_price: Price) -> EntryFillPrediction {
        EntryFillPrediction {
            expected_worst_fill_price: match fill.worst_price {
                Some(price) => price,
                None => limit_price,
            },
            expected_filled_shares: fill.filled_shares,
            expected_fee: fill.total_fee_usd,
            total_cash_delta: fill.account_cash_delta_usd,
        }
    }

    /// The prediction that a walk gives.
    pub fn from_fill(fill: &BookWalkFill, limit_price: Price) -> (r: EntryFillPrediction)
        ensures
            r == EntryFillPrediction::walked(*fill, limit_price),
    {
        EntryFillPrediction {
            expected_worst_fill_price: match fill.worst_price {
                Some(price) => price,
                None => limit_price,
            },
            expected_filled_shares: fill.filled_shares,
            expected_fee: fill.total_fee_usd,
            total_cash_delta: fill.account_cash_delta_usd,
        }
    }

    /// The prediction for an order that rests: all of it, at its limit, free.
    pub open spec fn resting(canonical: CanonicalOrderAmounts, limit_price: Price) ->
        EntryFillPrediction {
        EntryFillPrediction {
            expected_worst_fill_price: limit_price,
            expected_filled_shares: canonical.requested_shares,
            expected_fee: Decimal::of_parts(0, 0),
            total_cash_delta: canonical.principal_usd.opposite(),
        }
    }

    /// The prediction for an order that rests.
    pub fn passive(canonical: &CanonicalOrderAmounts, limit_price: Price) -> (r:
        EntryFillPrediction)
        ensures
            r == EntryFillPrediction::resting(*canonical, limit_price),
    {
        EntryFillPrediction {
            expected_worst_fill_price: limit_price,
            expected_filled_shares: canonical.requested_shares,
            expected_fee: Decimal::zero(),
            total_cash_delta: canonical.principal_usd.negate(),
        }
    }
}

/// A refusal of the intent.
pub open spec fn refused(reason: Seq<char>) -> ErrorView {
    ErrorView::IntentDenied { reason }
}

impl EntryOrderPreparation {
    /// Whether the frozen rebate program charges what the admitted fees do.
    pub open spec fn program_matches_fees(self) -> bool {
        self.spec.maker_rebate_terms matches EntryMakerRebateTerms::PassiveProgram { schedule }
            && schedule.platform_rate@ == self.fee_schedule.platform_rate@ && schedule.exponent
            == self.fee_schedule.exponent && schedule.taker_only == self.fee_schedule.taker_only
    }

    /// Whether the program that runs now is the frozen one.
    pub open spec fn program_is_current(self) -> bool {
        self.spec.maker_rebate_terms matches EntryMakerRebateTerms::PassiveProgram { schedule }
            && (self.maker_rebate_evidence matches PitMakerRebateEvidence::Available {
            schedule: current,
        } && current.terms_hash == schedule.terms_hash && current.platform_rate@
            == schedule.platform_rate@ && current.exponent == schedule.exponent
            && current.taker_only == schedule.taker_only && current.rebate_rate@
            == schedule.rebate_rate@)
    }

    /// Why the entry may not be prepared at all, if it may not.
    pub open spec fn entry_defect(self, schedule_defect: Option<String>) -> Option<ErrorView> {
        if self.spec.side != Side::Buy {
            Some(refused("opening entry must be a BUY"@))
        } else {
            match self.spec.maker_rebate_terms {
                EntryMakerRebateTerms::AggressiveNotApplicable if !self.spec.post_only => None,
                EntryMakerRebateTerms::PassiveNoProgram {
                    terms_hash,
                    available_at,
                } if self.spec.post_only && available_at@ <= self.now@
                    && self.fee_schedule.platform_rate@ == 0 && (self.maker_rebate_evidence
                    matches PitMakerRebateEvidence::NoProgram { terms_hash: current } && current
                    == terms_hash) => None,
                EntryMakerRebateTerms::PassiveProgram { .. } if self.spec.post_only => {
                    if schedule_defect is Some {
                        Some(refused(schedule_defect->0@))
                    } else if !self.program_matches_fees() {
                        Some(
                            refused(
                                "frozen Gamma rebate terms disagree with admitted CLOB fee terms"@,
                            ),
                        )
                    } else if !self.program_is_current() {
                        Some(
                            refused(
                                "maker-rebate terms drifted after recommendation or intent creation"@,
                            ),
                        )
                    } else {
                        None
                    }
                },
                _ => Some(refused("entry route and maker-rebate terms are not admissible"@)),
            }
        }
    }

    /// Checks that the entry may be prepared at all.
    pub fn validate_entry_spec(&self, schedule_defect: &Option<String>) -> (r: Result<
        (),
        ExecutionError,
    >)
        ensures
            match r {
                Ok(_) => self.entry_defect(*schedule_defect) is None,
                Err(error) => self.entry_defect(*schedule_defect) == Some(error@),
            },
    {
        if self.spec.side != Side::Buy {
            return Err(intent_denied("opening entry must be a BUY"));
        }
        match self.spec.maker_rebate_terms {
            EntryMakerRebateTerms::AggressiveNotApplicable => {
                if !self.spec.post_only {
                    return Ok(());
                }
            },
            EntryMakerRebateTerms::PassiveNoProgram { terms_hash, available_at } => {
                let confirmed = match self.maker_rebate_evidence {
                    PitMakerRebateEvidence::NoProgram { terms_hash: current } => current
                        == terms_hash,
                    _ => false,
                };
                if self.spec.post_only && available_at.until(self.now)
                    && self.fee_schedule.platform_rate.is_zero() && confirmed {
                    return Ok(());
                }
            },
            EntryMakerRebateTerms::PassiveProgram { schedule } => {
                if self.spec.post_only {
                    if let Some(defect) = schedule_defect {
                        return Err(intent_denied(defect.as_str()));
                    }
                    if !schedule.platform_rate.same(self.fee_schedule.platform_rate)
                        || schedule.exponent != self.fee_schedule.exponent || schedule.taker_only
                        != self.fee_schedule.taker_only {
                        return Err(
                            intent_denied(
                                "frozen Gamma rebate terms disagree with admitted CLOB fee terms",
                            ),
                        );
                    }
                    let current = match self.maker_rebate_evidence {
                        PitMakerRebateEvidence::Available { schedule: current } => {
                            current.terms_hash == schedule.terms_hash
                                && current.platform_rate.same(schedule.platform_rate)
                                && current.exponent == schedule.exponent && current.taker_only
                                == schedule.taker_only && current.rebate_rate.same(
                                schedule.rebate_rate,
                            )
                        },
                        _ => false,
                    };
                    if !current {
                        return Err(
                            intent_denied(
                                "maker-rebate terms drifted after recommendation or intent creation",
                            ),
                        );
                    }
                    return Ok(());
                }
            },
        }
        Err(intent_denied("entry route and maker-rebate terms are not admissible"))
    }

    /// Whether the walks have to fill completely.
    pub open spec fn spec_requirement(self) -> FillRequirement {
        if self.spec.order_type is Fak {
            FillRequirement::AllowPartial
        } else {
            FillRequirement::AllOrNothing
        }
    }

    /// Whether the walks have to fill completely.
    pub fn requirement(&self) -> (r: FillRequirement)
        ensures
            r == self.spec_requirement(),
    {
        match self.spec.order_type {
            OrderType::Fak => FillRequirement::AllowPartial,
            _ => FillRequirement::AllOrNothing,
        }
    }

    /// The walk that an amount of this order needs.
    pub open spec fn walk_of(self, amount: OrderAmount) -> EntryWalk {
        EntryWalk {
            amount,
            limit_price: self.spec.limit_price,
            requirement: self.spec_requirement(),
            schedule: self.fee_schedule,
            at: self.now,
        }
    }

    fn walk(&self, amount: OrderAmount) -> (r: EntryWalk)
        ensures
            r == self.walk_of(amount),
    {
        EntryWalk {
            amount,
            limit_price: self.spec.limit_price,
            requirement: self.requirement(),
            schedule: self.fee_schedule,
            at: self.now,
        }
    }

    /// Why nothing is asked about the order, if nothing is.
    pub open spec fn opening_defect(
        self,
        schedule_defect: Option<String>,
        rules_defect: Option<String>,
    ) -> Option<ErrorView> {
        match self.entry_defect(schedule_defect) {
            Some(defect) => Some(defect),
            None => if rules_defect is Some {
                Some(refused("live venue order rules are invalid: "@ + rules_defect->0@))
            } else if self.spec.amount is Usd && !(self.spec.order_type is Fok
                || self.spec.order_type is Fak) {
                Some(refused("cash-budget BUY is valid only for FOK/FAK"@))
            } else {
                None
            },
        }
    }

    /// Opens the preparation: the walk of the cash budget that is asked for
    /// first, or nothing where the shares go straight into venue form.
    pub fn open(&self, schedule_defect: &Option<String>, rules_defect: &Option<String>) -> (r:
        Result<Option<EntryWalk>, ExecutionError>)
        ensures
            match r {
                Ok(walk) => self.opening_defect(*schedule_defect, *rules_defect) is None && walk
                    == (match self.spec.amount {
                    OrderAmount::Usd(_) => Some(self.walk_of(self.spec.amount)),
                    OrderAmount::Shares(_) => None,
                }),
                Err(error) => self.opening_defect(*schedule_defect, *rules_defect) == Some(error@),
            },
    {
        match self.validate_entry_spec(schedule_defect) {
            Ok(_) => {},
            Err(error) => {
                return Err(error);
            },
        }
        if let Some(defect) = rules_defect {
            return Err(
                ExecutionError::IntentDenied {
                    reason: "live venue order rules are invalid: ".to_owned().concat(
                        defect.as_str(),
                    ),
                },
            );
        }
        match self.spec.amount {
            OrderAmount::Usd(_) => {
                match self.spec.order_type {
                    OrderType::Fok | OrderType::Fak => Ok(Some(self.walk(self.spec.amount))),
                    _ => Err(intent_denied("cash-budget BUY is valid only for FOK/FAK")),
                }
            },
            OrderAmount::Shares(_) => Ok(None),
        }
    }

    /// Whether a walk leads to an order.
    pub open spec fn executable(fill: BookWalkFill) -> bool {
        fill.outcome != BookWalkOutcome::Unfilled && fill.principal_usd@ > 0
    }

    /// Checks that a walk leads to an order.
    pub fn require_fill(fill: &BookWalkFill, subject: &str) -> (r: Result<(), ExecutionError>)
        ensures
            crate::error::outcome(r) == (if Self::executable(*fill) {
                Ok::<(), ErrorView>(())
            } else {
                Err(refused(subject@ + " cannot execute from the admitted PIT L2 book"@))
            }),
    {
        if fill.outcome == BookWalkOutcome::Unfilled || !fill.principal_usd.is_positive() {
            Err(
                ExecutionError::IntentDenied {
                    reason: subject.to_owned().concat(
                        " cannot execute from the admitted PIT L2 book",
                    ),
                },
            )
        } else {
            Ok(())
        }
    }

    /// Amount that has to be brought into venue form, or why there is none: the
    /// principal that the cash budget buys, or the shares.
    pub open spec fn amount_to_canonicalize(self, budget_walk: Result<BookWalkFill, String>) ->
        Result<VenueOrderAmount, ErrorView> {
        match self.spec.amount {
            OrderAmount::Shares(shares) => Ok(VenueOrderAmount::Shares(shares)),
            OrderAmount::Usd(_) => match budget_walk {
                Err(defect) => Err(
                    refused("cash-budget execution preparation failed: "@ + defect@),
                ),
                Ok(fill) => if Self::executable(fill) {
                    Ok(VenueOrderAmount::PrincipalUsd(fill.principal_usd))
                } else {
                    Err(refused("cash budget cannot execute from the admitted PIT L2 book"@))
                },
            },
        }
    }

    /// Amount that has to be brought into venue form.
    pub fn canonical_request(&self, budget_walk: &Result<BookWalkFill, String>) -> (r: Result<
        VenueOrderAmount,
        ExecutionError,
    >)
        ensures
            crate::error::outcome(r) == self.amount_to_canonicalize(*budget_walk),
    {
        match self.spec.amount {
            OrderAmount::Shares(shares) => Ok(VenueOrderAmount::Shares(shares)),
            OrderAmount::Usd(_) => match budget_walk {
                Err(defect) => Err(
                    ExecutionError::IntentDenied {
                        reason: "cash-budget execution preparation failed: ".to_owned().concat(
                            defect.as_str(),
                        ),
                    },
                ),
                Ok(fill) => {
                    proof {
                        reveal_strlit("cash budget");
                        reveal_strlit(" cannot execute from the admitted PIT L2 book");
                        reveal_strlit("cash budget cannot execute from the admitted PIT L2 book");
                        assert("cash budget"@ + " cannot execute from the admitted PIT L2 book"@
                            =~= "cash budget cannot execute from the admitted PIT L2 book"@);
                    }
                    match Self::require_fill(fill, "cash budget") {
                        Ok(_) => Ok(VenueOrderAmount::PrincipalUsd(fill.principal_usd)),
                        Err(error) => Err(error),
                    }
                },
            },
        }
    }

    /// Whether the canonical shares have to be walked: a resting order of
    /// shares takes nothing from the book.
    pub open spec fn walks_shares(self) -> bool {
        self.spec.amount is Usd || !self.spec.post_only
    }

    /// The walk of the canonical shares, where one is asked for.
    pub fn share_walk(&self, canonical: &Result<CanonicalOrderAmounts, String>) -> (r: Option<
        EntryWalk,
    >)
        ensures
            r == (match *canonical {
                Ok(amounts) if self.walks_shares() => Some(
                    self.walk_of(OrderAmount::Shares(amounts.requested_shares)),
                ),
                _ => None,
            }),
    {
        let rests = match self.spec.amount {
            OrderAmount::Usd(_) => false,
            OrderAmount::Shares(_) => self.spec.post_only,
        };
        match canonical {
            Ok(amounts) => if rests {
                None
            } else {
                Some(self.walk(OrderAmount::Shares(amounts.requested_shares)))
            },
            Err(_) => None,
        }
    }

    /// The fill that the canonical amounts are expected to get, or why they
    /// cannot be used.
    pub open spec fn predicted(
        self,
        canonical: Result<CanonicalOrderAmounts, String>,
        share_walk: Result<BookWalkFill, String>,
    ) -> Result<(CanonicalOrderAmounts, EntryFillPrediction), ErrorView> {
        let limit = self.spec.limit_price;
        match (canonical, share_walk) {
            (Err(defect), _) => Err(
                refused(
                    (if self.spec.amount is Usd {
                        "cash-budget venue canonicalization failed: "@
                    } else {
                        "share venue canonicalization failed: "@
                    }) + defect@,
                ),
            ),
            (Ok(amounts), share_walk) => if !self.walks_shares() {
                Ok((amounts, EntryFillPrediction::resting(amounts, limit)))
            } else {
                match share_walk {
                    Err(defect) => Err(refused("canonical share prediction failed: "@ + defect@)),
                    Ok(fill) => if !Self::executable(fill) {
                        Err(
                            refused(
                                (if self.spec.amount is Usd {
                                    "canonical cash budget"@
                                } else {
                                    "share order"@
                                }) + " cannot execute from the admitted PIT L2 book"@,
                            ),
                        )
                    } else if self.spec.amount matches OrderAmount::Usd(budget)
                        && fill.cash_outlay_usd@ > budget@ {
                        Err(refused("canonical BUY exceeds governed cash budget"@))
                    } else {
                        Ok((amounts, EntryFillPrediction::walked(fill, limit)))
                    },
                }
            },
        }
    }

    /// The fill that the canonical amounts are expected to get.
    pub fn predict_fill(
        &self,
        canonical: &Result<CanonicalOrderAmounts, String>,
        share_walk: &Result<BookWalkFill, String>,
    ) -> (r: Result<(CanonicalOrderAmounts, EntryFillPrediction), ExecutionError>)
        ensures
            crate::error::outcome(r) == self.predicted(*canonical, *share_walk),
    {
        let limit = self.spec.limit_price;
        let cash = match self.spec.amount {
            OrderAmount::Usd(_) => true,
            OrderAmount::Shares(_) => false,
        };
        let amounts = match canonical {
            Ok(amounts) => *amounts,
            Err(defect) => {
                let lead = if cash {
                    "cash-budget venue canonicalization failed: "
                } else {
                    "share venue canonicalization failed: "
                };
                return Err(
                    ExecutionError::IntentDenied {
                        reason: lead.to_owned().concat(defect.as_str()),
                    },
                );
            },
        };
        if !cash && self.spec.post_only {
            return Ok((amounts, EntryFillPrediction::passive(&amounts, limit)));
        }
        let fill = match share_walk {
            Ok(fill) => fill,
            Err(defect) => {
                return Err(
                    ExecutionError::IntentDenied {
                        reason: "canonical share prediction failed: ".to_owned().concat(
                            defect.as_str(),
                        ),
                    },
                );
            },
        };
        let subject = if cash {
            "canonical cash budget"
        } else {
            "share order"
        };
        match Self::require_fill(fill, subject) {
            Ok(_) => {},
            Err(error) => {
                return Err(error);
            },
        }
        if let OrderAmount::Usd(budget) = self.spec.amount {
            if budget.lt(fill.cash_outlay_usd) {
                return Err(intent_denied("canonical BUY exceeds governed cash budget"));
            }
        }
        Ok((amounts, EntryFillPrediction::from_fill(fill, limit)))
    }

    /// The order that the replies add up to.
    pub open spec fn assembled(
        self,
        amounts: CanonicalOrderAmounts,
        prediction: EntryFillPrediction,
        book_hash: ContentHash,
    ) -> PreparedVenueOrder {
        PreparedVenueOrder {
            profile_ref: self.profile_ref,
            market_id: self.venue_metadata.current_market_id,
            token_id: self.spec.token_id,
            tick_size: self.venue_metadata.current_tick_size,
            minimum_order_size: self.venue_metadata.current_minimum_order_size,
            neg_risk: self.venue_metadata.current_neg_risk,
            side: self.spec.side,
            order_type: self.spec.order_type,
            post_only: self.spec.post_only,
            limit_price: self.spec.limit_price,
            expected_worst_fill_price: prediction.expected_worst_fill_price,
            cash_budget: match self.spec.amount {
                OrderAmount::Usd(budget) => Some(budget),
                OrderAmount::Shares(_) => None,
            },
            venue_amount: amounts.venue_amount,
            requested_shares: amounts.requested_shares,
            expected_fee: prediction.expected_fee,
            total_cash_delta: prediction.total_cash_delta,
            expected_filled_shares: prediction.expected_filled_shares,
            book_hash,
            clob_market_info_payload_hash: self.venue_metadata.current_payload_hash,
            fee_schedule: self.fee_schedule,
            maker_rebate_terms: self.spec.maker_rebate_terms,
            prepared_at: self.now,
            valid_until: self.spec.valid_until,
        }
    }

    /// The prepared order, or the first thing that stands against it.
    pub open spec fn prepared(self, replies: PreparationReplies) -> Result<
        PreparedVenueOrder,
        ErrorView,
    > {
        match self.opening_defect(replies.schedule_defect, replies.rules_defect) {
            Some(defect) => Err(defect),
            None => match self.amount_to_canonicalize(replies.budget_walk) {
                Err(defect) => Err(defect),
                Ok(_) => match self.predicted(replies.canonical, replies.share_walk) {
                    Err(defect) => Err(defect),
                    Ok((amounts, prediction)) => Ok(
                        self.assembled(amounts, prediction, replies.book_hash),
                    ),
                },
            },
        }
    }

    /// Prepares the entry order from the replies.
    pub fn prepare(&self, replies: &PreparationReplies) -> (r: Result<
        PreparedVenueOrder,
        ExecutionError,
    >)
        ensures
            crate::error::outcome(r) == self.prepared(*replies),
    {
        match self.open(&replies.schedule_defect, &replies.rules_defect) {
            Ok(_) => {},
            Err(error) => {
                return Err(error);
            },
        }
        match self.canonical_request(&replies.budget_walk) {
            Ok(_) => {},
            Err(error) => {
                return Err(error);
            },
        }
        let (amounts, prediction) = match self.predict_fill(
            &replies.canonical,
            &replies.share_walk,
        ) {
            Ok(found) => found,
            Err(error) => {
                return Err(error);
            },
        };
        Ok(
            PreparedVenueOrder {
                profile_ref: self.profile_ref.clone(),
                market_id: self.venue_metadata.current_market_id.clone(),
                token_id: self.spec.token_id.clone(),
                tick_size: self.venue_metadata.current_tick_size,
                minimum_order_size: self.venue_metadata.current_minimum_order_size,
                neg_risk: self.venue_metadata.current_neg_risk,
                side: self.spec.side,
                order_type: self.spec.order_type,
                post_only: self.spec.post_only,
                limit_price: self.spec.limit_price,
                expected_worst_fill_price: prediction.expected_worst_fill_price,
                cash_budget: match self.spec.amount {
                    OrderAmount::Usd(budget) => Some(budget),
                    OrderAmount::Shares(_) => None,
                },
                venue_amount: amounts.venue_amount,
                requested_shares: amounts.requested_shares,
                expected_fee: prediction.expected_fee,
                total_cash_delta: prediction.total_cash_delta,
                expected_filled_shares: prediction.expected_filled_shares,
                book_hash: replies.book_hash,
                clob_market_info_payload_hash: self.venue_metadata.current_payload_hash,
                fee_schedule: self.fee_schedule,
                maker_rebate_terms: self.spec.maker_rebate_terms,
                prepared_at: self.now,
                valid_until: self.spec.valid_until,
            },
        )
    }
}

/// Only buys are prepared, and a cash order is prepared only where the cash
/// that leaves the account for its canonical shares stays within the budget.
pub proof fn prepared_entries_stay_within_budget(
    preparation: EntryOrderPreparation,
    replies: PreparationReplies,
)
    requires
        preparation.prepared(replies) is Ok,
    ensures
        ({
            let order = preparation.prepared(replies)->Ok_0;
            &&& order.side == Side::Buy
            &&& order.cash_budget matches Some(budget) ==> replies.share_walk is Ok
                && replies.share_walk->Ok_0.cash_outlay_usd@ <= budget@ && (
            order.order_type is Fok || order.order_type is Fak)
            &&& order.limit_price == preparation.spec.limit_price
            &&& order.valid_until == preparation.spec.valid_until
        }),
{
}

/// Rebate terms that were frozen for a resting entry are never silently
/// replaced: a resting order is prepared only under the terms that hold now.
pub proof fn resting_entries_keep_their_terms(
    preparation: EntryOrderPreparation,
    replies: PreparationReplies,
)
    requires
        preparation.prepared(replies) is Ok,
        preparation.spec.post_only,
    ensures
        match preparation.spec.maker_rebate_terms {
            EntryMakerRebateTerms::PassiveNoProgram { terms_hash, .. } =>
                preparation.maker_rebate_evidence.spec_terms_hash() == terms_hash,
            EntryMakerRebateTerms::PassiveProgram { schedule } =>
                preparation.maker_rebate_evidence.spec_terms_hash() == schedule.terms_hash,
            EntryMakerRebateTerms::AggressiveNotApplicable => false,
        },
{
}

} // verus!
