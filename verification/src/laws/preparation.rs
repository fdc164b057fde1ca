//! What the preparation of an entry is for.
use vstd::prelude::*;

use crate::admission::builder::{
    collateral_of, economic_health, metadata_of, recovery_route, routes_to, CatalogMarket,
    ModelRouting, RouteEconomicHealth, SettlementRoute,
};
use crate::admission::model::AdmissionEconomicHealth;
use crate::admission::preparation::{EntryOrderPreparation, PreparationReplies};
use crate::decimal::{ceiled, floored, whole_numbers_have_their_value, Decimal, Price, Shares, Usd};
use crate::laws::values::negates_to;
use crate::order_rules::{PolymarketOrderRules, SHARE_DIGITS};
use crate::orders::{
    visible_fees, BookWalkFill, BookWalkOutcome, ClobMarketInfo, EntryMakerRebateTerms,
    OrderAmount, PitFeeSchedule, PitMakerRebateEvidence, VenueFundingBalance, VenueFundingEvidence,
    VenueOrderAmount, VenueOrderMetadata,
};
use crate::plans::KillSwitchState;
use crate::time::Timestamp;
use crate::types::{ModelVersionId, TokenId};

verus! {

/// Whether a walk bought something.
pub open spec fn buys_something(fill: BookWalkFill) -> bool {
    fill.outcome != BookWalkOutcome::Unfilled && fill.principal_usd@ > 0
}

/// A cash order is prepared exactly where everything can be known, both walks
/// buy something and what it costs stays within the budget.
pub proof fn cash_orders_stay_within_their_budget(
    preparation: EntryOrderPreparation,
    replies: PreparationReplies,
    budget: Usd,
)
    requires
        preparation.spec.amount == OrderAmount::Usd(budget),
        preparation.opening_defect(replies.schedule_defect, replies.rules_defect) is None,
    ensures
        preparation.prepared(replies) is Ok <==> {
            &&& replies.budget_walk is Ok && buys_something(replies.budget_walk->Ok_0)
            &&& replies.canonical is Ok
            &&& replies.share_walk is Ok && buys_something(replies.share_walk->Ok_0)
            &&& replies.share_walk->Ok_0.cash_outlay_usd@ <= budget@
        },
        preparation.prepared(replies) matches Ok(order) ==> {
            &&& order.cash_budget == Some(budget)
            &&& order.expected_fee == replies.share_walk->Ok_0.total_fee_usd
            &&& order.total_cash_delta == replies.share_walk->Ok_0.account_cash_delta_usd
            &&& order.expected_filled_shares == replies.share_walk->Ok_0.filled_shares
            &&& order.venue_amount == replies.canonical->Ok_0.venue_amount
            &&& order.requested_shares == replies.canonical->Ok_0.requested_shares
            &&& replies.share_walk->Ok_0.worst_price is Some ==> Some(
                order.expected_worst_fill_price,
            ) == replies.share_walk->Ok_0.worst_price
            &&& replies.share_walk->Ok_0.worst_price is None ==> order.expected_worst_fill_price
                == preparation.spec.limit_price
        },
        (preparation.amount_to_canonicalize(replies.budget_walk) matches Ok(amount)
            ==> amount == VenueOrderAmount::PrincipalUsd(replies.budget_walk->Ok_0.principal_usd)),
{
}

/// An order that rests expects no fee, to be filled as asked at its limit, and to
/// cost its principal.
pub proof fn resting_orders_expect_their_limit(
    preparation: EntryOrderPreparation,
    replies: PreparationReplies,
    cost: Decimal,
)
    requires
        preparation.spec.amount is Shares,
        preparation.spec.post_only,
        preparation.opening_defect(replies.schedule_defect, replies.rules_defect) is None,
        replies.canonical is Ok,
        negates_to(replies.canonical->Ok_0.principal_usd, cost),
    ensures
        preparation.prepared(replies) matches Ok(order) && {
            &&& order.expected_fee@ == 0
            &&& order.expected_worst_fill_price == preparation.spec.limit_price
            &&& order.expected_filled_shares == order.requested_shares
            &&& order.total_cash_delta@ == -replies.canonical->Ok_0.principal_usd@
            &&& order.cash_budget is None
        },
{
    whole_numbers_have_their_value(0);
}

/// A prepared order is the intended one, in the market as it is now.
pub proof fn prepared_orders_are_the_intended_ones(
    preparation: EntryOrderPreparation,
    replies: PreparationReplies,
)
    requires
        preparation.prepared(replies) is Ok,
    ensures
        ({
            let order = preparation.prepared(replies)->Ok_0;
            &&& order.side is Buy && preparation.spec.side is Buy
            &&& order.token_id == preparation.spec.token_id
            &&& order.order_type == preparation.spec.order_type
            &&& order.post_only == preparation.spec.post_only
            &&& order.limit_price == preparation.spec.limit_price
            &&& order.valid_until == preparation.spec.valid_until
            &&& order.prepared_at == preparation.now
            &&& order.market_id == preparation.venue_metadata.current_market_id
            &&& order.tick_size == preparation.venue_metadata.current_tick_size
            &&& order.minimum_order_size == preparation.venue_metadata.current_minimum_order_size
            &&& order.neg_risk == preparation.venue_metadata.current_neg_risk
            &&& order.fee_schedule == preparation.fee_schedule
            &&& order.book_hash == replies.book_hash
            &&& preparation.spec.amount is Usd ==> order.order_type is Fok || order.order_type is Fak
        }),
{
}

/// Only an order that may be filled in part is walked in part.
pub proof fn walks_fill_what_the_order_allows(
    preparation: EntryOrderPreparation,
    amount: OrderAmount,
)
    ensures
        preparation.walk_of(amount).requirement is AllowPartial <==> preparation.spec.order_type
            is Fak,
        preparation.walk_of(amount).limit_price == preparation.spec.limit_price,
        preparation.walk_of(amount).amount == amount,
        preparation.walk_of(amount).schedule == preparation.fee_schedule,
        preparation.walk_of(amount).at == preparation.now,
{
}

/// An entry that takes liquidity has no rebate terms, and one that rests has
/// some; where a program runs, its frozen terms are those of the fees and of
/// today.
pub proof fn rebate_terms_fit_the_route(
    preparation: EntryOrderPreparation,
    schedule_defect: Option<String>,
)
    requires
        preparation.entry_defect(schedule_defect) is None,
    ensures
        preparation.spec.side is Buy,
        preparation.spec.post_only <==> !(preparation.spec.maker_rebate_terms
            is AggressiveNotApplicable),
        preparation.spec.maker_rebate_terms matches EntryMakerRebateTerms::PassiveNoProgram {
            terms_hash,
            available_at,
        } ==> available_at@ <= preparation.now@ && preparation.fee_schedule.platform_rate@ == 0
            && preparation.maker_rebate_evidence == (PitMakerRebateEvidence::NoProgram {
            terms_hash,
        }),
        preparation.spec.maker_rebate_terms matches EntryMakerRebateTerms::PassiveProgram {
            schedule,
        } ==> {
            &&& schedule_defect is None
            &&& schedule.platform_rate@ == preparation.fee_schedule.platform_rate@
            &&& schedule.exponent == preparation.fee_schedule.exponent
            &&& schedule.taker_only == preparation.fee_schedule.taker_only
            &&& (preparation.maker_rebate_evidence matches PitMakerRebateEvidence::Available {
                schedule: today,
            } && today.terms_hash == schedule.terms_hash && today.rebate_rate@
                == schedule.rebate_rate@ && today.platform_rate@ == schedule.platform_rate@
                && today.exponent == schedule.exponent && today.taker_only == schedule.taker_only)
        },
{
}

/// An entry that takes liquidity and claims no rebate has no defect.
pub proof fn aggressive_entries_need_no_terms(
    preparation: EntryOrderPreparation,
    schedule_defect: Option<String>,
)
    requires
        preparation.spec.side is Buy,
        !preparation.spec.post_only,
        preparation.spec.maker_rebate_terms is AggressiveNotApplicable,
    ensures
        preparation.entry_defect(schedule_defect) is None,
        preparation.spec.amount is Shares ==> preparation.opening_defect(schedule_defect, None)
            is None,
{
}

/// The assessment of a route is fresh exactly while it is no older than allowed.
pub proof fn assessments_are_fresh_for_their_time(
    health: RouteEconomicHealth,
    freshness_secs: u64,
    now: Timestamp,
)
    ensures
        economic_health(None, freshness_secs, now) is Missing,
        economic_health(Some(health), freshness_secs, now)
            matches AdmissionEconomicHealth::Present { fresh, state, assessed_through, .. } && fresh
            == (now@ <= health.assessed_through@ + freshness_secs * 1000000000) && state
            == health.state && assessed_through == health.assessed_through,
{
}

/// A model routes where it is a champion or the exit model in force.
pub proof fn models_route_where_they_are_active(routing: ModelRouting, model: ModelVersionId)
    ensures
        routes_to(routing, model) <==> (exists|i: int|
            0 <= i < routing.champions@.len() && #[trigger] routing.champions@[i] == model)
            || routing.active_exit_model == Some(model),
{
}

/// An entry is paid in collateral.
pub proof fn entries_are_paid_in_collateral(funding: VenueFundingEvidence)
    ensures
        collateral_of(funding) is Ok <==> funding.snapshot.human_balance is Collateral,
        collateral_of(funding) matches Ok(usd) ==> funding.snapshot.human_balance
            == VenueFundingBalance::Collateral(usd),
{
}

/// A token is known to a listing exactly where the listing names it.
pub proof fn tokens_are_known_where_they_are_listed(
    token: TokenId,
    frozen: ClobMarketInfo,
    current: ClobMarketInfo,
    live: VenueOrderMetadata,
    catalog: CatalogMarket,
)
    ensures
        ({
            let metadata = metadata_of(token, frozen, current, live, catalog);
            &&& metadata.catalog_token_id is Some <==> catalog.token_yes@ == token@
                || catalog.token_no@ == token@
            &&& metadata.frozen_token_id is Some <==> exists|i: int|
                0 <= i < frozen.tokens@.len() && (#[trigger] frozen.tokens@[i])@ == token@
            &&& metadata.current_token_id is Some <==> exists|i: int|
                0 <= i < current.tokens@.len() && (#[trigger] current.tokens@[i])@ == token@
            &&& metadata.live_token_id == live.token_id && metadata.live_market_id
                == live.market_id
            &&& metadata.frozen_market_id == frozen.market_id && metadata.current_market_id
                == current.market_id && metadata.catalog_market_id == catalog.market_id
            &&& metadata.frozen_tick_size == frozen.tick_size && metadata.current_tick_size
                == current.tick_size && metadata.live_tick_size == live.tick_size
        }),
{
}

/// Fees are used only where they were in force and known at the decision.
pub proof fn fees_are_visible_when_decided(
    market_info: ClobMarketInfo,
    decision_at: Timestamp,
    converted: Result<PitFeeSchedule, String>,
)
    ensures
        visible_fees(market_info, decision_at, converted) is Ok <==> market_info.effective_at@
            <= decision_at@ && market_info.available_at@ <= decision_at@ && converted is Ok,
        visible_fees(market_info, decision_at, converted) matches Ok(schedule) ==> converted
            == Ok::<PitFeeSchedule, String>(schedule),
{
}

/// An exit's limit is raised to the next tick: never below what was asked, by
/// less than a tick, on the grid and off both ends of the range.
pub proof fn limits_are_raised_to_a_tick(
    rules: PolymarketOrderRules,
    minimum: Price,
)
    ensures
        rules.limit_for(minimum) is Ok <==> rules.tick() <= ceiled(
            minimum@,
            rules.tick_size.spec_digits(),
        ) <= crate::order_rules::one_unit() - rules.tick(),
        minimum@ <= ceiled(minimum@, rules.tick_size.spec_digits()) < minimum@ + rules.tick(),
        ceiled(minimum@, rules.tick_size.spec_digits()) % rules.tick() == 0,
        (rules.limit_for(minimum) matches Ok(limit) && minimum.ceiled_to(
            rules.tick_size.spec_digits(),
        )@ == ceiled(minimum@, rules.tick_size.spec_digits())) ==> minimum@
            <= rules.limit_for(minimum)->Ok_0@ < minimum@ + rules.tick(),
{
    crate::order_rules::raised_limit_keeps_the_minimum(minimum@, rules.tick_size);
    let tick = rules.tick();
    let down = (-minimum@) / tick;
    assert(tick > 0) by {
        vstd::arithmetic::power::lemma_pow_positive(
            10,
            (28 - rules.tick_size.spec_digits()) as nat,
        );
    }
    assert(-(down * tick) == (-down) * tick) by (nonlinear_arith);
    vstd::arithmetic::div_mod::lemma_mod_multiples_basic(-down, tick);
}

/// A sale never sells more than asked, less by under a hundredth of a share, and
/// at least the market's minimum.
pub proof fn sales_are_cut_to_hundredths(
    rules: PolymarketOrderRules,
    shares: Shares,
)
    ensures
        rules.sale_of(shares) is Ok <==> rules.minimum_order_size@ <= floored(shares@, SHARE_DIGITS),
        floored(shares@, SHARE_DIGITS) <= shares@,
        shares@ - floored(shares@, SHARE_DIGITS) < vstd::arithmetic::power::pow(10, 26),
        rules.sale_of(shares) matches Ok(sale) ==> sale.venue_amount == VenueOrderAmount::Shares(
            sale.requested_shares,
        ),
        (rules.sale_of(shares) matches Ok(sale) && shares.floored_to(SHARE_DIGITS)@ == floored(
            shares@,
            SHARE_DIGITS,
        )) ==> rules.minimum_order_size@ <= rules.sale_of(shares)->Ok_0.requested_shares@
            <= shares@,
{
    crate::order_rules::canonical_sale_never_oversells(shares@);
}

/// The switch allows less the further it is thrown: entries only when closed,
/// automatic exits until it halts, and emergency exits only at its end.
pub proof fn switches_allow_less_and_less(state: KillSwitchState, further: KillSwitchState)
    requires
        state.rank() <= further.rank(),
    ensures
        further.spec_allows_new_entry() ==> state.spec_allows_new_entry(),
        further.spec_allows_auto_exit() ==> state.spec_allows_auto_exit(),
        state.spec_requires_emergency_exit() ==> further.spec_requires_emergency_exit(),
        state.spec_allows_new_entry() <==> state is Closed,
        state.spec_allows_auto_exit() <==> state is Closed || state is ExitOnly,
        state.spec_requires_emergency_exit() <==> state is EmergencyHalt,
{
}

/// Recovery is looked at exactly where the exit relies on it, on the route of the
/// market's kind.
pub proof fn recovery_is_looked_at_where_it_is_relied_on(relies: bool, neg_risk: bool)
    ensures
        recovery_route(relies, neg_risk) is Some <==> relies,
        recovery_route(relies, neg_risk) == Some(SettlementRoute::NegRiskV2) <==> relies
            && neg_risk,
        recovery_route(relies, neg_risk) == Some(SettlementRoute::StandardV2) <==> relies
            && !neg_risk,
{
}

} // verus!
