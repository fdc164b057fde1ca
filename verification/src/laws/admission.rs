//! What admission is for.
use vstd::arithmetic::power::pow;
use vstd::prelude::*;

use crate::admission::checks::{check_trace, exposure_is_found_under_its_key, exposure_under};
use crate::admission::engine::{
    check_at, decided, outcome_summarizes_the_checks, short_evaluation_decides_the_same,
    some_check, ADMISSION_CHECK_COUNT,
};
use crate::admission::model::{AdmissionCheckId, AdmissionInput, AdmissionOutcome, ExposureEntry};
use crate::decimal::{whole_numbers_have_their_value, Decimal, Usd};
use crate::entry_condition::state::EntryConditionState;
use crate::laws::values::{leaves, multiplies_to, sums_to};
use crate::orders::{BookWalkOutcome, OrderIntentStatus, TickSize, VenueOrderAmount};
use crate::plans::{KillSwitchState, QuantRuntimeMode, RecommendationReportStatus};
use crate::types::OrderType;

verus! {

/// What one check finds of an input.
pub open spec fn found(check: AdmissionCheckId, input: AdmissionInput) -> AdmissionOutcome {
    check_trace(check, input)->0.outcome
}

/// An intent has to be approved and not expired; both are hard.
pub proof fn intents_have_to_be_approved(input: AdmissionInput)
    ensures
        found(AdmissionCheckId::IntentState, input) == (if (input.intent.status
            == OrderIntentStatus::Approved || input.intent.status
            == OrderIntentStatus::ApprovedByPolicy) && input.now@ < input.intent.expires_at@ {
            AdmissionOutcome::Allow
        } else {
            AdmissionOutcome::Deny
        }),
{
}

/// A recommendation has to be valid and its entry window open. An early look
/// waits; a late one is over.
pub proof fn entries_keep_to_their_window(input: AdmissionInput)
    ensures
        found(AdmissionCheckId::RecommendationFreshness, input) is Allow
            <==> input.entry.valid_from@ <= input.now@ <= input.entry.valid_until@ && input.now@
            <= input.recommendation.valid_until@,
        found(AdmissionCheckId::RecommendationFreshness, input) is Defer <==> input.now@
            < input.entry.valid_from@ && input.now@ <= input.recommendation.valid_until@,
{
}

/// The report has to be published, the mode has to execute, and the approval has
/// to be the mode's own.
pub proof fn reports_and_modes_have_to_agree(input: AdmissionInput)
    ensures
        found(AdmissionCheckId::ReportStatus, input) == (if input.report.status
            == RecommendationReportStatus::Published {
            AdmissionOutcome::Allow
        } else {
            AdmissionOutcome::Deny
        }),
        found(AdmissionCheckId::RuntimeMode, input) == (if (input.mode
            == QuantRuntimeMode::SemiAuto && input.intent.status == OrderIntentStatus::Approved)
            || (input.mode == QuantRuntimeMode::AutoExecution && input.intent.status
            == OrderIntentStatus::ApprovedByPolicy) {
            AdmissionOutcome::Allow
        } else {
            AdmissionOutcome::Deny
        }),
{
}

/// Switches that stand against an entry: a blocked recovery, a lost route, an
/// operator's block, missing credentials, an idle exit monitor, an uncalibrated
/// model.
pub proof fn switches_deny(input: AdmissionInput)
    ensures
        found(AdmissionCheckId::SettlementRecovery, input) == (
        if input.settlement_recovery is Blocked {
            AdmissionOutcome::Deny
        } else {
            AdmissionOutcome::Allow
        }),
        found(AdmissionCheckId::ModelRouteBinding, input) == (if input.model_state.route_bound {
            AdmissionOutcome::Allow
        } else {
            AdmissionOutcome::Deny
        }),
        found(AdmissionCheckId::ManualBlock, input) == (if input.exposure.manual_block {
            AdmissionOutcome::Deny
        } else {
            AdmissionOutcome::Allow
        }),
        found(AdmissionCheckId::CredentialReadiness, input) == (
        if input.seams.credentials_ready {
            AdmissionOutcome::Allow
        } else {
            AdmissionOutcome::Deny
        }),
        found(AdmissionCheckId::ExitMonitorReadiness, input) == (
        if input.seams.exit_monitor_ready {
            AdmissionOutcome::Allow
        } else {
            AdmissionOutcome::Deny
        }),
        found(AdmissionCheckId::CalibratedReturnModel, input) == (
        if input.model_state.return_model_calibrated {
            AdmissionOutcome::Allow
        } else {
            AdmissionOutcome::Deny
        }),
{
}

/// The kill switch has to be closed, and automatic execution may not run into
/// unknown exposure; an impaired venue waits.
pub proof fn halts_deny_and_impairment_waits(input: AdmissionInput)
    ensures
        found(AdmissionCheckId::KillSwitch, input) == (if input.kill_switch
            == KillSwitchState::Closed && !(input.mode == QuantRuntimeMode::AutoExecution
            && input.exposure.has_blocking_inflight) {
            AdmissionOutcome::Allow
        } else {
            AdmissionOutcome::Deny
        }),
        found(AdmissionCheckId::VenueGuard, input) == (if input.seams.venue_health is Healthy {
            AdmissionOutcome::Allow
        } else {
            AdmissionOutcome::Defer
        }),
{
}

/// Data has to be classified, timely and complete, and the stale books may not
/// be more than their permitted share.
pub proof fn data_has_to_be_good(input: AdmissionInput)
    requires
        input.data_quality.stale * 10000 <= u64::MAX,
    ensures
        found(AdmissionCheckId::DataQuality, input) is Allow <==> {
            &&& input.data_quality.total_tokens > 0
            &&& !input.data_quality.ingest_lag_exceeded
            &&& input.data_quality.insufficient == 0
            &&& input.data_quality.stale * 10000 < (input.max_stale_book_ratio_bps + 1)
                * input.data_quality.total_tokens
        },
        !(found(AdmissionCheckId::DataQuality, input) is Defer),
{
    let stale = input.data_quality.stale as int;
    let total = input.data_quality.total_tokens as int;
    let most = input.max_stale_book_ratio_bps as int;
    if total > 0 {
        let ratio = stale * 10000 / total;
        assert(ratio <= most <==> stale * 10000 < (most + 1) * total) by (nonlinear_arith)
            requires
                ratio == stale * 10000 / total,
                total > 0,
                stale >= 0,
                most >= 0,
        ;
    }
}

/// A book has to be there and not from the future, and waits until it is young
/// enough.
pub proof fn books_have_to_be_fresh(input: AdmissionInput)
    ensures
        found(AdmissionCheckId::BookFreshness, input) is Allow <==> input.book is Some
            && input.book->0.timestamp_ms <= input.now_ms && input.now_ms
            - input.book->0.timestamp_ms <= input.entry.max_book_age_ms,
        found(AdmissionCheckId::BookFreshness, input) is Defer <==> input.book is Some
            && input.now_ms - input.book->0.timestamp_ms > input.entry.max_book_age_ms,
{
}

/// One tick, in units of a decimal.
pub open spec fn tick_of(size: TickSize) -> int {
    match size {
        TickSize::Tenth => pow(10, 27),
        TickSize::Hundredth => pow(10, 26),
        TickSize::Thousandth => pow(10, 25),
        TickSize::TenThousandth => pow(10, 24),
    }
}

/// Registry and venue have to agree, and the limit has to lie on the grid, at
/// least a tick away from zero and one.
pub proof fn limits_have_to_lie_on_the_grid(input: AdmissionInput)
    ensures
        found(AdmissionCheckId::VenueMetadata, input) is Allow <==> {
            let tick = tick_of(input.venue_metadata.current_tick_size);
            let price = input.intent.entry_order.limit_price@;
            &&& input.venue_metadata.current_tick_size == input.venue_metadata.live_tick_size
            &&& input.venue_metadata.current_neg_risk == input.venue_metadata.live_neg_risk
            &&& tick <= price <= pow(10, 28) - tick
            &&& price % tick == 0
        },
        !(found(AdmissionCheckId::VenueMetadata, input) is Defer),
{
}

/// The condition has to be the intent's own, and waits until it is qualified.
pub proof fn conditions_have_to_be_qualified(input: AdmissionInput)
    ensures
        found(AdmissionCheckId::EntryConditionPlan, input) is Deny
            <==> input.condition.recommendation_id != input.intent.recommendation_id
            || input.condition.condition_instance_id != input.intent.condition_instance_id,
        found(AdmissionCheckId::EntryConditionPlan, input) is Allow
            <==> input.condition.recommendation_id == input.intent.recommendation_id
            && input.condition.condition_instance_id == input.intent.condition_instance_id && (
        input.condition.state == EntryConditionState::NotRequired || input.condition.state
            == EntryConditionState::Qualified),
{
}

/// The risk envelope has to hash to what the intent froze.
pub proof fn envelopes_have_to_be_the_frozen_ones(input: AdmissionInput)
    ensures
        found(AdmissionCheckId::RiskEnvelopeHash, input) == (
        if input.recomputed_envelope_hash is Ok && input.recomputed_envelope_hash->Ok_0
            == input.intent.risk_envelope_hash {
            AdmissionOutcome::Allow
        } else {
            AdmissionOutcome::Deny
        }),
{
}

/// What an order costs: its principal, or its shares at the limit.
pub open spec fn costs(input: AdmissionInput, notional: Usd) -> bool {
    match input.prepared_order.venue_amount {
        VenueOrderAmount::PrincipalUsd(principal) => notional == principal,
        VenueOrderAmount::Shares(shares) => multiplies_to(
            shares,
            input.prepared_order.limit_price,
            notional,
        ),
    }
}

/// An order may cost no more than the cash that is there, with what it reserved
/// itself given back, and no more than the budget less what others reserved.
pub proof fn orders_have_to_be_covered(
    input: AdmissionInput,
    notional: Usd,
    own: Usd,
    available: Usd,
    others: Usd,
    remaining: Usd,
)
    requires
        costs(input, notional),
        own == (match input.allocated_usd {
            Some(usd) => usd,
            None => Decimal::of_parts(0, 0),
        }),
        sums_to(input.account.available_usd, own, available),
        input.account.reserved_usd@ > own@ ==> leaves(input.account.reserved_usd, own, others),
        input.account.reserved_usd@ <= own@ ==> others == Decimal::of_parts(0, 0),
        input.budget_total_usd@ > others@ ==> leaves(input.budget_total_usd, others, remaining),
        input.budget_total_usd@ <= others@ ==> remaining == Decimal::of_parts(0, 0),
    ensures
        check_trace(AdmissionCheckId::CapitalBudget, input) is Some,
        !(found(AdmissionCheckId::CapitalBudget, input) is Defer),
        found(AdmissionCheckId::CapitalBudget, input) is Allow <==> {
            let other = if input.account.reserved_usd@ > own@ {
                input.account.reserved_usd@ - own@
            } else {
                0
            };
            &&& notional@ <= input.account.available_usd@ + own@
            &&& notional@ <= (if input.budget_total_usd@ > other {
                input.budget_total_usd@ - other
            } else {
                0
            })
        },
{
    whole_numbers_have_their_value(0);
}

/// The open intents and the reserved capital may not exceed their caps.
pub proof fn caps_are_kept(input: AdmissionInput)
    ensures
        found(AdmissionCheckId::MaxOpenIntents, input) == (if input.open_intent_count
            <= input.max_open_intents {
            AdmissionOutcome::Allow
        } else {
            AdmissionOutcome::Deny
        }),
        found(AdmissionCheckId::MaxReservedCapital, input) == (
        if input.account.reserved_usd@ <= input.max_reserved_usd@ {
            AdmissionOutcome::Allow
        } else {
            AdmissionOutcome::Deny
        }),
{
}

/// Whether the first entry with a key stands at a position.
pub open spec fn first_at(entries: Seq<ExposureEntry>, key: Seq<char>, position: int) -> bool {
    &&& 0 <= position < entries.len()
    &&& entries[position].key@ == key
    &&& forall|j: int| 0 <= j < position ==> (#[trigger] entries[j]).key@ != key
}

/// What is exposed under a key: the amount of the first entry with the key, or
/// nothing where there is none.
pub open spec fn is_exposed(entries: Seq<ExposureEntry>, key: Seq<char>, usd: Usd) -> bool {
    ||| (exists|i: int| #[trigger] first_at(entries, key, i) && usd == entries[i].usd)
    ||| (usd == Decimal::of_parts(0, 0) && forall|j: int|
        0 <= j < entries.len() ==> (#[trigger] entries[j]).key@ != key)
}

proof fn lemma_exposed(entries: Seq<ExposureEntry>, key: Seq<char>, usd: Usd)
    requires
        is_exposed(entries, key, usd),
    ensures
        exposure_under(entries, key) == usd,
{
    exposure_is_found_under_its_key(entries, key);
    if exists|i: int| #[trigger] first_at(entries, key, i) && usd == entries[i].usd {
        let i = choose|i: int| #[trigger] first_at(entries, key, i) && usd == entries[i].usd;
        assert(entries[i].key@ == key);
    }
}

/// What is exposed to a market, an event or a category, and the order on top of
/// it, may not exceed the envelope's own limit for it.
pub proof fn exposure_stays_within_the_envelope(
    input: AdmissionInput,
    notional: Usd,
    market: Usd,
    event: Usd,
    category: Usd,
    with_market: Usd,
    with_event: Usd,
    with_category: Usd,
)
    requires
        costs(input, notional),
        is_exposed(input.account.per_market@, input.recommendation.market_id@, market),
        is_exposed(input.account.per_event@, input.recommendation.event_id@, event),
        is_exposed(input.account.per_category@, input.recommendation.category@, category),
        sums_to(market, notional, with_market),
        sums_to(event, notional, with_event),
        sums_to(category, notional, with_category),
    ensures
        check_trace(AdmissionCheckId::MarketExposure, input) is Some,
        check_trace(AdmissionCheckId::EventExposure, input) is Some,
        check_trace(AdmissionCheckId::CategoryExposure, input) is Some,
        found(AdmissionCheckId::MarketExposure, input) == (if market@ + notional@
            <= input.risk_envelope.max_market_exposure_usd@ {
            AdmissionOutcome::Allow
        } else {
            AdmissionOutcome::Deny
        }),
        found(AdmissionCheckId::EventExposure, input) == (if event@ + notional@
            <= input.risk_envelope.max_event_exposure_usd@ {
            AdmissionOutcome::Allow
        } else {
            AdmissionOutcome::Deny
        }),
        found(AdmissionCheckId::CategoryExposure, input) == (if category@ + notional@
            <= input.risk_envelope.max_category_exposure_usd@ {
            AdmissionOutcome::Allow
        } else {
            AdmissionOutcome::Deny
        }),
{
    lemma_exposed(input.account.per_market@, input.recommendation.market_id@, market);
    lemma_exposed(input.account.per_event@, input.recommendation.event_id@, event);
    lemma_exposed(input.account.per_category@, input.recommendation.category@, category);
}

/// Whether a resting entry stays out of the asks.
pub open spec fn stays_out_of_the_asks(input: AdmissionInput) -> bool {
    input.book->0.best_ask is Some ==> input.intent.entry_order.limit_price@
        < input.book->0.best_ask->0@
}

/// A resting entry may not take asks, an immediate one has to find some, and
/// the asks have to show the minimum depth, for which an entry waits.
pub proof fn asks_have_to_be_deep_enough(input: AdmissionInput)
    ensures
        found(AdmissionCheckId::LiquidityDepth, input) is Allow <==> {
            &&& input.book is Some
            &&& (input.intent.entry_order.post_only ==> stays_out_of_the_asks(input))
            &&& (!input.intent.entry_order.post_only ==> (input.intent.entry_order.order_type
                == OrderType::Fok || input.intent.entry_order.order_type == OrderType::Fak)
                && input.entry_walk is Some && input.entry_walk->0.outcome
                != BookWalkOutcome::Unfilled)
            &&& input.depth_walk is Some && input.depth_walk->0.outcome == BookWalkOutcome::Filled
        },
        found(AdmissionCheckId::LiquidityDepth, input) is Deny <==> {
            ||| input.book is None
            ||| input.intent.entry_order.post_only && !stays_out_of_the_asks(input)
            ||| !input.intent.entry_order.post_only && (input.entry_walk is None || !(
            input.intent.entry_order.order_type == OrderType::Fok
                || input.intent.entry_order.order_type == OrderType::Fak))
        },
{
}

/// An immediate entry may not be dearer than the best ask by more than the
/// permitted basis points.
pub proof fn slippage_is_tolerated_up_to_the_limit(input: AdmissionInput)
    ensures
        found(AdmissionCheckId::Slippage, input) is Allow <==> {
            &&& input.book is Some
            &&& (input.intent.entry_order.post_only ==> stays_out_of_the_asks(input))
            &&& (!input.intent.entry_order.post_only ==> {
                &&& input.intent.entry_order.order_type == OrderType::Fok
                    || input.intent.entry_order.order_type == OrderType::Fak
                &&& input.book->0.best_ask is Some
                &&& input.entry_walk is Some && input.entry_walk->0.vwap is Some
                &&& input.slippage is Some && input.slippage->0@
                    <= input.intent.entry_order.max_slippage_bps@
            })
        },
        found(AdmissionCheckId::Slippage, input) is Defer <==> {
            &&& input.book is Some && !input.intent.entry_order.post_only
            &&& input.book->0.best_ask is None || (input.entry_walk is Some && (
            input.intent.entry_order.order_type == OrderType::Fok
                || input.intent.entry_order.order_type == OrderType::Fak)
                && input.entry_walk->0.vwap is None)
        },
{
}

/// Every check has its turn.
proof fn lemma_every_check_runs(check: AdmissionCheckId) -> (position: int)
    ensures
        0 <= position < ADMISSION_CHECK_COUNT,
        check_at(position) == check,
{
    match check {
        AdmissionCheckId::IntentState => 0,
        AdmissionCheckId::RecommendationFreshness => 1,
        AdmissionCheckId::ReportStatus => 2,
        AdmissionCheckId::RuntimeMode => 3,
        AdmissionCheckId::SettlementRecovery => 4,
        AdmissionCheckId::ModelRouteBinding => 5,
        AdmissionCheckId::DataQuality => 6,
        AdmissionCheckId::BookFreshness => 7,
        AdmissionCheckId::VenueMetadata => 8,
        AdmissionCheckId::EntryConditionPlan => 9,
        AdmissionCheckId::RiskEnvelopeHash => 10,
        AdmissionCheckId::CapitalBudget => 11,
        AdmissionCheckId::MaxOpenIntents => 12,
        AdmissionCheckId::MaxReservedCapital => 13,
        AdmissionCheckId::MarketExposure => 14,
        AdmissionCheckId::EventExposure => 15,
        AdmissionCheckId::CategoryExposure => 16,
        AdmissionCheckId::LiquidityDepth => 17,
        AdmissionCheckId::Slippage => 18,
        AdmissionCheckId::ManualBlock => 19,
        AdmissionCheckId::KillSwitch => 20,
        AdmissionCheckId::VenueGuard => 21,
        AdmissionCheckId::CredentialReadiness => 22,
        AdmissionCheckId::ExitMonitorReadiness => 23,
        AdmissionCheckId::CalibratedReturnModel => 24,
    }
}

proof fn lemma_traced(input: AdmissionInput, position: int, count: nat)
    requires
        0 <= position < count,
        decided(input, true, count) is Some,
    ensures
        check_trace(check_at(position), input) is Some,
    decreases count,
{
    if position < count - 1 {
        lemma_traced(input, position, (count - 1) as nat);
    }
}

/// A denial by any check denies the intent; it is allowed only where every check
/// allows it, and deferred where none denies and one defers.
pub proof fn every_check_has_a_say(input: AdmissionInput, check: AdmissionCheckId)
    requires
        decided(input, true, ADMISSION_CHECK_COUNT as nat) is Some,
    ensures
        check_trace(check, input) is Some,
        decided(input, true, ADMISSION_CHECK_COUNT as nat)->0.outcome is Allow ==> found(
            check,
            input,
        ) is Allow,
        found(check, input) is Deny ==> decided(
            input,
            true,
            ADMISSION_CHECK_COUNT as nat,
        )->0.outcome is Deny,
        found(check, input) is Defer ==> !(decided(
            input,
            true,
            ADMISSION_CHECK_COUNT as nat,
        )->0.outcome is Allow),
        (forall|other: AdmissionCheckId| #[trigger] found(other, input) is Allow) ==> decided(
            input,
            true,
            ADMISSION_CHECK_COUNT as nat,
        )->0.outcome is Allow,
        (forall|other: AdmissionCheckId| !(#[trigger] found(other, input) is Deny)) ==> !(decided(
            input,
            true,
            ADMISSION_CHECK_COUNT as nat,
        )->0.outcome is Deny),
{
    let count = ADMISSION_CHECK_COUNT as nat;
    let position = lemma_every_check_runs(check);
    lemma_traced(input, position, count);
    outcome_summarizes_the_checks(input, count);
    assert(check_trace(check_at(position), input) is Some);
    if forall|other: AdmissionCheckId| !(#[trigger] found(other, input) is Deny) {
        if some_check(input, AdmissionOutcome::Deny, count) {
            let i = choose|i: int|
                0 <= i < count && (#[trigger] check_trace(check_at(i), input) matches Some(trace)
                    && trace.outcome == AdmissionOutcome::Deny);
            assert(found(check_at(i), input) is Deny);
        }
    }
    if forall|other: AdmissionCheckId| #[trigger] found(other, input) is Allow {
        if some_check(input, AdmissionOutcome::Deny, count) {
            let i = choose|i: int|
                0 <= i < count && (#[trigger] check_trace(check_at(i), input) matches Some(trace)
                    && trace.outcome == AdmissionOutcome::Deny);
            assert(found(check_at(i), input) is Allow);
        }
        if some_check(input, AdmissionOutcome::Defer, count) {
            let i = choose|i: int|
                0 <= i < count && (#[trigger] check_trace(check_at(i), input) matches Some(trace)
                    && trace.outcome == AdmissionOutcome::Defer);
            assert(found(check_at(i), input) is Allow);
        }
    }
}

/// An intent that admission allows is approved, within its windows, routed,
/// qualified and unblocked, with a fresh book on which its limit is permitted.
pub proof fn admitted_intents_are_sound(input: AdmissionInput, full: bool)
    requires
        decided(input, full, ADMISSION_CHECK_COUNT as nat) is Some,
        decided(input, full, ADMISSION_CHECK_COUNT as nat)->0.outcome is Allow,
    ensures
        input.intent.status == OrderIntentStatus::Approved || input.intent.status
            == OrderIntentStatus::ApprovedByPolicy,
        input.now@ < input.intent.expires_at@,
        input.entry.valid_from@ <= input.now@ <= input.entry.valid_until@,
        input.now@ <= input.recommendation.valid_until@,
        input.report.status == RecommendationReportStatus::Published,
        input.mode != QuantRuntimeMode::ReportOnly,
        input.kill_switch == KillSwitchState::Closed,
        !(input.settlement_recovery is Blocked),
        input.model_state.route_bound,
        input.model_state.return_model_calibrated,
        !input.exposure.manual_block,
        input.seams.credentials_ready,
        input.seams.exit_monitor_ready,
        input.seams.venue_health is Healthy,
        input.condition.recommendation_id == input.intent.recommendation_id,
        input.condition.state == EntryConditionState::NotRequired || input.condition.state
            == EntryConditionState::Qualified,
        input.recomputed_envelope_hash is Ok && input.recomputed_envelope_hash->Ok_0
            == input.intent.risk_envelope_hash,
        input.book is Some && input.book->0.timestamp_ms <= input.now_ms,
        input.open_intent_count <= input.max_open_intents,
        input.account.reserved_usd@ <= input.max_reserved_usd@,
        input.depth_walk is Some && input.depth_walk->0.outcome == BookWalkOutcome::Filled,
{
    if !full {
        lemma_undenied_evaluations_are_full(input, ADMISSION_CHECK_COUNT as nat);
    }
    every_check_has_a_say(input, AdmissionCheckId::IntentState);
    every_check_has_a_say(input, AdmissionCheckId::RecommendationFreshness);
    every_check_has_a_say(input, AdmissionCheckId::ReportStatus);
    every_check_has_a_say(input, AdmissionCheckId::RuntimeMode);
    every_check_has_a_say(input, AdmissionCheckId::SettlementRecovery);
    every_check_has_a_say(input, AdmissionCheckId::ModelRouteBinding);
    every_check_has_a_say(input, AdmissionCheckId::BookFreshness);
    every_check_has_a_say(input, AdmissionCheckId::EntryConditionPlan);
    every_check_has_a_say(input, AdmissionCheckId::RiskEnvelopeHash);
    every_check_has_a_say(input, AdmissionCheckId::MaxOpenIntents);
    every_check_has_a_say(input, AdmissionCheckId::MaxReservedCapital);
    every_check_has_a_say(input, AdmissionCheckId::LiquidityDepth);
    every_check_has_a_say(input, AdmissionCheckId::ManualBlock);
    every_check_has_a_say(input, AdmissionCheckId::KillSwitch);
    every_check_has_a_say(input, AdmissionCheckId::VenueGuard);
    every_check_has_a_say(input, AdmissionCheckId::CredentialReadiness);
    every_check_has_a_say(input, AdmissionCheckId::ExitMonitorReadiness);
    every_check_has_a_say(input, AdmissionCheckId::CalibratedReturnModel);
    intents_have_to_be_approved(input);
    entries_keep_to_their_window(input);
    reports_and_modes_have_to_agree(input);
    switches_deny(input);
    halts_deny_and_impairment_waits(input);
    books_have_to_be_fresh(input);
    conditions_have_to_be_qualified(input);
    envelopes_have_to_be_the_frozen_ones(input);
    caps_are_kept(input);
    asks_have_to_be_deep_enough(input);
}

proof fn lemma_undenied_evaluations_are_full(input: AdmissionInput, count: nat)
    requires
        decided(input, false, count) is Some,
        !(decided(input, false, count)->0.outcome is Deny),
    ensures
        decided(input, true, count) == decided(input, false, count),
    decreases count,
{
    if count > 0 {
        lemma_undenied_evaluations_are_full(input, (count - 1) as nat);
    }
}

/// Stopping at the first denial admits no more and no fewer: what it admits or
/// defers, all checks together admit or defer, and what it denies they deny.
pub proof fn short_evaluations_admit_the_same(input: AdmissionInput)
    requires
        decided(input, false, ADMISSION_CHECK_COUNT as nat) is Some,
    ensures
        !(decided(input, false, ADMISSION_CHECK_COUNT as nat)->0.outcome is Deny) ==> decided(
            input,
            true,
            ADMISSION_CHECK_COUNT as nat,
        ) == decided(input, false, ADMISSION_CHECK_COUNT as nat),
        decided(input, true, ADMISSION_CHECK_COUNT as nat) is Some ==> decided(
            input,
            false,
            ADMISSION_CHECK_COUNT as nat,
        )->0.outcome == decided(input, true, ADMISSION_CHECK_COUNT as nat)->0.outcome,
{
    if !(decided(input, false, ADMISSION_CHECK_COUNT as nat)->0.outcome is Deny) {
        lemma_undenied_evaluations_are_full(input, ADMISSION_CHECK_COUNT as nat);
    }
    if decided(input, true, ADMISSION_CHECK_COUNT as nat) is Some {
        short_evaluation_decides_the_same(input, ADMISSION_CHECK_COUNT as nat);
    }
}

} // verus!
