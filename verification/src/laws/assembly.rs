//! What assembling an admission and telling its outcome are for.
use vstd::prelude::*;

use crate::admission::builder::{
    context_refusal, frozen_input, funded, missing_source, missing_subject, opened,
    opening_refusal, preparation_of, provenance, AdmissionFacts, AdmissionLimits, AdmissionSources,
    ContextReplies, OpeningReplies, OrderContext, PreparedAdmissionContext, RuntimeControls,
    SourceReplies,
};
use crate::admission::checks::check_trace;
use crate::admission::engine::{check_at, decided, failures, last_deferral, DecisionView};
use crate::admission::model::{
    AccountSnapshot, AdmissionEconomicHealth, AdmissionInput, AdmissionOutcome,
    AdmissionVenueMetadata, ConditionInstance, SettlementRecoveryAdmission, TraceView,
};
use crate::orders::{VenueFundingEvidence, VenueOrderMetadata};
use crate::plans::{OrderIntentInfo, RecommendationInfo};
use crate::time::Timestamp;
use crate::types::{ContentHash, MarketId, TokenId};

verus! {

/// An admission needs its recommendation and its condition, and everything that
/// is on record about their market.
pub proof fn admissions_need_their_sources(
    intent: OrderIntentInfo,
    recommendation: Option<RecommendationInfo>,
    condition: Option<ConditionInstance>,
    found: RecommendationInfo,
    replies: SourceReplies,
)
    ensures
        missing_subject(intent, recommendation, condition) is None <==> recommendation is Some
            && condition is Some,
        missing_source(found, replies) is None <==> replies.report is Some && replies.market_status
            is Some && replies.frozen_clob_market_info is Some && replies.current_clob_market_info
            is Some && replies.active_version is Some && replies.has_catalog_market,
{
}

/// A market's metadata has no defect exactly where it can be traded and all of its
/// observations agree on market, token, payload, tick, minimum and kind.
pub proof fn observations_have_to_agree(
    metadata: AdmissionVenueMetadata,
    market: MarketId,
    token: TokenId,
)
    ensures
        metadata.defect(market, token) is None <==> {
            &&& metadata.catalog_status is Active && metadata.catalog_filter_reasons@.len() == 0
            &&& metadata.catalog_market_id@ == market@ && metadata.frozen_market_id@ == market@
            &&& metadata.current_market_id@ == market@ && metadata.live_market_id@ == market@
            &&& metadata.catalog_token_id matches Some(listed) && listed@ == token@
            &&& metadata.frozen_token_id matches Some(frozen) && frozen@ == token@
            &&& metadata.current_token_id matches Some(current) && current@ == token@
            &&& metadata.live_token_id@ == token@
            &&& metadata.frozen_payload_hash == metadata.current_payload_hash
            &&& metadata.frozen_tick_size == metadata.live_tick_size && metadata.current_tick_size
                == metadata.live_tick_size
            &&& metadata.frozen_minimum_order_size@ == metadata.live_minimum_order_size@
                && metadata.current_minimum_order_size@ == metadata.live_minimum_order_size@
            &&& metadata.frozen_neg_risk == metadata.live_neg_risk && metadata.current_neg_risk
                == metadata.live_neg_risk
        },
{
}

/// An admission is opened exactly where the catalog, the metadata, the economics,
/// the model and its frozen policy, and the book are good.
pub proof fn admissions_open_on_good_evidence(
    intent: OrderIntentInfo,
    sources: AdmissionSources,
    live: VenueOrderMetadata,
    replies: OpeningReplies,
    now: Timestamp,
)
    ensures
        opening_refusal(intent, sources, live, replies, now) is None <==> {
            &&& replies.catalog is Ok
            &&& preparation_of(intent, sources, live, replies, now).venue_metadata.defect(
                sources.subject.recommendation.market_id,
                intent.entry_order.token_id,
            ) is None
            &&& replies.economics is Ok
            &&& replies.model_version matches Some(model) && model.trade_policy_artifact_id is Some
            &&& replies.latest_health is Some ==> replies.freshness_secs <= i64::MAX
            &&& replies.book is Ok
        },
        opening_refusal(intent, sources, live, replies, now) is None ==> {
            let context = opened(intent, sources, live, replies, now);
            &&& context.preparation.spec == intent.entry_order
            &&& context.preparation.now == now
            &&& context.preparation.profile_ref == replies.profile_ref
            &&& replies.economics matches Ok(terms) && context.preparation.fee_schedule == terms.0
                && context.preparation.maker_rebate_evidence == terms.1
            &&& replies.book matches Ok(book) && context.book == book
            &&& context.exposure == sources.exposure
            &&& context.active_version == sources.active_version
            &&& context.model_state.return_model_calibrated == replies.calibration_resolves
            &&& context.model_state.route_bound <==> replies.routing.champions@.contains(
                replies.model_version->0.model_version_id,
            ) || replies.routing.active_exit_model == Some(
                replies.model_version->0.model_version_id,
            )
        },
{
}

/// A context is complete exactly where it opens, its order can be prepared and it
/// is paid in collateral.
pub proof fn contexts_are_complete_or_refused(
    intent: OrderIntentInfo,
    sources: AdmissionSources,
    live: VenueOrderMetadata,
    replies: ContextReplies,
    now: Timestamp,
)
    ensures
        context_refusal(intent, sources, live, replies, now) is None <==> opening_refusal(
            intent,
            sources,
            live,
            replies.opening,
            now,
        ) is None && preparation_of(intent, sources, live, replies.opening, now).prepared(
            replies.preparation,
        ) is Ok && replies.funding.snapshot.human_balance is Collateral,
{
}

/// Funding adds the account and its evidence, and changes nothing else.
pub proof fn funding_adds_the_account(
    context: OrderContext,
    funding: VenueFundingEvidence,
    account: AccountSnapshot,
)
    ensures
        ({
            let whole = funded(context, funding, account);
            &&& whole.account == account
            &&& whole.venue_funding == funding
            &&& whole.prepared_order == context.prepared_order
            &&& whole.book == context.opened.book
            &&& whole.venue_metadata == context.opened.preparation.venue_metadata
            &&& whole.fee_schedule == context.opened.preparation.fee_schedule
            &&& whole.maker_rebate_evidence == context.opened.preparation.maker_rebate_evidence
            &&& whole.economic_health == context.opened.economic_health
            &&& whole.model_state == context.opened.model_state
            &&& whole.exposure == context.opened.exposure
            &&& whole.active_version == context.opened.active_version
            &&& whole.profile_ref == context.opened.preparation.profile_ref
        }),
{
}

/// What is admitted is what was gathered, each in its place.
pub proof fn inputs_hold_what_was_gathered(
    sources: AdmissionSources,
    facts: AdmissionFacts,
    context: PreparedAdmissionContext,
    controls: RuntimeControls,
    limits: AdmissionLimits,
    evidence_hash: ContentHash,
    now: Timestamp,
)
    requires
        0 <= now.spec_millis() <= u64::MAX,
    ensures
        ({
            let input = frozen_input(
                sources,
                facts,
                context,
                controls,
                limits,
                evidence_hash,
                now,
            );
            &&& input.intent == facts.intent && input.entry == facts.entry && input.risk_envelope
                == facts.risk_envelope
            &&& input.recomputed_envelope_hash == facts.recomputed_envelope_hash
            &&& input.recommendation == sources.subject.recommendation && input.condition
                == sources.subject.condition
            &&& input.report == sources.report
            &&& input.mode == controls.mode && input.kill_switch == controls.kill_switch
            &&& input.account == context.account && input.allocated_usd == sources.allocated_usd
            &&& input.open_intent_count == sources.open_intent_count
            &&& input.budget_total_usd == limits.budget_total_usd
            &&& input.max_open_intents == limits.max_open_intents
            &&& input.max_reserved_usd == limits.max_reserved_usd
            &&& input.max_stale_book_ratio_bps == limits.max_stale_book_ratio_bps
            &&& input.book == Some(context.book)
            &&& input.entry_walk == facts.entry_walk && input.depth_walk == facts.depth_walk
                && input.slippage == facts.slippage
            &&& input.data_quality == facts.data_quality && input.seams == facts.seams
            &&& input.settlement_recovery == facts.settlement_recovery
            &&& input.venue_metadata == context.venue_metadata && input.prepared_order
                == context.prepared_order && input.venue_funding == context.venue_funding
            &&& input.model_state == context.model_state && input.economic_health
                == context.economic_health
            &&& input.exposure == context.exposure
            &&& input.now == now
            &&& input.now_ms * 1000000 <= now@ < input.now_ms * 1000000 + 1000000
        }),
{
}

/// The state that a decision rests on names where each part of it comes from.
pub proof fn decisions_name_their_state(
    facts: AdmissionFacts,
    context: PreparedAdmissionContext,
    controls: RuntimeControls,
    evidence_hash: ContentHash,
)
    ensures
        ({
            let state = provenance(facts, context, controls, evidence_hash);
            &&& state.config_version_id == context.active_version
            &&& state.account_as_of == context.account.as_of
            &&& state.book_version == Some(context.book.version)
            &&& state.book_as_of_ms == Some(context.book.timestamp_ms)
            &&& state.fee_schedule_hash == context.fee_schedule.schedule_hash
            &&& state.maker_rebate_decidable <==> !(context.maker_rebate_evidence is Undecidable)
            &&& state.kill_switch_state == controls.kill_switch
            &&& state.admission_evidence_hash == evidence_hash
            &&& (facts.settlement_recovery matches SettlementRecoveryAdmission::Ready {
                deployment_digest,
                verified_block_hash,
                ..
            } ==> state.settlement_deployment_digest == Some(deployment_digest)
                && state.settlement_verified_block_hash == Some(verified_block_hash))
            &&& !(facts.settlement_recovery is Ready) ==> state.settlement_deployment_digest is None
                && state.settlement_verified_block_hash is None
            &&& state.route_economic_health_id is Some <==> context.economic_health is Present
            &&& (context.economic_health matches AdmissionEconomicHealth::Present {
                route_economic_health_id,
                evidence_hash: assessed,
                ..
            } ==> state.route_economic_health_id == Some(route_economic_health_id)
                && state.route_economic_health_hash == Some(assessed))
        }),
{
}

/// Whether a decision's reason is that of the first check that denied, and there
/// is one exactly where it denies.
pub open spec fn rests_on_the_first_denial(decision: DecisionView) -> bool {
    if decision.outcome == AdmissionOutcome::Deny {
        exists|i: int|
            0 <= i < decision.trace.len() && (#[trigger] decision.trace[i]).outcome
                == AdmissionOutcome::Deny && (forall|j: int|
                0 <= j < i ==> (#[trigger] decision.trace[j]).outcome != AdmissionOutcome::Deny)
                && decision.denial_reason == Some(
                decision.trace[i].check.text() + ": "@ + decision.trace[i].detail,
            )
    } else {
        forall|j: int|
            0 <= j < decision.trace.len() ==> (#[trigger] decision.trace[j]).outcome
                != AdmissionOutcome::Deny
    }
}

proof fn lemma_after_a_check(before: DecisionView, trace: TraceView)
    requires
        rests_on_the_first_denial(before),
    ensures
        rests_on_the_first_denial(before.after(trace)),
{
    let decision = before.after(trace);
    assert(forall|j: int| 0 <= j < before.trace.len() ==> decision.trace[j] == before.trace[j]);
    if before.outcome == AdmissionOutcome::Deny {
        let i = choose|i: int|
            0 <= i < before.trace.len() && (#[trigger] before.trace[i]).outcome
                == AdmissionOutcome::Deny && (forall|j: int|
                0 <= j < i ==> (#[trigger] before.trace[j]).outcome != AdmissionOutcome::Deny)
                && before.denial_reason == Some(
                before.trace[i].check.text() + ": "@ + before.trace[i].detail,
            );
        assert(decision.trace[i].outcome == AdmissionOutcome::Deny);
    } else if trace.outcome == AdmissionOutcome::Deny {
        let i = before.trace.len() as int;
        assert(decision.trace[i] == trace);
    }
}

/// The reason of a denial is that of the first check that denied.
pub proof fn the_first_denial_is_the_reason(input: AdmissionInput, full: bool, count: nat)
    requires
        decided(input, full, count) is Some,
    ensures
        rests_on_the_first_denial(decided(input, full, count)->0),
    decreases count,
{
    if count > 0 {
        the_first_denial_is_the_reason(input, full, (count - 1) as nat);
        let before = decided(input, full, (count - 1) as nat)->0;
        if full || before.outcome != AdmissionOutcome::Deny {
            lemma_after_a_check(before, check_trace(check_at(count - 1), input)->0);
        }
    }
}

/// What is told of a decision are the checks that did not allow it, and no
/// others.
pub proof fn every_objection_is_told(traces: Seq<TraceView>)
    ensures
        failures(traces).len() == traces.filter(
            |t: TraceView| t.outcome != AdmissionOutcome::Allow,
        ).len(),
    decreases traces.len(),
{
    reveal(Seq::filter);
    if traces.len() > 0 {
        every_objection_is_told(traces.drop_last());
    }
}

/// A deferral is told by the last check that deferred.
pub proof fn the_last_deferral_is_told(traces: Seq<TraceView>, i: int)
    requires
        0 <= i < traces.len(),
        traces[i].outcome == AdmissionOutcome::Defer,
        forall|j: int| i < j < traces.len() ==> (#[trigger] traces[j]).outcome
            != AdmissionOutcome::Defer,
    ensures
        last_deferral(traces) == traces[i].detail,
    decreases traces.len(),
{
    if i < traces.len() - 1 {
        let before = traces.drop_last();
        assert(before[i] == traces[i]);
        assert(traces[traces.len() - 1].outcome != AdmissionOutcome::Defer);
        assert forall|j: int| i < j < before.len() implies (#[trigger] before[j]).outcome
            != AdmissionOutcome::Defer by {
            assert(before[j] == traces[j]);
        }
        the_last_deferral_is_told(before, i);
    }
}

} // verus!
