//! What the gathering of a condition's inputs is for.
use vstd::prelude::*;

use crate::entry_condition::model::{
    CryptoEnteredFoldState, EntryConditionBinding, EntryConditionSourceBinding, RequiredWeather,
};
use crate::entry_condition_inputs::{
    binding_reason, bundle_inputs, committed_alone, committed_row, crypto_query, deduplicated,
    executable_price, past_cutoff, prior_fold, row_defect, same_fact, weather_input,
    BindingEvidence, CryptoPriceProjection, CryptoRow, FactorBundle, FactorValue, SeenCheckpoint,
    TokenQuote, WeatherProjection,
};
use crate::time::{in_calendar, Timestamp};

verus! {

/// A fact counts exactly where it is of the committed source and instrument and
/// of the generation asked for, is sound, is no later than the committed
/// checkpoint and, at that checkpoint, is the committed fact itself.
pub proof fn committed_facts_count(
    row: CryptoRow,
    projection: CryptoPriceProjection,
    generation: u64,
)
    ensures
        (committed_alone(row, projection, generation) matches Ok(Some(_))) <==> {
            &&& row.source_id@ == projection.source_id@ && row.instrument_key@
                == projection.instrument_key@
            &&& row.gap_generation == generation
            &&& row_defect(row) is None
            &&& row.checkpoint matches Ok(checkpoint) && checkpoint.order
                <= projection.committed.order && (checkpoint.order == projection.committed.order
                ==> row.report_hash == projection.report_hash && checkpoint.hash
                == projection.committed_checkpoint_hash)
        },
        row.source_id@ != projection.source_id@ || row.instrument_key@ != projection.instrument_key@
            ==> committed_alone(row, projection, generation) is Err,
        row.source_id@ == projection.source_id@ && row.instrument_key@ == projection.instrument_key@
            && row.gap_generation != generation ==> (committed_alone(row, projection, generation)
            matches Ok(found) && found is None),
        (row.checkpoint matches Ok(checkpoint) && checkpoint.order > projection.committed.order)
            && row.source_id@ == projection.source_id@ && row.instrument_key@
            == projection.instrument_key@ && row_defect(row) is None ==> (committed_alone(
            row,
            projection,
            generation,
        ) matches Ok(found) && found is None),
{
}

/// A fact that counts is handed on as it is.
pub proof fn facts_are_handed_on(
    row: CryptoRow,
    projection: CryptoPriceProjection,
    generation: u64,
    seen: Seq<SeenCheckpoint>,
)
    ensures
        committed_row(row, projection, generation, seen) matches Ok(Some(report)) ==> report.price
            == row.price && report.source_sequence == row.source_sequence && report.report_hash
            == row.report_hash && report.event_at == Timestamp::of_nanos(row.event_time * 1000000)
            && report.available_at == Timestamp::of_nanos(row.available_at * 1000000),
{
}

/// A row is unsound where one of its times lies outside the calendar or its
/// structure is wrong.
pub proof fn rows_lie_in_the_calendar(row: CryptoRow)
    ensures
        row_defect(row) is None <==> in_calendar(row.event_time * 1000000) && in_calendar(
            row.published_at * 1000000,
        ) && in_calendar(row.available_at * 1000000) && row.defect is None,
{
}

/// No fact follows itself, and none is lost.
pub proof fn facts_are_told_once(rows: Seq<CryptoRow>, i: int)
    requires
        0 <= i < rows.len(),
    ensures
        exists|k: int|
            0 <= k < deduplicated(rows).len() && same_fact(
                #[trigger] deduplicated(rows)[k],
                rows[i],
            ),
        forall|k: int|
            #![trigger deduplicated(rows)[k]]
            0 < k < deduplicated(rows).len() ==> !same_fact(
                deduplicated(rows)[k - 1],
                deduplicated(rows)[k],
            ),
        deduplicated(rows).len() <= rows.len(),
    decreases rows.len(),
{
    let before = rows.drop_last();
    let front = deduplicated(before);
    let all = deduplicated(rows);
    if before.len() > 0 {
        let at = if i < before.len() {
            i
        } else {
            0
        };
        facts_are_told_once(before, at);
        if i < before.len() {
            let k = choose|k: int|
                0 <= k < front.len() && same_fact(#[trigger] front[k], before[i]);
            assert(all[k] == front[k]);
        } else if all.len() == front.len() {
            assert(same_fact(all[all.len() - 1], rows[i]));
        } else {
            assert(same_fact(all[front.len() as int], rows[i]));
        }
        assert forall|k: int|
            #![trigger all[k]]
            0 < k < all.len() implies !same_fact(all[k - 1], all[k]) by {
            if k < front.len() {
                assert(all[k] == front[k] && all[k - 1] == front[k - 1]);
            }
        }
    } else {
        assert(front.len() == 0);
        assert(same_fact(all[0], rows[i]));
    }
}

/// Facts are asked for from where the last ones were available, or from the
/// creation of the instance, up to the evaluation; and only an instance that was
/// never folded asks for a baseline.
pub proof fn facts_are_asked_for_since_the_last(
    projection: CryptoPriceProjection,
    source: EntryConditionSourceBinding,
    states: Seq<CryptoEnteredFoldState>,
    created_at: Timestamp,
    evaluated_at: Timestamp,
)
    requires
        i64::MIN <= created_at.spec_millis() <= i64::MAX,
        i64::MIN <= evaluated_at.spec_millis() < i64::MAX,
    ensures
        crypto_query(projection, source, states, created_at, evaluated_at) is Ok <==> {
            &&& projection.gap_generation >= 0
            &&& projection.committed.hash == projection.committed_checkpoint_hash
            &&& projection.head_defect is None
            &&& projection.query_frontier is Ok
        },
        crypto_query(projection, source, states, created_at, evaluated_at) matches Ok(query) ==> {
            &&& query.gap_generation == projection.gap_generation
            &&& query.decision_at_ms * 1000000 <= evaluated_at@ < query.available_to_ms * 1000000
            &&& query.available_to_ms == query.decision_at_ms + 1
            &&& query.baseline_at_ms is Some <==> prior_fold(states, source) is None
            &&& prior_fold(states, source) is None ==> query.available_from_ms * 1000000
                <= created_at@ < query.available_from_ms * 1000000 + 1000000
                && query.baseline_at_ms == Some(query.available_from_ms)
            &&& projection.query_frontier matches Ok(frontier) && query.committed_source_sequence
                == frontier.0 && query.committed_published_at_ms == frontier.1
        },
        (prior_fold(states, source) matches Some(at) && (states[at].last_available_at
            matches Some(last) && i64::MIN <= last.spec_millis() <= i64::MAX && (crypto_query(
            projection,
            source,
            states,
            created_at,
            evaluated_at,
        ) matches Ok(query) && !(query.available_from_ms * 1000000 <= last@
            < query.available_from_ms * 1000000 + 1000000)))) ==> false,
{
}

/// A quote is worth its best ask, where it has one and a time.
pub proof fn quotes_are_worth_their_ask(quote: TokenQuote)
    ensures
        executable_price(quote) is Some <==> quote.best_ask is Some && quote.timestamp_ms <= i64::MAX
            && in_calendar(quote.timestamp_ms * 1000000),
        executable_price(quote) matches Some(input) ==> Some(input.price) == quote.best_ask
            && input.token_id == quote.token_id && input.observed_at == input.available_at
            && input.observed_at == Timestamp::of_nanos(quote.timestamp_ms * 1000000)
            && input.gap_generation == quote.gap_generation,
{
}

/// A factor's values are handed on where both are known, each as what it is.
pub proof fn factors_are_handed_on(bundle: FactorBundle, values: Seq<FactorValue>, i: int)
    requires
        0 <= i < bundle_inputs(bundle, values).len(),
    ensures
        ({
            let input = bundle_inputs(bundle, values)[i];
            &&& input.model_version_id == bundle.model_version_id
            &&& input.observed_at == bundle.observed_at && input.available_at
                == bundle.available_at
            &&& input.snapshot_hash == bundle.snapshot_hash
            &&& exists|k: int|
                0 <= k < values.len() && (#[trigger] values[k]).definition_id
                    == input.definition_id && values[k].definition_hash == input.definition_hash
                    && values[k].raw_value == Some(input.raw_value) && values[k].normalized_score
                    == Some(input.normalized_value) && values[k].confidence == input.confidence
        }),
    decreases values.len(),
{
    let front = bundle_inputs(bundle, values.drop_last());
    let input = bundle_inputs(bundle, values)[i];
    if i < front.len() {
        factors_are_handed_on(bundle, values.drop_last(), i);
        let before = values.drop_last();
        let k = choose|k: int|
            0 <= k < before.len() && (#[trigger] before[k]).definition_id == input.definition_id
                && before[k].definition_hash == input.definition_hash && before[k].raw_value
                == Some(input.raw_value) && before[k].normalized_score == Some(
                input.normalized_value,
            ) && before[k].confidence == input.confidence;
        assert(values[k] == before[k]);
    } else {
        assert(values[values.len() - 1].definition_id == input.definition_id);
    }
}

/// Every factor of which both values are known is handed on.
pub proof fn no_factor_is_lost(bundle: FactorBundle, values: Seq<FactorValue>, i: int)
    requires
        0 <= i < values.len(),
        values[i].raw_value is Some,
        values[i].normalized_score is Some,
    ensures
        exists|k: int|
            0 <= k < bundle_inputs(bundle, values).len() && (#[trigger] bundle_inputs(
                bundle,
                values,
            )[k]).definition_id == values[i].definition_id,
    decreases values.len(),
{
    let before = values.drop_last();
    let front = bundle_inputs(bundle, before);
    let all = bundle_inputs(bundle, values);
    if i < before.len() {
        no_factor_is_lost(bundle, before, i);
        let k = choose|k: int|
            0 <= k < front.len() && (#[trigger] front[k]).definition_id == before[i].definition_id;
        assert(all[k] == front[k]);
    } else {
        assert(all[front.len() as int].definition_id == values[i].definition_id);
    }
}

/// A bundle is too late once anything of it lies after the cutoff.
pub proof fn cutoffs_hold_for_both_times(bundle: FactorBundle, available_by: Timestamp)
    ensures
        !past_cutoff(bundle, available_by) <==> bundle.observed_at@ <= available_by@
            && bundle.available_at@ <= available_by@,
{
}

/// A station's day is handed on as it was projected.
pub proof fn days_are_handed_on(required: RequiredWeather, projection: WeatherProjection)
    ensures
        weather_input(required, projection) is Ok <==> projection.revision >= 0
            && projection.gap_generation >= 0,
        weather_input(required, projection) matches Ok(input) ==> {
            &&& input.whole_celsius == projection.whole_celsius
            &&& input.whole_fahrenheit == projection.whole_fahrenheit
            &&& input.observation_time == projection.last_observation_time
            &&& input.available_at == projection.available_at
            &&& input.revision == projection.revision
            &&& input.gap_generation == projection.gap_generation
            &&& input.day_closed == projection.day_closed
            &&& input.source_healthy == projection.source_healthy
            &&& input.report_hash == projection.last_report_hash
            &&& input.key.station == projection.station
            &&& input.key.local_date == projection.local_date
            &&& input.key.temperature_statistic == projection.temperature_statistic
            &&& input.key.source.source_id == projection.source_id
            &&& input.key.source.instrument_key == projection.instrument_key
            &&& input.key.source.binding_hash == required.source.binding_hash
        },
{
}

/// What a condition was bound to still holds: the recommendation, the catalog's
/// selection, the market's linkage where one was bound, the model and the policy
/// in force, and as many factors as were bound.
pub proof fn bindings_hold_in_full(expected: EntryConditionBinding, evidence: BindingEvidence)
    requires
        binding_reason(expected, evidence) is None,
    ensures
        evidence.recommendation matches Some(found) && found.market_id@ == expected.market_id@
            && found.token_id@ == expected.token_id@ && found.outcome_side == expected.outcome_side
            && found.market_selection_id == expected.catalog_snapshot_id && found.model_version_id
            == expected.model_version_id && found.decision_policy_snapshot_id
            == expected.decision_policy_snapshot_id,
        evidence.selection matches Some(selection) && selection.selector_hash
            == expected.catalog_snapshot_hash && selection.decision_policy_snapshot_id
            == expected.decision_policy_snapshot_id,
        expected.market_linkage_id is Some ==> (evidence.linkage matches Some(linkage)
            && linkage.market_id@ == expected.market_id@ && !(linkage.status is Unresolved)
            && Some(linkage.content_hash) == expected.market_linkage_hash) && (
        evidence.latest_linkage matches Some(latest) && Some(latest.linkage_id)
            == expected.market_linkage_id && Some(latest.content_hash)
            == expected.market_linkage_hash),
        evidence.model_artifact_hash is Some,
        evidence.current_policy matches Some(policy) && policy.decision_policy_snapshot_id
            == expected.decision_policy_snapshot_id,
        evidence.champions@.contains(expected.model_version_id),
        evidence.factors@.len() == expected.factor_bindings@.len(),
{
}

} // verus!
