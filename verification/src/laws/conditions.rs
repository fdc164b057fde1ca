//! What entry conditions are for.
use vstd::prelude::*;

use crate::decimal::{Decimal, Price, Usd};
use crate::entry_condition::fold::{folded, leaf_position, one_leaf_lets_go, spec_outcome, stored};
use crate::entry_condition::leaves::{
    crypto_input, crypto_leaf, factor_input, factor_leaf, price_input, price_leaf, staleness,
    weather_input, weather_leaf, weather_satisfied,
};
use crate::entry_condition::model::{
    ConditionTruth, ConditionUnavailableReason, ConfirmationPolicy, CryptoEnteredFoldState,
    CryptoPriceReportInput, CryptoSubjectPredicateEntered, EntryConditionInputSet, FactorCondition,
    FactorMeasure, PriceBoundaryInclusion, PriceComparator, PriceCondition, TemperatureUnit,
    WeatherCondition, WeatherDailyTemperatureInput, WeatherPredicate, WeatherTemperatureStatistic,
};
use crate::entry_condition::state::{next_state, EntryConditionState};
use crate::entry_trigger::{trigger_outcome, ConfirmationProgress, EntryTrigger, EntryTriggerState};
use crate::time::Timestamp;
use crate::types::{ContentHash, OutcomeSide, PriceComparison};

verus! {

/// Above a strike means above it, at least means from it on, below and at most
/// likewise; a price up against a reference is one that is not below it.
pub proof fn sides_lie_where_the_comparator_says(
    strike: Usd,
    reference: Option<Usd>,
    other: Option<Usd>,
    level: Usd,
    price: Usd,
)
    ensures
        price@ > strike@ ==> spec_outcome(
            PriceComparator::GreaterThan,
            Some(strike),
            reference,
            price,
        ) == Some(OutcomeSide::Yes),
        price@ <= strike@ ==> spec_outcome(
            PriceComparator::GreaterThan,
            Some(strike),
            reference,
            price,
        ) == Some(OutcomeSide::No),
        price@ >= strike@ ==> spec_outcome(
            PriceComparator::GreaterThanOrEqual,
            Some(strike),
            reference,
            price,
        ) == Some(OutcomeSide::Yes),
        price@ < strike@ ==> spec_outcome(
            PriceComparator::GreaterThanOrEqual,
            Some(strike),
            reference,
            price,
        ) == Some(OutcomeSide::No),
        price@ < strike@ ==> spec_outcome(
            PriceComparator::LessThan,
            Some(strike),
            reference,
            price,
        ) == Some(OutcomeSide::Yes),
        price@ >= strike@ ==> spec_outcome(
            PriceComparator::LessThan,
            Some(strike),
            reference,
            price,
        ) == Some(OutcomeSide::No),
        price@ <= strike@ ==> spec_outcome(
            PriceComparator::LessThanOrEqual,
            Some(strike),
            reference,
            price,
        ) == Some(OutcomeSide::Yes),
        price@ > strike@ ==> spec_outcome(
            PriceComparator::LessThanOrEqual,
            Some(strike),
            reference,
            price,
        ) == Some(OutcomeSide::No),
        price@ >= level@ ==> spec_outcome(
            PriceComparator::UpVsReference,
            other,
            Some(level),
            price,
        ) == Some(OutcomeSide::Yes),
        price@ < level@ ==> spec_outcome(
            PriceComparator::UpVsReference,
            other,
            Some(level),
            price,
        ) == Some(OutcomeSide::No),
{
}

/// A band holds what lies strictly inside it, its ends where they belong to it,
/// and nothing outside.
pub proof fn bands_hold_what_lies_between(
    strike: Usd,
    hi: Usd,
    lower: PriceBoundaryInclusion,
    upper: PriceBoundaryInclusion,
    reference: Option<Usd>,
    price: Usd,
)
    ensures
        ({
            let outcome = spec_outcome(
                PriceComparator::Between { hi, lower, upper },
                Some(strike),
                reference,
                price,
            );
            &&& outcome is Some
            &&& strike@ < price@ < hi@ ==> outcome == Some(OutcomeSide::Yes)
            &&& price@ < strike@ || price@ > hi@ ==> outcome == Some(OutcomeSide::No)
            &&& price@ == strike@ && strike@ < hi@ ==> (outcome == Some(OutcomeSide::Yes)
                <==> lower == PriceBoundaryInclusion::Inclusive)
            &&& price@ == hi@ && strike@ < hi@ ==> (outcome == Some(OutcomeSide::Yes) <==> upper
                == PriceBoundaryInclusion::Inclusive)
        }),
{
}

/// A comparator without the level that it needs stands for no outcome.
pub proof fn sides_need_their_level(
    comparator: PriceComparator,
    strike: Option<Usd>,
    reference: Option<Usd>,
    price: Usd,
)
    ensures
        spec_outcome(comparator, strike, reference, price) is None <==> (if comparator
            == PriceComparator::UpVsReference {
            reference is None
        } else {
            strike is None
        }),
{
}

/// Of two prices the higher one is on the side of the rise whenever the lower
/// one is, and the lower one on the side of the fall whenever the higher is.
pub proof fn sides_are_closed_upward_and_downward(
    strike: Option<Usd>,
    reference: Option<Usd>,
    low: Usd,
    high: Usd,
)
    requires
        low@ <= high@,
    ensures
        forall|comparator: PriceComparator|
            #![trigger spec_outcome(comparator, strike, reference, low)]
            (comparator == PriceComparator::GreaterThan || comparator
                == PriceComparator::GreaterThanOrEqual || comparator
                == PriceComparator::UpVsReference) && spec_outcome(
                comparator,
                strike,
                reference,
                low,
            ) == Some(OutcomeSide::Yes) ==> spec_outcome(comparator, strike, reference, high)
                == Some(OutcomeSide::Yes),
        forall|comparator: PriceComparator|
            #![trigger spec_outcome(comparator, strike, reference, high)]
            (comparator == PriceComparator::LessThan || comparator
                == PriceComparator::LessThanOrEqual) && spec_outcome(
                comparator,
                strike,
                reference,
                high,
            ) == Some(OutcomeSide::Yes) ==> spec_outcome(comparator, strike, reference, low)
                == Some(OutcomeSide::Yes),
{
}

/// The outcome of a report under a condition.
pub open spec fn outcome_of(
    condition: CryptoSubjectPredicateEntered,
    report: CryptoPriceReportInput,
) -> Option<OutcomeSide> {
    spec_outcome(
        condition.comparator,
        condition.strike,
        condition.reference_price,
        report.price,
    )
}

/// A report that goes on behind the last one latches the leaf when the price
/// crosses onto the recommended side, unlatches it when the price crosses off,
/// and leaves it alone otherwise; the crossing report is noted.
pub proof fn crossings_move_the_latch(
    state: CryptoEnteredFoldState,
    condition: CryptoSubjectPredicateEntered,
    report: CryptoPriceReportInput,
)
    requires
        state.last_source_sequence is Some ==> report.source_sequence
            > state.last_source_sequence->0,
        outcome_of(condition, report) is Some,
    ensures
        ({
            let after = state.after_report(condition, report);
            let recommended = condition.recommended_outcome;
            let now_on = outcome_of(condition, report)->0 == recommended;
            &&& after.last_outcome == outcome_of(condition, report)
            &&& after.last_source_sequence == Some(report.source_sequence)
            &&& after.last_report_hash == Some(report.report_hash)
            &&& after.last_event_at == Some(report.event_at)
            &&& after.last_available_at == Some(report.available_at)
            &&& after.node_id == state.node_id && after.source == state.source
            &&& state.last_outcome is None ==> after.latched == state.latched
                && after.discontinuity_epoch == state.discontinuity_epoch
            &&& state.last_outcome is Some && state.last_outcome->0 != recommended && now_on ==> {
                &&& after.latched
                &&& after.triggering_report_hash == Some(report.report_hash)
                &&& after.triggering_at == Some(report.event_at)
                &&& after.discontinuity_epoch == state.discontinuity_epoch
            }
            &&& state.last_outcome == Some(recommended) && !now_on ==> {
                &&& !after.latched
                &&& after.triggering_report_hash is None && after.triggering_at is None
                &&& after.discontinuity_epoch >= state.discontinuity_epoch
                &&& state.discontinuity_epoch < u64::MAX ==> after.discontinuity_epoch
                    == state.discontinuity_epoch + 1
            }
            &&& state.last_outcome is Some && (state.last_outcome->0 == recommended) == now_on
                ==> after.latched == state.latched && after.discontinuity_epoch
                == state.discontinuity_epoch && after.triggering_report_hash
                == state.triggering_report_hash
        }),
{
}

/// A report that was folded last changes nothing when it comes again; one that
/// goes back behind the last takes latch and side away, as a discontinuity.
pub proof fn corrections_take_the_latch(
    state: CryptoEnteredFoldState,
    condition: CryptoSubjectPredicateEntered,
    report: CryptoPriceReportInput,
)
    requires
        state.last_source_sequence is Some,
        report.source_sequence <= state.last_source_sequence->0,
    ensures
        report.source_sequence == state.last_source_sequence->0 && state.last_report_hash == Some(
            report.report_hash,
        ) ==> state.after_report(condition, report) == state,
        report.source_sequence < state.last_source_sequence->0 || state.last_report_hash != Some(
            report.report_hash,
        ) ==> {
            let after = state.after_report(condition, report);
            &&& !after.latched
            &&& after.triggering_report_hash is None && after.triggering_at is None
            &&& after.last_outcome == outcome_of(condition, report)
            &&& after.last_source_sequence == Some(report.source_sequence)
            &&& state.discontinuity_epoch < u64::MAX ==> after.discontinuity_epoch
                == state.discontinuity_epoch + 1
        },
{
}

/// An input is fresh where it was observed before it was available, available
/// before it is looked at, and is not older than permitted; an order of times
/// that cannot be is a skew, an age beyond the limit is staleness.
pub proof fn inputs_have_to_be_fresh(
    observed_at: Timestamp,
    available_at: Timestamp,
    evaluated_at: Timestamp,
    max_age_ms: u64,
)
    requires
        max_age_ms <= i64::MAX,
    ensures
        staleness(observed_at, available_at, evaluated_at, max_age_ms) is None <==> observed_at@
            <= available_at@ <= evaluated_at@ && evaluated_at@ - observed_at@ <= max_age_ms
            * 1000000,
        staleness(observed_at, available_at, evaluated_at, max_age_ms) == Some(
            ConditionUnavailableReason::ClockSkew,
        ) <==> observed_at@ > available_at@ || available_at@ > evaluated_at@,
        staleness(observed_at, available_at, evaluated_at, max_age_ms) is Some ==> staleness(
            observed_at,
            available_at,
            evaluated_at,
            max_age_ms,
        )->0 == ConditionUnavailableReason::ClockSkew || staleness(
            observed_at,
            available_at,
            evaluated_at,
            max_age_ms,
        )->0 == ConditionUnavailableReason::InputStale,
{
}

/// Whether a value meets a threshold from the side that is asked for.
pub open spec fn reaches(comparison: PriceComparison, value: Decimal, threshold: Decimal) -> bool {
    &&& comparison == PriceComparison::AtOrAbove ==> value@ >= threshold@
    &&& comparison == PriceComparison::AtOrBelow ==> value@ <= threshold@
}

/// A fresh price of the condition's own token satisfies it exactly where it
/// reaches the threshold; without one the condition cannot be told.
pub proof fn price_conditions_compare_the_price(
    condition: PriceCondition,
    input: EntryConditionInputSet,
)
    ensures
        match price_input(input.prices@, condition) {
            None => price_leaf(condition, input).truth == ConditionTruth::Unavailable(
                ConditionUnavailableReason::InputMissing,
            ),
            Some(position) => {
                let value = input.prices@[position];
                let stale = staleness(
                    value.observed_at,
                    value.available_at,
                    input.evaluated_at,
                    condition.max_input_age_ms,
                );
                &&& stale is Some ==> price_leaf(condition, input).truth
                    == ConditionTruth::Unavailable(stale->0)
                &&& stale is None && reaches(
                    condition.comparison,
                    value.price,
                    condition.threshold,
                ) ==> price_leaf(condition, input).truth is Satisfied
                &&& stale is None && !reaches(
                    condition.comparison,
                    value.price,
                    condition.threshold,
                ) ==> price_leaf(condition, input).truth is Unsatisfied
            },
        },
{
}

/// A factor of the condition's own definition and model satisfies it where it is
/// fresh, confident enough and the asked measure reaches the threshold.
pub proof fn factor_conditions_compare_the_measure(
    condition: FactorCondition,
    input: EntryConditionInputSet,
)
    ensures
        match factor_input(input.factors@, condition) {
            None => factor_leaf(condition, input).truth == ConditionTruth::Unavailable(
                ConditionUnavailableReason::InputMissing,
            ),
            Some(position) => {
                let value = input.factors@[position];
                let own = value.definition_hash == condition.definition_hash
                    && value.model_version_id == condition.model_version_id;
                let stale = staleness(
                    value.observed_at,
                    value.available_at,
                    input.evaluated_at,
                    condition.max_input_age_ms,
                );
                let holds = value.confidence@ >= condition.minimum_confidence@ && (
                condition.measure == FactorMeasure::Raw ==> reaches(
                    condition.comparison,
                    value.raw_value,
                    condition.threshold,
                )) && (condition.measure == FactorMeasure::Normalized ==> reaches(
                    condition.comparison,
                    value.normalized_value,
                    condition.threshold,
                ));
                &&& !own ==> factor_leaf(condition, input).truth == ConditionTruth::Unavailable(
                    ConditionUnavailableReason::FactorDefinitionMismatch,
                )
                &&& own && stale is Some ==> factor_leaf(condition, input).truth
                    == ConditionTruth::Unavailable(stale->0)
                &&& own && stale is None && holds ==> factor_leaf(condition, input).truth
                    is Satisfied
                &&& own && stale is None && !holds ==> factor_leaf(condition, input).truth
                    is Unsatisfied
            },
        },
{
}

/// Whether a temperature lies within a band, the ends included.
pub open spec fn within(lower: Option<Decimal>, upper: Option<Decimal>, degrees: Decimal) -> bool {
    &&& lower is Some ==> degrees@ >= lower->0@
    &&& upper is Some ==> degrees@ <= upper->0@
}

/// A day's extreme, in the asked unit, satisfies a condition where it lies in
/// the band, goes beyond the bound in the direction of the statistic, or lies
/// outside the band when the day is over.
pub proof fn weather_conditions_compare_the_extreme(
    condition: WeatherCondition,
    value: WeatherDailyTemperatureInput,
    extreme: Decimal,
)
    requires
        condition.unit == TemperatureUnit::Celsius ==> extreme == value.whole_celsius,
        condition.unit == TemperatureUnit::Fahrenheit ==> extreme == value.whole_fahrenheit,
    ensures
        condition.predicate matches WeatherPredicate::EnteredBand { band } ==> weather_satisfied(
            condition,
            value,
        ) == within(band.lower_inclusive, band.upper_inclusive, extreme),
        condition.predicate matches WeatherPredicate::ClosedOutsideBand { band }
            ==> weather_satisfied(condition, value) == (value.day_closed && !within(
            band.lower_inclusive,
            band.upper_inclusive,
            extreme,
        )),
        condition.predicate matches WeatherPredicate::CrossedTerminalBound { terminal_bound }
            ==> if condition.key.temperature_statistic == WeatherTemperatureStatistic::Maximum {
            weather_satisfied(condition, value) == (extreme@ > terminal_bound@)
        } else {
            weather_satisfied(condition, value) == (extreme@ < terminal_bound@)
        },
{
}

/// A weather condition cannot be told without its input, from an unhealthy
/// source, or, unless it asks for a closed day, from a stale one.
pub proof fn weather_conditions_need_good_input(
    condition: WeatherCondition,
    input: EntryConditionInputSet,
)
    ensures
        match weather_input(input.weather@, condition) {
            None => weather_leaf(condition, input).truth == ConditionTruth::Unavailable(
                ConditionUnavailableReason::InputMissing,
            ),
            Some(position) => {
                let value = input.weather@[position];
                let stale = staleness(
                    value.observation_time,
                    value.available_at,
                    input.evaluated_at,
                    condition.max_input_age_ms,
                );
                let truth = weather_leaf(condition, input).truth;
                let tellable = condition.predicate is ClosedOutsideBand || stale is None;
                &&& !value.source_healthy ==> truth is Unavailable
                &&& value.source_healthy && !tellable ==> truth == ConditionTruth::Unavailable(
                    stale->0,
                )
                &&& value.source_healthy && tellable ==> !(truth is Unavailable) && (truth
                    is Satisfied <==> weather_satisfied(condition, value))
            },
        },
{
}

/// A crypto leaf is satisfied exactly where its healthy source shows a fresh
/// last report and the fold of its reports is latched.
pub proof fn crypto_conditions_follow_the_latch(
    node_id: u16,
    condition: CryptoSubjectPredicateEntered,
    input: EntryConditionInputSet,
    states: Seq<CryptoEnteredFoldState>,
)
    ensures
        match crypto_input(input.crypto@, condition) {
            None => crypto_leaf(node_id, condition, input, states).0.truth
                == ConditionTruth::Unavailable(ConditionUnavailableReason::InputMissing),
            Some(position) => {
                let value = input.crypto@[position];
                let truth = crypto_leaf(node_id, condition, input, states).0.truth;
                let fold = crate::entry_condition::fold::folded(states, node_id, condition, value);
                let last = value.reports@.last();
                let stale = staleness(
                    last.event_at,
                    last.available_at,
                    input.evaluated_at,
                    condition.max_input_age_ms,
                );
                let tellable = value.source_healthy && value.reports@.len() > 0 && stale is None;
                &&& !tellable ==> truth is Unavailable
                &&& tellable ==> (fold.latched ==> truth is Satisfied) && (!fold.latched ==> truth
                    is Unsatisfied)
            },
        },
{
}

/// The inputs that conditions read are their own: of their token, definition,
/// source or key.
pub proof fn conditions_read_their_own_inputs(
    input: EntryConditionInputSet,
    price: PriceCondition,
    factor: FactorCondition,
    crypto: CryptoSubjectPredicateEntered,
    weather: WeatherCondition,
)
    ensures
        price_input(input.prices@, price) matches Some(i) ==> 0 <= i < input.prices@.len()
            && input.prices@[i].token_id@ == price.token_id@,
        factor_input(input.factors@, factor) matches Some(i) ==> 0 <= i < input.factors@.len()
            && input.factors@[i].definition_id == factor.definition_id,
        crypto_input(input.crypto@, crypto) matches Some(i) ==> 0 <= i < input.crypto@.len()
            && input.crypto@[i].source@ == crypto.source@,
        weather_input(input.weather@, weather) matches Some(i) ==> 0 <= i < input.weather@.len()
            && input.weather@[i].key@ == weather.key@,
        price_input(input.prices@, price) is None ==> forall|i: int|
            0 <= i < input.prices@.len() ==> (#[trigger] input.prices@[i]).token_id@
                != price.token_id@,
        factor_input(input.factors@, factor) is None ==> forall|i: int|
            0 <= i < input.factors@.len() ==> (#[trigger] input.factors@[i]).definition_id
                != factor.definition_id,
        crypto_input(input.crypto@, crypto) is None ==> forall|i: int|
            0 <= i < input.crypto@.len() ==> (#[trigger] input.crypto@[i]).source@
                != crypto.source@,
        weather_input(input.weather@, weather) is None ==> forall|i: int|
            0 <= i < input.weather@.len() ==> (#[trigger] input.weather@[i]).key@ != weather.key@,
{
    crate::entry_condition::leaves::inputs_are_found_by_identity(
        input,
        price,
        factor,
        crypto,
        weather,
    );
}

/// A condition moves as its truth says: unavailable and unsatisfied ones lose
/// their run, a satisfied one confirms, and qualifies once it has held for the
/// required time without a change of continuity or a missed observation.
pub proof fn conditions_qualify_by_holding(
    current: EntryConditionState,
    started_at: Option<Timestamp>,
    previous_continuity: Option<ContentHash>,
    previous_evaluated_at: Option<Timestamp>,
    confirmation: ConfirmationPolicy,
    truth: ConditionTruth,
    continuity: ContentHash,
    evaluated_at: Timestamp,
)
    requires
        !(current is Consumed) && !(current is Expired) && !(current is Invalidated),
    ensures
        ({
            let next = next_state(
                current,
                started_at,
                previous_continuity,
                previous_evaluated_at,
                confirmation,
                truth,
                continuity,
                evaluated_at,
            );
            let unbroken = (previous_continuity is Some ==> previous_continuity->0 == continuity)
                && (previous_evaluated_at is Some ==> evaluated_at@ - previous_evaluated_at->0@
                <= confirmation.max_observation_gap_ms * 1000000);
            let needed = confirmation.required_continuous_ms * 1000000;
            &&& truth is Unavailable ==> next.state is Unavailable && next.confirmation_started_at
                is None
            &&& truth is Unsatisfied ==> next.state is Waiting && next.confirmation_started_at
                is None
            &&& truth is Satisfied && needed == 0 ==> next.state is Qualified
                && next.confirmation_started_at == Some(evaluated_at)
            &&& truth is Satisfied && needed > 0 && unbroken && started_at is Some ==> {
                &&& next.confirmation_started_at == started_at
                &&& evaluated_at@ - started_at->0@ >= needed ==> next.state is Qualified
                &&& evaluated_at@ - started_at->0@ < needed ==> next.state is Confirming
            }
            &&& truth is Satisfied && needed > 0 && !(unbroken && started_at is Some)
                ==> next.confirmation_started_at == Some(evaluated_at) && next.state is Confirming
        }),
{
}

/// A price trigger waits while the best ask of a fresh book does not reach the
/// threshold; without a confirmation time it is ready as soon as it does.
pub proof fn triggers_wait_for_their_price(
    comparison: PriceComparison,
    threshold: Price,
    confirmation_secs: u64,
    max_observation_gap_ms: u64,
    state: EntryTriggerState,
    progress: Option<ConfirmationProgress>,
    best_ask: Option<Price>,
    book_fresh: bool,
    now: Timestamp,
)
    ensures
        ({
            let trigger = EntryTrigger::PriceCondition {
                comparison,
                threshold,
                confirmation_secs,
                max_observation_gap_ms,
            };
            let met = book_fresh && best_ask is Some && reaches(
                comparison,
                best_ask->0,
                threshold,
            );
            let next = trigger_outcome(trigger, state, progress, best_ask, book_fresh, now);
            &&& !met ==> !next.ready && next.progress is None
            &&& met && (state is Ready || confirmation_secs == 0) ==> next.ready
            &&& met && !(state is Ready) && confirmation_secs > 0 ==> (next.ready <==> progress
                is Some && now@ - progress->0.last_observed_at@ <= max_observation_gap_ms * 1000000
                && now@ - progress->0.confirming_since@ >= confirmation_secs * 1000000000)
            &&& trigger_outcome(
                EntryTrigger::Immediate,
                state,
                progress,
                best_ask,
                book_fresh,
                now,
            ).ready
        }),
{
}

/// A source that is not healthy makes its condition unavailable and lets its latch
/// go.
pub proof fn unhealthy_sources_let_the_latch_go(
    node_id: u16,
    condition: CryptoSubjectPredicateEntered,
    input: EntryConditionInputSet,
    states: Seq<CryptoEnteredFoldState>,
)
    requires
        crypto_input(input.crypto@, condition) matches Some(at)
            && !input.crypto@[at].source_healthy,
    ensures
        crypto_leaf(node_id, condition, input, states).0.truth is Unavailable,
        ({
            let after = crypto_leaf(node_id, condition, input, states).1;
            leaf_position(after, node_id) matches Some(position) ==> 0 <= position < after.len()
                && !after[position].latched
        }),
{
    let value = input.crypto@[crypto_input(input.crypto@, condition)->0];
    let state = folded(states, node_id, condition, value);
    one_leaf_lets_go(stored(states, node_id, state), node_id);
}

} // verus!
