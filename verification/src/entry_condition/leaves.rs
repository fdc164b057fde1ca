//! Evaluation of single conditions.
use vstd::prelude::*;

use crate::decimal::Decimal;
use crate::entry_condition::fold::{
    clear_crypto_latch, find_leaf, fold_crypto_reports, folded, leaf_position, leaf_unlatched,
    stored,
};
use crate::entry_condition::model::{
    ConditionLeafEvidence, ConditionTruth, ConditionUnavailableReason, CryptoEnteredFoldState,
    CryptoPriceInput, CryptoSubjectPredicateEntered, EntryConditionFoldState,
    EntryConditionInputSet, EvidenceView, ExecutablePriceInput, FactorCondition, FactorMeasure,
    FactorSnapshotInput, MarketEventCondition, PriceCondition, TemperatureUnit, WeatherCondition,
    WeatherDailyTemperatureInput, WeatherPredicate, WeatherTemperatureStatistic,
};
use crate::entry_trigger::{compare, price_meets};
use crate::search::{first_where, lemma_first_found, lemma_first_missing};
use crate::time::Timestamp;

verus! {

/// The two-valued truth of a test that could be made.
pub open spec fn truth_of(satisfied: bool) -> ConditionTruth {
    if satisfied {
        ConditionTruth::Satisfied
    } else {
        ConditionTruth::Unsatisfied
    }
}

fn truth_from_bool(value: bool) -> (r: ConditionTruth)
    ensures
        r == truth_of(value),
{
    if value {
        ConditionTruth::Satisfied
    } else {
        ConditionTruth::Unsatisfied
    }
}

/// Truth and evidence of a leaf.
pub ghost struct LeafView {
    pub truth: ConditionTruth,
    pub evidence: EvidenceView,
}

/// A leaf that cannot be evaluated, with the reason for evidence.
pub open spec fn unavailable(reason: ConditionUnavailableReason) -> LeafView {
    LeafView {
        truth: ConditionTruth::Unavailable(reason),
        evidence: EvidenceView::Unavailable(reason),
    }
}

fn unavailable_leaf(reason: ConditionUnavailableReason) -> (r: (
    ConditionTruth,
    ConditionLeafEvidence,
))
    ensures
        (LeafView { truth: r.0, evidence: r.1@ }) == unavailable(reason),
{
    (ConditionTruth::Unavailable(reason.clone()), ConditionLeafEvidence::Unavailable(reason))
}

/// Why an input is not fresh enough, if it is not: times out of order are a
/// clock skew, an age beyond the limit (or a limit beyond all ages) is
/// staleness.
pub open spec fn staleness(
    observed_at: Timestamp,
    available_at: Timestamp,
    evaluated_at: Timestamp,
    max_age_ms: u64,
) -> Option<ConditionUnavailableReason> {
    if observed_at@ > available_at@ || available_at@ > evaluated_at@ {
        Some(ConditionUnavailableReason::ClockSkew)
    } else if max_age_ms > i64::MAX || evaluated_at@ - observed_at@ > max_age_ms * 1000000 {
        Some(ConditionUnavailableReason::InputStale)
    } else {
        None
    }
}

fn freshness_reason(
    observed_at: Timestamp,
    available_at: Timestamp,
    evaluated_at: Timestamp,
    max_age_ms: u64,
) -> (r: Option<ConditionUnavailableReason>)
    ensures
        r == staleness(observed_at, available_at, evaluated_at, max_age_ms),
{
    if available_at.before(observed_at) || evaluated_at.before(available_at) {
        return Some(ConditionUnavailableReason::ClockSkew);
    }
    if max_age_ms > i64::MAX as u64 {
        return Some(ConditionUnavailableReason::InputStale);
    }
    if evaluated_at.since(observed_at) > max_age_ms as i128 * 1000000 {
        Some(ConditionUnavailableReason::InputStale)
    } else {
        None
    }
}

/// The price input that a condition reads.
pub open spec fn price_input(
    prices: Seq<ExecutablePriceInput>,
    condition: PriceCondition,
) -> Option<int> {
    first_where(prices, |value: ExecutablePriceInput| value.token_id@ == condition.token_id@)
}

/// Truth and evidence of a price condition.
pub open spec fn price_leaf(condition: PriceCondition, input: EntryConditionInputSet) -> LeafView {
    match price_input(input.prices@, condition) {
        None => unavailable(ConditionUnavailableReason::InputMissing),
        Some(position) => {
            let value = input.prices@[position];
            LeafView {
                truth: match staleness(
                    value.observed_at,
                    value.available_at,
                    input.evaluated_at,
                    condition.max_input_age_ms,
                ) {
                    Some(reason) => ConditionTruth::Unavailable(reason),
                    None => truth_of(
                        price_meets(condition.comparison, value.price, condition.threshold),
                    ),
                },
                evidence: EvidenceView::Price(value),
            }
        },
    }
}

pub(crate) fn evaluate_price(condition: &PriceCondition, input: &EntryConditionInputSet) -> (r: (
    ConditionTruth,
    ConditionLeafEvidence,
))
    ensures
        (LeafView { truth: r.0, evidence: r.1@ }) == price_leaf(*condition, *input),
{
    let ghost test = |value: ExecutablePriceInput| value.token_id@ == condition.token_id@;
    let mut i: usize = 0;
    while i < input.prices.len()
        invariant
            i <= input.prices.len(),
            test == (|value: ExecutablePriceInput| value.token_id@ == condition.token_id@),
            forall|j: int| 0 <= j < i ==> !test(#[trigger] input.prices@[j]),
        decreases input.prices.len() - i,
    {
        if input.prices[i].token_id.same(&condition.token_id) {
            proof {
                lemma_first_found(input.prices@, test, i as int);
            }
            let value = input.prices[i].clone();
            let truth = match freshness_reason(
                value.observed_at,
                value.available_at,
                input.evaluated_at,
                condition.max_input_age_ms,
            ) {
                Some(reason) => ConditionTruth::Unavailable(reason),
                None => truth_from_bool(
                    compare(condition.comparison, value.price, condition.threshold),
                ),
            };
            return (truth, ConditionLeafEvidence::Price(value));
        }
        i = i + 1;
    }
    proof {
        lemma_first_missing(input.prices@, test);
    }
    unavailable_leaf(ConditionUnavailableReason::InputMissing)
}

/// The factor input that a condition reads.
pub open spec fn factor_input(
    factors: Seq<FactorSnapshotInput>,
    condition: FactorCondition,
) -> Option<int> {
    first_where(
        factors,
        |value: FactorSnapshotInput| value.definition_id == condition.definition_id,
    )
}

/// The value that a factor condition measures.
pub open spec fn measured(condition: FactorCondition, value: FactorSnapshotInput) -> Decimal {
    match condition.measure {
        FactorMeasure::Raw => value.raw_value,
        FactorMeasure::Normalized => value.normalized_value,
    }
}

/// Truth and evidence of a factor condition: a value of another definition or
/// model is no evidence, and too little confidence does not satisfy.
pub open spec fn factor_leaf(condition: FactorCondition, input: EntryConditionInputSet) -> LeafView {
    match factor_input(input.factors@, condition) {
        None => unavailable(ConditionUnavailableReason::InputMissing),
        Some(position) => {
            let value = input.factors@[position];
            LeafView {
                truth: if value.definition_hash != condition.definition_hash
                    || value.model_version_id != condition.model_version_id {
                    ConditionTruth::Unavailable(
                        ConditionUnavailableReason::FactorDefinitionMismatch,
                    )
                } else {
                    match staleness(
                        value.observed_at,
                        value.available_at,
                        input.evaluated_at,
                        condition.max_input_age_ms,
                    ) {
                        Some(reason) => ConditionTruth::Unavailable(reason),
                        None => truth_of(
                            condition.minimum_confidence@ <= value.confidence@ && price_meets(
                                condition.comparison,
                                measured(condition, value),
                                condition.threshold,
                            ),
                        ),
                    }
                },
                evidence: EvidenceView::Factor(value),
            }
        },
    }
}

pub(crate) fn evaluate_factor(condition: &FactorCondition, input: &EntryConditionInputSet) -> (r: (
    ConditionTruth,
    ConditionLeafEvidence,
))
    ensures
        (LeafView { truth: r.0, evidence: r.1@ }) == factor_leaf(*condition, *input),
{
    let ghost test = |value: FactorSnapshotInput| value.definition_id == condition.definition_id;
    let mut i: usize = 0;
    while i < input.factors.len()
        invariant
            i <= input.factors.len(),
            test == (|value: FactorSnapshotInput| value.definition_id == condition.definition_id),
            forall|j: int| 0 <= j < i ==> !test(#[trigger] input.factors@[j]),
        decreases input.factors.len() - i,
    {
        if input.factors[i].definition_id == condition.definition_id {
            proof {
                lemma_first_found(input.factors@, test, i as int);
            }
            let value = input.factors[i];
            if value.definition_hash != condition.definition_hash || value.model_version_id
                != condition.model_version_id {
                return (
                    ConditionTruth::Unavailable(
                        ConditionUnavailableReason::FactorDefinitionMismatch,
                    ),
                    ConditionLeafEvidence::Factor(value),
                );
            }
            let measure = match condition.measure {
                FactorMeasure::Raw => value.raw_value,
                FactorMeasure::Normalized => value.normalized_value,
            };
            let truth = match freshness_reason(
                value.observed_at,
                value.available_at,
                input.evaluated_at,
                condition.max_input_age_ms,
            ) {
                Some(reason) => ConditionTruth::Unavailable(reason),
                None => truth_from_bool(
                    condition.minimum_confidence.le(value.confidence) && compare(
                        condition.comparison,
                        measure,
                        condition.threshold,
                    ),
                ),
            };
            return (truth, ConditionLeafEvidence::Factor(value));
        }
        i = i + 1;
    }
    proof {
        lemma_first_missing(input.factors@, test);
    }
    unavailable_leaf(ConditionUnavailableReason::InputMissing)
}

/// The crypto input that a condition reads: facts of another source never
/// stand in.
pub open spec fn crypto_input(
    crypto: Seq<CryptoPriceInput>,
    condition: CryptoSubjectPredicateEntered,
) -> Option<int> {
    first_where(crypto, |value: CryptoPriceInput| value.source@ == condition.source@)
}

/// Truth, evidence and folds after a crypto condition was evaluated.
pub open spec fn crypto_leaf(
    node_id: u16,
    condition: CryptoSubjectPredicateEntered,
    input: EntryConditionInputSet,
    states: Seq<CryptoEnteredFoldState>,
) -> (LeafView, Seq<CryptoEnteredFoldState>) {
    match crypto_input(input.crypto@, condition) {
        None => (unavailable(ConditionUnavailableReason::InputMissing), states),
        Some(position) => {
            let value = input.crypto@[position];
            let state = folded(states, node_id, condition, value);
            let after = stored(states, node_id, state);
            if !value.source_healthy {
                let cleared = leaf_unlatched(after, node_id);
                (
                    LeafView {
                        truth: ConditionTruth::Unavailable(
                            ConditionUnavailableReason::SourceUnhealthy {
                                source_id: value.source.source_id,
                            },
                        ),
                        evidence: EvidenceView::Crypto {
                            input: value@,
                            state: match leaf_position(cleared, node_id) {
                                Some(leaf) => cleared[leaf],
                                None => state,
                            },
                        },
                    },
                    cleared,
                )
            } else if value.reports@.len() == 0 {
                (unavailable(ConditionUnavailableReason::InputMissing), after)
            } else {
                let latest = value.reports@.last();
                (
                    LeafView {
                        truth: match staleness(
                            latest.event_at,
                            latest.available_at,
                            input.evaluated_at,
                            condition.max_input_age_ms,
                        ) {
                            Some(reason) => ConditionTruth::Unavailable(reason),
                            None => truth_of(state.latched),
                        },
                        evidence: EvidenceView::Crypto { input: value@, state },
                    },
                    after,
                )
            }
        },
    }
}

fn evaluate_crypto(
    node_id: u16,
    condition: &CryptoSubjectPredicateEntered,
    input: &EntryConditionInputSet,
    fold_state: &mut EntryConditionFoldState,
) -> (r: (ConditionTruth, ConditionLeafEvidence))
    ensures
        (LeafView { truth: r.0, evidence: r.1@ }, final(fold_state).crypto@) == crypto_leaf(
            node_id,
            *condition,
            *input,
            old(fold_state).crypto@,
        ),
{
    let ghost test = |value: CryptoPriceInput| value.source@ == condition.source@;
    let mut i: usize = 0;
    let ghost before = *fold_state;
    while i < input.crypto.len()
        invariant
            i <= input.crypto.len(),
            test == (|value: CryptoPriceInput| value.source@ == condition.source@),
            forall|j: int| 0 <= j < i ==> !test(#[trigger] input.crypto@[j]),
            *fold_state == before,
            before == *old(fold_state),
        decreases input.crypto.len() - i,
    {
        if input.crypto[i].source.same(&condition.source) {
            proof {
                lemma_first_found(input.crypto@, test, i as int);
            }
            let value = &input.crypto[i];
            let state = fold_crypto_reports(node_id, condition, value, fold_state);
            if !value.source_healthy {
                clear_crypto_latch(&mut fold_state.crypto, node_id);
                let shown = match find_leaf(&fold_state.crypto, node_id) {
                    Some(leaf) => fold_state.crypto[leaf].clone(),
                    None => state,
                };
                return (
                    ConditionTruth::Unavailable(
                        ConditionUnavailableReason::SourceUnhealthy {
                            source_id: value.source.source_id.clone(),
                        },
                    ),
                    ConditionLeafEvidence::Crypto { input: value.clone(), state: shown },
                );
            }
            if value.reports.len() == 0 {
                return unavailable_leaf(ConditionUnavailableReason::InputMissing);
            }
            let latest = value.reports[value.reports.len() - 1];
            let truth = match freshness_reason(
                latest.event_at,
                latest.available_at,
                input.evaluated_at,
                condition.max_input_age_ms,
            ) {
                Some(reason) => ConditionTruth::Unavailable(reason),
                None => truth_from_bool(state.latched),
            };
            return (truth, ConditionLeafEvidence::Crypto { input: value.clone(), state });
        }
        i = i + 1;
    }
    proof {
        lemma_first_missing(input.crypto@, test);
    }
    unavailable_leaf(ConditionUnavailableReason::InputMissing)
}

/// The weather input that a condition reads: source, station, day and
/// statistic have to agree.
pub open spec fn weather_input(
    weather: Seq<WeatherDailyTemperatureInput>,
    condition: WeatherCondition,
) -> Option<int> {
    first_where(weather, |value: WeatherDailyTemperatureInput| value.key@ == condition.key@)
}

/// The extreme in whole degrees of the condition's unit.
pub open spec fn whole_degrees(
    value: WeatherDailyTemperatureInput,
    unit: TemperatureUnit,
) -> Decimal {
    match unit {
        TemperatureUnit::Celsius => value.whole_celsius,
        TemperatureUnit::Fahrenheit => value.whole_fahrenheit,
    }
}

/// Whether the extreme does what the condition asks.
pub open spec fn weather_satisfied(
    condition: WeatherCondition,
    value: WeatherDailyTemperatureInput,
) -> bool {
    let extreme = whole_degrees(value, condition.unit);
    match condition.predicate {
        WeatherPredicate::EnteredBand { band } => !band.is_below(extreme) && !band.is_above(
            extreme,
        ),
        WeatherPredicate::CrossedTerminalBound { terminal_bound } => match condition.key.temperature_statistic {
            WeatherTemperatureStatistic::Maximum => extreme@ > terminal_bound@,
            WeatherTemperatureStatistic::Minimum => extreme@ < terminal_bound@,
        },
        WeatherPredicate::ClosedOutsideBand { band } => value.day_closed && (band.is_below(extreme)
            || band.is_above(extreme)),
    }
}

/// Truth and evidence of a weather condition. How old the input is counts only
/// as long as the day may still be open.
pub open spec fn weather_leaf(condition: WeatherCondition, input: EntryConditionInputSet) -> LeafView {
    match weather_input(input.weather@, condition) {
        None => unavailable(ConditionUnavailableReason::InputMissing),
        Some(position) => {
            let value = input.weather@[position];
            let stale = if condition.predicate is ClosedOutsideBand {
                None
            } else {
                staleness(
                    value.observation_time,
                    value.available_at,
                    input.evaluated_at,
                    condition.max_input_age_ms,
                )
            };
            LeafView {
                truth: if !value.source_healthy {
                    ConditionTruth::Unavailable(
                        ConditionUnavailableReason::SourceUnhealthy {
                            source_id: value.key.source.source_id,
                        },
                    )
                } else {
                    match stale {
                        Some(reason) => ConditionTruth::Unavailable(reason),
                        None => truth_of(weather_satisfied(condition, value)),
                    }
                },
                evidence: EvidenceView::Weather(value),
            }
        },
    }
}

fn test_weather(condition: &WeatherCondition, value: &WeatherDailyTemperatureInput) -> (r: bool)
    ensures
        r == weather_satisfied(*condition, *value),
{
    let extreme = match condition.unit {
        TemperatureUnit::Celsius => value.whole_celsius,
        TemperatureUnit::Fahrenheit => value.whole_fahrenheit,
    };
    match condition.predicate {
        WeatherPredicate::EnteredBand { band } => !band.below(extreme) && !band.above(extreme),
        WeatherPredicate::CrossedTerminalBound { terminal_bound } => match condition.key.temperature_statistic {
            WeatherTemperatureStatistic::Maximum => terminal_bound.lt(extreme),
            WeatherTemperatureStatistic::Minimum => extreme.lt(terminal_bound),
        },
        WeatherPredicate::ClosedOutsideBand { band } => value.day_closed && (band.below(extreme)
            || band.above(extreme)),
    }
}

fn evaluate_weather(condition: &WeatherCondition, input: &EntryConditionInputSet) -> (r: (
    ConditionTruth,
    ConditionLeafEvidence,
))
    ensures
        (LeafView { truth: r.0, evidence: r.1@ }) == weather_leaf(*condition, *input),
{
    let ghost test = |value: WeatherDailyTemperatureInput| value.key@ == condition.key@;
    let mut i: usize = 0;
    while i < input.weather.len()
        invariant
            i <= input.weather.len(),
            test == (|value: WeatherDailyTemperatureInput| value.key@ == condition.key@),
            forall|j: int| 0 <= j < i ==> !test(#[trigger] input.weather@[j]),
        decreases input.weather.len() - i,
    {
        if input.weather[i].key.same(&condition.key) {
            proof {
                lemma_first_found(input.weather@, test, i as int);
            }
            let value = input.weather[i].clone();
            if !value.source_healthy {
                return (
                    ConditionTruth::Unavailable(
                        ConditionUnavailableReason::SourceUnhealthy {
                            source_id: value.key.source.source_id.clone(),
                        },
                    ),
                    ConditionLeafEvidence::Weather(value),
                );
            }
            let stale = match condition.predicate {
                WeatherPredicate::ClosedOutsideBand { .. } => None,
                _ => freshness_reason(
                    value.observation_time,
                    value.available_at,
                    input.evaluated_at,
                    condition.max_input_age_ms,
                ),
            };
            let truth = match stale {
                Some(reason) => ConditionTruth::Unavailable(reason),
                None => truth_from_bool(test_weather(condition, &value)),
            };
            return (truth, ConditionLeafEvidence::Weather(value));
        }
        i = i + 1;
    }
    proof {
        lemma_first_missing(input.weather@, test);
    }
    unavailable_leaf(ConditionUnavailableReason::InputMissing)
}

/// Truth, evidence and folds after a domain-event condition was evaluated.
pub open spec fn event_leaf(
    node_id: u16,
    condition: MarketEventCondition,
    input: EntryConditionInputSet,
    states: Seq<CryptoEnteredFoldState>,
) -> (LeafView, Seq<CryptoEnteredFoldState>) {
    match condition {
        MarketEventCondition::CryptoSubjectPredicateEntered(crypto) => crypto_leaf(
            node_id,
            crypto,
            input,
            states,
        ),
        MarketEventCondition::WeatherDailyTemperature(weather) => (
            weather_leaf(weather, input),
            states,
        ),
    }
}

pub(crate) fn evaluate_market_event(
    node_id: u16,
    condition: &MarketEventCondition,
    input: &EntryConditionInputSet,
    fold_state: &mut EntryConditionFoldState,
) -> (r: (ConditionTruth, ConditionLeafEvidence))
    ensures
        (LeafView { truth: r.0, evidence: r.1@ }, final(fold_state).crypto@) == event_leaf(
            node_id,
            *condition,
            *input,
            old(fold_state).crypto@,
        ),
{
    match condition {
        MarketEventCondition::CryptoSubjectPredicateEntered(crypto) => evaluate_crypto(
            node_id,
            crypto,
            input,
            fold_state,
        ),
        MarketEventCondition::WeatherDailyTemperature(weather) => evaluate_weather(weather, input),
    }
}

/// A condition reads the first input of its own identity, and none where there
/// is none.
pub proof fn inputs_are_found_by_identity(
    input: EntryConditionInputSet,
    price: PriceCondition,
    factor: FactorCondition,
    crypto: CryptoSubjectPredicateEntered,
    weather: WeatherCondition,
)
    ensures
        match price_input(input.prices@, price) {
            Some(i) => 0 <= i < input.prices@.len() && input.prices@[i].token_id@
                == price.token_id@,
            None => forall|i: int|
                0 <= i < input.prices@.len() ==> (#[trigger] input.prices@[i]).token_id@
                    != price.token_id@,
        },
        match factor_input(input.factors@, factor) {
            Some(i) => 0 <= i < input.factors@.len() && input.factors@[i].definition_id
                == factor.definition_id,
            None => forall|i: int|
                0 <= i < input.factors@.len() ==> (#[trigger] input.factors@[i]).definition_id
                    != factor.definition_id,
        },
        match crypto_input(input.crypto@, crypto) {
            Some(i) => 0 <= i < input.crypto@.len() && input.crypto@[i].source@ == crypto.source@,
            None => forall|i: int|
                0 <= i < input.crypto@.len() ==> (#[trigger] input.crypto@[i]).source@
                    != crypto.source@,
        },
        match weather_input(input.weather@, weather) {
            Some(i) => 0 <= i < input.weather@.len() && input.weather@[i].key@ == weather.key@,
            None => forall|i: int|
                0 <= i < input.weather@.len() ==> (#[trigger] input.weather@[i]).key@
                    != weather.key@,
        },
{
    let of_token = |value: ExecutablePriceInput| value.token_id@ == price.token_id@;
    let of_definition = |value: FactorSnapshotInput| value.definition_id == factor.definition_id;
    let of_source = |value: CryptoPriceInput| value.source@ == crypto.source@;
    let of_key = |value: WeatherDailyTemperatureInput| value.key@ == weather.key@;
    crate::search::first_match_is_first(input.prices@, of_token);
    crate::search::first_match_is_first(input.factors@, of_definition);
    crate::search::first_match_is_first(input.crypto@, of_source);
    crate::search::first_match_is_first(input.weather@, of_key);
    assert forall|i: int| 0 <= i < input.prices@.len() implies of_token(
        #[trigger] input.prices@[i],
    ) == (input.prices@[i].token_id@ == price.token_id@) by {}
    assert forall|i: int| 0 <= i < input.factors@.len() implies of_definition(
        #[trigger] input.factors@[i],
    ) == (input.factors@[i].definition_id == factor.definition_id) by {}
    assert forall|i: int| 0 <= i < input.crypto@.len() implies of_source(
        #[trigger] input.crypto@[i],
    ) == (input.crypto@[i].source@ == crypto.source@) by {}
    assert forall|i: int| 0 <= i < input.weather@.len() implies of_key(
        #[trigger] input.weather@[i],
    ) == (input.weather@[i].key@ == weather.key@) by {}
}

} // verus!
