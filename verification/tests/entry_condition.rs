use std::collections::hash_map::DefaultHasher;
use std::hash::{Hash, Hasher};

use quant_pivot_execution::decimal::Decimal;
use quant_pivot_execution::entry_condition::fold::{crypto_outcome, fold_crypto_reports};
use quant_pivot_execution::entry_condition::model::{
    ClockCondition, ConditionTruth, ConditionUnavailableReason, ConfirmationPolicy,
    CryptoPriceInput, CryptoPriceReportInput, CryptoSubjectPredicateEntered,
    EntryConditionArtifactV1, EntryConditionBinding, EntryConditionFoldState,
    EntryConditionInputSet, EntryConditionSourceBinding, EntryConditionV1, FactorCondition,
    FactorMeasure, FactorSnapshotInput, MarketEventCondition, PriceBoundaryInclusion,
    PriceComparator, PriceCondition, RequiredWeather, TemperatureBand, TemperatureUnit,
    WeatherCondition, WeatherDailyTemperatureInput, WeatherPredicate, WeatherTemperatureStatistic,
    ExecutablePriceInput,
};
use quant_pivot_execution::entry_condition::state::{
    decide_entry_condition_state, EntryConditionState,
};
use quant_pivot_execution::entry_condition::tree::{
    composite_truth, evaluate_entry_condition, CompositeKind, ConditionNodeEvaluation,
    EntryConditionEvaluation, EvaluationBasis,
};
use quant_pivot_execution::time::Timestamp;
use quant_pivot_execution::types::{ContentHash, Ident, OutcomeSide, PriceComparison};

const CHAINLINK: &str = "chainlink_data_streams";
const BINANCE: &str = "binance_agg_trade";
const AVIATION_WEATHER: &str = "aviation_weather";

/// 13 July 2026, in days since the epoch.
const LOCAL_DATE: i32 = 20_647;

fn dec(text: &str) -> Decimal {
    Decimal::parse(text).expect("decimal")
}

fn node(node_id: u16, truth: ConditionTruth) -> ConditionNodeEvaluation {
    ConditionNodeEvaluation {
        node_id,
        truth,
        decisive_child_id: None,
        evidence: None,
        children: Vec::new(),
    }
}

/// Milliseconds into 13 July 2026.
fn after(millis: i64) -> Timestamp {
    Timestamp::from_millis(1_783_900_800_000 + millis).expect("time")
}

fn timestamp() -> Timestamp {
    after(0)
}

fn hash(seed: char) -> ContentHash {
    let digit = u128::from(seed.to_digit(16).expect("hexadecimal digit"));
    let word = digit * (u128::MAX / 15);
    ContentHash { high: word, low: word }
}

/// A digest of a value's text.
fn digest(text: &str) -> ContentHash {
    let mut hasher = DefaultHasher::new();
    text.hash(&mut hasher);
    let word = u128::from(hasher.finish());
    ContentHash { high: word, low: word }
}

/// What the caller derives from an evaluation's continuity.
fn continuity_hash(evaluation: &EntryConditionEvaluation) -> ContentHash {
    digest(&format!("{:?}", evaluation.continuity))
}

fn kept(state: &EntryConditionFoldState) -> EntryConditionFoldState {
    EntryConditionFoldState { crypto: state.crypto.iter().cloned().collect() }
}

fn fresh() -> EntryConditionFoldState {
    EntryConditionFoldState { crypto: Vec::new() }
}

fn no_confirmation() -> ConfirmationPolicy {
    ConfirmationPolicy { required_continuous_ms: 0, max_observation_gap_ms: 0 }
}

fn binding() -> EntryConditionBinding {
    EntryConditionBinding {
        recommendation_id: 1,
        market_id: Ident::new("market"),
        token_id: Ident::new("token"),
        outcome_side: OutcomeSide::Yes,
        market_linkage_id: None,
        market_linkage_hash: None,
        catalog_snapshot_id: 2,
        catalog_snapshot_hash: hash('a'),
        model_version_id: 3,
        decision_policy_snapshot_id: 4,
        factor_bindings: Vec::new(),
        source_bindings: Vec::new(),
    }
}

fn copied(binding: &EntryConditionBinding) -> EntryConditionBinding {
    EntryConditionBinding {
        recommendation_id: binding.recommendation_id,
        market_id: binding.market_id.clone(),
        token_id: binding.token_id.clone(),
        outcome_side: binding.outcome_side,
        market_linkage_id: binding.market_linkage_id,
        market_linkage_hash: binding.market_linkage_hash,
        catalog_snapshot_id: binding.catalog_snapshot_id,
        catalog_snapshot_hash: binding.catalog_snapshot_hash,
        model_version_id: binding.model_version_id,
        decision_policy_snapshot_id: binding.decision_policy_snapshot_id,
        factor_bindings: binding.factor_bindings.iter().cloned().collect(),
        source_bindings: binding.source_bindings.iter().cloned().collect(),
    }
}

fn rooted(confirmation: ConfirmationPolicy, root: EntryConditionV1) -> EntryConditionArtifactV1 {
    EntryConditionArtifactV1 {
        schema_version: 1,
        evaluator_version: 1,
        binding: binding(),
        confirmation,
        root,
    }
}

fn artifact(confirmation: ConfirmationPolicy) -> EntryConditionArtifactV1 {
    rooted(confirmation, EntryConditionV1::Clock(ClockCondition { deadline_at: timestamp() }))
}

fn source(source_id: &str, instrument: &str) -> EntryConditionSourceBinding {
    EntryConditionSourceBinding {
        source_id: Ident::new(source_id),
        instrument_key: Ident::new(instrument),
        binding_hash: hash('b'),
    }
}

fn market_event_artifact(
    event: MarketEventCondition,
    source: EntryConditionSourceBinding,
) -> EntryConditionArtifactV1 {
    let mut artifact = rooted(no_confirmation(), EntryConditionV1::MarketEvent { event });
    artifact.binding.market_linkage_id = Some(5);
    artifact.binding.market_linkage_hash = Some(hash('c'));
    artifact.binding.source_bindings = vec![source];
    artifact
}

fn input(artifact: &EntryConditionArtifactV1, evaluated_at: Timestamp) -> EntryConditionInputSet {
    EntryConditionInputSet {
        binding: copied(&artifact.binding),
        binding_revision: hash('9'),
        binding_unavailable_reason: None,
        fold_state: fresh(),
        evaluated_at,
        prices: Vec::new(),
        factors: Vec::new(),
        crypto: Vec::new(),
        weather: Vec::new(),
    }
}

fn crypto_input_set(
    artifact: &EntryConditionArtifactV1,
    evaluated_at: Timestamp,
    source: &EntryConditionSourceBinding,
    reports: &[(u64, &str, char)],
    gap_generation: u64,
    fold_state: EntryConditionFoldState,
) -> EntryConditionInputSet {
    let mut inputs = input(artifact, evaluated_at);
    inputs.fold_state = fold_state;
    inputs.crypto.push(CryptoPriceInput {
        source: source.clone(),
        reports: reports
            .iter()
            .map(|(sequence, price, report_hash)| CryptoPriceReportInput {
                source_sequence: *sequence,
                price: dec(price),
                event_at: evaluated_at,
                available_at: evaluated_at,
                report_hash: hash(*report_hash),
            })
            .collect(),
        gap_generation,
        source_healthy: true,
    });
    inputs
}

fn up_vs_reference(
    source: &EntryConditionSourceBinding,
    max_input_age_ms: u64,
) -> EntryConditionArtifactV1 {
    market_event_artifact(
        MarketEventCondition::CryptoSubjectPredicateEntered(CryptoSubjectPredicateEntered {
            source: source.clone(),
            comparator: PriceComparator::UpVsReference,
            strike: None,
            reference_price: Some(dec("100")),
            recommended_outcome: OutcomeSide::Yes,
            max_input_age_ms,
        }),
        source.clone(),
    )
}

fn assert_crypto_baseline_and_transient_recross(
    artifact: &EntryConditionArtifactV1,
    source: &EntryConditionSourceBinding,
    evaluated_at: Timestamp,
) {
    let already_on_side =
        crypto_input_set(artifact, evaluated_at, source, &[(1, "101", '1')], 0, fresh());
    let baseline = evaluate_entry_condition(artifact, &already_on_side).expect("on-side baseline");
    assert_eq!(baseline.truth, ConditionTruth::Unsatisfied);
    assert!(!baseline.fold_state.crypto[0].latched);

    let transient = crypto_input_set(
        artifact,
        evaluated_at,
        source,
        &[(2, "99", '2'), (3, "101", '3'), (4, "99", '4')],
        0,
        fresh(),
    );
    let result = evaluate_entry_condition(artifact, &transient).expect("transient recross");
    assert_eq!(result.truth, ConditionTruth::Unsatisfied);
    assert!(!result.fold_state.crypto[0].latched);
}

#[test]
fn crypto_outcome_honors_strict_and_owned_band_boundaries() {
    let strike = Some(dec("100"));
    let price = dec("100");
    assert_eq!(
        crypto_outcome(PriceComparator::GreaterThan, strike, None, price),
        Some(OutcomeSide::No)
    );
    assert_eq!(
        crypto_outcome(PriceComparator::GreaterThanOrEqual, strike, None, price),
        Some(OutcomeSide::Yes)
    );

    let band = PriceComparator::Between {
        hi: dec("110"),
        lower: PriceBoundaryInclusion::Inclusive,
        upper: PriceBoundaryInclusion::Exclusive,
    };
    assert_eq!(crypto_outcome(band, strike, None, dec("100")), Some(OutcomeSide::Yes));
    assert_eq!(crypto_outcome(band, strike, None, dec("110")), Some(OutcomeSide::No));
}

#[test]
fn all_prefers_unsatisfied_over_unavailable() {
    let children = vec![
        node(1, ConditionTruth::Unavailable(ConditionUnavailableReason::InputMissing)),
        node(2, ConditionTruth::Unsatisfied),
    ];
    assert_eq!(
        composite_truth(&children, CompositeKind::All),
        (ConditionTruth::Unsatisfied, Some(2))
    );
}

#[test]
fn any_prefers_satisfied_over_unavailable() {
    let children = vec![
        node(1, ConditionTruth::Unavailable(ConditionUnavailableReason::InputMissing)),
        node(2, ConditionTruth::Satisfied),
    ];
    assert_eq!(
        composite_truth(&children, CompositeKind::Any),
        (ConditionTruth::Satisfied, Some(2))
    );
    assert_ne!(EntryConditionState::Qualified, EntryConditionState::Consumed);
}

#[test]
fn composite_truth_tables_are_total_and_deterministic() {
    let unavailable = ConditionTruth::Unavailable(ConditionUnavailableReason::InputMissing);
    let truths = [ConditionTruth::Satisfied, ConditionTruth::Unsatisfied, unavailable];
    for left in &truths {
        for right in &truths {
            let children = vec![node(1, left.clone()), node(2, right.clone())];
            let all = composite_truth(&children, CompositeKind::All);
            let any = composite_truth(&children, CompositeKind::Any);
            let expected_all = if left == &ConditionTruth::Unsatisfied {
                (ConditionTruth::Unsatisfied, Some(1))
            } else if right == &ConditionTruth::Unsatisfied {
                (ConditionTruth::Unsatisfied, Some(2))
            } else if matches!(left, ConditionTruth::Unavailable(_)) {
                (left.clone(), Some(1))
            } else if matches!(right, ConditionTruth::Unavailable(_)) {
                (right.clone(), Some(2))
            } else {
                (ConditionTruth::Satisfied, None)
            };
            let expected_any = if left == &ConditionTruth::Satisfied {
                (ConditionTruth::Satisfied, Some(1))
            } else if right == &ConditionTruth::Satisfied {
                (ConditionTruth::Satisfied, Some(2))
            } else if matches!(left, ConditionTruth::Unavailable(_)) {
                (left.clone(), Some(1))
            } else if matches!(right, ConditionTruth::Unavailable(_)) {
                (right.clone(), Some(2))
            } else {
                (ConditionTruth::Unsatisfied, None)
            };
            assert_eq!(all, expected_all);
            assert_eq!(any, expected_any);
        }
    }
}

#[test]
fn same_pit_inputs_produce_identical_evaluation_hashes() {
    let artifact = artifact(no_confirmation());
    let input = input(&artifact, timestamp());
    let live = evaluate_entry_condition(&artifact, &input).expect("live evaluation");
    let replay = evaluate_entry_condition(&artifact, &input).expect("replay evaluation");

    assert_eq!(live, replay);
    assert_eq!(live.truth, ConditionTruth::Satisfied);
}

#[test]
fn binding_drift_fails_closed() {
    let artifact = artifact(no_confirmation());
    let mut drifted = input(&artifact, timestamp());
    drifted.binding.token_id = Ident::new("other-token");

    let evaluation = evaluate_entry_condition(&artifact, &drifted).expect("evaluation");

    assert_eq!(
        evaluation.truth,
        ConditionTruth::Unavailable(ConditionUnavailableReason::BindingDrift)
    );
}

#[test]
fn confirmation_resets_after_gap_or_unavailable() {
    let artifact = artifact(ConfirmationPolicy {
        required_continuous_ms: 2_000,
        max_observation_gap_ms: 1_000,
    });
    let started_at = timestamp();
    let first = evaluate_entry_condition(&artifact, &input(&artifact, started_at))
        .expect("first evaluation");
    let first_decision = decide_entry_condition_state(
        EntryConditionState::Waiting,
        None,
        None,
        None,
        artifact.confirmation,
        &first.truth,
        continuity_hash(&first),
        started_at,
    );
    assert_eq!(first_decision.state, EntryConditionState::Confirming);

    let qualified_at = after(2_000);
    let qualified = evaluate_entry_condition(&artifact, &input(&artifact, qualified_at))
        .expect("qualified evaluation");
    let qualified_decision = decide_entry_condition_state(
        EntryConditionState::Confirming,
        Some(started_at),
        Some(continuity_hash(&first)),
        Some(after(1_000)),
        artifact.confirmation,
        &qualified.truth,
        continuity_hash(&qualified),
        qualified_at,
    );
    assert_eq!(qualified_decision.state, EntryConditionState::Qualified);

    let after_gap = after(4_000);
    let gap_evaluation = evaluate_entry_condition(&artifact, &input(&artifact, after_gap))
        .expect("gap evaluation");
    let gap_decision = decide_entry_condition_state(
        EntryConditionState::Qualified,
        Some(started_at),
        Some(continuity_hash(&qualified)),
        Some(qualified_at),
        artifact.confirmation,
        &gap_evaluation.truth,
        continuity_hash(&gap_evaluation),
        after_gap,
    );
    assert_eq!(gap_decision.state, EntryConditionState::Confirming);
    assert_eq!(gap_decision.confirmation_started_at, Some(after_gap));

    let mut drifted = input(&artifact, after_gap);
    drifted.binding.token_id = Ident::new("drifted");
    let unavailable = evaluate_entry_condition(&artifact, &drifted).expect("unavailable");
    let unavailable_decision = decide_entry_condition_state(
        gap_decision.state,
        gap_decision.confirmation_started_at,
        Some(continuity_hash(&gap_evaluation)),
        Some(after_gap),
        artifact.confirmation,
        &unavailable.truth,
        continuity_hash(&unavailable),
        after_gap,
    );
    assert_eq!(unavailable_decision.state, EntryConditionState::Unavailable);
    assert_eq!(unavailable_decision.confirmation_started_at, None);
}

#[test]
fn crypto_recross_revokes_and_cross_source_input_cannot_substitute() {
    let evaluated_at = timestamp();
    let frozen_source = source(CHAINLINK, "CHAINLINK_DATA_STREAMS:BTC-USD");
    let artifact = up_vs_reference(&frozen_source, 2_000);
    let chainlink = CryptoPriceInput {
        source: frozen_source,
        reports: vec![
            CryptoPriceReportInput {
                source_sequence: 0,
                price: dec("99"),
                event_at: after(-1),
                available_at: after(-1),
                report_hash: hash('c'),
            },
            CryptoPriceReportInput {
                source_sequence: 1,
                price: dec("101"),
                event_at: evaluated_at,
                available_at: evaluated_at,
                report_hash: hash('d'),
            },
        ],
        gap_generation: 0,
        source_healthy: true,
    };
    let mut inputs = input(&artifact, evaluated_at);
    inputs.crypto.push(chainlink);
    let entered = evaluate_entry_condition(&artifact, &inputs).expect("entered evaluation");
    assert_eq!(entered.truth, ConditionTruth::Satisfied);

    inputs.fold_state = kept(&entered.fold_state);
    inputs.crypto[0].reports = vec![CryptoPriceReportInput {
        source_sequence: 2,
        price: dec("99"),
        event_at: evaluated_at,
        available_at: evaluated_at,
        report_hash: hash('e'),
    }];
    let recrossed = evaluate_entry_condition(&artifact, &inputs).expect("recross evaluation");
    assert_eq!(recrossed.truth, ConditionTruth::Unsatisfied);
    assert_eq!(
        decide_entry_condition_state(
            EntryConditionState::Qualified,
            Some(evaluated_at),
            Some(continuity_hash(&entered)),
            Some(evaluated_at),
            artifact.confirmation,
            &recrossed.truth,
            continuity_hash(&recrossed),
            evaluated_at,
        )
        .state,
        EntryConditionState::Waiting
    );

    inputs.crypto[0].source = source(BINANCE, "BINANCE_AGG_TRADE:BTCUSDT");
    let cross_source =
        evaluate_entry_condition(&artifact, &inputs).expect("cross-source evaluation");
    assert_eq!(
        cross_source.truth,
        ConditionTruth::Unavailable(ConditionUnavailableReason::InputMissing)
    );
}

#[test]
fn crypto_fold_baseline_transient_gap_correction_and_restart_are_deterministic() {
    let evaluated_at = timestamp();
    let frozen_source = source(CHAINLINK, "CHAINLINK_DATA_STREAMS:BTC-USD");
    let artifact = up_vs_reference(&frozen_source, 10_000);
    assert_crypto_baseline_and_transient_recross(&artifact, &frozen_source, evaluated_at);

    let initial = crypto_input_set(
        &artifact,
        evaluated_at,
        &frozen_source,
        &[(10, "99", 'a')],
        0,
        fresh(),
    );
    let persisted = evaluate_entry_condition(&artifact, &initial).expect("persisted baseline");
    let after_restart = crypto_input_set(
        &artifact,
        evaluated_at,
        &frozen_source,
        &[(10, "99", 'a'), (11, "101", 'b')],
        0,
        persisted.fold_state,
    );
    let live = evaluate_entry_condition(&artifact, &after_restart).expect("restart fold");

    let replay = crypto_input_set(
        &artifact,
        evaluated_at,
        &frozen_source,
        &[(10, "99", 'a'), (11, "101", 'b')],
        0,
        fresh(),
    );
    let replayed = evaluate_entry_condition(&artifact, &replay).expect("full replay fold");
    assert_eq!(live.tree, replayed.tree);
    assert_eq!(live.basis, replayed.basis);
    assert_eq!(live.truth, replayed.truth);
    assert_eq!(live.continuity, replayed.continuity);
    assert_eq!(continuity_hash(&live), continuity_hash(&replayed));
    assert_eq!(live.fold_state, replayed.fold_state);

    let same_side = crypto_input_set(
        &artifact,
        evaluated_at,
        &frozen_source,
        &[(12, "102", 'c')],
        0,
        kept(&live.fold_state),
    );
    let same_side_result =
        evaluate_entry_condition(&artifact, &same_side).expect("same-side tick");
    assert_eq!(same_side_result.truth, ConditionTruth::Satisfied);
    assert_eq!(continuity_hash(&same_side_result), continuity_hash(&live));

    let gap = crypto_input_set(
        &artifact,
        evaluated_at,
        &frozen_source,
        &[(13, "103", 'd')],
        1,
        kept(&same_side_result.fold_state),
    );
    let after_gap = evaluate_entry_condition(&artifact, &gap).expect("gap reset");
    assert_eq!(after_gap.truth, ConditionTruth::Unsatisfied);
    assert!(!after_gap.fold_state.crypto[0].latched);
    assert_ne!(continuity_hash(&after_gap), continuity_hash(&same_side_result));

    let correction = crypto_input_set(
        &artifact,
        evaluated_at,
        &frozen_source,
        &[(11, "99", 'e')],
        0,
        live.fold_state,
    );
    let corrected =
        evaluate_entry_condition(&artifact, &correction).expect("same-sequence correction");
    assert_eq!(corrected.truth, ConditionTruth::Unsatisfied);
    assert!(!corrected.fold_state.crypto[0].latched);
}

fn station(
    source: &EntryConditionSourceBinding,
    temperature_statistic: WeatherTemperatureStatistic,
) -> RequiredWeather {
    RequiredWeather {
        source: source.clone(),
        station: Ident::new("KJFK"),
        local_date: LOCAL_DATE,
        temperature_statistic,
    }
}

fn weather_artifact(
    source: &EntryConditionSourceBinding,
    temperature_statistic: WeatherTemperatureStatistic,
    predicate: WeatherPredicate,
) -> EntryConditionArtifactV1 {
    market_event_artifact(
        MarketEventCondition::WeatherDailyTemperature(WeatherCondition {
            key: station(source, temperature_statistic),
            unit: TemperatureUnit::Fahrenheit,
            predicate,
            proxy_methodology_hash: hash('f'),
            max_input_age_ms: 2_000,
        }),
        source.clone(),
    )
}

/// An observation, rounded to the whole degree of both units.
fn observation(
    source: &EntryConditionSourceBinding,
    temperature_statistic: WeatherTemperatureStatistic,
    whole_celsius: &str,
    whole_fahrenheit: &str,
    report: char,
) -> WeatherDailyTemperatureInput {
    WeatherDailyTemperatureInput {
        key: station(source, temperature_statistic),
        whole_celsius: dec(whole_celsius),
        whole_fahrenheit: dec(whole_fahrenheit),
        observation_time: timestamp(),
        available_at: timestamp(),
        revision: 0,
        day_closed: false,
        report_hash: hash(report),
        gap_generation: 0,
        source_healthy: true,
    }
}

#[test]
fn weather_maximum_yes_and_bounded_no_follow_corrected_whole_degree_extreme() {
    let evaluated_at = timestamp();
    let frozen_source = source(AVIATION_WEATHER, "AVIATION_WEATHER:KJFK");
    let yes_artifact = weather_artifact(
        &frozen_source,
        WeatherTemperatureStatistic::Maximum,
        WeatherPredicate::EnteredBand {
            band: TemperatureBand {
                lower_inclusive: Some(dec("80")),
                upper_inclusive: Some(dec("81")),
            },
        },
    );
    // 26.7 degrees Celsius.
    let weather =
        observation(&frozen_source, WeatherTemperatureStatistic::Maximum, "27", "80", '1');
    let mut yes_input = input(&yes_artifact, evaluated_at);
    yes_input.weather.push(weather.clone());
    let entered =
        evaluate_entry_condition(&yes_artifact, &yes_input).expect("weather YES evaluation");
    assert_eq!(entered.truth, ConditionTruth::Satisfied);

    yes_input.weather[0].whole_celsius = dec("25");
    yes_input.weather[0].whole_fahrenheit = dec("77");
    yes_input.weather[0].revision = 1;
    yes_input.weather[0].report_hash = hash('2');
    let corrected =
        evaluate_entry_condition(&yes_artifact, &yes_input).expect("weather correction evaluation");
    assert_eq!(corrected.truth, ConditionTruth::Unsatisfied);

    let no_artifact = weather_artifact(
        &frozen_source,
        WeatherTemperatureStatistic::Maximum,
        WeatherPredicate::CrossedTerminalBound { terminal_bound: dec("80") },
    );
    let mut no_input = input(&no_artifact, evaluated_at);
    // 27.3 degrees Celsius.
    no_input.weather.push(WeatherDailyTemperatureInput {
        whole_celsius: dec("27"),
        whole_fahrenheit: dec("81"),
        ..weather
    });
    let exceeded =
        evaluate_entry_condition(&no_artifact, &no_input).expect("bounded NO evaluation");
    assert_eq!(exceeded.truth, ConditionTruth::Satisfied);
}

#[test]
fn weather_minimum_crosses_lower_terminal_bound_and_rejects_maximum_input() {
    let evaluated_at = timestamp();
    let frozen_source = source(AVIATION_WEATHER, "AVIATION_WEATHER:KJFK");
    let artifact = weather_artifact(
        &frozen_source,
        WeatherTemperatureStatistic::Minimum,
        WeatherPredicate::CrossedTerminalBound { terminal_bound: dec("60") },
    );
    let mut inputs = input(&artifact, evaluated_at);
    inputs.weather.push(observation(
        &frozen_source,
        WeatherTemperatureStatistic::Minimum,
        "15",
        "59",
        '5',
    ));
    let crossed = evaluate_entry_condition(&artifact, &inputs).expect("minimum evaluation");
    assert_eq!(crossed.truth, ConditionTruth::Satisfied);

    inputs.weather[0].key.temperature_statistic = WeatherTemperatureStatistic::Maximum;
    let wrong_statistic =
        evaluate_entry_condition(&artifact, &inputs).expect("statistic isolation");
    assert_eq!(
        wrong_statistic.truth,
        ConditionTruth::Unavailable(ConditionUnavailableReason::InputMissing)
    );
}

#[test]
fn weather_open_upper_no_requires_observation_day_close() {
    let evaluated_at = timestamp();
    let frozen_source = source(AVIATION_WEATHER, "AVIATION_WEATHER:KJFK");
    let artifact = weather_artifact(
        &frozen_source,
        WeatherTemperatureStatistic::Maximum,
        WeatherPredicate::ClosedOutsideBand {
            band: TemperatureBand { lower_inclusive: Some(dec("90")), upper_inclusive: None },
        },
    );
    let mut inputs = input(&artifact, evaluated_at);
    // 29.4 degrees Celsius.
    inputs.weather.push(observation(
        &frozen_source,
        WeatherTemperatureStatistic::Maximum,
        "29",
        "85",
        '3',
    ));
    let still_open = evaluate_entry_condition(&artifact, &inputs).expect("open-day evaluation");
    assert_eq!(still_open.truth, ConditionTruth::Unsatisfied);

    inputs.weather[0].day_closed = true;
    inputs.weather[0].revision = 1;
    inputs.weather[0].report_hash = hash('4');
    let closed = evaluate_entry_condition(&artifact, &inputs).expect("day-close evaluation");
    assert_eq!(closed.truth, ConditionTruth::Satisfied);

    inputs.weather[0].source_healthy = false;
    let unhealthy = evaluate_entry_condition(&artifact, &inputs).expect("source-health evaluation");
    assert_eq!(
        unhealthy.truth,
        ConditionTruth::Unavailable(ConditionUnavailableReason::SourceUnhealthy {
            source_id: Ident::new(AVIATION_WEATHER),
        })
    );
}

fn price_leaf() -> EntryConditionV1 {
    EntryConditionV1::Price(PriceCondition {
        token_id: Ident::new("token"),
        comparison: PriceComparison::AtOrBelow,
        threshold: dec("0.5"),
        max_input_age_ms: 1_000,
    })
}

fn quote(price: &str, observed_at: Timestamp) -> ExecutablePriceInput {
    ExecutablePriceInput {
        token_id: Ident::new("token"),
        price: dec(price),
        observed_at,
        available_at: observed_at,
        gap_generation: 0,
    }
}

fn price_truth(quotes: Vec<ExecutablePriceInput>) -> ConditionTruth {
    let artifact = rooted(no_confirmation(), price_leaf());
    let mut inputs = input(&artifact, after(5_000));
    inputs.prices = quotes;
    evaluate_entry_condition(&artifact, &inputs).expect("price evaluation").truth
}

#[test]
fn price_leaves_need_a_fresh_quote() {
    assert_eq!(price_truth(vec![quote("0.50", after(4_000))]), ConditionTruth::Satisfied);
    assert_eq!(price_truth(vec![quote("0.51", after(4_000))]), ConditionTruth::Unsatisfied);
    assert_eq!(
        price_truth(vec![quote("0.50", after(3_999))]),
        ConditionTruth::Unavailable(ConditionUnavailableReason::InputStale)
    );
    assert_eq!(
        price_truth(vec![quote("0.50", after(5_001))]),
        ConditionTruth::Unavailable(ConditionUnavailableReason::ClockSkew)
    );
    assert_eq!(
        price_truth(Vec::new()),
        ConditionTruth::Unavailable(ConditionUnavailableReason::InputMissing)
    );
}

#[test]
fn factor_leaves_compare_the_chosen_measure() {
    let condition = FactorCondition {
        definition_id: 8,
        definition_hash: hash('8'),
        model_version_id: 3,
        measure: FactorMeasure::Normalized,
        comparison: PriceComparison::AtOrAbove,
        threshold: dec("0.7"),
        minimum_confidence: dec("0.6"),
        max_input_age_ms: 1_000,
    };
    let artifact = rooted(no_confirmation(), EntryConditionV1::Factor(condition));
    let mut inputs = input(&artifact, timestamp());
    inputs.factors.push(FactorSnapshotInput {
        definition_id: 8,
        definition_hash: hash('8'),
        model_version_id: 3,
        raw_value: dec("0.1"),
        normalized_value: dec("0.8"),
        confidence: dec("0.6"),
        observed_at: timestamp(),
        available_at: timestamp(),
        snapshot_hash: hash('7'),
    });
    let met = evaluate_entry_condition(&artifact, &inputs).expect("factor evaluation");
    assert_eq!(met.truth, ConditionTruth::Satisfied);
    inputs.factors[0].confidence = dec("0.59");
    let doubtful = evaluate_entry_condition(&artifact, &inputs).expect("factor evaluation");
    assert_eq!(doubtful.truth, ConditionTruth::Unsatisfied);
    inputs.factors[0].definition_hash = hash('6');
    let foreign = evaluate_entry_condition(&artifact, &inputs).expect("factor evaluation");
    assert_eq!(
        foreign.truth,
        ConditionTruth::Unavailable(ConditionUnavailableReason::FactorDefinitionMismatch)
    );
}

#[test]
fn nested_conditions_number_their_nodes_in_order() {
    let artifact = rooted(
        no_confirmation(),
        EntryConditionV1::All {
            children: vec![
                EntryConditionV1::Any {
                    children: vec![
                        price_leaf(),
                        EntryConditionV1::Clock(ClockCondition { deadline_at: timestamp() }),
                    ],
                },
                EntryConditionV1::Clock(ClockCondition { deadline_at: after(1) }),
            ],
        },
    );
    let evaluation =
        evaluate_entry_condition(&artifact, &input(&artifact, timestamp())).expect("evaluation");
    assert_eq!(evaluation.basis, EvaluationBasis::Evidence);
    assert_eq!(evaluation.truth, ConditionTruth::Unsatisfied);
    let root = &evaluation.tree;
    assert_eq!(root.node_id, 0);
    assert_eq!(root.children[0].node_id, 1);
    assert_eq!(root.children[0].truth, ConditionTruth::Satisfied);
    assert_eq!(root.children[0].decisive_child_id, Some(3));
    assert_eq!(root.children[0].children[0].node_id, 2);
    assert_eq!(root.children[1].node_id, 4);
    assert_eq!(root.decisive_child_id, Some(4));
}

#[test]
fn an_unavailable_binding_clears_every_latch() {
    let evaluated_at = timestamp();
    let frozen_source = source(CHAINLINK, "CHAINLINK_DATA_STREAMS:BTC-USD");
    let artifact = up_vs_reference(&frozen_source, 2_000);
    let entered = evaluate_entry_condition(
        &artifact,
        &crypto_input_set(
            &artifact,
            evaluated_at,
            &frozen_source,
            &[(1, "99", '1'), (2, "101", '2')],
            0,
            fresh(),
        ),
    )
    .expect("entered evaluation");
    assert!(entered.fold_state.crypto[0].latched);
    let mut lost = input(&artifact, evaluated_at);
    lost.fold_state = entered.fold_state;
    lost.binding_unavailable_reason = Some(ConditionUnavailableReason::CatalogSnapshotMismatch);
    let evaluation = evaluate_entry_condition(&artifact, &lost).expect("evaluation");
    assert_eq!(
        evaluation.truth,
        ConditionTruth::Unavailable(ConditionUnavailableReason::CatalogSnapshotMismatch)
    );
    assert_eq!(evaluation.basis, EvaluationBasis::Binding);
    assert!(!evaluation.fold_state.crypto[0].latched);
}

#[test]
fn terminal_states_stay() {
    for state in [
        EntryConditionState::Consumed,
        EntryConditionState::Expired,
        EntryConditionState::Invalidated,
    ] {
        let decision = decide_entry_condition_state(
            state,
            None,
            None,
            None,
            no_confirmation(),
            &ConditionTruth::Satisfied,
            hash('1'),
            timestamp(),
        );
        assert_eq!(decision.state, state);
    }
}

#[test]
fn folding_in_two_stretches_stores_the_same_folds() {
    let evaluated_at = timestamp();
    let frozen = source(CHAINLINK, "CHAINLINK_DATA_STREAMS:BTC-USD");
    let artifact = up_vs_reference(&frozen, 10_000);
    let condition = CryptoSubjectPredicateEntered {
        source: frozen.clone(),
        comparator: PriceComparator::UpVsReference,
        strike: None,
        reference_price: Some(dec("100")),
        recommended_outcome: OutcomeSide::Yes,
        max_input_age_ms: 10_000,
    };
    let reports = [(1, "99", 'a'), (2, "101", 'b'), (3, "98", 'c'), (4, "102", 'd')];
    let stretch = |part: &[(u64, &str, char)]| {
        let mut inputs = crypto_input_set(&artifact, evaluated_at, &frozen, part, 0, fresh());
        inputs.crypto.remove(0)
    };
    let mut whole = fresh();
    let at_once = fold_crypto_reports(7, &condition, &stretch(&reports), &mut whole);
    assert!(at_once.latched);
    for cut in 0..=reports.len() {
        let mut parts = fresh();
        fold_crypto_reports(7, &condition, &stretch(&reports[..cut]), &mut parts);
        let last = fold_crypto_reports(7, &condition, &stretch(&reports[cut..]), &mut parts);
        assert_eq!(last, at_once);
        assert_eq!(parts, whole);
    }
}

#[test]
fn restarts_read_on_from_the_last_report() {
    let evaluated_at = timestamp();
    let frozen = source(CHAINLINK, "CHAINLINK_DATA_STREAMS:BTC-USD");
    let artifact = up_vs_reference(&frozen, 10_000);
    let reports = [(1, "101", 'a'), (2, "99", 'b'), (3, "101", 'c'), (4, "102", 'd')];
    let inputs = |part: &[(u64, &str, char)], folds| {
        crypto_input_set(&artifact, evaluated_at, &frozen, part, 0, folds)
    };
    let replayed = evaluate_entry_condition(&artifact, &inputs(&reports, fresh())).expect("replay");
    assert_eq!(replayed.truth, ConditionTruth::Satisfied);
    for seen in 1..=reports.len() {
        let first = inputs(&reports[..seen], fresh());
        let persisted = evaluate_entry_condition(&artifact, &first).expect("first").fold_state;
        let restart = inputs(&reports[seen - 1..], persisted);
        let resumed = evaluate_entry_condition(&artifact, &restart).expect("restart");
        assert_eq!(resumed.truth, replayed.truth);
        assert_eq!(resumed.basis, replayed.basis);
        assert_eq!(resumed.continuity, replayed.continuity);
        assert_eq!(resumed.fold_state, replayed.fold_state);
        assert_eq!(resumed.tree == replayed.tree, seen == 1);
    }
}
