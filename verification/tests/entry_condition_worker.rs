use quant_pivot_execution::decimal::Decimal;
use quant_pivot_execution::entry_condition::model::{
    ClockCondition, ConditionTruth, ConditionUnavailableReason, ConfirmationPolicy,
    CryptoSubjectPredicateEntered, EntryConditionArtifactV1, EntryConditionBinding,
    EntryConditionFoldState, EntryConditionInputSet, EntryConditionSourceBinding,
    EntryConditionV1, FactorBinding, FactorCondition, FactorMeasure, MarketEventCondition,
    PriceComparator, PriceCondition, RequiredWeather, WeatherTemperatureStatistic,
};
use quant_pivot_execution::entry_condition::state::EntryConditionState;
use quant_pivot_execution::entry_condition::tree::evaluate_entry_condition;
use quant_pivot_execution::entry_condition_inputs::{
    binding_revision_basis, committed_crypto_reports, committed_crypto_row, group_factors,
    load_crypto, load_factors, load_prices, load_weather, model_is_active, plan_crypto_query,
    resolve_binding, BindingEvidence, BoundLinkage, BoundPolicy, BoundRecommendation,
    BoundSelection, CheckpointDefect, CryptoCheckpoint, CryptoFacts, CryptoPriceProjection,
    CryptoRow, FactorBundle, FactorValue, LinkageStatus, RequiredInputs, SeenCheckpoint,
    TokenQuote, WeatherProjection,
};
use quant_pivot_execution::entry_condition_worker::{
    artifact_defect, artifact_reference, chrono_duration, earliest_future_clock_deadline,
    lease_until, next_evaluation_at, persist_evaluation, wake_after, EvaluationHashes,
    LeasedInstance, StoredConditionArtifact,
};
use quant_pivot_execution::error::ExecutionError;
use quant_pivot_execution::time::Timestamp;
use quant_pivot_execution::types::{ContentHash, Ident, OutcomeSide, PriceComparison};

const SOURCE: &str = "binance_agg_trade";
const INSTRUMENT: &str = "BINANCE_AGG_TRADE:BTCUSDT";

fn dec(text: &str) -> Decimal {
    Decimal::parse(text).expect("decimal")
}

fn hash(seed: char) -> ContentHash {
    let digit = u128::from(seed.to_digit(16).expect("hexadecimal digit"));
    let word = digit * (u128::MAX / 15);
    ContentHash { high: word, low: word }
}

fn millis(value: i64) -> Timestamp {
    Timestamp::from_millis(value).expect("time")
}

/// The place of a trade, and a stand-in for the hash of that place.
fn checkpoint(sequence: u64) -> CryptoCheckpoint {
    let word = u128::from(sequence);
    CryptoCheckpoint { order: word, hash: ContentHash { high: word, low: word } }
}

fn projection() -> CryptoPriceProjection {
    CryptoPriceProjection {
        source_id: Ident::new(SOURCE),
        instrument_key: Ident::new(INSTRUMENT),
        report_hash: hash('b'),
        gap_generation: 2,
        source_healthy: true,
        committed: checkpoint(2),
        committed_checkpoint_hash: checkpoint(2).hash,
        head_defect: None,
        query_frontier: Ok((2, 2_000)),
    }
}

fn row(gap_generation: u64, source_sequence: u64, seed: char) -> CryptoRow {
    let at = i64::try_from(source_sequence).expect("sequence") * 1_000;
    CryptoRow {
        source_id: Ident::new(SOURCE),
        instrument_key: Ident::new(INSTRUMENT),
        gap_generation,
        source_sequence,
        price: dec("50000"),
        event_time: at,
        published_at: at,
        available_at: at,
        report_hash: hash(seed),
        defect: None,
        checkpoint: Ok(checkpoint(source_sequence)),
    }
}

#[test]
fn committed_prefix_filters_orphans() {
    let projection = projection();
    let mut seen: Vec<SeenCheckpoint> = Vec::new();
    let prior = row(1, 1, 'a');
    let committed = row(2, 2, 'b');
    let ack_only = row(2, 3, 'c');
    let future_generation = row(3, 4, 'd');

    assert!(committed_crypto_row(&prior, &projection, 2, &mut seen)
        .expect("prior generation")
        .is_none());
    assert!(committed_crypto_row(&committed, &projection, 2, &mut seen)
        .expect("committed row")
        .is_some());
    assert!(committed_crypto_row(&ack_only, &projection, 2, &mut seen)
        .expect("ACK-only row")
        .is_none());
    assert!(committed_crypto_row(&future_generation, &projection, 2, &mut seen)
        .expect("future generation")
        .is_none());
}

#[test]
fn equal_checkpoint_equivocates() {
    let projection = projection();
    let mut seen: Vec<SeenCheckpoint> = Vec::new();
    let first = row(2, 1, 'a');
    let equivocation = row(2, 1, 'e');
    assert!(committed_crypto_row(&first, &projection, 2, &mut seen)
        .expect("first checkpoint")
        .is_some());
    assert!(committed_crypto_row(&equivocation, &projection, 2, &mut seen).is_err());
    let mut frontier_seen: Vec<SeenCheckpoint> = Vec::new();
    assert!(
        committed_crypto_row(&row(2, 2, 'f'), &projection, 2, &mut frontier_seen).is_err()
    );
}

#[test]
fn invalid_crypto_time_fails() {
    let projection = projection();
    let mut invalid = row(2, 1, 'a');
    invalid.event_time = i64::MAX;
    let mut seen: Vec<SeenCheckpoint> = Vec::new();
    assert!(committed_crypto_row(&invalid, &projection, 2, &mut seen).is_err());
}

#[test]
fn rows_without_a_place_are_refused() {
    let mut seen: Vec<SeenCheckpoint> = Vec::new();
    let mut lost = row(2, 1, 'a');
    lost.checkpoint = Err(CheckpointDefect::Missing("no trade id".to_owned()));
    assert!(matches!(
        committed_crypto_row(&lost, &projection(), 2, &mut seen),
        Err(ExecutionError::InvariantViolation { entity: "quant_crypto_price_report", .. })
    ));
    assert!(seen.is_empty());
}

#[test]
fn reports_come_out_in_their_sources_order() {
    let rows = vec![row(2, 2, 'b'), row(2, 1, 'a'), row(2, 2, 'b'), row(2, 3, 'c')];
    let reports = committed_crypto_reports(rows, &projection(), 2).expect("reports");
    let sequences: Vec<u64> = reports.iter().map(|report| report.source_sequence).collect();
    assert_eq!(sequences, vec![1, 2]);
    assert_eq!(reports[0].event_at, millis(1_000));
}

fn source() -> EntryConditionSourceBinding {
    EntryConditionSourceBinding {
        source_id: Ident::new(SOURCE),
        instrument_key: Ident::new(INSTRUMENT),
        binding_hash: hash('1'),
    }
}

#[test]
fn crypto_inputs_are_loaded_behind_the_frontier() {
    let query =
        plan_crypto_query(&projection(), &source(), &Vec::new(), millis(500), millis(5_000))
            .expect("query");
    assert_eq!(query.gap_generation, 2);
    assert_eq!(query.committed_source_sequence, 2);
    assert_eq!(query.committed_published_at_ms, 2_000);
    assert_eq!(query.decision_at_ms, 5_000);
    let input = load_crypto(
        CryptoFacts {
            source: source(),
            projection: projection(),
            rows: vec![row(2, 1, 'a'), row(2, 2, 'b'), row(2, 3, 'c')],
        },
        &Vec::new(),
        millis(500),
        millis(5_000),
    )
    .expect("input");
    assert_eq!(input.reports.len(), 2);
    assert_eq!(input.gap_generation, 2);
    assert!(input.source_healthy);
}

#[test]
fn a_foreign_checkpoint_hash_is_refused() {
    let mut drifted = projection();
    drifted.committed_checkpoint_hash = hash('0');
    assert!(plan_crypto_query(&drifted, &source(), &Vec::new(), millis(0), millis(5_000)).is_err());
    let mut headless = projection();
    headless.head_defect = Some("head differs".to_owned());
    assert!(plan_crypto_query(&headless, &source(), &Vec::new(), millis(0), millis(5_000)).is_err());
}

#[test]
fn prices_need_an_ask_and_a_time() {
    let quote = |best_ask: Option<Decimal>, timestamp_ms: u64| TokenQuote {
        token_id: Ident::new("token"),
        best_ask,
        timestamp_ms,
        gap_generation: 4,
    };
    let prices =
        load_prices(&vec![quote(Some(dec("0.4")), 1_000), quote(None, 1_000), quote(Some(dec("0.4")), u64::MAX)]);
    assert_eq!(prices.len(), 1);
    assert_eq!(prices[0].observed_at, millis(1_000));
    assert_eq!(prices[0].gap_generation, 4);
}

fn factor(definition_id: u128, model_version_id: u128) -> FactorCondition {
    FactorCondition {
        definition_id,
        definition_hash: hash('8'),
        model_version_id,
        measure: FactorMeasure::Raw,
        comparison: PriceComparison::AtOrAbove,
        threshold: dec("1"),
        minimum_confidence: dec("0"),
        max_input_age_ms: 1,
    }
}

#[test]
fn factors_are_grouped_by_model() {
    let groups = group_factors(&vec![factor(5, 2), factor(6, 1), factor(7, 2), factor(5, 2)]);
    let pairs: Vec<(u128, Vec<u128>)> = groups
        .into_iter()
        .map(|group| (group.model_version_id, group.definition_ids))
        .collect();
    assert!(pairs.iter().any(|(model, ids)| *model == 1 && *ids == vec![6]));
    assert!(pairs.iter().any(|(model, ids)| *model == 2 && ids.contains(&5) && ids.contains(&7)));
    assert_eq!(pairs.len(), 2);
}

#[test]
fn late_factor_bundles_are_refused() {
    let bundle = |available_at: Timestamp| FactorBundle {
        model_version_id: 1,
        observed_at: millis(0),
        available_at,
        snapshot_hash: hash('7'),
        values: vec![FactorValue {
            definition_id: 5,
            definition_hash: hash('8'),
            raw_value: Some(dec("3")),
            normalized_score: Some(dec("0.5")),
            confidence: dec("0.9"),
        }],
    };
    let inputs = load_factors(&vec![bundle(millis(10))], millis(10)).expect("inputs");
    assert_eq!(inputs.len(), 1);
    assert!(inputs[0].raw_value.same(dec("3")));
    assert!(load_factors(&vec![bundle(millis(11))], millis(10)).is_err());
}

#[test]
fn weather_projections_become_inputs() {
    let required = RequiredWeather {
        source: source(),
        station: Ident::new("KJFK"),
        local_date: 20_647,
        temperature_statistic: WeatherTemperatureStatistic::Maximum,
    };
    let projection = |revision: i64| WeatherProjection {
        source_id: Ident::new(SOURCE),
        instrument_key: Ident::new(INSTRUMENT),
        station: Ident::new("KJFK"),
        local_date: 20_647,
        temperature_statistic: WeatherTemperatureStatistic::Maximum,
        whole_celsius: dec("27"),
        whole_fahrenheit: dec("80"),
        last_observation_time: millis(1),
        available_at: millis(2),
        revision,
        day_closed: false,
        last_report_hash: hash('6'),
        gap_generation: 0,
        source_healthy: true,
    };
    let input = load_weather(&required, projection(3)).expect("input");
    assert_eq!(input.revision, 3);
    assert!(input.whole_fahrenheit.same(dec("80")));
    assert!(load_weather(&required, projection(-1)).is_err());
}

#[test]
fn required_inputs_are_collected_once() {
    let price = || {
        EntryConditionV1::Price(PriceCondition {
            token_id: Ident::new("token"),
            comparison: PriceComparison::AtOrBelow,
            threshold: dec("0.5"),
            max_input_age_ms: 1,
        })
    };
    let crypto = || EntryConditionV1::MarketEvent {
        event: MarketEventCondition::CryptoSubjectPredicateEntered(CryptoSubjectPredicateEntered {
            source: source(),
            comparator: PriceComparator::UpVsReference,
            strike: None,
            reference_price: Some(dec("1")),
            recommended_outcome: OutcomeSide::Yes,
            max_input_age_ms: 1,
        }),
    };
    let mut inputs = RequiredInputs::new();
    inputs.collect(&EntryConditionV1::All {
        children: vec![
            price(),
            crypto(),
            EntryConditionV1::Any { children: vec![price(), crypto(), EntryConditionV1::Factor(factor(5, 1))] },
        ],
    });
    assert_eq!(inputs.prices.len(), 1);
    assert_eq!(inputs.crypto.len(), 1);
    assert_eq!(inputs.factors.len(), 1);
    assert!(inputs.weather.is_empty());
}

fn binding() -> EntryConditionBinding {
    EntryConditionBinding {
        recommendation_id: 1,
        market_id: Ident::new("market"),
        token_id: Ident::new("token"),
        outcome_side: OutcomeSide::Yes,
        market_linkage_id: Some(9),
        market_linkage_hash: Some(hash('c')),
        catalog_snapshot_id: 2,
        catalog_snapshot_hash: hash('a'),
        model_version_id: 3,
        decision_policy_snapshot_id: 4,
        factor_bindings: vec![FactorBinding { definition_id: 5, definition_hash: hash('8') }],
        source_bindings: Vec::new(),
    }
}

fn linkage() -> BoundLinkage {
    BoundLinkage {
        linkage_id: 9,
        market_id: Ident::new("market"),
        content_hash: hash('c'),
        status: LinkageStatus::Resolved,
    }
}

fn evidence() -> BindingEvidence {
    BindingEvidence {
        recommendation: Some(BoundRecommendation {
            market_id: Ident::new("market"),
            token_id: Ident::new("token"),
            outcome_side: OutcomeSide::Yes,
            market_selection_id: 2,
            model_version_id: 3,
            decision_policy_snapshot_id: 4,
        }),
        selection: Some(BoundSelection {
            selector_hash: hash('a'),
            decision_policy_snapshot_id: 4,
        }),
        linkage: Some(linkage()),
        latest_linkage: Some(linkage()),
        model_artifact_hash: Some(hash('d')),
        current_policy: Some(BoundPolicy {
            decision_policy_snapshot_id: 4,
            snapshot_hash: hash('e'),
        }),
        champions: vec![3],
        factors: vec![FactorBinding { definition_id: 5, definition_hash: hash('8') }],
    }
}

#[test]
fn each_lost_binding_has_its_reason() {
    assert_eq!(resolve_binding(&binding(), &evidence()), None);

    let mut moved = evidence();
    moved.recommendation = None;
    assert_eq!(
        resolve_binding(&binding(), &moved),
        Some(ConditionUnavailableReason::BindingDrift)
    );

    let mut reselected = evidence();
    reselected.selection =
        Some(BoundSelection { selector_hash: hash('0'), decision_policy_snapshot_id: 4 });
    assert_eq!(
        resolve_binding(&binding(), &reselected),
        Some(ConditionUnavailableReason::CatalogSnapshotMismatch)
    );

    let mut relinked = evidence();
    relinked.linkage = Some(BoundLinkage { status: LinkageStatus::Unresolved, ..linkage() });
    assert_eq!(
        resolve_binding(&binding(), &relinked),
        Some(ConditionUnavailableReason::MarketLinkageMismatch)
    );

    let mut redefined = evidence();
    redefined.factors = vec![FactorBinding { definition_id: 5, definition_hash: hash('0') }];
    assert_eq!(
        resolve_binding(&binding(), &redefined),
        Some(ConditionUnavailableReason::FactorDefinitionMismatch)
    );

    let mut dethroned = evidence();
    dethroned.champions = Vec::new();
    assert_eq!(
        resolve_binding(&binding(), &dethroned),
        Some(ConditionUnavailableReason::BindingDrift)
    );
}

#[test]
fn revision_basis_names_every_hash() {
    let basis = binding_revision_basis(&evidence());
    assert_eq!(basis.selector_hash, Some(hash('a')));
    assert_eq!(basis.linkage_hash, Some(hash('c')));
    assert_eq!(basis.model_artifact_hash, Some(hash('d')));
    assert_eq!(basis.policy_snapshot_hash, Some(hash('e')));
    assert_eq!(basis.factors.len(), 1);
    assert!(model_is_active(&vec![1, 3], 3));
    assert!(!model_is_active(&vec![1], 3));
}

fn clock(at: i64) -> EntryConditionV1 {
    EntryConditionV1::Clock(ClockCondition { deadline_at: millis(at) })
}

#[test]
fn the_next_deadline_is_evaluated_on_time() {
    let root = EntryConditionV1::All {
        children: vec![
            clock(9_000),
            EntryConditionV1::Any { children: vec![clock(1_000), clock(3_000)] },
        ],
    };
    assert_eq!(earliest_future_clock_deadline(&root, millis(1_000)), Some(millis(3_000)));
    assert_eq!(earliest_future_clock_deadline(&root, millis(9_000)), None);
    assert_eq!(next_evaluation_at(&root, millis(1_000), 5_000), Ok(millis(3_000)));
    assert_eq!(next_evaluation_at(&root, millis(1_000), 500), Ok(millis(1_500)));
    assert!(next_evaluation_at(&root, millis(1_000), u64::MAX).is_err());
}

#[test]
fn durations_have_to_fit() {
    assert_eq!(chrono_duration(7, "lease duration"), Ok(7));
    assert!(matches!(
        chrono_duration(u64::MAX, "lease duration"),
        Err(ExecutionError::Config { .. })
    ));
    assert_eq!(lease_until(millis(0), 2), Ok(millis(2_000)));
    assert_eq!(wake_after(10, None, millis(0)), 10_000_000);
    assert_eq!(wake_after(10, Some(millis(4)), millis(0)), 4_000_000);
    assert_eq!(wake_after(10, Some(millis(4)), millis(5)), 0);
}

#[test]
fn only_the_artifact_on_record_is_evaluated() {
    let stored = |content: char, canonical: char| {
        Some(StoredConditionArtifact {
            content_hash: hash(content),
            canonical_defect: None,
            canonical_hash: Ok(hash(canonical)),
        })
    };
    assert_eq!(artifact_defect(hash('1'), &stored('1', '1')), None);
    assert!(artifact_defect(hash('1'), &stored('2', '1')).is_some());
    assert!(artifact_defect(hash('1'), &stored('1', '2')).is_some());
    assert!(artifact_defect(hash('1'), &None).is_some());
    assert_eq!(artifact_reference(Some(1), Some(hash('1'))), Ok((1, hash('1'))));
    assert_eq!(
        artifact_reference(None, None),
        Err("conditional instance has no artifact id")
    );
    assert_eq!(
        artifact_reference(Some(1), None),
        Err("conditional instance has no artifact hash")
    );
}

#[test]
fn evaluations_are_persisted_with_their_lease() {
    let artifact = EntryConditionArtifactV1 {
        schema_version: 1,
        evaluator_version: 7,
        binding: binding(),
        confirmation: ConfirmationPolicy { required_continuous_ms: 0, max_observation_gap_ms: 0 },
        root: clock(0),
    };
    let input = EntryConditionInputSet {
        binding: binding(),
        binding_revision: hash('9'),
        binding_unavailable_reason: None,
        fold_state: EntryConditionFoldState { crypto: Vec::new() },
        evaluated_at: millis(1),
        prices: Vec::new(),
        factors: Vec::new(),
        crypto: Vec::new(),
        weather: Vec::new(),
    };
    let evaluation = evaluate_entry_condition(&artifact, &input).expect("evaluation");
    let applied = persist_evaluation(
        LeasedInstance {
            condition_instance_id: 11,
            revision: 5,
            lease_epoch: 6,
            state: EntryConditionState::Waiting,
            confirmation_started_at: None,
            continuity_hash: None,
            last_evaluated_at: None,
        },
        &artifact,
        evaluation,
        EvaluationHashes {
            evaluation_hash: hash('1'),
            input_fingerprint: hash('2'),
            continuity_hash: hash('3'),
        },
        Ok("{}".to_owned()),
        1_000,
        millis(1),
    )
    .expect("applied");
    assert_eq!(applied.expected_revision, 5);
    assert_eq!(applied.expected_lease_epoch, 6);
    assert_eq!(applied.state, EntryConditionState::Qualified);
    assert_eq!(applied.truth, ConditionTruth::Satisfied);
    assert_eq!(applied.next_evaluation_at, Some(millis(1_001)));
    assert_eq!(applied.evaluator_version, 7);
    assert_eq!(applied.tree_json, "{}");
}
