//! Conditions, their inputs and their evaluations.
use vstd::prelude::*;

use crate::decimal::{Decimal, Price, Usd};
use crate::time::Timestamp;
use crate::types::{
    ContentHash, FactorDefinitionId, Ident, MarketId, ModelVersionId, OutcomeSide,
    PolicySnapshotId, PriceComparison, RecommendationId, TokenId,
};

verus! {

/// A calendar day, as days since a fixed day.
pub type LocalDate = i32;

/// The source-native identity of a domain fact stream.
#[derive(Debug, PartialEq, Eq)]
pub struct EntryConditionSourceBinding {
    pub source_id: Ident,
    pub instrument_key: Ident,
    pub binding_hash: ContentHash,
}

impl Clone for EntryConditionSourceBinding {
    fn clone(&self) -> (r: Self)
        ensures
            r == *self,
    {
        EntryConditionSourceBinding {
            source_id: self.source_id.clone(),
            instrument_key: self.instrument_key.clone(),
            binding_hash: self.binding_hash,
        }
    }
}

/// A source binding with its texts as character sequences.
pub ghost struct SourceView {
    pub source_id: Seq<char>,
    pub instrument_key: Seq<char>,
    pub binding_hash: ContentHash,
}

impl View for EntryConditionSourceBinding {
    type V = SourceView;

    open spec fn view(&self) -> SourceView {
        SourceView {
            source_id: self.source_id@,
            instrument_key: self.instrument_key@,
            binding_hash: self.binding_hash,
        }
    }
}

impl EntryConditionSourceBinding {
    /// Whether two bindings name the same source, instrument and content.
    pub fn same(&self, other: &Self) -> (r: bool)
        ensures
            r == (self@ == other@),
    {
        self.source_id.same(&other.source_id) && self.instrument_key.same(&other.instrument_key)
            && self.binding_hash == other.binding_hash
    }
}

/// A factor definition that a condition is bound to.
#[derive(Clone, Copy, Debug, PartialEq, Eq, Structural)]
pub struct FactorBinding {
    pub definition_id: FactorDefinitionId,
    pub definition_hash: ContentHash,
}

/// Everything that a condition was frozen against.
#[derive(Debug, PartialEq, Eq)]
pub struct EntryConditionBinding {
    pub recommendation_id: RecommendationId,
    pub market_id: MarketId,
    pub token_id: TokenId,
    pub outcome_side: OutcomeSide,
    pub market_linkage_id: Option<u128>,
    pub market_linkage_hash: Option<ContentHash>,
    pub catalog_snapshot_id: u128,
    pub catalog_snapshot_hash: ContentHash,
    pub model_version_id: ModelVersionId,
    pub decision_policy_snapshot_id: PolicySnapshotId,
    pub factor_bindings: Vec<FactorBinding>,
    pub source_bindings: Vec<EntryConditionSourceBinding>,
}

/// A binding with texts and lists as sequences.
#[verifier::ext_equal]
pub ghost struct BindingView {
    pub recommendation_id: RecommendationId,
    pub market_id: Seq<char>,
    pub token_id: Seq<char>,
    pub outcome_side: OutcomeSide,
    pub market_linkage_id: Option<u128>,
    pub market_linkage_hash: Option<ContentHash>,
    pub catalog_snapshot_id: u128,
    pub catalog_snapshot_hash: ContentHash,
    pub model_version_id: ModelVersionId,
    pub decision_policy_snapshot_id: PolicySnapshotId,
    pub factor_bindings: Seq<FactorBinding>,
    pub source_bindings: Seq<SourceView>,
}

/// Source bindings with their texts as character sequences.
pub open spec fn source_views(sources: Seq<EntryConditionSourceBinding>) -> Seq<SourceView> {
    sources.map_values(|s: EntryConditionSourceBinding| s@)
}

impl View for EntryConditionBinding {
    type V = BindingView;

    open spec fn view(&self) -> BindingView {
        BindingView {
            recommendation_id: self.recommendation_id,
            market_id: self.market_id@,
            token_id: self.token_id@,
            outcome_side: self.outcome_side,
            market_linkage_id: self.market_linkage_id,
            market_linkage_hash: self.market_linkage_hash,
            catalog_snapshot_id: self.catalog_snapshot_id,
            catalog_snapshot_hash: self.catalog_snapshot_hash,
            model_version_id: self.model_version_id,
            decision_policy_snapshot_id: self.decision_policy_snapshot_id,
            factor_bindings: self.factor_bindings@,
            source_bindings: source_views(self.source_bindings@),
        }
    }
}

/// Whether two optional values agree.
pub fn same_id(left: Option<u128>, right: Option<u128>) -> (r: bool)
    ensures
        r == (left == right),
{
    match (left, right) {
        (Some(l), Some(r)) => l == r,
        (None, None) => true,
        _ => false,
    }
}

/// Whether two optional hashes agree.
pub fn same_hash(left: Option<ContentHash>, right: Option<ContentHash>) -> (r: bool)
    ensures
        r == (left == right),
{
    match (left, right) {
        (Some(l), Some(r)) => l == r,
        (None, None) => true,
        _ => false,
    }
}

fn same_factors(left: &Vec<FactorBinding>, right: &Vec<FactorBinding>) -> (r: bool)
    ensures
        r == (left@ == right@),
{
    if left.len() != right.len() {
        return false;
    }
    let mut i: usize = 0;
    while i < left.len()
        invariant
            i <= left.len(),
            left.len() == right.len(),
            forall|j: int| 0 <= j < i ==> left@[j] == right@[j],
        decreases left.len() - i,
    {
        if left[i] != right[i] {
            assert(left@[i as int] != right@[i as int]);
            return false;
        }
        i = i + 1;
    }
    assert(left@ =~= right@);
    true
}

fn same_sources(
    left: &Vec<EntryConditionSourceBinding>,
    right: &Vec<EntryConditionSourceBinding>,
) -> (r: bool)
    ensures
        r == (source_views(left@) == source_views(right@)),
{
    let ghost l = source_views(left@);
    let ghost r = source_views(right@);
    if left.len() != right.len() {
        assert(l.len() != r.len());
        return false;
    }
    let mut i: usize = 0;
    while i < left.len()
        invariant
            i <= left.len(),
            left.len() == right.len(),
            l == source_views(left@),
            r == source_views(right@),
            forall|j: int| 0 <= j < i ==> l[j] == r[j],
        decreases left.len() - i,
    {
        if !left[i].same(&right[i]) {
            assert(l[i as int] != r[i as int]);
            return false;
        }
        i = i + 1;
    }
    assert(l =~= r);
    true
}

impl EntryConditionBinding {
    /// Whether two bindings agree in every part.
    pub fn same(&self, other: &Self) -> (r: bool)
        ensures
            r == (self@ == other@),
    {
        self.recommendation_id == other.recommendation_id && self.market_id.same(&other.market_id)
            && self.token_id.same(&other.token_id) && self.outcome_side == other.outcome_side
            && same_id(self.market_linkage_id, other.market_linkage_id) && same_hash(
            self.market_linkage_hash,
            other.market_linkage_hash,
        ) && self.catalog_snapshot_id == other.catalog_snapshot_id && self.catalog_snapshot_hash
            == other.catalog_snapshot_hash && self.model_version_id == other.model_version_id
            && self.decision_policy_snapshot_id == other.decision_policy_snapshot_id
            && same_factors(&self.factor_bindings, &other.factor_bindings) && same_sources(
            &self.source_bindings,
            &other.source_bindings,
        )
    }
}

/// Why a condition cannot be evaluated.
#[derive(Debug, PartialEq, Eq)]
pub enum ConditionUnavailableReason {
    InputMissing,
    InputStale,
    ClockSkew,
    BindingDrift,
    CatalogSnapshotMismatch,
    MarketLinkageMismatch,
    FactorDefinitionMismatch,
    SourceUnhealthy { source_id: Ident },
}

impl Clone for ConditionUnavailableReason {
    fn clone(&self) -> (r: Self)
        ensures
            r == *self,
    {
        match self {
            ConditionUnavailableReason::InputMissing => ConditionUnavailableReason::InputMissing,
            ConditionUnavailableReason::InputStale => ConditionUnavailableReason::InputStale,
            ConditionUnavailableReason::ClockSkew => ConditionUnavailableReason::ClockSkew,
            ConditionUnavailableReason::BindingDrift => ConditionUnavailableReason::BindingDrift,
            ConditionUnavailableReason::CatalogSnapshotMismatch =>
                ConditionUnavailableReason::CatalogSnapshotMismatch,
            ConditionUnavailableReason::MarketLinkageMismatch =>
                ConditionUnavailableReason::MarketLinkageMismatch,
            ConditionUnavailableReason::FactorDefinitionMismatch =>
                ConditionUnavailableReason::FactorDefinitionMismatch,
            ConditionUnavailableReason::SourceUnhealthy { source_id } =>
                ConditionUnavailableReason::SourceUnhealthy { source_id: source_id.clone() },
        }
    }
}

/// Three-valued truth of a condition.
#[derive(Debug, PartialEq, Eq)]
pub enum ConditionTruth {
    Satisfied,
    Unsatisfied,
    Unavailable(ConditionUnavailableReason),
}

impl Clone for ConditionTruth {
    fn clone(&self) -> (r: Self)
        ensures
            r == *self,
    {
        match self {
            ConditionTruth::Satisfied => ConditionTruth::Satisfied,
            ConditionTruth::Unsatisfied => ConditionTruth::Unsatisfied,
            ConditionTruth::Unavailable(reason) => ConditionTruth::Unavailable(reason.clone()),
        }
    }
}

/// A condition on the executable price of a token.
#[derive(Debug, PartialEq, Eq)]
pub struct PriceCondition {
    pub token_id: TokenId,
    pub comparison: PriceComparison,
    pub threshold: Price,
    pub max_input_age_ms: u64,
}

/// A condition on the clock.
#[derive(Clone, Copy, Debug, PartialEq, Eq)]
pub struct ClockCondition {
    pub deadline_at: Timestamp,
}

/// Which value of a factor is measured.
#[derive(Clone, Copy, Debug, PartialEq, Eq, Structural)]
pub enum FactorMeasure {
    Raw,
    Normalized,
}

/// A condition on the latest value of a factor.
#[derive(Clone, Copy, Debug, PartialEq, Eq)]
pub struct FactorCondition {
    pub definition_id: FactorDefinitionId,
    pub definition_hash: ContentHash,
    pub model_version_id: ModelVersionId,
    pub measure: FactorMeasure,
    pub comparison: PriceComparison,
    pub threshold: Decimal,
    pub minimum_confidence: Decimal,
    pub max_input_age_ms: u64,
}

/// Whether a band owns its boundary.
#[derive(Clone, Copy, Debug, PartialEq, Eq, Structural)]
pub enum PriceBoundaryInclusion {
    Inclusive,
    Exclusive,
}

/// How a crypto price is held against its strike.
#[derive(Clone, Copy, Debug, PartialEq, Eq)]
pub enum PriceComparator {
    GreaterThan,
    GreaterThanOrEqual,
    LessThan,
    LessThanOrEqual,
    Between { hi: Usd, lower: PriceBoundaryInclusion, upper: PriceBoundaryInclusion },
    UpVsReference,
}

/// A condition that a crypto price enters the recommended side.
#[derive(Debug, PartialEq, Eq)]
pub struct CryptoSubjectPredicateEntered {
    pub source: EntryConditionSourceBinding,
    pub comparator: PriceComparator,
    pub strike: Option<Usd>,
    pub reference_price: Option<Usd>,
    pub recommended_outcome: OutcomeSide,
    pub max_input_age_ms: u64,
}

impl Clone for CryptoSubjectPredicateEntered {
    fn clone(&self) -> (r: Self)
        ensures
            r == *self,
    {
        CryptoSubjectPredicateEntered {
            source: self.source.clone(),
            comparator: self.comparator,
            strike: self.strike,
            reference_price: self.reference_price,
            recommended_outcome: self.recommended_outcome,
            max_input_age_ms: self.max_input_age_ms,
        }
    }
}

/// Which daily extreme is meant.
#[derive(Clone, Copy, Debug, PartialEq, Eq, Structural)]
pub enum WeatherTemperatureStatistic {
    Maximum,
    Minimum,
}

/// Unit of a temperature.
#[derive(Clone, Copy, Debug, PartialEq, Eq, Structural)]
pub enum TemperatureUnit {
    Celsius,
    Fahrenheit,
}

/// A band of whole degrees; an absent bound is open.
#[derive(Clone, Copy, Debug, PartialEq, Eq)]
pub struct TemperatureBand {
    pub lower_inclusive: Option<Decimal>,
    pub upper_inclusive: Option<Decimal>,
}

impl TemperatureBand {
    /// Whether a temperature lies below the lower bound.
    pub open spec fn is_below(self, degrees: Decimal) -> bool {
        self.lower_inclusive is Some && degrees@ < self.lower_inclusive->0@
    }

    /// Whether a temperature lies above the upper bound.
    pub open spec fn is_above(self, degrees: Decimal) -> bool {
        self.upper_inclusive is Some && degrees@ > self.upper_inclusive->0@
    }

    /// Whether a temperature lies below the lower bound.
    pub fn below(self, degrees: Decimal) -> (r: bool)
        ensures
            r == self.is_below(degrees),
    {
        match self.lower_inclusive {
            Some(lower) => degrees.lt(lower),
            None => false,
        }
    }

    /// Whether a temperature lies above the upper bound.
    pub fn above(self, degrees: Decimal) -> (r: bool)
        ensures
            r == self.is_above(degrees),
    {
        match self.upper_inclusive {
            Some(upper) => upper.lt(degrees),
            None => false,
        }
    }
}

/// Station, day and statistic that a weather condition reads.
#[derive(Debug, PartialEq, Eq)]
pub struct RequiredWeather {
    pub source: EntryConditionSourceBinding,
    pub station: Ident,
    pub local_date: LocalDate,
    pub temperature_statistic: WeatherTemperatureStatistic,
}

impl Clone for RequiredWeather {
    fn clone(&self) -> (r: Self)
        ensures
            r == *self,
    {
        RequiredWeather {
            source: self.source.clone(),
            station: self.station.clone(),
            local_date: self.local_date,
            temperature_statistic: self.temperature_statistic,
        }
    }
}

/// A weather input key with its texts as character sequences.
pub ghost struct WeatherKeyView {
    pub source: SourceView,
    pub station: Seq<char>,
    pub local_date: LocalDate,
    pub temperature_statistic: WeatherTemperatureStatistic,
}

impl View for RequiredWeather {
    type V = WeatherKeyView;

    open spec fn view(&self) -> WeatherKeyView {
        WeatherKeyView {
            source: self.source@,
            station: self.station@,
            local_date: self.local_date,
            temperature_statistic: self.temperature_statistic,
        }
    }
}

impl RequiredWeather {
    /// Whether two keys agree in every part.
    pub fn same(&self, other: &Self) -> (r: bool)
        ensures
            r == (self@ == other@),
    {
        self.source.same(&other.source) && self.station.same(&other.station) && self.local_date
            == other.local_date && self.temperature_statistic == other.temperature_statistic
    }
}

/// What the daily extreme has to do.
#[derive(Clone, Copy, Debug, PartialEq, Eq)]
pub enum WeatherPredicate {
    /// Lie in the band.
    EnteredBand { band: TemperatureBand },
    /// Exceed the bound (a maximum) or fall below it (a minimum).
    CrossedTerminalBound { terminal_bound: Decimal },
    /// Lie outside the band once the observation day is closed.
    ClosedOutsideBand { band: TemperatureBand },
}

/// A condition on a daily temperature.
#[derive(Debug, PartialEq, Eq)]
pub struct WeatherCondition {
    pub key: RequiredWeather,
    pub unit: TemperatureUnit,
    pub predicate: WeatherPredicate,
    pub proxy_methodology_hash: ContentHash,
    /// Greatest age of the input; not looked at once a day has to be closed.
    pub max_input_age_ms: u64,
}

/// A condition on a domain event.
#[derive(Debug, PartialEq, Eq)]
pub enum MarketEventCondition {
    CryptoSubjectPredicateEntered(CryptoSubjectPredicateEntered),
    WeatherDailyTemperature(WeatherCondition),
}

/// An entry condition.
#[derive(Debug, PartialEq, Eq)]
pub enum EntryConditionV1 {
    Price(PriceCondition),
    Clock(ClockCondition),
    Factor(FactorCondition),
    MarketEvent { event: MarketEventCondition },
    All { children: Vec<EntryConditionV1> },
    Any { children: Vec<EntryConditionV1> },
}

/// How long a condition has to hold without interruption.
#[derive(Clone, Copy, Debug, PartialEq, Eq, Structural)]
pub struct ConfirmationPolicy {
    pub required_continuous_ms: u64,
    pub max_observation_gap_ms: u64,
}

/// A frozen condition in canonical form.
#[derive(Debug, PartialEq, Eq)]
pub struct EntryConditionArtifactV1 {
    pub schema_version: u32,
    pub evaluator_version: u32,
    pub binding: EntryConditionBinding,
    pub confirmation: ConfirmationPolicy,
    pub root: EntryConditionV1,
}

/// Executable-side book input visible at one point-in-time cutoff.
#[derive(Debug, PartialEq, Eq)]
pub struct ExecutablePriceInput {
    pub token_id: TokenId,
    pub price: Price,
    pub observed_at: Timestamp,
    pub available_at: Timestamp,
    pub gap_generation: u64,
}

impl Clone for ExecutablePriceInput {
    fn clone(&self) -> (r: Self)
        ensures
            r == *self,
    {
        ExecutablePriceInput {
            token_id: self.token_id.clone(),
            price: self.price,
            observed_at: self.observed_at,
            available_at: self.available_at,
            gap_generation: self.gap_generation,
        }
    }
}

/// Latest persisted factor value; never the recommendation's frozen breakdown.
#[derive(Clone, Copy, Debug, PartialEq, Eq)]
pub struct FactorSnapshotInput {
    pub definition_id: FactorDefinitionId,
    pub definition_hash: ContentHash,
    pub model_version_id: ModelVersionId,
    pub raw_value: Decimal,
    pub normalized_value: Decimal,
    pub confidence: Decimal,
    pub observed_at: Timestamp,
    pub available_at: Timestamp,
    pub snapshot_hash: ContentHash,
}

/// One source-native crypto fact in deterministic fold order.
#[derive(Clone, Copy, Debug, PartialEq, Eq)]
pub struct CryptoPriceReportInput {
    pub source_sequence: u64,
    pub price: Usd,
    pub event_at: Timestamp,
    pub available_at: Timestamp,
    pub report_hash: ContentHash,
}

/// Ordered same-source crypto facts and the source discontinuity generation.
#[derive(Debug, PartialEq, Eq)]
pub struct CryptoPriceInput {
    pub source: EntryConditionSourceBinding,
    pub reports: Vec<CryptoPriceReportInput>,
    pub gap_generation: u64,
    pub source_healthy: bool,
}

/// A crypto input with its reports as a sequence.
#[verifier::ext_equal]
pub ghost struct CryptoInputView {
    pub source: EntryConditionSourceBinding,
    pub reports: Seq<CryptoPriceReportInput>,
    pub gap_generation: u64,
    pub source_healthy: bool,
}

impl View for CryptoPriceInput {
    type V = CryptoInputView;

    open spec fn view(&self) -> CryptoInputView {
        CryptoInputView {
            source: self.source,
            reports: self.reports@,
            gap_generation: self.gap_generation,
            source_healthy: self.source_healthy,
        }
    }
}

impl Clone for CryptoPriceInput {
    fn clone(&self) -> (r: Self)
        ensures
            r@ == self@,
    {
        let mut reports: Vec<CryptoPriceReportInput> = Vec::new();
        let mut i: usize = 0;
        while i < self.reports.len()
            invariant
                i <= self.reports.len(),
                reports@ == self.reports@.take(i as int),
            decreases self.reports.len() - i,
        {
            reports.push(self.reports[i]);
            assert(reports@ =~= self.reports@.take(i + 1));
            i = i + 1;
        }
        assert(reports@ =~= self.reports@);
        CryptoPriceInput {
            source: self.source.clone(),
            reports,
            gap_generation: self.gap_generation,
            source_healthy: self.source_healthy,
        }
    }
}

/// Current corrected proxy state for one station and local day.
#[derive(Debug, PartialEq, Eq)]
pub struct WeatherDailyTemperatureInput {
    pub key: RequiredWeather,
    /// The current extreme in whole degrees Celsius.
    pub whole_celsius: Decimal,
    /// The current extreme in whole degrees Fahrenheit.
    pub whole_fahrenheit: Decimal,
    pub observation_time: Timestamp,
    pub available_at: Timestamp,
    pub revision: u64,
    pub day_closed: bool,
    pub report_hash: ContentHash,
    pub gap_generation: u64,
    pub source_healthy: bool,
}

impl Clone for WeatherDailyTemperatureInput {
    fn clone(&self) -> (r: Self)
        ensures
            r == *self,
    {
        WeatherDailyTemperatureInput {
            key: self.key.clone(),
            whole_celsius: self.whole_celsius,
            whole_fahrenheit: self.whole_fahrenheit,
            observation_time: self.observation_time,
            available_at: self.available_at,
            revision: self.revision,
            day_closed: self.day_closed,
            report_hash: self.report_hash,
            gap_generation: self.gap_generation,
            source_healthy: self.source_healthy,
        }
    }
}

/// Persisted fold of one crypto leaf.
#[derive(Debug, PartialEq, Eq)]
pub struct CryptoEnteredFoldState {
    pub node_id: u16,
    pub source: EntryConditionSourceBinding,
    pub last_outcome: Option<OutcomeSide>,
    pub latched: bool,
    pub last_source_sequence: Option<u64>,
    pub last_report_hash: Option<ContentHash>,
    pub last_event_at: Option<Timestamp>,
    pub last_available_at: Option<Timestamp>,
    pub gap_generation: u64,
    pub discontinuity_epoch: u64,
    pub triggering_report_hash: Option<ContentHash>,
    pub triggering_at: Option<Timestamp>,
}

impl Clone for CryptoEnteredFoldState {
    fn clone(&self) -> (r: Self)
        ensures
            r == *self,
    {
        CryptoEnteredFoldState {
            node_id: self.node_id,
            source: self.source.clone(),
            last_outcome: self.last_outcome,
            latched: self.latched,
            last_source_sequence: self.last_source_sequence,
            last_report_hash: self.last_report_hash,
            last_event_at: self.last_event_at,
            last_available_at: self.last_available_at,
            gap_generation: self.gap_generation,
            discontinuity_epoch: self.discontinuity_epoch,
            triggering_report_hash: self.triggering_report_hash,
            triggering_at: self.triggering_at,
        }
    }
}

/// Persisted folds of all crypto leaves of a condition.
#[derive(Debug, PartialEq, Eq)]
pub struct EntryConditionFoldState {
    pub crypto: Vec<CryptoEnteredFoldState>,
}

/// Complete point-in-time input bundle shared by live and replay evaluation.
#[derive(Debug, PartialEq, Eq)]
pub struct EntryConditionInputSet {
    pub binding: EntryConditionBinding,
    pub binding_revision: ContentHash,
    pub binding_unavailable_reason: Option<ConditionUnavailableReason>,
    pub fold_state: EntryConditionFoldState,
    pub evaluated_at: Timestamp,
    pub prices: Vec<ExecutablePriceInput>,
    pub factors: Vec<FactorSnapshotInput>,
    pub crypto: Vec<CryptoPriceInput>,
    pub weather: Vec<WeatherDailyTemperatureInput>,
}

/// What the truth of a leaf rests on.
#[derive(Debug, PartialEq, Eq)]
pub enum ConditionLeafEvidence {
    Price(ExecutablePriceInput),
    Clock { deadline_at: Timestamp, evaluated_at: Timestamp },
    Factor(FactorSnapshotInput),
    Crypto { input: CryptoPriceInput, state: CryptoEnteredFoldState },
    Weather(WeatherDailyTemperatureInput),
    Unavailable(ConditionUnavailableReason),
}

/// Leaf evidence with its lists as sequences.
pub ghost enum EvidenceView {
    Price(ExecutablePriceInput),
    Clock { deadline_at: Timestamp, evaluated_at: Timestamp },
    Factor(FactorSnapshotInput),
    Crypto { input: CryptoInputView, state: CryptoEnteredFoldState },
    Weather(WeatherDailyTemperatureInput),
    Unavailable(ConditionUnavailableReason),
}

impl View for ConditionLeafEvidence {
    type V = EvidenceView;

    open spec fn view(&self) -> EvidenceView {
        match *self {
            ConditionLeafEvidence::Price(value) => EvidenceView::Price(value),
            ConditionLeafEvidence::Clock { deadline_at, evaluated_at } => EvidenceView::Clock {
                deadline_at,
                evaluated_at,
            },
            ConditionLeafEvidence::Factor(value) => EvidenceView::Factor(value),
            ConditionLeafEvidence::Crypto { input, state } => EvidenceView::Crypto {
                input: input@,
                state,
            },
            ConditionLeafEvidence::Weather(value) => EvidenceView::Weather(value),
            ConditionLeafEvidence::Unavailable(reason) => EvidenceView::Unavailable(reason),
        }
    }
}

} // verus!
