//! The inputs of an entry condition.
//!
//! A condition names the prices, factors, crypto streams and weather stations
//! that it reads. What storage and the order books answer is turned into one
//! point-in-time input set here: crypto facts only as far as their source has
//! committed them, factor values only up to the cutoff.
use vstd::prelude::*;
use vstd::string::*;

use crate::decimal::{Decimal, Price, Usd};
use crate::entry_condition::model::{
    ConditionUnavailableReason, CryptoEnteredFoldState, CryptoPriceInput, CryptoPriceReportInput,
    CryptoSubjectPredicateEntered, EntryConditionBinding, EntryConditionSourceBinding,
    EntryConditionV1, ExecutablePriceInput, FactorBinding, FactorCondition, FactorSnapshotInput,
    LocalDate, MarketEventCondition, PriceComparator, RequiredWeather,
    WeatherDailyTemperatureInput, WeatherTemperatureStatistic,
};
use crate::error::{outcome, ErrorView, ExecutionError};
use crate::search::{first_where, lemma_first_found, lemma_first_missing};
use crate::sorting::{arrange, arranged, lex_less, Keyed};
use crate::time::{in_calendar, Timestamp};
use crate::types::{
    ContentHash, FactorDefinitionId, Ident, MarketId, ModelVersionId, OutcomeSide,
    PolicySnapshotId, TokenId,
};

verus! {

/// A value that can be held against another of its type.
pub trait Alike: Sized {
    /// Whether the two values mean the same.
    spec fn alike(&self, other: &Self) -> bool;

    /// Whether the two values mean the same.
    fn is_alike(&self, other: &Self) -> (r: bool)
        ensures
            r == self.alike(other),
    ;
}

impl Alike for u128 {
    open spec fn alike(&self, other: &Self) -> bool {
        *self == *other
    }

    fn is_alike(&self, other: &Self) -> (r: bool) {
        *self == *other
    }
}

impl Alike for Ident {
    open spec fn alike(&self, other: &Self) -> bool {
        self@ == other@
    }

    fn is_alike(&self, other: &Self) -> (r: bool) {
        self.same(other)
    }
}

impl Alike for FactorCondition {
    open spec fn alike(&self, other: &Self) -> bool {
        &&& self.definition_id == other.definition_id
        &&& self.definition_hash == other.definition_hash
        &&& self.model_version_id == other.model_version_id
        &&& self.measure == other.measure
        &&& self.comparison == other.comparison
        &&& self.threshold@ == other.threshold@
        &&& self.minimum_confidence@ == other.minimum_confidence@
        &&& self.max_input_age_ms == other.max_input_age_ms
    }

    fn is_alike(&self, other: &Self) -> (r: bool) {
        self.definition_id == other.definition_id && self.definition_hash == other.definition_hash
            && self.model_version_id == other.model_version_id && self.measure == other.measure
            && self.comparison == other.comparison && self.threshold.same(other.threshold)
            && self.minimum_confidence.same(other.minimum_confidence) && self.max_input_age_ms
            == other.max_input_age_ms
    }
}

/// Whether two optional amounts are the same.
pub open spec fn same_amount(left: Option<Usd>, right: Option<Usd>) -> bool {
    match (left, right) {
        (Some(l), Some(r)) => l@ == r@,
        (None, None) => true,
        _ => false,
    }
}

fn is_same_amount(left: Option<Usd>, right: Option<Usd>) -> (r: bool)
    ensures
        r == same_amount(left, right),
{
    match (left, right) {
        (Some(l), Some(r)) => l.same(r),
        (None, None) => true,
        _ => false,
    }
}

impl Alike for PriceComparator {
    open spec fn alike(&self, other: &Self) -> bool {
        match (*self, *other) {
            (
                PriceComparator::Between { hi: a, lower: b, upper: c },
                PriceComparator::Between { hi: d, lower: e, upper: f },
            ) => a@ == d@ && b == e && c == f,
            _ => *self == *other,
        }
    }

    fn is_alike(&self, other: &Self) -> (r: bool) {
        match (*self, *other) {
            (
                PriceComparator::Between { hi: a, lower: b, upper: c },
                PriceComparator::Between { hi: d, lower: e, upper: f },
            ) => a.same(d) && b == e && c == f,
            (PriceComparator::GreaterThan, PriceComparator::GreaterThan) => true,
            (PriceComparator::GreaterThanOrEqual, PriceComparator::GreaterThanOrEqual) => true,
            (PriceComparator::LessThan, PriceComparator::LessThan) => true,
            (PriceComparator::LessThanOrEqual, PriceComparator::LessThanOrEqual) => true,
            (PriceComparator::UpVsReference, PriceComparator::UpVsReference) => true,
            _ => false,
        }
    }
}

impl Alike for CryptoSubjectPredicateEntered {
    open spec fn alike(&self, other: &Self) -> bool {
        &&& self.source@ == other.source@
        &&& self.comparator.alike(&other.comparator)
        &&& same_amount(self.strike, other.strike)
        &&& same_amount(self.reference_price, other.reference_price)
        &&& self.recommended_outcome == other.recommended_outcome
        &&& self.max_input_age_ms == other.max_input_age_ms
    }

    fn is_alike(&self, other: &Self) -> (r: bool) {
        self.source.same(&other.source) && self.comparator.is_alike(&other.comparator)
            && is_same_amount(self.strike, other.strike) && is_same_amount(
            self.reference_price,
            other.reference_price,
        ) && self.recommended_outcome == other.recommended_outcome && self.max_input_age_ms
            == other.max_input_age_ms
    }
}

impl Alike for RequiredWeather {
    open spec fn alike(&self, other: &Self) -> bool {
        self@ == other@
    }

    fn is_alike(&self, other: &Self) -> (r: bool) {
        self.same(other)
    }
}

/// Whether a list already has a value like this one.
pub open spec fn has_alike<T: Alike>(values: Seq<T>, value: T) -> bool {
    exists|i: int| 0 <= i < values.len() && #[trigger] values[i].alike(&value)
}

/// A list with a value behind it, unless it has one like it.
pub open spec fn with_unique<T: Alike>(values: Seq<T>, value: T) -> Seq<T> {
    if has_alike(values, value) {
        values
    } else {
        values.push(value)
    }
}

/// Appends a value to a list that has none like it.
pub fn push_unique<T: Alike>(values: &mut Vec<T>, value: T)
    ensures
        final(values)@ == with_unique(old(values)@, value),
{
    let mut i: usize = 0;
    while i < values.len()
        invariant
            i <= values.len(),
            values@ == old(values)@,
            forall|j: int| 0 <= j < i ==> !#[trigger] values@[j].alike(&value),
        decreases values.len() - i,
    {
        if values[i].is_alike(&value) {
            return ;
        }
        i = i + 1;
    }
    values.push(value);
}

/// What a condition reads, each input once.
#[derive(Debug, PartialEq, Eq)]
pub struct RequiredInputs {
    pub prices: Vec<TokenId>,
    pub factors: Vec<FactorCondition>,
    pub crypto: Vec<CryptoSubjectPredicateEntered>,
    pub weather: Vec<RequiredWeather>,
}

/// Required inputs as sequences.
#[verifier::ext_equal]
pub ghost struct RequiredView {
    pub prices: Seq<TokenId>,
    pub factors: Seq<FactorCondition>,
    pub crypto: Seq<CryptoSubjectPredicateEntered>,
    pub weather: Seq<RequiredWeather>,
}

impl View for RequiredInputs {
    type V = RequiredView;

    open spec fn view(&self) -> RequiredView {
        RequiredView {
            prices: self.prices@,
            factors: self.factors@,
            crypto: self.crypto@,
            weather: self.weather@,
        }
    }
}

impl RequiredView {
    /// Nothing is required.
    pub open spec fn nothing() -> RequiredView {
        RequiredView {
            prices: Seq::empty(),
            factors: Seq::empty(),
            crypto: Seq::empty(),
            weather: Seq::empty(),
        }
    }
}

/// The inputs with those of a condition added, in the order of its leaves.
pub open spec fn required(inputs: RequiredView, condition: EntryConditionV1) -> RequiredView
    decreases condition,
{
    match condition {
        EntryConditionV1::Price(price) => RequiredView {
            prices: with_unique(inputs.prices, price.token_id),
            ..inputs
        },
        EntryConditionV1::Clock(_) => inputs,
        EntryConditionV1::Factor(factor) => RequiredView {
            factors: with_unique(inputs.factors, factor),
            ..inputs
        },
        EntryConditionV1::MarketEvent { event } => match event {
            MarketEventCondition::CryptoSubjectPredicateEntered(crypto) => RequiredView {
                crypto: with_unique(inputs.crypto, crypto),
                ..inputs
            },
            MarketEventCondition::WeatherDailyTemperature(weather) => RequiredView {
                weather: with_unique(inputs.weather, weather.key),
                ..inputs
            },
        },
        EntryConditionV1::All { children } => required_by_all(inputs, children@),
        EntryConditionV1::Any { children } => required_by_all(inputs, children@),
    }
}

/// The inputs with those of several conditions added, one after the other.
pub open spec fn required_by_all(
    inputs: RequiredView,
    conditions: Seq<EntryConditionV1>,
) -> RequiredView
    decreases conditions,
{
    if conditions.len() == 0 {
        inputs
    } else {
        required(required_by_all(inputs, conditions.drop_last()), conditions.last())
    }
}

impl RequiredInputs {
    /// Nothing is required.
    pub fn new() -> (r: RequiredInputs)
        ensures
            r@ == RequiredView::nothing(),
    {
        let r = RequiredInputs {
            prices: Vec::new(),
            factors: Vec::new(),
            crypto: Vec::new(),
            weather: Vec::new(),
        };
        assert(r@ =~= RequiredView::nothing());
        r
    }

    /// Adds the inputs of a condition.
    pub fn collect(&mut self, condition: &EntryConditionV1)
        ensures
            final(self)@ == required(old(self)@, *condition),
        decreases condition,
    {
        match condition {
            EntryConditionV1::Price(price) => {
                push_unique(&mut self.prices, price.token_id.clone());
            },
            EntryConditionV1::Clock(_) => {},
            EntryConditionV1::Factor(factor) => {
                push_unique(&mut self.factors, *factor);
            },
            EntryConditionV1::MarketEvent { event } => match event {
                MarketEventCondition::CryptoSubjectPredicateEntered(crypto) => {
                    push_unique(&mut self.crypto, crypto.clone());
                },
                MarketEventCondition::WeatherDailyTemperature(weather) => {
                    push_unique(&mut self.weather, weather.key.clone());
                },
            },
            EntryConditionV1::All { children } => self.collect_all(children),
            EntryConditionV1::Any { children } => self.collect_all(children),
        }
    }

    fn collect_all(&mut self, conditions: &Vec<EntryConditionV1>)
        ensures
            final(self)@ == required_by_all(old(self)@, conditions@),
        decreases conditions,
    {
        let ghost start = self@;
        let mut i: usize = 0;
        assert(conditions@.take(0) =~= Seq::<EntryConditionV1>::empty());
        while i < conditions.len()
            invariant
                i <= conditions.len(),
                self@ == required_by_all(start, conditions@.take(i as int)),
            decreases conditions.len() - i,
        {
            assert(conditions@.take(i + 1).drop_last() =~= conditions@.take(i as int));
            assert(conditions@.take(i + 1).last() == conditions@[i as int]);
            assert(decreases_to!(conditions => conditions@[i as int]));
            self.collect(&conditions[i]);
            i = i + 1;
        }
        assert(conditions@.take(i as int) =~= conditions@);
    }
}

/// Whether no value of a list is like an earlier one.
pub open spec fn distinct<T: Alike>(values: Seq<T>) -> bool {
    forall|i: int, j: int|
        #![trigger values[i], values[j]]
        0 <= i < j < values.len() ==> !values[i].alike(&values[j])
}

/// Whether no input is listed twice.
pub open spec fn listed_once(inputs: RequiredView) -> bool {
    &&& distinct(inputs.prices)
    &&& distinct(inputs.factors)
    &&& distinct(inputs.crypto)
    &&& distinct(inputs.weather)
}

/// Whether the inputs begin with those of another list.
pub open spec fn extends(inputs: RequiredView, before: RequiredView) -> bool {
    &&& before.prices.is_prefix_of(inputs.prices)
    &&& before.factors.is_prefix_of(inputs.factors)
    &&& before.crypto.is_prefix_of(inputs.crypto)
    &&& before.weather.is_prefix_of(inputs.weather)
}

/// Whether every leaf of a condition finds its input.
pub open spec fn covers(inputs: RequiredView, condition: EntryConditionV1) -> bool
    decreases condition,
{
    match condition {
        EntryConditionV1::Price(price) => has_alike(inputs.prices, price.token_id),
        EntryConditionV1::Clock(_) => true,
        EntryConditionV1::Factor(factor) => has_alike(inputs.factors, factor),
        EntryConditionV1::MarketEvent { event } => match event {
            MarketEventCondition::CryptoSubjectPredicateEntered(crypto) => has_alike(
                inputs.crypto,
                crypto,
            ),
            MarketEventCondition::WeatherDailyTemperature(weather) => has_alike(
                inputs.weather,
                weather.key,
            ),
        },
        EntryConditionV1::All { children } => covers_all(inputs, children@),
        EntryConditionV1::Any { children } => covers_all(inputs, children@),
    }
}

/// Whether every leaf of several conditions finds its input.
pub open spec fn covers_all(inputs: RequiredView, conditions: Seq<EntryConditionV1>) -> bool
    decreases conditions,
{
    if conditions.len() == 0 {
        true
    } else {
        covers_all(inputs, conditions.drop_last()) && covers(inputs, conditions.last())
    }
}

proof fn lemma_still_alike<T: Alike>(before: Seq<T>, after: Seq<T>, value: T)
    requires
        before.is_prefix_of(after),
        has_alike(before, value),
    ensures
        has_alike(after, value),
{
    let i = choose|i: int| 0 <= i < before.len() && #[trigger] before[i].alike(&value);
    assert(after[i] == before[i]);
    assert(after[i].alike(&value));
}

proof fn lemma_covers_extended(
    before: RequiredView,
    after: RequiredView,
    condition: EntryConditionV1,
)
    requires
        extends(after, before),
        covers(before, condition),
    ensures
        covers(after, condition),
    decreases condition,
{
    match condition {
        EntryConditionV1::Price(price) => {
            lemma_still_alike(before.prices, after.prices, price.token_id);
        },
        EntryConditionV1::Clock(_) => {},
        EntryConditionV1::Factor(factor) => {
            lemma_still_alike(before.factors, after.factors, factor);
        },
        EntryConditionV1::MarketEvent { event } => match event {
            MarketEventCondition::CryptoSubjectPredicateEntered(crypto) => {
                lemma_still_alike(before.crypto, after.crypto, crypto);
            },
            MarketEventCondition::WeatherDailyTemperature(weather) => {
                lemma_still_alike(before.weather, after.weather, weather.key);
            },
        },
        EntryConditionV1::All { children } => {
            lemma_covers_all_extended(before, after, children@);
        },
        EntryConditionV1::Any { children } => {
            lemma_covers_all_extended(before, after, children@);
        },
    }
}

proof fn lemma_covers_all_extended(
    before: RequiredView,
    after: RequiredView,
    conditions: Seq<EntryConditionV1>,
)
    requires
        extends(after, before),
        covers_all(before, conditions),
    ensures
        covers_all(after, conditions),
    decreases conditions,
{
    if conditions.len() > 0 {
        lemma_covers_all_extended(before, after, conditions.drop_last());
        lemma_covers_extended(before, after, conditions.last());
    }
}

proof fn lemma_with_unique<T: Alike>(values: Seq<T>, value: T)
    requires
        forall|v: T| #[trigger] v.alike(&v),
    ensures
        values.is_prefix_of(with_unique(values, value)),
        has_alike(with_unique(values, value), value),
        distinct(values) ==> distinct(with_unique(values, value)),
{
    if !has_alike(values, value) {
        let after = values.push(value);
        assert(after[values.len() as int] == value);
        assert(after[values.len() as int].alike(&value));
        if distinct(values) {
            assert forall|i: int, j: int|
                #![trigger after[i], after[j]]
                0 <= i < j < after.len() implies !after[i].alike(&after[j]) by {
                if j == values.len() {
                    assert(!values[i].alike(&value));
                } else {
                    assert(after[i] == values[i] && after[j] == values[j]);
                }
            }
        }
    }
}

proof fn lemma_required(inputs: RequiredView, condition: EntryConditionV1)
    ensures
        extends(required(inputs, condition), inputs),
        covers(required(inputs, condition), condition),
        listed_once(inputs) ==> listed_once(required(inputs, condition)),
    decreases condition,
{
    match condition {
        EntryConditionV1::Price(price) => {
            lemma_with_unique(inputs.prices, price.token_id);
        },
        EntryConditionV1::Clock(_) => {},
        EntryConditionV1::Factor(factor) => {
            lemma_with_unique(inputs.factors, factor);
        },
        EntryConditionV1::MarketEvent { event } => match event {
            MarketEventCondition::CryptoSubjectPredicateEntered(crypto) => {
                lemma_with_unique(inputs.crypto, crypto);
            },
            MarketEventCondition::WeatherDailyTemperature(weather) => {
                lemma_with_unique(inputs.weather, weather.key);
            },
        },
        EntryConditionV1::All { children } => {
            lemma_required_by_all(inputs, children@);
        },
        EntryConditionV1::Any { children } => {
            lemma_required_by_all(inputs, children@);
        },
    }
}

proof fn lemma_required_by_all(inputs: RequiredView, conditions: Seq<EntryConditionV1>)
    ensures
        extends(required_by_all(inputs, conditions), inputs),
        covers_all(required_by_all(inputs, conditions), conditions),
        listed_once(inputs) ==> listed_once(required_by_all(inputs, conditions)),
    decreases conditions,
{
    if conditions.len() > 0 {
        let front = required_by_all(inputs, conditions.drop_last());
        lemma_required_by_all(inputs, conditions.drop_last());
        lemma_required(front, conditions.last());
        lemma_covers_all_extended(
            front,
            required(front, conditions.last()),
            conditions.drop_last(),
        );
    }
}

/// Every leaf of a condition finds its input among those collected, and no
/// input is collected twice.
pub proof fn inputs_are_complete_and_distinct(condition: EntryConditionV1)
    ensures
        covers(required(RequiredView::nothing(), condition), condition),
        listed_once(required(RequiredView::nothing(), condition)),
{
    lemma_required(RequiredView::nothing(), condition);
}

/// Where a report stands in its source's own order, and the hash of that place.
#[derive(Clone, Copy, Debug, PartialEq, Eq, Structural)]
pub struct CryptoCheckpoint {
    pub order: u128,
    pub hash: ContentHash,
}

/// Why a report has no place that can be held against the committed one.
#[derive(Debug, PartialEq, Eq)]
pub enum CheckpointDefect {
    /// The report has no checkpoint.
    Missing(String),
    /// The checkpoint is of another source type than the committed one.
    Incomparable(String),
}

/// A persisted report of a crypto source; times in milliseconds since the epoch.
#[derive(Debug, PartialEq, Eq)]
pub struct CryptoRow {
    pub source_id: Ident,
    pub instrument_key: Ident,
    pub gap_generation: u64,
    pub source_sequence: u64,
    pub price: Usd,
    pub event_time: i64,
    pub published_at: i64,
    pub available_at: i64,
    pub report_hash: ContentHash,
    /// What else is wrong with the row's structure.
    pub defect: Option<String>,
    pub checkpoint: Result<CryptoCheckpoint, CheckpointDefect>,
}

/// The committed state of a crypto source for one instrument.
#[derive(Debug, PartialEq, Eq)]
pub struct CryptoPriceProjection {
    pub source_id: Ident,
    pub instrument_key: Ident,
    pub report_hash: ContentHash,
    pub gap_generation: i64,
    pub source_healthy: bool,
    /// The committed checkpoint, with the hash of its content.
    pub committed: CryptoCheckpoint,
    /// The hash that was stored with the committed checkpoint.
    pub committed_checkpoint_hash: ContentHash,
    /// Why the checkpoint does not fit the projection's head, where it does not.
    pub head_defect: Option<String>,
    /// Up to where the committed facts may be queried: a source sequence and a
    /// publication time.
    pub query_frontier: Result<(u64, i64), String>,
}

/// A checkpoint that was met, and the hash of its report.
#[derive(Clone, Copy, Debug, PartialEq, Eq, Structural)]
pub struct SeenCheckpoint {
    pub order: u128,
    pub report_hash: ContentHash,
}

/// A broken invariant of a persisted crypto report.
pub open spec fn report_violation(detail: Seq<char>) -> ErrorView {
    ErrorView::InvariantViolation { entity: "quant_crypto_price_report"@, detail }
}

fn report_defect(detail: String) -> (r: ExecutionError)
    ensures
        r@ == report_violation(detail@),
{
    ExecutionError::InvariantViolation { entity: "quant_crypto_price_report", detail }
}

/// A crypto source that told two stories of one checkpoint.
pub open spec fn equivocation(projection: CryptoPriceProjection, detail: Seq<char>) -> ErrorView {
    ErrorView::StateConflict {
        entity: "quant_crypto_price_report"@,
        key: projection.instrument_key@,
        detail,
    }
}

fn equivocated(projection: &CryptoPriceProjection, detail: &str) -> (r: ExecutionError)
    ensures
        r@ == equivocation(*projection, detail@),
{
    ExecutionError::StateConflict {
        entity: "quant_crypto_price_report",
        key: projection.instrument_key.text.clone(),
        detail: detail.to_owned(),
    }
}

/// What is wrong with a row's structure.
pub open spec fn row_defect(row: CryptoRow) -> Option<Seq<char>> {
    if !in_calendar(row.event_time * 1000000) {
        Some("event_time is outside the calendar range"@)
    } else if !in_calendar(row.published_at * 1000000) {
        Some("published_at is outside the calendar range"@)
    } else if !in_calendar(row.available_at * 1000000) {
        Some("available_at is outside the calendar range"@)
    } else {
        match row.defect {
            Some(defect) => Some(defect@),
            None => None,
        }
    }
}

/// The report that a row states.
pub open spec fn row_report(row: CryptoRow) -> CryptoPriceReportInput {
    CryptoPriceReportInput {
        source_sequence: row.source_sequence,
        price: row.price,
        event_at: Timestamp::of_nanos(row.event_time * 1000000),
        available_at: Timestamp::of_nanos(row.available_at * 1000000),
        report_hash: row.report_hash,
    }
}

/// Where a checkpoint was met before.
pub open spec fn met_at(seen: Seq<SeenCheckpoint>, order: u128) -> Option<int> {
    first_where(seen, |s: SeenCheckpoint| s.order == order)
}

/// The met checkpoints with one more.
pub open spec fn marked(
    seen: Seq<SeenCheckpoint>,
    order: u128,
    report_hash: ContentHash,
) -> Seq<SeenCheckpoint> {
    match met_at(seen, order) {
        Some(position) => seen.update(position, SeenCheckpoint { order, report_hash }),
        None => seen.push(SeenCheckpoint { order, report_hash }),
    }
}

/// What a row contributes, before earlier rows of the same checkpoint are
/// looked at: nothing where it belongs to another generation or lies beyond
/// what the source has committed.
pub open spec fn committed_alone(
    row: CryptoRow,
    projection: CryptoPriceProjection,
    gap_generation: u64,
) -> Result<Option<u128>, ErrorView> {
    if row.source_id@ != projection.source_id@ || row.instrument_key@
        != projection.instrument_key@ {
        Err(report_violation("Crypto fact escaped its committed source/instrument binding"@))
    } else if row.gap_generation != gap_generation {
        Ok(None)
    } else if row_defect(row) is Some {
        Err(
            report_violation(
                "persisted Crypto report failed structural validation: "@ + row_defect(row)->0,
            ),
        )
    } else {
        match row.checkpoint {
            Err(CheckpointDefect::Missing(error)) => Err(
                report_violation("persisted Crypto report has no valid checkpoint: "@ + error@),
            ),
            Err(CheckpointDefect::Incomparable(error)) => Err(
                report_violation("Crypto fact checkpoint type diverged: "@ + error@),
            ),
            Ok(checkpoint) => if checkpoint.order > projection.committed.order {
                Ok(None)
            } else if checkpoint.order == projection.committed.order && row.report_hash
                != projection.report_hash {
                Err(
                    equivocation(
                        projection,
                        "Crypto source equivocated at the committed checkpoint"@,
                    ),
                )
            } else if checkpoint.order == projection.committed.order && checkpoint.hash
                != projection.committed_checkpoint_hash {
                Err(
                    report_violation(
                        "equal Crypto checkpoint differs from the committed checkpoint hash"@,
                    ),
                )
            } else {
                Ok(Some(checkpoint.order))
            },
        }
    }
}

/// What a row contributes after the checkpoints in `seen` were met.
pub open spec fn committed_row(
    row: CryptoRow,
    projection: CryptoPriceProjection,
    gap_generation: u64,
    seen: Seq<SeenCheckpoint>,
) -> Result<Option<CryptoPriceReportInput>, ErrorView> {
    match committed_alone(row, projection, gap_generation) {
        Err(error) => Err(error),
        Ok(None) => Ok(None),
        Ok(Some(order)) => match met_at(seen, order) {
            Some(position) => if seen[position].report_hash != row.report_hash {
                Err(
                    equivocation(
                        projection,
                        "Crypto source equivocated within the committed generation"@,
                    ),
                )
            } else {
                Ok(Some(row_report(row)))
            },
            None => Ok(Some(row_report(row))),
        },
    }
}

/// The met checkpoints after a row.
pub open spec fn seen_after(
    row: CryptoRow,
    projection: CryptoPriceProjection,
    gap_generation: u64,
    seen: Seq<SeenCheckpoint>,
) -> Seq<SeenCheckpoint> {
    match committed_alone(row, projection, gap_generation) {
        Ok(Some(order)) => marked(seen, order, row.report_hash),
        _ => seen,
    }
}

fn check_alone(row: &CryptoRow, projection: &CryptoPriceProjection, gap_generation: u64) -> (r:
    Result<Option<u128>, ExecutionError>)
    ensures
        outcome(r) == committed_alone(*row, *projection, gap_generation),
{
    if !row.source_id.same(&projection.source_id) || !row.instrument_key.same(
        &projection.instrument_key,
    ) {
        return Err(
            report_defect(
                "Crypto fact escaped its committed source/instrument binding".to_owned(),
            ),
        );
    }
    if row.gap_generation != gap_generation {
        return Ok(None);
    }
    let structure = "persisted Crypto report failed structural validation: ".to_owned();
    if Timestamp::from_millis(row.event_time).is_none() {
        return Err(report_defect(structure.concat("event_time is outside the calendar range")));
    }
    if Timestamp::from_millis(row.published_at).is_none() {
        return Err(report_defect(structure.concat("published_at is outside the calendar range")));
    }
    if Timestamp::from_millis(row.available_at).is_none() {
        return Err(report_defect(structure.concat("available_at is outside the calendar range")));
    }
    if let Some(defect) = &row.defect {
        return Err(report_defect(structure.concat(defect.as_str())));
    }
    match &row.checkpoint {
        Err(CheckpointDefect::Missing(error)) => Err(
            report_defect(
                "persisted Crypto report has no valid checkpoint: ".to_owned().concat(
                    error.as_str(),
                ),
            ),
        ),
        Err(CheckpointDefect::Incomparable(error)) => Err(
            report_defect(
                "Crypto fact checkpoint type diverged: ".to_owned().concat(error.as_str()),
            ),
        ),
        Ok(checkpoint) => {
            if checkpoint.order > projection.committed.order {
                return Ok(None);
            }
            if checkpoint.order == projection.committed.order {
                if row.report_hash != projection.report_hash {
                    return Err(
                        equivocated(
                            projection,
                            "Crypto source equivocated at the committed checkpoint",
                        ),
                    );
                }
                if checkpoint.hash != projection.committed_checkpoint_hash {
                    return Err(
                        report_defect(
                            "equal Crypto checkpoint differs from the committed checkpoint hash".to_owned(),
                        ),
                    );
                }
            }
            Ok(Some(checkpoint.order))
        },
    }
}

fn find_met(seen: &Vec<SeenCheckpoint>, order: u128) -> (r: Option<usize>)
    ensures
        match r {
            Some(position) => met_at(seen@, order) == Some(position as int) && position
                < seen.len(),
            None => met_at(seen@, order) is None,
        },
{
    let ghost test = |s: SeenCheckpoint| s.order == order;
    let mut i: usize = 0;
    while i < seen.len()
        invariant
            i <= seen.len(),
            test == (|s: SeenCheckpoint| s.order == order),
            forall|j: int| 0 <= j < i ==> !test(#[trigger] seen@[j]),
        decreases seen.len() - i,
    {
        if seen[i].order == order {
            proof {
                lemma_first_found(seen@, test, i as int);
            }
            return Some(i);
        }
        i = i + 1;
    }
    proof {
        lemma_first_missing(seen@, test);
    }
    None
}

/// Admits one persisted report into the committed prefix of its source.
pub fn committed_crypto_row(
    row: &CryptoRow,
    projection: &CryptoPriceProjection,
    gap_generation: u64,
    seen: &mut Vec<SeenCheckpoint>,
) -> (r: Result<Option<CryptoPriceReportInput>, ExecutionError>)
    ensures
        outcome(r) == committed_row(*row, *projection, gap_generation, old(seen)@),
        final(seen)@ == seen_after(*row, *projection, gap_generation, old(seen)@),
{
    let order: u128 = match check_alone(row, projection, gap_generation) {
        Err(error) => return Err(error),
        Ok(None) => return Ok(None),
        Ok(Some(order)) => order,
    };
    let mark = SeenCheckpoint { order, report_hash: row.report_hash };
    match find_met(seen, order) {
        Some(position) => {
            let existing = seen[position].report_hash;
            seen.set(position, mark);
            if existing != row.report_hash {
                return Err(
                    equivocated(
                        projection,
                        "Crypto source equivocated within the committed generation",
                    ),
                );
            }
        },
        None => {
            seen.push(mark);
        },
    }
    match (Timestamp::from_millis(row.event_time), Timestamp::from_millis(row.available_at)) {
        (Some(event_at), Some(available_at)) => Ok(
            Some(
                CryptoPriceReportInput {
                    source_sequence: row.source_sequence,
                    price: row.price,
                    event_at,
                    available_at,
                    report_hash: row.report_hash,
                },
            ),
        ),
        _ => Ok(None),
    }
}

impl Keyed for CryptoRow {
    open spec fn sort_key(&self) -> Seq<int> {
        seq![
            self.gap_generation as int,
            self.available_at as int,
            self.event_time as int,
            self.source_sequence as int,
            self.report_hash.high as int,
            self.report_hash.low as int,
        ]
    }

    fn key_before(&self, other: &Self) -> (r: bool) {
        proof {
            lemma_six_key(self.sort_key(), other.sort_key());
        }
        if self.gap_generation != other.gap_generation {
            self.gap_generation < other.gap_generation
        } else if self.available_at != other.available_at {
            self.available_at < other.available_at
        } else if self.event_time != other.event_time {
            self.event_time < other.event_time
        } else if self.source_sequence != other.source_sequence {
            self.source_sequence < other.source_sequence
        } else if self.report_hash.high != other.report_hash.high {
            self.report_hash.high < other.report_hash.high
        } else {
            self.report_hash.low < other.report_hash.low
        }
    }
}

/// Six-element keys are ordered by their first difference.
proof fn lemma_six_key(a: Seq<int>, b: Seq<int>)
    requires
        a.len() == 6,
        b.len() == 6,
    ensures
        lex_less(a, b) == (if a[0] != b[0] {
            a[0] < b[0]
        } else if a[1] != b[1] {
            a[1] < b[1]
        } else if a[2] != b[2] {
            a[2] < b[2]
        } else if a[3] != b[3] {
            a[3] < b[3]
        } else if a[4] != b[4] {
            a[4] < b[4]
        } else {
            a[5] < b[5]
        }),
{
    let a1 = a.drop_first();
    let b1 = b.drop_first();
    let a2 = a1.drop_first();
    let b2 = b1.drop_first();
    let a3 = a2.drop_first();
    let b3 = b2.drop_first();
    let a4 = a3.drop_first();
    let b4 = b3.drop_first();
    let a5 = a4.drop_first();
    let b5 = b4.drop_first();
    reveal_with_fuel(lex_less, 2);
    assert(lex_less(a5, b5) == (a[5] < b[5]));
    assert(lex_less(a4, b4) == (a[4] < b[4] || (a[4] == b[4] && lex_less(a5, b5))));
    assert(lex_less(a3, b3) == (a[3] < b[3] || (a[3] == b[3] && lex_less(a4, b4))));
    assert(lex_less(a2, b2) == (a[2] < b[2] || (a[2] == b[2] && lex_less(a3, b3))));
    assert(lex_less(a1, b1) == (a[1] < b[1] || (a[1] == b[1] && lex_less(a2, b2))));
    assert(lex_less(a, b) == (a[0] < b[0] || (a[0] == b[0] && lex_less(a1, b1))));
}

/// Whether two rows state the same fact.
pub open spec fn same_fact(left: CryptoRow, right: CryptoRow) -> bool {
    &&& left.gap_generation == right.gap_generation
    &&& left.source_sequence == right.source_sequence
    &&& left.report_hash == right.report_hash
}

/// The rows without those that state the fact of the row before them.
pub open spec fn deduplicated(rows: Seq<CryptoRow>) -> Seq<CryptoRow>
    decreases rows.len(),
{
    if rows.len() == 0 {
        rows
    } else {
        let front = deduplicated(rows.drop_last());
        if front.len() > 0 && same_fact(front.last(), rows.last()) {
            front
        } else {
            front.push(rows.last())
        }
    }
}

/// The reports of a committed prefix, and the checkpoints met in it.
pub ghost struct CommittedReports {
    pub reports: Seq<CryptoPriceReportInput>,
    pub seen: Seq<SeenCheckpoint>,
}

/// What rows contribute, one after the other.
pub open spec fn committed_reports(
    rows: Seq<CryptoRow>,
    projection: CryptoPriceProjection,
    gap_generation: u64,
) -> Result<CommittedReports, ErrorView>
    decreases rows.len(),
{
    if rows.len() == 0 {
        Ok(CommittedReports { reports: Seq::empty(), seen: Seq::empty() })
    } else {
        match committed_reports(rows.drop_last(), projection, gap_generation) {
            Err(error) => Err(error),
            Ok(front) => match committed_row(rows.last(), projection, gap_generation, front.seen) {
                Err(error) => Err(error),
                Ok(report) => Ok(
                    CommittedReports {
                        reports: match report {
                            Some(input) => front.reports.push(input),
                            None => front.reports,
                        },
                        seen: seen_after(rows.last(), projection, gap_generation, front.seen),
                    },
                ),
            },
        }
    }
}

proof fn lemma_refused_prefix(
    rows: Seq<CryptoRow>,
    projection: CryptoPriceProjection,
    gap_generation: u64,
    n: int,
)
    requires
        0 <= n <= rows.len(),
        committed_reports(deduplicated(rows.take(n)), projection, gap_generation) is Err,
    ensures
        committed_reports(deduplicated(rows), projection, gap_generation)
            == committed_reports(deduplicated(rows.take(n)), projection, gap_generation),
    decreases rows.len() - n,
{
    if n == rows.len() {
        assert(rows.take(n) =~= rows);
    } else {
        assert(rows.take(n + 1).drop_last() =~= rows.take(n));
        let front = deduplicated(rows.take(n));
        assert(front.push(rows[n]).drop_last() =~= front);
        lemma_refused_prefix(rows, projection, gap_generation, n + 1);
    }
}

/// The reports of the committed prefix among rows: in the order of generation,
/// availability, event time, sequence and hash, each fact once.
pub fn committed_crypto_reports(
    rows: Vec<CryptoRow>,
    projection: &CryptoPriceProjection,
    gap_generation: u64,
) -> (r: Result<Vec<CryptoPriceReportInput>, ExecutionError>)
    ensures
        match committed_reports(
            deduplicated(arranged(rows@)),
            *projection,
            gap_generation,
        ) {
            Ok(found) => r is Ok && r->Ok_0@ == found.reports,
            Err(error) => r is Err && r->Err_0@ == error,
        },
{
    let mut sorted = rows;
    arrange(&mut sorted);
    let mut reports: Vec<CryptoPriceReportInput> = Vec::new();
    let mut seen: Vec<SeenCheckpoint> = Vec::new();
    let mut last: Option<usize> = None;
    let mut i: usize = 0;
    assert(sorted@.take(0) =~= Seq::<CryptoRow>::empty());
    while i < sorted.len()
        invariant
            i <= sorted.len(),
            sorted@ == arranged(rows@),
            ({
                let kept = deduplicated(sorted@.take(i as int));
                let found = committed_reports(kept, *projection, gap_generation);
                &&& found is Ok
                &&& found->Ok_0.reports == reports@
                &&& found->Ok_0.seen == seen@
                &&& match last {
                    Some(position) => position < i && kept.len() > 0 && kept.last()
                        == sorted@[position as int],
                    None => kept.len() == 0,
                }
            }),
        decreases sorted.len() - i,
    {
        let ghost kept = deduplicated(sorted@.take(i as int));
        assert(sorted@.take(i + 1).drop_last() =~= sorted@.take(i as int));
        assert(sorted@.take(i + 1).last() == sorted@[i as int]);
        let repeated = match last {
            Some(position) => sorted[position].gap_generation == sorted[i].gap_generation
                && sorted[position].source_sequence == sorted[i].source_sequence
                && sorted[position].report_hash == sorted[i].report_hash,
            None => false,
        };
        if !repeated {
            assert(kept.push(sorted@[i as int]).drop_last() =~= kept);
            match committed_crypto_row(&sorted[i], projection, gap_generation, &mut seen) {
                Ok(Some(input)) => {
                    reports.push(input);
                },
                Ok(None) => {},
                Err(error) => {
                    proof {
                        lemma_refused_prefix(sorted@, *projection, gap_generation, i + 1);
                    }
                    return Err(error);
                },
            }
            last = Some(i);
        }
        i = i + 1;
    }
    assert(sorted@.take(i as int) =~= sorted@);
    Ok(reports)
}

/// A row that takes part in the committed prefix has the committed generation,
/// lies no further than the committed checkpoint and, at that checkpoint, is
/// the committed report.
pub proof fn committed_rows_stay_behind_the_frontier(
    row: CryptoRow,
    projection: CryptoPriceProjection,
    gap_generation: u64,
    seen: Seq<SeenCheckpoint>,
)
    requires
        committed_row(row, projection, gap_generation, seen) matches Ok(Some(_)),
    ensures
        row.source_id@ == projection.source_id@,
        row.instrument_key@ == projection.instrument_key@,
        row.gap_generation == gap_generation,
        row.checkpoint is Ok,
        row.checkpoint->Ok_0.order <= projection.committed.order,
        row.checkpoint->Ok_0.order == projection.committed.order ==> row.report_hash
            == projection.report_hash,
{
}

proof fn lemma_all_met(
    rows: Seq<CryptoRow>,
    projection: CryptoPriceProjection,
    gap_generation: u64,
    i: int,
)
    requires
        committed_reports(rows, projection, gap_generation) is Ok,
        0 <= i < rows.len(),
        committed_alone(rows[i], projection, gap_generation) matches Ok(Some(_)),
    ensures
        ({
            let seen = committed_reports(rows, projection, gap_generation)->Ok_0.seen;
            let order = committed_alone(rows[i], projection, gap_generation)->Ok_0->0;
            let position = met_at(seen, order);
            &&& position is Some
            &&& 0 <= position->0 < seen.len()
            &&& seen[position->0].report_hash == rows[i].report_hash
        }),
    decreases rows.len(),
{
    let order = committed_alone(rows[i], projection, gap_generation)->Ok_0->0;
    let front = committed_reports(rows.drop_last(), projection, gap_generation)->Ok_0;
    let after = seen_after(rows.last(), projection, gap_generation, front.seen);
    let test = |s: SeenCheckpoint| s.order == order;
    if i < rows.len() - 1 {
        assert(rows.drop_last()[i] == rows[i]);
        lemma_all_met(rows.drop_last(), projection, gap_generation, i);
    }
    crate::search::first_match_is_first(front.seen, test);
    match committed_alone(rows.last(), projection, gap_generation) {
        Ok(Some(latest)) => {
            let other = |s: SeenCheckpoint| s.order == latest;
            crate::search::first_match_is_first(front.seen, other);
            match met_at(front.seen, latest) {
                Some(position) => {
                    assert(front.seen[position].report_hash == rows.last().report_hash);
                    assert(other(front.seen[position]));
                    assert(after =~= front.seen);
                },
                None => {
                    if i < rows.len() - 1 {
                        let position = met_at(front.seen, order)->0;
                        assert forall|j: int| 0 <= j < position implies !test(
                            #[trigger] after[j],
                        ) by {
                            assert(after[j] == front.seen[j]);
                        }
                        assert(test(front.seen[position]));
                        assert(after[position] == front.seen[position]);
                        lemma_first_found(after, test, position);
                    } else {
                        let position = front.seen.len() as int;
                        assert forall|j: int| 0 <= j < position implies !test(
                            #[trigger] after[j],
                        ) by {
                            assert(after[j] == front.seen[j]);
                            assert(!other(front.seen[j]));
                        }
                        assert(after[position].order == order);
                        lemma_first_found(after, test, position);
                    }
                },
            }
        },
        _ => {},
    }
}

/// A source never tells two stories of one checkpoint: where a sequence of
/// rows is accepted, two of its committed rows with the same checkpoint have the
/// same report.
pub proof fn equal_checkpoints_agree(
    rows: Seq<CryptoRow>,
    projection: CryptoPriceProjection,
    gap_generation: u64,
    i: int,
    j: int,
)
    requires
        committed_reports(rows, projection, gap_generation) is Ok,
        0 <= i < rows.len(),
        0 <= j < rows.len(),
        committed_alone(rows[i], projection, gap_generation) matches Ok(Some(_)),
        committed_alone(rows[i], projection, gap_generation) == committed_alone(
            rows[j],
            projection,
            gap_generation,
        ),
    ensures
        rows[i].report_hash == rows[j].report_hash,
{
    lemma_all_met(rows, projection, gap_generation, i);
    lemma_all_met(rows, projection, gap_generation, j);
}

/// Which facts of a crypto source are asked for; times in milliseconds since
/// the epoch.
#[derive(Clone, Copy, Debug, PartialEq, Eq, Structural)]
pub struct CryptoQuery {
    pub gap_generation: u64,
    pub committed_source_sequence: u64,
    pub committed_published_at_ms: i64,
    pub available_from_ms: i64,
    pub available_to_ms: i64,
    pub decision_at_ms: i64,
    /// Where the leaf was never folded: the instant whose frontier is asked for
    /// as well.
    pub baseline_at_ms: Option<i64>,
}

/// A broken invariant of a crypto projection.
pub open spec fn projection_violation(detail: Seq<char>) -> ErrorView {
    ErrorView::InvariantViolation { entity: "quant_crypto_price_projection"@, detail }
}

fn projection_defect(detail: String) -> (r: ExecutionError)
    ensures
        r@ == projection_violation(detail@),
{
    ExecutionError::InvariantViolation { entity: "quant_crypto_price_projection", detail }
}

/// The first fold of a source.
pub open spec fn prior_fold(
    states: Seq<CryptoEnteredFoldState>,
    source: EntryConditionSourceBinding,
) -> Option<int> {
    first_where(states, |state: CryptoEnteredFoldState| state.source@ == source@)
}

/// The query for a source: what became available since its last fold, or since
/// the instance was created.
pub open spec fn crypto_query(
    projection: CryptoPriceProjection,
    source: EntryConditionSourceBinding,
    states: Seq<CryptoEnteredFoldState>,
    created_at: Timestamp,
    evaluated_at: Timestamp,
) -> Result<CryptoQuery, ErrorView> {
    if projection.gap_generation < 0 {
        Err(
            projection_violation(
                "stored crypto gap generation is invalid: "@ + crate::text::conversion_overflow(),
            ),
        )
    } else if projection.committed.hash != projection.committed_checkpoint_hash {
        Err(
            projection_violation("committed Crypto checkpoint hash differs from its content"@),
        )
    } else if projection.head_defect is Some {
        Err(
            projection_violation(
                "committed Crypto projection frontier is invalid: "@ + projection.head_defect->0@,
            ),
        )
    } else {
        match projection.query_frontier {
            Err(error) => Err(
                projection_violation("committed Crypto query frontier is invalid: "@ + error@),
            ),
            Ok(frontier) => {
                let prior = prior_fold(states, source);
                let since = match prior {
                    Some(position) => match states[position].last_available_at {
                        Some(at) => at,
                        None => created_at,
                    },
                    None => created_at,
                };
                Ok(
                    CryptoQuery {
                        gap_generation: projection.gap_generation as u64,
                        committed_source_sequence: frontier.0,
                        committed_published_at_ms: frontier.1,
                        available_from_ms: since.spec_millis() as i64,
                        available_to_ms: (evaluated_at.spec_millis() + 1) as i64,
                        decision_at_ms: evaluated_at.spec_millis() as i64,
                        baseline_at_ms: if prior is None {
                            Some(created_at.spec_millis() as i64)
                        } else {
                            None
                        },
                    },
                )
            },
        }
    }
}

fn find_fold(states: &Vec<CryptoEnteredFoldState>, source: &EntryConditionSourceBinding) -> (r:
    Option<usize>)
    ensures
        match r {
            Some(position) => prior_fold(states@, *source) == Some(position as int) && position
                < states.len(),
            None => prior_fold(states@, *source) is None,
        },
{
    let ghost test = |state: CryptoEnteredFoldState| state.source@ == source@;
    let mut i: usize = 0;
    while i < states.len()
        invariant
            i <= states.len(),
            test == (|state: CryptoEnteredFoldState| state.source@ == source@),
            forall|j: int| 0 <= j < i ==> !test(#[trigger] states@[j]),
        decreases states.len() - i,
    {
        if states[i].source.same(source) {
            proof {
                lemma_first_found(states@, test, i as int);
            }
            return Some(i);
        }
        i = i + 1;
    }
    proof {
        lemma_first_missing(states@, test);
    }
    None
}

/// Validates the committed state of a source and says which facts to ask for.
pub fn plan_crypto_query(
    projection: &CryptoPriceProjection,
    source: &EntryConditionSourceBinding,
    states: &Vec<CryptoEnteredFoldState>,
    created_at: Timestamp,
    evaluated_at: Timestamp,
) -> (r: Result<CryptoQuery, ExecutionError>)
    ensures
        outcome(r) == crypto_query(*projection, *source, states@, created_at, evaluated_at),
{
    if projection.gap_generation < 0 {
        return Err(
            projection_defect(
                "stored crypto gap generation is invalid: ".to_owned().concat(
                    "out of range integral type conversion attempted",
                ),
            ),
        );
    }
    if projection.committed.hash != projection.committed_checkpoint_hash {
        return Err(
            projection_defect(
                "committed Crypto checkpoint hash differs from its content".to_owned(),
            ),
        );
    }
    if let Some(defect) = &projection.head_defect {
        return Err(
            projection_defect(
                "committed Crypto projection frontier is invalid: ".to_owned().concat(
                    defect.as_str(),
                ),
            ),
        );
    }
    let frontier: (u64, i64) = match &projection.query_frontier {
        Ok(frontier) => *frontier,
        Err(error) => {
            return Err(
                projection_defect(
                    "committed Crypto query frontier is invalid: ".to_owned().concat(
                        error.as_str(),
                    ),
                ),
            );
        },
    };
    let prior = find_fold(states, source);
    let since = match prior {
        Some(position) => match states[position].last_available_at {
            Some(at) => at,
            None => created_at,
        },
        None => created_at,
    };
    let decision_at_ms = evaluated_at.whole_millis();
    Ok(
        CryptoQuery {
            gap_generation: projection.gap_generation as u64,
            committed_source_sequence: frontier.0,
            committed_published_at_ms: frontier.1,
            available_from_ms: since.whole_millis(),
            available_to_ms: decision_at_ms + 1,
            decision_at_ms,
            baseline_at_ms: if prior.is_none() {
                Some(created_at.whole_millis())
            } else {
                None
            },
        },
    )
}

/// What storage knows of one required crypto source.
#[derive(Debug, PartialEq, Eq)]
pub struct CryptoFacts {
    pub source: EntryConditionSourceBinding,
    pub projection: CryptoPriceProjection,
    /// The rows that answer the query.
    pub rows: Vec<CryptoRow>,
}

/// The input of a crypto source.
pub open spec fn crypto_input(
    facts: CryptoFacts,
    states: Seq<CryptoEnteredFoldState>,
    created_at: Timestamp,
    evaluated_at: Timestamp,
) -> Result<crate::entry_condition::model::CryptoInputView, ErrorView> {
    match crypto_query(facts.projection, facts.source, states, created_at, evaluated_at) {
        Err(error) => Err(error),
        Ok(query) => match committed_reports(
            deduplicated(arranged(facts.rows@)),
            facts.projection,
            query.gap_generation,
        ) {
            Err(error) => Err(error),
            Ok(found) => Ok(
                crate::entry_condition::model::CryptoInputView {
                    source: facts.source,
                    reports: found.reports,
                    gap_generation: query.gap_generation,
                    source_healthy: facts.projection.source_healthy,
                },
            ),
        },
    }
}

/// Turns what storage knows of a crypto source into its input.
pub fn load_crypto(
    facts: CryptoFacts,
    states: &Vec<CryptoEnteredFoldState>,
    created_at: Timestamp,
    evaluated_at: Timestamp,
) -> (r: Result<CryptoPriceInput, ExecutionError>)
    ensures
        match crypto_input(facts, states@, created_at, evaluated_at) {
            Ok(input) => r is Ok && r->Ok_0@ == input,
            Err(error) => r is Err && r->Err_0@ == error,
        },
{
    let query = match plan_crypto_query(
        &facts.projection,
        &facts.source,
        states,
        created_at,
        evaluated_at,
    ) {
        Ok(query) => query,
        Err(error) => return Err(error),
    };
    let CryptoFacts { source, projection, rows } = facts;
    match committed_crypto_reports(rows, &projection, query.gap_generation) {
        Ok(reports) => Ok(
            CryptoPriceInput {
                source,
                reports,
                gap_generation: query.gap_generation,
                source_healthy: projection.source_healthy,
            },
        ),
        Err(error) => Err(error),
    }
}

/// What a fresh book says of a token.
#[derive(Debug, PartialEq, Eq)]
pub struct TokenQuote {
    pub token_id: TokenId,
    pub best_ask: Option<Price>,
    pub timestamp_ms: u64,
    pub gap_generation: u64,
}

/// The executable price that a quote gives, if it gives one.
pub open spec fn executable_price(quote: TokenQuote) -> Option<ExecutablePriceInput> {
    if quote.best_ask is Some && quote.timestamp_ms <= i64::MAX && in_calendar(
        quote.timestamp_ms * 1000000,
    ) {
        let observed_at = Timestamp::of_nanos(quote.timestamp_ms * 1000000);
        Some(
            ExecutablePriceInput {
                token_id: quote.token_id,
                price: quote.best_ask->0,
                observed_at,
                available_at: observed_at,
                gap_generation: quote.gap_generation,
            },
        )
    } else {
        None
    }
}

/// The executable prices that quotes give.
pub open spec fn executable_prices(quotes: Seq<TokenQuote>) -> Seq<ExecutablePriceInput>
    decreases quotes.len(),
{
    if quotes.len() == 0 {
        Seq::empty()
    } else {
        let front = executable_prices(quotes.drop_last());
        match executable_price(quotes.last()) {
            Some(input) => front.push(input),
            None => front,
        }
    }
}

/// Turns the quotes of fresh books into executable prices; a book without an
/// ask or with an unreadable time gives none.
pub fn load_prices(quotes: &Vec<TokenQuote>) -> (r: Vec<ExecutablePriceInput>)
    ensures
        r@ == executable_prices(quotes@),
{
    let mut r: Vec<ExecutablePriceInput> = Vec::new();
    let mut i: usize = 0;
    assert(quotes@.take(0) =~= Seq::<TokenQuote>::empty());
    while i < quotes.len()
        invariant
            i <= quotes.len(),
            r@ == executable_prices(quotes@.take(i as int)),
        decreases quotes.len() - i,
    {
        assert(quotes@.take(i + 1).drop_last() =~= quotes@.take(i as int));
        assert(quotes@.take(i + 1).last() == quotes@[i as int]);
        let quote = &quotes[i];
        if let Some(price) = quote.best_ask {
            if quote.timestamp_ms <= 9223372036854775807 {
                if let Some(observed_at) = Timestamp::from_millis(quote.timestamp_ms as i64) {
                    r.push(
                        ExecutablePriceInput {
                            token_id: quote.token_id.clone(),
                            price,
                            observed_at,
                            available_at: observed_at,
                            gap_generation: quote.gap_generation,
                        },
                    );
                }
            }
        }
        i = i + 1;
    }
    assert(quotes@.take(i as int) =~= quotes@);
    r
}

/// The factor definitions that are read under one model version.
#[derive(Debug, PartialEq, Eq)]
pub struct FactorGroup {
    pub model_version_id: ModelVersionId,
    pub definition_ids: Vec<FactorDefinitionId>,
}

/// A factor group with its definitions as a sequence.
#[verifier::ext_equal]
pub ghost struct FactorGroupView {
    pub model_version_id: ModelVersionId,
    pub definition_ids: Seq<FactorDefinitionId>,
}

impl View for FactorGroup {
    type V = FactorGroupView;

    open spec fn view(&self) -> FactorGroupView {
        FactorGroupView {
            model_version_id: self.model_version_id,
            definition_ids: self.definition_ids@,
        }
    }
}

/// Factor groups with their definitions as sequences.
pub open spec fn group_views(groups: Seq<FactorGroup>) -> Seq<FactorGroupView> {
    groups.map_values(|g: FactorGroup| g@)
}

/// The group of a model version.
pub open spec fn group_of(groups: Seq<FactorGroupView>, model_version_id: ModelVersionId) -> Option<
    int,
> {
    first_where(groups, |g: FactorGroupView| g.model_version_id == model_version_id)
}

/// The groups with one more condition.
pub open spec fn grouped_with(
    groups: Seq<FactorGroupView>,
    condition: FactorCondition,
) -> Seq<FactorGroupView> {
    match group_of(groups, condition.model_version_id) {
        Some(position) => groups.update(
            position,
            FactorGroupView {
                model_version_id: condition.model_version_id,
                definition_ids: with_unique(
                    groups[position].definition_ids,
                    condition.definition_id,
                ),
            },
        ),
        None => groups.push(
            FactorGroupView {
                model_version_id: condition.model_version_id,
                definition_ids: seq![condition.definition_id],
            },
        ),
    }
}

/// Conditions grouped by model version, both in the order of their first
/// appearance.
pub open spec fn factor_groups(required: Seq<FactorCondition>) -> Seq<FactorGroupView>
    decreases required.len(),
{
    if required.len() == 0 {
        Seq::empty()
    } else {
        grouped_with(factor_groups(required.drop_last()), required.last())
    }
}

/// Groups factor conditions by model version.
pub fn group_factors(required: &Vec<FactorCondition>) -> (r: Vec<FactorGroup>)
    ensures
        group_views(r@) == factor_groups(required@),
{
    let mut groups: Vec<FactorGroup> = Vec::new();
    let mut i: usize = 0;
    assert(required@.take(0) =~= Seq::<FactorCondition>::empty());
    assert(group_views(groups@) =~= Seq::<FactorGroupView>::empty());
    while i < required.len()
        invariant
            i <= required.len(),
            group_views(groups@) == factor_groups(required@.take(i as int)),
        decreases required.len() - i,
    {
        assert(required@.take(i + 1).drop_last() =~= required@.take(i as int));
        assert(required@.take(i + 1).last() == required@[i as int]);
        let condition = required[i];
        let ghost before = group_views(groups@);
        match find_group(&groups, condition.model_version_id) {
            Some(position) => {
                let mut group = groups.remove(position);
                push_unique(&mut group.definition_ids, condition.definition_id);
                groups.insert(position, group);
                assert(group_views(groups@) =~= grouped_with(before, condition));
            },
            None => {
                let mut definition_ids: Vec<FactorDefinitionId> = Vec::new();
                definition_ids.push(condition.definition_id);
                groups.push(
                    FactorGroup { model_version_id: condition.model_version_id, definition_ids },
                );
                assert(groups@.last()@.definition_ids =~= seq![condition.definition_id]);
                assert(group_views(groups@) =~= grouped_with(before, condition));
            },
        }
        i = i + 1;
    }
    assert(required@.take(i as int) =~= required@);
    groups
}

fn find_group(groups: &Vec<FactorGroup>, model_version_id: ModelVersionId) -> (r: Option<usize>)
    ensures
        match r {
            Some(position) => group_of(group_views(groups@), model_version_id) == Some(
                position as int,
            ) && position < groups.len() && groups@[position as int].model_version_id
                == model_version_id,
            None => group_of(group_views(groups@), model_version_id) is None,
        },
{
    let ghost views = group_views(groups@);
    let ghost test = |g: FactorGroupView| g.model_version_id == model_version_id;
    let mut i: usize = 0;
    while i < groups.len()
        invariant
            i <= groups.len(),
            views == group_views(groups@),
            test == (|g: FactorGroupView| g.model_version_id == model_version_id),
            forall|j: int| 0 <= j < i ==> !test(#[trigger] views[j]),
        decreases groups.len() - i,
    {
        assert(views[i as int] == groups@[i as int]@);
        if groups[i].model_version_id == model_version_id {
            proof {
                lemma_first_found(views, test, i as int);
            }
            return Some(i);
        }
        i = i + 1;
    }
    proof {
        lemma_first_missing(views, test);
    }
    None
}

/// Whether a factor is asked for under its model version.
pub open spec fn asked_for(
    groups: Seq<FactorGroupView>,
    model_version_id: ModelVersionId,
    definition_id: FactorDefinitionId,
) -> bool {
    exists|g: int|
        0 <= g < groups.len() && (#[trigger] groups[g]).model_version_id == model_version_id
            && groups[g].definition_ids.contains(definition_id)
}

/// Every required factor is asked for under its model version, and each model
/// version is asked for once.
pub proof fn factor_groups_cover_the_conditions(required: Seq<FactorCondition>)
    ensures
        forall|i: int|
            0 <= i < required.len() ==> asked_for(
                factor_groups(required),
                (#[trigger] required[i]).model_version_id,
                required[i].definition_id,
            ),
        forall|a: int, b: int|
            #![trigger factor_groups(required)[a], factor_groups(required)[b]]
            0 <= a < b < factor_groups(required).len() ==> factor_groups(
                required,
            )[a].model_version_id != factor_groups(required)[b].model_version_id,
    decreases required.len(),
{
    if required.len() > 0 {
        let front = required.drop_last();
        factor_groups_cover_the_conditions(front);
        let before = factor_groups(front);
        let latest = required.last();
        let after = grouped_with(before, latest);
        let test = |g: FactorGroupView| g.model_version_id == latest.model_version_id;
        crate::search::first_match_is_first(before, test);
        match group_of(before, latest.model_version_id) {
            Some(position) => {
                assert(test(before[position]));
                let ids = before[position].definition_ids;
                let widened = with_unique(ids, latest.definition_id);
                assert(widened.contains(latest.definition_id)) by {
                    if has_alike(ids, latest.definition_id) {
                        let k = choose|k: int|
                            0 <= k < ids.len() && #[trigger] ids[k].alike(&latest.definition_id);
                        assert(ids[k] == latest.definition_id);
                    } else {
                        assert(widened[ids.len() as int] == latest.definition_id);
                    }
                }
                assert forall|i: int| 0 <= i < required.len() implies asked_for(
                    after,
                    (#[trigger] required[i]).model_version_id,
                    required[i].definition_id,
                ) by {
                    if i == required.len() - 1 {
                        assert(after[position].definition_ids == widened);
                    } else {
                        assert(front[i] == required[i]);
                        let g = choose|g: int|
                            0 <= g < before.len() && (#[trigger] before[g]).model_version_id
                                == required[i].model_version_id
                                && before[g].definition_ids.contains(required[i].definition_id);
                        assert(after[g].model_version_id == required[i].model_version_id);
                        if g == position {
                            let k = choose|k: int|
                                0 <= k < ids.len() && ids[k] == required[i].definition_id;
                            assert(widened[k] == ids[k]);
                        }
                        assert(after[g].definition_ids.contains(required[i].definition_id));
                    }
                }
            },
            None => {
                assert forall|i: int| 0 <= i < required.len() implies asked_for(
                    after,
                    (#[trigger] required[i]).model_version_id,
                    required[i].definition_id,
                ) by {
                    if i == required.len() - 1 {
                        let g = before.len() as int;
                        assert(after[g].definition_ids[0] == latest.definition_id);
                    } else {
                        assert(front[i] == required[i]);
                        let g = choose|g: int|
                            0 <= g < before.len() && (#[trigger] before[g]).model_version_id
                                == required[i].model_version_id
                                && before[g].definition_ids.contains(required[i].definition_id);
                        assert(after[g] == before[g]);
                    }
                }
                assert forall|a: int, b: int|
                    #![trigger after[a], after[b]]
                    0 <= a < b < after.len() implies after[a].model_version_id
                    != after[b].model_version_id by {
                    assert(after[a] == before[a]);
                    if b == before.len() {
                        assert(!test(before[a]));
                    } else {
                        assert(after[b] == before[b]);
                    }
                }
            },
        }
    }
}

/// One value of a factor snapshot.
#[derive(Clone, Copy, Debug, PartialEq, Eq)]
pub struct FactorValue {
    pub definition_id: FactorDefinitionId,
    pub definition_hash: ContentHash,
    pub raw_value: Option<Decimal>,
    pub normalized_score: Option<Decimal>,
    pub confidence: Decimal,
}

/// The latest factor values under one model version.
#[derive(Debug, PartialEq, Eq)]
pub struct FactorBundle {
    pub model_version_id: ModelVersionId,
    pub observed_at: Timestamp,
    pub available_at: Timestamp,
    pub snapshot_hash: ContentHash,
    pub values: Vec<FactorValue>,
}

/// The inputs that the values of a bundle give: those with both a raw and a
/// normalized value.
pub open spec fn bundle_inputs(bundle: FactorBundle, values: Seq<FactorValue>) -> Seq<
    FactorSnapshotInput,
>
    decreases values.len(),
{
    if values.len() == 0 {
        Seq::empty()
    } else {
        let front = bundle_inputs(bundle, values.drop_last());
        let value = values.last();
        if value.raw_value is Some && value.normalized_score is Some {
            front.push(
                FactorSnapshotInput {
                    definition_id: value.definition_id,
                    definition_hash: value.definition_hash,
                    model_version_id: bundle.model_version_id,
                    raw_value: value.raw_value->0,
                    normalized_value: value.normalized_score->0,
                    confidence: value.confidence,
                    observed_at: bundle.observed_at,
                    available_at: bundle.available_at,
                    snapshot_hash: bundle.snapshot_hash,
                },
            )
        } else {
            front
        }
    }
}

/// Whether a bundle is later than the cutoff.
pub open spec fn past_cutoff(bundle: FactorBundle, available_by: Timestamp) -> bool {
    bundle.observed_at@ > available_by@ || bundle.available_at@ > available_by@
}

/// The refusal of a bundle that is later than the cutoff.
pub open spec fn cutoff_violation(bundle: FactorBundle, available_by: Timestamp) -> ErrorView {
    ErrorView::InvariantViolation {
        entity: "quant_factor"@,
        detail: "factor snapshot "@ + bundle.snapshot_hash.text()
            + " exceeded entry-condition cutoff "@ + available_by.text(),
    }
}

/// The inputs of bundles, one after the other.
pub open spec fn factor_inputs(bundles: Seq<FactorBundle>, available_by: Timestamp) -> Result<
    Seq<FactorSnapshotInput>,
    ErrorView,
>
    decreases bundles.len(),
{
    if bundles.len() == 0 {
        Ok(Seq::empty())
    } else {
        match factor_inputs(bundles.drop_last(), available_by) {
            Err(error) => Err(error),
            Ok(front) => if past_cutoff(bundles.last(), available_by) {
                Err(cutoff_violation(bundles.last(), available_by))
            } else {
                Ok(front + bundle_inputs(bundles.last(), bundles.last().values@))
            },
        }
    }
}

proof fn lemma_factor_prefix(bundles: Seq<FactorBundle>, available_by: Timestamp, n: int)
    requires
        0 <= n <= bundles.len(),
        factor_inputs(bundles.take(n), available_by) is Err,
    ensures
        factor_inputs(bundles, available_by) == factor_inputs(bundles.take(n), available_by),
    decreases bundles.len() - n,
{
    if n == bundles.len() {
        assert(bundles.take(n) =~= bundles);
    } else {
        assert(bundles.take(n + 1).drop_last() =~= bundles.take(n));
        lemma_factor_prefix(bundles, available_by, n + 1);
    }
}

/// Turns factor bundles into inputs; a bundle later than the cutoff is refused.
pub fn load_factors(bundles: &Vec<FactorBundle>, available_by: Timestamp) -> (r: Result<
    Vec<FactorSnapshotInput>,
    ExecutionError,
>)
    ensures
        match factor_inputs(bundles@, available_by) {
            Ok(inputs) => r is Ok && r->Ok_0@ == inputs,
            Err(error) => r is Err && r->Err_0@ == error,
        },
{
    let mut r: Vec<FactorSnapshotInput> = Vec::new();
    let mut i: usize = 0;
    assert(bundles@.take(0) =~= Seq::<FactorBundle>::empty());
    while i < bundles.len()
        invariant
            i <= bundles.len(),
            factor_inputs(bundles@.take(i as int), available_by) == Ok::<
                Seq<FactorSnapshotInput>,
                ErrorView,
            >(r@),
        decreases bundles.len() - i,
    {
        assert(bundles@.take(i + 1).drop_last() =~= bundles@.take(i as int));
        assert(bundles@.take(i + 1).last() == bundles@[i as int]);
        let bundle = &bundles[i];
        if available_by.before(bundle.observed_at) || available_by.before(bundle.available_at) {
            proof {
                lemma_factor_prefix(bundles@, available_by, i + 1);
            }
            return Err(
                ExecutionError::InvariantViolation {
                    entity: "quant_factor",
                    detail: "factor snapshot ".to_owned().concat(
                        bundle.snapshot_hash.to_text().as_str(),
                    ).concat(" exceeded entry-condition cutoff ").concat(
                        available_by.to_text().as_str(),
                    ),
                },
            );
        }
        let ghost before = r@;
        let mut k: usize = 0;
        assert(bundle.values@.take(0) =~= Seq::<FactorValue>::empty());
        assert(before + Seq::<FactorSnapshotInput>::empty() =~= before);
        while k < bundle.values.len()
            invariant
                k <= bundle.values.len(),
                r@ == before + bundle_inputs(*bundle, bundle.values@.take(k as int)),
            decreases bundle.values.len() - k,
        {
            assert(bundle.values@.take(k + 1).drop_last() =~= bundle.values@.take(k as int));
            assert(bundle.values@.take(k + 1).last() == bundle.values@[k as int]);
            let value = bundle.values[k];
            if let (Some(raw_value), Some(normalized_value)) = (
                value.raw_value,
                value.normalized_score,
            ) {
                r.push(
                    FactorSnapshotInput {
                        definition_id: value.definition_id,
                        definition_hash: value.definition_hash,
                        model_version_id: bundle.model_version_id,
                        raw_value,
                        normalized_value,
                        confidence: value.confidence,
                        observed_at: bundle.observed_at,
                        available_at: bundle.available_at,
                        snapshot_hash: bundle.snapshot_hash,
                    },
                );
            }
            k = k + 1;
            assert(r@ =~= before + bundle_inputs(*bundle, bundle.values@.take(k as int)));
        }
        assert(bundle.values@.take(k as int) =~= bundle.values@);
        i = i + 1;
    }
    assert(bundles@.take(i as int) =~= bundles@);
    Ok(r)
}

/// No factor input is later than the cutoff.
pub proof fn factor_inputs_respect_the_cutoff(bundles: Seq<FactorBundle>, available_by: Timestamp)
    requires
        factor_inputs(bundles, available_by) is Ok,
    ensures
        forall|i: int|
            0 <= i < factor_inputs(bundles, available_by)->Ok_0.len() ==> (
            #[trigger] factor_inputs(bundles, available_by)->Ok_0[i]).observed_at@ <= available_by@
                && factor_inputs(bundles, available_by)->Ok_0[i].available_at@ <= available_by@,
    decreases bundles.len(),
{
    if bundles.len() > 0 {
        factor_inputs_respect_the_cutoff(bundles.drop_last(), available_by);
        lemma_bundle_times(bundles.last(), bundles.last().values@);
    }
}

proof fn lemma_bundle_times(bundle: FactorBundle, values: Seq<FactorValue>)
    ensures
        forall|i: int|
            0 <= i < bundle_inputs(bundle, values).len() ==> (#[trigger] bundle_inputs(
                bundle,
                values,
            )[i]).observed_at == bundle.observed_at && bundle_inputs(bundle, values)[i].available_at
                == bundle.available_at,
    decreases values.len(),
{
    if values.len() > 0 {
        lemma_bundle_times(bundle, values.drop_last());
        let front = bundle_inputs(bundle, values.drop_last());
        let inputs = bundle_inputs(bundle, values);
        assert forall|i: int| 0 <= i < inputs.len() implies (
        #[trigger] inputs[i]).observed_at == bundle.observed_at && inputs[i].available_at
            == bundle.available_at by {
            if i < front.len() {
                assert(inputs[i] == front[i]);
            }
        }
    }
}

/// The stored state of a station's day.
#[derive(Debug, PartialEq, Eq)]
pub struct WeatherProjection {
    pub source_id: Ident,
    pub instrument_key: Ident,
    pub station: Ident,
    pub local_date: LocalDate,
    pub temperature_statistic: WeatherTemperatureStatistic,
    pub whole_celsius: Decimal,
    pub whole_fahrenheit: Decimal,
    pub last_observation_time: Timestamp,
    pub available_at: Timestamp,
    pub revision: i64,
    pub day_closed: bool,
    pub last_report_hash: ContentHash,
    pub gap_generation: i64,
    pub source_healthy: bool,
}

/// A broken invariant of a weather projection.
pub open spec fn weather_violation(detail: Seq<char>) -> ErrorView {
    ErrorView::InvariantViolation {
        entity: "quant_weather_daily_temperature_projection"@,
        detail: detail + crate::text::conversion_overflow(),
    }
}

/// The input of a station's day, under the binding hash that the condition has.
pub open spec fn weather_input(required: RequiredWeather, projection: WeatherProjection) -> Result<
    WeatherDailyTemperatureInput,
    ErrorView,
> {
    if projection.revision < 0 {
        Err(weather_violation("stored weather projection revision is invalid: "@))
    } else if projection.gap_generation < 0 {
        Err(weather_violation("stored weather gap generation is invalid: "@))
    } else {
        Ok(
            WeatherDailyTemperatureInput {
                key: RequiredWeather {
                    source: EntryConditionSourceBinding {
                        source_id: projection.source_id,
                        instrument_key: projection.instrument_key,
                        binding_hash: required.source.binding_hash,
                    },
                    station: projection.station,
                    local_date: projection.local_date,
                    temperature_statistic: projection.temperature_statistic,
                },
                whole_celsius: projection.whole_celsius,
                whole_fahrenheit: projection.whole_fahrenheit,
                observation_time: projection.last_observation_time,
                available_at: projection.available_at,
                revision: projection.revision as u64,
                day_closed: projection.day_closed,
                report_hash: projection.last_report_hash,
                gap_generation: projection.gap_generation as u64,
                source_healthy: projection.source_healthy,
            },
        )
    }
}

fn weather_defect(detail: &str) -> (r: ExecutionError)
    ensures
        r@ == weather_violation(detail@),
{
    ExecutionError::InvariantViolation {
        entity: "quant_weather_daily_temperature_projection",
        detail: detail.to_owned().concat("out of range integral type conversion attempted"),
    }
}

/// Turns the stored state of a station's day into its input.
pub fn load_weather(required: &RequiredWeather, projection: WeatherProjection) -> (r: Result<
    WeatherDailyTemperatureInput,
    ExecutionError,
>)
    ensures
        outcome(r) == weather_input(*required, projection),
{
    if projection.revision < 0 {
        return Err(weather_defect("stored weather projection revision is invalid: "));
    }
    if projection.gap_generation < 0 {
        return Err(weather_defect("stored weather gap generation is invalid: "));
    }
    Ok(
        WeatherDailyTemperatureInput {
            key: RequiredWeather {
                source: EntryConditionSourceBinding {
                    source_id: projection.source_id,
                    instrument_key: projection.instrument_key,
                    binding_hash: required.source.binding_hash,
                },
                station: projection.station,
                local_date: projection.local_date,
                temperature_statistic: projection.temperature_statistic,
            },
            whole_celsius: projection.whole_celsius,
            whole_fahrenheit: projection.whole_fahrenheit,
            observation_time: projection.last_observation_time,
            available_at: projection.available_at,
            revision: projection.revision as u64,
            day_closed: projection.day_closed,
            report_hash: projection.last_report_hash,
            gap_generation: projection.gap_generation as u64,
            source_healthy: projection.source_healthy,
        },
    )
}

/// What a recommendation says of its binding.
#[derive(Debug, PartialEq, Eq)]
pub struct BoundRecommendation {
    pub market_id: MarketId,
    pub token_id: TokenId,
    pub outcome_side: OutcomeSide,
    pub market_selection_id: u128,
    pub model_version_id: ModelVersionId,
    pub decision_policy_snapshot_id: PolicySnapshotId,
}

/// A frozen catalog snapshot.
#[derive(Clone, Copy, Debug, PartialEq, Eq, Structural)]
pub struct BoundSelection {
    pub selector_hash: ContentHash,
    pub decision_policy_snapshot_id: PolicySnapshotId,
}

/// How far a market is linked to its subject.
#[derive(Clone, Copy, Debug, PartialEq, Eq, Structural)]
pub enum LinkageStatus {
    Resolved,
    Overridden,
    Unresolved,
}

/// A link between a market and its subject.
#[derive(Debug, PartialEq, Eq)]
pub struct BoundLinkage {
    pub linkage_id: u128,
    pub market_id: MarketId,
    pub content_hash: ContentHash,
    pub status: LinkageStatus,
}

/// A decision-policy snapshot.
#[derive(Clone, Copy, Debug, PartialEq, Eq, Structural)]
pub struct BoundPolicy {
    pub decision_policy_snapshot_id: PolicySnapshotId,
    pub snapshot_hash: ContentHash,
}

/// What storage and the runtime know of a binding now.
#[derive(Debug, PartialEq, Eq)]
pub struct BindingEvidence {
    pub recommendation: Option<BoundRecommendation>,
    pub selection: Option<BoundSelection>,
    /// The linkage that the binding names.
    pub linkage: Option<BoundLinkage>,
    /// The latest linkage of the market.
    pub latest_linkage: Option<BoundLinkage>,
    /// The artifact hash of the model version.
    pub model_artifact_hash: Option<ContentHash>,
    pub current_policy: Option<BoundPolicy>,
    /// The model versions that the buy routes have as champions.
    pub champions: Vec<ModelVersionId>,
    /// The factor definitions that were found.
    pub factors: Vec<FactorBinding>,
}

/// Whether the recommendation is still the one that was bound.
pub open spec fn recommendation_holds(
    expected: EntryConditionBinding,
    evidence: BindingEvidence,
) -> bool {
    evidence.recommendation matches Some(found) && found.market_id@ == expected.market_id@
        && found.token_id@ == expected.token_id@ && found.outcome_side == expected.outcome_side
        && found.market_selection_id == expected.catalog_snapshot_id && found.model_version_id
        == expected.model_version_id && found.decision_policy_snapshot_id
        == expected.decision_policy_snapshot_id
}

/// Whether the catalog snapshot is still the one that was bound.
pub open spec fn selection_holds(
    expected: EntryConditionBinding,
    evidence: BindingEvidence,
) -> bool {
    evidence.selection matches Some(found) && found.selector_hash == expected.catalog_snapshot_hash
        && found.decision_policy_snapshot_id == expected.decision_policy_snapshot_id
}

/// Whether the linkage, if one was bound, is confirmed, unchanged and still the
/// latest.
pub open spec fn linkage_holds(expected: EntryConditionBinding, evidence: BindingEvidence) -> bool {
    expected.market_linkage_id is Some ==> {
        &&& evidence.linkage matches Some(found) && Some(found.content_hash)
            == expected.market_linkage_hash && found.market_id@ == expected.market_id@ && (
        found.status is Resolved || found.status is Overridden)
        &&& evidence.latest_linkage matches Some(latest) && Some(latest.linkage_id)
            == expected.market_linkage_id && Some(latest.content_hash)
            == expected.market_linkage_hash
    }
}

/// Whether the model exists, is routed to, and runs under the bound policy.
pub open spec fn model_holds(expected: EntryConditionBinding, evidence: BindingEvidence) -> bool {
    &&& evidence.model_artifact_hash is Some
    &&& evidence.current_policy matches Some(policy) && policy.decision_policy_snapshot_id
        == expected.decision_policy_snapshot_id
    &&& evidence.champions@.contains(expected.model_version_id)
}

/// Whether a bound factor definition was found unchanged.
pub open spec fn factor_holds(binding: FactorBinding, found: Seq<FactorBinding>) -> bool {
    first_where(found, |f: FactorBinding| f.definition_id == binding.definition_id) matches Some(
        position,
    ) && found[position].definition_hash == binding.definition_hash
}

/// Whether all bound factor definitions were found unchanged, and no others.
pub open spec fn factors_hold(expected: EntryConditionBinding, evidence: BindingEvidence) -> bool {
    evidence.factors@.len() == expected.factor_bindings@.len() && forall|i: int|
        0 <= i < expected.factor_bindings@.len() ==> factor_holds(
            #[trigger] expected.factor_bindings@[i],
            evidence.factors@,
        )
}

/// Why a binding is no longer available, if it is not.
pub open spec fn binding_reason(
    expected: EntryConditionBinding,
    evidence: BindingEvidence,
) -> Option<ConditionUnavailableReason> {
    if !recommendation_holds(expected, evidence) {
        Some(ConditionUnavailableReason::BindingDrift)
    } else if !selection_holds(expected, evidence) {
        Some(ConditionUnavailableReason::CatalogSnapshotMismatch)
    } else if !linkage_holds(expected, evidence) {
        Some(ConditionUnavailableReason::MarketLinkageMismatch)
    } else if !model_holds(expected, evidence) {
        Some(ConditionUnavailableReason::BindingDrift)
    } else if !factors_hold(expected, evidence) {
        Some(ConditionUnavailableReason::FactorDefinitionMismatch)
    } else {
        None
    }
}

/// Whether a model version is the champion of a buy route.
pub fn model_is_active(champions: &Vec<ModelVersionId>, expected: ModelVersionId) -> (r: bool)
    ensures
        r == champions@.contains(expected),
{
    let mut i: usize = 0;
    while i < champions.len()
        invariant
            i <= champions.len(),
            forall|j: int| 0 <= j < i ==> champions@[j] != expected,
        decreases champions.len() - i,
    {
        if champions[i] == expected {
            assert(champions@[i as int] == expected);
            return true;
        }
        i = i + 1;
    }
    false
}

fn check_recommendation(expected: &EntryConditionBinding, evidence: &BindingEvidence) -> (r: bool)
    ensures
        r == recommendation_holds(*expected, *evidence),
{
    match &evidence.recommendation {
        Some(found) => found.market_id.same(&expected.market_id) && found.token_id.same(
            &expected.token_id,
        ) && found.outcome_side == expected.outcome_side && found.market_selection_id
            == expected.catalog_snapshot_id && found.model_version_id == expected.model_version_id
            && found.decision_policy_snapshot_id == expected.decision_policy_snapshot_id,
        None => false,
    }
}

fn check_linkage(expected: &EntryConditionBinding, evidence: &BindingEvidence) -> (r: bool)
    ensures
        r == linkage_holds(*expected, *evidence),
{
    let linkage_id: u128 = match expected.market_linkage_id {
        Some(linkage_id) => linkage_id,
        None => return true,
    };
    let named = match (&evidence.linkage, expected.market_linkage_hash) {
        (Some(found), Some(hash)) => found.content_hash == hash && found.market_id.same(
            &expected.market_id,
        ) && (found.status == LinkageStatus::Resolved || found.status
            == LinkageStatus::Overridden),
        _ => false,
    };
    let latest = match (&evidence.latest_linkage, expected.market_linkage_hash) {
        (Some(found), Some(hash)) => found.linkage_id == linkage_id && found.content_hash == hash,
        _ => false,
    };
    named && latest
}

fn check_factor(binding: FactorBinding, found: &Vec<FactorBinding>) -> (r: bool)
    ensures
        r == factor_holds(binding, found@),
{
    let ghost test = |f: FactorBinding| f.definition_id == binding.definition_id;
    let mut i: usize = 0;
    while i < found.len()
        invariant
            i <= found.len(),
            test == (|f: FactorBinding| f.definition_id == binding.definition_id),
            forall|j: int| 0 <= j < i ==> !test(#[trigger] found@[j]),
        decreases found.len() - i,
    {
        if found[i].definition_id == binding.definition_id {
            proof {
                lemma_first_found(found@, test, i as int);
            }
            return found[i].definition_hash == binding.definition_hash;
        }
        i = i + 1;
    }
    proof {
        lemma_first_missing(found@, test);
    }
    false
}

fn check_factors(expected: &EntryConditionBinding, evidence: &BindingEvidence) -> (r: bool)
    ensures
        r == factors_hold(*expected, *evidence),
{
    if evidence.factors.len() != expected.factor_bindings.len() {
        return false;
    }
    let mut i: usize = 0;
    while i < expected.factor_bindings.len()
        invariant
            i <= expected.factor_bindings.len(),
            forall|j: int|
                0 <= j < i ==> factor_holds(
                    #[trigger] expected.factor_bindings@[j],
                    evidence.factors@,
                ),
        decreases expected.factor_bindings.len() - i,
    {
        if !check_factor(expected.factor_bindings[i], &evidence.factors) {
            assert(!factor_holds(expected.factor_bindings@[i as int], evidence.factors@));
            return false;
        }
        i = i + 1;
    }
    true
}

/// Holds a binding against what is known now.
pub fn resolve_binding(expected: &EntryConditionBinding, evidence: &BindingEvidence) -> (r: Option<
    ConditionUnavailableReason,
>)
    ensures
        r == binding_reason(*expected, *evidence),
{
    if !check_recommendation(expected, evidence) {
        return Some(ConditionUnavailableReason::BindingDrift);
    }
    let selection = match evidence.selection {
        Some(found) => found.selector_hash == expected.catalog_snapshot_hash
            && found.decision_policy_snapshot_id == expected.decision_policy_snapshot_id,
        None => false,
    };
    if !selection {
        return Some(ConditionUnavailableReason::CatalogSnapshotMismatch);
    }
    if !check_linkage(expected, evidence) {
        return Some(ConditionUnavailableReason::MarketLinkageMismatch);
    }
    let policy = match evidence.current_policy {
        Some(policy) => policy.decision_policy_snapshot_id == expected.decision_policy_snapshot_id,
        None => false,
    };
    if evidence.model_artifact_hash.is_none() || !policy || !model_is_active(
        &evidence.champions,
        expected.model_version_id,
    ) {
        return Some(ConditionUnavailableReason::BindingDrift);
    }
    if !check_factors(expected, evidence) {
        return Some(ConditionUnavailableReason::FactorDefinitionMismatch);
    }
    None
}

/// What the revision of a binding is hashed over, beside the binding itself.
#[derive(Debug, PartialEq, Eq)]
pub struct BindingRevisionBasis {
    pub selector_hash: Option<ContentHash>,
    pub linkage_hash: Option<ContentHash>,
    pub latest_linkage_hash: Option<ContentHash>,
    pub model_artifact_hash: Option<ContentHash>,
    pub policy_snapshot_hash: Option<ContentHash>,
    pub factors: Vec<FactorBinding>,
}

/// Collects what the revision of a binding is hashed over.
pub fn binding_revision_basis(evidence: &BindingEvidence) -> (r: BindingRevisionBasis)
    ensures
        r.selector_hash == (match evidence.selection {
            Some(found) => Some(found.selector_hash),
            None => None,
        }),
        r.linkage_hash == (match evidence.linkage {
            Some(found) => Some(found.content_hash),
            None => None,
        }),
        r.latest_linkage_hash == (match evidence.latest_linkage {
            Some(found) => Some(found.content_hash),
            None => None,
        }),
        r.model_artifact_hash == evidence.model_artifact_hash,
        r.policy_snapshot_hash == (match evidence.current_policy {
            Some(found) => Some(found.snapshot_hash),
            None => None,
        }),
        r.factors@ == evidence.factors@,
{
    let mut factors: Vec<FactorBinding> = Vec::new();
    let mut i: usize = 0;
    while i < evidence.factors.len()
        invariant
            i <= evidence.factors.len(),
            factors@ == evidence.factors@.take(i as int),
        decreases evidence.factors.len() - i,
    {
        factors.push(evidence.factors[i]);
        assert(factors@ =~= evidence.factors@.take(i + 1));
        i = i + 1;
    }
    assert(factors@ =~= evidence.factors@);
    BindingRevisionBasis {
        selector_hash: match &evidence.selection {
            Some(found) => Some(found.selector_hash),
            None => None,
        },
        linkage_hash: match &evidence.linkage {
            Some(found) => Some(found.content_hash),
            None => None,
        },
        latest_linkage_hash: match &evidence.latest_linkage {
            Some(found) => Some(found.content_hash),
            None => None,
        },
        model_artifact_hash: evidence.model_artifact_hash,
        policy_snapshot_hash: match &evidence.current_policy {
            Some(found) => Some(found.snapshot_hash),
            None => None,
        },
        factors,
    }
}

/// A binding is available exactly while everything that was bound still holds.
pub proof fn a_binding_fails_closed(expected: EntryConditionBinding, evidence: BindingEvidence)
    ensures
        binding_reason(expected, evidence) is None <==> recommendation_holds(expected, evidence)
            && selection_holds(expected, evidence) && linkage_holds(expected, evidence)
            && model_holds(expected, evidence) && factors_hold(expected, evidence),
{
}

} // verus!
