//! The fold of source-native crypto reports into a latched crossing.
use vstd::prelude::*;

use crate::decimal::Usd;
use crate::entry_condition::model::{
    same_hash, CryptoEnteredFoldState, CryptoPriceInput, CryptoPriceReportInput,
    CryptoSubjectPredicateEntered, EntryConditionFoldState, PriceBoundaryInclusion,
    PriceComparator,
};
use crate::search::{first_match_is_first, first_where, lemma_first_found, lemma_first_missing};
use crate::sorting::{
    arrange, arranged, arranging_sorts, lemma_single_key, lex_less, placed, Keyed,
};
use crate::types::OutcomeSide;

verus! {

/// Whether a price lies on the comparator's YES side; `None` where the strike
/// or reference that the comparator needs is absent.
pub open spec fn is_yes(
    comparator: PriceComparator,
    strike: Option<Usd>,
    reference: Option<Usd>,
    price: Usd,
) -> Option<bool> {
    match comparator {
        PriceComparator::GreaterThan => match strike {
            Some(level) => Some(price@ > level@),
            None => None,
        },
        PriceComparator::GreaterThanOrEqual => match strike {
            Some(level) => Some(price@ >= level@),
            None => None,
        },
        PriceComparator::LessThan => match strike {
            Some(level) => Some(price@ < level@),
            None => None,
        },
        PriceComparator::LessThanOrEqual => match strike {
            Some(level) => Some(price@ <= level@),
            None => None,
        },
        PriceComparator::Between { hi, lower, upper } => match strike {
            Some(level) => Some(
                (if lower is Inclusive {
                    price@ >= level@
                } else {
                    price@ > level@
                }) && (if upper is Inclusive {
                    price@ <= hi@
                } else {
                    price@ < hi@
                }),
            ),
            None => None,
        },
        PriceComparator::UpVsReference => match reference {
            Some(level) => Some(price@ >= level@),
            None => None,
        },
    }
}

/// The outcome that a price stands for; `None` where the strike or reference
/// that the comparator needs is absent.
pub open spec fn spec_outcome(
    comparator: PriceComparator,
    strike: Option<Usd>,
    reference: Option<Usd>,
    price: Usd,
) -> Option<OutcomeSide> {
    match is_yes(comparator, strike, reference, price) {
        Some(true) => Some(OutcomeSide::Yes),
        Some(false) => Some(OutcomeSide::No),
        None => None,
    }
}

/// The outcome that a price stands for.
pub fn crypto_outcome(
    comparator: PriceComparator,
    strike: Option<Usd>,
    reference: Option<Usd>,
    price: Usd,
) -> (r: Option<OutcomeSide>)
    ensures
        r == spec_outcome(comparator, strike, reference, price),
{
    let yes = match comparator {
        PriceComparator::GreaterThan => match strike {
            Some(level) => level.lt(price),
            None => {
                return None;
            },
        },
        PriceComparator::GreaterThanOrEqual => match strike {
            Some(level) => level.le(price),
            None => {
                return None;
            },
        },
        PriceComparator::LessThan => match strike {
            Some(level) => price.lt(level),
            None => {
                return None;
            },
        },
        PriceComparator::LessThanOrEqual => match strike {
            Some(level) => price.le(level),
            None => {
                return None;
            },
        },
        PriceComparator::Between { hi, lower, upper } => match strike {
            Some(level) => {
                let above_lower = match lower {
                    PriceBoundaryInclusion::Inclusive => level.le(price),
                    PriceBoundaryInclusion::Exclusive => level.lt(price),
                };
                let below_upper = match upper {
                    PriceBoundaryInclusion::Inclusive => price.le(hi),
                    PriceBoundaryInclusion::Exclusive => price.lt(hi),
                };
                above_lower && below_upper
            },
            None => {
                return None;
            },
        },
        PriceComparator::UpVsReference => match reference {
            Some(level) => level.le(price),
            None => {
                return None;
            },
        },
    };
    Some(
        if yes {
            OutcomeSide::Yes
        } else {
            OutcomeSide::No
        },
    )
}

/// One more discontinuity, as far as they can be counted.
pub open spec fn next_epoch(epoch: u64) -> u64 {
    if epoch == u64::MAX {
        epoch
    } else {
        (epoch + 1) as u64
    }
}

fn count_up(epoch: u64) -> (r: u64)
    ensures
        r == next_epoch(epoch),
{
    if epoch == u64::MAX {
        epoch
    } else {
        epoch + 1
    }
}

impl CryptoEnteredFoldState {
    /// The fold of a leaf that has seen nothing.
    pub open spec fn fresh(node_id: u16, input: CryptoPriceInput) -> CryptoEnteredFoldState {
        CryptoEnteredFoldState {
            node_id,
            source: input.source,
            last_outcome: None,
            latched: false,
            last_source_sequence: None,
            last_report_hash: None,
            last_event_at: None,
            last_available_at: None,
            gap_generation: input.gap_generation,
            discontinuity_epoch: 0,
            triggering_report_hash: None,
            triggering_at: None,
        }
    }

    /// The fold after its source changed or lost facts: nothing seen, one more
    /// discontinuity.
    pub open spec fn restarted(self, input: CryptoPriceInput) -> CryptoEnteredFoldState {
        CryptoEnteredFoldState {
            discontinuity_epoch: next_epoch(self.discontinuity_epoch),
            ..CryptoEnteredFoldState::fresh(self.node_id, input)
        }
    }

    /// Whether facts of this input continue the fold.
    pub open spec fn continues(self, input: CryptoPriceInput) -> bool {
        self.source@ == input.source@ && self.gap_generation == input.gap_generation
    }

    /// The fold without its latch; taking one away is a discontinuity.
    pub open spec fn unlatched(self) -> CryptoEnteredFoldState {
        if self.latched {
            CryptoEnteredFoldState {
                latched: false,
                triggering_report_hash: None,
                triggering_at: None,
                discontinuity_epoch: next_epoch(self.discontinuity_epoch),
                ..self
            }
        } else {
            self
        }
    }

    /// Whether the report is the one that was folded last.
    pub open spec fn has_seen(self, report: CryptoPriceReportInput) -> bool {
        self.last_source_sequence == Some(report.source_sequence) && self.last_report_hash == Some(
            report.report_hash,
        )
    }

    /// Whether the report takes back what was folded before.
    pub open spec fn is_corrected_by(self, report: CryptoPriceReportInput) -> bool {
        self.last_source_sequence is Some && report.source_sequence
            <= self.last_source_sequence->0
    }

    /// The fold before the outcome of `report` is looked at: a correction
    /// forgets side and latch and is a discontinuity.
    pub open spec fn prepared_for(self, report: CryptoPriceReportInput) -> CryptoEnteredFoldState {
        if self.is_corrected_by(report) {
            CryptoEnteredFoldState {
                latched: false,
                last_outcome: None,
                triggering_report_hash: None,
                triggering_at: None,
                discontinuity_epoch: next_epoch(self.discontinuity_epoch),
                ..self
            }
        } else {
            self
        }
    }

    /// The fold after the price moved to `outcome`: it latches when the price
    /// crosses onto the recommended side and loses the latch, a discontinuity,
    /// when the price crosses off it.
    pub open spec fn moved_to(
        self,
        outcome: Option<OutcomeSide>,
        recommended: OutcomeSide,
        report: CryptoPriceReportInput,
    ) -> CryptoEnteredFoldState {
        match (self.last_outcome, outcome) {
            (Some(previous), Some(current)) => if previous != recommended && current
                == recommended {
                CryptoEnteredFoldState {
                    latched: true,
                    triggering_report_hash: Some(report.report_hash),
                    triggering_at: Some(report.event_at),
                    ..self
                }
            } else if previous == recommended && current != recommended {
                CryptoEnteredFoldState {
                    latched: false,
                    triggering_report_hash: None,
                    triggering_at: None,
                    discontinuity_epoch: next_epoch(self.discontinuity_epoch),
                    ..self
                }
            } else {
                self
            },
            _ => self,
        }
    }

    /// The fold after one report.
    pub open spec fn after_report(
        self,
        condition: CryptoSubjectPredicateEntered,
        report: CryptoPriceReportInput,
    ) -> CryptoEnteredFoldState {
        if self.has_seen(report) {
            self
        } else {
            let outcome = spec_outcome(
                condition.comparator,
                condition.strike,
                condition.reference_price,
                report.price,
            );
            CryptoEnteredFoldState {
                last_outcome: outcome,
                last_source_sequence: Some(report.source_sequence),
                last_report_hash: Some(report.report_hash),
                last_event_at: Some(report.event_at),
                last_available_at: Some(report.available_at),
                ..self.prepared_for(report).moved_to(outcome, condition.recommended_outcome, report)
            }
        }
    }

    /// The fold after a sequence of reports.
    pub open spec fn after_reports(
        self,
        condition: CryptoSubjectPredicateEntered,
        reports: Seq<CryptoPriceReportInput>,
    ) -> CryptoEnteredFoldState
        decreases reports.len(),
    {
        if reports.len() == 0 {
            self
        } else {
            self.after_reports(condition, reports.drop_last()).after_report(
                condition,
                reports.last(),
            )
        }
    }
}

impl Keyed for CryptoEnteredFoldState {
    open spec fn sort_key(&self) -> Seq<int> {
        seq![self.node_id as int]
    }

    fn key_before(&self, other: &Self) -> (r: bool) {
        proof {
            lemma_single_key(self.node_id as int, other.node_id as int);
        }
        self.node_id < other.node_id
    }
}

/// Where the fold of a leaf stands among the persisted folds.
pub open spec fn leaf_position(states: Seq<CryptoEnteredFoldState>, node_id: u16) -> Option<int> {
    first_where(states, |state: CryptoEnteredFoldState| state.node_id == node_id)
}

/// The fold with which the facts of this input are joined: the persisted one
/// if they continue it, a restarted one if they do not, a fresh one if there is
/// none.
pub open spec fn starting_fold(
    states: Seq<CryptoEnteredFoldState>,
    node_id: u16,
    input: CryptoPriceInput,
) -> CryptoEnteredFoldState {
    match leaf_position(states, node_id) {
        Some(position) => if states[position].continues(input) {
            states[position]
        } else {
            states[position].restarted(input)
        },
        None => CryptoEnteredFoldState::fresh(node_id, input),
    }
}

/// The fold of a leaf after an input.
pub open spec fn folded(
    states: Seq<CryptoEnteredFoldState>,
    node_id: u16,
    condition: CryptoSubjectPredicateEntered,
    input: CryptoPriceInput,
) -> CryptoEnteredFoldState {
    starting_fold(states, node_id, input).after_reports(condition, input.reports@)
}

/// The persisted folds with one leaf's fold replaced, or added in leaf order.
pub open spec fn stored(
    states: Seq<CryptoEnteredFoldState>,
    node_id: u16,
    state: CryptoEnteredFoldState,
) -> Seq<CryptoEnteredFoldState> {
    match leaf_position(states, node_id) {
        Some(position) => states.update(position, state),
        None => arranged(states.push(state)),
    }
}

pub(crate) fn find_leaf(states: &Vec<CryptoEnteredFoldState>, node_id: u16) -> (r: Option<usize>)
    ensures
        match r {
            Some(position) => position < states.len() && leaf_position(states@, node_id) == Some(
                position as int,
            ),
            None => leaf_position(states@, node_id) is None,
        },
{
    let ghost test = |state: CryptoEnteredFoldState| state.node_id == node_id;
    let mut i: usize = 0;
    while i < states.len()
        invariant
            i <= states.len(),
            test == (|state: CryptoEnteredFoldState| state.node_id == node_id),
            forall|j: int| 0 <= j < i ==> !test(#[trigger] states@[j]),
        decreases states.len() - i,
    {
        if states[i].node_id == node_id {
            proof {
                lemma_first_found(states@, test, i as int);
            }
            return Some(i);
        }
        i = i + 1;
    }
    proof {
        lemma_first_missing(states@, test);
    }
    None
}

fn fold_report(
    state: &mut CryptoEnteredFoldState,
    condition: &CryptoSubjectPredicateEntered,
    report: &CryptoPriceReportInput,
)
    ensures
        *final(state) == old(state).after_report(*condition, *report),
{
    let seen = match state.last_source_sequence {
        Some(sequence) => sequence == report.source_sequence && same_hash(
            state.last_report_hash,
            Some(report.report_hash),
        ),
        None => false,
    };
    if seen {
        return ;
    }
    let correction = match state.last_source_sequence {
        Some(sequence) => report.source_sequence <= sequence,
        None => false,
    };
    if correction {
        state.latched = false;
        state.last_outcome = None;
        state.triggering_report_hash = None;
        state.triggering_at = None;
        state.discontinuity_epoch = count_up(state.discontinuity_epoch);
    }
    let outcome = crypto_outcome(
        condition.comparator,
        condition.strike,
        condition.reference_price,
        report.price,
    );
    if let (Some(previous), Some(current)) = (state.last_outcome, outcome) {
        if previous != condition.recommended_outcome && current == condition.recommended_outcome {
            state.latched = true;
            state.triggering_report_hash = Some(report.report_hash);
            state.triggering_at = Some(report.event_at);
        } else if previous == condition.recommended_outcome && current
            != condition.recommended_outcome {
            state.latched = false;
            state.triggering_report_hash = None;
            state.triggering_at = None;
            state.discontinuity_epoch = count_up(state.discontinuity_epoch);
        }
    }
    state.last_outcome = outcome;
    state.last_source_sequence = Some(report.source_sequence);
    state.last_report_hash = Some(report.report_hash);
    state.last_event_at = Some(report.event_at);
    state.last_available_at = Some(report.available_at);
}

fn reset_crypto_continuity(
    state: &CryptoEnteredFoldState,
    input: &CryptoPriceInput,
) -> (r: CryptoEnteredFoldState)
    ensures
        r == state.restarted(*input),
{
    CryptoEnteredFoldState {
        node_id: state.node_id,
        source: input.source.clone(),
        last_outcome: None,
        latched: false,
        last_source_sequence: None,
        last_report_hash: None,
        last_event_at: None,
        last_available_at: None,
        gap_generation: input.gap_generation,
        discontinuity_epoch: count_up(state.discontinuity_epoch),
        triggering_report_hash: None,
        triggering_at: None,
    }
}

/// Fold an input into a leaf's persisted state and hand the state back.
pub fn fold_crypto_reports(
    node_id: u16,
    condition: &CryptoSubjectPredicateEntered,
    input: &CryptoPriceInput,
    fold_state: &mut EntryConditionFoldState,
) -> (r: CryptoEnteredFoldState)
    ensures
        r == folded(old(fold_state).crypto@, node_id, *condition, *input),
        final(fold_state).crypto@ == stored(old(fold_state).crypto@, node_id, r),
{
    let ghost before = fold_state.crypto@;
    let existing = find_leaf(&fold_state.crypto, node_id);
    let mut state = match existing {
        None => CryptoEnteredFoldState {
            node_id,
            source: input.source.clone(),
            last_outcome: None,
            latched: false,
            last_source_sequence: None,
            last_report_hash: None,
            last_event_at: None,
            last_available_at: None,
            gap_generation: input.gap_generation,
            discontinuity_epoch: 0,
            triggering_report_hash: None,
            triggering_at: None,
        },
        Some(position) => {
            let found = &fold_state.crypto[position];
            if found.source.same(&input.source) && found.gap_generation == input.gap_generation {
                found.clone()
            } else {
                reset_crypto_continuity(found, input)
            }
        },
    };
    let ghost start = state;
    assert(start == starting_fold(before, node_id, *input));
    let mut i: usize = 0;
    assert(input.reports@.take(0) =~= Seq::<CryptoPriceReportInput>::empty());
    while i < input.reports.len()
        invariant
            i <= input.reports.len(),
            state == start.after_reports(*condition, input.reports@.take(i as int)),
        decreases input.reports.len() - i,
    {
        assert(input.reports@.take(i + 1).drop_last() =~= input.reports@.take(i as int));
        assert(input.reports@.take(i + 1).last() == input.reports@[i as int]);
        fold_report(&mut state, condition, &input.reports[i]);
        i = i + 1;
    }
    assert(input.reports@.take(i as int) =~= input.reports@);
    match existing {
        Some(position) => {
            fold_state.crypto.set(position, state.clone());
        },
        None => {
            fold_state.crypto.push(state.clone());
            arrange(&mut fold_state.crypto);
        },
    }
    state
}

fn without_latch(state: &CryptoEnteredFoldState) -> (r: CryptoEnteredFoldState)
    ensures
        r == state.unlatched(),
{
    let mut r = state.clone();
    if r.latched {
        r.latched = false;
        r.triggering_report_hash = None;
        r.triggering_at = None;
        r.discontinuity_epoch = count_up(r.discontinuity_epoch);
    }
    r
}

/// The folds without any latch.
pub open spec fn all_unlatched(states: Seq<CryptoEnteredFoldState>) -> Seq<
    CryptoEnteredFoldState,
> {
    states.map_values(|state: CryptoEnteredFoldState| state.unlatched())
}

/// Take every latch away.
pub fn clear_crypto_latches(state: &mut EntryConditionFoldState)
    ensures
        final(state).crypto@ == all_unlatched(old(state).crypto@),
{
    let ghost before = state.crypto@;
    let ghost wanted = all_unlatched(before);
    let mut i: usize = 0;
    while i < state.crypto.len()
        invariant
            i <= state.crypto.len(),
            state.crypto.len() == before.len(),
            wanted == all_unlatched(before),
            forall|j: int| 0 <= j < i ==> state.crypto@[j] == wanted[j],
            forall|j: int| i <= j < before.len() ==> state.crypto@[j] == before[j],
        decreases state.crypto.len() - i,
    {
        let cleared = without_latch(&state.crypto[i]);
        state.crypto.set(i, cleared);
        i = i + 1;
    }
    assert(state.crypto@ =~= wanted);
}

/// The folds with one leaf's latch taken away.
pub open spec fn leaf_unlatched(
    states: Seq<CryptoEnteredFoldState>,
    node_id: u16,
) -> Seq<CryptoEnteredFoldState> {
    match leaf_position(states, node_id) {
        Some(position) => states.update(position, states[position].unlatched()),
        None => states,
    }
}

/// Take one leaf's latch away.
pub fn clear_crypto_latch(states: &mut Vec<CryptoEnteredFoldState>, node_id: u16)
    ensures
        final(states)@ == leaf_unlatched(old(states)@, node_id),
{
    if let Some(position) = find_leaf(states, node_id) {
        let cleared = without_latch(&states[position]);
        states.set(position, cleared);
    }
}

/// Folding two stretches of reports one after the other is folding them in one
/// go.
pub proof fn folding_composes(
    state: CryptoEnteredFoldState,
    condition: CryptoSubjectPredicateEntered,
    first: Seq<CryptoPriceReportInput>,
    second: Seq<CryptoPriceReportInput>,
)
    ensures
        state.after_reports(condition, first + second) == state.after_reports(
            condition,
            first,
        ).after_reports(condition, second),
    decreases second.len(),
{
    if second.len() == 0 {
        assert(first + second =~= first);
    } else {
        folding_composes(state, condition, first, second.drop_last());
        assert((first + second).drop_last() =~= first + second.drop_last());
        assert((first + second).last() == second.last());
    }
}

/// A restart that reads its last folded report again ends where an
/// uninterrupted replay ends: with `seen` folded and persisted, folding the
/// last of them once more and then `fresh` gives the fold of all of them.
pub proof fn restart_equals_replay(
    state: CryptoEnteredFoldState,
    condition: CryptoSubjectPredicateEntered,
    seen: Seq<CryptoPriceReportInput>,
    fresh: Seq<CryptoPriceReportInput>,
)
    requires
        seen.len() > 0,
    ensures
        state.after_reports(condition, seen).after_reports(condition, seq![seen.last()] + fresh)
            == state.after_reports(condition, seen + fresh),
{
    let persisted = state.after_reports(condition, seen);
    let again = seq![seen.last()];
    assert(persisted.has_seen(seen.last()));
    assert(again.drop_last() =~= Seq::<CryptoPriceReportInput>::empty());
    assert(persisted.after_reports(condition, again) == persisted) by {
        reveal_with_fuel(CryptoEnteredFoldState::after_reports, 2);
    }
    folding_composes(persisted, condition, again, fresh);
    folding_composes(state, condition, seen, fresh);
}

/// Folding keeps the leaf, its source and its gap generation.
pub(crate) proof fn lemma_identity_kept(
    state: CryptoEnteredFoldState,
    condition: CryptoSubjectPredicateEntered,
    reports: Seq<CryptoPriceReportInput>,
)
    ensures
        state.after_reports(condition, reports).node_id == state.node_id,
        state.after_reports(condition, reports).source == state.source,
        state.after_reports(condition, reports).gap_generation == state.gap_generation,
    decreases reports.len(),
{
    if reports.len() > 0 {
        lemma_identity_kept(state, condition, reports.drop_last());
    }
}

/// Replacing a leaf's fold where it was put is putting the other fold there.
proof fn lemma_put_twice(
    states: Seq<CryptoEnteredFoldState>,
    first: CryptoEnteredFoldState,
    second: CryptoEnteredFoldState,
)
    requires
        first.node_id == second.node_id,
        forall|i: int| 0 <= i < states.len() ==> (#[trigger] states[i]).node_id != first.node_id,
    ensures
        leaf_position(placed(states, first), first.node_id) matches Some(position) && 0 <= position
            < placed(states, first).len() && placed(states, first)[position] == first && placed(
            states,
            first,
        ).update(position, second) == placed(states, second),
    decreases states.len(),
{
    let node_id = first.node_id;
    let test = |state: CryptoEnteredFoldState| state.node_id == node_id;
    if states.len() == 0 {
        assert(placed(states, first) =~= seq![first]);
        lemma_first_found(seq![first], test, 0);
        assert(seq![first].update(0, second) =~= seq![second]);
    } else if lex_less(first.sort_key(), states.last().sort_key()) {
        let front = states.drop_last();
        assert forall|i: int| 0 <= i < front.len() implies (#[trigger] front[i]).node_id
            != first.node_id by {
            assert(front[i] == states[i]);
        }
        lemma_put_twice(front, first, second);
        let inner = placed(front, first);
        let position = leaf_position(inner, node_id)->0;
        let whole = placed(states, first);
        assert(whole.drop_last() =~= inner);
        assert(whole.update(position, second) =~= inner.update(position, second).push(
            states.last(),
        ));
    } else {
        let whole = states.push(first);
        assert forall|j: int| 0 <= j < states.len() implies !test(#[trigger] whole[j]) by {
            assert(whole[j] == states[j]);
        }
        lemma_first_found(whole, test, states.len() as int);
        assert(whole.update(states.len() as int, second) =~= states.push(second));
    }
}

/// Folding two stretches of a source's reports, with the folds stored in
/// between, leaves the same stored folds as folding all of them at once.
pub proof fn stretches_store_the_same_folds(
    states: Seq<CryptoEnteredFoldState>,
    node_id: u16,
    condition: CryptoSubjectPredicateEntered,
    first: CryptoPriceInput,
    second: CryptoPriceInput,
    whole: CryptoPriceInput,
)
    requires
        whole.source == first.source,
        second.source@ == first.source@,
        whole.gap_generation == first.gap_generation,
        second.gap_generation == first.gap_generation,
        whole.reports@ == first.reports@ + second.reports@,
    ensures
        ({
            let between = stored(states, node_id, folded(states, node_id, condition, first));
            let at_once = folded(states, node_id, condition, whole);
            &&& folded(between, node_id, condition, second) == at_once
            &&& stored(between, node_id, folded(between, node_id, condition, second)) == stored(
                states,
                node_id,
                at_once,
            )
        }),
{
    let test = |state: CryptoEnteredFoldState| state.node_id == node_id;
    let start = starting_fold(states, node_id, first);
    let half = folded(states, node_id, condition, first);
    let between = stored(states, node_id, half);
    let at_once = folded(states, node_id, condition, whole);
    first_match_is_first(states, test);
    assert(start == starting_fold(states, node_id, whole));
    assert(start.node_id == node_id);
    lemma_identity_kept(start, condition, first.reports@);
    lemma_identity_kept(start, condition, whole.reports@);
    folding_composes(start, condition, first.reports@, second.reports@);
    match leaf_position(states, node_id) {
        Some(position) => {
            assert forall|j: int| 0 <= j < position implies !test(#[trigger] between[j]) by {
                assert(between[j] == states[j]);
            }
            lemma_first_found(between, test, position);
            assert(between.update(position, at_once) =~= states.update(position, at_once));
        },
        None => {
            let base = arranged(states);
            arranging_sorts(states);
            assert forall|i: int| 0 <= i < base.len() implies (#[trigger] base[i]).node_id
                != node_id by {
                broadcast use vstd::seq_lib::group_to_multiset_ensures;

                assert(base.contains(base[i]));
                assert(base.to_multiset().count(base[i]) > 0);
                assert(states.contains(base[i]));
                let j = choose|j: int| 0 <= j < states.len() && states[j] == base[i];
                assert(!test(states[j]));
            }
            assert(states.push(half).drop_last() =~= states);
            assert(states.push(at_once).drop_last() =~= states);
            lemma_put_twice(base, half, at_once);
        },
    }
}

impl CryptoSubjectPredicateEntered {
    /// Whether the strike or reference that the comparator needs is present.
    pub open spec fn is_decidable(self) -> bool {
        if self.comparator is UpVsReference {
            self.reference_price is Some
        } else {
            self.strike is Some
        }
    }
}

/// Whether a latch is backed: the last price was on the recommended side and
/// the report that crossed is known.
pub open spec fn latch_backed(
    state: CryptoEnteredFoldState,
    condition: CryptoSubjectPredicateEntered,
) -> bool {
    state.latched ==> state.last_outcome == Some(condition.recommended_outcome)
        && state.triggering_report_hash is Some && state.triggering_at is Some
}

/// A leaf is latched only while the last folded price is on the recommended
/// side, and it then knows the report that crossed.
pub proof fn latch_stays_backed(
    state: CryptoEnteredFoldState,
    condition: CryptoSubjectPredicateEntered,
    reports: Seq<CryptoPriceReportInput>,
)
    requires
        latch_backed(state, condition),
        state.latched ==> condition.is_decidable(),
    ensures
        latch_backed(state.after_reports(condition, reports), condition),
        state.after_reports(condition, reports).latched ==> condition.is_decidable(),
    decreases reports.len(),
{
    if reports.len() > 0 {
        latch_stays_backed(state, condition, reports.drop_last());
    }
}

/// The discontinuity epoch never goes back.
pub proof fn epochs_never_go_back(
    state: CryptoEnteredFoldState,
    condition: CryptoSubjectPredicateEntered,
    reports: Seq<CryptoPriceReportInput>,
)
    ensures
        state.after_reports(condition, reports).discontinuity_epoch >= state.discontinuity_epoch,
    decreases reports.len(),
{
    if reports.len() > 0 {
        epochs_never_go_back(state, condition, reports.drop_last());
    }
}

/// A price that was on the recommended side from the start never latches the
/// leaf: as long as every report stands for the recommended outcome, a fresh
/// leaf stays unlatched.
pub proof fn no_latch_without_crossing(
    node_id: u16,
    input: CryptoPriceInput,
    condition: CryptoSubjectPredicateEntered,
    reports: Seq<CryptoPriceReportInput>,
)
    requires
        forall|i: int|
            0 <= i < reports.len() ==> spec_outcome(
                condition.comparator,
                condition.strike,
                condition.reference_price,
                (#[trigger] reports[i]).price,
            ) == Some(condition.recommended_outcome),
    ensures
        !CryptoEnteredFoldState::fresh(node_id, input).after_reports(condition, reports).latched,
    decreases reports.len(),
{
    lemma_recommended_side(node_id, input, condition, reports);
}

proof fn lemma_recommended_side(
    node_id: u16,
    input: CryptoPriceInput,
    condition: CryptoSubjectPredicateEntered,
    reports: Seq<CryptoPriceReportInput>,
)
    requires
        forall|i: int|
            0 <= i < reports.len() ==> spec_outcome(
                condition.comparator,
                condition.strike,
                condition.reference_price,
                (#[trigger] reports[i]).price,
            ) == Some(condition.recommended_outcome),
    ensures
        ({
            let state = CryptoEnteredFoldState::fresh(node_id, input).after_reports(
                condition,
                reports,
            );
            !state.latched && (state.last_outcome is None || state.last_outcome == Some(
                condition.recommended_outcome,
            ))
        }),
    decreases reports.len(),
{
    if reports.len() > 0 {
        let front = reports.drop_last();
        assert forall|i: int| 0 <= i < front.len() implies spec_outcome(
            condition.comparator,
            condition.strike,
            condition.reference_price,
            (#[trigger] front[i]).price,
        ) == Some(condition.recommended_outcome) by {
            assert(front[i] == reports[i]);
        }
        lemma_recommended_side(node_id, input, condition, front);
        assert(reports.last() == reports[reports.len() - 1]);
    }
}

/// A leaf goes on from its own fold where source and generation are the same, and
/// starts anew where they are not: without side and latch, in a new stretch.
pub proof fn folds_go_on_within_a_generation(
    states: Seq<CryptoEnteredFoldState>,
    node_id: u16,
    input: CryptoPriceInput,
    at: int,
)
    requires
        0 <= at < states.len(),
        states[at].node_id == node_id,
        forall|i: int| 0 <= i < at ==> (#[trigger] states[i]).node_id != node_id,
    ensures
        states[at].source@ == input.source@ && states[at].gap_generation == input.gap_generation
            ==> starting_fold(states, node_id, input) == states[at],
        states[at].source@ != input.source@ || states[at].gap_generation != input.gap_generation
            ==> {
            let start = starting_fold(states, node_id, input);
            &&& !start.latched && start.last_outcome is None
            &&& start.last_source_sequence is None && start.last_report_hash is None
            &&& start.triggering_at is None && start.triggering_report_hash is None
            &&& start.gap_generation == input.gap_generation && start.source == input.source
            &&& start.node_id == node_id
            &&& states[at].discontinuity_epoch < u64::MAX ==> start.discontinuity_epoch
                == states[at].discontinuity_epoch + 1
        },
{
    let test = |state: CryptoEnteredFoldState| state.node_id == node_id;
    crate::search::lemma_first_found(states, test, at);
}

/// A leaf that was never folded starts without side and latch.
pub proof fn folds_start_without_a_side(
    states: Seq<CryptoEnteredFoldState>,
    node_id: u16,
    input: CryptoPriceInput,
)
    requires
        forall|i: int| 0 <= i < states.len() ==> (#[trigger] states[i]).node_id != node_id,
    ensures
        ({
            let start = starting_fold(states, node_id, input);
            &&& !start.latched && start.last_outcome is None && start.last_source_sequence is None
            &&& start.discontinuity_epoch == 0 && start.gap_generation == input.gap_generation
            &&& start.source == input.source && start.node_id == node_id
        }),
{
    let test = |state: CryptoEnteredFoldState| state.node_id == node_id;
    crate::search::lemma_first_missing(states, test);
}

/// A latch that is let go is gone with its trigger, and a new stretch begins; the
/// side is kept, and without a latch nothing changes.
pub proof fn latches_are_let_go(state: CryptoEnteredFoldState)
    ensures
        !state.unlatched().latched,
        state.latched ==> state.unlatched().triggering_report_hash is None
            && state.unlatched().triggering_at is None && (state.discontinuity_epoch < u64::MAX
            ==> state.unlatched().discontinuity_epoch == state.discontinuity_epoch + 1),
        state.unlatched().last_outcome == state.last_outcome,
        state.unlatched().last_source_sequence == state.last_source_sequence,
        !state.latched ==> state.unlatched() == state,
{
}

/// A leaf whose latch is let go is not latched, and no other leaf is touched.
pub proof fn one_leaf_lets_go(states: Seq<CryptoEnteredFoldState>, node_id: u16)
    ensures
        leaf_unlatched(states, node_id).len() == states.len(),
        leaf_position(leaf_unlatched(states, node_id), node_id) matches Some(position) ==> 0
            <= position < states.len() && !leaf_unlatched(states, node_id)[position].latched,
        forall|i: int|
            0 <= i < states.len() && (#[trigger] states[i]).node_id != node_id ==> leaf_unlatched(
                states,
                node_id,
            )[i] == states[i],
{
    let test = |state: CryptoEnteredFoldState| state.node_id == node_id;
    crate::search::first_match_is_first(states, test);
    if leaf_position(states, node_id) is Some {
        let position = leaf_position(states, node_id)->0;
        let after = leaf_unlatched(states, node_id);
        assert forall|j: int| 0 <= j < position implies !test(#[trigger] after[j]) by {
            assert(after[j] == states[j]);
        }
        crate::search::lemma_first_found(after, test, position);
    }
}

} // verus!
