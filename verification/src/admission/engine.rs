//! The fixed-order evaluator.
//!
//! The checks run in one order. The decision denies where any check denies,
//! else defers where any defers, else allows; it is the same whether or not
//! the evaluation stops at the first denial.
use vstd::prelude::*;
use vstd::string::*;

use crate::admission::checks::{check_trace, run_check};
use crate::admission::model::{
    AdmissionCheckId, AdmissionCheckTrace, AdmissionInput, AdmissionOutcome, StateVersion,
    TraceView,
};
use crate::error::{ErrorView, ExecutionError};
use crate::text::join;

verus! {

/// Number of checks.
pub const ADMISSION_CHECK_COUNT: usize = 25;

/// The check at a position of the fixed order.
pub open spec fn check_at(position: int) -> AdmissionCheckId {
    if position == 0 {
        AdmissionCheckId::IntentState
    } else if position == 1 {
        AdmissionCheckId::RecommendationFreshness
    } else if position == 2 {
        AdmissionCheckId::ReportStatus
    } else if position == 3 {
        AdmissionCheckId::RuntimeMode
    } else if position == 4 {
        AdmissionCheckId::SettlementRecovery
    } else if position == 5 {
        AdmissionCheckId::ModelRouteBinding
    } else if position == 6 {
        AdmissionCheckId::DataQuality
    } else if position == 7 {
        AdmissionCheckId::BookFreshness
    } else if position == 8 {
        AdmissionCheckId::VenueMetadata
    } else if position == 9 {
        AdmissionCheckId::EntryConditionPlan
    } else if position == 10 {
        AdmissionCheckId::RiskEnvelopeHash
    } else if position == 11 {
        AdmissionCheckId::CapitalBudget
    } else if position == 12 {
        AdmissionCheckId::MaxOpenIntents
    } else if position == 13 {
        AdmissionCheckId::MaxReservedCapital
    } else if position == 14 {
        AdmissionCheckId::MarketExposure
    } else if position == 15 {
        AdmissionCheckId::EventExposure
    } else if position == 16 {
        AdmissionCheckId::CategoryExposure
    } else if position == 17 {
        AdmissionCheckId::LiquidityDepth
    } else if position == 18 {
        AdmissionCheckId::Slippage
    } else if position == 19 {
        AdmissionCheckId::ManualBlock
    } else if position == 20 {
        AdmissionCheckId::KillSwitch
    } else if position == 21 {
        AdmissionCheckId::VenueGuard
    } else if position == 22 {
        AdmissionCheckId::CredentialReadiness
    } else if position == 23 {
        AdmissionCheckId::ExitMonitorReadiness
    } else {
        AdmissionCheckId::CalibratedReturnModel
    }
}

/// The check at a position of the fixed order.
pub fn admission_check(position: usize) -> (r: AdmissionCheckId)
    ensures
        r == check_at(position as int),
{
    if position == 0 {
        AdmissionCheckId::IntentState
    } else if position == 1 {
        AdmissionCheckId::RecommendationFreshness
    } else if position == 2 {
        AdmissionCheckId::ReportStatus
    } else if position == 3 {
        AdmissionCheckId::RuntimeMode
    } else if position == 4 {
        AdmissionCheckId::SettlementRecovery
    } else if position == 5 {
        AdmissionCheckId::ModelRouteBinding
    } else if position == 6 {
        AdmissionCheckId::DataQuality
    } else if position == 7 {
        AdmissionCheckId::BookFreshness
    } else if position == 8 {
        AdmissionCheckId::VenueMetadata
    } else if position == 9 {
        AdmissionCheckId::EntryConditionPlan
    } else if position == 10 {
        AdmissionCheckId::RiskEnvelopeHash
    } else if position == 11 {
        AdmissionCheckId::CapitalBudget
    } else if position == 12 {
        AdmissionCheckId::MaxOpenIntents
    } else if position == 13 {
        AdmissionCheckId::MaxReservedCapital
    } else if position == 14 {
        AdmissionCheckId::MarketExposure
    } else if position == 15 {
        AdmissionCheckId::EventExposure
    } else if position == 16 {
        AdmissionCheckId::CategoryExposure
    } else if position == 17 {
        AdmissionCheckId::LiquidityDepth
    } else if position == 18 {
        AdmissionCheckId::Slippage
    } else if position == 19 {
        AdmissionCheckId::ManualBlock
    } else if position == 20 {
        AdmissionCheckId::KillSwitch
    } else if position == 21 {
        AdmissionCheckId::VenueGuard
    } else if position == 22 {
        AdmissionCheckId::CredentialReadiness
    } else if position == 23 {
        AdmissionCheckId::ExitMonitorReadiness
    } else {
        AdmissionCheckId::CalibratedReturnModel
    }
}

/// What admission found, without provenance and timing.
#[verifier::ext_equal]
pub ghost struct DecisionView {
    pub outcome: AdmissionOutcome,
    pub trace: Seq<TraceView>,
    pub denial_reason: Option<Seq<char>>,
}

/// Attribution of a denial.
pub open spec fn attribution(trace: TraceView) -> Seq<char> {
    trace.check.text() + ": "@ + trace.detail
}

impl DecisionView {
    /// Before any check.
    pub open spec fn start() -> DecisionView {
        DecisionView {
            outcome: AdmissionOutcome::Allow,
            trace: Seq::empty(),
            denial_reason: None,
        }
    }

    /// After one more check. A denial stands; a deferral gives way to it.
    pub open spec fn after(self, trace: TraceView) -> DecisionView {
        let first_denial = trace.outcome == AdmissionOutcome::Deny && self.outcome
            != AdmissionOutcome::Deny;
        DecisionView {
            outcome: if self.outcome == AdmissionOutcome::Deny || trace.outcome
                == AdmissionOutcome::Deny {
                AdmissionOutcome::Deny
            } else if self.outcome == AdmissionOutcome::Defer || trace.outcome
                == AdmissionOutcome::Defer {
                AdmissionOutcome::Defer
            } else {
                AdmissionOutcome::Allow
            },
            trace: self.trace.push(trace),
            denial_reason: if first_denial {
                Some(attribution(trace))
            } else {
                self.denial_reason
            },
        }
    }
}

/// The decision after the first `count` checks; `None` where a check's figures
/// are not representable. Unless `full`, nothing runs after a denial.
pub open spec fn decided(input: AdmissionInput, full: bool, count: nat) -> Option<DecisionView>
    decreases count,
{
    if count == 0 {
        Some(DecisionView::start())
    } else {
        match decided(input, full, (count - 1) as nat) {
            None => None,
            Some(decision) => if !full && decision.outcome == AdmissionOutcome::Deny {
                Some(decision)
            } else {
                match check_trace(check_at(count - 1), input) {
                    None => None,
                    Some(trace) => Some(decision.after(trace)),
                }
            },
        }
    }
}

/// The verdict of admission with its trace and provenance.
#[derive(Debug)]
pub struct AdmissionDecision {
    pub outcome: AdmissionOutcome,
    /// Traces in check order, up to the first denial unless all were asked for.
    pub trace: Vec<AdmissionCheckTrace>,
    pub state_version: StateVersion,
    pub elapsed_ms: u64,
    /// Attribution of the first denial.
    pub denial_reason: Option<String>,
}

/// The traces by view.
pub open spec fn views(traces: Seq<AdmissionCheckTrace>) -> Seq<TraceView> {
    traces.map_values(|trace: AdmissionCheckTrace| trace@)
}

impl View for AdmissionDecision {
    type V = DecisionView;

    open spec fn view(&self) -> DecisionView {
        DecisionView {
            outcome: self.outcome,
            trace: views(self.trace@),
            denial_reason: crate::orders::text_of(self.denial_reason),
        }
    }
}

impl AdmissionDecision {
    /// The decision before any check.
    pub fn start(state_version: StateVersion) -> (r: AdmissionDecision)
        ensures
            r@ == DecisionView::start(),
            r.state_version == state_version,
            r.elapsed_ms == 0,
    {
        let trace: Vec<AdmissionCheckTrace> = Vec::new();
        let decision = AdmissionDecision {
            outcome: AdmissionOutcome::Allow,
            trace,
            state_version,
            elapsed_ms: 0,
            denial_reason: None,
        };
        assert(decision@ =~= DecisionView::start());
        decision
    }

    /// Takes one more trace in.
    pub fn observe(&mut self, trace: AdmissionCheckTrace)
        ensures
            final(self)@ == old(self)@.after(trace@),
            final(self).state_version == old(self).state_version,
            final(self).elapsed_ms == old(self).elapsed_ms,
    {
        let ghost before = self@;
        let ghost seen = self.trace@;
        match trace.outcome {
            AdmissionOutcome::Deny => {
                if self.outcome != AdmissionOutcome::Deny {
                    self.outcome = AdmissionOutcome::Deny;
                    self.denial_reason = Some(
                        trace.check.as_str().to_owned().concat(": ").concat(trace.detail.as_str()),
                    );
                }
            },
            AdmissionOutcome::Defer => {
                if self.outcome == AdmissionOutcome::Allow {
                    self.outcome = AdmissionOutcome::Defer;
                }
            },
            AdmissionOutcome::Allow => {},
        }
        let ghost added = trace@;
        self.trace.push(trace);
        proof {
            assert(views(self.trace@) =~= views(seen).push(added));
            assert(self@ =~= before.after(added));
        }
    }

    /// Whether the intent may be submitted now.
    pub fn is_allowed(&self) -> (r: bool)
        ensures
            r == (self@.outcome == AdmissionOutcome::Allow),
    {
        self.outcome == AdmissionOutcome::Allow
    }

    /// Whether submission should be tried again later.
    pub fn is_deferred(&self) -> (r: bool)
        ensures
            r == (self@.outcome == AdmissionOutcome::Defer),
    {
        self.outcome == AdmissionOutcome::Defer
    }

    /// Whether the intent must not be submitted at all.
    pub fn is_denied(&self) -> (r: bool)
        ensures
            r == (self@.outcome == AdmissionOutcome::Deny),
    {
        self.outcome == AdmissionOutcome::Deny
    }

    /// Short reference of the checks that did not pass.
    pub fn denial_trace_ref(&self) -> (r: Option<String>)
        ensures
            crate::orders::text_of(r) == trace_ref(self@.trace),
    {
        let mut parts: Vec<String> = Vec::new();
        let mut i: usize = 0;
        let ghost all = views(self.trace@);
        proof {
            assert(all.take(0) =~= Seq::<TraceView>::empty());
            assert(crate::text::texts(parts@) =~= Seq::<Seq<char>>::empty());
        }
        while i < self.trace.len()
            invariant
                i <= self.trace.len(),
                all == views(self.trace@),
                crate::text::texts(parts@) == failures(all.take(i as int)),
            decreases self.trace.len() - i,
        {
            proof {
                assert(all.take(i + 1).drop_last() =~= all.take(i as int));
                assert(all.take(i + 1).last() == self.trace@[i as int]@);
            }
            let trace = &self.trace[i];
            let ghost kept = parts@;
            if trace.outcome != AdmissionOutcome::Allow {
                let part = check_name(trace.check).to_owned().concat(":").concat(
                    trace.detail.as_str(),
                );
                parts.push(part);
                proof {
                    assert(crate::text::texts(parts@) =~= crate::text::texts(kept).push(part@));
                }
            }
            i = i + 1;
        }
        proof {
            assert(all.take(all.len() as int) =~= all);
        }
        if parts.len() == 0 {
            assert(crate::text::texts(parts@).len() == 0);
            None
        } else {
            assert(crate::text::texts(parts@).len() == parts@.len());
            Some(join(&parts, "; "))
        }
    }

    /// What the last deferral said.
    pub fn defer_reason(&self) -> (r: String)
        ensures
            r@ == last_deferral(self@.trace),
    {
        let ghost all = views(self.trace@);
        let mut i: usize = self.trace.len();
        proof {
            assert(all.take(all.len() as int) =~= all);
        }
        while i > 0
            invariant
                i <= self.trace.len(),
                all == views(self.trace@),
                last_deferral(all) == last_deferral(all.take(i as int)),
            decreases i,
        {
            proof {
                assert(all.take(i as int).drop_last() =~= all.take(i - 1));
                assert(all.take(i as int).last() == self.trace@[i - 1]@);
            }
            i = i - 1;
            if self.trace[i].outcome == AdmissionOutcome::Defer {
                return self.trace[i].detail.clone();
            }
        }
        "admission deferred".to_owned()
    }
}

/// Name of a check.
pub open spec fn check_title(check: AdmissionCheckId) -> Seq<char> {
    match check {
        AdmissionCheckId::IntentState => "IntentState"@,
        AdmissionCheckId::RecommendationFreshness => "RecommendationFreshness"@,
        AdmissionCheckId::ReportStatus => "ReportStatus"@,
        AdmissionCheckId::RuntimeMode => "RuntimeMode"@,
        AdmissionCheckId::SettlementRecovery => "SettlementRecovery"@,
        AdmissionCheckId::ModelRouteBinding => "ModelRouteBinding"@,
        AdmissionCheckId::DataQuality => "DataQuality"@,
        AdmissionCheckId::BookFreshness => "BookFreshness"@,
        AdmissionCheckId::VenueMetadata => "VenueMetadata"@,
        AdmissionCheckId::EntryConditionPlan => "EntryConditionPlan"@,
        AdmissionCheckId::RiskEnvelopeHash => "RiskEnvelopeHash"@,
        AdmissionCheckId::CapitalBudget => "CapitalBudget"@,
        AdmissionCheckId::MaxOpenIntents => "MaxOpenIntents"@,
        AdmissionCheckId::MaxReservedCapital => "MaxReservedCapital"@,
        AdmissionCheckId::MarketExposure => "MarketExposure"@,
        AdmissionCheckId::EventExposure => "EventExposure"@,
        AdmissionCheckId::CategoryExposure => "CategoryExposure"@,
        AdmissionCheckId::LiquidityDepth => "LiquidityDepth"@,
        AdmissionCheckId::Slippage => "Slippage"@,
        AdmissionCheckId::ManualBlock => "ManualBlock"@,
        AdmissionCheckId::KillSwitch => "KillSwitch"@,
        AdmissionCheckId::VenueGuard => "VenueGuard"@,
        AdmissionCheckId::CredentialReadiness => "CredentialReadiness"@,
        AdmissionCheckId::ExitMonitorReadiness => "ExitMonitorReadiness"@,
        AdmissionCheckId::CalibratedReturnModel => "CalibratedReturnModel"@,
    }
}

fn check_name(check: AdmissionCheckId) -> (r: &'static str)
    ensures
        r@ == check_title(check),
{
    match check {
        AdmissionCheckId::IntentState => "IntentState",
        AdmissionCheckId::RecommendationFreshness => "RecommendationFreshness",
        AdmissionCheckId::ReportStatus => "ReportStatus",
        AdmissionCheckId::RuntimeMode => "RuntimeMode",
        AdmissionCheckId::SettlementRecovery => "SettlementRecovery",
        AdmissionCheckId::ModelRouteBinding => "ModelRouteBinding",
        AdmissionCheckId::DataQuality => "DataQuality",
        AdmissionCheckId::BookFreshness => "BookFreshness",
        AdmissionCheckId::VenueMetadata => "VenueMetadata",
        AdmissionCheckId::EntryConditionPlan => "EntryConditionPlan",
        AdmissionCheckId::RiskEnvelopeHash => "RiskEnvelopeHash",
        AdmissionCheckId::CapitalBudget => "CapitalBudget",
        AdmissionCheckId::MaxOpenIntents => "MaxOpenIntents",
        AdmissionCheckId::MaxReservedCapital => "MaxReservedCapital",
        AdmissionCheckId::MarketExposure => "MarketExposure",
        AdmissionCheckId::EventExposure => "EventExposure",
        AdmissionCheckId::CategoryExposure => "CategoryExposure",
        AdmissionCheckId::LiquidityDepth => "LiquidityDepth",
        AdmissionCheckId::Slippage => "Slippage",
        AdmissionCheckId::ManualBlock => "ManualBlock",
        AdmissionCheckId::KillSwitch => "KillSwitch",
        AdmissionCheckId::VenueGuard => "VenueGuard",
        AdmissionCheckId::CredentialReadiness => "CredentialReadiness",
        AdmissionCheckId::ExitMonitorReadiness => "ExitMonitorReadiness",
        AdmissionCheckId::CalibratedReturnModel => "CalibratedReturnModel",
    }
}

/// Name and detail of the checks that did not pass.
pub open spec fn failures(traces: Seq<TraceView>) -> Seq<Seq<char>>
    decreases traces.len(),
{
    if traces.len() == 0 {
        Seq::empty()
    } else if traces.last().outcome == AdmissionOutcome::Allow {
        failures(traces.drop_last())
    } else {
        failures(traces.drop_last()).push(
            check_title(traces.last().check) + ":"@ + traces.last().detail,
        )
    }
}

/// Short reference of the checks that did not pass, if any did not.
pub open spec fn trace_ref(traces: Seq<TraceView>) -> Option<Seq<char>> {
    if failures(traces).len() == 0 {
        None
    } else {
        Some(crate::text::joined(failures(traces), "; "@))
    }
}

/// Detail of the last deferral.
pub open spec fn last_deferral(traces: Seq<TraceView>) -> Seq<char>
    decreases traces.len(),
{
    if traces.len() == 0 {
        "admission deferred"@
    } else if traces.last().outcome == AdmissionOutcome::Defer {
        traces.last().detail
    } else {
        last_deferral(traces.drop_last())
    }
}

/// Runs the checks in order; unless `full`, nothing runs after a denial.
pub fn decide(input: &AdmissionInput, full: bool) -> (r: Result<AdmissionDecision, ExecutionError>)
    ensures
        match r {
            Ok(decision) => decided(*input, full, ADMISSION_CHECK_COUNT as nat) == Some(decision@)
                && decision.state_version == input.state_version,
            Err(error) => decided(*input, full, ADMISSION_CHECK_COUNT as nat) is None && error@
                == ErrorView::DecimalOverflow,
        },
{
    let mut decision = AdmissionDecision::start(input.state_version.clone());
    let mut i: usize = 0;
    while i < ADMISSION_CHECK_COUNT
        invariant
            i <= ADMISSION_CHECK_COUNT,
            decided(*input, full, i as nat) == Some(decision@),
            decision.state_version == input.state_version,
        decreases ADMISSION_CHECK_COUNT - i,
    {
        if !full && decision.outcome == AdmissionOutcome::Deny {
            proof {
                lemma_denial_stands(*input, i as nat, ADMISSION_CHECK_COUNT as nat);
            }
            return Ok(decision);
        }
        match run_check(admission_check(i), input) {
            Some(trace) => {
                decision.observe(trace);
            },
            None => {
                proof {
                    assert(decided(*input, full, (i + 1) as nat) is None);
                    lemma_overflow_stands(
                        *input,
                        full,
                        (i + 1) as nat,
                        ADMISSION_CHECK_COUNT as nat,
                    );
                }
                return Err(ExecutionError::DecimalOverflow);
            },
        }
        i = i + 1;
    }
    Ok(decision)
}

proof fn lemma_denial_stands(input: AdmissionInput, from: nat, to: nat)
    requires
        from <= to,
        decided(input, false, from) matches Some(decision) && decision.outcome
            == AdmissionOutcome::Deny,
    ensures
        decided(input, false, to) == decided(input, false, from),
    decreases to,
{
    if from < to {
        lemma_denial_stands(input, from, (to - 1) as nat);
    }
}

proof fn lemma_overflow_stands(input: AdmissionInput, full: bool, from: nat, to: nat)
    requires
        from <= to,
        decided(input, full, from) is None,
    ensures
        decided(input, full, to) is None,
    decreases to,
{
    if from < to {
        lemma_overflow_stands(input, full, from, (to - 1) as nat);
    }
}

/// Evaluates admission, stopping at the first denial.
pub fn evaluate(input: &AdmissionInput) -> (r: Result<AdmissionDecision, ExecutionError>)
    ensures
        match r {
            Ok(decision) => decided(*input, false, ADMISSION_CHECK_COUNT as nat) == Some(decision@)
                && decision.state_version == input.state_version,
            Err(error) => decided(*input, false, ADMISSION_CHECK_COUNT as nat) is None && error@
                == ErrorView::DecimalOverflow,
        },
{
    decide(input, false)
}

/// Evaluates every check of admission.
pub fn evaluate_full(input: &AdmissionInput) -> (r: Result<AdmissionDecision, ExecutionError>)
    ensures
        match r {
            Ok(decision) => decided(*input, true, ADMISSION_CHECK_COUNT as nat) == Some(decision@)
                && decision.state_version == input.state_version,
            Err(error) => decided(*input, true, ADMISSION_CHECK_COUNT as nat) is None && error@
                == ErrorView::DecimalOverflow,
        },
{
    decide(input, true)
}

/// Stopping at the first denial changes neither the outcome nor its
/// attribution: only the trace is shorter, and it is the front of the full one.
pub proof fn short_evaluation_decides_the_same(input: AdmissionInput, count: nat)
    requires
        decided(input, true, count) is Some,
    ensures
        decided(input, false, count) is Some,
        decided(input, false, count)->0.outcome == decided(input, true, count)->0.outcome,
        decided(input, false, count)->0.denial_reason == decided(
            input,
            true,
            count,
        )->0.denial_reason,
        decided(input, false, count)->0.trace.is_prefix_of(decided(input, true, count)->0.trace),
        decided(input, true, count)->0.outcome != AdmissionOutcome::Deny ==> decided(
            input,
            false,
            count,
        ) == decided(input, true, count),
    decreases count,
{
    if count > 0 {
        short_evaluation_decides_the_same(input, (count - 1) as nat);
        let longer = decided(input, true, count)->0.trace;
        let before = decided(input, true, (count - 1) as nat)->0.trace;
        let short = decided(input, false, (count - 1) as nat)->0.trace;
        assert(before.is_prefix_of(longer)) by {
            assert(longer.subrange(0, before.len() as int) =~= before);
        }
        assert(short.is_prefix_of(longer)) by {
            assert(longer.subrange(0, short.len() as int) =~= before.subrange(
                0,
                short.len() as int,
            ));
        }
    }
}

/// Whether one of the first `count` checks has this outcome.
pub open spec fn some_check(input: AdmissionInput, outcome: AdmissionOutcome, count: nat) -> bool {
    exists|i: int|
        0 <= i < count && (#[trigger] check_trace(check_at(i), input) matches Some(trace)
            && trace.outcome == outcome)
}

/// The full decision denies exactly where some check denies, and allows
/// exactly where every check allows.
pub proof fn outcome_summarizes_the_checks(input: AdmissionInput, count: nat)
    requires
        decided(input, true, count) is Some,
    ensures
        decided(input, true, count)->0.outcome == AdmissionOutcome::Deny <==> some_check(
            input,
            AdmissionOutcome::Deny,
            count,
        ),
        decided(input, true, count)->0.outcome == AdmissionOutcome::Allow <==> !some_check(
            input,
            AdmissionOutcome::Deny,
            count,
        ) && !some_check(input, AdmissionOutcome::Defer, count),
    decreases count,
{
    if count > 0 {
        let less = (count - 1) as nat;
        outcome_summarizes_the_checks(input, less);
        let last = check_trace(check_at(count - 1), input);
        assert(last is Some);
        lemma_some_check(input, AdmissionOutcome::Deny, less);
        lemma_some_check(input, AdmissionOutcome::Defer, less);
    }
}

proof fn lemma_some_check(input: AdmissionInput, outcome: AdmissionOutcome, count: nat)
    requires
        check_trace(check_at(count as int), input) is Some,
    ensures
        some_check(input, outcome, count + 1) <==> some_check(input, outcome, count)
            || check_trace(check_at(count as int), input)->0.outcome == outcome,
{
    if some_check(input, outcome, count) {
        let i = choose|i: int|
            0 <= i < count && (#[trigger] check_trace(check_at(i), input) matches Some(trace)
                && trace.outcome == outcome);
        assert(check_trace(check_at(i), input) is Some);
    }
    if some_check(input, outcome, count + 1) {
        let i = choose|i: int|
            0 <= i < count + 1 && (#[trigger] check_trace(check_at(i), input) matches Some(trace)
                && trace.outcome == outcome);
        assert(check_trace(check_at(i), input) is Some);
    }
}

/// A denied intent is attributed, and only a denied one.
pub proof fn denials_are_attributed(input: AdmissionInput, full: bool, count: nat)
    requires
        decided(input, full, count) is Some,
    ensures
        decided(input, full, count)->0.denial_reason is Some <==> decided(
            input,
            full,
            count,
        )->0.outcome == AdmissionOutcome::Deny,
    decreases count,
{
    if count > 0 {
        denials_are_attributed(input, full, (count - 1) as nat);
    }
}

/// A number of time units, or the largest one that fits.
pub open spec fn saturated(units: u128) -> u64 {
    if units > u64::MAX {
        u64::MAX
    } else {
        units as u64
    }
}

/// Microseconds of an elapsed time, or the largest number that fits.
pub fn elapsed_us(micros: u128) -> (r: u64)
    ensures
        r == saturated(micros),
{
    if micros > u64::MAX as u128 {
        u64::MAX
    } else {
        micros as u64
    }
}

/// Milliseconds of an elapsed time, or the largest number that fits.
pub fn elapsed_ms(millis: u128) -> (r: u64)
    ensures
        r == saturated(millis),
{
    if millis > u64::MAX as u128 {
        u64::MAX
    } else {
        millis as u64
    }
}

} // verus!
