//! The pipeline of a scored opportunity: validate, size, reserve, submit,
//! observe.
//!
//! Each step asks the outside world for one thing and the reply decides the
//! next step. The venue is called only for a trade that is durably marked as
//! submitted; whatever fails before that releases the reserved capital. After
//! the call the outcome decides: a miss or a failure frees the capital, a fill
//! keeps it until the position is booked, an unknown outcome pins it until the
//! order is reconciled.
use vstd::prelude::*;
use vstd::string::*;

use crate::decimal::{Bps, Decimal, Price, Shares, Usd};
use crate::error::{outcome, ErrorView, ExecutionError};
use crate::types::{EventId, Ident, MarketId, Side, TokenId};

verus! {

/// Whether orders reach the venue.
#[derive(Clone, Copy, Debug, PartialEq, Eq, Structural)]
pub enum ExecutionMode {
    Live,
    DryRun,
}

/// What became of a submitted order.
#[derive(Clone, Copy, Debug, PartialEq, Eq, Structural)]
pub enum ExecutionOutcome {
    Filled,
    Miss,
    Failed,
    /// The venue's answer leaves open what happened.
    Unknown,
}

/// At which point of an execution a book context is captured.
#[derive(Clone, Copy, Debug, PartialEq, Eq, Structural)]
pub enum BookDecisionStage {
    OrderPrepared,
    OrderFilled,
    OrderMissed,
    OrderFailed,
}

/// Why execution stops for good.
#[derive(Clone, Copy, Debug, PartialEq, Eq, Structural)]
pub enum EmergencyClass {
    PersistenceFault,
    VenueFault,
    ReservationFault,
}

/// At which stage an opportunity was rejected, and why.
#[derive(Debug, PartialEq, Eq)]
pub struct Rejection {
    pub stage: &'static str,
    pub reason: String,
}

/// A rejection with its texts as sequences.
pub ghost struct RejectionView {
    pub stage: Seq<char>,
    pub reason: Seq<char>,
}

impl View for Rejection {
    type V = RejectionView;

    open spec fn view(&self) -> RejectionView {
        RejectionView { stage: self.stage@, reason: self.reason@ }
    }
}

/// The stage at which the context of an outcome is captured, if any.
pub open spec fn closing_stage(outcome: ExecutionOutcome) -> Option<BookDecisionStage> {
    match outcome {
        ExecutionOutcome::Filled => Some(BookDecisionStage::OrderFilled),
        ExecutionOutcome::Miss => Some(BookDecisionStage::OrderMissed),
        ExecutionOutcome::Failed => Some(BookDecisionStage::OrderFailed),
        ExecutionOutcome::Unknown => None,
    }
}

/// The stage at which the context of a known outcome is captured; an unknown
/// outcome has none.
pub fn terminal_context_stage(outcome: ExecutionOutcome) -> (r: Option<BookDecisionStage>)
    ensures
        r == (match outcome {
            ExecutionOutcome::Filled => Some(BookDecisionStage::OrderFilled),
            ExecutionOutcome::Miss => Some(BookDecisionStage::OrderMissed),
            ExecutionOutcome::Failed => Some(BookDecisionStage::OrderFailed),
            ExecutionOutcome::Unknown => None,
        }),
        r == closing_stage(outcome),
{
    match outcome {
        ExecutionOutcome::Filled => Some(BookDecisionStage::OrderFilled),
        ExecutionOutcome::Miss => Some(BookDecisionStage::OrderMissed),
        ExecutionOutcome::Failed => Some(BookDecisionStage::OrderFailed),
        ExecutionOutcome::Unknown => None,
    }
}

/// What was captured of the two books of a market.
#[derive(Debug, PartialEq, Eq)]
pub struct BookDecisionContextSummary {
    pub context_id: Ident,
    pub yes_book_age_ms: Option<u64>,
    pub no_book_age_ms: Option<u64>,
    pub production_eligible: bool,
}

/// The age of the older book whose age is known.
pub fn max_context_age(captured: &BookDecisionContextSummary) -> (r: Option<u64>)
    ensures
        r == older_age(captured.yes_book_age_ms, captured.no_book_age_ms),
{
    match (captured.yes_book_age_ms, captured.no_book_age_ms) {
        (Some(yes), Some(no)) => if yes < no {
            Some(no)
        } else {
            Some(yes)
        },
        (Some(age), None) => Some(age),
        (None, Some(age)) => Some(age),
        (None, None) => None,
    }
}

/// The greater of two ages, as far as they are known.
pub open spec fn older_age(yes: Option<u64>, no: Option<u64>) -> Option<u64> {
    match (yes, no) {
        (Some(a), Some(b)) => Some(
            if a < b {
                b
            } else {
                a
            },
        ),
        (Some(a), None) => Some(a),
        (None, b) => b,
    }
}

/// Which books an opportunity was scored against.
#[derive(Debug, PartialEq, Eq)]
pub struct ScoredBooks {
    pub token_yes: TokenId,
    pub token_no: TokenId,
    pub book_yes_version: u64,
    pub book_no_version: u64,
}

/// The book context that a trade is stored with.
#[derive(Debug, PartialEq, Eq)]
pub struct BookContext {
    pub token_yes: TokenId,
    pub token_no: TokenId,
    pub book_yes_version: u64,
    pub book_no_version: u64,
    pub max_age_ms: Option<u64>,
    pub context_id: Option<Ident>,
}

/// The books of a scored opportunity with what was captured of them.
pub fn snapshot_with_context(books: &ScoredBooks, captured: &BookDecisionContextSummary) -> (r:
    BookContext)
    ensures
        r == (BookContext {
            token_yes: books.token_yes,
            token_no: books.token_no,
            book_yes_version: books.book_yes_version,
            book_no_version: books.book_no_version,
            max_age_ms: older_age(captured.yes_book_age_ms, captured.no_book_age_ms),
            context_id: Some(captured.context_id),
        }),
{
    BookContext {
        token_yes: books.token_yes.clone(),
        token_no: books.token_no.clone(),
        book_yes_version: books.book_yes_version,
        book_no_version: books.book_no_version,
        max_age_ms: max_context_age(captured),
        context_id: Some(captured.context_id.clone()),
    }
}

/// The token that an opportunity buys.
pub fn traded_token(books: &ScoredBooks, predicted_yes: bool) -> (r: &TokenId)
    ensures
        *r == (if predicted_yes {
            books.token_yes
        } else {
            books.token_no
        }),
{
    if predicted_yes {
        &books.token_yes
    } else {
        &books.token_no
    }
}

/// Why a captured context does not do, if it does not. In live mode a context
/// has to reach its writer and, before an order, to be complete.
pub open spec fn context_refusal(
    mode: ExecutionMode,
    captured: Option<BookDecisionContextSummary>,
    written: bool,
    before_order: bool,
) -> Option<RejectionView> {
    let stage = "decision_context"@;
    match captured {
        None => Some(RejectionView { stage, reason: "book pair unavailable"@ }),
        Some(summary) => if !written && mode == ExecutionMode::Live {
            Some(RejectionView { stage, reason: "book decision context writer unavailable"@ })
        } else if before_order && mode == ExecutionMode::Live && !summary.production_eligible {
            Some(
                RejectionView {
                    stage,
                    reason: "book decision context is insufficient for Live order admission"@,
                },
            )
        } else {
            None
        },
    }
}

/// Holds a captured context against what the mode asks for.
pub fn check_context(
    mode: ExecutionMode,
    captured: &Option<BookDecisionContextSummary>,
    written: bool,
    before_order: bool,
) -> (r: Option<Rejection>)
    ensures
        match r {
            Some(rejection) => context_refusal(mode, *captured, written, before_order) == Some(
                rejection@,
            ),
            None => context_refusal(mode, *captured, written, before_order) is None,
        },
{
    match captured {
        None => Some(
            Rejection { stage: "decision_context", reason: "book pair unavailable".to_owned() },
        ),
        Some(summary) => {
            if !written && mode == ExecutionMode::Live {
                return Some(
                    Rejection {
                        stage: "decision_context",
                        reason: "book decision context writer unavailable".to_owned(),
                    },
                );
            }
            if before_order && mode == ExecutionMode::Live && !summary.production_eligible {
                return Some(
                    Rejection {
                        stage: "decision_context",
                        reason: "book decision context is insufficient for Live order admission".to_owned(),
                    },
                );
            }
            None
        },
    }
}

/// A published tolerance for the book that is traded on.
#[derive(Clone, Copy, Debug, PartialEq, Eq)]
pub struct ExecutionQualityFactor {
    pub max_depth_usage_pct: Option<Decimal>,
    /// The slippage limit after the factor's addon.
    pub effective_limit: Bps,
}

/// One hundred.
pub open spec fn hundred() -> Decimal {
    Decimal::of_parts(100, 0)
}

/// Why the live book is worse than a published tolerance, if it is.
pub open spec fn quality_violation(
    factor: Option<ExecutionQualityFactor>,
    depth_used_pct: Decimal,
    slippage_bps: Bps,
) -> Result<Option<Seq<char>>, ErrorView> {
    match factor {
        None => Ok(None),
        Some(found) => match depth_used_pct.quotient(hundred()) {
            None => if found.max_depth_usage_pct is Some {
                Err(ErrorView::DecimalOverflow)
            } else {
                Ok(slippage_violation(found, slippage_bps))
            },
            Some(used) => match found.max_depth_usage_pct {
                Some(cap) => if used@ > cap@ {
                    Ok(
                        Some(
                            "execution-quality depth usage "@ + used.text()
                                + " exceeds factor cap "@ + cap.text(),
                        ),
                    )
                } else {
                    Ok(slippage_violation(found, slippage_bps))
                },
                None => Ok(slippage_violation(found, slippage_bps)),
            },
        },
    }
}

/// Why the slippage is worse than a published tolerance, if it is.
pub open spec fn slippage_violation(
    factor: ExecutionQualityFactor,
    slippage_bps: Bps,
) -> Option<Seq<char>> {
    if factor.effective_limit@ < 0 {
        Some("execution-quality slippage addon leaves no admissible slippage"@)
    } else if slippage_bps@ > factor.effective_limit@ {
        Some(
            "slippage "@ + slippage_bps.text() + " exceeds execution-quality tightened limit "@
                + factor.effective_limit.text() + " bps"@,
        )
    } else {
        None
    }
}

fn check_slippage(factor: ExecutionQualityFactor, slippage_bps: Bps) -> (r: Option<String>)
    ensures
        text_view(r) == slippage_violation(factor, slippage_bps),
{
    if factor.effective_limit.is_negative() {
        return Some(
            "execution-quality slippage addon leaves no admissible slippage".to_owned(),
        );
    }
    if factor.effective_limit.lt(slippage_bps) {
        return Some(
            "slippage ".to_owned().concat(slippage_bps.to_text().as_str()).concat(
                " exceeds execution-quality tightened limit ",
            ).concat(factor.effective_limit.to_text().as_str()).concat(" bps"),
        );
    }
    None
}

/// An optional text as a sequence.
pub open spec fn text_view(text: Option<String>) -> Option<Seq<char>> {
    match text {
        Some(value) => Some(value@),
        None => None,
    }
}

/// Holds the live book against a published tolerance.
pub fn execution_quality_violation(
    factor: Option<ExecutionQualityFactor>,
    depth_used_pct: Decimal,
    slippage_bps: Bps,
) -> (r: Result<Option<String>, ExecutionError>)
    ensures
        match quality_violation(factor, depth_used_pct, slippage_bps) {
            Ok(reason) => r is Ok && text_view(r->Ok_0) == reason,
            Err(error) => r is Err && r->Err_0@ == error,
        },
{
    let found = match factor {
        Some(found) => found,
        None => return Ok(None),
    };
    if let Some(cap) = found.max_depth_usage_pct {
        let used = match depth_used_pct.checked_div(Decimal::from_whole(100)) {
            Some(used) => used,
            None => return Err(ExecutionError::DecimalOverflow),
        };
        if cap.lt(used) {
            return Ok(
                Some(
                    "execution-quality depth usage ".to_owned().concat(
                        used.to_text().as_str(),
                    ).concat(" exceeds factor cap ").concat(cap.to_text().as_str()),
                ),
            );
        }
    }
    Ok(check_slippage(found, slippage_bps))
}

/// A verdict of one published control factor.
#[derive(Debug, PartialEq, Eq)]
pub struct FactorVerdict {
    pub decision: String,
    /// The factor that the verdict rests on.
    pub source: Option<Ident>,
}

/// The published control factors that bear on one execution.
#[derive(Debug, PartialEq, Eq)]
pub struct PublishedFactors {
    pub publication_id: Ident,
    pub expired: bool,
    pub reconciliation_health: FactorVerdict,
    pub market_anomaly: FactorVerdict,
    pub portfolio_risk: FactorVerdict,
    pub bucket_size_multiplier: Option<Decimal>,
}

/// The factors as an execution applies them.
#[derive(Debug, PartialEq, Eq)]
pub struct FactorDecisionContext {
    pub publication_id: Ident,
    pub snapshot_expired: bool,
    pub fail_closed: bool,
    pub reconciliation_health: FactorVerdict,
    pub market_anomaly: FactorVerdict,
    pub portfolio_risk: FactorVerdict,
    pub bucket_size_multiplier: Decimal,
    pub applied_factors: Vec<Ident>,
}

/// A source as a list.
pub open spec fn source_list(source: Option<Ident>) -> Seq<Ident> {
    match source {
        Some(id) => seq![id],
        None => Seq::empty(),
    }
}

/// The factors that published verdicts rest on.
pub open spec fn applied_sources(published: PublishedFactors) -> Seq<Ident> {
    source_list(published.reconciliation_health.source) + source_list(
        published.market_anomaly.source,
    ) + source_list(published.portfolio_risk.source)
}

fn push_source(applied: &mut Vec<Ident>, source: &Option<Ident>)
    ensures
        final(applied)@ == old(applied)@ + source_list(*source),
{
    match source {
        Some(id) => {
            applied.push(id.clone());
        },
        None => {},
    }
    assert(applied@ =~= old(applied)@ + source_list(*source));
}

/// The factors as an execution applies them. Without a publication none apply.
pub fn build_factor_context(published: Option<PublishedFactors>, fail_closed: bool) -> (r: Option<
    FactorDecisionContext,
>)
    ensures
        match (published, r) {
            (None, None) => true,
            (Some(p), Some(context)) => {
                &&& context.publication_id == p.publication_id
                &&& context.snapshot_expired == p.expired
                &&& context.fail_closed == fail_closed
                &&& context.reconciliation_health == p.reconciliation_health
                &&& context.market_anomaly == p.market_anomaly
                &&& context.portfolio_risk == p.portfolio_risk
                &&& context.bucket_size_multiplier == (match p.bucket_size_multiplier {
                    Some(multiplier) => multiplier,
                    None => Decimal::of_parts(1, 0),
                })
                &&& context.applied_factors@ == applied_sources(p)
            },
            _ => false,
        },
{
    let published = match published {
        Some(published) => published,
        None => return None,
    };
    let mut applied: Vec<Ident> = Vec::new();
    push_source(&mut applied, &published.reconciliation_health.source);
    push_source(&mut applied, &published.market_anomaly.source);
    push_source(&mut applied, &published.portfolio_risk.source);
    assert(applied@ =~= applied_sources(published));
    Some(
        FactorDecisionContext {
            publication_id: published.publication_id,
            snapshot_expired: published.expired,
            fail_closed,
            reconciliation_health: published.reconciliation_health,
            market_anomaly: published.market_anomaly,
            portfolio_risk: published.portfolio_risk,
            bucket_size_multiplier: match published.bucket_size_multiplier {
                Some(multiplier) => multiplier,
                None => Decimal::one(),
            },
            applied_factors: applied,
        },
    )
}

/// What the risk engine says of an opportunity.
#[derive(Debug, PartialEq, Eq)]
pub struct RiskDecision {
    pub allowed: bool,
    pub denial_reason: Option<String>,
    /// The size in USD that it recommends.
    pub recommended_usd: Option<Usd>,
}

/// Whether a text begins with another.
pub open spec fn begins_with(text: Seq<char>, prefix: Seq<char>) -> bool {
    prefix.len() <= text.len() && text.take(prefix.len() as int) == prefix
}

fn has_prefix(text: &str, prefix: &str) -> (r: bool)
    ensures
        r == begins_with(text@, prefix@),
{
    let length: usize = prefix.unicode_len();
    if text.unicode_len() < length {
        return false;
    }
    let ghost front = text@.take(prefix@.len() as int);
    let mut i: usize = 0;
    while i < length
        invariant
            i <= length,
            length == prefix@.len(),
            length <= text@.len(),
            front == text@.take(prefix@.len() as int),
            forall|j: int| 0 <= j < i ==> front[j] == prefix@[j],
        decreases length - i,
    {
        if text.get_char(i) != prefix.get_char(i) {
            assert(front[i as int] != prefix@[i as int]);
            return false;
        }
        i = i + 1;
    }
    assert(front =~= prefix@);
    true
}

/// Whether a denial stems from a control factor that blocks outright.
pub open spec fn is_hard_denial(reason: Seq<char>) -> bool {
    begins_with(reason, "MarketAnomalyBlock"@) || begins_with(
        reason,
        "ReconciliationMaintenance"@,
    ) || begins_with(reason, "ControlFactorManualAckRequired"@) || begins_with(
        reason,
        "ControlFactorSnapshotExpired"@,
    )
}

/// What is counted when an opportunity is denied.
#[derive(Clone, Copy, Debug, PartialEq, Eq, Structural)]
pub enum DenialMetric {
    ValidationFailure,
    FactorValidation,
    /// A risk denial; a hard one is counted as such as well.
    Risk { hard: bool },
    SizingZero,
}

/// The control factors that an opportunity was judged under.
#[derive(Debug, PartialEq, Eq)]
pub struct FactorTrace {
    pub publication_id: Option<Ident>,
    pub applied: Vec<Ident>,
}

/// A factor trace with its list as a sequence.
#[verifier::ext_equal]
pub ghost struct TraceView {
    pub publication_id: Option<Ident>,
    pub applied: Seq<Ident>,
}

impl View for FactorTrace {
    type V = TraceView;

    open spec fn view(&self) -> TraceView {
        TraceView { publication_id: self.publication_id, applied: self.applied@ }
    }
}

/// Why an opportunity is not traded, with what its audit holds.
#[derive(Debug, PartialEq, Eq)]
pub struct Denial {
    pub rejection: Rejection,
    pub metric: DenialMetric,
    pub trace: FactorTrace,
}

/// A denial with its lists and texts as sequences.
#[verifier::ext_equal]
pub ghost struct DenialView {
    pub rejection: RejectionView,
    pub metric: DenialMetric,
    pub trace: TraceView,
}

impl View for Denial {
    type V = DenialView;

    open spec fn view(&self) -> DenialView {
        DenialView {
            rejection: self.rejection@,
            metric: self.metric,
            trace: self.trace@,
        }
    }
}

/// A sized opportunity.
#[derive(Debug, PartialEq, Eq)]
pub struct SizedOpportunity {
    pub approved_usd: Usd,
    pub trace: FactorTrace,
}

/// What validating and sizing an opportunity looked up.
#[derive(Debug, PartialEq, Eq)]
pub struct SizingFacts {
    pub publication_id: Option<Ident>,
    /// The factors that were applied when the opportunity was detected.
    pub detection_factors: Vec<Ident>,
    /// The slippage that the validator measured, or its refusal.
    pub validation: Result<Bps, String>,
    pub quality: Option<ExecutionQualityFactor>,
    pub depth_used_pct: Decimal,
    /// The factors that are applied now.
    pub execution_factors: Vec<Ident>,
    pub risk: RiskDecision,
    /// The fee of the recommended size, or why it cannot be quoted.
    pub fee_preview: Result<Usd, String>,
    /// What the risk engine says of the recommended size.
    pub sized_risk: RiskDecision,
}

/// What came of validating and sizing.
pub ghost enum SizingView {
    /// Denied; `shadowed` once the shadow decision was recorded.
    Denied { denial: DenialView, shadowed: bool },
    Sized { approved_usd: Usd, trace: TraceView },
}

/// What came of validating and sizing.
#[derive(Debug, PartialEq, Eq)]
pub enum SizingOutcome {
    Denied { denial: Denial, shadowed: bool },
    Sized(SizedOpportunity),
}

impl View for SizingOutcome {
    type V = SizingView;

    open spec fn view(&self) -> SizingView {
        match *self {
            SizingOutcome::Denied { denial, shadowed } => SizingView::Denied {
                denial: denial@,
                shadowed,
            },
            SizingOutcome::Sized(sized) => SizingView::Sized {
                approved_usd: sized.approved_usd,
                trace: sized.trace@,
            },
        }
    }
}

/// The reason of a risk denial.
pub open spec fn risk_reason(decision: RiskDecision) -> Seq<char> {
    match decision.denial_reason {
        Some(reason) => reason@,
        None => "risk denied"@,
    }
}

/// The denial of a risk decision.
pub open spec fn risk_denial(decision: RiskDecision, trace: TraceView) -> DenialView {
    DenialView {
        rejection: RejectionView { stage: "risk"@, reason: risk_reason(decision) },
        metric: DenialMetric::Risk { hard: is_hard_denial(risk_reason(decision)) },
        trace,
    }
}

/// The denial of a stage with a plain reason.
pub open spec fn stage_denial(
    stage: Seq<char>,
    reason: Seq<char>,
    metric: DenialMetric,
    trace: TraceView,
) -> DenialView {
    DenialView { rejection: RejectionView { stage, reason }, metric, trace }
}

/// What came of validating and sizing an opportunity: validation, the published
/// tolerance, risk, size, fee and risk of the size are asked in this order.
pub open spec fn sized(facts: SizingFacts) -> Result<SizingView, ErrorView> {
    let detected = TraceView {
        publication_id: facts.publication_id,
        applied: facts.detection_factors@,
    };
    let merged = TraceView {
        publication_id: facts.publication_id,
        applied: facts.detection_factors@ + facts.execution_factors@,
    };
    match facts.validation {
        Err(error) => Ok(
            SizingView::Denied {
                denial: stage_denial(
                    "validation"@,
                    error@,
                    DenialMetric::ValidationFailure,
                    detected,
                ),
                shadowed: false,
            },
        ),
        Ok(slippage) => match quality_violation(facts.quality, facts.depth_used_pct, slippage) {
            Err(error) => Err(error),
            Ok(Some(reason)) => Ok(
                SizingView::Denied {
                    denial: stage_denial(
                        "factor_validation"@,
                        reason,
                        DenialMetric::FactorValidation,
                        detected,
                    ),
                    shadowed: false,
                },
            ),
            Ok(None) => if !facts.risk.allowed {
                Ok(
                    SizingView::Denied {
                        denial: risk_denial(facts.risk, merged),
                        shadowed: false,
                    },
                )
            } else if facts.risk.recommended_usd is None || facts.risk.recommended_usd->0@ <= 0 {
                Ok(
                    SizingView::Denied {
                        denial: stage_denial(
                            "sizing"@,
                            "Kelly sizing returned zero"@,
                            DenialMetric::SizingZero,
                            merged,
                        ),
                        shadowed: false,
                    },
                )
            } else {
                match facts.fee_preview {
                    Err(error) => Ok(
                        SizingView::Denied {
                            denial: stage_denial(
                                "fee_quote"@,
                                error@,
                                DenialMetric::ValidationFailure,
                                merged,
                            ),
                            shadowed: true,
                        },
                    ),
                    Ok(_) => if !facts.sized_risk.allowed {
                        Ok(
                            SizingView::Denied {
                                denial: risk_denial(facts.sized_risk, merged),
                                shadowed: true,
                            },
                        )
                    } else {
                        Ok(
                            SizingView::Sized {
                                approved_usd: facts.risk.recommended_usd->0,
                                trace: merged,
                            },
                        )
                    },
                }
            },
        },
    }
}

/// The denial of a risk decision.
pub fn record_risk_denial(decision: RiskDecision, trace: FactorTrace) -> (r: Denial)
    ensures
        r@ == risk_denial(decision, trace@),
{
    let reason = match decision.denial_reason {
        Some(reason) => reason,
        None => "risk denied".to_owned(),
    };
    let hard = has_prefix(reason.as_str(), "MarketAnomalyBlock") || has_prefix(
        reason.as_str(),
        "ReconciliationMaintenance",
    ) || has_prefix(reason.as_str(), "ControlFactorManualAckRequired") || has_prefix(
        reason.as_str(),
        "ControlFactorSnapshotExpired",
    );
    Denial {
        rejection: Rejection { stage: "risk", reason },
        metric: DenialMetric::Risk { hard },
        trace,
    }
}

fn deny(stage: &'static str, reason: String, metric: DenialMetric, trace: FactorTrace) -> (r: Denial)
    ensures
        r@ == stage_denial(stage@, reason@, metric, trace@),
{
    Denial { rejection: Rejection { stage, reason }, metric, trace }
}

fn append_all(first: Vec<Ident>, second: Vec<Ident>) -> (r: Vec<Ident>)
    ensures
        r@ == first@ + second@,
{
    let ghost start = first@;
    let mut all = first;
    let mut i: usize = 0;
    assert(start + second@.take(0) =~= start);
    while i < second.len()
        invariant
            i <= second.len(),
            all@ == start + second@.take(i as int),
        decreases second.len() - i,
    {
        all.push(second[i].clone());
        assert(all@ =~= start + second@.take(i + 1));
        i = i + 1;
    }
    assert(second@.take(i as int) =~= second@);
    all
}

/// Validates and sizes an opportunity.
pub fn validate_and_size(facts: SizingFacts) -> (r: Result<SizingOutcome, ExecutionError>)
    ensures
        match sized(facts) {
            Ok(outcome) => r is Ok && r->Ok_0@ == outcome,
            Err(error) => r is Err && r->Err_0@ == error,
        },
{
    let detected = FactorTrace {
        publication_id: facts.publication_id,
        applied: facts.detection_factors,
    };
    let slippage = match facts.validation {
        Ok(slippage) => slippage,
        Err(error) => {
            return Ok(
                SizingOutcome::Denied {
                    denial: deny("validation", error, DenialMetric::ValidationFailure, detected),
                    shadowed: false,
                },
            );
        },
    };
    match execution_quality_violation(facts.quality, facts.depth_used_pct, slippage) {
        Err(error) => return Err(error),
        Ok(Some(reason)) => {
            return Ok(
                SizingOutcome::Denied {
                    denial: deny(
                        "factor_validation",
                        reason,
                        DenialMetric::FactorValidation,
                        detected,
                    ),
                    shadowed: false,
                },
            );
        },
        Ok(None) => {},
    }
    let FactorTrace { publication_id, applied } = detected;
    let trace = FactorTrace {
        publication_id,
        applied: append_all(applied, facts.execution_factors),
    };
    if !facts.risk.allowed {
        return Ok(
            SizingOutcome::Denied {
                denial: record_risk_denial(facts.risk, trace),
                shadowed: false,
            },
        );
    }
    let approved_usd = match facts.risk.recommended_usd {
        Some(usd) => usd,
        None => Decimal::zero(),
    };
    if !approved_usd.is_positive() {
        return Ok(
            SizingOutcome::Denied {
                denial: deny(
                    "sizing",
                    "Kelly sizing returned zero".to_owned(),
                    DenialMetric::SizingZero,
                    trace,
                ),
                shadowed: false,
            },
        );
    }
    if let Err(error) = facts.fee_preview {
        return Ok(
            SizingOutcome::Denied {
                denial: deny("fee_quote", error, DenialMetric::ValidationFailure, trace),
                shadowed: true,
            },
        );
    }
    if !facts.sized_risk.allowed {
        return Ok(
            SizingOutcome::Denied {
                denial: record_risk_denial(facts.sized_risk, trace),
                shadowed: true,
            },
        );
    }
    Ok(SizingOutcome::Sized(SizedOpportunity { approved_usd, trace }))
}

/// Whatever is sized has passed validation and both risk decisions, and has a
/// positive size.
pub proof fn only_admitted_opportunities_are_sized(facts: SizingFacts)
    requires
        sized(facts) matches Ok(SizingView::Sized { .. }),
    ensures
        facts.validation is Ok,
        quality_violation(facts.quality, facts.depth_used_pct, facts.validation->Ok_0) == Ok::<
            Option<Seq<char>>,
            ErrorView,
        >(None),
        facts.risk.allowed,
        facts.fee_preview is Ok,
        facts.sized_risk.allowed,
        sized(facts)->Ok_0->approved_usd@ > 0,
{
}

/// What execution asks of the outside world next.
#[derive(Debug, PartialEq, Eq)]
pub enum PipelineStep {
    /// Is trading allowed at all?
    Admit,
    /// Claim the market.
    AcquireMarket,
    /// Validate and size; a denial is audited on its own.
    Size,
    /// Capture the books before the order.
    CaptureContext,
    /// Reserve the capital.
    Reserve,
    /// Build the execution plan.
    BuildPlan,
    /// Compose the trade row.
    BuildTrade,
    /// Store the trade as an intent.
    CreateTrade,
    /// Read the token balance before the order.
    ReadBalance,
    /// Store that balance.
    StoreBalance,
    /// Mark the trade as submitted.
    MarkSubmitted,
    /// Call the venue.
    CallVenue,
    /// Nothing is submitted.
    Aborted(PipelineAbort),
}

/// What an execution that is given up owes.
#[derive(Debug, PartialEq, Eq)]
pub struct PipelineAbort {
    /// The reserved capital is released.
    pub release: bool,
    /// A failed reservation is counted.
    pub reservation_failure: bool,
    /// The rejection is written to the audit.
    pub audit: bool,
    /// Execution stops for good.
    pub emergency: Option<(EmergencyClass, &'static str)>,
    pub rejection: Rejection,
}

/// What an abort owes, with its texts as sequences.
pub ghost struct AbortView {
    pub release: bool,
    pub reservation_failure: bool,
    pub audit: bool,
    pub emergency: Option<(EmergencyClass, Seq<char>)>,
    pub rejection: RejectionView,
}

impl View for PipelineAbort {
    type V = AbortView;

    open spec fn view(&self) -> AbortView {
        AbortView {
            release: self.release,
            reservation_failure: self.reservation_failure,
            audit: self.audit,
            emergency: match self.emergency {
                Some((class, reason)) => Some((class, reason@)),
                None => None,
            },
            rejection: self.rejection@,
        }
    }
}

/// A pipeline step with its texts as sequences.
pub ghost enum StepView {
    Admit,
    AcquireMarket,
    Size,
    CaptureContext,
    Reserve,
    BuildPlan,
    BuildTrade,
    CreateTrade,
    ReadBalance,
    StoreBalance,
    MarkSubmitted,
    CallVenue,
    Aborted(AbortView),
}

impl View for PipelineStep {
    type V = StepView;

    open spec fn view(&self) -> StepView {
        match *self {
            PipelineStep::Admit => StepView::Admit,
            PipelineStep::AcquireMarket => StepView::AcquireMarket,
            PipelineStep::Size => StepView::Size,
            PipelineStep::CaptureContext => StepView::CaptureContext,
            PipelineStep::Reserve => StepView::Reserve,
            PipelineStep::BuildPlan => StepView::BuildPlan,
            PipelineStep::BuildTrade => StepView::BuildTrade,
            PipelineStep::CreateTrade => StepView::CreateTrade,
            PipelineStep::ReadBalance => StepView::ReadBalance,
            PipelineStep::StoreBalance => StepView::StoreBalance,
            PipelineStep::MarkSubmitted => StepView::MarkSubmitted,
            PipelineStep::CallVenue => StepView::CallVenue,
            PipelineStep::Aborted(abort) => StepView::Aborted(abort@),
        }
    }
}

/// How the outside world answered a step.
#[derive(Debug, PartialEq, Eq)]
pub enum StepReply {
    /// It was done.
    Done,
    /// It was not done because the state did not allow it.
    Declined,
    /// It failed, or was rejected, with this stage and reason.
    Rejected(Rejection),
    /// It failed with this error.
    Failed(String),
}

/// The text of a reply that is not a success.
pub open spec fn reply_reason(reply: StepReply, declined: Seq<char>) -> Seq<char> {
    match reply {
        StepReply::Done => declined,
        StepReply::Declined => declined,
        StepReply::Rejected(rejection) => rejection.reason@,
        StepReply::Failed(error) => error@,
    }
}

/// An abort before any capital was reserved.
pub open spec fn early_abort(rejection: RejectionView) -> StepView {
    StepView::Aborted(
        AbortView {
            release: false,
            reservation_failure: false,
            audit: false,
            emergency: None,
            rejection,
        },
    )
}

/// An abort that releases the reserved capital.
pub open spec fn releasing_abort(
    stage: Seq<char>,
    reason: Seq<char>,
    audit: bool,
    emergency: Option<(EmergencyClass, Seq<char>)>,
) -> StepView {
    StepView::Aborted(
        AbortView {
            release: true,
            reservation_failure: false,
            audit,
            emergency,
            rejection: RejectionView { stage, reason },
        },
    )
}

/// The step after a reply. `reads_balance` tells whether live orders have their
/// token balance read first.
pub open spec fn step_after(step: StepView, reply: StepReply, reads_balance: bool) -> StepView {
    match step {
        StepView::Admit => if reply is Done {
            StepView::AcquireMarket
        } else {
            early_abort(
                RejectionView {
                    stage: "halted"@,
                    reason: "execution halted — trading blocked"@,
                },
            )
        },
        StepView::AcquireMarket => if reply is Done {
            StepView::Size
        } else {
            early_abort(
                RejectionView { stage: "inflight"@, reason: "market already executing"@ },
            )
        },
        StepView::Size => match reply {
            StepReply::Done => StepView::CaptureContext,
            StepReply::Rejected(rejection) => early_abort(rejection@),
            _ => early_abort(
                RejectionView { stage: "sizing"@, reason: reply_reason(reply, "not sized"@) },
            ),
        },
        StepView::CaptureContext => match reply {
            StepReply::Done => StepView::Reserve,
            StepReply::Rejected(rejection) => early_abort(rejection@),
            _ => early_abort(
                RejectionView {
                    stage: "decision_context"@,
                    reason: reply_reason(reply, "not captured"@),
                },
            ),
        },
        StepView::Reserve => if reply is Done {
            StepView::BuildPlan
        } else {
            StepView::Aborted(
                AbortView {
                    release: false,
                    reservation_failure: true,
                    audit: true,
                    emergency: None,
                    rejection: RejectionView {
                        stage: "reservation"@,
                        reason: reply_reason(reply, "not reserved"@),
                    },
                },
            )
        },
        StepView::BuildPlan => if reply is Done {
            StepView::BuildTrade
        } else {
            releasing_abort("fee_quote"@, reply_reason(reply, "not planned"@), true, None)
        },
        StepView::BuildTrade => if reply is Done {
            StepView::CreateTrade
        } else {
            releasing_abort(
                "trade_persist"@,
                reply_reason(reply, "not serialized"@),
                false,
                Some(
                    (
                        EmergencyClass::PersistenceFault,
                        "scored snapshot serialization failed"@,
                    ),
                ),
            )
        },
        StepView::CreateTrade => if reply is Done {
            if reads_balance {
                StepView::ReadBalance
            } else {
                StepView::MarkSubmitted
            }
        } else {
            releasing_abort("trade_persist"@, reply_reason(reply, "not stored"@), true, None)
        },
        StepView::ReadBalance => if reply is Done {
            StepView::StoreBalance
        } else {
            releasing_abort(
                "submit_persist"@,
                reply_reason(reply, "not read"@),
                false,
                Some((EmergencyClass::VenueFault, "pre-submit CTF balance read failed"@)),
            )
        },
        StepView::StoreBalance => if reply is Done {
            StepView::MarkSubmitted
        } else {
            releasing_abort(
                "submit_persist"@,
                reply_reason(reply, "not stored"@),
                false,
                Some(
                    (
                        EmergencyClass::PersistenceFault,
                        "pre-submit CTF balance snapshot failed"@,
                    ),
                ),
            )
        },
        StepView::MarkSubmitted => match reply {
            StepReply::Done => StepView::CallVenue,
            StepReply::Declined => releasing_abort(
                "submit_persist"@,
                "trade was not in intent state"@,
                false,
                Some((EmergencyClass::PersistenceFault, "mark submitted skipped"@)),
            ),
            _ => releasing_abort(
                "submit_persist"@,
                reply_reason(reply, ""@),
                false,
                Some((EmergencyClass::PersistenceFault, "mark submitted failed"@)),
            ),
        },
        StepView::CallVenue => StepView::CallVenue,
        StepView::Aborted(abort) => StepView::Aborted(abort),
    }
}

fn reason_of(reply: StepReply, declined: &str) -> (r: String)
    ensures
        r@ == reply_reason(reply, declined@),
{
    match reply {
        StepReply::Done => declined.to_owned(),
        StepReply::Declined => declined.to_owned(),
        StepReply::Rejected(rejection) => rejection.reason,
        StepReply::Failed(error) => error,
    }
}

fn abort_early(rejection: Rejection) -> (r: PipelineStep)
    ensures
        r@ == early_abort(rejection@),
{
    PipelineStep::Aborted(
        PipelineAbort {
            release: false,
            reservation_failure: false,
            audit: false,
            emergency: None,
            rejection,
        },
    )
}

fn abort_releasing(
    stage: &'static str,
    reason: String,
    audit: bool,
    emergency: Option<(EmergencyClass, &'static str)>,
) -> (r: PipelineStep)
    ensures
        r@ == releasing_abort(
            stage@,
            reason@,
            audit,
            match emergency {
                Some((class, text)) => Some((class, text@)),
                None => None,
            },
        ),
{
    PipelineStep::Aborted(
        PipelineAbort {
            release: true,
            reservation_failure: false,
            audit,
            emergency,
            rejection: Rejection { stage, reason },
        },
    )
}

/// What execution does after a reply.
#[verifier::rlimit(40)]
pub fn next_pipeline_step(step: PipelineStep, reply: StepReply, reads_balance: bool) -> (r:
    PipelineStep)
    ensures
        r@ == step_after(step@, reply, reads_balance),
{
    let done = match &reply {
        StepReply::Done => true,
        _ => false,
    };
    match step {
        PipelineStep::Admit => if done {
            PipelineStep::AcquireMarket
        } else {
            abort_early(
                Rejection {
                    stage: "halted",
                    reason: "execution halted — trading blocked".to_owned(),
                },
            )
        },
        PipelineStep::AcquireMarket => if done {
            PipelineStep::Size
        } else {
            abort_early(
                Rejection { stage: "inflight", reason: "market already executing".to_owned() },
            )
        },
        PipelineStep::Size => match reply {
            StepReply::Done => PipelineStep::CaptureContext,
            StepReply::Rejected(rejection) => abort_early(rejection),
            _ => abort_early(
                Rejection { stage: "sizing", reason: reason_of(reply, "not sized") },
            ),
        },
        PipelineStep::CaptureContext => match reply {
            StepReply::Done => PipelineStep::Reserve,
            StepReply::Rejected(rejection) => abort_early(rejection),
            _ => abort_early(
                Rejection {
                    stage: "decision_context",
                    reason: reason_of(reply, "not captured"),
                },
            ),
        },
        PipelineStep::Reserve => if done {
            PipelineStep::BuildPlan
        } else {
            PipelineStep::Aborted(
                PipelineAbort {
                    release: false,
                    reservation_failure: true,
                    audit: true,
                    emergency: None,
                    rejection: Rejection {
                        stage: "reservation",
                        reason: reason_of(reply, "not reserved"),
                    },
                },
            )
        },
        PipelineStep::BuildPlan => if done {
            PipelineStep::BuildTrade
        } else {
            abort_releasing("fee_quote", reason_of(reply, "not planned"), true, None)
        },
        PipelineStep::BuildTrade => if done {
            PipelineStep::CreateTrade
        } else {
            abort_releasing(
                "trade_persist",
                reason_of(reply, "not serialized"),
                false,
                Some(
                    (EmergencyClass::PersistenceFault, "scored snapshot serialization failed"),
                ),
            )
        },
        PipelineStep::CreateTrade => if done {
            if reads_balance {
                PipelineStep::ReadBalance
            } else {
                PipelineStep::MarkSubmitted
            }
        } else {
            abort_releasing("trade_persist", reason_of(reply, "not stored"), true, None)
        },
        PipelineStep::ReadBalance => if done {
            PipelineStep::StoreBalance
        } else {
            abort_releasing(
                "submit_persist",
                reason_of(reply, "not read"),
                false,
                Some((EmergencyClass::VenueFault, "pre-submit CTF balance read failed")),
            )
        },
        PipelineStep::StoreBalance => if done {
            PipelineStep::MarkSubmitted
        } else {
            abort_releasing(
                "submit_persist",
                reason_of(reply, "not stored"),
                false,
                Some(
                    (EmergencyClass::PersistenceFault, "pre-submit CTF balance snapshot failed"),
                ),
            )
        },
        PipelineStep::MarkSubmitted => match reply {
            StepReply::Done => PipelineStep::CallVenue,
            StepReply::Declined => abort_releasing(
                "submit_persist",
                "trade was not in intent state".to_owned(),
                false,
                Some((EmergencyClass::PersistenceFault, "mark submitted skipped")),
            ),
            _ => abort_releasing(
                "submit_persist",
                reason_of(reply, ""),
                false,
                Some((EmergencyClass::PersistenceFault, "mark submitted failed")),
            ),
        },
        PipelineStep::CallVenue => PipelineStep::CallVenue,
        PipelineStep::Aborted(abort) => PipelineStep::Aborted(abort),
    }
}

/// The step after a sequence of replies from the start.
pub open spec fn step_after_all(replies: Seq<StepReply>, reads_balance: bool) -> StepView
    decreases replies.len(),
{
    if replies.len() == 0 {
        StepView::Admit
    } else {
        step_after(
            step_after_all(replies.drop_last(), reads_balance),
            replies.last(),
            reads_balance,
        )
    }
}

/// Whether capital is reserved at a step.
pub open spec fn holds_capital(step: StepView) -> bool {
    step is BuildPlan || step is BuildTrade || step is CreateTrade || step is ReadBalance
        || step is StoreBalance || step is MarkSubmitted || step is CallVenue
}

/// The venue is called only where every step before it was done: the trade is
/// stored and durably marked as submitted.
pub proof fn the_venue_call_is_last(replies: Seq<StepReply>, reads_balance: bool)
    requires
        step_after_all(replies, reads_balance) is CallVenue,
        replies.len() > 0,
        !(step_after_all(replies.drop_last(), reads_balance) is CallVenue),
    ensures
        step_after_all(replies.drop_last(), reads_balance) is MarkSubmitted,
        forall|i: int| 0 <= i < replies.len() ==> #[trigger] replies[i] is Done,
{
    lemma_all_done(replies.drop_last(), reads_balance);
    assert forall|i: int| 0 <= i < replies.len() implies #[trigger] replies[i] is Done by {
        if i < replies.len() - 1 {
            assert(replies.drop_last()[i] == replies[i]);
        }
    }
}

proof fn lemma_all_done(replies: Seq<StepReply>, reads_balance: bool)
    requires
        !(step_after_all(replies, reads_balance) is Aborted),
        !(step_after_all(replies, reads_balance) is CallVenue),
    ensures
        forall|i: int| 0 <= i < replies.len() ==> #[trigger] replies[i] is Done,
    decreases replies.len(),
{
    if replies.len() > 0 {
        lemma_all_done(replies.drop_last(), reads_balance);
        assert forall|i: int| 0 <= i < replies.len() implies #[trigger] replies[i] is Done by {
            if i < replies.len() - 1 {
                assert(replies.drop_last()[i] == replies[i]);
            }
        }
    }
}

/// Giving up releases capital exactly where some was reserved.
pub proof fn giving_up_frees_the_capital(step: StepView, reply: StepReply, reads_balance: bool)
    requires
        !(step is Aborted),
        step_after(step, reply, reads_balance) is Aborted,
    ensures
        step_after(step, reply, reads_balance)->Aborted_0.release == holds_capital(step),
{
}

/// What becomes of reserved capital after the venue answered.
#[derive(Clone, Copy, Debug, PartialEq, Eq, Structural)]
pub enum ReservationAction {
    Release,
    Keep,
}

/// A miss or a failure frees the capital; a fill keeps it until the position is
/// booked, an unknown outcome until it is reconciled.
pub open spec fn reservation_after(outcome: ExecutionOutcome) -> ReservationAction {
    match outcome {
        ExecutionOutcome::Miss => ReservationAction::Release,
        ExecutionOutcome::Failed => ReservationAction::Release,
        ExecutionOutcome::Filled => ReservationAction::Keep,
        ExecutionOutcome::Unknown => ReservationAction::Keep,
    }
}

/// What becomes of reserved capital after the venue answered.
pub fn settle_reservation(outcome: ExecutionOutcome) -> (r: ReservationAction)
    ensures
        r == reservation_after(outcome),
{
    match outcome {
        ExecutionOutcome::Miss => ReservationAction::Release,
        ExecutionOutcome::Failed => ReservationAction::Release,
        ExecutionOutcome::Filled => ReservationAction::Keep,
        ExecutionOutcome::Unknown => ReservationAction::Keep,
    }
}

/// What the observation of an outcome asks for next.
#[derive(Clone, Copy, Debug, PartialEq, Eq)]
pub enum ObserveStep {
    /// Mark the trade for reconciliation.
    MarkOrphaned,
    /// Pin the reservation until the trade is reconciled.
    PinReservation,
    /// Metrics are stale, the reconciler is woken, integrity is refreshed.
    WakeReconciler,
    /// Store the outcome with the trade.
    MarkObserved,
    /// Metrics are stale, the relay is woken, integrity is refreshed.
    WakeRelay,
    /// Execution stops for good.
    Emergency { class: EmergencyClass, reason: &'static str },
    Done,
}

/// An observation step with its text as a sequence.
pub ghost enum ObserveView {
    MarkOrphaned,
    PinReservation,
    WakeReconciler,
    MarkObserved,
    WakeRelay,
    Emergency { class: EmergencyClass, reason: Seq<char> },
    Done,
}

impl View for ObserveStep {
    type V = ObserveView;

    open spec fn view(&self) -> ObserveView {
        match *self {
            ObserveStep::MarkOrphaned => ObserveView::MarkOrphaned,
            ObserveStep::PinReservation => ObserveView::PinReservation,
            ObserveStep::WakeReconciler => ObserveView::WakeReconciler,
            ObserveStep::MarkObserved => ObserveView::MarkObserved,
            ObserveStep::WakeRelay => ObserveView::WakeRelay,
            ObserveStep::Emergency { class, reason } => ObserveView::Emergency {
                class,
                reason: reason@,
            },
            ObserveStep::Done => ObserveView::Done,
        }
    }
}

/// How a step of the observation went.
#[derive(Clone, Copy, Debug, PartialEq, Eq, Structural)]
pub enum ObserveReply {
    Done,
    /// The trade was not in the state that the step asks for.
    Skipped,
    Failed,
}

/// How the observation of an outcome begins. A known outcome has to resolve to
/// an observation.
pub open spec fn observation_start(outcome: ExecutionOutcome, resolved: bool) -> ObserveView {
    if outcome == ExecutionOutcome::Unknown {
        ObserveView::MarkOrphaned
    } else if !resolved {
        ObserveView::Emergency {
            class: EmergencyClass::PersistenceFault,
            reason: "unknown outcome reached observed resolution path"@,
        }
    } else {
        ObserveView::MarkObserved
    }
}

/// The observation step after a reply.
pub open spec fn observation_after(step: ObserveView, reply: ObserveReply) -> ObserveView {
    match step {
        ObserveView::MarkOrphaned => match reply {
            ObserveReply::Done => ObserveView::PinReservation,
            ObserveReply::Skipped => ObserveView::Emergency {
                class: EmergencyClass::PersistenceFault,
                reason: "unknown outcome reconciliation mark skipped"@,
            },
            ObserveReply::Failed => ObserveView::Emergency {
                class: EmergencyClass::PersistenceFault,
                reason: "unknown outcome reconciliation mark failed"@,
            },
        },
        ObserveView::PinReservation => match reply {
            ObserveReply::Done => ObserveView::WakeReconciler,
            _ => ObserveView::Emergency {
                class: EmergencyClass::ReservationFault,
                reason: "unknown outcome reservation pin failed"@,
            },
        },
        ObserveView::MarkObserved => match reply {
            ObserveReply::Done => ObserveView::WakeRelay,
            _ => ObserveView::Emergency {
                class: EmergencyClass::PersistenceFault,
                reason: "mark observed failed"@,
            },
        },
        _ => ObserveView::Done,
    }
}

/// How the observation of an outcome begins.
pub fn begin_observation(outcome: ExecutionOutcome, resolved: bool) -> (r: ObserveStep)
    ensures
        r@ == observation_start(outcome, resolved),
{
    if outcome == ExecutionOutcome::Unknown {
        ObserveStep::MarkOrphaned
    } else if !resolved {
        ObserveStep::Emergency {
            class: EmergencyClass::PersistenceFault,
            reason: "unknown outcome reached observed resolution path",
        }
    } else {
        ObserveStep::MarkObserved
    }
}

/// What the observation of an outcome asks for after a reply.
pub fn observe_outcome(step: ObserveStep, reply: ObserveReply) -> (r: ObserveStep)
    ensures
        r@ == observation_after(step@, reply),
{
    match step {
        ObserveStep::MarkOrphaned => match reply {
            ObserveReply::Done => ObserveStep::PinReservation,
            ObserveReply::Skipped => ObserveStep::Emergency {
                class: EmergencyClass::PersistenceFault,
                reason: "unknown outcome reconciliation mark skipped",
            },
            ObserveReply::Failed => ObserveStep::Emergency {
                class: EmergencyClass::PersistenceFault,
                reason: "unknown outcome reconciliation mark failed",
            },
        },
        ObserveStep::PinReservation => match reply {
            ObserveReply::Done => ObserveStep::WakeReconciler,
            _ => ObserveStep::Emergency {
                class: EmergencyClass::ReservationFault,
                reason: "unknown outcome reservation pin failed",
            },
        },
        ObserveStep::MarkObserved => match reply {
            ObserveReply::Done => ObserveStep::WakeRelay,
            _ => ObserveStep::Emergency {
                class: EmergencyClass::PersistenceFault,
                reason: "mark observed failed",
            },
        },
        _ => ObserveStep::Done,
    }
}

/// The emergency after a reservation could not be released.
pub fn release_failure() -> (r: (EmergencyClass, &'static str))
    ensures
        r.0 == EmergencyClass::ReservationFault,
        r.1@ == "reservation release failed"@,
{
    (EmergencyClass::ReservationFault, "reservation release failed")
}

/// The observation after a sequence of replies.
pub open spec fn observed(
    outcome: ExecutionOutcome,
    resolved: bool,
    replies: Seq<ObserveReply>,
) -> ObserveView
    decreases replies.len(),
{
    if replies.len() == 0 {
        observation_start(outcome, resolved)
    } else {
        observation_after(observed(outcome, resolved, replies.drop_last()), replies.last())
    }
}

/// An unknown outcome keeps its capital and is never reported to the relay; the
/// reconciler is woken only for an unknown outcome, the relay only for a known
/// one.
pub proof fn unknown_outcomes_go_to_reconciliation(
    outcome: ExecutionOutcome,
    resolved: bool,
    replies: Seq<ObserveReply>,
)
    ensures
        outcome == ExecutionOutcome::Unknown ==> reservation_after(outcome)
            == ReservationAction::Keep && !(observed(outcome, resolved, replies) is WakeRelay)
            && !(observed(outcome, resolved, replies) is MarkObserved),
        outcome != ExecutionOutcome::Unknown ==> !(observed(outcome, resolved, replies)
            is WakeReconciler) && !(observed(outcome, resolved, replies) is PinReservation)
            && !(observed(outcome, resolved, replies) is MarkOrphaned),
    decreases replies.len(),
{
    if replies.len() > 0 {
        unknown_outcomes_go_to_reconciliation(outcome, resolved, replies.drop_last());
    }
}

/// What the risk engine is told of the probabilities of an opportunity.
#[derive(Clone, Copy, Debug, PartialEq, Eq)]
pub struct ProbabilityInput {
    pub calibrated_win_prob: Decimal,
    pub fill_prob: Decimal,
    pub calibration_confidence: Decimal,
    pub sample_size: u64,
    pub model_staleness_secs: u64,
    pub expected_slippage_pct: Decimal,
    pub expected_failure_cost_pct: Decimal,
}

/// What the risk engine is told: the calibrated probabilities, half a percent of
/// slippage and a fifth of a percent of failure cost.
pub fn build_probability_input(
    fused_probability: Decimal,
    fill_probability: Decimal,
    confidence: Decimal,
    sample_size: u64,
) -> (r: ProbabilityInput)
    ensures
        r == (ProbabilityInput {
            calibrated_win_prob: fused_probability,
            fill_prob: fill_probability,
            calibration_confidence: confidence,
            sample_size,
            model_staleness_secs: 0,
            expected_slippage_pct: Decimal::of_parts(5, 3),
            expected_failure_cost_pct: Decimal::of_parts(2, 3),
        }),
{
    ProbabilityInput {
        calibrated_win_prob: fused_probability,
        fill_prob: fill_probability,
        calibration_confidence: confidence,
        sample_size,
        model_staleness_secs: 0,
        expected_slippage_pct: thousandths(5),
        expected_failure_cost_pct: thousandths(2),
    }
}

fn thousandths(count: i128) -> (r: Decimal)
    requires
        0 <= count <= 1000,
    ensures
        r == Decimal::of_parts(count, 3),
{
    match Decimal::new(count, 3) {
        Some(value) => value,
        None => Decimal::zero(),
    }
}

/// What an execution plan says of the order.
#[derive(Debug, PartialEq, Eq)]
pub struct ExecutionPlan {
    pub execution_id: Ident,
    pub reservation_id: Ident,
    pub shares: Shares,
    pub limit_price: Price,
    pub estimated_cost: Usd,
    pub estimated_fee: Usd,
    pub category: String,
}

/// What an opportunity says of the trade.
#[derive(Debug, PartialEq, Eq)]
pub struct Opportunity {
    pub opportunity_id: Ident,
    pub market_id: MarketId,
    pub event_id: EventId,
    pub token_id: TokenId,
    pub side: Side,
    pub edge_bps: Bps,
    pub expected_net_profit: Usd,
}

/// A trade as it is first stored.
#[derive(Debug, PartialEq, Eq)]
pub struct NewTrade {
    pub trade_id: Ident,
    pub execution_id: Ident,
    pub reservation_id: Ident,
    pub opportunity_id: Ident,
    pub market_id: MarketId,
    pub event_id: EventId,
    pub token_id: TokenId,
    pub side: Side,
    pub shares: Shares,
    pub price: Price,
    pub cost_usd: Usd,
    pub fee_usd: Usd,
    pub detected_edge_bps: Option<Bps>,
    pub detected_profit_usd: Option<Usd>,
    pub scored_snapshot: String,
    pub category: String,
    pub execution_mode: ExecutionMode,
}

/// The trade that a plan and its opportunity make, stored with the serialized
/// snapshot; without a snapshot there is no trade.
pub fn build_pending_trade(
    trade_id: Ident,
    plan: &ExecutionPlan,
    opportunity: &Opportunity,
    snapshot: Result<String, String>,
    execution_mode: ExecutionMode,
) -> (r: Result<NewTrade, String>)
    ensures
        r == (match snapshot {
            Err(error) => Err(error),
            Ok(scored_snapshot) => Ok(
                NewTrade {
                    trade_id,
                    execution_id: plan.execution_id,
                    reservation_id: plan.reservation_id,
                    opportunity_id: opportunity.opportunity_id,
                    market_id: opportunity.market_id,
                    event_id: opportunity.event_id,
                    token_id: opportunity.token_id,
                    side: opportunity.side,
                    shares: plan.shares,
                    price: plan.limit_price,
                    cost_usd: plan.estimated_cost,
                    fee_usd: plan.estimated_fee,
                    detected_edge_bps: Some(opportunity.edge_bps),
                    detected_profit_usd: Some(opportunity.expected_net_profit),
                    scored_snapshot,
                    category: plan.category,
                    execution_mode,
                },
            ),
        }),
{
    let scored_snapshot = match snapshot {
        Ok(snapshot) => snapshot,
        Err(error) => return Err(error),
    };
    Ok(
        NewTrade {
            trade_id,
            execution_id: plan.execution_id.clone(),
            reservation_id: plan.reservation_id.clone(),
            opportunity_id: opportunity.opportunity_id.clone(),
            market_id: opportunity.market_id.clone(),
            event_id: opportunity.event_id.clone(),
            token_id: opportunity.token_id.clone(),
            side: opportunity.side,
            shares: plan.shares,
            price: plan.limit_price,
            cost_usd: plan.estimated_cost,
            fee_usd: plan.estimated_fee,
            detected_edge_bps: Some(opportunity.edge_bps),
            detected_profit_usd: Some(opportunity.expected_net_profit),
            scored_snapshot,
            category: plan.category.clone(),
            execution_mode,
        },
    )
}

} // verus!
