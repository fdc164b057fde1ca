//! The admission checks.
//!
//! Every check is a function of the frozen input alone. A violation denies, a
//! condition that may still come about defers, anything else allows. A check
//! whose figures leave the representable range has no trace.
use vstd::prelude::*;
use vstd::string::*;

use crate::admission::model::{
    AdmissionCheckId, AdmissionCheckTrace, AdmissionInput, AdmissionOutcome, ExposureEntry,
    SettlementRecoveryAdmission, TraceView, VenueHealth,
};
use crate::decimal::{Decimal, Usd};
use crate::entry_condition::state::EntryConditionState;
use crate::orders::{BookWalkFill, BookWalkOutcome, OrderIntentStatus};
use crate::plans::{QuantRuntimeMode, RecommendationReportStatus};
use crate::search::{first_where, lemma_first_found, lemma_first_missing};
use crate::text::write_natural;
use crate::types::{FillRequirement, Ident, OrderType};

verus! {

/// A passing trace.
pub open spec fn passed(check: AdmissionCheckId, detail: Seq<char>) -> TraceView {
    TraceView::plain(check, AdmissionOutcome::Allow, detail)
}

/// A trace of a hard violation.
pub open spec fn denied(check: AdmissionCheckId, detail: Seq<char>) -> TraceView {
    TraceView::plain(check, AdmissionOutcome::Deny, detail)
}

/// A trace of something that may pass later.
pub open spec fn deferred(check: AdmissionCheckId, detail: Seq<char>) -> TraceView {
    TraceView::plain(check, AdmissionOutcome::Defer, detail)
}

/// The intent is authorized and has not expired.
pub open spec fn intent_state(input: AdmissionInput) -> TraceView {
    let id = AdmissionCheckId::IntentState;
    if !input.intent.status.spec_authorized() {
        denied(id, "intent status "@ + input.intent.status.text() + " is not submittable"@)
    } else if input.now@ >= input.intent.expires_at@ {
        denied(id, "intent has expired"@).with(
            input.intent.expires_at.rfc3339(),
            input.now.rfc3339(),
        )
    } else {
        passed(id, "intent approved and not expired"@)
    }
}

fn check_intent_state(input: &AdmissionInput) -> (r: AdmissionCheckTrace)
    ensures
        r@ == intent_state(*input),
{
    let id = AdmissionCheckId::IntentState;
    if !input.intent.status.is_authorized() {
        return AdmissionCheckTrace::deny(
            id,
            "intent status ".to_owned().concat(input.intent.status.as_str()).concat(
                " is not submittable",
            ).as_str(),
        );
    }
    if input.intent.expires_at.until(input.now) {
        return AdmissionCheckTrace::deny(id, "intent has expired").with(
            input.intent.expires_at.to_rfc3339(),
            input.now.to_rfc3339(),
        );
    }
    AdmissionCheckTrace::pass(id, "intent approved and not expired")
}

/// The recommendation has not expired and its entry window is open.
pub open spec fn recommendation_freshness(input: AdmissionInput) -> TraceView {
    let id = AdmissionCheckId::RecommendationFreshness;
    if input.recommendation.valid_until@ < input.now@ {
        denied(id, "recommendation has expired"@).with(
            input.recommendation.valid_until.rfc3339(),
            input.now.rfc3339(),
        )
    } else if input.now@ < input.entry.valid_from@ {
        deferred(id, "entry window not open yet"@).with(
            input.entry.valid_from.rfc3339(),
            input.now.rfc3339(),
        )
    } else if input.now@ > input.entry.valid_until@ {
        denied(id, "entry window has closed"@).with(
            input.entry.valid_until.rfc3339(),
            input.now.rfc3339(),
        )
    } else {
        passed(id, "recommendation fresh and entry window open"@)
    }
}

fn check_recommendation_freshness(input: &AdmissionInput) -> (r: AdmissionCheckTrace)
    ensures
        r@ == recommendation_freshness(*input),
{
    let id = AdmissionCheckId::RecommendationFreshness;
    if input.recommendation.valid_until.before(input.now) {
        return AdmissionCheckTrace::deny(id, "recommendation has expired").with(
            input.recommendation.valid_until.to_rfc3339(),
            input.now.to_rfc3339(),
        );
    }
    if input.now.before(input.entry.valid_from) {
        return AdmissionCheckTrace::defer(id, "entry window not open yet").with(
            input.entry.valid_from.to_rfc3339(),
            input.now.to_rfc3339(),
        );
    }
    if input.entry.valid_until.before(input.now) {
        return AdmissionCheckTrace::deny(id, "entry window has closed").with(
            input.entry.valid_until.to_rfc3339(),
            input.now.to_rfc3339(),
        );
    }
    AdmissionCheckTrace::pass(id, "recommendation fresh and entry window open")
}

/// The source report is published.
pub open spec fn report_status(input: AdmissionInput) -> TraceView {
    let id = AdmissionCheckId::ReportStatus;
    if input.report.status == RecommendationReportStatus::Published {
        passed(id, "source report published"@)
    } else {
        denied(id, "source report status "@ + input.report.status.text())
    }
}

fn check_report_status(input: &AdmissionInput) -> (r: AdmissionCheckTrace)
    ensures
        r@ == report_status(*input),
{
    let id = AdmissionCheckId::ReportStatus;
    if input.report.status == RecommendationReportStatus::Published {
        AdmissionCheckTrace::pass(id, "source report published")
    } else {
        AdmissionCheckTrace::deny(
            id,
            "source report status ".to_owned().concat(input.report.status.as_str()).as_str(),
        )
    }
}

/// The mode executes, and the intent was approved in the mode's own way.
pub open spec fn runtime_mode(input: AdmissionInput) -> TraceView {
    let id = AdmissionCheckId::RuntimeMode;
    match input.mode {
        QuantRuntimeMode::ReportOnly => denied(id, "report-only mode forbids submission"@),
        QuantRuntimeMode::SemiAuto => if input.intent.status == OrderIntentStatus::Approved {
            passed(id, "semi-auto with operator-approved intent"@)
        } else {
            denied(id, "semi-auto requires an operator-approved intent"@)
        },
        QuantRuntimeMode::AutoExecution => if input.intent.status
            == OrderIntentStatus::ApprovedByPolicy {
            passed(id, "auto-execution with policy-approved intent"@)
        } else {
            denied(id, "auto-execution requires a policy-approved intent"@)
        },
    }
}

fn check_runtime_mode(input: &AdmissionInput) -> (r: AdmissionCheckTrace)
    ensures
        r@ == runtime_mode(*input),
{
    let id = AdmissionCheckId::RuntimeMode;
    match input.mode {
        QuantRuntimeMode::ReportOnly => AdmissionCheckTrace::deny(
            id,
            "report-only mode forbids submission",
        ),
        QuantRuntimeMode::SemiAuto => if input.intent.status == OrderIntentStatus::Approved {
            AdmissionCheckTrace::pass(id, "semi-auto with operator-approved intent")
        } else {
            AdmissionCheckTrace::deny(id, "semi-auto requires an operator-approved intent")
        },
        QuantRuntimeMode::AutoExecution => if input.intent.status
            == OrderIntentStatus::ApprovedByPolicy {
            AdmissionCheckTrace::pass(id, "auto-execution with policy-approved intent")
        } else {
            AdmissionCheckTrace::deny(id, "auto-execution requires a policy-approved intent")
        },
    }
}

/// A promised automatic resolution exit has a recovery path.
pub open spec fn settlement_recovery(input: AdmissionInput) -> TraceView {
    let id = AdmissionCheckId::SettlementRecovery;
    match input.settlement_recovery {
        SettlementRecoveryAdmission::NotRequired => passed(
            id,
            "automatic settlement recovery not required"@,
        ),
        SettlementRecoveryAdmission::Ready { route, deployment_digest, .. } => passed(
            id,
            "current account-scoped settlement recovery is ready"@,
        ).with(route@, deployment_digest.text()),
        SettlementRecoveryAdmission::Blocked { reason } => denied(id, reason@),
    }
}

fn check_settlement_recovery(input: &AdmissionInput) -> (r: AdmissionCheckTrace)
    ensures
        r@ == settlement_recovery(*input),
{
    let id = AdmissionCheckId::SettlementRecovery;
    match &input.settlement_recovery {
        SettlementRecoveryAdmission::NotRequired => AdmissionCheckTrace::pass(
            id,
            "automatic settlement recovery not required",
        ),
        SettlementRecoveryAdmission::Ready { route, deployment_digest, verified_block_hash: _ } =>
        AdmissionCheckTrace::pass(id, "current account-scoped settlement recovery is ready").with(
            route.text.clone(),
            deployment_digest.to_text(),
        ),
        SettlementRecoveryAdmission::Blocked { reason } => AdmissionCheckTrace::deny(
            id,
            reason.as_str(),
        ),
    }
}

/// The active route still authorizes the model.
pub open spec fn model_route_binding(input: AdmissionInput) -> TraceView {
    let id = AdmissionCheckId::ModelRouteBinding;
    if input.model_state.route_bound {
        passed(id, "model is authorized by the active route"@)
    } else {
        denied(id, "intent model is no longer authorized by the active route"@)
    }
}

fn check_model_route_binding(input: &AdmissionInput) -> (r: AdmissionCheckTrace)
    ensures
        r@ == model_route_binding(*input),
{
    let id = AdmissionCheckId::ModelRouteBinding;
    if input.model_state.route_bound {
        AdmissionCheckTrace::pass(id, "model is authorized by the active route")
    } else {
        AdmissionCheckTrace::deny(id, "intent model is no longer authorized by the active route")
    }
}

/// Share of stale books, in basis points.
pub open spec fn stale_ratio_bps(stale: u64, total: u64) -> int {
    (if stale * 10000 > u64::MAX {
        u64::MAX as int
    } else {
        stale * 10000
    }) / total as int
}

/// The market data is classified, timely, complete and fresh enough.
pub open spec fn data_quality(input: AdmissionInput) -> TraceView {
    let id = AdmissionCheckId::DataQuality;
    let dq = input.data_quality;
    if dq.total_tokens == 0 {
        denied(id, "no tokens classified"@)
    } else if dq.ingest_lag_exceeded {
        denied(id, "clickhouse ingest pipeline lag exceeded"@).with(
            crate::text::natural_text(dq.max_ingest_lag_ms as nat),
            crate::text::natural_text(dq.worst_ingest_lag_ms as nat),
        )
    } else if dq.insufficient > 0 {
        denied(id, "tokens with insufficient data present"@).found(
            crate::text::natural_text(dq.insufficient as nat),
        )
    } else {
        let ratio = stale_ratio_bps(dq.stale, dq.total_tokens);
        if ratio > input.max_stale_book_ratio_bps {
            denied(id, "stale book ratio above threshold"@).with(
                crate::text::natural_text(input.max_stale_book_ratio_bps as nat),
                crate::text::natural_text(ratio as nat),
            )
        } else {
            passed(id, "data quality green"@)
        }
    }
}

fn check_data_quality(input: &AdmissionInput) -> (r: AdmissionCheckTrace)
    ensures
        r@ == data_quality(*input),
{
    let id = AdmissionCheckId::DataQuality;
    let dq = &input.data_quality;
    if dq.total_tokens == 0 {
        return AdmissionCheckTrace::deny(id, "no tokens classified");
    }
    if dq.ingest_lag_exceeded {
        return AdmissionCheckTrace::deny(id, "clickhouse ingest pipeline lag exceeded").with(
            write_natural(dq.max_ingest_lag_ms as u128),
            write_natural(dq.worst_ingest_lag_ms as u128),
        );
    }
    if dq.insufficient > 0 {
        return AdmissionCheckTrace::deny(id, "tokens with insufficient data present").found(
            write_natural(dq.insufficient as u128),
        );
    }
    let scaled: u64 = if dq.stale > u64::MAX / 10000 {
        u64::MAX
    } else {
        dq.stale * 10000
    };
    let ratio: u64 = scaled / dq.total_tokens;
    let limit: u64 = input.max_stale_book_ratio_bps;
    if ratio > limit {
        return AdmissionCheckTrace::deny(id, "stale book ratio above threshold").with(
            write_natural(limit as u128),
            write_natural(ratio as u128),
        );
    }
    AdmissionCheckTrace::pass(id, "data quality green")
}

/// There is a book, not from the future and not too old.
pub open spec fn book_freshness(input: AdmissionInput) -> TraceView {
    let id = AdmissionCheckId::BookFreshness;
    match input.book {
        None => denied(id, "no book snapshot for token"@),
        Some(book) => if book.timestamp_ms > input.now_ms {
            denied(id, "book snapshot timestamp is after admission decision time"@).found(
                crate::text::natural_text(book.timestamp_ms as nat),
            )
        } else {
            let age = (input.now_ms - book.timestamp_ms) as nat;
            let limit = input.entry.max_book_age_ms as nat;
            let trace = if age > limit {
                deferred(id, "book snapshot stale"@)
            } else {
                passed(id, "book snapshot fresh"@)
            };
            trace.with(crate::text::natural_text(limit), crate::text::natural_text(age))
        },
    }
}

fn check_book_freshness(input: &AdmissionInput) -> (r: AdmissionCheckTrace)
    ensures
        r@ == book_freshness(*input),
{
    let id = AdmissionCheckId::BookFreshness;
    let book = match &input.book {
        None => {
            return AdmissionCheckTrace::deny(id, "no book snapshot for token");
        },
        Some(book) => book,
    };
    if book.timestamp_ms > input.now_ms {
        return AdmissionCheckTrace::deny(
            id,
            "book snapshot timestamp is after admission decision time",
        ).found(write_natural(book.timestamp_ms as u128));
    }
    let age: u64 = input.now_ms - book.timestamp_ms;
    let limit: u64 = input.entry.max_book_age_ms;
    let trace = if age > limit {
        AdmissionCheckTrace::defer(id, "book snapshot stale")
    } else {
        AdmissionCheckTrace::pass(id, "book snapshot fresh")
    };
    trace.with(write_natural(limit as u128), write_natural(age as u128))
}

/// Whether a price, in units of `10^-28`, lies on the grid of a tick and at
/// least one tick away from zero and one.
pub open spec fn on_tick_grid(price: int, tick: int) -> bool {
    &&& tick <= price <= crate::order_rules::one_unit() - tick
    &&& price % tick == 0
}

/// Registry and venue agree on grid and risk kind, and the entry limit lies on
/// the grid.
pub open spec fn venue_metadata(input: AdmissionInput) -> TraceView {
    let id = AdmissionCheckId::VenueMetadata;
    let metadata = input.venue_metadata;
    let price = input.intent.entry_order.limit_price;
    if metadata.current_tick_size != metadata.live_tick_size {
        denied(id, "registry/venue tick-size mismatch"@).with(
            metadata.current_tick_size.text(),
            metadata.live_tick_size.text(),
        )
    } else if metadata.current_neg_risk != metadata.live_neg_risk {
        denied(id, "registry/venue NegRisk mismatch"@).with(
            crate::text::bool_text(metadata.current_neg_risk),
            crate::text::bool_text(metadata.live_neg_risk),
        )
    } else if !on_tick_grid(
        price@,
        crate::decimal::unit_of_scale(metadata.current_tick_size.spec_digits() as int),
    ) {
        denied(id, "entry limit price is outside the venue tick grid"@).with(
            metadata.current_tick_size.text(),
            price.text(),
        )
    } else {
        passed(id, "venue metadata and entry tick grid match"@)
    }
}

fn check_venue_metadata(input: &AdmissionInput) -> (r: AdmissionCheckTrace)
    ensures
        r@ == venue_metadata(*input),
{
    let id = AdmissionCheckId::VenueMetadata;
    let metadata = &input.venue_metadata;
    if metadata.current_tick_size != metadata.live_tick_size {
        return AdmissionCheckTrace::deny(id, "registry/venue tick-size mismatch").with(
            metadata.current_tick_size.as_str().to_owned(),
            metadata.live_tick_size.as_str().to_owned(),
        );
    }
    if metadata.current_neg_risk != metadata.live_neg_risk {
        return AdmissionCheckTrace::deny(id, "registry/venue NegRisk mismatch").with(
            crate::text::write_bool(metadata.current_neg_risk).to_owned(),
            crate::text::write_bool(metadata.live_neg_risk).to_owned(),
        );
    }
    let price = input.intent.entry_order.limit_price;
    let digits = metadata.current_tick_size.digits();
    let tick = crate::order_rules::tick_value(digits);
    let most = crate::order_rules::most_value(digits);
    let floor = price.floor_to(digits);
    proof {
        let unit = crate::decimal::unit_of_scale(digits as int);
        vstd::arithmetic::power::lemma_pow_positive(10, (28 - digits) as nat);
        vstd::arithmetic::div_mod::lemma_fundamental_div_mod(price@, unit);
        vstd::arithmetic::mul::lemma_mul_is_commutative(price@ / unit, unit);
    }
    if price.lt(tick) || most.lt(price) || !floor.same(price) {
        return AdmissionCheckTrace::deny(
            id,
            "entry limit price is outside the venue tick grid",
        ).with(metadata.current_tick_size.as_str().to_owned(), price.to_text());
    }
    AdmissionCheckTrace::pass(id, "venue metadata and entry tick grid match")
}

/// The entry condition belongs to the intent and is qualified, or none is
/// required.
pub open spec fn entry_condition(input: AdmissionInput) -> TraceView {
    let id = AdmissionCheckId::EntryConditionPlan;
    if input.condition.recommendation_id != input.intent.recommendation_id
        || input.condition.condition_instance_id != input.intent.condition_instance_id {
        denied(id, "condition binding does not match intent"@)
    } else {
        match input.condition.state {
            EntryConditionState::NotRequired => passed(id, "entry condition not required"@),
            EntryConditionState::Qualified => passed(
                id,
                "entry condition is qualified at the frozen evaluation revision"@,
            ),
            state => deferred(id, "entry condition is "@ + state.text()),
        }
    }
}

fn check_entry_condition(input: &AdmissionInput) -> (r: AdmissionCheckTrace)
    ensures
        r@ == entry_condition(*input),
{
    let id = AdmissionCheckId::EntryConditionPlan;
    if input.condition.recommendation_id != input.intent.recommendation_id
        || input.condition.condition_instance_id != input.intent.condition_instance_id {
        return AdmissionCheckTrace::deny(id, "condition binding does not match intent");
    }
    match input.condition.state {
        EntryConditionState::NotRequired => AdmissionCheckTrace::pass(
            id,
            "entry condition not required",
        ),
        EntryConditionState::Qualified => AdmissionCheckTrace::pass(
            id,
            "entry condition is qualified at the frozen evaluation revision",
        ),
        state => AdmissionCheckTrace::defer(
            id,
            "entry condition is ".to_owned().concat(state.as_str()).as_str(),
        ),
    }
}

/// The risk envelope hashes to what the intent froze.
pub open spec fn risk_envelope_hash(input: AdmissionInput) -> TraceView {
    let id = AdmissionCheckId::RiskEnvelopeHash;
    match input.recomputed_envelope_hash {
        Ok(recomputed) => if recomputed == input.intent.risk_envelope_hash {
            passed(id, "risk envelope hash matches intent anchor"@)
        } else {
            denied(id, "risk envelope hash mismatch"@).with(
                input.intent.risk_envelope_hash.text(),
                recomputed.text(),
            )
        },
        Err(error) => denied(id, "failed to recompute risk envelope hash: "@ + error@),
    }
}

fn check_risk_envelope_hash(input: &AdmissionInput) -> (r: AdmissionCheckTrace)
    ensures
        r@ == risk_envelope_hash(*input),
{
    let id = AdmissionCheckId::RiskEnvelopeHash;
    match &input.recomputed_envelope_hash {
        Ok(recomputed) => if *recomputed == input.intent.risk_envelope_hash {
            AdmissionCheckTrace::pass(id, "risk envelope hash matches intent anchor")
        } else {
            AdmissionCheckTrace::deny(id, "risk envelope hash mismatch").with(
                input.intent.risk_envelope_hash.to_text(),
                recomputed.to_text(),
            )
        },
        Err(error) => AdmissionCheckTrace::deny(
            id,
            "failed to recompute risk envelope hash: ".to_owned().concat(error.as_str()).as_str(),
        ),
    }
}

/// What is left of one amount after another, never below zero.
pub open spec fn rest(amount: Usd, taken: Usd) -> Option<Usd> {
    if amount@ > taken@ {
        amount.difference(taken)
    } else {
        Some(Decimal::of_parts(0, 0))
    }
}

fn rest_of(amount: Usd, taken: Usd) -> (r: Option<Usd>)
    ensures
        r == rest(amount, taken),
        r is Some ==> r->0@ >= 0,
{
    if taken.lt(amount) {
        amount.checked_sub(taken)
    } else {
        Some(Decimal::zero())
    }
}

/// Capital that the intent itself has reserved.
pub open spec fn own_allocation(input: AdmissionInput) -> Usd {
    match input.allocated_usd {
        Some(usd) => usd,
        None => Decimal::of_parts(0, 0),
    }
}

/// The order is covered by cash and by the budget, with the intent's own
/// reservation added back to both.
pub open spec fn capital_budget(input: AdmissionInput) -> Option<TraceView> {
    let id = AdmissionCheckId::CapitalBudget;
    let alloc = own_allocation(input);
    match (input.spec_notional(), input.account.available_usd.sum(alloc)) {
        (Some(notional), Some(available)) => if notional@ > available@ {
            Some(
                denied(id, "order notional exceeds available cash"@).with(
                    available.text(),
                    notional.text(),
                ),
            )
        } else {
            match rest(input.account.reserved_usd, alloc) {
                None => None,
                Some(reserved) => match rest(input.budget_total_usd, reserved) {
                    None => None,
                    Some(remaining) => {
                        let trace = if notional@ > remaining@ {
                            denied(id, "order notional exceeds remaining budget"@)
                        } else {
                            passed(id, "order funded and within budget"@)
                        };
                        Some(trace.with(remaining.text(), notional.text()))
                    },
                },
            }
        },
        _ => None,
    }
}

fn check_capital_budget(input: &AdmissionInput) -> (r: Option<AdmissionCheckTrace>)
    ensures
        same_trace(r, capital_budget(*input)),
{
    let id = AdmissionCheckId::CapitalBudget;
    let notional = match input.order_notional() {
        Some(notional) => notional,
        None => {
            return None;
        },
    };
    let alloc = match input.allocated_usd {
        Some(usd) => usd,
        None => Decimal::zero(),
    };
    let available = match input.account.available_usd.checked_add(alloc) {
        Some(available) => available,
        None => {
            return None;
        },
    };
    if available.lt(notional) {
        return Some(
            AdmissionCheckTrace::deny(id, "order notional exceeds available cash").with(
                available.to_text(),
                notional.to_text(),
            ),
        );
    }
    let reserved = match rest_of(input.account.reserved_usd, alloc) {
        Some(reserved) => reserved,
        None => {
            return None;
        },
    };
    let remaining = match rest_of(input.budget_total_usd, reserved) {
        Some(remaining) => remaining,
        None => {
            return None;
        },
    };
    let trace = if remaining.lt(notional) {
        AdmissionCheckTrace::deny(id, "order notional exceeds remaining budget")
    } else {
        AdmissionCheckTrace::pass(id, "order funded and within budget")
    };
    Some(trace.with(remaining.to_text(), notional.to_text()))
}

/// Whether an optional trace is the one that is specified.
pub open spec fn same_trace(trace: Option<AdmissionCheckTrace>, expected: Option<TraceView>) -> bool {
    match trace {
        Some(trace) => expected == Some(trace@),
        None => expected is None,
    }
}

/// The open intents, this one among them, do not exceed their cap.
pub open spec fn max_open_intents(input: AdmissionInput) -> TraceView {
    let id = AdmissionCheckId::MaxOpenIntents;
    let trace = if input.open_intent_count > input.max_open_intents {
        denied(id, "open intent count exceeds cap"@)
    } else {
        passed(id, "open intent count within cap"@)
    };
    trace.with(
        crate::text::natural_text(input.max_open_intents as nat),
        crate::text::natural_text(input.open_intent_count as nat),
    )
}

fn check_max_open_intents(input: &AdmissionInput) -> (r: AdmissionCheckTrace)
    ensures
        r@ == max_open_intents(*input),
{
    let id = AdmissionCheckId::MaxOpenIntents;
    let trace = if input.open_intent_count > input.max_open_intents as u64 {
        AdmissionCheckTrace::deny(id, "open intent count exceeds cap")
    } else {
        AdmissionCheckTrace::pass(id, "open intent count within cap")
    };
    trace.with(
        write_natural(input.max_open_intents as u128),
        write_natural(input.open_intent_count as u128),
    )
}

/// The reserved capital, this intent's included, does not exceed its cap.
pub open spec fn max_reserved_capital(input: AdmissionInput) -> TraceView {
    let id = AdmissionCheckId::MaxReservedCapital;
    let trace = if input.account.reserved_usd@ > input.max_reserved_usd@ {
        denied(id, "reserved capital exceeds cap"@)
    } else {
        passed(id, "reserved capital within cap"@)
    };
    trace.with(input.max_reserved_usd.text(), input.account.reserved_usd.text())
}

fn check_max_reserved_capital(input: &AdmissionInput) -> (r: AdmissionCheckTrace)
    ensures
        r@ == max_reserved_capital(*input),
{
    let id = AdmissionCheckId::MaxReservedCapital;
    let trace = if input.max_reserved_usd.lt(input.account.reserved_usd) {
        AdmissionCheckTrace::deny(id, "reserved capital exceeds cap")
    } else {
        AdmissionCheckTrace::pass(id, "reserved capital within cap")
    };
    trace.with(input.max_reserved_usd.to_text(), input.account.reserved_usd.to_text())
}

/// Whether an entry is recorded under a key.
pub open spec fn under_key(key: Seq<char>) -> spec_fn(ExposureEntry) -> bool {
    |entry: ExposureEntry| entry.key@ == key
}

/// Exposure recorded under a key, or zero.
pub open spec fn exposure_under(entries: Seq<ExposureEntry>, key: Seq<char>) -> Usd {
    match first_where(entries, under_key(key)) {
        Some(position) => entries[position].usd,
        None => Decimal::of_parts(0, 0),
    }
}

fn find_exposure(entries: &Vec<ExposureEntry>, key: &Ident) -> (r: Usd)
    ensures
        r == exposure_under(entries@, key@),
{
    let ghost test = under_key(key@);
    let mut i: usize = 0;
    while i < entries.len()
        invariant
            i <= entries.len(),
            test == under_key(key@),
            forall|j: int| 0 <= j < i ==> !test(#[trigger] entries@[j]),
        decreases entries.len() - i,
    {
        if entries[i].key.same(key) {
            proof {
                lemma_first_found(entries@, test, i as int);
            }
            return entries[i].usd;
        }
        i = i + 1;
    }
    proof {
        lemma_first_missing(entries@, test);
    }
    Decimal::zero()
}

/// The present exposure and the order together do not exceed the cap.
pub open spec fn exposure_trace(
    id: AdmissionCheckId,
    scope: Seq<char>,
    current: Usd,
    order: Usd,
    cap: Usd,
) -> Option<TraceView> {
    match current.sum(order) {
        None => None,
        Some(projected) => {
            let trace = if projected@ > cap@ {
                denied(id, scope + " exposure cap breached"@)
            } else {
                passed(id, scope + " exposure within cap"@)
            };
            Some(trace.with(cap.text(), projected.text()))
        },
    }
}

fn trace_exposure(
    id: AdmissionCheckId,
    scope: &str,
    current: Usd,
    order: Usd,
    cap: Usd,
) -> (r: Option<AdmissionCheckTrace>)
    ensures
        same_trace(r, exposure_trace(id, scope@, current, order, cap)),
{
    match current.checked_add(order) {
        None => None,
        Some(projected) => {
            let trace = if cap.lt(projected) {
                AdmissionCheckTrace::deny(
                    id,
                    scope.to_owned().concat(" exposure cap breached").as_str(),
                )
            } else {
                AdmissionCheckTrace::pass(
                    id,
                    scope.to_owned().concat(" exposure within cap").as_str(),
                )
            };
            Some(trace.with(cap.to_text(), projected.to_text()))
        },
    }
}

/// The exposure of the market stays within the envelope.
pub open spec fn market_exposure(input: AdmissionInput) -> Option<TraceView> {
    match input.spec_notional() {
        None => None,
        Some(order) => exposure_trace(
            AdmissionCheckId::MarketExposure,
            "market"@,
            exposure_under(input.account.per_market@, input.recommendation.market_id@),
            order,
            input.risk_envelope.max_market_exposure_usd,
        ),
    }
}

fn check_market_exposure(input: &AdmissionInput) -> (r: Option<AdmissionCheckTrace>)
    ensures
        same_trace(r, market_exposure(*input)),
{
    let order = match input.order_notional() {
        Some(order) => order,
        None => {
            return None;
        },
    };
    trace_exposure(
        AdmissionCheckId::MarketExposure,
        "market",
        find_exposure(&input.account.per_market, &input.recommendation.market_id),
        order,
        input.risk_envelope.max_market_exposure_usd,
    )
}

/// The exposure of the event stays within the envelope.
pub open spec fn event_exposure(input: AdmissionInput) -> Option<TraceView> {
    match input.spec_notional() {
        None => None,
        Some(order) => exposure_trace(
            AdmissionCheckId::EventExposure,
            "event"@,
            exposure_under(input.account.per_event@, input.recommendation.event_id@),
            order,
            input.risk_envelope.max_event_exposure_usd,
        ),
    }
}

fn check_event_exposure(input: &AdmissionInput) -> (r: Option<AdmissionCheckTrace>)
    ensures
        same_trace(r, event_exposure(*input)),
{
    let order = match input.order_notional() {
        Some(order) => order,
        None => {
            return None;
        },
    };
    trace_exposure(
        AdmissionCheckId::EventExposure,
        "event",
        find_exposure(&input.account.per_event, &input.recommendation.event_id),
        order,
        input.risk_envelope.max_event_exposure_usd,
    )
}

/// The exposure of the category stays within the envelope.
pub open spec fn category_exposure(input: AdmissionInput) -> Option<TraceView> {
    match input.spec_notional() {
        None => None,
        Some(order) => exposure_trace(
            AdmissionCheckId::CategoryExposure,
            "category"@,
            exposure_under(input.account.per_category@, input.recommendation.category@),
            order,
            input.risk_envelope.max_category_exposure_usd,
        ),
    }
}

fn check_category_exposure(input: &AdmissionInput) -> (r: Option<AdmissionCheckTrace>)
    ensures
        same_trace(r, category_exposure(*input)),
{
    let order = match input.order_notional() {
        Some(order) => order,
        None => {
            return None;
        },
    };
    trace_exposure(
        AdmissionCheckId::CategoryExposure,
        "category",
        find_exposure(&input.account.per_category, &input.recommendation.category),
        order,
        input.risk_envelope.max_category_exposure_usd,
    )
}

/// Whether an entry has to fill completely; a resting entry does not walk the
/// book.
pub open spec fn walk_requirement(order_type: OrderType) -> Option<FillRequirement> {
    match order_type {
        OrderType::Fok => Some(FillRequirement::AllOrNothing),
        OrderType::Fak => Some(FillRequirement::AllowPartial),
        _ => None,
    }
}

/// Whether an entry has to fill completely; a resting entry does not walk the
/// book.
pub fn entry_walk_requirement(order_type: OrderType) -> (r: Option<FillRequirement>)
    ensures
        r == walk_requirement(order_type),
{
    match order_type {
        OrderType::Fok => Some(FillRequirement::AllOrNothing),
        OrderType::Fak => Some(FillRequirement::AllowPartial),
        _ => None,
    }
}

/// The walk of the entry through the asks, where there is one.
pub open spec fn entry_walk(input: AdmissionInput) -> Option<BookWalkFill> {
    if input.book is None || walk_requirement(input.intent.entry_order.order_type) is None {
        None
    } else {
        input.entry_walk
    }
}

fn walked_entry(input: &AdmissionInput) -> (r: Option<BookWalkFill>)
    ensures
        r == entry_walk(*input),
{
    if input.book.is_none() {
        return None;
    }
    match entry_walk_requirement(input.intent.entry_order.order_type) {
        Some(_) => input.entry_walk,
        None => None,
    }
}

/// Whether a resting entry would take liquidity after all.
pub open spec fn crosses(input: AdmissionInput) -> bool {
    input.book is Some && (input.book->0.best_ask matches Some(ask)
        && input.intent.entry_order.limit_price@ >= ask@)
}

fn would_cross(input: &AdmissionInput) -> (r: bool)
    ensures
        r == crosses(*input),
{
    match &input.book {
        Some(book) => match book.best_ask {
            Some(ask) => ask.le(input.intent.entry_order.limit_price),
            None => false,
        },
        None => false,
    }
}

/// Cash that the walk of the minimum depth found takers for.
pub open spec fn visible_cash(input: AdmissionInput) -> Usd {
    match input.depth_walk {
        Some(fill) => fill.account_cash_delta_usd.opposite().first_greater(
            Decimal::of_parts(0, 0),
        ),
        None => Decimal::of_parts(0, 0),
    }
}

/// The asks fill the order, and show the minimum depth.
pub open spec fn liquidity_depth(input: AdmissionInput) -> TraceView {
    let id = AdmissionCheckId::LiquidityDepth;
    let post_only = input.intent.entry_order.post_only;
    if input.book is None {
        denied(id, "no book snapshot for token"@)
    } else if post_only && crosses(input) {
        denied(id, "post-only entry would cross the best ask"@)
    } else if !post_only && entry_walk(input) is None {
        denied(id, "entry book walk or fee schedule is invalid"@)
    } else if !post_only && entry_walk(input)->0.outcome == BookWalkOutcome::Unfilled {
        deferred(id, "insufficient ask depth at the price cap"@)
    } else {
        let trace = if input.depth_walk is Some && input.depth_walk->0.outcome
            == BookWalkOutcome::Filled {
            passed(id, "liquidity depth sufficient"@)
        } else {
            deferred(id, "visible depth below minimum"@)
        };
        trace.with(input.entry.min_depth_usd.text(), visible_cash(input).text())
    }
}

fn check_liquidity_depth(input: &AdmissionInput) -> (r: AdmissionCheckTrace)
    ensures
        r@ == liquidity_depth(*input),
{
    let id = AdmissionCheckId::LiquidityDepth;
    if input.book.is_none() {
        return AdmissionCheckTrace::deny(id, "no book snapshot for token");
    }
    if input.intent.entry_order.post_only {
        if would_cross(input) {
            return AdmissionCheckTrace::deny(id, "post-only entry would cross the best ask");
        }
    } else {
        match walked_entry(input) {
            None => {
                return AdmissionCheckTrace::deny(id, "entry book walk or fee schedule is invalid");
            },
            Some(fill) => {
                if fill.outcome == BookWalkOutcome::Unfilled {
                    return AdmissionCheckTrace::defer(
                        id,
                        "insufficient ask depth at the price cap",
                    );
                }
            },
        }
    }
    let (filled, visible) = match &input.depth_walk {
        Some(fill) => (
            fill.outcome == BookWalkOutcome::Filled,
            fill.account_cash_delta_usd.negate().first_max_of(Decimal::zero()),
        ),
        None => (false, Decimal::zero()),
    };
    let trace = if filled {
        AdmissionCheckTrace::pass(id, "liquidity depth sufficient")
    } else {
        AdmissionCheckTrace::defer(id, "visible depth below minimum")
    };
    trace.with(input.entry.min_depth_usd.to_text(), visible.to_text())
}

/// The entry's average price is not too far above the best ask.
pub open spec fn slippage(input: AdmissionInput) -> TraceView {
    let id = AdmissionCheckId::Slippage;
    let zero: Decimal = Decimal::of_parts(0, 0);
    let limit = input.intent.entry_order.max_slippage_bps;
    if input.book is None {
        denied(id, "no book snapshot for token"@)
    } else if input.intent.entry_order.post_only {
        if crosses(input) {
            denied(id, "post-only entry would cross the best ask"@)
        } else {
            passed(id, "post-only entry does not take ask liquidity"@).with(
                zero.text(),
                zero.text(),
            )
        }
    } else if input.book->0.best_ask is None {
        deferred(id, "ask side empty"@)
    } else if entry_walk(input) is None {
        denied(id, "entry book walk or fee schedule is invalid"@)
    } else if entry_walk(input)->0.vwap is None {
        deferred(id, "no executable shares at limit"@)
    } else {
        match input.slippage {
            None => denied(id, "degenerate best-ask price"@),
            Some(found) => {
                let trace = if found@ > limit@ {
                    denied(id, "estimated slippage exceeds tolerance"@)
                } else {
                    passed(id, "estimated slippage within tolerance"@)
                };
                trace.with(limit.text(), found.text())
            },
        }
    }
}

fn check_slippage(input: &AdmissionInput) -> (r: AdmissionCheckTrace)
    ensures
        r@ == slippage(*input),
{
    let id = AdmissionCheckId::Slippage;
    let book = match &input.book {
        None => {
            return AdmissionCheckTrace::deny(id, "no book snapshot for token");
        },
        Some(book) => book,
    };
    if input.intent.entry_order.post_only {
        return if would_cross(input) {
            AdmissionCheckTrace::deny(id, "post-only entry would cross the best ask")
        } else {
            AdmissionCheckTrace::pass(id, "post-only entry does not take ask liquidity").with(
                Decimal::zero().to_text(),
                Decimal::zero().to_text(),
            )
        };
    }
    if book.best_ask.is_none() {
        return AdmissionCheckTrace::defer(id, "ask side empty");
    }
    match walked_entry(input) {
        None => {
            return AdmissionCheckTrace::deny(id, "entry book walk or fee schedule is invalid");
        },
        Some(fill) => {
            if fill.vwap.is_none() {
                return AdmissionCheckTrace::defer(id, "no executable shares at limit");
            }
        },
    }
    match input.slippage {
        None => AdmissionCheckTrace::deny(id, "degenerate best-ask price"),
        Some(found) => {
            let limit = input.intent.entry_order.max_slippage_bps;
            let trace = if limit.lt(found) {
                AdmissionCheckTrace::deny(id, "estimated slippage exceeds tolerance")
            } else {
                AdmissionCheckTrace::pass(id, "estimated slippage within tolerance")
            };
            trace.with(limit.to_text(), found.to_text())
        },
    }
}

/// No operator blocked the market.
pub open spec fn manual_block(input: AdmissionInput) -> TraceView {
    let id = AdmissionCheckId::ManualBlock;
    if !input.exposure.manual_block {
        passed(id, "market not blocked"@)
    } else {
        denied(id, "market is on the operator block list"@)
    }
}

fn check_manual_block(input: &AdmissionInput) -> (r: AdmissionCheckTrace)
    ensures
        r@ == manual_block(*input),
{
    let id = AdmissionCheckId::ManualBlock;
    if !input.exposure.manual_block {
        AdmissionCheckTrace::pass(id, "market not blocked")
    } else {
        AdmissionCheckTrace::deny(id, "market is on the operator block list")
    }
}

/// The kill switch admits entries, and no unknown exposure stands in the way of
/// automatic execution.
pub open spec fn kill_switch(input: AdmissionInput) -> TraceView {
    let id = AdmissionCheckId::KillSwitch;
    if !input.kill_switch.spec_allows_new_entry() {
        denied(id, "kill switch state "@ + input.kill_switch.text() + " blocks new entry"@)
    } else if input.mode == QuantRuntimeMode::AutoExecution
        && input.exposure.has_blocking_inflight {
        denied(
            id,
            "blocking in-flight exposure (ambiguous/unresolvable) blocks auto execution"@,
        )
    } else {
        passed(id, "kill switch allows new entry"@)
    }
}

fn check_kill_switch(input: &AdmissionInput) -> (r: AdmissionCheckTrace)
    ensures
        r@ == kill_switch(*input),
{
    let id = AdmissionCheckId::KillSwitch;
    if !input.kill_switch.allows_new_entry() {
        return AdmissionCheckTrace::deny(
            id,
            "kill switch state ".to_owned().concat(input.kill_switch.as_str()).concat(
                " blocks new entry",
            ).as_str(),
        );
    }
    if input.mode == QuantRuntimeMode::AutoExecution && input.exposure.has_blocking_inflight {
        return AdmissionCheckTrace::deny(
            id,
            "blocking in-flight exposure (ambiguous/unresolvable) blocks auto execution",
        );
    }
    AdmissionCheckTrace::pass(id, "kill switch allows new entry")
}

/// The venue is healthy. An impaired venue only defers.
pub open spec fn venue_guard(input: AdmissionInput) -> TraceView {
    let id = AdmissionCheckId::VenueGuard;
    match input.seams.venue_health {
        VenueHealth::Healthy => passed(id, "venue healthy"@),
        VenueHealth::Degraded { reason } => deferred(id, "venue degraded: "@ + reason@),
    }
}

fn check_venue_guard(input: &AdmissionInput) -> (r: AdmissionCheckTrace)
    ensures
        r@ == venue_guard(*input),
{
    let id = AdmissionCheckId::VenueGuard;
    match &input.seams.venue_health {
        VenueHealth::Healthy => AdmissionCheckTrace::pass(id, "venue healthy"),
        VenueHealth::Degraded { reason } => AdmissionCheckTrace::defer(
            id,
            "venue degraded: ".to_owned().concat(reason.as_str()).as_str(),
        ),
    }
}

/// Signing credentials are ready.
pub open spec fn credential_readiness(input: AdmissionInput) -> TraceView {
    let id = AdmissionCheckId::CredentialReadiness;
    if input.seams.credentials_ready {
        passed(id, "signing credentials ready"@)
    } else {
        denied(id, "signing credentials not ready"@)
    }
}

fn check_credential_readiness(input: &AdmissionInput) -> (r: AdmissionCheckTrace)
    ensures
        r@ == credential_readiness(*input),
{
    let id = AdmissionCheckId::CredentialReadiness;
    if input.seams.credentials_ready {
        AdmissionCheckTrace::pass(id, "signing credentials ready")
    } else {
        AdmissionCheckTrace::deny(id, "signing credentials not ready")
    }
}

/// The exit monitor is ready for the position.
pub open spec fn exit_monitor_readiness(input: AdmissionInput) -> TraceView {
    let id = AdmissionCheckId::ExitMonitorReadiness;
    if input.seams.exit_monitor_ready {
        passed(id, "exit monitor ready"@)
    } else {
        denied(id, "exit monitor not ready"@)
    }
}

fn check_exit_monitor_readiness(input: &AdmissionInput) -> (r: AdmissionCheckTrace)
    ensures
        r@ == exit_monitor_readiness(*input),
{
    let id = AdmissionCheckId::ExitMonitorReadiness;
    if input.seams.exit_monitor_ready {
        AdmissionCheckTrace::pass(id, "exit monitor ready")
    } else {
        AdmissionCheckTrace::deny(id, "exit monitor not ready")
    }
}

/// The return model is calibrated.
pub open spec fn calibrated_return_model(input: AdmissionInput) -> TraceView {
    let id = AdmissionCheckId::CalibratedReturnModel;
    if input.model_state.return_model_calibrated {
        passed(id, "return model is calibrated"@)
    } else {
        denied(id, "return model is heuristic (uncalibrated) — fail-closed"@)
    }
}

fn check_calibrated_return_model(input: &AdmissionInput) -> (r: AdmissionCheckTrace)
    ensures
        r@ == calibrated_return_model(*input),
{
    let id = AdmissionCheckId::CalibratedReturnModel;
    if input.model_state.return_model_calibrated {
        AdmissionCheckTrace::pass(id, "return model is calibrated")
    } else {
        AdmissionCheckTrace::deny(id, "return model is heuristic (uncalibrated) — fail-closed")
    }
}

/// What a check finds; `None` where its figures are not representable.
pub open spec fn check_trace(check: AdmissionCheckId, input: AdmissionInput) -> Option<TraceView> {
    match check {
        AdmissionCheckId::IntentState => Some(intent_state(input)),
        AdmissionCheckId::RecommendationFreshness => Some(recommendation_freshness(input)),
        AdmissionCheckId::ReportStatus => Some(report_status(input)),
        AdmissionCheckId::RuntimeMode => Some(runtime_mode(input)),
        AdmissionCheckId::SettlementRecovery => Some(settlement_recovery(input)),
        AdmissionCheckId::ModelRouteBinding => Some(model_route_binding(input)),
        AdmissionCheckId::DataQuality => Some(data_quality(input)),
        AdmissionCheckId::BookFreshness => Some(book_freshness(input)),
        AdmissionCheckId::VenueMetadata => Some(venue_metadata(input)),
        AdmissionCheckId::EntryConditionPlan => Some(entry_condition(input)),
        AdmissionCheckId::RiskEnvelopeHash => Some(risk_envelope_hash(input)),
        AdmissionCheckId::CapitalBudget => capital_budget(input),
        AdmissionCheckId::MaxOpenIntents => Some(max_open_intents(input)),
        AdmissionCheckId::MaxReservedCapital => Some(max_reserved_capital(input)),
        AdmissionCheckId::MarketExposure => market_exposure(input),
        AdmissionCheckId::EventExposure => event_exposure(input),
        AdmissionCheckId::CategoryExposure => category_exposure(input),
        AdmissionCheckId::LiquidityDepth => Some(liquidity_depth(input)),
        AdmissionCheckId::Slippage => Some(slippage(input)),
        AdmissionCheckId::ManualBlock => Some(manual_block(input)),
        AdmissionCheckId::KillSwitch => Some(kill_switch(input)),
        AdmissionCheckId::VenueGuard => Some(venue_guard(input)),
        AdmissionCheckId::CredentialReadiness => Some(credential_readiness(input)),
        AdmissionCheckId::ExitMonitorReadiness => Some(exit_monitor_readiness(input)),
        AdmissionCheckId::CalibratedReturnModel => Some(calibrated_return_model(input)),
    }
}

/// Runs one check; `None` where its figures are not representable.
pub fn run_check(check: AdmissionCheckId, input: &AdmissionInput) -> (r: Option<AdmissionCheckTrace>)
    ensures
        same_trace(r, check_trace(check, *input)),
{
    match check {
        AdmissionCheckId::IntentState => Some(check_intent_state(input)),
        AdmissionCheckId::RecommendationFreshness => Some(check_recommendation_freshness(input)),
        AdmissionCheckId::ReportStatus => Some(check_report_status(input)),
        AdmissionCheckId::RuntimeMode => Some(check_runtime_mode(input)),
        AdmissionCheckId::SettlementRecovery => Some(check_settlement_recovery(input)),
        AdmissionCheckId::ModelRouteBinding => Some(check_model_route_binding(input)),
        AdmissionCheckId::DataQuality => Some(check_data_quality(input)),
        AdmissionCheckId::BookFreshness => Some(check_book_freshness(input)),
        AdmissionCheckId::VenueMetadata => Some(check_venue_metadata(input)),
        AdmissionCheckId::EntryConditionPlan => Some(check_entry_condition(input)),
        AdmissionCheckId::RiskEnvelopeHash => Some(check_risk_envelope_hash(input)),
        AdmissionCheckId::CapitalBudget => check_capital_budget(input),
        AdmissionCheckId::MaxOpenIntents => Some(check_max_open_intents(input)),
        AdmissionCheckId::MaxReservedCapital => Some(check_max_reserved_capital(input)),
        AdmissionCheckId::MarketExposure => check_market_exposure(input),
        AdmissionCheckId::EventExposure => check_event_exposure(input),
        AdmissionCheckId::CategoryExposure => check_category_exposure(input),
        AdmissionCheckId::LiquidityDepth => Some(check_liquidity_depth(input)),
        AdmissionCheckId::Slippage => Some(check_slippage(input)),
        AdmissionCheckId::ManualBlock => Some(check_manual_block(input)),
        AdmissionCheckId::KillSwitch => Some(check_kill_switch(input)),
        AdmissionCheckId::VenueGuard => Some(check_venue_guard(input)),
        AdmissionCheckId::CredentialReadiness => Some(check_credential_readiness(input)),
        AdmissionCheckId::ExitMonitorReadiness => Some(check_exit_monitor_readiness(input)),
        AdmissionCheckId::CalibratedReturnModel => Some(check_calibrated_return_model(input)),
    }
}

/// Every check reports under its own identity.
#[verifier::rlimit(60)]
pub proof fn traces_name_their_check(check: AdmissionCheckId, input: AdmissionInput)
    ensures
        check_trace(check, input) matches Some(trace) ==> trace.check == check,
{
    match check {
        AdmissionCheckId::IntentState => {},
        AdmissionCheckId::RecommendationFreshness => {},
        AdmissionCheckId::ReportStatus => {},
        AdmissionCheckId::RuntimeMode => {},
        AdmissionCheckId::SettlementRecovery => {},
        AdmissionCheckId::ModelRouteBinding => {},
        AdmissionCheckId::DataQuality => {},
        AdmissionCheckId::BookFreshness => {},
        AdmissionCheckId::VenueMetadata => {},
        AdmissionCheckId::EntryConditionPlan => {},
        AdmissionCheckId::RiskEnvelopeHash => {},
        AdmissionCheckId::CapitalBudget => {},
        AdmissionCheckId::MaxOpenIntents => {},
        AdmissionCheckId::MaxReservedCapital => {},
        AdmissionCheckId::MarketExposure => {},
        AdmissionCheckId::EventExposure => {},
        AdmissionCheckId::CategoryExposure => {},
        AdmissionCheckId::LiquidityDepth => {},
        AdmissionCheckId::Slippage => {},
        AdmissionCheckId::ManualBlock => {},
        AdmissionCheckId::KillSwitch => {},
        AdmissionCheckId::VenueGuard => {},
        AdmissionCheckId::CredentialReadiness => {},
        AdmissionCheckId::ExitMonitorReadiness => {},
        AdmissionCheckId::CalibratedReturnModel => {},
    }
}

/// An impaired venue never denies: what denies entries after a sustained
/// failure is the kill switch.
pub proof fn venue_guard_never_denies(input: AdmissionInput)
    ensures
        venue_guard(input).outcome != AdmissionOutcome::Deny,
{
}

/// No order of a passing input costs more than the cash that is available to
/// it, or than what is left of the budget.
pub proof fn funded_orders_are_covered(input: AdmissionInput)
    requires
        capital_budget(input) matches Some(trace) && trace.outcome == AdmissionOutcome::Allow,
    ensures
        ({
            let alloc = own_allocation(input);
            let notional = input.spec_notional()->0;
            &&& notional@ <= input.account.available_usd.sum(alloc)->0@
            &&& notional@ <= rest(
                input.budget_total_usd,
                rest(input.account.reserved_usd, alloc)->0,
            )->0@
        }),
{
}

/// The exposure under a key is that of the first entry with the key; without one
/// there is none.
pub proof fn exposure_is_found_under_its_key(entries: Seq<ExposureEntry>, key: Seq<char>)
    ensures
        ({
            ||| exists|i: int|
                0 <= i < entries.len() && (#[trigger] entries[i]).key@ == key && exposure_under(
                    entries,
                    key,
                ) == entries[i].usd && forall|j: int|
                    0 <= j < i ==> (#[trigger] entries[j]).key@ != key
            ||| exposure_under(entries, key) == Decimal::of_parts(0, 0) && forall|j: int|
                0 <= j < entries.len() ==> (#[trigger] entries[j]).key@ != key
        }),
{
    let test = under_key(key);
    crate::search::first_match_is_first(entries, test);
    match first_where(entries, test) {
        Some(position) => {
            assert(entries[position].key@ == key);
            assert forall|j: int| 0 <= j < position implies (#[trigger] entries[j]).key@ != key by {
                assert(!test(entries[j]));
            }
        },
        None => {
            assert forall|j: int| 0 <= j < entries.len() implies (#[trigger] entries[j]).key@
                != key by {
                assert(!test(entries[j]));
            }
        },
    }
}

} // verus!
