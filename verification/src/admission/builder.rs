//! Assembly of the frozen admission input.
//!
//! Reading the sources is done by others. Which of them are mandatory, what
//! they are distilled to, and in which order a defect is reported is decided
//! here; an input that cannot be built completely is not built at all.
use vstd::prelude::*;
use vstd::string::*;

use crate::admission::model::{
    AccountSnapshot, AdmissionEconomicHealth, AdmissionExposureState, AdmissionInput,
    AdmissionModelState, AdmissionSeams, AdmissionVenueMetadata, ConditionInstance,
    DataQualitySnapshot, MarketStatus, SettlementRecoveryAdmission, StateVersion,
};
use crate::admission::preparation::{EntryOrderPreparation, PreparationReplies};
use crate::decimal::{Bps, Usd};
use crate::error::{epoch_millis, intent_denied, natural_overflow, ErrorView, ExecutionError};
use crate::orders::{
    BookSnapshot, BookWalkFill, ClobMarketInfo, PitFeeSchedule, PitMakerRebateEvidence,
    PreparedVenueOrder, VenueFundingBalance, VenueFundingEvidence, VenueOrderMetadata,
};
use crate::plans::{
    EntryPlan, KillSwitchState, OrderIntentInfo, QuantRuntimeMode, RecommendationInfo,
    RecommendationReportInfo, RiskEnvelope,
};
use crate::text::write_id;
use crate::time::Timestamp;
use crate::types::{
    ContentHash, Ident, MarketId, ModelVersionId, PolicySnapshotId, TokenId,
};

verus! {

/// Why an input could not be built.
#[derive(Debug)]
pub enum BuildRefusal {
    /// A mandatory row does not exist.
    Missing { entity: String, id: String },
    /// A rule refuses.
    Refused(ExecutionError),
}

/// A [`BuildRefusal`] with its texts as character sequences.
pub ghost enum RefusalView {
    Missing { entity: Seq<char>, id: Seq<char> },
    Refused(ErrorView),
}

impl View for BuildRefusal {
    type V = RefusalView;

    open spec fn view(&self) -> RefusalView {
        match *self {
            BuildRefusal::Missing { entity, id } => RefusalView::Missing {
                entity: entity@,
                id: id@,
            },
            BuildRefusal::Refused(error) => RefusalView::Refused(error@),
        }
    }
}

/// A mandatory row that does not exist.
pub fn not_found(entity: &str, id: u128) -> (r: BuildRefusal)
    ensures
        r@ == (RefusalView::Missing { entity: entity@, id: crate::text::id_text(id) }),
{
    BuildRefusal::Missing { entity: entity.to_owned(), id: write_id(id) }
}

/// Latest assessment of a route's economics.
#[derive(Debug)]
pub struct RouteEconomicHealth {
    pub route_economic_health_id: u128,
    pub evidence_hash: ContentHash,
    pub state: Ident,
    pub assessed_through: Timestamp,
}

/// Why the freshness limit of an assessment cannot be used, if it cannot.
pub open spec fn freshness_defect(freshness_secs: u64) -> Option<ErrorView> {
    if freshness_secs > i64::MAX {
        Some(
            ErrorView::TimeConversion {
                field: "admission.economic_health_freshness"@,
                value: crate::text::natural_text(freshness_secs as nat),
                detail: crate::text::conversion_overflow(),
            },
        )
    } else {
        None
    }
}

/// The latest assessment with its freshness.
pub open spec fn economic_health(
    latest: Option<RouteEconomicHealth>,
    freshness_secs: u64,
    now: Timestamp,
) -> AdmissionEconomicHealth {
    match latest {
        None => AdmissionEconomicHealth::Missing,
        Some(health) => AdmissionEconomicHealth::Present {
            route_economic_health_id: health.route_economic_health_id,
            evidence_hash: health.evidence_hash,
            state: health.state,
            assessed_through: health.assessed_through,
            fresh: now@ - health.assessed_through@ <= freshness_secs * 1000000000,
        },
    }
}

/// The latest assessment with its freshness; a missing one stays missing.
pub fn resolve_economic_health(
    latest: Option<RouteEconomicHealth>,
    freshness_secs: u64,
    now: Timestamp,
) -> (r: Result<AdmissionEconomicHealth, ExecutionError>)
    ensures
        match r {
            Ok(health) => (latest is None || freshness_defect(freshness_secs) is None) && health
                == economic_health(latest, freshness_secs, now),
            Err(error) => latest is Some && freshness_defect(freshness_secs) == Some(error@),
        },
{
    let health = match latest {
        None => {
            return Ok(AdmissionEconomicHealth::Missing);
        },
        Some(health) => health,
    };
    if freshness_secs > i64::MAX as u64 {
        return Err(natural_overflow("admission.economic_health_freshness", freshness_secs));
    }
    let fresh = now.since(health.assessed_through) <= freshness_secs as i128 * 1000000000;
    Ok(
        AdmissionEconomicHealth::Present {
            route_economic_health_id: health.route_economic_health_id,
            evidence_hash: health.evidence_hash,
            state: health.state,
            assessed_through: health.assessed_through,
            fresh,
        },
    )
}

/// Decision time in milliseconds since the epoch.
pub fn timestamp_ms(now: Timestamp) -> (r: Result<u64, ExecutionError>)
    ensures
        match r {
            Ok(millis) => millis == now.spec_millis(),
            Err(error) => now.spec_millis() < 0 && error@ == (ErrorView::TimeConversion {
                field: "admission.now_ms"@,
                value: crate::text::integer_text(now.spec_millis()),
                detail: crate::text::conversion_overflow(),
            }),
        },
{
    epoch_millis("admission.now_ms", now)
}

/// Contract family through which a market is settled.
#[derive(Clone, Copy, Debug, PartialEq, Eq, Structural)]
pub enum SettlementRoute {
    StandardV2,
    NegRiskV2,
}

/// The route whose recovery has to be evaluated, if any has to.
pub open spec fn recovery_route(relies_on_recovery: bool, neg_risk: bool) -> Option<
    SettlementRoute,
> {
    if relies_on_recovery {
        Some(
            if neg_risk {
                SettlementRoute::NegRiskV2
            } else {
                SettlementRoute::StandardV2
            },
        )
    } else {
        None
    }
}

/// The route whose recovery has to be evaluated, or `None` where the exit policy
/// does not rely on automatic recovery.
pub fn settlement_recovery_route(
    relies_on_recovery: bool,
    metadata: &AdmissionVenueMetadata,
) -> (r: Option<SettlementRoute>)
    ensures
        r == (if !relies_on_recovery {
            None
        } else if metadata.current_neg_risk {
            Some(SettlementRoute::NegRiskV2)
        } else {
            Some(SettlementRoute::StandardV2)
        }),
        r == recovery_route(relies_on_recovery, metadata.current_neg_risk),
{
    if !relies_on_recovery {
        None
    } else if metadata.current_neg_risk {
        Some(SettlementRoute::NegRiskV2)
    } else {
        Some(SettlementRoute::StandardV2)
    }
}

/// A market in the catalog.
#[derive(Debug)]
pub struct CatalogMarket {
    pub market_id: MarketId,
    pub token_yes: TokenId,
    pub token_no: TokenId,
    pub status: MarketStatus,
    pub filter_reasons: Vec<String>,
}

/// The token, where it is known.
pub open spec fn known(token: TokenId, is_known: bool) -> Option<TokenId> {
    if is_known {
        Some(token)
    } else {
        None
    }
}

/// What the sources say of the market side by side.
pub open spec fn metadata_of(
    token: TokenId,
    frozen: ClobMarketInfo,
    current: ClobMarketInfo,
    live: VenueOrderMetadata,
    catalog: CatalogMarket,
) -> AdmissionVenueMetadata {
    AdmissionVenueMetadata {
        catalog_market_id: catalog.market_id,
        catalog_token_id: known(
            token,
            catalog.token_yes@ == token@ || catalog.token_no@ == token@,
        ),
        frozen_version_id: frozen.version_id,
        frozen_market_id: frozen.market_id,
        frozen_token_id: known(token, frozen.lists(token@)),
        frozen_tick_size: frozen.tick_size,
        frozen_minimum_order_size: frozen.minimum_order_size,
        frozen_neg_risk: frozen.neg_risk,
        frozen_payload_hash: frozen.payload_hash,
        current_version_id: current.version_id,
        current_market_id: current.market_id,
        current_token_id: known(token, current.lists(token@)),
        current_tick_size: current.tick_size,
        current_minimum_order_size: current.minimum_order_size,
        current_neg_risk: current.neg_risk,
        current_payload_hash: current.payload_hash,
        live_market_id: live.market_id,
        live_token_id: live.token_id,
        live_tick_size: live.tick_size,
        live_minimum_order_size: live.minimum_order_size,
        live_neg_risk: live.neg_risk,
        catalog_status: catalog.status,
        catalog_filter_reasons: catalog.filter_reasons,
    }
}

/// Puts what the sources say of the market side by side.
pub fn venue_metadata(
    token_id: &TokenId,
    frozen: &ClobMarketInfo,
    current: &ClobMarketInfo,
    live: &VenueOrderMetadata,
    catalog: CatalogMarket,
) -> (r: AdmissionVenueMetadata)
    ensures
        r == metadata_of(*token_id, *frozen, *current, *live, catalog),
{
    let in_catalog = catalog.token_yes.same(token_id) || catalog.token_no.same(token_id);
    AdmissionVenueMetadata {
        catalog_market_id: catalog.market_id,
        catalog_token_id: if in_catalog {
            Some(token_id.clone())
        } else {
            None
        },
        frozen_version_id: frozen.version_id,
        frozen_market_id: frozen.market_id.clone(),
        frozen_token_id: if frozen.has_token(token_id) {
            Some(token_id.clone())
        } else {
            None
        },
        frozen_tick_size: frozen.tick_size,
        frozen_minimum_order_size: frozen.minimum_order_size,
        frozen_neg_risk: frozen.neg_risk,
        frozen_payload_hash: frozen.payload_hash,
        current_version_id: current.version_id,
        current_market_id: current.market_id.clone(),
        current_token_id: if current.has_token(token_id) {
            Some(token_id.clone())
        } else {
            None
        },
        current_tick_size: current.tick_size,
        current_minimum_order_size: current.minimum_order_size,
        current_neg_risk: current.neg_risk,
        current_payload_hash: current.payload_hash,
        live_market_id: live.market_id.clone(),
        live_token_id: live.token_id.clone(),
        live_tick_size: live.tick_size,
        live_minimum_order_size: live.minimum_order_size,
        live_neg_risk: live.neg_risk,
        catalog_status: catalog.status,
        catalog_filter_reasons: catalog.filter_reasons,
    }
}

/// What an admission is about.
#[derive(Debug)]
pub struct AdmissionSubject {
    pub recommendation: RecommendationInfo,
    pub condition: ConditionInstance,
}

/// Which row behind an intent is missing first, if one is.
pub open spec fn missing_subject(
    intent: OrderIntentInfo,
    recommendation: Option<RecommendationInfo>,
    condition: Option<ConditionInstance>,
) -> Option<RefusalView> {
    if recommendation is None {
        Some(
            RefusalView::Missing {
                entity: "recommendation"@,
                id: crate::text::id_text(intent.recommendation_id),
            },
        )
    } else if condition is None {
        Some(
            RefusalView::Missing {
                entity: "entry_condition_instance"@,
                id: crate::text::id_text(intent.condition_instance_id),
            },
        )
    } else {
        None
    }
}

/// Takes the rows behind an intent, or reports the first that does not exist.
pub fn require_subject(
    intent: &OrderIntentInfo,
    recommendation: Option<RecommendationInfo>,
    condition: Option<ConditionInstance>,
) -> (r: Result<AdmissionSubject, BuildRefusal>)
    ensures
        match r {
            Ok(subject) => missing_subject(*intent, recommendation, condition) is None && subject
                == (AdmissionSubject {
                recommendation: recommendation->0,
                condition: condition->0,
            }),
            Err(refusal) => missing_subject(*intent, recommendation, condition) == Some(refusal@),
        },
{
    let recommendation = match recommendation {
        Some(recommendation) => recommendation,
        None => {
            return Err(not_found("recommendation", intent.recommendation_id));
        },
    };
    match condition {
        Some(condition) => Ok(AdmissionSubject { recommendation, condition }),
        None => Err(not_found("entry_condition_instance", intent.condition_instance_id)),
    }
}

/// What the sources that are read for a recommendation returned.
#[derive(Debug)]
pub struct SourceReplies {
    pub report: Option<RecommendationReportInfo>,
    pub market_status: Option<MarketStatus>,
    pub frozen_clob_market_info: Option<ClobMarketInfo>,
    pub current_clob_market_info: Option<ClobMarketInfo>,
    pub active_version: Option<PolicySnapshotId>,
    pub has_catalog_market: bool,
    pub has_unresolvable: bool,
    pub has_ambiguous_inflight: bool,
    /// Capital that the intent itself has reserved.
    pub allocated_usd: Option<Usd>,
    pub open_intent_count: u64,
}

/// The mandatory sources.
#[derive(Debug)]
pub struct AdmissionSources {
    pub subject: AdmissionSubject,
    pub report: RecommendationReportInfo,
    pub exposure: AdmissionExposureState,
    pub frozen_clob_market_info: ClobMarketInfo,
    pub current_clob_market_info: ClobMarketInfo,
    pub active_version: PolicySnapshotId,
    pub allocated_usd: Option<Usd>,
    pub open_intent_count: u64,
}

/// Which mandatory source is missing first, if one is.
pub open spec fn missing_source(
    recommendation: RecommendationInfo,
    replies: SourceReplies,
) -> Option<RefusalView> {
    if replies.report is None {
        Some(
            RefusalView::Missing {
                entity: "recommendation_report"@,
                id: crate::text::id_text(recommendation.recommendation_report_id),
            },
        )
    } else if replies.market_status is None {
        Some(RefusalView::Missing { entity: "market"@, id: recommendation.market_id@ })
    } else if replies.frozen_clob_market_info is None {
        Some(
            RefusalView::Refused(
                ErrorView::IntentDenied {
                    reason: "no report-time CLOB market-info observation is available"@,
                },
            ),
        )
    } else if replies.current_clob_market_info is None {
        Some(
            RefusalView::Refused(
                ErrorView::IntentDenied {
                    reason: "no current CLOB market-info observation is available"@,
                },
            ),
        )
    } else if replies.active_version is None {
        Some(RefusalView::Missing { entity: "decision_policy_snapshot"@, id: "current"@ })
    } else if !replies.has_catalog_market {
        Some(
            RefusalView::Refused(
                ErrorView::IntentDenied {
                    reason: "no current Gamma catalog evidence is available"@,
                },
            ),
        )
    } else {
        None
    }
}

/// Takes the mandatory sources out of the replies and distils what blocks.
pub fn require_sources(subject: AdmissionSubject, replies: SourceReplies) -> (r: Result<
    AdmissionSources,
    BuildRefusal,
>)
    ensures
        match r {
            Ok(sources) => missing_source(subject.recommendation, replies) is None && sources == (
            AdmissionSources {
                subject,
                report: replies.report->0,
                exposure: AdmissionExposureState {
                    has_blocking_inflight: replies.has_unresolvable
                        || replies.has_ambiguous_inflight,
                    manual_block: replies.market_status->0 is ManuallyBlocked,
                },
                frozen_clob_market_info: replies.frozen_clob_market_info->0,
                current_clob_market_info: replies.current_clob_market_info->0,
                active_version: replies.active_version->0,
                allocated_usd: replies.allocated_usd,
                open_intent_count: replies.open_intent_count,
            }),
            Err(refusal) => missing_source(subject.recommendation, replies) == Some(refusal@),
        },
{
    let report = match replies.report {
        Some(report) => report,
        None => {
            return Err(
                not_found(
                    "recommendation_report",
                    subject.recommendation.recommendation_report_id,
                ),
            );
        },
    };
    let manual_block = match replies.market_status {
        None => {
            return Err(
                BuildRefusal::Missing {
                    entity: "market".to_owned(),
                    id: subject.recommendation.market_id.text,
                },
            );
        },
        Some(MarketStatus::ManuallyBlocked) => true,
        Some(_) => false,
    };
    let frozen = match replies.frozen_clob_market_info {
        Some(info) => info,
        None => {
            return Err(
                BuildRefusal::Refused(
                    intent_denied("no report-time CLOB market-info observation is available"),
                ),
            );
        },
    };
    let current = match replies.current_clob_market_info {
        Some(info) => info,
        None => {
            return Err(
                BuildRefusal::Refused(
                    intent_denied("no current CLOB market-info observation is available"),
                ),
            );
        },
    };
    let active_version = match replies.active_version {
        Some(version) => version,
        None => {
            return Err(
                BuildRefusal::Missing {
                    entity: "decision_policy_snapshot".to_owned(),
                    id: "current".to_owned(),
                },
            );
        },
    };
    if !replies.has_catalog_market {
        return Err(
            BuildRefusal::Refused(intent_denied("no current Gamma catalog evidence is available")),
        );
    }
    Ok(
        AdmissionSources {
            subject,
            report,
            exposure: AdmissionExposureState {
                has_blocking_inflight: replies.has_unresolvable || replies.has_ambiguous_inflight,
                manual_block,
            },
            frozen_clob_market_info: frozen,
            current_clob_market_info: current,
            active_version,
            allocated_usd: replies.allocated_usd,
            open_intent_count: replies.open_intent_count,
        },
    )
}

/// Models that the active policy routes to.
#[derive(Debug)]
pub struct ModelRouting {
    /// Champions of the buy routes.
    pub champions: Vec<ModelVersionId>,
    pub active_exit_model: Option<ModelVersionId>,
}

/// Whether the policy routes to a model.
pub open spec fn routes_to(routing: ModelRouting, model: ModelVersionId) -> bool {
    routing.champions@.contains(model) || routing.active_exit_model == Some(model)
}

/// What governance says of a model: whether the policy routes to it, and
/// whether its calibration resolves now. A missing model has neither.
pub fn resolve_model_state(
    model: Option<ModelVersionId>,
    routing: &ModelRouting,
    calibration_resolves: bool,
) -> (r: AdmissionModelState)
    ensures
        r == (match model {
            Some(model) => AdmissionModelState {
                route_bound: routes_to(*routing, model),
                return_model_calibrated: calibration_resolves,
            },
            None => AdmissionModelState { route_bound: false, return_model_calibrated: false },
        }),
{
    let model = match model {
        Some(model) => model,
        None => {
            return AdmissionModelState { route_bound: false, return_model_calibrated: false };
        },
    };
    let mut bound = match routing.active_exit_model {
        Some(active) => active == model,
        None => false,
    };
    let ghost by_exit = bound;
    let mut i: usize = 0;
    while i < routing.champions.len()
        invariant
            i <= routing.champions.len(),
            by_exit == (routing.active_exit_model == Some(model)),
            bound == (by_exit || exists|j: int| 0 <= j < i && routing.champions@[j] == model),
        decreases routing.champions.len() - i,
    {
        if routing.champions[i] == model {
            assert(routing.champions@[i as int] == model);
            bound = true;
        }
        i = i + 1;
    }
    AdmissionModelState { route_bound: bound, return_model_calibrated: calibration_resolves }
}

/// Model version of an intent.
#[derive(Clone, Copy, Debug)]
pub struct ModelVersionInfo {
    pub model_version_id: ModelVersionId,
    pub trade_policy_artifact_id: Option<u128>,
}

/// What others replied before an entry order is prepared.
#[derive(Debug)]
pub struct OpeningReplies {
    /// The catalog's verified payload, or why it does not verify.
    pub catalog: Result<CatalogMarket, String>,
    /// Fees and rebate truth, or why they do not resolve.
    pub economics: Result<(PitFeeSchedule, PitMakerRebateEvidence), String>,
    pub model_version: Option<ModelVersionInfo>,
    /// Profile that the frozen trade policy binds.
    pub profile_ref: Ident,
    pub latest_health: Option<RouteEconomicHealth>,
    pub freshness_secs: u64,
    pub routing: ModelRouting,
    pub calibration_resolves: bool,
    /// A fresh book, or why there is none.
    pub book: Result<BookSnapshot, String>,
}

/// What an entry order is prepared with.
#[derive(Debug)]
pub struct OpenContext {
    pub preparation: EntryOrderPreparation,
    pub book: BookSnapshot,
    pub economic_health: AdmissionEconomicHealth,
    pub model_state: AdmissionModelState,
    pub exposure: AdmissionExposureState,
    pub active_version: PolicySnapshotId,
}

/// The preparation that the replies lead to.
pub open spec fn preparation_of(
    intent: OrderIntentInfo,
    sources: AdmissionSources,
    live: VenueOrderMetadata,
    replies: OpeningReplies,
    now: Timestamp,
) -> EntryOrderPreparation {
    EntryOrderPreparation {
        profile_ref: replies.profile_ref,
        spec: intent.entry_order,
        fee_schedule: replies.economics->Ok_0.0,
        maker_rebate_evidence: replies.economics->Ok_0.1,
        venue_metadata: metadata_of(
            intent.entry_order.token_id,
            sources.frozen_clob_market_info,
            sources.current_clob_market_info,
            live,
            replies.catalog->Ok_0,
        ),
        now,
    }
}

/// What stands first against preparing an order, if anything does.
pub open spec fn opening_refusal(
    intent: OrderIntentInfo,
    sources: AdmissionSources,
    live: VenueOrderMetadata,
    replies: OpeningReplies,
    now: Timestamp,
) -> Option<ErrorView> {
    let metadata = preparation_of(intent, sources, live, replies, now).venue_metadata;
    let market_id = sources.subject.recommendation.market_id;
    if replies.catalog is Err {
        Some(
            ErrorView::IntentDenied {
                reason: "current Gamma catalog evidence is invalid: "@ + replies.catalog->Err_0@,
            },
        )
    } else if metadata.defect(market_id, intent.entry_order.token_id) is Some {
        Some(
            ErrorView::IntentDenied {
                reason: metadata.defect(market_id, intent.entry_order.token_id)->0,
            },
        )
    } else if replies.economics is Err {
        Some(
            ErrorView::IntentDenied {
                reason: "current execution economics are invalid: "@ + replies.economics->Err_0@,
            },
        )
    } else if replies.model_version is None {
        Some(ErrorView::IntentDenied { reason: "intent model version no longer exists"@ })
    } else if replies.model_version->0.trade_policy_artifact_id is None {
        Some(ErrorView::IntentDenied { reason: "intent model has no frozen trade policy"@ })
    } else if replies.latest_health is Some && freshness_defect(replies.freshness_secs) is Some {
        freshness_defect(replies.freshness_secs)
    } else if replies.book is Err {
        Some(
            ErrorView::IntentDenied {
                reason: "cannot prepare entry without a fresh PIT L2 book: "@
                    + replies.book->Err_0@,
            },
        )
    } else {
        None
    }
}

/// What the replies add up to where nothing stands against preparing an order.
pub open spec fn opened(
    intent: OrderIntentInfo,
    sources: AdmissionSources,
    live: VenueOrderMetadata,
    replies: OpeningReplies,
    now: Timestamp,
) -> OpenContext {
    OpenContext {
        preparation: preparation_of(intent, sources, live, replies, now),
        book: replies.book->Ok_0,
        economic_health: economic_health(replies.latest_health, replies.freshness_secs, now),
        model_state: AdmissionModelState {
            route_bound: routes_to(replies.routing, replies.model_version->0.model_version_id),
            return_model_calibrated: replies.calibration_resolves,
        },
        exposure: sources.exposure,
        active_version: sources.active_version,
    }
}

/// Collects what an entry order is prepared with, or reports the first thing
/// that stands against it.
pub fn open_context(
    intent: &OrderIntentInfo,
    sources: &AdmissionSources,
    live: &VenueOrderMetadata,
    replies: OpeningReplies,
    now: Timestamp,
) -> (r: Result<OpenContext, ExecutionError>)
    ensures
        match r {
            Ok(context) => opening_refusal(*intent, *sources, *live, replies, now)
                is None && context == opened(*intent, *sources, *live, replies, now),
            Err(error) => opening_refusal(
                *intent,
                *sources,
                *live,
                replies,
                now,
            ) == Some(error@),
        },
{
    let catalog = match replies.catalog {
        Ok(catalog) => catalog,
        Err(defect) => {
            return Err(
                ExecutionError::IntentDenied {
                    reason: "current Gamma catalog evidence is invalid: ".to_owned().concat(
                        defect.as_str(),
                    ),
                },
            );
        },
    };
    let metadata = venue_metadata(
        &intent.entry_order.token_id,
        &sources.frozen_clob_market_info,
        &sources.current_clob_market_info,
        live,
        catalog,
    );
    let market_id = &sources.subject.recommendation.market_id;
    match metadata.validate(market_id, &intent.entry_order.token_id) {
        Ok(_) => {},
        Err(reason) => {
            return Err(ExecutionError::IntentDenied { reason });
        },
    }
    let (fee_schedule, maker_rebate_evidence) = match replies.economics {
        Ok(economics) => economics,
        Err(defect) => {
            return Err(
                ExecutionError::IntentDenied {
                    reason: "current execution economics are invalid: ".to_owned().concat(
                        defect.as_str(),
                    ),
                },
            );
        },
    };
    let model_version = match replies.model_version {
        Some(version) => version,
        None => {
            return Err(intent_denied("intent model version no longer exists"));
        },
    };
    if model_version.trade_policy_artifact_id.is_none() {
        return Err(intent_denied("intent model has no frozen trade policy"));
    }
    let health = match resolve_economic_health(replies.latest_health, replies.freshness_secs, now) {
        Ok(health) => health,
        Err(error) => {
            return Err(error);
        },
    };
    let model_state = resolve_model_state(
        Some(model_version.model_version_id),
        &replies.routing,
        replies.calibration_resolves,
    );
    let book = match replies.book {
        Ok(book) => book,
        Err(unavailable) => {
            return Err(
                ExecutionError::IntentDenied {
                    reason: "cannot prepare entry without a fresh PIT L2 book: ".to_owned().concat(
                        unavailable.as_str(),
                    ),
                },
            );
        },
    };
    Ok(
        OpenContext {
            preparation: EntryOrderPreparation {
                profile_ref: replies.profile_ref,
                spec: intent.entry_order.clone(),
                fee_schedule,
                maker_rebate_evidence,
                venue_metadata: metadata,
                now,
            },
            book,
            economic_health: health,
            model_state,
            exposure: sources.exposure,
            active_version: sources.active_version,
        },
    )
}

/// An open context with its order; the order says which funding to ask for.
#[derive(Debug)]
pub struct OrderContext {
    pub opened: OpenContext,
    pub prepared_order: PreparedVenueOrder,
}

/// Prepares the order of an open context.
pub fn prepare_order(opened: OpenContext, replies: &PreparationReplies) -> (r: Result<
    OrderContext,
    ExecutionError,
>)
    ensures
        match r {
            Ok(context) => context.opened == opened && opened.preparation.prepared(*replies) == Ok::<
                PreparedVenueOrder,
                ErrorView,
            >(context.prepared_order),
            Err(error) => opened.preparation.prepared(*replies) == Err::<
                PreparedVenueOrder,
                ErrorView,
            >(error@),
        },
{
    match opened.preparation.prepare(replies) {
        Ok(prepared_order) => Ok(OrderContext { opened, prepared_order }),
        Err(error) => Err(error),
    }
}

/// The collateral that an entry is funded from, or why there is none.
pub open spec fn collateral_of(funding: VenueFundingEvidence) -> Result<Usd, ErrorView> {
    match funding.snapshot.human_balance {
        VenueFundingBalance::Collateral(collateral) => Ok(collateral),
        VenueFundingBalance::Conditional(_) => Err(
            ErrorView::IntentDenied {
                reason: "entry funding evidence does not carry collateral balance"@,
            },
        ),
    }
}

/// The collateral that an entry is funded from.
pub fn entry_collateral(funding: &VenueFundingEvidence) -> (r: Result<Usd, ExecutionError>)
    ensures
        crate::error::outcome(r) == collateral_of(*funding),
{
    match funding.snapshot.human_balance {
        VenueFundingBalance::Collateral(collateral) => Ok(collateral),
        VenueFundingBalance::Conditional(_) => Err(
            intent_denied("entry funding evidence does not carry collateral balance"),
        ),
    }
}

/// What an entry is executed with.
#[derive(Debug)]
pub struct PreparedAdmissionContext {
    pub profile_ref: Ident,
    pub venue_metadata: AdmissionVenueMetadata,
    pub prepared_order: PreparedVenueOrder,
    pub venue_funding: VenueFundingEvidence,
    pub account: AccountSnapshot,
    pub book: BookSnapshot,
    pub fee_schedule: PitFeeSchedule,
    pub maker_rebate_evidence: PitMakerRebateEvidence,
    pub economic_health: AdmissionEconomicHealth,
    pub model_state: AdmissionModelState,
    pub exposure: AdmissionExposureState,
    pub active_version: PolicySnapshotId,
}

/// A context with the funding of its order.
pub open spec fn funded(
    context: OrderContext,
    funding: VenueFundingEvidence,
    account: AccountSnapshot,
) -> PreparedAdmissionContext {
    PreparedAdmissionContext {
        profile_ref: context.opened.preparation.profile_ref,
        venue_metadata: context.opened.preparation.venue_metadata,
        prepared_order: context.prepared_order,
        venue_funding: funding,
        account,
        book: context.opened.book,
        fee_schedule: context.opened.preparation.fee_schedule,
        maker_rebate_evidence: context.opened.preparation.maker_rebate_evidence,
        economic_health: context.opened.economic_health,
        model_state: context.opened.model_state,
        exposure: context.opened.exposure,
        active_version: context.opened.active_version,
    }
}

/// Completes a context with the funding of its order and the account that the
/// funding's collateral stands in.
pub fn fund_context(
    context: OrderContext,
    funding: VenueFundingEvidence,
    account: AccountSnapshot,
) -> (r: Result<PreparedAdmissionContext, ExecutionError>)
    ensures
        match r {
            Ok(complete) => collateral_of(funding) is Ok && complete == funded(
                context,
                funding,
                account,
            ),
            Err(error) => collateral_of(funding) == Err::<Usd, ErrorView>(error@),
        },
{
    match entry_collateral(&funding) {
        Ok(_) => {},
        Err(error) => {
            return Err(error);
        },
    }
    let OrderContext { opened, prepared_order } = context;
    let OpenContext {
        preparation,
        book,
        economic_health,
        model_state,
        exposure,
        active_version,
    } = opened;
    Ok(
        PreparedAdmissionContext {
            profile_ref: preparation.profile_ref,
            venue_metadata: preparation.venue_metadata,
            prepared_order,
            venue_funding: funding,
            account,
            book,
            fee_schedule: preparation.fee_schedule,
            maker_rebate_evidence: preparation.maker_rebate_evidence,
            economic_health,
            model_state,
            exposure,
            active_version,
        },
    )
}

/// Everything that others replied while the execution context was prepared.
#[derive(Debug)]
pub struct ContextReplies {
    pub opening: OpeningReplies,
    pub preparation: PreparationReplies,
    /// The answer to the funding request of the prepared order.
    pub funding: VenueFundingEvidence,
    pub account: AccountSnapshot,
}

/// What stands against an entry first, if anything does.
pub open spec fn context_refusal(
    intent: OrderIntentInfo,
    sources: AdmissionSources,
    live: VenueOrderMetadata,
    replies: ContextReplies,
    now: Timestamp,
) -> Option<ErrorView> {
    let preparation = preparation_of(intent, sources, live, replies.opening, now);
    match opening_refusal(intent, sources, live, replies.opening, now) {
        Some(refusal) => Some(refusal),
        None => match preparation.prepared(replies.preparation) {
            Err(refusal) => Some(refusal),
            Ok(_) => match collateral_of(replies.funding) {
                Err(refusal) => Some(refusal),
                Ok(_) => None,
            },
        },
    }
}

/// Prepares what an entry is executed with, or reports the first thing that
/// stands against it.
pub fn prepare_execution_context(
    intent: &OrderIntentInfo,
    sources: &AdmissionSources,
    live: &VenueOrderMetadata,
    replies: ContextReplies,
    now: Timestamp,
) -> (r: Result<PreparedAdmissionContext, ExecutionError>)
    ensures
        match r {
            Ok(complete) => {
                let context = opened(*intent, *sources, *live, replies.opening, now);
                &&& context_refusal(*intent, *sources, *live, replies, now) is None
                &&& complete == funded(
                    OrderContext {
                        opened: context,
                        prepared_order: context.preparation.prepared(replies.preparation)->Ok_0,
                    },
                    replies.funding,
                    replies.account,
                )
            },
            Err(error) => context_refusal(
                *intent,
                *sources,
                *live,
                replies,
                now,
            ) == Some(error@),
        },
{
    let opened = match open_context(intent, sources, live, replies.opening, now) {
        Ok(opened) => opened,
        Err(error) => {
            return Err(error);
        },
    };
    match prepare_order(opened, &replies.preparation) {
        Ok(context) => fund_context(context, replies.funding, replies.account),
        Err(error) => Err(error),
    }
}

/// Governed limits of admission.
#[derive(Clone, Copy, Debug)]
pub struct AdmissionLimits {
    pub budget_total_usd: Usd,
    pub max_stale_book_ratio_bps: u64,
    pub max_open_intents: u32,
    pub max_reserved_usd: Usd,
}

/// Live controls of the runtime.
#[derive(Debug)]
pub struct RuntimeControls {
    pub mode: QuantRuntimeMode,
    pub kill_switch: KillSwitchState,
    pub settlement_write_policy: Ident,
}

/// What is known of an intent besides its execution context.
#[derive(Debug)]
pub struct AdmissionFacts {
    pub intent: OrderIntentInfo,
    pub entry: EntryPlan,
    pub risk_envelope: RiskEnvelope,
    pub recomputed_envelope_hash: Result<ContentHash, String>,
    pub entry_walk: Option<BookWalkFill>,
    pub depth_walk: Option<BookWalkFill>,
    pub slippage: Option<Bps>,
    pub data_quality: DataQualitySnapshot,
    pub seams: AdmissionSeams,
    pub settlement_recovery: SettlementRecoveryAdmission,
}

/// What the hash of the admission's evidence is taken of.
#[derive(Debug)]
pub struct AdmissionExecutionEvidence<'a> {
    pub venue_metadata: &'a AdmissionVenueMetadata,
    pub venue_funding: &'a VenueFundingEvidence,
    pub prepared_order: &'a PreparedVenueOrder,
}

/// Hands out what the hash of the admission's evidence is taken of.
pub fn execution_evidence<'a>(context: &'a PreparedAdmissionContext) -> (r:
    AdmissionExecutionEvidence<'a>)
    ensures
        *r.venue_metadata == context.venue_metadata,
        *r.venue_funding == context.venue_funding,
        *r.prepared_order == context.prepared_order,
{
    AdmissionExecutionEvidence {
        venue_metadata: &context.venue_metadata,
        venue_funding: &context.venue_funding,
        prepared_order: &context.prepared_order,
    }
}

/// Provenance of an input.
pub open spec fn provenance(
    facts: AdmissionFacts,
    context: PreparedAdmissionContext,
    controls: RuntimeControls,
    evidence_hash: ContentHash,
) -> StateVersion {
    StateVersion {
        config_version_id: context.active_version,
        account_as_of: context.account.as_of,
        book_version: Some(context.book.version),
        book_as_of_ms: Some(context.book.timestamp_ms),
        fee_schedule_hash: context.fee_schedule.schedule_hash,
        maker_rebate_terms_hash: context.maker_rebate_evidence.spec_terms_hash(),
        maker_rebate_decidable: !(context.maker_rebate_evidence is Undecidable),
        kill_switch_state: controls.kill_switch,
        settlement_write_policy: controls.settlement_write_policy,
        settlement_deployment_digest: match facts.settlement_recovery {
            SettlementRecoveryAdmission::Ready { deployment_digest, .. } => Some(deployment_digest),
            _ => None,
        },
        settlement_verified_block_hash: match facts.settlement_recovery {
            SettlementRecoveryAdmission::Ready { verified_block_hash, .. } => Some(
                verified_block_hash,
            ),
            _ => None,
        },
        route_economic_health_id: match context.economic_health {
            AdmissionEconomicHealth::Missing => None,
            AdmissionEconomicHealth::Present { route_economic_health_id, .. } => Some(
                route_economic_health_id,
            ),
        },
        route_economic_health_hash: match context.economic_health {
            AdmissionEconomicHealth::Missing => None,
            AdmissionEconomicHealth::Present { evidence_hash, .. } => Some(evidence_hash),
        },
        route_economic_health_state: match context.economic_health {
            AdmissionEconomicHealth::Missing => None,
            AdmissionEconomicHealth::Present { state, .. } => Some(state),
        },
        admission_evidence_hash: evidence_hash,
    }
}

/// The frozen input of these facts.
pub open spec fn frozen_input(
    sources: AdmissionSources,
    facts: AdmissionFacts,
    context: PreparedAdmissionContext,
    controls: RuntimeControls,
    limits: AdmissionLimits,
    evidence_hash: ContentHash,
    now: Timestamp,
) -> AdmissionInput {
    AdmissionInput {
        profile_ref: context.profile_ref,
        intent: facts.intent,
        condition: sources.subject.condition,
        recommendation: sources.subject.recommendation,
        entry: facts.entry,
        risk_envelope: facts.risk_envelope,
        recomputed_envelope_hash: facts.recomputed_envelope_hash,
        report: sources.report,
        mode: controls.mode,
        kill_switch: controls.kill_switch,
        account: context.account,
        allocated_usd: sources.allocated_usd,
        book: Some(context.book),
        entry_walk: facts.entry_walk,
        depth_walk: facts.depth_walk,
        slippage: facts.slippage,
        fee_schedule: context.fee_schedule,
        maker_rebate_evidence: context.maker_rebate_evidence,
        budget_total_usd: limits.budget_total_usd,
        open_intent_count: sources.open_intent_count,
        max_open_intents: limits.max_open_intents,
        max_reserved_usd: limits.max_reserved_usd,
        model_state: context.model_state,
        economic_health: context.economic_health,
        data_quality: facts.data_quality,
        max_stale_book_ratio_bps: limits.max_stale_book_ratio_bps,
        exposure: context.exposure,
        venue_metadata: context.venue_metadata,
        prepared_order: context.prepared_order,
        venue_funding: context.venue_funding,
        seams: facts.seams,
        settlement_recovery: facts.settlement_recovery,
        now,
        now_ms: now.spec_millis() as u64,
        state_version: provenance(facts, context, controls, evidence_hash),
    }
}

/// Freezes everything that admission rests on into one input. The evidence hash
/// is the one taken of the context's evidence.
pub fn build(
    sources: AdmissionSources,
    facts: AdmissionFacts,
    context: PreparedAdmissionContext,
    controls: RuntimeControls,
    limits: AdmissionLimits,
    evidence_hash: ContentHash,
    now: Timestamp,
) -> (r: Result<AdmissionInput, ExecutionError>)
    ensures
        match r {
            Ok(input) => now.spec_millis() >= 0 && input == frozen_input(
                sources,
                facts,
                context,
                controls,
                limits,
                evidence_hash,
                now,
            ),
            Err(error) => now.spec_millis() < 0 && error@ == (ErrorView::TimeConversion {
                field: "admission.now_ms"@,
                value: crate::text::integer_text(now.spec_millis()),
                detail: crate::text::conversion_overflow(),
            }),
        },
{
    let now_ms = match timestamp_ms(now) {
        Ok(now_ms) => now_ms,
        Err(error) => {
            return Err(error);
        },
    };
    let state_version = StateVersion {
        config_version_id: context.active_version,
        account_as_of: context.account.as_of,
        book_version: Some(context.book.version),
        book_as_of_ms: Some(context.book.timestamp_ms),
        fee_schedule_hash: context.fee_schedule.schedule_hash,
        maker_rebate_terms_hash: context.maker_rebate_evidence.terms_hash(),
        maker_rebate_decidable: context.maker_rebate_evidence.is_decidable(),
        kill_switch_state: controls.kill_switch,
        settlement_write_policy: controls.settlement_write_policy,
        settlement_deployment_digest: facts.settlement_recovery.deployment_digest(),
        settlement_verified_block_hash: facts.settlement_recovery.verified_block_hash(),
        route_economic_health_id: context.economic_health.evidence_id(),
        route_economic_health_hash: context.economic_health.evidence_hash(),
        route_economic_health_state: context.economic_health.state(),
        admission_evidence_hash: evidence_hash,
    };
    Ok(
        AdmissionInput {
            profile_ref: context.profile_ref,
            intent: facts.intent,
            condition: sources.subject.condition,
            recommendation: sources.subject.recommendation,
            entry: facts.entry,
            risk_envelope: facts.risk_envelope,
            recomputed_envelope_hash: facts.recomputed_envelope_hash,
            report: sources.report,
            mode: controls.mode,
            kill_switch: controls.kill_switch,
            account: context.account,
            allocated_usd: sources.allocated_usd,
            book: Some(context.book),
            entry_walk: facts.entry_walk,
            depth_walk: facts.depth_walk,
            slippage: facts.slippage,
            fee_schedule: context.fee_schedule,
            maker_rebate_evidence: context.maker_rebate_evidence,
            budget_total_usd: limits.budget_total_usd,
            open_intent_count: sources.open_intent_count,
            max_open_intents: limits.max_open_intents,
            max_reserved_usd: limits.max_reserved_usd,
            model_state: context.model_state,
            economic_health: context.economic_health,
            data_quality: facts.data_quality,
            max_stale_book_ratio_bps: limits.max_stale_book_ratio_bps,
            exposure: context.exposure,
            venue_metadata: context.venue_metadata,
            prepared_order: context.prepared_order,
            venue_funding: context.venue_funding,
            seams: facts.seams,
            settlement_recovery: facts.settlement_recovery,
            now,
            now_ms,
            state_version,
        },
    )
}

/// An input is built only for a market that the four sources agree on, with a
/// fresh book, a bound model version, an order that was prepared for it and
/// collateral to pay it from.
pub proof fn contexts_are_complete(
    intent: OrderIntentInfo,
    sources: AdmissionSources,
    live: VenueOrderMetadata,
    replies: ContextReplies,
    now: Timestamp,
)
    requires
        context_refusal(intent, sources, live, replies, now) is None,
    ensures
        ({
            let opening = replies.opening;
            let preparation = preparation_of(intent, sources, live, opening, now);
            let market_id = sources.subject.recommendation.market_id;
            &&& opening.catalog is Ok && opening.economics is Ok && opening.book is Ok
            &&& opening.model_version is Some
            &&& replies.funding.snapshot.human_balance is Collateral
            &&& preparation.venue_metadata.of_market(market_id@)
            &&& preparation.venue_metadata.of_token(intent.entry_order.token_id)
            &&& preparation.prepared(replies.preparation) is Ok
            &&& preparation.prepared(replies.preparation)->Ok_0.market_id@ == market_id@
        }),
{
}

} // verus!
