//! What admission decides on.
use vstd::prelude::*;
use vstd::string::*;

use crate::decimal::{Bps, Shares, Usd};
use crate::entry_condition::state::EntryConditionState;
use crate::orders::{
    BookSnapshot, BookWalkFill, PitFeeSchedule, PitMakerRebateEvidence, PreparedVenueOrder,
    TickSize, VenueFundingEvidence, VenueOrderAmount,
};
use crate::plans::{
    EntryPlan, KillSwitchState, OrderIntentInfo, QuantRuntimeMode, RecommendationInfo,
    RecommendationReportInfo, RiskEnvelope,
};
use crate::text::{join, write_bool};
use crate::time::Timestamp;
use crate::types::{
    same_ident, write_optional_ident, ContentHash, Ident, MarketId, PolicySnapshotId,
    RecommendationId, TokenId,
};

verus! {

/// Health of the venue as the execution breaker sees it.
#[derive(Debug, PartialEq, Eq)]
pub enum VenueHealth {
    /// The venue takes orders normally.
    Healthy,
    /// The venue is impaired for now.
    Degraded { reason: String },
}

impl Clone for VenueHealth {
    fn clone(&self) -> (r: VenueHealth)
        ensures
            r == *self,
    {
        match self {
            VenueHealth::Healthy => VenueHealth::Healthy,
            VenueHealth::Degraded { reason } => VenueHealth::Degraded { reason: reason.clone() },
        }
    }
}

/// A [`VenueHealth`] with its reason as a character sequence.
pub ghost enum HealthView {
    Healthy,
    Degraded { reason: Seq<char> },
}

impl View for VenueHealth {
    type V = HealthView;

    open spec fn view(&self) -> HealthView {
        match *self {
            VenueHealth::Healthy => HealthView::Healthy,
            VenueHealth::Degraded { reason } => HealthView::Degraded { reason: reason@ },
        }
    }
}

impl Default for VenueHealth {
    fn default() -> (r: VenueHealth)
        ensures
            r == VenueHealth::Healthy,
    {
        VenueHealth::Healthy
    }
}

/// Readiness of the surroundings.
#[derive(Debug, PartialEq, Eq)]
pub struct AdmissionSeams {
    /// Health that the breaker published.
    pub venue_health: VenueHealth,
    /// Whether signing credentials are ready.
    pub credentials_ready: bool,
    /// Whether the exit monitor is scanning.
    pub exit_monitor_ready: bool,
}

/// Economic health of the route under the exact policy of an intent.
#[derive(Debug)]
pub enum AdmissionEconomicHealth {
    Missing,
    Present {
        route_economic_health_id: u128,
        evidence_hash: ContentHash,
        state: Ident,
        assessed_through: Timestamp,
        fresh: bool,
    },
}

impl AdmissionEconomicHealth {
    /// Identity of the evidence.
    pub fn evidence_id(&self) -> (r: Option<u128>)
        ensures
            r == (match *self {
                AdmissionEconomicHealth::Missing => None,
                AdmissionEconomicHealth::Present { route_economic_health_id, .. } => Some(
                    route_economic_health_id,
                ),
            }),
    {
        match self {
            AdmissionEconomicHealth::Missing => None,
            AdmissionEconomicHealth::Present { route_economic_health_id, .. } => Some(
                *route_economic_health_id,
            ),
        }
    }

    /// Hash of the evidence.
    pub fn evidence_hash(&self) -> (r: Option<ContentHash>)
        ensures
            r == (match *self {
                AdmissionEconomicHealth::Missing => None,
                AdmissionEconomicHealth::Present { evidence_hash, .. } => Some(evidence_hash),
            }),
    {
        match self {
            AdmissionEconomicHealth::Missing => None,
            AdmissionEconomicHealth::Present { evidence_hash, .. } => Some(*evidence_hash),
        }
    }

    /// State that was assessed.
    pub fn state(&self) -> (r: Option<Ident>)
        ensures
            r == (match *self {
                AdmissionEconomicHealth::Missing => None,
                AdmissionEconomicHealth::Present { state, .. } => Some(state),
            }),
    {
        match self {
            AdmissionEconomicHealth::Missing => None,
            AdmissionEconomicHealth::Present { state, .. } => Some(state.clone()),
        }
    }
}

/// Provenance of the state that a decision was made against.
#[derive(Debug)]
pub struct StateVersion {
    pub config_version_id: PolicySnapshotId,
    pub account_as_of: Timestamp,
    pub book_version: Option<u64>,
    pub book_as_of_ms: Option<u64>,
    pub fee_schedule_hash: ContentHash,
    pub maker_rebate_terms_hash: ContentHash,
    pub maker_rebate_decidable: bool,
    pub kill_switch_state: KillSwitchState,
    pub settlement_write_policy: Ident,
    pub settlement_deployment_digest: Option<ContentHash>,
    pub settlement_verified_block_hash: Option<ContentHash>,
    pub route_economic_health_id: Option<u128>,
    pub route_economic_health_hash: Option<ContentHash>,
    pub route_economic_health_state: Option<Ident>,
    /// Hash over venue metadata, funding and prepared order.
    pub admission_evidence_hash: ContentHash,
}

impl Clone for StateVersion {
    fn clone(&self) -> (r: StateVersion)
        ensures
            r == *self,
    {
        StateVersion {
            config_version_id: self.config_version_id,
            account_as_of: self.account_as_of,
            book_version: self.book_version,
            book_as_of_ms: self.book_as_of_ms,
            fee_schedule_hash: self.fee_schedule_hash,
            maker_rebate_terms_hash: self.maker_rebate_terms_hash,
            maker_rebate_decidable: self.maker_rebate_decidable,
            kill_switch_state: self.kill_switch_state,
            settlement_write_policy: self.settlement_write_policy.clone(),
            settlement_deployment_digest: self.settlement_deployment_digest,
            settlement_verified_block_hash: self.settlement_verified_block_hash,
            route_economic_health_id: self.route_economic_health_id,
            route_economic_health_hash: self.route_economic_health_hash,
            route_economic_health_state: crate::orders::clone_ident(
                &self.route_economic_health_state,
            ),
            admission_evidence_hash: self.admission_evidence_hash,
        }
    }
}

/// What governance says of the intent's model.
#[derive(Clone, Copy, Debug, PartialEq, Eq, Structural)]
pub struct AdmissionModelState {
    /// Whether the active route still authorizes the model.
    pub route_bound: bool,
    /// Whether the model's return model is calibrated now.
    pub return_model_calibrated: bool,
}

/// What blocks the intent's market or the account.
#[derive(Clone, Copy, Debug, PartialEq, Eq, Structural)]
pub struct AdmissionExposureState {
    /// Whether there is exposure whose truth is unknown.
    pub has_blocking_inflight: bool,
    /// Whether an operator blocked the market.
    pub manual_block: bool,
}

/// Status of a market in the catalog.
#[derive(Debug, PartialEq, Eq)]
pub enum MarketStatus {
    Active,
    ManuallyBlocked,
    /// Any other status, by its name.
    Other { name: String },
}

impl MarketStatus {
    /// How the status is written.
    pub open spec fn text(self) -> Seq<char> {
        match self {
            MarketStatus::Active => "active"@,
            MarketStatus::ManuallyBlocked => "manually_blocked"@,
            MarketStatus::Other { name } => name@,
        }
    }

    /// Writes the status out.
    pub fn to_text(&self) -> (r: String)
        ensures
            r@ == self.text(),
    {
        match self {
            MarketStatus::Active => "active".to_owned(),
            MarketStatus::ManuallyBlocked => "manually_blocked".to_owned(),
            MarketStatus::Other { name } => name.clone(),
        }
    }
}

/// What the report, the registry, the venue and the catalog say of a market.
#[derive(Debug)]
pub struct AdmissionVenueMetadata {
    pub catalog_market_id: MarketId,
    pub catalog_token_id: Option<TokenId>,
    pub frozen_version_id: u128,
    pub frozen_market_id: MarketId,
    pub frozen_token_id: Option<TokenId>,
    pub frozen_tick_size: TickSize,
    pub frozen_minimum_order_size: Shares,
    pub frozen_neg_risk: bool,
    pub frozen_payload_hash: ContentHash,
    pub current_version_id: u128,
    pub current_market_id: MarketId,
    pub current_token_id: Option<TokenId>,
    pub current_tick_size: TickSize,
    pub current_minimum_order_size: Shares,
    pub current_neg_risk: bool,
    pub current_payload_hash: ContentHash,
    pub live_market_id: MarketId,
    pub live_token_id: TokenId,
    pub live_tick_size: TickSize,
    pub live_minimum_order_size: Shares,
    pub live_neg_risk: bool,
    pub catalog_status: MarketStatus,
    /// Names of the reasons for which the catalog filters the market.
    pub catalog_filter_reasons: Vec<String>,
}

impl AdmissionVenueMetadata {
    /// Whether the catalog lets the market be traded.
    pub open spec fn tradeable(self) -> bool {
        self.catalog_status is Active && self.catalog_filter_reasons@.len() == 0
    }

    /// Whether every source speaks of one market.
    pub open spec fn of_market(self, market: Seq<char>) -> bool {
        &&& self.catalog_market_id@ == market
        &&& self.frozen_market_id@ == market
        &&& self.current_market_id@ == market
        &&& self.live_market_id@ == market
    }

    /// Whether every source knows the token.
    pub open spec fn of_token(self, token: TokenId) -> bool {
        &&& same_ident(self.catalog_token_id, Some(token))
        &&& same_ident(self.frozen_token_id, Some(token))
        &&& same_ident(self.current_token_id, Some(token))
        &&& self.live_token_id@ == token@
    }

    /// What is wrong with the metadata, if anything is: the first of the
    /// things that have to agree and do not.
    pub open spec fn defect(self, market: MarketId, token: TokenId) -> Option<Seq<char>> {
        if !self.tradeable() {
            Some(
                "current Gamma market is not tradeable: status="@ + self.catalog_status.text()
                    + ", reasons="@ + crate::text::joined(
                    crate::text::texts(self.catalog_filter_reasons@),
                    ","@,
                ),
            )
        } else if !self.of_market(market@) {
            Some(
                "catalog/frozen/current/live market mismatch: expected="@ + market@ + ", catalog="@
                    + self.catalog_market_id@ + ", frozen="@ + self.frozen_market_id@
                    + ", current="@ + self.current_market_id@ + ", live="@ + self.live_market_id@,
            )
        } else if !self.of_token(token) {
            Some(
                "catalog/frozen/current/live token mismatch: expected="@ + token@ + ", catalog="@
                    + crate::types::optional_ident_text(self.catalog_token_id) + ", frozen="@
                    + crate::types::optional_ident_text(self.frozen_token_id) + ", current="@
                    + crate::types::optional_ident_text(self.current_token_id) + ", live="@
                    + self.live_token_id@,
            )
        } else if self.frozen_payload_hash != self.current_payload_hash {
            Some(
                "report-time/current CLOB payload mismatch: frozen="@
                    + self.frozen_payload_hash.text() + ", current="@
                    + self.current_payload_hash.text(),
            )
        } else if self.frozen_tick_size != self.current_tick_size || self.current_tick_size
            != self.live_tick_size {
            Some(
                "frozen/current/live tick-size mismatch: frozen="@ + self.frozen_tick_size.text()
                    + ", current="@ + self.current_tick_size.text() + ", live="@
                    + self.live_tick_size.text(),
            )
        } else if self.frozen_minimum_order_size@ != self.current_minimum_order_size@
            || self.current_minimum_order_size@ != self.live_minimum_order_size@ {
            Some(
                "frozen/current/live order-minimum mismatch: frozen="@
                    + self.frozen_minimum_order_size.text() + ", current="@
                    + self.current_minimum_order_size.text() + ", live="@
                    + self.live_minimum_order_size.text(),
            )
        } else if self.frozen_neg_risk != self.current_neg_risk || self.current_neg_risk
            != self.live_neg_risk {
            Some(
                "frozen/current/live NegRisk mismatch: frozen="@ + crate::text::bool_text(
                    self.frozen_neg_risk,
                ) + ", current="@ + crate::text::bool_text(self.current_neg_risk) + ", live="@
                    + crate::text::bool_text(self.live_neg_risk),
            )
        } else {
            None
        }
    }

    /// Checks that report, registry, venue and catalog agree on the market, the
    /// token and every rule of the order book.
    pub fn validate(&self, expected_market: &MarketId, expected_token: &TokenId) -> (r: Result<
        (),
        String,
    >)
        ensures
            match r {
                Ok(_) => self.defect(*expected_market, *expected_token) is None,
                Err(defect) => self.defect(*expected_market, *expected_token) == Some(defect@),
            },
    {
        let active = match self.catalog_status {
            MarketStatus::Active => true,
            _ => false,
        };
        if !active || self.catalog_filter_reasons.len() != 0 {
            return Err(
                "current Gamma market is not tradeable: status=".to_owned().concat(
                    self.catalog_status.to_text().as_str(),
                ).concat(", reasons=").concat(join(&self.catalog_filter_reasons, ",").as_str()),
            );
        }
        if !self.catalog_market_id.same(expected_market) || !self.frozen_market_id.same(
            expected_market,
        ) || !self.current_market_id.same(expected_market) || !self.live_market_id.same(
            expected_market,
        ) {
            return Err(
                "catalog/frozen/current/live market mismatch: expected=".to_owned().concat(
                    expected_market.text.as_str(),
                ).concat(", catalog=").concat(self.catalog_market_id.text.as_str()).concat(
                    ", frozen=",
                ).concat(self.frozen_market_id.text.as_str()).concat(", current=").concat(
                    self.current_market_id.text.as_str(),
                ).concat(", live=").concat(self.live_market_id.text.as_str()),
            );
        }
        if !is_token(&self.catalog_token_id, expected_token) || !is_token(
            &self.frozen_token_id,
            expected_token,
        ) || !is_token(&self.current_token_id, expected_token) || !self.live_token_id.same(
            expected_token,
        ) {
            return Err(
                "catalog/frozen/current/live token mismatch: expected=".to_owned().concat(
                    expected_token.text.as_str(),
                ).concat(", catalog=").concat(
                    write_optional_ident(&self.catalog_token_id).as_str(),
                ).concat(", frozen=").concat(
                    write_optional_ident(&self.frozen_token_id).as_str(),
                ).concat(", current=").concat(
                    write_optional_ident(&self.current_token_id).as_str(),
                ).concat(", live=").concat(self.live_token_id.text.as_str()),
            );
        }
        if self.frozen_payload_hash != self.current_payload_hash {
            return Err(
                "report-time/current CLOB payload mismatch: frozen=".to_owned().concat(
                    self.frozen_payload_hash.to_text().as_str(),
                ).concat(", current=").concat(self.current_payload_hash.to_text().as_str()),
            );
        }
        if self.frozen_tick_size != self.current_tick_size || self.current_tick_size
            != self.live_tick_size {
            return Err(
                "frozen/current/live tick-size mismatch: frozen=".to_owned().concat(
                    self.frozen_tick_size.as_str(),
                ).concat(", current=").concat(self.current_tick_size.as_str()).concat(
                    ", live=",
                ).concat(self.live_tick_size.as_str()),
            );
        }
        if !self.frozen_minimum_order_size.same(self.current_minimum_order_size)
            || !self.current_minimum_order_size.same(self.live_minimum_order_size) {
            return Err(
                "frozen/current/live order-minimum mismatch: frozen=".to_owned().concat(
                    self.frozen_minimum_order_size.to_text().as_str(),
                ).concat(", current=").concat(
                    self.current_minimum_order_size.to_text().as_str(),
                ).concat(", live=").concat(self.live_minimum_order_size.to_text().as_str()),
            );
        }
        if self.frozen_neg_risk != self.current_neg_risk || self.current_neg_risk
            != self.live_neg_risk {
            return Err(
                "frozen/current/live NegRisk mismatch: frozen=".to_owned().concat(
                    write_bool(self.frozen_neg_risk),
                ).concat(", current=").concat(write_bool(self.current_neg_risk)).concat(
                    ", live=",
                ).concat(write_bool(self.live_neg_risk)),
            );
        }
        Ok(())
    }
}

fn is_token(id: &Option<TokenId>, token: &TokenId) -> (r: bool)
    ensures
        r == same_ident(*id, Some(*token)),
{
    match id {
        Some(id) => id.same(token),
        None => false,
    }
}

/// Metadata passes exactly where the catalog lets the market be traded and the
/// four sources agree on everything.
pub proof fn valid_metadata_agrees(metadata: AdmissionVenueMetadata, market: MarketId, token: TokenId)
    ensures
        metadata.defect(market, token) is None <==> {
            &&& metadata.tradeable()
            &&& metadata.of_market(market@)
            &&& metadata.of_token(token)
            &&& metadata.frozen_payload_hash == metadata.current_payload_hash
            &&& metadata.frozen_tick_size == metadata.current_tick_size
            &&& metadata.current_tick_size == metadata.live_tick_size
            &&& metadata.frozen_minimum_order_size@ == metadata.current_minimum_order_size@
            &&& metadata.current_minimum_order_size@ == metadata.live_minimum_order_size@
            &&& metadata.frozen_neg_risk == metadata.current_neg_risk
            &&& metadata.current_neg_risk == metadata.live_neg_risk
        },
{
}

/// Exposure under one key.
#[derive(Debug)]
pub struct ExposureEntry {
    pub key: Ident,
    pub usd: Usd,
}

/// The venue account at decision time.
#[derive(Debug)]
pub struct AccountSnapshot {
    pub available_usd: Usd,
    pub reserved_usd: Usd,
    pub per_market: Vec<ExposureEntry>,
    pub per_event: Vec<ExposureEntry>,
    pub per_category: Vec<ExposureEntry>,
    pub as_of: Timestamp,
}

/// Freshness of the market data.
#[derive(Clone, Copy, Debug, PartialEq, Eq, Structural)]
pub struct DataQualitySnapshot {
    pub total_tokens: u64,
    pub insufficient: u64,
    pub stale: u64,
    pub ingest_lag_exceeded: bool,
    pub max_ingest_lag_ms: u64,
    pub worst_ingest_lag_ms: u64,
}

/// Whether a promised automatic resolution exit can be kept.
#[derive(Debug)]
pub enum SettlementRecoveryAdmission {
    NotRequired,
    Ready { route: Ident, deployment_digest: ContentHash, verified_block_hash: ContentHash },
    Blocked { reason: String },
}

impl SettlementRecoveryAdmission {
    /// Digest of the deployment that the evidence speaks of.
    pub fn deployment_digest(&self) -> (r: Option<ContentHash>)
        ensures
            r == (match *self {
                SettlementRecoveryAdmission::Ready { deployment_digest, .. } => Some(
                    deployment_digest,
                ),
                _ => None,
            }),
    {
        match self {
            SettlementRecoveryAdmission::Ready { deployment_digest, .. } => Some(
                *deployment_digest,
            ),
            _ => None,
        }
    }

    /// Block at which the evidence was verified.
    pub fn verified_block_hash(&self) -> (r: Option<ContentHash>)
        ensures
            r == (match *self {
                SettlementRecoveryAdmission::Ready { verified_block_hash, .. } => Some(
                    verified_block_hash,
                ),
                _ => None,
            }),
    {
        match self {
            SettlementRecoveryAdmission::Ready { verified_block_hash, .. } => Some(
                *verified_block_hash,
            ),
            _ => None,
        }
    }
}

/// The condition instance behind an intent.
#[derive(Clone, Copy, Debug)]
pub struct ConditionInstance {
    pub condition_instance_id: u128,
    pub recommendation_id: RecommendationId,
    pub artifact_id: u128,
    pub artifact_hash: ContentHash,
    pub state: EntryConditionState,
    pub revision: i64,
    pub evaluation_hash: Option<ContentHash>,
    pub input_fingerprint: Option<ContentHash>,
    pub continuity_hash: Option<ContentHash>,
}

/// Everything that admission rests on, frozen at decision time.
#[derive(Debug)]
pub struct AdmissionInput {
    pub profile_ref: Ident,
    pub intent: OrderIntentInfo,
    pub condition: ConditionInstance,
    pub recommendation: RecommendationInfo,
    /// Entry plan of the recommendation.
    pub entry: EntryPlan,
    /// Risk envelope of the recommendation.
    pub risk_envelope: RiskEnvelope,
    /// Hash computed anew over the risk envelope, or why it could not be.
    pub recomputed_envelope_hash: Result<ContentHash, String>,
    pub report: RecommendationReportInfo,
    pub mode: QuantRuntimeMode,
    pub kill_switch: KillSwitchState,
    pub account: AccountSnapshot,
    /// Capital that this intent itself has reserved.
    pub allocated_usd: Option<Usd>,
    pub book: Option<BookSnapshot>,
    /// Walk of the entry through the asks; `None` where it could not be made.
    pub entry_walk: Option<BookWalkFill>,
    /// Walk of the minimum depth through the asks; `None` where it failed.
    pub depth_walk: Option<BookWalkFill>,
    /// Spread of the entry's average price over the best ask, if it has one.
    pub slippage: Option<Bps>,
    pub fee_schedule: PitFeeSchedule,
    pub maker_rebate_evidence: PitMakerRebateEvidence,
    pub budget_total_usd: Usd,
    pub open_intent_count: u64,
    pub max_open_intents: u32,
    pub max_reserved_usd: Usd,
    pub model_state: AdmissionModelState,
    pub economic_health: AdmissionEconomicHealth,
    pub data_quality: DataQualitySnapshot,
    pub max_stale_book_ratio_bps: u64,
    pub exposure: AdmissionExposureState,
    pub venue_metadata: AdmissionVenueMetadata,
    pub prepared_order: PreparedVenueOrder,
    pub venue_funding: VenueFundingEvidence,
    pub seams: AdmissionSeams,
    pub settlement_recovery: SettlementRecoveryAdmission,
    pub now: Timestamp,
    pub now_ms: u64,
    pub state_version: StateVersion,
}

impl AdmissionInput {
    /// Money that the prepared order commits before fees.
    pub open spec fn spec_notional(self) -> Option<Usd> {
        match self.prepared_order.venue_amount {
            VenueOrderAmount::PrincipalUsd(principal) => Some(principal),
            VenueOrderAmount::Shares(shares) => shares.product(self.prepared_order.limit_price),
        }
    }

    /// Money that the prepared order commits before fees; `None` where it is
    /// not representable.
    pub fn order_notional(&self) -> (r: Option<Usd>)
        ensures
            r == self.spec_notional(),
    {
        match self.prepared_order.venue_amount {
            VenueOrderAmount::PrincipalUsd(principal) => Some(principal),
            VenueOrderAmount::Shares(shares) => shares.checked_mul(self.prepared_order.limit_price),
        }
    }
}

/// Verdict of a check and of admission as a whole.
#[derive(Clone, Copy, Debug, PartialEq, Eq, Structural)]
pub enum AdmissionOutcome {
    /// Passed.
    Allow,
    /// A hard violation.
    Deny,
    /// Not now, but perhaps later.
    Defer,
}

/// Identity of a check.
#[derive(Clone, Copy, Debug, PartialEq, Eq, Structural)]
pub enum AdmissionCheckId {
    IntentState,
    RecommendationFreshness,
    ReportStatus,
    RuntimeMode,
    SettlementRecovery,
    ModelRouteBinding,
    DataQuality,
    BookFreshness,
    VenueMetadata,
    EntryConditionPlan,
    RiskEnvelopeHash,
    CapitalBudget,
    MaxOpenIntents,
    MaxReservedCapital,
    MarketExposure,
    EventExposure,
    CategoryExposure,
    LiquidityDepth,
    Slippage,
    ManualBlock,
    KillSwitch,
    VenueGuard,
    CredentialReadiness,
    ExitMonitorReadiness,
    CalibratedReturnModel,
}

impl AdmissionCheckId {
    /// Label of the check.
    pub open spec fn text(self) -> Seq<char> {
        match self {
            AdmissionCheckId::IntentState => "intent_state"@,
            AdmissionCheckId::RecommendationFreshness => "recommendation_freshness"@,
            AdmissionCheckId::ReportStatus => "report_status"@,
            AdmissionCheckId::RuntimeMode => "runtime_mode"@,
            AdmissionCheckId::SettlementRecovery => "settlement_recovery"@,
            AdmissionCheckId::ModelRouteBinding => "model_route_binding"@,
            AdmissionCheckId::DataQuality => "data_quality"@,
            AdmissionCheckId::BookFreshness => "book_freshness"@,
            AdmissionCheckId::VenueMetadata => "venue_metadata"@,
            AdmissionCheckId::EntryConditionPlan => "entry_condition_plan"@,
            AdmissionCheckId::RiskEnvelopeHash => "risk_envelope_hash"@,
            AdmissionCheckId::CapitalBudget => "capital_budget"@,
            AdmissionCheckId::MaxOpenIntents => "max_open_intents"@,
            AdmissionCheckId::MaxReservedCapital => "max_reserved_capital"@,
            AdmissionCheckId::MarketExposure => "market_exposure"@,
            AdmissionCheckId::EventExposure => "event_exposure"@,
            AdmissionCheckId::CategoryExposure => "category_exposure"@,
            AdmissionCheckId::LiquidityDepth => "liquidity_depth"@,
            AdmissionCheckId::Slippage => "slippage"@,
            AdmissionCheckId::ManualBlock => "manual_block"@,
            AdmissionCheckId::KillSwitch => "kill_switch"@,
            AdmissionCheckId::VenueGuard => "venue_guard"@,
            AdmissionCheckId::CredentialReadiness => "credential_readiness"@,
            AdmissionCheckId::ExitMonitorReadiness => "exit_monitor_readiness"@,
            AdmissionCheckId::CalibratedReturnModel => "calibrated_return_model"@,
        }
    }

    /// Label of the check.
    pub fn as_str(self) -> (r: &'static str)
        ensures
            r@ == self.text(),
    {
        match self {
            AdmissionCheckId::IntentState => "intent_state",
            AdmissionCheckId::RecommendationFreshness => "recommendation_freshness",
            AdmissionCheckId::ReportStatus => "report_status",
            AdmissionCheckId::RuntimeMode => "runtime_mode",
            AdmissionCheckId::SettlementRecovery => "settlement_recovery",
            AdmissionCheckId::ModelRouteBinding => "model_route_binding",
            AdmissionCheckId::DataQuality => "data_quality",
            AdmissionCheckId::BookFreshness => "book_freshness",
            AdmissionCheckId::VenueMetadata => "venue_metadata",
            AdmissionCheckId::EntryConditionPlan => "entry_condition_plan",
            AdmissionCheckId::RiskEnvelopeHash => "risk_envelope_hash",
            AdmissionCheckId::CapitalBudget => "capital_budget",
            AdmissionCheckId::MaxOpenIntents => "max_open_intents",
            AdmissionCheckId::MaxReservedCapital => "max_reserved_capital",
            AdmissionCheckId::MarketExposure => "market_exposure",
            AdmissionCheckId::EventExposure => "event_exposure",
            AdmissionCheckId::CategoryExposure => "category_exposure",
            AdmissionCheckId::LiquidityDepth => "liquidity_depth",
            AdmissionCheckId::Slippage => "slippage",
            AdmissionCheckId::ManualBlock => "manual_block",
            AdmissionCheckId::KillSwitch => "kill_switch",
            AdmissionCheckId::VenueGuard => "venue_guard",
            AdmissionCheckId::CredentialReadiness => "credential_readiness",
            AdmissionCheckId::ExitMonitorReadiness => "exit_monitor_readiness",
            AdmissionCheckId::CalibratedReturnModel => "calibrated_return_model",
        }
    }
}

/// What one check found.
#[derive(Debug, PartialEq, Eq)]
pub struct AdmissionCheckTrace {
    pub check: AdmissionCheckId,
    pub outcome: AdmissionOutcome,
    pub threshold: Option<String>,
    pub actual: Option<String>,
    pub elapsed_us: u64,
    pub detail: String,
}

/// An [`AdmissionCheckTrace`] with its texts as character sequences.
pub ghost struct TraceView {
    pub check: AdmissionCheckId,
    pub outcome: AdmissionOutcome,
    pub threshold: Option<Seq<char>>,
    pub actual: Option<Seq<char>>,
    pub elapsed_us: u64,
    pub detail: Seq<char>,
}

impl TraceView {
    /// A trace without figures.
    pub open spec fn plain(
        check: AdmissionCheckId,
        outcome: AdmissionOutcome,
        detail: Seq<char>,
    ) -> TraceView {
        TraceView { check, outcome, threshold: None, actual: None, elapsed_us: 0, detail }
    }

    /// The trace with the limit and the figure that was held against it.
    pub open spec fn with(self, threshold: Seq<char>, actual: Seq<char>) -> TraceView {
        TraceView { threshold: Some(threshold), actual: Some(actual), ..self }
    }

    /// The trace with the figure that was found.
    pub open spec fn found(self, actual: Seq<char>) -> TraceView {
        TraceView { actual: Some(actual), ..self }
    }
}

impl View for AdmissionCheckTrace {
    type V = TraceView;

    open spec fn view(&self) -> TraceView {
        TraceView {
            check: self.check,
            outcome: self.outcome,
            threshold: crate::orders::text_of(self.threshold),
            actual: crate::orders::text_of(self.actual),
            elapsed_us: self.elapsed_us,
            detail: self.detail@,
        }
    }
}

impl AdmissionCheckTrace {
    pub(crate) fn new(check: AdmissionCheckId, outcome: AdmissionOutcome, detail: &str) -> (r:
        AdmissionCheckTrace)
        ensures
            r@ == TraceView::plain(check, outcome, detail@),
    {
        AdmissionCheckTrace {
            check,
            outcome,
            threshold: None,
            actual: None,
            elapsed_us: 0,
            detail: detail.to_owned(),
        }
    }

    /// A passing trace.
    pub(crate) fn pass(check: AdmissionCheckId, detail: &str) -> (r: AdmissionCheckTrace)
        ensures
            r@ == TraceView::plain(check, AdmissionOutcome::Allow, detail@),
    {
        Self::new(check, AdmissionOutcome::Allow, detail)
    }

    /// A trace of a hard violation.
    pub(crate) fn deny(check: AdmissionCheckId, detail: &str) -> (r: AdmissionCheckTrace)
        ensures
            r@ == TraceView::plain(check, AdmissionOutcome::Deny, detail@),
    {
        Self::new(check, AdmissionOutcome::Deny, detail)
    }

    /// A trace of something that may pass later.
    pub(crate) fn defer(check: AdmissionCheckId, detail: &str) -> (r: AdmissionCheckTrace)
        ensures
            r@ == TraceView::plain(check, AdmissionOutcome::Defer, detail@),
    {
        Self::new(check, AdmissionOutcome::Defer, detail)
    }

    /// The trace with the limit and the figure that was held against it.
    pub(crate) fn with(self, threshold: String, actual: String) -> (r: AdmissionCheckTrace)
        ensures
            r@ == self@.with(threshold@, actual@),
    {
        AdmissionCheckTrace {
            check: self.check,
            outcome: self.outcome,
            threshold: Some(threshold),
            actual: Some(actual),
            elapsed_us: self.elapsed_us,
            detail: self.detail,
        }
    }

    /// The trace with the figure that was found.
    pub(crate) fn found(self, actual: String) -> (r: AdmissionCheckTrace)
        ensures
            r@ == self@.found(actual@),
    {
        AdmissionCheckTrace {
            check: self.check,
            outcome: self.outcome,
            threshold: self.threshold,
            actual: Some(actual),
            elapsed_us: self.elapsed_us,
            detail: self.detail,
        }
    }
}

} // verus!
