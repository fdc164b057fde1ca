//! Recommendations, their trade plans and the intents made from them.
use vstd::prelude::*;

use crate::decimal::{Bps, Decimal, Price, Shares, Usd};
use crate::entry_trigger::EntryTrigger;
use crate::orders::{EntryMakerRebateTerms, EntryOrderSpec, OrderIntentStatus};
use crate::time::Timestamp;
use crate::types::{
    ContentHash, EventId, ExecutionAccountId, FillRequirement, Ident, MarketId, ModelVersionId,
    OrderIntentId, OutcomeSide, PolicySnapshotId, RecommendationId, RecommendationReportId, TokenId,
};

verus! {

/// Operational kill switch, from least to most restrictive.
#[derive(Clone, Copy, Debug, PartialEq, Eq, Structural)]
pub enum KillSwitchState {
    /// Normal operation.
    Closed,
    /// No new entries; exits go on.
    ExitOnly,
    /// No new entries and no automatic exits.
    ExecutionHalted,
    /// Positions are handled by the emergency policy.
    EmergencyHalt,
}

impl KillSwitchState {
    /// Position on the scale of restriction.
    pub open spec fn rank(self) -> int {
        match self {
            KillSwitchState::Closed => 0,
            KillSwitchState::ExitOnly => 1,
            KillSwitchState::ExecutionHalted => 2,
            KillSwitchState::EmergencyHalt => 3,
        }
    }

    /// Position on the scale of restriction.
    pub fn restriction_rank(self) -> (r: u8)
        ensures
            r == self.rank(),
    {
        match self {
            KillSwitchState::Closed => 0,
            KillSwitchState::ExitOnly => 1,
            KillSwitchState::ExecutionHalted => 2,
            KillSwitchState::EmergencyHalt => 3,
        }
    }

    /// Whether new entries are admitted.
    pub open spec fn spec_allows_new_entry(self) -> bool {
        self == KillSwitchState::Closed
    }

    /// Whether new entries are admitted.
    pub fn allows_new_entry(self) -> (r: bool)
        ensures
            r == self.spec_allows_new_entry(),
    {
        self == KillSwitchState::Closed
    }

    /// Whether exits may be submitted without an operator.
    pub open spec fn spec_allows_auto_exit(self) -> bool {
        self == KillSwitchState::Closed || self == KillSwitchState::ExitOnly
    }

    /// Whether exits may be submitted without an operator.
    pub fn allows_auto_exit(self) -> (r: bool)
        ensures
            r == self.spec_allows_auto_exit(),
    {
        self == KillSwitchState::Closed || self == KillSwitchState::ExitOnly
    }

    /// Whether the emergency policy takes over.
    pub open spec fn spec_requires_emergency_exit(self) -> bool {
        self == KillSwitchState::EmergencyHalt
    }

    /// Whether the emergency policy takes over.
    pub fn requires_emergency_exit(self) -> (r: bool)
        ensures
            r == self.spec_requires_emergency_exit(),
    {
        self == KillSwitchState::EmergencyHalt
    }

    /// How the state is written.
    pub open spec fn text(self) -> Seq<char> {
        match self {
            KillSwitchState::Closed => "closed"@,
            KillSwitchState::ExitOnly => "exit_only"@,
            KillSwitchState::ExecutionHalted => "execution_halted"@,
            KillSwitchState::EmergencyHalt => "emergency_halt"@,
        }
    }

    /// Writes the state out.
    pub fn as_str(self) -> (r: &'static str)
        ensures
            r@ == self.text(),
    {
        match self {
            KillSwitchState::Closed => "closed",
            KillSwitchState::ExitOnly => "exit_only",
            KillSwitchState::ExecutionHalted => "execution_halted",
            KillSwitchState::EmergencyHalt => "emergency_halt",
        }
    }
}

/// Command that moves the kill switch.
#[derive(Debug)]
pub struct SetKillSwitchCommand {
    pub expected_revision: i64,
    pub target: KillSwitchState,
    pub actor: String,
    pub reason: String,
    pub ack: bool,
    pub latch: bool,
}

/// How far the runtime may act on its own.
#[derive(Clone, Copy, Debug, PartialEq, Eq, Structural)]
pub enum QuantRuntimeMode {
    ReportOnly,
    SemiAuto,
    AutoExecution,
}

/// Status of a recommendation report.
#[derive(Clone, Copy, Debug, PartialEq, Eq, Structural)]
pub enum RecommendationReportStatus {
    Draft,
    Published,
    Revoked,
    Expired,
}

impl RecommendationReportStatus {
    /// How the status is written.
    pub open spec fn text(self) -> Seq<char> {
        match self {
            RecommendationReportStatus::Draft => "draft"@,
            RecommendationReportStatus::Published => "published"@,
            RecommendationReportStatus::Revoked => "revoked"@,
            RecommendationReportStatus::Expired => "expired"@,
        }
    }

    /// Writes the status out.
    pub fn as_str(self) -> (r: &'static str)
        ensures
            r@ == self.text(),
    {
        match self {
            RecommendationReportStatus::Draft => "draft",
            RecommendationReportStatus::Published => "published",
            RecommendationReportStatus::Revoked => "revoked",
            RecommendationReportStatus::Expired => "expired",
        }
    }
}

/// A report that recommendations come from.
#[derive(Clone, Copy, Debug)]
pub struct RecommendationReportInfo {
    pub recommendation_report_id: RecommendationReportId,
    pub status: RecommendationReportStatus,
    pub runtime_config_version_id: PolicySnapshotId,
    pub model_version_id: ModelVersionId,
    pub decision_at: Timestamp,
    pub created_at: Timestamp,
}

/// How an entry goes to the venue.
#[derive(Clone, Copy, Debug)]
pub enum EntryOrderPolicy {
    /// Takes liquidity up to a worst price.
    Aggressive { worst_price: Price, fill_requirement: FillRequirement },
    /// Rests at a limit.
    Passive { limit_price: Price, post_only: bool },
}

/// When and how to enter.
#[derive(Clone, Copy, Debug)]
pub struct EntryPlan {
    pub order_policy: EntryOrderPolicy,
    pub trigger: EntryTrigger,
    pub max_slippage_bps: Bps,
    pub valid_from: Timestamp,
    pub valid_until: Timestamp,
    pub max_book_age_ms: u64,
    pub min_depth_usd: Usd,
    pub maker_rebate_terms: EntryMakerRebateTerms,
}

/// How much to buy.
#[derive(Clone, Copy, Debug)]
pub struct SizingPlan {
    pub suggested_usd: Usd,
    pub suggested_shares: Shares,
}

/// Whether a position is sold or held to settlement.
#[derive(Clone, Copy, Debug, PartialEq, Eq, Structural)]
pub enum ExitSettlementMode {
    ExitBeforeResolution,
    HoldToResolution,
}

/// Who redeems a settled position.
#[derive(Clone, Copy, Debug, PartialEq, Eq, Structural)]
pub enum RedeemPolicy {
    Manual,
    Auto,
}

/// One step of a scaled exit.
#[derive(Debug)]
pub struct ScaleOutTarget {
    pub target_id: Ident,
    pub target_cumulative_exit_pct: Decimal,
    pub trigger_price: Option<Price>,
}

impl Clone for ScaleOutTarget {
    fn clone(&self) -> (r: ScaleOutTarget)
        ensures
            r == *self,
    {
        ScaleOutTarget {
            target_id: self.target_id.clone(),
            target_cumulative_exit_pct: self.target_cumulative_exit_pct,
            trigger_price: self.trigger_price,
        }
    }
}

/// When and how to leave.
#[derive(Debug)]
pub struct ExitPlan {
    pub take_profit_price: Option<Price>,
    pub take_profit_pct: Option<Decimal>,
    pub stop_loss_price: Option<Price>,
    pub stop_loss_pct: Option<Decimal>,
    pub time_exit_at: Option<Timestamp>,
    pub max_hold_secs: Option<u64>,
    pub trailing_stop: Option<Ident>,
    pub thesis_invalidation: Option<Ident>,
    pub scale_out_targets: Vec<ScaleOutTarget>,
    pub settlement_mode: ExitSettlementMode,
    pub redeem_policy: RedeemPolicy,
    pub manual_review_at: Option<Timestamp>,
}

/// Exit contract frozen on an intent.
#[derive(Debug)]
pub struct ExitPolicySpec {
    pub take_profit_price: Option<Price>,
    pub take_profit_pct: Option<Decimal>,
    pub stop_loss_price: Option<Price>,
    pub stop_loss_pct: Option<Decimal>,
    pub time_exit_at: Option<Timestamp>,
    pub max_hold_secs: Option<u64>,
    pub trailing_stop: Option<Ident>,
    pub thesis_invalidation: Option<Ident>,
    pub scale_out_targets: Vec<ScaleOutTarget>,
    pub settlement_mode: ExitSettlementMode,
    pub redeem_policy: RedeemPolicy,
    pub manual_review_at: Option<Timestamp>,
    pub entry_reference_price: Price,
    pub entry_composite_score: Decimal,
}

/// Exposure limits that a recommendation was made under.
#[derive(Clone, Copy, Debug)]
pub struct RiskEnvelope {
    pub max_market_exposure_usd: Usd,
    pub max_event_exposure_usd: Usd,
    pub max_category_exposure_usd: Usd,
    pub envelope_hash: ContentHash,
}

/// The parts of a trade plan that are frozen together.
#[derive(Debug)]
pub struct FrozenTradePlan {
    pub entry: EntryPlan,
    pub sizing: SizingPlan,
    pub exit: ExitPlan,
    pub risk_envelope: RiskEnvelope,
}

/// Status of a recommendation.
#[derive(Clone, Copy, Debug, PartialEq, Eq, Structural)]
pub enum RecommendationStatus {
    Active,
    Consumed,
    Expired,
    Revoked,
}

impl RecommendationStatus {
    /// Whether an intent may be made from the recommendation.
    pub open spec fn spec_actionable(self) -> bool {
        self == RecommendationStatus::Active
    }

    /// Whether an intent may be made from the recommendation.
    pub fn is_actionable_for_intent(self) -> (r: bool)
        ensures
            r == self.spec_actionable(),
    {
        self == RecommendationStatus::Active
    }

    /// How the status is written.
    pub open spec fn text(self) -> Seq<char> {
        match self {
            RecommendationStatus::Active => "active"@,
            RecommendationStatus::Consumed => "consumed"@,
            RecommendationStatus::Expired => "expired"@,
            RecommendationStatus::Revoked => "revoked"@,
        }
    }

    /// Writes the status out.
    pub fn as_str(self) -> (r: &'static str)
        ensures
            r@ == self.text(),
    {
        match self {
            RecommendationStatus::Active => "active",
            RecommendationStatus::Consumed => "consumed",
            RecommendationStatus::Expired => "expired",
            RecommendationStatus::Revoked => "revoked",
        }
    }
}

/// A recommendation.
#[derive(Debug)]
pub struct RecommendationInfo {
    pub recommendation_id: RecommendationId,
    pub recommendation_report_id: RecommendationReportId,
    pub status: RecommendationStatus,
    pub market_id: MarketId,
    pub event_id: EventId,
    pub token_id: TokenId,
    pub category: Ident,
    pub outcome_side: OutcomeSide,
    pub valid_until: Timestamp,
    pub composite_score: Decimal,
    pub model_version_id: ModelVersionId,
    /// `None` where the plan could not be frozen.
    pub trade_plan: Option<FrozenTradePlan>,
}

/// Progress of the exit of a position.
#[derive(Clone, Copy, Debug, PartialEq, Eq, Structural)]
pub enum ExitState {
    NotStarted,
    Monitoring,
    Triggered,
    OrderSubmitted,
    PartiallyExited,
    ManualRequired,
    Exited,
    Failed,
}

/// An order intent, as far as dispatching it needs.
#[derive(Debug)]
pub struct OrderIntentInfo {
    pub order_intent_id: OrderIntentId,
    pub recommendation_id: RecommendationId,
    pub condition_instance_id: u128,
    pub execution_account_id: ExecutionAccountId,
    pub model_version_id: ModelVersionId,
    pub profile_ref: Ident,
    pub status: OrderIntentStatus,
    pub entry_order: EntryOrderSpec,
    pub exit_policy: ExitPolicySpec,
    pub risk_envelope_hash: ContentHash,
    pub expires_at: Timestamp,
}

} // verus!
