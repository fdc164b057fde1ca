//! The periodic probe of the venue.
//!
//! A live runtime probes the venue at a fixed interval, tells the risk engine
//! how it went, and stops execution where a failed probe has closed trading.
use vstd::prelude::*;

use crate::alerts::{AlertCategory, AlertLevel, AlertSource, AlertView, OperatorAlert};
use crate::execution_pipeline::{EmergencyClass, ExecutionMode};
use crate::time::Timestamp;

verus! {

/// The interval of the probe: at least one second.
pub fn probe_interval(interval_secs: u64) -> (r: u64)
    ensures
        r == (if interval_secs < 1 {
            1
        } else {
            interval_secs
        }),
{
    if interval_secs < 1 {
        1
    } else {
        interval_secs
    }
}

/// Whether a tick of the clock probes the venue.
pub fn probes(mode: ExecutionMode) -> (r: bool)
    ensures
        r == (mode == ExecutionMode::Live),
{
    mode == ExecutionMode::Live
}

/// What the risk engine is told of a probe.
#[derive(Clone, Copy, Debug, PartialEq, Eq, Structural)]
pub enum HeartbeatEvent {
    Success,
    Failure,
}

/// What the risk engine is told of a probe.
pub fn probe_event(succeeded: bool) -> (r: HeartbeatEvent)
    ensures
        r == (if succeeded {
            HeartbeatEvent::Success
        } else {
            HeartbeatEvent::Failure
        }),
{
    if succeeded {
        HeartbeatEvent::Success
    } else {
        HeartbeatEvent::Failure
    }
}

/// What follows once the risk engine knows of a probe.
#[derive(Clone, Copy, Debug, PartialEq, Eq)]
pub enum HeartbeatAction {
    /// See whether execution can leave its emergency.
    TryRecover,
    /// Stop execution for good.
    EnterEmergency { class: EmergencyClass, reason: &'static str },
    Nothing,
}

/// A success tries to recover; a failure stops execution where it has closed
/// trading and no emergency is on yet.
pub fn after_probe(succeeded: bool, allows_trading: bool, in_emergency: bool) -> (r: HeartbeatAction)
    ensures
        r is TryRecover <==> succeeded,
        r is EnterEmergency <==> !succeeded && !allows_trading && !in_emergency,
        r matches HeartbeatAction::EnterEmergency { class, reason } ==> class
            == EmergencyClass::VenueFault && reason@ == "risk circuit breaker blocking trades"@,
{
    if succeeded {
        HeartbeatAction::TryRecover
    } else if !allows_trading && !in_emergency {
        HeartbeatAction::EnterEmergency {
            class: EmergencyClass::VenueFault,
            reason: "risk circuit breaker blocking trades",
        }
    } else {
        HeartbeatAction::Nothing
    }
}

/// The notice that live trading runs without published control factors: a
/// warning for the operators, repeated at most once an hour.
pub open spec fn publication_notice(now: Timestamp) -> AlertView {
    AlertView {
        key: "control_factor.no_publication_live"@,
        level: AlertLevel::Warning,
        category: AlertCategory::OperatorNotice,
        source: AlertSource::System,
        title: "Live mode without an active control-factor publication"@,
        message:
            "Trading continues under neutral-pass factor checks — publish a control-factor snapshot for governed Live tuning"@,
        raised_at: now,
        affects_trading: Some(false),
        dedupe_secs: Some(3600),
    }
}

/// The gauge of an active publication, and the notice where there is none.
pub fn warn_live_without_publication(active: bool, now: Timestamp) -> (r: (
    i64,
    Option<OperatorAlert>,
))
    ensures
        r.0 == (if active {
            1i64
        } else {
            0i64
        }),
        r.1 is Some <==> !active,
        r.1 matches Some(notice) ==> notice@ == publication_notice(now),
{
    if active {
        return (1, None);
    }
    let notice = OperatorAlert {
        key: "control_factor.no_publication_live".to_owned(),
        level: AlertLevel::Warning,
        category: AlertCategory::OperatorNotice,
        source: AlertSource::System,
        title: "Live mode without an active control-factor publication".to_owned(),
        message:
            "Trading continues under neutral-pass factor checks — publish a control-factor snapshot for governed Live tuning".to_owned(),
        raised_at: now,
        affects_trading: Some(false),
        dedupe_secs: Some(3600),
    };
    (0, Some(notice))
}

} // verus!
