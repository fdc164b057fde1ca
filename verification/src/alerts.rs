//! Notices to the operators.
use vstd::prelude::*;

use crate::time::Timestamp;

verus! {

/// How urgent a notice is.
#[derive(Clone, Copy, Debug, PartialEq, Eq, Structural)]
pub enum AlertLevel {
    Warning,
    Critical,
}

/// What a notice is about.
#[derive(Clone, Copy, Debug, PartialEq, Eq, Structural)]
pub enum AlertCategory {
    /// Money may be at risk.
    TradingSafety,
    /// Something that an operator should know.
    OperatorNotice,
}

/// Which part of the system a notice comes from.
#[derive(Clone, Copy, Debug, PartialEq, Eq, Structural)]
pub enum AlertSource {
    Execution,
    System,
}

/// A notice to the operators.
#[derive(Debug, PartialEq, Eq)]
pub struct OperatorAlert {
    pub key: String,
    pub level: AlertLevel,
    pub category: AlertCategory,
    pub source: AlertSource,
    pub title: String,
    pub message: String,
    pub raised_at: Timestamp,
    /// Whether trading is affected; `None` where the notice does not say.
    pub affects_trading: Option<bool>,
    /// For how long the notice is not repeated, in seconds; `None` where the
    /// notice does not say.
    pub dedupe_secs: Option<u64>,
}

/// An [`OperatorAlert`] with its texts as character sequences.
#[verifier::ext_equal]
pub ghost struct AlertView {
    pub key: Seq<char>,
    pub level: AlertLevel,
    pub category: AlertCategory,
    pub source: AlertSource,
    pub title: Seq<char>,
    pub message: Seq<char>,
    pub raised_at: Timestamp,
    pub affects_trading: Option<bool>,
    pub dedupe_secs: Option<u64>,
}

impl View for OperatorAlert {
    type V = AlertView;

    open spec fn view(&self) -> AlertView {
        AlertView {
            key: self.key@,
            level: self.level,
            category: self.category,
            source: self.source,
            title: self.title@,
            message: self.message@,
            raised_at: self.raised_at,
            affects_trading: self.affects_trading,
            dedupe_secs: self.dedupe_secs,
        }
    }
}

} // verus!
