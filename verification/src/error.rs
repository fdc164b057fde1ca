//! Errors of the execution rules.
use vstd::prelude::*;

use crate::orders::VenueFundingDeficit;
use crate::text::{write_integer, write_natural};
use crate::time::Timestamp;
use crate::types::OrderIntentId;

verus! {

/// Why an execution rule refused.
#[derive(Debug, PartialEq, Eq)]
pub enum ExecutionError {
    /// The intent is not in a state from which it may be submitted.
    NotSubmittable { intent_id: OrderIntentId, state: String },
    /// Admission refused the intent for good.
    AdmissionDenied { reason: String },
    /// Admission could not decide yet.
    AdmissionDeferred { reason: String },
    /// The intent or one of its preparations is not allowed.
    IntentDenied { reason: String },
    /// The recommendation or its entry window is over.
    RecommendationExpired { reason: String },
    /// The runtime only reports.
    ReportOnlyMode,
    /// The kill switch blocks the operation.
    KillSwitchBlocks { state: String, operation: String },
    /// An approval was overtaken by events.
    ApprovalInvalidated { reason: String },
    /// A time could not be converted.
    TimeConversion { field: &'static str, value: String, detail: String },
    /// Venue and chain facts cannot be reconciled.
    ReconciliationUnresolvable { reason: String },
    /// A chain event cannot be projected onto the account.
    AccountChainProjection { reason: String },
    /// Account recovery cannot go on.
    AccountRecovery { reason: String },
    /// The exit price cannot be expressed at the venue now.
    ExitPriceDeferred { reason: String },
    /// The position is not funded for the exit now.
    ExitFundingDeferred {
        deficit: VenueFundingDeficit,
        required: String,
        balance: String,
        allowance: String,
    },
    /// A configuration value is not acceptable.
    Config { reason: String },
    /// A stored fact breaks an invariant of its own.
    InvariantViolation { entity: &'static str, detail: String },
    /// Two stored facts contradict each other.
    StateConflict { entity: &'static str, key: String, detail: String },
    /// A contract of the report plane is broken.
    ContractViolation { detail: String },
    /// A decimal result left the representable range.
    DecimalOverflow,
}

/// An [`ExecutionError`] with its texts as character sequences.
pub ghost enum ErrorView {
    NotSubmittable { intent_id: OrderIntentId, state: Seq<char> },
    AdmissionDenied { reason: Seq<char> },
    AdmissionDeferred { reason: Seq<char> },
    IntentDenied { reason: Seq<char> },
    RecommendationExpired { reason: Seq<char> },
    ReportOnlyMode,
    KillSwitchBlocks { state: Seq<char>, operation: Seq<char> },
    ApprovalInvalidated { reason: Seq<char> },
    TimeConversion { field: Seq<char>, value: Seq<char>, detail: Seq<char> },
    ReconciliationUnresolvable { reason: Seq<char> },
    AccountChainProjection { reason: Seq<char> },
    AccountRecovery { reason: Seq<char> },
    ExitPriceDeferred { reason: Seq<char> },
    ExitFundingDeferred {
        deficit: VenueFundingDeficit,
        required: Seq<char>,
        balance: Seq<char>,
        allowance: Seq<char>,
    },
    Config { reason: Seq<char> },
    InvariantViolation { entity: Seq<char>, detail: Seq<char> },
    StateConflict { entity: Seq<char>, key: Seq<char>, detail: Seq<char> },
    ContractViolation { detail: Seq<char> },
    DecimalOverflow,
}

impl View for ExecutionError {
    type V = ErrorView;

    open spec fn view(&self) -> ErrorView {
        match *self {
            ExecutionError::NotSubmittable { intent_id, state } => ErrorView::NotSubmittable {
                intent_id,
                state: state@,
            },
            ExecutionError::AdmissionDenied { reason } => ErrorView::AdmissionDenied {
                reason: reason@,
            },
            ExecutionError::AdmissionDeferred { reason } => ErrorView::AdmissionDeferred {
                reason: reason@,
            },
            ExecutionError::IntentDenied { reason } => ErrorView::IntentDenied { reason: reason@ },
            ExecutionError::RecommendationExpired { reason } => ErrorView::RecommendationExpired {
                reason: reason@,
            },
            ExecutionError::ReportOnlyMode => ErrorView::ReportOnlyMode,
            ExecutionError::KillSwitchBlocks { state, operation } => ErrorView::KillSwitchBlocks {
                state: state@,
                operation: operation@,
            },
            ExecutionError::ApprovalInvalidated { reason } => ErrorView::ApprovalInvalidated {
                reason: reason@,
            },
            ExecutionError::TimeConversion { field, value, detail } => ErrorView::TimeConversion {
                field: field@,
                value: value@,
                detail: detail@,
            },
            ExecutionError::ReconciliationUnresolvable { reason } =>
                ErrorView::ReconciliationUnresolvable { reason: reason@ },
            ExecutionError::AccountChainProjection { reason } => ErrorView::AccountChainProjection {
                reason: reason@,
            },
            ExecutionError::AccountRecovery { reason } => ErrorView::AccountRecovery {
                reason: reason@,
            },
            ExecutionError::ExitPriceDeferred { reason } => ErrorView::ExitPriceDeferred {
                reason: reason@,
            },
            ExecutionError::ExitFundingDeferred { deficit, required, balance, allowance } =>
                ErrorView::ExitFundingDeferred {
                    deficit,
                    required: required@,
                    balance: balance@,
                    allowance: allowance@,
                },
            ExecutionError::Config { reason } => ErrorView::Config { reason: reason@ },
            ExecutionError::InvariantViolation { entity, detail } => ErrorView::InvariantViolation {
                entity: entity@,
                detail: detail@,
            },
            ExecutionError::StateConflict { entity, key, detail } => ErrorView::StateConflict {
                entity: entity@,
                key: key@,
                detail: detail@,
            },
            ExecutionError::ContractViolation { detail } => ErrorView::ContractViolation {
                detail: detail@,
            },
            ExecutionError::DecimalOverflow => ErrorView::DecimalOverflow,
        }
    }
}

/// A result with its error read as an [`ErrorView`].
pub open spec fn outcome<T>(result: Result<T, ExecutionError>) -> Result<T, ErrorView> {
    match result {
        Ok(value) => Ok(value),
        Err(error) => Err(error@),
    }
}

/// `IntentDenied` with a fixed reason.
pub fn intent_denied(reason: &str) -> (r: ExecutionError)
    ensures
        r@ == (ErrorView::IntentDenied { reason: reason@ }),
{
    ExecutionError::IntentDenied { reason: reason.to_owned() }
}

/// A time conversion that failed because a natural number does not fit.
pub(crate) fn natural_overflow(field: &'static str, value: u64) -> (r: ExecutionError)
    ensures
        r@ == (ErrorView::TimeConversion {
            field: field@,
            value: crate::text::natural_text(value as nat),
            detail: crate::text::conversion_overflow(),
        }),
{
    ExecutionError::TimeConversion {
        field,
        value: write_natural(value as u128),
        detail: "out of range integral type conversion attempted".to_owned(),
    }
}

/// A time conversion that failed because an integer is negative.
pub(crate) fn integer_overflow(field: &'static str, value: i64) -> (r: ExecutionError)
    ensures
        r@ == (ErrorView::TimeConversion {
            field: field@,
            value: crate::text::integer_text(value as int),
            detail: crate::text::conversion_overflow(),
        }),
{
    ExecutionError::TimeConversion {
        field,
        value: write_integer(value),
        detail: "out of range integral type conversion attempted".to_owned(),
    }
}

/// Milliseconds since the epoch as a natural number.
pub(crate) fn epoch_millis(field: &'static str, now: Timestamp) -> (r: Result<u64, ExecutionError>)
    ensures
        match r {
            Ok(millis) => millis == now.spec_millis(),
            Err(error) => now.spec_millis() < 0 && error@ == (ErrorView::TimeConversion {
                field: field@,
                value: crate::text::integer_text(now.spec_millis()),
                detail: crate::text::conversion_overflow(),
            }),
        },
{
    let millis = now.whole_millis();
    if millis < 0 {
        Err(integer_overflow(field, millis))
    } else {
        Ok(millis as u64)
    }
}

} // verus!
