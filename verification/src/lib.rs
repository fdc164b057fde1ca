//! Verified decision core of a prediction-market execution plane.
//!
//! Every item here is a pure decision or projection: the entry-condition
//! evaluator, the exit ladder, the admission checks, the ledger writes, the
//! account-recovery reconciler and the rest of the rules that say what the
//! surrounding services have to do. Reading books and rows, signing, sending
//! and storing are the callers' business.
//!
//! Money and quantities are [`decimal::Decimal`]; times are
//! [`time::Timestamp`]. Decimal arithmetic that leaves the representable range
//! is reported to the caller, never wrapped and never a panic.
use vstd::prelude::*;

pub mod decimal;
pub mod text;
pub mod time;
pub mod types;
pub mod error;
pub mod alerts;
pub mod sorting;
pub mod search;
pub mod orders;
pub mod entry_trigger;
pub mod plans;
pub mod order_rules;
pub mod execution_pipeline;
pub mod fee_settlement;
pub mod attribution;
pub mod heartbeat;
pub mod lifecycle;
pub mod exit_monitor;
pub mod exit_monitor_service;
pub mod exit_dispatcher;
pub mod intent_service;
pub mod admission;
pub mod breaker;
pub mod dispatcher;
pub mod account_chain_projector;
pub mod account_pause;
pub mod account_recovery_reconciler;
pub mod account_recovery_service;
pub mod evm;
pub mod entry_condition;
pub mod entry_condition_inputs;
pub mod entry_condition_worker;
pub mod laws;

verus! {

} // verus!
