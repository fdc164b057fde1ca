//! Deterministic live/replay entry-condition evaluator.
pub mod model;
pub mod fold;
pub mod leaves;
pub mod tree;
pub mod restart;
pub mod state;
