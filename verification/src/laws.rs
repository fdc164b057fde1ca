//! What the operations are for, stated of their inputs and results.
pub mod values;
pub mod admission;
pub mod exits;
pub mod conditions;
pub mod settlement;
pub mod recovery;
pub mod breaker;
pub mod intents;
pub mod attribution;
pub mod preparation;
pub mod monitoring;
pub mod pauses;
pub mod dispatch;
pub mod pipeline;
pub mod accounts;
pub mod inputs;
pub mod sales;
pub mod evaluation;
pub mod assembly;
pub mod texts;
