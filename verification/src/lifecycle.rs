//! Which committed transitions are published.
//!
//! Events follow a committed change; a row that did not change is silent.
use vstd::prelude::*;

use crate::orders::{ExecutionOrderState, OrderIntentStatus};

verus! {

/// The event of an intent after its submission: that of its new status, where
/// the status changed and has one.
pub fn publish_transition<E>(prior: OrderIntentStatus, status: OrderIntentStatus, event: Option<
    E,
>) -> (r: Option<E>)
    ensures
        r == (if status == prior {
            None
        } else {
            event
        }),
{
    if status == prior {
        None
    } else {
        event
    }
}

/// What is published of an execution order.
#[derive(Clone, Copy, Debug, PartialEq, Eq, Structural)]
pub enum ExecutionOrderEvent {
    Created,
    Reached(ExecutionOrderState),
}

/// The event of a committed transition of an execution order; an unchanged state
/// is silent.
pub fn transition(prior: ExecutionOrderState, committed: ExecutionOrderState) -> (r: Option<
    ExecutionOrderEvent,
>)
    ensures
        r == (if prior == committed {
            None
        } else {
            Some(ExecutionOrderEvent::Reached(committed))
        }),
{
    if prior == committed {
        None
    } else {
        Some(ExecutionOrderEvent::Reached(committed))
    }
}

} // verus!
