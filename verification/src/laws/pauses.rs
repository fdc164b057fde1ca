//! What pausing an account is for.
use vstd::prelude::*;

use crate::account_pause::{
    examined, passed, prepared_row, AccountPauseOperation, AccountPauseOperationKind,
    AccountPauseOperationState, Examination, PauseReading, PrepareOperationInput,
};
use crate::time::Timestamp;

verus! {

/// A pause is confirmed by the chain's own event, once the account is paused
/// there, the block from which on it is effective is reached, and the event
/// names that block.
pub proof fn pauses_are_confirmed_by_the_chain(
    operation: AccountPauseOperation,
    reading: PauseReading,
    now: Timestamp,
)
    requires
        examined(AccountPauseOperationKind::Pause, operation, reading, now) is Confirmed,
    ensures
        operation.state != AccountPauseOperationState::Confirmed,
        reading.active,
        operation.effective_block matches Some(from) && 0 <= from <= reading.current_block && (
        reading.event matches Some(event) && event.effective_block == from),
{
}

/// An unpause is confirmed by the chain's own event, once nothing pauses the
/// account there any more.
pub proof fn unpauses_are_confirmed_by_the_chain(
    operation: AccountPauseOperation,
    reading: PauseReading,
    now: Timestamp,
)
    requires
        examined(AccountPauseOperationKind::Unpause, operation, reading, now) is Confirmed,
    ensures
        operation.state != AccountPauseOperationState::Confirmed,
        !reading.active,
        reading.effective_block is None,
        reading.event is Some,
{
}

/// What is confirmed is where the event stands.
pub proof fn confirmations_name_the_event(
    kind: AccountPauseOperationKind,
    operation: AccountPauseOperation,
    reading: PauseReading,
    now: Timestamp,
)
    ensures
        examined(kind, operation, reading, now) matches Examination::Confirmed(found) ==> (
        reading.event matches Some(event) && found.block_number == event.block_number
            && found.block_hash == event.block_hash && found.transaction_hash
            == event.transaction_hash && found.log_index == event.log_index && found.confirmed_at
            == now),
        examined(kind, operation, reading, now) is Settled <==> operation.state
            == AccountPauseOperationState::Confirmed,
{
}

/// What the chain shows in full is confirmed.
pub proof fn evidence_confirms(
    kind: AccountPauseOperationKind,
    operation: AccountPauseOperation,
    reading: PauseReading,
    now: Timestamp,
)
    requires
        operation.state != AccountPauseOperationState::Confirmed,
        operation.requested_block >= 0,
        reading.event matches Some(event) && event.block_number <= i64::MAX && event.log_index
            <= i64::MAX,
    ensures
        kind is Unpause && !reading.active && reading.effective_block is None ==> examined(
            kind,
            operation,
            reading,
            now,
        ) is Confirmed,
        kind is Pause && reading.active && (operation.effective_block matches Some(from) && 0
            <= from <= reading.current_block && reading.event->0.effective_block == from)
            ==> examined(kind, operation, reading, now) is Confirmed,
{
}

/// An account that the chain does not show as paused yet waits, and so does one
/// that it still shows as paused after an unpause.
pub proof fn what_the_chain_does_not_show_waits(
    operation: AccountPauseOperation,
    reading: PauseReading,
    now: Timestamp,
)
    requires
        operation.state != AccountPauseOperationState::Confirmed,
    ensures
        !reading.active ==> examined(AccountPauseOperationKind::Pause, operation, reading, now)
            is Pending,
        reading.active || reading.effective_block is Some ==> examined(
            AccountPauseOperationKind::Unpause,
            operation,
            reading,
            now,
        ) is Pending,
        reading.active && (operation.effective_block matches Some(from) && from
            > reading.current_block) ==> examined(
            AccountPauseOperationKind::Pause,
            operation,
            reading,
            now,
        ) is Pending,
        reading.active && (operation.effective_block matches Some(from) && 0 <= from
            <= reading.current_block && operation.requested_block >= 0 && (reading.event
            matches Some(event) && event.effective_block != from)) ==> examined(
            AccountPauseOperationKind::Pause,
            operation,
            reading,
            now,
        ) is Refused,
{
}

/// A pass confirms each operation at most once and only on its own evidence.
pub proof fn passes_confirm_on_evidence(
    kind: AccountPauseOperationKind,
    operations: Seq<AccountPauseOperation>,
    readings: Seq<PauseReading>,
    count: int,
    now: Timestamp,
    at: int,
)
    requires
        0 <= count <= operations.len(),
        0 <= at < passed(kind, operations, readings, count, now).confirmed.len(),
    ensures
        ({
            let found = passed(kind, operations, readings, count, now).confirmed[at];
            exists|i: int|
                0 <= i < count && found.account_pause_operation_id == (
                #[trigger] operations[i]).account_pause_operation_id && examined(
                    kind,
                    operations[i],
                    readings[i],
                    now,
                ) == Examination::Confirmed(found.confirmation)
        }),
        passed(kind, operations, readings, count, now).confirmed.len() <= count,
    decreases count,
{
    if count > 0 {
        let front = passed(kind, operations, readings, count - 1, now);
        lemma_confirmed_count(kind, operations, readings, count - 1, now);
        let whole = passed(kind, operations, readings, count, now);
        let found = whole.confirmed[at];
        if at < front.confirmed.len() {
            passes_confirm_on_evidence(kind, operations, readings, count - 1, now, at);
            assert(found == front.confirmed[at]);
        } else {
            let own = operations[count - 1];
            assert(found.account_pause_operation_id == own.account_pause_operation_id);
        }
    }
}

proof fn lemma_confirmed_count(
    kind: AccountPauseOperationKind,
    operations: Seq<AccountPauseOperation>,
    readings: Seq<PauseReading>,
    count: int,
    now: Timestamp,
)
    requires
        0 <= count,
    ensures
        passed(kind, operations, readings, count, now).confirmed.len() <= count,
    decreases count,
{
    if count > 0 {
        lemma_confirmed_count(kind, operations, readings, count - 1, now);
    }
}

/// A prepared row holds what was asked, and is prepared only.
pub proof fn rows_hold_what_was_asked(input: PrepareOperationInput)
    ensures
        prepared_row(input) matches Ok(row) ==> {
            &&& row.account_pause_operation_id == input.account_pause_operation_id
            &&& row.recovery_incident_id == input.recovery_incident_id
            &&& row.exchange_address == input.exchange
            &&& row.operation_kind == input.operation_kind
            &&& row.state is Prepared
            &&& row.requested_block == input.requested_block
            &&& row.prepared_block_number == input.envelope.prepared_block_number
            &&& row.effective_block is Some <==> input.effective_block is Some
            &&& (input.effective_block matches Some(block) ==> row.effective_block->0 == block)
            &&& row.interval_blocks is Some <==> input.interval_blocks is Some
            &&& (input.interval_blocks matches Some(blocks) ==> row.interval_blocks->0 == blocks)
            &&& row.signed_envelope_hash == input.envelope.envelope_hash
            &&& row.deployment_digest == input.envelope.deployment_digest
        },
        prepared_row(input) is Ok <==> input.requested_block <= i64::MAX
            && input.envelope.prepared_block_number <= i64::MAX && (input.effective_block
            matches Some(block) ==> block <= i64::MAX) && (input.interval_blocks
            matches Some(blocks) ==> blocks <= i64::MAX),
{
}

} // verus!
