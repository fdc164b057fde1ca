//! The on-chain pause of an account at every registered exchange.
//!
//! An incident pauses the account at each exchange and, once sealed, lifts the
//! pause again. An operation counts as done only when the chain shows both its
//! state and its event, at the block for which it was prepared.
use vstd::prelude::*;
use vstd::string::*;

use crate::error::{outcome, ErrorView, ExecutionError};
use crate::evm::{EvmAddress, EvmHash};
use crate::time::Timestamp;
use crate::types::{AccountRecoveryIncidentId, ContentHash};

verus! {

/// The refusal of a pause step.
pub open spec fn pause_refusal(reason: Seq<char>) -> ErrorView {
    ErrorView::AccountChainProjection { reason: "account pause: "@ + reason }
}

fn pause_error(reason: &str) -> (r: ExecutionError)
    ensures
        r@ == pause_refusal(reason@),
{
    ExecutionError::AccountChainProjection { reason: "account pause: ".to_owned().concat(reason) }
}

/// A block or log number as it is stored, or why it cannot be.
pub open spec fn stored_number(value: u64, field: Seq<char>) -> Result<i64, ErrorView> {
    if value <= i64::MAX {
        Ok(value as i64)
    } else {
        Err(pause_refusal(field + " overflow: "@ + crate::text::conversion_overflow()))
    }
}

/// A block or log number as it is stored.
pub fn to_i64(value: u64, field: &'static str) -> (r: Result<i64, ExecutionError>)
    ensures
        outcome(r) == stored_number(value, field@),
{
    if value <= 9223372036854775807 {
        Ok(value as i64)
    } else {
        Err(
            pause_error(
                field.to_owned().concat(" overflow: ").concat(
                    "out of range integral type conversion attempted",
                ).as_str(),
            ),
        )
    }
}

/// A stored block number as the chain counts it, or why it is none.
pub open spec fn block_number(value: i64) -> Result<u64, ErrorView> {
    if value >= 0 {
        Ok(value as u64)
    } else {
        Err(pause_refusal(crate::text::conversion_overflow()))
    }
}

/// A stored block number as the chain counts it.
pub fn to_block(value: i64) -> (r: Result<u64, ExecutionError>)
    ensures
        outcome(r) == block_number(value),
{
    if value >= 0 {
        Ok(value as u64)
    } else {
        Err(pause_error("out of range integral type conversion attempted"))
    }
}

/// What an operation does to the account.
#[derive(Clone, Copy, Debug, PartialEq, Eq, Structural)]
pub enum AccountPauseOperationKind {
    Pause,
    Unpause,
}

/// How far an operation has come.
#[derive(Clone, Copy, Debug, PartialEq, Eq, Structural)]
pub enum AccountPauseOperationState {
    Prepared,
    Submitted,
    Ambiguous,
    Confirmed,
}

/// What is on record of an operation.
#[derive(Clone, Copy, Debug, PartialEq, Eq, Structural)]
pub struct AccountPauseOperation {
    pub account_pause_operation_id: u128,
    pub exchange_address: EvmAddress,
    pub state: AccountPauseOperationState,
    pub requested_block: i64,
    pub effective_block: Option<i64>,
}

/// The chain's event of a pause or its lifting.
#[derive(Clone, Copy, Debug, PartialEq, Eq, Structural)]
pub struct PauseEvent {
    /// From which block on a pause is effective.
    pub effective_block: u64,
    pub block_number: u64,
    pub block_hash: EvmHash,
    pub transaction_hash: EvmHash,
    pub log_index: u64,
}

/// What the chain shows of the account at one exchange.
#[derive(Clone, Copy, Debug, PartialEq, Eq, Structural)]
pub struct PauseReading {
    pub active: bool,
    pub current_block: u64,
    pub effective_block: Option<u64>,
    /// The first matching event since the operation was requested.
    pub event: Option<PauseEvent>,
}

/// The evidence with which an operation is confirmed.
#[derive(Clone, Copy, Debug, PartialEq, Eq, Structural)]
pub struct AccountPauseConfirmation {
    pub block_number: i64,
    pub block_hash: EvmHash,
    pub transaction_hash: EvmHash,
    pub log_index: i64,
    pub confirmed_at: Timestamp,
}

/// What a reading means for an operation.
pub ghost enum Examination {
    /// It was confirmed before.
    Settled,
    /// The chain does not show it yet.
    Pending,
    /// It is confirmed by this evidence.
    Confirmed(AccountPauseConfirmation),
    /// Record and chain contradict each other.
    Refused(ErrorView),
}

/// The confirmation that an event gives.
pub open spec fn confirmation(event: PauseEvent, now: Timestamp) -> Examination {
    match stored_number(event.block_number, "confirmation_block_number"@) {
        Err(error) => Examination::Refused(error),
        Ok(block_number) => match stored_number(event.log_index, "confirmation_log_index"@) {
            Err(error) => Examination::Refused(error),
            Ok(log_index) => Examination::Confirmed(
                AccountPauseConfirmation {
                    block_number,
                    block_hash: event.block_hash,
                    transaction_hash: event.transaction_hash,
                    log_index,
                    confirmed_at: now,
                },
            ),
        },
    }
}

/// A pause is confirmed once it is active, its block has come, and its event
/// names that same block.
pub open spec fn examined_pause(
    operation: AccountPauseOperation,
    reading: PauseReading,
    now: Timestamp,
) -> Examination {
    if operation.state == AccountPauseOperationState::Confirmed {
        Examination::Settled
    } else if !reading.active {
        Examination::Pending
    } else {
        match operation.effective_block {
            None => Examination::Refused(
                pause_refusal("pause operation has no effective block"@),
            ),
            Some(stored) => match block_number(stored) {
                Err(error) => Examination::Refused(error),
                Ok(effective) => if reading.current_block < effective {
                    Examination::Pending
                } else {
                    match block_number(operation.requested_block) {
                        Err(error) => Examination::Refused(error),
                        Ok(_) => match reading.event {
                            None => Examination::Pending,
                            Some(event) => if event.effective_block != effective {
                                Examination::Refused(
                                    pause_refusal(
                                        "UserPaused event effective block differs from prepared call"@,
                                    ),
                                )
                            } else {
                                confirmation(event, now)
                            },
                        },
                    }
                },
            },
        }
    }
}

/// The lifting of a pause is confirmed once nothing of the pause is left and
/// its event is there.
pub open spec fn examined_unpause(
    operation: AccountPauseOperation,
    reading: PauseReading,
    now: Timestamp,
) -> Examination {
    if operation.state == AccountPauseOperationState::Confirmed {
        Examination::Settled
    } else if reading.active || reading.effective_block is Some {
        Examination::Pending
    } else {
        match block_number(operation.requested_block) {
            Err(error) => Examination::Refused(error),
            Ok(_) => match reading.event {
                None => Examination::Pending,
                Some(event) => confirmation(event, now),
            },
        }
    }
}

/// What a reading means for an operation of this kind.
pub open spec fn examined(
    kind: AccountPauseOperationKind,
    operation: AccountPauseOperation,
    reading: PauseReading,
    now: Timestamp,
) -> Examination {
    match kind {
        AccountPauseOperationKind::Pause => examined_pause(operation, reading, now),
        AccountPauseOperationKind::Unpause => examined_unpause(operation, reading, now),
    }
}

/// What a reading means for an operation.
#[derive(Debug, PartialEq, Eq)]
pub enum PauseVerdict {
    Settled,
    Pending,
    Confirmed(AccountPauseConfirmation),
    Refused(ExecutionError),
}

impl View for PauseVerdict {
    type V = Examination;

    open spec fn view(&self) -> Examination {
        match *self {
            PauseVerdict::Settled => Examination::Settled,
            PauseVerdict::Pending => Examination::Pending,
            PauseVerdict::Confirmed(confirmation) => Examination::Confirmed(confirmation),
            PauseVerdict::Refused(error) => Examination::Refused(error@),
        }
    }
}

fn confirm_event(event: PauseEvent, now: Timestamp) -> (r: PauseVerdict)
    ensures
        r@ == confirmation(event, now),
{
    let block_number: i64 = match to_i64(event.block_number, "confirmation_block_number") {
        Ok(number) => number,
        Err(error) => return PauseVerdict::Refused(error),
    };
    let log_index: i64 = match to_i64(event.log_index, "confirmation_log_index") {
        Ok(index) => index,
        Err(error) => return PauseVerdict::Refused(error),
    };
    PauseVerdict::Confirmed(
        AccountPauseConfirmation {
            block_number,
            block_hash: event.block_hash,
            transaction_hash: event.transaction_hash,
            log_index,
            confirmed_at: now,
        },
    )
}

fn examine_pause(operation: AccountPauseOperation, reading: PauseReading, now: Timestamp) -> (r:
    PauseVerdict)
    ensures
        r@ == examined_pause(operation, reading, now),
{
    if operation.state == AccountPauseOperationState::Confirmed {
        return PauseVerdict::Settled;
    }
    if !reading.active {
        return PauseVerdict::Pending;
    }
    let effective: u64 = match operation.effective_block {
        None => return PauseVerdict::Refused(pause_error("pause operation has no effective block")),
        Some(stored) => match to_block(stored) {
            Ok(block) => block,
            Err(error) => return PauseVerdict::Refused(error),
        },
    };
    if reading.current_block < effective {
        return PauseVerdict::Pending;
    }
    if let Err(error) = to_block(operation.requested_block) {
        return PauseVerdict::Refused(error);
    }
    match reading.event {
        None => PauseVerdict::Pending,
        Some(event) => if event.effective_block != effective {
            PauseVerdict::Refused(
                pause_error("UserPaused event effective block differs from prepared call"),
            )
        } else {
            confirm_event(event, now)
        },
    }
}

fn examine_unpause(operation: AccountPauseOperation, reading: PauseReading, now: Timestamp) -> (r:
    PauseVerdict)
    ensures
        r@ == examined_unpause(operation, reading, now),
{
    if operation.state == AccountPauseOperationState::Confirmed {
        return PauseVerdict::Settled;
    }
    if reading.active || reading.effective_block.is_some() {
        return PauseVerdict::Pending;
    }
    if let Err(error) = to_block(operation.requested_block) {
        return PauseVerdict::Refused(error);
    }
    match reading.event {
        None => PauseVerdict::Pending,
        Some(event) => confirm_event(event, now),
    }
}

/// Holds what the chain shows against an operation.
pub fn examine_operation(
    kind: AccountPauseOperationKind,
    operation: AccountPauseOperation,
    reading: PauseReading,
    now: Timestamp,
) -> (r: PauseVerdict)
    ensures
        r@ == examined(kind, operation, reading, now),
{
    match kind {
        AccountPauseOperationKind::Pause => examine_pause(operation, reading, now),
        AccountPauseOperationKind::Unpause => examine_unpause(operation, reading, now),
    }
}

/// A confirmation and the operation that it belongs to.
#[derive(Clone, Copy, Debug, PartialEq, Eq, Structural)]
pub struct ConfirmedOperation {
    pub account_pause_operation_id: u128,
    pub confirmation: AccountPauseConfirmation,
}

/// How a pass over the operations of an incident ended.
#[derive(Debug, PartialEq, Eq)]
pub enum PassEnd {
    /// Every exchange is done.
    Complete,
    /// Something is still pending.
    Pending,
    /// Record and chain contradict each other.
    Refused(ExecutionError),
}

/// How a pass ended, with the refusal as a view.
pub ghost enum PassEndView {
    Complete,
    Pending,
    Refused(ErrorView),
}

impl View for PassEnd {
    type V = PassEndView;

    open spec fn view(&self) -> PassEndView {
        match *self {
            PassEnd::Complete => PassEndView::Complete,
            PassEnd::Pending => PassEndView::Pending,
            PassEnd::Refused(error) => PassEndView::Refused(error@),
        }
    }
}

/// What a pass over operations confirms, and how it ends.
#[verifier::ext_equal]
pub ghost struct PassView {
    pub confirmed: Seq<ConfirmedOperation>,
    pub end: PassEndView,
}

/// A pass over the first `count` operations: it stops at the first that is
/// pending or refused.
pub open spec fn passed(
    kind: AccountPauseOperationKind,
    operations: Seq<AccountPauseOperation>,
    readings: Seq<PauseReading>,
    count: int,
    now: Timestamp,
) -> PassView
    decreases count,
{
    if count <= 0 {
        PassView { confirmed: Seq::empty(), end: PassEndView::Complete }
    } else {
        let front = passed(kind, operations, readings, count - 1, now);
        if front.end is Complete {
            match examined(kind, operations[count - 1], readings[count - 1], now) {
                Examination::Settled => front,
                Examination::Pending => PassView { end: PassEndView::Pending, ..front },
                Examination::Confirmed(confirmation) => PassView {
                    confirmed: front.confirmed.push(
                        ConfirmedOperation {
                            account_pause_operation_id: operations[count
                                - 1].account_pause_operation_id,
                            confirmation,
                        },
                    ),
                    ..front
                },
                Examination::Refused(error) => PassView {
                    end: PassEndView::Refused(error),
                    ..front
                },
            }
        } else {
            front
        }
    }
}

/// A pass over all operations of an incident: pending from the start where an
/// exchange has no operation yet.
pub open spec fn confirmation_pass(
    kind: AccountPauseOperationKind,
    operations: Seq<AccountPauseOperation>,
    readings: Seq<PauseReading>,
    exchanges: int,
    now: Timestamp,
) -> PassView {
    if operations.len() != exchanges {
        PassView { confirmed: Seq::empty(), end: PassEndView::Pending }
    } else {
        passed(kind, operations, readings, operations.len() as int, now)
    }
}

proof fn lemma_stopped(
    kind: AccountPauseOperationKind,
    operations: Seq<AccountPauseOperation>,
    readings: Seq<PauseReading>,
    few: int,
    many: int,
    now: Timestamp,
)
    requires
        0 <= few <= many,
        !(passed(kind, operations, readings, few, now).end is Complete),
    ensures
        passed(kind, operations, readings, many, now) == passed(
            kind,
            operations,
            readings,
            few,
            now,
        ),
    decreases many,
{
    if few < many {
        lemma_stopped(kind, operations, readings, few, many - 1, now);
    }
}

/// Goes over the operations of an incident and confirms those that the chain
/// shows.
pub fn confirm_operations(
    kind: AccountPauseOperationKind,
    operations: &Vec<AccountPauseOperation>,
    readings: &Vec<PauseReading>,
    exchanges: usize,
    now: Timestamp,
) -> (r: (Vec<ConfirmedOperation>, PassEnd))
    requires
        readings@.len() == operations@.len(),
    ensures
        ({
            let pass = confirmation_pass(kind, operations@, readings@, exchanges as int, now);
            r.0@ == pass.confirmed && r.1@ == pass.end
        }),
{
    let mut confirmed: Vec<ConfirmedOperation> = Vec::new();
    if operations.len() != exchanges {
        return (confirmed, PassEnd::Pending);
    }
    let mut i: usize = 0;
    while i < operations.len()
        invariant
            i <= operations.len(),
            operations.len() == exchanges,
            readings@.len() == operations@.len(),
            passed(kind, operations@, readings@, i as int, now) == (PassView {
                confirmed: confirmed@,
                end: PassEndView::Complete,
            }),
        decreases operations.len() - i,
    {
        let verdict = examine_operation(kind, operations[i], readings[i], now);
        proof {
            if verdict@ is Pending || verdict@ is Refused {
                lemma_stopped(
                    kind,
                    operations@,
                    readings@,
                    i + 1,
                    operations@.len() as int,
                    now,
                );
            }
        }
        match verdict {
            PauseVerdict::Settled => {},
            PauseVerdict::Pending => return (confirmed, PassEnd::Pending),
            PauseVerdict::Confirmed(confirmation) => {
                confirmed.push(
                    ConfirmedOperation {
                        account_pause_operation_id: operations[i].account_pause_operation_id,
                        confirmation,
                    },
                );
            },
            PauseVerdict::Refused(error) => return (confirmed, PassEnd::Refused(error)),
        }
        i = i + 1;
    }
    (confirmed, PassEnd::Complete)
}

/// What a pass does next.
#[derive(Clone, Copy, Debug, PartialEq, Eq, Structural)]
pub enum ConfirmationStep {
    /// Ask the chain about the operation at this position.
    Read(usize),
    /// An exchange has no operation yet.
    Pending,
    /// No operation is left to ask about.
    Complete,
}

/// The next step from a position on: confirmed operations are passed over, and
/// nothing is read where an exchange has no operation yet.
pub open spec fn next_reading(
    operations: Seq<AccountPauseOperation>,
    exchanges: usize,
    from: int,
) -> ConfirmationStep
    decreases operations.len() - from,
{
    if operations.len() != exchanges {
        ConfirmationStep::Pending
    } else if from >= operations.len() {
        ConfirmationStep::Complete
    } else if operations[from].state == AccountPauseOperationState::Confirmed {
        next_reading(operations, exchanges, from + 1)
    } else {
        ConfirmationStep::Read(from as usize)
    }
}

/// The next step of a pass that has come to the position `from`.
pub fn next_confirmation(
    operations: &Vec<AccountPauseOperation>,
    exchanges: usize,
    from: usize,
) -> (r: ConfirmationStep)
    ensures
        r == next_reading(operations@, exchanges, from as int),
        r matches ConfirmationStep::Read(position) ==> from <= position < operations@.len(),
{
    if operations.len() != exchanges {
        return ConfirmationStep::Pending;
    }
    let mut i: usize = from;
    while i < operations.len()
        invariant
            from <= i,
            operations.len() == exchanges,
            next_reading(operations@, exchanges, from as int) == next_reading(
                operations@,
                exchanges,
                i as int,
            ),
        decreases operations.len() - i,
    {
        if operations[i].state != AccountPauseOperationState::Confirmed {
            return ConfirmationStep::Read(i);
        }
        i = i + 1;
    }
    ConfirmationStep::Complete
}

/// What the steps pass over adds nothing to a pass: from where a pass stands, it
/// goes on at the operation that is read next, is over where none is, and is
/// pending where an exchange has no operation yet.
pub proof fn passes_skip_what_is_confirmed(
    kind: AccountPauseOperationKind,
    operations: Seq<AccountPauseOperation>,
    readings: Seq<PauseReading>,
    exchanges: usize,
    from: int,
    now: Timestamp,
)
    requires
        0 <= from <= operations.len(),
    ensures
        match next_reading(operations, exchanges, from) {
            ConfirmationStep::Read(position) => from <= position < operations.len() && passed(
                kind,
                operations,
                readings,
                position as int,
                now,
            ) == passed(kind, operations, readings, from, now),
            ConfirmationStep::Complete => confirmation_pass(
                kind,
                operations,
                readings,
                exchanges as int,
                now,
            ) == passed(kind, operations, readings, from, now),
            ConfirmationStep::Pending => confirmation_pass(
                kind,
                operations,
                readings,
                exchanges as int,
                now,
            ).end is Pending,
        },
    decreases operations.len() - from,
{
    if from < operations.len() && operations[from].state == AccountPauseOperationState::Confirmed {
        passes_skip_what_is_confirmed(kind, operations, readings, exchanges, from + 1, now);
    }
}

proof fn lemma_complete(
    kind: AccountPauseOperationKind,
    operations: Seq<AccountPauseOperation>,
    readings: Seq<PauseReading>,
    count: int,
    i: int,
    now: Timestamp,
)
    requires
        passed(kind, operations, readings, count, now).end is Complete,
        0 <= i < count,
    ensures
        examined(kind, operations[i], readings[i], now) is Settled || examined(
            kind,
            operations[i],
            readings[i],
            now,
        ) is Confirmed,
    decreases count,
{
    if i < count - 1 {
        lemma_complete(kind, operations, readings, count - 1, i, now);
    }
}

/// The account counts as paused, or as free again, only where every exchange has
/// an operation and each is confirmed, now or before.
pub proof fn a_complete_pass_covers_every_exchange(
    kind: AccountPauseOperationKind,
    operations: Seq<AccountPauseOperation>,
    readings: Seq<PauseReading>,
    exchanges: int,
    now: Timestamp,
    i: int,
)
    requires
        confirmation_pass(kind, operations, readings, exchanges, now).end is Complete,
        0 <= i < operations.len(),
    ensures
        operations.len() == exchanges,
        examined(kind, operations[i], readings[i], now) is Settled || examined(
            kind,
            operations[i],
            readings[i],
            now,
        ) is Confirmed,
{
    lemma_complete(kind, operations, readings, operations.len() as int, i, now);
}

/// Refuses to lift the pause of an incident that is not sealed.
pub fn check_unpause(seal_hash: Option<ContentHash>) -> (r: Result<(), ExecutionError>)
    ensures
        outcome(r) == (if seal_hash is Some {
            Ok(())
        } else {
            Err(pause_refusal("incident must be sealed before unpause"@))
        }),
{
    if seal_hash.is_none() {
        return Err(pause_error("incident must be sealed before unpause"));
    }
    Ok(())
}

/// The exchanges that have no operation yet.
pub open spec fn without_operation(
    exchanges: Seq<EvmAddress>,
    operations: Seq<AccountPauseOperation>,
) -> Seq<EvmAddress>
    decreases exchanges.len(),
{
    if exchanges.len() == 0 {
        Seq::empty()
    } else {
        let front = without_operation(exchanges.drop_last(), operations);
        if has_operation(operations, exchanges.last()) {
            front
        } else {
            front.push(exchanges.last())
        }
    }
}

/// Whether an exchange has an operation.
pub open spec fn has_operation(
    operations: Seq<AccountPauseOperation>,
    exchange: EvmAddress,
) -> bool {
    exists|i: int|
        0 <= i < operations.len() && (#[trigger] operations[i]).exchange_address == exchange
}

fn find_operation(operations: &Vec<AccountPauseOperation>, exchange: EvmAddress) -> (r: bool)
    ensures
        r == has_operation(operations@, exchange),
{
    let mut i: usize = 0;
    while i < operations.len()
        invariant
            i <= operations.len(),
            forall|j: int|
                0 <= j < i ==> (#[trigger] operations@[j]).exchange_address != exchange,
        decreases operations.len() - i,
    {
        if operations[i].exchange_address == exchange {
            assert(operations@[i as int].exchange_address == exchange);
            return true;
        }
        i = i + 1;
    }
    false
}

/// The exchanges at which an operation has still to be prepared.
pub fn missing_exchanges(
    exchanges: &Vec<EvmAddress>,
    operations: &Vec<AccountPauseOperation>,
) -> (r: Vec<EvmAddress>)
    ensures
        r@ == without_operation(exchanges@, operations@),
{
    let mut r: Vec<EvmAddress> = Vec::new();
    let mut i: usize = 0;
    assert(exchanges@.take(0) =~= Seq::<EvmAddress>::empty());
    while i < exchanges.len()
        invariant
            i <= exchanges.len(),
            r@ == without_operation(exchanges@.take(i as int), operations@),
        decreases exchanges.len() - i,
    {
        assert(exchanges@.take(i + 1).drop_last() =~= exchanges@.take(i as int));
        assert(exchanges@.take(i + 1).last() == exchanges@[i as int]);
        if !find_operation(operations, exchanges[i]) {
            r.push(exchanges[i]);
        }
        i = i + 1;
    }
    assert(exchanges@.take(i as int) =~= exchanges@);
    r
}

/// An exchange gets an operation exactly where it has none, so that a repeated
/// pass prepares nothing twice.
pub proof fn no_exchange_is_prepared_twice(
    exchanges: Seq<EvmAddress>,
    operations: Seq<AccountPauseOperation>,
    exchange: EvmAddress,
)
    ensures
        without_operation(exchanges, operations).contains(exchange) <==> exchanges.contains(
            exchange,
        ) && !has_operation(operations, exchange),
    decreases exchanges.len(),
{
    if exchanges.len() > 0 {
        let front = exchanges.drop_last();
        let before = without_operation(front, operations);
        let after = without_operation(exchanges, operations);
        no_exchange_is_prepared_twice(front, operations, exchange);
        assert(exchanges =~= front.push(exchanges.last()));
        assert(exchanges.contains(exchange) <==> front.contains(exchange) || exchanges.last()
            == exchange) by {
            if front.contains(exchange) {
                let k = choose|k: int| 0 <= k < front.len() && front[k] == exchange;
                assert(exchanges[k] == exchange);
            }
            if exchanges.last() == exchange {
                assert(exchanges[exchanges.len() - 1] == exchange);
            }
        }
        if !has_operation(operations, exchanges.last()) {
            assert(after == before.push(exchanges.last()));
            if before.contains(exchange) {
                let k = choose|k: int| 0 <= k < before.len() && before[k] == exchange;
                assert(after[k] == exchange);
            }
            if exchanges.last() == exchange {
                assert(after[before.len() as int] == exchange);
            }
            if after.contains(exchange) {
                let k = choose|k: int| 0 <= k < after.len() && after[k] == exchange;
                if k < before.len() {
                    assert(before[k] == exchange);
                }
            }
        }
    }
}

/// A signed wallet call that is ready to be sent.
#[derive(Debug, PartialEq, Eq)]
pub struct PreparedEnvelope {
    pub submission_kind: String,
    pub prepared_block_number: u64,
    pub prepared_block_hash: String,
    pub nonce: String,
    pub gas_limit: Option<String>,
    pub calldata_hash: String,
    pub deployment_digest: ContentHash,
    pub envelope: String,
    pub envelope_hash: ContentHash,
    pub transaction_hash: Option<String>,
}

/// What an operation is prepared from.
#[derive(Debug, PartialEq, Eq)]
pub struct PrepareOperationInput {
    /// The identity derived from incident, exchange, kind and envelope.
    pub account_pause_operation_id: u128,
    pub recovery_incident_id: AccountRecoveryIncidentId,
    pub exchange: EvmAddress,
    pub operation_kind: AccountPauseOperationKind,
    pub requested_block: u64,
    pub interval_blocks: Option<u64>,
    pub effective_block: Option<u64>,
    pub envelope: PreparedEnvelope,
}

/// An operation as it is first stored.
#[derive(Debug, PartialEq, Eq)]
pub struct NewAccountPauseOperation {
    pub account_pause_operation_id: u128,
    pub recovery_incident_id: AccountRecoveryIncidentId,
    pub exchange_address: EvmAddress,
    pub operation_kind: AccountPauseOperationKind,
    pub state: AccountPauseOperationState,
    pub submission_kind: String,
    pub requested_block: i64,
    pub interval_blocks: Option<i64>,
    pub effective_block: Option<i64>,
    pub prepared_block_number: i64,
    pub prepared_block_hash: String,
    pub prepared_nonce: String,
    pub gas_limit: Option<String>,
    pub calldata_hash: String,
    pub deployment_digest: ContentHash,
    pub signed_envelope: String,
    pub signed_envelope_hash: ContentHash,
    pub transaction_hash: Option<String>,
}

/// An optional number as it is stored, or why it cannot be.
pub open spec fn stored_optional(value: Option<u64>, field: Seq<char>) -> Result<
    Option<i64>,
    ErrorView,
> {
    match value {
        None => Ok(None),
        Some(number) => match stored_number(number, field) {
            Ok(stored) => Ok(Some(stored)),
            Err(error) => Err(error),
        },
    }
}

fn to_optional(value: Option<u64>, field: &'static str) -> (r: Result<Option<i64>, ExecutionError>)
    ensures
        outcome(r) == stored_optional(value, field@),
{
    match value {
        None => Ok(None),
        Some(number) => match to_i64(number, field) {
            Ok(stored) => Ok(Some(stored)),
            Err(error) => Err(error),
        },
    }
}

/// The row of a prepared operation.
pub open spec fn prepared_row(input: PrepareOperationInput) -> Result<
    NewAccountPauseOperation,
    ErrorView,
> {
    match stored_number(input.requested_block, "requested_block"@) {
        Err(error) => Err(error),
        Ok(requested_block) => match stored_optional(input.interval_blocks, "interval_blocks"@) {
            Err(error) => Err(error),
            Ok(interval_blocks) => match stored_optional(
                input.effective_block,
                "effective_block"@,
            ) {
                Err(error) => Err(error),
                Ok(effective_block) => match stored_number(
                    input.envelope.prepared_block_number,
                    "prepared_block_number"@,
                ) {
                    Err(error) => Err(error),
                    Ok(prepared_block_number) => Ok(
                        NewAccountPauseOperation {
                            account_pause_operation_id: input.account_pause_operation_id,
                            recovery_incident_id: input.recovery_incident_id,
                            exchange_address: input.exchange,
                            operation_kind: input.operation_kind,
                            state: AccountPauseOperationState::Prepared,
                            submission_kind: input.envelope.submission_kind,
                            requested_block,
                            interval_blocks,
                            effective_block,
                            prepared_block_number,
                            prepared_block_hash: input.envelope.prepared_block_hash,
                            prepared_nonce: input.envelope.nonce,
                            gas_limit: input.envelope.gas_limit,
                            calldata_hash: input.envelope.calldata_hash,
                            deployment_digest: input.envelope.deployment_digest,
                            signed_envelope: input.envelope.envelope,
                            signed_envelope_hash: input.envelope.envelope_hash,
                            transaction_hash: input.envelope.transaction_hash,
                        },
                    ),
                },
            },
        },
    }
}

/// Composes the row of a prepared operation.
pub fn prepare_operation(input: PrepareOperationInput) -> (r: Result<
    NewAccountPauseOperation,
    ExecutionError,
>)
    ensures
        outcome(r) == prepared_row(input),
{
    let requested_block: i64 = match to_i64(input.requested_block, "requested_block") {
        Ok(block) => block,
        Err(error) => return Err(error),
    };
    let interval_blocks = match to_optional(input.interval_blocks, "interval_blocks") {
        Ok(blocks) => blocks,
        Err(error) => return Err(error),
    };
    let effective_block = match to_optional(input.effective_block, "effective_block") {
        Ok(block) => block,
        Err(error) => return Err(error),
    };
    let envelope = input.envelope;
    let prepared_block_number: i64 = match to_i64(
        envelope.prepared_block_number,
        "prepared_block_number",
    ) {
        Ok(number) => number,
        Err(error) => return Err(error),
    };
    Ok(
        NewAccountPauseOperation {
            account_pause_operation_id: input.account_pause_operation_id,
            recovery_incident_id: input.recovery_incident_id,
            exchange_address: input.exchange,
            operation_kind: input.operation_kind,
            state: AccountPauseOperationState::Prepared,
            submission_kind: envelope.submission_kind,
            requested_block,
            interval_blocks,
            effective_block,
            prepared_block_number,
            prepared_block_hash: envelope.prepared_block_hash,
            prepared_nonce: envelope.nonce,
            gas_limit: envelope.gas_limit,
            calldata_hash: envelope.calldata_hash,
            deployment_digest: envelope.deployment_digest,
            signed_envelope: envelope.envelope,
            signed_envelope_hash: envelope.envelope_hash,
            transaction_hash: envelope.transaction_hash,
        },
    )
}

} // verus!
