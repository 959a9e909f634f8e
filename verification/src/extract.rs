use vstd::prelude::*;

use crate::cache::{cache_capacity, cache_contents, stored_entry, BalanceCache};
use crate::resolver::set_new_balances;
use crate::types::{follows, BalanceChangeRecord, BalanceSnapshot, BlockHeaderInfo, Direction,
    RecordCause, StateChangeCause, StateChangeEvent, StateChangeValue, TransactionInfo,
    UnrecognizedCauseError};

verus! {

/// What the validator-update extractor does with one state-change event.
#[derive(Clone, Copy, PartialEq, Eq, Structural, Debug)]
pub enum EventDisposition {
    /// A validator bookkeeping update of an account's balances: emit a
    /// change record for it.
    EmitValidatorUpdate,
    /// The event carries no balance information for this engine, or its
    /// balance movement is covered by another producer: pass it over.
    PassOver,
}

/// How the extractor treats one event, as a function of its payload kind
/// and cause. Payloads other than a full account update are passed over
/// whatever their cause; an account update moved by validator bookkeeping
/// is emitted; an account update under a cause this engine believes is
/// covered elsewhere is passed over; the remaining causes on an account
/// update are unmodeled and fatal.
pub open spec fn event_disposition_spec(ev: StateChangeEvent) -> Result<
    EventDisposition,
    UnrecognizedCauseError,
> {
    match ev.value {
        StateChangeValue::AccountUpdate { .. } => match ev.cause {
            StateChangeCause::ValidatorAccountsUpdate => Ok(
                EventDisposition::EmitValidatorUpdate,
            ),
            StateChangeCause::NotWritableToDisk
            | StateChangeCause::InitialState
            | StateChangeCause::UpdatedDelayedReceipts
            | StateChangeCause::Migration
            | StateChangeCause::Resharding => Err(UnrecognizedCauseError { cause: ev.cause }),
            _ => Ok(EventDisposition::PassOver),
        },
        StateChangeValue::Unrelated => Ok(EventDisposition::PassOver),
    }
}

/// Decides what to do with one state-change event: emit a validator-update
/// record, pass the event over, or fail on a cause this engine does not
/// model.
pub fn classify_event(ev: &StateChangeEvent) -> (r: Result<
    EventDisposition,
    UnrecognizedCauseError,
>)
    ensures
        r == event_disposition_spec(*ev),
{
    match ev.value {
        StateChangeValue::AccountUpdate { .. } => match ev.cause {
            StateChangeCause::ValidatorAccountsUpdate => Ok(
                EventDisposition::EmitValidatorUpdate,
            ),
            StateChangeCause::NotWritableToDisk
            | StateChangeCause::InitialState
            | StateChangeCause::UpdatedDelayedReceipts
            | StateChangeCause::Migration
            | StateChangeCause::Resharding => Err(UnrecognizedCauseError { cause: ev.cause }),
            _ => Ok(EventDisposition::PassOver),
        },
        StateChangeValue::Unrelated => Ok(EventDisposition::PassOver),
    }
}

/// The exact difference of two unsigned amounts, in wide signed
/// arithmetic. The bounds are forced by the 128-bit signed result.
pub fn signed_diff(a: u128, b: u128) -> (r: i128)
    requires
        a as int - b as int <= i128::MAX as int,
        a as int - b as int >= i128::MIN as int,
    ensures
        r as int == a as int - b as int,
{
    if a >= b {
        (a - b) as i128
    } else {
        let d: u128 = b - a;
        let half: u128 = (i128::MAX as u128) + 1;
        if d < half {
            -(d as i128)
        } else {
            i128::MIN
        }
    }
}

/// Emits the change record for one validator bookkeeping update of an
/// account, moving it to the new (liquid, locked) pair: the deltas are
/// measured against the resolved previous snapshot, and the cache is
/// moved to the new pair at once, before any later event resolves.
/// The delta bounds are forced by the records' 128-bit signed fields.
pub fn validator_update_record(
    cache: &mut BalanceCache,
    account_id: &String,
    new_liquid: u128,
    new_locked: u128,
    prev: BalanceSnapshot,
    header: &BlockHeaderInfo,
    shard_id: u64,
) -> (r: BalanceChangeRecord)
    requires
        new_liquid as int - prev.liquid as int <= i128::MAX as int,
        new_liquid as int - prev.liquid as int >= i128::MIN as int,
        new_locked as int - prev.locked as int <= i128::MAX as int,
        new_locked as int - prev.locked as int >= i128::MIN as int,
    ensures
        r.block_timestamp == header.timestamp,
        r.receipt_id is None,
        r.transaction_hash is None,
        r.affected_account_id@ == account_id@,
        r.involved_account_id is None,
        r.direction == Direction::Unspecified,
        r.cause == RecordCause::ValidatorAccountsUpdate,
        r.delta_liquid_amount as int == new_liquid as int - prev.liquid as int,
        r.absolute_liquid_amount == new_liquid,
        r.delta_locked_amount as int == new_locked as int - prev.locked as int,
        r.absolute_locked_amount == new_locked,
        r.shard_id == shard_id,
        r.index_in_chunk == 0,
        follows(prev, r),
        cache_capacity(*final(cache)) == cache_capacity(*old(cache)),
        stored_entry(
            cache_contents(*old(cache)),
            cache_contents(*final(cache)),
            account_id@,
            (new_liquid, new_locked),
            cache_capacity(*old(cache)),
        ),
{
    let delta_liquid_amount: i128 = signed_diff(new_liquid, prev.liquid);
    let delta_locked_amount: i128 = signed_diff(new_locked, prev.locked);
    set_new_balances(cache, account_id, BalanceSnapshot { liquid: new_liquid, locked: new_locked });
    BalanceChangeRecord {
        block_timestamp: header.timestamp,
        receipt_id: None,
        transaction_hash: None,
        affected_account_id: account_id.clone(),
        involved_account_id: None,
        direction: Direction::Unspecified,
        cause: RecordCause::ValidatorAccountsUpdate,
        delta_liquid_amount,
        absolute_liquid_amount: new_liquid,
        delta_locked_amount,
        absolute_locked_amount: new_locked,
        shard_id,
        index_in_chunk: 0,
    }
}

/// Emits the change record for one executed transaction's fee burn: the
/// fee leaves the paying account's liquid balance, the locked balance
/// stays, and the cache is moved to the pair after the burn at once.
/// The fee may not outgrow the resolved liquid balance, and its signed
/// negation is forced to fit the records' 128-bit delta fields.
pub fn transaction_outcome_record(
    cache: &mut BalanceCache,
    transaction: &TransactionInfo,
    prev: BalanceSnapshot,
    header: &BlockHeaderInfo,
    shard_id: u64,
) -> (r: BalanceChangeRecord)
    requires
        transaction.tokens_burnt <= prev.liquid,
        0int - transaction.tokens_burnt as int >= i128::MIN as int,
    ensures
        r.block_timestamp == header.timestamp,
        r.receipt_id is None,
        r.transaction_hash == Some(transaction.transaction_hash),
        r.affected_account_id@ == transaction.executor_id@,
        r.involved_account_id is None,
        r.direction == Direction::ActionFromAffectedAccount,
        r.cause == RecordCause::TransactionProcessing,
        r.delta_liquid_amount as int == 0int - transaction.tokens_burnt as int,
        r.absolute_liquid_amount as int == prev.liquid as int - transaction.tokens_burnt as int,
        r.delta_locked_amount == 0int,
        r.absolute_locked_amount == prev.locked,
        r.shard_id == shard_id,
        r.index_in_chunk == 0,
        follows(prev, r),
        cache_capacity(*final(cache)) == cache_capacity(*old(cache)),
        stored_entry(
            cache_contents(*old(cache)),
            cache_contents(*final(cache)),
            transaction.executor_id@,
            (r.absolute_liquid_amount, prev.locked),
            cache_capacity(*old(cache)),
        ),
{
    let new_liquid: u128 = prev.liquid - transaction.tokens_burnt;
    let delta_liquid_amount: i128 = signed_diff(new_liquid, prev.liquid);
    set_new_balances(
        cache,
        &transaction.executor_id,
        BalanceSnapshot { liquid: new_liquid, locked: prev.locked },
    );
    BalanceChangeRecord {
        block_timestamp: header.timestamp,
        receipt_id: None,
        transaction_hash: Some(transaction.transaction_hash.clone()),
        affected_account_id: transaction.executor_id.clone(),
        involved_account_id: None,
        direction: Direction::ActionFromAffectedAccount,
        cause: RecordCause::TransactionProcessing,
        delta_liquid_amount,
        absolute_liquid_amount: new_liquid,
        delta_locked_amount: 0,
        absolute_locked_amount: prev.locked,
        shard_id,
        index_in_chunk: 0,
    }
}

} // verus!
