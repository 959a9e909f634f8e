use vstd::prelude::*;

verus! {

/// An account's full balance state at one point in chain history:
/// the spendable amount and the staked amount, both in the chain's
/// smallest token unit. A new snapshot replaces an old one; a snapshot
/// itself never changes.
#[derive(Clone, Copy, PartialEq, Eq, Structural, Debug)]
pub struct BalanceSnapshot {
    pub liquid: u128,
    pub locked: u128,
}

/// Whether the affected account took the action that moved its balance.
#[derive(Clone, Copy, PartialEq, Eq, Structural, Debug)]
pub enum Direction {
    Unspecified,
    ActionFromAffectedAccount,
}

/// Why an emitted balance change occurred.
#[derive(Clone, Copy, PartialEq, Eq, Structural, Debug)]
pub enum RecordCause {
    ValidatorAccountsUpdate,
    TransactionProcessing,
}

/// One row of output: an account's balance movement within one shard of
/// one block, with its cause and both resulting absolute amounts.
#[derive(Clone, Debug)]
pub struct BalanceChangeRecord {
    pub block_timestamp: u64,
    pub receipt_id: Option<String>,
    pub transaction_hash: Option<String>,
    pub affected_account_id: String,
    pub involved_account_id: Option<String>,
    pub direction: Direction,
    pub cause: RecordCause,
    pub delta_liquid_amount: i128,
    pub absolute_liquid_amount: u128,
    pub delta_locked_amount: i128,
    pub absolute_locked_amount: u128,
    pub shard_id: u64,
    pub index_in_chunk: usize,
}

/// A record's absolute amounts are exactly the previous snapshot moved
/// by the record's deltas, for liquid and locked amounts alike.
pub open spec fn follows(prev: BalanceSnapshot, r: BalanceChangeRecord) -> bool {
    &&& r.absolute_liquid_amount as int == prev.liquid as int + r.delta_liquid_amount as int
    &&& r.absolute_locked_amount as int == prev.locked as int + r.delta_locked_amount as int
}

/// What the block-processing invocation reads off a block's header.
#[derive(Clone, Debug)]
pub struct BlockHeaderInfo {
    /// Nanoseconds since the epoch.
    pub timestamp: u64,
    /// The block's own hash, rendered as text.
    pub hash: String,
    /// The parent block's hash: the reference point for previous balances.
    pub prev_hash: String,
}

/// The protocol-level reason a state-change event occurred.
#[derive(Clone, Copy, PartialEq, Eq, Structural, Debug)]
pub enum StateChangeCause {
    NotWritableToDisk,
    InitialState,
    TransactionProcessing,
    ActionReceiptProcessingStarted,
    ActionReceiptGasReward,
    ReceiptProcessing,
    PostponedReceipt,
    UpdatedDelayedReceipts,
    ValidatorAccountsUpdate,
    Migration,
    Resharding,
}

/// The payload of a state-change event. Only full account updates carry
/// balances this engine reads; every other payload kind is unrelated.
#[derive(Clone, Debug)]
pub enum StateChangeValue {
    AccountUpdate { account_id: String, liquid: u128, locked: u128 },
    Unrelated,
}

/// One state-change event of a shard, in source order.
#[derive(Clone, Debug)]
pub struct StateChangeEvent {
    pub cause: StateChangeCause,
    pub value: StateChangeValue,
}

/// What the transaction extractor reads off one executed transaction.
#[derive(Clone, Debug)]
pub struct TransactionInfo {
    /// The transaction's hash, rendered as text.
    pub transaction_hash: String,
    /// The account that paid the transaction fee.
    pub executor_id: String,
    /// The fee, burnt from the executor's liquid balance.
    pub tokens_burnt: u128,
}

/// The remote point-in-time balance query failed: the account did not
/// exist at the reference block, the service was unreachable, or its
/// answer was malformed. Fatal for the block being processed.
#[derive(Clone, Debug)]
pub struct ResolutionError {
    pub account_id: String,
}

/// A state-change event carried a cause this engine does not model on an
/// account update. Fatal: such an event needs investigation, not skipping.
#[derive(Clone, Copy, PartialEq, Eq, Structural, Debug)]
pub struct UnrecognizedCauseError {
    pub cause: StateChangeCause,
}

/// A storage sub-batch insert failed; the position of the first failing
/// sub-batch is kept so the failure is reported, never swallowed.
#[derive(Clone, Copy, PartialEq, Eq, Structural, Debug)]
pub struct StorageError {
    pub sub_batch_index: usize,
}

/// The textual tag of a direction, as stored downstream.
pub open spec fn direction_label_spec(d: Direction) -> Seq<char> {
    match d {
        Direction::Unspecified => "NONE"@,
        Direction::ActionFromAffectedAccount => "ACTION_FROM_AFFECTED_ACCOUNT"@,
    }
}

/// The textual tag of a record cause, as stored downstream.
pub open spec fn cause_label_spec(c: RecordCause) -> Seq<char> {
    match c {
        RecordCause::ValidatorAccountsUpdate => "VALIDATOR_ACCOUNTS_UPDATE"@,
        RecordCause::TransactionProcessing => "TRANSACTION_PROCESSING"@,
    }
}

/// Renders a direction as its downstream tag; the tag is never empty.
pub fn direction_label(d: &Direction) -> (r: String)
    ensures
        r@ == direction_label_spec(*d),
        r@.len() > 0,
{
    proof {
        reveal_strlit("NONE");
        reveal_strlit("ACTION_FROM_AFFECTED_ACCOUNT");
    }
    match d {
        Direction::Unspecified => String::from_str("NONE"),
        Direction::ActionFromAffectedAccount => String::from_str("ACTION_FROM_AFFECTED_ACCOUNT"),
    }
}

/// Renders a record cause as its downstream tag; the tag is never empty.
pub fn cause_label(c: &RecordCause) -> (r: String)
    ensures
        r@ == cause_label_spec(*c),
        r@.len() > 0,
{
    proof {
        reveal_strlit("VALIDATOR_ACCOUNTS_UPDATE");
        reveal_strlit("TRANSACTION_PROCESSING");
    }
    match c {
        RecordCause::ValidatorAccountsUpdate => String::from_str("VALIDATOR_ACCOUNTS_UPDATE"),
        RecordCause::TransactionProcessing => String::from_str("TRANSACTION_PROCESSING"),
    }
}

} // verus!
