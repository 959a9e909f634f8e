use vstd::prelude::*;

use crate::types::{BalanceChangeRecord, StorageError};

verus! {

/// How many rows one storage insert call may carry.
pub const SUB_BATCH_ROWS: usize = 10;

/// Two records that agree on everything but their position in the chunk.
pub open spec fn same_but_index(a: BalanceChangeRecord, b: BalanceChangeRecord) -> bool {
    &&& a.block_timestamp == b.block_timestamp
    &&& a.receipt_id == b.receipt_id
    &&& a.transaction_hash == b.transaction_hash
    &&& a.affected_account_id == b.affected_account_id
    &&& a.involved_account_id == b.involved_account_id
    &&& a.direction == b.direction
    &&& a.cause == b.cause
    &&& a.delta_liquid_amount == b.delta_liquid_amount
    &&& a.absolute_liquid_amount == b.absolute_liquid_amount
    &&& a.delta_locked_amount == b.delta_locked_amount
    &&& a.absolute_locked_amount == b.absolute_locked_amount
    &&& a.shard_id == b.shard_id
}

/// Merges one shard's two producer outputs into the shard's batch:
/// validator-update records first, then transaction-outcome records, each
/// group in emission order, and every record numbered by its 0-based
/// position in the concatenation.
pub fn assemble(
    validator_records: Vec<BalanceChangeRecord>,
    transaction_records: Vec<BalanceChangeRecord>,
) -> (r: Vec<BalanceChangeRecord>)
    ensures
        r@.len() == validator_records@.len() + transaction_records@.len(),
        forall|i: int| 0 <= i < r@.len() ==> (#[trigger] r@[i]).index_in_chunk == i,
        forall|i: int|
            0 <= i < validator_records@.len() ==> same_but_index(
                #[trigger] r@[i],
                validator_records@[i],
            ),
        forall|i: int|
            0 <= i < transaction_records@.len() ==> same_but_index(
                #[trigger] r@[validator_records@.len() + i],
                transaction_records@[i],
            ),
{
    let ghost v0 = validator_records@;
    let ghost t0 = transaction_records@;
    let mut out: Vec<BalanceChangeRecord> = Vec::new();
    let mut rest = validator_records;
    while rest.len() > 0
        invariant
            out@.len() + rest@.len() == v0.len(),
            forall|i: int| 0 <= i < rest@.len() ==> rest@[i] == v0[out@.len() + i],
            forall|i: int| 0 <= i < out@.len() ==> (#[trigger] out@[i]).index_in_chunk == i,
            forall|i: int| 0 <= i < out@.len() ==> same_but_index(#[trigger] out@[i], v0[i]),
        decreases rest@.len(),
    {
        let mut rec = rest.remove(0);
        rec.index_in_chunk = out.len();
        out.push(rec);
    }
    let mut rest = transaction_records;
    while rest.len() > 0
        invariant
            out@.len() + rest@.len() == v0.len() + t0.len(),
            out@.len() >= v0.len(),
            forall|i: int| 0 <= i < rest@.len() ==> rest@[i] == t0[out@.len() - v0.len() + i],
            forall|i: int| 0 <= i < out@.len() ==> (#[trigger] out@[i]).index_in_chunk == i,
            forall|i: int| 0 <= i < v0.len() ==> same_but_index(#[trigger] out@[i], v0[i]),
            forall|i: int|
                v0.len() <= i < out@.len() ==> same_but_index(
                    #[trigger] out@[i],
                    t0[i - v0.len()],
                ),
        decreases rest@.len(),
    {
        let mut rec = rest.remove(0);
        rec.index_in_chunk = out.len();
        out.push(rec);
    }
    out
}

/// Cuts a batch of `n` rows into the bounds of its storage sub-batches:
/// consecutive half-open ranges that start at 0, end at `n`, and are all
/// of `size` rows but for a shorter final one. The cutting is purely a
/// transport concern; it neither reorders nor drops rows.
pub fn sub_batch_bounds(n: usize, size: usize) -> (r: Vec<(usize, usize)>)
    requires
        size > 0,
    ensures
        n == 0 ==> r@.len() == 0,
        n > 0 ==> r@.len() > 0,
        n > 0 ==> r@[0].0 == 0,
        n > 0 ==> r@[r@.len() - 1].1 == n,
        forall|i: int| 0 <= i < r@.len() ==> (#[trigger] r@[i]).0 < r@[i].1,
        forall|i: int| 0 <= i < r@.len() ==> (#[trigger] r@[i]).1 - r@[i].0 <= size,
        forall|i: int| 0 <= i < r@.len() - 1 ==> (#[trigger] r@[i]).1 == r@[i + 1].0,
        forall|i: int| 0 <= i < r@.len() - 1 ==> (#[trigger] r@[i]).1 - r@[i].0 == size,
{
    let mut r: Vec<(usize, usize)> = Vec::new();
    let mut start: usize = 0;
    while start < n
        invariant
            start <= n,
            size > 0,
            (r@.len() == 0) <==> (start == 0),
            r@.len() > 0 ==> r@[0].0 == 0,
            r@.len() > 0 ==> r@[r@.len() - 1].1 == start,
            forall|i: int| 0 <= i < r@.len() ==> (#[trigger] r@[i]).0 < r@[i].1,
            forall|i: int| 0 <= i < r@.len() ==> (#[trigger] r@[i]).1 - r@[i].0 <= size,
            forall|i: int| 0 <= i < r@.len() - 1 ==> (#[trigger] r@[i]).1 == r@[i + 1].0,
            forall|i: int| 0 <= i < r@.len() - 1 ==> (#[trigger] r@[i]).1 - r@[i].0 == size,
            start < n && r@.len() > 0 ==> r@[r@.len() - 1].1 - r@[r@.len() - 1].0 == size,
        decreases n - start,
    {
        let end: usize = if n - start > size {
            start + size
        } else {
            n
        };
        r.push((start, end));
        start = end;
    }
    r
}

/// Scans per-sub-batch insert outcomes and surfaces the first failure, so
/// a failed sub-batch is never silently ignored; answers nothing exactly
/// when every sub-batch insert succeeded.
pub fn first_failure(succeeded: &Vec<bool>) -> (r: Option<StorageError>)
    ensures
        (r is None) <==> (forall|i: int| 0 <= i < succeeded@.len() ==> succeeded@[i]),
        r matches Some(e) ==> e.sub_batch_index < succeeded@.len() && succeeded@[
            e.sub_batch_index as int
        ] == false && (forall|j: int| 0 <= j < e.sub_batch_index ==> succeeded@[j]),
{
    let mut i: usize = 0;
    while i < succeeded.len()
        invariant
            i <= succeeded@.len(),
            forall|j: int| 0 <= j < i ==> succeeded@[j],
        decreases succeeded@.len() - i,
    {
        if !succeeded[i] {
            return Some(StorageError { sub_batch_index: i });
        }
        i += 1;
    }
    None
}

} // verus!
