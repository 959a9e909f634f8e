use vstd::prelude::*;

use crate::cache::stored_entry;
use crate::types::{follows, BalanceChangeRecord, BalanceSnapshot};

verus! {

/// The snapshot a record at position `i` of a per-account event chain is
/// measured against: the starting snapshot for the first record, and the
/// previous record's absolute amounts afterwards.
pub open spec fn prev_snapshot_at(
    start: BalanceSnapshot,
    rs: Seq<BalanceChangeRecord>,
    i: int,
) -> BalanceSnapshot {
    if i == 0 {
        start
    } else {
        BalanceSnapshot {
            liquid: rs[i - 1].absolute_liquid_amount,
            locked: rs[i - 1].absolute_locked_amount,
        }
    }
}

/// A chain of balance-affecting records for one account: each record's
/// absolute amounts extend what the chain had reached so far by the
/// record's own deltas. The extractors build exactly such chains, since
/// every emitted record follows the snapshot the cache held for the
/// account right before the event.
pub open spec fn chained(start: BalanceSnapshot, rs: Seq<BalanceChangeRecord>) -> bool {
    forall|i: int| 0 <= i < rs.len() ==> follows(prev_snapshot_at(start, rs, i), #[trigger] rs[i])
}

/// Chained consistency: along any chain of balance-affecting records for
/// one account, every record's absolute amount is the preceding record's
/// absolute amount plus the record's delta, for liquid and locked amounts
/// alike.
pub proof fn lemma_chained_consistency(
    start: BalanceSnapshot,
    rs: Seq<BalanceChangeRecord>,
    i: int,
)
    requires
        chained(start, rs),
        1 <= i < rs.len(),
    ensures
        rs[i].absolute_liquid_amount as int == rs[i - 1].absolute_liquid_amount as int
            + rs[i].delta_liquid_amount as int,
        rs[i].absolute_locked_amount as int == rs[i - 1].absolute_locked_amount as int
            + rs[i].delta_locked_amount as int,
{
    assert(follows(prev_snapshot_at(start, rs, i), rs[i]));
}

/// The first record of a chain is measured against the starting snapshot
/// itself.
pub proof fn lemma_chain_start(start: BalanceSnapshot, rs: Seq<BalanceChangeRecord>)
    requires
        chained(start, rs),
        rs.len() > 0,
    ensures
        rs[0].absolute_liquid_amount as int == start.liquid as int
            + rs[0].delta_liquid_amount as int,
        rs[0].absolute_locked_amount as int == start.locked as int
            + rs[0].delta_locked_amount as int,
{
    assert(follows(prev_snapshot_at(start, rs, 0), rs[0]));
}

/// A chain grows by one record exactly when the new record follows the
/// absolute amounts the chain had reached: emitting records in event
/// order against the freshly cached pair keeps a per-account output
/// chained.
pub proof fn lemma_chain_extend(
    start: BalanceSnapshot,
    rs: Seq<BalanceChangeRecord>,
    r: BalanceChangeRecord,
)
    requires
        chained(start, rs),
        follows(prev_snapshot_at(start, rs.push(r), rs.len() as int), r),
    ensures
        chained(start, rs.push(r)),
{
    let rs2 = rs.push(r);
    assert forall|i: int|
        0 <= i < rs2.len() implies follows(
        prev_snapshot_at(start, rs2, i),
        #[trigger] rs2[i],
    ) by {
        if i < rs.len() {
            assert(rs2[i] == rs[i]);
            if i > 0 {
                assert(rs2[i - 1] == rs[i - 1]);
            }
            assert(follows(prev_snapshot_at(start, rs, i), rs[i]));
        }
    }
}

/// Exactly-once resolution: once an account's pair stands in the cache —
/// put there by its first resolution or by an event's write — a later
/// write for any account keeps it there, with its value untouched unless
/// that write was for this very account, provided the write found the key
/// already present or the cache below its bound. A later resolution for
/// the account therefore completes from the cache and owes no second
/// remote query.
pub proof fn lemma_no_repeat_remote(
    m0: Map<Seq<char>, (u128, u128)>,
    m1: Map<Seq<char>, (u128, u128)>,
    account: Seq<char>,
    written: Seq<char>,
    pair: (u128, u128),
    cap: nat,
)
    requires
        m0.contains_key(account),
        stored_entry(m0, m1, written, pair, cap),
        written == account || m0.contains_key(written) || m0.dom().len() < cap,
    ensures
        m1.contains_key(account),
        written != account ==> m1[account] == m0[account],
{
    if written == account {
    } else {
        assert(m1 == m0.insert(written, pair));
        assert(m1.contains_key(account));
    }
}

/// In-shard freshness: right after an event's write of an account's new
/// pair, a resolution for that account yields the written pair — the
/// second of two events for one account in a shard sees the first
/// event's result, never the pair cached before the block.
pub proof fn lemma_second_event_sees_first(
    m0: Map<Seq<char>, (u128, u128)>,
    m1: Map<Seq<char>, (u128, u128)>,
    account: Seq<char>,
    pair: (u128, u128),
    cap: nat,
)
    requires
        stored_entry(m0, m1, account, pair, cap),
    ensures
        m1.contains_key(account),
        m1[account] == pair,
{
}

} // verus!
