use vstd::prelude::*;

use crate::cache::{cache_capacity, cache_contents, cache_lookup, cache_store, stored_entry,
    BalanceCache};
use crate::types::BalanceSnapshot;

verus! {

/// One step of previous-balance resolution. A resolution either completes
/// from the cache or must go to the remote account-query service, with the
/// fetched snapshot handed back through `complete_resolution`.
#[derive(Clone, Copy, PartialEq, Eq, Structural, Debug)]
pub enum ResolveStep {
    /// The cache held the account: its previous snapshot, as cached.
    Resolved(BalanceSnapshot),
    /// Cache miss: the caller must query the remote service for the
    /// account's state at the reference block, then complete the
    /// resolution so the answer is cached.
    NeedRemoteQuery,
}

/// Checks the previous-balance cache for an account. On a hit the cached
/// snapshot completes the resolution; on a miss the caller owes one remote
/// query. The cache's entries are untouched either way.
pub fn resolve_step(cache: &mut BalanceCache, account_id: &String) -> (r: ResolveStep)
    ensures
        cache_contents(*final(cache)) == cache_contents(*old(cache)),
        cache_capacity(*final(cache)) == cache_capacity(*old(cache)),
        cache_contents(*old(cache)).contains_key(account_id@) ==> r == (ResolveStep::Resolved(
            BalanceSnapshot {
                liquid: cache_contents(*old(cache))[account_id@].0,
                locked: cache_contents(*old(cache))[account_id@].1,
            },
        )),
        !cache_contents(*old(cache)).contains_key(account_id@) ==> r
            == ResolveStep::NeedRemoteQuery,
{
    match cache_lookup(cache, account_id) {
        Some(pair) => ResolveStep::Resolved(BalanceSnapshot { liquid: pair.0, locked: pair.1 }),
        None => ResolveStep::NeedRemoteQuery,
    }
}

/// Finishes a missed resolution: caches the remotely fetched snapshot
/// under the account and returns it, so no later event for this account
/// owes a second remote query while the entry survives.
pub fn complete_resolution(
    cache: &mut BalanceCache,
    account_id: &String,
    fetched: BalanceSnapshot,
) -> (r: BalanceSnapshot)
    ensures
        r == fetched,
        cache_capacity(*final(cache)) == cache_capacity(*old(cache)),
        stored_entry(
            cache_contents(*old(cache)),
            cache_contents(*final(cache)),
            account_id@,
            (fetched.liquid, fetched.locked),
            cache_capacity(*old(cache)),
        ),
{
    cache_store(cache, account_id.clone(), (fetched.liquid, fetched.locked));
    fetched
}

/// Writes an account's balances as just changed by an event, so that a
/// later event in the same block sees the fresh pair, not a stale one.
pub fn set_new_balances(cache: &mut BalanceCache, account_id: &String, new: BalanceSnapshot)
    ensures
        cache_capacity(*final(cache)) == cache_capacity(*old(cache)),
        stored_entry(
            cache_contents(*old(cache)),
            cache_contents(*final(cache)),
            account_id@,
            (new.liquid, new.locked),
            cache_capacity(*old(cache)),
        ),
{
    cache_store(cache, account_id.clone(), (new.liquid, new.locked));
}

} // verus!
