use vstd::prelude::*;

verus! {

/// The previous-balance cache: a bounded, least-recently-used map from
/// account identifier to the account's last observed (liquid, locked)
/// pair. One cache is shared by every extractor run of a block.
pub type BalanceCache = cached::SizedCache<String, (u128, u128)>;

#[verifier::external_type_specification]
#[verifier::external_body]
#[verifier::reject_recursive_types(K)]
#[verifier::reject_recursive_types(V)]
pub struct ExSizedCache<K, V>(cached::SizedCache<K, V>);

/// The entries a balance cache currently holds, as a map from account
/// identifier to the cached (liquid, locked) pair.
pub uninterp spec fn cache_contents(c: BalanceCache) -> Map<Seq<char>, (u128, u128)>;

/// The entry bound the cache was created with: above it, writes evict.
pub uninterp spec fn cache_capacity(c: BalanceCache) -> nat;

/// What one write leaves behind: the written pair is present, every other
/// surviving entry is carried over unchanged, and when the key was already
/// present or the cache had room, nothing is evicted at all.
pub open spec fn stored_entry(
    m0: Map<Seq<char>, (u128, u128)>,
    m1: Map<Seq<char>, (u128, u128)>,
    k: Seq<char>,
    v: (u128, u128),
    cap: nat,
) -> bool {
    &&& m1.dom().finite()
    &&& m1.dom().len() <= cap
    &&& m1.contains_key(k)
    &&& m1[k] == v
    &&& forall|k2: Seq<char>|
        (#[trigger] m1.contains_key(k2)) && k2 != k ==> m0.contains_key(k2) && m1[k2] == m0[k2]
    &&& (m0.contains_key(k) || m0.dom().len() < cap) ==> m1 == m0.insert(k, v)
}

/// Relies on cached::SizedCache::with_size: a fresh cache is empty and was
/// built for exactly `size` entries; with_size panics on size zero.
#[verifier::external_body]
pub(crate) fn cache_with_size(size: usize) -> (r: BalanceCache)
    requires
        size > 0,
    ensures
        cache_contents(r).dom() == Set::<Seq<char>>::empty(),
        cache_capacity(r) == size,
{
    cached::SizedCache::with_size(size)
}

/// Relies on cached::Cached::cache_set on SizedCache: the pair is stored
/// under the key; a replaced key or a cache with room evicts nothing, and
/// otherwise only the least recently used entry leaves.
#[verifier::external_body]
pub(crate) fn cache_store(c: &mut BalanceCache, key: String, val: (u128, u128))
    ensures
        cache_capacity(*final(c)) == cache_capacity(*old(c)),
        stored_entry(
            cache_contents(*old(c)),
            cache_contents(*final(c)),
            key@,
            val,
            cache_capacity(*old(c)),
        ),
{
    cached::Cached::cache_set(c, key, val);
}

/// Relies on cached::Cached::cache_get on SizedCache: returns the stored
/// pair exactly when the key is present, refreshing its recency and
/// changing no entry.
#[verifier::external_body]
pub(crate) fn cache_lookup(c: &mut BalanceCache, key: &String) -> (r: Option<(u128, u128)>)
    ensures
        cache_contents(*final(c)) == cache_contents(*old(c)),
        cache_capacity(*final(c)) == cache_capacity(*old(c)),
        r == (if cache_contents(*old(c)).contains_key(key@) {
            Some(cache_contents(*old(c))[key@])
        } else {
            None
        }),
{
    cached::Cached::cache_get(c, key).copied()
}

/// Builds the process-wide previous-balance cache: empty, with a fixed
/// entry bound.
pub fn new_balance_cache(capacity: usize) -> (r: BalanceCache)
    requires
        capacity > 0,
    ensures
        cache_contents(r).dom() == Set::<Seq<char>>::empty(),
        cache_capacity(r) == capacity,
{
    cache_with_size(capacity)
}

} // verus!
