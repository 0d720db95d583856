use vstd::prelude::*;

verus! {

/// Fixed capacity of the variant cache, counted in entries.
pub const CACHE_CAPACITY: usize = 100;

/// Fixed-capacity in-memory mapping from cache key to encoded variant
/// bytes, backed by a single-shard `quick_cache::sync::Cache` with one
/// unit of weight per entry. Eviction under capacity pressure is
/// recency-based and approximate; an entry is only ever written as the
/// completed result of a successful transform, and a manual clear empties
/// the whole mapping.
#[verifier::external_body]
pub struct VariantCache {
    inner: quick_cache::sync::Cache<String, Vec<u8>>,
}

/// The entries the cache currently holds, as a map from key to stored bytes.
pub uninterp spec fn cache_contents(c: VariantCache) -> Map<Seq<char>, Seq<u8>>;

/// The contents of a cache that holds nothing.
pub open spec fn empty_contents() -> Map<Seq<char>, Seq<u8>> {
    Map::empty()
}

/// What a lookup of `k` in contents `m` yields.
pub open spec fn spec_lookup(m: Map<Seq<char>, Seq<u8>>, k: Seq<char>) -> Option<Seq<u8>> {
    if m.dom().contains(k) {
        Some(m[k])
    } else {
        None
    }
}

impl VariantCache {
    /// The current contents, as a finite map of at most `CACHE_CAPACITY` entries.
    pub open spec fn contents(&self) -> Map<Seq<char>, Seq<u8>> {
        cache_contents(*self)
    }

    /// Relies on `quick_cache::sync::Cache::with_options`: a single-shard
    /// unit-weight cache of weight capacity `CACHE_CAPACITY` starts empty.
    #[verifier::external_body]
    fn fresh_raw() -> (c: Self)
        ensures
            cache_contents(c) == empty_contents(),
    {
        VariantCache {
            inner: quick_cache::sync::Cache::with_options(
                quick_cache::OptionsBuilder::new()
                    .shards(1)
                    .estimated_items_capacity(CACHE_CAPACITY)
                    .weight_capacity(CACHE_CAPACITY as u64)
                    .build()
                    .unwrap(),
                quick_cache::UnitWeighter,
                Default::default(),
                Default::default(),
            ),
        }
    }

    /// Relies on `quick_cache::sync::Cache::get`: returns a clone of the
    /// stored value exactly when the key is resident.
    #[verifier::external_body]
    fn lookup_raw(&self, key: &String) -> (r: Option<Vec<u8>>)
        ensures
            match r {
                Some(v) => spec_lookup(cache_contents(*self), key@) == Some(v@),
                None => spec_lookup(cache_contents(*self), key@) is None,
            },
    {
        self.inner.get(key)
    }

    /// Relies on `quick_cache::sync::Cache::insert` on a single-shard
    /// unit-weight cache: no other entry ever changes its value; nothing
    /// is evicted unless the cache was full, and then only under the
    /// capacity bound; below capacity, and on a key already resident, the
    /// insert is exact, so the written pair is resident afterwards.
    #[verifier::external_body]
    fn store_raw(&mut self, key: String, value: Vec<u8>)
        ensures
            cache_contents(*old(self)).dom().len() < CACHE_CAPACITY as int || cache_contents(
                *old(self),
            ).dom().contains(key@) ==> cache_contents(*final(self)).contains_pair(key@, value@),
            cache_contents(*final(self)).dom().subset_of(
                cache_contents(*old(self)).dom().insert(key@),
            ),
            forall|k2: Seq<char>|
                cache_contents(*final(self)).dom().contains(k2) && k2 != key@
                    ==> cache_contents(*old(self)).contains_pair(
                    k2,
                    cache_contents(*final(self))[k2],
                ),
            cache_contents(*old(self)).dom().len() < CACHE_CAPACITY as int
                ==> cache_contents(*final(self)) == cache_contents(*old(self)).insert(
                key@,
                value@,
            ),
            cache_contents(*old(self)).dom().contains(key@)
                ==> cache_contents(*final(self)) == cache_contents(*old(self)).insert(
                key@,
                value@,
            ),
            cache_contents(*final(self)).dom().finite(),
            cache_contents(*final(self)).dom().len() <= CACHE_CAPACITY as int,
    {
        self.inner.insert(key, value);
    }

    /// Relies on `quick_cache::sync::Cache::clear`: every entry is removed.
    #[verifier::external_body]
    fn wipe_raw(&mut self)
        ensures
            cache_contents(*final(self)) == empty_contents(),
    {
        self.inner.clear();
    }

    pub fn new() -> (c: Self)
        ensures
            c.contents() == empty_contents(),
    {
        VariantCache::fresh_raw()
    }

    /// O(1) expected lookup of the variant stored under `key`, if any.
    pub fn get(&self, key: &String) -> (r: Option<Vec<u8>>)
        ensures
            match r {
                Some(v) => spec_lookup(self.contents(), key@) == Some(v@),
                None => spec_lookup(self.contents(), key@) is None,
            },
    {
        self.lookup_raw(key)
    }

    /// Insert or replace the entry under `key`. Absent capacity eviction
    /// (the cache had room, or already held the key), the written pair is
    /// present afterwards; other entries are never changed in place,
    /// though some may be evicted once the capacity bound is reached.
    pub fn set(&mut self, key: String, value: Vec<u8>)
        ensures
            old(self).contents().dom().len() < CACHE_CAPACITY as int || old(
                self,
            ).contents().dom().contains(key@) ==> final(self).contents().contains_pair(
                key@,
                value@,
            ),
            final(self).contents().dom().subset_of(old(self).contents().dom().insert(key@)),
            forall|k2: Seq<char>|
                final(self).contents().dom().contains(k2) && k2 != key@
                    ==> old(self).contents().contains_pair(k2, final(self).contents()[k2]),
            old(self).contents().dom().len() < CACHE_CAPACITY as int
                ==> final(self).contents() == old(self).contents().insert(key@, value@),
            old(self).contents().dom().contains(key@)
                ==> final(self).contents() == old(self).contents().insert(key@, value@),
            final(self).contents().dom().finite(),
            final(self).contents().dom().len() <= CACHE_CAPACITY as int,
    {
        self.store_raw(key, value)
    }

    /// Empty the cache in one step.
    pub fn clear(&mut self)
        ensures
            final(self).contents() == empty_contents(),
    {
        self.wipe_raw()
    }
}

/// Law: a value just written is read back. After `set(k, b)` on a cache
/// that had room, or that already held `k`, the pair is resident, so an
/// immediate `get(k)` observes exactly `b`.
pub proof fn lemma_set_then_get(post: Map<Seq<char>, Seq<u8>>, k: Seq<char>, b: Seq<u8>)
    requires
        post.contains_pair(k, b),
    ensures
        spec_lookup(post, k) == Some(b),
{
}

/// Law: after a clear, a get of any previously set key reports it absent.
pub proof fn lemma_clear_then_get(k: Seq<char>)
    ensures
        spec_lookup(empty_contents(), k) is None,
{
}

} // verus!
