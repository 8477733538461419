//! The backing store of the cache: a mapping from cache key to cached entry.
//!
//! The store is a plain owned value; [`crate::cache::TokenCache`] wraps it in
//! a reader-writer lock. Its view is the `Map` from key views to entry
//! views, and `put` and `lookup` are specified exactly against that map.

use crate::reference::Reference;
use crate::token::RegistryOperation;
use crate::token::RegistryTokenType;
use crate::token::RegistryTokenTypeView;
use vstd::prelude::*;
use vstd::string::StringExecFns;

verus! {

/// Ghost form of [`CacheKey`].
pub struct CacheKeyView {
    pub registry: Seq<char>,
    pub repository: Seq<char>,
    pub operation: RegistryOperation,
}

/// The key a credential is cached under: a resolved registry host, a
/// repository path, and the requested operation. Two keys name the same
/// entry exactly when all three parts are equal.
pub struct CacheKey {
    /// The resolved registry host.
    pub registry: String,
    /// The repository path within the registry.
    pub repository: String,
    /// The operation the credential was granted for.
    pub operation: RegistryOperation,
}

impl View for CacheKey {
    type V = CacheKeyView;

    open spec fn view(&self) -> CacheKeyView {
        CacheKeyView {
            registry: self.registry@,
            repository: self.repository@,
            operation: self.operation,
        }
    }
}

impl CacheKey {
    /// The key under which a credential for `reference` and `op` is cached.
    /// The key owns copies of the registry and repository strings, so a
    /// cached entry outlives the reference that produced it.
    pub fn of(reference: &Reference, op: RegistryOperation) -> (r: Self)
        ensures
            r@ == (CacheKeyView {
                registry: reference@.registry,
                repository: reference@.repository,
                operation: op,
            }),
    {
        CacheKey {
            registry: String::from_str(reference.resolve_registry()),
            repository: String::from_str(reference.repository()),
            operation: op,
        }
    }

    /// Whether two keys name the same cache entry.
    pub fn equals(&self, other: &CacheKey) -> (r: bool)
        ensures
            r == (self@ == other@),
    {
        self.registry == other.registry && self.repository == other.repository
            && self.operation == other.operation
    }
}

/// Ghost form of [`CacheEntry`].
pub struct CacheEntryView {
    pub token: RegistryTokenTypeView,
    pub expiration: u64,
}

/// A cached credential together with the absolute instant (seconds since the
/// Unix epoch) at which it stops being served. The expiration is resolved
/// once, at insertion time, and never recomputed.
pub struct CacheEntry {
    /// The cached credential.
    pub token: RegistryTokenType,
    /// Seconds since the Unix epoch after which the entry is stale.
    pub expiration: u64,
}

impl View for CacheEntry {
    type V = CacheEntryView;

    open spec fn view(&self) -> CacheEntryView {
        CacheEntryView { token: self.token@, expiration: self.expiration }
    }
}

/// The mapping a sequence of key/entry pairs represents; a later pair for
/// the same key wins.
spec fn map_of(s: Seq<(CacheKey, CacheEntry)>) -> Map<CacheKeyView, CacheEntryView>
    decreases s.len(),
{
    if s.len() == 0 {
        Map::empty()
    } else {
        map_of(s.drop_last()).insert(s.last().0@, s.last().1@)
    }
}

/// Whether no two pairs of `s` carry the same key.
spec fn keys_unique(s: Seq<(CacheKey, CacheEntry)>) -> bool {
    forall|i: int, j: int| 0 <= i < j < s.len() ==> s[i].0@ != s[j].0@
}

proof fn lemma_map_of_contains(s: Seq<(CacheKey, CacheEntry)>, k: CacheKeyView)
    ensures
        map_of(s).contains_key(k) <==> exists|i: int| 0 <= i < s.len() && s[i].0@ == k,
    decreases s.len(),
{
    if s.len() > 0 {
        lemma_map_of_contains(s.drop_last(), k);
        if s.last().0@ == k {
            assert(s[s.len() - 1].0@ == k);
        } else {
            if map_of(s).contains_key(k) {
                let i = choose|i: int|
                    0 <= i < s.drop_last().len() && s.drop_last()[i].0@ == k;
                assert(s[i].0@ == k);
            }
            if exists|i: int| 0 <= i < s.len() && s[i].0@ == k {
                let i = choose|i: int| 0 <= i < s.len() && s[i].0@ == k;
                assert(s.drop_last()[i].0@ == k);
            }
        }
    }
}

proof fn lemma_map_of_index(s: Seq<(CacheKey, CacheEntry)>, i: int)
    requires
        keys_unique(s),
        0 <= i < s.len(),
    ensures
        map_of(s).contains_key(s[i].0@),
        map_of(s)[s[i].0@] == s[i].1@,
    decreases s.len(),
{
    if i < s.len() - 1 {
        assert(keys_unique(s.drop_last())) by {
            assert forall|a: int, b: int|
                0 <= a < b < s.drop_last().len() implies s.drop_last()[a].0@
                != s.drop_last()[b].0@ by {
                assert(s[a].0@ != s[b].0@);
            }
        }
        lemma_map_of_index(s.drop_last(), i);
        assert(s.drop_last()[i] == s[i]);
        assert(s.last().0@ != s[i].0@);
    }
}

proof fn lemma_map_of_update(s: Seq<(CacheKey, CacheEntry)>, i: int, kv: (CacheKey, CacheEntry))
    requires
        keys_unique(s),
        0 <= i < s.len(),
        kv.0@ == s[i].0@,
    ensures
        map_of(s.update(i, kv)) == map_of(s).insert(kv.0@, kv.1@),
    decreases s.len(),
{
    let t = s.update(i, kv);
    if i == s.len() - 1 {
        assert(t.drop_last() =~= s.drop_last());
        assert(t.last() == kv);
        assert(map_of(s).insert(kv.0@, kv.1@) =~= map_of(s.drop_last()).insert(kv.0@, kv.1@));
    } else {
        assert(keys_unique(s.drop_last())) by {
            assert forall|a: int, b: int|
                0 <= a < b < s.drop_last().len() implies s.drop_last()[a].0@
                != s.drop_last()[b].0@ by {
                assert(s[a].0@ != s[b].0@);
            }
        }
        lemma_map_of_update(s.drop_last(), i, kv);
        assert(t.drop_last() =~= s.drop_last().update(i, kv));
        assert(t.last() == s.last());
        assert(s.last().0@ != kv.0@);
        assert(map_of(s.drop_last()).insert(kv.0@, kv.1@).insert(s.last().0@, s.last().1@)
            =~= map_of(s.drop_last()).insert(s.last().0@, s.last().1@).insert(kv.0@, kv.1@));
    }
}

proof fn lemma_map_of_push(s: Seq<(CacheKey, CacheEntry)>, kv: (CacheKey, CacheEntry))
    ensures
        map_of(s.push(kv)) == map_of(s).insert(kv.0@, kv.1@),
{
    assert(s.push(kv).drop_last() =~= s);
    assert(s.push(kv).last() == kv);
}

/// What a lookup at time `now` returns from cache contents `m`: the token
/// stored under `k`, unless the key is absent or the entry's expiration lies
/// strictly in the past. An entry whose expiration equals `now` is still
/// served: expiry is exclusive.
pub open spec fn spec_lookup(
    m: Map<CacheKeyView, CacheEntryView>,
    k: CacheKeyView,
    now: u64,
) -> Option<RegistryTokenTypeView> {
    if m.contains_key(k) && now <= m[k].expiration {
        Some(m[k].token)
    } else {
        None
    }
}

/// The mapping from cache key to entry that the cache owns. Entries are
/// created by `put`, read and never mutated by `lookup`, and never deleted:
/// an expired entry is left in place and reported as absent on lookup.
pub struct TokenStore {
    entries: Vec<(CacheKey, CacheEntry)>,
}

impl View for TokenStore {
    type V = Map<CacheKeyView, CacheEntryView>;

    closed spec fn view(&self) -> Map<CacheKeyView, CacheEntryView> {
        map_of(self.entries@)
    }
}

impl TokenStore {
    /// Internal invariant: no two stored pairs carry the same key, so the
    /// store represents a mapping.
    pub closed spec fn wf(&self) -> bool {
        keys_unique(self.entries@)
    }

    /// An empty store.
    pub fn new() -> (r: Self)
        ensures
            r@ == Map::<CacheKeyView, CacheEntryView>::empty(),
            r.wf(),
    {
        TokenStore { entries: Vec::new() }
    }

    /// The position of `key` among the stored pairs, if it is present.
    fn find_index(&self, key: &CacheKey) -> (r: Option<usize>)
        ensures
            match r {
                Some(i) => i < self.entries@.len() && self.entries@[i as int].0@ == key@,
                None => forall|j: int| 0 <= j < self.entries@.len() ==> self.entries@[j].0@ != key@,
            },
    {
        let n = self.entries.len();
        let mut i: usize = 0;
        while i < n
            invariant
                i <= n,
                n == self.entries@.len(),
                forall|j: int| 0 <= j < i ==> self.entries@[j].0@ != key@,
            decreases n - i,

        {
            if self.entries[i].0.equals(key) {
                return Some(i);
            }
            i = i + 1;
        }
        None
    }

    /// Stores `entry` under `key`, overwriting any prior entry for that key:
    /// a later insert wins unconditionally, there is no merge.
    pub fn put(&mut self, key: CacheKey, entry: CacheEntry)
        requires
            old(self).wf(),
        ensures
            final(self).wf(),
            final(self)@ == old(self)@.insert(key@, entry@),
    {
        let ghost s0 = self.entries@;
        match self.find_index(&key) {
            Some(i) => {
                self.entries[i] = (key, entry);
                proof {
                    let t = self.entries@;
                    assert(t == s0.update(i as int, t[i as int]));
                    lemma_map_of_update(s0, i as int, t[i as int]);
                    assert forall|a: int, b: int| 0 <= a < b < t.len() implies t[a].0@
                        != t[b].0@ by {
                        assert(t[a].0@ == s0[a].0@);
                        assert(t[b].0@ == s0[b].0@);
                    }
                }
            },
            None => {
                self.entries.push((key, entry));
                proof {
                    let t = self.entries@;
                    lemma_map_of_push(s0, t.last());
                    assert forall|a: int, b: int| 0 <= a < b < t.len() implies t[a].0@
                        != t[b].0@ by {
                        if b < t.len() - 1 {
                            assert(s0[a].0@ != s0[b].0@);
                        } else {
                            assert(s0[a].0@ != t[b].0@);
                        }
                    }
                }
            },
        }
    }

    /// Looks up the credential cached under `key` as of time `now`: a miss
    /// when the key is absent or the entry is expired (the entry is left in
    /// place, a read has no side effect); otherwise a hit carrying an
    /// independent copy of the stored token.
    pub fn lookup(&self, key: &CacheKey, now: u64) -> (r: Option<RegistryTokenType>)
        requires
            self.wf(),
        ensures
            ({
                let l = spec_lookup(self@, key@, now);
                match r {
                    Some(t) => l == Some(t@),
                    None => l is None,
                }
            }),
    {
        match self.find_index(key) {
            Some(i) => {
                proof {
                    lemma_map_of_index(self.entries@, i as int);
                }
                let e = &self.entries[i].1;
                if now > e.expiration {
                    None
                } else {
                    Some(e.token.clone())
                }
            },
            None => {
                proof {
                    lemma_map_of_contains(self.entries@, key@);
                }
                None
            },
        }
    }
}

} // verus!
