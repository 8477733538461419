//! A cache to hold authentication tokens, shared by concurrent callers.
//!
//! The store is guarded by a reader-writer lock and held behind a
//! reference-counted handle: clones of the cache are cheap handles to the
//! same logical cache, lookups proceed concurrently with each other, and an
//! insert takes the lock exclusively only for the single map mutation. The
//! cache performs no I/O and holds no other shared state; the configured
//! fallback window is set once at construction and immutable thereafter.
//!
//! The exact per-key contracts live on [`TokenStore::put`] and
//! [`TokenStore::lookup`] and on [`resolve_expiration`]; the methods here
//! are thin verified glue that reads the wall clock, takes the lock, and
//! calls those functions. Every store that the lock ever holds is
//! well-formed: that is the lock's invariant.

use crate::expiration::now_epoch_secs;
use crate::expiration::resolve_expiration;
use crate::reference::Reference;
use crate::store::CacheEntry;
use crate::store::CacheKey;
use crate::store::TokenStore;
use crate::token::RegistryOperation;
use crate::token::RegistryTokenType;
use std::sync::Arc;
use vstd::prelude::*;
use vstd::rwlock::RwLock;
use vstd::rwlock::RwLockPredicate;

verus! {

/// The invariant the cache's lock maintains: whatever store it holds is
/// well-formed.
pub struct StoreInvariant;

impl RwLockPredicate<TokenStore> for StoreInvariant {
    open spec fn inv(self, v: TokenStore) -> bool {
        v.wf()
    }
}

/// A cache to hold authentication tokens
#[derive(Clone)]
pub struct TokenCache {
    tokens: Arc<RwLock<TokenStore, StoreInvariant>>,
    /// Default token expiration in seconds, to use when claim doesn't specify a value
    pub default_expiration_secs: usize,
}

impl TokenCache {
    /// The configured fallback validity window, in seconds.
    pub closed spec fn spec_default_expiration_secs(&self) -> usize {
        self.default_expiration_secs
    }

    /// An empty cache whose fallback validity window for bearer tokens
    /// without an expiration claim is `default_expiration_secs`.
    pub fn new(default_expiration_secs: usize) -> (r: Self)
        ensures
            r.spec_default_expiration_secs() == default_expiration_secs,
    {
        TokenCache {
            tokens: Arc::new(RwLock::new(TokenStore::new(), Ghost(StoreInvariant))),
            default_expiration_secs,
        }
    }

    /// Insert a token corresponding to reference and operation keys, taking
    /// the insertion instant `now` (seconds since the Unix epoch) from the
    /// caller. Resolves the token's expiry first, per
    /// [`crate::expiration::spec_resolve_expiration`]; a malformed bearer
    /// token is rejected and the cache is left unchanged, so the caller's
    /// next lookup misses. The stored mapping changes exactly as
    /// [`TokenStore::put`] states.
    pub fn insert_at(
        &self,
        reference: &Reference,
        op: RegistryOperation,
        token: RegistryTokenType,
        now: u64,
    ) {
        let expiration = match resolve_expiration(&token, now, self.default_expiration_secs as u64) {
            Some(e) => e,
            None => {
                return;
            },
        };
        let key = CacheKey::of(reference, op);
        let (mut store, write_handle) = self.tokens.acquire_write();
        store.put(key, CacheEntry { token, expiration });
        write_handle.release_write(store);
    }

    /// Insert a token corresponding to reference and operation keys. The
    /// insertion instant is the wall clock now.
    pub fn insert(&self, reference: &Reference, op: RegistryOperation, token: RegistryTokenType) {
        let now = now_epoch_secs();
        self.insert_at(reference, op, token, now);
    }

    /// Fetches the token cached under the reference and operation keys as of
    /// instant `now`: `None` on an absent key or an expired entry, otherwise
    /// an independent copy of the stored token, exactly as
    /// [`TokenStore::lookup`] states of the store the lock holds.
    pub fn get_at(
        &self,
        reference: &Reference,
        op: RegistryOperation,
        now: u64,
    ) -> Option<RegistryTokenType> {
        let key = CacheKey::of(reference, op);
        let read_handle = self.tokens.acquire_read();
        let r = read_handle.borrow().lookup(&key, now);
        read_handle.release_read();
        r
    }

    /// Fetches the token cached under the reference and operation keys, if a
    /// fresh one is present. Freshness is judged against the wall clock now.
    pub fn get(&self, reference: &Reference, op: RegistryOperation) -> Option<RegistryTokenType> {
        let now = now_epoch_secs();
        self.get_at(reference, op, now)
    }
}

impl Default for TokenCache {
    /// An empty cache with a zero-length fallback window.
    fn default() -> (r: Self)
        ensures
            r.spec_default_expiration_secs() == 0,
    {
        TokenCache::new(0)
    }
}

} // verus!
