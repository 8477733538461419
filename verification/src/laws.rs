//! Laws of the cache, stated over the views its contracts use.
//!
//! Each proof function here relates the spec functions that the executable
//! functions are specified against: `Map::insert`, which
//! [`crate::store::TokenStore::put`] ensures, `spec_lookup`, which
//! [`crate::store::TokenStore::lookup`] ensures, and
//! `spec_resolve_expiration`, which
//! [`crate::expiration::resolve_expiration`] ensures.

use crate::expiration::claims_expiration_of;
use crate::expiration::fallback_expiration;
use crate::expiration::spec_resolve_expiration;
use crate::store::CacheEntryView;
use crate::store::CacheKeyView;
use crate::store::spec_lookup;
use crate::token::RegistryOperation;
use crate::token::RegistryTokenTypeView;
use crate::token::RegistryTokenView;
use vstd::prelude::*;

verus! {

/// Law: a basic credential never expires. Its resolved expiration is the
/// largest representable instant, and once it is stored, a lookup of the
/// same key hits at every time, whatever the cache held before.
pub proof fn lemma_basic_credential_always_hits(
    m: Map<CacheKeyView, CacheEntryView>,
    k: CacheKeyView,
    user: Seq<char>,
    pass: Seq<char>,
    insert_now: u64,
    default_secs: u64,
    t: u64,
)
    ensures
        spec_resolve_expiration(RegistryTokenTypeView::Basic(user, pass), insert_now, default_secs)
            == Some(u64::MAX),
        spec_lookup(
            m.insert(
                k,
                (CacheEntryView {
                    token: RegistryTokenTypeView::Basic(user, pass),
                    expiration: u64::MAX,
                }),
            ),
            k,
            t,
        ) == Some(RegistryTokenTypeView::Basic(user, pass)),
{
}

/// Law: a bearer token whose claims declare expiration `e` is resolved to
/// exactly `e`, and once it is stored, a lookup of the same key hits at
/// every time up to and including `e` and misses at every later time.
pub proof fn lemma_bearer_declared_expiration(
    m: Map<CacheKeyView, CacheEntryView>,
    k: CacheKeyView,
    tok: RegistryTokenView,
    e: u64,
    insert_now: u64,
    default_secs: u64,
    t: u64,
)
    requires
        claims_expiration_of(tok.bearer()) == Some(Some(e)),
    ensures
        spec_resolve_expiration(RegistryTokenTypeView::Bearer(tok), insert_now, default_secs)
            == Some(e),
        t <= e ==> spec_lookup(
            m.insert(
                k,
                (CacheEntryView { token: RegistryTokenTypeView::Bearer(tok), expiration: e }),
            ),
            k,
            t,
        ) == Some(RegistryTokenTypeView::Bearer(tok)),
        t > e ==> spec_lookup(
            m.insert(
                k,
                (CacheEntryView { token: RegistryTokenTypeView::Bearer(tok), expiration: e }),
            ),
            k,
            t,
        ) is None,
{
}

/// Law: a bearer token that decodes without an expiration claim is resolved
/// to the fallback window. Once it is stored, a lookup of the same key hits
/// at the insertion instant itself, and misses one second after the window
/// closes (whenever that instant is representable).
pub proof fn lemma_bearer_fallback_expiration(
    m: Map<CacheKeyView, CacheEntryView>,
    k: CacheKeyView,
    tok: RegistryTokenView,
    insert_now: u64,
    default_secs: u64,
)
    requires
        claims_expiration_of(tok.bearer()) == Some(None::<u64>),
    ensures
        spec_resolve_expiration(RegistryTokenTypeView::Bearer(tok), insert_now, default_secs)
            == Some(fallback_expiration(insert_now, default_secs)),
        spec_lookup(
            m.insert(
                k,
                (CacheEntryView {
                    token: RegistryTokenTypeView::Bearer(tok),
                    expiration: fallback_expiration(insert_now, default_secs),
                }),
            ),
            k,
            insert_now,
        ) == Some(RegistryTokenTypeView::Bearer(tok)),
        insert_now + default_secs + 1 <= u64::MAX ==> spec_lookup(
            m.insert(
                k,
                (CacheEntryView {
                    token: RegistryTokenTypeView::Bearer(tok),
                    expiration: fallback_expiration(insert_now, default_secs),
                }),
            ),
            k,
            (insert_now + default_secs + 1) as u64,
        ) is None,
{
}

/// Law: keys that differ only in the operation are independent. Storing an
/// entry for one operation on a registry/repository pair leaves every lookup
/// of the other operation on the same pair exactly as it was.
pub proof fn lemma_operations_independent(
    m: Map<CacheKeyView, CacheEntryView>,
    registry: Seq<char>,
    repository: Seq<char>,
    e: CacheEntryView,
    t: u64,
)
    ensures
        spec_lookup(
            m.insert((CacheKeyView { registry, repository, operation: RegistryOperation::Push }), e),
            (CacheKeyView { registry, repository, operation: RegistryOperation::Pull }),
            t,
        ) == spec_lookup(
            m,
            (CacheKeyView { registry, repository, operation: RegistryOperation::Pull }),
            t,
        ),
        spec_lookup(
            m.insert((CacheKeyView { registry, repository, operation: RegistryOperation::Pull }), e),
            (CacheKeyView { registry, repository, operation: RegistryOperation::Push }),
            t,
        ) == spec_lookup(
            m,
            (CacheKeyView { registry, repository, operation: RegistryOperation::Push }),
            t,
        ),
{
}

/// Law: re-inserting under an identical key overwrites. After storing `e1`
/// and then `e2` under the same key, a lookup of that key reflects `e2`
/// alone — `e2`'s token under `e2`'s expiry — as if `e1` had never been
/// stored.
pub proof fn lemma_reinsert_overwrites(
    m: Map<CacheKeyView, CacheEntryView>,
    k: CacheKeyView,
    e1: CacheEntryView,
    e2: CacheEntryView,
    t: u64,
)
    ensures
        spec_lookup(m.insert(k, e1).insert(k, e2), k, t) == spec_lookup(m.insert(k, e2), k, t),
        spec_lookup(m.insert(k, e1).insert(k, e2), k, t) == (if t <= e2.expiration {
            Some(e2.token)
        } else {
            None
        }),
{
}

/// Law: inserts on distinct keys do not contaminate each other. After
/// storing entries under two different keys in either order, a lookup of
/// each key returns exactly what a lookup after its own insert alone would.
pub proof fn lemma_distinct_keys_independent(
    m: Map<CacheKeyView, CacheEntryView>,
    k1: CacheKeyView,
    k2: CacheKeyView,
    e1: CacheEntryView,
    e2: CacheEntryView,
    t: u64,
)
    requires
        k1 != k2,
    ensures
        spec_lookup(m.insert(k1, e1).insert(k2, e2), k1, t) == spec_lookup(m.insert(k1, e1), k1, t),
        spec_lookup(m.insert(k1, e1).insert(k2, e2), k2, t) == spec_lookup(m.insert(k2, e2), k2, t),
        spec_lookup(m.insert(k1, e1).insert(k2, e2), k1, t) == (if t <= e1.expiration {
            Some(e1.token)
        } else {
            None
        }),
{
}

} // verus!
