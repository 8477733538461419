//! Deriving an absolute expiry instant from a credential.
//!
//! Basic credentials have no server-stated lifetime and never expire. A
//! bearer token is decoded as an unverified claim set (the cache trusts the
//! registry's TLS channel, not the token's signature, since the claim is
//! only used for local bookkeeping): a declared expiration is used verbatim;
//! a token that decodes without one gets a caller-configured fallback window
//! from the insertion time; a structurally malformed token is rejected.

use crate::token::RegistryTokenType;
use crate::token::RegistryTokenTypeView;
use vstd::prelude::*;

verus! {

/// What the claims of the bearer token written as `s` declare about expiry,
/// as decoded by `jwt::Token::parse_unverified`:
/// `Some(Some(e))` — the token decodes and its claims declare expiration `e`;
/// `Some(None)` — the token decodes but declares no expiration;
/// `None` — the token is structurally malformed.
pub uninterp spec fn claims_expiration_of(s: Seq<char>) -> Option<Option<u64>>;

/// Relies on `jwt::Token::parse_unverified` (splitting the token string on
/// `.`, then base64url-decoding the header and claims sections as JSON),
/// whose result is a function of the string alone. A decoded claim set
/// without an `exp` field and `Err(NoClaimsComponent)` (the string has no
/// claims section at all) both report a missing expiration; every other
/// failure reports a malformed token.
#[verifier::external_body]
fn decode_claims_expiration(s: &str) -> (r: Option<Option<u64>>)
    ensures
        r == claims_expiration_of(s@),
{
    let parsed = jwt::Token::<
        jwt::header::Header,
        jwt::claims::Claims,
        jwt::token::Unverified,
    >::parse_unverified(s);
    match parsed {
        Ok(token) => match token.claims().registered.expiration {
            Some(e) => Some(Some(e)),
            None => Some(None),
        },
        Err(jwt::Error::NoClaimsComponent) => Some(None),
        Err(_) => None,
    }
}

/// Relies on `std::time::SystemTime::now`, `SystemTime::duration_since`
/// (against `UNIX_EPOCH`) and `Duration::as_secs`: the current wall clock as
/// whole seconds since the Unix epoch. Panics when the clock reports a time
/// before the epoch, which is an unrecoverable environment fault, not a
/// cache condition.
#[verifier::external_body]
pub(crate) fn now_epoch_secs() -> u64 {
    std::time::SystemTime::now()
        .duration_since(std::time::UNIX_EPOCH)
        .expect("Time went backwards")
        .as_secs()
}

/// The fallback expiry for a bearer token that declares none: the insertion
/// time plus the configured validity window, saturating at the largest
/// representable instant.
pub open spec fn fallback_expiration(now: u64, default_secs: u64) -> u64 {
    if now + default_secs <= u64::MAX {
        (now + default_secs) as u64
    } else {
        u64::MAX
    }
}

/// The absolute expiry instant (seconds since the Unix epoch) the resolver
/// assigns to a credential inserted at time `now`, or `None` when the
/// credential must be rejected. Basic credentials never expire; a bearer
/// token whose claims declare expiration `e` expires at `e`; one that
/// decodes without an expiration claim gets the fallback window; a malformed
/// one is rejected.
pub open spec fn spec_resolve_expiration(
    t: RegistryTokenTypeView,
    now: u64,
    default_secs: u64,
) -> Option<u64> {
    match t {
        RegistryTokenTypeView::Basic(_, _) => Some(u64::MAX),
        RegistryTokenTypeView::Bearer(tok) => match claims_expiration_of(tok.bearer()) {
            Some(Some(e)) => Some(e),
            Some(None) => Some(fallback_expiration(now, default_secs)),
            None => None,
        },
    }
}

/// Computes the absolute expiry instant for a credential inserted at time
/// `now`, exactly as [`spec_resolve_expiration`] states; `None` means the
/// credential is malformed and must not be cached.
pub fn resolve_expiration(token: &RegistryTokenType, now: u64, default_secs: u64) -> (r: Option<
    u64,
>)
    ensures
        r == spec_resolve_expiration(token@, now, default_secs),
{
    match token {
        RegistryTokenType::Basic(_, _) => Some(u64::MAX),
        RegistryTokenType::Bearer(t) => match decode_claims_expiration(t.token()) {
            Some(Some(e)) => Some(e),
            Some(None) => {
                if now <= u64::MAX - default_secs {
                    Some(now + default_secs)
                } else {
                    Some(u64::MAX)
                }
            },
            None => None,
        },
    }
}

} // verus!
