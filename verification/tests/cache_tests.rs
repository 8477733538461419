use token_cache::Reference;
use token_cache::RegistryOperation;
use token_cache::RegistryToken;
use token_cache::RegistryTokenType;
use token_cache::TokenCache;
use token_cache::expiration::resolve_expiration;

fn b64url(data: &[u8]) -> String {
    let alphabet: &[u8; 64] =
        b"ABCDEFGHIJKLMNOPQRSTUVWXYZabcdefghijklmnopqrstuvwxyz0123456789-_";
    let mut out = String::new();
    for chunk in data.chunks(3) {
        let b0 = chunk[0] as u32;
        let b1 = if chunk.len() > 1 { chunk[1] as u32 } else { 0 };
        let b2 = if chunk.len() > 2 { chunk[2] as u32 } else { 0 };
        let n = (b0 << 16) | (b1 << 8) | b2;
        out.push(alphabet[((n >> 18) & 63) as usize] as char);
        out.push(alphabet[((n >> 12) & 63) as usize] as char);
        if chunk.len() > 1 {
            out.push(alphabet[((n >> 6) & 63) as usize] as char);
        }
        if chunk.len() > 2 {
            out.push(alphabet[(n & 63) as usize] as char);
        }
    }
    out
}

/// A syntactically valid JWT (header.claims.signature) with the given claims
/// JSON; the signature is junk, which is fine because the cache decodes the
/// claims without verifying the signature.
fn make_jwt(claims_json: &str) -> String {
    format!(
        "{}.{}.{}",
        b64url(b"{\"alg\":\"HS256\"}"),
        b64url(claims_json.as_bytes()),
        "c2ln"
    )
}

fn bearer_of(token_str: &str) -> RegistryTokenType {
    RegistryTokenType::Bearer(RegistryToken::Token {
        token: String::from(token_str),
    })
}

fn got_bearer(r: Option<RegistryTokenType>) -> String {
    match r {
        Some(RegistryTokenType::Bearer(tok)) => String::from(tok.token()),
        Some(RegistryTokenType::Basic(_, _)) => panic!("expected a bearer token"),
        None => panic!("expected a hit"),
    }
}

fn busybox() -> Reference {
    Reference::new(String::from("docker.io"), String::from("library/busybox"))
}

#[test]
fn basic_credentials_never_expire() {
    let cache = TokenCache::new(60);
    let reference = Reference::new(
        String::from("registry.example.com"),
        String::from("team/app"),
    );
    cache.insert_at(
        &reference,
        RegistryOperation::Push,
        RegistryTokenType::Basic(String::from("user"), String::from("pass")),
        1_000,
    );
    // a hit immediately and after an arbitrarily long simulated delay
    for t in [1_000u64, 1_001, 10_000_000, u64::MAX] {
        match cache.get_at(&reference, RegistryOperation::Push, t) {
            Some(RegistryTokenType::Basic(u, p)) => {
                assert_eq!(u, "user");
                assert_eq!(p, "pass");
            }
            _ => panic!("expected a basic-credential hit at {}", t),
        }
    }
}

#[test]
fn declared_expiration_is_used_verbatim() {
    let cache = TokenCache::new(60);
    let reference = busybox();
    let jwt = make_jwt("{\"exp\":100000}");
    cache.insert_at(&reference, RegistryOperation::Pull, bearer_of(&jwt), 50_000);
    // hit at every instant up to and including the declared expiration
    assert_eq!(
        got_bearer(cache.get_at(&reference, RegistryOperation::Pull, 50_000)),
        jwt
    );
    assert_eq!(
        got_bearer(cache.get_at(&reference, RegistryOperation::Pull, 100_000)),
        jwt
    );
    // miss strictly after it
    assert!(cache
        .get_at(&reference, RegistryOperation::Pull, 100_001)
        .is_none());
}

#[test]
fn missing_expiration_claim_gets_the_fallback_window() {
    let cache = TokenCache::new(60);
    let reference = busybox();
    // decodes fine, but the claim set has no "exp" field
    let jwt = make_jwt("{}");
    cache.insert_at(&reference, RegistryOperation::Pull, bearer_of(&jwt), 5_000);
    // hit immediately after insert and for the whole window
    assert_eq!(
        got_bearer(cache.get_at(&reference, RegistryOperation::Pull, 5_000)),
        jwt
    );
    assert_eq!(
        got_bearer(cache.get_at(&reference, RegistryOperation::Pull, 5_060)),
        jwt
    );
    // miss one second past insert_time + default_expiration_secs
    assert!(cache
        .get_at(&reference, RegistryOperation::Pull, 5_061)
        .is_none());
}

#[test]
fn opaque_token_without_claims_section_gets_the_fallback_window() {
    let cache = TokenCache::new(60);
    let reference = busybox();
    // no "." at all: the token has no claims section, a recognized shape
    let opaque = "opaque-registry-token";
    cache.insert_at(&reference, RegistryOperation::Pull, bearer_of(opaque), 5_000);
    assert_eq!(
        got_bearer(cache.get_at(&reference, RegistryOperation::Pull, 5_000)),
        opaque
    );
    assert!(cache
        .get_at(&reference, RegistryOperation::Pull, 5_061)
        .is_none());
}

#[test]
fn malformed_tokens_are_not_cached() {
    let cache = TokenCache::new(60);
    let reference = busybox();
    // claims section is not valid base64url JSON
    let bad_claims = "aGVhZA.!!!not-base64!!!.c2ln";
    // header and claims present but the signature section is missing
    let two_parts = "aGVhZA.e30";
    // too many sections
    let four_parts = "a.e30.c.d";
    for bad in [bad_claims, two_parts, four_parts] {
        cache.insert_at(&reference, RegistryOperation::Pull, bearer_of(bad), 5_000);
        assert!(
            cache
                .get_at(&reference, RegistryOperation::Pull, 5_000)
                .is_none(),
            "token {:?} must be rejected, not cached",
            bad
        );
    }
}

#[test]
fn push_and_pull_keys_are_independent() {
    let cache = TokenCache::new(60);
    let reference = busybox();
    cache.insert_at(
        &reference,
        RegistryOperation::Pull,
        RegistryTokenType::Basic(String::from("pull-user"), String::from("pw")),
        1_000,
    );
    // inserting under Pull does not make Push a hit
    assert!(cache
        .get_at(&reference, RegistryOperation::Push, 1_000)
        .is_none());
    // and each key returns its own token once both are present
    cache.insert_at(
        &reference,
        RegistryOperation::Push,
        RegistryTokenType::Basic(String::from("push-user"), String::from("pw")),
        1_000,
    );
    match cache.get_at(&reference, RegistryOperation::Pull, 1_000) {
        Some(RegistryTokenType::Basic(u, _)) => assert_eq!(u, "pull-user"),
        _ => panic!("expected the pull credential"),
    }
    match cache.get_at(&reference, RegistryOperation::Push, 1_000) {
        Some(RegistryTokenType::Basic(u, _)) => assert_eq!(u, "push-user"),
        _ => panic!("expected the push credential"),
    }
}

#[test]
fn reinsert_overwrites_and_the_new_expiry_governs() {
    let cache = TokenCache::new(60);
    let reference = busybox();
    let first = make_jwt("{\"exp\":2000}");
    let second = make_jwt("{\"exp\":3000}");
    cache.insert_at(&reference, RegistryOperation::Pull, bearer_of(&first), 1_000);
    cache.insert_at(&reference, RegistryOperation::Pull, bearer_of(&second), 1_000);
    // at an instant past the first token's expiry but within the second's,
    // the lookup hits and returns the second token
    assert_eq!(
        got_bearer(cache.get_at(&reference, RegistryOperation::Pull, 2_500)),
        second
    );
    // and the second token's expiry is what ends the entry
    assert_eq!(
        got_bearer(cache.get_at(&reference, RegistryOperation::Pull, 3_000)),
        second
    );
    assert!(cache
        .get_at(&reference, RegistryOperation::Pull, 3_001)
        .is_none());
}

#[test]
fn disjoint_keys_do_not_contaminate_each_other() {
    let cache = TokenCache::new(60);
    // a second handle to the same logical cache
    let other_handle = cache.clone();
    let references = [
        Reference::new(String::from("docker.io"), String::from("library/busybox")),
        Reference::new(String::from("docker.io"), String::from("library/alpine")),
        Reference::new(String::from("quay.io"), String::from("library/busybox")),
    ];
    let ops = [RegistryOperation::Pull, RegistryOperation::Push];
    for (i, reference) in references.iter().enumerate() {
        for (j, op) in ops.iter().enumerate() {
            let who = if (i + j) % 2 == 0 { &cache } else { &other_handle };
            who.insert_at(
                reference,
                *op,
                bearer_of(&format!("token-{}-{}", i, j)),
                1_000,
            );
        }
    }
    // every key returns exactly the token last inserted for it, through
    // either handle
    for (i, reference) in references.iter().enumerate() {
        for (j, op) in ops.iter().enumerate() {
            let expected = format!("token-{}-{}", i, j);
            assert_eq!(got_bearer(cache.get_at(reference, *op, 1_000)), expected);
            assert_eq!(
                got_bearer(other_handle.get_at(reference, *op, 1_000)),
                expected
            );
        }
    }
}

#[test]
fn example_bearer_hits_then_expires_after_3601_seconds() {
    let now: u64 = 1_700_000_000;
    let cache = TokenCache::new(60);
    let reference = busybox();
    let jwt = make_jwt(&format!("{{\"exp\":{}}}", now + 3_600));
    cache.insert_at(&reference, RegistryOperation::Pull, bearer_of(&jwt), now);
    // an immediate lookup returns the token
    assert_eq!(
        got_bearer(cache.get_at(&reference, RegistryOperation::Pull, now)),
        jwt
    );
    // advancing the clock by 3601 seconds turns the entry stale
    assert!(cache
        .get_at(&reference, RegistryOperation::Pull, now + 3_601)
        .is_none());
}

#[test]
fn resolver_outcomes_for_each_kind_of_credential() {
    let basic = RegistryTokenType::Basic(String::from("u"), String::from("p"));
    assert_eq!(resolve_expiration(&basic, 1_000, 60), Some(u64::MAX));

    let declared = bearer_of(&make_jwt("{\"exp\":4242}"));
    assert_eq!(resolve_expiration(&declared, 1_000, 60), Some(4_242));

    let no_claim = bearer_of(&make_jwt("{}"));
    assert_eq!(resolve_expiration(&no_claim, 1_000, 60), Some(1_060));

    let opaque = bearer_of("no-dots-here");
    assert_eq!(resolve_expiration(&opaque, 1_000, 60), Some(1_060));

    let malformed = bearer_of("only.two-parts");
    assert_eq!(resolve_expiration(&malformed, 1_000, 60), None);

    // the fallback saturates instead of wrapping past the largest instant
    let late = bearer_of(&make_jwt("{}"));
    assert_eq!(
        resolve_expiration(&late, u64::MAX - 10, 60),
        Some(u64::MAX)
    );
}

#[test]
fn wall_clock_insert_and_get_agree_with_real_time() {
    let now = std::time::SystemTime::now()
        .duration_since(std::time::UNIX_EPOCH)
        .expect("clock before the epoch")
        .as_secs();
    let cache = TokenCache::new(60);
    let reference = busybox();

    // a token that expired ten minutes ago is never served
    let stale = make_jwt(&format!("{{\"exp\":{}}}", now - 600));
    cache.insert_at(&reference, RegistryOperation::Pull, bearer_of(&stale), now - 700);
    assert!(cache.get(&reference, RegistryOperation::Pull).is_none());

    // a token valid for another hour is served, through the wall-clock paths
    let fresh = make_jwt(&format!("{{\"exp\":{}}}", now + 3_600));
    cache.insert(&reference, RegistryOperation::Pull, bearer_of(&fresh));
    assert_eq!(got_bearer(cache.get(&reference, RegistryOperation::Pull)), fresh);
}

#[test]
fn default_cache_has_a_zero_fallback_window() {
    let cache = TokenCache::default();
    assert_eq!(cache.default_expiration_secs, 0);
    let reference = busybox();
    let jwt = make_jwt("{}");
    cache.insert_at(&reference, RegistryOperation::Pull, bearer_of(&jwt), 5_000);
    // with a zero window the entry is valid only at the insertion instant
    assert_eq!(
        got_bearer(cache.get_at(&reference, RegistryOperation::Pull, 5_000)),
        jwt
    );
    assert!(cache
        .get_at(&reference, RegistryOperation::Pull, 5_001)
        .is_none());
}
