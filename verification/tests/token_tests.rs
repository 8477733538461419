use token_cache::RegistryToken;

#[test]
fn token_returns_value_for_token_variant() {
    let t = RegistryToken::Token {
        token: String::from("abc123"),
    };
    assert_eq!(t.token(), "abc123");
}

#[test]
fn token_returns_value_for_access_token_variant() {
    let t = RegistryToken::AccessToken {
        access_token: String::from("xyz789"),
    };
    assert_eq!(t.token(), "xyz789");
}

#[test]
fn bearer_token_formats_authorization_header_value() {
    let t = RegistryToken::Token {
        token: String::from("abc123"),
    };
    assert_eq!(t.bearer_token(), "Bearer abc123");

    let a = RegistryToken::AccessToken {
        access_token: String::from("xyz789"),
    };
    assert_eq!(a.bearer_token(), "Bearer xyz789");
}

#[test]
fn redacted_debug_never_contains_the_secret() {
    let t = RegistryToken::Token {
        token: String::from("super-secret-value"),
    };
    let shown = t.redacted_debug();
    assert_eq!(shown, "Token { token: \"<redacted>\" }");
    assert!(!shown.contains("super-secret-value"));

    let a = RegistryToken::AccessToken {
        access_token: String::from("other-secret"),
    };
    let shown_a = a.redacted_debug();
    assert_eq!(shown_a, "AccessToken { access_token: \"<redacted>\" }");
    assert!(!shown_a.contains("other-secret"));
}

#[test]
fn redacted_debug_is_the_same_for_different_secrets() {
    let t1 = RegistryToken::Token {
        token: String::from("first"),
    };
    let t2 = RegistryToken::Token {
        token: String::from("second"),
    };
    assert_eq!(t1.redacted_debug(), t2.redacted_debug());
}

#[test]
fn clone_keeps_the_token_value() {
    let t = RegistryToken::Token {
        token: String::from("abc123"),
    };
    let c = t.clone();
    assert_eq!(c.token(), "abc123");
}
