//! Token and credential types for registry authentication.

use vstd::prelude::*;
use vstd::string::StringExecFns;

verus! {

/// Ghost form of [`RegistryToken`]: the variant together with the character
/// sequence of the opaque bearer string it carries.
pub enum RegistryTokenView {
    Token { token: Seq<char> },
    AccessToken { access_token: Seq<char> },
}

impl RegistryTokenView {
    /// The opaque bearer string, whichever wire field name carried it.
    pub open spec fn bearer(self) -> Seq<char> {
        match self {
            RegistryTokenView::Token { token } => token,
            RegistryTokenView::AccessToken { access_token } => access_token,
        }
    }
}

/// A token granted during the OAuth2-like workflow for OCI registries.
///
/// Both variants hold a semantically identical opaque bearer string; the
/// variant only records which wire field name (`token` or `access_token`)
/// carried the value in the registry's response.
pub enum RegistryToken {
    /// Token value
    Token {
        /// The string value of the token
        token: String,
    },
    /// AccessToken value
    AccessToken {
        /// The string value of the access_token
        access_token: String,
    },
}

impl View for RegistryToken {
    type V = RegistryTokenView;

    open spec fn view(&self) -> RegistryTokenView {
        match self {
            RegistryToken::Token { token } => RegistryTokenView::Token { token: token@ },
            RegistryToken::AccessToken { access_token } => RegistryTokenView::AccessToken {
                access_token: access_token@,
            },
        }
    }
}

impl Clone for RegistryToken {
    fn clone(&self) -> (r: Self)
        ensures
            r == *self,
    {
        match self {
            RegistryToken::Token { token } => RegistryToken::Token { token: token.clone() },
            RegistryToken::AccessToken { access_token } => RegistryToken::AccessToken {
                access_token: access_token.clone(),
            },
        }
    }
}

impl RegistryToken {
    /// Returns the bearer token in a form suitable to use for an Authorization header
    pub fn bearer_token(&self) -> (r: String)
        ensures
            r@ == "Bearer "@ + self@.bearer(),
    {
        String::from_str("Bearer ").concat(self.token())
    }

    /// Returns the token value
    pub fn token(&self) -> (r: &str)
        ensures
            r@ == self@.bearer(),
    {
        match self {
            RegistryToken::Token { token } => token.as_str(),
            RegistryToken::AccessToken { access_token } => access_token.as_str(),
        }
    }

    /// A printable form of the token that never reveals the secret: whatever
    /// the token holds, its value is replaced by a fixed placeholder, so the
    /// result is safe to put in logs.
    pub fn redacted_debug(&self) -> (r: String)
        ensures
            self@ is Token ==> r@ == "Token { token: \"<redacted>\" }"@,
            self@ is AccessToken ==> r@ == "AccessToken { access_token: \"<redacted>\" }"@,
    {
        match self {
            RegistryToken::Token { .. } => String::from_str("Token { token: \"<redacted>\" }"),
            RegistryToken::AccessToken { .. } => String::from_str(
                "AccessToken { access_token: \"<redacted>\" }",
            ),
        }
    }
}

/// Ghost form of [`RegistryTokenType`].
pub enum RegistryTokenTypeView {
    Bearer(RegistryTokenView),
    Basic(Seq<char>, Seq<char>),
}

/// Type of registry auth token: either a bearer token or a basic-auth
/// username/password pair.
pub enum RegistryTokenType {
    /// Bearer token type
    Bearer(RegistryToken),
    /// Basic auth token type
    Basic(String, String),
}

impl View for RegistryTokenType {
    type V = RegistryTokenTypeView;

    open spec fn view(&self) -> RegistryTokenTypeView {
        match self {
            RegistryTokenType::Bearer(t) => RegistryTokenTypeView::Bearer(t@),
            RegistryTokenType::Basic(u, p) => RegistryTokenTypeView::Basic(u@, p@),
        }
    }
}

impl Clone for RegistryTokenType {
    fn clone(&self) -> (r: Self)
        ensures
            r == *self,
    {
        match self {
            RegistryTokenType::Bearer(t) => RegistryTokenType::Bearer(t.clone()),
            RegistryTokenType::Basic(u, p) => RegistryTokenType::Basic(u.clone(), p.clone()),
        }
    }
}

/// Desired operation for registry authentication
#[derive(Debug, Copy, Clone, PartialEq, Eq, Structural, PartialOrd, Ord)]
pub enum RegistryOperation {
    /// Authenticate for push operations
    Push,
    /// Authenticate for pull operations
    Pull,
}

} // verus!
