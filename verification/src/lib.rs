//! A verified cache for registry authentication tokens.
//!
//! Container-image registries hand out short-lived credentials through an
//! OAuth2-like bearer-token or HTTP-basic workflow. Callers fetch a token
//! once per (registry, repository, operation) triple and reuse it until it
//! expires. This crate provides the cache that makes the reuse safe: the
//! key and token types, the resolver that derives an absolute expiry
//! instant from a bearer token's claims, and a store guarded by a
//! reader-writer lock so many in-flight registry operations can share it.
//!
//! The cache never serves an expired token: entries are invalidated lazily
//! at lookup time, and a token whose claims cannot be decoded is never
//! stored at all.

pub mod cache;
pub mod expiration;
pub mod laws;
pub mod reference;
pub mod store;
pub mod token;

pub use cache::TokenCache;
pub use reference::Reference;
pub use token::RegistryOperation;
pub use token::RegistryToken;
pub use token::RegistryTokenType;
