//! The resolved identity of an image: registry host and repository path.

use vstd::prelude::*;

verus! {

/// Ghost form of [`Reference`].
pub struct ReferenceView {
    pub registry: Seq<char>,
    pub repository: Seq<char>,
}

/// An image reference, already resolved to the effective registry host to
/// authenticate against and the repository path within that registry.
///
/// The cache does not validate the two parts: any strings are legal key
/// components.
pub struct Reference {
    registry: String,
    repository: String,
}

impl View for Reference {
    type V = ReferenceView;

    closed spec fn view(&self) -> ReferenceView {
        ReferenceView { registry: self.registry@, repository: self.repository@ }
    }
}

impl Reference {
    /// Builds a reference from the resolved registry host and the repository
    /// path within it.
    pub fn new(registry: String, repository: String) -> (r: Self)
        ensures
            r@ == (ReferenceView { registry: registry@, repository: repository@ }),
    {
        Reference { registry, repository }
    }

    /// The effective registry host to authenticate against.
    pub fn resolve_registry(&self) -> (r: &str)
        ensures
            r@ == self@.registry,
    {
        self.registry.as_str()
    }

    /// The repository path within the registry.
    pub fn repository(&self) -> (r: &str)
        ensures
            r@ == self@.repository,
    {
        self.repository.as_str()
    }
}

} // verus!
