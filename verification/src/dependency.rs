//! What a project depends on.

use vstd::prelude::*;

verus! {

/// One dependency of a project, by where it comes from.
#[derive(Debug, Clone, PartialEq, Eq)]
pub enum Dependency {
    MavenDependency { namespace: String, name: String, version: String },
    /// An archive on disk, by the text of its path.
    Jar { path: String },
    Remote { url: String },
}

/// A dependency and the classes it provides.
#[derive(Debug, Clone, PartialEq, Eq)]
pub struct DependencyInfo {
    pub dependency: Dependency,
    pub classes: Vec<String>,
}

} // verus!
