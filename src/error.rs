//! Errors of resolution and provisioning.
use vstd::prelude::*;

verus! {

#[derive(Clone, Debug, PartialEq, Eq)]
pub enum ProvisionError {
    /// A metadata service could not be reached or its answer not decoded.
    CatalogUnavailable,
    /// No stable installer is published.
    NotFound,
    /// The loader publishes no stable version for the chosen game version.
    NoCompatibleLoader,
    /// The versions cannot be resolved: no game version to choose from, a
    /// choice out of range, or a runtime too old for the game version.
    ResolutionFailed,
    /// A manifest for a different instance already stands at the target.
    AlreadyExists,
    /// A manifest value cannot be written as it is (empty, a quote, a line
    /// break, or a name that is no safe directory name).
    InvalidManifest,
    /// Creating or writing the given path failed.
    IoFailure(String),
    /// Fetching the artifact for the given path failed.
    DownloadFailure(String),
}

} // verus!
