//! Versions of the Fabric mod loader.
use vstd::prelude::*;

pub mod meta;

verus! {

/// A loader version; a stable one is not a pre-release.
#[derive(Debug)]
pub struct Version {
    pub version: String,
    pub prerelease: bool,
}

impl Clone for Version {
    fn clone(&self) -> (r: Self)
        ensures
            r == *self,
    {
        Version { version: self.version.clone(), prerelease: self.prerelease }
    }
}

impl Version {
    /// The identifier, as the version is shown.
    pub fn to_string(&self) -> (r: String)
        ensures
            r@ == self.version@,
    {
        self.version.clone()
    }
}

} // verus!
