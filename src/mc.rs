//! Game versions as the game's own catalog describes them.
use vstd::prelude::*;

verus! {

/// A game version: its identifier, its kind (`release`, `snapshot`, ...)
/// and whether it is a major release.
#[derive(Debug)]
pub struct Version {
    pub version: String,
    pub version_type: String,
    pub major: bool,
}

impl Clone for Version {
    fn clone(&self) -> (r: Self)
        ensures
            r == *self,
    {
        Version {
            version: self.version.clone(),
            version_type: self.version_type.clone(),
            major: self.major,
        }
    }
}

impl Version {
    /// A stable version is a major release of the `release` kind.
    pub open spec fn is_stable_release(&self) -> bool {
        self.version_type@ == "release"@ && self.major
    }

    pub fn stable_release(&self) -> (r: bool)
        ensures
            r == self.is_stable_release(),
    {
        let release = String::from_str("release");
        self.major && self.version_type == release
    }

    /// The identifier, as the version is shown.
    pub fn to_string(&self) -> (r: String)
        ensures
            r@ == self.version@,
    {
        self.version.clone()
    }
}

} // verus!
