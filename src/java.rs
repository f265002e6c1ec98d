//! Runtime (Java) versions and the table of game versions each supports.
use vstd::prelude::*;
use crate::text::{decimal, decimal_string};

verus! {

/// A runtime version: its major number and the oldest game version that
/// needs it.
#[derive(Debug)]
pub struct Version {
    pub version: usize,
    pub threshold: String,
}

impl Clone for Version {
    fn clone(&self) -> (r: Self)
        ensures
            r == *self,
    {
        Version { version: self.version, threshold: self.threshold.clone() }
    }
}

impl Version {
    /// The major number in decimal, as the version is shown.
    pub fn to_string(&self) -> (r: String)
        ensures
            r@ == decimal(self.version as nat),
    {
        decimal_string(self.version)
    }
}

/// The runtime versions known to this tool, most recent threshold first.
pub fn supported_java_versions() -> (r: [Version; 2])
    ensures
        r[0].version == 21,
        r[0].threshold@ == "1.20.5"@,
        r[1].version == 17,
        r[1].threshold@ == "1.17.0"@,
{
    [
        Version { version: 21, threshold: String::from_str("1.20.5") },
        Version { version: 17, threshold: String::from_str("1.17.0") },
    ]
}

} // verus!
