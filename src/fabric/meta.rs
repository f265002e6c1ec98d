//! Records of the Fabric metadata service: game versions, loader versions
//! and installers, and the server description handed to the download.
use vstd::prelude::*;
use crate::fabric;
use crate::error::ProvisionError;
use crate::mc;
use crate::text::{field_line, is_plain_text, is_safe_name, plain_text, push_field, safe_name};

verus! {

/// A game version as the loader's metadata service lists it.
#[derive(Debug)]
pub struct Game {
    pub version: String,
    pub stable: bool,
}

/// One entry of the loader list for a game version.
#[derive(Debug)]
pub struct Bundle {
    pub loader: Loader,
}

/// A loader version as the metadata service lists it.
#[derive(Debug)]
pub struct Loader {
    pub version: String,
    pub stable: bool,
}

/// An installer version as the metadata service lists it.
#[derive(Debug)]
pub struct Installer {
    pub version: String,
    pub stable: bool,
}

impl Clone for Installer {
    fn clone(&self) -> (r: Self)
        ensures
            r == *self,
    {
        Installer { version: self.version.clone(), stable: self.stable }
    }
}

impl Game {
    /// The game version in the catalog's terms: a stable entry is a major
    /// release, any other a snapshot.
    pub fn to_version(&self) -> (r: mc::Version)
        ensures
            r.version@ == self.version@,
            r.major == self.stable,
            r.version_type@ == (if self.stable { "release"@ } else { "snapshot"@ }),
            r.is_stable_release() == self.stable,
    {
        let kind = if self.stable {
            String::from_str("release")
        } else {
            String::from_str("snapshot")
        };
        mc::Version { version: self.version.clone(), version_type: kind, major: self.stable }
    }
}

impl Loader {
    /// The loader version in the catalog's terms.
    pub fn to_version(&self) -> (r: fabric::Version)
        ensures
            r.version@ == self.version@,
            r.prerelease == !self.stable,
    {
        fabric::Version { version: self.version.clone(), prerelease: !self.stable }
    }
}

/// The text of a server description: one line each for the name, the game,
/// loader and runtime versions. The installer is not recorded.
pub open spec fn server_text(
    name: Seq<char>,
    version: Seq<char>,
    fabric: Seq<char>,
    java: Seq<char>,
) -> Seq<char> {
    field_line("name"@, name) + field_line("version"@, version) + field_line("fabric"@, fabric)
        + field_line("java"@, java)
}

pub open spec fn server_fields_ok(
    name: Seq<char>,
    version: Seq<char>,
    fabric: Seq<char>,
    java: Seq<char>,
) -> bool {
    is_safe_name(name) && is_plain_text(version) && is_plain_text(fabric) && is_plain_text(java)
}

/// Writes a server description; fails where a field cannot be written as
/// it is.
pub fn server_toml(name: &str, version: &str, fabric: &str, java: &str) -> (r: Result<
    String,
    ProvisionError,
>)
    ensures
        match r {
            Ok(t) => server_fields_ok(name@, version@, fabric@, java@) && t@ == server_text(
                name@,
                version@,
                fabric@,
                java@,
            ),
            Err(e) => !server_fields_ok(name@, version@, fabric@, java@) && e
                == ProvisionError::InvalidManifest,
        },
{
    if !(safe_name(name) && plain_text(version) && plain_text(fabric) && plain_text(java)) {
        return Err(ProvisionError::InvalidManifest);
    }
    let mut out = String::new();
    push_field(&mut out, "name", name);
    push_field(&mut out, "version", version);
    push_field(&mut out, "fabric", fabric);
    push_field(&mut out, "java", java);
    assert(out@ =~= server_text(name@, version@, fabric@, java@));
    Ok(out)
}

/// A server to provision: its name, game, loader, installer and runtime
/// versions.
#[derive(Debug)]
pub struct Server {
    pub name: String,
    pub version: String,
    pub fabric: String,
    pub installer: String,
    pub java: String,
}

impl Server {
    pub fn new(name: String, version: String, fabric: String, installer: String, java: String) -> (r:
        Self)
        ensures
            r.name == name,
            r.version == version,
            r.fabric == fabric,
            r.installer == installer,
            r.java == java,
    {
        Server { name, version, fabric, installer, java }
    }

    /// The server's description without the installer.
    pub fn to_toml(&self) -> (r: Result<String, ProvisionError>)
        ensures
            match r {
                Ok(t) => server_fields_ok(self.name@, self.version@, self.fabric@, self.java@) && t@
                    == server_text(self.name@, self.version@, self.fabric@, self.java@),
                Err(e) => !server_fields_ok(self.name@, self.version@, self.fabric@, self.java@)
                    && e == ProvisionError::InvalidManifest,
            },
    {
        server_toml(self.name.as_str(), self.version.as_str(), self.fabric.as_str(), self.java.as_str())
    }
}

} // verus!
