//! A server description whose installer is not yet known.
use vstd::prelude::*;
use crate::error::ProvisionError;
use crate::fabric::meta::{server_fields_ok, server_text, server_toml};

verus! {

#[derive(Debug)]
pub struct Server {
    pub name: String,
    pub version: String,
    pub fabric: String,
    pub installer: String,
    pub java: String,
}

impl Server {
    /// A server with no installer chosen yet.
    pub fn new(name: String, version: String, fabric: String, java: String) -> (r: Self)
        ensures
            r.name == name,
            r.version == version,
            r.fabric == fabric,
            r.installer@.len() == 0,
            r.java == java,
    {
        Server { name, version, fabric, installer: String::new(), java }
    }

    /// The server's description without the installer.
    pub fn to_toml(&self) -> (r: Result<String, ProvisionError>)
        ensures
            match r {
                Ok(t) => server_fields_ok(self.name@, self.version@, self.fabric@, self.java@) && t@
                    == server_text(self.name@, self.version@, self.fabric@, self.java@),
                Err(e) => !server_fields_ok(self.name@, self.version@, self.fabric@, self.java@)
                    && e == ProvisionError::InvalidManifest,
            },
    {
        server_toml(self.name.as_str(), self.version.as_str(), self.fabric.as_str(), self.java.as_str())
    }
}

} // verus!
