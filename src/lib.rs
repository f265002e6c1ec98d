//! Provisioning of local game instances: version catalogs, compatibility
//! resolution, instance manifests and the provisioning state machine.
pub mod fabric;
pub mod java;
pub mod mc;
pub mod modrinth;
pub mod text;
pub mod version;
pub mod error;
pub mod instance;
pub mod resolve;
pub mod pipeline;
pub mod naming;
pub mod server;
