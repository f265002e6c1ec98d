use pickaxe::error::ProvisionError;
use pickaxe::fabric;
use pickaxe::fabric::meta;
use pickaxe::instance::{parse_manifest, Instance, InstanceType};
use pickaxe::java;
use pickaxe::mc;
use pickaxe::modrinth::ProjectType;
use pickaxe::server;
use pickaxe::text::{decimal_string, parse_decimal};

fn instance(name: &str, game: &str) -> Instance {
    Instance::new(
        name.to_string(),
        InstanceType::Server,
        mc::Version { version: game.to_string(), version_type: "release".to_string(), major: true },
        fabric::Version { version: "0.16.14".to_string(), prerelease: false },
        java::Version { version: 21, threshold: "1.20.5".to_string() },
    )
}

const ALPHA: &str = "name = \"Alpha\"\ntype = \"Server\"\nversion = \"1.20.1\"\nfabric_version = \"0.16.14\"\njava_version = \"21\"\n";

#[test]
fn manifest_text_of_instance() {
    assert_eq!(instance("Alpha", "1.20.1").to_toml().unwrap(), ALPHA);
}

#[test]
fn manifest_round_trip() {
    let i = instance("My Second Server", "1.20.1");
    let text = i.to_toml().unwrap();
    let m = parse_manifest(&text).unwrap();
    assert_eq!(m.name, "My Second Server");
    assert_eq!(m.kind, InstanceType::Server);
    assert_eq!(m.version, "1.20.1");
    assert_eq!(m.fabric_version, "0.16.14");
    assert_eq!(m.java_version, "21");
    assert_eq!(m.to_toml().unwrap(), text);
}

#[test]
fn parse_rejects_other_text() {
    assert!(parse_manifest("").is_none());
    assert!(parse_manifest(&ALPHA.replace("Server", "Proxy")).is_none());
    assert!(parse_manifest(&format!("{}extra = \"1\"\n", ALPHA)).is_none());
    assert!(parse_manifest(&ALPHA.replace("version = ", "version=")).is_none());
    assert!(parse_manifest(&ALPHA.replace("\"Alpha\"", "\"\"")).is_none());
}

#[test]
fn invalid_names_are_refused() {
    assert_eq!(instance("", "1.20.1").to_toml(), Err(ProvisionError::InvalidManifest));
    assert_eq!(instance("a\"b", "1.20.1").to_toml(), Err(ProvisionError::InvalidManifest));
    assert_eq!(instance("a/b", "1.20.1").to_toml(), Err(ProvisionError::InvalidManifest));
    assert_eq!(instance("..", "1.20.1").to_toml(), Err(ProvisionError::InvalidManifest));
    assert_eq!(instance("Alpha", "1.20\n1").to_toml(), Err(ProvisionError::InvalidManifest));
}

#[test]
fn kinds_and_labels() {
    assert_eq!(InstanceType::Client.to_string(), "Client");
    assert_eq!(InstanceType::Server.dir_name(), "servers");
    assert_eq!(InstanceType::Client.file_name(), "client.toml");
    assert_eq!(ProjectType::ResourcePack.to_string(), "ResourcePack");
    assert_eq!(decimal_string(0), "0");
    assert_eq!(decimal_string(1203), "1203");
    let j = java::Version { version: 17, threshold: "1.17.0".to_string() };
    assert_eq!(j.to_string(), "17");
}

#[test]
fn server_description_skips_installer() {
    let s = meta::Server::new(
        "Alpha".to_string(),
        "1.20.1".to_string(),
        "0.16.14".to_string(),
        "1.0.1".to_string(),
        "21".to_string(),
    );
    let text = "name = \"Alpha\"\nversion = \"1.20.1\"\nfabric = \"0.16.14\"\njava = \"21\"\n";
    assert_eq!(s.to_toml().unwrap(), text);
    let t = server::Server::new(
        "Alpha".to_string(),
        "1.20.1".to_string(),
        "0.16.14".to_string(),
        "21".to_string(),
    );
    assert_eq!(t.installer, "");
    assert_eq!(t.to_toml().unwrap(), text);
}

#[test]
fn runtime_major_reads_back() {
    let text = instance("Alpha", "1.20.1").to_toml().unwrap();
    assert_eq!(parse_manifest(&text).unwrap().runtime_major(), Some(21));
}

#[test]
fn decimal_parsing() {
    assert_eq!(parse_decimal("21"), Some(21));
    assert_eq!(parse_decimal("0"), Some(0));
    assert_eq!(parse_decimal("021"), None);
    assert_eq!(parse_decimal(""), None);
    assert_eq!(parse_decimal("2a"), None);
    assert_eq!(parse_decimal(&usize::MAX.to_string()), Some(usize::MAX));
    assert_eq!(parse_decimal("99999999999999999999999"), None);
}
