use pickaxe::error::ProvisionError;
use pickaxe::fabric;
use pickaxe::fabric::meta::{Game, Installer, Loader};
use pickaxe::java::{self, supported_java_versions};
use pickaxe::mc;
use pickaxe::resolve::{
    choose_game_version, choose_loader_version, choose_runtime, default_game_version_index,
    default_runtime_index, filter_stable_loaders, filter_stable_releases, game_versions,
    latest_installer, loader_versions,
};

fn game(id: &str, stable: bool) -> Game {
    Game { version: id.to_string(), stable }
}

fn release(id: &str) -> mc::Version {
    mc::Version { version: id.to_string(), version_type: "release".to_string(), major: true }
}

fn runtime(major: usize, threshold: &str) -> java::Version {
    java::Version { version: major, threshold: threshold.to_string() }
}

fn loader(id: &str, prerelease: bool) -> fabric::Version {
    fabric::Version { version: id.to_string(), prerelease }
}

#[test]
fn stable_release_scenario() {
    let games = vec![game("1.20.1", true), game("1.21.0-pre1", false)];
    let versions = game_versions(&games);
    assert_eq!(versions[0].version_type, "release");
    assert_eq!(versions[1].version_type, "snapshot");
    let stable = filter_stable_releases(&versions);
    assert_eq!(stable.len(), 1);
    assert_eq!(stable[0].version, "1.20.1");
    assert_eq!(default_game_version_index(&stable, "1.20.1"), 0);
}

#[test]
fn filter_keeps_only_major_releases() {
    let mut minor = release("1.19.4");
    minor.major = false;
    let snapshot = mc::Version {
        version: "23w07a".to_string(),
        version_type: "snapshot".to_string(),
        major: true,
    };
    let versions = vec![release("1.20.4"), minor, snapshot, release("1.20.1")];
    let stable = filter_stable_releases(&versions);
    let ids: Vec<&str> = stable.iter().map(|v| v.version.as_str()).collect();
    assert_eq!(ids, vec!["1.20.4", "1.20.1"]);
    assert!(filter_stable_releases(&vec![]).is_empty());
}

#[test]
fn default_index_absent_preferred_is_zero() {
    let versions = vec![release("1.21.4"), release("1.21.3")];
    assert_eq!(default_game_version_index(&versions, "1.20.1"), 0);
}

#[test]
fn default_index_finds_preferred() {
    let versions = vec![release("1.21.4"), release("1.20.1"), release("1.19.2")];
    assert_eq!(default_game_version_index(&versions, "1.20.1"), 1);
}

#[test]
fn default_index_first_of_equal_ids() {
    let versions = vec![release("1.21.4"), release("1.20.1"), release("1.20.1")];
    assert_eq!(default_game_version_index(&versions, "1.20.1"), 1);
}

#[test]
fn runtime_scenario() {
    let table = supported_java_versions().to_vec();
    assert_eq!(table[0].version, 21);
    assert_eq!(table[0].threshold, "1.20.5");
    assert_eq!(table[1].version, 17);
    assert_eq!(table[1].threshold, "1.17.0");
    let idx = default_runtime_index(&table, "1.18.2");
    assert_eq!(table[idx].version, 17);
}

#[test]
fn runtime_most_recent_threshold_first() {
    let table = vec![runtime(21, "1.20.5"), runtime(17, "1.17.0")];
    assert_eq!(default_runtime_index(&table, "1.21.4"), 0);
    assert_eq!(default_runtime_index(&table, "1.20.5"), 0);
    assert_eq!(default_runtime_index(&table, "1.20.4"), 1);
    assert_eq!(default_runtime_index(&table, "1.17"), 1);
}

#[test]
fn runtime_without_match_falls_back_to_zero() {
    let table = vec![runtime(21, "1.20.5"), runtime(17, "1.17.0")];
    assert_eq!(default_runtime_index(&table, "1.16.5"), 0);
    assert_eq!(default_runtime_index(&vec![], "1.20.1"), 0);
}

#[test]
fn stable_loaders_drop_prereleases() {
    let raw = vec![
        Loader { version: "0.16.15-beta.1".to_string(), stable: false },
        Loader { version: "0.16.14".to_string(), stable: true },
    ];
    let versions = loader_versions(&raw);
    assert!(versions[0].prerelease);
    let stable = filter_stable_loaders(&versions);
    assert_eq!(stable.len(), 1);
    assert_eq!(stable[0].version, "0.16.14");
}

#[test]
fn empty_loader_catalog_has_no_compatible_loader() {
    let stable = filter_stable_loaders(&loader_versions(&vec![]));
    assert_eq!(choose_loader_version(&stable, 0).unwrap_err(), ProvisionError::NoCompatibleLoader);
}

#[test]
fn loader_choice_out_of_range() {
    let stable = vec![loader("0.16.14", false)];
    assert_eq!(choose_loader_version(&stable, 1).unwrap_err(), ProvisionError::ResolutionFailed);
    assert_eq!(choose_loader_version(&stable, 0).unwrap().version, "0.16.14");
}

#[test]
fn empty_game_list_fails_resolution() {
    assert_eq!(choose_game_version(&vec![], 0).unwrap_err(), ProvisionError::ResolutionFailed);
    let versions = vec![release("1.20.1")];
    assert_eq!(choose_game_version(&versions, 0).unwrap().version, "1.20.1");
}

#[test]
fn runtime_choice_must_support_game() {
    let table = vec![runtime(21, "1.20.5"), runtime(17, "1.17.0")];
    assert_eq!(choose_runtime(&table, 0, "1.18.2").unwrap_err(), ProvisionError::ResolutionFailed);
    assert_eq!(choose_runtime(&table, 1, "1.18.2").unwrap().version, 17);
    assert_eq!(choose_runtime(&table, 2, "1.18.2").unwrap_err(), ProvisionError::ResolutionFailed);
}

#[test]
fn latest_installer_is_first_stable() {
    let list = vec![
        Installer { version: "1.1.0".to_string(), stable: false },
        Installer { version: "1.0.3".to_string(), stable: true },
        Installer { version: "1.0.1".to_string(), stable: true },
    ];
    assert_eq!(latest_installer(&list).unwrap().version, "1.0.3");
}

#[test]
fn no_stable_installer_is_not_found() {
    let list = vec![Installer { version: "1.1.0".to_string(), stable: false }];
    assert_eq!(latest_installer(&list).unwrap_err(), ProvisionError::NotFound);
    assert_eq!(latest_installer(&vec![]).unwrap_err(), ProvisionError::NotFound);
}
