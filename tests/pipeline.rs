use pickaxe::error::ProvisionError;
use pickaxe::fabric;
use pickaxe::instance::{Instance, InstanceType};
use pickaxe::java;
use pickaxe::mc;
use pickaxe::naming::{default_name, name_from_ordinal};
use pickaxe::pipeline::{action, join_path, plan, step, Action, Event, Plan, Stage};

fn instance(name: &str, game: &str) -> Instance {
    Instance::new(
        name.to_string(),
        InstanceType::Server,
        mc::Version { version: game.to_string(), version_type: "release".to_string(), major: true },
        fabric::Version { version: "0.16.14".to_string(), prerelease: false },
        java::Version { version: 21, threshold: "1.20.5".to_string() },
    )
}

fn alpha_plan() -> Plan {
    plan(&instance("Alpha", "1.20.6"), "1.0.1", "/r").unwrap()
}

#[test]
fn plan_lays_out_paths() {
    let p = alpha_plan();
    assert_eq!(p.manifest_dir, "/r/servers/Alpha");
    assert_eq!(p.manifest_path, "/r/servers/Alpha/server.toml");
    assert_eq!(p.runtime_dir, "/r/java/21");
    assert_eq!(p.runtime_marker, "/r/java/21/.provisioned");
    assert_eq!(p.runtime_major, 21);
    assert_eq!(p.loader_dir, "/r/fabric/0.16.14");
    assert_eq!(p.loader_path, "/r/fabric/0.16.14/0.16.14+1.20.6.jar");
    assert_eq!(
        p.loader_url,
        "https://meta.fabricmc.net/v2/versions/loader/1.20.6/0.16.14/1.0.1/server/jar"
    );
    assert_eq!(join_path("a", "b"), "a/b");
}

#[test]
fn plan_refuses_too_old_runtime() {
    let e = plan(&instance("Alpha", "1.20.1"), "1.0.1", "/r").unwrap_err();
    assert_eq!(e, ProvisionError::ResolutionFailed);
    let e = plan(&instance("", "1.20.6"), "1.0.1", "/r").unwrap_err();
    assert_eq!(e, ProvisionError::InvalidManifest);
}

#[test]
fn fresh_run_writes_and_fetches() {
    let p = alpha_plan();
    let mut stage = Stage::Inspect;
    let events = vec![
        Event::Manifest(None),
        Event::Done,
        Event::Present(false),
        Event::Done,
        Event::Present(false),
        Event::Done,
    ];
    let mut seen = vec![];
    for e in events {
        seen.push(stage);
        stage = step(&p, stage, &e).unwrap();
    }
    assert_eq!(stage, Stage::Complete);
    assert_eq!(
        seen,
        vec![
            Stage::Inspect,
            Stage::WriteManifest,
            Stage::CheckRuntime,
            Stage::FetchRuntime,
            Stage::CheckLoader,
            Stage::FetchLoader
        ]
    );
    assert!(matches!(action(&p, Stage::Complete), Action::Finish));
}

#[test]
fn rerun_over_identical_manifest_is_idempotent() {
    let p = alpha_plan();
    let existing = instance("Alpha", "1.20.6").to_toml().unwrap();
    let s = step(&p, Stage::Inspect, &Event::Manifest(Some(existing))).unwrap();
    assert_eq!(s, Stage::CheckRuntime);
    let s = step(&p, s, &Event::Present(true)).unwrap();
    assert_eq!(s, Stage::CheckLoader);
    let s = step(&p, s, &Event::Present(true)).unwrap();
    assert_eq!(s, Stage::Complete);
}

#[test]
fn different_game_version_conflicts() {
    let p = alpha_plan();
    let existing = instance("Alpha", "1.21.1").to_toml().unwrap();
    let r = step(&p, Stage::Inspect, &Event::Manifest(Some(existing)));
    assert_eq!(r, Err(ProvisionError::AlreadyExists));
}

#[test]
fn failures_name_their_path() {
    let p = alpha_plan();
    assert_eq!(
        step(&p, Stage::WriteManifest, &Event::Failed),
        Err(ProvisionError::IoFailure("/r/servers/Alpha/server.toml".to_string()))
    );
    assert_eq!(
        step(&p, Stage::FetchLoader, &Event::Failed),
        Err(ProvisionError::DownloadFailure("/r/fabric/0.16.14/0.16.14+1.20.6.jar".to_string()))
    );
    assert_eq!(
        step(&p, Stage::FetchRuntime, &Event::Failed),
        Err(ProvisionError::DownloadFailure("/r/java/21".to_string()))
    );
}

#[test]
fn actions_follow_the_plan() {
    let p = alpha_plan();
    match action(&p, Stage::WriteManifest) {
        Action::WriteManifest { dir, path, contents } => {
            assert_eq!(dir, "/r/servers/Alpha");
            assert_eq!(path, "/r/servers/Alpha/server.toml");
            assert_eq!(contents, p.manifest);
        }
        other => panic!("unexpected {:?}", other),
    }
    match action(&p, Stage::FetchLoader) {
        Action::FetchLoader { url, .. } => assert!(url.ends_with("/server/jar")),
        other => panic!("unexpected {:?}", other),
    }
}

#[test]
fn default_names() {
    assert_eq!(default_name(1, InstanceType::Server), "My Second Server");
    assert_eq!(default_name(0, InstanceType::Client), "My First Client");
    assert_eq!(name_from_ordinal("Third", InstanceType::Server), "My Third Server");
}
