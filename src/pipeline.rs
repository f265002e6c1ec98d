//! The provisioning pipeline as a state machine. The library decides; the
//! caller performs each action (reading or writing a file, fetching an
//! artifact) and hands back what happened as an event.
//!
//! Stages run in this order: inspect the target for an existing manifest,
//! write the manifest, check and fetch the runtime, check and fetch the
//! loader. An existing manifest that is identical skips the write; a
//! different one aborts with `AlreadyExists`. A present artifact is not
//! fetched again. Any failure stops the run at its stage.
use vstd::prelude::*;
use crate::error::ProvisionError;
use crate::instance::{lemma_manifest_text_injective, Instance, InstanceType};
use crate::text::decimal;
use crate::version::version_at_most;

verus! {

pub open spec fn join(a: Seq<char>, b: Seq<char>) -> Seq<char> {
    a + "/"@ + b
}

/// The directory of the instances of a kind under `root`, then the one of
/// the instance itself.
pub open spec fn instance_dir(root: Seq<char>, kind: InstanceType, name: Seq<char>) -> Seq<char> {
    join(join(root, kind.spec_dir_name()), name)
}

pub open spec fn runtime_dir(root: Seq<char>, major: nat) -> Seq<char> {
    join(join(root, "java"@), decimal(major))
}

pub open spec fn loader_dir(root: Seq<char>, loader: Seq<char>) -> Seq<char> {
    join(join(root, "fabric"@), loader)
}

/// The loader artifact's file name: `<loader>+<game>.jar`.
pub open spec fn loader_file(loader: Seq<char>, game: Seq<char>) -> Seq<char> {
    loader + "+"@ + game + ".jar"@
}

pub open spec fn url_kind(kind: InstanceType) -> Seq<char> {
    match kind {
        InstanceType::Client => "client"@,
        InstanceType::Server => "server"@,
    }
}

/// The metadata service's download address of a loader artifact.
pub open spec fn loader_url(
    game: Seq<char>,
    loader: Seq<char>,
    installer: Seq<char>,
    kind: InstanceType,
) -> Seq<char> {
    "https://meta.fabricmc.net/v2/versions/loader/"@ + game + "/"@ + loader + "/"@ + installer
        + "/"@ + url_kind(kind) + "/jar"@
}

/// Everything a run needs to know: where each file goes, what the manifest
/// says and where the loader artifact comes from.
#[derive(Debug)]
pub struct Plan {
    pub manifest_dir: String,
    pub manifest_path: String,
    pub manifest: String,
    pub runtime_dir: String,
    pub runtime_marker: String,
    pub runtime_major: usize,
    pub loader_dir: String,
    pub loader_path: String,
    pub loader_url: String,
}

/// The plan for provisioning `i` under `root`, with the installer version
/// that builds the download address.
pub open spec fn plan_of(p: Plan, i: Instance, installer: Seq<char>, root: Seq<char>) -> bool {
    &&& p.manifest_dir@ == instance_dir(root, i.kind, i.name@)
    &&& p.manifest_path@ == join(instance_dir(root, i.kind, i.name@), i.kind.spec_file_name())
    &&& p.manifest@ == i.text()
    &&& p.runtime_dir@ == runtime_dir(root, i.java_version.version as nat)
    &&& p.runtime_marker@ == join(runtime_dir(root, i.java_version.version as nat), ".provisioned"@)
    &&& p.runtime_major == i.java_version.version
    &&& p.loader_dir@ == loader_dir(root, i.fabric_version.version@)
    &&& p.loader_path@ == join(
        loader_dir(root, i.fabric_version.version@),
        loader_file(i.fabric_version.version@, i.version.version@),
    )
    &&& p.loader_url@ == loader_url(
        i.version.version@,
        i.fabric_version.version@,
        installer,
        i.kind,
    )
}

/// Joins two path parts with a separator.
pub fn join_path(a: &str, b: &str) -> (r: String)
    ensures
        r@ == join(a@, b@),
{
    let mut s = String::from_str(a);
    s.append("/");
    s.append(b);
    s
}

/// Plans the provisioning of `i` under `root`. Fails where the instance
/// cannot be recorded, or where its runtime is too old for its game version.
pub fn plan(i: &Instance, installer: &str, root: &str) -> (r: Result<Plan, ProvisionError>)
    ensures
        match r {
            Ok(p) => i.wf() && crate::version::version_le(
                i.java_version.threshold@,
                i.version.version@,
            ) && plan_of(p, *i, installer@, root@),
            Err(e) => {
                &&& !i.wf() ==> e == ProvisionError::InvalidManifest
                &&& i.wf() ==> e == ProvisionError::ResolutionFailed && !crate::version::version_le(
                    i.java_version.threshold@,
                    i.version.version@,
                )
            },
        },
{
    let manifest = match i.to_toml() {
        Ok(t) => t,
        Err(e) => {
            return Err(e);
        },
    };
    if !version_at_most(i.java_version.threshold.as_str(), i.version.version.as_str()) {
        return Err(ProvisionError::ResolutionFailed);
    }
    let kind_dir = join_path(root, i.kind.dir_name());
    let manifest_dir = join_path(kind_dir.as_str(), i.name.as_str());
    let manifest_path = join_path(manifest_dir.as_str(), i.kind.file_name());
    let java_dir = join_path(root, "java");
    let major = i.java_version.to_string();
    let runtime_dir = join_path(java_dir.as_str(), major.as_str());
    let runtime_marker = join_path(runtime_dir.as_str(), ".provisioned");
    let fabric_dir = join_path(root, "fabric");
    let loader_dir = join_path(fabric_dir.as_str(), i.fabric_version.version.as_str());
    let mut file = i.fabric_version.version.clone();
    file.append("+");
    file.append(i.version.version.as_str());
    file.append(".jar");
    let loader_path = join_path(loader_dir.as_str(), file.as_str());
    let mut url = String::from_str("https://meta.fabricmc.net/v2/versions/loader/");
    url.append(i.version.version.as_str());
    url.append("/");
    url.append(i.fabric_version.version.as_str());
    url.append("/");
    url.append(installer);
    url.append("/");
    let kind = match i.kind {
        InstanceType::Client => "client",
        InstanceType::Server => "server",
    };
    url.append(kind);
    url.append("/jar");
    assert(file@ =~= loader_file(i.fabric_version.version@, i.version.version@));
    assert(url@ =~= loader_url(i.version.version@, i.fabric_version.version@, installer@, i.kind));
    Ok(
        Plan {
            manifest_dir,
            manifest_path,
            manifest,
            runtime_dir,
            runtime_marker,
            runtime_major: i.java_version.version,
            loader_dir,
            loader_path,
            loader_url: url,
        },
    )
}

#[derive(Clone, Copy, Debug, PartialEq, Eq, Structural)]
pub enum Stage {
    Inspect,
    WriteManifest,
    CheckRuntime,
    FetchRuntime,
    CheckLoader,
    FetchLoader,
    Complete,
}

/// What the caller reports after performing a stage's action.
#[derive(Debug)]
pub enum Event {
    /// The manifest found at the target, if any.
    Manifest(Option<String>),
    /// Whether the artifact that was checked is present.
    Present(bool),
    /// The action succeeded.
    Done,
    /// The action failed.
    Failed,
}

/// What the caller performs for a stage.
#[derive(Debug)]
pub enum Action {
    /// Read the manifest at `path`, where there is one.
    ReadManifest { path: String },
    /// Create `dir` and write `contents` to `path` atomically (a temporary
    /// file in the same directory, then a rename).
    WriteManifest { dir: String, path: String, contents: String },
    /// Report whether `path` exists.
    CheckPresent { path: String },
    /// Create `dir`, fetch runtime `major` into it, then create `marker`.
    FetchRuntime { dir: String, major: usize, marker: String },
    /// Create `dir`, fetch `url` and stream its body to `path`.
    FetchLoader { dir: String, url: String, path: String },
    /// Report success.
    Finish,
}

/// The stage that follows `stage` on `event`, or `None` where the run
/// aborts. `manifest` is the text this run records.
pub open spec fn transition(stage: Stage, event: Event, manifest: Seq<char>) -> Option<Stage> {
    match (stage, event) {
        (Stage::Inspect, Event::Manifest(None)) => Some(Stage::WriteManifest),
        (Stage::Inspect, Event::Manifest(Some(t))) => if t@ == manifest {
            Some(Stage::CheckRuntime)
        } else {
            None
        },
        (Stage::WriteManifest, Event::Done) => Some(Stage::CheckRuntime),
        (Stage::CheckRuntime, Event::Present(true)) => Some(Stage::CheckLoader),
        (Stage::CheckRuntime, Event::Present(false)) => Some(Stage::FetchRuntime),
        (Stage::FetchRuntime, Event::Done) => Some(Stage::CheckLoader),
        (Stage::CheckLoader, Event::Present(true)) => Some(Stage::Complete),
        (Stage::CheckLoader, Event::Present(false)) => Some(Stage::FetchLoader),
        (Stage::FetchLoader, Event::Done) => Some(Stage::Complete),
        (Stage::Complete, _) => Some(Stage::Complete),
        _ => None,
    }
}

/// A different manifest already stands at the target.
pub open spec fn is_conflict(stage: Stage, event: Event, manifest: Seq<char>) -> bool {
    stage == Stage::Inspect && match event {
        Event::Manifest(Some(t)) => t@ != manifest,
        _ => false,
    }
}

/// The path a stage works on, which a failure there names.
pub open spec fn stage_path(p: Plan, stage: Stage) -> Seq<char> {
    match stage {
        Stage::Inspect => p.manifest_path@,
        Stage::WriteManifest => p.manifest_path@,
        Stage::CheckRuntime => p.runtime_marker@,
        Stage::FetchRuntime => p.runtime_dir@,
        Stage::CheckLoader => p.loader_path@,
        Stage::FetchLoader => p.loader_path@,
        Stage::Complete => p.manifest_dir@,
    }
}

pub open spec fn is_fetch(stage: Stage) -> bool {
    stage == Stage::FetchRuntime || stage == Stage::FetchLoader
}

/// Decides the stage after `stage` on `event`, or the error that ends the
/// run: `AlreadyExists` for a different manifest at the target, a download
/// failure at a fetch, an I/O failure elsewhere, each naming its path.
pub fn step(p: &Plan, stage: Stage, event: &Event) -> (r: Result<Stage, ProvisionError>)
    ensures
        transition(stage, *event, p.manifest@) is Some ==> r == Ok::<Stage, ProvisionError>(
            transition(stage, *event, p.manifest@)->0,
        ),
        is_conflict(stage, *event, p.manifest@) ==> r == Err::<Stage, ProvisionError>(
            ProvisionError::AlreadyExists,
        ),
        transition(stage, *event, p.manifest@) is None && !is_conflict(stage, *event, p.manifest@)
            ==> match r {
            Err(ProvisionError::DownloadFailure(path)) => is_fetch(stage) && path@ == stage_path(
                *p,
                stage,
            ),
            Err(ProvisionError::IoFailure(path)) => !is_fetch(stage) && path@ == stage_path(
                *p,
                stage,
            ),
            _ => false,
        },
{
    let next = match (stage, event) {
        (Stage::Inspect, Event::Manifest(None)) => Some(Stage::WriteManifest),
        (Stage::Inspect, Event::Manifest(Some(t))) => {
            if *t == p.manifest {
                Some(Stage::CheckRuntime)
            } else {
                return Err(ProvisionError::AlreadyExists);
            }
        },
        (Stage::WriteManifest, Event::Done) => Some(Stage::CheckRuntime),
        (Stage::CheckRuntime, Event::Present(true)) => Some(Stage::CheckLoader),
        (Stage::CheckRuntime, Event::Present(false)) => Some(Stage::FetchRuntime),
        (Stage::FetchRuntime, Event::Done) => Some(Stage::CheckLoader),
        (Stage::CheckLoader, Event::Present(true)) => Some(Stage::Complete),
        (Stage::CheckLoader, Event::Present(false)) => Some(Stage::FetchLoader),
        (Stage::FetchLoader, Event::Done) => Some(Stage::Complete),
        (Stage::Complete, _) => Some(Stage::Complete),
        _ => None,
    };
    match next {
        Some(s) => Ok(s),
        None => {
            let path = match stage {
                Stage::Inspect => p.manifest_path.clone(),
                Stage::WriteManifest => p.manifest_path.clone(),
                Stage::CheckRuntime => p.runtime_marker.clone(),
                Stage::FetchRuntime => p.runtime_dir.clone(),
                Stage::CheckLoader => p.loader_path.clone(),
                Stage::FetchLoader => p.loader_path.clone(),
                Stage::Complete => p.manifest_dir.clone(),
            };
            if stage == Stage::FetchRuntime || stage == Stage::FetchLoader {
                Err(ProvisionError::DownloadFailure(path))
            } else {
                Err(ProvisionError::IoFailure(path))
            }
        },
    }
}

/// The action that performs a stage.
pub fn action(p: &Plan, stage: Stage) -> (r: Action)
    ensures
        match stage {
            Stage::Inspect => r matches Action::ReadManifest { path } && path@ == p.manifest_path@,
            Stage::WriteManifest => r matches Action::WriteManifest { dir, path, contents } && dir@
                == p.manifest_dir@ && path@ == p.manifest_path@ && contents@ == p.manifest@,
            Stage::CheckRuntime => r matches Action::CheckPresent { path } && path@
                == p.runtime_marker@,
            Stage::FetchRuntime => r matches Action::FetchRuntime { dir, major, marker } && dir@
                == p.runtime_dir@ && major == p.runtime_major && marker@ == p.runtime_marker@,
            Stage::CheckLoader => r matches Action::CheckPresent { path } && path@
                == p.loader_path@,
            Stage::FetchLoader => r matches Action::FetchLoader { dir, url, path } && dir@
                == p.loader_dir@ && url@ == p.loader_url@ && path@ == p.loader_path@,
            Stage::Complete => r matches Action::Finish,
        },
{
    match stage {
        Stage::Inspect => Action::ReadManifest { path: p.manifest_path.clone() },
        Stage::WriteManifest => Action::WriteManifest {
            dir: p.manifest_dir.clone(),
            path: p.manifest_path.clone(),
            contents: p.manifest.clone(),
        },
        Stage::CheckRuntime => Action::CheckPresent { path: p.runtime_marker.clone() },
        Stage::FetchRuntime => Action::FetchRuntime {
            dir: p.runtime_dir.clone(),
            major: p.runtime_major,
            marker: p.runtime_marker.clone(),
        },
        Stage::CheckLoader => Action::CheckPresent { path: p.loader_path.clone() },
        Stage::FetchLoader => Action::FetchLoader {
            dir: p.loader_dir.clone(),
            url: p.loader_url.clone(),
            path: p.loader_path.clone(),
        },
        Stage::Complete => Action::Finish,
    }
}

/// A second run for the same instance, over the manifest the first run
/// wrote and with both artifacts present, neither writes nor fetches
/// anything and completes without `AlreadyExists`.
pub proof fn lemma_rerun_is_idempotent(i: Instance, existing: String)
    requires
        existing@ == i.text(),
    ensures
        !is_conflict(Stage::Inspect, Event::Manifest(Some(existing)), i.text()),
        transition(Stage::Inspect, Event::Manifest(Some(existing)), i.text()) == Some(
            Stage::CheckRuntime,
        ),
        transition(Stage::CheckRuntime, Event::Present(true), i.text()) == Some(Stage::CheckLoader),
        transition(Stage::CheckLoader, Event::Present(true), i.text()) == Some(Stage::Complete),
{
}

/// A run for an instance whose name and kind match an existing manifest's
/// but whose game version differs aborts with `AlreadyExists` at the first
/// stage.
pub proof fn lemma_conflict_aborts(existing: Instance, other: Instance, found: String)
    requires
        existing.wf(),
        other.wf(),
        existing.name@ == other.name@,
        existing.kind == other.kind,
        existing.version.version@ != other.version.version@,
        found@ == existing.text(),
    ensures
        is_conflict(Stage::Inspect, Event::Manifest(Some(found)), other.text()),
        transition(Stage::Inspect, Event::Manifest(Some(found)), other.text()) is None,
{
    if existing.text() == other.text() {
        lemma_manifest_text_injective(
            existing.name@,
            existing.kind,
            existing.version.version@,
            existing.fabric_version.version@,
            existing.java_text(),
            other.name@,
            other.kind,
            other.version.version@,
            other.fabric_version.version@,
            other.java_text(),
        );
    }
}

} // verus!
