//! Compatibility resolution: which game, loader and runtime versions are
//! offered, which are preselected, and whether a choice is acceptable.
use vstd::prelude::*;
use crate::error::ProvisionError;
use crate::fabric;
use crate::fabric::meta::{Game, Installer, Loader};
use crate::java;
use crate::mc;
use crate::version::{version_at_most, version_le};

verus! {

/// The stable releases of `vs`, in their order.
pub open spec fn stable_releases(vs: Seq<mc::Version>) -> Seq<mc::Version>
    decreases vs.len(),
{
    if vs.len() == 0 {
        seq![]
    } else if vs.last().is_stable_release() {
        stable_releases(vs.drop_last()).push(vs.last())
    } else {
        stable_releases(vs.drop_last())
    }
}

/// The loader versions of `vs` that are not pre-releases, in their order.
pub open spec fn stable_loaders(vs: Seq<fabric::Version>) -> Seq<fabric::Version>
    decreases vs.len(),
{
    if vs.len() == 0 {
        seq![]
    } else if !vs.last().prerelease {
        stable_loaders(vs.drop_last()).push(vs.last())
    } else {
        stable_loaders(vs.drop_last())
    }
}

/// The runtime at `i` supports game version `game`.
pub open spec fn supports(runtimes: Seq<java::Version>, i: int, game: Seq<char>) -> bool {
    version_le(runtimes[i].threshold@, game)
}

/// The game versions of the loader's catalog, in the game catalog's terms.
pub fn game_versions(games: &Vec<Game>) -> (r: Vec<mc::Version>)
    ensures
        r@.len() == games@.len(),
        forall|i: int|
            0 <= i < r@.len() ==> {
                &&& (#[trigger] r@[i]).version@ == games@[i].version@
                &&& r@[i].major == games@[i].stable
                &&& r@[i].is_stable_release() == games@[i].stable
            },
{
    let mut r: Vec<mc::Version> = Vec::new();
    let mut i: usize = 0;
    while i < games.len()
        invariant
            i <= games@.len(),
            r@.len() == i,
            forall|k: int|
                0 <= k < i ==> {
                    &&& (#[trigger] r@[k]).version@ == games@[k].version@
                    &&& r@[k].major == games@[k].stable
                    &&& r@[k].is_stable_release() == games@[k].stable
                },
        decreases games@.len() - i,
    {
        r.push(games[i].to_version());
        i = i + 1;
    }
    r
}

/// The loader versions of the loader's catalog, in the catalog's terms.
pub fn loader_versions(loaders: &Vec<Loader>) -> (r: Vec<fabric::Version>)
    ensures
        r@.len() == loaders@.len(),
        forall|i: int|
            0 <= i < r@.len() ==> {
                &&& (#[trigger] r@[i]).version@ == loaders@[i].version@
                &&& r@[i].prerelease == !loaders@[i].stable
            },
{
    let mut r: Vec<fabric::Version> = Vec::new();
    let mut i: usize = 0;
    while i < loaders.len()
        invariant
            i <= loaders@.len(),
            r@.len() == i,
            forall|k: int|
                0 <= k < i ==> {
                    &&& (#[trigger] r@[k]).version@ == loaders@[k].version@
                    &&& r@[k].prerelease == !loaders@[k].stable
                },
        decreases loaders@.len() - i,
    {
        r.push(loaders[i].to_version());
        i = i + 1;
    }
    r
}

/// Keeps the stable releases.
pub fn filter_stable_releases(versions: &Vec<mc::Version>) -> (r: Vec<mc::Version>)
    ensures
        r@ == stable_releases(versions@),
{
    let mut r: Vec<mc::Version> = Vec::new();
    let mut i: usize = 0;
    while i < versions.len()
        invariant
            i <= versions@.len(),
            r@ == stable_releases(versions@.take(i as int)),
        decreases versions@.len() - i,
    {
        assert(versions@.take(i + 1).drop_last() =~= versions@.take(i as int));
        if versions[i].stable_release() {
            r.push(versions[i].clone());
        }
        i = i + 1;
    }
    assert(versions@.take(i as int) =~= versions@);
    r
}

/// Keeps the loader versions that are not pre-releases.
pub fn filter_stable_loaders(versions: &Vec<fabric::Version>) -> (r: Vec<fabric::Version>)
    ensures
        r@ == stable_loaders(versions@),
{
    let mut r: Vec<fabric::Version> = Vec::new();
    let mut i: usize = 0;
    while i < versions.len()
        invariant
            i <= versions@.len(),
            r@ == stable_loaders(versions@.take(i as int)),
        decreases versions@.len() - i,
    {
        assert(versions@.take(i + 1).drop_last() =~= versions@.take(i as int));
        if !versions[i].prerelease {
            r.push(versions[i].clone());
        }
        i = i + 1;
    }
    assert(versions@.take(i as int) =~= versions@);
    r
}

/// The index preselected among `versions`: the first one whose identifier
/// is `preferred`, or `0` where none is.
pub fn default_game_version_index(versions: &Vec<mc::Version>, preferred: &str) -> (r: usize)
    ensures
        (exists|i: int| 0 <= i < versions@.len() && #[trigger] versions@[i].version@ == preferred@)
            ==> {
            &&& r < versions@.len()
            &&& versions@[r as int].version@ == preferred@
            &&& forall|j: int| 0 <= j < r ==> #[trigger] versions@[j].version@ != preferred@
        },
        !(exists|i: int| 0 <= i < versions@.len() && #[trigger] versions@[i].version@ == preferred@)
            ==> r == 0,
{
    let wanted = String::from_str(preferred);
    let mut i: usize = 0;
    while i < versions.len()
        invariant
            i <= versions@.len(),
            wanted@ == preferred@,
            forall|j: int| 0 <= j < i ==> #[trigger] versions@[j].version@ != preferred@,
        decreases versions@.len() - i,
    {
        if versions[i].version == wanted {
            return i;
        }
        i = i + 1;
    }
    0
}

/// The index of the runtime preselected for game version `game`: the first
/// of the table that supports it, or `0` where none does.
pub fn default_runtime_index(runtimes: &Vec<java::Version>, game: &str) -> (r: usize)
    ensures
        (exists|i: int| 0 <= i < runtimes@.len() && #[trigger] supports(runtimes@, i, game@)) ==> {
            &&& r < runtimes@.len()
            &&& supports(runtimes@, r as int, game@)
            &&& forall|j: int| 0 <= j < r ==> !#[trigger] supports(runtimes@, j, game@)
        },
        !(exists|i: int| 0 <= i < runtimes@.len() && #[trigger] supports(runtimes@, i, game@))
            ==> r == 0,
{
    let mut i: usize = 0;
    while i < runtimes.len()
        invariant
            i <= runtimes@.len(),
            forall|j: int| 0 <= j < i ==> !#[trigger] supports(runtimes@, j, game@),
        decreases runtimes@.len() - i,
    {
        if version_at_most(runtimes[i].threshold.as_str(), game) {
            assert(supports(runtimes@, i as int, game@));
            return i;
        }
        i = i + 1;
    }
    0
}

/// The latest installer: the first stable one of a list that is newest
/// first.
pub fn latest_installer(installers: &Vec<Installer>) -> (r: Result<Installer, ProvisionError>)
    ensures
        match r {
            Ok(inst) => exists|k: int|
                0 <= k < installers@.len() && installers@[k] == inst && inst.stable && forall|
                    j: int,
                | 0 <= j < k ==> !(#[trigger] installers@[j]).stable,
            Err(e) => e == ProvisionError::NotFound && forall|k: int|
                0 <= k < installers@.len() ==> !(#[trigger] installers@[k]).stable,
        },
{
    let mut i: usize = 0;
    while i < installers.len()
        invariant
            i <= installers@.len(),
            forall|j: int| 0 <= j < i ==> !(#[trigger] installers@[j]).stable,
        decreases installers@.len() - i,
    {
        if installers[i].stable {
            return Ok(installers[i].clone());
        }
        i = i + 1;
    }
    Err(ProvisionError::NotFound)
}

/// The game version chosen at `choice`; the list must offer one.
pub fn choose_game_version(versions: &Vec<mc::Version>, choice: usize) -> (r: Result<
    mc::Version,
    ProvisionError,
>)
    ensures
        choice < versions@.len() ==> r == Ok::<mc::Version, ProvisionError>(versions@[choice as int]),
        choice >= versions@.len() ==> r == Err::<mc::Version, ProvisionError>(
            ProvisionError::ResolutionFailed,
        ),
{
    if choice < versions.len() {
        Ok(versions[choice].clone())
    } else {
        Err(ProvisionError::ResolutionFailed)
    }
}

/// The loader version chosen at `choice`; an empty list means that no
/// loader is compatible with the game version.
pub fn choose_loader_version(versions: &Vec<fabric::Version>, choice: usize) -> (r: Result<
    fabric::Version,
    ProvisionError,
>)
    ensures
        versions@.len() == 0 ==> r == Err::<fabric::Version, ProvisionError>(
            ProvisionError::NoCompatibleLoader,
        ),
        0 < versions@.len() <= choice ==> r == Err::<fabric::Version, ProvisionError>(
            ProvisionError::ResolutionFailed,
        ),
        choice < versions@.len() ==> r == Ok::<fabric::Version, ProvisionError>(
            versions@[choice as int],
        ),
{
    if versions.len() == 0 {
        Err(ProvisionError::NoCompatibleLoader)
    } else if choice < versions.len() {
        Ok(versions[choice].clone())
    } else {
        Err(ProvisionError::ResolutionFailed)
    }
}

/// The runtime chosen at `choice`; it must support game version `game`.
pub fn choose_runtime(runtimes: &Vec<java::Version>, choice: usize, game: &str) -> (r: Result<
    java::Version,
    ProvisionError,
>)
    ensures
        choice < runtimes@.len() && supports(runtimes@, choice as int, game@) ==> r == Ok::<
            java::Version,
            ProvisionError,
        >(runtimes@[choice as int]),
        !(choice < runtimes@.len() && supports(runtimes@, choice as int, game@)) ==> r == Err::<
            java::Version,
            ProvisionError,
        >(ProvisionError::ResolutionFailed),
{
    if choice < runtimes.len() && version_at_most(runtimes[choice].threshold.as_str(), game) {
        Ok(runtimes[choice].clone())
    } else {
        Err(ProvisionError::ResolutionFailed)
    }
}

} // verus!
