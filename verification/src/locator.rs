//! Finding the backend's executable: every search root crossed with every
//! name variant, in a fixed priority order, and the first candidate that
//! exists.
//!
//! Candidates are pairs of positions, one into the list of roots and one into
//! the list of names, so that paths stay whatever the platform makes them.

use vstd::prelude::*;

verus! {

/// A directory in which the backend may have been installed.
#[derive(Clone, Copy, Debug, PartialEq, Eq, Structural)]
pub enum SearchRoot {
    /// The folder for executables beside the resource directory of a bundle.
    BundleExecutables,
    /// The resource directory itself.
    Resources,
    /// The `binaries` folder under the resource directory.
    ResourceBinaries,
    /// The user's application data directory.
    AppData,
    /// The directory of the running executable.
    ExecutableDir,
    /// The `binaries` folder beside the running executable.
    ExecutableBinaries,
}

/// A directory that the platform hands out, from which roots are derived.
#[derive(Clone, Copy, Debug, PartialEq, Eq, Structural)]
pub enum BaseDir {
    ResourceParent,
    ResourceDir,
    AppDataDir,
    ExecutableDir,
}

/// Which base directories could be determined.
#[derive(Clone, Copy, Debug, PartialEq, Eq, Structural)]
pub struct KnownDirs {
    pub resource_dir: bool,
    /// Whether the resource directory has a parent; read only if
    /// `resource_dir` holds.
    pub resource_parent: bool,
    pub app_data_dir: bool,
    pub executable_dir: bool,
}

/// The roots under the resource directory, when it is known.
pub open spec fn resource_roots(known: KnownDirs) -> Seq<SearchRoot> {
    if !known.resource_dir {
        Seq::empty()
    } else if known.resource_parent {
        seq![SearchRoot::BundleExecutables, SearchRoot::Resources, SearchRoot::ResourceBinaries]
    } else {
        seq![SearchRoot::Resources, SearchRoot::ResourceBinaries]
    }
}

/// The root for the application data directory, when it is known.
pub open spec fn data_roots(known: KnownDirs) -> Seq<SearchRoot> {
    if known.app_data_dir {
        seq![SearchRoot::AppData]
    } else {
        Seq::empty()
    }
}

/// The roots beside the running executable, when its directory is known.
pub open spec fn executable_roots(known: KnownDirs) -> Seq<SearchRoot> {
    if known.executable_dir {
        seq![SearchRoot::ExecutableDir, SearchRoot::ExecutableBinaries]
    } else {
        Seq::empty()
    }
}

/// The search roots in priority order. A base directory that could not be
/// determined contributes nothing and disturbs nothing else.
pub open spec fn root_order(known: KnownDirs) -> Seq<SearchRoot> {
    resource_roots(known) + data_roots(known) + executable_roots(known)
}

/// Lists the search roots, highest priority first.
pub fn search_roots(known: &KnownDirs) -> (roots: Vec<SearchRoot>)
    ensures
        roots@ == root_order(*known),
{
    let mut roots: Vec<SearchRoot> = Vec::new();
    if known.resource_dir {
        if known.resource_parent {
            roots.push(SearchRoot::BundleExecutables);
        }
        roots.push(SearchRoot::Resources);
        roots.push(SearchRoot::ResourceBinaries);
    }
    if known.app_data_dir {
        roots.push(SearchRoot::AppData);
    }
    if known.executable_dir {
        roots.push(SearchRoot::ExecutableDir);
        roots.push(SearchRoot::ExecutableBinaries);
    }
    roots
}

impl SearchRoot {
    /// The base directory under which the root lies.
    pub fn base(self) -> (dir: BaseDir)
        ensures
            dir == (match self {
                SearchRoot::BundleExecutables => BaseDir::ResourceParent,
                SearchRoot::Resources => BaseDir::ResourceDir,
                SearchRoot::ResourceBinaries => BaseDir::ResourceDir,
                SearchRoot::AppData => BaseDir::AppDataDir,
                SearchRoot::ExecutableDir => BaseDir::ExecutableDir,
                SearchRoot::ExecutableBinaries => BaseDir::ExecutableDir,
            }),
    {
        match self {
            SearchRoot::BundleExecutables => BaseDir::ResourceParent,
            SearchRoot::Resources => BaseDir::ResourceDir,
            SearchRoot::ResourceBinaries => BaseDir::ResourceDir,
            SearchRoot::AppData => BaseDir::AppDataDir,
            SearchRoot::ExecutableDir => BaseDir::ExecutableDir,
            SearchRoot::ExecutableBinaries => BaseDir::ExecutableDir,
        }
    }

    /// The folder to enter below the base directory, if any.
    pub fn subfolder(self) -> (folder: Option<&'static str>)
        ensures
            match self {
                SearchRoot::BundleExecutables => folder is Some && folder->0@ == "MacOS"@,
                SearchRoot::ResourceBinaries => folder is Some && folder->0@ == "binaries"@,
                SearchRoot::ExecutableBinaries => folder is Some && folder->0@ == "binaries"@,
                _ => folder is None,
            },
    {
        match self {
            SearchRoot::BundleExecutables => Some("MacOS"),
            SearchRoot::ResourceBinaries => Some("binaries"),
            SearchRoot::ExecutableBinaries => Some("binaries"),
            _ => None,
        }
    }
}

/// The names under which the backend's executable may be installed: the
/// plain name first, then one per supported platform.
pub open spec fn name_order() -> Seq<Seq<char>> {
    seq![
        "xfactor-backend"@,
        "xfactor-backend-x86_64-apple-darwin"@,
        "xfactor-backend-aarch64-apple-darwin"@,
        "xfactor-backend-x86_64-unknown-linux-gnu"@,
        "xfactor-backend-x86_64-pc-windows-msvc.exe"@,
    ]
}

/// Lists the name variants, highest priority first.
pub fn binary_names() -> (names: Vec<&'static str>)
    ensures
        names@.len() == name_order().len(),
        forall|i: int| 0 <= i < names@.len() ==> (#[trigger] names@[i])@ == name_order()[i],
{
    let mut names: Vec<&'static str> = Vec::new();
    names.push("xfactor-backend");
    names.push("xfactor-backend-x86_64-apple-darwin");
    names.push("xfactor-backend-aarch64-apple-darwin");
    names.push("xfactor-backend-x86_64-unknown-linux-gnu");
    names.push("xfactor-backend-x86_64-pc-windows-msvc.exe");
    names
}

/// One place to look: a root and a name, each by its position in its list.
#[derive(Clone, Copy, Debug, PartialEq, Eq, Structural)]
pub struct BinaryCandidate {
    pub root: usize,
    pub name: usize,
}

/// Rank of a candidate in the search order: roots vary slowest.
pub open spec fn position(root: int, name: int, n_names: int) -> int {
    root * n_names + name
}

/// Whether the candidate of a root and a name was found to exist. A
/// candidate beyond the end of the observations does not.
pub open spec fn exists_at(exists: Seq<bool>, root: int, name: int, n_names: int) -> bool {
    let k = position(root, name, n_names);
    0 <= k < exists.len() && exists[k]
}

/// One candidate comes before another: an earlier root wins whatever the
/// names, and under one root the earlier name wins.
pub open spec fn precedes(a: BinaryCandidate, b: BinaryCandidate) -> bool {
    a.root < b.root || (a.root == b.root && a.name < b.name)
}

/// Order by priority is order by rank.
pub proof fn lemma_priority_is_rank_order(a: BinaryCandidate, b: BinaryCandidate, n_names: int)
    requires
        a.name < n_names,
        b.name < n_names,
    ensures
        precedes(a, b) <==> position(a.root as int, a.name as int, n_names) < position(
            b.root as int,
            b.name as int,
            n_names,
        ),
{
    let (ar, an, br, bn) = (a.root as int, a.name as int, b.root as int, b.name as int);
    if ar < br {
        assert(ar * n_names + n_names <= br * n_names) by (nonlinear_arith)
            requires
                ar < br,
                n_names > 0,
        ;
    } else if br < ar {
        assert(br * n_names + n_names <= ar * n_names) by (nonlinear_arith)
            requires
                br < ar,
                n_names > 0,
        ;
    }
}

/// Builds the candidates in search order: for each root in turn, every name
/// in turn.
pub fn candidates(n_roots: usize, n_names: usize) -> (list: Vec<BinaryCandidate>)
    requires
        n_roots * n_names <= usize::MAX,
    ensures
        list@.len() == n_roots * n_names,
        forall|i: int, j: int|
            0 <= i < n_roots && 0 <= j < n_names ==> {
                let k = #[trigger] position(i, j, n_names as int);
                0 <= k < list@.len() && list@[k] == (BinaryCandidate {
                    root: i as usize,
                    name: j as usize,
                })
            },
{
    let mut list: Vec<BinaryCandidate> = Vec::new();
    let mut i: usize = 0;
    while i < n_roots
        invariant
            i <= n_roots,
            list@.len() == i * n_names,
            forall|a: int, b: int|
                0 <= a < i && 0 <= b < n_names ==> {
                    let k = #[trigger] position(a, b, n_names as int);
                    0 <= k < list@.len() && list@[k] == (BinaryCandidate {
                        root: a as usize,
                        name: b as usize,
                    })
                },
        decreases n_roots - i,
    {
        let mut j: usize = 0;
        while j < n_names
            invariant
                i < n_roots,
                j <= n_names,
                list@.len() == i * n_names + j,
                forall|a: int, b: int|
                    0 <= b < n_names && (0 <= a < i || (a == i && b < j)) ==> {
                        let k = #[trigger] position(a, b, n_names as int);
                        0 <= k < list@.len() && list@[k] == (BinaryCandidate {
                            root: a as usize,
                            name: b as usize,
                        })
                    },
            decreases n_names - j,
        {
            list.push(BinaryCandidate { root: i, name: j });
            j += 1;
        }
        assert((i + 1) * n_names == i * n_names + n_names) by (nonlinear_arith);
        i += 1;
    }
    list
}

/// The position of the first observation that holds, if any does.
pub fn first_existing(exists: &Vec<bool>) -> (first: Option<usize>)
    ensures
        match first {
            Some(k) => k < exists@.len() && exists@[k as int] && forall|m: int|
                0 <= m < k ==> !exists@[m],
            None => forall|m: int| 0 <= m < exists@.len() ==> !exists@[m],
        },
{
    let mut k: usize = 0;
    while k < exists.len()
        invariant
            k <= exists@.len(),
            forall|m: int| 0 <= m < k ==> !exists@[m],
        decreases exists@.len() - k,
    {
        if exists[k] {
            return Some(k);
        }
        k += 1;
    }
    None
}

/// Picks the backend's executable among the candidates of `n_roots` roots
/// and `n_names` names, where `exists` says for each candidate, in search
/// order, whether a file is there.
///
/// The result exists, it is the first in search order that does, and no
/// existing candidate comes before it: an earlier root always wins over a
/// later one, even if both hold a binary. Nothing is
/// returned exactly when no candidate exists, which sends the caller to the
/// development fallback.
pub fn locate_backend_binary(n_roots: usize, n_names: usize, exists: &Vec<bool>) -> (found: Option<
    BinaryCandidate,
>)
    ensures
        match found {
            Some(c) => {
                &&& c.root < n_roots
                &&& c.name < n_names
                &&& exists_at(exists@, c.root as int, c.name as int, n_names as int)
                &&& forall|m: int|
                    0 <= m < position(c.root as int, c.name as int, n_names as int)
                        ==> !#[trigger] exists@[m]
                &&& forall|i: int, j: int|
                    0 <= i < n_roots && 0 <= j < n_names && #[trigger] exists_at(
                        exists@,
                        i,
                        j,
                        n_names as int,
                    ) ==> !precedes(BinaryCandidate { root: i as usize, name: j as usize }, c)
            },
            None => forall|i: int, j: int|
                0 <= i < n_roots && 0 <= j < n_names ==> !#[trigger] exists_at(
                    exists@,
                    i,
                    j,
                    n_names as int,
                ),
        },
{
    let mut k: usize = 0;
    let mut i: usize = 0;
    while i < n_roots
        invariant
            i <= n_roots,
            k == i * n_names,
            k <= exists@.len(),
            forall|m: int| 0 <= m < k ==> !#[trigger] exists@[m],
            forall|a: int, b: int|
                0 <= a < i && 0 <= b < n_names ==> !#[trigger] exists_at(
                    exists@,
                    a,
                    b,
                    n_names as int,
                ),
        decreases n_roots - i,
    {
        let mut j: usize = 0;
        while j < n_names
            invariant
                i < n_roots,
                j <= n_names,
                k == i * n_names + j,
                k <= exists@.len(),
                forall|m: int| 0 <= m < k ==> !#[trigger] exists@[m],
                forall|a: int, b: int|
                    0 <= b < n_names && (0 <= a < i || (a == i && b < j)) ==> !#[trigger] exists_at(
                        exists@,
                        a,
                        b,
                        n_names as int,
                    ),
            decreases n_names - j,
        {
            if k >= exists.len() {
                proof {
                    assert forall|a: int, b: int|
                        0 <= a < n_roots && 0 <= b < n_names implies !#[trigger] exists_at(
                        exists@,
                        a,
                        b,
                        n_names as int,
                    ) by {
                        if a > i {
                            assert(a * n_names >= i * n_names + n_names) by (nonlinear_arith)
                                requires
                                    a > i,
                                    n_names >= 0,
                            ;
                        }
                    }
                }
                return None;
            }
            if exists[k] {
                return Some(BinaryCandidate { root: i, name: j });
            }
            k += 1;
            j += 1;
        }
        assert((i + 1) * n_names == i * n_names + n_names) by (nonlinear_arith);
        i += 1;
    }
    None
}

} // verus!
