//! Roots whose directory has been located on disk, and the repositories found under them.

use vstd::prelude::*;

use crate::path::join_path;
use crate::pretty_path::{PrettyPath, PrettyPathView};
use crate::roots::{Root, RootView};

verus! {

/// A root together with the canonical form of its directory.
#[derive(Debug)]
pub struct CanonicalRoot {
    root: Root,
    canonical_path: String,
}

/// A root with its canonical directory, as a mathematical value.
pub struct CanonicalRootView {
    pub root: RootView,
    pub canonical_path: Seq<char>,
}

impl View for CanonicalRoot {
    type V = CanonicalRootView;

    closed spec fn view(&self) -> CanonicalRootView {
        CanonicalRootView { root: self.root@, canonical_path: self.canonical_path@ }
    }
}

impl Clone for CanonicalRoot {
    fn clone(&self) -> (res: Self)
        ensures
            res@ == self@,
    {
        CanonicalRoot { root: self.root.clone(), canonical_path: self.canonical_path.clone() }
    }
}

impl CanonicalRoot {
    /// `root`, whose directory is canonically `canonical_path`.
    pub fn new(root: Root, canonical_path: String) -> (res: Self)
        ensures
            res@ == (CanonicalRootView { root: root@, canonical_path: canonical_path@ }),
    {
        CanonicalRoot { root, canonical_path }
    }

    /// The root.
    pub fn as_root(&self) -> (res: &Root)
        ensures
            res@ == self@.root,
    {
        &self.root
    }

    /// The root's name.
    pub fn name(&self) -> (res: &str)
        ensures
            res@ == self@.root.name,
    {
        self.root.name()
    }

    /// The root's directory.
    pub fn path(&self) -> (res: &PrettyPath)
        ensures
            res@ == self@.root.path,
    {
        self.root.path()
    }

    /// The canonical form of the root's directory.
    pub fn canonical_path(&self) -> (res: &str)
        ensures
            res@ == self@.canonical_path,
    {
        self.canonical_path.as_str()
    }
}

/// A repository found under a root.
#[derive(Debug)]
pub struct Repo {
    relative_path: PrettyPath,
    path: PrettyPath,
    bare: bool,
}

/// A repository under a root, as a mathematical value.
pub struct RepoView {
    pub relative_path: PrettyPathView,
    pub path: PrettyPathView,
    pub bare: bool,
}

impl View for Repo {
    type V = RepoView;

    closed spec fn view(&self) -> RepoView {
        RepoView { relative_path: self.relative_path@, path: self.path@, bare: self.bare }
    }
}

impl Clone for Repo {
    fn clone(&self) -> (res: Self)
        ensures
            res@ == self@,
    {
        Repo {
            relative_path: self.relative_path.clone(),
            path: self.path.clone(),
            bare: self.bare,
        }
    }
}

/// A path joined to another, in both forms.
pub open spec fn join_pretty(a: PrettyPathView, b: PrettyPathView) -> PrettyPathView {
    PrettyPathView {
        real_path: join_path(a.real_path, b.real_path),
        display_path: join_path(a.display_path, b.display_path),
    }
}

impl Repo {
    /// The repository at `relative_path` under `root`.
    pub fn from_relative_path(root: &Root, relative_path: PrettyPath, bare: bool) -> (res: Self)
        ensures
            res@ == (RepoView {
                relative_path: relative_path@,
                path: join_pretty(root@.path, relative_path@),
                bare,
            }),
    {
        let path = root.path().join(&relative_path);
        Repo { relative_path, path, bare }
    }

    /// Where the repository lies, relative to its root.
    pub fn relative_path(&self) -> (res: &PrettyPath)
        ensures
            res@ == self@.relative_path,
    {
        &self.relative_path
    }

    /// Where the repository lies.
    pub fn path(&self) -> (res: &PrettyPath)
        ensures
            res@ == self@.path,
    {
        &self.path
    }

    /// Whether the repository is bare.
    pub fn bare(&self) -> (res: bool)
        ensures
            res == self@.bare,
    {
        self.bare
    }
}

/// A repository together with the canonical form of its directory.
#[derive(Debug)]
pub struct CanonicalRepo {
    repo: Repo,
    canonical_path: String,
}

/// A repository with its canonical directory, as a mathematical value.
pub struct CanonicalRepoView {
    pub repo: RepoView,
    pub canonical_path: Seq<char>,
}

impl View for CanonicalRepo {
    type V = CanonicalRepoView;

    closed spec fn view(&self) -> CanonicalRepoView {
        CanonicalRepoView { repo: self.repo@, canonical_path: self.canonical_path@ }
    }
}

impl Clone for CanonicalRepo {
    fn clone(&self) -> (res: Self)
        ensures
            res@ == self@,
    {
        CanonicalRepo { repo: self.repo.clone(), canonical_path: self.canonical_path.clone() }
    }
}

impl CanonicalRepo {
    /// `repo`, whose directory is canonically `canonical_path`.
    pub fn new(repo: Repo, canonical_path: String) -> (res: Self)
        ensures
            res@ == (CanonicalRepoView { repo: repo@, canonical_path: canonical_path@ }),
    {
        CanonicalRepo { repo, canonical_path }
    }

    /// The repository.
    pub fn as_repo(&self) -> (res: &Repo)
        ensures
            res@ == self@.repo,
    {
        &self.repo
    }

    /// Where the repository lies, relative to its root.
    pub fn relative_path(&self) -> (res: &PrettyPath)
        ensures
            res@ == self@.repo.relative_path,
    {
        self.repo.relative_path()
    }

    /// Where the repository lies.
    pub fn path(&self) -> (res: &PrettyPath)
        ensures
            res@ == self@.repo.path,
    {
        self.repo.path()
    }

    /// Whether the repository is bare.
    pub fn bare(&self) -> (res: bool)
        ensures
            res == self@.repo.bare,
    {
        self.repo.bare()
    }

    /// The canonical form of the repository's directory.
    pub fn canonical_path(&self) -> (res: &str)
        ensures
            res@ == self@.canonical_path,
    {
        self.canonical_path.as_str()
    }
}

} // verus!
