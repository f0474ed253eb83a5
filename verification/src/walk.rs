//! Walking a root's directory tree: what is done with each entry the walk meets, and the paths
//! an entry is known by.

use vstd::prelude::*;

use crate::path::{file_name, join_path, path_file_name, path_strip_prefix, strip_prefix};
use crate::pretty_path::{PrettyPath, PrettyPathView};
use crate::repo::{join_pretty, CanonicalRoot, CanonicalRootView};
use crate::text::chars_of;

verus! {

/// What the walk does with an entry of the directory tree.
#[derive(Debug, Clone, Copy, PartialEq, Eq, Structural)]
pub enum WalkStep {
    /// Go on to the next entry.
    Skip,
    /// Go on to the next entry, without descending into this one.
    SkipSubtree,
    /// Hand the entry out.
    Yield,
}

/// What the walk does with an entry: entries that are not directories are passed over; a
/// directory the filters refuse is passed over with all it holds; any other is handed out.
pub open spec fn entry_step(is_dir: bool, accepted: bool) -> WalkStep {
    if !is_dir {
        WalkStep::Skip
    } else if !accepted {
        WalkStep::SkipSubtree
    } else {
        WalkStep::Yield
    }
}

/// What the walk does with an entry (see `entry_step`).
pub fn next_entry_step(is_dir: bool, accepted: bool) -> (res: WalkStep)
    ensures
        res == entry_step(is_dir, accepted),
{
    if !is_dir {
        WalkStep::Skip
    } else if !accepted {
        WalkStep::SkipSubtree
    } else {
        WalkStep::Yield
    }
}

/// How a root's directory tree is searched for repositories.
#[derive(Debug, Clone, Copy, PartialEq, Eq, Structural)]
pub struct WalkOptions {
    /// Whether hidden directories are searched.
    pub visit_hidden_dirs: bool,
    /// Whether the insides of repositories are searched for more repositories.
    pub visit_repo_subdirs: bool,
    /// Whether bare repositories are listed.
    pub include_bare_repo: bool,
}

/// What the search for repositories does with an entry before looking for a repository in
/// it: every directory is accepted, except a hidden one (the root included) where hidden
/// directories are not searched (see `entry_step`).
pub open spec fn search_entry_step(is_dir: bool, hidden: bool, opts: WalkOptions) -> WalkStep {
    entry_step(is_dir, opts.visit_hidden_dirs || !hidden)
}

/// What the search for repositories does with an entry before looking for a repository in
/// it (see `search_entry_step`). An entry it yields is then probed for a repository.
pub fn next_search_step(is_dir: bool, hidden: bool, opts: WalkOptions) -> (res: WalkStep)
    ensures
        res == search_entry_step(is_dir, hidden, opts),
{
    next_entry_step(is_dir, opts.visit_hidden_dirs || !hidden)
}

/// What is done with a repository the search found.
#[derive(Debug, Clone, Copy, PartialEq, Eq, Structural)]
pub struct FoundRepoStep {
    /// Whether the repository is listed.
    pub listed: bool,
    /// Whether its insides are left out of the search.
    pub skip_subtree: bool,
}

/// What is done with a repository the search found: it is listed unless it is bare and bare
/// repositories are not listed; its insides are searched only where the options say so.
pub open spec fn found_repo_step(bare: bool, opts: WalkOptions) -> FoundRepoStep {
    FoundRepoStep { listed: !bare || opts.include_bare_repo, skip_subtree: !opts.visit_repo_subdirs }
}

/// Whether the insides of a found repository are searched depends on the options alone, the
/// same for a bare repository and for one that is not: they are searched exactly where the
/// options ask for the insides of repositories. A repository that is not bare is always
/// listed; a bare one exactly where bare repositories are listed.
pub proof fn lemma_found_repo_step(bare: bool, opts: WalkOptions)
    ensures
        found_repo_step(bare, opts).skip_subtree == !opts.visit_repo_subdirs,
        found_repo_step(true, opts).skip_subtree == found_repo_step(false, opts).skip_subtree,
        found_repo_step(false, opts).listed,
        found_repo_step(true, opts).listed == opts.include_bare_repo,
{
}

/// A directory that is not hidden is always searched; a hidden one exactly where hidden
/// directories are searched, and left out with everything under it otherwise; an entry that
/// is no directory is passed over.
pub proof fn lemma_search_entry_step(is_dir: bool, hidden: bool, opts: WalkOptions)
    ensures
        !is_dir ==> search_entry_step(is_dir, hidden, opts) == WalkStep::Skip,
        is_dir && !hidden ==> search_entry_step(is_dir, hidden, opts) == WalkStep::Yield,
        is_dir && hidden ==> search_entry_step(is_dir, hidden, opts) == (if opts.visit_hidden_dirs {
            WalkStep::Yield
        } else {
            WalkStep::SkipSubtree
        }),
{
}

/// What is done with a repository the search found (see `found_repo_step`).
pub fn next_found_repo_step(bare: bool, opts: WalkOptions) -> (res: FoundRepoStep)
    ensures
        res == found_repo_step(bare, opts),
{
    FoundRepoStep { listed: !bare || opts.include_bare_repo, skip_subtree: !opts.visit_repo_subdirs }
}

/// Whether a path names a hidden entry: its last component starts with `.`.
pub open spec fn is_hidden_path(p: Seq<char>) -> bool {
    match file_name(p) {
        Some(name) => name.len() > 0 && name[0] == '.',
        None => false,
    }
}

/// Whether `path` names a hidden entry (see `is_hidden_path`).
pub fn path_is_hidden(path: &str) -> (res: bool)
    ensures
        res == is_hidden_path(path@),
{
    match path_file_name(path) {
        Some(name) => {
            let c = chars_of(name.as_str());
            c.len() > 0 && c[0] == '.'
        },
        None => false,
    }
}

/// An entry of a root's directory tree, as a mathematical value.
pub struct DirEntryView {
    pub root: CanonicalRootView,
    pub relative_path: Seq<char>,
    pub path: PrettyPathView,
}

/// An entry of a root's directory tree: the root, the entry's path relative to it, and the
/// entry's path in both forms.
#[derive(Debug)]
pub struct DirEntry {
    root: CanonicalRoot,
    relative_path: String,
    path: PrettyPath,
}

impl View for DirEntry {
    type V = DirEntryView;

    closed spec fn view(&self) -> DirEntryView {
        DirEntryView { root: self.root@, relative_path: self.relative_path@, path: self.path@ }
    }
}

/// The entry at `entry_path` under `root`, which the walk of the root's directory met, and so
/// lies under it.
pub open spec fn dir_entry_of(root: CanonicalRootView, entry_path: Seq<char>) -> DirEntryView {
    let relative = strip_prefix(entry_path, root.root.path.real_path)->0;
    DirEntryView {
        root,
        relative_path: relative,
        path: join_pretty(
            root.root.path,
            PrettyPathView { real_path: relative, display_path: relative },
        ),
    }
}

impl DirEntry {
    /// The entry at `entry_path`, which lies under the root's real path.
    pub fn new(root: &CanonicalRoot, entry_path: &str) -> (res: Self)
        requires
            strip_prefix(entry_path@, root@.root.path.real_path) is Some,
            crate::path::components(root@.root.path.real_path).len() >= 1,
        ensures
            res@ == dir_entry_of(root@, entry_path@),
    {
        let relative_path = match path_strip_prefix(entry_path, root.path().as_real_path()) {
            Some(r) => r,
            None => vstd::pervasive::unreached(),
        };
        let path = root.path().join(&PrettyPath::from_real_path(relative_path.clone()));
        DirEntry { root: root.clone(), relative_path, path }
    }

    /// The root the entry lies under.
    pub fn root(&self) -> (res: &CanonicalRoot)
        ensures
            res@ == self@.root,
    {
        &self.root
    }

    /// The entry's path relative to the root.
    pub fn relative_path(&self) -> (res: &str)
        ensures
            res@ == self@.relative_path,
    {
        self.relative_path.as_str()
    }

    /// The entry's path.
    pub fn path(&self) -> (res: &PrettyPath)
        ensures
            res@ == self@.path,
    {
        &self.path
    }

    /// Whether the entry is hidden: its name starts with `.`.
    pub fn is_hidden(&self) -> (res: bool)
        ensures
            res == is_hidden_path(self@.path.real_path),
    {
        path_is_hidden(self.path.as_real_path())
    }
}

/// A repository the search met: its path relative to the root, the path shown for it, and
/// its canonical path.
#[derive(Debug)]
pub struct Repo {
    name: String,
    display_path: String,
    absolute_path: String,
}

/// A repository the search met, as a mathematical value.
pub struct RepoView {
    pub name: Seq<char>,
    pub display_path: Seq<char>,
    pub absolute_path: Seq<char>,
}

impl View for Repo {
    type V = RepoView;

    closed spec fn view(&self) -> RepoView {
        RepoView {
            name: self.name@,
            display_path: self.display_path@,
            absolute_path: self.absolute_path@,
        }
    }
}

impl Repo {
    /// The repository at `entry_path` under the root at `root` (real and shown path), whose
    /// canonical path is `absolute_path`: it is named by its path relative to the root, and
    /// shown under the root's shown path.
    pub fn new(root: &PrettyPath, entry_path: &str, absolute_path: String) -> (res: Self)
        requires
            strip_prefix(entry_path@, root@.real_path) is Some,
            crate::path::components(root@.real_path).len() >= 1,
        ensures
            res@ == (RepoView {
                name: strip_prefix(entry_path@, root@.real_path)->0,
                display_path: join_path(
                    root@.display_path,
                    strip_prefix(entry_path@, root@.real_path)->0,
                ),
                absolute_path: absolute_path@,
            }),
    {
        let name = match path_strip_prefix(entry_path, root.as_real_path()) {
            Some(r) => r,
            None => vstd::pervasive::unreached(),
        };
        let display_path = crate::path::path_join(root.as_display_path(), name.as_str());
        Repo { name, display_path, absolute_path }
    }

    /// The repository's path relative to the root.
    pub fn name(&self) -> (res: &str)
        ensures
            res@ == self@.name,
    {
        self.name.as_str()
    }

    /// The path shown for the repository.
    pub fn display_path(&self) -> (res: &str)
        ensures
            res@ == self@.display_path,
    {
        self.display_path.as_str()
    }

    /// The repository's canonical path.
    pub fn absolute_path(&self) -> (res: &str)
        ensures
            res@ == self@.absolute_path,
    {
        self.absolute_path.as_str()
    }
}

} // verus!
