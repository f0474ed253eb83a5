//! The repository cache: for each root, the repositories found under it, each with the time it
//! was found. Times are milliseconds since the Unix epoch.

use vstd::prelude::*;

use crate::name_map::{filter_map, NameMap};
use crate::pretty_path::{PrettyPath, PrettyPathView};
use crate::repo::{join_pretty, CanonicalRepo, CanonicalRepoView, CanonicalRoot, CanonicalRootView, Repo, RepoView};
use crate::roots::{Root, RootView};
use crate::text::str_eq;

verus! {

/// A cached repository, as a mathematical value.
pub struct RepoCacheEntryView {
    pub timestamp: int,
    pub canonical_path: Seq<char>,
    pub bare: bool,
}

/// A cached repository: when it was found, its canonical directory, and whether it is bare.
#[derive(Debug)]
pub struct RepoCacheEntry {
    timestamp: i64,
    canonical_path: String,
    bare: bool,
}

impl View for RepoCacheEntry {
    type V = RepoCacheEntryView;

    closed spec fn view(&self) -> RepoCacheEntryView {
        RepoCacheEntryView {
            timestamp: self.timestamp as int,
            canonical_path: self.canonical_path@,
            bare: self.bare,
        }
    }
}

/// Whether an entry found at `timestamp` is still fresh at `now`: no more than `expire`
/// milliseconds have passed.
pub open spec fn is_fresh(timestamp: int, now: int, expire: int) -> bool {
    now - timestamp <= expire
}

/// The path of a repository under its root: the relative path, shown as it is.
pub open spec fn cached_relative_path(relative_path: Seq<char>) -> PrettyPathView {
    PrettyPathView { real_path: relative_path, display_path: relative_path }
}

/// The repository a cache entry gives back, for `relative_path` under `root`.
pub open spec fn cached_repo(
    root: RootView,
    relative_path: Seq<char>,
    e: RepoCacheEntryView,
) -> CanonicalRepoView {
    CanonicalRepoView {
        repo: RepoView {
            relative_path: cached_relative_path(relative_path),
            path: join_pretty(root.path, cached_relative_path(relative_path)),
            bare: e.bare,
        },
        canonical_path: e.canonical_path,
    }
}

impl RepoCacheEntry {
    /// An entry found at `timestamp`.
    pub fn new(timestamp: i64, canonical_path: String, bare: bool) -> (res: Self)
        ensures
            res@ == (RepoCacheEntryView {
                timestamp: timestamp as int,
                canonical_path: canonical_path@,
                bare,
            }),
    {
        RepoCacheEntry { timestamp, canonical_path, bare }
    }

    /// When the repository was found.
    pub fn timestamp(&self) -> (res: i64)
        ensures
            res == self@.timestamp,
    {
        self.timestamp
    }

    /// The repository's canonical directory.
    pub fn canonical_path(&self) -> (res: &str)
        ensures
            res@ == self@.canonical_path,
    {
        self.canonical_path.as_str()
    }

    /// Whether the repository is bare.
    pub fn bare(&self) -> (res: bool)
        ensures
            res == self@.bare,
    {
        self.bare
    }

    /// Whether the entry is still fresh at `now` (see `is_fresh`).
    pub fn is_valid(&self, now: i64, expire: i64) -> (res: bool)
        ensures
            res == is_fresh(self@.timestamp, now as int, expire as int),
    {
        let elapsed: i128 = now as i128 - self.timestamp as i128;
        elapsed <= expire as i128
    }

    /// The repository at `relative_path` under `root` that the entry describes.
    pub fn to_repo(&self, root: &Root, relative_path: String) -> (res: Repo)
        ensures
            res@ == cached_repo(root@, relative_path@, self@).repo,
    {
        Repo::from_relative_path(root, PrettyPath::from_real_path(relative_path), self.bare)
    }

    /// The repository at `relative_path` under `root`, with its canonical directory.
    pub fn to_canonical_repo(&self, root: &Root, relative_path: String) -> (res: CanonicalRepo)
        ensures
            res@ == cached_repo(root@, relative_path@, self@),
    {
        let repo = self.to_repo(root, relative_path);
        CanonicalRepo::new(repo, self.canonical_path.clone())
    }
}

/// The cache of one root, as a mathematical value.
pub struct RootCacheEntryView {
    pub real_path: Seq<char>,
    pub display_path: Seq<char>,
    pub canonical_path: Seq<char>,
    pub repos: Map<Seq<char>, RepoCacheEntryView>,
}

/// The cache of one root: its paths when it was cached, and its repositories by relative path.
#[derive(Debug)]
pub struct RootCacheEntry {
    real_path: String,
    display_path: String,
    canonical_path: String,
    repos: NameMap<RepoCacheEntry>,
}

/// The views of the values of a map.
pub open spec fn repo_entries_view(m: Map<Seq<char>, RepoCacheEntry>) -> Map<Seq<char>, RepoCacheEntryView> {
    m.map_values(|e: RepoCacheEntry| e@)
}

impl View for RootCacheEntry {
    type V = RootCacheEntryView;

    closed spec fn view(&self) -> RootCacheEntryView {
        RootCacheEntryView {
            real_path: self.real_path@,
            display_path: self.display_path@,
            canonical_path: self.canonical_path@,
            repos: repo_entries_view(self.repos.spec_map()),
        }
    }
}

/// A fresh, empty cache for `root`.
pub open spec fn new_root_entry(root: CanonicalRootView) -> RootCacheEntryView {
    RootCacheEntryView {
        real_path: root.root.path.real_path,
        display_path: root.root.path.display_path,
        canonical_path: root.canonical_path,
        repos: Map::empty(),
    }
}

/// The entry that records `repo`, found at `now`.
pub open spec fn new_repo_entry(repo: CanonicalRepoView, now: int) -> RepoCacheEntryView {
    RepoCacheEntryView { timestamp: now, canonical_path: repo.canonical_path, bare: repo.repo.bare }
}

/// The entries of a root's cache that are fresh at `now`.
pub open spec fn fresh_repos(
    repos: Map<Seq<char>, RepoCacheEntryView>,
    now: int,
    expire: int,
) -> Map<Seq<char>, RepoCacheEntryView> {
    Map::new(
        |k: Seq<char>| repos.contains_key(k) && is_fresh(repos[k].timestamp, now, expire),
        |k: Seq<char>| repos[k],
    )
}

/// A root's cache with only its fresh entries.
pub open spec fn without_stale(e: RootCacheEntryView, now: int, expire: int) -> RootCacheEntryView {
    RootCacheEntryView { repos: fresh_repos(e.repos, now, expire), ..e }
}

impl RootCacheEntry {
    /// A fresh, empty cache for `root`.
    pub fn new(root: &CanonicalRoot) -> (res: Self)
        ensures
            res@ == new_root_entry(root@),
    {
        let res = RootCacheEntry {
            real_path: root.path().as_real_path().to_owned(),
            display_path: root.path().as_display_path().to_owned(),
            canonical_path: root.canonical_path().to_owned(),
            repos: NameMap::new(),
        };
        assert(res@.repos =~= Map::<Seq<char>, RepoCacheEntryView>::empty());
        res
    }

    /// A root's cache as it was stored, with no repositories yet.
    pub fn from_paths(real_path: String, display_path: String, canonical_path: String) -> (res: Self)
        ensures
            res@ == (RootCacheEntryView {
                real_path: real_path@,
                display_path: display_path@,
                canonical_path: canonical_path@,
                repos: Map::empty(),
            }),
    {
        let res = RootCacheEntry { real_path, display_path, canonical_path, repos: NameMap::new() };
        assert(res@.repos =~= Map::<Seq<char>, RepoCacheEntryView>::empty());
        res
    }

    /// The root's real path when it was cached.
    pub fn real_path(&self) -> (res: &str)
        ensures
            res@ == self@.real_path,
    {
        self.real_path.as_str()
    }

    /// The root's displayed path when it was cached.
    pub fn display_path(&self) -> (res: &str)
        ensures
            res@ == self@.display_path,
    {
        self.display_path.as_str()
    }

    /// The root's canonical path when it was cached.
    pub fn canonical_path(&self) -> (res: &str)
        ensures
            res@ == self@.canonical_path,
    {
        self.canonical_path.as_str()
    }

    /// The cached repositories, by relative path, in ascending order of it.
    pub fn repos(&self) -> (res: Vec<(&str, &RepoCacheEntry)>)
        ensures
            forall|i: int|
                0 <= i < res.len() ==> self@.repos.contains_key((#[trigger] res[i]).0@) && self@.repos[res[i].0@]
                    == res[i].1@,
            forall|k: Seq<char>|
                #[trigger] self@.repos.contains_key(k) ==> exists|i: int|
                    0 <= i < res.len() && res[i].0@ == k,
    {
        let res = self.repos.pairs();
        proof {
            assert forall|k: Seq<char>| #[trigger] self@.repos.contains_key(k) implies exists|i: int|
                0 <= i < res.len() && res[i].0@ == k by {
                assert(self.repos.spec_map().contains_key(k));
                assert(self.repos.spec_keys().contains(k));
                let i = choose|i: int|
                    0 <= i < self.repos.spec_keys().len() && self.repos.spec_keys()[i] == k;
                assert(res[i].0@ == k);
            }
        }
        res
    }

    /// Whether the cache was made for the directory `root` now has.
    pub fn is_valid(&self, root: &CanonicalRoot) -> (res: bool)
        ensures
            res == (self@.canonical_path == root@.canonical_path),
    {
        str_eq(self.canonical_path.as_str(), root.canonical_path())
    }

    /// Drops the entries that are no longer fresh at `now`.
    pub fn remove_invalid_repos(&mut self, now: i64, expire: i64)
        ensures
            final(self)@ == without_stale(old(self)@, now as int, expire as int),
    {
        let ghost keep = |e: RepoCacheEntry| is_fresh(e@.timestamp, now as int, expire as int);
        let ghost before = self.repos.spec_map();
        let fresh = |e: &RepoCacheEntry| -> (b: bool)
            ensures
                b == is_fresh(e@.timestamp, now as int, expire as int),
            { e.is_valid(now, expire) };
        self.repos.retain(fresh, Ghost(keep));
        assert(repo_entries_view(filter_map(before, keep)) =~= fresh_repos(
            repo_entries_view(before),
            now as int,
            expire as int,
        ));
    }

    /// The entry for the repository at `relative_path`, if any.
    pub fn get_repo_cache(&self, relative_path: &str) -> (res: Option<&RepoCacheEntry>)
        ensures
            match res {
                Some(e) => self@.repos.contains_key(relative_path@) && e@ == self@.repos[relative_path@],
                None => !self@.repos.contains_key(relative_path@),
            },
    {
        self.repos.get(relative_path)
    }

    /// Records an entry for the repository at `relative_path`.
    pub fn insert_repo_entry(&mut self, relative_path: String, entry: RepoCacheEntry)
        ensures
            final(self)@ == (RootCacheEntryView {
                repos: old(self)@.repos.insert(relative_path@, entry@),
                ..old(self)@
            }),
    {
        let ghost before = self.repos.spec_map();
        let ghost ev = entry@;
        self.repos.insert(relative_path, entry);
        assert(repo_entries_view(self.repos.spec_map()) =~= repo_entries_view(before).insert(
            relative_path@,
            ev,
        ));
    }

    /// Records `repo`, found at `now`, under its relative real path.
    pub fn insert_canonical_repo(&mut self, repo: &CanonicalRepo, now: i64)
        ensures
            final(self)@ == (RootCacheEntryView {
                repos: old(self)@.repos.insert(
                    repo@.repo.relative_path.real_path,
                    new_repo_entry(repo@, now as int),
                ),
                ..old(self)@
            }),
    {
        let relative_path = repo.relative_path().as_real_path().to_owned();
        let entry = RepoCacheEntry {
            timestamp: now,
            canonical_path: repo.canonical_path().to_owned(),
            bare: repo.bare(),
        };
        self.insert_repo_entry(relative_path, entry);
    }
}

/// The cache of every root, by root name, as a mathematical value.
pub type CacheView = Map<Seq<char>, RootCacheEntryView>;

/// The cache of every root, by root name.
#[derive(Debug)]
pub struct Cache {
    roots: NameMap<RootCacheEntry>,
}

/// The views of the values of a map.
pub open spec fn root_entries_view(m: Map<Seq<char>, RootCacheEntry>) -> CacheView {
    m.map_values(|e: RootCacheEntry| e@)
}

impl View for Cache {
    type V = CacheView;

    closed spec fn view(&self) -> CacheView {
        root_entries_view(self.roots.spec_map())
    }
}

/// The cache after every root's stale entries are dropped.
pub open spec fn cache_without_stale(c: CacheView, now: int, expire: int) -> CacheView {
    c.map_values(|e: RootCacheEntryView| without_stale(e, now, expire))
}

/// The cache after a lookup under `root`: a root entry made for another directory is dropped.
pub open spec fn after_root_lookup(c: CacheView, root: CanonicalRootView) -> CacheView {
    if c.contains_key(root.root.name) && c[root.root.name].canonical_path != root.canonical_path {
        c.remove(root.root.name)
    } else {
        c
    }
}

/// The cache after making sure `root` has an entry for its current directory: an entry made
/// for another directory is replaced by an empty one.
pub open spec fn with_root_entry(c: CacheView, root: CanonicalRootView) -> CacheView {
    if c.contains_key(root.root.name) && c[root.root.name].canonical_path == root.canonical_path {
        c
    } else {
        c.insert(root.root.name, new_root_entry(root))
    }
}

/// The cache after recording `repo`, found under `root` at `now`.
pub open spec fn with_repo(c: CacheView, root: CanonicalRootView, repo: CanonicalRepoView, now: int) -> CacheView {
    let c1 = with_root_entry(c, root);
    let e = c1[root.root.name];
    c1.insert(
        root.root.name,
        RootCacheEntryView {
            repos: e.repos.insert(repo.repo.relative_path.real_path, new_repo_entry(repo, now)),
            ..e
        },
    )
}

/// What a lookup of `relative_path` under `root` gives: the cached repository, where the root's
/// entry was made for its current directory and records that path.
pub open spec fn cache_lookup(c: CacheView, root: CanonicalRootView, relative_path: Seq<char>) -> Option<CanonicalRepoView> {
    if c.contains_key(root.root.name) && c[root.root.name].canonical_path == root.canonical_path
        && c[root.root.name].repos.contains_key(relative_path) {
        Some(cached_repo(root.root, relative_path, c[root.root.name].repos[relative_path]))
    } else {
        None
    }
}

impl Cache {
    /// An empty cache.
    pub fn new() -> (res: Self)
        ensures
            res@ == Map::<Seq<char>, RootCacheEntryView>::empty(),
    {
        let res = Cache { roots: NameMap::new() };
        assert(res@ =~= Map::<Seq<char>, RootCacheEntryView>::empty());
        res
    }

    /// Records the cache of the root named `name`.
    pub fn insert_root_entry(&mut self, name: String, entry: RootCacheEntry)
        ensures
            final(self)@ == old(self)@.insert(name@, entry@),
    {
        let ghost before = self.roots.spec_map();
        let ghost ev = entry@;
        self.roots.insert(name, entry);
        assert(root_entries_view(self.roots.spec_map()) =~= root_entries_view(before).insert(
            name@,
            ev,
        ));
    }

    /// The roots' caches, by name, in ascending order of it.
    pub fn roots(&self) -> (res: Vec<(&str, &RootCacheEntry)>)
        ensures
            forall|i: int|
                0 <= i < res.len() ==> self@.contains_key((#[trigger] res[i]).0@) && self@[res[i].0@]
                    == res[i].1@,
            forall|k: Seq<char>|
                #[trigger] self@.contains_key(k) ==> exists|i: int|
                    0 <= i < res.len() && res[i].0@ == k,
    {
        let res = self.roots.pairs();
        proof {
            assert forall|k: Seq<char>| #[trigger] self@.contains_key(k) implies exists|i: int|
                0 <= i < res.len() && res[i].0@ == k by {
                assert(self.roots.spec_map().contains_key(k));
                assert(self.roots.spec_keys().contains(k));
                let i = choose|i: int|
                    0 <= i < self.roots.spec_keys().len() && self.roots.spec_keys()[i] == k;
                assert(res[i].0@ == k);
            }
        }
        res
    }

    /// Drops, in every root, the entries that are no longer fresh at `now`.
    pub fn remove_invalid_repos(&mut self, now: i64, expire: i64)
        ensures
            final(self)@ == cache_without_stale(old(self)@, now as int, expire as int),
    {
        let ghost rel = |e: RootCacheEntry, r: RootCacheEntry|
            r@ == without_stale(e@, now as int, expire as int);
        let ghost before = self.roots.spec_map();
        let prune = |e: RootCacheEntry| -> (r: RootCacheEntry)
            ensures
                r@ == without_stale(e@, now as int, expire as int),
            {
                let mut e = e;
                e.remove_invalid_repos(now, expire);
                e
            };
        self.roots.update_values(prune, Ghost(rel));
        assert(self@ =~= cache_without_stale(old(self)@, now as int, expire as int));
    }

    /// Whether `root` has a cache made for its current directory; an entry made for another
    /// directory is dropped.
    pub fn get_root_cache(&mut self, root: &CanonicalRoot) -> (res: Option<&RootCacheEntry>)
        ensures
            final(self)@ == after_root_lookup(old(self)@, root@),
            match res {
                Some(e) => final(self)@.contains_key(root@.root.name) && e@ == final(self)@[root@.root.name]
                    && e@.canonical_path == root@.canonical_path,
                None => !(old(self)@.contains_key(root@.root.name) && old(self)@[root@.root.name].canonical_path
                    == root@.canonical_path),
            },
    {
        let valid = match self.roots.get(root.name()) {
            Some(entry) => Some(entry.is_valid(root)),
            None => None,
        };
        match valid {
            None => None,
            Some(false) => {
                let ghost before = self.roots.spec_map();
                let _ = self.roots.remove(root.name());
                assert(root_entries_view(self.roots.spec_map()) =~= root_entries_view(before).remove(
                    root@.root.name,
                ));
                None
            },
            Some(true) => self.roots.get(root.name()),
        }
    }

    /// Makes sure `root` has a cache made for its current directory, replacing one made for
    /// another directory by an empty one.
    pub fn insert_root_cache(&mut self, root: &CanonicalRoot)
        ensures
            final(self)@ == with_root_entry(old(self)@, root@),
    {
        let valid = match self.roots.get(root.name()) {
            Some(entry) => entry.is_valid(root),
            None => false,
        };
        if !valid {
            self.insert_root_entry(root.name().to_owned(), RootCacheEntry::new(root));
        }
    }

    /// Records `repo`, found under `root` at `now`.
    pub fn insert_repo(&mut self, root: &CanonicalRoot, repo: &CanonicalRepo, now: i64)
        ensures
            final(self)@ == with_repo(old(self)@, root@, repo@, now as int),
    {
        self.insert_root_cache(root);
        let ghost c1 = self@;
        let ghost before = self.roots.spec_map();
        assert(c1.contains_key(root@.root.name));
        assert(c1.dom() == root_entries_view(before).dom());
        assert(before.contains_key(root@.root.name));
        match self.roots.remove(root.name()) {
            Some(entry) => {
                let mut entry = entry;
                entry.insert_canonical_repo(repo, now);
                self.insert_root_entry(root.name().to_owned(), entry);
                assert(root_entries_view(before.remove(root@.root.name)) =~= c1.remove(root@.root.name));
                assert(self@ =~= with_repo(old(self)@, root@, repo@, now as int));
            },
            None => {
                assert(false);
            },
        }
    }
}

/// The repository cache with the time it works at, as a mathematical value.
pub struct RepoCacheView {
    pub now: Option<int>,
    pub cache: CacheView,
}

/// The repository cache, and the time at which it records what it is told; that time is set
/// when the cache is loaded or cleared.
#[derive(Debug)]
pub struct RepoCache {
    now: Option<i64>,
    cache: Cache,
}

impl View for RepoCache {
    type V = RepoCacheView;

    closed spec fn view(&self) -> RepoCacheView {
        RepoCacheView {
            now: match self.now {
                Some(t) => Some(t as int),
                None => None,
            },
            cache: self.cache@,
        }
    }
}

/// The view of an optional cache.
pub open spec fn opt_cache_view(c: Option<Cache>) -> CacheView {
    match c {
        Some(c) => c@,
        None => Map::empty(),
    }
}

impl RepoCache {
    /// An empty cache with no time yet.
    pub fn new() -> (res: Self)
        ensures
            res@ == (RepoCacheView { now: None, cache: Map::empty() }),
    {
        RepoCache { now: None, cache: Cache::new() }
    }

    /// Takes the stored cache (an empty one where nothing was stored), drops what is no longer
    /// fresh at `now`, and works at `now` from then on.
    pub fn load(&mut self, stored: Option<Cache>, now: i64, expire: i64)
        ensures
            final(self)@ == (RepoCacheView {
                now: Some(now as int),
                cache: cache_without_stale(opt_cache_view(stored), now as int, expire as int),
            }),
    {
        let mut cache = match stored {
            Some(c) => c,
            None => Cache::new(),
        };
        cache.remove_invalid_repos(now, expire);
        self.cache = cache;
        self.now = Some(now);
    }

    /// Empties the cache and works at `now` from then on.
    pub fn clear(&mut self, now: i64)
        ensures
            final(self)@ == (RepoCacheView { now: Some(now as int), cache: Map::empty() }),
    {
        self.now = Some(now);
        self.cache = Cache::new();
    }

    /// The cache, to be stored.
    pub fn cache(&self) -> (res: &Cache)
        ensures
            res@ == self@.cache,
    {
        &self.cache
    }

    /// The cached repository at `relative_path` under `root`, if the cache has one for the
    /// root's current directory (see `cache_lookup`); a root entry made for another directory
    /// is dropped.
    pub fn get(&mut self, root: &CanonicalRoot, relative_path: &str) -> (res: Option<CanonicalRepo>)
        ensures
            final(self)@ == (RepoCacheView {
                cache: after_root_lookup(old(self)@.cache, root@),
                ..old(self)@
            }),
            match res {
                Some(r) => cache_lookup(old(self)@.cache, root@, relative_path@) == Some(r@),
                None => cache_lookup(old(self)@.cache, root@, relative_path@) is None,
            },
    {
        let root_cache = match self.cache.get_root_cache(root) {
            Some(c) => c,
            None => return None,
        };
        let repo_cache = match root_cache.get_repo_cache(relative_path) {
            Some(r) => r,
            None => return None,
        };
        Some(repo_cache.to_canonical_repo(root.as_root(), relative_path.to_owned()))
    }

    /// Records `repo`, found under `root`, at the cache's time. The cache must have been loaded
    /// or cleared first.
    pub fn insert(&mut self, root: &CanonicalRoot, repo: &CanonicalRepo)
        requires
            old(self)@.now is Some,
        ensures
            final(self)@ == (RepoCacheView {
                cache: with_repo(old(self)@.cache, root@, repo@, old(self)@.now->0),
                ..old(self)@
            }),
    {
        let now = match self.now {
            Some(t) => t,
            None => vstd::pervasive::unreached(),
        };
        self.cache.insert_repo(root, repo, now);
    }
}

/// A repository just recorded is found again under the same root and relative path, with the
/// canonical directory and bareness it was recorded with.
pub proof fn lemma_lookup_after_insert(
    c: CacheView,
    root: CanonicalRootView,
    repo: CanonicalRepoView,
    now: int,
)
    ensures
        cache_lookup(with_repo(c, root, repo, now), root, repo.repo.relative_path.real_path)
            == Some(
            cached_repo(root.root, repo.repo.relative_path.real_path, new_repo_entry(repo, now)),
        ),
{
}

/// Recording a repository leaves the other repositories of a root whose cache was made for its
/// current directory as they were.
pub proof fn lemma_insert_keeps_others(
    c: CacheView,
    root: CanonicalRootView,
    repo: CanonicalRepoView,
    now: int,
    relative_path: Seq<char>,
)
    requires
        relative_path != repo.repo.relative_path.real_path,
        c.contains_key(root.root.name),
        c[root.root.name].canonical_path == root.canonical_path,
    ensures
        cache_lookup(with_repo(c, root, repo, now), root, relative_path) == cache_lookup(
            c,
            root,
            relative_path,
        ),
{
}

/// Recording a repository for a root whose cache was made for another directory forgets what
/// that cache held.
pub proof fn lemma_insert_into_moved_root(
    c: CacheView,
    root: CanonicalRootView,
    repo: CanonicalRepoView,
    now: int,
    relative_path: Seq<char>,
)
    requires
        relative_path != repo.repo.relative_path.real_path,
        !(c.contains_key(root.root.name) && c[root.root.name].canonical_path == root.canonical_path),
    ensures
        cache_lookup(with_repo(c, root, repo, now), root, relative_path) is None,
{
}

/// A lookup gives the same answer before and after the lookup's own clean-up.
pub proof fn lemma_lookup_after_cleanup(c: CacheView, root: CanonicalRootView, relative_path: Seq<char>)
    ensures
        cache_lookup(after_root_lookup(c, root), root, relative_path) == cache_lookup(
            c,
            root,
            relative_path,
        ),
{
}

/// After stale entries are dropped, every entry left is fresh, and every fresh entry is left.
pub proof fn lemma_without_stale_fresh(c: CacheView, now: int, expire: int, name: Seq<char>, relative_path: Seq<char>)
    ensures
        cache_without_stale(c, now, expire).contains_key(name) == c.contains_key(name),
        c.contains_key(name) ==> (cache_without_stale(c, now, expire)[name].repos.contains_key(
            relative_path,
        ) <==> (c[name].repos.contains_key(relative_path) && is_fresh(
            c[name].repos[relative_path].timestamp,
            now,
            expire,
        ))),
{
}

/// A second lookup's clean-up changes nothing more.
pub proof fn lemma_cleanup_idempotent(c: CacheView, root: CanonicalRootView)
    ensures
        after_root_lookup(after_root_lookup(c, root), root) == after_root_lookup(c, root),
{
}

/// Dropping stale entries a second time, at the same time, drops nothing more.
pub proof fn lemma_without_stale_idempotent(c: CacheView, now: int, expire: int)
    ensures
        cache_without_stale(cache_without_stale(c, now, expire), now, expire)
            == cache_without_stale(c, now, expire),
{
    let once = cache_without_stale(c, now, expire);
    assert forall|k: Seq<char>| #[trigger] once.contains_key(k) implies without_stale(
        once[k],
        now,
        expire,
    ) == once[k] by {
        assert(fresh_repos(once[k].repos, now, expire) =~= once[k].repos);
    }
    assert(cache_without_stale(once, now, expire) =~= once);
}

} // verus!
