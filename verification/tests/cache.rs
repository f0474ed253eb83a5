use souko::pretty_path::PrettyPath;
use souko::repo::{CanonicalRepo, CanonicalRoot, Repo};
use souko::repo_cache::{Cache, RepoCache, RepoCacheEntry, RootCacheEntry};
use souko::roots::Root;

fn root(name: &str, real: &str, canonical: &str) -> CanonicalRoot {
    let root = Root::new(
        name.to_owned(),
        PrettyPath::from_pair(real.to_owned(), real.to_owned()),
    );
    CanonicalRoot::new(root, canonical.to_owned())
}

fn repo(root: &CanonicalRoot, rel: &str, canonical: &str, bare: bool) -> CanonicalRepo {
    let repo = Repo::from_relative_path(
        root.as_root(),
        PrettyPath::from_real_path(rel.to_owned()),
        bare,
    );
    CanonicalRepo::new(repo, canonical.to_owned())
}

#[test]
fn inserted_repo_is_found_again() {
    let r = root("default", "/data/root", "/real/root");
    let mut cache = RepoCache::new();
    cache.clear(1_000);
    let x = repo(&r, "github.com/a/b", "/real/root/github.com/a/b", true);
    cache.insert(&r, &x);
    let found = cache.get(&r, "github.com/a/b").unwrap();
    assert_eq!(found.canonical_path(), "/real/root/github.com/a/b");
    assert!(found.bare());
    assert_eq!(found.relative_path().as_real_path(), "github.com/a/b");
    assert_eq!(found.path().as_real_path(), "/data/root/github.com/a/b");
    assert!(cache.get(&r, "github.com/a/c").is_none());
}

#[test]
fn moved_root_drops_its_cache() {
    let r = root("default", "/data/root", "/real/root");
    let mut cache = RepoCache::new();
    cache.clear(0);
    cache.insert(&r, &repo(&r, "x", "/real/root/x", false));
    let moved = root("default", "/data/root", "/elsewhere");
    assert!(cache.get(&moved, "x").is_none());
    assert!(cache.cache().roots().is_empty());
    assert!(cache.get(&r, "x").is_none());
}

#[test]
fn insert_into_moved_root_starts_afresh() {
    let r = root("default", "/data/root", "/real/root");
    let mut cache = RepoCache::new();
    cache.clear(0);
    cache.insert(&r, &repo(&r, "x", "/real/root/x", false));
    let moved = root("default", "/data/root", "/elsewhere");
    cache.insert(&moved, &repo(&moved, "y", "/elsewhere/y", false));
    assert!(cache.get(&moved, "x").is_none());
    assert!(cache.get(&moved, "y").is_some());
}

#[test]
fn load_drops_stale_entries() {
    let mut stored = Cache::new();
    let mut entry = RootCacheEntry::from_paths("/d".to_owned(), "~/d".to_owned(), "/real".to_owned());
    entry.insert_repo_entry("old".to_owned(), RepoCacheEntry::new(100, "/real/old".to_owned(), false));
    entry.insert_repo_entry("new".to_owned(), RepoCacheEntry::new(900, "/real/new".to_owned(), false));
    entry.insert_repo_entry("edge".to_owned(), RepoCacheEntry::new(500, "/real/edge".to_owned(), false));
    stored.insert_root_entry("default".to_owned(), entry);

    let mut cache = RepoCache::new();
    cache.load(Some(stored), 1_000, 500);
    let r = root("default", "/d", "/real");
    assert!(cache.get(&r, "old").is_none());
    assert!(cache.get(&r, "edge").is_some());
    assert!(cache.get(&r, "new").is_some());
}

#[test]
fn entry_freshness_at_extremes() {
    let e = RepoCacheEntry::new(i64::MIN, "/x".to_owned(), false);
    assert!(!e.is_valid(i64::MAX, i64::MAX));
    let e = RepoCacheEntry::new(i64::MAX, "/x".to_owned(), false);
    assert!(e.is_valid(i64::MIN, 0));
    assert!(e.is_valid(5, -1));
}

#[test]
fn roots_are_listed_by_name() {
    let mut cache = RepoCache::new();
    cache.clear(7);
    let b = root("b", "/b", "/b");
    let a = root("a", "/a", "/a");
    cache.insert(&b, &repo(&b, "x", "/b/x", false));
    cache.insert(&a, &repo(&a, "y", "/a/y", false));
    let names: Vec<&str> = cache.cache().roots().iter().map(|(n, _)| *n).collect();
    assert_eq!(names, vec!["a", "b"]);
    let (_, entry) = cache.cache().roots()[0];
    let repos = entry.repos();
    assert_eq!(repos.len(), 1);
    assert_eq!(repos[0].0, "y");
    assert_eq!(repos[0].1.timestamp(), 7);
}
